//! What the plain operations on levels, times, texts and addresses do, and how an input
//! device is chosen, said of the calls that make it.

use crate::capture::{choose_input_device, pulse_default_source_name, InputChoice};
use crate::clock::{clock_millis, millis_at, now_ms, since_1970, whole_millis};
use crate::level::{Level, Seconds};
use crate::text::{
    begins_with, chars_of, copy_list, join, lists, lower_chars, lower_text, occurs, occurs_at,
    occurs_in, same_text, text_of, texts, trim, trimmed, white_space,
};
use crate::web::{https_url, local_lan_ip};
use std::time::SystemTime;
use vstd::prelude::*;
use vstd::utf8::*;

verus! {

/// Holding a level leaves everything between 0.0 and 2.0, the negative zero and every
/// not-a-number as it is; what is above 2.0 becomes 2.0, and what is below 0.0 becomes
/// 0.0.
pub proof fn law_level_is_held(level: Level, r: Level, unity: Level)
    requires
        call_ensures(Level::clamp, (level,), r),
        call_ensures(Level::unity, (), unity),
    ensures
        level.bits <= 0x4000_0000 ==> r == level,
        0x4000_0000 < level.bits <= 0x7f80_0000 ==> r.bits == 0x4000_0000,
        0x7f80_0000 < level.bits <= 0x8000_0000 ==> r == level,
        0x8000_0000 < level.bits <= 0xff80_0000 ==> r.bits == 0,
        0xff80_0000 < level.bits ==> r == level,
        unity.bits == 0x3f80_0000,
{
}

/// A level is inaudible where it is a zero or a negative number.
pub proof fn law_level_is_inaudible(level: Level, r: bool)
    requires
        call_ensures(Level::is_inaudible, (level,), r),
    ensures
        r <==> level.bits == 0 || 0x8000_0000 <= level.bits <= 0xff80_0000,
{
}

/// A time that is a number and not below 0.0 stays; any other becomes 0.0.
pub proof fn law_time_is_not_negative(time: Seconds, r: Seconds, zero: Seconds)
    requires
        call_ensures(Seconds::not_negative, (time,), r),
        call_ensures(Seconds::zero, (), zero),
    ensures
        time.bits <= 0x7ff0_0000_0000_0000 ==> r == time,
        time.bits > 0x7ff0_0000_0000_0000 ==> r.bits == 0,
        zero.bits == 0,
{
}

/// The milliseconds of a clock are shown as they are, up to what 64 bits hold, and
/// beyond that as what is left over; a clock that stands before its start shows 0.
pub proof fn law_clock_shows_its_milliseconds(elapsed: Option<u128>, r: u64)
    requires
        call_ensures(clock_millis, (elapsed,), r),
    ensures
        elapsed is None ==> r == 0,
        elapsed matches Some(ms) ==> (ms - r) % 0x1_0000_0000_0000_0000 == 0 && (ms <= u64::MAX
            ==> r == ms),
{
}

/// A time is shown by the whole milliseconds since the start of 1970, and one before it
/// by 0; the time now by those of a reading that the clock gave.
pub proof fn law_time_is_shown_since_1970(time: SystemTime, r: u64, shown: u64)
    requires
        call_ensures(millis_at, (time,), r),
        call_ensures(now_ms, (), shown),
    ensures
        since_1970(time) is None ==> r == 0,
        since_1970(time) matches Some(elapsed) ==> (r - whole_millis(elapsed))
            % 0x1_0000_0000_0000_0000 == 0 && (whole_millis(elapsed) <= u64::MAX ==> r
            == whole_millis(elapsed)),
        exists|now: SystemTime| #[trigger]
            call_ensures(SystemTime::now, (), now) && match since_1970(now) {
                Some(elapsed) => whole_millis(elapsed) <= u64::MAX ==> shown == whole_millis(
                    elapsed,
                ),
                None => shown == 0,
            },
{
    let now = choose|now: SystemTime|
        shown == #[trigger] crate::clock::epoch_millis(now) && call_ensures(
            SystemTime::now,
            (),
            now,
        );
    assert(call_ensures(SystemTime::now, (), now));
}

/// Texts are compared, copied and put together character by character.
pub proof fn law_texts_go_by_their_characters(
    a: &str,
    b: &str,
    same: bool,
    begins: bool,
    chars: Vec<char>,
    joined: String,
)
    requires
        call_ensures(same_text, (a, b), same),
        call_ensures(begins_with, (a, b), begins),
        call_ensures(chars_of, (a,), chars),
        call_ensures(join, (a, b), joined),
    ensures
        same <==> a@ == b@,
        begins <==> b@.len() <= a@.len() && forall|i: int|
            0 <= i < b@.len() ==> a@[i] == #[trigger] b@[i],
        chars@ == a@,
        joined@.len() == a@.len() + b@.len(),
        forall|i: int| 0 <= i < a@.len() ==> #[trigger] joined@[i] == a@[i],
        forall|i: int| 0 <= i < b@.len() ==> joined@[a@.len() + i] == #[trigger] b@[i],
{
    if b@.is_prefix_of(a@) {
        assert forall|i: int| 0 <= i < b@.len() implies a@[i] == #[trigger] b@[i] by {
            assert(a@.subrange(0, b@.len() as int)[i] == a@[i]);
        }
    }
    if b@.len() <= a@.len() && forall|i: int| 0 <= i < b@.len() ==> a@[i] == #[trigger] b@[i] {
        assert(a@.subrange(0, b@.len() as int) =~= b@);
    }
}

/// Lower-case letters take the place of ASCII capitals, and no other character changes.
pub proof fn law_only_capitals_change(s: &str, r: Vec<char>)
    requires
        call_ensures(lower_chars, (s,), r),
    ensures
        r@.len() == s@.len(),
        forall|i: int|
            0 <= i < s@.len() ==> if 'A' <= s@[i] <= 'Z' {
                #[trigger] r@[i] as u32 == s@[i] as u32 + 32
            } else {
                r@[i] == s@[i]
            },
{
}

/// A word is found where its characters stand in a row.
pub proof fn law_word_is_found_where_it_stands(needle: &Vec<char>, hay: &Vec<char>, r: bool)
    requires
        call_ensures(occurs, (needle, hay), r),
    ensures
        r <==> exists|at: int| #[trigger] stands_at(needle@, hay@, at),
{
    lemma_stands(needle@, hay@);
}

/// A list holds a text where one of its strings has it; a copy of a list is the same.
pub proof fn law_lists_hold_their_texts(
    list: &Vec<String>,
    s: &str,
    r: bool,
    copy: Vec<String>,
)
    requires
        call_ensures(lists, (list, s), r),
        call_ensures(copy_list, (list,), copy),
    ensures
        r <==> exists|i: int| 0 <= i < list@.len() && #[trigger] list@[i]@ == s@,
        copy@ == list@,
{
    let all = texts(list@);
    if r {
        let i = choose|i: int| 0 <= i < all.len() && all[i] == s@;
        assert(list@[i]@ == s@);
    }
    if exists|i: int| 0 <= i < list@.len() && #[trigger] list@[i]@ == s@ {
        let i = choose|i: int| 0 <= i < list@.len() && #[trigger] list@[i]@ == s@;
        assert(all[i] == s@);
    }
}

/// Trimming takes away white space at the two ends, all of it and nothing else.
pub proof fn law_trimming_takes_the_white_space_at_the_ends(s: &str, r: String)
    requires
        call_ensures(trim, (s,), r),
    ensures
        exists|from: int, to: int| #[trigger] is_trimmed(s@, from, to) && r@ == s@.subrange(from, to),
{
    lemma_trimmed(s@);
}

/// What a command printed names the source, without the white space at its ends, where
/// the command succeeded and printed a text that is not blank.
pub proof fn law_source_is_what_was_printed(success: bool, stdout: Vec<u8>, r: Option<String>)
    requires
        call_ensures(pulse_default_source_name, (success, stdout), r),
    ensures
        !success || !valid_utf8(stdout@) ==> r is None,
        success && valid_utf8(stdout@) ==> exists|from: int, to: int| #[trigger]
            is_trimmed(decode_utf8(stdout@), from, to) && text_of(r) == (if from < to {
                Some(decode_utf8(stdout@).subrange(from, to))
            } else {
                None
            }),
{
    if success && valid_utf8(stdout@) {
        let text = decode_utf8(stdout@);
        lemma_trimmed(text);
        let (from, to) = choose|from: int, to: int| #[trigger]
            is_trimmed(text, from, to) && trimmed(text) == text.subrange(from, to);
        assert(is_trimmed(text, from, to));
        assert(text.subrange(from, to).len() == to - from);
    }
}

/// An input device is chosen by its name, whatever the case of its letters: the first
/// that holds the name of the default source, where any does; else the first that holds
/// the word "monitor", where any does; else the default one. Without any device there is
/// none to choose.
pub proof fn law_device_is_chosen_by_name(
    names: &Vec<String>,
    source: &Option<String>,
    r: InputChoice,
)
    requires
        call_ensures(choose_input_device, (names, source), r),
    ensures
        names@.len() == 0 <==> r == InputChoice::NoDevices,
        (exists|i: int| #[trigger] source_at(names@, *source, i)) ==> (r matches InputChoice::Listed(
            at,
        ) && source_at(names@, *source, at as int) && forall|i: int|
            0 <= i < at ==> !#[trigger] source_at(names@, *source, i)),
        (forall|i: int| !#[trigger] source_at(names@, *source, i)) && (exists|i: int| #[trigger]
            monitor_at(names@, i)) ==> (r matches InputChoice::Listed(at) && monitor_at(
            names@,
            at as int,
        ) && forall|i: int| 0 <= i < at ==> !#[trigger] monitor_at(names@, i)),
        names@.len() > 0 && (forall|i: int| !#[trigger] source_at(names@, *source, i)) && (forall|
            i: int,
        |
            !#[trigger] monitor_at(names@, i)) ==> r == InputChoice::Default,
{
    let all = texts(names@);
    lemma_monitor_is_lower_case();
    assert forall|i: int| #[trigger]
        monitor_at(names@, i) == (0 <= i < all.len() && crate::capture::is_named(
            all[i],
            "monitor"@,
        )) by {
        if 0 <= i < all.len() {
            lemma_named(all[i], "monitor"@);
        }
    }
    if source is Some {
        let word = source->Some_0@;
        assert forall|i: int| #[trigger]
            source_at(names@, *source, i) == (0 <= i < all.len() && crate::capture::is_named(
                all[i],
                lower_text(word),
            )) by {
            if 0 <= i < all.len() {
                lemma_named(all[i], word);
            }
        }
    }
    if r is Listed {
        let at = r->Listed_0 as int;
        assert(source_at(names@, *source, at) || monitor_at(names@, at));
    }
}

/// The address to go to is the same host and path over HTTPS; without a host it is the
/// hub's own, without a path the front page.
pub proof fn law_redirect_keeps_host_and_path(
    host: Option<String>,
    path: Option<String>,
    r: String,
)
    requires
        call_ensures(https_url, (host, path), r),
    ensures
        ({
            let site = if host is Some {
                host->Some_0@
            } else {
                "airlink.y4z.dev"@
            };
            let page = if path is Some {
                path->Some_0@
            } else {
                "/"@
            };
            r@ == "https://"@ + site + page
        }),
{
}

/// The address in the local network is the one that was found; without one it is that
/// of the machine itself.
pub proof fn law_found_address_is_used(found: Option<String>, r: String)
    requires
        call_ensures(local_lan_ip, (found,), r),
    ensures
        found matches Some(ip) ==> r@ == ip@,
        found is None ==> r@ == "127.0.0.1"@,
{
}

/// The characters of a word stand in a row, from a place on.
pub open spec fn stands_at(word: Seq<char>, text: Seq<char>, at: int) -> bool {
    0 <= at && at + word.len() <= text.len() && forall|i: int|
        0 <= i < word.len() ==> text[at + i] == #[trigger] word[i]
}

/// The part of a text that is left without the white space at its ends.
pub open spec fn is_trimmed(text: Seq<char>, from: int, to: int) -> bool {
    &&& 0 <= from <= to <= text.len()
    &&& forall|i: int| 0 <= i < from ==> white_space(#[trigger] text[i])
    &&& forall|i: int| to <= i < text.len() ==> white_space(#[trigger] text[i])
    &&& from < to ==> !white_space(text[from]) && !white_space(text[to - 1])
}

/// The same letter, whatever its case.
pub open spec fn same_letter(a: char, b: char) -> bool {
    ||| a == b
    ||| 'A' <= a <= 'Z' && a as u32 + 32 == b as u32
    ||| 'A' <= b <= 'Z' && b as u32 + 32 == a as u32
}

/// A name holds a word somewhere, whatever the case of the letters.
pub open spec fn named_after(name: Seq<char>, word: Seq<char>) -> bool {
    exists|at: int| #[trigger] stands_loosely(word, name, at)
}

/// The device at a place is named after the default source.
pub open spec fn source_at(names: Seq<String>, source: Option<String>, i: int) -> bool {
    0 <= i < names.len() && (source matches Some(s) && named_after(names[i]@, s@))
}

/// The device at a place is named a monitor.
pub open spec fn monitor_at(names: Seq<String>, i: int) -> bool {
    0 <= i < names.len() && named_after(names[i]@, "monitor"@)
}

/// The characters of a word stand in a row from a place on, whatever their case.
pub open spec fn stands_loosely(word: Seq<char>, text: Seq<char>, at: int) -> bool {
    0 <= at && at + word.len() <= text.len() && forall|i: int|
        0 <= i < word.len() ==> same_letter(text[at + i], #[trigger] word[i])
}

/// Standing in a row, seen as a piece of the text.
proof fn lemma_stands(word: Seq<char>, text: Seq<char>)
    ensures
        occurs_in(word, text) <==> exists|at: int| #[trigger] stands_at(word, text, at),
{
    if occurs_in(word, text) {
        let at = choose|at: int| #[trigger] occurs_at(word, text, at);
        assert forall|i: int| 0 <= i < word.len() implies text[at + i] == #[trigger] word[i] by {
            assert(text.subrange(at, at + word.len())[i] == text[at + i]);
        }
        assert(stands_at(word, text, at));
    }
    if exists|at: int| #[trigger] stands_at(word, text, at) {
        let at = choose|at: int| #[trigger] stands_at(word, text, at);
        assert(text.subrange(at, at + word.len()) =~= word);
        assert(occurs_at(word, text, at));
    }
}

/// The word that is looked for is in lower case already.
proof fn lemma_monitor_is_lower_case()
    ensures
        lower_text("monitor"@) == "monitor"@,
{
    reveal_strlit("monitor");
    assert(lower_text("monitor"@) =~= "monitor"@);
}

/// Looking for a word in lower case in a name in lower case finds it whatever the case.
proof fn lemma_named(name: Seq<char>, word: Seq<char>)
    ensures
        crate::capture::is_named(name, lower_text(word)) == named_after(name, word),
{
    let low_name = lower_text(name);
    let low_word = lower_text(word);
    lemma_stands(low_word, low_name);
    if exists|at: int| #[trigger] stands_at(low_word, low_name, at) {
        let at = choose|at: int| #[trigger] stands_at(low_word, low_name, at);
        assert forall|i: int| 0 <= i < word.len() implies same_letter(
            name[at + i],
            #[trigger] word[i],
        ) by {
            assert(low_name[at + i] == low_word[i]);
        }
        assert(stands_loosely(word, name, at));
    }
    if named_after(name, word) {
        let at = choose|at: int| #[trigger] stands_loosely(word, name, at);
        assert forall|i: int| 0 <= i < low_word.len() implies low_name[at + i]
            == #[trigger] low_word[i] by {
            assert(same_letter(name[at + i], word[i]));
        }
        assert(stands_at(low_word, low_name, at));
    }
}

/// A trimmed text is what is left without the white space at its ends.
proof fn lemma_trimmed(text: Seq<char>)
    ensures
        exists|from: int, to: int| #[trigger]
            is_trimmed(text, from, to) && trimmed(text) == text.subrange(from, to),
    decreases text.len(),
{
    reveal_with_fuel(trimmed, 2);
    if text.len() == 0 {
        assert(is_trimmed(text, 0, 0));
        assert(text.subrange(0, 0) =~= text);
    } else if white_space(text.first()) {
        let rest = text.drop_first();
        lemma_trimmed(rest);
        let (from, to) = choose|from: int, to: int| #[trigger]
            is_trimmed(rest, from, to) && trimmed(rest) == rest.subrange(from, to);
        assert forall|i: int| 0 <= i < from + 1 implies white_space(#[trigger] text[i]) by {
            if i > 0 {
                assert(rest[i - 1] == text[i]);
            }
        }
        assert forall|i: int| to + 1 <= i < text.len() implies white_space(#[trigger] text[i]) by {
            assert(rest[i - 1] == text[i]);
        }
        assert(from < to ==> rest[from] == text[from + 1] && rest[to - 1] == text[to]);
        assert(is_trimmed(text, from + 1, to + 1));
        assert(text.subrange(from + 1, to + 1) =~= rest.subrange(from, to));
    } else if white_space(text.last()) {
        let rest = text.drop_last();
        lemma_trimmed(rest);
        let (from, to) = choose|from: int, to: int| #[trigger]
            is_trimmed(rest, from, to) && trimmed(rest) == rest.subrange(from, to);
        assert forall|i: int| 0 <= i < from implies white_space(#[trigger] text[i]) by {
            assert(rest[i] == text[i]);
        }
        assert forall|i: int| to <= i < text.len() implies white_space(#[trigger] text[i]) by {
            if i < rest.len() {
                assert(rest[i] == text[i]);
            }
        }
        assert(from < to ==> rest[from] == text[from] && rest[to - 1] == text[to - 1]);
        assert(is_trimmed(text, from, to));
        assert(text.subrange(from, to) =~= rest.subrange(from, to));
    } else {
        assert(is_trimmed(text, 0, text.len() as int));
        assert(text.subrange(0, text.len() as int) =~= text);
    }
}

} // verus!
