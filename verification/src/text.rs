//! Plain operations on text, stated over sequences of characters.

use vstd::prelude::*;
use vstd::string::*;

verus! {

/// The texts of a list of strings.
pub open spec fn texts(list: Seq<String>) -> Seq<Seq<char>> {
    list.map_values(|s: String| s@)
}

/// The text of a string that may be missing.
pub open spec fn text_of(s: Option<String>) -> Option<Seq<char>> {
    match s {
        Some(t) => Some(t@),
        None => None,
    }
}

/// `needle` stands somewhere inside `hay`.
pub open spec fn occurs_in(needle: Seq<char>, hay: Seq<char>) -> bool {
    exists|at: int| #[trigger] occurs_at(needle, hay, at)
}

/// `needle` stands inside `hay`, starting at position `at`.
pub open spec fn occurs_at(needle: Seq<char>, hay: Seq<char>, at: int) -> bool {
    &&& 0 <= at
    &&& at + needle.len() <= hay.len()
    &&& hay.subrange(at, at + needle.len()) == needle
}

/// The lower-case form of an ASCII capital; any other character as it is.
pub open spec fn lower_char(c: char) -> char {
    if 'A' <= c <= 'Z' {
        (c as u32 + 32) as char
    } else {
        c
    }
}

/// A text with its ASCII capitals in lower case.
pub open spec fn lower_text(s: Seq<char>) -> Seq<char> {
    s.map_values(|c: char| lower_char(c))
}

/// The characters with the Unicode property White_Space.
pub open spec fn white_space(c: char) -> bool {
    let n = c as u32;
    ||| 0x09 <= n <= 0x0d
    ||| n == 0x20
    ||| n == 0x85
    ||| n == 0xa0
    ||| n == 0x1680
    ||| 0x2000 <= n <= 0x200a
    ||| n == 0x2028
    ||| n == 0x2029
    ||| n == 0x202f
    ||| n == 0x205f
    ||| n == 0x3000
}

/// A text without the white space at its two ends.
#[verifier::opaque]
pub open spec fn trimmed(s: Seq<char>) -> Seq<char>
    decreases s.len(),
{
    if s.len() == 0 {
        s
    } else if white_space(s.first()) {
        trimmed(s.drop_first())
    } else if white_space(s.last()) {
        trimmed(s.drop_last())
    } else {
        s
    }
}

/// Whether two texts hold the same characters.
pub fn same_text(a: &str, b: &str) -> (r: bool)
    ensures
        r == (a@ == b@),
{
    a.to_owned() == b.to_owned()
}

/// The characters of a text, one by one.
pub fn chars_of(s: &str) -> (v: Vec<char>)
    ensures
        v@ == s@,
{
    let mut v: Vec<char> = Vec::new();
    for c in it: s.chars()
        invariant
            v@ == it.seq().take(it.index()),
            it.seq() == s@,
    {
        v.push(c);
    }
    v
}

/// Whether `s` begins with `prefix`.
pub fn begins_with(s: &str, prefix: &str) -> (r: bool)
    ensures
        r == prefix@.is_prefix_of(s@),
{
    let a: Vec<char> = chars_of(s);
    let b: Vec<char> = chars_of(prefix);
    matches_at(&b, &a, 0)
}

/// Whether `needle` stands in `hay` at position `at`.
fn matches_at(needle: &Vec<char>, hay: &Vec<char>, at: usize) -> (r: bool)
    requires
        at <= hay@.len(),
    ensures
        r == occurs_at(needle@, hay@, at as int),
        at == 0 ==> r == needle@.is_prefix_of(hay@),
{
    if needle.len() > hay.len() - at {
        return false;
    }
    let mut i: usize = 0;
    assert(hay@.len() == hay.len());
    while i < needle.len()
        invariant
            at + needle@.len() <= hay@.len() <= usize::MAX,
            i <= needle@.len(),
            forall|k: int| 0 <= k < i ==> needle@[k] == hay@[at + k],
        decreases needle@.len() - i,
    {
        if needle[i] != hay[at + i] {
            proof {
                let window = hay@.subrange(at as int, at + needle@.len());
                assert(window[i as int] != needle@[i as int]);
                if at == 0 && needle@.is_prefix_of(hay@) {
                    assert(needle@ =~= hay@.subrange(0, needle@.len() as int));
                }
            }
            return false;
        }
        i += 1;
    }
    assert(hay@.subrange(at as int, at + needle@.len()) =~= needle@);
    true
}

/// The characters of a text, with ASCII capitals in lower case.
pub fn lower_chars(s: &str) -> (v: Vec<char>)
    ensures
        v@ == lower_text(s@),
{
    let chars: Vec<char> = chars_of(s);
    let mut v: Vec<char> = Vec::new();
    let mut i: usize = 0;
    while i < chars.len()
        invariant
            i <= chars@.len(),
            v@ == lower_text(chars@.take(i as int)),
        decreases chars@.len() - i,
    {
        let c: char = chars[i];
        if 'A' <= c && c <= 'Z' {
            v.push(((c as u8) + 32) as char);
        } else {
            v.push(c);
        }
        i += 1;
        assert(lower_text(chars@.take(i as int)) =~= lower_text(chars@.take(i - 1)).push(
            lower_char(c),
        ));
    }
    assert(chars@.take(i as int) =~= chars@);
    v
}

/// Whether `needle` stands somewhere inside `hay`.
pub fn occurs(needle: &Vec<char>, hay: &Vec<char>) -> (r: bool)
    ensures
        r == occurs_in(needle@, hay@),
{
    let mut at: usize = 0;
    while at <= hay.len()
        invariant
            at <= hay@.len() + 1,
            forall|k: int| 0 <= k < at ==> !occurs_at(needle@, hay@, k),
        decreases hay@.len() + 1 - at,
    {
        if matches_at(needle, hay, at) {
            return true;
        }
        if at == hay.len() {
            return false;
        }
        at += 1;
    }
    false
}

/// Whether a list of strings holds the text `s`.
pub fn lists(list: &Vec<String>, s: &str) -> (r: bool)
    ensures
        r == texts(list@).contains(s@),
{
    let mut i: usize = 0;
    while i < list.len()
        invariant
            i <= list@.len(),
            forall|k: int| 0 <= k < i ==> texts(list@)[k] != s@,
        decreases list@.len() - i,
    {
        if same_text(list[i].as_str(), s) {
            assert(texts(list@)[i as int] == s@);
            return true;
        }
        i += 1;
    }
    false
}

/// A copy of a list of strings.
pub fn copy_list(list: &Vec<String>) -> (r: Vec<String>)
    ensures
        r@ == list@,
{
    let mut r: Vec<String> = Vec::new();
    let mut i: usize = 0;
    while i < list.len()
        invariant
            i <= list@.len(),
            r@ == list@.take(i as int),
        decreases list@.len() - i,
    {
        r.push(list[i].clone());
        i += 1;
        assert(list@.take(i as int) =~= list@.take(i - 1).push(list@[i - 1]));
    }
    assert(list@.take(i as int) =~= list@);
    r
}

/// Whether a character has the Unicode property White_Space.
pub fn is_white_space(c: char) -> (r: bool)
    ensures
        r == white_space(c),
{
    let n: u32 = c as u32;
    (0x09 <= n && n <= 0x0d) || n == 0x20 || n == 0x85 || n == 0xa0 || n == 0x1680 || (0x2000 <= n
        && n <= 0x200a) || n == 0x2028 || n == 0x2029 || n == 0x202f || n == 0x205f || n == 0x3000
}

/// One step of trimming: a blank at either end goes, and a text that has none stays.
proof fn lemma_trim_step(s: Seq<char>)
    ensures
        s.len() == 0 ==> trimmed(s) == s,
        s.len() > 0 && white_space(s.first()) ==> trimmed(s) == trimmed(s.drop_first()),
        s.len() > 0 && !white_space(s.first()) && white_space(s.last()) ==> trimmed(s) == trimmed(
            s.drop_last(),
        ),
        s.len() > 0 && !white_space(s.first()) && !white_space(s.last()) ==> trimmed(s) == s,
{
    reveal(trimmed);
}

/// A text without the white space at its two ends.
pub fn trim(s: &str) -> (r: String)
    ensures
        r@ == trimmed(s@),
{
    let chars: Vec<char> = chars_of(s);
    let mut from: usize = 0;
    let mut to: usize = chars.len();
    assert(s@.subrange(0, to as int) =~= s@);
    while from < to && is_white_space(chars[from])
        invariant
            chars@ == s@,
            from <= to == s@.len(),
            trimmed(s@) == trimmed(s@.subrange(from as int, to as int)),
        decreases to - from,
    {
        proof {
            lemma_trim_step(s@.subrange(from as int, to as int));
            assert(s@.subrange(from as int, to as int).drop_first() =~= s@.subrange(
                from + 1,
                to as int,
            ));
        }
        from += 1;
    }
    while from < to && is_white_space(chars[to - 1])
        invariant
            chars@ == s@,
            from <= to <= s@.len(),
            from < to ==> !white_space(s@[from as int]),
            trimmed(s@) == trimmed(s@.subrange(from as int, to as int)),
        decreases to - from,
    {
        proof {
            lemma_trim_step(s@.subrange(from as int, to as int));
            assert(s@.subrange(from as int, to as int).drop_last() =~= s@.subrange(
                from as int,
                to - 1,
            ));
        }
        to -= 1;
    }
    proof {
        lemma_trim_step(s@.subrange(from as int, to as int));
    }
    s.substring_char(from, to).to_owned()
}

/// Two texts, one after the other.
pub fn join(a: &str, b: &str) -> (r: String)
    ensures
        r@ == a@ + b@,
{
    a.to_owned().concat(b)
}

} // verus!
