//! Which source the sound of the system is captured from.

use crate::device::{event_of, ControlEvent, EventView};
use crate::text::{
    chars_of, lower_chars, lower_text, occurs, occurs_in, text_of, texts, trim, trimmed,
};
use vstd::prelude::*;
use vstd::utf8::*;

verus! {

/// A source to capture from.
#[derive(Clone, Copy, Debug, PartialEq, Eq, Structural)]
pub enum InputChoice {
    /// The device at this place in the list.
    Listed(usize),
    /// The device that the system takes by default.
    Default,
    /// There is no device.
    NoDevices,
}

/// The answer to a request to capture the sound of the system, from what is told.
pub open spec fn capture_answer(told: Option<EventView>) -> Seq<char> {
    match told {
        Some(_) => "System stream started."@,
        None => "System stream already running."@,
    }
}

/// The answer to a request to capture the sound of the system, from what the hub tells.
pub fn start_answer(told: &Option<ControlEvent>) -> (r: String)
    ensures
        r@ == capture_answer(event_of(*told)),
{
    match told {
        Some(_) => "System stream started.".to_owned(),
        None => "System stream already running.".to_owned(),
    }
}

/// A name that holds a word, whatever the case of its letters; the word is in lower
/// case.
pub open spec fn is_named(name: Seq<char>, word: Seq<char>) -> bool {
    occurs_in(word, lower_text(name))
}

/// The first name in a list that holds a word.
pub open spec fn is_first_named(names: Seq<Seq<char>>, word: Seq<char>, at: int) -> bool {
    &&& 0 <= at < names.len()
    &&& is_named(names[at], word)
    &&& forall|i: int| 0 <= i < at ==> !is_named(#[trigger] names[i], word)
}

/// No name in a list holds a word.
pub open spec fn none_named(names: Seq<Seq<char>>, word: Seq<char>) -> bool {
    forall|i: int| 0 <= i < names.len() ==> !is_named(#[trigger] names[i], word)
}

/// What a command printed, as text: without the white space at its ends, and `None`
/// where nothing is left or it is no text.
pub open spec fn printed(stdout: Seq<u8>) -> Option<Seq<char>> {
    if valid_utf8(stdout) && trimmed(decode_utf8(stdout)).len() > 0 {
        Some(trimmed(decode_utf8(stdout)))
    } else {
        None
    }
}

/// `String::from_utf8`: the text that bytes encode in UTF-8; an error for any others.
#[verifier::external_body]
fn utf8_text(bytes: Vec<u8>) -> (r: Option<String>)
    ensures
        text_of(r) == (if valid_utf8(bytes@) {
            Some(decode_utf8(bytes@))
        } else {
            None
        }),
{
    String::from_utf8(bytes).ok()
}

/// The name of the default source, from what the command that tells it printed, where
/// the command succeeded.
pub fn pulse_default_source_name(success: bool, stdout: Vec<u8>) -> (r: Option<String>)
    ensures
        text_of(r) == (if success {
            printed(stdout@)
        } else {
            None
        }),
{
    if !success {
        return None;
    }
    match utf8_text(stdout) {
        Some(text) => {
            let name: String = trim(text.as_str());
            if name.as_str().is_empty() {
                None
            } else {
                Some(name)
            }
        },
        None => None,
    }
}

/// The first name in a list that holds a word in lower case.
fn find_named(names: &Vec<String>, word: &Vec<char>) -> (r: Option<usize>)
    ensures
        match r {
            Some(at) => is_first_named(texts(names@), word@, at as int),
            None => none_named(texts(names@), word@),
        },
{
    let mut i: usize = 0;
    while i < names.len()
        invariant
            i <= names@.len(),
            forall|k: int| 0 <= k < i ==> !is_named(#[trigger] texts(names@)[k], word@),
        decreases names@.len() - i,
    {
        let name: Vec<char> = lower_chars(names[i].as_str());
        if occurs(word, &name) {
            return Some(i);
        }
        i += 1;
    }
    None
}

/// Chooses among the input devices, by their names: the first that is named after the
/// default source of the system; else the first that is named a monitor; else the
/// default device.
pub fn choose_input_device(names: &Vec<String>, source: &Option<String>) -> (r: InputChoice)
    ensures
        r is NoDevices <==> names@.len() == 0,
        r matches InputChoice::Listed(at) ==> match source {
            Some(s) => is_first_named(texts(names@), lower_text(s@), at as int) || (none_named(
                texts(names@),
                lower_text(s@),
            ) && is_first_named(texts(names@), "monitor"@, at as int)),
            None => is_first_named(texts(names@), "monitor"@, at as int),
        },
        r is Default ==> none_named(texts(names@), "monitor"@) && (source matches Some(s)
            ==> none_named(texts(names@), lower_text(s@))),
{
    if names.len() == 0 {
        return InputChoice::NoDevices;
    }
    if let Some(s) = source {
        let word: Vec<char> = lower_chars(s.as_str());
        if let Some(at) = find_named(names, &word) {
            return InputChoice::Listed(at);
        }
    }
    let word: Vec<char> = chars_of("monitor");
    match find_named(names, &word) {
        Some(at) => InputChoice::Listed(at),
        None => InputChoice::Default,
    }
}

} // verus!
