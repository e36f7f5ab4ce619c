//! The clipboard text that the paste tool prints, and which of it the popup
//! accepts for translation.
use vstd::prelude::*;
use vstd::utf8::{decode_utf8, valid_utf8};

use crate::text::{is_blank, trim_chars};

verus! {

broadcast use vstd::string::group_string_axioms;

/// `std::string::FromUtf8Error`, carried through only.
#[verifier::external_type_specification]
#[verifier::external_body]
pub struct ExFromUtf8Error(std::string::FromUtf8Error);

/// `String::from_utf8` gives the text that `vec` encodes where `vec` is valid
/// UTF-8, and an error where it is not.
pub assume_specification[ String::from_utf8 ](vec: Vec<u8>) -> (r: Result<
    String,
    std::string::FromUtf8Error,
>)
    ensures
        match r {
            Ok(s) => valid_utf8(vec@) && s@ == decode_utf8(vec@),
            Err(_) => !valid_utf8(vec@),
        },
;

/// Why the clipboard could not be read as text.
pub enum ClipboardError {
    /// The paste tool printed bytes that are not UTF-8.
    NotUtf8,
}

/// The clipboard text, from the paste tool's exit status and output: empty
/// where the tool failed, the decoded output where it is UTF-8.
pub fn clipboard_text(success: bool, stdout: Vec<u8>) -> (r: Result<String, ClipboardError>)
    ensures
        !success ==> (r matches Ok(t) && t@.len() == 0),
        success ==> (r is Ok <==> valid_utf8(stdout@)),
        success ==> (r matches Ok(t) ==> t@ == decode_utf8(stdout@)),
{
    if !success {
        return Ok(String::new());
    }
    match String::from_utf8(stdout) {
        Ok(t) => Ok(t),
        Err(_) => Err(ClipboardError::NotUtf8),
    }
}

/// The text the popup translates: the clipboard text where it was read and
/// holds more than white space.
pub fn clipboard_for_translation(read: Option<String>) -> (r: Option<String>)
    ensures
        match read {
            Some(t) => if trim_chars(t@).len() == 0 {
                r is None
            } else {
                r == Some(t)
            },
            None => r is None,
        },
{
    match read {
        Some(t) => {
            if is_blank(t.as_str()) {
                None
            } else {
                Some(t)
            }
        },
        None => None,
    }
}

} // verus!
