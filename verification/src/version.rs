//! Firmware version tokens: opaque text, compared for equality only.

use vstd::prelude::*;
use vstd::utf8::{decode_utf8, valid_utf8};

verus! {

/// The text that `String::from_utf8_lossy` makes of `bytes`: their UTF-8
/// decoding, with U+FFFD in place of every invalid sequence.
pub uninterp spec fn utf8_lossy(bytes: Seq<u8>) -> Seq<char>;

/// Whether `c` is white space to `str::trim`: a character with the Unicode
/// property `White_Space`.
pub uninterp spec fn white_space(c: char) -> bool;

/// `text` without its leading white space.
pub open spec fn trim_start(text: Seq<char>) -> Seq<char>
    decreases text.len(),
{
    if text.len() > 0 && white_space(text.first()) {
        trim_start(text.drop_first())
    } else {
        text
    }
}

/// `text` without its trailing white space.
pub open spec fn trim_end(text: Seq<char>) -> Seq<char>
    decreases text.len(),
{
    if text.len() > 0 && white_space(text.last()) {
        trim_end(text.drop_last())
    } else {
        text
    }
}

/// `text` without its leading and trailing white space.
pub open spec fn trimmed(text: Seq<char>) -> Seq<char> {
    trim_end(trim_start(text))
}

/// The version token that the bytes of a version marker file spell.
pub open spec fn spec_remote_version(marker: Seq<u8>) -> Seq<char> {
    trimmed(utf8_lossy(marker))
}

/// Calls `String::from_utf8_lossy`. Trusted: the result is the text that
/// this function makes of the bytes, which is a function of the bytes
/// alone, and is their decoding where they are valid UTF-8.
#[verifier::external_body]
fn decode_lossy(bytes: &Vec<u8>) -> (text: String)
    ensures
        text@ == utf8_lossy(bytes@),
        valid_utf8(bytes@) ==> text@ == decode_utf8(bytes@),
{
    String::from_utf8_lossy(bytes).into_owned()
}

/// Calls `str::trim`. Trusted: the result is the text between the leading
/// and the trailing run of white space, as the documentation of `trim` says.
#[verifier::external_body]
fn trim(text: &str) -> (token: String)
    ensures
        token@ == trimmed(text@),
        token@.len() > 0 ==> !white_space(token@.first()) && !white_space(token@.last()),
{
    text.trim().to_owned()
}

/// Reads the version token out of the bytes of a version marker file: the
/// bytes are decoded as UTF-8, with a replacement character for whatever
/// does not decode, and the white space around the text is dropped.
pub fn remote_version(marker: &Vec<u8>) -> (token: String)
    ensures
        token@ == spec_remote_version(marker@),
        valid_utf8(marker@) ==> token@ == trimmed(decode_utf8(marker@)),
{
    let text = decode_lossy(marker);
    trim(text.as_str())
}

/// Decides whether to update: `None` if the remote token equals the running
/// one, and the remote token if it differs in any way. Tokens are not
/// ordered: an older remote version is an update like any other.
pub fn select_update(remote: String, running: &String) -> (update: Option<String>)
    ensures
        update is None <==> remote@ == running@,
        update matches Some(version) ==> version@ == remote@,
{
    if remote == *running {
        None
    } else {
        Some(remote)
    }
}

} // verus!
