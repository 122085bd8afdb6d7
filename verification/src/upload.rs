//! The rules of uploading a directory into an object store: the key of each
//! file, its form in a URL, and how often a failed upload is tried again.

use vstd::prelude::*;
use vstd::string::StringExecFns;
use vstd::utf8::encode_utf8;

verus! {

/// How many uploads run at the same time.
pub const PARALLEL_REQUESTS: usize = 10;

/// How many failures of one upload are followed by another try.
pub const RETRY_REQUESTS: usize = 5;

/// The key of a file: its path below the uploaded directory, after a `/`.
pub open spec fn spec_object_key(relative: Seq<char>) -> Seq<char> {
    seq!['/'] + relative
}

/// The key of the file at `relative` below the uploaded directory.
pub fn object_key(relative: &str) -> (key: String)
    ensures
        key@ == spec_object_key(relative@),
{
    proof {
        reveal_strlit("/");
        assert("/"@ =~= seq!['/']);
    }
    let mut key = "/".to_owned();
    key.append(relative);
    key
}

/// The digit of `n` in upper case hexadecimal.
pub open spec fn spec_hex_digit(n: nat) -> char {
    if n == 0 {
        '0'
    } else if n == 1 {
        '1'
    } else if n == 2 {
        '2'
    } else if n == 3 {
        '3'
    } else if n == 4 {
        '4'
    } else if n == 5 {
        '5'
    } else if n == 6 {
        '6'
    } else if n == 7 {
        '7'
    } else if n == 8 {
        '8'
    } else if n == 9 {
        '9'
    } else if n == 10 {
        'A'
    } else if n == 11 {
        'B'
    } else if n == 12 {
        'C'
    } else if n == 13 {
        'D'
    } else if n == 14 {
        'E'
    } else {
        'F'
    }
}

/// An ASCII letter or digit.
pub open spec fn spec_is_alphanumeric(byte: u8) -> bool {
    ||| 0x30 <= byte <= 0x39
    ||| 0x41 <= byte <= 0x5a
    ||| 0x61 <= byte <= 0x7a
}

/// One byte as it stands in a URL: a letter or a digit as itself, any other
/// byte as `%` and its two hexadecimal digits.
pub open spec fn spec_escaped_byte(byte: u8) -> Seq<char> {
    if spec_is_alphanumeric(byte) {
        seq![byte as char]
    } else {
        seq!['%', spec_hex_digit((byte / 16) as nat), spec_hex_digit((byte % 16) as nat)]
    }
}

/// Bytes as they stand in a URL, one after the other.
pub open spec fn spec_escaped(bytes: Seq<u8>) -> Seq<char>
    decreases bytes.len(),
{
    if bytes.len() == 0 {
        Seq::<char>::empty()
    } else {
        spec_escaped(bytes.drop_last()) + spec_escaped_byte(bytes.last())
    }
}

/// Escapes a text for a URL with `percent_encoding::utf8_percent_encode`
/// and the set `NON_ALPHANUMERIC`.
///
/// Trusted: the result is taken to hold, for each byte of the UTF-8
/// encoding of `text` in turn, the byte itself where it is an ASCII letter
/// or digit and else `%` with its two upper case hexadecimal digits.
#[verifier::external_body]
pub(crate) fn percent_encode(text: &str) -> (r: String)
    ensures
        r@ == spec_escaped(encode_utf8(text@)),
{
    percent_encoding::utf8_percent_encode(text, percent_encoding::NON_ALPHANUMERIC).to_string()
}

/// The key of a file as it stands in the URL of the upload.
pub fn escaped_object_key(relative: &str) -> (r: String)
    ensures
        r@ == spec_escaped(encode_utf8(spec_object_key(relative@))),
{
    let key = object_key(relative);
    percent_encode(key.as_str())
}

/// What follows an attempt to upload one file.
#[derive(Clone, Copy, Debug, PartialEq, Eq)]
pub enum Attempt {
    /// The file is stored.
    Stored,
    /// The upload failed and is tried again; `failures` counts the failures so far.
    Again { failures: usize },
    /// The upload failed once more than is tried again.
    GivenUp,
}

/// What follows an attempt that ended with `status`, after `failures`
/// earlier failures: status 200 stores the file; any other status is one
/// more failure, and the upload is given up once there are more than
/// `RETRY_REQUESTS` of them.
pub open spec fn spec_after_attempt(status: u16, failures: usize) -> Attempt {
    if status == 200 {
        Attempt::Stored
    } else if failures + 1 > RETRY_REQUESTS {
        Attempt::GivenUp
    } else {
        Attempt::Again { failures: (failures + 1) as usize }
    }
}

/// Decides what follows an attempt to upload one file.
pub fn after_attempt(status: u16, failures: usize) -> (r: Attempt)
    ensures
        r == spec_after_attempt(status, failures),
{
    if status == 200 {
        Attempt::Stored
    } else if failures >= RETRY_REQUESTS {
        Attempt::GivenUp
    } else {
        Attempt::Again { failures: failures + 1 }
    }
}

} // verus!
