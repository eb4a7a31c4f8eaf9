//! What happens before the window opens: the credential is taken from the
//! contents of its file, or the start is called off.

use vstd::prelude::*;
use vstd::string::*;

verus! {

/// The file that holds the credential, in the working directory.
pub const CREDENTIAL_FILE: &'static str = "openai.token";

/// What the user is told when the credential cannot be read.
pub const CREDENTIAL_MISSING: &'static str =
    "OpenAI token was not found.\nPlease add it to a file named `openai.token` in the current directory.\n\nThis app will now exit.";

/// The characters with the Unicode property `White_Space`.
pub open spec fn is_white_space(c: char) -> bool {
    let n = c as u32;
    ||| 0x9 <= n <= 0xd
    ||| n == 0x20
    ||| n == 0x85
    ||| n == 0xa0
    ||| n == 0x1680
    ||| 0x2000 <= n <= 0x200a
    ||| n == 0x2028
    ||| n == 0x2029
    ||| n == 0x202f
    ||| n == 0x205f
    ||| n == 0x3000
}

/// A text without the white space that it starts with.
pub open spec fn trimmed_start(text: Seq<char>) -> Seq<char>
    decreases text.len(),
{
    if text.len() > 0 && is_white_space(text[0]) {
        trimmed_start(text.drop_first())
    } else {
        text
    }
}

/// A text without the white space that it ends with.
pub open spec fn trimmed_end(text: Seq<char>) -> Seq<char>
    decreases text.len(),
{
    if text.len() > 0 && is_white_space(text.last()) {
        trimmed_end(text.drop_last())
    } else {
        text
    }
}

/// A text without the white space around it.
pub open spec fn trimmed(text: Seq<char>) -> Seq<char> {
    trimmed_end(trimmed_start(text))
}

/// Calls `str::trim`, which returns the slice that is left when leading and
/// trailing white space is removed, white space being the characters with
/// the Unicode property `White_Space`.
#[verifier::external_body]
fn trim(text: &str) -> (r: &str)
    ensures
        r@ == trimmed(text@),
{
    text.trim()
}

/// Decides how to start from what was read of the credential file: with
/// the credential, which is the contents without the white space around
/// them, or not at all, with the message to show, where nothing was read.
pub fn credential(file: Option<String>) -> (r: Result<String, String>)
    ensures
        match file {
            Some(contents) => r is Ok && r->Ok_0@ == trimmed(contents@),
            None => r is Err && r->Err_0@ == CREDENTIAL_MISSING@,
        },
{
    match file {
        Some(contents) => Ok(String::from_str(trim(contents.as_str()))),
        None => Err(String::from_str(CREDENTIAL_MISSING)),
    }
}

} // verus!
