//! What is written to the log at start-up: the banner of a new run, and the
//! environment with its secrets masked.

use crate::text::{contains_text, occurs_in, repeat, repeated, same_text};
use crate::utils::{mask_api_key, masked_key};
use vstd::prelude::*;
use vstd::string::*;
use vstd::utf8::*;

verus! {

/// The lines that open the log of a new run.
pub open spec fn start_banner() -> Seq<Seq<char>> {
    seq![
        "=================================================="@,
        "New Gastropath run started"@,
        "=================================================="@,
    ]
}

/// The lines that open the log of a new run, for the caller to log one by
/// one.
pub fn log_start_message() -> (lines: Vec<String>)
    ensures
        lines.deep_view() == start_banner(),
{
    let mut lines: Vec<String> = Vec::new();
    lines.push("==================================================".to_owned());
    lines.push("New Gastropath run started".to_owned());
    lines.push("==================================================".to_owned());
    lines
}

/// The upper-case form of a text, as `str::to_uppercase` gives it.
pub uninterp spec fn uppercased(text: Seq<char>) -> Seq<char>;

/// Calls `str::to_uppercase`. Nothing is proved of the conversion: the
/// contract only gives the result its name.
#[verifier::external_body]
fn to_uppercase(text: &str) -> (upper: String)
    ensures
        upper@ == uppercased(text@),
{
    text.to_uppercase()
}

/// Whether the name of an environment variable says that it holds a key.
pub open spec fn names_a_key(upper_name: Seq<char>) -> bool {
    occurs_in("KEY"@, upper_name)
}

/// How the value of an environment variable is shown, given the upper-case
/// form of its name: the value of `API_KEY` with all but its start masked,
/// the value of any other variable that names a key as eight stars, and any
/// other value as it is.
pub open spec fn shown_value(name: Seq<char>, upper_name: Seq<char>, value: Seq<char>) -> Seq<
    char,
> {
    if name == "API_KEY"@ {
        masked_key(value)
    } else if names_a_key(upper_name) {
        repeated("*"@, 8)
    } else {
        value
    }
}

/// Whether a value can be shown under the given name: the value of `API_KEY`
/// must have a character end at its fifth byte if it is longer than that.
pub open spec fn can_be_shown(name: Seq<char>, value: Seq<char>) -> bool {
    name == "API_KEY"@ && encode_utf8(value).len() > 5 ==> is_char_boundary(encode_utf8(value), 5)
}

/// How the value of an environment variable is shown, given the upper-case
/// form of its name.
pub fn shown_with(name: &str, upper_name: &str, value: &str) -> (shown: String)
    requires
        can_be_shown(name@, value@),
    ensures
        shown@ == shown_value(name@, upper_name@, value@),
{
    if same_text(name, "API_KEY") {
        mask_api_key(value)
    } else if contains_text(upper_name, "KEY") {
        repeat("*", 8)
    } else {
        value.to_owned()
    }
}

/// How the value of an environment variable is shown in the log.
pub fn shown_in_log(name: &str, value: &str) -> (shown: String)
    requires
        can_be_shown(name@, value@),
    ensures
        shown@ == shown_value(name@, uppercased(name@), value@),
{
    let upper = to_uppercase(name);
    shown_with(name, upper.as_str(), value)
}

} // verus!
