//! The library's error value and the validation of free-text inputs.
use vstd::prelude::*;
use crate::text::{is_blank, join2, spec_is_blank};
use vstd::string::is_ascii;
use vstd::utf8::is_ascii_chars;

verus! {

/// An error met while reading or assessing an input document.
#[derive(Debug, Clone)]
pub struct LCAError {
    pub message: String,
}

impl LCAError {
    pub fn new(message: &str) -> (r: LCAError)
        ensures
            r.message@ == message@,
    {
        LCAError { message: String::from_str(message) }
    }

    /// The message as shown to a user, with its prefix.
    pub fn to_string(&self) -> (r: String)
        ensures
            r@ == "LCA Error: "@ + self.message@,
    {
        join2("LCA Error: ", self.message.as_str())
    }
}

/// An `LCAError` whose message is `prefix` followed by `s`.
pub(crate) fn error_with(prefix: &str, s: &str) -> (r: LCAError)
    ensures
        r.message@ == prefix@ + s@,
{
    LCAError { message: join2(prefix, s) }
}

/// Checks a company name: it must hold something besides white space, and
/// at most 200 bytes.
pub fn validate_company_name(name: &str) -> (r: Result<(), LCAError>)
    ensures
        spec_is_blank(name@) ==> r is Err && r->Err_0.message@ == "Company name cannot be empty"@,
        !spec_is_blank(name@) && name.len() > 200 ==> r is Err
            && r->Err_0.message@ == "Company name too long (max 200 characters)"@,
        !spec_is_blank(name@) && name.len() <= 200 ==> r is Ok,
        // An ASCII name has one byte per character.
        !spec_is_blank(name@) && is_ascii_chars(name@) && name@.len() <= 200 ==> r is Ok,
{
    proof {
        if is_ascii(name) {
            vstd::string::is_ascii_spec_bytes(name);
        }
    }
    if is_blank(name) {
        return Err(LCAError::new("Company name cannot be empty"));
    }
    if name.len() > 200 {
        return Err(LCAError::new("Company name too long (max 200 characters)"));
    }
    Ok(())
}

} // verus!
