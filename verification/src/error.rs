//! The error every operation of the library reports: a machine-readable code and
//! a human-readable message.
use vstd::prelude::*;
use vstd::string::*;

verus! {

/// An error with a stable code (`VALIDATION_ERROR`, `WALLET_NOT_FOUND`, ...) and a message.
#[derive(Debug, Clone)]
pub struct AppError {
    pub code: String,
    pub message: String,
}

/// What std's `str::to_uppercase` gives for a string.
pub uninterp spec fn uppercase_text(s: Seq<char>) -> Seq<char>;

/// The ASCII upper case of a character: `a` to `z` become `A` to `Z`, others stay.
pub open spec fn ascii_upper(c: char) -> char {
    if 'a' <= c && c <= 'z' {
        ((c as u32) - 32) as char
    } else {
        c
    }
}

/// Whether every character of `s` is ASCII.
pub open spec fn all_ascii(s: Seq<char>) -> bool {
    forall|i: int| 0 <= i < s.len() ==> (#[trigger] s[i] as u32) < 128
}

/// std's `str::to_uppercase`: the Unicode upper-case mapping of every character. The
/// contract names the result as a function of the text, and states it for ASCII text,
/// where only `a` to `z` change, each to its capital.
#[verifier::external_body]
fn uppercase(s: &str) -> (r: String)
    ensures
        r@ == uppercase_text(s@),
        all_ascii(s@) ==> r@ == ascii_uppercase(s@),
{
    s.to_uppercase()
}

pub open spec fn validation_code() -> Seq<char> {
    "VALIDATION_ERROR"@
}

pub open spec fn internal_code() -> Seq<char> {
    "INTERNAL_ERROR"@
}

pub open spec fn forbidden_code() -> Seq<char> {
    "FORBIDDEN"@
}

/// The ASCII upper case of a text.
pub open spec fn ascii_uppercase(s: Seq<char>) -> Seq<char> {
    Seq::new(s.len(), |i: int| ascii_upper(s[i]))
}

/// The code of `AppError::not_found(resource)`: the name in capitals (for an ASCII name,
/// `a` to `z` made `A` to `Z`), then `_NOT_FOUND`.
pub open spec fn not_found_code(resource: Seq<char>) -> Seq<char> {
    (if all_ascii(resource) {
        ascii_uppercase(resource)
    } else {
        uppercase_text(resource)
    }) + "_NOT_FOUND"@
}

/// The message of `AppError::not_found(resource)`.
pub open spec fn not_found_message(resource: Seq<char>) -> Seq<char> {
    resource + " not found"@
}

/// Whether `r` failed with the given code and message.
pub open spec fn fails_with<T>(r: Result<T, AppError>, code: Seq<char>, message: Seq<char>) -> bool {
    match r {
        Err(e) => e.is(code, message),
        Ok(_) => false,
    }
}

/// Whether `r` failed with a validation error with the given message.
pub open spec fn fails_validation<T>(r: Result<T, AppError>, message: Seq<char>) -> bool {
    fails_with(r, validation_code(), message)
}

/// Whether `r` failed because `resource` was not found.
pub open spec fn fails_not_found<T>(r: Result<T, AppError>, resource: Seq<char>) -> bool {
    fails_with(r, not_found_code(resource), not_found_message(resource))
}

impl AppError {
    /// Whether this error has the given code and message.
    pub open spec fn is(self, code: Seq<char>, message: Seq<char>) -> bool {
        self.code@ == code && self.message@ == message
    }

    /// Whether this is the error that `not_found(resource)` builds.
    pub open spec fn is_not_found(self, resource: Seq<char>) -> bool {
        self.is(not_found_code(resource), not_found_message(resource))
    }

    /// Whether this is a validation error with the given message.
    pub open spec fn is_validation(self, message: Seq<char>) -> bool {
        self.is(validation_code(), message)
    }

    /// An error with the given code and message.
    pub fn new(code: &str, message: &str) -> (e: AppError)
        ensures
            e.is(code@, message@),
    {
        AppError { code: code.to_owned(), message: message.to_owned() }
    }

    /// A `<RESOURCE>_NOT_FOUND` error, with the message `<resource> not found`.
    pub fn not_found(resource: &str) -> (e: AppError)
        ensures
            e.is_not_found(resource@),
    {
        let mut code = uppercase(resource);
        code.append("_NOT_FOUND");
        let mut message = resource.to_owned();
        message.append(" not found");
        AppError { code, message }
    }

    /// A `VALIDATION_ERROR` with the given message.
    pub fn validation(message: &str) -> (e: AppError)
        ensures
            e.is_validation(message@),
    {
        AppError::new("VALIDATION_ERROR", message)
    }

    /// An `INTERNAL_ERROR` with the given message.
    pub fn internal(message: &str) -> (e: AppError)
        ensures
            e.is(internal_code(), message@),
    {
        AppError::new("INTERNAL_ERROR", message)
    }

    /// The `FORBIDDEN` error, "Permission denied".
    pub fn forbidden() -> (e: AppError)
        ensures
            e.is(forbidden_code(), "Permission denied"@),
    {
        AppError::new("FORBIDDEN", "Permission denied")
    }

    /// The error as a line of text: `[CODE] message`.
    pub fn to_display_string(&self) -> (s: String)
        ensures
            s@ == "["@ + self.code@ + "] "@ + self.message@,
    {
        let mut s = "[".to_owned();
        s.append(self.code.as_str());
        s.append("] ");
        s.append(self.message.as_str());
        s
    }
}

} // verus!
