//! HTTP status codes, as far as the agent reads them.

use vstd::prelude::*;

verus! {

/// The reason phrase that `http::StatusCode`'s `Display` prints behind the
/// number: the canonical phrase of the code, or a placeholder where the code has
/// none.
pub uninterp spec fn reason_phrase(code: u16) -> Seq<char>;

/// The character of one decimal digit.
pub open spec fn digit_char(d: nat) -> char {
    if d == 0 {
        '0'
    } else if d == 1 {
        '1'
    } else if d == 2 {
        '2'
    } else if d == 3 {
        '3'
    } else if d == 4 {
        '4'
    } else if d == 5 {
        '5'
    } else if d == 6 {
        '6'
    } else if d == 7 {
        '7'
    } else if d == 8 {
        '8'
    } else {
        '9'
    }
}

/// A number in decimal, without leading zeros.
pub open spec fn decimal(n: nat) -> Seq<char>
    decreases n,
{
    if n < 10 {
        seq![digit_char(n)]
    } else {
        decimal(n / 10).push(digit_char(n % 10))
    }
}

/// Whether a character is a decimal digit.
pub open spec fn is_digit(c: char) -> bool {
    exists|d: nat| d < 10 && c == #[trigger] digit_char(d)
}

/// A number in decimal begins with a digit.
pub proof fn lemma_decimal_begins_with_digit(n: nat)
    ensures
        decimal(n).len() > 0,
        is_digit(decimal(n)[0]),
    decreases n,
{
    if n >= 10 {
        lemma_decimal_begins_with_digit(n / 10);
    }
}

/// Whether a number is a status code: three decimal digits, the first not zero.
pub open spec fn spec_is_valid(code: u16) -> bool {
    100 <= code < 1000
}

/// Whether a status code reports success.
pub open spec fn spec_is_success(code: u16) -> bool {
    200 <= code < 300
}

/// A status code as the agent prints it: the number, a space, the reason phrase.
pub open spec fn spec_display(code: u16) -> Seq<char> {
    decimal(code as nat) + seq![' '] + reason_phrase(code)
}

/// `http::StatusCode::from_u16`, asked only whether it accepts the number. It
/// accepts 100 to 999 and nothing else.
#[verifier::external_body]
fn code_is_valid(code: u16) -> (valid: bool)
    ensures
        valid == spec_is_valid(code),
{
    http::StatusCode::from_u16(code).is_ok()
}

/// `http::StatusCode::is_success`, on a number that `from_u16` accepts: true for
/// 200 to 299.
#[verifier::external_body]
fn code_is_success(code: u16) -> (success: bool)
    requires
        spec_is_valid(code),
    ensures
        success == spec_is_success(code),
{
    match http::StatusCode::from_u16(code) {
        Ok(status) => status.is_success(),
        Err(_) => false,
    }
}

/// `Display` of `http::StatusCode`, on a number that `from_u16` accepts. It
/// writes the number in decimal, one space, and the canonical reason phrase, or
/// `<unknown status code>` where the code has none; the phrase is not spelled
/// out here.
#[verifier::external_body]
fn code_display(code: u16) -> (text: String)
    requires
        spec_is_valid(code),
    ensures
        text@ == decimal(code as nat) + seq![' '] + reason_phrase(code),
{
    match http::StatusCode::from_u16(code) {
        Ok(status) => status.to_string(),
        Err(_) => String::new(),
    }
}

/// A status code that a response can carry.
#[derive(Clone, Copy, Debug, PartialEq, Eq)]
pub struct StatusCode {
    code: u16,
}

impl View for StatusCode {
    type V = u16;

    closed spec fn view(&self) -> u16 {
        self.code
    }
}

impl StatusCode {
    #[verifier::type_invariant]
    spec fn in_range(self) -> bool {
        spec_is_valid(self.code)
    }

    /// The status code of a number, where it is one.
    pub fn from_u16(code: u16) -> (status: Option<StatusCode>)
        ensures
            status is Some <==> spec_is_valid(code),
            status matches Some(s) ==> s@ == code,
    {
        if code_is_valid(code) {
            Some(StatusCode { code })
        } else {
            None
        }
    }

    /// The number of the status code.
    pub fn as_u16(&self) -> (code: u16)
        ensures
            code == self@,
            spec_is_valid(code),
    {
        proof {
            use_type_invariant(self);
        }
        self.code
    }

    /// Whether the status reports success.
    pub fn is_success(&self) -> (success: bool)
        ensures
            success == spec_is_success(self@),
    {
        proof {
            use_type_invariant(self);
        }
        code_is_success(self.code)
    }

    /// The status as it stands in messages.
    pub fn to_text(&self) -> (text: String)
        ensures
            text@ == spec_display(self@),
    {
        proof {
            use_type_invariant(self);
        }
        code_display(self.code)
    }
}

} // verus!
