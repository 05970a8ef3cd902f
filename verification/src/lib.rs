//! A validated ticket title: a non-empty piece of text of at most
//! [`TITLE_MAX_BYTES`] bytes, together with the reasons a candidate
//! text can be rejected.
//!
//! Length is measured in storage units (UTF-8 bytes), not in characters:
//! multi-byte text can be rejected as too long even though it shows fewer
//! than [`TITLE_MAX_BYTES`] characters.

use vstd::prelude::*;
use vstd::utf8::encode_utf8;

verus! {

/// The inclusive upper bound on a title's length, in UTF-8 bytes.
pub const TITLE_MAX_BYTES: usize = 50;

/// The length of `s` in storage units: the number of bytes of its
/// UTF-8 encoding.
pub open spec fn byte_len(s: Seq<char>) -> nat {
    encode_utf8(s).len()
}

/// Why a candidate title was rejected.
#[derive(Debug, PartialEq, Eq, Structural)]
pub enum TitleParseError {
    /// The input had zero length.
    TitleEmpty,
    /// The input was longer than [`TITLE_MAX_BYTES`] bytes.
    TitleTooLong,
}

impl TitleParseError {
    /// The fixed, user-facing description of this error.
    pub open spec fn spec_message(self) -> Seq<char> {
        match self {
            TitleParseError::TitleEmpty => "The title cannot be empty"@,
            TitleParseError::TitleTooLong => "The title cannot be longer than 50 bytes"@,
        }
    }

    /// Returns the fixed, user-facing description of this error.
    pub fn message(&self) -> (r: String)
        ensures
            r@ == self.spec_message(),
    {
        match self {
            TitleParseError::TitleEmpty => "The title cannot be empty".to_owned(),
            TitleParseError::TitleTooLong => "The title cannot be longer than 50 bytes".to_owned(),
        }
    }
}

/// The outcome of validating candidate text `s`: the error the checks
/// reject it with, or `Ok` when it may be wrapped as a title.
pub open spec fn title_check(s: Seq<char>) -> Result<(), TitleParseError> {
    if byte_len(s) == 0 {
        Err(TitleParseError::TitleEmpty)
    } else if byte_len(s) > TITLE_MAX_BYTES {
        Err(TitleParseError::TitleTooLong)
    } else {
        Ok(())
    }
}

/// A ticket title whose text has passed validation: non-empty and at
/// most [`TITLE_MAX_BYTES`] bytes long.
///
/// Values exist only through the two `TryFrom` constructors, which
/// establish [`TicketTitle::wf`]; the value is immutable afterwards.
#[derive(Debug)]
pub struct TicketTitle(String);

impl View for TicketTitle {
    type V = Seq<char>;

    closed spec fn view(&self) -> Seq<char> {
        self.0@
    }
}

impl Clone for TicketTitle {
    /// Duplicates the title; the copy wraps equal text.
    fn clone(&self) -> (r: Self)
        ensures
            r@ == self@,
    {
        TicketTitle(self.0.clone())
    }
}

impl TicketTitle {
    /// The invariant of every constructed title: its text is non-empty
    /// and fits in [`TITLE_MAX_BYTES`] bytes.
    pub open spec fn wf(&self) -> bool {
        0 < byte_len(self@) <= TITLE_MAX_BYTES
    }

    /// Borrows the wrapped text.
    pub fn as_str(&self) -> (r: &str)
        ensures
            r@ == self@,
    {
        self.0.as_str()
    }
}

impl PartialEq for TicketTitle {
    /// Two titles are equal exactly when their wrapped text is equal.
    fn eq(&self, other: &Self) -> (r: bool)
        ensures
            r == (self@ == other@),
    {
        self.0 == other.0
    }
}

impl vstd::std_specs::cmp::PartialEqSpecImpl for TicketTitle {
    open spec fn obeys_eq_spec() -> bool {
        true
    }

    open spec fn eq_spec(&self, other: &TicketTitle) -> bool {
        self@ == other@
    }
}

/// The one validation routine both constructors route through.
fn validate(value: &str) -> (r: Result<(), TitleParseError>)
    ensures
        r == title_check(value@),
{
    let length: usize = value.as_bytes().len();
    if length == 0 {
        return Err(TitleParseError::TitleEmpty);
    }
    if length > TITLE_MAX_BYTES {
        return Err(TitleParseError::TitleTooLong);
    }
    Ok(())
}

impl TryFrom<String> for TicketTitle {
    type Error = TitleParseError;

    fn try_from(value: String) -> (r: Result<Self, Self::Error>)
        ensures
            match r {
                Ok(t) => title_check(value@) == Ok::<(), TitleParseError>(()) && t@ == value@
                    && t.wf(),
                Err(e) => title_check(value@) == Err::<(), TitleParseError>(e),
            },
    {
        match validate(value.as_str()) {
            Ok(()) => Ok(TicketTitle(value)),
            Err(e) => Err(e),
        }
    }
}

impl vstd::std_specs::convert::TryFromSpecImpl<String> for TicketTitle {
    open spec fn obeys_try_from_spec() -> bool {
        true
    }

    closed spec fn try_from_spec(v: String) -> Result<Self, Self::Error> {
        match title_check(v@) {
            Ok(()) => Ok(TicketTitle(v)),
            Err(e) => Err(e),
        }
    }
}

impl TryFrom<&str> for TicketTitle {
    type Error = TitleParseError;

    fn try_from(value: &str) -> (r: Result<Self, Self::Error>)
        ensures
            match r {
                Ok(t) => title_check(value@) == Ok::<(), TitleParseError>(()) && t@ == value@
                    && t.wf(),
                Err(e) => title_check(value@) == Err::<(), TitleParseError>(e),
            },
    {
        match validate(value) {
            Ok(()) => Ok(TicketTitle(value.to_owned())),
            Err(e) => Err(e),
        }
    }
}

impl vstd::std_specs::convert::TryFromSpecImpl<&str> for TicketTitle {
    // A title built from a borrowed view owns a fresh `String`, and no
    // spec expression names that allocation; the constructor above
    // carries the exact contract in its own `ensures` instead.
    open spec fn obeys_try_from_spec() -> bool {
        false
    }

    open spec fn try_from_spec(v: &str) -> Result<Self, Self::Error> {
        arbitrary()
    }
}

/// Law: validating the text of an already validated title succeeds, so
/// constructing again from a title's own wrapped text yields `Ok`, and,
/// by the constructors' contracts, a title wrapping the same text.
pub proof fn lemma_revalidation_succeeds(t: TicketTitle)
    requires
        t.wf(),
    ensures
        title_check(t@) == Ok::<(), TitleParseError>(()),
{
}

/// Law: equality of titles is exactly equality of their wrapped text:
/// titles built from equal text compare equal, titles built from
/// different text do not.
pub proof fn lemma_eq_is_text_eq(a: TicketTitle, b: TicketTitle)
    ensures
        vstd::std_specs::cmp::PartialEqSpec::eq_spec(&a, &b) <==> a@ == b@,
{
}

} // verus!
