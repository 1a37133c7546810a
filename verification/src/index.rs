//! Subaddress indices, which proposals carry as decimal text.

use vstd::prelude::*;

verus! {

/// Why a text is no subaddress index.
#[derive(Clone, Copy, PartialEq, Eq, Debug, Structural)]
pub enum IndexError {
    /// There is no text.
    Empty,
    /// Something in the text is no decimal digit in its place.
    InvalidDigit,
    /// The number is too large for 64 bits.
    PosOverflow,
}

/// Whether every character of `digits` is a decimal digit.
pub open spec fn all_decimal(digits: Seq<char>) -> bool {
    forall|i: int| 0 <= i < digits.len() ==> '0' <= #[trigger] digits[i] <= '9'
}

/// The number that a row of decimal digits denotes.
pub open spec fn decimal_value(digits: Seq<char>) -> nat
    decreases digits.len(),
{
    if digits.len() == 0 {
        0
    } else {
        10 * decimal_value(digits.drop_last()) + (digits.last() as nat - '0' as nat) as nat
    }
}

/// The decimal digits of a number.
pub open spec fn decimal_text(value: nat) -> Seq<char>
    decreases value,
{
    let digit = ('0' as nat + value % 10) as char;
    if value < 10 {
        seq![digit]
    } else {
        decimal_text(value / 10).push(digit)
    }
}

/// What `text` holds after an optional plus sign.
pub open spec fn unsigned_part(text: Seq<char>) -> Seq<char> {
    if text.len() > 0 && text[0] == '+' {
        text.drop_first()
    } else {
        text
    }
}

/// The number that `text` denotes: decimal digits, at least one, after an optional plus sign.
pub open spec fn denoted(text: Seq<char>) -> Option<nat> {
    let digits = unsigned_part(text);
    if digits.len() > 0 && all_decimal(digits) {
        Some(decimal_value(digits))
    } else {
        None
    }
}

/// Whether `text` begins, after an optional plus sign, with digits that denote more than 64
/// bits hold.
pub open spec fn overflows(text: Seq<char>) -> bool {
    let digits = unsigned_part(text);
    exists|n: int|
        {
            &&& 0 < n <= digits.len()
            &&& all_decimal(#[trigger] digits.take(n))
            &&& decimal_value(digits.take(n)) > u64::MAX
        }
}

/// Whether `text` denotes a subaddress index.
pub open spec fn is_index(text: Seq<char>) -> bool {
    denoted(text) matches Some(value) && value <= u64::MAX
}

/// Whether `kind` can be said of `text`, which is no subaddress index. Only of a text that is
/// malformed and begins with too long a number either of two things can be said.
pub open spec fn faulty(text: Seq<char>, kind: IndexError) -> bool {
    match kind {
        IndexError::Empty => text.len() == 0,
        IndexError::InvalidDigit => text.len() > 0 && denoted(text) is None,
        IndexError::PosOverflow => text.len() > 0 && !is_index(text) && overflows(text),
    }
}

/// `str::parse::<u64>`: takes digits after an optional plus sign and gives the number they
/// denote, as long as 64 bits hold it. Of a malformed text whose leading digits are already too
/// large for 64 bits it is left open which of the two errors is reported.
#[verifier::external_body]
pub(crate) fn parse_u64(text: &str) -> (res: Result<u64, IndexError>)
    ensures
        match res {
            Ok(value) => denoted(text@) == Some(value as nat),
            Err(kind) => faulty(text@, kind),
        },
{
    match text.parse::<u64>() {
        Ok(value) => Ok(value),
        Err(error) => match error.kind() {
            std::num::IntErrorKind::Empty => Err(IndexError::Empty),
            std::num::IntErrorKind::PosOverflow => Err(IndexError::PosOverflow),
            _ => Err(IndexError::InvalidDigit),
        },
    }
}

/// Whether `kind` is what the parser can report of `text`.
pub closed spec fn is_reported(text: Seq<char>, kind: IndexError) -> bool {
    exists|given: &str|
        given@ == text && #[trigger] call_ensures(parse_u64, (given,), Err::<u64, _>(kind))
}

/// Reads a subaddress index.
pub(crate) fn read_index(text: &str) -> (res: Result<u64, IndexError>)
    ensures
        match res {
            Ok(value) => denoted(text@) == Some(value as nat),
            Err(kind) => faulty(text@, kind) && is_reported(text@, kind),
        },
{
    parse_u64(text)
}

impl IndexError {
    /// The wording of this error.
    pub open spec fn wording(self) -> Seq<char> {
        match self {
            IndexError::Empty => "cannot parse integer from empty string"@,
            IndexError::InvalidDigit => "invalid digit found in string"@,
            IndexError::PosOverflow => "number too large to fit in target type"@,
        }
    }

    /// This error in words.
    pub fn text(&self) -> (text: &'static str)
        ensures
            text@ == self.wording(),
    {
        match self {
            IndexError::Empty => "cannot parse integer from empty string",
            IndexError::InvalidDigit => "invalid digit found in string",
            IndexError::PosOverflow => "number too large to fit in target type",
        }
    }
}

/// The decimal digits of a number are digits, and denote it.
proof fn lemma_decimal_text(value: nat)
    ensures
        decimal_text(value).len() > 0,
        all_decimal(decimal_text(value)),
        decimal_value(decimal_text(value)) == value,
    decreases value,
{
    let digit = ('0' as nat + value % 10) as char;
    let text = decimal_text(value);
    assert('0' <= digit <= '9');
    if value < 10 {
        assert(text.drop_last() =~= Seq::empty());
    } else {
        lemma_decimal_text(value / 10);
        assert(text.drop_last() =~= decimal_text(value / 10));
    }
    assert(text.last() == digit);
    assert(decimal_value(text) == 10 * decimal_value(text.drop_last()) + value % 10);
}

/// Law: the decimal digits of a number denote this number, with or without a plus sign in front
/// of them; they are a subaddress index if 64 bits hold the number.
pub proof fn law_decimal_text(value: nat)
    ensures
        denoted(decimal_text(value)) == Some(value),
        denoted(seq!['+'] + decimal_text(value)) == Some(value),
        is_index(decimal_text(value)) <==> value <= u64::MAX,
{
    let text = decimal_text(value);
    lemma_decimal_text(value);
    assert('0' <= text[0] <= '9');
    assert((seq!['+'] + text).drop_first() =~= text);
}

/// Law: text that holds anything but decimal digits after an optional plus sign denotes no
/// number.
pub proof fn law_other_text(text: Seq<char>, at: int)
    requires
        0 <= at < text.len(),
        !('0' <= text[at] <= '9'),
        at > 0 || text[at] != '+',
    ensures
        denoted(text) is None,
        !is_index(text),
{
    if text[0] == '+' {
        assert(text.drop_first()[at - 1] == text[at]);
    }
}

/// Law: each error has a wording of its own.
pub proof fn law_index_errors_in_words(error: IndexError, text: &'static str)
    requires
        call_ensures(IndexError::text, (&error,), text),
    ensures
        error is Empty ==> text@ == "cannot parse integer from empty string"@,
        error is InvalidDigit ==> text@ == "invalid digit found in string"@,
        error is PosOverflow ==> text@ == "number too large to fit in target type"@,
{
}

} // verus!
