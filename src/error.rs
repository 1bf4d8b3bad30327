//! Errors of the conversions, and the text they carry.
use vstd::prelude::*;

verus! {

/// The decimal digit `d` (below ten) as a character.
pub open spec fn digit_char(d: nat) -> char {
    seq!['0', '1', '2', '3', '4', '5', '6', '7', '8', '9'][d as int]
}

/// The decimal digits of `n`, most significant first, without leading zeros.
pub open spec fn decimal_digits(n: nat) -> Seq<char>
    decreases n,
{
    if n < 10 {
        seq![digit_char(n)]
    } else {
        decimal_digits(n / 10).push(digit_char(n % 10))
    }
}

/// An integer written in decimal, with a leading `-` when negative.
pub open spec fn decimal_text(v: int) -> Seq<char> {
    if v < 0 {
        seq!['-'] + decimal_digits((-v) as nat)
    } else {
        decimal_digits(v as nat)
    }
}

/// The items of a byte list written in decimal and separated by `", "`.
pub open spec fn byte_list_text(s: Seq<u8>) -> Seq<char>
    decreases s.len(),
{
    if s.len() == 0 {
        seq![]
    } else if s.len() == 1 {
        decimal_text(s[0] as int)
    } else {
        decimal_text(s[0] as int) + seq![',', ' '] + byte_list_text(s.subrange(1, s.len() as int))
    }
}

/// The debug text of a byte array: `[1, 2, 3]`.
pub open spec fn byte_array_text(s: Seq<u8>) -> Seq<char> {
    seq!['['] + byte_list_text(s) + seq![']']
}

/// Relies on the `Debug` formatting of `[u8; 32]`: a bracketed list of the bytes in decimal,
/// separated by a comma and a space.
#[verifier::external_body]
pub(crate) fn render_bytes(bytes: &[u8; 32]) -> (r: String)
    ensures
        r@ == byte_array_text(bytes@),
{
    format!("{bytes:?}")
}

/// Relies on the `Display` formatting of `i32`: the value in decimal, with `-` when negative.
#[verifier::external_body]
pub(crate) fn render_i32(v: i32) -> (r: String)
    ensures
        r@ == decimal_text(v as int),
{
    format!("{v}")
}

/// The kind of a conversion error, without what it carries.
#[derive(Clone, Copy, Debug, PartialEq, Eq, Structural)]
pub enum ErrorKind {
    LengthMismatch,
    OutOfRange,
    MissingField,
}

/// Why a wire message could not be turned into a domain value.
#[derive(Clone, Debug, PartialEq, Eq)]
pub enum ProtobufConversionError {
    /// A fixed-size byte field had another length.
    BytesDataLengthMismatch { type_description: &'static str, num_expected: usize, value: Vec<u8> },
    /// A value lay outside the range of its type.
    OutOfRangeValue { type_description: &'static str, value_as_str: String },
    /// A required field was absent.
    MissingField { field_description: &'static str },
}

impl ProtobufConversionError {
    pub open spec fn kind(self) -> ErrorKind {
        match self {
            ProtobufConversionError::BytesDataLengthMismatch { .. } => ErrorKind::LengthMismatch,
            ProtobufConversionError::OutOfRangeValue { .. } => ErrorKind::OutOfRange,
            ProtobufConversionError::MissingField { .. } => ErrorKind::MissingField,
        }
    }

    /// A length mismatch of a `desc` field that expected 32 bytes and held `value`.
    pub open spec fn is_length_mismatch(self, desc: Seq<char>, value: Seq<u8>) -> bool {
        match self {
            ProtobufConversionError::BytesDataLengthMismatch {
                type_description,
                num_expected,
                value: v,
            } => type_description@ == desc && num_expected == 32 && v@ == value,
            _ => false,
        }
    }

    /// An out-of-range value of type `desc`, shown as `shown`.
    pub open spec fn is_out_of_range(self, desc: Seq<char>, shown: Seq<char>) -> bool {
        match self {
            ProtobufConversionError::OutOfRangeValue { type_description, value_as_str } => {
                type_description@ == desc && value_as_str@ == shown
            },
            _ => false,
        }
    }

    /// The absence of the field `desc`.
    pub open spec fn is_missing_field(self, desc: Seq<char>) -> bool {
        match self {
            ProtobufConversionError::MissingField { field_description } => field_description@
                == desc,
            _ => false,
        }
    }
}

} // verus!
