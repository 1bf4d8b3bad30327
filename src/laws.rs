//! Laws that the conversions obey, stated over their specifications.
use crate::conversion::{
    address_outcome, direction_of_int, felt_outcome, int_of_direction, int_of_mode,
    iteration_error, mode_of_int, start_error, uint128_value,
};
use crate::error::ErrorKind;
use crate::felt::{address_bound, be_value, field_modulus, is_address, is_felt};
use crate::protobuf::{Iteration, Start};
use crate::types::{Direction, L1DataAvailabilityMode};
use vstd::prelude::*;

verus! {

/// Decoding 32 bytes whose value is in range succeeds with those very bytes, so that encoding
/// the result gives the input back; the same holds of addresses in the address range.
pub proof fn lemma_bytes_round_trip(elements: Seq<u8>)
    requires
        elements.len() == 32,
        be_value(elements) < field_modulus(),
    ensures
        felt_outcome(elements) == Ok::<Seq<u8>, ErrorKind>(elements),
        is_address(elements) ==> address_outcome(elements) == Ok::<Seq<u8>, ErrorKind>(elements),
{
}

/// Decoding a field element, hash or address from a byte string whose length is not 32 fails
/// with a length mismatch.
pub proof fn lemma_wrong_length(elements: Seq<u8>)
    requires
        elements.len() != 32,
    ensures
        felt_outcome(elements) == Err::<Seq<u8>, ErrorKind>(ErrorKind::LengthMismatch),
        address_outcome(elements) == Err::<Seq<u8>, ErrorKind>(ErrorKind::LengthMismatch),
{
}

/// Decoding 32 bytes whose value is not below the field prime fails as out of range, as a
/// field element, a hash and an address alike.
pub proof fn lemma_value_too_large(elements: Seq<u8>)
    requires
        elements.len() == 32,
        be_value(elements) >= field_modulus(),
    ensures
        felt_outcome(elements) == Err::<Seq<u8>, ErrorKind>(ErrorKind::OutOfRange),
        address_outcome(elements) == Err::<Seq<u8>, ErrorKind>(ErrorKind::OutOfRange),
{
    crate::felt::lemma_modulus_between();
}

/// Decoding 32 bytes whose value is not below the address bound fails as an address out of range.
pub proof fn lemma_address_too_large(elements: Seq<u8>)
    requires
        elements.len() == 32,
        be_value(elements) >= address_bound(),
    ensures
        address_outcome(elements) == Err::<Seq<u8>, ErrorKind>(ErrorKind::OutOfRange),
{
}

/// Every address is a field element.
pub proof fn lemma_address_is_felt(elements: Seq<u8>)
    requires
        is_address(elements),
    ensures
        is_felt(elements),
{
    crate::felt::lemma_modulus_between();
}

/// Splitting a 128-bit integer and joining the halves gives it back, and joining two halves and
/// splitting the result gives the halves back.
pub proof fn lemma_uint128_round_trip(v: u128, high: u64, low: u64)
    ensures
        uint128_value(
            (v / 0x1_0000_0000_0000_0000) as u64,
            (v % 0x1_0000_0000_0000_0000) as u64,
        ) == v,
        uint128_value(high, low) / 0x1_0000_0000_0000_0000 == high,
        uint128_value(high, low) % 0x1_0000_0000_0000_0000 == low,
{
    let b: int = 0x1_0000_0000_0000_0000;
    let x = v as int;
    assert(x == (x / b) * b + x % b) by (nonlinear_arith)
        requires
            b > 0,
    ;
    assert(x / b < b) by (nonlinear_arith)
        requires
            b > 0,
            0 <= x < b * b,
    ;
    let y = uint128_value(high, low);
    assert(y / b == high && y % b == low) by (nonlinear_arith)
        requires
            y == high * b + low,
            0 <= low < b,
            0 <= high,
            b > 0,
    ;
}

/// Mode tags: zero is calldata, one is a blob, every other tag is rejected, and encoding a mode
/// then reading the tag gives the mode back.
pub proof fn lemma_mode_tags(n: i32, m: L1DataAvailabilityMode)
    ensures
        mode_of_int(0) == Some(L1DataAvailabilityMode::Calldata),
        mode_of_int(1) == Some(L1DataAvailabilityMode::Blob),
        n != 0 && n != 1 ==> mode_of_int(n) is None,
        mode_of_int(int_of_mode(m)) == Some(m),
{
}

/// Encoding a direction then reading the tag gives the direction back.
pub proof fn lemma_direction_tags(d: Direction)
    ensures
        direction_of_int(int_of_direction(d)) == Some(d),
{
}

/// An iteration without a start fails to decode with a missing field.
pub proof fn lemma_missing_start(it: Iteration)
    requires
        it.start is None,
    ensures
        iteration_error(it) == Some(ErrorKind::MissingField),
{
}

/// An iteration whose direction tag is neither zero nor one fails to decode; where its start is
/// present and well formed, the failure is an out-of-range direction.
pub proof fn lemma_bad_direction(it: Iteration)
    requires
        it.direction != 0,
        it.direction != 1,
    ensures
        iteration_error(it) is Some,
        it.start matches Some(start) && start_error(start) is None ==> iteration_error(it) == Some(
            ErrorKind::OutOfRange,
        ),
{
}

/// An iteration built from a local query (a block-number start and the tag of a direction)
/// always decodes, with the same direction.
pub proof fn lemma_encoded_query_decodes(it: Iteration, n: u64, d: Direction)
    requires
        it.start == Some(Start::BlockNumber(n)),
        it.direction == int_of_direction(d),
    ensures
        iteration_error(it) is None,
        direction_of_int(it.direction) == Some(d),
{
}

} // verus!
