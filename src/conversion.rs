//! Conversions between wire messages and domain values.
use crate::error::{
    byte_array_text, decimal_text, render_bytes, render_i32, ErrorKind, ProtobufConversionError,
};
use crate::felt::{is_address, is_felt, ContractAddress, PatriciaKey, StarkFelt, StarkHash};
use crate::protobuf;
use crate::protobuf::{Address, Felt252, Iteration, Start, Uint128};
use crate::types::{
    BlockHash, BlockHashOrNumber, BlockNumber, Direction, InternalQuery, L1DataAvailabilityMode,
    Query,
};
use vstd::prelude::*;

verus! {

/// What decoding wire bytes as a field element or a hash yields: the element's bytes, or the
/// kind of the error.
pub open spec fn felt_outcome(elements: Seq<u8>) -> Result<Seq<u8>, ErrorKind> {
    if elements.len() != 32 {
        Err(ErrorKind::LengthMismatch)
    } else if !is_felt(elements) {
        Err(ErrorKind::OutOfRange)
    } else {
        Ok(elements)
    }
}

/// What decoding wire bytes as a contract address yields: the address's bytes, or the kind of
/// the error.
pub open spec fn address_outcome(elements: Seq<u8>) -> Result<Seq<u8>, ErrorKind> {
    if elements.len() != 32 {
        Err(ErrorKind::LengthMismatch)
    } else if !is_address(elements) {
        Err(ErrorKind::OutOfRange)
    } else {
        Ok(elements)
    }
}

/// What the error of a failed 32-byte decode of type `desc` carries.
pub open spec fn bytes_error(e: ProtobufConversionError, desc: Seq<char>, elements: Seq<u8>) -> bool {
    if elements.len() != 32 {
        e.is_length_mismatch(desc, elements)
    } else {
        e.is_out_of_range(desc, byte_array_text(elements))
    }
}

/// The value of a wire `Uint128`.
pub open spec fn uint128_value(high: u64, low: u64) -> int {
    high as int * 0x1_0000_0000_0000_0000 + low as int
}

/// The data-availability mode that a wire tag stands for.
pub open spec fn mode_of_int(v: i32) -> Option<L1DataAvailabilityMode> {
    if v == 0 {
        Some(L1DataAvailabilityMode::Calldata)
    } else if v == 1 {
        Some(L1DataAvailabilityMode::Blob)
    } else {
        None
    }
}

/// The wire tag of a data-availability mode.
pub open spec fn int_of_mode(m: L1DataAvailabilityMode) -> i32 {
    match m {
        L1DataAvailabilityMode::Calldata => 0,
        L1DataAvailabilityMode::Blob => 1,
    }
}

/// The direction that a wire tag stands for.
pub open spec fn direction_of_int(v: i32) -> Option<Direction> {
    if v == 0 {
        Some(Direction::Forward)
    } else if v == 1 {
        Some(Direction::Backward)
    } else {
        None
    }
}

/// The wire tag of a direction.
pub open spec fn int_of_direction(d: Direction) -> i32 {
    match d {
        Direction::Forward => 0,
        Direction::Backward => 1,
    }
}

/// The kind of error that a wire start meets, if any.
pub open spec fn start_error(start: Start) -> Option<ErrorKind> {
    match start {
        Start::BlockNumber(_) => None,
        Start::Header(h) => match felt_outcome(h.elements@) {
            Ok(_) => None,
            Err(k) => Some(k),
        },
    }
}

/// The kind of the first error that decoding an iteration meets, if any.
pub open spec fn iteration_error(it: Iteration) -> Option<ErrorKind> {
    match it.start {
        None => Some(ErrorKind::MissingField),
        Some(start) => if start_error(start) is Some {
            start_error(start)
        } else if direction_of_int(it.direction) is None {
            Some(ErrorKind::OutOfRange)
        } else {
            None
        },
    }
}

/// What the error of a failed iteration decode carries.
pub open spec fn iteration_error_details(e: ProtobufConversionError, it: Iteration) -> bool {
    match it.start {
        None => e.is_missing_field("Iteration::start"@),
        Some(start) => match start {
            Start::Header(h) if start_error(start) is Some => bytes_error(e, "Hash"@, h.elements@),
            _ => e.is_out_of_range("Direction"@, decimal_text(it.direction as int)),
        },
    }
}

/// A decoded start block agrees with the wire start it came from.
pub open spec fn start_decoded(b: BlockHashOrNumber, start: Start) -> bool {
    match (start, b) {
        (Start::BlockNumber(n), BlockHashOrNumber::Number(m)) => m.0 == n,
        (Start::Header(h), BlockHashOrNumber::Hash(bh)) => bh.0@ == h.elements@ && bh.0.wf(),
        _ => false,
    }
}

fn array_of_vec(v: &Vec<u8>) -> (r: [u8; 32])
    requires
        v@.len() == 32,
    ensures
        r@ == v@,
{
    let mut out = [0u8; 32];
    let mut i: usize = 0;
    while i < 32
        invariant
            i <= 32,
            v@.len() == 32,
            out@.len() == 32,
            forall|j: int| 0 <= j < i ==> out@[j] == v@[j],
        decreases 32 - i,
    {
        out[i] = v[i];
        i = i + 1;
    }
    assert(out@ =~= v@);
    out
}

fn vec_of_array(a: &[u8; 32]) -> (r: Vec<u8>)
    ensures
        r@ == a@,
{
    let mut out: Vec<u8> = Vec::new();
    let mut i: usize = 0;
    while i < 32
        invariant
            i <= 32,
            a@.len() == 32,
            out@ == a@.subrange(0, i as int),
        decreases 32 - i,
    {
        out.push(a[i]);
        i = i + 1;
        assert(out@ =~= a@.subrange(0, i as int));
    }
    assert(a@.subrange(0, 32) =~= a@);
    out
}

/// Decodes 32 wire bytes as a field element, naming the type `desc` in errors.
fn decode_felt(elements: Vec<u8>, desc: &'static str) -> (r: Result<StarkFelt, ProtobufConversionError>)
    ensures
        match r {
            Ok(f) => felt_outcome(elements@) == Ok::<Seq<u8>, ErrorKind>(f@) && f.wf(),
            Err(e) => felt_outcome(elements@) == Err::<Seq<u8>, ErrorKind>(e.kind())
                && bytes_error(e, desc@, elements@),
        },
{
    if elements.len() != 32 {
        return Err(
            ProtobufConversionError::BytesDataLengthMismatch {
                type_description: desc,
                num_expected: 32,
                value: elements,
            },
        );
    }
    let felt = array_of_vec(&elements);
    match StarkFelt::new(felt) {
        Some(f) => Ok(f),
        None => Err(
            ProtobufConversionError::OutOfRangeValue {
                type_description: desc,
                value_as_str: render_bytes(&felt),
            },
        ),
    }
}

impl StarkFelt {
    /// Decodes a wire field element.
    pub fn try_from_felt252(value: Felt252) -> (r: Result<StarkFelt, ProtobufConversionError>)
        ensures
            match r {
                Ok(f) => felt_outcome(value.elements@) == Ok::<Seq<u8>, ErrorKind>(f@) && f.wf(),
                Err(e) => felt_outcome(value.elements@) == Err::<Seq<u8>, ErrorKind>(e.kind())
                    && bytes_error(e, "Felt252"@, value.elements@),
            },
    {
        decode_felt(value.elements, "Felt252")
    }

    /// Decodes a wire hash.
    pub fn try_from_hash(value: protobuf::Hash) -> (r: Result<StarkHash, ProtobufConversionError>)
        ensures
            match r {
                Ok(f) => felt_outcome(value.elements@) == Ok::<Seq<u8>, ErrorKind>(f@) && f.wf(),
                Err(e) => felt_outcome(value.elements@) == Err::<Seq<u8>, ErrorKind>(e.kind())
                    && bytes_error(e, "Hash"@, value.elements@),
            },
    {
        decode_felt(value.elements, "Hash")
    }
}

impl ContractAddress {
    /// Decodes a wire address: a hash whose value also lies in the address range.
    pub fn try_from_address(value: Address) -> (r: Result<ContractAddress, ProtobufConversionError>)
        ensures
            match r {
                Ok(a) => address_outcome(value.elements@) == Ok::<Seq<u8>, ErrorKind>(a@)
                    && a.0.wf(),
                Err(e) => address_outcome(value.elements@) == Err::<Seq<u8>, ErrorKind>(e.kind())
                    && bytes_error(e, "Address"@, value.elements@),
            },
    {
        if value.elements.len() != 32 {
            return Err(
                ProtobufConversionError::BytesDataLengthMismatch {
                    type_description: "Address",
                    num_expected: 32,
                    value: value.elements,
                },
            );
        }
        let felt = array_of_vec(&value.elements);
        match StarkFelt::new(felt) {
            Some(hash) => match PatriciaKey::try_from_hash(hash) {
                Some(key) => Ok(ContractAddress(key)),
                None => Err(
                    ProtobufConversionError::OutOfRangeValue {
                        type_description: "Address",
                        value_as_str: render_bytes(&felt),
                    },
                ),
            },
            None => Err(
                ProtobufConversionError::OutOfRangeValue {
                    type_description: "Address",
                    value_as_str: render_bytes(&felt),
                },
            ),
        }
    }
}

impl Felt252 {
    /// Encodes a field element as its 32 big-endian bytes.
    pub fn from_stark_felt(value: StarkFelt) -> (r: Felt252)
        ensures
            r.elements@ == value@,
    {
        Felt252 { elements: vec_of_array(&value.bytes()) }
    }
}

impl protobuf::Hash {
    /// Encodes a block hash as its 32 big-endian bytes.
    pub fn from_block_hash(value: BlockHash) -> (r: protobuf::Hash)
        ensures
            r.elements@ == value.0@,
    {
        protobuf::Hash { elements: vec_of_array(&value.0.bytes()) }
    }

    /// Encodes a hash as its 32 big-endian bytes.
    pub fn from_stark_hash(value: StarkHash) -> (r: protobuf::Hash)
        ensures
            r.elements@ == value@,
    {
        protobuf::Hash { elements: vec_of_array(&value.bytes()) }
    }
}

impl Address {
    /// Encodes a contract address as the 32 big-endian bytes of its key.
    pub fn from_contract_address(value: ContractAddress) -> (r: Address)
        ensures
            r.elements@ == value@,
    {
        Address { elements: vec_of_array(&value.0.key().bytes()) }
    }
}


impl Uint128 {
    /// Splits a 128-bit integer into its high and low 64-bit halves.
    pub fn from_u128(value: u128) -> (r: Uint128)
        ensures
            r.high == value / 0x1_0000_0000_0000_0000,
            r.low == value % 0x1_0000_0000_0000_0000,
    {
        let high = #[verifier::truncate] ((value >> 64u32) as u64);
        let low = #[verifier::truncate] (value as u64);
        assert(high == value / 0x1_0000_0000_0000_0000) by (bit_vector)
            requires
                high == #[verifier::truncate] ((value >> 64u32) as u64),
        ;
        assert(low == value % 0x1_0000_0000_0000_0000) by (bit_vector)
            requires
                low == #[verifier::truncate] (value as u64),
        ;
        Uint128 { high, low }
    }

    /// Joins the two halves into the 128-bit integer they spell.
    pub fn to_u128(self) -> (r: u128)
        ensures
            r == uint128_value(self.high, self.low),
    {
        let high = self.high;
        let low = self.low;
        let shifted = (high as u128) << 64u32;
        assert(shifted == high as u128 * 0x1_0000_0000_0000_0000) by (bit_vector)
            requires
                shifted == (high as u128) << 64u32,
        ;
        assert(low as u128 + shifted <= u128::MAX) by (nonlinear_arith)
            requires
                shifted == high as u128 * 0x1_0000_0000_0000_0000,
                high <= u64::MAX,
                low <= u64::MAX,
        ;
        low as u128 + shifted
    }
}

/// Reads a data-availability mode from its wire tag.
pub fn enum_int_to_l1_data_availability_mode(value: i32) -> (r: Result<
    L1DataAvailabilityMode,
    ProtobufConversionError,
>)
    ensures
        match r {
            Ok(m) => mode_of_int(value) == Some(m),
            Err(e) => mode_of_int(value) is None && e.is_out_of_range(
                "DataAvailabilityMode"@,
                decimal_text(value as int),
            ),
        },
{
    match value {
        0 => Ok(L1DataAvailabilityMode::Calldata),
        1 => Ok(L1DataAvailabilityMode::Blob),
        _ => Err(
            ProtobufConversionError::OutOfRangeValue {
                type_description: "DataAvailabilityMode",
                value_as_str: render_i32(value),
            },
        ),
    }
}

/// The wire tag of a data-availability mode.
pub fn l1_data_availability_mode_to_enum_int(value: L1DataAvailabilityMode) -> (r: i32)
    ensures
        r == int_of_mode(value),
{
    match value {
        L1DataAvailabilityMode::Calldata => 0,
        L1DataAvailabilityMode::Blob => 1,
    }
}

impl InternalQuery {
    /// Decodes a peer's iteration request.
    pub fn try_from_iteration(value: Iteration) -> (r: Result<InternalQuery, ProtobufConversionError>)
        ensures
            match r {
                Ok(q) => {
                    &&& iteration_error(value) is None
                    &&& value.start matches Some(start) && start_decoded(q.start_block, start)
                    &&& direction_of_int(value.direction) == Some(q.direction)
                    &&& q.limit == value.limit
                    &&& q.step == value.step
                },
                Err(e) => iteration_error(value) == Some(e.kind()) && iteration_error_details(
                    e,
                    value,
                ),
            },
    {
        let start = match value.start {
            Some(start) => start,
            None => {
                return Err(
                    ProtobufConversionError::MissingField {
                        field_description: "Iteration::start",
                    },
                );
            },
        };
        let start_block = match start {
            Start::BlockNumber(block_number) => BlockHashOrNumber::Number(
                BlockNumber(block_number),
            ),
            Start::Header(protobuf_hash) => {
                match StarkFelt::try_from_hash(protobuf_hash) {
                    Ok(hash) => BlockHashOrNumber::Hash(BlockHash(hash)),
                    Err(e) => {
                        return Err(e);
                    },
                }
            },
        };
        let direction = match value.direction {
            0 => Direction::Forward,
            1 => Direction::Backward,
            direction => {
                return Err(
                    ProtobufConversionError::OutOfRangeValue {
                        type_description: "Direction",
                        value_as_str: render_i32(direction),
                    },
                );
            },
        };
        Ok(InternalQuery { start_block, direction, limit: value.limit, step: value.step })
    }
}

impl Iteration {
    /// Encodes a local query; its start always goes out as a block number.
    pub fn from_query(value: Query) -> (r: Iteration)
        ensures
            r.start == Some(Start::BlockNumber(value.start_block.0)),
            r.direction == int_of_direction(value.direction),
            r.limit == value.limit as u64,
            r.step == value.step as u64,
    {
        let start = Start::BlockNumber(value.start_block.0);
        Iteration {
            start: Some(start),
            direction: match value.direction {
                Direction::Forward => 0,
                Direction::Backward => 1,
            },
            limit: value.limit as u64,
            step: value.step as u64,
        }
    }
}

} // verus!
