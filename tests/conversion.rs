use papyrus_protobuf_conversion::conversion::{
    enum_int_to_l1_data_availability_mode, l1_data_availability_mode_to_enum_int,
};
use papyrus_protobuf_conversion::error::ProtobufConversionError;
use papyrus_protobuf_conversion::felt::{ContractAddress, PatriciaKey, StarkFelt};
use papyrus_protobuf_conversion::protobuf;
use papyrus_protobuf_conversion::protobuf::{Address, Felt252, Iteration, Start, Uint128};
use papyrus_protobuf_conversion::types::{
    BlockHash, BlockHashOrNumber, BlockNumber, Direction, InternalQuery, L1DataAvailabilityMode,
    Query,
};

fn bytes_with(first: u8, last: u8) -> Vec<u8> {
    let mut v = vec![0u8; 32];
    v[0] = first;
    v[31] = last;
    v
}

fn modulus_bytes() -> Vec<u8> {
    let mut v = vec![0u8; 32];
    v[0] = 0x08;
    v[7] = 0x11;
    v[31] = 0x01;
    v
}

fn array_text(v: &[u8]) -> String {
    let items: Vec<String> = v.iter().map(|b| b.to_string()).collect();
    format!("[{}]", items.join(", "))
}

#[test]
fn felt_decode_then_encode_gives_bytes_back() {
    let elements = bytes_with(0x07, 0xab);
    let felt = StarkFelt::try_from_felt252(Felt252 { elements: elements.clone() }).unwrap();
    assert_eq!(felt.bytes().to_vec(), elements);
    assert_eq!(Felt252::from_stark_felt(felt).elements, elements);
}

#[test]
fn hash_decode_then_encode_gives_bytes_back() {
    let elements: Vec<u8> = (0u8..32).collect();
    let hash = StarkFelt::try_from_hash(protobuf::Hash { elements: elements.clone() }).unwrap();
    assert_eq!(protobuf::Hash::from_stark_hash(hash).elements, elements);
    assert_eq!(protobuf::Hash::from_block_hash(BlockHash(hash)).elements, elements);
}

#[test]
fn address_decode_then_encode_gives_bytes_back() {
    let elements = bytes_with(0x07, 0xff);
    let address = ContractAddress::try_from_address(Address { elements: elements.clone() }).unwrap();
    assert_eq!(address.0.key().bytes().to_vec(), elements);
    assert_eq!(Address::from_contract_address(address).elements, elements);
}

#[test]
fn wrong_lengths_are_length_mismatches() {
    for len in [0usize, 1, 31, 33, 64] {
        let elements = vec![1u8; len];
        for (desc, r) in [
            ("Felt252", StarkFelt::try_from_felt252(Felt252 { elements: elements.clone() }).map(|_| ())),
            ("Hash", StarkFelt::try_from_hash(protobuf::Hash { elements: elements.clone() }).map(|_| ())),
            ("Address", ContractAddress::try_from_address(Address { elements: elements.clone() }).map(|_| ())),
        ] {
            assert_eq!(
                r,
                Err(ProtobufConversionError::BytesDataLengthMismatch {
                    type_description: desc,
                    num_expected: 32,
                    value: elements.clone(),
                })
            );
        }
    }
}

#[test]
fn felt_at_modulus_is_out_of_range() {
    let elements = modulus_bytes();
    let expected_text = array_text(&elements);
    assert_eq!(
        StarkFelt::try_from_felt252(Felt252 { elements: elements.clone() }),
        Err(ProtobufConversionError::OutOfRangeValue {
            type_description: "Felt252",
            value_as_str: expected_text.clone(),
        })
    );
    assert_eq!(
        StarkFelt::try_from_hash(protobuf::Hash { elements: elements.clone() }),
        Err(ProtobufConversionError::OutOfRangeValue {
            type_description: "Hash",
            value_as_str: expected_text.clone(),
        })
    );
    assert_eq!(
        ContractAddress::try_from_address(Address { elements }),
        Err(ProtobufConversionError::OutOfRangeValue {
            type_description: "Address",
            value_as_str: expected_text,
        })
    );
}

#[test]
fn out_of_range_text_lists_the_bytes() {
    let elements = vec![0xffu8; 32];
    let r = StarkFelt::try_from_felt252(Felt252 { elements });
    let text = match r {
        Err(ProtobufConversionError::OutOfRangeValue { value_as_str, .. }) => value_as_str,
        other => panic!("unexpected {other:?}"),
    };
    assert!(text.starts_with("[255, 255, "));
    assert!(text.ends_with(", 255]"));
    assert_eq!(text.len(), 2 + 32 * 3 + 31 * 2);
}

#[test]
fn hash_in_range_but_address_out_of_range() {
    let elements = bytes_with(0x08, 0);
    assert!(StarkFelt::try_from_hash(protobuf::Hash { elements: elements.clone() }).is_ok());
    assert_eq!(
        ContractAddress::try_from_address(Address { elements: elements.clone() }),
        Err(ProtobufConversionError::OutOfRangeValue {
            type_description: "Address",
            value_as_str: array_text(&elements),
        })
    );
}

#[test]
fn felt_modulus_edges() {
    let mut below: [u8; 32] = modulus_bytes().try_into().unwrap();
    below[31] = 0x00;
    assert_eq!(StarkFelt::new(below).unwrap().bytes(), below);
    let at: [u8; 32] = modulus_bytes().try_into().unwrap();
    assert!(StarkFelt::new(at).is_none());
    let mut above = at;
    above[31] = 0x02;
    assert!(StarkFelt::new(above).is_none());
    let mut high = [0xffu8; 32];
    high[0] = 0x0f;
    assert!(StarkFelt::new(high).is_none());
    let mut over = [0u8; 32];
    over[0] = 0x10;
    assert!(StarkFelt::new(over).is_none());
    let mut middle = [0xffu8; 32];
    middle[..7].copy_from_slice(&[0x08, 0, 0, 0, 0, 0, 0]);
    middle[7] = 0x10;
    assert!(StarkFelt::new(middle).is_some());
    assert_eq!(StarkFelt::new([0u8; 32]).unwrap().bytes(), [0u8; 32]);
}

#[test]
fn hash_header_at_modulus_is_out_of_range() {
    let elements = modulus_bytes();
    let it = Iteration {
        start: Some(Start::Header(protobuf::Hash { elements: elements.clone() })),
        direction: 0,
        limit: 1,
        step: 1,
    };
    assert_eq!(
        InternalQuery::try_from_iteration(it),
        Err(ProtobufConversionError::OutOfRangeValue {
            type_description: "Hash",
            value_as_str: array_text(&elements),
        })
    );
}

#[test]
fn patricia_key_bound_edges() {
    let mut top = [0xffu8; 32];
    top[0] = 0x07;
    let below = StarkFelt::new(top).unwrap();
    assert_eq!(PatriciaKey::try_from_hash(below).unwrap().key(), below);
    let mut at = [0u8; 32];
    at[0] = 0x08;
    assert!(PatriciaKey::try_from_hash(StarkFelt::new(at).unwrap()).is_none());
}

#[test]
fn uint128_split_and_join() {
    let v: u128 = (1u128 << 64) + 5;
    let w = Uint128::from_u128(v);
    assert_eq!(w, Uint128 { high: 1, low: 5 });
    assert_eq!(w.to_u128(), v);
    assert_eq!(Uint128::from_u128(u128::MAX), Uint128 { high: u64::MAX, low: u64::MAX });
    assert_eq!(Uint128 { high: u64::MAX, low: u64::MAX }.to_u128(), u128::MAX);
    assert_eq!(Uint128 { high: 0, low: 1 }.to_u128(), 1);
    assert_eq!(Uint128 { high: 0x1234, low: 0 }.to_u128(), 0x1234u128 << 64);
    assert_eq!(Uint128::from_u128(0), Uint128 { high: 0, low: 0 });
}

#[test]
fn mode_tags() {
    assert_eq!(enum_int_to_l1_data_availability_mode(0), Ok(L1DataAvailabilityMode::Calldata));
    assert_eq!(enum_int_to_l1_data_availability_mode(1), Ok(L1DataAvailabilityMode::Blob));
    for n in [2, -1, i32::MAX, i32::MIN] {
        assert_eq!(
            enum_int_to_l1_data_availability_mode(n),
            Err(ProtobufConversionError::OutOfRangeValue {
                type_description: "DataAvailabilityMode",
                value_as_str: n.to_string(),
            })
        );
    }
    assert_eq!(l1_data_availability_mode_to_enum_int(L1DataAvailabilityMode::Calldata), 0);
    assert_eq!(l1_data_availability_mode_to_enum_int(L1DataAvailabilityMode::Blob), 1);
}

#[test]
fn mode_error_text_of_negative_tag() {
    let r = enum_int_to_l1_data_availability_mode(-42);
    assert_eq!(
        r,
        Err(ProtobufConversionError::OutOfRangeValue {
            type_description: "DataAvailabilityMode",
            value_as_str: "-42".to_string(),
        })
    );
}

#[test]
fn iteration_without_start_is_missing_field() {
    let it = Iteration { start: None, direction: 0, limit: 5, step: 1 };
    assert_eq!(
        InternalQuery::try_from_iteration(it),
        Err(ProtobufConversionError::MissingField { field_description: "Iteration::start" })
    );
}

#[test]
fn iteration_with_bad_direction_is_out_of_range() {
    let it = Iteration { start: Some(Start::BlockNumber(10)), direction: 7, limit: 5, step: 1 };
    assert_eq!(
        InternalQuery::try_from_iteration(it),
        Err(ProtobufConversionError::OutOfRangeValue {
            type_description: "Direction",
            value_as_str: "7".to_string(),
        })
    );
}

#[test]
fn iteration_from_block_number_decodes() {
    let it = Iteration { start: Some(Start::BlockNumber(10)), direction: 0, limit: 5, step: 1 };
    assert_eq!(
        InternalQuery::try_from_iteration(it),
        Ok(InternalQuery {
            start_block: BlockHashOrNumber::Number(BlockNumber(10)),
            direction: Direction::Forward,
            limit: 5,
            step: 1,
        })
    );
}

#[test]
fn iteration_from_header_decodes() {
    let elements = bytes_with(0x01, 0x02);
    let it = Iteration {
        start: Some(Start::Header(protobuf::Hash { elements: elements.clone() })),
        direction: 1,
        limit: u64::MAX,
        step: 0,
    };
    let q = InternalQuery::try_from_iteration(it).unwrap();
    match q.start_block {
        BlockHashOrNumber::Hash(BlockHash(h)) => assert_eq!(h.bytes().to_vec(), elements),
        other => panic!("unexpected {other:?}"),
    }
    assert_eq!(q.direction, Direction::Backward);
    assert_eq!(q.limit, u64::MAX);
    assert_eq!(q.step, 0);
}

#[test]
fn iteration_with_bad_header_passes_hash_error_on() {
    let it = Iteration {
        start: Some(Start::Header(protobuf::Hash { elements: vec![3u8; 5] })),
        direction: 7,
        limit: 1,
        step: 1,
    };
    assert_eq!(
        InternalQuery::try_from_iteration(it),
        Err(ProtobufConversionError::BytesDataLengthMismatch {
            type_description: "Hash",
            num_expected: 32,
            value: vec![3u8; 5],
        })
    );
}

#[test]
fn query_encodes_with_block_number_start() {
    let q = Query { start_block: BlockNumber(42), direction: Direction::Backward, limit: 3, step: 2 };
    assert_eq!(
        Iteration::from_query(q),
        Iteration { start: Some(Start::BlockNumber(42)), direction: 1, limit: 3, step: 2 }
    );
}

#[test]
fn hash_started_query_reencodes_as_block_number() {
    let elements = bytes_with(0x00, 0x09);
    let it = Iteration {
        start: Some(Start::Header(protobuf::Hash { elements })),
        direction: 1,
        limit: 3,
        step: 2,
    };
    let decoded = InternalQuery::try_from_iteration(it).unwrap();
    assert!(matches!(decoded.start_block, BlockHashOrNumber::Hash(_)));
    let q = Query { start_block: BlockNumber(9), direction: decoded.direction, limit: 3, step: 2 };
    let encoded = Iteration::from_query(q);
    assert_eq!(encoded.start, Some(Start::BlockNumber(9)));
    assert_eq!(encoded.direction, 1);
    assert_eq!(encoded.limit, 3);
    assert_eq!(encoded.step, 2);
}

#[test]
fn forward_query_round_trips() {
    let q = Query { start_block: BlockNumber(7), direction: Direction::Forward, limit: 100, step: 4 };
    let back = InternalQuery::try_from_iteration(Iteration::from_query(q)).unwrap();
    assert_eq!(
        back,
        InternalQuery {
            start_block: BlockHashOrNumber::Number(BlockNumber(7)),
            direction: Direction::Forward,
            limit: 100,
            step: 4,
        }
    );
}
