use lib::abi::{
    buffer_too_small, checked_u32, clear_last_error, fail_batch, fail_core, faction_id,
    invalid_argument, last_error_bytes, map_core_error, member_id, memory_kind_to_c, not_found,
    parse_deed, relationship_layer_to_c, set_last_error, validate_array_stride,
    validate_input_header, validate_output_size, version_mismatch, expected_size, LastError,
    RawDirectWitnessDeed, PF_ABI_VERSION, PF_BUFFER_TOO_SMALL, PF_INTERNAL_ERROR,
    PF_INVALID_ARGUMENT, PF_INVALID_STATE, PF_NOT_FOUND, PF_VERSION_MISMATCH,
};
use lib::deed::BatchError;
use lib::memory::MemoryKind;
use lib::relationship::RelationshipLayer;
use lib::simulation::{Error, FactionId, MemberId};
use lib::values::ValueError;

fn raw_deed() -> RawDirectWitnessDeed {
    RawDirectWitnessDeed {
        struct_size: 56,
        api_version: PF_ABI_VERSION,
        deed_id: 41,
        observer: 1,
        actor: 2,
        target: 3,
        impact: 0.5f32.to_bits(),
        aggression: 0.25f32.to_bits(),
        has_target: 1,
        threatens_observer: 0,
    }
}

#[test]
fn core_errors_map_to_result_codes() {
    assert_eq!(map_core_error(&Error::EmptyName), PF_INVALID_ARGUMENT);
    assert_eq!(
        map_core_error(&Error::ActorTargetSame(MemberId::from_raw(1))),
        PF_INVALID_ARGUMENT
    );
    assert_eq!(
        map_core_error(&Error::Value(ValueError::NonFinite)),
        PF_INVALID_ARGUMENT
    );
    assert_eq!(
        map_core_error(&Error::FactionNotFound(FactionId::from_raw(1))),
        PF_NOT_FOUND
    );
    assert_eq!(
        map_core_error(&Error::MemberNotFound(MemberId::from_raw(1))),
        PF_NOT_FOUND
    );
    assert_eq!(
        map_core_error(&Error::TimeWentBackwards {
            current_tick: 2,
            target_tick: 1
        }),
        PF_INVALID_STATE
    );
    assert_eq!(map_core_error(&Error::TimeOverflow), PF_INVALID_STATE);
    assert_eq!(Error::from(ValueError::OutOfRange), Error::Value(ValueError::OutOfRange));
}

#[test]
fn last_error_keeps_the_latest_message() {
    let mut slot = LastError::new();
    assert!(last_error_bytes(&slot).is_empty());
    set_last_error(&mut slot, "first");
    assert_eq!(last_error_bytes(&slot), b"first".to_vec());
    assert_eq!(invalid_argument(&mut slot, "bad"), PF_INVALID_ARGUMENT);
    assert_eq!(last_error_bytes(&slot), b"bad".to_vec());
    assert_eq!(not_found(&mut slot, "gone"), PF_NOT_FOUND);
    assert_eq!(last_error_bytes(&slot), b"gone".to_vec());
    assert_eq!(buffer_too_small(&mut slot, "small"), PF_BUFFER_TOO_SMALL);
    assert_eq!(last_error_bytes(&slot), b"small".to_vec());
    assert_eq!(version_mismatch(&mut slot), PF_VERSION_MISMATCH);
    assert_eq!(last_error_bytes(&slot), b"unsupported ABI version".to_vec());
    set_last_error(&mut slot, "é");
    assert_eq!(last_error_bytes(&slot), vec![0xC3, 0xA9]);
    clear_last_error(&mut slot);
    assert!(last_error_bytes(&slot).is_empty());
}

#[test]
fn failures_record_their_debug_text() {
    let mut slot = LastError::new();
    let error = Error::MemberNotFound(MemberId::from_raw(999));
    assert_eq!(fail_core(&mut slot, &error), PF_NOT_FOUND);
    assert_eq!(
        String::from_utf8(last_error_bytes(&slot)).unwrap(),
        format!("{error:?}")
    );
    let batch = BatchError::new(3, Error::ActorTargetSame(MemberId::from_raw(2)));
    assert_eq!(batch.index(), 3);
    assert_eq!(*batch.error(), Error::ActorTargetSame(MemberId::from_raw(2)));
    assert_eq!(fail_batch(&mut slot, &batch), PF_INVALID_ARGUMENT);
    assert_eq!(
        String::from_utf8(last_error_bytes(&slot)).unwrap(),
        format!("batch index 3: {:?}", Error::ActorTargetSame(MemberId::from_raw(2)))
    );
    assert_eq!(batch.into_error(), Error::ActorTargetSame(MemberId::from_raw(2)));
}

#[test]
fn counts_beyond_uint32_are_internal_errors() {
    let mut slot = LastError::new();
    assert_eq!(checked_u32(&mut slot, 7), Ok(7));
    assert_eq!(checked_u32(&mut slot, u32::MAX as usize), Ok(u32::MAX));
    assert!(last_error_bytes(&slot).is_empty());
    assert_eq!(
        checked_u32(&mut slot, u32::MAX as usize + 1),
        Err(PF_INTERNAL_ERROR)
    );
    assert_eq!(
        last_error_bytes(&slot),
        b"result count exceeds the C ABI uint32 range".to_vec()
    );
}

#[test]
fn array_strides_must_hold_and_align_the_element() {
    let mut slot = LastError::new();
    assert_eq!(validate_array_stride(&mut slot, 0, 0, 248, 8), Ok(()));
    assert_eq!(validate_array_stride(&mut slot, 2, 248, 248, 8), Ok(()));
    assert_eq!(validate_array_stride(&mut slot, 2, 256, 248, 8), Ok(()));
    assert_eq!(
        validate_array_stride(&mut slot, 2, 240, 248, 8),
        Err(PF_INVALID_ARGUMENT)
    );
    assert_eq!(
        last_error_bytes(&slot),
        b"array element size is smaller than the v0 type".to_vec()
    );
    assert_eq!(
        validate_array_stride(&mut slot, 2, 252, 248, 8),
        Err(PF_INVALID_ARGUMENT)
    );
    assert_eq!(
        last_error_bytes(&slot),
        b"array element size is not correctly aligned".to_vec()
    );
    assert_eq!(
        validate_array_stride(&mut slot, 2, 248, 248, 0),
        Err(PF_INVALID_ARGUMENT)
    );
}

#[test]
fn headers_and_output_buffers_are_checked() {
    let mut slot = LastError::new();
    assert_eq!(validate_input_header(&mut slot, 56, PF_ABI_VERSION, 56), Ok(()));
    assert_eq!(validate_input_header(&mut slot, 64, PF_ABI_VERSION, 56), Ok(()));
    assert_eq!(
        validate_input_header(&mut slot, 55, PF_ABI_VERSION, 56),
        Err(PF_INVALID_ARGUMENT)
    );
    assert_eq!(
        validate_input_header(&mut slot, 55, PF_ABI_VERSION + 1, 56),
        Err(PF_VERSION_MISMATCH)
    );
    assert_eq!(validate_output_size(&mut slot, 20, 20), Ok(()));
    assert_eq!(validate_output_size(&mut slot, 19, 20), Err(PF_INVALID_ARGUMENT));
    assert_eq!(
        last_error_bytes(&slot),
        b"output buffer is smaller than the v0 type".to_vec()
    );
    assert_eq!(expected_size::<u64>(), 8);
    assert_eq!(expected_size::<[u8; 3]>(), 3);
}

#[test]
fn wire_deeds_parse_into_checked_deeds() {
    let mut slot = LastError::new();
    let deed = parse_deed(&mut slot, &raw_deed(), 56).unwrap();
    assert_eq!(deed.deed_id, 41);
    assert_eq!(deed.observer, MemberId::from_raw(1));
    assert_eq!(deed.actor, MemberId::from_raw(2));
    assert_eq!(deed.target, Some(MemberId::from_raw(3)));
    assert_eq!(f32::from_bits(deed.impact.value()), 0.5);
    assert_eq!(f32::from_bits(deed.aggression.value()), 0.25);
    assert!(!deed.threatens_observer);

    let no_target = RawDirectWitnessDeed {
        target: 0,
        has_target: 0,
        threatens_observer: 1,
        ..raw_deed()
    };
    let deed = parse_deed(&mut slot, &no_target, 56).unwrap();
    assert_eq!(deed.target, None);
    assert!(deed.threatens_observer);
}

#[test]
fn invalid_wire_deeds_are_rejected_in_check_order() {
    let mut slot = LastError::new();
    let wrong_version = RawDirectWitnessDeed {
        api_version: PF_ABI_VERSION + 1,
        impact: f32::NAN.to_bits(),
        ..raw_deed()
    };
    assert_eq!(parse_deed(&mut slot, &wrong_version, 56), Err(PF_VERSION_MISMATCH));
    let short = RawDirectWitnessDeed {
        struct_size: 40,
        ..raw_deed()
    };
    assert_eq!(parse_deed(&mut slot, &short, 56), Err(PF_INVALID_ARGUMENT));
    let bad_bool = RawDirectWitnessDeed {
        has_target: 2,
        ..raw_deed()
    };
    assert_eq!(parse_deed(&mut slot, &bad_bool, 56), Err(PF_INVALID_ARGUMENT));
    assert_eq!(last_error_bytes(&slot), b"boolean fields must be 0 or 1".to_vec());
    let stray_target = RawDirectWitnessDeed {
        has_target: 0,
        ..raw_deed()
    };
    assert_eq!(parse_deed(&mut slot, &stray_target, 56), Err(PF_INVALID_ARGUMENT));
    assert_eq!(
        last_error_bytes(&slot),
        b"target must be zero when has_target is zero".to_vec()
    );
    let infinite = RawDirectWitnessDeed {
        impact: f32::INFINITY.to_bits(),
        ..raw_deed()
    };
    assert_eq!(parse_deed(&mut slot, &infinite, 56), Err(PF_INVALID_ARGUMENT));
    assert_eq!(
        last_error_bytes(&slot),
        b"target must be zero when has_target is zero".to_vec()
    );
    let negative_aggression = RawDirectWitnessDeed {
        aggression: (-0.5f32).to_bits(),
        ..raw_deed()
    };
    assert_eq!(
        parse_deed(&mut slot, &negative_aggression, 56),
        Err(PF_INVALID_ARGUMENT)
    );
}

#[test]
fn wire_codes_of_layers_kinds_and_identifiers() {
    assert_eq!(relationship_layer_to_c(RelationshipLayer::MemberToMember), 1);
    assert_eq!(relationship_layer_to_c(RelationshipLayer::FactionToMember), 2);
    assert_eq!(relationship_layer_to_c(RelationshipLayer::FactionToFaction), 3);
    assert_eq!(memory_kind_to_c(MemoryKind::ShortTerm), 1);
    assert_eq!(memory_kind_to_c(MemoryKind::LongTerm), 2);
    assert_eq!(faction_id(5), FactionId::from_raw(5));
    assert_eq!(member_id(6).into_raw(), 6);
}

#[test]
fn batch_buffers_and_deed_arrays_are_checked_in_order() {
    let mut slot = LastError::new();
    assert_eq!(lib::abi::check_batch_capacity(&mut slot, 2, 2), Ok(()));
    assert!(last_error_bytes(&slot).is_empty());
    assert_eq!(lib::abi::check_batch_capacity(&mut slot, 2, 1), Err(PF_BUFFER_TOO_SMALL));
    assert_eq!(last_error_bytes(&slot), b"result buffer is smaller than deed_count".to_vec());

    let mut slot = LastError::new();
    let good = raw_deed();
    let parsed = lib::abi::parse_deeds(&mut slot, &[good, good], 56).unwrap();
    assert_eq!(parsed.len(), 2);
    assert_eq!(parsed[1].deed_id, 41);
    let bad_bool = RawDirectWitnessDeed { has_target: 2, ..raw_deed() };
    let wrong_version = RawDirectWitnessDeed { api_version: PF_ABI_VERSION + 1, ..raw_deed() };
    assert_eq!(
        lib::abi::parse_deeds(&mut slot, &[good, bad_bool, wrong_version], 56),
        Err((1, PF_INVALID_ARGUMENT))
    );
    assert_eq!(last_error_bytes(&slot), b"boolean fields must be 0 or 1".to_vec());
    assert_eq!(
        lib::abi::parse_deeds(&mut slot, &[wrong_version], 56),
        Err((0, PF_VERSION_MISMATCH))
    );
}

#[test]
fn batch_failures_write_the_index_in_decimal() {
    let mut slot = LastError::new();
    let failure = BatchError::new(12, Error::TimeOverflow);
    assert_eq!(fail_batch(&mut slot, &failure), PF_INVALID_STATE);
    assert_eq!(last_error_bytes(&slot), b"batch index 12: TimeOverflow".to_vec());
}
