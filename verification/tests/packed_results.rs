use gesture_detection::detection_server::GestureDetectionServer;
use gesture_detection::direction::Direction;
use gesture_detection::direction_result::DirectionResult;
use gesture_detection::generic_gesture_type::GenericGestureType;
use gesture_detection::packed_result::{
    int_pow2, GestureOutcome, BOOMERANG_BITWISE_OFFSET, CIRCLE_BITWISE_OFFSET,
    CLICK_INDEX_BITWISE_OFFSET, ERROR_BITWISE_OFFSET, HOLD_BITWISE_OFFSET, SWIPE_BITWISE_OFFSET,
};
use gesture_detection::rotation_direction::RotationDirection;
use gesture_detection::shared_memory::GestureDetectionIPC;

fn all_outcomes() -> Vec<GestureOutcome> {
    let mut outcomes = vec![GestureOutcome::Click, GestureOutcome::Hold];
    for direction in Direction::values() {
        outcomes.push(GestureOutcome::Boomerang(direction));
    }
    for direction in Direction::values() {
        outcomes.push(GestureOutcome::Swipe(direction));
    }
    outcomes.push(GestureOutcome::Circle(RotationDirection::Clockwise));
    outcomes.push(GestureOutcome::Circle(RotationDirection::AntiClockwise));
    outcomes.push(GestureOutcome::Undetected);
    outcomes
}

#[test]
fn bit_offsets_partition_the_packed_result() {
    assert_eq!(CLICK_INDEX_BITWISE_OFFSET, 0);
    assert_eq!(HOLD_BITWISE_OFFSET, 1);
    assert_eq!(BOOMERANG_BITWISE_OFFSET, 2);
    assert_eq!(SWIPE_BITWISE_OFFSET, 10);
    assert_eq!(CIRCLE_BITWISE_OFFSET, 18);
    assert_eq!(ERROR_BITWISE_OFFSET, 20);
}

#[test]
fn int_pow2_doubles_exponent_times() {
    assert_eq!(int_pow2(0), 1);
    assert_eq!(int_pow2(1), 2);
    assert_eq!(int_pow2(12), 4096);
    assert_eq!(int_pow2(20), 1_048_576);
    assert_eq!(int_pow2(31), 2_147_483_648);
    for exponent in 0..32u32 {
        assert_eq!(int_pow2(exponent), 1u32 << exponent);
        assert_eq!(GestureDetectionIPC::int_pow2(exponent), 1u32 << exponent);
        assert_eq!(GestureDetectionServer::int_pow2(exponent), 1u32 << exponent);
    }
}

#[test]
fn every_outcome_is_unpacked_from_its_packed_form() {
    let outcomes = all_outcomes();
    assert_eq!(outcomes.len(), 21);
    for (bit, outcome) in outcomes.iter().enumerate() {
        let packed = outcome.pack();
        assert_eq!(packed, 1u32 << bit);
        assert_eq!(outcome.bit(), bit as u32);
        assert_eq!(packed.count_ones(), 1);
        assert_eq!(GestureOutcome::unpack(packed as i64), Some(*outcome));
        assert_eq!(GestureOutcome::from_bit(bit as u32), Some(*outcome));
    }
}

#[test]
fn packed_forms_are_pairwise_different() {
    let outcomes = all_outcomes();
    for a in 0..outcomes.len() {
        for b in 0..outcomes.len() {
            assert_eq!(outcomes[a].pack() == outcomes[b].pack(), a == b);
        }
    }
}

#[test]
fn other_bit_patterns_are_not_unpacked() {
    for value in [0i64, 3, 5, 6, 1 << 21, 1 << 22, (1 << 20) + 1, (1 << 18) | (1 << 19), -1, -2] {
        assert_eq!(GestureOutcome::unpack(value), None, "value {}", value);
    }
    assert_eq!(GestureOutcome::unpack(i64::MAX), None);
    assert_eq!(GestureOutcome::unpack(i64::MIN), None);
    assert_eq!(GestureOutcome::unpack(1 << 32), None);
    assert_eq!(GestureOutcome::from_bit(21), None);
    assert_eq!(GestureOutcome::from_bit(u32::MAX), None);
    let mut defined = 0;
    for value in 0..=(1i64 << 21) {
        if GestureOutcome::unpack(value).is_some() {
            defined += 1;
        }
    }
    assert_eq!(defined, 21);
}

#[test]
fn click_and_hold_need_no_direction() {
    assert_eq!(GestureDetectionServer::packed_result(GenericGestureType::Click, None), 1);
    assert_eq!(GestureDetectionServer::packed_result(GenericGestureType::Hold, None), 2);
    assert_eq!(
        GestureDetectionServer::packed_result(
            GenericGestureType::Click,
            Some(DirectionResult::Drag(Direction::West))
        ),
        1
    );
    assert_eq!(
        GestureDetectionServer::packed_result(
            GenericGestureType::Hold,
            Some(DirectionResult::Circular(RotationDirection::Clockwise))
        ),
        2
    );
}

#[test]
fn swipe_to_the_north_packs_to_bit_twelve() {
    let packed = GestureDetectionServer::packed_result(
        GenericGestureType::Swipe,
        Some(DirectionResult::Drag(Direction::North)),
    );
    assert_eq!(Direction::North.java_ordinal(), 2);
    assert_eq!(packed, 4096);
    assert_eq!(
        GestureOutcome::unpack(4096),
        Some(GestureOutcome::Swipe(Direction::North))
    );
}

#[test]
fn clockwise_circle_packs_to_bit_eighteen() {
    let packed = GestureDetectionServer::packed_result(
        GenericGestureType::Circle,
        Some(DirectionResult::Circular(RotationDirection::Clockwise)),
    );
    assert_eq!(packed, 262_144);
    let packed = GestureDetectionServer::packed_result(
        GenericGestureType::Circle,
        Some(DirectionResult::Circular(RotationDirection::AntiClockwise)),
    );
    assert_eq!(packed, 524_288);
}

#[test]
fn boomerang_without_direction_packs_to_the_error_bit() {
    let packed = GestureDetectionServer::packed_result(GenericGestureType::Boomerang, None);
    assert_eq!(packed, 1 << 20);
    assert_eq!(packed, 1_048_576);
    assert_eq!(GestureOutcome::unpack(packed as i64), Some(GestureOutcome::Undetected));
}

#[test]
fn missing_or_unfit_direction_packs_to_the_error_bit() {
    let error = 1u32 << 20;
    let circular = Some(DirectionResult::Circular(RotationDirection::AntiClockwise));
    let drag = Some(DirectionResult::Drag(Direction::South));
    let unknown = Some(DirectionResult::Unknown);
    for gesture in [GenericGestureType::Boomerang, GenericGestureType::Swipe] {
        assert_eq!(GestureDetectionServer::packed_result(gesture, None), error);
        assert_eq!(GestureDetectionServer::packed_result(gesture, unknown), error);
        assert_eq!(GestureDetectionServer::packed_result(gesture, circular), error);
    }
    assert_eq!(GestureDetectionServer::packed_result(GenericGestureType::Circle, None), error);
    assert_eq!(GestureDetectionServer::packed_result(GenericGestureType::Circle, unknown), error);
    assert_eq!(GestureDetectionServer::packed_result(GenericGestureType::Circle, drag), error);
}

#[test]
fn directional_offset_adds_the_ordinal_to_the_base() {
    for direction in Direction::values() {
        let drag = Some(DirectionResult::Drag(direction));
        assert_eq!(
            GestureDetectionServer::directional_offset_for(drag, BOOMERANG_BITWISE_OFFSET),
            1u32 << (2 + direction.java_ordinal())
        );
        assert_eq!(
            GestureDetectionServer::directional_offset_for(drag, SWIPE_BITWISE_OFFSET),
            1u32 << (10 + direction.java_ordinal())
        );
    }
    assert_eq!(
        GestureDetectionServer::directional_offset_for(
            Some(DirectionResult::Drag(Direction::Southeast)),
            24
        ),
        1u32 << 31
    );
    assert_eq!(GestureDetectionServer::directional_offset_for(None, 2), 1 << 20);
    assert_eq!(
        GestureDetectionServer::directional_offset_for(Some(DirectionResult::Unknown), 10),
        1 << 20
    );
}

#[test]
fn classification_and_packed_form_agree() {
    for gesture in GenericGestureType::values() {
        let mut payloads = vec![None, Some(DirectionResult::Unknown)];
        for direction in Direction::values() {
            payloads.push(Some(DirectionResult::Drag(direction)));
        }
        payloads.push(Some(DirectionResult::Circular(RotationDirection::Clockwise)));
        payloads.push(Some(DirectionResult::Circular(RotationDirection::AntiClockwise)));
        for payload in payloads {
            let outcome = GestureOutcome::from_classification(gesture, payload);
            assert_eq!(outcome.pack(), GestureDetectionServer::packed_result(gesture, payload));
            match outcome.gesture_type() {
                Some(found) => assert_eq!(found, gesture),
                None => assert_eq!(outcome, GestureOutcome::Undetected),
            }
        }
    }
}

#[test]
fn gesture_type_of_a_packed_result() {
    let of = GenericGestureType::from_non_generic_gesture_int_value;
    assert_eq!(of(1), Some(GenericGestureType::Click));
    assert_eq!(of(2), Some(GenericGestureType::Hold));
    for bit in 2..10 {
        assert_eq!(of(1 << bit), Some(GenericGestureType::Boomerang));
    }
    for bit in 10..18 {
        assert_eq!(of(1 << bit), Some(GenericGestureType::Swipe));
    }
    assert_eq!(of(1 << 18), Some(GenericGestureType::Circle));
    assert_eq!(of(1 << 19), Some(GenericGestureType::Circle));
    assert_eq!(of(1 << 20), None);
    assert_eq!(of(0), None);
    assert_eq!(of(9), None);
    assert_eq!(of(-1), None);
}
