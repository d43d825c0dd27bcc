use gesture_detection::test_data::{holds_recorded_gesture, test_data_text_pattern};

#[test]
fn recorded_gesture_is_found_in_test_data() {
    assert_eq!(
        holds_recorded_gesture("1.0,2.0:3.0,4.0\n1000\nSWIPE NORTH"),
        Some(true)
    );
    assert_eq!(holds_recorded_gesture("10.5,20.25\n40\nCLICK"), Some(true));
    assert_eq!(
        holds_recorded_gesture("# header\n0.0,0.0:1.5,1.5:3.0,0.0\n250\nCIRCLE CLOCKWISE\n"),
        Some(true)
    );
}

#[test]
fn other_text_holds_no_recorded_gesture() {
    assert_eq!(holds_recorded_gesture(""), Some(false));
    assert_eq!(holds_recorded_gesture("1,2:3,4\n1000\nSWIPE"), Some(false));
    assert_eq!(holds_recorded_gesture("1.0,2.0\nsoon\nCLICK"), Some(false));
    assert_eq!(holds_recorded_gesture("1.0,2.0 1000 CLICK"), Some(false));
    assert_eq!(holds_recorded_gesture(test_data_text_pattern()), Some(false));
}

#[test]
fn pattern_names_the_parts_of_a_recorded_gesture() {
    let pattern = test_data_text_pattern();
    for name in ["first_point", "other_points", "duration", "gesture_type", "direction"] {
        assert!(pattern.contains(&format!("(?P<{}>", name)));
    }
}
