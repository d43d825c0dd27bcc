use crate::direction_result::DirectionResult;
use crate::generic_gesture_type::GenericGestureType;
use crate::gesture_detection::GestureDetection;
use crate::point::Point;
use vstd::prelude::*;

verus! {

/// The classifier that stands in until a real one is plugged in: it looks at
/// nothing, changes nothing, and calls every gesture a click of unknown
/// direction.
pub fn determine_gesture_dummy(
    touch_points: &mut Vec<Point>,
    gesture_detection: &mut GestureDetection,
) -> (r: (GenericGestureType, Option<DirectionResult>))
    ensures
        r == (GenericGestureType::Click, None::<DirectionResult>),
        *final(touch_points) == *old(touch_points),
        *final(gesture_detection) == *old(gesture_detection),
{
    (GenericGestureType::Click, None)
}

} // verus!
