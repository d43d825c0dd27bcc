use crate::direction::Direction;
use crate::direction_result::DirectionResult;
use crate::generic_gesture_type::{GenericGestureType, ALL_GESTURE_TYPES_POSSIBLE};
use crate::point::Point;
use vstd::prelude::*;
use vstd::string::*;

verus! {

/// The workspace of one detection request: what the requester measured, and
/// the gesture types that are still possible. A classifier narrows the set
/// down by removing types from it.
#[derive(Debug, Clone)]
pub struct GestureDetection {
    pub duration: i128,
    pub touch_points: Vec<Point>,
    pub direction_result: DirectionResult,
    /// One bit for each gesture type that is still possible, at the position
    /// of the type's ordinal.
    pub possible_gestures: u8,
    pub fling_direction: Option<Direction>,
    /// The reasons that were given for the removals so far, oldest first.
    pub removal_reasons: Vec<String>,
}

/// The most specific gesture type whose bit is set in a candidate bitfield
/// among the first `count` types: the one with the highest ordinal. A click
/// where none of them is set.
pub open spec fn most_specific_among(possible_gestures: u8, count: int) -> GenericGestureType {
    if count > 4 && possible_gestures & 16 != 0 {
        GenericGestureType::Boomerang
    } else if count > 3 && possible_gestures & 8 != 0 {
        GenericGestureType::Circle
    } else if count > 2 && possible_gestures & 4 != 0 {
        GenericGestureType::Swipe
    } else if count > 1 && possible_gestures & 2 != 0 {
        GenericGestureType::Hold
    } else {
        GenericGestureType::Click
    }
}

/// The most specific gesture type that a candidate bitfield still allows.
pub open spec fn most_specific(possible_gestures: u8) -> GenericGestureType {
    most_specific_among(possible_gestures, 5)
}

impl GestureDetection {
    pub fn new(duration: i128, touch_points: Vec<Point>, fling_direction: Option<Direction>) -> (r:
        Self)
        ensures
            r.duration == duration,
            r.touch_points == touch_points,
            r.direction_result == DirectionResult::Unknown,
            r.possible_gestures == ALL_GESTURE_TYPES_POSSIBLE,
            r.fling_direction == fling_direction,
            r.removal_reasons@.len() == 0,
    {
        Self {
            duration,
            touch_points,
            direction_result: DirectionResult::Unknown,
            possible_gestures: ALL_GESTURE_TYPES_POSSIBLE,
            fling_direction,
            removal_reasons: Vec::new(),
        }
    }

    /// Removes the gesture types whose bits are set in `gestures`, and keeps
    /// the reason for it.
    pub fn remove(&mut self, reason: &str, gestures: u8)
        ensures
            final(self).possible_gestures == old(self).possible_gestures & !gestures,
            final(self).duration == old(self).duration,
            final(self).touch_points == old(self).touch_points,
            final(self).direction_result == old(self).direction_result,
            final(self).fling_direction == old(self).fling_direction,
            final(self).removal_reasons@.len() == old(self).removal_reasons@.len() + 1,
            final(self).removal_reasons@.last()@ == reason@,
            final(self).removal_reasons@.drop_last() == old(self).removal_reasons@,
    {
        self.removal_reasons.push(String::from_str(reason));
        self.possible_gestures = self.possible_gestures & !gestures;
        assert(self.removal_reasons@.drop_last() =~= old(self).removal_reasons@);
    }

    /// The most specific gesture type that is still possible, with what is
    /// known of the direction.
    pub fn result(&self) -> (r: (GenericGestureType, &DirectionResult))
        ensures
            r.0 == most_specific(self.possible_gestures),
            *r.1 == self.direction_result,
    {
        let mut detected_gesture = GenericGestureType::Click;
        let mut highest_bit: i64 = 0;
        let values = GenericGestureType::values();
        let mut i: usize = 0;
        while i < values.len()
            invariant
                i <= 5,
                values@ == GenericGestureType::spec_values(),
                detected_gesture == most_specific_among(self.possible_gestures, i as int),
                highest_bit == detected_gesture.spec_ordinal(),
            decreases values.len() - i,
        {
            let gesture = values[i];
            let bit_position = gesture.ordinal();
            let bit_mask = gesture.java_ordinal();
            if self.possible_gestures & bit_mask != 0 {
                if bit_position > highest_bit {
                    detected_gesture = gesture;
                    highest_bit = bit_position;
                }
            }
            i += 1;
        }
        (detected_gesture, &self.direction_result)
    }
}

} // verus!
