use crate::packed_result::GestureOutcome;
use crate::text::same_text;
use vstd::prelude::*;
use vstd::string::*;

verus! {

/// The families of gestures that a classifier tells apart.
#[derive(Debug, Clone, Copy, Hash, PartialEq, Eq, Structural)]
pub enum GenericGestureType {
    Click,
    Hold,
    Swipe,
    Circle,
    Boomerang,
}

/// The bitfield of a candidate set from which no gesture type has been
/// removed yet: one bit for each of the five types.
pub const ALL_GESTURE_TYPES_POSSIBLE: u8 = 31u8;

impl GenericGestureType {
    /// The position of the type in the declaration order, which is also the
    /// position of its bit in a candidate bitfield.
    pub open spec fn spec_ordinal(self) -> int {
        match self {
            GenericGestureType::Click => 0,
            GenericGestureType::Hold => 1,
            GenericGestureType::Swipe => 2,
            GenericGestureType::Circle => 3,
            GenericGestureType::Boomerang => 4,
        }
    }

    /// The bitfield in which only the bit of this type is set.
    pub open spec fn spec_mask(self) -> u8 {
        match self {
            GenericGestureType::Click => 1,
            GenericGestureType::Hold => 2,
            GenericGestureType::Swipe => 4,
            GenericGestureType::Circle => 8,
            GenericGestureType::Boomerang => 16,
        }
    }

    /// The type whose bit alone is set in a bitfield, if there is one.
    pub open spec fn spec_from_mask(value: u8) -> Option<GenericGestureType> {
        if value == 1 {
            Some(GenericGestureType::Click)
        } else if value == 2 {
            Some(GenericGestureType::Hold)
        } else if value == 4 {
            Some(GenericGestureType::Swipe)
        } else if value == 8 {
            Some(GenericGestureType::Circle)
        } else if value == 16 {
            Some(GenericGestureType::Boomerang)
        } else {
            None
        }
    }

    /// The upper-case name of the type.
    pub open spec fn spec_name(self) -> Seq<char> {
        match self {
            GenericGestureType::Click => "CLICK"@,
            GenericGestureType::Hold => "HOLD"@,
            GenericGestureType::Swipe => "SWIPE"@,
            GenericGestureType::Circle => "CIRCLE"@,
            GenericGestureType::Boomerang => "BOOMERANG"@,
        }
    }

    /// The type that a piece of text names, in either of the two accepted
    /// spellings of each type.
    pub open spec fn spec_value_of(text: Seq<char>) -> Option<GenericGestureType> {
        if text == "Click"@ || text == "CLICK"@ {
            Some(GenericGestureType::Click)
        } else if text == "Hold"@ || text == "HOLD"@ {
            Some(GenericGestureType::Hold)
        } else if text == "Swipe"@ || text == "SWIPE"@ {
            Some(GenericGestureType::Swipe)
        } else if text == "Circle"@ || text == "CIRCLE"@ {
            Some(GenericGestureType::Circle)
        } else if text == "Boomerang"@ || text == "BOOMERANG"@ {
            Some(GenericGestureType::Boomerang)
        } else {
            None
        }
    }

    /// All types in declaration order.
    pub open spec fn spec_values() -> Seq<GenericGestureType> {
        seq![
            GenericGestureType::Click,
            GenericGestureType::Hold,
            GenericGestureType::Swipe,
            GenericGestureType::Circle,
            GenericGestureType::Boomerang,
        ]
    }

    pub fn ordinal(&self) -> (r: i64)
        ensures
            r == self.spec_ordinal(),
    {
        match self {
            GenericGestureType::Click => 0,
            GenericGestureType::Hold => 1,
            GenericGestureType::Swipe => 2,
            GenericGestureType::Circle => 3,
            GenericGestureType::Boomerang => 4,
        }
    }

    pub fn name(self) -> (r: String)
        ensures
            r@ == self.spec_name(),
    {
        match self {
            GenericGestureType::Click => String::from_str("CLICK"),
            GenericGestureType::Hold => String::from_str("HOLD"),
            GenericGestureType::Swipe => String::from_str("SWIPE"),
            GenericGestureType::Circle => String::from_str("CIRCLE"),
            GenericGestureType::Boomerang => String::from_str("BOOMERANG"),
        }
    }

    pub fn value_of(string: &str) -> (r: Option<Self>)
        ensures
            r == Self::spec_value_of(string@),
    {
        if same_text(string, "Click") || same_text(string, "CLICK") {
            Some(GenericGestureType::Click)
        } else if same_text(string, "Hold") || same_text(string, "HOLD") {
            Some(GenericGestureType::Hold)
        } else if same_text(string, "Swipe") || same_text(string, "SWIPE") {
            Some(GenericGestureType::Swipe)
        } else if same_text(string, "Circle") || same_text(string, "CIRCLE") {
            Some(GenericGestureType::Circle)
        } else if same_text(string, "Boomerang") || same_text(string, "BOOMERANG") {
            Some(GenericGestureType::Boomerang)
        } else {
            None
        }
    }

    /// The gesture type of a packed result. None for the error bit and for
    /// an integer that is no packed result.
    pub fn from_non_generic_gesture_int_value(value: i64) -> (r: Option<Self>)
        ensures
            r == match GestureOutcome::spec_unpack(value as int) {
                Some(outcome) => outcome.spec_gesture_type(),
                None => None,
            },
    {
        match GestureOutcome::unpack(value) {
            Some(outcome) => outcome.gesture_type(),
            None => None,
        }
    }

    pub fn values() -> (r: Vec<Self>)
        ensures
            r@ == Self::spec_values(),
    {
        let r = vec![
            GenericGestureType::Click,
            GenericGestureType::Hold,
            GenericGestureType::Swipe,
            GenericGestureType::Circle,
            GenericGestureType::Boomerang,
        ];
        assert(r@ =~= Self::spec_values());
        r
    }

    pub fn java_ordinal(&self) -> (r: u8)
        ensures
            r == self.spec_mask(),
    {
        match self {
            GenericGestureType::Click => 1u8,
            GenericGestureType::Hold => 2u8,
            GenericGestureType::Swipe => 4u8,
            GenericGestureType::Circle => 8u8,
            GenericGestureType::Boomerang => 16u8,
        }
    }

    pub fn from_int_value(value: u8) -> (r: Option<GenericGestureType>)
        ensures
            r == Self::spec_from_mask(value),
    {
        match value {
            1 => Some(GenericGestureType::Click),
            2 => Some(GenericGestureType::Hold),
            4 => Some(GenericGestureType::Swipe),
            8 => Some(GenericGestureType::Circle),
            16 => Some(GenericGestureType::Boomerang),
            _ => None,
        }
    }

    /// Every type is found again from its name.
    pub proof fn lemma_value_of_name(self)
        ensures
            Self::spec_value_of(self.spec_name()) == Some(self),
    {
        reveal_strlit("Click");
        reveal_strlit("CLICK");
        reveal_strlit("Hold");
        reveal_strlit("HOLD");
        reveal_strlit("Swipe");
        reveal_strlit("SWIPE");
        reveal_strlit("Circle");
        reveal_strlit("CIRCLE");
        reveal_strlit("Boomerang");
        reveal_strlit("BOOMERANG");
        assert("CLICK"@[0] != "SWIPE"@[0] && "CLICK"@[1] != "Click"@[1] && "CLICK"@[1]
            != "Swipe"@[1]);
        assert("SWIPE"@[1] != "Click"@[1] && "SWIPE"@[1] != "Swipe"@[1]);
        assert("HOLD"@.len() == 4 && "Hold"@.len() == 4 && "HOLD"@[1] != "Hold"@[1]);
        assert("CIRCLE"@.len() == 6 && "Circle"@.len() == 6 && "CIRCLE"@[1] != "Circle"@[1]);
        assert("BOOMERANG"@.len() == 9 && "Boomerang"@.len() == 9 && "BOOMERANG"@[1]
            != "Boomerang"@[1]);
        assert("CLICK"@.len() == 5 && "SWIPE"@.len() == 5 && "Click"@.len() == 5 && "Swipe"@.len()
            == 5);
    }

    /// The bit of a type stands at the position that its ordinal gives, and
    /// the type is found again from it.
    pub proof fn lemma_mask_of_ordinal(self)
        ensures
            self.spec_mask() == 1u8 << (self.spec_ordinal() as u8),
            Self::spec_from_mask(self.spec_mask()) == Some(self),
    {
        assert(1u8 << 0u8 == 1) by (bit_vector);
        assert(1u8 << 1u8 == 2) by (bit_vector);
        assert(1u8 << 2u8 == 4) by (bit_vector);
        assert(1u8 << 3u8 == 8) by (bit_vector);
        assert(1u8 << 4u8 == 16) by (bit_vector);
    }
}

} // verus!
