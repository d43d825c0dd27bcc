use crate::direction::Direction;
use crate::direction_result::DirectionResult;
use crate::generic_gesture_type::GenericGestureType;
use crate::rotation_direction::RotationDirection;
use vstd::arithmetic::power2::*;
use vstd::prelude::*;

verus! {

/// The bit that stands for a click.
pub const CLICK_INDEX_BITWISE_OFFSET: u32 = 0;

/// The bit that stands for a hold.
pub const HOLD_BITWISE_OFFSET: u32 = 1;

/// The first of the eight bits that stand for a boomerang: one for each
/// compass direction, in compass order.
pub const BOOMERANG_BITWISE_OFFSET: u32 = 2;

/// The first of the eight bits that stand for a swipe: one for each compass
/// direction, in compass order.
pub const SWIPE_BITWISE_OFFSET: u32 = 10;

/// The first of the two bits that stand for a circle: clockwise, then
/// anticlockwise.
pub const CIRCLE_BITWISE_OFFSET: u32 = 18;

/// The bit that stands for a classification that cannot be represented.
pub const ERROR_BITWISE_OFFSET: u32 = 20;

/// What a detection can report: the twenty-one values that a packed result
/// can hold.
#[derive(Debug, Clone, Copy, PartialEq, Eq, Structural)]
pub enum GestureOutcome {
    Click,
    Hold,
    Boomerang(Direction),
    Swipe(Direction),
    Circle(RotationDirection),
    /// No gesture was determined: the classifier named a gesture type
    /// without the direction or rotation that the type needs.
    Undetected,
}

impl GestureOutcome {
    /// The position of the one bit that is set in the packed form.
    pub open spec fn spec_bit(self) -> nat {
        match self {
            GestureOutcome::Click => 0,
            GestureOutcome::Hold => 1,
            GestureOutcome::Boomerang(direction) => (2 + direction.spec_ordinal()) as nat,
            GestureOutcome::Swipe(direction) => (10 + direction.spec_ordinal()) as nat,
            GestureOutcome::Circle(rotation) => (18 + rotation.spec_ordinal()) as nat,
            GestureOutcome::Undetected => 20,
        }
    }

    /// The outcome that a bit position stands for.
    pub open spec fn spec_from_bit(bit: nat) -> Option<GestureOutcome> {
        if bit == 0 {
            Some(GestureOutcome::Click)
        } else if bit == 1 {
            Some(GestureOutcome::Hold)
        } else if bit < 10 {
            Some(GestureOutcome::Boomerang(Direction::spec_from_index(bit - 2)))
        } else if bit < 18 {
            Some(GestureOutcome::Swipe(Direction::spec_from_index(bit - 10)))
        } else if bit == 18 {
            Some(GestureOutcome::Circle(RotationDirection::Clockwise))
        } else if bit == 19 {
            Some(GestureOutcome::Circle(RotationDirection::AntiClockwise))
        } else if bit == 20 {
            Some(GestureOutcome::Undetected)
        } else {
            None
        }
    }

    /// The packed form: two to the power of the outcome's bit position.
    pub open spec fn spec_pack(self) -> nat {
        pow2(self.spec_bit())
    }

    /// The outcome whose packed form an integer is, if it is one of the
    /// twenty-one packed forms.
    pub open spec fn spec_unpack(value: int) -> Option<GestureOutcome> {
        if exists|outcome: GestureOutcome| outcome.spec_pack() == value {
            Some(choose|outcome: GestureOutcome| outcome.spec_pack() == value)
        } else {
            None
        }
    }

    /// What a classification amounts to. A boomerang or a swipe needs a
    /// compass direction and a circle needs a rotation; without it the
    /// gesture counts as undetected.
    pub open spec fn spec_from_classification(
        gesture: GenericGestureType,
        maybe_direction: Option<DirectionResult>,
    ) -> GestureOutcome {
        match gesture {
            GenericGestureType::Click => GestureOutcome::Click,
            GenericGestureType::Hold => GestureOutcome::Hold,
            GenericGestureType::Boomerang => match maybe_direction {
                Some(DirectionResult::Drag(direction)) => GestureOutcome::Boomerang(direction),
                _ => GestureOutcome::Undetected,
            },
            GenericGestureType::Swipe => match maybe_direction {
                Some(DirectionResult::Drag(direction)) => GestureOutcome::Swipe(direction),
                _ => GestureOutcome::Undetected,
            },
            GenericGestureType::Circle => match maybe_direction {
                Some(DirectionResult::Circular(rotation)) => GestureOutcome::Circle(rotation),
                _ => GestureOutcome::Undetected,
            },
        }
    }

    /// The gesture type of an outcome; none for an undetected gesture.
    pub open spec fn spec_gesture_type(self) -> Option<GenericGestureType> {
        match self {
            GestureOutcome::Click => Some(GenericGestureType::Click),
            GestureOutcome::Hold => Some(GenericGestureType::Hold),
            GestureOutcome::Boomerang(_) => Some(GenericGestureType::Boomerang),
            GestureOutcome::Swipe(_) => Some(GenericGestureType::Swipe),
            GestureOutcome::Circle(_) => Some(GenericGestureType::Circle),
            GestureOutcome::Undetected => None,
        }
    }

    /// What a classification amounts to.
    pub fn from_classification(
        gesture: GenericGestureType,
        maybe_direction: Option<DirectionResult>,
    ) -> (r: GestureOutcome)
        ensures
            r == Self::spec_from_classification(gesture, maybe_direction),
    {
        match gesture {
            GenericGestureType::Click => GestureOutcome::Click,
            GenericGestureType::Hold => GestureOutcome::Hold,
            GenericGestureType::Boomerang => match maybe_direction {
                Some(DirectionResult::Drag(direction)) => GestureOutcome::Boomerang(direction),
                _ => GestureOutcome::Undetected,
            },
            GenericGestureType::Swipe => match maybe_direction {
                Some(DirectionResult::Drag(direction)) => GestureOutcome::Swipe(direction),
                _ => GestureOutcome::Undetected,
            },
            GenericGestureType::Circle => match maybe_direction {
                Some(DirectionResult::Circular(rotation)) => GestureOutcome::Circle(rotation),
                _ => GestureOutcome::Undetected,
            },
        }
    }

    /// The gesture type of an outcome; none for an undetected gesture.
    pub fn gesture_type(self) -> (r: Option<GenericGestureType>)
        ensures
            r == self.spec_gesture_type(),
    {
        match self {
            GestureOutcome::Click => Some(GenericGestureType::Click),
            GestureOutcome::Hold => Some(GenericGestureType::Hold),
            GestureOutcome::Boomerang(_) => Some(GenericGestureType::Boomerang),
            GestureOutcome::Swipe(_) => Some(GenericGestureType::Swipe),
            GestureOutcome::Circle(_) => Some(GenericGestureType::Circle),
            GestureOutcome::Undetected => None,
        }
    }

    /// The position of the one bit that is set in the packed form.
    pub fn bit(self) -> (r: u32)
        ensures
            r == self.spec_bit(),
            r <= 20,
    {
        match self {
            GestureOutcome::Click => CLICK_INDEX_BITWISE_OFFSET,
            GestureOutcome::Hold => HOLD_BITWISE_OFFSET,
            GestureOutcome::Boomerang(direction) => BOOMERANG_BITWISE_OFFSET
                + direction.java_ordinal(),
            GestureOutcome::Swipe(direction) => SWIPE_BITWISE_OFFSET + direction.java_ordinal(),
            GestureOutcome::Circle(rotation) => CIRCLE_BITWISE_OFFSET + rotation.java_ordinal(),
            GestureOutcome::Undetected => ERROR_BITWISE_OFFSET,
        }
    }

    /// The outcome that a bit position stands for.
    pub fn from_bit(bit: u32) -> (r: Option<GestureOutcome>)
        ensures
            r == Self::spec_from_bit(bit as nat),
    {
        if bit == CLICK_INDEX_BITWISE_OFFSET {
            Some(GestureOutcome::Click)
        } else if bit == HOLD_BITWISE_OFFSET {
            Some(GestureOutcome::Hold)
        } else if bit < SWIPE_BITWISE_OFFSET {
            Some(
                GestureOutcome::Boomerang(
                    Direction::from_index((bit - BOOMERANG_BITWISE_OFFSET) as usize),
                ),
            )
        } else if bit < CIRCLE_BITWISE_OFFSET {
            Some(
                GestureOutcome::Swipe(Direction::from_index((bit - SWIPE_BITWISE_OFFSET) as usize)),
            )
        } else if bit == CIRCLE_BITWISE_OFFSET {
            Some(GestureOutcome::Circle(RotationDirection::Clockwise))
        } else if bit == CIRCLE_BITWISE_OFFSET + 1 {
            Some(GestureOutcome::Circle(RotationDirection::AntiClockwise))
        } else if bit == ERROR_BITWISE_OFFSET {
            Some(GestureOutcome::Undetected)
        } else {
            None
        }
    }

    /// The packed form of the outcome.
    pub fn pack(self) -> (r: u32)
        ensures
            r == self.spec_pack(),
    {
        int_pow2(self.bit())
    }

    /// The outcome whose packed form `value` is. None where `value` is not
    /// one of the twenty-one packed forms.
    pub fn unpack(value: i64) -> (r: Option<GestureOutcome>)
        ensures
            r == Self::spec_unpack(value as int),
    {
        let mut bit: u32 = 0;
        while bit <= ERROR_BITWISE_OFFSET
            invariant
                bit <= 21,
                forall|earlier: nat| earlier < bit ==> pow2(earlier) != value,
            decreases 21 - bit,
        {
            if int_pow2(bit) as i64 == value {
                let found = Self::from_bit(bit);
                proof {
                    let outcome = found.unwrap();
                    Self::lemma_bit_of_from_bit(bit as nat);
                    assert(outcome.spec_pack() == value);
                    let chosen = choose|o: GestureOutcome| o.spec_pack() == value;
                    chosen.lemma_pack_is_injective(outcome);
                }
                return found;
            }
            bit += 1;
        }
        proof {
            assert forall|outcome: GestureOutcome| outcome.spec_pack() != value by {
                outcome.lemma_from_bit_of_bit();
            }
        }
        None
    }

    /// A bit position of at most twenty stands for an outcome, and is that
    /// outcome's bit position.
    pub proof fn lemma_bit_of_from_bit(bit: nat)
        requires
            bit <= 20,
        ensures
            Self::spec_from_bit(bit) is Some,
            Self::spec_from_bit(bit).unwrap().spec_bit() == bit,
    {
        if 2 <= bit < 10 {
            Direction::lemma_ordinal_of_from_index(bit - 2);
        }
        if 10 <= bit < 18 {
            Direction::lemma_ordinal_of_from_index(bit - 10);
        }
    }

    /// The position of an outcome's bit is at most twenty, and leads back to
    /// the outcome.
    pub proof fn lemma_from_bit_of_bit(self)
        ensures
            self.spec_bit() <= 20,
            Self::spec_from_bit(self.spec_bit()) == Some(self),
    {
        match self {
            GestureOutcome::Boomerang(direction) => direction.lemma_from_index_of_ordinal(),
            GestureOutcome::Swipe(direction) => direction.lemma_from_index_of_ordinal(),
            _ => {},
        }
    }

    /// Two outcomes with the same packed form are the same outcome.
    pub proof fn lemma_pack_is_injective(self, other: GestureOutcome)
        requires
            self.spec_pack() == other.spec_pack(),
        ensures
            self == other,
    {
        let a = self.spec_bit();
        let b = other.spec_bit();
        if a < b {
            lemma_pow2_strictly_increases(a, b);
        }
        if b < a {
            lemma_pow2_strictly_increases(b, a);
        }
        self.lemma_from_bit_of_bit();
        other.lemma_from_bit_of_bit();
    }

    /// Unpacking the packed form of an outcome gives the outcome back.
    pub proof fn lemma_unpack_of_pack(self)
        ensures
            Self::spec_unpack(self.spec_pack() as int) == Some(self),
    {
        let value = self.spec_pack() as int;
        let found = choose|outcome: GestureOutcome| outcome.spec_pack() == value;
        found.lemma_pack_is_injective(self);
    }

    /// Whatever unpacks to an outcome is that outcome's packed form.
    pub proof fn lemma_pack_of_unpack(value: int)
        requires
            Self::spec_unpack(value) is Some,
        ensures
            Self::spec_unpack(value).unwrap().spec_pack() == value,
    {
    }

    /// A packed form lies between one and two to the power of twenty.
    pub proof fn lemma_pack_range(self)
        ensures
            1 <= self.spec_pack() <= 0x100000,
    {
        self.lemma_from_bit_of_bit();
        lemma2_to64();
        lemma_pow2_pos(self.spec_bit());
        if self.spec_bit() < 20 {
            lemma_pow2_strictly_increases(self.spec_bit(), 20);
        }
    }
}

/// Two to the power of `exponent`, by repeated doubling.
pub fn int_pow2(exponent: u32) -> (r: u32)
    requires
        exponent < 32,
    ensures
        r == pow2(exponent as nat),
{
    let mut result: u32 = 1;
    let mut i: u32 = 0;
    proof {
        lemma2_to64();
    }
    while i < exponent
        invariant
            i <= exponent < 32,
            result == pow2(i as nat),
        decreases exponent - i,
    {
        proof {
            lemma_pow2_unfold((i + 1) as nat);
            lemma2_to64();
            if i + 1 < 31 {
                lemma_pow2_strictly_increases((i + 1) as nat, 31);
            }
        }
        result *= 2;
        i += 1;
    }
    result
}

} // verus!
