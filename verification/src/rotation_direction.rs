use crate::text::same_text;
use vstd::prelude::*;
use vstd::string::*;

verus! {

/// The sense in which a circular gesture turns.
#[derive(Debug, Clone, Copy, PartialEq, Eq, Hash, Structural)]
pub enum RotationDirection {
    Clockwise,
    AntiClockwise,
}

impl RotationDirection {
    /// The position of the variant in the declaration order.
    pub open spec fn spec_ordinal(self) -> int {
        match self {
            RotationDirection::Clockwise => 0,
            RotationDirection::AntiClockwise => 1,
        }
    }

    /// The upper-case name of the variant.
    pub open spec fn spec_name(self) -> Seq<char> {
        match self {
            RotationDirection::Clockwise => "CLOCKWISE"@,
            RotationDirection::AntiClockwise => "ANTI_CLOCKWISE"@,
        }
    }

    /// The variant that a piece of text names, in either of the two accepted
    /// spellings of each variant.
    pub open spec fn spec_value_of(text: Seq<char>) -> Option<RotationDirection> {
        if text == "Clockwise"@ || text == "CLOCKWISE"@ {
            Some(RotationDirection::Clockwise)
        } else if text == "AntiClockwise"@ || text == "ANTI_CLOCKWISE"@ {
            Some(RotationDirection::AntiClockwise)
        } else {
            None
        }
    }

    pub fn name(self) -> (r: String)
        ensures
            r@ == self.spec_name(),
    {
        match self {
            RotationDirection::Clockwise => String::from_str("CLOCKWISE"),
            RotationDirection::AntiClockwise => String::from_str("ANTI_CLOCKWISE"),
        }
    }

    pub fn value_of(string: &str) -> (r: Option<Self>)
        ensures
            r == Self::spec_value_of(string@),
    {
        if same_text(string, "Clockwise") || same_text(string, "CLOCKWISE") {
            Some(RotationDirection::Clockwise)
        } else if same_text(string, "AntiClockwise") || same_text(string, "ANTI_CLOCKWISE") {
            Some(RotationDirection::AntiClockwise)
        } else {
            None
        }
    }

    pub fn java_ordinal(self) -> (r: u32)
        ensures
            r == self.spec_ordinal(),
    {
        match self {
            RotationDirection::Clockwise => 0,
            RotationDirection::AntiClockwise => 1,
        }
    }

    /// Every variant is found again from its name.
    pub proof fn lemma_value_of_name(self)
        ensures
            Self::spec_value_of(self.spec_name()) == Some(self),
    {
        reveal_strlit("Clockwise");
        reveal_strlit("CLOCKWISE");
        reveal_strlit("AntiClockwise");
        reveal_strlit("ANTI_CLOCKWISE");
        assert("ANTI_CLOCKWISE"@.len() != "CLOCKWISE"@.len());
        assert("ANTI_CLOCKWISE"@.len() != "Clockwise"@.len());
    }
}

} // verus!
