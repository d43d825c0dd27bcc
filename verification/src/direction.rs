use crate::text::same_text;
use vstd::prelude::*;
use vstd::string::*;

verus! {

/// The eight compass directions, counter-clockwise from east. The position of
/// a direction in this order is the number that stands for it on the wire.
#[derive(Debug, Clone, Copy, PartialEq, Eq, Hash, Structural)]
pub enum Direction {
    East,
    Northeast,
    North,
    Northwest,
    West,
    Southwest,
    South,
    Southeast,
}

/// The number of compass directions.
pub const DIRECTION_COUNT: usize = 8;

/// The angle of a full turn: 360 degrees, as an angle pattern.
pub const FULL_TURN: u64 = 0x4076_8000_0000_0000;

/// The last angle of the sector at a position of the compass order.
///
/// An angle is measured in degrees and held as an angle pattern: the 64 bits
/// of a binary64 floating-point number, read as an unsigned integer. Among
/// the patterns of the numbers from zero upwards, a greater number has the
/// greater pattern, so that to compare two such angles is to compare their
/// patterns. The pattern of a negative number, of an infinity and of what is
/// not a number is greater than every limit.
///
/// The circle is cut into eight sectors of 45 degrees, each with a compass
/// point in its middle. Sector `index` ends at `45 * (index + 1) - 22.5`
/// degrees: 22.5, 67.5, 112.5, 157.5, 202.5, 247.5, 292.5 and 337.5.
pub open spec fn spec_sector_limit(index: int) -> u64 {
    if index == 0 {
        0x4036_8000_0000_0000
    } else if index == 1 {
        0x4050_E000_0000_0000
    } else if index == 2 {
        0x405C_2000_0000_0000
    } else if index == 3 {
        0x4063_B000_0000_0000
    } else if index == 4 {
        0x4069_5000_0000_0000
    } else if index == 5 {
        0x406E_F000_0000_0000
    } else if index == 6 {
        0x4072_4800_0000_0000
    } else {
        0x4075_1800_0000_0000
    }
}

/// The angle of the compass point at a position of the compass order: 0, 45,
/// 90, 135, 180, 225, 270 and 315 degrees, as angle patterns.
pub open spec fn spec_compass_point(index: int) -> u64 {
    if index == 0 {
        0
    } else if index == 1 {
        0x4046_8000_0000_0000
    } else if index == 2 {
        0x4056_8000_0000_0000
    } else if index == 3 {
        0x4060_E000_0000_0000
    } else if index == 4 {
        0x4066_8000_0000_0000
    } else if index == 5 {
        0x406C_2000_0000_0000
    } else if index == 6 {
        0x4070_E000_0000_0000
    } else {
        0x4073_B000_0000_0000
    }
}

/// The last angle of the sector at a position of the compass order.
pub fn sector_limit(index: usize) -> (r: u64)
    requires
        index < DIRECTION_COUNT,
    ensures
        r == spec_sector_limit(index as int),
{
    match index {
        0 => 0x4036_8000_0000_0000,
        1 => 0x4050_E000_0000_0000,
        2 => 0x405C_2000_0000_0000,
        3 => 0x4063_B000_0000_0000,
        4 => 0x4069_5000_0000_0000,
        5 => 0x406E_F000_0000_0000,
        6 => 0x4072_4800_0000_0000,
        _ => 0x4075_1800_0000_0000,
    }
}

impl Direction {
    /// The position of the direction in the compass order, from 0 to 7.
    pub open spec fn spec_ordinal(self) -> int {
        match self {
            Direction::East => 0,
            Direction::Northeast => 1,
            Direction::North => 2,
            Direction::Northwest => 3,
            Direction::West => 4,
            Direction::Southwest => 5,
            Direction::South => 6,
            Direction::Southeast => 7,
        }
    }

    /// The direction at a position of the compass order; east for every
    /// position beyond the eighth.
    pub open spec fn spec_from_index(index: int) -> Direction {
        if index == 1 {
            Direction::Northeast
        } else if index == 2 {
            Direction::North
        } else if index == 3 {
            Direction::Northwest
        } else if index == 4 {
            Direction::West
        } else if index == 5 {
            Direction::Southwest
        } else if index == 6 {
            Direction::South
        } else if index == 7 {
            Direction::Southeast
        } else {
            Direction::East
        }
    }

    /// The direction that lies half a turn away.
    pub open spec fn spec_opposite(self) -> Direction {
        Self::spec_from_index((self.spec_ordinal() + 4) % 8)
    }

    /// A direction with its two neighbours on the compass: the one before it,
    /// itself, the one after it.
    pub open spec fn spec_adjacent(self) -> Seq<Direction> {
        seq![
            Self::spec_from_index((self.spec_ordinal() + 7) % 8),
            self,
            Self::spec_from_index((self.spec_ordinal() + 1) % 8),
        ]
    }

    /// The direction of an angle: that of the first sector, in compass
    /// order, whose last angle is not below it. East where there is none,
    /// which closes the circle: east reaches from above 337.5 degrees round
    /// to 22.5.
    pub open spec fn spec_direction_from_alpha(alpha: u64) -> Direction {
        if alpha <= spec_sector_limit(0) {
            Direction::East
        } else if alpha <= spec_sector_limit(1) {
            Direction::Northeast
        } else if alpha <= spec_sector_limit(2) {
            Direction::North
        } else if alpha <= spec_sector_limit(3) {
            Direction::Northwest
        } else if alpha <= spec_sector_limit(4) {
            Direction::West
        } else if alpha <= spec_sector_limit(5) {
            Direction::Southwest
        } else if alpha <= spec_sector_limit(6) {
            Direction::South
        } else if alpha <= spec_sector_limit(7) {
            Direction::Southeast
        } else {
            Direction::East
        }
    }

    /// The upper-case name of the direction.
    pub open spec fn spec_name(self) -> Seq<char> {
        match self {
            Direction::East => "EAST"@,
            Direction::Northeast => "NORTH_EAST"@,
            Direction::North => "NORTH"@,
            Direction::Northwest => "NORTH_WEST"@,
            Direction::West => "WEST"@,
            Direction::Southwest => "SOUTH_WEST"@,
            Direction::South => "SOUTH"@,
            Direction::Southeast => "SOUTH_EAST"@,
        }
    }

    /// The direction that a piece of text names, in either of the two
    /// accepted spellings of each direction.
    pub open spec fn spec_value_of(text: Seq<char>) -> Option<Direction> {
        if text == "East"@ || text == "EAST"@ {
            Some(Direction::East)
        } else if text == "Northeast"@ || text == "NORTHEAST"@ {
            Some(Direction::Northeast)
        } else if text == "North"@ || text == "NORTH"@ {
            Some(Direction::North)
        } else if text == "Northwest"@ || text == "NORTHWEST"@ {
            Some(Direction::Northwest)
        } else if text == "West"@ || text == "WEST"@ {
            Some(Direction::West)
        } else if text == "Southwest"@ || text == "SOUTHWEST"@ {
            Some(Direction::Southwest)
        } else if text == "South"@ || text == "SOUTH"@ {
            Some(Direction::South)
        } else if text == "Southeast"@ || text == "SOUTHEAST"@ {
            Some(Direction::Southeast)
        } else {
            None
        }
    }

    /// All directions in compass order.
    pub open spec fn spec_values() -> Seq<Direction> {
        Seq::new(8, |i: int| Self::spec_from_index(i))
    }

    pub fn name(self) -> (r: String)
        ensures
            r@ == self.spec_name(),
    {
        match self {
            Direction::East => String::from_str("EAST"),
            Direction::Northeast => String::from_str("NORTH_EAST"),
            Direction::North => String::from_str("NORTH"),
            Direction::Northwest => String::from_str("NORTH_WEST"),
            Direction::West => String::from_str("WEST"),
            Direction::Southwest => String::from_str("SOUTH_WEST"),
            Direction::South => String::from_str("SOUTH"),
            Direction::Southeast => String::from_str("SOUTH_EAST"),
        }
    }

    pub fn value_of(string: &str) -> (r: Option<Self>)
        ensures
            r == Self::spec_value_of(string@),
    {
        if same_text(string, "East") || same_text(string, "EAST") {
            Some(Direction::East)
        } else if same_text(string, "Northeast") || same_text(string, "NORTHEAST") {
            Some(Direction::Northeast)
        } else if same_text(string, "North") || same_text(string, "NORTH") {
            Some(Direction::North)
        } else if same_text(string, "Northwest") || same_text(string, "NORTHWEST") {
            Some(Direction::Northwest)
        } else if same_text(string, "West") || same_text(string, "WEST") {
            Some(Direction::West)
        } else if same_text(string, "Southwest") || same_text(string, "SOUTHWEST") {
            Some(Direction::Southwest)
        } else if same_text(string, "South") || same_text(string, "SOUTH") {
            Some(Direction::South)
        } else if same_text(string, "Southeast") || same_text(string, "SOUTHEAST") {
            Some(Direction::Southeast)
        } else {
            None
        }
    }

    pub fn java_ordinal(self) -> (r: u32)
        ensures
            r == self.spec_ordinal(),
    {
        match self {
            Direction::East => 0,
            Direction::Northeast => 1,
            Direction::North => 2,
            Direction::Northwest => 3,
            Direction::West => 4,
            Direction::Southwest => 5,
            Direction::South => 6,
            Direction::Southeast => 7,
        }
    }

    /// The direction of an angle, given as an angle pattern.
    pub fn direction_from_alpha(alpha: u64) -> (r: Direction)
        ensures
            r == Self::spec_direction_from_alpha(alpha),
    {
        let mut i: usize = 0;
        while i < DIRECTION_COUNT
            invariant
                i <= DIRECTION_COUNT,
                forall|earlier: int| 0 <= earlier < i ==> spec_sector_limit(earlier) < alpha,
            decreases DIRECTION_COUNT - i,
        {
            if sector_limit(i) >= alpha {
                return Self::from_index(i);
            }
            i += 1;
        }
        Direction::East
    }

    pub fn from_index(index: usize) -> (r: Direction)
        ensures
            r == Self::spec_from_index(index as int),
    {
        match index {
            0 => Direction::East,
            1 => Direction::Northeast,
            2 => Direction::North,
            3 => Direction::Northwest,
            4 => Direction::West,
            5 => Direction::Southwest,
            6 => Direction::South,
            7 => Direction::Southeast,
            _ => Direction::East,
        }
    }

    pub fn opposite_direction(self) -> (r: Direction)
        ensures
            r == self.spec_opposite(),
    {
        match self {
            Direction::East => Direction::West,
            Direction::Northeast => Direction::Southwest,
            Direction::North => Direction::South,
            Direction::Northwest => Direction::Southeast,
            Direction::West => Direction::East,
            Direction::Southwest => Direction::Northeast,
            Direction::South => Direction::North,
            Direction::Southeast => Direction::Northwest,
        }
    }

    pub fn adjacent_directions(self) -> (r: Vec<Direction>)
        ensures
            r@ == self.spec_adjacent(),
    {
        let r = match self {
            Direction::East => vec![Direction::Southeast, Direction::East, Direction::Northeast],
            Direction::Northeast => vec![Direction::East, Direction::Northeast, Direction::North],
            Direction::North => vec![Direction::Northeast, Direction::North, Direction::Northwest],
            Direction::Northwest => vec![Direction::North, Direction::Northwest, Direction::West],
            Direction::West => vec![Direction::Northwest, Direction::West, Direction::Southwest],
            Direction::Southwest => vec![Direction::West, Direction::Southwest, Direction::South],
            Direction::South => vec![Direction::Southwest, Direction::South, Direction::Southeast],
            Direction::Southeast => vec![Direction::South, Direction::Southeast, Direction::East],
        };
        assert(r@ =~= self.spec_adjacent());
        r
    }

    pub fn values() -> (r: Vec<Self>)
        ensures
            r@ == Self::spec_values(),
    {
        let r = vec![
            Direction::East,
            Direction::Northeast,
            Direction::North,
            Direction::Northwest,
            Direction::West,
            Direction::Southwest,
            Direction::South,
            Direction::Southeast,
        ];
        assert(r@ =~= Self::spec_values());
        r
    }

    /// A direction is found again from its position in the compass order.
    pub proof fn lemma_from_index_of_ordinal(self)
        ensures
            0 <= self.spec_ordinal() < 8,
            Self::spec_from_index(self.spec_ordinal()) == self,
    {
    }

    /// A position below eight is found again from its direction.
    pub proof fn lemma_ordinal_of_from_index(index: int)
        requires
            0 <= index < 8,
        ensures
            Self::spec_from_index(index).spec_ordinal() == index,
    {
    }

    /// Every angle has one direction, and all angles of a sector have the
    /// same: an angle above the last angle of the sector before and not above
    /// the last angle of its own sector has the direction of that sector.
    /// The angles up to the first limit and those above the last are east.
    pub proof fn lemma_direction_is_constant_on_sector(alpha: u64, index: int)
        requires
            0 <= index < 8,
            index == 0 ==> alpha <= spec_sector_limit(0) || spec_sector_limit(7) < alpha,
            index > 0 ==> spec_sector_limit(index - 1) < alpha <= spec_sector_limit(index),
        ensures
            Self::spec_direction_from_alpha(alpha) == Self::spec_from_index(index),
    {
    }

    /// Every angle lies in the sector of its direction, so that two angles
    /// of different directions never share a sector.
    pub proof fn lemma_angle_lies_in_sector_of_direction(alpha: u64)
        ensures
            ({
                let index = Self::spec_direction_from_alpha(alpha).spec_ordinal();
                &&& 0 <= index < 8
                &&& index == 0 ==> alpha <= spec_sector_limit(0) || spec_sector_limit(7) < alpha
                &&& index > 0 ==> spec_sector_limit(index - 1) < alpha <= spec_sector_limit(index)
            }),
    {
    }

    /// Each compass point lies in the sector that is named after it, and the
    /// sector limits lie in rising order below the full turn.
    pub proof fn lemma_compass_point_lies_in_its_sector(index: int)
        requires
            0 <= index < 8,
        ensures
            Self::spec_direction_from_alpha(spec_compass_point(index)) == Self::spec_from_index(
                index,
            ),
            spec_compass_point(index) < spec_sector_limit(index) < FULL_TURN,
            index > 0 ==> spec_sector_limit(index - 1) < spec_compass_point(index),
    {
    }

    /// Turning half a turn twice leads back, and never leaves a direction
    /// where it was.
    pub proof fn lemma_opposite_is_involution(self)
        ensures
            self.spec_opposite().spec_opposite() == self,
            self.spec_opposite() != self,
    {
    }
}

} // verus!
