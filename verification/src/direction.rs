//! Cardinal directions on the grid, with their opposite, their unit vector,
//! and the lowercase string codec used at the script boundary.

use vstd::prelude::*;
use vstd::string::StrSliceExecFns;

verus! {

/// Character-by-character string comparison, so that equality of the views
/// can be relied on in contracts.
pub fn str_eq(a: &str, b: &str) -> (r: bool)
    ensures
        r == (a@ == b@),
{
    let alen = a.unicode_len();
    let blen = b.unicode_len();
    if alen != blen {
        return false;
    }
    let mut i: usize = 0;
    while i < alen
        invariant
            i <= alen,
            alen == a@.len(),
            alen == b@.len(),
            forall|j: int| 0 <= j < i ==> a@[j] == b@[j],
        decreases alen - i,
    {
        if a.get_char(i) != b.get_char(i) {
            return false;
        }
        i = i + 1;
    }
    proof {
        assert(a@ =~= b@);
    }
    true
}

/// Cardinal direction used for snake movement.
#[derive(Clone, Copy, PartialEq, Eq, Structural, Debug)]
pub enum Direction {
    North,
    South,
    East,
    West,
}

impl Direction {
    /// The direction pointing the opposite way.
    pub open spec fn spec_opposite(self) -> Direction {
        match self {
            Direction::North => Direction::South,
            Direction::South => Direction::North,
            Direction::East => Direction::West,
            Direction::West => Direction::East,
        }
    }

    #[verifier::when_used_as_spec(spec_opposite)]
    pub fn opposite(self) -> (r: Self)
        ensures
            r == self.spec_opposite(),
    {
        match self {
            Direction::North => Direction::South,
            Direction::South => Direction::North,
            Direction::East => Direction::West,
            Direction::West => Direction::East,
        }
    }

    /// The unit vector of the direction in grid coordinates:
    /// east is +x, north is +y.
    pub open spec fn spec_delta(self) -> (i32, i32) {
        match self {
            Direction::North => (0i32, 1i32),
            Direction::South => (0i32, -1i32),
            Direction::East => (1i32, 0i32),
            Direction::West => (-1i32, 0i32),
        }
    }

    #[verifier::when_used_as_spec(spec_delta)]
    pub fn delta(self) -> (r: (i32, i32))
        ensures
            r == self.spec_delta(),
    {
        match self {
            Direction::North => (0, 1),
            Direction::South => (0, -1),
            Direction::East => (1, 0),
            Direction::West => (-1, 0),
        }
    }

    /// The lowercase name of the direction.
    pub open spec fn spec_str(self) -> Seq<char> {
        match self {
            Direction::North => "north"@,
            Direction::South => "south"@,
            Direction::East => "east"@,
            Direction::West => "west"@,
        }
    }

    pub fn as_str(self) -> (r: &'static str)
        ensures
            r@ == self.spec_str(),
    {
        match self {
            Direction::North => "north",
            Direction::South => "south",
            Direction::East => "east",
            Direction::West => "west",
        }
    }

    /// Decodes one of the four lowercase direction names; any other string
    /// (including other capitalizations) decodes to `None`.
    pub open spec fn spec_from_str(s: Seq<char>) -> Option<Direction> {
        if s == "north"@ {
            Some(Direction::North)
        } else if s == "south"@ {
            Some(Direction::South)
        } else if s == "east"@ {
            Some(Direction::East)
        } else if s == "west"@ {
            Some(Direction::West)
        } else {
            None
        }
    }

    pub fn from_str(s: &str) -> (r: Option<Self>)
        ensures
            r == Direction::spec_from_str(s@),
    {
        if str_eq(s, "north") {
            Some(Direction::North)
        } else if str_eq(s, "south") {
            Some(Direction::South)
        } else if str_eq(s, "east") {
            Some(Direction::East)
        } else if str_eq(s, "west") {
            Some(Direction::West)
        } else {
            None
        }
    }
}

/// Taking the opposite direction twice returns the original direction.
pub proof fn lemma_opposite_involution(d: Direction)
    ensures
        d.spec_opposite().spec_opposite() == d,
{
}

/// Every direction's name decodes back to that direction.
pub proof fn lemma_str_roundtrip(d: Direction)
    ensures
        Direction::spec_from_str(d.spec_str()) == Some(d),
{
    reveal_strlit("north");
    reveal_strlit("south");
    reveal_strlit("east");
    reveal_strlit("west");
    assert("north"@[0] == 'n');
    assert("south"@[0] == 's');
    assert("east"@[0] == 'e');
    assert("west"@[0] == 'w');
}

/// The direction *from* `a` *to* `b`. Meant for grid-adjacent cells, where a
/// single axis differs; if both axes differ, the horizontal axis wins.
pub open spec fn spec_direction_between(a: (i32, i32), b: (i32, i32)) -> Direction {
    if b.0 > a.0 {
        Direction::East
    } else if b.0 < a.0 {
        Direction::West
    } else if b.1 > a.1 {
        Direction::North
    } else {
        Direction::South
    }
}

/// Compute direction *from* `a` *to* `b` (adjacent cells).
pub fn direction_between(a: (i32, i32), b: (i32, i32)) -> (r: Direction)
    ensures
        r == spec_direction_between(a, b),
{
    if b.0 > a.0 {
        Direction::East
    } else if b.0 < a.0 {
        Direction::West
    } else if b.1 > a.1 {
        Direction::North
    } else {
        Direction::South
    }
}

} // verus!
