//! Grid coordinates and their saturating arithmetic.

use vstd::prelude::*;
use vstd::std_specs::convert::FromSpecImpl;
use vstd::std_specs::ops::{AddSpecImpl, SubSpecImpl};
use vstd::string::StringExecFns;
use crate::text::{decimal, decimal_string};

verus! {

/// A point of the grid: column `x`, row `y`.
#[derive(Debug, Clone, Copy, Hash, PartialEq, Eq, Structural)]
pub struct Coord {
    pub x: usize,
    pub y: usize,
}

/// `a + b` on one axis, held at `usize::MAX`.
pub open spec fn saturating_sum(a: usize, b: usize) -> usize {
    if a + b > usize::MAX {
        usize::MAX
    } else {
        (a + b) as usize
    }
}

/// `a - b` on one axis, held at zero.
pub open spec fn saturating_difference(a: usize, b: usize) -> usize {
    if a < b {
        0
    } else {
        (a - b) as usize
    }
}

impl Coord {
    /// The coordinate moved by `other`, each component held at `usize::MAX`.
    pub open spec fn moved_by(self, other: Coord) -> Coord {
        Coord { x: saturating_sum(self.x, other.x), y: saturating_sum(self.y, other.y) }
    }

    /// The coordinate moved back by `other`, each component held at zero.
    pub open spec fn moved_back_by(self, other: Coord) -> Coord {
        Coord {
            x: saturating_difference(self.x, other.x),
            y: saturating_difference(self.y, other.y),
        }
    }

    /// The text of the coordinate: `x`, a comma, `y`, both in decimal.
    pub open spec fn text(self) -> Seq<char> {
        decimal(self.x as nat) + seq![','] + decimal(self.y as nat)
    }

    /// The coordinate as text, `"x,y"`.
    pub fn to_string(&self) -> (text: String)
        ensures
            text@ == self.text(),
    {
        proof {
            reveal_strlit(",");
        }
        let mut text = decimal_string(self.x);
        text.append(",");
        text.append(decimal_string(self.y).as_str());
        assert(text@ =~= self.text());
        text
    }
}

impl From<(usize, usize)> for Coord {
    fn from(point: (usize, usize)) -> (c: Coord) {
        Coord { x: point.0, y: point.1 }
    }
}

impl FromSpecImpl<(usize, usize)> for Coord {
    open spec fn obeys_from_spec() -> bool {
        true
    }

    open spec fn from_spec(point: (usize, usize)) -> Coord {
        Coord { x: point.0, y: point.1 }
    }
}

impl Default for Coord {
    fn default() -> (c: Coord)
        ensures
            c == (Coord { x: 0, y: 0 }),
    {
        Coord { x: 0, y: 0 }
    }
}

impl std::ops::Add<Coord> for Coord {
    type Output = Coord;

    fn add(self, other: Coord) -> (sum: Coord) {
        Coord { x: self.x.saturating_add(other.x), y: self.y.saturating_add(other.y) }
    }
}

impl AddSpecImpl<Coord> for Coord {
    open spec fn obeys_add_spec() -> bool {
        true
    }

    open spec fn add_req(self, other: Coord) -> bool {
        true
    }

    open spec fn add_spec(self, other: Coord) -> Coord {
        self.moved_by(other)
    }
}

impl std::ops::Sub<Coord> for Coord {
    type Output = Coord;

    fn sub(self, other: Coord) -> (difference: Coord) {
        Coord { x: self.x.saturating_sub(other.x), y: self.y.saturating_sub(other.y) }
    }
}

impl SubSpecImpl<Coord> for Coord {
    open spec fn obeys_sub_spec() -> bool {
        true
    }

    open spec fn sub_req(self, other: Coord) -> bool {
        true
    }

    open spec fn sub_spec(self, other: Coord) -> Coord {
        self.moved_back_by(other)
    }
}

} // verus!
