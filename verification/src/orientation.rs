use vstd::prelude::*;
use vstd::string::StrSliceExecFns;

verus! {

/// Logical device facing, one of the four orientations the accelerometer
/// reports. Maps deterministically to a rotation index 0-3.
#[derive(Debug, PartialEq, Eq, Structural, Clone, Copy)]
pub enum Orientation {
    Normal,
    LeftUp,
    BottomUp,
    RightUp,
}

/// Character-wise equality of two string slices.
pub fn str_eq(a: &str, b: &str) -> (r: bool)
    ensures
        r == (a@ == b@),
{
    let alen = a.unicode_len();
    let blen = b.unicode_len();
    if alen != blen {
        return false;
    }
    let mut i: usize = 0;
    while i < alen
        invariant
            0 <= i <= alen,
            alen == a@.len(),
            alen == b@.len(),
            forall|j: int| 0 <= j < i ==> a@[j] == b@[j],
        decreases alen - i,
    {
        if a.get_char(i) != b.get_char(i) {
            return false;
        }
        i += 1;
    }
    proof {
        assert(a@ =~= b@);
    }
    true
}

/// The raw labels the sensor may report, mapped to the closed type;
/// any other label is not recognized.
pub open spec fn parse_orientation(s: Seq<char>) -> Option<Orientation> {
    if s == "normal"@ {
        Some(Orientation::Normal)
    } else if s == "left-up"@ {
        Some(Orientation::LeftUp)
    } else if s == "right-up"@ {
        Some(Orientation::RightUp)
    } else if s == "bottom-up"@ {
        Some(Orientation::BottomUp)
    } else {
        None
    }
}

impl Orientation {
    /// Normalize a raw sensor label; unrecognized labels yield `None` and are
    /// never fatal to a caller.
    pub fn new(s: &str) -> (r: Option<Orientation>)
        ensures
            r == parse_orientation(s@),
    {
        if str_eq(s, "normal") {
            Some(Orientation::Normal)
        } else if str_eq(s, "left-up") {
            Some(Orientation::LeftUp)
        } else if str_eq(s, "right-up") {
            Some(Orientation::RightUp)
        } else if str_eq(s, "bottom-up") {
            Some(Orientation::BottomUp)
        } else {
            None
        }
    }

    /// Rotation index used to look up the transform table.
    pub open spec fn rotation_spec(self) -> int {
        match self {
            Orientation::Normal => 0,
            Orientation::LeftUp => 1,
            Orientation::BottomUp => 2,
            Orientation::RightUp => 3,
        }
    }

    /// Total mapping from orientation to its rotation index.
    pub fn rotation(self) -> (r: usize)
        ensures
            r == self.rotation_spec(),
            r < 4,
    {
        match self {
            Orientation::Normal => 0,
            Orientation::LeftUp => 1,
            Orientation::BottomUp => 2,
            Orientation::RightUp => 3,
        }
    }
}

} // verus!
