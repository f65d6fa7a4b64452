use core::cmp::Ordering;
use core::ops::{Add, Mul, Sub};
use vstd::prelude::*;
use vstd::std_specs::cmp::PartialOrdSpecImpl;
use vstd::std_specs::ops::{AddSpecImpl, MulSpecImpl, SubSpecImpl};

verus! {

/// A point of the integer lattice. The same type addresses chunks (in chunk
/// units) and voxels (in voxel units).
///
/// Equality is component-wise and the order is lexicographic on `(x, y, z)`.
#[derive(Clone, Copy, PartialEq, Eq, Structural, Ord, Debug)]
pub struct Position {
    pub x: i64,
    pub y: i64,
    pub z: i64,
}

impl Position {
    pub fn new(x: i64, y: i64, z: i64) -> (p: Self)
        ensures
            p == (Position { x, y, z }),
    {
        Self { x, y, z }
    }

    /// The lexicographic order on `(x, y, z)`, strict.
    pub open spec fn lex_lt(self, other: Self) -> bool {
        self.x < other.x || (self.x == other.x && (self.y < other.y || (self.y == other.y && self.z
            < other.z)))
    }
}

impl Add for Position {
    type Output = Self;

    fn add(self, rhs: Self) -> (sum: Self) {
        Self::new(self.x + rhs.x, self.y + rhs.y, self.z + rhs.z)
    }
}

impl AddSpecImpl for Position {
    open spec fn obeys_add_spec() -> bool {
        true
    }

    /// No component of the sum leaves the range of `i64`.
    open spec fn add_req(self, rhs: Self) -> bool {
        &&& i64::MIN <= self.x + rhs.x <= i64::MAX
        &&& i64::MIN <= self.y + rhs.y <= i64::MAX
        &&& i64::MIN <= self.z + rhs.z <= i64::MAX
    }

    open spec fn add_spec(self, rhs: Self) -> Self {
        Position {
            x: (self.x + rhs.x) as i64,
            y: (self.y + rhs.y) as i64,
            z: (self.z + rhs.z) as i64,
        }
    }
}

impl Sub for Position {
    type Output = Self;

    fn sub(self, rhs: Self) -> (difference: Self) {
        Self::new(self.x - rhs.x, self.y - rhs.y, self.z - rhs.z)
    }
}

impl SubSpecImpl for Position {
    open spec fn obeys_sub_spec() -> bool {
        true
    }

    /// No component of the difference leaves the range of `i64`.
    open spec fn sub_req(self, rhs: Self) -> bool {
        &&& i64::MIN <= self.x - rhs.x <= i64::MAX
        &&& i64::MIN <= self.y - rhs.y <= i64::MAX
        &&& i64::MIN <= self.z - rhs.z <= i64::MAX
    }

    open spec fn sub_spec(self, rhs: Self) -> Self {
        Position {
            x: (self.x - rhs.x) as i64,
            y: (self.y - rhs.y) as i64,
            z: (self.z - rhs.z) as i64,
        }
    }
}

impl Mul<i64> for Position {
    type Output = Self;

    fn mul(self, rhs: i64) -> (product: Self) {
        Self::new(self.x * rhs, self.y * rhs, self.z * rhs)
    }
}

impl MulSpecImpl<i64> for Position {
    open spec fn obeys_mul_spec() -> bool {
        true
    }

    /// No component of the product leaves the range of `i64`.
    open spec fn mul_req(self, rhs: i64) -> bool {
        &&& i64::MIN <= self.x * rhs <= i64::MAX
        &&& i64::MIN <= self.y * rhs <= i64::MAX
        &&& i64::MIN <= self.z * rhs <= i64::MAX
    }

    open spec fn mul_spec(self, rhs: i64) -> Self {
        Position { x: (self.x * rhs) as i64, y: (self.y * rhs) as i64, z: (self.z * rhs) as i64 }
    }
}

impl PartialOrd for Position {
    fn partial_cmp(&self, other: &Self) -> (order: Option<Ordering>) {
        if self.x < other.x {
            Some(Ordering::Less)
        } else if self.x > other.x {
            Some(Ordering::Greater)
        } else if self.y < other.y {
            Some(Ordering::Less)
        } else if self.y > other.y {
            Some(Ordering::Greater)
        } else if self.z < other.z {
            Some(Ordering::Less)
        } else if self.z > other.z {
            Some(Ordering::Greater)
        } else {
            Some(Ordering::Equal)
        }
    }
}

impl PartialOrdSpecImpl for Position {
    open spec fn obeys_partial_cmp_spec() -> bool {
        true
    }

    open spec fn partial_cmp_spec(&self, other: &Self) -> Option<Ordering> {
        if self.lex_lt(*other) {
            Some(Ordering::Less)
        } else if other.lex_lt(*self) {
            Some(Ordering::Greater)
        } else {
            Some(Ordering::Equal)
        }
    }
}

/// The order is total: of two positions exactly one of "less", "equal" and
/// "greater" holds.
pub proof fn lemma_order_total(a: Position, b: Position)
    ensures
        a.lex_lt(b) || a == b || b.lex_lt(a),
        !(a.lex_lt(b) && b.lex_lt(a)),
        !(a.lex_lt(b) && a == b),
{
}

/// The order is transitive.
pub proof fn lemma_order_transitive(a: Position, b: Position, c: Position)
    requires
        a.lex_lt(b),
        b.lex_lt(c),
    ensures
        a.lex_lt(c),
{
}

} // verus!
