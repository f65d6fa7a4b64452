use vstd::prelude::*;

verus! {

pub const CUBE_EDGES_COUNT: usize = 12;

/// The twelve edges of a cell, in the order in which the triangulation table
/// numbers them. South is `z = 0`, north `z = 1`; west is `x = 0`, east
/// `x = 1`; bottom is `y = 0`, top `y = 1`.
#[derive(Clone, Copy, PartialEq, Eq, Structural, Debug)]
pub enum EdgeMidpointsIndices {
    BottomNorth,
    BottomEast,
    BottomSouth,
    BottomWest,
    TopNorth,
    TopEast,
    TopSouth,
    TopWest,
    NorthWest,
    NorthEast,
    SouthEast,
    SouthWest,
}

impl EdgeMidpointsIndices {
    /// The number by which the triangulation table refers to the edge.
    pub open spec fn spec_index(self) -> int {
        match self {
            EdgeMidpointsIndices::BottomNorth => 0,
            EdgeMidpointsIndices::BottomEast => 1,
            EdgeMidpointsIndices::BottomSouth => 2,
            EdgeMidpointsIndices::BottomWest => 3,
            EdgeMidpointsIndices::TopNorth => 4,
            EdgeMidpointsIndices::TopEast => 5,
            EdgeMidpointsIndices::TopSouth => 6,
            EdgeMidpointsIndices::TopWest => 7,
            EdgeMidpointsIndices::NorthWest => 8,
            EdgeMidpointsIndices::NorthEast => 9,
            EdgeMidpointsIndices::SouthEast => 10,
            EdgeMidpointsIndices::SouthWest => 11,
        }
    }

    pub fn index(self) -> (index: usize)
        ensures
            index == self.spec_index(),
            index < CUBE_EDGES_COUNT,
    {
        match self {
            EdgeMidpointsIndices::BottomNorth => 0,
            EdgeMidpointsIndices::BottomEast => 1,
            EdgeMidpointsIndices::BottomSouth => 2,
            EdgeMidpointsIndices::BottomWest => 3,
            EdgeMidpointsIndices::TopNorth => 4,
            EdgeMidpointsIndices::TopEast => 5,
            EdgeMidpointsIndices::TopSouth => 6,
            EdgeMidpointsIndices::TopWest => 7,
            EdgeMidpointsIndices::NorthWest => 8,
            EdgeMidpointsIndices::NorthEast => 9,
            EdgeMidpointsIndices::SouthEast => 10,
            EdgeMidpointsIndices::SouthWest => 11,
        }
    }
}

/// A corner of a cell in contracts: its offset `(x, y, z)` from the cell's
/// origin, each 0 or 1.
pub type Corner = (int, int, int);

pub open spec fn is_corner(corner: Corner) -> bool {
    &&& 0 <= corner.0 <= 1
    &&& 0 <= corner.1 <= 1
    &&& 0 <= corner.2 <= 1
}

/// The corner at which the mesher starts on edge `edge`: the end nearer to
/// the cell's origin.
pub open spec fn edge_start(edge: int) -> Corner {
    if edge == 0 {
        (0, 0, 1)
    } else if edge == 1 {
        (1, 0, 0)
    } else if edge == 2 {
        (0, 0, 0)
    } else if edge == 3 {
        (0, 0, 0)
    } else if edge == 4 {
        (0, 1, 1)
    } else if edge == 5 {
        (1, 1, 0)
    } else if edge == 6 {
        (0, 1, 0)
    } else if edge == 7 {
        (0, 1, 0)
    } else if edge == 8 {
        (0, 0, 1)
    } else if edge == 9 {
        (1, 0, 1)
    } else if edge == 10 {
        (1, 0, 0)
    } else {
        (0, 0, 0)
    }
}

/// The axis along which edge `edge` runs: 0 for `x`, 1 for `y`, 2 for `z`.
pub open spec fn edge_axis(edge: int) -> int {
    if edge == 0 || edge == 2 || edge == 4 || edge == 6 {
        0
    } else if edge >= 8 {
        1
    } else {
        2
    }
}

/// The other end of edge `edge`: one step from its start along its axis.
pub open spec fn edge_end(edge: int) -> Corner {
    let start = edge_start(edge);
    let axis = edge_axis(edge);
    if axis == 0 {
        (1, start.1, start.2)
    } else if axis == 1 {
        (start.0, 1, start.2)
    } else {
        (start.0, start.1, 1)
    }
}

/// The number of a corner: the bit that stands for it in a cube configuration.
pub open spec fn corner_number(corner: Corner) -> int {
    let (x, y, z) = corner;
    if y == 0 {
        if z == 1 {
            if x == 0 {
                0
            } else {
                1
            }
        } else {
            if x == 1 {
                2
            } else {
                3
            }
        }
    } else {
        if z == 1 {
            if x == 0 {
                4
            } else {
                5
            }
        } else {
            if x == 1 {
                6
            } else {
                7
            }
        }
    }
}

/// Two to the power `number`, for the eight corner numbers.
pub open spec fn corner_weight(number: int) -> int {
    if number == 0 {
        1
    } else if number == 1 {
        2
    } else if number == 2 {
        4
    } else if number == 3 {
        8
    } else if number == 4 {
        16
    } else if number == 5 {
        32
    } else if number == 6 {
        64
    } else {
        128
    }
}

/// Whether configuration `config` has the corner with number `number` solid:
/// whether bit `number` of `config` is set.
pub open spec fn config_solid(config: int, number: int) -> bool {
    if number == 0 {
        config % 2 == 1
    } else if number == 1 {
        (config / 2) % 2 == 1
    } else if number == 2 {
        (config / 4) % 2 == 1
    } else if number == 3 {
        (config / 8) % 2 == 1
    } else if number == 4 {
        (config / 16) % 2 == 1
    } else if number == 5 {
        (config / 32) % 2 == 1
    } else if number == 6 {
        (config / 64) % 2 == 1
    } else {
        (config / 128) % 2 == 1
    }
}

/// An edge is crossed in a configuration when exactly one of its ends is solid.
pub open spec fn edge_crossed(config: int, edge: int) -> bool {
    config_solid(config, corner_number(edge_start(edge))) != config_solid(
        config,
        corner_number(edge_end(edge)),
    )
}

/// The solid end of edge `edge` in a configuration in which it is crossed.
pub open spec fn solid_end(config: int, edge: int) -> Corner {
    if config_solid(config, corner_number(edge_start(edge))) {
        edge_start(edge)
    } else {
        edge_end(edge)
    }
}

/// The empty end of edge `edge` in a configuration in which it is crossed.
pub open spec fn empty_end(config: int, edge: int) -> Corner {
    if config_solid(config, corner_number(edge_start(edge))) {
        edge_end(edge)
    } else {
        edge_start(edge)
    }
}

/// One end of edge `edge`: the empty one where `at_empty` holds, the solid
/// one otherwise.
#[verifier::opaque]
pub open spec fn chosen_end(config: int, edge: int, at_empty: bool) -> Corner {
    if at_empty {
        empty_end(config, edge)
    } else {
        solid_end(config, edge)
    }
}

/// The ends of an edge are corners.
pub proof fn lemma_chosen_end_is_corner(config: int, edge: int, at_empty: bool)
    ensures
        is_corner(chosen_end(config, edge, at_empty)),
        chosen_end(config, edge, at_empty) == (if at_empty {
            empty_end(config, edge)
        } else {
            solid_end(config, edge)
        }),
{
    reveal(chosen_end);
}

/// The step along edge `edge` from its solid end to its empty end, in a
/// configuration in which the edge is crossed.
pub open spec fn solid_to_empty(config: int, edge: int) -> (int, int, int) {
    let from = solid_end(config, edge);
    let to = empty_end(config, edge);
    (to.0 - from.0, to.1 - from.1, to.2 - from.2)
}

/// `x * y` for `x` from -3 to 3, spelled out so that no product of two
/// unknowns is left to the prover.
pub open spec fn small_times(x: int, y: int) -> int {
    if x == 0 {
        0
    } else if x == 1 {
        y
    } else if x == -1 {
        -y
    } else if x == 2 {
        2 * y
    } else if x == -2 {
        -2 * y
    } else if x == 3 {
        3 * y
    } else {
        -3 * y
    }
}

/// `cross(c - a, b - a)` for three points with small whole coordinates: the
/// normal of the triangle `a`, `b`, `c`, as the mesher winds it.
pub open spec fn small_cross(a: (int, int, int), b: (int, int, int), c: (int, int, int)) -> (
    int,
    int,
    int,
) {
    let u = (c.0 - a.0, c.1 - a.1, c.2 - a.2);
    let v = (b.0 - a.0, b.1 - a.1, b.2 - a.2);
    (
        small_times(u.1, v.2) - small_times(u.2, v.1),
        small_times(u.2, v.0) - small_times(u.0, v.2),
        small_times(u.0, v.1) - small_times(u.1, v.0),
    )
}

/// The sum of the steps from solid to empty along three edges that are
/// crossed in the configuration `config`.
#[verifier::opaque]
pub open spec fn outward_sum(config: int, first: int, second: int, third: int) -> (int, int, int) {
    let f = solid_to_empty(config, first);
    let s = solid_to_empty(config, second);
    let t = solid_to_empty(config, third);
    (f.0 + s.0 + t.0, f.1 + s.1 + t.1, f.2 + s.2 + t.2)
}

/// The sum of three steps along edges has no component beyond 3.
pub proof fn lemma_outward_sum_small(config: int, first: int, second: int, third: int)
    ensures
        -3 <= outward_sum(config, first, second, third).0 <= 3,
        -3 <= outward_sum(config, first, second, third).1 <= 3,
        -3 <= outward_sum(config, first, second, third).2 <= 3,
{
    reveal(outward_sum);
}

/// The component along the outward sum of three edges of the normal of the
/// triangle over one end of each: which end, the three flags say.
#[verifier::opaque]
pub open spec fn end_normal_outward(
    config: int,
    first: int,
    second: int,
    third: int,
    ends: (bool, bool, bool),
) -> int {
    let n = small_cross(
        chosen_end(config, first, ends.0),
        chosen_end(config, second, ends.1),
        chosen_end(config, third, ends.2),
    );
    let out = outward_sum(config, first, second, third);
    small_times(out.0, n.0) + small_times(out.1, n.1) + small_times(out.2, n.2)
}

/// The triangle over three crossed edges faces the empty side, wherever on
/// its edge each corner lies. With each corner put at an end of its edge, in
/// all eight ways, the normal never has a negative component along the sum of
/// the three steps from solid to empty, and it has a positive one at least
/// once. Any other place of the corners lies between these eight.
pub open spec fn faces_empty_side(config: int, first: int, second: int, third: int) -> bool {
    let at = |x: bool, y: bool, z: bool|
        end_normal_outward(config, first, second, third, (x, y, z));
    &&& at(false, false, false) >= 0
    &&& at(false, false, true) >= 0
    &&& at(false, true, false) >= 0
    &&& at(false, true, true) >= 0
    &&& at(true, false, false) >= 0
    &&& at(true, false, true) >= 0
    &&& at(true, true, false) >= 0
    &&& at(true, true, true) >= 0
    &&& at(false, false, false) + at(false, false, true) + at(false, true, false) + at(
        false,
        true,
        true,
    ) + at(true, false, false) + at(true, false, true) + at(true, true, false) + at(
        true,
        true,
        true,
    ) > 0
}

} // verus!
