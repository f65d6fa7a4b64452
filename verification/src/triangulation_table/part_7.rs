use crate::edge_midpoints::{
    chosen_end, end_normal_outward, faces_empty_side, outward_sum,
};
use crate::triangulation_table::{
    row_entry, row_on_crossed_edges, row_oriented, row_well_formed,
};
use vstd::prelude::*;

verus! {

/// The rows of the configurations `224` to `255`.
pub const ROWS: [[i8; 16]; 32] = [
    [4, 11, 7, 4, 9, 11, 9, 10, 11, -1, -1, -1, -1, -1, -1, -1],
    [0, 8, 3, 4, 9, 7, 9, 11, 7, 9, 10, 11, -1, -1, -1, -1],
    [1, 10, 11, 1, 11, 4, 1, 4, 0, 7, 4, 11, -1, -1, -1, -1],
    [3, 1, 4, 3, 4, 8, 1, 10, 4, 7, 4, 11, 10, 11, 4, -1],
    [4, 11, 7, 9, 11, 4, 9, 2, 11, 9, 1, 2, -1, -1, -1, -1],
    [9, 7, 4, 9, 11, 7, 9, 1, 11, 2, 11, 1, 0, 8, 3, -1],
    [11, 7, 4, 11, 4, 2, 2, 4, 0, -1, -1, -1, -1, -1, -1, -1],
    [11, 7, 4, 11, 4, 2, 8, 3, 4, 3, 2, 4, -1, -1, -1, -1],
    [2, 9, 10, 2, 7, 9, 2, 3, 7, 7, 4, 9, -1, -1, -1, -1],
    [9, 10, 7, 9, 7, 4, 10, 2, 7, 8, 7, 0, 2, 0, 7, -1],
    [3, 7, 10, 3, 10, 2, 7, 4, 10, 1, 10, 0, 4, 0, 10, -1],
    [1, 10, 2, 8, 7, 4, -1, -1, -1, -1, -1, -1, -1, -1, -1, -1],
    [4, 9, 1, 4, 1, 7, 7, 1, 3, -1, -1, -1, -1, -1, -1, -1],
    [4, 9, 1, 4, 1, 7, 0, 8, 1, 8, 7, 1, -1, -1, -1, -1],
    [4, 0, 3, 7, 4, 3, -1, -1, -1, -1, -1, -1, -1, -1, -1, -1],
    [4, 8, 7, -1, -1, -1, -1, -1, -1, -1, -1, -1, -1, -1, -1, -1],
    [9, 10, 8, 10, 11, 8, -1, -1, -1, -1, -1, -1, -1, -1, -1, -1],
    [3, 0, 9, 3, 9, 11, 11, 9, 10, -1, -1, -1, -1, -1, -1, -1],
    [0, 1, 10, 0, 10, 8, 8, 10, 11, -1, -1, -1, -1, -1, -1, -1],
    [3, 1, 10, 11, 3, 10, -1, -1, -1, -1, -1, -1, -1, -1, -1, -1],
    [1, 2, 11, 1, 11, 9, 9, 11, 8, -1, -1, -1, -1, -1, -1, -1],
    [3, 0, 9, 3, 9, 11, 1, 2, 9, 2, 11, 9, -1, -1, -1, -1],
    [0, 2, 11, 8, 0, 11, -1, -1, -1, -1, -1, -1, -1, -1, -1, -1],
    [3, 2, 11, -1, -1, -1, -1, -1, -1, -1, -1, -1, -1, -1, -1, -1],
    [2, 3, 8, 2, 8, 10, 10, 8, 9, -1, -1, -1, -1, -1, -1, -1],
    [9, 10, 2, 0, 9, 2, -1, -1, -1, -1, -1, -1, -1, -1, -1, -1],
    [2, 3, 8, 2, 8, 10, 0, 1, 8, 1, 10, 8, -1, -1, -1, -1],
    [1, 10, 2, -1, -1, -1, -1, -1, -1, -1, -1, -1, -1, -1, -1, -1],
    [1, 3, 8, 9, 1, 8, -1, -1, -1, -1, -1, -1, -1, -1, -1, -1],
    [0, 9, 1, -1, -1, -1, -1, -1, -1, -1, -1, -1, -1, -1, -1, -1],
    [0, 3, 8, -1, -1, -1, -1, -1, -1, -1, -1, -1, -1, -1, -1, -1],
    [-1, -1, -1, -1, -1, -1, -1, -1, -1, -1, -1, -1, -1, -1, -1, -1],
];

/// Row `index` of this part. It is opaque, so that only a proof that asks for
/// it sees the rows' contents.
#[verifier::opaque]
pub open spec fn row(index: int) -> [i8; 16] {
    ROWS[index]
}

/// Row `index` of this part.
pub fn get_row(index: usize) -> (triangles: [i8; 16])
    requires
        index < 32,
    ensures
        triangles == row(index as int),
{
    reveal(row);
    ROWS[index]
}

/// Each row of this part is well formed and names only edges that are crossed
/// in its configuration.
pub proof fn lemma_rows(index: int)
    requires
        0 <= index < 32,
    ensures
        row_well_formed(row(index)),
        row_on_crossed_edges(224 + index, row(index)),
{
    reveal(row);
}

/// Each triangle of the first sixteen rows faces the empty side of its
/// configuration: shown for one triangle after the other.
#[verifier::rlimit(100)]
proof fn lemma_first_rows_oriented(index: int)
    requires
        0 <= index < 16,
    ensures
        row_oriented(224 + index, row(index)),
{
    reveal(row);
    reveal(chosen_end);
    reveal(outward_sum);
    reveal(end_normal_outward);
    if index == 0 {
        assert(faces_empty_side(224, 4, 11, 7));
        assert(faces_empty_side(224, 4, 9, 11));
        assert(faces_empty_side(224, 9, 10, 11));
    } else if index == 1 {
        assert(faces_empty_side(225, 0, 8, 3));
        assert(faces_empty_side(225, 4, 9, 7));
        assert(faces_empty_side(225, 9, 11, 7));
        assert(faces_empty_side(225, 9, 10, 11));
    } else if index == 2 {
        assert(faces_empty_side(226, 1, 10, 11));
        assert(faces_empty_side(226, 1, 11, 4));
        assert(faces_empty_side(226, 1, 4, 0));
        assert(faces_empty_side(226, 7, 4, 11));
    } else if index == 3 {
        assert(faces_empty_side(227, 3, 1, 4));
        assert(faces_empty_side(227, 3, 4, 8));
        assert(faces_empty_side(227, 1, 10, 4));
        assert(faces_empty_side(227, 7, 4, 11));
        assert(faces_empty_side(227, 10, 11, 4));
    } else if index == 4 {
        assert(faces_empty_side(228, 4, 11, 7));
        assert(faces_empty_side(228, 9, 11, 4));
        assert(faces_empty_side(228, 9, 2, 11));
        assert(faces_empty_side(228, 9, 1, 2));
    } else if index == 5 {
        assert(faces_empty_side(229, 9, 7, 4));
        assert(faces_empty_side(229, 9, 11, 7));
        assert(faces_empty_side(229, 9, 1, 11));
        assert(faces_empty_side(229, 2, 11, 1));
        assert(faces_empty_side(229, 0, 8, 3));
    } else if index == 6 {
        assert(faces_empty_side(230, 11, 7, 4));
        assert(faces_empty_side(230, 11, 4, 2));
        assert(faces_empty_side(230, 2, 4, 0));
    } else if index == 7 {
        assert(faces_empty_side(231, 11, 7, 4));
        assert(faces_empty_side(231, 11, 4, 2));
        assert(faces_empty_side(231, 8, 3, 4));
        assert(faces_empty_side(231, 3, 2, 4));
    } else if index == 8 {
        assert(faces_empty_side(232, 2, 9, 10));
        assert(faces_empty_side(232, 2, 7, 9));
        assert(faces_empty_side(232, 2, 3, 7));
        assert(faces_empty_side(232, 7, 4, 9));
    } else if index == 9 {
        assert(faces_empty_side(233, 9, 10, 7));
        assert(faces_empty_side(233, 9, 7, 4));
        assert(faces_empty_side(233, 10, 2, 7));
        assert(faces_empty_side(233, 8, 7, 0));
        assert(faces_empty_side(233, 2, 0, 7));
    } else if index == 10 {
        assert(faces_empty_side(234, 3, 7, 10));
        assert(faces_empty_side(234, 3, 10, 2));
        assert(faces_empty_side(234, 7, 4, 10));
        assert(faces_empty_side(234, 1, 10, 0));
        assert(faces_empty_side(234, 4, 0, 10));
    } else if index == 11 {
        assert(faces_empty_side(235, 1, 10, 2));
        assert(faces_empty_side(235, 8, 7, 4));
    } else if index == 12 {
        assert(faces_empty_side(236, 4, 9, 1));
        assert(faces_empty_side(236, 4, 1, 7));
        assert(faces_empty_side(236, 7, 1, 3));
    } else if index == 13 {
        assert(faces_empty_side(237, 4, 9, 1));
        assert(faces_empty_side(237, 4, 1, 7));
        assert(faces_empty_side(237, 0, 8, 1));
        assert(faces_empty_side(237, 8, 7, 1));
    } else if index == 14 {
        assert(faces_empty_side(238, 4, 0, 3));
        assert(faces_empty_side(238, 7, 4, 3));
    } else if index == 15 {
        assert(faces_empty_side(239, 4, 8, 7));
    }
}

/// Each triangle of the last sixteen rows faces the empty side of its
/// configuration: shown for one triangle after the other.
#[verifier::rlimit(100)]
proof fn lemma_last_rows_oriented(index: int)
    requires
        16 <= index < 32,
    ensures
        row_oriented(224 + index, row(index)),
{
    reveal(row);
    reveal(chosen_end);
    reveal(outward_sum);
    reveal(end_normal_outward);
    if index == 16 {
        assert(faces_empty_side(240, 9, 10, 8));
        assert(faces_empty_side(240, 10, 11, 8));
    } else if index == 17 {
        assert(faces_empty_side(241, 3, 0, 9));
        assert(faces_empty_side(241, 3, 9, 11));
        assert(faces_empty_side(241, 11, 9, 10));
    } else if index == 18 {
        assert(faces_empty_side(242, 0, 1, 10));
        assert(faces_empty_side(242, 0, 10, 8));
        assert(faces_empty_side(242, 8, 10, 11));
    } else if index == 19 {
        assert(faces_empty_side(243, 3, 1, 10));
        assert(faces_empty_side(243, 11, 3, 10));
    } else if index == 20 {
        assert(faces_empty_side(244, 1, 2, 11));
        assert(faces_empty_side(244, 1, 11, 9));
        assert(faces_empty_side(244, 9, 11, 8));
    } else if index == 21 {
        assert(faces_empty_side(245, 3, 0, 9));
        assert(faces_empty_side(245, 3, 9, 11));
        assert(faces_empty_side(245, 1, 2, 9));
        assert(faces_empty_side(245, 2, 11, 9));
    } else if index == 22 {
        assert(faces_empty_side(246, 0, 2, 11));
        assert(faces_empty_side(246, 8, 0, 11));
    } else if index == 23 {
        assert(faces_empty_side(247, 3, 2, 11));
    } else if index == 24 {
        assert(faces_empty_side(248, 2, 3, 8));
        assert(faces_empty_side(248, 2, 8, 10));
        assert(faces_empty_side(248, 10, 8, 9));
    } else if index == 25 {
        assert(faces_empty_side(249, 9, 10, 2));
        assert(faces_empty_side(249, 0, 9, 2));
    } else if index == 26 {
        assert(faces_empty_side(250, 2, 3, 8));
        assert(faces_empty_side(250, 2, 8, 10));
        assert(faces_empty_side(250, 0, 1, 8));
        assert(faces_empty_side(250, 1, 10, 8));
    } else if index == 27 {
        assert(faces_empty_side(251, 1, 10, 2));
    } else if index == 28 {
        assert(faces_empty_side(252, 1, 3, 8));
        assert(faces_empty_side(252, 9, 1, 8));
    } else if index == 29 {
        assert(faces_empty_side(253, 0, 9, 1));
    } else if index == 30 {
        assert(faces_empty_side(254, 0, 3, 8));
    }
}

/// Each triangle of this part faces the empty side of its configuration.
pub proof fn lemma_rows_oriented(index: int)
    requires
        0 <= index < 32,
    ensures
        row_oriented(224 + index, row(index)),
{
    if index < 16 {
        lemma_first_rows_oriented(index);
    } else {
        lemma_last_rows_oriented(index);
    }
}

/// With all eight corners solid there is no triangle.
pub proof fn lemma_last_row_empty()
    ensures
        forall|slot: int| 0 <= slot < 16 ==> #[trigger] row_entry(row(31), slot) == -1,
{
    reveal(row);
}

/// The row of the configuration with the four top corners solid, and no
/// others: two triangles that span the cell.
pub proof fn lemma_row_240()
    ensures
        row_entry(row(16), 0) == 9,
        row_entry(row(16), 1) == 10,
        row_entry(row(16), 2) == 8,
        row_entry(row(16), 3) == 10,
        row_entry(row(16), 4) == 11,
        row_entry(row(16), 5) == 8,
        row_entry(row(16), 6) == -1,
{
    reveal(row);
}

} // verus!
