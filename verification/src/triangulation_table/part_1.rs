use crate::edge_midpoints::{
    chosen_end, end_normal_outward, faces_empty_side, outward_sum,
};
use crate::triangulation_table::{
    row_entry, row_on_crossed_edges, row_oriented, row_well_formed,
};
use vstd::prelude::*;

verus! {

/// The rows of the configurations `32` to `63`.
pub const ROWS: [[i8; 16]; 32] = [
    [9, 5, 4, -1, -1, -1, -1, -1, -1, -1, -1, -1, -1, -1, -1, -1],
    [9, 5, 4, 0, 8, 3, -1, -1, -1, -1, -1, -1, -1, -1, -1, -1],
    [0, 5, 4, 1, 5, 0, -1, -1, -1, -1, -1, -1, -1, -1, -1, -1],
    [8, 5, 4, 8, 3, 5, 3, 1, 5, -1, -1, -1, -1, -1, -1, -1],
    [1, 2, 10, 9, 5, 4, -1, -1, -1, -1, -1, -1, -1, -1, -1, -1],
    [3, 0, 8, 1, 2, 10, 4, 9, 5, -1, -1, -1, -1, -1, -1, -1],
    [5, 2, 10, 5, 4, 2, 4, 0, 2, -1, -1, -1, -1, -1, -1, -1],
    [2, 10, 5, 3, 2, 5, 3, 5, 4, 3, 4, 8, -1, -1, -1, -1],
    [9, 5, 4, 2, 3, 11, -1, -1, -1, -1, -1, -1, -1, -1, -1, -1],
    [0, 11, 2, 0, 8, 11, 4, 9, 5, -1, -1, -1, -1, -1, -1, -1],
    [0, 5, 4, 0, 1, 5, 2, 3, 11, -1, -1, -1, -1, -1, -1, -1],
    [2, 1, 5, 2, 5, 8, 2, 8, 11, 4, 8, 5, -1, -1, -1, -1],
    [10, 3, 11, 10, 1, 3, 9, 5, 4, -1, -1, -1, -1, -1, -1, -1],
    [4, 9, 5, 0, 8, 1, 8, 10, 1, 8, 11, 10, -1, -1, -1, -1],
    [5, 4, 0, 5, 0, 11, 5, 11, 10, 11, 0, 3, -1, -1, -1, -1],
    [5, 4, 8, 5, 8, 10, 10, 8, 11, -1, -1, -1, -1, -1, -1, -1],
    [9, 7, 8, 5, 7, 9, -1, -1, -1, -1, -1, -1, -1, -1, -1, -1],
    [9, 3, 0, 9, 5, 3, 5, 7, 3, -1, -1, -1, -1, -1, -1, -1],
    [0, 7, 8, 0, 1, 7, 1, 5, 7, -1, -1, -1, -1, -1, -1, -1],
    [1, 5, 3, 3, 5, 7, -1, -1, -1, -1, -1, -1, -1, -1, -1, -1],
    [9, 7, 8, 9, 5, 7, 10, 1, 2, -1, -1, -1, -1, -1, -1, -1],
    [10, 1, 2, 9, 5, 0, 5, 3, 0, 5, 7, 3, -1, -1, -1, -1],
    [8, 0, 2, 8, 2, 5, 8, 5, 7, 10, 5, 2, -1, -1, -1, -1],
    [2, 10, 5, 2, 5, 3, 3, 5, 7, -1, -1, -1, -1, -1, -1, -1],
    [7, 9, 5, 7, 8, 9, 3, 11, 2, -1, -1, -1, -1, -1, -1, -1],
    [9, 5, 7, 9, 7, 2, 9, 2, 0, 2, 7, 11, -1, -1, -1, -1],
    [2, 3, 11, 0, 1, 8, 1, 7, 8, 1, 5, 7, -1, -1, -1, -1],
    [11, 2, 1, 11, 1, 7, 7, 1, 5, -1, -1, -1, -1, -1, -1, -1],
    [9, 5, 8, 8, 5, 7, 10, 1, 3, 10, 3, 11, -1, -1, -1, -1],
    [5, 7, 0, 5, 0, 9, 7, 11, 0, 1, 0, 10, 11, 10, 0, -1],
    [11, 10, 0, 11, 0, 3, 10, 5, 0, 8, 0, 7, 5, 7, 0, -1],
    [11, 10, 5, 7, 11, 5, -1, -1, -1, -1, -1, -1, -1, -1, -1, -1],
];

/// Row `index` of this part. It is opaque, so that only a proof that asks for
/// it sees the rows' contents.
#[verifier::opaque]
pub open spec fn row(index: int) -> [i8; 16] {
    ROWS[index]
}

/// Row `index` of this part.
pub fn get_row(index: usize) -> (triangles: [i8; 16])
    requires
        index < 32,
    ensures
        triangles == row(index as int),
{
    reveal(row);
    ROWS[index]
}

/// Each row of this part is well formed and names only edges that are crossed
/// in its configuration.
pub proof fn lemma_rows(index: int)
    requires
        0 <= index < 32,
    ensures
        row_well_formed(row(index)),
        row_on_crossed_edges(32 + index, row(index)),
{
    reveal(row);
}

/// Each triangle of the first sixteen rows faces the empty side of its
/// configuration: shown for one triangle after the other.
#[verifier::rlimit(100)]
proof fn lemma_first_rows_oriented(index: int)
    requires
        0 <= index < 16,
    ensures
        row_oriented(32 + index, row(index)),
{
    reveal(row);
    reveal(chosen_end);
    reveal(outward_sum);
    reveal(end_normal_outward);
    if index == 0 {
        assert(faces_empty_side(32, 9, 5, 4));
    } else if index == 1 {
        assert(faces_empty_side(33, 9, 5, 4));
        assert(faces_empty_side(33, 0, 8, 3));
    } else if index == 2 {
        assert(faces_empty_side(34, 0, 5, 4));
        assert(faces_empty_side(34, 1, 5, 0));
    } else if index == 3 {
        assert(faces_empty_side(35, 8, 5, 4));
        assert(faces_empty_side(35, 8, 3, 5));
        assert(faces_empty_side(35, 3, 1, 5));
    } else if index == 4 {
        assert(faces_empty_side(36, 1, 2, 10));
        assert(faces_empty_side(36, 9, 5, 4));
    } else if index == 5 {
        assert(faces_empty_side(37, 3, 0, 8));
        assert(faces_empty_side(37, 1, 2, 10));
        assert(faces_empty_side(37, 4, 9, 5));
    } else if index == 6 {
        assert(faces_empty_side(38, 5, 2, 10));
        assert(faces_empty_side(38, 5, 4, 2));
        assert(faces_empty_side(38, 4, 0, 2));
    } else if index == 7 {
        assert(faces_empty_side(39, 2, 10, 5));
        assert(faces_empty_side(39, 3, 2, 5));
        assert(faces_empty_side(39, 3, 5, 4));
        assert(faces_empty_side(39, 3, 4, 8));
    } else if index == 8 {
        assert(faces_empty_side(40, 9, 5, 4));
        assert(faces_empty_side(40, 2, 3, 11));
    } else if index == 9 {
        assert(faces_empty_side(41, 0, 11, 2));
        assert(faces_empty_side(41, 0, 8, 11));
        assert(faces_empty_side(41, 4, 9, 5));
    } else if index == 10 {
        assert(faces_empty_side(42, 0, 5, 4));
        assert(faces_empty_side(42, 0, 1, 5));
        assert(faces_empty_side(42, 2, 3, 11));
    } else if index == 11 {
        assert(faces_empty_side(43, 2, 1, 5));
        assert(faces_empty_side(43, 2, 5, 8));
        assert(faces_empty_side(43, 2, 8, 11));
        assert(faces_empty_side(43, 4, 8, 5));
    } else if index == 12 {
        assert(faces_empty_side(44, 10, 3, 11));
        assert(faces_empty_side(44, 10, 1, 3));
        assert(faces_empty_side(44, 9, 5, 4));
    } else if index == 13 {
        assert(faces_empty_side(45, 4, 9, 5));
        assert(faces_empty_side(45, 0, 8, 1));
        assert(faces_empty_side(45, 8, 10, 1));
        assert(faces_empty_side(45, 8, 11, 10));
    } else if index == 14 {
        assert(faces_empty_side(46, 5, 4, 0));
        assert(faces_empty_side(46, 5, 0, 11));
        assert(faces_empty_side(46, 5, 11, 10));
        assert(faces_empty_side(46, 11, 0, 3));
    } else if index == 15 {
        assert(faces_empty_side(47, 5, 4, 8));
        assert(faces_empty_side(47, 5, 8, 10));
        assert(faces_empty_side(47, 10, 8, 11));
    }
}

/// Each triangle of the last sixteen rows faces the empty side of its
/// configuration: shown for one triangle after the other.
#[verifier::rlimit(100)]
proof fn lemma_last_rows_oriented(index: int)
    requires
        16 <= index < 32,
    ensures
        row_oriented(32 + index, row(index)),
{
    reveal(row);
    reveal(chosen_end);
    reveal(outward_sum);
    reveal(end_normal_outward);
    if index == 16 {
        assert(faces_empty_side(48, 9, 7, 8));
        assert(faces_empty_side(48, 5, 7, 9));
    } else if index == 17 {
        assert(faces_empty_side(49, 9, 3, 0));
        assert(faces_empty_side(49, 9, 5, 3));
        assert(faces_empty_side(49, 5, 7, 3));
    } else if index == 18 {
        assert(faces_empty_side(50, 0, 7, 8));
        assert(faces_empty_side(50, 0, 1, 7));
        assert(faces_empty_side(50, 1, 5, 7));
    } else if index == 19 {
        assert(faces_empty_side(51, 1, 5, 3));
        assert(faces_empty_side(51, 3, 5, 7));
    } else if index == 20 {
        assert(faces_empty_side(52, 9, 7, 8));
        assert(faces_empty_side(52, 9, 5, 7));
        assert(faces_empty_side(52, 10, 1, 2));
    } else if index == 21 {
        assert(faces_empty_side(53, 10, 1, 2));
        assert(faces_empty_side(53, 9, 5, 0));
        assert(faces_empty_side(53, 5, 3, 0));
        assert(faces_empty_side(53, 5, 7, 3));
    } else if index == 22 {
        assert(faces_empty_side(54, 8, 0, 2));
        assert(faces_empty_side(54, 8, 2, 5));
        assert(faces_empty_side(54, 8, 5, 7));
        assert(faces_empty_side(54, 10, 5, 2));
    } else if index == 23 {
        assert(faces_empty_side(55, 2, 10, 5));
        assert(faces_empty_side(55, 2, 5, 3));
        assert(faces_empty_side(55, 3, 5, 7));
    } else if index == 24 {
        assert(faces_empty_side(56, 7, 9, 5));
        assert(faces_empty_side(56, 7, 8, 9));
        assert(faces_empty_side(56, 3, 11, 2));
    } else if index == 25 {
        assert(faces_empty_side(57, 9, 5, 7));
        assert(faces_empty_side(57, 9, 7, 2));
        assert(faces_empty_side(57, 9, 2, 0));
        assert(faces_empty_side(57, 2, 7, 11));
    } else if index == 26 {
        assert(faces_empty_side(58, 2, 3, 11));
        assert(faces_empty_side(58, 0, 1, 8));
        assert(faces_empty_side(58, 1, 7, 8));
        assert(faces_empty_side(58, 1, 5, 7));
    } else if index == 27 {
        assert(faces_empty_side(59, 11, 2, 1));
        assert(faces_empty_side(59, 11, 1, 7));
        assert(faces_empty_side(59, 7, 1, 5));
    } else if index == 28 {
        assert(faces_empty_side(60, 9, 5, 8));
        assert(faces_empty_side(60, 8, 5, 7));
        assert(faces_empty_side(60, 10, 1, 3));
        assert(faces_empty_side(60, 10, 3, 11));
    } else if index == 29 {
        assert(faces_empty_side(61, 5, 7, 0));
        assert(faces_empty_side(61, 5, 0, 9));
        assert(faces_empty_side(61, 7, 11, 0));
        assert(faces_empty_side(61, 1, 0, 10));
        assert(faces_empty_side(61, 11, 10, 0));
    } else if index == 30 {
        assert(faces_empty_side(62, 11, 10, 0));
        assert(faces_empty_side(62, 11, 0, 3));
        assert(faces_empty_side(62, 10, 5, 0));
        assert(faces_empty_side(62, 8, 0, 7));
        assert(faces_empty_side(62, 5, 7, 0));
    } else if index == 31 {
        assert(faces_empty_side(63, 11, 10, 5));
        assert(faces_empty_side(63, 7, 11, 5));
    }
}

/// Each triangle of this part faces the empty side of its configuration.
pub proof fn lemma_rows_oriented(index: int)
    requires
        0 <= index < 32,
    ensures
        row_oriented(32 + index, row(index)),
{
    if index < 16 {
        lemma_first_rows_oriented(index);
    } else {
        lemma_last_rows_oriented(index);
    }
}

/// The row of the configuration with the four northern corners solid, and no
/// others: two triangles that span the cell.
pub proof fn lemma_row_51()
    ensures
        row_entry(row(19), 0) == 1,
        row_entry(row(19), 1) == 5,
        row_entry(row(19), 2) == 3,
        row_entry(row(19), 3) == 3,
        row_entry(row(19), 4) == 5,
        row_entry(row(19), 5) == 7,
        row_entry(row(19), 6) == -1,
{
    reveal(row);
}

} // verus!
