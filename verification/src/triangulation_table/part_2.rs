use crate::edge_midpoints::{
    chosen_end, end_normal_outward, faces_empty_side, outward_sum,
};
use crate::triangulation_table::{
    row_on_crossed_edges, row_oriented, row_well_formed,
};
use vstd::prelude::*;

verus! {

/// The rows of the configurations `64` to `95`.
pub const ROWS: [[i8; 16]; 32] = [
    [10, 6, 5, -1, -1, -1, -1, -1, -1, -1, -1, -1, -1, -1, -1, -1],
    [0, 8, 3, 5, 10, 6, -1, -1, -1, -1, -1, -1, -1, -1, -1, -1],
    [9, 0, 1, 5, 10, 6, -1, -1, -1, -1, -1, -1, -1, -1, -1, -1],
    [1, 8, 3, 1, 9, 8, 5, 10, 6, -1, -1, -1, -1, -1, -1, -1],
    [1, 6, 5, 2, 6, 1, -1, -1, -1, -1, -1, -1, -1, -1, -1, -1],
    [1, 6, 5, 1, 2, 6, 3, 0, 8, -1, -1, -1, -1, -1, -1, -1],
    [9, 6, 5, 9, 0, 6, 0, 2, 6, -1, -1, -1, -1, -1, -1, -1],
    [5, 9, 8, 5, 8, 2, 5, 2, 6, 3, 2, 8, -1, -1, -1, -1],
    [2, 3, 11, 10, 6, 5, -1, -1, -1, -1, -1, -1, -1, -1, -1, -1],
    [11, 0, 8, 11, 2, 0, 10, 6, 5, -1, -1, -1, -1, -1, -1, -1],
    [0, 1, 9, 2, 3, 11, 5, 10, 6, -1, -1, -1, -1, -1, -1, -1],
    [5, 10, 6, 1, 9, 2, 9, 11, 2, 9, 8, 11, -1, -1, -1, -1],
    [6, 3, 11, 6, 5, 3, 5, 1, 3, -1, -1, -1, -1, -1, -1, -1],
    [0, 8, 11, 0, 11, 5, 0, 5, 1, 5, 11, 6, -1, -1, -1, -1],
    [3, 11, 6, 0, 3, 6, 0, 6, 5, 0, 5, 9, -1, -1, -1, -1],
    [6, 5, 9, 6, 9, 11, 11, 9, 8, -1, -1, -1, -1, -1, -1, -1],
    [5, 10, 6, 4, 7, 8, -1, -1, -1, -1, -1, -1, -1, -1, -1, -1],
    [4, 3, 0, 4, 7, 3, 6, 5, 10, -1, -1, -1, -1, -1, -1, -1],
    [1, 9, 0, 5, 10, 6, 8, 4, 7, -1, -1, -1, -1, -1, -1, -1],
    [10, 6, 5, 1, 9, 7, 1, 7, 3, 7, 9, 4, -1, -1, -1, -1],
    [6, 1, 2, 6, 5, 1, 4, 7, 8, -1, -1, -1, -1, -1, -1, -1],
    [1, 2, 5, 5, 2, 6, 3, 0, 4, 3, 4, 7, -1, -1, -1, -1],
    [8, 4, 7, 9, 0, 5, 0, 6, 5, 0, 2, 6, -1, -1, -1, -1],
    [7, 3, 9, 7, 9, 4, 3, 2, 9, 5, 9, 6, 2, 6, 9, -1],
    [3, 11, 2, 7, 8, 4, 10, 6, 5, -1, -1, -1, -1, -1, -1, -1],
    [5, 10, 6, 4, 7, 2, 4, 2, 0, 2, 7, 11, -1, -1, -1, -1],
    [0, 1, 9, 4, 7, 8, 2, 3, 11, 5, 10, 6, -1, -1, -1, -1],
    [9, 2, 1, 9, 11, 2, 9, 4, 11, 7, 11, 4, 5, 10, 6, -1],
    [8, 4, 7, 3, 11, 5, 3, 5, 1, 5, 11, 6, -1, -1, -1, -1],
    [5, 1, 11, 5, 11, 6, 1, 0, 11, 7, 11, 4, 0, 4, 11, -1],
    [0, 5, 9, 0, 6, 5, 0, 3, 6, 11, 6, 3, 8, 4, 7, -1],
    [6, 5, 9, 6, 9, 11, 4, 7, 9, 7, 11, 9, -1, -1, -1, -1],
];

/// Row `index` of this part. It is opaque, so that only a proof that asks for
/// it sees the rows' contents.
#[verifier::opaque]
pub open spec fn row(index: int) -> [i8; 16] {
    ROWS[index]
}

/// Row `index` of this part.
pub fn get_row(index: usize) -> (triangles: [i8; 16])
    requires
        index < 32,
    ensures
        triangles == row(index as int),
{
    reveal(row);
    ROWS[index]
}

/// Each row of this part is well formed and names only edges that are crossed
/// in its configuration.
pub proof fn lemma_rows(index: int)
    requires
        0 <= index < 32,
    ensures
        row_well_formed(row(index)),
        row_on_crossed_edges(64 + index, row(index)),
{
    reveal(row);
}

/// Each triangle of the first sixteen rows faces the empty side of its
/// configuration: shown for one triangle after the other.
#[verifier::rlimit(100)]
proof fn lemma_first_rows_oriented(index: int)
    requires
        0 <= index < 16,
    ensures
        row_oriented(64 + index, row(index)),
{
    reveal(row);
    reveal(chosen_end);
    reveal(outward_sum);
    reveal(end_normal_outward);
    if index == 0 {
        assert(faces_empty_side(64, 10, 6, 5));
    } else if index == 1 {
        assert(faces_empty_side(65, 0, 8, 3));
        assert(faces_empty_side(65, 5, 10, 6));
    } else if index == 2 {
        assert(faces_empty_side(66, 9, 0, 1));
        assert(faces_empty_side(66, 5, 10, 6));
    } else if index == 3 {
        assert(faces_empty_side(67, 1, 8, 3));
        assert(faces_empty_side(67, 1, 9, 8));
        assert(faces_empty_side(67, 5, 10, 6));
    } else if index == 4 {
        assert(faces_empty_side(68, 1, 6, 5));
        assert(faces_empty_side(68, 2, 6, 1));
    } else if index == 5 {
        assert(faces_empty_side(69, 1, 6, 5));
        assert(faces_empty_side(69, 1, 2, 6));
        assert(faces_empty_side(69, 3, 0, 8));
    } else if index == 6 {
        assert(faces_empty_side(70, 9, 6, 5));
        assert(faces_empty_side(70, 9, 0, 6));
        assert(faces_empty_side(70, 0, 2, 6));
    } else if index == 7 {
        assert(faces_empty_side(71, 5, 9, 8));
        assert(faces_empty_side(71, 5, 8, 2));
        assert(faces_empty_side(71, 5, 2, 6));
        assert(faces_empty_side(71, 3, 2, 8));
    } else if index == 8 {
        assert(faces_empty_side(72, 2, 3, 11));
        assert(faces_empty_side(72, 10, 6, 5));
    } else if index == 9 {
        assert(faces_empty_side(73, 11, 0, 8));
        assert(faces_empty_side(73, 11, 2, 0));
        assert(faces_empty_side(73, 10, 6, 5));
    } else if index == 10 {
        assert(faces_empty_side(74, 0, 1, 9));
        assert(faces_empty_side(74, 2, 3, 11));
        assert(faces_empty_side(74, 5, 10, 6));
    } else if index == 11 {
        assert(faces_empty_side(75, 5, 10, 6));
        assert(faces_empty_side(75, 1, 9, 2));
        assert(faces_empty_side(75, 9, 11, 2));
        assert(faces_empty_side(75, 9, 8, 11));
    } else if index == 12 {
        assert(faces_empty_side(76, 6, 3, 11));
        assert(faces_empty_side(76, 6, 5, 3));
        assert(faces_empty_side(76, 5, 1, 3));
    } else if index == 13 {
        assert(faces_empty_side(77, 0, 8, 11));
        assert(faces_empty_side(77, 0, 11, 5));
        assert(faces_empty_side(77, 0, 5, 1));
        assert(faces_empty_side(77, 5, 11, 6));
    } else if index == 14 {
        assert(faces_empty_side(78, 3, 11, 6));
        assert(faces_empty_side(78, 0, 3, 6));
        assert(faces_empty_side(78, 0, 6, 5));
        assert(faces_empty_side(78, 0, 5, 9));
    } else if index == 15 {
        assert(faces_empty_side(79, 6, 5, 9));
        assert(faces_empty_side(79, 6, 9, 11));
        assert(faces_empty_side(79, 11, 9, 8));
    }
}

/// Each triangle of the last sixteen rows faces the empty side of its
/// configuration: shown for one triangle after the other.
#[verifier::rlimit(100)]
proof fn lemma_last_rows_oriented(index: int)
    requires
        16 <= index < 32,
    ensures
        row_oriented(64 + index, row(index)),
{
    reveal(row);
    reveal(chosen_end);
    reveal(outward_sum);
    reveal(end_normal_outward);
    if index == 16 {
        assert(faces_empty_side(80, 5, 10, 6));
        assert(faces_empty_side(80, 4, 7, 8));
    } else if index == 17 {
        assert(faces_empty_side(81, 4, 3, 0));
        assert(faces_empty_side(81, 4, 7, 3));
        assert(faces_empty_side(81, 6, 5, 10));
    } else if index == 18 {
        assert(faces_empty_side(82, 1, 9, 0));
        assert(faces_empty_side(82, 5, 10, 6));
        assert(faces_empty_side(82, 8, 4, 7));
    } else if index == 19 {
        assert(faces_empty_side(83, 10, 6, 5));
        assert(faces_empty_side(83, 1, 9, 7));
        assert(faces_empty_side(83, 1, 7, 3));
        assert(faces_empty_side(83, 7, 9, 4));
    } else if index == 20 {
        assert(faces_empty_side(84, 6, 1, 2));
        assert(faces_empty_side(84, 6, 5, 1));
        assert(faces_empty_side(84, 4, 7, 8));
    } else if index == 21 {
        assert(faces_empty_side(85, 1, 2, 5));
        assert(faces_empty_side(85, 5, 2, 6));
        assert(faces_empty_side(85, 3, 0, 4));
        assert(faces_empty_side(85, 3, 4, 7));
    } else if index == 22 {
        assert(faces_empty_side(86, 8, 4, 7));
        assert(faces_empty_side(86, 9, 0, 5));
        assert(faces_empty_side(86, 0, 6, 5));
        assert(faces_empty_side(86, 0, 2, 6));
    } else if index == 23 {
        assert(faces_empty_side(87, 7, 3, 9));
        assert(faces_empty_side(87, 7, 9, 4));
        assert(faces_empty_side(87, 3, 2, 9));
        assert(faces_empty_side(87, 5, 9, 6));
        assert(faces_empty_side(87, 2, 6, 9));
    } else if index == 24 {
        assert(faces_empty_side(88, 3, 11, 2));
        assert(faces_empty_side(88, 7, 8, 4));
        assert(faces_empty_side(88, 10, 6, 5));
    } else if index == 25 {
        assert(faces_empty_side(89, 5, 10, 6));
        assert(faces_empty_side(89, 4, 7, 2));
        assert(faces_empty_side(89, 4, 2, 0));
        assert(faces_empty_side(89, 2, 7, 11));
    } else if index == 26 {
        assert(faces_empty_side(90, 0, 1, 9));
        assert(faces_empty_side(90, 4, 7, 8));
        assert(faces_empty_side(90, 2, 3, 11));
        assert(faces_empty_side(90, 5, 10, 6));
    } else if index == 27 {
        assert(faces_empty_side(91, 9, 2, 1));
        assert(faces_empty_side(91, 9, 11, 2));
        assert(faces_empty_side(91, 9, 4, 11));
        assert(faces_empty_side(91, 7, 11, 4));
        assert(faces_empty_side(91, 5, 10, 6));
    } else if index == 28 {
        assert(faces_empty_side(92, 8, 4, 7));
        assert(faces_empty_side(92, 3, 11, 5));
        assert(faces_empty_side(92, 3, 5, 1));
        assert(faces_empty_side(92, 5, 11, 6));
    } else if index == 29 {
        assert(faces_empty_side(93, 5, 1, 11));
        assert(faces_empty_side(93, 5, 11, 6));
        assert(faces_empty_side(93, 1, 0, 11));
        assert(faces_empty_side(93, 7, 11, 4));
        assert(faces_empty_side(93, 0, 4, 11));
    } else if index == 30 {
        assert(faces_empty_side(94, 0, 5, 9));
        assert(faces_empty_side(94, 0, 6, 5));
        assert(faces_empty_side(94, 0, 3, 6));
        assert(faces_empty_side(94, 11, 6, 3));
        assert(faces_empty_side(94, 8, 4, 7));
    } else if index == 31 {
        assert(faces_empty_side(95, 6, 5, 9));
        assert(faces_empty_side(95, 6, 9, 11));
        assert(faces_empty_side(95, 4, 7, 9));
        assert(faces_empty_side(95, 7, 11, 9));
    }
}

/// Each triangle of this part faces the empty side of its configuration.
pub proof fn lemma_rows_oriented(index: int)
    requires
        0 <= index < 32,
    ensures
        row_oriented(64 + index, row(index)),
{
    if index < 16 {
        lemma_first_rows_oriented(index);
    } else {
        lemma_last_rows_oriented(index);
    }
}

} // verus!
