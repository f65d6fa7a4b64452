use crate::edge_midpoints::{
    chosen_end, end_normal_outward, faces_empty_side, outward_sum,
};
use crate::triangulation_table::{
    row_entry, row_on_crossed_edges, row_oriented, row_well_formed,
};
use vstd::prelude::*;

verus! {

/// The rows of the configurations `192` to `223`.
pub const ROWS: [[i8; 16]; 32] = [
    [11, 5, 10, 7, 5, 11, -1, -1, -1, -1, -1, -1, -1, -1, -1, -1],
    [11, 5, 10, 11, 7, 5, 8, 3, 0, -1, -1, -1, -1, -1, -1, -1],
    [5, 11, 7, 5, 10, 11, 1, 9, 0, -1, -1, -1, -1, -1, -1, -1],
    [10, 7, 5, 10, 11, 7, 9, 8, 1, 8, 3, 1, -1, -1, -1, -1],
    [11, 1, 2, 11, 7, 1, 7, 5, 1, -1, -1, -1, -1, -1, -1, -1],
    [0, 8, 3, 1, 2, 7, 1, 7, 5, 7, 2, 11, -1, -1, -1, -1],
    [9, 7, 5, 9, 2, 7, 9, 0, 2, 2, 11, 7, -1, -1, -1, -1],
    [7, 5, 2, 7, 2, 11, 5, 9, 2, 3, 2, 8, 9, 8, 2, -1],
    [2, 5, 10, 2, 3, 5, 3, 7, 5, -1, -1, -1, -1, -1, -1, -1],
    [8, 2, 0, 8, 5, 2, 8, 7, 5, 10, 2, 5, -1, -1, -1, -1],
    [9, 0, 1, 5, 10, 3, 5, 3, 7, 3, 10, 2, -1, -1, -1, -1],
    [9, 8, 2, 9, 2, 1, 8, 7, 2, 10, 2, 5, 7, 5, 2, -1],
    [1, 3, 5, 3, 7, 5, -1, -1, -1, -1, -1, -1, -1, -1, -1, -1],
    [0, 8, 7, 0, 7, 1, 1, 7, 5, -1, -1, -1, -1, -1, -1, -1],
    [9, 0, 3, 9, 3, 5, 5, 3, 7, -1, -1, -1, -1, -1, -1, -1],
    [9, 8, 7, 5, 9, 7, -1, -1, -1, -1, -1, -1, -1, -1, -1, -1],
    [5, 8, 4, 5, 10, 8, 10, 11, 8, -1, -1, -1, -1, -1, -1, -1],
    [5, 0, 4, 5, 11, 0, 5, 10, 11, 11, 3, 0, -1, -1, -1, -1],
    [0, 1, 9, 8, 4, 10, 8, 10, 11, 10, 4, 5, -1, -1, -1, -1],
    [10, 11, 4, 10, 4, 5, 11, 3, 4, 9, 4, 1, 3, 1, 4, -1],
    [2, 5, 1, 2, 8, 5, 2, 11, 8, 4, 5, 8, -1, -1, -1, -1],
    [0, 4, 11, 0, 11, 3, 4, 5, 11, 2, 11, 1, 5, 1, 11, -1],
    [0, 2, 5, 0, 5, 9, 2, 11, 5, 4, 5, 8, 11, 8, 5, -1],
    [9, 4, 5, 2, 11, 3, -1, -1, -1, -1, -1, -1, -1, -1, -1, -1],
    [2, 5, 10, 3, 5, 2, 3, 4, 5, 3, 8, 4, -1, -1, -1, -1],
    [5, 10, 2, 5, 2, 4, 4, 2, 0, -1, -1, -1, -1, -1, -1, -1],
    [3, 10, 2, 3, 5, 10, 3, 8, 5, 4, 5, 8, 0, 1, 9, -1],
    [5, 10, 2, 5, 2, 4, 1, 9, 2, 9, 4, 2, -1, -1, -1, -1],
    [8, 4, 5, 8, 5, 3, 3, 5, 1, -1, -1, -1, -1, -1, -1, -1],
    [0, 4, 5, 1, 0, 5, -1, -1, -1, -1, -1, -1, -1, -1, -1, -1],
    [8, 4, 5, 8, 5, 3, 9, 0, 5, 0, 3, 5, -1, -1, -1, -1],
    [9, 4, 5, -1, -1, -1, -1, -1, -1, -1, -1, -1, -1, -1, -1, -1],
];

/// Row `index` of this part. It is opaque, so that only a proof that asks for
/// it sees the rows' contents.
#[verifier::opaque]
pub open spec fn row(index: int) -> [i8; 16] {
    ROWS[index]
}

/// Row `index` of this part.
pub fn get_row(index: usize) -> (triangles: [i8; 16])
    requires
        index < 32,
    ensures
        triangles == row(index as int),
{
    reveal(row);
    ROWS[index]
}

/// Each row of this part is well formed and names only edges that are crossed
/// in its configuration.
pub proof fn lemma_rows(index: int)
    requires
        0 <= index < 32,
    ensures
        row_well_formed(row(index)),
        row_on_crossed_edges(192 + index, row(index)),
{
    reveal(row);
}

/// Each triangle of the first sixteen rows faces the empty side of its
/// configuration: shown for one triangle after the other.
#[verifier::rlimit(100)]
proof fn lemma_first_rows_oriented(index: int)
    requires
        0 <= index < 16,
    ensures
        row_oriented(192 + index, row(index)),
{
    reveal(row);
    reveal(chosen_end);
    reveal(outward_sum);
    reveal(end_normal_outward);
    if index == 0 {
        assert(faces_empty_side(192, 11, 5, 10));
        assert(faces_empty_side(192, 7, 5, 11));
    } else if index == 1 {
        assert(faces_empty_side(193, 11, 5, 10));
        assert(faces_empty_side(193, 11, 7, 5));
        assert(faces_empty_side(193, 8, 3, 0));
    } else if index == 2 {
        assert(faces_empty_side(194, 5, 11, 7));
        assert(faces_empty_side(194, 5, 10, 11));
        assert(faces_empty_side(194, 1, 9, 0));
    } else if index == 3 {
        assert(faces_empty_side(195, 10, 7, 5));
        assert(faces_empty_side(195, 10, 11, 7));
        assert(faces_empty_side(195, 9, 8, 1));
        assert(faces_empty_side(195, 8, 3, 1));
    } else if index == 4 {
        assert(faces_empty_side(196, 11, 1, 2));
        assert(faces_empty_side(196, 11, 7, 1));
        assert(faces_empty_side(196, 7, 5, 1));
    } else if index == 5 {
        assert(faces_empty_side(197, 0, 8, 3));
        assert(faces_empty_side(197, 1, 2, 7));
        assert(faces_empty_side(197, 1, 7, 5));
        assert(faces_empty_side(197, 7, 2, 11));
    } else if index == 6 {
        assert(faces_empty_side(198, 9, 7, 5));
        assert(faces_empty_side(198, 9, 2, 7));
        assert(faces_empty_side(198, 9, 0, 2));
        assert(faces_empty_side(198, 2, 11, 7));
    } else if index == 7 {
        assert(faces_empty_side(199, 7, 5, 2));
        assert(faces_empty_side(199, 7, 2, 11));
        assert(faces_empty_side(199, 5, 9, 2));
        assert(faces_empty_side(199, 3, 2, 8));
        assert(faces_empty_side(199, 9, 8, 2));
    } else if index == 8 {
        assert(faces_empty_side(200, 2, 5, 10));
        assert(faces_empty_side(200, 2, 3, 5));
        assert(faces_empty_side(200, 3, 7, 5));
    } else if index == 9 {
        assert(faces_empty_side(201, 8, 2, 0));
        assert(faces_empty_side(201, 8, 5, 2));
        assert(faces_empty_side(201, 8, 7, 5));
        assert(faces_empty_side(201, 10, 2, 5));
    } else if index == 10 {
        assert(faces_empty_side(202, 9, 0, 1));
        assert(faces_empty_side(202, 5, 10, 3));
        assert(faces_empty_side(202, 5, 3, 7));
        assert(faces_empty_side(202, 3, 10, 2));
    } else if index == 11 {
        assert(faces_empty_side(203, 9, 8, 2));
        assert(faces_empty_side(203, 9, 2, 1));
        assert(faces_empty_side(203, 8, 7, 2));
        assert(faces_empty_side(203, 10, 2, 5));
        assert(faces_empty_side(203, 7, 5, 2));
    } else if index == 12 {
        assert(faces_empty_side(204, 1, 3, 5));
        assert(faces_empty_side(204, 3, 7, 5));
    } else if index == 13 {
        assert(faces_empty_side(205, 0, 8, 7));
        assert(faces_empty_side(205, 0, 7, 1));
        assert(faces_empty_side(205, 1, 7, 5));
    } else if index == 14 {
        assert(faces_empty_side(206, 9, 0, 3));
        assert(faces_empty_side(206, 9, 3, 5));
        assert(faces_empty_side(206, 5, 3, 7));
    } else if index == 15 {
        assert(faces_empty_side(207, 9, 8, 7));
        assert(faces_empty_side(207, 5, 9, 7));
    }
}

/// Each triangle of the last sixteen rows faces the empty side of its
/// configuration: shown for one triangle after the other.
#[verifier::rlimit(100)]
proof fn lemma_last_rows_oriented(index: int)
    requires
        16 <= index < 32,
    ensures
        row_oriented(192 + index, row(index)),
{
    reveal(row);
    reveal(chosen_end);
    reveal(outward_sum);
    reveal(end_normal_outward);
    if index == 16 {
        assert(faces_empty_side(208, 5, 8, 4));
        assert(faces_empty_side(208, 5, 10, 8));
        assert(faces_empty_side(208, 10, 11, 8));
    } else if index == 17 {
        assert(faces_empty_side(209, 5, 0, 4));
        assert(faces_empty_side(209, 5, 11, 0));
        assert(faces_empty_side(209, 5, 10, 11));
        assert(faces_empty_side(209, 11, 3, 0));
    } else if index == 18 {
        assert(faces_empty_side(210, 0, 1, 9));
        assert(faces_empty_side(210, 8, 4, 10));
        assert(faces_empty_side(210, 8, 10, 11));
        assert(faces_empty_side(210, 10, 4, 5));
    } else if index == 19 {
        assert(faces_empty_side(211, 10, 11, 4));
        assert(faces_empty_side(211, 10, 4, 5));
        assert(faces_empty_side(211, 11, 3, 4));
        assert(faces_empty_side(211, 9, 4, 1));
        assert(faces_empty_side(211, 3, 1, 4));
    } else if index == 20 {
        assert(faces_empty_side(212, 2, 5, 1));
        assert(faces_empty_side(212, 2, 8, 5));
        assert(faces_empty_side(212, 2, 11, 8));
        assert(faces_empty_side(212, 4, 5, 8));
    } else if index == 21 {
        assert(faces_empty_side(213, 0, 4, 11));
        assert(faces_empty_side(213, 0, 11, 3));
        assert(faces_empty_side(213, 4, 5, 11));
        assert(faces_empty_side(213, 2, 11, 1));
        assert(faces_empty_side(213, 5, 1, 11));
    } else if index == 22 {
        assert(faces_empty_side(214, 0, 2, 5));
        assert(faces_empty_side(214, 0, 5, 9));
        assert(faces_empty_side(214, 2, 11, 5));
        assert(faces_empty_side(214, 4, 5, 8));
        assert(faces_empty_side(214, 11, 8, 5));
    } else if index == 23 {
        assert(faces_empty_side(215, 9, 4, 5));
        assert(faces_empty_side(215, 2, 11, 3));
    } else if index == 24 {
        assert(faces_empty_side(216, 2, 5, 10));
        assert(faces_empty_side(216, 3, 5, 2));
        assert(faces_empty_side(216, 3, 4, 5));
        assert(faces_empty_side(216, 3, 8, 4));
    } else if index == 25 {
        assert(faces_empty_side(217, 5, 10, 2));
        assert(faces_empty_side(217, 5, 2, 4));
        assert(faces_empty_side(217, 4, 2, 0));
    } else if index == 26 {
        assert(faces_empty_side(218, 3, 10, 2));
        assert(faces_empty_side(218, 3, 5, 10));
        assert(faces_empty_side(218, 3, 8, 5));
        assert(faces_empty_side(218, 4, 5, 8));
        assert(faces_empty_side(218, 0, 1, 9));
    } else if index == 27 {
        assert(faces_empty_side(219, 5, 10, 2));
        assert(faces_empty_side(219, 5, 2, 4));
        assert(faces_empty_side(219, 1, 9, 2));
        assert(faces_empty_side(219, 9, 4, 2));
    } else if index == 28 {
        assert(faces_empty_side(220, 8, 4, 5));
        assert(faces_empty_side(220, 8, 5, 3));
        assert(faces_empty_side(220, 3, 5, 1));
    } else if index == 29 {
        assert(faces_empty_side(221, 0, 4, 5));
        assert(faces_empty_side(221, 1, 0, 5));
    } else if index == 30 {
        assert(faces_empty_side(222, 8, 4, 5));
        assert(faces_empty_side(222, 8, 5, 3));
        assert(faces_empty_side(222, 9, 0, 5));
        assert(faces_empty_side(222, 0, 3, 5));
    } else if index == 31 {
        assert(faces_empty_side(223, 9, 4, 5));
    }
}

/// Each triangle of this part faces the empty side of its configuration.
pub proof fn lemma_rows_oriented(index: int)
    requires
        0 <= index < 32,
    ensures
        row_oriented(192 + index, row(index)),
{
    if index < 16 {
        lemma_first_rows_oriented(index);
    } else {
        lemma_last_rows_oriented(index);
    }
}

/// The row of the configuration with the four southern corners solid, and no
/// others: two triangles that span the cell.
pub proof fn lemma_row_204()
    ensures
        row_entry(row(12), 0) == 1,
        row_entry(row(12), 1) == 3,
        row_entry(row(12), 2) == 5,
        row_entry(row(12), 3) == 3,
        row_entry(row(12), 4) == 7,
        row_entry(row(12), 5) == 5,
        row_entry(row(12), 6) == -1,
{
    reveal(row);
}

} // verus!
