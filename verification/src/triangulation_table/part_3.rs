use crate::edge_midpoints::{
    chosen_end, end_normal_outward, faces_empty_side, outward_sum,
};
use crate::triangulation_table::{
    row_entry, row_on_crossed_edges, row_oriented, row_well_formed,
};
use vstd::prelude::*;

verus! {

/// The rows of the configurations `96` to `127`.
pub const ROWS: [[i8; 16]; 32] = [
    [10, 4, 9, 6, 4, 10, -1, -1, -1, -1, -1, -1, -1, -1, -1, -1],
    [4, 10, 6, 4, 9, 10, 0, 8, 3, -1, -1, -1, -1, -1, -1, -1],
    [10, 0, 1, 10, 6, 0, 6, 4, 0, -1, -1, -1, -1, -1, -1, -1],
    [8, 3, 1, 8, 1, 6, 8, 6, 4, 6, 1, 10, -1, -1, -1, -1],
    [1, 4, 9, 1, 2, 4, 2, 6, 4, -1, -1, -1, -1, -1, -1, -1],
    [3, 0, 8, 1, 2, 9, 2, 4, 9, 2, 6, 4, -1, -1, -1, -1],
    [0, 2, 4, 4, 2, 6, -1, -1, -1, -1, -1, -1, -1, -1, -1, -1],
    [8, 3, 2, 8, 2, 4, 4, 2, 6, -1, -1, -1, -1, -1, -1, -1],
    [10, 4, 9, 10, 6, 4, 11, 2, 3, -1, -1, -1, -1, -1, -1, -1],
    [0, 8, 2, 2, 8, 11, 4, 9, 10, 4, 10, 6, -1, -1, -1, -1],
    [3, 11, 2, 0, 1, 6, 0, 6, 4, 6, 1, 10, -1, -1, -1, -1],
    [6, 4, 1, 6, 1, 10, 4, 8, 1, 2, 1, 11, 8, 11, 1, -1],
    [9, 6, 4, 9, 3, 6, 9, 1, 3, 11, 6, 3, -1, -1, -1, -1],
    [8, 11, 1, 8, 1, 0, 11, 6, 1, 9, 1, 4, 6, 4, 1, -1],
    [3, 11, 6, 3, 6, 0, 0, 6, 4, -1, -1, -1, -1, -1, -1, -1],
    [6, 4, 8, 11, 6, 8, -1, -1, -1, -1, -1, -1, -1, -1, -1, -1],
    [7, 10, 6, 7, 8, 10, 8, 9, 10, -1, -1, -1, -1, -1, -1, -1],
    [0, 7, 3, 0, 10, 7, 0, 9, 10, 6, 7, 10, -1, -1, -1, -1],
    [10, 6, 7, 1, 10, 7, 1, 7, 8, 1, 8, 0, -1, -1, -1, -1],
    [10, 6, 7, 10, 7, 1, 1, 7, 3, -1, -1, -1, -1, -1, -1, -1],
    [1, 2, 6, 1, 6, 8, 1, 8, 9, 8, 6, 7, -1, -1, -1, -1],
    [2, 6, 9, 2, 9, 1, 6, 7, 9, 0, 9, 3, 7, 3, 9, -1],
    [7, 8, 0, 7, 0, 6, 6, 0, 2, -1, -1, -1, -1, -1, -1, -1],
    [7, 3, 2, 6, 7, 2, -1, -1, -1, -1, -1, -1, -1, -1, -1, -1],
    [2, 3, 11, 10, 6, 8, 10, 8, 9, 8, 6, 7, -1, -1, -1, -1],
    [2, 0, 7, 2, 7, 11, 0, 9, 7, 6, 7, 10, 9, 10, 7, -1],
    [1, 8, 0, 1, 7, 8, 1, 10, 7, 6, 7, 10, 2, 3, 11, -1],
    [11, 2, 1, 11, 1, 7, 10, 6, 1, 6, 7, 1, -1, -1, -1, -1],
    [8, 9, 6, 8, 6, 7, 9, 1, 6, 11, 6, 3, 1, 3, 6, -1],
    [0, 9, 1, 11, 6, 7, -1, -1, -1, -1, -1, -1, -1, -1, -1, -1],
    [7, 8, 0, 7, 0, 6, 3, 11, 0, 11, 6, 0, -1, -1, -1, -1],
    [7, 11, 6, -1, -1, -1, -1, -1, -1, -1, -1, -1, -1, -1, -1, -1],
];

/// Row `index` of this part. It is opaque, so that only a proof that asks for
/// it sees the rows' contents.
#[verifier::opaque]
pub open spec fn row(index: int) -> [i8; 16] {
    ROWS[index]
}

/// Row `index` of this part.
pub fn get_row(index: usize) -> (triangles: [i8; 16])
    requires
        index < 32,
    ensures
        triangles == row(index as int),
{
    reveal(row);
    ROWS[index]
}

/// Each row of this part is well formed and names only edges that are crossed
/// in its configuration.
pub proof fn lemma_rows(index: int)
    requires
        0 <= index < 32,
    ensures
        row_well_formed(row(index)),
        row_on_crossed_edges(96 + index, row(index)),
{
    reveal(row);
}

/// Each triangle of the first sixteen rows faces the empty side of its
/// configuration: shown for one triangle after the other.
#[verifier::rlimit(100)]
proof fn lemma_first_rows_oriented(index: int)
    requires
        0 <= index < 16,
    ensures
        row_oriented(96 + index, row(index)),
{
    reveal(row);
    reveal(chosen_end);
    reveal(outward_sum);
    reveal(end_normal_outward);
    if index == 0 {
        assert(faces_empty_side(96, 10, 4, 9));
        assert(faces_empty_side(96, 6, 4, 10));
    } else if index == 1 {
        assert(faces_empty_side(97, 4, 10, 6));
        assert(faces_empty_side(97, 4, 9, 10));
        assert(faces_empty_side(97, 0, 8, 3));
    } else if index == 2 {
        assert(faces_empty_side(98, 10, 0, 1));
        assert(faces_empty_side(98, 10, 6, 0));
        assert(faces_empty_side(98, 6, 4, 0));
    } else if index == 3 {
        assert(faces_empty_side(99, 8, 3, 1));
        assert(faces_empty_side(99, 8, 1, 6));
        assert(faces_empty_side(99, 8, 6, 4));
        assert(faces_empty_side(99, 6, 1, 10));
    } else if index == 4 {
        assert(faces_empty_side(100, 1, 4, 9));
        assert(faces_empty_side(100, 1, 2, 4));
        assert(faces_empty_side(100, 2, 6, 4));
    } else if index == 5 {
        assert(faces_empty_side(101, 3, 0, 8));
        assert(faces_empty_side(101, 1, 2, 9));
        assert(faces_empty_side(101, 2, 4, 9));
        assert(faces_empty_side(101, 2, 6, 4));
    } else if index == 6 {
        assert(faces_empty_side(102, 0, 2, 4));
        assert(faces_empty_side(102, 4, 2, 6));
    } else if index == 7 {
        assert(faces_empty_side(103, 8, 3, 2));
        assert(faces_empty_side(103, 8, 2, 4));
        assert(faces_empty_side(103, 4, 2, 6));
    } else if index == 8 {
        assert(faces_empty_side(104, 10, 4, 9));
        assert(faces_empty_side(104, 10, 6, 4));
        assert(faces_empty_side(104, 11, 2, 3));
    } else if index == 9 {
        assert(faces_empty_side(105, 0, 8, 2));
        assert(faces_empty_side(105, 2, 8, 11));
        assert(faces_empty_side(105, 4, 9, 10));
        assert(faces_empty_side(105, 4, 10, 6));
    } else if index == 10 {
        assert(faces_empty_side(106, 3, 11, 2));
        assert(faces_empty_side(106, 0, 1, 6));
        assert(faces_empty_side(106, 0, 6, 4));
        assert(faces_empty_side(106, 6, 1, 10));
    } else if index == 11 {
        assert(faces_empty_side(107, 6, 4, 1));
        assert(faces_empty_side(107, 6, 1, 10));
        assert(faces_empty_side(107, 4, 8, 1));
        assert(faces_empty_side(107, 2, 1, 11));
        assert(faces_empty_side(107, 8, 11, 1));
    } else if index == 12 {
        assert(faces_empty_side(108, 9, 6, 4));
        assert(faces_empty_side(108, 9, 3, 6));
        assert(faces_empty_side(108, 9, 1, 3));
        assert(faces_empty_side(108, 11, 6, 3));
    } else if index == 13 {
        assert(faces_empty_side(109, 8, 11, 1));
        assert(faces_empty_side(109, 8, 1, 0));
        assert(faces_empty_side(109, 11, 6, 1));
        assert(faces_empty_side(109, 9, 1, 4));
        assert(faces_empty_side(109, 6, 4, 1));
    } else if index == 14 {
        assert(faces_empty_side(110, 3, 11, 6));
        assert(faces_empty_side(110, 3, 6, 0));
        assert(faces_empty_side(110, 0, 6, 4));
    } else if index == 15 {
        assert(faces_empty_side(111, 6, 4, 8));
        assert(faces_empty_side(111, 11, 6, 8));
    }
}

/// Each triangle of the last sixteen rows faces the empty side of its
/// configuration: shown for one triangle after the other.
#[verifier::rlimit(100)]
proof fn lemma_last_rows_oriented(index: int)
    requires
        16 <= index < 32,
    ensures
        row_oriented(96 + index, row(index)),
{
    reveal(row);
    reveal(chosen_end);
    reveal(outward_sum);
    reveal(end_normal_outward);
    if index == 16 {
        assert(faces_empty_side(112, 7, 10, 6));
        assert(faces_empty_side(112, 7, 8, 10));
        assert(faces_empty_side(112, 8, 9, 10));
    } else if index == 17 {
        assert(faces_empty_side(113, 0, 7, 3));
        assert(faces_empty_side(113, 0, 10, 7));
        assert(faces_empty_side(113, 0, 9, 10));
        assert(faces_empty_side(113, 6, 7, 10));
    } else if index == 18 {
        assert(faces_empty_side(114, 10, 6, 7));
        assert(faces_empty_side(114, 1, 10, 7));
        assert(faces_empty_side(114, 1, 7, 8));
        assert(faces_empty_side(114, 1, 8, 0));
    } else if index == 19 {
        assert(faces_empty_side(115, 10, 6, 7));
        assert(faces_empty_side(115, 10, 7, 1));
        assert(faces_empty_side(115, 1, 7, 3));
    } else if index == 20 {
        assert(faces_empty_side(116, 1, 2, 6));
        assert(faces_empty_side(116, 1, 6, 8));
        assert(faces_empty_side(116, 1, 8, 9));
        assert(faces_empty_side(116, 8, 6, 7));
    } else if index == 21 {
        assert(faces_empty_side(117, 2, 6, 9));
        assert(faces_empty_side(117, 2, 9, 1));
        assert(faces_empty_side(117, 6, 7, 9));
        assert(faces_empty_side(117, 0, 9, 3));
        assert(faces_empty_side(117, 7, 3, 9));
    } else if index == 22 {
        assert(faces_empty_side(118, 7, 8, 0));
        assert(faces_empty_side(118, 7, 0, 6));
        assert(faces_empty_side(118, 6, 0, 2));
    } else if index == 23 {
        assert(faces_empty_side(119, 7, 3, 2));
        assert(faces_empty_side(119, 6, 7, 2));
    } else if index == 24 {
        assert(faces_empty_side(120, 2, 3, 11));
        assert(faces_empty_side(120, 10, 6, 8));
        assert(faces_empty_side(120, 10, 8, 9));
        assert(faces_empty_side(120, 8, 6, 7));
    } else if index == 25 {
        assert(faces_empty_side(121, 2, 0, 7));
        assert(faces_empty_side(121, 2, 7, 11));
        assert(faces_empty_side(121, 0, 9, 7));
        assert(faces_empty_side(121, 6, 7, 10));
        assert(faces_empty_side(121, 9, 10, 7));
    } else if index == 26 {
        assert(faces_empty_side(122, 1, 8, 0));
        assert(faces_empty_side(122, 1, 7, 8));
        assert(faces_empty_side(122, 1, 10, 7));
        assert(faces_empty_side(122, 6, 7, 10));
        assert(faces_empty_side(122, 2, 3, 11));
    } else if index == 27 {
        assert(faces_empty_side(123, 11, 2, 1));
        assert(faces_empty_side(123, 11, 1, 7));
        assert(faces_empty_side(123, 10, 6, 1));
        assert(faces_empty_side(123, 6, 7, 1));
    } else if index == 28 {
        assert(faces_empty_side(124, 8, 9, 6));
        assert(faces_empty_side(124, 8, 6, 7));
        assert(faces_empty_side(124, 9, 1, 6));
        assert(faces_empty_side(124, 11, 6, 3));
        assert(faces_empty_side(124, 1, 3, 6));
    } else if index == 29 {
        assert(faces_empty_side(125, 0, 9, 1));
        assert(faces_empty_side(125, 11, 6, 7));
    } else if index == 30 {
        assert(faces_empty_side(126, 7, 8, 0));
        assert(faces_empty_side(126, 7, 0, 6));
        assert(faces_empty_side(126, 3, 11, 0));
        assert(faces_empty_side(126, 11, 6, 0));
    } else if index == 31 {
        assert(faces_empty_side(127, 7, 11, 6));
    }
}

/// Each triangle of this part faces the empty side of its configuration.
pub proof fn lemma_rows_oriented(index: int)
    requires
        0 <= index < 32,
    ensures
        row_oriented(96 + index, row(index)),
{
    if index < 16 {
        lemma_first_rows_oriented(index);
    } else {
        lemma_last_rows_oriented(index);
    }
}

/// The row of the configuration with the four eastern corners solid, and no
/// others: two triangles that span the cell.
pub proof fn lemma_row_102()
    ensures
        row_entry(row(6), 0) == 0,
        row_entry(row(6), 1) == 2,
        row_entry(row(6), 2) == 4,
        row_entry(row(6), 3) == 4,
        row_entry(row(6), 4) == 2,
        row_entry(row(6), 5) == 6,
        row_entry(row(6), 6) == -1,
{
    reveal(row);
}

} // verus!
