use crate::edge_midpoints::{
    chosen_end, end_normal_outward, faces_empty_side, outward_sum,
};
use crate::triangulation_table::{
    row_entry, row_on_crossed_edges, row_oriented, row_well_formed,
};
use vstd::prelude::*;

verus! {

/// The rows of the configurations `128` to `159`.
pub const ROWS: [[i8; 16]; 32] = [
    [7, 6, 11, -1, -1, -1, -1, -1, -1, -1, -1, -1, -1, -1, -1, -1],
    [3, 0, 8, 11, 7, 6, -1, -1, -1, -1, -1, -1, -1, -1, -1, -1],
    [0, 1, 9, 11, 7, 6, -1, -1, -1, -1, -1, -1, -1, -1, -1, -1],
    [8, 1, 9, 8, 3, 1, 11, 7, 6, -1, -1, -1, -1, -1, -1, -1],
    [10, 1, 2, 6, 11, 7, -1, -1, -1, -1, -1, -1, -1, -1, -1, -1],
    [1, 2, 10, 3, 0, 8, 6, 11, 7, -1, -1, -1, -1, -1, -1, -1],
    [2, 9, 0, 2, 10, 9, 6, 11, 7, -1, -1, -1, -1, -1, -1, -1],
    [6, 11, 7, 2, 10, 3, 10, 8, 3, 10, 9, 8, -1, -1, -1, -1],
    [7, 2, 3, 6, 2, 7, -1, -1, -1, -1, -1, -1, -1, -1, -1, -1],
    [7, 0, 8, 7, 6, 0, 6, 2, 0, -1, -1, -1, -1, -1, -1, -1],
    [2, 7, 6, 2, 3, 7, 0, 1, 9, -1, -1, -1, -1, -1, -1, -1],
    [1, 6, 2, 1, 8, 6, 1, 9, 8, 8, 7, 6, -1, -1, -1, -1],
    [10, 7, 6, 10, 1, 7, 1, 3, 7, -1, -1, -1, -1, -1, -1, -1],
    [10, 7, 6, 1, 7, 10, 1, 8, 7, 1, 0, 8, -1, -1, -1, -1],
    [0, 3, 7, 0, 7, 10, 0, 10, 9, 6, 10, 7, -1, -1, -1, -1],
    [7, 6, 10, 7, 10, 8, 8, 10, 9, -1, -1, -1, -1, -1, -1, -1],
    [6, 8, 4, 11, 8, 6, -1, -1, -1, -1, -1, -1, -1, -1, -1, -1],
    [3, 6, 11, 3, 0, 6, 0, 4, 6, -1, -1, -1, -1, -1, -1, -1],
    [8, 6, 11, 8, 4, 6, 9, 0, 1, -1, -1, -1, -1, -1, -1, -1],
    [9, 4, 6, 9, 6, 3, 9, 3, 1, 11, 3, 6, -1, -1, -1, -1],
    [6, 8, 4, 6, 11, 8, 2, 10, 1, -1, -1, -1, -1, -1, -1, -1],
    [1, 2, 10, 3, 0, 11, 0, 6, 11, 0, 4, 6, -1, -1, -1, -1],
    [4, 11, 8, 4, 6, 11, 0, 2, 9, 2, 10, 9, -1, -1, -1, -1],
    [10, 9, 3, 10, 3, 2, 9, 4, 3, 11, 3, 6, 4, 6, 3, -1],
    [8, 2, 3, 8, 4, 2, 4, 6, 2, -1, -1, -1, -1, -1, -1, -1],
    [0, 4, 2, 4, 6, 2, -1, -1, -1, -1, -1, -1, -1, -1, -1, -1],
    [1, 9, 0, 2, 3, 4, 2, 4, 6, 4, 3, 8, -1, -1, -1, -1],
    [1, 9, 4, 1, 4, 2, 2, 4, 6, -1, -1, -1, -1, -1, -1, -1],
    [8, 1, 3, 8, 6, 1, 8, 4, 6, 6, 10, 1, -1, -1, -1, -1],
    [10, 1, 0, 10, 0, 6, 6, 0, 4, -1, -1, -1, -1, -1, -1, -1],
    [4, 6, 3, 4, 3, 8, 6, 10, 3, 0, 3, 9, 10, 9, 3, -1],
    [10, 9, 4, 6, 10, 4, -1, -1, -1, -1, -1, -1, -1, -1, -1, -1],
];

/// Row `index` of this part. It is opaque, so that only a proof that asks for
/// it sees the rows' contents.
#[verifier::opaque]
pub open spec fn row(index: int) -> [i8; 16] {
    ROWS[index]
}

/// Row `index` of this part.
pub fn get_row(index: usize) -> (triangles: [i8; 16])
    requires
        index < 32,
    ensures
        triangles == row(index as int),
{
    reveal(row);
    ROWS[index]
}

/// Each row of this part is well formed and names only edges that are crossed
/// in its configuration.
pub proof fn lemma_rows(index: int)
    requires
        0 <= index < 32,
    ensures
        row_well_formed(row(index)),
        row_on_crossed_edges(128 + index, row(index)),
{
    reveal(row);
}

/// Each triangle of the first sixteen rows faces the empty side of its
/// configuration: shown for one triangle after the other.
#[verifier::rlimit(100)]
proof fn lemma_first_rows_oriented(index: int)
    requires
        0 <= index < 16,
    ensures
        row_oriented(128 + index, row(index)),
{
    reveal(row);
    reveal(chosen_end);
    reveal(outward_sum);
    reveal(end_normal_outward);
    if index == 0 {
        assert(faces_empty_side(128, 7, 6, 11));
    } else if index == 1 {
        assert(faces_empty_side(129, 3, 0, 8));
        assert(faces_empty_side(129, 11, 7, 6));
    } else if index == 2 {
        assert(faces_empty_side(130, 0, 1, 9));
        assert(faces_empty_side(130, 11, 7, 6));
    } else if index == 3 {
        assert(faces_empty_side(131, 8, 1, 9));
        assert(faces_empty_side(131, 8, 3, 1));
        assert(faces_empty_side(131, 11, 7, 6));
    } else if index == 4 {
        assert(faces_empty_side(132, 10, 1, 2));
        assert(faces_empty_side(132, 6, 11, 7));
    } else if index == 5 {
        assert(faces_empty_side(133, 1, 2, 10));
        assert(faces_empty_side(133, 3, 0, 8));
        assert(faces_empty_side(133, 6, 11, 7));
    } else if index == 6 {
        assert(faces_empty_side(134, 2, 9, 0));
        assert(faces_empty_side(134, 2, 10, 9));
        assert(faces_empty_side(134, 6, 11, 7));
    } else if index == 7 {
        assert(faces_empty_side(135, 6, 11, 7));
        assert(faces_empty_side(135, 2, 10, 3));
        assert(faces_empty_side(135, 10, 8, 3));
        assert(faces_empty_side(135, 10, 9, 8));
    } else if index == 8 {
        assert(faces_empty_side(136, 7, 2, 3));
        assert(faces_empty_side(136, 6, 2, 7));
    } else if index == 9 {
        assert(faces_empty_side(137, 7, 0, 8));
        assert(faces_empty_side(137, 7, 6, 0));
        assert(faces_empty_side(137, 6, 2, 0));
    } else if index == 10 {
        assert(faces_empty_side(138, 2, 7, 6));
        assert(faces_empty_side(138, 2, 3, 7));
        assert(faces_empty_side(138, 0, 1, 9));
    } else if index == 11 {
        assert(faces_empty_side(139, 1, 6, 2));
        assert(faces_empty_side(139, 1, 8, 6));
        assert(faces_empty_side(139, 1, 9, 8));
        assert(faces_empty_side(139, 8, 7, 6));
    } else if index == 12 {
        assert(faces_empty_side(140, 10, 7, 6));
        assert(faces_empty_side(140, 10, 1, 7));
        assert(faces_empty_side(140, 1, 3, 7));
    } else if index == 13 {
        assert(faces_empty_side(141, 10, 7, 6));
        assert(faces_empty_side(141, 1, 7, 10));
        assert(faces_empty_side(141, 1, 8, 7));
        assert(faces_empty_side(141, 1, 0, 8));
    } else if index == 14 {
        assert(faces_empty_side(142, 0, 3, 7));
        assert(faces_empty_side(142, 0, 7, 10));
        assert(faces_empty_side(142, 0, 10, 9));
        assert(faces_empty_side(142, 6, 10, 7));
    } else if index == 15 {
        assert(faces_empty_side(143, 7, 6, 10));
        assert(faces_empty_side(143, 7, 10, 8));
        assert(faces_empty_side(143, 8, 10, 9));
    }
}

/// Each triangle of the last sixteen rows faces the empty side of its
/// configuration: shown for one triangle after the other.
#[verifier::rlimit(100)]
proof fn lemma_last_rows_oriented(index: int)
    requires
        16 <= index < 32,
    ensures
        row_oriented(128 + index, row(index)),
{
    reveal(row);
    reveal(chosen_end);
    reveal(outward_sum);
    reveal(end_normal_outward);
    if index == 16 {
        assert(faces_empty_side(144, 6, 8, 4));
        assert(faces_empty_side(144, 11, 8, 6));
    } else if index == 17 {
        assert(faces_empty_side(145, 3, 6, 11));
        assert(faces_empty_side(145, 3, 0, 6));
        assert(faces_empty_side(145, 0, 4, 6));
    } else if index == 18 {
        assert(faces_empty_side(146, 8, 6, 11));
        assert(faces_empty_side(146, 8, 4, 6));
        assert(faces_empty_side(146, 9, 0, 1));
    } else if index == 19 {
        assert(faces_empty_side(147, 9, 4, 6));
        assert(faces_empty_side(147, 9, 6, 3));
        assert(faces_empty_side(147, 9, 3, 1));
        assert(faces_empty_side(147, 11, 3, 6));
    } else if index == 20 {
        assert(faces_empty_side(148, 6, 8, 4));
        assert(faces_empty_side(148, 6, 11, 8));
        assert(faces_empty_side(148, 2, 10, 1));
    } else if index == 21 {
        assert(faces_empty_side(149, 1, 2, 10));
        assert(faces_empty_side(149, 3, 0, 11));
        assert(faces_empty_side(149, 0, 6, 11));
        assert(faces_empty_side(149, 0, 4, 6));
    } else if index == 22 {
        assert(faces_empty_side(150, 4, 11, 8));
        assert(faces_empty_side(150, 4, 6, 11));
        assert(faces_empty_side(150, 0, 2, 9));
        assert(faces_empty_side(150, 2, 10, 9));
    } else if index == 23 {
        assert(faces_empty_side(151, 10, 9, 3));
        assert(faces_empty_side(151, 10, 3, 2));
        assert(faces_empty_side(151, 9, 4, 3));
        assert(faces_empty_side(151, 11, 3, 6));
        assert(faces_empty_side(151, 4, 6, 3));
    } else if index == 24 {
        assert(faces_empty_side(152, 8, 2, 3));
        assert(faces_empty_side(152, 8, 4, 2));
        assert(faces_empty_side(152, 4, 6, 2));
    } else if index == 25 {
        assert(faces_empty_side(153, 0, 4, 2));
        assert(faces_empty_side(153, 4, 6, 2));
    } else if index == 26 {
        assert(faces_empty_side(154, 1, 9, 0));
        assert(faces_empty_side(154, 2, 3, 4));
        assert(faces_empty_side(154, 2, 4, 6));
        assert(faces_empty_side(154, 4, 3, 8));
    } else if index == 27 {
        assert(faces_empty_side(155, 1, 9, 4));
        assert(faces_empty_side(155, 1, 4, 2));
        assert(faces_empty_side(155, 2, 4, 6));
    } else if index == 28 {
        assert(faces_empty_side(156, 8, 1, 3));
        assert(faces_empty_side(156, 8, 6, 1));
        assert(faces_empty_side(156, 8, 4, 6));
        assert(faces_empty_side(156, 6, 10, 1));
    } else if index == 29 {
        assert(faces_empty_side(157, 10, 1, 0));
        assert(faces_empty_side(157, 10, 0, 6));
        assert(faces_empty_side(157, 6, 0, 4));
    } else if index == 30 {
        assert(faces_empty_side(158, 4, 6, 3));
        assert(faces_empty_side(158, 4, 3, 8));
        assert(faces_empty_side(158, 6, 10, 3));
        assert(faces_empty_side(158, 0, 3, 9));
        assert(faces_empty_side(158, 10, 9, 3));
    } else if index == 31 {
        assert(faces_empty_side(159, 10, 9, 4));
        assert(faces_empty_side(159, 6, 10, 4));
    }
}

/// Each triangle of this part faces the empty side of its configuration.
pub proof fn lemma_rows_oriented(index: int)
    requires
        0 <= index < 32,
    ensures
        row_oriented(128 + index, row(index)),
{
    if index < 16 {
        lemma_first_rows_oriented(index);
    } else {
        lemma_last_rows_oriented(index);
    }
}

/// The row of the configuration with the four western corners solid, and no
/// others: two triangles that span the cell.
pub proof fn lemma_row_153()
    ensures
        row_entry(row(25), 0) == 0,
        row_entry(row(25), 1) == 4,
        row_entry(row(25), 2) == 2,
        row_entry(row(25), 3) == 4,
        row_entry(row(25), 4) == 6,
        row_entry(row(25), 5) == 2,
        row_entry(row(25), 6) == -1,
{
    reveal(row);
}

} // verus!
