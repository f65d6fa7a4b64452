use crate::edge_midpoints::{
    chosen_end, end_normal_outward, faces_empty_side, outward_sum,
};
use crate::triangulation_table::{
    row_entry, row_on_crossed_edges, row_oriented, row_well_formed,
};
use vstd::prelude::*;

verus! {

/// The rows of the configurations `0` to `31`.
pub const ROWS: [[i8; 16]; 32] = [
    [-1, -1, -1, -1, -1, -1, -1, -1, -1, -1, -1, -1, -1, -1, -1, -1],
    [0, 8, 3, -1, -1, -1, -1, -1, -1, -1, -1, -1, -1, -1, -1, -1],
    [0, 1, 9, -1, -1, -1, -1, -1, -1, -1, -1, -1, -1, -1, -1, -1],
    [1, 8, 3, 9, 8, 1, -1, -1, -1, -1, -1, -1, -1, -1, -1, -1],
    [1, 2, 10, -1, -1, -1, -1, -1, -1, -1, -1, -1, -1, -1, -1, -1],
    [0, 8, 3, 1, 2, 10, -1, -1, -1, -1, -1, -1, -1, -1, -1, -1],
    [9, 2, 10, 0, 2, 9, -1, -1, -1, -1, -1, -1, -1, -1, -1, -1],
    [2, 8, 3, 2, 10, 8, 10, 9, 8, -1, -1, -1, -1, -1, -1, -1],
    [3, 11, 2, -1, -1, -1, -1, -1, -1, -1, -1, -1, -1, -1, -1, -1],
    [0, 11, 2, 8, 11, 0, -1, -1, -1, -1, -1, -1, -1, -1, -1, -1],
    [1, 9, 0, 2, 3, 11, -1, -1, -1, -1, -1, -1, -1, -1, -1, -1],
    [1, 11, 2, 1, 9, 11, 9, 8, 11, -1, -1, -1, -1, -1, -1, -1],
    [3, 10, 1, 11, 10, 3, -1, -1, -1, -1, -1, -1, -1, -1, -1, -1],
    [0, 10, 1, 0, 8, 10, 8, 11, 10, -1, -1, -1, -1, -1, -1, -1],
    [3, 9, 0, 3, 11, 9, 11, 10, 9, -1, -1, -1, -1, -1, -1, -1],
    [9, 8, 10, 10, 8, 11, -1, -1, -1, -1, -1, -1, -1, -1, -1, -1],
    [4, 7, 8, -1, -1, -1, -1, -1, -1, -1, -1, -1, -1, -1, -1, -1],
    [4, 3, 0, 7, 3, 4, -1, -1, -1, -1, -1, -1, -1, -1, -1, -1],
    [0, 1, 9, 8, 4, 7, -1, -1, -1, -1, -1, -1, -1, -1, -1, -1],
    [4, 1, 9, 4, 7, 1, 7, 3, 1, -1, -1, -1, -1, -1, -1, -1],
    [1, 2, 10, 8, 4, 7, -1, -1, -1, -1, -1, -1, -1, -1, -1, -1],
    [3, 4, 7, 3, 0, 4, 1, 2, 10, -1, -1, -1, -1, -1, -1, -1],
    [9, 2, 10, 9, 0, 2, 8, 4, 7, -1, -1, -1, -1, -1, -1, -1],
    [2, 10, 9, 2, 9, 7, 2, 7, 3, 7, 9, 4, -1, -1, -1, -1],
    [8, 4, 7, 3, 11, 2, -1, -1, -1, -1, -1, -1, -1, -1, -1, -1],
    [11, 4, 7, 11, 2, 4, 2, 0, 4, -1, -1, -1, -1, -1, -1, -1],
    [9, 0, 1, 8, 4, 7, 2, 3, 11, -1, -1, -1, -1, -1, -1, -1],
    [4, 7, 11, 9, 4, 11, 9, 11, 2, 9, 2, 1, -1, -1, -1, -1],
    [3, 10, 1, 3, 11, 10, 7, 8, 4, -1, -1, -1, -1, -1, -1, -1],
    [1, 11, 10, 1, 4, 11, 1, 0, 4, 7, 11, 4, -1, -1, -1, -1],
    [4, 7, 8, 9, 0, 11, 9, 11, 10, 11, 0, 3, -1, -1, -1, -1],
    [4, 7, 11, 4, 11, 9, 9, 11, 10, -1, -1, -1, -1, -1, -1, -1],
];

/// Row `index` of this part. It is opaque, so that only a proof that asks for
/// it sees the rows' contents.
#[verifier::opaque]
pub open spec fn row(index: int) -> [i8; 16] {
    ROWS[index]
}

/// Row `index` of this part.
pub fn get_row(index: usize) -> (triangles: [i8; 16])
    requires
        index < 32,
    ensures
        triangles == row(index as int),
{
    reveal(row);
    ROWS[index]
}

/// Each row of this part is well formed and names only edges that are crossed
/// in its configuration.
pub proof fn lemma_rows(index: int)
    requires
        0 <= index < 32,
    ensures
        row_well_formed(row(index)),
        row_on_crossed_edges(index, row(index)),
{
    reveal(row);
}

/// Each triangle of the first sixteen rows faces the empty side of its
/// configuration: shown for one triangle after the other.
#[verifier::rlimit(100)]
proof fn lemma_first_rows_oriented(index: int)
    requires
        0 <= index < 16,
    ensures
        row_oriented(index, row(index)),
{
    reveal(row);
    reveal(chosen_end);
    reveal(outward_sum);
    reveal(end_normal_outward);
    if index == 1 {
        assert(faces_empty_side(1, 0, 8, 3));
    } else if index == 2 {
        assert(faces_empty_side(2, 0, 1, 9));
    } else if index == 3 {
        assert(faces_empty_side(3, 1, 8, 3));
        assert(faces_empty_side(3, 9, 8, 1));
    } else if index == 4 {
        assert(faces_empty_side(4, 1, 2, 10));
    } else if index == 5 {
        assert(faces_empty_side(5, 0, 8, 3));
        assert(faces_empty_side(5, 1, 2, 10));
    } else if index == 6 {
        assert(faces_empty_side(6, 9, 2, 10));
        assert(faces_empty_side(6, 0, 2, 9));
    } else if index == 7 {
        assert(faces_empty_side(7, 2, 8, 3));
        assert(faces_empty_side(7, 2, 10, 8));
        assert(faces_empty_side(7, 10, 9, 8));
    } else if index == 8 {
        assert(faces_empty_side(8, 3, 11, 2));
    } else if index == 9 {
        assert(faces_empty_side(9, 0, 11, 2));
        assert(faces_empty_side(9, 8, 11, 0));
    } else if index == 10 {
        assert(faces_empty_side(10, 1, 9, 0));
        assert(faces_empty_side(10, 2, 3, 11));
    } else if index == 11 {
        assert(faces_empty_side(11, 1, 11, 2));
        assert(faces_empty_side(11, 1, 9, 11));
        assert(faces_empty_side(11, 9, 8, 11));
    } else if index == 12 {
        assert(faces_empty_side(12, 3, 10, 1));
        assert(faces_empty_side(12, 11, 10, 3));
    } else if index == 13 {
        assert(faces_empty_side(13, 0, 10, 1));
        assert(faces_empty_side(13, 0, 8, 10));
        assert(faces_empty_side(13, 8, 11, 10));
    } else if index == 14 {
        assert(faces_empty_side(14, 3, 9, 0));
        assert(faces_empty_side(14, 3, 11, 9));
        assert(faces_empty_side(14, 11, 10, 9));
    } else if index == 15 {
        assert(faces_empty_side(15, 9, 8, 10));
        assert(faces_empty_side(15, 10, 8, 11));
    }
}

/// Each triangle of the last sixteen rows faces the empty side of its
/// configuration: shown for one triangle after the other.
#[verifier::rlimit(100)]
proof fn lemma_last_rows_oriented(index: int)
    requires
        16 <= index < 32,
    ensures
        row_oriented(index, row(index)),
{
    reveal(row);
    reveal(chosen_end);
    reveal(outward_sum);
    reveal(end_normal_outward);
    if index == 16 {
        assert(faces_empty_side(16, 4, 7, 8));
    } else if index == 17 {
        assert(faces_empty_side(17, 4, 3, 0));
        assert(faces_empty_side(17, 7, 3, 4));
    } else if index == 18 {
        assert(faces_empty_side(18, 0, 1, 9));
        assert(faces_empty_side(18, 8, 4, 7));
    } else if index == 19 {
        assert(faces_empty_side(19, 4, 1, 9));
        assert(faces_empty_side(19, 4, 7, 1));
        assert(faces_empty_side(19, 7, 3, 1));
    } else if index == 20 {
        assert(faces_empty_side(20, 1, 2, 10));
        assert(faces_empty_side(20, 8, 4, 7));
    } else if index == 21 {
        assert(faces_empty_side(21, 3, 4, 7));
        assert(faces_empty_side(21, 3, 0, 4));
        assert(faces_empty_side(21, 1, 2, 10));
    } else if index == 22 {
        assert(faces_empty_side(22, 9, 2, 10));
        assert(faces_empty_side(22, 9, 0, 2));
        assert(faces_empty_side(22, 8, 4, 7));
    } else if index == 23 {
        assert(faces_empty_side(23, 2, 10, 9));
        assert(faces_empty_side(23, 2, 9, 7));
        assert(faces_empty_side(23, 2, 7, 3));
        assert(faces_empty_side(23, 7, 9, 4));
    } else if index == 24 {
        assert(faces_empty_side(24, 8, 4, 7));
        assert(faces_empty_side(24, 3, 11, 2));
    } else if index == 25 {
        assert(faces_empty_side(25, 11, 4, 7));
        assert(faces_empty_side(25, 11, 2, 4));
        assert(faces_empty_side(25, 2, 0, 4));
    } else if index == 26 {
        assert(faces_empty_side(26, 9, 0, 1));
        assert(faces_empty_side(26, 8, 4, 7));
        assert(faces_empty_side(26, 2, 3, 11));
    } else if index == 27 {
        assert(faces_empty_side(27, 4, 7, 11));
        assert(faces_empty_side(27, 9, 4, 11));
        assert(faces_empty_side(27, 9, 11, 2));
        assert(faces_empty_side(27, 9, 2, 1));
    } else if index == 28 {
        assert(faces_empty_side(28, 3, 10, 1));
        assert(faces_empty_side(28, 3, 11, 10));
        assert(faces_empty_side(28, 7, 8, 4));
    } else if index == 29 {
        assert(faces_empty_side(29, 1, 11, 10));
        assert(faces_empty_side(29, 1, 4, 11));
        assert(faces_empty_side(29, 1, 0, 4));
        assert(faces_empty_side(29, 7, 11, 4));
    } else if index == 30 {
        assert(faces_empty_side(30, 4, 7, 8));
        assert(faces_empty_side(30, 9, 0, 11));
        assert(faces_empty_side(30, 9, 11, 10));
        assert(faces_empty_side(30, 11, 0, 3));
    } else if index == 31 {
        assert(faces_empty_side(31, 4, 7, 11));
        assert(faces_empty_side(31, 4, 11, 9));
        assert(faces_empty_side(31, 9, 11, 10));
    }
}

/// Each triangle of this part faces the empty side of its configuration.
pub proof fn lemma_rows_oriented(index: int)
    requires
        0 <= index < 32,
    ensures
        row_oriented(index, row(index)),
{
    if index < 16 {
        lemma_first_rows_oriented(index);
    } else {
        lemma_last_rows_oriented(index);
    }
}

/// With no corner solid there is no triangle.
pub proof fn lemma_first_row_empty()
    ensures
        forall|slot: int| 0 <= slot < 16 ==> #[trigger] row_entry(row(0), slot) == -1,
{
    reveal(row);
}

/// The row of the configuration with the four bottom corners solid, and no
/// others: two triangles that span the cell.
pub proof fn lemma_row_15()
    ensures
        row_entry(row(15), 0) == 9,
        row_entry(row(15), 1) == 8,
        row_entry(row(15), 2) == 10,
        row_entry(row(15), 3) == 10,
        row_entry(row(15), 4) == 8,
        row_entry(row(15), 5) == 11,
        row_entry(row(15), 6) == -1,
{
    reveal(row);
}

} // verus!
