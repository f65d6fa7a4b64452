use crate::edge_midpoints::{
    chosen_end, end_normal_outward, faces_empty_side, outward_sum,
};
use crate::triangulation_table::{
    row_on_crossed_edges, row_oriented, row_well_formed,
};
use vstd::prelude::*;

verus! {

/// The rows of the configurations `160` to `191`.
pub const ROWS: [[i8; 16]; 32] = [
    [4, 9, 5, 7, 6, 11, -1, -1, -1, -1, -1, -1, -1, -1, -1, -1],
    [0, 8, 3, 4, 9, 5, 11, 7, 6, -1, -1, -1, -1, -1, -1, -1],
    [5, 0, 1, 5, 4, 0, 7, 6, 11, -1, -1, -1, -1, -1, -1, -1],
    [11, 7, 6, 8, 3, 4, 3, 5, 4, 3, 1, 5, -1, -1, -1, -1],
    [9, 5, 4, 10, 1, 2, 7, 6, 11, -1, -1, -1, -1, -1, -1, -1],
    [6, 11, 7, 1, 2, 10, 0, 8, 3, 4, 9, 5, -1, -1, -1, -1],
    [7, 6, 11, 5, 4, 10, 4, 2, 10, 4, 0, 2, -1, -1, -1, -1],
    [3, 4, 8, 3, 5, 4, 3, 2, 5, 10, 5, 2, 11, 7, 6, -1],
    [7, 2, 3, 7, 6, 2, 5, 4, 9, -1, -1, -1, -1, -1, -1, -1],
    [9, 5, 4, 0, 8, 6, 0, 6, 2, 6, 8, 7, -1, -1, -1, -1],
    [3, 6, 2, 3, 7, 6, 1, 5, 0, 5, 4, 0, -1, -1, -1, -1],
    [6, 2, 8, 6, 8, 7, 2, 1, 8, 4, 8, 5, 1, 5, 8, -1],
    [9, 5, 4, 10, 1, 6, 1, 7, 6, 1, 3, 7, -1, -1, -1, -1],
    [1, 6, 10, 1, 7, 6, 1, 0, 7, 8, 7, 0, 9, 5, 4, -1],
    [4, 0, 10, 4, 10, 5, 0, 3, 10, 6, 10, 7, 3, 7, 10, -1],
    [7, 6, 10, 7, 10, 8, 5, 4, 10, 4, 8, 10, -1, -1, -1, -1],
    [6, 9, 5, 6, 11, 9, 11, 8, 9, -1, -1, -1, -1, -1, -1, -1],
    [3, 6, 11, 0, 6, 3, 0, 5, 6, 0, 9, 5, -1, -1, -1, -1],
    [0, 11, 8, 0, 5, 11, 0, 1, 5, 5, 6, 11, -1, -1, -1, -1],
    [6, 11, 3, 6, 3, 5, 5, 3, 1, -1, -1, -1, -1, -1, -1, -1],
    [1, 2, 10, 9, 5, 11, 9, 11, 8, 11, 5, 6, -1, -1, -1, -1],
    [0, 11, 3, 0, 6, 11, 0, 9, 6, 5, 6, 9, 1, 2, 10, -1],
    [11, 8, 5, 11, 5, 6, 8, 0, 5, 10, 5, 2, 0, 2, 5, -1],
    [6, 11, 3, 6, 3, 5, 2, 10, 3, 10, 5, 3, -1, -1, -1, -1],
    [5, 8, 9, 5, 2, 8, 5, 6, 2, 3, 8, 2, -1, -1, -1, -1],
    [9, 5, 6, 9, 6, 0, 0, 6, 2, -1, -1, -1, -1, -1, -1, -1],
    [1, 5, 8, 1, 8, 0, 5, 6, 8, 3, 8, 2, 6, 2, 8, -1],
    [1, 5, 6, 2, 1, 6, -1, -1, -1, -1, -1, -1, -1, -1, -1, -1],
    [1, 3, 6, 1, 6, 10, 3, 8, 6, 5, 6, 9, 8, 9, 6, -1],
    [10, 1, 0, 10, 0, 6, 9, 5, 0, 5, 6, 0, -1, -1, -1, -1],
    [0, 3, 8, 5, 6, 10, -1, -1, -1, -1, -1, -1, -1, -1, -1, -1],
    [10, 5, 6, -1, -1, -1, -1, -1, -1, -1, -1, -1, -1, -1, -1, -1],
];

/// Row `index` of this part. It is opaque, so that only a proof that asks for
/// it sees the rows' contents.
#[verifier::opaque]
pub open spec fn row(index: int) -> [i8; 16] {
    ROWS[index]
}

/// Row `index` of this part.
pub fn get_row(index: usize) -> (triangles: [i8; 16])
    requires
        index < 32,
    ensures
        triangles == row(index as int),
{
    reveal(row);
    ROWS[index]
}

/// Each row of this part is well formed and names only edges that are crossed
/// in its configuration.
pub proof fn lemma_rows(index: int)
    requires
        0 <= index < 32,
    ensures
        row_well_formed(row(index)),
        row_on_crossed_edges(160 + index, row(index)),
{
    reveal(row);
}

/// Each triangle of the first sixteen rows faces the empty side of its
/// configuration: shown for one triangle after the other.
#[verifier::rlimit(100)]
proof fn lemma_first_rows_oriented(index: int)
    requires
        0 <= index < 16,
    ensures
        row_oriented(160 + index, row(index)),
{
    reveal(row);
    reveal(chosen_end);
    reveal(outward_sum);
    reveal(end_normal_outward);
    if index == 0 {
        assert(faces_empty_side(160, 4, 9, 5));
        assert(faces_empty_side(160, 7, 6, 11));
    } else if index == 1 {
        assert(faces_empty_side(161, 0, 8, 3));
        assert(faces_empty_side(161, 4, 9, 5));
        assert(faces_empty_side(161, 11, 7, 6));
    } else if index == 2 {
        assert(faces_empty_side(162, 5, 0, 1));
        assert(faces_empty_side(162, 5, 4, 0));
        assert(faces_empty_side(162, 7, 6, 11));
    } else if index == 3 {
        assert(faces_empty_side(163, 11, 7, 6));
        assert(faces_empty_side(163, 8, 3, 4));
        assert(faces_empty_side(163, 3, 5, 4));
        assert(faces_empty_side(163, 3, 1, 5));
    } else if index == 4 {
        assert(faces_empty_side(164, 9, 5, 4));
        assert(faces_empty_side(164, 10, 1, 2));
        assert(faces_empty_side(164, 7, 6, 11));
    } else if index == 5 {
        assert(faces_empty_side(165, 6, 11, 7));
        assert(faces_empty_side(165, 1, 2, 10));
        assert(faces_empty_side(165, 0, 8, 3));
        assert(faces_empty_side(165, 4, 9, 5));
    } else if index == 6 {
        assert(faces_empty_side(166, 7, 6, 11));
        assert(faces_empty_side(166, 5, 4, 10));
        assert(faces_empty_side(166, 4, 2, 10));
        assert(faces_empty_side(166, 4, 0, 2));
    } else if index == 7 {
        assert(faces_empty_side(167, 3, 4, 8));
        assert(faces_empty_side(167, 3, 5, 4));
        assert(faces_empty_side(167, 3, 2, 5));
        assert(faces_empty_side(167, 10, 5, 2));
        assert(faces_empty_side(167, 11, 7, 6));
    } else if index == 8 {
        assert(faces_empty_side(168, 7, 2, 3));
        assert(faces_empty_side(168, 7, 6, 2));
        assert(faces_empty_side(168, 5, 4, 9));
    } else if index == 9 {
        assert(faces_empty_side(169, 9, 5, 4));
        assert(faces_empty_side(169, 0, 8, 6));
        assert(faces_empty_side(169, 0, 6, 2));
        assert(faces_empty_side(169, 6, 8, 7));
    } else if index == 10 {
        assert(faces_empty_side(170, 3, 6, 2));
        assert(faces_empty_side(170, 3, 7, 6));
        assert(faces_empty_side(170, 1, 5, 0));
        assert(faces_empty_side(170, 5, 4, 0));
    } else if index == 11 {
        assert(faces_empty_side(171, 6, 2, 8));
        assert(faces_empty_side(171, 6, 8, 7));
        assert(faces_empty_side(171, 2, 1, 8));
        assert(faces_empty_side(171, 4, 8, 5));
        assert(faces_empty_side(171, 1, 5, 8));
    } else if index == 12 {
        assert(faces_empty_side(172, 9, 5, 4));
        assert(faces_empty_side(172, 10, 1, 6));
        assert(faces_empty_side(172, 1, 7, 6));
        assert(faces_empty_side(172, 1, 3, 7));
    } else if index == 13 {
        assert(faces_empty_side(173, 1, 6, 10));
        assert(faces_empty_side(173, 1, 7, 6));
        assert(faces_empty_side(173, 1, 0, 7));
        assert(faces_empty_side(173, 8, 7, 0));
        assert(faces_empty_side(173, 9, 5, 4));
    } else if index == 14 {
        assert(faces_empty_side(174, 4, 0, 10));
        assert(faces_empty_side(174, 4, 10, 5));
        assert(faces_empty_side(174, 0, 3, 10));
        assert(faces_empty_side(174, 6, 10, 7));
        assert(faces_empty_side(174, 3, 7, 10));
    } else if index == 15 {
        assert(faces_empty_side(175, 7, 6, 10));
        assert(faces_empty_side(175, 7, 10, 8));
        assert(faces_empty_side(175, 5, 4, 10));
        assert(faces_empty_side(175, 4, 8, 10));
    }
}

/// Each triangle of the last sixteen rows faces the empty side of its
/// configuration: shown for one triangle after the other.
#[verifier::rlimit(100)]
proof fn lemma_last_rows_oriented(index: int)
    requires
        16 <= index < 32,
    ensures
        row_oriented(160 + index, row(index)),
{
    reveal(row);
    reveal(chosen_end);
    reveal(outward_sum);
    reveal(end_normal_outward);
    if index == 16 {
        assert(faces_empty_side(176, 6, 9, 5));
        assert(faces_empty_side(176, 6, 11, 9));
        assert(faces_empty_side(176, 11, 8, 9));
    } else if index == 17 {
        assert(faces_empty_side(177, 3, 6, 11));
        assert(faces_empty_side(177, 0, 6, 3));
        assert(faces_empty_side(177, 0, 5, 6));
        assert(faces_empty_side(177, 0, 9, 5));
    } else if index == 18 {
        assert(faces_empty_side(178, 0, 11, 8));
        assert(faces_empty_side(178, 0, 5, 11));
        assert(faces_empty_side(178, 0, 1, 5));
        assert(faces_empty_side(178, 5, 6, 11));
    } else if index == 19 {
        assert(faces_empty_side(179, 6, 11, 3));
        assert(faces_empty_side(179, 6, 3, 5));
        assert(faces_empty_side(179, 5, 3, 1));
    } else if index == 20 {
        assert(faces_empty_side(180, 1, 2, 10));
        assert(faces_empty_side(180, 9, 5, 11));
        assert(faces_empty_side(180, 9, 11, 8));
        assert(faces_empty_side(180, 11, 5, 6));
    } else if index == 21 {
        assert(faces_empty_side(181, 0, 11, 3));
        assert(faces_empty_side(181, 0, 6, 11));
        assert(faces_empty_side(181, 0, 9, 6));
        assert(faces_empty_side(181, 5, 6, 9));
        assert(faces_empty_side(181, 1, 2, 10));
    } else if index == 22 {
        assert(faces_empty_side(182, 11, 8, 5));
        assert(faces_empty_side(182, 11, 5, 6));
        assert(faces_empty_side(182, 8, 0, 5));
        assert(faces_empty_side(182, 10, 5, 2));
        assert(faces_empty_side(182, 0, 2, 5));
    } else if index == 23 {
        assert(faces_empty_side(183, 6, 11, 3));
        assert(faces_empty_side(183, 6, 3, 5));
        assert(faces_empty_side(183, 2, 10, 3));
        assert(faces_empty_side(183, 10, 5, 3));
    } else if index == 24 {
        assert(faces_empty_side(184, 5, 8, 9));
        assert(faces_empty_side(184, 5, 2, 8));
        assert(faces_empty_side(184, 5, 6, 2));
        assert(faces_empty_side(184, 3, 8, 2));
    } else if index == 25 {
        assert(faces_empty_side(185, 9, 5, 6));
        assert(faces_empty_side(185, 9, 6, 0));
        assert(faces_empty_side(185, 0, 6, 2));
    } else if index == 26 {
        assert(faces_empty_side(186, 1, 5, 8));
        assert(faces_empty_side(186, 1, 8, 0));
        assert(faces_empty_side(186, 5, 6, 8));
        assert(faces_empty_side(186, 3, 8, 2));
        assert(faces_empty_side(186, 6, 2, 8));
    } else if index == 27 {
        assert(faces_empty_side(187, 1, 5, 6));
        assert(faces_empty_side(187, 2, 1, 6));
    } else if index == 28 {
        assert(faces_empty_side(188, 1, 3, 6));
        assert(faces_empty_side(188, 1, 6, 10));
        assert(faces_empty_side(188, 3, 8, 6));
        assert(faces_empty_side(188, 5, 6, 9));
        assert(faces_empty_side(188, 8, 9, 6));
    } else if index == 29 {
        assert(faces_empty_side(189, 10, 1, 0));
        assert(faces_empty_side(189, 10, 0, 6));
        assert(faces_empty_side(189, 9, 5, 0));
        assert(faces_empty_side(189, 5, 6, 0));
    } else if index == 30 {
        assert(faces_empty_side(190, 0, 3, 8));
        assert(faces_empty_side(190, 5, 6, 10));
    } else if index == 31 {
        assert(faces_empty_side(191, 10, 5, 6));
    }
}

/// Each triangle of this part faces the empty side of its configuration.
pub proof fn lemma_rows_oriented(index: int)
    requires
        0 <= index < 32,
    ensures
        row_oriented(160 + index, row(index)),
{
    if index < 16 {
        lemma_first_rows_oriented(index);
    } else {
        lemma_last_rows_oriented(index);
    }
}

} // verus!
