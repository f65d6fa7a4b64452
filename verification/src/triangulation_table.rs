use crate::edge_midpoints::{edge_crossed, faces_empty_side};
use vstd::prelude::*;

pub mod part_0;
pub mod part_1;
pub mod part_2;
pub mod part_3;
pub mod part_4;
pub mod part_5;
pub mod part_6;
pub mod part_7;

verus! {

// The triangulation table gives the surface inside a cell for each of the 256
// ways its corners can be solid or empty. Bit `b` of a configuration is set
// exactly when the corner with number `b` is solid. The row of a configuration
// holds edge numbers in runs of three, one run per triangle, and `-1` from the
// end of the last run to the end of the row. The winding of each run makes the
// triangle's normal point to the empty side: see `lemma_rows_oriented`.
//
// The table is kept in eight parts of 32 rows, each in a module of its own, so
// that a proof about one row looks at one part only: `part_p` holds the rows
// of the configurations `32 * p` to `32 * p + 31`.

/// Slots in one row of the table: room for five triangles and a terminator.
pub const TRIANGLES_ROW_LEN: usize = 16;

/// The row of the table that belongs to configuration `config`.
pub open spec fn triangulation_row(config: int) -> [i8; 16] {
    let index = config % 32;
    if config < 32 {
        part_0::row(index)
    } else if config < 64 {
        part_1::row(index)
    } else if config < 96 {
        part_2::row(index)
    } else if config < 128 {
        part_3::row(index)
    } else if config < 160 {
        part_4::row(index)
    } else if config < 192 {
        part_5::row(index)
    } else if config < 224 {
        part_6::row(index)
    } else {
        part_7::row(index)
    }
}

/// Slot `slot` of a row.
pub open spec fn row_entry(row: [i8; 16], slot: int) -> int {
    row[slot] as int
}

/// Slot `slot` of the row of configuration `config`.
pub open spec fn table_entry(config: int, slot: int) -> int {
    row_entry(triangulation_row(config), slot)
}

/// The number of triangles in a row: the runs of three before the first `-1`.
pub open spec fn triangle_count(row: [i8; 16]) -> int {
    if row_entry(row, 0) == -1 {
        0
    } else if row_entry(row, 3) == -1 {
        1
    } else if row_entry(row, 6) == -1 {
        2
    } else if row_entry(row, 9) == -1 {
        3
    } else if row_entry(row, 12) == -1 {
        4
    } else {
        5
    }
}

/// A row is well formed when it holds a whole number of triangles, each over
/// edge numbers `0..12`, and then `-1` up to and including the last slot.
pub open spec fn row_well_formed(row: [i8; 16]) -> bool {
    let used = 3 * triangle_count(row);
    &&& forall|i: int| 0 <= i < used ==> 0 <= #[trigger] row_entry(row, i) < 12
    &&& forall|i: int| used <= i < 16 ==> #[trigger] row_entry(row, i) == -1
}

/// Every edge that a row names is crossed in the configuration `config`.
pub open spec fn row_on_crossed_edges(config: int, row: [i8; 16]) -> bool {
    forall|i: int|
        0 <= i < 16 && #[trigger] row_entry(row, i) != -1 ==> edge_crossed(
            config,
            row_entry(row, i),
        )
}

/// Triangle number `triangle` of a row faces the empty side of the
/// configuration `config`.
pub open spec fn row_triangle_faces_empty(config: int, row: [i8; 16], triangle: int) -> bool {
    faces_empty_side(
        config,
        row_entry(row, 3 * triangle),
        row_entry(row, 3 * triangle + 1),
        row_entry(row, 3 * triangle + 2),
    )
}

/// Every triangle of a row faces the empty side of the configuration `config`.
pub open spec fn row_oriented(config: int, row: [i8; 16]) -> bool {
    forall|triangle: int|
        0 <= triangle < triangle_count(row) ==> #[trigger] row_triangle_faces_empty(
            config,
            row,
            triangle,
        )
}

/// The row of the table for a cube configuration: a whole number of
/// triangles over the edges that are crossed in the configuration, then `-1`
/// to the end of the row.
pub fn triangles_of_configuration(config: u8) -> (triangles: [i8; 16])
    ensures
        triangles == triangulation_row(config as int),
        row_well_formed(triangles),
        row_on_crossed_edges(config as int, triangles),
{
    proof {
        lemma_rows_well_formed(config as int);
    }
    let index: usize = (config % 32) as usize;
    if config < 32 {
        part_0::get_row(index)
    } else if config < 64 {
        part_1::get_row(index)
    } else if config < 96 {
        part_2::get_row(index)
    } else if config < 128 {
        part_3::get_row(index)
    } else if config < 160 {
        part_4::get_row(index)
    } else if config < 192 {
        part_5::get_row(index)
    } else if config < 224 {
        part_6::get_row(index)
    } else {
        part_7::get_row(index)
    }
}

/// Every row of the table is well formed: a whole number of triangles over
/// edge numbers `0..12`, then `-1` to the end. And it names crossed edges only.
pub proof fn lemma_rows_well_formed(config: int)
    requires
        0 <= config < 256,
    ensures
        row_well_formed(triangulation_row(config)),
        row_on_crossed_edges(config, triangulation_row(config)),
{
    let index = config % 32;
    assert(config == 32 * (config / 32) + index);
    if config < 32 {
        part_0::lemma_rows(index);
    } else if config < 64 {
        part_1::lemma_rows(index);
    } else if config < 96 {
        part_2::lemma_rows(index);
    } else if config < 128 {
        part_3::lemma_rows(index);
    } else if config < 160 {
        part_4::lemma_rows(index);
    } else if config < 192 {
        part_5::lemma_rows(index);
    } else if config < 224 {
        part_6::lemma_rows(index);
    } else {
        part_7::lemma_rows(index);
    }
}

/// The winding of the table: every triangle of every row faces the empty side
/// of its configuration, in the sense of `faces_empty_side`.
pub proof fn lemma_rows_oriented(config: int)
    requires
        0 <= config < 256,
    ensures
        row_oriented(config, triangulation_row(config)),
{
    let index = config % 32;
    assert(config == 32 * (config / 32) + index);
    if config < 32 {
        part_0::lemma_rows_oriented(index);
    } else if config < 64 {
        part_1::lemma_rows_oriented(index);
    } else if config < 96 {
        part_2::lemma_rows_oriented(index);
    } else if config < 128 {
        part_3::lemma_rows_oriented(index);
    } else if config < 160 {
        part_4::lemma_rows_oriented(index);
    } else if config < 192 {
        part_5::lemma_rows_oriented(index);
    } else if config < 224 {
        part_6::lemma_rows_oriented(index);
    } else {
        part_7::lemma_rows_oriented(index);
    }
}

/// With no corner solid, and with all eight solid, there is no triangle.
pub proof fn lemma_uniform_rows_empty()
    ensures
        forall|slot: int| 0 <= slot < 16 ==> #[trigger] table_entry(0, slot) == -1,
        forall|slot: int| 0 <= slot < 16 ==> #[trigger] table_entry(255, slot) == -1,
{
    part_0::lemma_first_row_empty();
    part_7::lemma_last_row_empty();
}

} // verus!
