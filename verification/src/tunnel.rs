use vstd::prelude::*;

verus! {

/// Terminal dimensions, fixed for the lifetime of one run.
#[derive(Clone, Copy)]
pub struct MapSize {
    pub max_width: u16,
    pub max_height: u16,
}

impl MapSize {
    /// The smallest geometry on which every margin, row and spawn
    /// construction of the tunnel is defined: the widest margin (16) must fit
    /// on both sides of the center column, and there must be a top row and a
    /// distinct bottom row.
    pub open spec fn wf(self) -> bool {
        self.max_width >= 32 && self.max_height >= 2
    }

    /// The center column, from which generated rows spread out.
    pub open spec fn center(self) -> int {
        self.max_width as int / 2
    }
}

/// The scrolling tunnel: one `(left_wall, right_wall)` pair of column bounds
/// per terminal row (index 0 is the topmost row), the oscillating expansion
/// scalar that drives the tunnel's breathing, and the fill glyph the walls
/// are drawn with.
pub struct Tunnel {
    pub dimension: MapSize,
    pub area: Vec<(u16, u16)>,
    pub glyph: char,
    pub expanded: i16,
}

/// A row's walls are ordered and lie within the screen.
pub open spec fn row_wf(row: (u16, u16), dim: MapSize) -> bool {
    row.0 <= row.1 && row.1 <= dim.max_width
}

impl Tunnel {
    pub open spec fn wf(self) -> bool {
        &&& self.dimension.wf()
        &&& self.area@.len() == self.dimension.max_height as int
        &&& forall|i: int|
            0 <= i < self.area@.len() ==> row_wf(#[trigger] self.area@[i], self.dimension)
        &&& -1000 <= self.expanded <= 1000
    }
}

/// The tunnel half-width chosen from the expansion scalar's sign: wide
/// (16 columns each side of center) when the scalar is non-negative, narrow
/// (8 columns) when it is negative.
pub open spec fn margin_of(expanded: int) -> int {
    if expanded >= 0 {
        16
    } else {
        8
    }
}

/// One advance of the expansion scalar: add 10, then wrap any value above
/// 1000 back into the interval by the modulus 2010.
pub open spec fn next_expansion(e: int) -> int {
    if e + 10 > 1000 {
        -1000 + (e + 10 - 1000) % 2010
    } else {
        e + 10
    }
}

/// Law: the expansion scalar never leaves its wrapped interval.
pub proof fn lemma_expansion_stays_wrapped(e: int)
    requires
        -1000 <= e <= 1000,
    ensures
        -1000 <= next_expansion(e) <= 1000,
{
}

/// The wall bounds of a freshly generated row under expansion scalar `e`:
/// centered, with the margin chosen by `margin_of`.
pub open spec fn generated_row(dim: MapSize, e: int) -> (u16, u16) {
    ((dim.center() - margin_of(e)) as u16, (dim.center() + margin_of(e)) as u16)
}

/// Law: a generated row is centered, with margin 8 for a negative expansion
/// scalar and margin 16 for a non-negative one.
pub proof fn lemma_margin_selection(dim: MapSize, e: int)
    ensures
        e < 0 ==> generated_row(dim, e) == ((
            (dim.center() - 8) as u16,
            (dim.center() + 8) as u16,
        )),
        e >= 0 ==> generated_row(dim, e) == ((
            (dim.center() - 16) as u16,
            (dim.center() + 16) as u16,
        )),
{
}

/// The rows after one scroll: the fresh row on top, every former row one
/// index further down, the former bottom row discarded.
pub open spec fn shifted_rows(rows: Seq<(u16, u16)>, new_row: (u16, u16)) -> Seq<(u16, u16)> {
    seq![new_row] + rows.drop_last()
}

/// Law: a scroll keeps the number of rows, places the fresh row at index 0,
/// and moves each former row `i` below the last to index `i + 1`.
pub proof fn lemma_shift_preserves_length(rows: Seq<(u16, u16)>, new_row: (u16, u16))
    requires
        rows.len() > 0,
    ensures
        shifted_rows(rows, new_row).len() == rows.len(),
        shifted_rows(rows, new_row)[0] == new_row,
        forall|i: int| 0 <= i < rows.len() - 1 ==> shifted_rows(rows, new_row)[i + 1] == rows[i],
{
}

/// How one mutation tick transforms the tunnel: the scalar advances with
/// wraparound, and the row generated for the advanced scalar is scrolled in
/// on top.
pub open spec fn map_shifted(before: Tunnel, after: Tunnel) -> bool {
    &&& after.dimension == before.dimension
    &&& after.glyph == before.glyph
    &&& after.expanded as int == next_expansion(before.expanded as int)
    &&& after.area@ == shifted_rows(
        before.area@,
        generated_row(before.dimension, next_expansion(before.expanded as int)),
    )
}

} // verus!
