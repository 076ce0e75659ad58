use vstd::prelude::*;

verus! {

/// Number of bytes that one `Index` occupies in a GPU storage buffer.
pub const INDEX_BYTES: u64 = 4;

/// A single `u32` counter that the compute shaders use as a work index.
pub struct Index {
    pub index: u32,
}

impl Default for Index {
    /// The counter starts at zero.
    fn default() -> (r: Self)
        ensures
            r.index == 0,
    {
        Index { index: 0 }
    }
}

/// The falling block: a 4x4 shape mask stored row by row, its position on the grid
/// and its colour.
pub struct Block {
    pub shape: [i32; 16],
    pub position: [i32; 2],
    pub color: i32,
}

/// The shape of a fresh block: a horizontal bar of four cells in its second row.
pub open spec fn default_block_shape() -> Seq<i32> {
    seq![0i32, 0, 0, 0, 1, 1, 1, 1, 0, 0, 0, 0, 0, 0, 0, 0]
}

impl Default for Block {
    /// A horizontal bar of four at position (200, 30), colour 1.
    fn default() -> (b: Self)
        ensures
            b.shape@ == default_block_shape(),
            b.position@ == seq![200i32, 30],
            b.color == 1,
    {
        let b = Block {
            shape: [0, 0, 0, 0, 1, 1, 1, 1, 0, 0, 0, 0, 0, 0, 0, 0],
            position: [200, 30],
            color: 1,
        };
        assert(b.shape@ =~= default_block_shape());
        assert(b.position@ =~= seq![200i32, 30]);
        b
    }
}

/// The integer part of the per-tick parameters that the shaders read: whether the
/// block touched down and the horizontal steering to apply.
pub struct TouchParams {
    pub is_touch: i32,
    pub pos: i32,
}

} // verus!
