//! Automap cells: where a new cell is placed in the client's chain of cell
//! blocks.
use vstd::prelude::*;

verus! {

/// Where a new automap cell goes: block `block` of the chain (a new block
/// appended to the chain when `new_block`), element `index` of the block.
#[derive(Clone, Copy, PartialEq, Eq, Structural)]
pub struct CellPlacement {
    pub block: usize,
    pub index: usize,
    pub new_block: bool,
}

/// Places the next automap cell. `cell_count` cells were placed so far,
/// each block holds `elements_per_block` cells and the chain holds `blocks`
/// blocks. The cell goes to element `count % elements_per_block` of block
/// `count / elements_per_block`; when the chain is shorter than that, a
/// new block is appended to it and the cell goes there. The count grows
/// by one. When the chain holds room for the cells placed so far, the cell
/// goes exactly to block `count / elements_per_block`, a block is appended
/// exactly when the chain is that long, and the chain then holds room for
/// the new count.
pub fn new_automap_cell(cell_count: &mut usize, elements_per_block: usize, blocks: usize) -> (r: CellPlacement)
    requires
        elements_per_block > 0,
        *old(cell_count) < usize::MAX,
        blocks >= 1 || *old(cell_count) < elements_per_block,
    ensures
        *final(cell_count) == *old(cell_count) + 1,
        r.index == *old(cell_count) % elements_per_block,
        r.new_block == (blocks <= *old(cell_count) / elements_per_block),
        r.block == (if blocks <= *old(cell_count) / elements_per_block {
            blocks
        } else {
            *old(cell_count) / elements_per_block
        }),
        r.block <= blocks,
        *old(cell_count) <= elements_per_block * blocks ==> {
            &&& r.block == *old(cell_count) / elements_per_block
            &&& r.new_block == (blocks == *old(cell_count) / elements_per_block)
            &&& *old(cell_count) + 1 <= elements_per_block * (blocks + if r.new_block {
                1int
            } else {
                0int
            })
        },
{
    proof {
        let c = *old(cell_count) as int;
        let n = elements_per_block as int;
        let l = blocks as int;
        assert(c == n * (c / n) + c % n && 0 <= c % n < n) by (nonlinear_arith)
            requires n > 0;
        if c <= n * l {
            assert(c / n <= l) by (nonlinear_arith)
                requires c <= n * l, n > 0, c == n * (c / n) + c % n, 0 <= c % n;
            if c / n < l {
                assert(c + 1 <= n * l) by (nonlinear_arith)
                    requires c / n + 1 <= l, n > 0, c == n * (c / n) + c % n, c % n < n;
            } else {
                assert(c + 1 <= n * (l + 1)) by (nonlinear_arith)
                    requires c / n == l, n > 0, c == n * (c / n) + c % n, c % n < n;
            }
        }
    }
    let block_count = *cell_count / elements_per_block;
    let block_index = *cell_count % elements_per_block;
    *cell_count = *cell_count + 1;
    if blocks <= block_count {
        CellPlacement { block: blocks, index: block_index, new_block: true }
    } else {
        CellPlacement { block: block_count, index: block_index, new_block: false }
    }
}

} // verus!
