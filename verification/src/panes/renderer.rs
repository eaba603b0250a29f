use vstd::prelude::*;

verus! {

/// Number of petal cells in one row of the atlas.
pub const ATLAS_ROW_LEN: u32 = 10;

/// The number of atlas rows needed for `count` cells: `count / 10` rounded up.
pub open spec fn atlas_rows(count: nat) -> nat {
    ((count + 9) / 10) as nat
}

/// Whether `offset` is where cell `k` sits in an atlas of `cell`-sized cells, ten to a
/// row: column `k % 10` of row `k / 10`.
pub open spec fn is_cell_offset(offset: (u32, u32), k: int, cell: (u32, u32)) -> bool {
    &&& offset.0 == (k % 10) * cell.0
    &&& offset.1 == (k / 10) * cell.1
}

/// Where every petal texture goes in the atlas, and how large the atlas is.
pub struct AtlasLayout {
    pub size: (u32, u32),
    pub offsets: Vec<(u32, u32)>,
}

/// Lays out `count` cells of size `cell` row by row, ten to a row: the atlas is ten
/// cells wide and as many rows high as needed, and cell `k` sits in column `k % 10`
/// of row `k / 10`.
pub fn atlas_layout(count: u32, cell: (u32, u32)) -> (layout: AtlasLayout)
    requires
        10 * cell.0 <= u32::MAX,
        atlas_rows(count as nat) * cell.1 <= u32::MAX,
    ensures
        layout.size.0 == 10 * cell.0,
        layout.size.1 == atlas_rows(count as nat) * cell.1,
        layout.offsets@.len() == count,
        forall|k: int|
            0 <= k < count ==> is_cell_offset(#[trigger] layout.offsets@[k], k, cell),
        forall|k: int|
            0 <= k < count ==> (#[trigger] layout.offsets@[k]).0 + cell.0 <= layout.size.0
                && layout.offsets@[k].1 + cell.1 <= layout.size.1,
{
    let rows = count / ATLAS_ROW_LEN + if count % ATLAS_ROW_LEN == 0 { 0 } else { 1 };
    assert(rows == atlas_rows(count as nat));
    let mut offsets: Vec<(u32, u32)> = Vec::new();
    let mut k: u32 = 0;
    while k < count
        invariant
            k <= count,
            rows == atlas_rows(count as nat),
            10 * cell.0 <= u32::MAX,
            rows * cell.1 <= u32::MAX,
            offsets@.len() == k,
            forall|j: int|
                0 <= j < k ==> is_cell_offset(#[trigger] offsets@[j], j, cell),
        decreases count - k,
    {
        let r = k / ATLAS_ROW_LEN;
        let c = k % ATLAS_ROW_LEN;
        assert(c * cell.0 <= 10 * cell.0) by (nonlinear_arith)
            requires
                c < 10,
        ;
        assert(r * cell.1 <= rows * cell.1) by (nonlinear_arith)
            requires
                r < rows,
        ;
        offsets.push((c * cell.0, r * cell.1));
        k = k + 1;
    }
    let layout = AtlasLayout { size: (ATLAS_ROW_LEN * cell.0, rows * cell.1), offsets };
    assert forall|j: int| 0 <= j < count implies (#[trigger] layout.offsets@[j]).0 + cell.0
        <= layout.size.0 && layout.offsets@[j].1 + cell.1 <= layout.size.1 by {
        let c = j % 10;
        let r = j / 10;
        assert(c * cell.0 + cell.0 <= 10 * cell.0) by (nonlinear_arith)
            requires
                0 <= c < 10,
        ;
        assert(r * cell.1 + cell.1 <= rows * cell.1) by (nonlinear_arith)
            requires
                0 <= r,
                r + 1 <= rows,
        ;
    }
    layout
}


/// Cells of the atlas never overlap: the cells of two different indices are apart
/// horizontally or vertically by at least a cell.
pub proof fn law_cells_disjoint(j: int, k: int, a: (u32, u32), b: (u32, u32), cell: (u32, u32))
    requires
        0 <= j,
        0 <= k,
        j != k,
        is_cell_offset(a, j, cell),
        is_cell_offset(b, k, cell),
    ensures
        a.0 + cell.0 <= b.0 || b.0 + cell.0 <= a.0 || a.1 + cell.1 <= b.1 || b.1 + cell.1 <= a.1,
{
    let (cj, rj, ck, rk) = (j % 10, j / 10, k % 10, k / 10);
    assert(j == rj * 10 + cj && k == rk * 10 + ck && 0 <= cj < 10 && 0 <= ck < 10);
    if cj != ck {
        if cj < ck {
            assert(cj * cell.0 + cell.0 <= ck * cell.0) by (nonlinear_arith)
                requires
                    cj + 1 <= ck,
            ;
        } else {
            assert(ck * cell.0 + cell.0 <= cj * cell.0) by (nonlinear_arith)
                requires
                    ck + 1 <= cj,
            ;
        }
    } else {
        assert(rj != rk);
        if rj < rk {
            assert(rj * cell.1 + cell.1 <= rk * cell.1) by (nonlinear_arith)
                requires
                    rj + 1 <= rk,
            ;
        } else {
            assert(rk * cell.1 + cell.1 <= rj * cell.1) by (nonlinear_arith)
                requires
                    rk + 1 <= rj,
            ;
        }
    }
}

} // verus!
