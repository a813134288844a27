//! Layout of the uniform block that the shaders read: 4x4 matrices one after
//! another, each stored column by column, the rest of the block filled.

use vstd::prelude::*;

verus! {

/// Number of scalars that one 4x4 matrix takes in the block.
pub const MATRIX_LEN: usize = 16;

/// Entry `(column, row)` of the `k`-th matrix.
pub open spec fn matrix_entry<T>(matrices: Seq<[[T; 4]; 4]>, k: int, column: int, row: int) -> T {
    matrices[k]@[column]@[row]
}

/// Lays `matrices` out in a block of `capacity` scalars: entry `(column, row)`
/// of matrix `k` goes to position `16 * k + 4 * column + row`, and every
/// position after the last matrix holds `fill`.
pub fn pack_matrices<T: Copy>(matrices: &Vec<[[T; 4]; 4]>, capacity: usize, fill: T) -> (block: Vec<T>)
    requires
        MATRIX_LEN * matrices.len() <= capacity,
    ensures
        block.len() == capacity,
        forall|k: int, column: int, row: int|
            0 <= k < matrices.len() && 0 <= column < 4 && 0 <= row < 4 ==>
                #[trigger] block@[16 * k + 4 * column + row] == matrix_entry(matrices@, k, column, row),
        forall|p: int| 16 * matrices.len() <= p < capacity ==> #[trigger] block@[p] == fill,
        forall|k: int, column: int, row: int|
            0 <= k < matrices.len() && 0 <= column < 4 && 0 <= row < 4 ==>
                #[trigger] block@[16 * k + 4 * column + row] == matrices@[k]@[column]@[row],
{
    let mut block: Vec<T> = Vec::new();
    let count = matrices.len();
    let mut k: usize = 0;
    while k < count
        invariant
            count == matrices.len(),
            16 * count <= capacity,
            k <= count,
            block.len() == 16 * k,
            forall|kk: int, column: int, row: int|
                0 <= kk < k && 0 <= column < 4 && 0 <= row < 4 ==>
                    #[trigger] block@[16 * kk + 4 * column + row] == matrix_entry(matrices@, kk, column, row),
        decreases count - k,
    {
        let matrix: [[T; 4]; 4] = matrices[k];
        let mut column: usize = 0;
        while column < 4
            invariant
                count == matrices.len(),
                16 * count <= capacity,
                k < count,
                matrix == matrices@[k as int],
                column <= 4,
                block.len() == 16 * k + 4 * column,
                forall|kk: int, c: int, row: int|
                    0 <= kk < k && 0 <= c < 4 && 0 <= row < 4 ==>
                        #[trigger] block@[16 * kk + 4 * c + row] == matrix_entry(matrices@, kk, c, row),
                forall|c: int, row: int|
                    0 <= c < column && 0 <= row < 4 ==>
                        #[trigger] block@[16 * k + 4 * c + row] == matrix_entry(matrices@, k as int, c, row),
            decreases 4 - column,
        {
            let mut row: usize = 0;
            while row < 4
                invariant
                    count == matrices.len(),
                    16 * count <= capacity,
                    k < count,
                    matrix == matrices@[k as int],
                    column < 4,
                    row <= 4,
                    block.len() == 16 * k + 4 * column + row,
                    forall|kk: int, c: int, r: int|
                        0 <= kk < k && 0 <= c < 4 && 0 <= r < 4 ==>
                            #[trigger] block@[16 * kk + 4 * c + r] == matrix_entry(matrices@, kk, c, r),
                    forall|c: int, r: int|
                        0 <= c < column && 0 <= r < 4 ==>
                            #[trigger] block@[16 * k + 4 * c + r] == matrix_entry(matrices@, k as int, c, r),
                    forall|r: int|
                        0 <= r < row ==>
                            #[trigger] block@[16 * k + 4 * column + r] == matrix_entry(matrices@, k as int, column as int, r),
                decreases 4 - row,
            {
                block.push(matrix[column][row]);
                row = row + 1;
            }
            column = column + 1;
        }
        k = k + 1;
    }
    while block.len() < capacity
        invariant
            count == matrices.len(),
            16 * count <= block.len() <= capacity,
            forall|kk: int, c: int, r: int|
                0 <= kk < count && 0 <= c < 4 && 0 <= r < 4 ==>
                    #[trigger] block@[16 * kk + 4 * c + r] == matrix_entry(matrices@, kk, c, r),
            forall|p: int| 16 * count <= p < block.len() ==> #[trigger] block@[p] == fill,
        decreases capacity - block.len(),
    {
        block.push(fill);
    }
    block
}

/// No two matrix entries share a slot: distinct `(k, column, row)` go to
/// distinct positions, and every entry of the first `count` matrices lies
/// below `16 * count`.
pub proof fn lemma_slots_distinct(count: int, k1: int, c1: int, r1: int, k2: int, c2: int, r2: int)
    requires
        0 <= k1 < count && 0 <= c1 < 4 && 0 <= r1 < 4,
        0 <= k2 < count && 0 <= c2 < 4 && 0 <= r2 < 4,
        (k1, c1, r1) != (k2, c2, r2),
    ensures
        16 * k1 + 4 * c1 + r1 != 16 * k2 + 4 * c2 + r2,
        16 * k1 + 4 * c1 + r1 < 16 * count,
{
}

} // verus!
