//! Three-by-three integer matrices.

use vstd::prelude::*;

verus! {

/// Whether `mat` holds in row `i` and column `j` what `matrix` holds in row
/// `j` and column `i`, for every cell.
pub open spec fn is_transpose_of(mat: [[i32; 3]; 3], matrix: [[i32; 3]; 3]) -> bool {
    forall|i: int, j: int| 0 <= i < 3 && 0 <= j < 3 ==> mat[i][j] == matrix[j][i]
}

/// The transpose of a matrix: its rows become the columns.
pub fn transpose(matrix: [[i32; 3]; 3]) -> (mat: [[i32; 3]; 3])
    ensures
        is_transpose_of(mat, matrix),
{
    let mut mat: [[i32; 3]; 3] = [[0; 3]; 3];
    let mut i: usize = 0;
    while i < 3
        invariant
            i <= 3,
            forall|a: int, b: int| 0 <= a < i && 0 <= b < 3 ==> mat[a][b] == matrix[b][a],
        decreases 3 - i,
    {
        let mut j: usize = 0;
        while j < 3
            invariant
                i < 3,
                j <= 3,
                forall|a: int, b: int| 0 <= a < i && 0 <= b < 3 ==> mat[a][b] == matrix[b][a],
                forall|b: int| 0 <= b < j ==> mat[i as int][b] == matrix[b][i as int],
            decreases 3 - j,
        {
            mat[i][j] = matrix[j][i];
            j = j + 1;
        }
        i = i + 1;
    }
    mat
}

/// Transposing twice gives the matrix back.
pub proof fn lemma_transpose_involution(
    matrix: [[i32; 3]; 3],
    once: [[i32; 3]; 3],
    twice: [[i32; 3]; 3],
)
    requires
        is_transpose_of(once, matrix),
        is_transpose_of(twice, once),
    ensures
        twice == matrix,
{
    assert forall|i: int| 0 <= i < 3 implies twice[i] == matrix[i] by {
        assert forall|j: int| 0 <= j < 3 implies twice[i][j] == matrix[i][j] by {
            assert(twice[i][j] == once[j][i]);
        }
        assert(twice[i] =~= matrix[i]);
    }
    assert(twice =~= matrix);
}

} // verus!
