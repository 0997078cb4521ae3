//! Writing results back onto a structure, one value for each atom.
//!
//! Every atom of a selected residue gets the value of its residue; every
//! atom of a chain that was not selected gets zero. This needs a result
//! with exactly one cutoff.

use crate::error::ArgumentError;
use crate::matrix::ResultMatrix;
use crate::structure::{is_selected, selected, selected_counts, Chain, Structure};
use vstd::prelude::*;

verus! {

/// The value for the atoms of residue `r` of chain `c`, given one value for
/// each selected residue: that of the residue where its chain is selected,
/// the bit pattern of zero where it is not.
pub open spec fn annotation_value(
    chains: Seq<Chain>,
    requested: Seq<String>,
    row: Seq<u32>,
    c: int,
    r: int,
) -> u32 {
    if selected(requested, chains[c].id@) {
        row[selected_counts(chains, requested, c).len() + r]
    } else {
        0u32
    }
}

/// Whether `values` mirrors the first `c` chains of the structure, with
/// the value of its residue for each atom.
pub open spec fn annotates(
    values: Seq<Vec<Vec<u32>>>,
    chains: Seq<Chain>,
    requested: Seq<String>,
    row: Seq<u32>,
    c: int,
) -> bool {
    &&& values.len() == c
    &&& forall|i: int|
        0 <= i < c ==> (#[trigger] values[i])@.len() == chains[i].residues@.len()
    &&& forall|i: int, r: int|
        0 <= i < c && 0 <= r < chains[i].residues@.len() ==> (#[trigger] values[i]@[r])@.len()
            == chains[i].residues@[r].atoms@.len()
    &&& forall|i: int, r: int, a: int|
        0 <= i < c && 0 <= r < chains[i].residues@.len() && 0 <= a
            < chains[i].residues@[r].atoms@.len() ==> #[trigger] values[i]@[r]@[a]
            == annotation_value(chains, requested, row, i, r)
}

/// The number of selected residues among the first chains grows with the
/// number of chains.
pub proof fn lemma_selected_counts_grow(chains: Seq<Chain>, requested: Seq<String>, c: int, d: int)
    requires
        c <= d,
    ensures
        selected_counts(chains, requested, c).len() <= selected_counts(chains, requested, d).len(),
        d > c && c >= 0 && selected(requested, chains[c].id@) ==> selected_counts(
            chains,
            requested,
            c,
        ).len() + chains[c].residues@.len() <= selected_counts(chains, requested, d).len(),
    decreases d - c,
{
    if c < d {
        lemma_selected_counts_grow(chains, requested, c, d - 1);
    }
}

/// The values to write onto the atoms of the structure: for each chain,
/// for each residue, one value for each atom.
///
/// The matrix must hold one row, for the one cutoff, and one column for
/// each selected residue.
pub fn annotate(structure: &Structure, requested: &Vec<String>, matrix: &ResultMatrix) -> (result:
    Result<Vec<Vec<Vec<u32>>>, ArgumentError>)
    ensures
        ({
            let chains = structure.chains@;
            if matrix.rows_spec() != 1 {
                result == Err::<Vec<Vec<Vec<u32>>>, ArgumentError>(
                    ArgumentError::CutoffCountForAnnotation,
                )
            } else if matrix.cols_spec() != selected_counts(
                chains,
                requested@,
                chains.len() as int,
            ).len() {
                result == Err::<Vec<Vec<Vec<u32>>>, ArgumentError>(
                    ArgumentError::ResultShapeMismatch,
                )
            } else {
                result matches Ok(values) && annotates(
                    values@,
                    chains,
                    requested@,
                    matrix.flat(),
                    chains.len() as int,
                )
            }
        }),
{
    if matrix.rows() != 1 {
        return Err(ArgumentError::CutoffCountForAnnotation);
    }
    let row = matrix.as_slice();
    let ghost chains = structure.chains@;
    let mut values: Vec<Vec<Vec<u32>>> = Vec::new();
    let mut next: usize = 0;
    let mut c: usize = 0;
    while c < structure.chains.len()
        invariant
            c <= structure.chains.len(),
            chains == structure.chains@,
            matrix.wf(),
            matrix.rows_spec() == 1,
            row@ == matrix.flat(),
            row@.len() == matrix.cols_spec(),
            next == selected_counts(chains, requested@, c as int).len(),
            next <= row@.len(),
            annotates(values@, chains, requested@, row@, c as int),
        decreases structure.chains.len() - c,
    {
        let chain = &structure.chains[c];
        let chosen = is_selected(requested, &chain.id);
        if chosen && chain.residues.len() > row.len() - next {
            proof {
                lemma_selected_counts_grow(chains, requested@, c as int, chains.len() as int);
            }
            return Err(ArgumentError::ResultShapeMismatch);
        }
        let mut of_chain: Vec<Vec<u32>> = Vec::new();
        let mut r: usize = 0;
        while r < chain.residues.len()
            invariant
                r <= chain.residues.len(),
                c < structure.chains.len(),
                chains == structure.chains@,
                *chain == chains[c as int],
                chosen == selected(requested@, chain.id@),
                next == selected_counts(chains, requested@, c as int).len(),
                chosen ==> next + chain.residues@.len() <= row@.len(),
                row@.len() <= usize::MAX,
                of_chain@.len() == r,
                forall|j: int|
                    0 <= j < r ==> (#[trigger] of_chain@[j])@.len()
                        == chain.residues@[j].atoms@.len(),
                forall|j: int, a: int|
                    0 <= j < r && 0 <= a < chain.residues@[j].atoms@.len()
                        ==> #[trigger] of_chain@[j]@[a] == annotation_value(
                        chains,
                        requested@,
                        row@,
                        c as int,
                        j,
                    ),
            decreases chain.residues.len() - r,
        {
            let value: u32 = if chosen {
                row[next + r]
            } else {
                0
            };
            let atom_count: usize = chain.residues[r].atoms.len();
            let mut of_residue: Vec<u32> = Vec::new();
            let mut a: usize = 0;
            while a < atom_count
                invariant
                    a <= atom_count,
                    of_residue@.len() == a,
                    forall|k: int| 0 <= k < a ==> of_residue@[k] == value,
                decreases atom_count - a,
            {
                of_residue.push(value);
                a = a + 1;
            }
            of_chain.push(of_residue);
            r = r + 1;
        }
        values.push(of_chain);
        if chosen {
            next = next + chain.residues.len();
        }
        c = c + 1;
    }
    if next != row.len() {
        return Err(ArgumentError::ResultShapeMismatch);
    }
    Ok(values)
}

} // verus!
