//! What a caller asks for, and whether it can be served at all.
//!
//! A request is judged before the accelerator is touched: every requested
//! chain must be in the structure, and an output that holds a single value
//! per residue takes exactly one cutoff.

use crate::dispatch::Workload;
use crate::error::ArgumentError;
use crate::range::TargetRange;
use crate::structure::{
    find_unknown_chain, gather, has_chain, lemma_gathered_atoms_match, residues_fit,
    selected_counts, selected_words, Selection, Structure,
};
use vstd::prelude::*;

verus! {

/// What a caller asks for.
#[derive(Debug, PartialEq, Eq)]
pub struct Request {
    /// The names of the chains to compute values for; all chains where
    /// this is empty.
    pub chains: Vec<String>,
    /// The bit patterns of the cutoff distances.
    pub cutoffs: Vec<u32>,
    /// Whether the values are to be written onto the atoms of the
    /// structure, which holds one value for each residue.
    pub annotate: bool,
}

/// Whether `cutoff_count` cutoffs can go to the outputs asked for.
pub open spec fn outputs_accept(cutoff_count: nat, annotate: bool) -> bool {
    annotate ==> cutoff_count == 1
}

/// Rejects a number of cutoffs other than one where an output is asked
/// for that holds a single value per residue.
pub fn validate_outputs(cutoff_count: usize, annotate: bool) -> (result: Result<(), ArgumentError>)
    ensures
        outputs_accept(cutoff_count as nat, annotate) ==> result == Ok::<(), ArgumentError>(()),
        !outputs_accept(cutoff_count as nat, annotate) ==> result == Err::<(), ArgumentError>(
            ArgumentError::CutoffCountForAnnotation,
        ),
{
    if annotate && cutoff_count != 1 {
        Err(ArgumentError::CutoffCountForAnnotation)
    } else {
        Ok(())
    }
}

/// Whether the structure has every requested chain.
pub open spec fn chains_known(structure: Structure, requested: Seq<String>) -> bool {
    forall|k: int|
        0 <= k < requested.len() ==> has_chain(structure.chains@, (#[trigger] requested[k])@)
}

/// Judges a request against a structure and gathers what the engine is
/// given for it.
///
/// The first requested chain that the structure lacks is reported; else a
/// number of cutoffs that the outputs cannot take; else a residue with more
/// atoms than can be counted. A request that passes yields the atom counts
/// and the atom array of the selected residues.
pub fn prepare(structure: &Structure, request: &Request) -> (result: Result<Selection, ArgumentError>)
    ensures
        ({
            let chains = structure.chains@;
            let requested = request.chains@;
            let all = chains.len() as int;
            if !chains_known(*structure, requested) {
                result matches Err(ArgumentError::UnknownChain { requested: k }) && k
                    < requested.len() && !has_chain(chains, requested[k as int]@) && forall|
                    j: int,
                |
                    0 <= j < k ==> has_chain(chains, (#[trigger] requested[j])@)
            } else if !outputs_accept(request.cutoffs@.len(), request.annotate) {
                result == Err::<Selection, ArgumentError>(ArgumentError::CutoffCountForAnnotation)
            } else if !residues_fit(chains, requested, all) {
                result == Err::<Selection, ArgumentError>(ArgumentError::WorkloadTooLarge)
            } else {
                result matches Ok(selection) && selection.residue_atom_counts@ == selected_counts(
                    chains,
                    requested,
                    all,
                ) && selection.atoms_data@ == selected_words(chains, requested, all)
            }
        }),
{
    match find_unknown_chain(structure, &request.chains) {
        Some(k) => {
            return Err(ArgumentError::UnknownChain { requested: k });
        },
        None => {},
    }
    match validate_outputs(request.cutoffs.len(), request.annotate) {
        Err(reason) => {
            return Err(reason);
        },
        Ok(_) => {},
    }
    match gather(structure, &request.chains) {
        Some(selection) => Ok(selection),
        None => Err(ArgumentError::WorkloadTooLarge),
    }
}

/// What is gathered for a request is a consistent call on all of its
/// residues: the engine rejects it for neither its atoms nor its range.
pub proof fn lemma_gathered_is_consistent(
    structure: Structure,
    requested: Seq<String>,
    cutoffs: Seq<u32>,
)
    requires
        residues_fit(structure.chains@, requested, structure.chains@.len() as int),
    ensures
        ({
            let all = structure.chains@.len() as int;
            let workload = Workload {
                counts: selected_counts(structure.chains@, requested, all),
                atoms: selected_words(structure.chains@, requested, all),
                range: TargetRange::all(),
                cutoffs,
            };
            &&& workload.consistent()
            &&& workload.target_count() == workload.residue_count()
            &&& workload.rejection() != Some(ArgumentError::AtomCountMismatch)
            &&& workload.rejection() != Some(ArgumentError::TargetRangeOutOfBounds)
        }),
{
    lemma_gathered_atoms_match(structure.chains@, requested, structure.chains@.len() as int);
}

} // verus!
