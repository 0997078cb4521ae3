//! The settings record that the kernel reads.
//!
//! Three unsigned 32-bit integers (the number of atoms, the number of target
//! residues, the index of the first target residue) followed by the cutoffs
//! as single-precision bit patterns; all little-endian, tightly packed.

use crate::bytes::{
    extend_words_le, lemma_word_round_trip, lemma_words_le_concat, lemma_words_round_trip,
    push_word_le, word_le,
    words_from_le, words_le,
};
use vstd::prelude::*;

verus! {

/// The settings of one call.
#[derive(Debug, PartialEq, Eq)]
pub struct SettingsRecord {
    pub atom_count: u32,
    pub target_residue_count: u32,
    pub target_residue_start: u32,
    /// The bit patterns of the cutoff distances.
    pub cutoffs: Vec<u32>,
}

/// The record as 32-bit words.
pub open spec fn settings_words(
    atom_count: u32,
    target_residue_count: u32,
    target_residue_start: u32,
    cutoffs: Seq<u32>,
) -> Seq<u32> {
    seq![atom_count, target_residue_count, target_residue_start] + cutoffs
}

/// The record as the bytes bound to the kernel.
pub open spec fn settings_bytes(
    atom_count: u32,
    target_residue_count: u32,
    target_residue_start: u32,
    cutoffs: Seq<u32>,
) -> Seq<u8> {
    words_le(settings_words(atom_count, target_residue_count, target_residue_start, cutoffs))
}

/// The encoded record holds twelve bytes and four for each cutoff, and its
/// words can be read back: the three integers, and each cutoff in its place.
pub proof fn lemma_settings_layout(
    atom_count: u32,
    target_residue_count: u32,
    target_residue_start: u32,
    cutoffs: Seq<u32>,
)
    ensures
        ({
            let bytes = settings_bytes(
                atom_count,
                target_residue_count,
                target_residue_start,
                cutoffs,
            );
            &&& bytes.len() == 12 + 4 * cutoffs.len()
            &&& words_from_le(bytes).len() == 3 + cutoffs.len()
            &&& words_from_le(bytes)[0] == atom_count
            &&& words_from_le(bytes)[1] == target_residue_count
            &&& words_from_le(bytes)[2] == target_residue_start
            &&& forall|i: int| 0 <= i < cutoffs.len() ==> words_from_le(bytes)[3 + i] == cutoffs[i]
        }),
{
    lemma_words_round_trip(
        settings_words(atom_count, target_residue_count, target_residue_start, cutoffs),
    );
}

/// The record as the bytes bound to the kernel.
pub fn encode_settings(
    atom_count: u32,
    target_residue_count: u32,
    target_residue_start: u32,
    cutoffs: &[u32],
) -> (bytes: Vec<u8>)
    ensures
        bytes@ == settings_bytes(atom_count, target_residue_count, target_residue_start, cutoffs@),
        bytes@.len() == 12 + 4 * cutoffs@.len(),
{
    let mut bytes: Vec<u8> = Vec::new();
    push_word_le(&mut bytes, atom_count);
    push_word_le(&mut bytes, target_residue_count);
    push_word_le(&mut bytes, target_residue_start);
    extend_words_le(&mut bytes, cutoffs);
    proof {
        let head = seq![atom_count, target_residue_count, target_residue_start];
        lemma_word_round_trip(atom_count);
        lemma_word_round_trip(target_residue_count);
        lemma_word_round_trip(target_residue_start);
        assert(words_le(head) =~= word_le(atom_count) + word_le(target_residue_count) + word_le(
            target_residue_start,
        ));
        lemma_words_le_concat(head, cutoffs@);
        assert(bytes@ =~= settings_bytes(
            atom_count,
            target_residue_count,
            target_residue_start,
            cutoffs@,
        ));
    }
    bytes
}

impl SettingsRecord {
    /// The bytes of this record.
    pub open spec fn bytes_spec(&self) -> Seq<u8> {
        settings_bytes(
            self.atom_count,
            self.target_residue_count,
            self.target_residue_start,
            self.cutoffs@,
        )
    }

    /// The record as the bytes bound to the kernel.
    pub fn encode(&self) -> (bytes: Vec<u8>)
        ensures
            bytes@ == self.bytes_spec(),
            bytes@.len() == 12 + 4 * self.cutoffs@.len(),
    {
        encode_settings(
            self.atom_count,
            self.target_residue_count,
            self.target_residue_start,
            self.cutoffs.as_slice(),
        )
    }
}

} // verus!
