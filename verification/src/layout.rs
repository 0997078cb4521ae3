//! The residue table: for each residue of the whole structure, how many
//! atoms it has and where its first atom stands in the atom array.
//!
//! The atom array holds four numbers for each atom (x, y, z and a pad), in
//! residue order, so the offset of a residue is the number of atoms of the
//! residues before it.

use crate::bytes::{encode_words, words_le};
use vstd::prelude::*;

verus! {

/// The number of atoms in the first `n` residues.
pub open spec fn atoms_before(counts: Seq<u32>, n: int) -> nat
    decreases n,
{
    if n <= 0 {
        0
    } else {
        atoms_before(counts, n - 1) + counts[n - 1] as nat
    }
}

/// The number of atoms in all residues.
pub open spec fn atom_total(counts: Seq<u32>) -> nat {
    atoms_before(counts, counts.len() as int)
}

/// One row of the residue table.
#[derive(Clone, Copy, Debug, PartialEq, Eq, Structural)]
pub struct ResidueEntry {
    pub atom_count: u32,
    pub atom_offset: u32,
}

/// The rows for residues with the given atom counts.
pub open spec fn table_of(counts: Seq<u32>) -> Seq<ResidueEntry> {
    Seq::new(
        counts.len(),
        |i: int| ResidueEntry { atom_count: counts[i], atom_offset: atoms_before(counts, i) as u32 },
    )
}

/// The table as the kernel reads it: count and offset of each residue in
/// turn.
pub open spec fn table_words(entries: Seq<ResidueEntry>) -> Seq<u32> {
    Seq::new(
        2 * entries.len(),
        |i: int|
            if i % 2 == 0 {
                entries[i / 2].atom_count
            } else {
                entries[i / 2].atom_offset
            },
    )
}

/// Whether an atom array of `atoms_len` numbers holds four numbers for each
/// atom of the residues.
pub open spec fn atoms_match(counts: Seq<u32>, atoms_len: nat) -> bool {
    atoms_len == 4 * atom_total(counts)
}

/// The atoms before a residue are among the atoms before any later one.
pub proof fn lemma_atoms_before_monotonic(counts: Seq<u32>, i: int, j: int)
    requires
        i <= j,
    ensures
        atoms_before(counts, i) <= atoms_before(counts, j),
    decreases j - i,
{
    if i < j {
        lemma_atoms_before_monotonic(counts, i, j - 1);
    }
}

/// The atoms before a residue depend on the counts before it alone.
pub proof fn lemma_atoms_before_prefix(counts: Seq<u32>, other: Seq<u32>, n: int)
    requires
        n <= counts.len(),
        n <= other.len(),
        forall|i: int| 0 <= i < n ==> counts[i] == other[i],
    ensures
        atoms_before(counts, n) == atoms_before(other, n),
    decreases n,
{
    if n > 0 {
        lemma_atoms_before_prefix(counts, other, n - 1);
    }
}

/// Where all atoms fit 32 bits, every offset in the table is the exact
/// number of atoms before its residue, each row carries its residue's
/// count, and the last offset and count add up to the number of atoms.
pub proof fn lemma_table_offsets_are_prefix_sums(counts: Seq<u32>)
    requires
        atom_total(counts) <= u32::MAX,
    ensures
        table_of(counts).len() == counts.len(),
        forall|i: int|
            0 <= i < counts.len() ==> (#[trigger] table_of(counts)[i]).atom_offset == atoms_before(
                counts,
                i,
            ) && table_of(counts)[i].atom_count == counts[i],
        counts.len() > 0 ==> table_of(counts).last().atom_offset + table_of(
            counts,
        ).last().atom_count == atom_total(counts),
{
    assert forall|i: int| 0 <= i < counts.len() implies (#[trigger] table_of(
        counts,
    )[i]).atom_offset == atoms_before(counts, i) by {
        lemma_atoms_before_monotonic(counts, i, counts.len() as int);
    }
}

/// The number of atoms in all residues.
pub fn count_atoms(counts: &[u32]) -> (total: u128)
    ensures
        total == atom_total(counts@),
        total <= counts@.len() * 0xffff_ffff,
{
    let mut total: u128 = 0;
    let mut i: usize = 0;
    while i < counts.len()
        invariant
            i <= counts.len(),
            total == atoms_before(counts@, i as int),
            total <= i * 0xffff_ffff,
        decreases counts.len() - i,
    {
        total = total + counts[i] as u128;
        i = i + 1;
    }
    total
}

/// The residue table of a structure.
pub struct ResidueTable {
    entries: Vec<ResidueEntry>,
    atom_count: u32,
}

impl View for ResidueTable {
    type V = Seq<ResidueEntry>;

    closed spec fn view(&self) -> Seq<ResidueEntry> {
        self.entries@
    }
}

impl ResidueTable {
    /// The atom count of each row.
    pub open spec fn counts(&self) -> Seq<u32> {
        Seq::new(self@.len(), |i: int| self@[i].atom_count)
    }

    /// The number of atoms of the structure.
    pub closed spec fn atom_count_spec(&self) -> u32 {
        self.atom_count
    }

    #[verifier::type_invariant]
    spec fn inv(&self) -> bool {
        &&& self@ == table_of(self.counts())
        &&& self.atom_count == atom_total(self.counts())
    }

    /// The table for residues with the given atom counts; `None` where the
    /// atoms do not fit 32 bits.
    pub fn build(counts: &[u32]) -> (table: Option<ResidueTable>)
        ensures
            table is Some <==> atom_total(counts@) <= u32::MAX,
            table matches Some(t) ==> t@ == table_of(counts@) && t.counts() == counts@
                && t.atom_count_spec() == atom_total(counts@),
    {
        let mut entries: Vec<ResidueEntry> = Vec::new();
        let mut offset: u32 = 0;
        let mut i: usize = 0;
        while i < counts.len()
            invariant
                i <= counts.len(),
                offset == atoms_before(counts@, i as int),
                entries@ == table_of(counts@).take(i as int),
            decreases counts.len() - i,
        {
            entries.push(ResidueEntry { atom_count: counts[i], atom_offset: offset });
            match offset.checked_add(counts[i]) {
                Some(next) => {
                    offset = next;
                },
                None => {
                    proof {
                        lemma_atoms_before_monotonic(counts@, i + 1, counts@.len() as int);
                    }
                    return None;
                },
            }
            i = i + 1;
        }
        assert(entries@ =~= table_of(counts@));
        let ghost rows = Seq::new(entries@.len(), |i: int| entries@[i].atom_count);
        assert(rows =~= counts@);
        Some(ResidueTable { entries, atom_count: offset })
    }

    /// The number of residues.
    pub fn residue_count(&self) -> (n: usize)
        ensures
            n == self@.len(),
    {
        self.entries.len()
    }

    /// The number of atoms of the structure: the sum of the rows' counts.
    pub fn atom_count(&self) -> (n: u32)
        ensures
            n == self.atom_count_spec(),
            n == atom_total(self.counts()),
    {
        proof {
            use_type_invariant(self);
        }
        self.atom_count
    }

    /// The row of residue `i`, whose offset is the number of atoms of the
    /// residues before it.
    pub fn entry(&self, i: usize) -> (row: Option<ResidueEntry>)
        ensures
            row is Some <==> i < self@.len(),
            row matches Some(e) ==> e == self@[i as int] && e.atom_offset == atoms_before(
                self.counts(),
                i as int,
            ),
    {
        if i < self.entries.len() {
            proof {
                use_type_invariant(self);
                lemma_table_offsets_are_prefix_sums(self.counts());
            }
            Some(self.entries[i])
        } else {
            None
        }
    }

    /// The table as 32-bit words: count and offset of each residue in turn.
    pub fn words(&self) -> (words: Vec<u32>)
        ensures
            words@ == table_words(self@),
    {
        let mut words: Vec<u32> = Vec::new();
        let mut i: usize = 0;
        while i < self.entries.len()
            invariant
                i <= self.entries.len(),
                words@ == table_words(self.entries@.take(i as int)),
            decreases self.entries.len() - i,
        {
            words.push(self.entries[i].atom_count);
            words.push(self.entries[i].atom_offset);
            i = i + 1;
        }
        words
    }

    /// The table as the bytes bound to the kernel.
    pub fn encode(&self) -> (bytes: Vec<u8>)
        ensures
            bytes@ == words_le(table_words(self@)),
    {
        let words = self.words();
        encode_words(words.as_slice())
    }
}

} // verus!
