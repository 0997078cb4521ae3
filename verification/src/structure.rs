//! A structure as the engine's callers hold it: chains of residues of
//! atoms, and the chains that a request selects.
//!
//! Selecting chains decides which residues the engine sees. The residues of
//! the selected chains, in the order of the structure, give the atom counts
//! and the atom array of a call.

use crate::layout::{atom_total, atoms_before, atoms_match, lemma_atoms_before_prefix};
use vstd::prelude::*;

verus! {

/// Where an atom stands: the bit patterns of its three coordinates.
#[derive(Clone, Copy, Debug, PartialEq, Eq, Structural)]
pub struct Position {
    pub x: u32,
    pub y: u32,
    pub z: u32,
}

/// A residue: its atoms in order.
#[derive(Debug, PartialEq, Eq)]
pub struct Residue {
    pub atoms: Vec<Position>,
}

/// A chain: its name and its residues in order.
#[derive(Debug, PartialEq, Eq)]
pub struct Chain {
    pub id: String,
    pub residues: Vec<Residue>,
}

/// A structure: its chains in order.
#[derive(Debug, PartialEq, Eq)]
pub struct Structure {
    pub chains: Vec<Chain>,
}

/// What the engine is given for the selected residues.
#[derive(Debug, PartialEq, Eq)]
pub struct Selection {
    /// The number of atoms of each selected residue.
    pub residue_atom_counts: Vec<u32>,
    /// Four numbers for each atom of the selected residues: x, y, z and a
    /// zero pad.
    pub atoms_data: Vec<u32>,
}

/// Whether `id` is among the requested names.
pub open spec fn names(requested: Seq<String>, id: Seq<char>) -> bool {
    exists|k: int| 0 <= k < requested.len() && (#[trigger] requested[k])@ == id
}

/// Whether a chain called `id` is selected: every chain is where no name
/// is requested, else the chains whose names are requested.
pub open spec fn selected(requested: Seq<String>, id: Seq<char>) -> bool {
    requested.len() == 0 || names(requested, id)
}

/// Whether the structure has a chain called `id`.
pub open spec fn has_chain(chains: Seq<Chain>, id: Seq<char>) -> bool {
    exists|c: int| 0 <= c < chains.len() && (#[trigger] chains[c]).id@ == id
}

/// The atom array of one residue: x, y, z and a zero pad for each atom.
pub open spec fn residue_words(atoms: Seq<Position>) -> Seq<u32> {
    Seq::new(
        4 * atoms.len(),
        |i: int|
            if i % 4 == 0 {
                atoms[i / 4].x
            } else if i % 4 == 1 {
                atoms[i / 4].y
            } else if i % 4 == 2 {
                atoms[i / 4].z
            } else {
                0u32
            },
    )
}

/// The number of atoms of each of `residues`.
pub open spec fn residue_counts(residues: Seq<Residue>) -> Seq<u32> {
    Seq::new(residues.len(), |r: int| residues[r].atoms@.len() as u32)
}

/// The atom array of the first `n` of `residues`.
pub open spec fn residues_words(residues: Seq<Residue>, n: int) -> Seq<u32>
    decreases n,
{
    if n <= 0 {
        Seq::empty()
    } else {
        residues_words(residues, n - 1) + residue_words(residues[n - 1].atoms@)
    }
}

/// The atom counts of the selected residues among the first `c` chains.
pub open spec fn selected_counts(chains: Seq<Chain>, requested: Seq<String>, c: int) -> Seq<u32>
    decreases c,
{
    if c <= 0 {
        Seq::empty()
    } else if selected(requested, chains[c - 1].id@) {
        selected_counts(chains, requested, c - 1) + residue_counts(chains[c - 1].residues@)
    } else {
        selected_counts(chains, requested, c - 1)
    }
}

/// The atom array of the selected residues among the first `c` chains.
pub open spec fn selected_words(chains: Seq<Chain>, requested: Seq<String>, c: int) -> Seq<u32>
    decreases c,
{
    if c <= 0 {
        Seq::empty()
    } else if selected(requested, chains[c - 1].id@) {
        selected_words(chains, requested, c - 1) + residues_words(
            chains[c - 1].residues@,
            chains[c - 1].residues@.len() as int,
        )
    } else {
        selected_words(chains, requested, c - 1)
    }
}

/// Whether the atoms of every selected residue among the first `c` chains
/// can be counted in 32 bits.
pub open spec fn residues_fit(chains: Seq<Chain>, requested: Seq<String>, c: int) -> bool {
    forall|i: int, r: int|
        0 <= i < c && i < chains.len() && selected(requested, chains[i].id@) && 0 <= r
            < chains[i].residues@.len() ==> (#[trigger] chains[i].residues@[r]).atoms@.len()
            <= u32::MAX
}

/// Whether `id` is among the requested names.
pub fn is_named(requested: &Vec<String>, id: &String) -> (named: bool)
    ensures
        named == names(requested@, id@),
{
    let mut k: usize = 0;
    while k < requested.len()
        invariant
            k <= requested.len(),
            forall|j: int| 0 <= j < k ==> (#[trigger] requested@[j])@ != id@,
        decreases requested.len() - k,
    {
        if requested[k].eq(id) {
            return true;
        }
        k = k + 1;
    }
    false
}

/// Whether a chain called `id` is selected.
pub fn is_selected(requested: &Vec<String>, id: &String) -> (chosen: bool)
    ensures
        chosen == selected(requested@, id@),
{
    requested.len() == 0 || is_named(requested, id)
}

/// Whether the structure has a chain called `id`.
pub fn is_chain(structure: &Structure, id: &String) -> (found: bool)
    ensures
        found == has_chain(structure.chains@, id@),
{
    let mut c: usize = 0;
    while c < structure.chains.len()
        invariant
            c <= structure.chains.len(),
            forall|j: int| 0 <= j < c ==> (#[trigger] structure.chains@[j]).id@ != id@,
        decreases structure.chains.len() - c,
    {
        if structure.chains[c].id.eq(id) {
            return true;
        }
        c = c + 1;
    }
    false
}

/// The position of the first requested name that no chain of the
/// structure has; `None` where every requested name is that of a chain.
pub fn find_unknown_chain(structure: &Structure, requested: &Vec<String>) -> (missing: Option<
    usize,
>)
    ensures
        missing matches Some(k) ==> k < requested@.len() && !has_chain(
            structure.chains@,
            requested@[k as int]@,
        ) && forall|j: int| 0 <= j < k ==> has_chain(structure.chains@, (#[trigger] requested@[j])@),
        missing is None ==> forall|j: int|
            0 <= j < requested@.len() ==> has_chain(structure.chains@, (#[trigger] requested@[j])@),
{
    let mut k: usize = 0;
    while k < requested.len()
        invariant
            k <= requested.len(),
            forall|j: int| 0 <= j < k ==> has_chain(structure.chains@, (#[trigger] requested@[j])@),
        decreases requested.len() - k,
    {
        if !is_chain(structure, &requested[k]) {
            return Some(k);
        }
        k = k + 1;
    }
    None
}

/// The atom counts and the atom array of the selected residues, in the
/// order of the structure; `None` where a selected residue has more atoms
/// than 32 bits can count.
pub fn gather(structure: &Structure, requested: &Vec<String>) -> (selection: Option<Selection>)
    ensures
        selection is Some <==> residues_fit(
            structure.chains@,
            requested@,
            structure.chains@.len() as int,
        ),
        selection matches Some(s) ==> s.residue_atom_counts@ == selected_counts(
            structure.chains@,
            requested@,
            structure.chains@.len() as int,
        ) && s.atoms_data@ == selected_words(
            structure.chains@,
            requested@,
            structure.chains@.len() as int,
        ),
{
    let mut counts: Vec<u32> = Vec::new();
    let mut words: Vec<u32> = Vec::new();
    let mut c: usize = 0;
    while c < structure.chains.len()
        invariant
            c <= structure.chains.len(),
            residues_fit(structure.chains@, requested@, c as int),
            counts@ == selected_counts(structure.chains@, requested@, c as int),
            words@ == selected_words(structure.chains@, requested@, c as int),
        decreases structure.chains.len() - c,
    {
        let chain = &structure.chains[c];
        if is_selected(requested, &chain.id) {
            let ghost counts_before = counts@;
            let ghost words_before = words@;
            let mut r: usize = 0;
            while r < chain.residues.len()
                invariant
                    r <= chain.residues.len(),
                    c < structure.chains.len(),
                    *chain == structure.chains@[c as int],
                    selected(requested@, chain.id@),
                    residues_fit(structure.chains@, requested@, c as int),
                    forall|j: int|
                        0 <= j < r ==> (#[trigger] chain.residues@[j]).atoms@.len() <= u32::MAX,
                    counts@ == counts_before + residue_counts(chain.residues@).take(r as int),
                    words@ == words_before + residues_words(chain.residues@, r as int),
                decreases chain.residues.len() - r,
            {
                let residue = &chain.residues[r];
                let atom_count: usize = residue.atoms.len();
                if atom_count as u64 > 0xffff_ffff {
                    assert(!residues_fit(
                        structure.chains@,
                        requested@,
                        structure.chains@.len() as int,
                    )) by {
                        assert(structure.chains@[c as int].residues@[r as int].atoms@.len()
                            > u32::MAX);
                    }
                    return None;
                }
                counts.push(atom_count as u32);
                let ghost words_so_far = words@;
                let mut a: usize = 0;
                while a < atom_count
                    invariant
                        a <= atom_count,
                        atom_count == residue.atoms@.len(),
                        words@ == words_so_far + residue_words(residue.atoms@.take(a as int)),
                    decreases atom_count - a,
                {
                    let position = residue.atoms[a];
                    words.push(position.x);
                    words.push(position.y);
                    words.push(position.z);
                    words.push(0);
                    assert(words@ =~= words_so_far + residue_words(
                        residue.atoms@.take(a + 1),
                    ));
                    a = a + 1;
                }
                proof {
                    assert(counts@ =~= counts_before + residue_counts(chain.residues@).take(
                        r + 1,
                    ));
                }
                r = r + 1;
            }
            proof {
                assert(residue_counts(chain.residues@).take(r as int) =~= residue_counts(
                    chain.residues@,
                ));
            }
        }
        c = c + 1;
    }
    Some(Selection { residue_atom_counts: counts, atoms_data: words })
}

/// The atoms of two runs of residues, one after the other, are the atoms
/// of both.
pub proof fn lemma_atom_total_concat(left: Seq<u32>, right: Seq<u32>)
    ensures
        atom_total(left + right) == atom_total(left) + atom_total(right),
    decreases right.len(),
{
    let whole = left + right;
    if right.len() == 0 {
        assert(whole =~= left);
    } else {
        let shorter = right.drop_last();
        lemma_atom_total_concat(left, shorter);
        lemma_atoms_before_prefix(whole, left + shorter, whole.len() - 1);
        lemma_atoms_before_prefix(right, shorter, right.len() - 1);
    }
}

/// The atom array of residues whose atoms can be counted holds four
/// numbers for each of their atoms.
pub proof fn lemma_residues_words_len(residues: Seq<Residue>, n: int)
    requires
        0 <= n <= residues.len(),
        forall|r: int| 0 <= r < n ==> (#[trigger] residues[r]).atoms@.len() <= u32::MAX,
    ensures
        residues_words(residues, n).len() == 4 * atoms_before(residue_counts(residues), n),
    decreases n,
{
    if n > 0 {
        lemma_residues_words_len(residues, n - 1);
    }
}

/// What is gathered is consistent: the atom array holds four numbers for
/// each atom that the gathered residues count.
pub proof fn lemma_gathered_atoms_match(chains: Seq<Chain>, requested: Seq<String>, c: int)
    requires
        0 <= c <= chains.len(),
        residues_fit(chains, requested, c),
    ensures
        atoms_match(selected_counts(chains, requested, c), selected_words(chains, requested, c).len()),
    decreases c,
{
    if c > 0 {
        lemma_gathered_atoms_match(chains, requested, c - 1);
        if selected(requested, chains[c - 1].id@) {
            let residues = chains[c - 1].residues@;
            lemma_residues_words_len(residues, residues.len() as int);
            lemma_atom_total_concat(
                selected_counts(chains, requested, c - 1),
                residue_counts(residues),
            );
        }
    }
}

} // verus!
