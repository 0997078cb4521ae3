//! What one call asks of the accelerator.
//!
//! A submission names, for each of the five buffers, whether it is kept or
//! replaced and what is written into it; the grid to dispatch, with one unit
//! of work for each pair of target residue and cutoff; how much of the
//! output buffer is copied to the readback buffer; and how much of that is
//! mapped and read. All cutoffs go out in one submission.

use crate::buffer::{
    ensured, grown_capacity, lemma_ensured_covers, lemma_grown_capacity_bounds,
    lemma_grown_capacity_monotonic, place, placement_of, BufferCache, BufferHandle, BufferSlot,
    Placement,
};
use crate::bytes::{words_from_le, words_le};
use crate::error::ArgumentError;
use crate::layout::{atom_total, atoms_match, table_of, table_words};
use crate::range::TargetRange;
use crate::readback::fills;
use crate::settings::settings_bytes;
use vstd::prelude::*;

verus! {

/// The grid of work: `x` target residues by `y` cutoffs, `z` always one.
#[derive(Clone, Copy, Debug, PartialEq, Eq, Structural)]
pub struct DispatchGrid {
    pub x: u32,
    pub y: u32,
    pub z: u32,
}

/// What is done with one buffer.
#[derive(Debug, PartialEq, Eq)]
pub struct BufferStep {
    pub slot: BufferSlot,
    /// Whether the slot's allocation is kept or a new one is made.
    pub placement: Placement,
    /// The buffer that the slot holds afterwards.
    pub handle: BufferHandle,
    /// The bytes to write at the start of the buffer; `None` for a buffer
    /// whose content the kernel or the copy produces.
    pub upload: Option<Vec<u8>>,
}

/// A buffer step in specifications.
pub struct BufferStepView {
    pub slot: BufferSlot,
    pub placement: Placement,
    pub handle: BufferHandle,
    pub upload: Option<Seq<u8>>,
}

impl View for BufferStep {
    type V = BufferStepView;

    open spec fn view(&self) -> BufferStepView {
        BufferStepView {
            slot: self.slot,
            placement: self.placement,
            handle: self.handle,
            upload: match self.upload {
                Some(bytes) => Some(bytes@),
                None => None,
            },
        }
    }
}

/// The work of one call.
///
/// The driver serves the buffers in the order of the fields: a slot whose
/// step says `Allocated` gets a new buffer of the handle's capacity and
/// usage, and the old one is released; an upload is written at the start
/// of its buffer. It binds atoms, residues, settings and output at their
/// binding indices, dispatches the grid, copies `copy_bytes` from the
/// output to the readback buffer, and submits all of it at once. It maps
/// the first `map_bytes` of the readback buffer for reading, waits for the
/// one signal, copies the mapped bytes out and releases the mapping.
#[derive(Debug, PartialEq, Eq)]
pub struct Submission {
    pub atoms: BufferStep,
    pub residues: BufferStep,
    pub output: BufferStep,
    pub readback: BufferStep,
    pub settings: BufferStep,
    pub grid: DispatchGrid,
    /// Bytes copied from the start of the output buffer to the start of the
    /// readback buffer.
    pub copy_bytes: u64,
    /// Bytes at the start of the readback buffer that are mapped and read.
    pub map_bytes: u64,
}

/// A submission in specifications.
pub struct SubmissionView {
    pub atoms: BufferStepView,
    pub residues: BufferStepView,
    pub output: BufferStepView,
    pub readback: BufferStepView,
    pub settings: BufferStepView,
    pub grid: DispatchGrid,
    pub copy_bytes: u64,
    pub map_bytes: u64,
}

impl View for Submission {
    type V = SubmissionView;

    open spec fn view(&self) -> SubmissionView {
        SubmissionView {
            atoms: self.atoms@,
            residues: self.residues@,
            output: self.output@,
            readback: self.readback@,
            settings: self.settings@,
            grid: self.grid,
            copy_bytes: self.copy_bytes,
            map_bytes: self.map_bytes,
        }
    }
}

/// The arguments of one call.
pub struct Workload {
    /// The number of atoms of each residue of the whole structure.
    pub counts: Seq<u32>,
    /// The atom array: for each atom the bit patterns of x, y, z and a pad.
    pub atoms: Seq<u32>,
    /// The residues to compute values for.
    pub range: TargetRange,
    /// The bit patterns of the cutoff distances.
    pub cutoffs: Seq<u32>,
}

/// The bytes of the output buffer that hold one value for each pair of
/// target residue and cutoff.
pub open spec fn output_bytes(target_count: nat, cutoff_count: nat) -> nat {
    4 * target_count * cutoff_count
}

impl Workload {
    /// The number of residues of the whole structure.
    pub open spec fn residue_count(self) -> nat {
        self.counts.len()
    }

    /// The number of atoms of the whole structure.
    pub open spec fn atom_count(self) -> nat {
        atom_total(self.counts)
    }

    /// The index of the first target residue.
    pub open spec fn target_start(self) -> nat {
        self.range.first() as nat
    }

    /// The number of target residues.
    pub open spec fn target_count(self) -> nat {
        self.range.count(self.counts.len() as int) as nat
    }

    /// The number of cutoffs.
    pub open spec fn cutoff_count(self) -> nat {
        self.cutoffs.len()
    }

    /// The atom array holds four numbers for each atom of the residues, and
    /// the target range lies within the residues.
    pub open spec fn consistent(self) -> bool {
        &&& atoms_match(self.counts, self.atoms.len())
        &&& self.range.within(self.counts.len() as int)
    }

    /// The counts fit the 32-bit fields of the settings record and of the
    /// grid, and every buffer fits the accelerator's 64-bit sizes.
    pub open spec fn fits(self) -> bool {
        &&& self.atom_count() <= u32::MAX
        &&& self.target_start() <= u32::MAX
        &&& self.target_count() <= u32::MAX
        &&& self.cutoff_count() <= u32::MAX
        &&& grown_capacity(8 * self.residue_count()) <= u64::MAX
        &&& grown_capacity(output_bytes(self.target_count(), self.cutoff_count())) <= u64::MAX
    }

    /// Why the call is rejected, if it is. A call without cutoffs asks for
    /// no work and is never too large.
    pub open spec fn rejection(self) -> Option<ArgumentError> {
        if !atoms_match(self.counts, self.atoms.len()) {
            Some(ArgumentError::AtomCountMismatch)
        } else if !self.range.within(self.counts.len() as int) {
            Some(ArgumentError::TargetRangeOutOfBounds)
        } else if self.cutoff_count() > 0 && !self.fits() {
            Some(ArgumentError::WorkloadTooLarge)
        } else {
            None
        }
    }

    /// The bytes of the atoms buffer.
    pub open spec fn atoms_upload(self) -> Seq<u8> {
        words_le(self.atoms)
    }

    /// The bytes of the residue table, which covers the whole structure
    /// whatever the target range.
    pub open spec fn residues_upload(self) -> Seq<u8> {
        words_le(table_words(table_of(self.counts)))
    }

    /// The bytes of the settings record.
    pub open spec fn settings_upload(self) -> Seq<u8> {
        settings_bytes(
            self.atom_count() as u32,
            self.target_count() as u32,
            self.target_start() as u32,
            self.cutoffs,
        )
    }

    /// The bytes of the output that are in use.
    pub open spec fn output_size(self) -> nat {
        output_bytes(self.target_count(), self.cutoff_count())
    }

    /// One unit of work for each pair of target residue and cutoff.
    pub open spec fn grid(self) -> DispatchGrid {
        DispatchGrid { x: self.target_count() as u32, y: self.cutoff_count() as u32, z: 1 }
    }
}

/// What is done with `slot`, which holds `held`, to serve `required` bytes.
pub open spec fn step_of(
    slot: BufferSlot,
    held: Option<BufferHandle>,
    required: nat,
    upload: Option<Seq<u8>>,
) -> BufferStepView {
    BufferStepView {
        slot,
        placement: placement_of(held, required as u64),
        handle: ensured(held, required as u64, slot.usage()),
        upload,
    }
}

/// The submission for `workload` in a session whose slots hold `cache`.
pub open spec fn submission_of(cache: BufferCache, workload: Workload) -> SubmissionView {
    let atoms = step_of(
        BufferSlot::Atoms,
        cache.atoms,
        workload.atoms_upload().len(),
        Some(workload.atoms_upload()),
    );
    let residues = step_of(
        BufferSlot::Residues,
        cache.residues,
        workload.residues_upload().len(),
        Some(workload.residues_upload()),
    );
    let output = step_of(BufferSlot::Output, cache.output, workload.output_size(), None);
    let readback = step_of(BufferSlot::Readback, cache.readback, workload.output_size(), None);
    let settings = step_of(
        BufferSlot::Settings,
        cache.settings,
        workload.settings_upload().len(),
        Some(workload.settings_upload()),
    );
    SubmissionView {
        atoms,
        residues,
        output,
        readback,
        settings,
        grid: workload.grid(),
        copy_bytes: readback.handle.capacity,
        map_bytes: workload.output_size() as u64,
    }
}

/// What the slots hold once the submission for `workload` has been carried
/// out.
pub open spec fn cache_after(cache: BufferCache, workload: Workload) -> BufferCache {
    let submission = submission_of(cache, workload);
    BufferCache {
        atoms: Some(submission.atoms.handle),
        residues: Some(submission.residues.handle),
        settings: Some(submission.settings.handle),
        output: Some(submission.output.handle),
        readback: Some(submission.readback.handle),
    }
}

/// How a call goes on.
pub enum Outcome {
    /// The call is rejected.
    Rejected(ArgumentError),
    /// There are no cutoffs: the result is the matrix without rows and with
    /// a column for each target residue, and the accelerator is not used.
    Empty { target_count: nat },
    /// This work goes to the accelerator.
    Submitted(SubmissionView),
}

/// How the call for `workload` goes on in a session whose slots hold
/// `cache`.
pub open spec fn outcome_of(cache: BufferCache, workload: Workload) -> Outcome {
    match workload.rejection() {
        Some(reason) => Outcome::Rejected(reason),
        None => if workload.cutoff_count() == 0 {
            Outcome::Empty { target_count: workload.target_count() }
        } else {
            Outcome::Submitted(submission_of(cache, workload))
        },
    }
}

/// Serves `required` bytes from `held` and records what was done.
pub fn stage(
    slot: BufferSlot,
    held: &mut Option<BufferHandle>,
    required: u64,
    fresh: u64,
    upload: Option<Vec<u8>>,
) -> (step: BufferStep)
    requires
        fresh == grown_capacity(required as nat),
    ensures
        *final(held) == Some(step.handle),
        step@ == step_of(
            slot,
            *old(held),
            required as nat,
            match upload {
                Some(bytes) => Some(bytes@),
                None => None,
            },
        ),
{
    let (placement, handle) = place(held, required, fresh, slot.usage());
    BufferStep { slot, placement, handle, upload }
}

/// The bytes of an output with one value for each pair of target residue
/// and cutoff; `None` where they do not fit 64 bits.
pub fn output_size(target_count: u32, cutoff_count: u32) -> (size: Option<u64>)
    ensures
        size is Some <==> output_bytes(target_count as nat, cutoff_count as nat) <= u64::MAX,
        size matches Some(bytes) ==> bytes == output_bytes(target_count as nat, cutoff_count as nat),
{
    assert(target_count * cutoff_count <= 0xffff_ffff * 0xffff_ffff) by (nonlinear_arith)
        requires
            target_count <= 0xffff_ffff,
            cutoff_count <= 0xffff_ffff,
    ;
    let cells: u64 = (target_count as u64) * (cutoff_count as u64);
    assert(4 * (target_count as nat) * (cutoff_count as nat) == 4 * (cells as nat))
        by (nonlinear_arith)
        requires
            cells == target_count * cutoff_count,
    ;
    cells.checked_mul(4)
}

/// Carrying out a submission leaves the slots in order: each buffer covers
/// what the call needs of it, keeps the usage of its slot, and the readback
/// buffer mirrors the output buffer.
pub proof fn lemma_cache_after_wf(cache: BufferCache, workload: Workload)
    requires
        cache.wf(),
        workload.rejection() is None,
        workload.cutoff_count() > 0,
    ensures
        cache_after(cache, workload).wf(),
        submission_of(cache, workload).atoms.handle.capacity >= 16 * workload.atom_count(),
        submission_of(cache, workload).residues.handle.capacity >= 8 * workload.residue_count(),
        submission_of(cache, workload).settings.handle.capacity >= 12 + 4 * workload.cutoff_count(),
        submission_of(cache, workload).output.handle.capacity >= workload.output_size(),
        submission_of(cache, workload).readback.handle.capacity >= workload.output_size(),
        submission_of(cache, workload).copy_bytes == submission_of(
            cache,
            workload,
        ).output.handle.capacity,
        submission_of(cache, workload).copy_bytes == submission_of(
            cache,
            workload,
        ).readback.handle.capacity,
        submission_of(cache, workload).map_bytes == workload.output_size(),
        submission_of(cache, workload).map_bytes <= submission_of(cache, workload).copy_bytes,
{
    lemma_workload_sizes(workload);
    let atoms = workload.atoms_upload().len() as u64;
    let residues = workload.residues_upload().len() as u64;
    let settings = workload.settings_upload().len() as u64;
    let output = workload.output_size() as u64;
    lemma_grown_capacity_bounds(atoms as nat);
    lemma_grown_capacity_bounds(settings as nat);
    lemma_grown_capacity_bounds(output as nat);
    lemma_ensured_covers(cache.atoms, atoms, BufferSlot::Atoms.usage());
    lemma_ensured_covers(cache.residues, residues, BufferSlot::Residues.usage());
    lemma_ensured_covers(cache.settings, settings, BufferSlot::Settings.usage());
    lemma_ensured_covers(cache.output, output, BufferSlot::Output.usage());
    lemma_ensured_covers(cache.readback, output, BufferSlot::Readback.usage());
}

/// The sizes of the uploads of a call that is accepted: sixteen bytes for
/// each atom, eight for each residue, twelve and four for each cutoff.
pub proof fn lemma_workload_sizes(workload: Workload)
    requires
        workload.rejection() is None,
        workload.cutoff_count() > 0,
    ensures
        workload.atoms_upload().len() == 16 * workload.atom_count(),
        workload.residues_upload().len() == 8 * workload.residue_count(),
        workload.settings_upload().len() == 12 + 4 * workload.cutoff_count(),
        workload.atoms_upload().len() <= u64::MAX,
        workload.residues_upload().len() <= u64::MAX,
        workload.settings_upload().len() <= u64::MAX,
        workload.output_size() <= u64::MAX,
{
    lemma_grown_capacity_bounds(8 * workload.residue_count());
    lemma_grown_capacity_bounds(workload.output_size());
}

/// The range that the driver maps holds exactly one value for each cell
/// of the matrix in flight: handing back that many bytes, and only that,
/// completes the call.
pub proof fn lemma_mapped_range_fills_the_matrix(cache: BufferCache, workload: Workload, bytes: Seq<u8>)
    requires
        workload.rejection() is None,
        workload.cutoff_count() > 0,
    ensures
        workload.cutoff_count() <= usize::MAX,
        workload.target_count() <= usize::MAX,
        fills(bytes, workload.cutoff_count() as usize, workload.target_count() as usize)
            <==> bytes.len() == submission_of(cache, workload).map_bytes,
{
    lemma_workload_sizes(workload);
    let rows = workload.cutoff_count() as int;
    let cols = workload.target_count() as int;
    assert(4 * (rows * cols) == 4 * cols * rows) by (nonlinear_arith);
}

/// The bytes that are read back when a kernel has run on a submission:
/// what the kernel makes of the three uploads and the grid, cut to the
/// range that is mapped.
pub open spec fn read_back(
    kernel: spec_fn(Seq<u8>, Seq<u8>, Seq<u8>, DispatchGrid) -> Seq<u8>,
    submission: SubmissionView,
) -> Seq<u8> {
    kernel(
        submission.atoms.upload->0,
        submission.residues.upload->0,
        submission.settings.upload->0,
        submission.grid,
    ).take(submission.map_bytes as int)
}

/// The same call gives the same bytes to read, and so the same matrix,
/// on any session: whatever kernel runs, as long as its output is a
/// function of what is uploaded and of the grid, what a larger call before
/// left in the buffers does not reach the result.
pub proof fn lemma_same_call_reads_the_same(
    kernel: spec_fn(Seq<u8>, Seq<u8>, Seq<u8>, DispatchGrid) -> Seq<u8>,
    cache: BufferCache,
    other: BufferCache,
    workload: Workload,
)
    requires
        workload.rejection() is None,
        workload.cutoff_count() > 0,
    ensures
        read_back(kernel, submission_of(cache, workload)) == read_back(
            kernel,
            submission_of(other, workload),
        ),
        words_from_le(read_back(kernel, submission_of(cache, workload))) == words_from_le(
            read_back(kernel, submission_of(other, workload)),
        ),
{
}

/// Restricting the targets hides no atom from the kernel: whatever the
/// target range, the same atoms and the same table of all residues are
/// uploaded, and the settings carry the same number of atoms.
pub proof fn lemma_range_hides_no_atoms(
    cache: BufferCache,
    workload: Workload,
    range: TargetRange,
)
    ensures
        ({
            let other = Workload { range, ..workload };
            let here = submission_of(cache, workload);
            let there = submission_of(cache, other);
            &&& here.atoms == there.atoms
            &&& here.residues == there.residues
            &&& other.atom_count() == workload.atom_count()
            &&& other.residue_count() == workload.residue_count()
        }),
{
}

/// Computing one cutoff at a time is served wherever computing all at
/// once is: the call for any single one of the cutoffs is accepted, sends
/// the same atoms and residues, carries that cutoff alone in its settings,
/// and asks for one row of the same width.
pub proof fn lemma_one_cutoff_at_a_time(cache: BufferCache, workload: Workload, k: int)
    requires
        workload.rejection() is None,
        0 <= k < workload.cutoff_count(),
    ensures
        ({
            let single = Workload { cutoffs: seq![workload.cutoffs[k]], ..workload };
            let all = submission_of(cache, workload);
            let one = submission_of(cache, single);
            &&& single.rejection() is None
            &&& one.atoms == all.atoms
            &&& one.residues == all.residues
            &&& one.settings.upload == Some(
                settings_bytes(
                    workload.atom_count() as u32,
                    workload.target_count() as u32,
                    workload.target_start() as u32,
                    seq![workload.cutoffs[k]],
                ),
            )
            &&& one.grid == DispatchGrid { x: all.grid.x, y: 1, z: 1 }
            &&& one.map_bytes == 4 * workload.target_count()
        }),
{
    let single = Workload { cutoffs: seq![workload.cutoffs[k]], ..workload };
    let targets = workload.target_count();
    let cutoffs = workload.cutoff_count();
    assert(output_bytes(targets, 1) <= output_bytes(targets, cutoffs)) by (nonlinear_arith)
        requires
            cutoffs >= 1,
            output_bytes(targets, 1) == 4 * targets * 1,
            output_bytes(targets, cutoffs) == 4 * targets * cutoffs,
    ;
    lemma_grown_capacity_monotonic(output_bytes(targets, 1), output_bytes(targets, cutoffs));
    lemma_workload_sizes(single);
}

/// A call without cutoffs that is consistent is never rejected, whatever
/// the size of the structure: its result is the matrix without rows and
/// with one column for each target residue.
pub proof fn lemma_no_cutoffs_gives_empty_matrix(cache: BufferCache, workload: Workload)
    requires
        workload.consistent(),
        workload.cutoff_count() == 0,
    ensures
        outcome_of(cache, workload) == (Outcome::Empty { target_count: workload.target_count() }),
{
}

/// Asking for all residues from zero up to their number is the same call
/// as asking without limits: the same outcome and the same slots after it.
pub proof fn lemma_whole_range_is_unrestricted(
    cache: BufferCache,
    counts: Seq<u32>,
    atoms: Seq<u32>,
    cutoffs: Seq<u32>,
)
    requires
        counts.len() <= usize::MAX,
    ensures
        ({
            let unrestricted = Workload { counts, atoms, range: TargetRange::all(), cutoffs };
            let whole = Workload {
                counts,
                atoms,
                range: TargetRange::new(0, counts.len() as usize),
                cutoffs,
            };
            &&& outcome_of(cache, whole) == outcome_of(cache, unrestricted)
            &&& cache_after(cache, whole) == cache_after(cache, unrestricted)
            &&& whole.target_count() == counts.len()
        }),
{
}

/// What a call sends and reads does not depend on what the session's slots
/// hold, and so not on the calls before it: whether it is rejected and why,
/// the bytes written to the three uploaded buffers, the grid, and the number
/// of bytes mapped and read are those of the same call on any other
/// session. Only which buffers are kept, and how large they are, differs.
pub proof fn lemma_payload_independent_of_session(
    cache: BufferCache,
    other: BufferCache,
    workload: Workload,
)
    ensures
        outcome_of(cache, workload) is Rejected <==> outcome_of(other, workload) is Rejected,
        outcome_of(cache, workload) is Rejected ==> outcome_of(cache, workload) == outcome_of(
            other,
            workload,
        ),
        outcome_of(cache, workload) is Empty ==> outcome_of(cache, workload) == outcome_of(
            other,
            workload,
        ),
        outcome_of(cache, workload) matches Outcome::Submitted(here) ==> outcome_of(
            other,
            workload,
        ) matches Outcome::Submitted(there) && here.atoms.upload == there.atoms.upload
            && here.residues.upload == there.residues.upload && here.settings.upload
            == there.settings.upload && here.output.upload == there.output.upload
            && here.readback.upload == there.readback.upload && here.grid == there.grid
            && here.map_bytes == there.map_bytes && here.atoms.handle.size
            == there.atoms.handle.size && here.residues.handle.size == there.residues.handle.size
            && here.settings.handle.size == there.settings.handle.size && here.output.handle.size
            == there.output.handle.size && here.readback.handle.size == there.readback.handle.size,
{
}

} // verus!
