//! The engine: one session with the accelerator, as the host sees it.
//!
//! The engine owns the session's five buffers and is used by one caller at
//! a time. A call has two halves. [`Engine::run`] validates the arguments,
//! lays out the data and says what the accelerator is to do;
//! [`Engine::complete`] turns what was read back into the matrix. Between
//! the two the work is in flight, and the engine takes no other call.

use crate::buffer::{grow, lemma_grown_capacity_bounds, BufferCache, BufferSlot};
use crate::bytes::{encode_words, lemma_words_round_trip, words_from_le};
use crate::dispatch::{
    cache_after, lemma_cache_after_wf, outcome_of, output_bytes, output_size, stage,
    DispatchGrid, Outcome, Submission, Workload,
};
use crate::error::{ArgumentError, EngineError, InitializationError, ReadbackError};
use crate::layout::{count_atoms, table_words, ResidueTable};
use crate::matrix::ResultMatrix;
use crate::range::TargetRange;
use crate::readback::{fills, receive, ReadbackEvent};
use crate::settings::encode_settings;
use vstd::prelude::*;

verus! {

/// How the attempt to bring the accelerator up ended.
#[derive(Clone, Copy, Debug, PartialEq, Eq, Structural)]
pub enum Handshake {
    /// No compatible accelerator was found.
    NoAdapter,
    /// An accelerator was found, but no device or queue could be had.
    DeviceUnavailable,
    /// Device, queue and pipeline are in place.
    Ready,
}

/// Where a session stands.
#[derive(Clone, Copy, Debug, PartialEq, Eq, Structural)]
pub enum Phase {
    /// No work is in flight.
    Idle,
    /// Work for a matrix of `rows` cutoffs by `cols` target residues was
    /// submitted and has not been read back.
    InFlight { rows: usize, cols: usize },
    /// Reading back failed; the session is to be discarded.
    Lost,
}

/// What a call needs next.
#[derive(Debug, PartialEq, Eq)]
pub enum Step {
    /// Nothing: the result is known without the accelerator.
    Done(ResultMatrix),
    /// This work on the accelerator, followed by [`Engine::complete`].
    Submit(Submission),
}

/// A session with the accelerator.
#[derive(Debug)]
pub struct Engine {
    cache: BufferCache,
    phase: Phase,
}

impl Engine {
    /// What the session's slots hold.
    pub closed spec fn cache_spec(&self) -> BufferCache {
        self.cache
    }

    /// Where the session stands.
    pub closed spec fn phase_spec(&self) -> Phase {
        self.phase
    }

    /// The slots are in order, and while work is in flight the readback
    /// buffer has one value in use for each cell of the matrix awaited.
    pub open spec fn wf(&self) -> bool {
        &&& self.cache_spec().wf()
        &&& self.phase_spec() matches Phase::InFlight { rows, cols }
            ==> self.cache_spec().readback matches Some(handle) && handle.size == 4 * (rows
            * cols)
    }

    #[verifier::type_invariant]
    spec fn inv(&self) -> bool {
        self.wf()
    }

    /// Opens a session, given how bringing the accelerator up ended. The
    /// session starts idle and without buffers.
    pub fn new(handshake: Handshake) -> (result: Result<Engine, EngineError>)
        ensures
            match handshake {
                Handshake::Ready => result matches Ok(engine) && engine.wf()
                    && engine.cache_spec() == BufferCache::empty() && engine.phase_spec()
                    == Phase::Idle,
                Handshake::NoAdapter => result matches Err(e) && e == EngineError::Initialization(
                    InitializationError::NoAdapter,
                ),
                Handshake::DeviceUnavailable => result matches Err(e) && e
                    == EngineError::Initialization(InitializationError::DeviceUnavailable),
            },
    {
        match handshake {
            Handshake::Ready => Ok(Engine { cache: BufferCache::empty(), phase: Phase::Idle }),
            Handshake::NoAdapter => Err(
                EngineError::Initialization(InitializationError::NoAdapter),
            ),
            Handshake::DeviceUnavailable => Err(
                EngineError::Initialization(InitializationError::DeviceUnavailable),
            ),
        }
    }

    /// What the session's slots hold.
    #[verifier::when_used_as_spec(cache_spec)]
    pub fn cache(&self) -> (cache: BufferCache)
        ensures
            cache == self.cache_spec(),
            self.wf(),
    {
        proof {
            use_type_invariant(self);
        }
        self.cache
    }

    /// Where the session stands.
    #[verifier::when_used_as_spec(phase_spec)]
    pub fn phase(&self) -> (phase: Phase)
        ensures
            phase == self.phase_spec(),
    {
        self.phase
    }

    /// Whether the session can take a call.
    pub fn is_idle(&self) -> (idle: bool)
        ensures
            idle == (self.phase_spec() == Phase::Idle),
    {
        match self.phase {
            Phase::Idle => true,
            _ => false,
        }
    }

    /// Starts the computation of the circular variance of the target
    /// residues at each cutoff.
    ///
    /// `residue_atom_counts` holds the number of atoms of each residue of
    /// the whole structure, `atoms_data` four numbers for each atom, and
    /// `cutoff_distances` the cutoffs; numbers are given by their
    /// single-precision bit patterns.
    ///
    /// A call that is rejected, and a call without cutoffs, leave the
    /// session as it was. Any other call yields the submission for the
    /// accelerator, which depends on the session only in which buffers are
    /// kept, and puts the session in flight.
    pub fn run(
        &mut self,
        residue_atom_counts: &[u32],
        atoms_data: &[u32],
        target_residue_range: TargetRange,
        cutoff_distances: &[u32],
    ) -> (result: Result<Step, EngineError>)
        requires
            old(self).phase_spec() == Phase::Idle,
        ensures
            final(self).wf(),
            ({
                let workload = Workload {
                    counts: residue_atom_counts@,
                    atoms: atoms_data@,
                    range: target_residue_range,
                    cutoffs: cutoff_distances@,
                };
                match outcome_of(old(self).cache_spec(), workload) {
                    Outcome::Rejected(reason) => {
                        &&& result matches Err(e) && e == EngineError::Argument(reason)
                        &&& final(self).cache_spec() == old(self).cache_spec()
                        &&& final(self).phase_spec() == Phase::Idle
                    },
                    Outcome::Empty { target_count } => {
                        &&& result matches Ok(Step::Done(matrix)) && matrix.wf()
                            && matrix.rows_spec() == 0 && matrix.cols_spec() == target_count
                            && matrix.flat() == Seq::<u32>::empty()
                        &&& final(self).cache_spec() == old(self).cache_spec()
                        &&& final(self).phase_spec() == Phase::Idle
                    },
                    Outcome::Submitted(view) => {
                        &&& result matches Ok(Step::Submit(submission)) && submission@ == view
                        &&& final(self).cache_spec() == cache_after(old(self).cache_spec(), workload)
                        &&& final(self).phase_spec() == Phase::InFlight {
                            rows: workload.cutoff_count() as usize,
                            cols: workload.target_count() as usize,
                        }
                    },
                }
            }),
    {
        let ghost workload = Workload {
            counts: residue_atom_counts@,
            atoms: atoms_data@,
            range: target_residue_range,
            cutoffs: cutoff_distances@,
        };
        proof {
            use_type_invariant(&*self);
        }
        let held = self.cache;

        // Validate before anything is laid out.
        let residue_count: usize = residue_atom_counts.len();
        let total: u128 = count_atoms(residue_atom_counts);
        if atoms_data.len() as u128 != 4 * total {
            return Err(EngineError::Argument(ArgumentError::AtomCountMismatch));
        }
        let (first, past) = match target_residue_range.resolve(residue_count) {
            Some(ends) => ends,
            None => {
                return Err(EngineError::Argument(ArgumentError::TargetRangeOutOfBounds));
            },
        };
        let target_count: usize = past - first;
        let cutoff_count: usize = cutoff_distances.len();
        if cutoff_count == 0 {
            return Ok(Step::Done(ResultMatrix::empty(target_count)));
        }
        // The counts that go into 32-bit fields.

        if total > 0xffff_ffff || first as u64 > 0xffff_ffff || target_count as u64 > 0xffff_ffff
            || cutoff_count as u64 > 0xffff_ffff {
            return Err(EngineError::Argument(ArgumentError::WorkloadTooLarge));
        }
        let atom_count: u32 = total as u32;
        let targets: u32 = target_count as u32;
        let cutoffs: u32 = cutoff_count as u32;

        // The capacities of new allocations, whether or not one is needed.
        let output_required: u64 = match output_size(targets, cutoffs) {
            Some(size) => size,
            None => {
                proof {
                    lemma_grown_capacity_bounds(output_bytes(targets as nat, cutoffs as nat));
                }
                return Err(EngineError::Argument(ArgumentError::WorkloadTooLarge));
            },
        };
        let output_fresh: u64 = match grow(output_required) {
            Some(capacity) => capacity,
            None => {
                return Err(EngineError::Argument(ArgumentError::WorkloadTooLarge));
            },
        };
        let table = match ResidueTable::build(residue_atom_counts) {
            Some(table) => table,
            None => {
                return Err(EngineError::Argument(ArgumentError::WorkloadTooLarge));
            },
        };
        let residues_upload = table.encode();
        let residues_required: u64 = residues_upload.len() as u64;
        proof {
            lemma_words_round_trip(table_words(table@));
        }
        let residues_fresh: u64 = match grow(residues_required) {
            Some(capacity) => capacity,
            None => {
                return Err(EngineError::Argument(ArgumentError::WorkloadTooLarge));
            },
        };

        let atoms_upload = encode_words(atoms_data);
        let atoms_required: u64 = atoms_upload.len() as u64;
        let settings_upload = encode_settings(atom_count, targets, first as u32, cutoff_distances);
        let settings_required: u64 = settings_upload.len() as u64;
        proof {
            lemma_words_round_trip(atoms_data@);
            lemma_grown_capacity_bounds(atoms_required as nat);
            lemma_grown_capacity_bounds(settings_required as nat);
        }
        let atoms_fresh: u64 = match grow(atoms_required) {
            Some(capacity) => capacity,
            None => {
                return Err(EngineError::Argument(ArgumentError::WorkloadTooLarge));
            },
        };
        let settings_fresh: u64 = match grow(settings_required) {
            Some(capacity) => capacity,
            None => {
                return Err(EngineError::Argument(ArgumentError::WorkloadTooLarge));
            },
        };

        // Serve the five buffers; nothing can fail from here on.
        let mut cache = held;
        let atoms = stage(
            BufferSlot::Atoms,
            &mut cache.atoms,
            atoms_required,
            atoms_fresh,
            Some(atoms_upload),
        );
        let residues = stage(
            BufferSlot::Residues,
            &mut cache.residues,
            residues_required,
            residues_fresh,
            Some(residues_upload),
        );
        let output = stage(
            BufferSlot::Output,
            &mut cache.output,
            output_required,
            output_fresh,
            None,
        );
        let readback = stage(
            BufferSlot::Readback,
            &mut cache.readback,
            output_required,
            output_fresh,
            None,
        );
        let settings = stage(
            BufferSlot::Settings,
            &mut cache.settings,
            settings_required,
            settings_fresh,
            Some(settings_upload),
        );
        let copy_bytes: u64 = readback.handle.capacity;
        let submission = Submission {
            atoms,
            residues,
            output,
            readback,
            settings,
            grid: DispatchGrid { x: targets, y: cutoffs, z: 1 },
            copy_bytes,
            map_bytes: output_required,
        };
        proof {
            lemma_cache_after_wf(held, workload);
            assert(output_required == 4 * (cutoff_count * target_count)) by (nonlinear_arith)
                requires
                    output_required == 4 * target_count * cutoff_count,
            ;
        }
        self.cache = cache;
        self.phase = Phase::InFlight { rows: cutoff_count, cols: target_count };
        Ok(Step::Submit(submission))
    }

    /// Ends the call that is in flight, given what the accelerator
    /// signalled for the map request.
    ///
    /// Mapped bytes that hold one value for each cell become the matrix,
    /// cutoff by cutoff, and the session is idle again. Any failure is
    /// final for the session. The buffers stay as they are either way.
    pub fn complete(&mut self, event: ReadbackEvent) -> (result: Result<ResultMatrix, EngineError>)
        requires
            old(self).phase_spec() is InFlight,
        ensures
            final(self).cache_spec() == old(self).cache_spec(),
            final(self).wf(),
            ({
                let rows = old(self).phase_spec()->rows;
                let cols = old(self).phase_spec()->cols;
                match event {
                    ReadbackEvent::Mapped(bytes) => if fills(bytes@, rows, cols) {
                        &&& result matches Ok(matrix) && matrix.wf() && matrix.rows_spec() == rows
                            && matrix.cols_spec() == cols && matrix.flat() == words_from_le(bytes@)
                        &&& final(self).phase_spec() == Phase::Idle
                    } else {
                        &&& result matches Err(e) && e == EngineError::Readback(
                            ReadbackError::SizeMismatch,
                        )
                        &&& final(self).phase_spec() == Phase::Lost
                    },
                    ReadbackEvent::MapFailed => {
                        &&& result matches Err(e) && e == EngineError::Readback(
                            ReadbackError::MapFailed,
                        )
                        &&& final(self).phase_spec() == Phase::Lost
                    },
                    ReadbackEvent::DeviceLost => {
                        &&& result matches Err(e) && e == EngineError::Readback(
                            ReadbackError::DeviceLost,
                        )
                        &&& final(self).phase_spec() == Phase::Lost
                    },
                }
            }),
    {
        proof {
            use_type_invariant(&*self);
        }
        match self.phase {
            Phase::InFlight { rows, cols } => match receive(rows, cols, event) {
                Ok(matrix) => {
                    self.phase = Phase::Idle;
                    Ok(matrix)
                },
                Err(failure) => {
                    self.phase = Phase::Lost;
                    Err(EngineError::Readback(failure))
                },
            },
            _ => Err(EngineError::Readback(ReadbackError::DeviceLost)),
        }
    }
}

} // verus!
