//! Failures, by kind.
//!
//! Every failure keeps its kind up to the caller: what was wrong with the
//! arguments, with bringing the accelerator up, or with reading results
//! back. Nothing is retried.

use vstd::prelude::*;
use vstd::string::StringExecFns;

verus! {

/// The four families of failure.
#[derive(Clone, Copy, Debug, PartialEq, Eq, Structural)]
pub enum ErrorKind {
    Initialization,
    Argument,
    Readback,
    Io,
}

/// The accelerator could not be brought up.
#[derive(Clone, Copy, Debug, PartialEq, Eq, Structural)]
pub enum InitializationError {
    /// No compatible accelerator was found.
    NoAdapter,
    /// The device or its queue could not be created.
    DeviceUnavailable,
}

/// A request was rejected before any work was issued.
#[derive(Clone, Copy, Debug, PartialEq, Eq, Structural)]
pub enum ArgumentError {
    /// The atom array does not hold four numbers for each atom that the
    /// residues count.
    AtomCountMismatch,
    /// The target range is not within the residues.
    TargetRangeOutOfBounds,
    /// An output that holds one value per residue was asked for together
    /// with a number of cutoffs other than one.
    CutoffCountForAnnotation,
    /// The requested chain at this position is not in the structure.
    UnknownChain { requested: usize },
    /// The matrix does not hold one value for each selected residue.
    ResultShapeMismatch,
    /// A count does not fit the kernel's 32-bit fields, or a buffer would
    /// not fit the accelerator's 64-bit sizes.
    WorkloadTooLarge,
}

/// Results could not be read back. The session is of no use afterwards.
#[derive(Clone, Copy, Debug, PartialEq, Eq, Structural)]
pub enum ReadbackError {
    /// The accelerator refused to map the staging buffer.
    MapFailed,
    /// The device was lost while the work was in flight.
    DeviceLost,
    /// The mapped range does not hold one value for each cell.
    SizeMismatch,
}

/// A failure of the engine.
#[derive(Clone, Copy, Debug, PartialEq, Eq, Structural)]
pub enum EngineError {
    Initialization(InitializationError),
    Argument(ArgumentError),
    Readback(ReadbackError),
}

impl InitializationError {
    pub open spec fn message_spec(self) -> Seq<char> {
        match self {
            InitializationError::NoAdapter => "Failed to request adapter"@,
            InitializationError::DeviceUnavailable => "Failed to request device"@,
        }
    }

    /// The text shown to a user.
    pub fn message(&self) -> (text: String)
        ensures
            text@ == self.message_spec(),
    {
        match self {
            InitializationError::NoAdapter => String::from_str("Failed to request adapter"),
            InitializationError::DeviceUnavailable => String::from_str("Failed to request device"),
        }
    }
}

impl ArgumentError {
    pub open spec fn message_spec(self) -> Seq<char> {
        match self {
            ArgumentError::AtomCountMismatch => "Atom data does not match the residue atom counts"@,
            ArgumentError::TargetRangeOutOfBounds => "Target residue range is out of bounds"@,
            ArgumentError::CutoffCountForAnnotation => "Exactly one cutoff is supported when saving as a PDB file"@,
            ArgumentError::UnknownChain { .. } => "Chain not found"@,
            ArgumentError::ResultShapeMismatch => "Result does not match the selected residues"@,
            ArgumentError::WorkloadTooLarge => "Structure is too large for the accelerator"@,
        }
    }

    /// The text shown to a user.
    pub fn message(&self) -> (text: String)
        ensures
            text@ == self.message_spec(),
    {
        match self {
            ArgumentError::AtomCountMismatch => String::from_str(
                "Atom data does not match the residue atom counts",
            ),
            ArgumentError::TargetRangeOutOfBounds => String::from_str(
                "Target residue range is out of bounds",
            ),
            ArgumentError::CutoffCountForAnnotation => String::from_str(
                "Exactly one cutoff is supported when saving as a PDB file",
            ),
            ArgumentError::UnknownChain { .. } => String::from_str("Chain not found"),
            ArgumentError::ResultShapeMismatch => String::from_str(
                "Result does not match the selected residues",
            ),
            ArgumentError::WorkloadTooLarge => String::from_str(
                "Structure is too large for the accelerator",
            ),
        }
    }
}

impl ReadbackError {
    pub open spec fn message_spec(self) -> Seq<char> {
        match self {
            ReadbackError::MapFailed => "Failed to run compute on gpu!"@,
            ReadbackError::DeviceLost => "Device lost while running compute on gpu"@,
            ReadbackError::SizeMismatch => "Result size does not match the request"@,
        }
    }

    /// The text shown to a user.
    pub fn message(&self) -> (text: String)
        ensures
            text@ == self.message_spec(),
    {
        match self {
            ReadbackError::MapFailed => String::from_str("Failed to run compute on gpu!"),
            ReadbackError::DeviceLost => String::from_str(
                "Device lost while running compute on gpu",
            ),
            ReadbackError::SizeMismatch => String::from_str(
                "Result size does not match the request",
            ),
        }
    }
}

impl EngineError {
    pub open spec fn kind_spec(&self) -> ErrorKind {
        match self {
            EngineError::Initialization(_) => ErrorKind::Initialization,
            EngineError::Argument(_) => ErrorKind::Argument,
            EngineError::Readback(_) => ErrorKind::Readback,
        }
    }

    pub open spec fn message_spec(self) -> Seq<char> {
        match self {
            EngineError::Initialization(e) => e.message_spec(),
            EngineError::Argument(e) => e.message_spec(),
            EngineError::Readback(e) => e.message_spec(),
        }
    }

    /// The family this failure belongs to.
    #[verifier::when_used_as_spec(kind_spec)]
    pub fn kind(&self) -> (kind: ErrorKind)
        ensures
            kind == self.kind_spec(),
    {
        match self {
            EngineError::Initialization(_) => ErrorKind::Initialization,
            EngineError::Argument(_) => ErrorKind::Argument,
            EngineError::Readback(_) => ErrorKind::Readback,
        }
    }

    /// The text shown to a user: that of the failure inside.
    pub fn message(&self) -> (text: String)
        ensures
            text@ == self.message_spec(),
    {
        match self {
            EngineError::Initialization(e) => e.message(),
            EngineError::Argument(e) => e.message(),
            EngineError::Readback(e) => e.message(),
        }
    }
}

/// The text for a requested chain that the structure does not have.
pub fn unknown_chain_message(chain: &str) -> (text: String)
    ensures
        text@ == "Chain "@ + chain@ + " not found"@,
{
    String::from_str("Chain ").concat(chain).concat(" not found")
}

} // verus!
