use molcv::error::{
    unknown_chain_message, ArgumentError, EngineError, ErrorKind, InitializationError,
    ReadbackError,
};

#[test]
fn every_failure_keeps_its_kind() {
    assert_eq!(
        EngineError::Initialization(InitializationError::NoAdapter).kind(),
        ErrorKind::Initialization
    );
    assert_eq!(
        EngineError::Argument(ArgumentError::AtomCountMismatch).kind(),
        ErrorKind::Argument
    );
    assert_eq!(EngineError::Readback(ReadbackError::DeviceLost).kind(), ErrorKind::Readback);
    assert_ne!(ErrorKind::Io, ErrorKind::Argument);
}

#[test]
fn messages_are_those_of_the_failure_inside() {
    assert_eq!(
        EngineError::Initialization(InitializationError::NoAdapter).message(),
        "Failed to request adapter"
    );
    assert_eq!(
        EngineError::Initialization(InitializationError::DeviceUnavailable).message(),
        "Failed to request device"
    );
    assert_eq!(
        EngineError::Readback(ReadbackError::MapFailed).message(),
        "Failed to run compute on gpu!"
    );
    assert_eq!(
        EngineError::Argument(ArgumentError::CutoffCountForAnnotation).message(),
        "Exactly one cutoff is supported when saving as a PDB file"
    );
    for reason in [
        ArgumentError::AtomCountMismatch,
        ArgumentError::TargetRangeOutOfBounds,
        ArgumentError::CutoffCountForAnnotation,
        ArgumentError::UnknownChain { requested: 2 },
        ArgumentError::ResultShapeMismatch,
        ArgumentError::WorkloadTooLarge,
    ] {
        assert!(!reason.message().is_empty());
        assert_eq!(EngineError::Argument(reason).message(), reason.message());
    }
    for failure in [ReadbackError::MapFailed, ReadbackError::DeviceLost, ReadbackError::SizeMismatch] {
        assert!(!failure.message().is_empty());
        assert_eq!(EngineError::Readback(failure).message(), failure.message());
    }
}

#[test]
fn unknown_chain_is_named_in_the_message() {
    assert_eq!(unknown_chain_message("B"), "Chain B not found");
    assert_eq!(unknown_chain_message(""), "Chain  not found");
}
