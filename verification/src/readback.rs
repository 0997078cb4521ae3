//! Reading results back.
//!
//! After the work is submitted the readback buffer is mapped for reading.
//! The accelerator signals once, with success or failure, and the caller
//! waits for that signal. On success the mapped bytes are read as packed
//! little-endian 32-bit values, one for each cell of the matrix, and the
//! mapping is released before the session is used again.

use crate::bytes::{decode_words, words_from_le};
use crate::error::ReadbackError;
use crate::matrix::ResultMatrix;
use vstd::prelude::*;

verus! {

/// What the accelerator signalled for a map request.
#[derive(Debug, PartialEq, Eq)]
pub enum ReadbackEvent {
    /// The range was mapped; these are its bytes, copied out.
    Mapped(Vec<u8>),
    /// The accelerator refused the mapping.
    MapFailed,
    /// The device went away before it signalled.
    DeviceLost,
}

/// Whether `bytes` hold one 32-bit value for each cell of a matrix of
/// `rows` by `cols`.
pub open spec fn fills(bytes: Seq<u8>, rows: usize, cols: usize) -> bool {
    bytes.len() == 4 * (rows * cols)
}

/// The matrix of `rows` cutoffs by `cols` target residues that the signal
/// carries, or the failure it stands for.
pub fn receive(rows: usize, cols: usize, event: ReadbackEvent) -> (result: Result<
    ResultMatrix,
    ReadbackError,
>)
    ensures
        match event {
            ReadbackEvent::Mapped(bytes) => if fills(bytes@, rows, cols) {
                result matches Ok(matrix) && matrix.wf() && matrix.rows_spec() == rows
                    && matrix.cols_spec() == cols && matrix.flat() == words_from_le(bytes@)
            } else {
                result == Err::<ResultMatrix, ReadbackError>(ReadbackError::SizeMismatch)
            },
            ReadbackEvent::MapFailed => result == Err::<ResultMatrix, ReadbackError>(
                ReadbackError::MapFailed,
            ),
            ReadbackEvent::DeviceLost => result == Err::<ResultMatrix, ReadbackError>(
                ReadbackError::DeviceLost,
            ),
        },
{
    match event {
        ReadbackEvent::Mapped(bytes) => {
            match decode_words(bytes.as_slice()) {
                Some(words) => match ResultMatrix::assemble(words, rows, cols) {
                    Some(matrix) => Ok(matrix),
                    None => Err(ReadbackError::SizeMismatch),
                },
                None => Err(ReadbackError::SizeMismatch),
            }
        },
        ReadbackEvent::MapFailed => Err(ReadbackError::MapFailed),
        ReadbackEvent::DeviceLost => Err(ReadbackError::DeviceLost),
    }
}

} // verus!
