//! Non-blocking word-at-a-time decisions over the UART's raw buffer
//! primitives.
//!
//! The raw read and write move as many bytes as the port can take and report
//! how many they moved; the word interface turns a zero-byte outcome into a
//! would-block signal. The byte movement itself is outside work; these
//! functions take its reported outcome and decide what the word call returns.

use vstd::prelude::*;
use crate::spi::NbError;

verus! {

/// Decides a non-blocking single-word read from the raw read's outcome:
/// `bytes_read` bytes arrived, the first of them being `word`. Zero bytes
/// means no word is available and the call would block; otherwise the word
/// is returned.
pub fn read_word_outcome(bytes_read: usize, word: u8) -> (r: Result<u8, NbError>)
    ensures
        bytes_read == 0 ==> r == Err::<u8, NbError>(NbError::WouldBlock),
        bytes_read > 0 ==> r == Ok::<u8, NbError>(word),
{
    if bytes_read == 0 {
        Err(NbError::WouldBlock)
    } else {
        Ok(word)
    }
}

/// Decides a non-blocking single-word write from the raw write's outcome:
/// `bytes_written` of the one offered byte were accepted. Zero means the
/// port took nothing and the call would block; otherwise the word was sent.
pub fn write_word_outcome(bytes_written: usize) -> (r: Result<(), NbError>)
    ensures
        bytes_written == 0 ==> r == Err::<(), NbError>(NbError::WouldBlock),
        bytes_written > 0 ==> r == Ok::<(), NbError>(()),
{
    if bytes_written == 0 {
        Err(NbError::WouldBlock)
    } else {
        Ok(())
    }
}

} // verus!
