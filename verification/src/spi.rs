//! The SPI bus model, the non-blocking single-byte adapter, and the
//! segmented-transaction device.
//!
//! [`Spi`] models what the bridging logic reads of the bus: its configured
//! clock speed and word width (the ambient configuration snapshot) and the
//! one-byte cache behind the non-blocking adapter. The physical transfers
//! themselves are outside work performed by the caller, which hands the
//! received bytes back into this model.

use vstd::prelude::*;
use crate::error::Error;
use crate::segment::{snapshot_bytes, Operation, Segment, seg_matches_op};

verus! {

/// A non-blocking call's result: either a value, the signal that no result
/// is currently available, or a real failure.
#[derive(Clone, Copy, Debug, PartialEq, Eq, Structural)]
pub enum NbError {
    /// No result is available yet; nothing was attempted.
    WouldBlock,
    /// The underlying operation failed.
    Other(Error),
}

/// The bus as the bridging logic sees it: the ambient configuration and the
/// non-blocking adapter's cached byte.
///
/// The cache holds at most one received byte: `None` is the adapter's idle
/// state, `Some(b)` means a transfer already completed and `b` awaits
/// consumption. The adapter owns this cache exclusively; a new transfer
/// overwrites an unconsumed byte rather than queueing behind it.
pub struct Spi {
    clock_speed: u32,
    bits_per_word: u8,
    last_read: Option<u8>,
}

impl Spi {
    /// The configured clock speed, in Hz.
    pub closed spec fn spec_clock_speed(&self) -> u32 {
        self.clock_speed
    }

    /// The configured word width, in bits.
    pub closed spec fn spec_bits_per_word(&self) -> u8 {
        self.bits_per_word
    }

    /// The adapter's cached byte: `None` when idle.
    pub closed spec fn cached_byte(&self) -> Option<u8> {
        self.last_read
    }

    /// Constructs a bus model from its configuration. The adapter starts
    /// idle: no byte is cached before the first write.
    pub fn new(clock_speed: u32, bits_per_word: u8) -> (bus: Spi)
        ensures
            bus.spec_clock_speed() == clock_speed,
            bus.spec_bits_per_word() == bits_per_word,
            bus.cached_byte() is None,
    {
        Spi { clock_speed, bits_per_word, last_read: None }
    }

    /// The configured clock speed, read once per transaction to seed the
    /// mapped segments.
    pub fn clock_speed(&self) -> (speed: u32)
        ensures
            speed == self.spec_clock_speed(),
    {
        self.clock_speed
    }

    /// The configured word width, read once per transaction to seed the
    /// mapped segments.
    pub fn bits_per_word(&self) -> (bits: u8)
        ensures
            bits == self.spec_bits_per_word(),
    {
        self.bits_per_word
    }

    /// What a non-blocking read returns in a given adapter state: the cached
    /// byte when one awaits, the would-block signal when the adapter is idle.
    pub open spec fn spec_read_result(&self) -> Result<u8, NbError> {
        match self.cached_byte() {
            Some(b) => Ok(b),
            None => Err(NbError::WouldBlock),
        }
    }

    /// The adapter state after a write completes having physically received
    /// `received`: that byte is cached, the configuration is untouched.
    pub closed spec fn spec_after_write(&self, received: u8) -> Spi {
        Spi { last_read: Some(received), ..*self }
    }

    /// The non-blocking read: consumes and returns the cached byte if one
    /// awaits, and signals would-block otherwise. It never drives the bus —
    /// only a write does — so before any write it always would-block.
    pub fn read(&mut self) -> (r: Result<u8, NbError>)
        ensures
            r == old(self).spec_read_result(),
            final(self).cached_byte() is None,
            final(self).spec_clock_speed() == old(self).spec_clock_speed(),
            final(self).spec_bits_per_word() == old(self).spec_bits_per_word(),
    {
        match self.last_read.take() {
            Some(b) => Ok(b),
            None => Err(NbError::WouldBlock),
        }
    }

    /// Completes a non-blocking write: the one byte physically received
    /// during the write's full-duplex transfer becomes the new cached byte,
    /// overwriting — and silently discarding — any byte not yet consumed.
    pub fn complete_write(&mut self, received: u8)
        ensures
            *final(self) == old(self).spec_after_write(received),
            final(self).cached_byte() == Some(received),
            final(self).spec_clock_speed() == old(self).spec_clock_speed(),
            final(self).spec_bits_per_word() == old(self).spec_bits_per_word(),
    {
        self.last_read = Some(received);
    }

    /// The non-blocking flush: this bus has no internal software queue, so
    /// there is never anything to wait for and flushing always succeeds.
    pub fn flush(&self) -> (r: Result<(), Error>)
        ensures
            r == Ok::<(), Error>(()),
    {
        Ok(())
    }
}

/// On a fresh or otherwise idle adapter — before any write has completed —
/// a read always signals would-block, never a data value: only a write
/// drives the bus.
pub proof fn lemma_idle_adapter_would_block(bus: Spi)
    requires
        bus.cached_byte() is None,
    ensures
        bus.spec_read_result() == Err::<u8, NbError>(NbError::WouldBlock),
{
}

/// Adapter round trip: after a write completes, a read returns exactly the
/// byte physically received during that write's transfer — whatever byte was
/// transmitted, and whatever unconsumed byte the cache held before — and the
/// adapter is idle again afterwards.
pub proof fn lemma_adapter_round_trip(bus: Spi, received: u8)
    ensures
        bus.spec_after_write(received).spec_read_result() == Ok::<u8, NbError>(received),
        bus.spec_after_write(received).cached_byte() == Some(received),
{
}

/// The in-place transfer's outgoing half: an owned snapshot of the buffer's
/// bytes before the call, taken so that the live destination never aliases
/// the source during the transfer. These are exactly the bytes transmitted.
pub fn in_place_source(buf: &Vec<u8>) -> (source: Vec<u8>)
    ensures
        source@ == buf@,
{
    snapshot_bytes(buf)
}

/// The in-place transfer's incoming half: the buffer ends up holding exactly
/// the bytes received during the transfer — never a mix of prior and new
/// content.
pub fn in_place_complete(buf: &mut Vec<u8>, received: Vec<u8>)
    requires
        received@.len() == old(buf)@.len(),
    ensures
        final(buf)@ == received@,
{
    *buf = received;
}

/// A device on the segmented-transaction engine. Slave-select is handled
/// once per whole transaction at the bus level, not per logical device.
pub struct SimpleHalSpiDevice {
    bus: Spi,
}

impl SimpleHalSpiDevice {
    /// The underlying bus model.
    pub closed spec fn spec_bus(&self) -> Spi {
        self.bus
    }

    /// Wraps a bus as a device.
    pub fn new(bus: Spi) -> (dev: SimpleHalSpiDevice)
        ensures
            dev.spec_bus() == bus,
    {
        SimpleHalSpiDevice { bus }
    }

    /// Gives the bus back.
    pub fn into_bus(self) -> (bus: Spi)
        ensures
            bus == self.spec_bus(),
    {
        self.bus
    }

    /// Maps a transaction's operations to the segment list the executor
    /// runs: the bus configuration is read once, and every operation becomes
    /// one segment, in order, under that shared snapshot, so the whole list
    /// executes as a single select-asserted window.
    pub fn map_transaction(&self, operations: &Vec<Operation>) -> (segs: Vec<Segment>)
        ensures
            segs@.len() == operations@.len(),
            forall|i: int| 0 <= i < operations@.len() ==> seg_matches_op(
                #[trigger] segs@[i],
                operations@[i],
                self.spec_bus().spec_clock_speed(),
                self.spec_bus().spec_bits_per_word(),
            ),
    {
        let clock_speed = self.bus.clock_speed();
        let bits_per_word = self.bus.bits_per_word();
        crate::segment::map_operations(operations, clock_speed, bits_per_word)
    }
}

} // verus!
