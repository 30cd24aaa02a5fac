//! Abstract bus operations and the segment mapper.
//!
//! An [`Operation`] is a caller-facing bus action; a [`Segment`] is the
//! internal transaction unit the executor runs. The mapper is a pure, total,
//! order-preserving transform from operations to segments, seeded with an
//! ambient configuration snapshot (clock speed, bits per word) read once per
//! call so every segment of one transaction shares a consistent baseline.

use vstd::prelude::*;

verus! {

/// A caller-supplied abstract bus operation. Ordering is significant.
#[derive(Clone, Debug, PartialEq, Eq)]
pub enum Operation {
    /// Read bytes into the buffer; its length gives the number of bytes.
    Read(Vec<u8>),
    /// Write the buffer's bytes, discarding whatever is received.
    Write(Vec<u8>),
    /// Full-duplex transfer: read into the first buffer while writing the
    /// second. The two buffers are distinct storage.
    Transfer(Vec<u8>, Vec<u8>),
    /// Full-duplex transfer where the read and the write alias the same
    /// storage: the buffer's prior bytes are transmitted and it is then
    /// overwritten with the bytes received.
    TransferInPlace(Vec<u8>),
    /// Wait at least the given number of nanoseconds before the next segment.
    DelayNs(u32),
}

/// One ordered unit of a bus transaction.
///
/// A segment with neither a destination nor a source is a pure-delay
/// segment and performs no data transfer. A `clock_speed` or `bits_per_word`
/// of zero means the device's currently configured value.
#[derive(Clone, Debug, PartialEq, Eq)]
pub struct Segment {
    /// Destination buffer: receives bytes, as many as its length.
    pub read: Option<Vec<u8>>,
    /// Source buffer: supplies the bytes transmitted.
    pub write: Option<Vec<u8>>,
    /// Clock speed for this segment, in Hz.
    pub clock_speed: u32,
    /// Wait after this segment completes, in microseconds.
    pub delay_us: u32,
    /// Word width for this segment, in bits.
    pub bits_per_word: u8,
    /// When true, the select line is briefly released after this segment.
    /// The mapper never sets it: one mapped transaction is a single
    /// select-asserted window.
    pub ss_change: bool,
}

impl Segment {
    /// True when the segment carries no buffer at all and exists only for
    /// its post-segment delay.
    pub open spec fn spec_is_pure_delay(&self) -> bool {
        self.read is None && self.write is None
    }

    /// Constructs a segment with every setting given explicitly.
    pub fn with_settings(
        read: Option<Vec<u8>>,
        write: Option<Vec<u8>>,
        clock_speed: u32,
        delay_us: u32,
        bits_per_word: u8,
        ss_change: bool,
    ) -> (seg: Segment)
        ensures
            seg == (Segment { read, write, clock_speed, delay_us, bits_per_word, ss_change }),
    {
        Segment { read, write, clock_speed, delay_us, bits_per_word, ss_change }
    }

    /// Constructs a two-buffer full-duplex segment with device-default
    /// settings and no post-segment delay.
    pub fn new(read_buff: Vec<u8>, write_buff: Vec<u8>) -> (seg: Segment)
        ensures
            seg.read == Some(read_buff),
            seg.write == Some(write_buff),
            seg.clock_speed == 0,
            seg.delay_us == 0,
            seg.bits_per_word == 0,
            !seg.ss_change,
    {
        Segment {
            read: Some(read_buff),
            write: Some(write_buff),
            clock_speed: 0,
            delay_us: 0,
            bits_per_word: 0,
            ss_change: false,
        }
    }

    /// Constructs a read-only segment with device-default settings.
    pub fn with_read(read_buff: Vec<u8>) -> (seg: Segment)
        ensures
            seg.read == Some(read_buff),
            seg.write is None,
            seg.clock_speed == 0,
            seg.delay_us == 0,
            seg.bits_per_word == 0,
            !seg.ss_change,
    {
        Segment {
            read: Some(read_buff),
            write: None,
            clock_speed: 0,
            delay_us: 0,
            bits_per_word: 0,
            ss_change: false,
        }
    }

    /// Constructs a write-only segment with device-default settings.
    pub fn with_write(write_buff: Vec<u8>) -> (seg: Segment)
        ensures
            seg.read is None,
            seg.write == Some(write_buff),
            seg.clock_speed == 0,
            seg.delay_us == 0,
            seg.bits_per_word == 0,
            !seg.ss_change,
    {
        Segment {
            read: None,
            write: Some(write_buff),
            clock_speed: 0,
            delay_us: 0,
            bits_per_word: 0,
            ss_change: false,
        }
    }

    /// True when the segment carries no buffer at all.
    pub fn is_pure_delay(&self) -> (r: bool)
        ensures
            r == self.spec_is_pure_delay(),
    {
        self.read.is_none() && self.write.is_none()
    }
}

/// What the mapper produces for one operation under a configuration
/// snapshot `(clock_speed, bits_per_word)`:
/// - `Read(buf)` becomes a destination-only segment of `buf`'s length;
/// - `Write(buf)` becomes a source-only segment transmitting `buf`;
/// - `Transfer(r, w)` keeps both buffers;
/// - `TransferInPlace(buf)` becomes a segment whose source is an owned
///   snapshot of `buf`'s prior bytes and whose destination is `buf` — the
///   source never aliases the live destination;
/// - `DelayNs(ns)` becomes a pure-delay segment of `ns / 1000` microseconds,
///   truncating sub-microsecond remainders.
/// Every mapped segment carries the snapshot settings, a zero delay unless
/// it is a delay operation, and keeps the select line asserted.
pub open spec fn seg_matches_op(seg: Segment, op: Operation, clock_speed: u32, bits_per_word: u8) -> bool {
    &&& seg.clock_speed == clock_speed
    &&& seg.bits_per_word == bits_per_word
    &&& !seg.ss_change
    &&& match op {
        Operation::Read(buf) => {
            &&& seg.read matches Some(d) && d@ == buf@
            &&& seg.write is None
            &&& seg.delay_us == 0
        },
        Operation::Write(buf) => {
            &&& seg.read is None
            &&& seg.write matches Some(s) && s@ == buf@
            &&& seg.delay_us == 0
        },
        Operation::Transfer(rbuf, wbuf) => {
            &&& seg.read matches Some(d) && d@ == rbuf@
            &&& seg.write matches Some(s) && s@ == wbuf@
            &&& seg.delay_us == 0
        },
        Operation::TransferInPlace(buf) => {
            &&& seg.read matches Some(d) && d@ == buf@
            &&& seg.write matches Some(s) && s@ == buf@
            &&& seg.delay_us == 0
        },
        Operation::DelayNs(ns) => {
            &&& seg.spec_is_pure_delay()
            &&& seg.delay_us == ns / 1000
        },
    }
}

/// Copies a byte buffer into an owned snapshot with identical contents.
pub fn snapshot_bytes(buf: &Vec<u8>) -> (copy: Vec<u8>)
    ensures
        copy@ == buf@,
{
    let mut copy: Vec<u8> = Vec::new();
    let mut i: usize = 0;
    while i < buf.len()
        invariant
            i <= buf@.len(),
            copy@ == buf@.subrange(0, i as int),
        decreases buf@.len() - i,
    {
        copy.push(buf[i]);
        assert(copy@ == buf@.subrange(0, i + 1 as int));
        i = i + 1;
    }
    assert(copy@ == buf@);
    copy
}

/// Maps one operation to its segment under the given configuration snapshot.
/// The transform is total: no operation can fail to map.
pub fn map_operation(op: &Operation, clock_speed: u32, bits_per_word: u8) -> (seg: Segment)
    ensures
        seg_matches_op(seg, *op, clock_speed, bits_per_word),
{
    match op {
        Operation::Read(buf) => Segment::with_settings(
            Some(snapshot_bytes(buf)),
            None,
            clock_speed,
            0,
            bits_per_word,
            false,
        ),
        Operation::Write(buf) => Segment::with_settings(
            None,
            Some(snapshot_bytes(buf)),
            clock_speed,
            0,
            bits_per_word,
            false,
        ),
        Operation::Transfer(rbuf, wbuf) => Segment::with_settings(
            Some(snapshot_bytes(rbuf)),
            Some(snapshot_bytes(wbuf)),
            clock_speed,
            0,
            bits_per_word,
            false,
        ),
        Operation::TransferInPlace(buf) => Segment::with_settings(
            Some(snapshot_bytes(buf)),
            Some(snapshot_bytes(buf)),
            clock_speed,
            0,
            bits_per_word,
            false,
        ),
        Operation::DelayNs(ns) => Segment::with_settings(
            None,
            None,
            clock_speed,
            *ns / 1000,
            bits_per_word,
            false,
        ),
    }
}

/// Maps an ordered operation sequence to its segment list: one segment per
/// operation, in the same order, each mapped under the same configuration
/// snapshot. The mapping is total and order-preserving.
pub fn map_operations(ops: &Vec<Operation>, clock_speed: u32, bits_per_word: u8) -> (segs: Vec<Segment>)
    ensures
        segs@.len() == ops@.len(),
        forall|i: int| 0 <= i < ops@.len() ==>
            seg_matches_op(#[trigger] segs@[i], ops@[i], clock_speed, bits_per_word),
{
    let mut segs: Vec<Segment> = Vec::new();
    let mut i: usize = 0;
    while i < ops.len()
        invariant
            i <= ops@.len(),
            segs@.len() == i,
            forall|j: int| 0 <= j < i ==>
                seg_matches_op(#[trigger] segs@[j], ops@[j], clock_speed, bits_per_word),
        decreases ops@.len() - i,
    {
        let seg = map_operation(&ops[i], clock_speed, bits_per_word);
        segs.push(seg);
        i = i + 1;
    }
    segs
}

/// An in-place transfer segment mapped from a buffer with prior content `C`
/// transmits exactly `C`: its source is the owned snapshot taken before the
/// transfer, so the bytes going out are the pre-call content even while the
/// destination — the same storage — is being overwritten. Its destination
/// receives exactly as many bytes as the buffer holds, so afterwards the
/// buffer holds the received bytes in full, never a mix of old and new.
pub proof fn lemma_in_place_transmits_prior_content(
    seg: Segment,
    buf: Vec<u8>,
    clock_speed: u32,
    bits_per_word: u8,
)
    requires
        seg_matches_op(seg, Operation::TransferInPlace(buf), clock_speed, bits_per_word),
    ensures
        seg.write matches Some(src) && src@ == buf@,
        seg.read matches Some(dst) && dst@.len() == buf@.len(),
{
}

/// In a mapped segment list the select line is never released between
/// segments: the whole list forms one select-asserted window.
pub proof fn lemma_mapped_single_select_window(
    segs: Seq<Segment>,
    ops: Seq<Operation>,
    clock_speed: u32,
    bits_per_word: u8,
)
    requires
        segs.len() == ops.len(),
        forall|i: int| 0 <= i < ops.len() ==>
            seg_matches_op(#[trigger] segs[i], ops[i], clock_speed, bits_per_word),
    ensures
        forall|i: int| 0 <= i < segs.len() ==> !(#[trigger] segs[i]).ss_change,
{
}

} // verus!
