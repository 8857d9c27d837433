//! The distributed trace identifier and its per-thread slot.
//!
//! A trace identifier names one hop of a distributed call chain: a chain id
//! shared by every hop of the chain, a span id for the hop itself, the span
//! id of the hop that caused it, and a set of behaviour flags.  An identifier
//! is valid exactly when its chain id is non-zero.  Identifiers are plain
//! values, copied by assignment; the only shared state is the per-thread
//! slot, modelled here by [`HiTraceChain`].
//!
//! Identifiers travel across process boundaries as a fixed 16-byte encoding:
//! one 64-bit word holding the chain id (60 bits wide), and one packing the
//! flag set (12 bits), the span id (26 bits) and the parent span id (26
//! bits), each word in little-endian byte order.  The field widths cap what a
//! well-formed identifier may hold; the setters truncate accordingly.

use vstd::prelude::*;

verus! {

/// Largest chain id: the chain id occupies 60 bits of the transport encoding.
pub const CHAIN_ID_MAX: u64 = 0x0FFF_FFFF_FFFF_FFFF;

/// Largest span id and parent span id: each occupies 26 bits of the
/// transport encoding.
pub const SPAN_ID_MAX: u64 = 0x03FF_FFFF;

/// Largest flag set: the flag set occupies 12 bits of the transport encoding.
pub const FLAGS_MAX: i32 = 0x0FFF;

/// Width in bytes of the canonical identifier encoding.
pub const ID_BYTES_LEN: usize = 16;

/// One behaviour flag of a trace chain.
#[derive(Clone, Copy, Debug, PartialEq, Eq, Structural)]
pub enum HiTraceFlag {
    /// No flag: the default behaviour.
    Default,
    /// Trace asynchronous calls as well as synchronous ones.
    IncludeAsync,
    /// Do not create child spans.
    DoNotCreateSpan,
    /// Output tracepoint info in spans.
    TpInfo,
    /// Do not output begin and end info.
    NoBeInfo,
    /// Do not add the identifier to logs.
    DoNotEnableLog,
    /// The trace was triggered by a fault.
    FaultTrigger,
    /// Output device-to-device tracepoint info in spans only.
    D2dTpInfo,
}

/// The bit a flag contributes to a flag set.  `Default` contributes nothing;
/// every other flag owns one distinct bit.
pub open spec fn flag_bits(flag: HiTraceFlag) -> i32 {
    match flag {
        HiTraceFlag::Default => 0,
        HiTraceFlag::IncludeAsync => 1,
        HiTraceFlag::DoNotCreateSpan => 2,
        HiTraceFlag::TpInfo => 4,
        HiTraceFlag::NoBeInfo => 8,
        HiTraceFlag::DoNotEnableLog => 16,
        HiTraceFlag::FaultTrigger => 32,
        HiTraceFlag::D2dTpInfo => 64,
    }
}

impl HiTraceFlag {
    /// The bit this flag contributes to a flag set.
    pub fn bits(self) -> (r: i32)
        ensures
            r == flag_bits(self),
    {
        match self {
            HiTraceFlag::Default => 0,
            HiTraceFlag::IncludeAsync => 1,
            HiTraceFlag::DoNotCreateSpan => 2,
            HiTraceFlag::TpInfo => 4,
            HiTraceFlag::NoBeInfo => 8,
            HiTraceFlag::DoNotEnableLog => 16,
            HiTraceFlag::FaultTrigger => 32,
            HiTraceFlag::D2dTpInfo => 64,
        }
    }

    /// Combines two flags into a flag set, by bitwise or.
    pub fn bitor(self, rhs: Self) -> (r: i32)
        ensures
            r == (flag_bits(self) | flag_bits(rhs)),
    {
        self.bits() | rhs.bits()
    }
}

/// A tracepoint kind, as passed to the tracepoint call surface.
#[derive(Clone, Copy, Debug, PartialEq, Eq, Structural)]
pub enum HiTraceTracepointType {
    /// Client send.
    Cs,
    /// Client receive.
    Cr,
    /// Server send.
    Ss,
    /// Server receive.
    Sr,
    /// General info.
    General,
}

/// The wire code of a tracepoint kind.
pub open spec fn tracepoint_type_code(t: HiTraceTracepointType) -> i32 {
    match t {
        HiTraceTracepointType::Cs => 0,
        HiTraceTracepointType::Cr => 1,
        HiTraceTracepointType::Ss => 2,
        HiTraceTracepointType::Sr => 3,
        HiTraceTracepointType::General => 4,
    }
}

impl HiTraceTracepointType {
    /// The wire code of this tracepoint kind.
    pub fn code(self) -> (r: i32)
        ensures
            r == tracepoint_type_code(self),
    {
        match self {
            HiTraceTracepointType::Cs => 0,
            HiTraceTracepointType::Cr => 1,
            HiTraceTracepointType::Ss => 2,
            HiTraceTracepointType::Sr => 3,
            HiTraceTracepointType::General => 4,
        }
    }
}

/// A communication mode, as passed to the tracepoint call surface.
#[derive(Clone, Copy, Debug, PartialEq, Eq, Structural)]
pub enum HiTraceCommunicationMode {
    /// Unspecified communication mode.
    Default,
    /// Thread-to-thread communication.
    Thread,
    /// Process-to-process communication.
    Process,
    /// Device-to-device communication.
    Device,
}

/// The wire code of a communication mode.
pub open spec fn communication_mode_code(m: HiTraceCommunicationMode) -> i32 {
    match m {
        HiTraceCommunicationMode::Default => 0,
        HiTraceCommunicationMode::Thread => 1,
        HiTraceCommunicationMode::Process => 2,
        HiTraceCommunicationMode::Device => 3,
    }
}

impl HiTraceCommunicationMode {
    /// The wire code of this communication mode.
    pub fn code(self) -> (r: i32)
        ensures
            r == communication_mode_code(self),
    {
        match self {
            HiTraceCommunicationMode::Default => 0,
            HiTraceCommunicationMode::Thread => 1,
            HiTraceCommunicationMode::Process => 2,
            HiTraceCommunicationMode::Device => 3,
        }
    }
}

/// One trace identifier: a plain two-word value, copied by assignment.
#[derive(Clone, Copy, Debug, PartialEq, Eq, Structural)]
pub struct HiTraceIdStruct {
    /// Identifies one logical end-to-end call chain; zero means invalid.
    pub chain_id: u64,
    /// Identifies one hop within the chain.
    pub span_id: u64,
    /// The span id of the hop that caused this one, by value.
    pub parent_span_id: u64,
    /// The flag set, a bitwise or of [`flag_bits`] values.
    pub flags: i32,
}

/// Alias for [`HiTraceIdStruct`].
pub type HiTraceId = HiTraceIdStruct;

/// The distinguished invalid identifier: all fields zero.
pub open spec fn spec_invalid_id() -> HiTraceIdStruct {
    HiTraceIdStruct { chain_id: 0, span_id: 0, parent_span_id: 0, flags: 0 }
}

/// Returns the distinguished invalid identifier.
pub fn invalid_id() -> (r: HiTraceId)
    ensures
        r == spec_invalid_id(),
        !r.spec_valid(),
{
    HiTraceIdStruct { chain_id: 0, span_id: 0, parent_span_id: 0, flags: 0 }
}

impl HiTraceIdStruct {
    /// Every field fits its slot of the 16-byte transport encoding.  Every
    /// identifier this module hands out satisfies these bounds, and the
    /// setters truncate to keep them.
    pub open spec fn wf(self) -> bool {
        &&& self.chain_id <= CHAIN_ID_MAX
        &&& self.span_id <= SPAN_ID_MAX
        &&& self.parent_span_id <= SPAN_ID_MAX
        &&& 0 <= self.flags <= FLAGS_MAX
    }

    /// An identifier is valid exactly when its chain id is non-zero.
    pub open spec fn spec_valid(self) -> bool {
        self.chain_id != 0
    }

    /// `self` with the flag set replaced by `flags`.
    pub open spec fn with_flags(self, flags: i32) -> HiTraceIdStruct {
        HiTraceIdStruct {
            chain_id: self.chain_id,
            span_id: self.span_id,
            parent_span_id: self.parent_span_id,
            flags,
        }
    }

    /// `self` with the chain id replaced by `chain_id`.
    pub open spec fn with_chain_id(self, chain_id: u64) -> HiTraceIdStruct {
        HiTraceIdStruct {
            chain_id,
            span_id: self.span_id,
            parent_span_id: self.parent_span_id,
            flags: self.flags,
        }
    }

    /// `self` with the span id replaced by `span_id`.
    pub open spec fn with_span_id(self, span_id: u64) -> HiTraceIdStruct {
        HiTraceIdStruct {
            chain_id: self.chain_id,
            span_id,
            parent_span_id: self.parent_span_id,
            flags: self.flags,
        }
    }

    /// `self` with the parent span id replaced by `parent_span_id`.
    pub open spec fn with_parent_span_id(self, parent_span_id: u64) -> HiTraceIdStruct {
        HiTraceIdStruct {
            chain_id: self.chain_id,
            span_id: self.span_id,
            parent_span_id,
            flags: self.flags,
        }
    }

    /// Whether the trace identifier is valid: its chain id is non-zero.
    pub fn is_valid(&self) -> (r: bool)
        ensures
            r == self.spec_valid(),
    {
        self.chain_id != 0
    }

    /// Whether the identifier has the given trace flag enabled.
    pub fn is_flag_enabled(&self, flag: HiTraceFlag) -> (r: bool)
        ensures
            r == ((self.flags & flag_bits(flag)) != 0),
    {
        (self.flags & flag.bits()) != 0
    }

    /// Enables the given trace flag on the identifier, leaving every other
    /// flag as it was.
    pub fn enable_flag(&mut self, flag: HiTraceFlag)
        ensures
            *final(self) == old(self).with_flags(old(self).flags | flag_bits(flag)),
    {
        self.flags = self.flags | flag.bits();
    }

    /// Replaces the whole flag set, truncated to its 12-bit width.
    pub fn set_flags(&mut self, flags: i32)
        ensures
            *final(self) == old(self).with_flags(flags & FLAGS_MAX),
    {
        self.flags = flags & FLAGS_MAX;
    }

    /// The flag set of the identifier.
    pub fn get_flags(&self) -> (r: i32)
        ensures
            r == self.flags,
    {
        self.flags
    }

    /// Replaces the chain id, truncated to its 60-bit width.
    pub fn set_chain_id(&mut self, chain_id: u64)
        ensures
            *final(self) == old(self).with_chain_id(chain_id & CHAIN_ID_MAX),
    {
        self.chain_id = chain_id & CHAIN_ID_MAX;
    }

    /// The chain id of the identifier.
    pub fn get_chain_id(&self) -> (r: u64)
        ensures
            r == self.chain_id,
    {
        self.chain_id
    }

    /// Replaces the span id, truncated to its 26-bit width.
    pub fn set_span_id(&mut self, span_id: u64)
        ensures
            *final(self) == old(self).with_span_id(span_id & SPAN_ID_MAX),
    {
        self.span_id = span_id & SPAN_ID_MAX;
    }

    /// The span id of the identifier.
    pub fn get_span_id(&self) -> (r: u64)
        ensures
            r == self.span_id,
    {
        self.span_id
    }

    /// Replaces the parent span id, truncated to its 26-bit width.
    pub fn set_parent_span_id(&mut self, parent_span_id: u64)
        ensures
            *final(self) == old(self).with_parent_span_id(parent_span_id & SPAN_ID_MAX),
    {
        self.parent_span_id = parent_span_id & SPAN_ID_MAX;
    }

    /// The parent span id of the identifier.
    pub fn get_parent_span_id(&self) -> (r: u64)
        ensures
            r == self.parent_span_id,
    {
        self.parent_span_id
    }
}

/// The high word of the transport encoding: the flag set in bits 0 to 11,
/// the span id in bits 12 to 37, the parent span id in bits 38 to 63.
pub open spec fn spec_pack_high(id: HiTraceIdStruct) -> u64 {
    (id.flags as u64) | (id.span_id << 12) | (id.parent_span_id << 38)
}

/// The little-endian bytes of the 64-bit word `w`.
pub open spec fn spec_le_bytes(w: u64) -> Seq<u8> {
    seq![
        (w & 0xFF) as u8,
        ((w >> 8) & 0xFF) as u8,
        ((w >> 16) & 0xFF) as u8,
        ((w >> 24) & 0xFF) as u8,
        ((w >> 32) & 0xFF) as u8,
        ((w >> 40) & 0xFF) as u8,
        ((w >> 48) & 0xFF) as u8,
        ((w >> 56) & 0xFF) as u8,
    ]
}

/// The 64-bit word held little-endian in `b[k]` to `b[k + 7]`.
pub open spec fn spec_word_at(b: Seq<u8>, k: int) -> u64
    recommends
        0 <= k,
        k + 8 <= b.len(),
{
    (b[k] as u64) | ((b[k + 1] as u64) << 8) | ((b[k + 2] as u64) << 16) | ((b[k + 3] as u64)
        << 24) | ((b[k + 4] as u64) << 32) | ((b[k + 5] as u64) << 40) | ((b[k + 6] as u64) << 48)
        | ((b[k + 7] as u64) << 56)
}

/// The canonical 16-byte encoding of an identifier: the chain id word, then
/// the packed high word, each little-endian.
pub open spec fn spec_id_bytes(id: HiTraceIdStruct) -> Seq<u8> {
    spec_le_bytes(id.chain_id) + spec_le_bytes(spec_pack_high(id))
}

/// The identifier encoded in the first 16 bytes of `b`.  Each field is
/// masked to its width, so the result is well formed whatever the bytes.
pub open spec fn spec_id_of_bytes(b: Seq<u8>) -> HiTraceIdStruct
    recommends
        b.len() >= ID_BYTES_LEN,
{
    let w0 = spec_word_at(b, 0);
    let w1 = spec_word_at(b, 8);
    HiTraceIdStruct {
        chain_id: w0 & CHAIN_ID_MAX,
        span_id: (w1 >> 12) & SPAN_ID_MAX,
        parent_span_id: (w1 >> 38) & SPAN_ID_MAX,
        flags: (w1 & 0x0FFF) as i32,
    }
}

/// Writes the canonical 16-byte encoding of a valid identifier into the
/// start of `p_id_array`, leaving the remaining bytes as they were, and
/// returns the number of bytes written.  When the identifier is invalid or
/// the buffer is shorter than the canonical width, nothing is written and
/// the result is zero.
pub fn id_to_bytes(p_id: &HiTraceId, p_id_array: &mut Vec<u8>) -> (r: i32)
    requires
        p_id.wf(),
    ensures
        (p_id.spec_valid() && old(p_id_array)@.len() >= ID_BYTES_LEN) ==> (r == 16
            && final(p_id_array)@ == spec_id_bytes(*p_id) + old(p_id_array)@.skip(16)),
        !(p_id.spec_valid() && old(p_id_array)@.len() >= ID_BYTES_LEN) ==> (r == 0
            && final(p_id_array)@ == old(p_id_array)@),
        final(p_id_array)@.len() == old(p_id_array)@.len(),
{
    if !p_id.is_valid() || p_id_array.len() < ID_BYTES_LEN {
        return 0;
    }
    let w0: u64 = p_id.chain_id;
    let w1: u64 = (p_id.flags as u64) | (p_id.span_id << 12) | (p_id.parent_span_id << 38);
    p_id_array[0] = (w0 & 0xFF) as u8;
    p_id_array[1] = ((w0 >> 8) & 0xFF) as u8;
    p_id_array[2] = ((w0 >> 16) & 0xFF) as u8;
    p_id_array[3] = ((w0 >> 24) & 0xFF) as u8;
    p_id_array[4] = ((w0 >> 32) & 0xFF) as u8;
    p_id_array[5] = ((w0 >> 40) & 0xFF) as u8;
    p_id_array[6] = ((w0 >> 48) & 0xFF) as u8;
    p_id_array[7] = ((w0 >> 56) & 0xFF) as u8;
    p_id_array[8] = (w1 & 0xFF) as u8;
    p_id_array[9] = ((w1 >> 8) & 0xFF) as u8;
    p_id_array[10] = ((w1 >> 16) & 0xFF) as u8;
    p_id_array[11] = ((w1 >> 24) & 0xFF) as u8;
    p_id_array[12] = ((w1 >> 32) & 0xFF) as u8;
    p_id_array[13] = ((w1 >> 40) & 0xFF) as u8;
    p_id_array[14] = ((w1 >> 48) & 0xFF) as u8;
    p_id_array[15] = ((w1 >> 56) & 0xFF) as u8;
    proof {
        assert(final(p_id_array)@ =~= spec_id_bytes(*p_id) + old(p_id_array)@.skip(16));
    }
    16
}

/// Rebuilds an identifier from the first 16 bytes of `p_id_array`.  A buffer
/// shorter than the canonical width yields the invalid identifier.
pub fn bytes_to_id(p_id_array: &[u8]) -> (r: HiTraceId)
    ensures
        p_id_array@.len() >= ID_BYTES_LEN ==> r == spec_id_of_bytes(p_id_array@),
        p_id_array@.len() < ID_BYTES_LEN ==> r == spec_invalid_id(),
        r.wf(),
{
    if p_id_array.len() < ID_BYTES_LEN {
        return invalid_id();
    }
    let w0: u64 = (p_id_array[0] as u64) | ((p_id_array[1] as u64) << 8) | ((p_id_array[2] as u64)
        << 16) | ((p_id_array[3] as u64) << 24) | ((p_id_array[4] as u64) << 32) | ((p_id_array[5]
        as u64) << 40) | ((p_id_array[6] as u64) << 48) | ((p_id_array[7] as u64) << 56);
    let w1: u64 = (p_id_array[8] as u64) | ((p_id_array[9] as u64) << 8) | ((p_id_array[10] as u64)
        << 16) | ((p_id_array[11] as u64) << 24) | ((p_id_array[12] as u64) << 32) | ((p_id_array[
        13] as u64) << 40) | ((p_id_array[14] as u64) << 48) | ((p_id_array[15] as u64) << 56);
    let id = HiTraceIdStruct {
        chain_id: w0 & CHAIN_ID_MAX,
        span_id: (w1 >> 12) & SPAN_ID_MAX,
        parent_span_id: (w1 >> 38) & SPAN_ID_MAX,
        flags: (w1 & 0x0FFF) as i32,
    };
    proof {
        lemma_decoded_bounds(w0, w1);
    }
    id
}

/// The fields that [`spec_id_of_bytes`] cuts out of two words satisfy the
/// well-formedness bounds.
proof fn lemma_decoded_bounds(w0: u64, w1: u64)
    ensures
        w0 & CHAIN_ID_MAX <= CHAIN_ID_MAX,
        (w1 >> 12) & SPAN_ID_MAX <= SPAN_ID_MAX,
        (w1 >> 38) & SPAN_ID_MAX <= SPAN_ID_MAX,
        0 <= ((w1 & 0x0FFF) as i32) <= FLAGS_MAX,
{
    assert(w0 & 0x0FFF_FFFF_FFFF_FFFFu64 <= 0x0FFF_FFFF_FFFF_FFFFu64) by (bit_vector);
    assert((w1 >> 12) & 0x03FF_FFFFu64 <= 0x03FF_FFFFu64) by (bit_vector);
    assert((w1 >> 38) & 0x03FF_FFFFu64 <= 0x03FF_FFFFu64) by (bit_vector);
    assert(0 <= ((w1 & 0x0FFFu64) as i32) <= 0x0FFFi32) by (bit_vector);
}

/// Reassembling the little-endian bytes of a word gives the word back.
proof fn lemma_word_at_le_bytes(w: u64, b: Seq<u8>, k: int)
    requires
        0 <= k,
        k + 8 <= b.len(),
        b.subrange(k, k + 8) == spec_le_bytes(w),
    ensures
        spec_word_at(b, k) == w,
{
    let b0 = (w & 0xFF) as u8;
    let b1 = ((w >> 8) & 0xFF) as u8;
    let b2 = ((w >> 16) & 0xFF) as u8;
    let b3 = ((w >> 24) & 0xFF) as u8;
    let b4 = ((w >> 32) & 0xFF) as u8;
    let b5 = ((w >> 40) & 0xFF) as u8;
    let b6 = ((w >> 48) & 0xFF) as u8;
    let b7 = ((w >> 56) & 0xFF) as u8;
    assert forall|j: int| 0 <= j < 8 implies b[k + j] == spec_le_bytes(w)[j] by {
        assert(b.subrange(k, k + 8)[j] == b[k + j]);
    }
    assert((b0 as u64) | ((b1 as u64) << 8) | ((b2 as u64) << 16) | ((b3 as u64) << 24) | ((b4
        as u64) << 32) | ((b5 as u64) << 40) | ((b6 as u64) << 48) | ((b7 as u64) << 56) == w)
        by (bit_vector)
        requires
            b0 == (w & 0xFF) as u8,
            b1 == ((w >> 8) & 0xFF) as u8,
            b2 == ((w >> 16) & 0xFF) as u8,
            b3 == ((w >> 24) & 0xFF) as u8,
            b4 == ((w >> 32) & 0xFF) as u8,
            b5 == ((w >> 40) & 0xFF) as u8,
            b6 == ((w >> 48) & 0xFF) as u8,
            b7 == ((w >> 56) & 0xFF) as u8,
    ;
}

/// Serialization round-trip: decoding a buffer that starts with the
/// canonical encoding of a well-formed identifier yields the identifier
/// itself, whatever bytes follow the encoding.
pub proof fn lemma_id_bytes_round_trip(id: HiTraceIdStruct, rest: Seq<u8>)
    requires
        id.wf(),
    ensures
        spec_id_of_bytes(spec_id_bytes(id)) == id,
        spec_id_of_bytes(spec_id_bytes(id) + rest) == id,
{
    assert(spec_word_at(spec_id_bytes(id) + rest, 0) == spec_word_at(spec_id_bytes(id), 0));
    assert(spec_word_at(spec_id_bytes(id) + rest, 8) == spec_word_at(spec_id_bytes(id), 8));
    let b = spec_id_bytes(id);
    let w0 = id.chain_id;
    let w1 = spec_pack_high(id);
    assert(b.subrange(0, 8) =~= spec_le_bytes(w0));
    assert(b.subrange(8, 16) =~= spec_le_bytes(w1));
    lemma_word_at_le_bytes(w0, b, 0);
    lemma_word_at_le_bytes(w1, b, 8);
    let f = id.flags;
    let s = id.span_id;
    let p = id.parent_span_id;
    assert(w0 & 0x0FFF_FFFF_FFFF_FFFFu64 == w0) by (bit_vector)
        requires
            w0 <= 0x0FFF_FFFF_FFFF_FFFFu64,
    ;
    assert({
        let w = (f as u64) | (s << 12) | (p << 38);
        &&& (w >> 12) & 0x03FF_FFFFu64 == s
        &&& (w >> 38) & 0x03FF_FFFFu64 == p
        &&& ((w & 0x0FFFu64) as i32) == f
    }) by (bit_vector)
        requires
            0 <= f <= 0x0FFFi32,
            s <= 0x03FF_FFFFu64,
            p <= 0x03FF_FFFFu64,
    ;
}

/// The setters keep an identifier well formed: each one truncates its field
/// to the width the transport encoding grants it.
pub proof fn lemma_setters_preserve_wf(id: HiTraceIdStruct, v64: u64, v32: i32, flag: HiTraceFlag)
    requires
        id.wf(),
    ensures
        id.with_chain_id(v64 & CHAIN_ID_MAX).wf(),
        id.with_span_id(v64 & SPAN_ID_MAX).wf(),
        id.with_parent_span_id(v64 & SPAN_ID_MAX).wf(),
        id.with_flags(v32 & FLAGS_MAX).wf(),
        id.with_flags(id.flags | flag_bits(flag)).wf(),
{
    assert((v64 & 0x0FFF_FFFF_FFFF_FFFFu64) <= 0x0FFF_FFFF_FFFF_FFFFu64) by (bit_vector);
    assert((v64 & 0x03FF_FFFFu64) <= 0x03FF_FFFFu64) by (bit_vector);
    assert(0 <= (v32 & 0x0FFFi32) <= 0x0FFFi32) by (bit_vector);
    let f = id.flags;
    let b = flag_bits(flag);
    assert(0 <= b <= 64);
    assert(0 <= f <= 0x0FFFi32 && 0 <= b <= 64 ==> 0 <= (f | b) <= 0x0FFFi32) by (bit_vector);
}

/// The trace identifier slot of one thread of execution, together with the
/// allocators this model uses to hand out fresh chain and span ids.
///
/// The slot is either uninitialized (it holds the distinguished invalid
/// identifier) or active (it holds a valid identifier).  `begin` makes it
/// active, `end` and `clear_id` make it uninitialized, `get_id` reads it,
/// `set_id` overwrites it with a valid identifier, and `create_span` derives
/// a child identifier without touching it.
pub struct HiTraceChain {
    /// The identifier currently installed in the slot.
    pub cur: HiTraceIdStruct,
    /// The chain id the next `begin` hands out; never zero.
    pub next_chain_id: u64,
    /// The span id the next `create_span` hands out; never zero.
    pub next_span_id: u64,
}

impl HiTraceChain {
    /// The slot invariant: the installed identifier is well formed and is
    /// either valid or the distinguished invalid identifier, and both
    /// allocators hold a non-zero id within its field width.
    pub open spec fn wf(self) -> bool {
        &&& self.cur.wf()
        &&& (self.cur.spec_valid() || self.cur == spec_invalid_id())
        &&& 1 <= self.next_chain_id <= CHAIN_ID_MAX
        &&& 1 <= self.next_span_id <= SPAN_ID_MAX
    }

    /// The identifier `begin` returns and installs: the next fresh chain id,
    /// the root span, no parent, and the given flag set truncated to width.
    pub open spec fn spec_begin_id(self, flags: i32) -> HiTraceIdStruct {
        HiTraceIdStruct {
            chain_id: self.next_chain_id,
            span_id: 0,
            parent_span_id: 0,
            flags: flags & FLAGS_MAX,
        }
    }

    /// The slot after `begin`: the fresh identifier installed and the chain
    /// id allocator advanced, wrapping back to one before it could be zero.
    pub open spec fn spec_begin_state(self, flags: i32) -> HiTraceChain {
        HiTraceChain {
            cur: self.spec_begin_id(flags),
            next_chain_id: if self.next_chain_id == CHAIN_ID_MAX {
                1
            } else {
                (self.next_chain_id + 1) as u64
            },
            next_span_id: self.next_span_id,
        }
    }

    /// The slot after `end(id)`: uninitialized when `id` is valid, untouched
    /// otherwise.
    pub open spec fn spec_end(self, id: HiTraceIdStruct) -> HiTraceChain {
        if id.spec_valid() {
            HiTraceChain {
                cur: spec_invalid_id(),
                next_chain_id: self.next_chain_id,
                next_span_id: self.next_span_id,
            }
        } else {
            self
        }
    }

    /// The slot after `set_id(id)`: `id` installed when it is valid,
    /// untouched otherwise.
    pub open spec fn spec_set_id(self, id: HiTraceIdStruct) -> HiTraceChain {
        if id.spec_valid() {
            HiTraceChain {
                cur: id,
                next_chain_id: self.next_chain_id,
                next_span_id: self.next_span_id,
            }
        } else {
            self
        }
    }

    /// The slot after `clear_id`: uninitialized, whatever it held.
    pub open spec fn spec_clear(self) -> HiTraceChain {
        HiTraceChain {
            cur: spec_invalid_id(),
            next_chain_id: self.next_chain_id,
            next_span_id: self.next_span_id,
        }
    }

    /// The identifier `create_span` returns: on an active slot, a child of
    /// the installed identifier with the same chain id and flags, a fresh
    /// span id, and the installed span id as its parent; on an uninitialized
    /// slot, the invalid identifier installed there.
    pub open spec fn spec_span_ret(self) -> HiTraceIdStruct {
        if self.cur.spec_valid() {
            HiTraceIdStruct {
                chain_id: self.cur.chain_id,
                span_id: self.next_span_id,
                parent_span_id: self.cur.span_id,
                flags: self.cur.flags,
            }
        } else {
            self.cur
        }
    }

    /// The slot after `create_span`: the installed identifier is untouched;
    /// on an active slot the span id allocator advances, wrapping back to
    /// one before it could be zero.
    pub open spec fn spec_span_state(self) -> HiTraceChain {
        if self.cur.spec_valid() {
            HiTraceChain {
                cur: self.cur,
                next_chain_id: self.next_chain_id,
                next_span_id: if self.next_span_id == SPAN_ID_MAX {
                    1
                } else {
                    (self.next_span_id + 1) as u64
                },
            }
        } else {
            self
        }
    }

    /// A fresh, uninitialized slot.
    pub fn new() -> (r: Self)
        ensures
            r == (HiTraceChain { cur: spec_invalid_id(), next_chain_id: 1, next_span_id: 1 }),
            r.wf(),
            !r.cur.spec_valid(),
    {
        HiTraceChain { cur: invalid_id(), next_chain_id: 1, next_span_id: 1 }
    }

    /// Starts tracing a process: allocates a fresh chain id and a root span,
    /// records `flags` as the identifier's flag set, installs the new
    /// identifier in the slot and returns it by value.  `name` is a
    /// descriptive label for the chain; it is not part of the identifier,
    /// and a name holding a NUL character cannot cross the native transport,
    /// so the contract rejects it before any work is done.
    pub fn begin(&mut self, name: &str, flags: i32) -> (r: HiTraceId)
        requires
            old(self).wf(),
            !name@.contains('\0'),
        ensures
            r == old(self).spec_begin_id(flags),
            *final(self) == old(self).spec_begin_state(flags),
            r.spec_valid(),
            r.wf(),
            final(self).wf(),
    {
        let id = HiTraceIdStruct {
            chain_id: self.next_chain_id,
            span_id: 0,
            parent_span_id: 0,
            flags: flags & FLAGS_MAX,
        };
        proof {
            assert(0 <= (flags & 0x0FFFi32) <= 0x0FFFi32) by (bit_vector);
        }
        self.cur = id;
        self.next_chain_id = if self.next_chain_id == CHAIN_ID_MAX {
            1
        } else {
            self.next_chain_id + 1
        };
        id
    }

    /// Stops tracing: if `id` is valid, the slot becomes uninitialized;
    /// an invalid `id` leaves the slot untouched.
    pub fn end(&mut self, id: &HiTraceId)
        requires
            old(self).wf(),
        ensures
            *final(self) == old(self).spec_end(*id),
            final(self).wf(),
    {
        if id.is_valid() {
            self.cur = invalid_id();
        }
    }

    /// A copy of the identifier currently installed in the slot; the
    /// distinguished invalid identifier when the slot is uninitialized.
    pub fn get_id(&self) -> (r: HiTraceId)
        ensures
            r == self.cur,
    {
        self.cur
    }

    /// Installs `id` in the slot when it is valid; an invalid `id` leaves
    /// the slot untouched.
    pub fn set_id(&mut self, id: &HiTraceId)
        requires
            old(self).wf(),
            id.wf(),
        ensures
            *final(self) == old(self).spec_set_id(*id),
            final(self).wf(),
    {
        if id.is_valid() {
            self.cur = *id;
        }
    }

    /// Unconditionally makes the slot uninitialized, discarding whatever it
    /// held.
    pub fn clear_id(&mut self)
        requires
            old(self).wf(),
        ensures
            *final(self) == old(self).spec_clear(),
            final(self).wf(),
            !final(self).cur.spec_valid(),
    {
        self.cur = invalid_id();
    }

    /// Derives a child identifier from the installed one: same chain id and
    /// flags, a fresh span id, and the installed span id as parent.  The
    /// slot's identifier is not touched; callers that want the child
    /// propagated must install it with `set_id`.  On an uninitialized slot
    /// the installed invalid identifier is returned unchanged.
    pub fn create_span(&mut self) -> (r: HiTraceId)
        requires
            old(self).wf(),
        ensures
            r == old(self).spec_span_ret(),
            *final(self) == old(self).spec_span_state(),
            final(self).cur == old(self).cur,
            r.wf(),
            final(self).wf(),
    {
        if !self.cur.is_valid() {
            return self.cur;
        }
        let id = HiTraceIdStruct {
            chain_id: self.cur.chain_id,
            span_id: self.next_span_id,
            parent_span_id: self.cur.span_id,
            flags: self.cur.flags,
        };
        self.next_span_id = if self.next_span_id == SPAN_ID_MAX {
            1
        } else {
            self.next_span_id + 1
        };
        id
    }
}

/// A fresh trace identifier is valid: `begin` hands out a non-zero chain id.
pub proof fn lemma_begin_valid(s: HiTraceChain, flags: i32)
    requires
        s.wf(),
    ensures
        s.spec_begin_id(flags).chain_id != 0,
        s.spec_begin_id(flags).spec_valid(),
{
}

/// Ending a valid identifier leaves the slot invalid: after `end(id)` the
/// identifier read back by `get_id` fails `is_valid`.
pub proof fn lemma_end_invalidates(s: HiTraceChain, id: HiTraceIdStruct)
    requires
        id.spec_valid(),
    ensures
        !s.spec_end(id).cur.spec_valid(),
{
}

/// A span created while the slot is active inherits the chain id, points
/// back to the span that caused it, and leaves the slot's identifier as it
/// was.
pub proof fn lemma_create_span_links(s: HiTraceChain)
    requires
        s.wf(),
        s.cur.spec_valid(),
    ensures
        s.spec_span_ret().chain_id == s.cur.chain_id,
        s.spec_span_ret().parent_span_id == s.cur.span_id,
        s.spec_span_ret().spec_valid(),
        s.spec_span_state().cur == s.cur,
{
}

/// Clearing an uninitialized slot is a no-op, and the identifier read back
/// afterwards is still invalid.
pub proof fn lemma_clear_uninitialized(s: HiTraceChain)
    requires
        s.wf(),
        !s.cur.spec_valid(),
    ensures
        s.spec_clear() == s,
        !s.spec_clear().cur.spec_valid(),
{
}

/// Distinct flags own distinct bits (only `Default` owns none).
proof fn lemma_flag_bits_distinct(a: HiTraceFlag, c: HiTraceFlag)
    requires
        c != a,
    ensures
        flag_bits(c) != flag_bits(a) || (flag_bits(a) == 0 && flag_bits(c) == 0),
{
}

/// Bit-level core of flag composition, over the bits that single flags can
/// contribute.
proof fn lemma_flag_bits_compose(x: i32, y: i32, z: i32)
    by (bit_vector)
    requires
        x == 1 || x == 2 || x == 4 || x == 8 || x == 16 || x == 32 || x == 64,
        y == 0 || y == 1 || y == 2 || y == 4 || y == 8 || y == 16 || y == 32 || y == 64,
        z == 0 || z == 1 || z == 2 || z == 4 || z == 8 || z == 16 || z == 32 || z == 64,
        z != x,
        z != y,
    ensures
        ((x | y) & 0x0FFFi32) == (x | y),
        ((x | y) & x) != 0,
        ((x | y) & z) == 0,
{
}

/// Flag sets compose by bitwise or: after `set_flags(a | b)` with `a` a real
/// flag, the flag set reads back as exactly `a | b`, flag `a` tests as
/// enabled, and any flag other than `a` and `b` tests as disabled.
pub proof fn lemma_flags_compose(id: HiTraceIdStruct, a: HiTraceFlag, b: HiTraceFlag, c: HiTraceFlag)
    requires
        a != HiTraceFlag::Default,
        c != a,
        c != b,
    ensures
        ({
            let set = id.with_flags((flag_bits(a) | flag_bits(b)) & FLAGS_MAX);
            &&& set.flags == flag_bits(a) | flag_bits(b)
            &&& (set.flags & flag_bits(a)) != 0
            &&& (set.flags & flag_bits(c)) == 0
        }),
{
    lemma_flag_bits_distinct(a, c);
    lemma_flag_bits_distinct(b, c);
    lemma_flag_bits_compose(flag_bits(a), flag_bits(b), flag_bits(c));
}

} // verus!
