//! Packet-property decoding outside of any graph.
//!
//! The binary decoder itself is driven by the embedding code; this module
//! owns everything it decides: the byte medium that feeds the decoder
//! windows of the caller's slice, the reset discipline that keeps decodes
//! independent, and the mapping from the decoder's raw output to
//! [`PacketProperties`].

use vstd::prelude::*;
use crate::error::{BtResult, Error};
use crate::logger::LoggingLevel;
use crate::status::{STATUS_AGAIN, STATUS_END, STATUS_ERROR, STATUS_OK};

verus! {

/// Properties of one packet, each absent when the packet does not carry it.
#[derive(Clone, Copy, PartialEq, Eq, Structural, PartialOrd, Ord, Hash, Debug)]
pub struct PacketProperties {
    pub packet_total_size_bits: Option<u64>,
    pub packet_content_size_bits: Option<u64>,
    pub stream_class_id: Option<u64>,
    pub data_stream_id: Option<u64>,
    pub discarded_events: Option<u64>,
    pub packet_seq_num: Option<u64>,
    pub beginning_clock: Option<u64>,
    pub end_clock: Option<u64>,
}

/// The packet properties as the decoder reports them: a negative size or id,
/// or an all-ones snapshot, means "not available".
#[derive(Clone, Copy, PartialEq, Eq, Structural, Hash, Debug)]
pub struct RawPacketProperties {
    pub exp_packet_total_size: i64,
    pub exp_packet_content_size: i64,
    pub stream_class_id: u64,
    pub data_stream_id: i64,
    pub discarded_events: u64,
    pub packets: u64,
    pub beginning_clock: u64,
    pub end_clock: u64,
}

/// A signed raw value, absent when negative.
pub open spec fn spec_signed_avail(v: i64) -> Option<u64> {
    if v >= 0 {
        Some(v as u64)
    } else {
        None
    }
}

/// An unsigned raw value, absent when it is the all-ones sentinel.
pub open spec fn spec_unsigned_avail(v: u64) -> Option<u64> {
    if v != u64::MAX {
        Some(v)
    } else {
        None
    }
}

fn signed_avail(v: i64) -> (r: Option<u64>)
    ensures
        r == spec_signed_avail(v),
{
    if v >= 0 {
        Some(v as u64)
    } else {
        None
    }
}

fn unsigned_avail(v: u64) -> (r: Option<u64>)
    ensures
        r == spec_unsigned_avail(v),
{
    if v != u64::MAX {
        Some(v)
    } else {
        None
    }
}

impl PacketProperties {
    pub open spec fn spec_from_raw(p: RawPacketProperties) -> PacketProperties {
        PacketProperties {
            packet_total_size_bits: spec_signed_avail(p.exp_packet_total_size),
            packet_content_size_bits: spec_signed_avail(p.exp_packet_content_size),
            stream_class_id: spec_unsigned_avail(p.stream_class_id),
            data_stream_id: spec_signed_avail(p.data_stream_id),
            discarded_events: spec_unsigned_avail(p.discarded_events),
            packet_seq_num: spec_unsigned_avail(p.packets),
            beginning_clock: spec_unsigned_avail(p.beginning_clock),
            end_clock: spec_unsigned_avail(p.end_clock),
        }
    }

    /// Maps each sentinel of the decoder's output to an absent property.
    pub fn from_raw(p: &RawPacketProperties) -> (r: PacketProperties)
        ensures
            r == Self::spec_from_raw(*p),
    {
        PacketProperties {
            packet_total_size_bits: signed_avail(p.exp_packet_total_size),
            packet_content_size_bits: signed_avail(p.exp_packet_content_size),
            stream_class_id: unsigned_avail(p.stream_class_id),
            data_stream_id: signed_avail(p.data_stream_id),
            discarded_events: unsigned_avail(p.discarded_events),
            packet_seq_num: unsigned_avail(p.packets),
            beginning_clock: unsigned_avail(p.beginning_clock),
            end_clock: unsigned_avail(p.end_clock),
        }
    }
}

/// Settings of a packet decoder.
#[derive(Clone, Copy, PartialEq, Eq, Structural, PartialOrd, Ord, Hash, Debug)]
pub struct PacketDecoderConfig {
    pub log_level: LoggingLevel,
    pub clock_class_offset_s: i64,
    pub clock_class_offset_ns: i64,
    pub force_clock_class_origin_unix_epoch: bool,
    /// Largest byte window that the decoder asks the medium for at once.
    pub max_request_size: usize,
}

impl Default for PacketDecoderConfig {
    fn default() -> (r: Self)
        ensures
            r == (PacketDecoderConfig {
                log_level: LoggingLevel::Off,
                clock_class_offset_s: 0,
                clock_class_offset_ns: 0,
                force_clock_class_origin_unix_epoch: false,
                max_request_size: 4096,
            }),
    {
        PacketDecoderConfig {
            log_level: LoggingLevel::Off,
            clock_class_offset_s: 0,
            clock_class_offset_ns: 0,
            force_clock_class_origin_unix_epoch: false,
            max_request_size: 4096,
        }
    }
}

/// What the medium answers to a request for bytes.
#[derive(Clone, Copy, PartialEq, Eq, Structural, Debug)]
pub enum MediumStatus {
    /// A non-empty window of the slice is handed out.
    Data,
    /// The slice is empty: no data yet.
    Again,
    /// The read offset reached the end of the slice.
    Eof,
    /// No slice was ever set.
    Failed,
}

impl MediumStatus {
    pub open spec fn spec_code(self) -> i32 {
        match self {
            MediumStatus::Data => STATUS_OK,
            MediumStatus::Again => STATUS_AGAIN,
            MediumStatus::Eof => STATUS_END,
            MediumStatus::Failed => STATUS_ERROR,
        }
    }

    /// The decoder's numeric code of this medium status.
    pub fn code(&self) -> (r: i32)
        ensures
            r == self.spec_code(),
    {
        match self {
            MediumStatus::Data => STATUS_OK,
            MediumStatus::Again => STATUS_AGAIN,
            MediumStatus::Eof => STATUS_END,
            MediumStatus::Failed => STATUS_ERROR,
        }
    }
}

/// A window of the current slice: `len` bytes from `offset`. It is a view,
/// never a copy; it is empty unless the status is `Ok`.
#[derive(Clone, Copy, PartialEq, Eq, Structural, Debug)]
pub struct ByteWindow {
    pub status: MediumStatus,
    pub offset: usize,
    pub len: usize,
}

/// The medium's cursor over the caller's slice.
#[derive(Clone, Copy, PartialEq, Eq, Structural, Debug)]
pub struct Medium {
    has_packet: bool,
    read_index: usize,
    packet_size: usize,
}

/// What a medium holds: no slice, or the length of the slice and the read
/// offset into it.
pub ghost enum MediumView {
    Unset,
    Loaded { read_index: nat, size: nat },
}

impl View for Medium {
    type V = MediumView;

    closed spec fn view(&self) -> MediumView {
        if self.has_packet {
            MediumView::Loaded { read_index: self.read_index as nat, size: self.packet_size as nat }
        } else {
            MediumView::Unset
        }
    }
}

/// The answer of a medium in state `m` to a request for `request_size` bytes.
pub open spec fn spec_request_bytes(m: MediumView, request_size: nat) -> (MediumStatus, nat, nat) {
    match m {
        MediumView::Unset => (MediumStatus::Failed, 0, 0),
        MediumView::Loaded { read_index, size } => {
            if size == 0 {
                (MediumStatus::Again, 0, 0)
            } else if read_index == size {
                (MediumStatus::Eof, 0, 0)
            } else {
                let rest = (size - read_index) as nat;
                (
                    MediumStatus::Data,
                    read_index,
                    if request_size < rest {
                        request_size
                    } else {
                        rest
                    },
                )
            }
        },
    }
}

impl Medium {
    pub closed spec fn wf(self) -> bool {
        self.has_packet ==> self.read_index <= self.packet_size
    }

    /// A medium with no slice.
    pub closed spec fn spec_unset() -> Medium {
        Medium { has_packet: false, read_index: 0, packet_size: 0 }
    }

    /// A medium at the start of a slice of `len` bytes.
    pub closed spec fn spec_loaded(len: usize) -> Medium {
        Medium { has_packet: true, read_index: 0, packet_size: len }
    }

    /// A medium with no slice.
    pub fn new() -> (r: Medium)
        ensures
            r.wf(),
            r@ == MediumView::Unset,
    {
        Medium { has_packet: false, read_index: 0, packet_size: 0 }
    }

    /// Forgets the slice.
    pub fn reset(&mut self)
        ensures
            *final(self) == Medium::spec_unset(),
            final(self).wf(),
            final(self)@ == MediumView::Unset,
    {
        self.has_packet = false;
        self.read_index = 0;
        self.packet_size = 0;
    }

    /// Starts over on a slice of `len` bytes, reading from its first byte.
    pub fn set_buf(&mut self, len: usize)
        ensures
            *final(self) == Medium::spec_loaded(len),
            final(self).wf(),
            final(self)@ == (MediumView::Loaded { read_index: 0, size: len as nat }),
    {
        self.reset();
        self.has_packet = true;
        self.packet_size = len;
    }

    /// Hands the decoder a window of at most `request_size` bytes at the read
    /// offset.
    pub fn request_bytes(&self, request_size: usize) -> (r: ByteWindow)
        requires
            self.wf(),
        ensures
            (r.status, r.offset as nat, r.len as nat) == spec_request_bytes(self@, request_size as nat),
    {
        if !self.has_packet {
            ByteWindow { status: MediumStatus::Failed, offset: 0, len: 0 }
        } else if self.packet_size == 0 {
            ByteWindow { status: MediumStatus::Again, offset: 0, len: 0 }
        } else if self.read_index == self.packet_size {
            ByteWindow { status: MediumStatus::Eof, offset: 0, len: 0 }
        } else {
            let rest = self.packet_size - self.read_index;
            let len = if request_size < rest {
                request_size
            } else {
                rest
            };
            ByteWindow { status: MediumStatus::Data, offset: self.read_index, len }
        }
    }

    /// The decoder announces that its next request starts a new packet.
    /// Decoding one packet at a time, the medium has nothing to change.
    pub fn switch_packet(&self) -> (r: MediumStatus)
        ensures
            r == MediumStatus::Data,
    {
        MediumStatus::Data
    }
}

/// A window handed out by the medium lies inside the slice, and is non-empty
/// exactly when the status is `Ok`.
pub proof fn lemma_window_in_slice(read_index: nat, size: nat, request_size: nat)
    requires
        read_index <= size,
    ensures
        ({
            let (status, offset, len) = spec_request_bytes(
                MediumView::Loaded { read_index, size },
                request_size,
            );
            &&& offset + len <= size
            &&& len <= request_size
            &&& (status == MediumStatus::Data <==> size != 0 && read_index < size)
        }),
{
}

/// What one decode returns, given the decoder's status code and its raw
/// output: properties on success, nothing on end of data or starvation, and
/// the code as a failure otherwise.
pub open spec fn spec_decode_outcome(status: i32, raw: RawPacketProperties) -> BtResult<
    Option<PacketProperties>,
> {
    if status == STATUS_OK {
        Ok(Some(PacketProperties::spec_from_raw(raw)))
    } else if status == STATUS_END || status == STATUS_AGAIN {
        Ok(None)
    } else {
        Err(Error::Failure(status as isize))
    }
}

/// Decides each step of decoding packet properties from caller slices.
///
/// A decode is `start_packet` (the medium now reads the new slice from its
/// start), then the decoder's requests to the medium, then
/// `packet_properties` with the decoder's status and output (the medium is
/// reset again). Nothing of one decode survives into the next.
pub struct PacketDecoder {
    config: PacketDecoderConfig,
    medium: Medium,
}

impl PacketDecoder {
    pub closed spec fn spec_config(&self) -> PacketDecoderConfig {
        self.config
    }

    pub closed spec fn spec_medium(&self) -> MediumView {
        self.medium@
    }

    pub closed spec fn wf(&self) -> bool {
        self.medium.wf()
    }

    /// The decoder once started on a slice of `len` bytes.
    pub closed spec fn spec_started(self, len: usize) -> PacketDecoder {
        PacketDecoder {
            config: self.config,
            medium: Medium::spec_loaded(len),
        }
    }

    /// The decoder once a decode has ended.
    pub closed spec fn spec_finished(self) -> PacketDecoder {
        PacketDecoder {
            config: self.config,
            medium: Medium::spec_unset(),
        }
    }

    /// A decoder with the given settings, between decodes.
    pub fn new(config: &PacketDecoderConfig) -> (r: PacketDecoder)
        ensures
            r.wf(),
            r.spec_config() == *config,
            r.spec_medium() == MediumView::Unset,
    {
        PacketDecoder { config: *config, medium: Medium::new() }
    }

    pub fn config(&self) -> (r: &PacketDecoderConfig)
        ensures
            *r == self.spec_config(),
    {
        &self.config
    }

    /// Points the medium at the start of a new slice of `len` bytes,
    /// whatever the previous decode left.
    pub fn start_packet(&mut self, len: usize)
        ensures
            *final(self) == old(self).spec_started(len),
            final(self).wf(),
            final(self).spec_config() == old(self).spec_config(),
            final(self).spec_medium() == (MediumView::Loaded { read_index: 0, size: len as nat }),
    {
        self.medium.set_buf(len);
    }

    /// The medium's answer to the decoder's request for bytes.
    pub fn request_bytes(&self, request_size: usize) -> (r: ByteWindow)
        requires
            self.wf(),
        ensures
            (r.status, r.offset as nat, r.len as nat) == spec_request_bytes(
                self.spec_medium(),
                request_size as nat,
            ),
    {
        self.medium.request_bytes(request_size)
    }

    /// The medium's answer to the decoder's announcement of a new packet.
    pub fn switch_packet(&self) -> (r: MediumStatus)
        ensures
            r == MediumStatus::Data,
    {
        self.medium.switch_packet()
    }

    /// Ends a decode: resets the medium and turns the decoder's status code
    /// and raw output into the result.
    pub fn packet_properties(&mut self, status: i32, raw: &RawPacketProperties) -> (r: BtResult<
        Option<PacketProperties>,
    >)
        ensures
            *final(self) == old(self).spec_finished(),
            final(self).wf(),
            final(self).spec_config() == old(self).spec_config(),
            final(self).spec_medium() == MediumView::Unset,
            r == spec_decode_outcome(status, *raw),
    {
        self.medium.reset();
        decode_outcome(status, raw)
    }
}

/// The result of one decode, from the decoder's status code and raw output.
pub fn decode_outcome(status: i32, raw: &RawPacketProperties) -> (r: BtResult<
    Option<PacketProperties>,
>)
    ensures
        r == spec_decode_outcome(status, *raw),
{
    if status == STATUS_OK {
        Ok(Some(PacketProperties::from_raw(raw)))
    } else if status == STATUS_END || status == STATUS_AGAIN {
        Ok(None)
    } else {
        Err(Error::Failure(status as isize))
    }
}

/// Decodes on one decoder leak nothing into each other: whatever two decoders
/// with the same settings went through before, once started on slices of the
/// same length they are in the same state, and they end each decode in the
/// same state too. What a decode returns depends only on the decoder's status
/// and output for that slice.
pub proof fn lemma_decodes_independent(a: PacketDecoder, b: PacketDecoder, len: usize)
    requires
        a.spec_config() == b.spec_config(),
    ensures
        a.spec_started(len) == b.spec_started(len),
        a.spec_finished() == b.spec_finished(),
        a.spec_started(len).spec_finished() == a.spec_finished(),
{
}

/// A decode gives no properties only when the decoder reached the end of
/// the slice or starved for bytes; any other failure of the decoder is an
/// error carrying its status, never a silent `None`.
pub proof fn lemma_none_only_on_end_or_starvation(status: i32, raw: RawPacketProperties)
    ensures
        spec_decode_outcome(status, raw) == Ok::<Option<PacketProperties>, Error>(None) <==> (
        status == STATUS_END || status == STATUS_AGAIN),
        status != STATUS_OK && status != STATUS_END && status != STATUS_AGAIN
            ==> spec_decode_outcome(status, raw) == Err::<Option<PacketProperties>, Error>(
            Error::Failure(status as isize),
        ),
{
}

/// Checks a metadata path against what the file system reported of it.
pub fn check_metadata_path(path: &String, exists: bool, is_file: bool) -> (r: BtResult<()>)
    ensures
        !exists ==> r == Err::<(), Error>(Error::NonExistentMetadataPath(*path)),
        exists && !is_file ==> r == Err::<(), Error>(Error::MetadataPathNotFile(*path)),
        exists && is_file ==> r == Ok::<(), Error>(()),
{
    if !exists {
        Err(Error::NonExistentMetadataPath(path.clone()))
    } else if !is_file {
        Err(Error::MetadataPathNotFile(path.clone()))
    } else {
        Ok(())
    }
}

} // verus!
