//! The capture file: one global header, then one record per frame, every
//! number little-endian.

use crate::endian::{
    le_bytes_u16, le_bytes_u32, lemma_le_u16_round_trip, lemma_le_u32_round_trip, read_le_u16,
    read_le_u32, u16_from_le, u16_to_le, u32_from_le, u32_to_le,
};
use vstd::prelude::*;

verus! {

/// Magic number of a capture file with microsecond timestamps.
pub const PCAP_MAGIC: u32 = 0xA1B2_C3D4;

/// Major version of the file format.
pub const PCAP_VERSION_MAJOR: u16 = 2;

/// Minor version of the file format.
pub const PCAP_VERSION_MINOR: u16 = 4;

/// Snapshot length that the global header declares.
pub const PCAP_SNAPLEN: u32 = 128;

/// Link type of IEEE 802.15.4 frames.
pub const PCAP_LINKTYPE_IEEE802_15_4: u32 = 195;

/// Bytes of the global header.
pub const PCAP_HEADER_LEN: usize = 24;

/// Bytes of a record's header.
pub const PCAP_RECORD_HEADER_LEN: usize = 16;

/// The global header of a capture file.
#[derive(Debug, Clone, Copy, PartialEq, Eq, Structural)]
pub struct PcapHeader {
    /// Magic number.
    pub magic_number: u32,
    /// Major version number.
    pub version_major: u16,
    /// Minor version number.
    pub version_minor: u16,
    /// Correction from GMT to local time.
    pub thiszone: i32,
    /// Accuracy of the timestamps.
    pub sigfigs: u32,
    /// Greatest length of a captured packet, in octets.
    pub snaplen: u32,
    /// Data link type.
    pub network: u32,
}

/// The header in front of each record.
#[derive(Debug, Clone, Copy, PartialEq, Eq, Structural)]
pub struct PcapRecordHeader {
    /// Timestamp, seconds.
    pub ts_sec: u32,
    /// Timestamp, microseconds.
    pub ts_usec: u32,
    /// Octets of the packet that the file holds.
    pub incl_len: u32,
    /// Octets that the packet had on the air.
    pub orig_len: u32,
}

impl PcapHeader {
    /// The 24 bytes of the header as the file holds them.
    pub open spec fn encode(self) -> Seq<u8> {
        le_bytes_u32(self.magic_number) + le_bytes_u16(self.version_major) + le_bytes_u16(
            self.version_minor,
        ) + le_bytes_u32(self.thiszone as u32) + le_bytes_u32(self.sigfigs) + le_bytes_u32(
            self.snaplen,
        ) + le_bytes_u32(self.network)
    }

    /// The header that the 24 bytes of `bytes` from `at` on spell.
    pub open spec fn decode(bytes: Seq<u8>, at: int) -> PcapHeader
        recommends
            0 <= at,
            at + 24 <= bytes.len(),
    {
        PcapHeader {
            magic_number: read_le_u32(bytes, at),
            version_major: read_le_u16(bytes, at + 4),
            version_minor: read_le_u16(bytes, at + 6),
            thiszone: read_le_u32(bytes, at + 8) as i32,
            sigfigs: read_le_u32(bytes, at + 12),
            snaplen: read_le_u32(bytes, at + 16),
            network: read_le_u32(bytes, at + 20),
        }
    }

    /// The header that this driver's capture files start with.
    pub open spec fn ieee802_15_4_spec() -> PcapHeader {
        PcapHeader {
            magic_number: PCAP_MAGIC,
            version_major: PCAP_VERSION_MAJOR,
            version_minor: PCAP_VERSION_MINOR,
            thiszone: 0,
            sigfigs: 0,
            snaplen: PCAP_SNAPLEN,
            network: PCAP_LINKTYPE_IEEE802_15_4,
        }
    }

    /// The header that this driver's capture files start with.
    pub fn ieee802_15_4() -> (h: PcapHeader)
        ensures
            h == Self::ieee802_15_4_spec(),
    {
        PcapHeader {
            magic_number: PCAP_MAGIC,
            version_major: PCAP_VERSION_MAJOR,
            version_minor: PCAP_VERSION_MINOR,
            thiszone: 0,
            sigfigs: 0,
            snaplen: PCAP_SNAPLEN,
            network: PCAP_LINKTYPE_IEEE802_15_4,
        }
    }

    /// The header as the 24 bytes that the file holds.
    pub fn as_array(&self) -> (arr: [u8; 24])
        ensures
            arr@ == self.encode(),
    {
        let m = u32_to_le(self.magic_number);
        let a = u16_to_le(self.version_major);
        let i = u16_to_le(self.version_minor);
        let z = u32_to_le(#[verifier::truncate] (self.thiszone as u32));
        let s = u32_to_le(self.sigfigs);
        let l = u32_to_le(self.snaplen);
        let n = u32_to_le(self.network);
        let arr: [u8; 24] = [
            m[0], m[1], m[2], m[3],
            a[0], a[1],
            i[0], i[1],
            z[0], z[1], z[2], z[3],
            s[0], s[1], s[2], s[3],
            l[0], l[1], l[2], l[3],
            n[0], n[1], n[2], n[3],
        ];
        assert(arr@ =~= self.encode());
        arr
    }

    /// Reads a global header from the front of `bytes`: `None` where fewer
    /// than 24 bytes are there.
    pub fn parse(bytes: &[u8]) -> (r: Option<PcapHeader>)
        ensures
            bytes@.len() < 24 ==> r.is_none(),
            bytes@.len() >= 24 ==> r == Some(Self::decode(bytes@, 0)),
    {
        if bytes.len() < PCAP_HEADER_LEN {
            return None;
        }
        Some(
            PcapHeader {
                magic_number: u32_from_le(bytes, 0),
                version_major: u16_from_le(bytes, 4),
                version_minor: u16_from_le(bytes, 6),
                thiszone: #[verifier::truncate] (u32_from_le(bytes, 8) as i32),
                sigfigs: u32_from_le(bytes, 12),
                snaplen: u32_from_le(bytes, 16),
                network: u32_from_le(bytes, 20),
            },
        )
    }
}

impl PcapRecordHeader {
    /// The 16 bytes of the header as the file holds them.
    pub open spec fn encode(self) -> Seq<u8> {
        le_bytes_u32(self.ts_sec) + le_bytes_u32(self.ts_usec) + le_bytes_u32(self.incl_len)
            + le_bytes_u32(self.orig_len)
    }

    /// The header that the 16 bytes of `bytes` from `at` on spell.
    pub open spec fn decode(bytes: Seq<u8>, at: int) -> PcapRecordHeader
        recommends
            0 <= at,
            at + 16 <= bytes.len(),
    {
        PcapRecordHeader {
            ts_sec: read_le_u32(bytes, at),
            ts_usec: read_le_u32(bytes, at + 4),
            incl_len: read_le_u32(bytes, at + 8),
            orig_len: read_le_u32(bytes, at + 12),
        }
    }

    /// The header of a record that holds a whole payload of `len` bytes, with
    /// no timestamp.
    pub open spec fn for_payload_spec(len: nat) -> PcapRecordHeader
        recommends
            len <= u32::MAX,
    {
        PcapRecordHeader { ts_sec: 0, ts_usec: 0, incl_len: len as u32, orig_len: len as u32 }
    }

    /// The header of a record that holds a whole payload of `len` bytes, with
    /// no timestamp.
    pub fn for_payload(len: u32) -> (h: PcapRecordHeader)
        ensures
            h == Self::for_payload_spec(len as nat),
    {
        PcapRecordHeader { ts_sec: 0, ts_usec: 0, incl_len: len, orig_len: len }
    }

    /// The header as the 16 bytes that the file holds.
    pub fn as_array(&self) -> (arr: [u8; 16])
        ensures
            arr@ == self.encode(),
    {
        let s = u32_to_le(self.ts_sec);
        let u = u32_to_le(self.ts_usec);
        let i = u32_to_le(self.incl_len);
        let o = u32_to_le(self.orig_len);
        let arr: [u8; 16] = [
            s[0], s[1], s[2], s[3],
            u[0], u[1], u[2], u[3],
            i[0], i[1], i[2], i[3],
            o[0], o[1], o[2], o[3],
        ];
        assert(arr@ =~= self.encode());
        arr
    }

    /// Reads a record header at `at` in `bytes`: `None` where fewer than 16
    /// bytes follow `at`.
    pub fn parse(bytes: &[u8], at: usize) -> (r: Option<PcapRecordHeader>)
        ensures
            at + 16 > bytes@.len() ==> r.is_none(),
            at + 16 <= bytes@.len() ==> r == Some(Self::decode(bytes@, at as int)),
    {
        if at > bytes.len() || bytes.len() - at < PCAP_RECORD_HEADER_LEN {
            return None;
        }
        Some(
            PcapRecordHeader {
                ts_sec: u32_from_le(bytes, at),
                ts_usec: u32_from_le(bytes, at + 4),
                incl_len: u32_from_le(bytes, at + 8),
                orig_len: u32_from_le(bytes, at + 12),
            },
        )
    }
}

/// The bytes of one record: its header, then the payload whole.
pub open spec fn record_image(payload: Seq<u8>) -> Seq<u8>
    recommends
        payload.len() <= u32::MAX,
{
    PcapRecordHeader::for_payload_spec(payload.len()).encode() + payload
}

/// The bytes of the records of `payloads`, one after the other.
pub open spec fn records_image(payloads: Seq<Seq<u8>>) -> Seq<u8>
    decreases payloads.len(),
{
    if payloads.len() == 0 {
        Seq::empty()
    } else {
        records_image(payloads.drop_last()) + record_image(payloads.last())
    }
}

/// The bytes of a capture file that holds `payloads`.
pub open spec fn capture_image(payloads: Seq<Seq<u8>>) -> Seq<u8> {
    PcapHeader::ieee802_15_4_spec().encode() + records_image(payloads)
}

/// Where record `i` starts in a capture file that holds `payloads`.
pub open spec fn record_offset(payloads: Seq<Seq<u8>>, i: int) -> int
    recommends
        0 <= i <= payloads.len(),
    decreases i,
{
    if i <= 0 {
        24
    } else {
        record_offset(payloads, i - 1) + 16 + payloads[i - 1].len()
    }
}

/// Whether every payload is short enough for its length to stand in a
/// record's header.
pub open spec fn payloads_fit(payloads: Seq<Seq<u8>>) -> bool {
    forall|i: int| 0 <= i < payloads.len() ==> (#[trigger] payloads[i]).len() <= u32::MAX
}

/// Reading a global header back from its bytes gives the header, whatever
/// follows the bytes.
pub proof fn lemma_header_round_trip(h: PcapHeader, rest: Seq<u8>)
    ensures
        h.encode().len() == 24,
        PcapHeader::decode(h.encode() + rest, 0) == h,
{
    let bytes = h.encode() + rest;
    lemma_le_u32_round_trip(h.magic_number);
    lemma_le_u16_round_trip(h.version_major);
    lemma_le_u16_round_trip(h.version_minor);
    lemma_le_u32_round_trip(h.thiszone as u32);
    lemma_le_u32_round_trip(h.sigfigs);
    lemma_le_u32_round_trip(h.snaplen);
    lemma_le_u32_round_trip(h.network);
    let z = h.thiszone;
    assert((z as u32) as i32 == z) by (bit_vector);
    assert(h.encode().len() == 24);
    assert(forall|k: int| 0 <= k < 24 ==> bytes[k] == h.encode()[k]);
    assert(PcapHeader::decode(bytes, 0).magic_number == h.magic_number);
    assert(PcapHeader::decode(bytes, 0).version_major == h.version_major);
    assert(PcapHeader::decode(bytes, 0).version_minor == h.version_minor);
    assert(read_le_u32(bytes, 8) == h.thiszone as u32);
    assert(PcapHeader::decode(bytes, 0).sigfigs == h.sigfigs);
    assert(PcapHeader::decode(bytes, 0).snaplen == h.snaplen);
    assert(PcapHeader::decode(bytes, 0).network == h.network);
}

/// Reading a record header back from its bytes gives the header, whatever
/// stands before and after the bytes.
pub proof fn lemma_record_header_round_trip(h: PcapRecordHeader, before: Seq<u8>, after: Seq<u8>)
    ensures
        h.encode().len() == 16,
        PcapRecordHeader::decode(before + h.encode() + after, before.len() as int) == h,
{
    let bytes = before + h.encode() + after;
    let at = before.len() as int;
    lemma_le_u32_round_trip(h.ts_sec);
    lemma_le_u32_round_trip(h.ts_usec);
    lemma_le_u32_round_trip(h.incl_len);
    lemma_le_u32_round_trip(h.orig_len);
    assert(h.encode().len() == 16);
    assert(forall|k: int| 0 <= k < 16 ==> bytes[at + k] == h.encode()[k]);
    assert(PcapRecordHeader::decode(bytes, at).ts_sec == h.ts_sec);
    assert(PcapRecordHeader::decode(bytes, at).ts_usec == h.ts_usec);
    assert(PcapRecordHeader::decode(bytes, at).incl_len == h.incl_len);
    assert(PcapRecordHeader::decode(bytes, at).orig_len == h.orig_len);
}

/// A capture file that holds `payloads` is 24 bytes and, for each payload, 16
/// bytes and the payload long: it ends where a further record would start.
pub proof fn lemma_capture_len(payloads: Seq<Seq<u8>>)
    ensures
        capture_image(payloads).len() == record_offset(payloads, payloads.len() as int),
        records_image(payloads).len() + 24 == record_offset(payloads, payloads.len() as int),
    decreases payloads.len(),
{
    lemma_header_round_trip(PcapHeader::ieee802_15_4_spec(), Seq::empty());
    if payloads.len() > 0 {
        let front = payloads.drop_last();
        lemma_capture_len(front);
        lemma_record_offset_of_prefix(payloads, front, front.len() as int);
        lemma_record_header_round_trip(
            PcapRecordHeader::for_payload_spec(payloads.last().len()),
            Seq::empty(),
            Seq::empty(),
        );
    }
}

/// Where a record starts depends on the payloads before it alone.
pub proof fn lemma_record_offset_of_prefix(payloads: Seq<Seq<u8>>, front: Seq<Seq<u8>>, i: int)
    requires
        0 <= i <= front.len() <= payloads.len(),
        forall|j: int| 0 <= j < front.len() ==> front[j] == payloads[j],
    ensures
        record_offset(front, i) == record_offset(payloads, i),
        record_offset(payloads, i) >= 24,
    decreases i,
{
    if i > 0 {
        lemma_record_offset_of_prefix(payloads, front, i - 1);
    }
}

/// A capture file starts with the global header: read back at offset 0 it
/// gives the magic number and the link type of 802.15.4.
pub proof fn lemma_capture_header(payloads: Seq<Seq<u8>>)
    ensures
        capture_image(payloads).len() >= 24,
        PcapHeader::decode(capture_image(payloads), 0) == PcapHeader::ieee802_15_4_spec(),
        PcapHeader::decode(capture_image(payloads), 0).magic_number == PCAP_MAGIC,
        PcapHeader::decode(capture_image(payloads), 0).network == PCAP_LINKTYPE_IEEE802_15_4,
{
    lemma_header_round_trip(PcapHeader::ieee802_15_4_spec(), records_image(payloads));
}

/// Record `i` of a capture file reads back as it was written: its header
/// gives the payload's length twice and no timestamp, and the payload
/// follows it unchanged.
pub proof fn lemma_capture_record(payloads: Seq<Seq<u8>>, i: int)
    requires
        payloads_fit(payloads),
        0 <= i < payloads.len(),
    ensures
        24 <= record_offset(payloads, i),
        record_offset(payloads, i + 1) == record_offset(payloads, i) + 16 + payloads[i].len(),
        record_offset(payloads, i + 1) <= capture_image(payloads).len(),
        PcapRecordHeader::decode(capture_image(payloads), record_offset(payloads, i))
            == PcapRecordHeader::for_payload_spec(payloads[i].len()),
        PcapRecordHeader::decode(capture_image(payloads), record_offset(payloads, i)).incl_len
            == payloads[i].len(),
        PcapRecordHeader::decode(capture_image(payloads), record_offset(payloads, i)).orig_len
            == payloads[i].len(),
        capture_image(payloads).subrange(
            record_offset(payloads, i) + 16,
            record_offset(payloads, i + 1),
        ) == payloads[i],
    decreases payloads.len(),
{
    let front = payloads.drop_last();
    let last = payloads.last();
    let image = capture_image(payloads);
    let head = capture_image(front);
    let h = PcapRecordHeader::for_payload_spec(last.len());
    lemma_capture_len(payloads);
    lemma_capture_len(front);
    lemma_record_offset_of_prefix(payloads, front, front.len() as int);
    lemma_record_header_round_trip(h, head, last);
    assert(image =~= head + h.encode() + last);
    if i == payloads.len() - 1 {
        assert(record_offset(payloads, i) == head.len());
        assert(image.subrange(record_offset(payloads, i) + 16, record_offset(payloads, i + 1))
            =~= last);
    } else {
        assert(payloads_fit(front)) by {
            assert forall|j: int| 0 <= j < front.len() implies (#[trigger] front[j]).len()
                <= u32::MAX by {
                assert(front[j] == payloads[j]);
            }
        }
        lemma_capture_record(front, i);
        lemma_record_offset_of_prefix(payloads, front, i);
        lemma_record_offset_of_prefix(payloads, front, i + 1);
        let at = record_offset(payloads, i);
        assert(forall|k: int| 0 <= k < head.len() ==> image[k] == head[k]);
        assert(PcapRecordHeader::decode(image, at) == PcapRecordHeader::decode(head, at));
        assert(image.subrange(at + 16, record_offset(payloads, i + 1)) =~= head.subrange(
            at + 16,
            record_offset(front, i + 1),
        ));
    }
}

/// A second global header does not pass for a record: read as a record's
/// header it shows the magic number as its seconds, where every record of
/// this writer shows zero.
pub proof fn lemma_second_header_shows(payloads: Seq<Seq<u8>>, rest: Seq<u8>)
    ensures
        PcapRecordHeader::decode(
            capture_image(payloads) + PcapHeader::ieee802_15_4_spec().encode() + rest,
            capture_image(payloads).len() as int,
        ).ts_sec == PCAP_MAGIC,
        forall|len: nat| (#[trigger] PcapRecordHeader::for_payload_spec(len)).ts_sec != PCAP_MAGIC,
{
    let h = PcapHeader::ieee802_15_4_spec();
    let before = capture_image(payloads);
    let bytes = before + h.encode() + rest;
    let at = before.len() as int;
    lemma_header_round_trip(h, rest);
    lemma_le_u32_round_trip(h.magic_number);
    assert(forall|k: int| 0 <= k < 4 ==> bytes[at + k] == h.encode()[k]);
    assert(forall|k: int| 0 <= k < 4 ==> h.encode()[k] == le_bytes_u32(h.magic_number)[k]);
}

/// A capture file begins as the global header alone, and each record is
/// added at its end.
pub proof fn lemma_capture_image_grows(payloads: Seq<Seq<u8>>, payload: Seq<u8>)
    ensures
        capture_image(Seq::empty()) == PcapHeader::ieee802_15_4_spec().encode(),
        capture_image(payloads.push(payload)) == capture_image(payloads) + record_image(payload),
{
    assert(capture_image(Seq::empty()) =~= PcapHeader::ieee802_15_4_spec().encode());
    assert(payloads.push(payload).drop_last() =~= payloads);
    assert(capture_image(payloads.push(payload)) =~= capture_image(payloads) + record_image(
        payload,
    ));
}

/// A capture file under construction. Its view is every byte written so far;
/// the bytes not yet taken out wait in a buffer for the caller to store them.
pub struct Pcap {
    stored: Ghost<Seq<u8>>,
    pending: Vec<u8>,
}

impl View for Pcap {
    type V = Seq<u8>;

    closed spec fn view(&self) -> Seq<u8> {
        self.stored@ + self.pending@
    }
}

fn append_bytes(buffer: &mut Vec<u8>, bytes: &[u8])
    ensures
        final(buffer)@ == old(buffer)@ + bytes@,
{
    let ghost before = buffer@;
    let mut i: usize = 0;
    while i < bytes.len()
        invariant
            i <= bytes@.len(),
            buffer@ == before + bytes@.subrange(0, i as int),
        decreases bytes@.len() - i,
    {
        buffer.push(bytes[i]);
        i += 1;
        assert(buffer@ =~= before + bytes@.subrange(0, i as int));
    }
    assert(bytes@.subrange(0, i as int) =~= bytes@);
}

impl Pcap {
    /// The bytes written and not yet taken out.
    pub closed spec fn pending_bytes(&self) -> Seq<u8> {
        self.pending@
    }

    /// An empty capture file.
    pub fn new() -> (p: Pcap)
        ensures
            p@ == Seq::<u8>::empty(),
            p.pending_bytes() == Seq::<u8>::empty(),
    {
        let p = Pcap { stored: Ghost(Seq::empty()), pending: Vec::new() };
        assert(p@ =~= Seq::<u8>::empty());
        p
    }

    /// Writes the global header. It belongs at the start of the file, once:
    /// nothing here refuses a second one. Written into an empty file it
    /// makes the capture file without records.
    pub fn write_header(&mut self)
        ensures
            final(self)@ == old(self)@ + PcapHeader::ieee802_15_4_spec().encode(),
            final(self).pending_bytes() == old(self).pending_bytes()
                + PcapHeader::ieee802_15_4_spec().encode(),
            old(self)@.len() == 0 ==> final(self)@ == capture_image(Seq::empty()),
    {
        let header = PcapHeader::ieee802_15_4();
        let header_bytes = header.as_array();
        append_bytes(&mut self.pending, header_bytes.as_slice());
        assert(self@ =~= old(self)@ + PcapHeader::ieee802_15_4_spec().encode());
        proof {
            lemma_capture_image_grows(Seq::empty(), Seq::empty());
            if old(self)@.len() == 0 {
                assert(self@ =~= capture_image(Seq::empty()));
            }
        }
    }

    /// Writes one record: its header, then `record` whole, whatever the
    /// snapshot length of the global header. A capture file becomes the
    /// capture file with one more record.
    pub fn write_record(&mut self, record: &[u8])
        requires
            record@.len() <= u32::MAX,
        ensures
            final(self)@ == old(self)@ + record_image(record@),
            final(self).pending_bytes() == old(self).pending_bytes() + record_image(record@),
            forall|payloads: Seq<Seq<u8>>|
                old(self)@ == #[trigger] capture_image(payloads) ==> final(self)@ == capture_image(
                    payloads.push(record@),
                ),
    {
        let record_header = PcapRecordHeader::for_payload(record.len() as u32);
        let record_header_bytes = record_header.as_array();
        append_bytes(&mut self.pending, record_header_bytes.as_slice());
        append_bytes(&mut self.pending, record);
        assert(self.pending@ =~= old(self).pending@ + record_image(record@));
        assert(self@ =~= old(self)@ + record_image(record@));
        assert forall|payloads: Seq<Seq<u8>>|
            old(self)@ == #[trigger] capture_image(payloads) implies self@ == capture_image(
            payloads.push(record@),
        ) by {
            lemma_capture_image_grows(payloads, record@);
        }
    }

    /// Takes out the bytes written since the last call, for the caller to
    /// store; the file's content stays what it was.
    pub fn take_pending(&mut self) -> (bytes: Vec<u8>)
        ensures
            bytes@ == old(self).pending_bytes(),
            final(self)@ == old(self)@,
            final(self).pending_bytes() == Seq::<u8>::empty(),
    {
        let mut bytes: Vec<u8> = Vec::new();
        core::mem::swap(&mut self.pending, &mut bytes);
        proof {
            self.stored@ = self.stored@ + bytes@;
        }
        assert(self@ =~= old(self)@);
        bytes
    }
}

} // verus!
