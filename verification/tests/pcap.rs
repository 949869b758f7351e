use rusty_zigbee_sniffer::endian::{u16_from_le, u16_to_le, u32_from_le, u32_to_le};
use rusty_zigbee_sniffer::{Pcap, PcapHeader, PcapRecordHeader};

const GLOBAL_HEADER: [u8; 24] = [
    0xd4, 0xc3, 0xb2, 0xa1, 0x02, 0x00, 0x04, 0x00, 0x00, 0x00, 0x00, 0x00, 0x00, 0x00, 0x00,
    0x00, 0x80, 0x00, 0x00, 0x00, 0xc3, 0x00, 0x00, 0x00,
];

#[test]
fn numbers_are_written_least_significant_byte_first() {
    assert_eq!(u16_to_le(0x1234), [0x34, 0x12]);
    assert_eq!(u32_to_le(0x0102_0304), [4, 3, 2, 1]);
    assert_eq!(u32_to_le(u32::MAX), [0xff; 4]);
    assert_eq!(u32_to_le(0), [0; 4]);
}

#[test]
fn numbers_are_read_least_significant_byte_first() {
    let bytes = [0xaa, 0x34, 0x12, 0x04, 0x03, 0x02, 0x01];
    assert_eq!(u16_from_le(&bytes, 1), 0x1234);
    assert_eq!(u32_from_le(&bytes, 3), 0x0102_0304);
    assert_eq!(u32_from_le(&[0xff; 4], 0), u32::MAX);
    assert_eq!(u16_from_le(&[0xff; 2], 0), u16::MAX);
}

#[test]
fn global_header_has_the_fixed_bytes() {
    let h = PcapHeader::ieee802_15_4();
    assert_eq!(h.magic_number, 0xA1B2_C3D4);
    assert_eq!(h.version_major, 2);
    assert_eq!(h.version_minor, 4);
    assert_eq!(h.thiszone, 0);
    assert_eq!(h.sigfigs, 0);
    assert_eq!(h.snaplen, 128);
    assert_eq!(h.network, 195);
    assert_eq!(h.as_array(), GLOBAL_HEADER);
}

#[test]
fn global_header_lays_out_every_field() {
    let h = PcapHeader {
        magic_number: 0x0102_0304,
        version_major: 0x0506,
        version_minor: 0x0708,
        thiszone: -2,
        sigfigs: 0x090a_0b0c,
        snaplen: 0x0d0e_0f10,
        network: 0x1112_1314,
    };
    let bytes = h.as_array();
    assert_eq!(
        bytes,
        [
            4, 3, 2, 1, 6, 5, 8, 7, 0xfe, 0xff, 0xff, 0xff, 0x0c, 0x0b, 0x0a, 9, 0x10, 0x0f,
            0x0e, 0x0d, 0x14, 0x13, 0x12, 0x11
        ]
    );
    assert_eq!(PcapHeader::parse(&bytes), Some(h));
}

#[test]
fn global_header_is_not_read_from_too_few_bytes() {
    assert_eq!(PcapHeader::parse(&GLOBAL_HEADER[..23]), None);
    assert_eq!(PcapHeader::parse(&[]), None);
}

#[test]
fn record_header_lays_out_every_field() {
    let h = PcapRecordHeader {
        ts_sec: 0x0102_0304,
        ts_usec: 0x0506_0708,
        incl_len: 0x090a_0b0c,
        orig_len: 0x0d0e_0f10,
    };
    let bytes = h.as_array();
    assert_eq!(bytes, [4, 3, 2, 1, 8, 7, 6, 5, 0x0c, 0x0b, 0x0a, 9, 0x10, 0x0f, 0x0e, 0x0d]);
    assert_eq!(PcapRecordHeader::parse(&bytes, 0), Some(h));
}

#[test]
fn record_header_for_a_payload_has_its_length_twice() {
    let h = PcapRecordHeader::for_payload(300);
    assert_eq!(h, PcapRecordHeader { ts_sec: 0, ts_usec: 0, incl_len: 300, orig_len: 300 });
    assert_eq!(h.as_array(), [0, 0, 0, 0, 0, 0, 0, 0, 0x2c, 1, 0, 0, 0x2c, 1, 0, 0]);
}

#[test]
fn record_header_is_not_read_past_the_end() {
    let bytes = [0u8; 20];
    assert!(PcapRecordHeader::parse(&bytes, 4).is_some());
    assert_eq!(PcapRecordHeader::parse(&bytes, 5), None);
    assert_eq!(PcapRecordHeader::parse(&bytes, 21), None);
    assert_eq!(PcapRecordHeader::parse(&bytes, usize::MAX), None);
}

#[test]
fn new_capture_is_empty() {
    let mut pcap = Pcap::new();
    assert!(pcap.take_pending().is_empty());
}

#[test]
fn write_header_writes_the_fixed_bytes() {
    let mut pcap = Pcap::new();
    pcap.write_header();
    assert_eq!(pcap.take_pending(), GLOBAL_HEADER.to_vec());
}

#[test]
fn write_record_writes_header_and_payload() {
    let mut pcap = Pcap::new();
    pcap.write_record(&[0xde, 0xad, 0xbe]);
    assert_eq!(
        pcap.take_pending(),
        vec![0, 0, 0, 0, 0, 0, 0, 0, 3, 0, 0, 0, 3, 0, 0, 0, 0xde, 0xad, 0xbe]
    );
}

#[test]
fn write_record_takes_an_empty_payload() {
    let mut pcap = Pcap::new();
    pcap.write_record(&[]);
    assert_eq!(pcap.take_pending(), vec![0u8; 16]);
}

#[test]
fn write_record_does_not_cut_at_the_snapshot_length() {
    let payload: Vec<u8> = (0..200u8).collect();
    let mut pcap = Pcap::new();
    pcap.write_record(&payload);
    let bytes = pcap.take_pending();
    assert_eq!(bytes.len(), 216);
    let h = PcapRecordHeader::parse(&bytes, 0).unwrap();
    assert_eq!(h.incl_len, 200);
    assert_eq!(h.orig_len, 200);
    assert_eq!(&bytes[16..], &payload[..]);
}

#[test]
fn take_pending_hands_out_each_byte_once() {
    let mut pcap = Pcap::new();
    pcap.write_header();
    assert_eq!(pcap.take_pending().len(), 24);
    assert!(pcap.take_pending().is_empty());
    pcap.write_record(&[1, 2]);
    pcap.write_record(&[3]);
    assert_eq!(pcap.take_pending().len(), 18 + 17);
    assert!(pcap.take_pending().is_empty());
}

#[test]
fn capture_file_reads_back_as_written() {
    let payloads: Vec<Vec<u8>> = vec![
        vec![],
        vec![0x41],
        (0..127u8).collect(),
        (0..255u8).rev().collect(),
        vec![0xd4, 0xc3, 0xb2, 0xa1],
    ];
    let mut pcap = Pcap::new();
    let mut file: Vec<u8> = Vec::new();
    pcap.write_header();
    for (i, p) in payloads.iter().enumerate() {
        pcap.write_record(p);
        if i % 2 == 0 {
            file.extend(pcap.take_pending());
        }
    }
    file.extend(pcap.take_pending());

    let expected: usize = 24 + payloads.iter().map(|p| 16 + p.len()).sum::<usize>();
    assert_eq!(file.len(), expected);
    assert_eq!(file.len(), 24 + 16 * 5 + 0 + 1 + 127 + 255 + 4);

    let header = PcapHeader::parse(&file).unwrap();
    assert_eq!(header.magic_number, 0xA1B2_C3D4);
    assert_eq!(header.network, 195);
    assert_eq!(header, PcapHeader::ieee802_15_4());

    let mut at = 24usize;
    for p in payloads.iter() {
        let h = PcapRecordHeader::parse(&file, at).unwrap();
        assert_eq!(h.ts_sec, 0);
        assert_eq!(h.ts_usec, 0);
        assert_eq!(h.incl_len as usize, p.len());
        assert_eq!(h.orig_len as usize, p.len());
        assert_eq!(&file[at + 16..at + 16 + p.len()], &p[..]);
        at += 16 + p.len();
    }
    assert_eq!(at, file.len());
}

// Nothing refuses a second global header. The file is then no capture file,
// and a reader can tell: where the first record should start stands the
// magic number, which no record of this writer has as its seconds.
#[test]
fn second_header_shows_in_the_file() {
    let mut pcap = Pcap::new();
    pcap.write_header();
    pcap.write_header();
    pcap.write_record(&[1, 2, 3]);
    let file = pcap.take_pending();
    assert_eq!(file.len(), 24 + 24 + 16 + 3);
    let first = PcapRecordHeader::parse(&file, 24).unwrap();
    assert_eq!(first.ts_sec, 0xA1B2_C3D4);
    assert_ne!(first.ts_sec, PcapRecordHeader::for_payload(3).ts_sec);
    assert_ne!(first, PcapRecordHeader::for_payload(3));

    let mut good = Pcap::new();
    good.write_header();
    good.write_record(&[1, 2, 3]);
    let good_file = good.take_pending();
    assert_eq!(
        PcapRecordHeader::parse(&good_file, 24),
        Some(PcapRecordHeader::for_payload(3))
    );
}
