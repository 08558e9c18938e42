use babeltrace2_sys::internal_api::{
    check_metadata_path, decode_outcome, ByteWindow, Medium, MediumStatus, PacketDecoder,
    PacketDecoderConfig, PacketProperties, RawPacketProperties,
};
use babeltrace2_sys::status::{STATUS_AGAIN, STATUS_END, STATUS_ERROR, STATUS_OK};
use babeltrace2_sys::{Error, LoggingLevel};

fn config() -> PacketDecoderConfig {
    PacketDecoderConfig {
        log_level: LoggingLevel::Off,
        clock_class_offset_s: 0,
        clock_class_offset_ns: 0,
        force_clock_class_origin_unix_epoch: false,
        max_request_size: 64,
    }
}

/// What the decoder reports for a 64-byte packet of stream class 1 without a
/// data stream id.
fn raw(seq: u64, begin: u64, end: u64) -> RawPacketProperties {
    RawPacketProperties {
        exp_packet_total_size: 512,
        exp_packet_content_size: 512,
        stream_class_id: 1,
        data_stream_id: -1,
        discarded_events: 0,
        packets: seq,
        beginning_clock: begin,
        end_clock: end,
    }
}

fn expected(seq: u64, begin: u64, end: u64) -> PacketProperties {
    PacketProperties {
        packet_total_size_bits: Some(512),
        packet_content_size_bits: Some(512),
        stream_class_id: Some(1),
        data_stream_id: None,
        discarded_events: Some(0),
        packet_seq_num: Some(seq),
        beginning_clock: Some(begin),
        end_clock: Some(end),
    }
}

#[test]
fn three_packets_decode_in_isolation() {
    let mut dec = PacketDecoder::new(&config());
    for (seq, begin, end) in [(1, 3, 4), (2, 5, 6), (4, 9, 10)] {
        dec.start_packet(64);
        let w = dec.request_bytes(64);
        assert_eq!(w, ByteWindow { status: MediumStatus::Data, offset: 0, len: 64 });
        let props = dec.packet_properties(STATUS_OK, &raw(seq, begin, end)).unwrap().unwrap();
        assert_eq!(props, expected(seq, begin, end));
        assert_eq!(props.packet_total_size_bits.unwrap() % 8, 0);
        assert!(props.packet_total_size_bits.unwrap() / 8 <= 64);
    }
}

#[test]
fn trailing_bytes_are_not_offered_beyond_request() {
    let mut dec = PacketDecoder::new(&config());
    dec.start_packet(68);
    let w = dec.request_bytes(64);
    assert_eq!(w, ByteWindow { status: MediumStatus::Data, offset: 0, len: 64 });
    let props = dec.packet_properties(STATUS_OK, &raw(1, 3, 4)).unwrap().unwrap();
    assert_eq!(props, expected(1, 3, 4));
}

#[test]
fn decoder_failure_is_an_error_not_none() {
    let mut dec = PacketDecoder::new(&config());
    dec.start_packet(20);
    assert_eq!(dec.packet_properties(STATUS_ERROR, &raw(0, 0, 0)), Err(Error::Failure(-1)));
    dec.start_packet(20);
    assert_eq!(dec.packet_properties(-12, &raw(0, 0, 0)), Err(Error::Failure(-12)));
}

#[test]
fn end_of_data_and_starvation_give_none() {
    let mut dec = PacketDecoder::new(&config());
    dec.start_packet(0);
    assert_eq!(dec.request_bytes(64).status, MediumStatus::Again);
    assert_eq!(dec.packet_properties(STATUS_AGAIN, &raw(0, 0, 0)), Ok(None));
    dec.start_packet(10);
    assert_eq!(dec.packet_properties(STATUS_END, &raw(0, 0, 0)), Ok(None));
}

#[test]
fn decoder_reuse_leaks_nothing() {
    let mut dec = PacketDecoder::new(&config());
    dec.start_packet(64);
    assert_eq!(dec.request_bytes(100).len, 64);
    let _ = dec.packet_properties(STATUS_OK, &raw(1, 3, 4));
    // Between decodes the medium has no slice.
    assert_eq!(dec.request_bytes(16).status, MediumStatus::Failed);
    dec.start_packet(20);
    assert_eq!(dec.request_bytes(100), ByteWindow { status: MediumStatus::Data, offset: 0, len: 20 });
    let props = dec.packet_properties(STATUS_OK, &raw(2, 5, 6)).unwrap().unwrap();
    assert_eq!(props, expected(2, 5, 6));
    assert_eq!(dec.config(), &config());
}

#[test]
fn medium_answers() {
    let mut m = Medium::new();
    assert_eq!(m.request_bytes(8), ByteWindow { status: MediumStatus::Failed, offset: 0, len: 0 });
    m.set_buf(0);
    assert_eq!(m.request_bytes(8), ByteWindow { status: MediumStatus::Again, offset: 0, len: 0 });
    m.set_buf(5);
    assert_eq!(m.request_bytes(8), ByteWindow { status: MediumStatus::Data, offset: 0, len: 5 });
    assert_eq!(m.request_bytes(3), ByteWindow { status: MediumStatus::Data, offset: 0, len: 3 });
    assert_eq!(m.switch_packet(), MediumStatus::Data);
    m.reset();
    assert_eq!(m.request_bytes(3).status, MediumStatus::Failed);
    assert_eq!(MediumStatus::Data.code(), STATUS_OK);
    assert_eq!(MediumStatus::Eof.code(), STATUS_END);
    assert_eq!(MediumStatus::Again.code(), STATUS_AGAIN);
    assert_eq!(MediumStatus::Failed.code(), STATUS_ERROR);
}

#[test]
fn sentinels_map_to_absent() {
    let r = RawPacketProperties {
        exp_packet_total_size: -1,
        exp_packet_content_size: -1,
        stream_class_id: u64::MAX,
        data_stream_id: 7,
        discarded_events: u64::MAX,
        packets: u64::MAX,
        beginning_clock: u64::MAX,
        end_clock: 0,
    };
    let p = PacketProperties::from_raw(&r);
    assert_eq!(
        p,
        PacketProperties {
            packet_total_size_bits: None,
            packet_content_size_bits: None,
            stream_class_id: None,
            data_stream_id: Some(7),
            discarded_events: None,
            packet_seq_num: None,
            beginning_clock: None,
            end_clock: Some(0),
        }
    );
    assert_eq!(decode_outcome(STATUS_OK, &r), Ok(Some(p)));
}

#[test]
fn default_decoder_config() {
    let c = PacketDecoderConfig::default();
    assert_eq!(c.max_request_size, 4096);
    assert_eq!(c.log_level, LoggingLevel::Off);
    assert!(!c.force_clock_class_origin_unix_epoch);
}

#[test]
fn metadata_path_checks() {
    let p = String::from("/tmp/metadata");
    assert_eq!(check_metadata_path(&p, false, false), Err(Error::NonExistentMetadataPath(p.clone())));
    assert_eq!(check_metadata_path(&p, true, false), Err(Error::MetadataPathNotFile(p.clone())));
    assert_eq!(check_metadata_path(&p, true, true), Ok(()));
}
