use pcap_viewer::classify::Region;
use pcap_viewer::error::PcapViewerError;
use pcap_viewer::pagination::PaginationState;
use pcap_viewer::parser::{DataPacket, PcapParser};

fn valid_header() -> Vec<u8> {
    vec![
        0xA1, 0xB2, 0xC3, 0xD4, 0x02, 0x00, 0x04, 0x00, 0x00, 0x00, 0x00, 0x00, 0x00, 0x00, 0x00,
        0x00,
    ]
}

fn push_packet(buffer: &mut Vec<u8>, seconds: u32, nanos: u32, payload: &[u8], checksum: u32) {
    buffer.extend_from_slice(&seconds.to_le_bytes());
    buffer.extend_from_slice(&nanos.to_le_bytes());
    buffer.extend_from_slice(&(payload.len() as u32).to_le_bytes());
    buffer.extend_from_slice(&checksum.to_le_bytes());
    buffer.extend_from_slice(payload);
}

#[test]
fn parse_rejects_short_buffer() {
    let data = vec![0u8; 15];
    let result = PcapParser::new(&data);
    assert!(matches!(result, Err(PcapViewerError::TruncatedHeader)));
}

#[test]
fn header_only_buffer_parses_to_empty_packet_list() {
    let data = valid_header();
    let parser = PcapParser::new(&data).unwrap();
    assert_eq!(parser.packets().len(), 0);
    assert_eq!(
        Region::classify(16, parser.packets()),
        Region::Unclassified
    );
}

#[test]
fn header_fields_decode_little_endian() {
    let data = valid_header();
    let parser = PcapParser::new(&data).unwrap();
    let header = parser.file_header().unwrap();
    assert_eq!(header.magic_number, 0xD4C3B2A1);
    assert_eq!(header.major_version, 2);
    assert_eq!(header.minor_version, 4);
    assert_eq!(header.timezone_offset, 0);
    assert_eq!(header.timestamp_accuracy, 0);
}

#[test]
fn invalid_magic_still_parses_and_decodes_packets() {
    let mut data = vec![0u8; 16];
    push_packet(&mut data, 7, 8, &[1, 2, 3], 9);
    let parser = PcapParser::new(&data).unwrap();
    let header = parser.file_header().unwrap();
    assert_eq!(header.magic_number, 0);
    assert_eq!(parser.packets().len(), 1);
    assert_eq!(parser.packets()[0].header.timestamp_seconds, 7);
    assert_eq!(parser.packets()[0].header.packet_length, 3);
}

#[test]
fn parse_reproduces_manual_record_walk() {
    let mut data = valid_header();
    push_packet(&mut data, 100, 200, &[0xAA; 5], 0xDEADBEEF);
    push_packet(&mut data, 300, 400, &[0xBB; 2], 0x12345678);
    let parser = PcapParser::new(&data).unwrap();
    let packets: &[DataPacket] = parser.packets();
    assert_eq!(packets.len(), 2);
    // first record: header at 16, payload [32, 37)
    assert_eq!(packets[0].start_offset, 16);
    assert_eq!(packets[0].header.timestamp_seconds, 100);
    assert_eq!(packets[0].header.timestamp_nanoseconds, 200);
    assert_eq!(packets[0].header.packet_length, 5);
    assert_eq!(packets[0].header.checksum, 0xDEADBEEF);
    // second record starts where the first one's payload ends
    assert_eq!(packets[1].start_offset, 16 + 16 + 5);
    assert_eq!(packets[1].header.packet_length, 2);
    assert_eq!(packets[1].header.checksum, 0x12345678);
    // the records cover the buffer exactly
    assert_eq!(
        packets[1].start_offset + 16 + packets[1].header.packet_length as usize,
        data.len()
    );
}

#[test]
fn truncated_trailing_record_is_excluded() {
    let mut data = valid_header();
    // record header declares 1000 payload bytes, only 10 are present
    data.extend_from_slice(&5u32.to_le_bytes());
    data.extend_from_slice(&6u32.to_le_bytes());
    data.extend_from_slice(&1000u32.to_le_bytes());
    data.extend_from_slice(&7u32.to_le_bytes());
    data.extend_from_slice(&[0u8; 10]);
    let parser = PcapParser::new(&data).unwrap();
    assert_eq!(parser.packets().len(), 0);
    for offset in 16..data.len() {
        assert_eq!(
            Region::classify(offset, parser.packets()),
            Region::Unclassified
        );
    }
}

#[test]
fn classify_partitions_every_offset() {
    let mut data = valid_header();
    push_packet(&mut data, 1, 2, &[0xCC; 4], 3);
    push_packet(&mut data, 4, 5, &[], 6);
    data.extend_from_slice(&[0xFF; 3]); // trailing garbage
    let parser = PcapParser::new(&data).unwrap();
    let packets = parser.packets();
    for offset in 0..16 {
        assert_eq!(Region::classify(offset, packets), Region::FileHeader);
    }
    for offset in 16..32 {
        assert_eq!(
            Region::classify(offset, packets),
            Region::PacketHeader { packet_index: 0, packet_start: 16 }
        );
    }
    for offset in 32..36 {
        assert_eq!(
            Region::classify(offset, packets),
            Region::PacketPayload { packet_index: 0, packet_start: 16, payload_start: 32 }
        );
    }
    for offset in 36..52 {
        assert_eq!(
            Region::classify(offset, packets),
            Region::PacketHeader { packet_index: 1, packet_start: 36 }
        );
    }
    for offset in 52..data.len() {
        assert_eq!(Region::classify(offset, packets), Region::Unclassified);
    }
}

#[test]
fn error_message_names_the_short_header() {
    let err = PcapViewerError::TruncatedHeader;
    assert_eq!(err.message(), "file shorter than the 16-byte file header");
}

#[test]
fn scroll_up_at_top_is_a_noop() {
    let mut state = PaginationState::new(30, 1000);
    let before = state;
    state.scroll_up();
    assert_eq!(state, before);
}

#[test]
fn scroll_down_moves_one_line() {
    let mut state = PaginationState::new(30, 1000);
    state.scroll_down();
    assert_eq!(state.display_start_line(), 1);
    assert_eq!(state.lines_per_page(), 30);
    assert_eq!(state.total_lines(), 1000);
}

#[test]
fn go_to_last_page_then_scroll_down_is_a_noop() {
    let mut state = PaginationState::new(30, 1000);
    state.go_to_last_page();
    assert_eq!(state.display_start_line(), 970);
    let before = state;
    state.scroll_down();
    assert_eq!(state, before);
}

#[test]
fn page_down_at_last_page_is_a_noop() {
    let mut state = PaginationState::new(30, 1000);
    state.go_to_last_page();
    let before = state;
    state.page_down();
    assert_eq!(state, before);
}

#[test]
fn page_up_at_top_is_a_noop() {
    let mut state = PaginationState::new(30, 1000);
    let before = state;
    state.page_up();
    assert_eq!(state, before);
    state.go_to_first_page();
    assert_eq!(state, before);
}

#[test]
fn resize_to_same_height_is_a_noop() {
    let mut state = PaginationState::new(30, 1000);
    state.page_down();
    let before = state;
    state.update_lines_per_page(30);
    assert_eq!(state, before);
}

#[test]
fn resize_reclamps_start_line() {
    let mut state = PaginationState::new(30, 1000);
    state.go_to_last_page();
    assert_eq!(state.display_start_line(), 970);
    state.update_lines_per_page(50);
    assert_eq!(state.display_start_line(), 950);
    assert_eq!(state.lines_per_page(), 50);
}

#[test]
fn paging_jumps_by_page_height() {
    let mut state = PaginationState::new(30, 1000);
    state.page_down();
    assert_eq!(state.display_start_line(), 30);
    state.page_down();
    assert_eq!(state.display_start_line(), 60);
    state.page_up();
    assert_eq!(state.display_start_line(), 30);
}

#[test]
fn page_counters_match_their_formulas() {
    let mut state = PaginationState::new(30, 1000);
    assert_eq!(state.current_page(), 1);
    assert_eq!(state.total_pages(), 34); // ceil(1000 / 30)
    state.go_to_last_page();
    assert_eq!(state.current_page(), 33); // 970 / 30 + 1
    let empty = PaginationState::new(30, 0);
    assert_eq!(empty.total_pages(), 0);
}

#[test]
fn short_document_clamps_to_zero() {
    let mut state = PaginationState::new(30, 10);
    state.scroll_down();
    assert_eq!(state.display_start_line(), 0);
    state.page_down();
    assert_eq!(state.display_start_line(), 0);
    state.go_to_last_page();
    assert_eq!(state.display_start_line(), 0);
}

#[test]
fn empty_buffer_is_truncated() {
    let data: Vec<u8> = Vec::new();
    assert!(matches!(
        PcapParser::new(&data),
        Err(PcapViewerError::TruncatedHeader)
    ));
}

#[test]
fn sixteen_byte_threshold_is_exact() {
    assert!(PcapParser::new(&vec![0u8; 15]).is_err());
    assert!(PcapParser::new(&vec![0u8; 16]).is_ok());
}
