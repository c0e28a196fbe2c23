use pcap_viewer::args::CliArgs;
use pcap_viewer::classify::Region;
use pcap_viewer::display::{
    find_packet_header_in_line, format_file_header_info, format_parsed_info, hex_cells, SpanStyle,
};
use pcap_viewer::hex_display::HexDisplayer;
use pcap_viewer::parser::PcapParser;
use pcap_viewer::textfmt::{
    display_raw_data_as_ascii, push_dec, push_dec_padded, push_hex, push_hex_padded,
};
use pcap_viewer::timestamp::format_packet_time;
use pcap_viewer::viewer::{HexViewer, LoopControl};
use pcap_viewer::keyboard::{KeyInput, KeyboardHandler};
use pcap_viewer::terminal::{available_lines, TerminalManager};

fn valid_header() -> Vec<u8> {
    vec![
        0xA1, 0xB2, 0xC3, 0xD4, 0x02, 0x00, 0x04, 0x00, 0x00, 0x00, 0x00, 0x00, 0x00, 0x00, 0x00,
        0x00,
    ]
}

fn push_packet(buffer: &mut Vec<u8>, seconds: u32, nanos: u32, payload: &[u8], checksum: u32) {
    buffer.extend_from_slice(&seconds.to_le_bytes());
    buffer.extend_from_slice(&nanos.to_le_bytes());
    buffer.extend_from_slice(&(payload.len() as u32).to_le_bytes());
    buffer.extend_from_slice(&checksum.to_le_bytes());
    buffer.extend_from_slice(payload);
}

fn test_args() -> CliArgs {
    CliArgs {
        file_path: String::from("capture.pcap"),
        bytes_per_line: 16,
        max_lines: None,
        offset: 0,
        no_color: true,
        verbose: false,
    }
}

#[test]
fn ascii_sidebar_maps_printable_bytes() {
    let data = [72u8, 101, 108, 108, 111, 0, 31, 127, 32, 126];
    assert_eq!(display_raw_data_as_ascii(&data), "Hello... ~");
}

#[test]
fn number_renderings_are_exact() {
    let mut s = String::new();
    push_hex(&mut s, 0xD4C3B2A1);
    assert_eq!(s, "D4C3B2A1");
    let mut s = String::new();
    push_hex_padded(&mut s, 0xFF, 8);
    assert_eq!(s, "000000FF");
    let mut s = String::new();
    push_dec(&mut s, 1000);
    assert_eq!(s, "1000");
    let mut s = String::new();
    push_dec_padded(&mut s, 42, 9);
    assert_eq!(s, "000000042");
    let mut s = String::new();
    push_dec(&mut s, 0);
    assert_eq!(s, "0");
}

#[test]
fn file_header_info_line_is_exact() {
    let data = valid_header();
    let info = format_file_header_info(&data).unwrap();
    assert_eq!(info, " MAGIC: 0xD4C3B2A1 VER: 2.4 TZ: 0 TS_ACC: 0");
}

#[test]
fn file_header_info_needs_sixteen_bytes() {
    let data = vec![0u8; 15];
    assert!(format_file_header_info(&data).is_none());
}

#[test]
fn epoch_timestamp_formats_with_nanoseconds() {
    let (text, valid) = format_packet_time(0, 0);
    assert!(valid);
    assert_eq!(text, "1970-01-01T00:00:00.000000000");
}

#[test]
fn unrepresentable_nanoseconds_give_invalid_marker() {
    let (text, valid) = format_packet_time(5, 2_000_000_000);
    assert!(!valid);
    assert_eq!(text, "INVALID_TS(5,2000000000)");
}

#[test]
fn leap_second_nanoseconds_are_representable_at_minute_end() {
    // 59 seconds past the epoch ends a minute, so a leap-second
    // nanosecond count is representable there
    let (text, valid) = format_packet_time(59, 1_500_000_000);
    assert!(valid);
    assert!(text.ends_with(".1500000000"));
    // but not in the middle of a minute
    let (text, valid) = format_packet_time(30, 1_500_000_000);
    assert!(!valid);
    assert_eq!(text, "INVALID_TS(30,1500000000)");
}

#[test]
fn header_annotation_flags_valid_header() {
    let data = valid_header();
    let parser = PcapParser::new(&data).unwrap();
    let spans = format_parsed_info(&data, 0, &parser);
    assert_eq!(spans.len(), 5);
    assert_eq!(spans[0].text, " MAGIC: ");
    assert_eq!(spans[0].style, SpanStyle::Plain);
    assert_eq!(spans[1].text, "0xD4C3B2A1");
    assert_eq!(spans[1].style, SpanStyle::Valid);
    assert_eq!(spans[2].text, " VER: ");
    assert_eq!(spans[3].text, "2.4");
    assert_eq!(spans[3].style, SpanStyle::Valid);
    assert_eq!(spans[4].text, " TZ: 0 TS_ACC: 0");
    assert_eq!(spans[4].style, SpanStyle::Plain);
}

#[test]
fn header_annotation_flags_zero_magic_invalid() {
    let mut data = vec![0u8; 16];
    data[4] = 0x02;
    data[6] = 0x04;
    let parser = PcapParser::new(&data).unwrap();
    let spans = format_parsed_info(&data, 0, &parser);
    assert_eq!(spans[1].text, "0x00000000");
    assert_eq!(spans[1].style, SpanStyle::Invalid);
    assert_eq!(spans[3].text, "2.4");
    assert_eq!(spans[3].style, SpanStyle::Valid);
}

#[test]
fn header_continuation_line_gets_no_annotation() {
    let data = valid_header();
    let parser = PcapParser::new(&data).unwrap();
    // a line of 16 bytes starting at offset 8 is inside the header but
    // does not open it
    let spans = format_parsed_info(&data, 8, &parser);
    assert!(spans.is_empty());
}

#[test]
fn packet_opening_line_gets_time_annotation() {
    let mut data = valid_header();
    push_packet(&mut data, 0, 123, &[1, 2, 3, 4], 0xCAFEBABE);
    let parser = PcapParser::new(&data).unwrap();
    let line = &data[16..32];
    let spans = format_parsed_info(line, 16, &parser);
    assert_eq!(spans.len(), 5);
    assert_eq!(spans[0].text, " TIME: ");
    assert_eq!(spans[1].text, "1970-01-01T00:00:00.000000123");
    assert_eq!(spans[1].style, SpanStyle::Valid);
    assert_eq!(spans[2].text, " LEN: ");
    assert_eq!(spans[3].text, "4");
    assert_eq!(spans[3].style, SpanStyle::Valid);
    assert_eq!(spans[4].text, " CRC: 0xCAFEBABE");
}

#[test]
fn payload_line_gets_no_annotation() {
    let mut data = valid_header();
    push_packet(&mut data, 0, 0, &[9u8; 40], 1);
    let parser = PcapParser::new(&data).unwrap();
    // a line fully inside the payload opens no region
    let line = &data[48..64];
    let spans = format_parsed_info(line, 48, &parser);
    assert!(spans.is_empty());
}

#[test]
fn find_packet_header_respects_line_window() {
    let mut data = valid_header();
    push_packet(&mut data, 0, 0, &[0u8; 4], 0);
    push_packet(&mut data, 0, 0, &[0u8; 4], 0);
    let parser = PcapParser::new(&data).unwrap();
    assert_eq!(find_packet_header_in_line(16, 16, parser.packets()), Some(0));
    assert_eq!(find_packet_header_in_line(32, 16, parser.packets()), Some(1));
    assert_eq!(find_packet_header_in_line(17, 16, parser.packets()), None);
    assert_eq!(find_packet_header_in_line(0, 16, parser.packets()), None);
    assert_eq!(find_packet_header_in_line(56, 16, parser.packets()), None);
}

#[test]
fn hex_cells_tag_each_byte_with_its_region() {
    let mut data = valid_header();
    push_packet(&mut data, 0, 0, &[0xAB, 0xCD], 0);
    let parser = PcapParser::new(&data).unwrap();
    let line = &data[8..24];
    let cells = hex_cells(line, 8, parser.packets());
    assert_eq!(cells.len(), 16);
    assert_eq!(cells[0].region, Region::FileHeader);
    assert_eq!(cells[7].region, Region::FileHeader);
    assert_eq!(
        cells[8].region,
        Region::PacketHeader { packet_index: 0, packet_start: 16 }
    );
    assert_eq!(cells[0].hi, '0');
    assert_eq!(cells[0].lo, '0');
    // byte at offset 16 is the low byte of timestamp_seconds (0)
    assert_eq!(cells[8].hi, '0');
    assert_eq!(cells[8].lo, '0');
}

#[test]
fn viewer_renders_page_lines_with_offsets() {
    let mut data = valid_header();
    push_packet(&mut data, 0, 0, &[0x41; 4], 0);
    let parser = PcapParser::new(&data).unwrap();
    let mut viewer = HexViewer::new(parser, test_args(), data);
    viewer.pagination.update_lines_per_page(2);
    let page = viewer.render_page();
    assert_eq!(page.len(), 2);
    assert_eq!(page[0].offset_text, "00000000: ");
    assert_eq!(page[1].offset_text, "00000010: ");
    assert_eq!(page[0].cells.len(), 16);
    assert_eq!(page[0].pad_cells, 0);
    // the last line holds 36 - 32 = 4 bytes and 12 blank cells
    viewer.pagination.scroll_down();
    let page = viewer.render_page();
    assert_eq!(page.len(), 2);
    assert_eq!(page[1].cells.len(), 4);
    assert_eq!(page[1].pad_cells, 12);
    assert_eq!(page[1].cells[0].hi, '4');
    assert_eq!(page[1].cells[0].lo, '1');
}

#[test]
fn viewer_keys_drive_pagination() {
    let data = valid_header();
    let parser = PcapParser::new(&data).unwrap();
    let mut viewer = HexViewer::new(parser, test_args(), data);
    viewer.pagination = pcap_viewer::pagination::PaginationState::new(30, 1000);
    assert_eq!(viewer.handle_key(KeyInput::End), LoopControl::Continue);
    assert_eq!(viewer.pagination.display_start_line(), 970);
    assert_eq!(viewer.handle_key(KeyInput::Down), LoopControl::Continue);
    assert_eq!(viewer.pagination.display_start_line(), 970);
    assert_eq!(viewer.handle_key(KeyInput::Up), LoopControl::Continue);
    assert_eq!(viewer.pagination.display_start_line(), 969);
    assert_eq!(viewer.handle_key(KeyInput::Left), LoopControl::Continue);
    assert_eq!(viewer.pagination.display_start_line(), 939);
    assert_eq!(viewer.handle_key(KeyInput::Home), LoopControl::Continue);
    assert_eq!(viewer.pagination.display_start_line(), 0);
    assert_eq!(viewer.handle_key(KeyInput::Other), LoopControl::Continue);
    assert_eq!(viewer.handle_key(KeyInput::Esc), LoopControl::Quit);
    assert_eq!(viewer.handle_key(KeyInput::CharQ), LoopControl::Quit);
}

#[test]
fn viewer_redraw_suppression_follows_the_mark() {
    let data = valid_header();
    let parser = PcapParser::new(&data).unwrap();
    let mut viewer = HexViewer::new(parser, test_args(), data);
    // the fresh viewer always draws once
    assert!(viewer.needs_redraw(false));
    viewer.mark_drawn();
    assert!(!viewer.needs_redraw(false));
    assert!(viewer.needs_redraw(true));
    assert_eq!(viewer.handle_key(KeyInput::CharR), LoopControl::Continue);
    assert!(viewer.needs_redraw(false));
}

#[test]
fn keyboard_debounce_drops_fast_repeats() {
    let mut handler = KeyboardHandler::default();
    assert!(handler.should_process_key(KeyInput::Up, 1000));
    assert!(!handler.should_process_key(KeyInput::Up, 1050));
    assert!(handler.should_process_key(KeyInput::Down, 1060));
    assert!(handler.should_process_key(KeyInput::Down, 1300));
    assert!(handler.should_process_key(KeyInput::Down, 1450));
}

#[test]
fn keyboard_handler_new_sets_interval() {
    let handler = KeyboardHandler::new(10);
    assert_eq!(handler.debounce_duration_ms, 10);
    let mut handler = handler;
    assert!(handler.should_process_key(KeyInput::Up, 0));
    assert!(!handler.should_process_key(KeyInput::Up, 9));
    assert!(handler.should_process_key(KeyInput::Up, 10));
}

#[test]
fn available_lines_saturates() {
    assert_eq!(available_lines(24, 6), 18);
    assert_eq!(available_lines(5, 6), 0);
    assert_eq!(available_lines(6, 6), 0);
}

#[test]
fn terminal_size_stays_in_bounds() {
    let terminal = TerminalManager::new();
    assert!(!terminal.is_raw_mode);
    let (width, height) = terminal.get_size();
    assert!(width <= u16::MAX as usize);
    assert!(height <= u16::MAX as usize);
    assert!(terminal.calculate_display_lines(6) <= u16::MAX as usize);
}

#[test]
fn dump_line_lays_out_hex_and_sidebar() {
    let data: Vec<u8> = (0u8..16).collect();
    let displayer = HexDisplayer::new(16, false);
    let line = displayer.display_hex_line(0, &data, 0, 16);
    assert_eq!(
        line,
        "00000000  00 01 02 03 04 05 06 07  08 09 0A 0B 0C 0D 0E 0F    |................|"
    );
}

#[test]
fn dump_line_pads_short_tail() {
    let data: Vec<u8> = vec![0x41, 0x42];
    let displayer = HexDisplayer::new(16, false);
    let line = displayer.display_hex_line(0, &data, 0, 16);
    let expected = format!("00000000  41 42 {}  |AB|", " ".repeat(44));
    assert_eq!(line, expected);
}

#[test]
fn dump_line_with_parsing_names_the_magic_field() {
    let mut data = valid_header();
    push_packet(&mut data, 77, 0, &[1, 2], 0x0BADF00D);
    let parser = PcapParser::new(&data).unwrap();
    let displayer = HexDisplayer::new(16, false);
    let line = displayer.display_hex_line_with_parsing(0, &data, 0, 16, &parser);
    assert!(line.ends_with("  Magic: 0xD4C3B2A1"), "line was: {line}");
    let line = displayer.display_hex_line_with_parsing(0, &data, 1, 16, &parser);
    assert!(line.ends_with("  TS: 77"), "line was: {line}");
}

#[test]
fn raw_dump_covers_every_line() {
    let data: Vec<u8> = (0u8..40).collect();
    let displayer = HexDisplayer::new(16, false);
    let lines = displayer.display_raw_data(&data);
    assert_eq!(lines.len(), 3);
    assert!(lines[0].starts_with("00000000  "));
    assert!(lines[1].starts_with("00000010  "));
    assert!(lines[2].starts_with("00000020  "));
}

#[test]
fn header_summary_lines_are_exact() {
    let data = valid_header();
    let parser = PcapParser::new(&data).unwrap();
    let displayer = HexDisplayer::new(16, false);
    let lines = displayer.display_file_header_info(parser.file_header().unwrap());
    assert_eq!(lines.len(), 7);
    assert_eq!(lines[0], "=== PCAP 文件头信息 ===");
    assert_eq!(lines[1], "魔数: 0xD4C3B2A1");
    assert_eq!(lines[2], "主版本号: 2");
    assert_eq!(lines[3], "次版本号: 4");
    assert_eq!(lines[4], "时区偏移: 0");
    assert_eq!(lines[5], "时间戳精度: 0");
    assert_eq!(lines[6], "");
}

#[test]
fn packet_summary_lists_first_ten() {
    let mut data = valid_header();
    for i in 0..12u32 {
        push_packet(&mut data, i, 0, &[], i);
    }
    let parser = PcapParser::new(&data).unwrap();
    let displayer = HexDisplayer::new(16, false);
    let lines = displayer.display_packet_info(parser.packets());
    assert_eq!(lines.len(), 3 + 5 * 10 + 1);
    assert_eq!(lines[0], "=== 数据包信息 ===");
    assert_eq!(lines[1], "总数据包数: 12");
    assert_eq!(lines[2], "");
    assert_eq!(lines[3], "数据包 #1");
    assert_eq!(lines[4], "  时间戳: 0.000000000");
    assert_eq!(lines[5], "  数据长度: 0 字节");
    assert_eq!(lines[6], "  校验和: 0x00000000");
    assert_eq!(lines[7], "");
    assert_eq!(lines[lines.len() - 1], "... 还有 2 个数据包");
}

#[test]
fn status_line_reports_line_and_page_position() {
    let data = valid_header();
    let parser = PcapParser::new(&data).unwrap();
    let mut viewer = HexViewer::new(parser, test_args(), data);
    viewer.pagination = pcap_viewer::pagination::PaginationState::new(30, 1000);
    viewer.handle_key(KeyInput::End);
    assert_eq!(viewer.status_line(), "第 971 行 / 共 1000 行 (第 33 页 / 共 34 页)");
}

#[test]
fn largest_second_count_is_still_representable() {
    let (text, valid) = format_packet_time(u32::MAX, 999_999_999);
    assert!(valid);
    assert_eq!(text, "2106-02-07T06:28:15.999999999");
}
