//! Stand-alone hex dump renderer: classic `offset  hex  |ascii|` lines with
//! an eight-byte grouping gap, an optional per-field decoded column, and
//! plain-text summaries of the file header and the packet list.
//!
//! This renderer produces plain text; the configured color choice is a
//! presentation concern left to the caller, which can restyle the returned
//! strings.

use vstd::prelude::*;
use vstd::string::StringExecFns;

use crate::classify::{spec_classify, Region};
use crate::parser::{packets_wf, DataPacket, PcapFileHeader, PcapParser};
use crate::textfmt::{
    hex_byte, push_ascii_display, push_char, push_dec, push_dec_padded, push_hex_padded,
    push_repeat, spec_ascii_display, spec_dec, spec_dec_padded, spec_hex_digit, spec_hex_padded,
};
use crate::viewer::spec_total_lines;

verus! {

/// Hex dump configuration: the line width, and whether the caller intends
/// to style the output.
#[derive(Debug, Clone, Copy, PartialEq, Eq, Structural)]
pub struct HexDisplayer {
    pub bytes_per_line: usize,
    pub use_color: bool,
}

/// The hex column for bytes `[i, end)` of `data`: two digits and a space
/// per byte, with one extra space after every eighth byte of the buffer.
pub open spec fn spec_hex_body(data: Seq<u8>, i: int, end: int) -> Seq<char>
    decreases end - i,
{
    if i < 0 || i >= end || end > data.len() {
        Seq::empty()
    } else {
        seq![spec_hex_digit(data[i] as int / 16), spec_hex_digit(data[i] as int % 16), ' ']
            + (if (i + 1) % 8 == 0 {
            seq![' ']
        } else {
            Seq::empty()
        }) + spec_hex_body(data, i + 1, end)
    }
}

/// One full dump line for logical line `line_number`: the eight-digit
/// offset, two spaces, the hex column padded to the full line width, two
/// spaces, and the ASCII sidebar between `|` bars.
pub open spec fn spec_display_hex_line(
    data: Seq<u8>,
    offset: int,
    line_number: int,
    bpl: int,
) -> Seq<char> {
    let line_start = line_number * bpl;
    let line_end = if line_start + bpl <= data.len() {
        line_start + bpl
    } else {
        data.len() as int
    };
    let k = line_end - line_start;
    let hex_width = bpl * 3 + bpl / 8;
    let cur_len = k * 3 + k / 8;
    let pad = if hex_width >= cur_len {
        (hex_width - cur_len) as nat
    } else {
        0
    };
    spec_hex_padded(offset + line_start, 8) + "  "@ + spec_hex_body(data, line_start, line_end)
        + Seq::new(pad, |i: int| ' ') + "  |"@ + spec_ascii_display(
        data.subrange(line_start, line_end),
    ) + "|"@
}

/// The decoded-field label for an offset inside the file header, reading
/// the field value from the front of the given line bytes.
pub open spec fn spec_file_header_field(off: int, line: Seq<u8>) -> Seq<char> {
    if 0 <= off <= 3 {
        "Magic: 0x"@ + spec_hex_padded(
            crate::parser::spec_le_u32(line[0], line[1], line[2], line[3]) as int,
            8,
        )
    } else if 4 <= off <= 5 {
        "Major: "@ + spec_dec(crate::parser::spec_le_u16(line[0], line[1]) as int)
    } else if 6 <= off <= 7 {
        "Minor: "@ + spec_dec(crate::parser::spec_le_u16(line[0], line[1]) as int)
    } else if 8 <= off <= 11 {
        "TZ: "@ + spec_dec(
            crate::parser::spec_le_u32(line[0], line[1], line[2], line[3]) as int,
        )
    } else if 12 <= off <= 15 {
        "Acc: "@ + spec_dec(
            crate::parser::spec_le_u32(line[0], line[1], line[2], line[3]) as int,
        )
    } else {
        Seq::empty()
    }
}

/// The decoded-field label for an offset `field_off` bytes into a packet,
/// reading the field value from the front of the given line bytes.
pub open spec fn spec_packet_field(field_off: int, line: Seq<u8>) -> Seq<char> {
    if 0 <= field_off <= 3 {
        "TS: "@ + spec_dec(crate::parser::spec_le_u32(line[0], line[1], line[2], line[3]) as int)
    } else if 4 <= field_off <= 7 {
        "TSn: "@ + spec_dec(
            crate::parser::spec_le_u32(line[0], line[1], line[2], line[3]) as int,
        )
    } else if 8 <= field_off <= 11 {
        "Len: "@ + spec_dec(
            crate::parser::spec_le_u32(line[0], line[1], line[2], line[3]) as int,
        )
    } else if 12 <= field_off <= 15 {
        "CRC: 0x"@ + spec_hex_padded(
            crate::parser::spec_le_u32(line[0], line[1], line[2], line[3]) as int,
            8,
        )
    } else if field_off >= 16 {
        "Data["@ + spec_dec(field_off - 16) + "]"@
    } else {
        Seq::empty()
    }
}

/// The decoded column of a line whose first byte sits at `off`: a file
/// header field below offset 16, a packet field inside a decoded packet,
/// nothing over unclassified bytes.
pub open spec fn spec_parsing_info(off: int, line: Seq<u8>, s: Seq<DataPacket>) -> Option<
    Seq<char>,
> {
    if off < 16 {
        Some(spec_file_header_field(off, line))
    } else {
        match spec_classify(off, s) {
            Region::PacketHeader { packet_index, packet_start } => Some(
                spec_packet_field(off - packet_start, line),
            ),
            Region::PacketPayload { packet_index, packet_start, payload_start } => Some(
                spec_packet_field(off - packet_start, line),
            ),
            _ => None,
        }
    }
}

/// How many bytes of the line the decoded column reads: the version fields
/// take two, every other decoded field four, and payload or unclassified
/// bytes none.
pub open spec fn spec_field_bytes_needed(off: int, s: Seq<DataPacket>) -> int {
    if off < 16 {
        if 4 <= off <= 7 {
            2
        } else {
            4
        }
    } else {
        match spec_classify(off, s) {
            Region::PacketHeader { packet_index, packet_start } => 4,
            _ => 0,
        }
    }
}

impl HexDisplayer {
    pub fn new(bytes_per_line: usize, use_color: bool) -> (r: Self)
        ensures
            r == (HexDisplayer { bytes_per_line, use_color }),
    {
        HexDisplayer { bytes_per_line, use_color }
    }

    /// One dump line of `data`, the hex and sidebar columns only.
    pub fn display_hex_line(
        &self,
        offset: usize,
        data: &[u8],
        line_number: usize,
        bytes_per_line: usize,
    ) -> (r: String)
        requires
            line_number * bytes_per_line <= data@.len(),
            offset + line_number * bytes_per_line + bytes_per_line <= usize::MAX,
            bytes_per_line * 3 + bytes_per_line / 8 <= usize::MAX,
        ensures
            r@ == spec_display_hex_line(
                data@,
                offset as int,
                line_number as int,
                bytes_per_line as int,
            ),
    {
        let line_start = line_number * bytes_per_line;
        let start_offset = offset + line_start;
        let data_len = data.len();
        let take = if bytes_per_line <= data_len - line_start {
            bytes_per_line
        } else {
            data_len - line_start
        };
        let line_end = line_start + take;
        let mut s = String::new();
        push_hex_padded(&mut s, start_offset as u64, 8);
        s.append("  ");
        let ghost base = spec_hex_padded(start_offset as int, 8) + "  "@;
        assert(s@ =~= base);
        let mut i = line_start;
        while i < line_end
            invariant
                line_start <= i <= line_end <= data@.len(),
                s@ + spec_hex_body(data@, i as int, line_end as int) == base + spec_hex_body(
                    data@,
                    line_start as int,
                    line_end as int,
                ),
            decreases line_end - i,
        {
            let (hi, lo) = hex_byte(data[i]);
            push_char(&mut s, hi);
            push_char(&mut s, lo);
            push_char(&mut s, ' ');
            if (i + 1) % 8 == 0 {
                push_char(&mut s, ' ');
            }
            proof {
                assert(spec_hex_body(data@, i as int, line_end as int) =~= seq![
                    spec_hex_digit(data@[i as int] as int / 16),
                    spec_hex_digit(data@[i as int] as int % 16),
                    ' ',
                ] + (if (i + 1) % 8 == 0 {
                    seq![' ']
                } else {
                    Seq::<char>::empty()
                }) + spec_hex_body(data@, i + 1, line_end as int));
                assert(s@ + spec_hex_body(data@, i + 1, line_end as int) =~= base + spec_hex_body(
                    data@,
                    line_start as int,
                    line_end as int,
                ));
            }
            i = i + 1;
        }
        let hex_width = bytes_per_line * 3 + bytes_per_line / 8;
        let cur_len = take * 3 + take / 8;
        proof {
            vstd::arithmetic::div_mod::lemma_div_is_ordered(
                take as int,
                bytes_per_line as int,
                8,
            );
        }
        push_repeat(&mut s, ' ', hex_width - cur_len);
        s.append("  |");
        push_ascii_display(&mut s, &data[line_start..line_end]);
        s.append("|");
        proof {
            assert(spec_hex_body(data@, line_end as int, line_end as int) =~= Seq::<
                char,
            >::empty());
            assert(s@ =~= spec_display_hex_line(
                data@,
                offset as int,
                line_number as int,
                bytes_per_line as int,
            ));
        }
        s
    }

    /// One dump line of `data` with the decoded column appended after two
    /// spaces wherever the line's first byte has a decoded field.
    pub fn display_hex_line_with_parsing(
        &self,
        offset: usize,
        data: &[u8],
        line_number: usize,
        bytes_per_line: usize,
        parser: &PcapParser,
    ) -> (r: String)
        requires
            packets_wf(parser.packets@),
            line_number * bytes_per_line <= data@.len(),
            offset + line_number * bytes_per_line + bytes_per_line <= usize::MAX,
            bytes_per_line * 3 + bytes_per_line / 8 <= usize::MAX,
            ({
                let line_start = line_number * bytes_per_line;
                let line_end = if line_start + bytes_per_line <= data@.len() {
                    line_start + bytes_per_line
                } else {
                    data@.len() as int
                };
                line_end - line_start >= spec_field_bytes_needed(
                    offset + line_start,
                    parser.packets@,
                )
            }),
        ensures
            r@ == spec_display_hex_line(
                data@,
                offset as int,
                line_number as int,
                bytes_per_line as int,
            ) + match spec_parsing_info(
                offset + line_number * bytes_per_line,
                data@.subrange(
                    line_number * bytes_per_line,
                    if line_number * bytes_per_line + bytes_per_line <= data@.len() {
                        line_number * bytes_per_line + bytes_per_line
                    } else {
                        data@.len() as int
                    },
                ),
                parser.packets@,
            ) {
                Some(info) => "  "@ + info,
                None => Seq::<char>::empty(),
            },
    {
        let line_start = line_number * bytes_per_line;
        let start_offset = offset + line_start;
        let data_len = data.len();
        let take = if bytes_per_line <= data_len - line_start {
            bytes_per_line
        } else {
            data_len - line_start
        };
        let line_end = line_start + take;
        let mut s = self.display_hex_line(offset, data, line_number, bytes_per_line);
        let line = &data[line_start..line_end];
        match Self::get_parsing_info(start_offset, line, parser.packets.as_slice()) {
            Some(info) => {
                s.append("  ");
                s.append(info.as_str());
            },
            None => {},
        }
        s
    }

    /// The decoded column for a line starting at absolute `offset`, from
    /// the line's bytes.
    fn get_parsing_info(offset: usize, line: &[u8], packets: &[DataPacket]) -> (r: Option<String>)
        requires
            packets_wf(packets@),
            line@.len() >= spec_field_bytes_needed(offset as int, packets@),
        ensures
            match r {
                Some(info) => spec_parsing_info(offset as int, line@, packets@) == Some(info@),
                None => spec_parsing_info(offset as int, line@, packets@) is None,
            },
    {
        // the slice length bounds the packet count for the partition lemma
        let packet_count = packets.len();
        proof {
            assert(packets@.len() == packet_count);
            crate::classify::lemma_classify_partition(offset as int, packets@);
        }
        if offset < 16 {
            return Some(Self::parse_file_header_field(offset, line));
        }
        match Self::find_packet_at_offset(offset, packets) {
            Some((packet_index, packet_start)) => Some(
                Self::parse_packet_field(offset - packet_start, line),
            ),
            None => None,
        }
    }

    /// File header field label for an offset below 16.
    fn parse_file_header_field(offset: usize, line: &[u8]) -> (r: String)
        requires
            offset < 16,
            4 <= offset <= 7 ==> line@.len() >= 2,
            (offset <= 3 || offset >= 8) ==> line@.len() >= 4,
        ensures
            r@ == spec_file_header_field(offset as int, line@),
    {
        let mut s = String::new();
        if offset <= 3 {
            s.append("Magic: 0x");
            push_hex_padded(
                &mut s,
                crate::parser::le_u32(line[0], line[1], line[2], line[3]) as u64,
                8,
            );
        } else if offset <= 5 {
            s.append("Major: ");
            push_dec(&mut s, crate::parser::le_u16(line[0], line[1]) as u64);
        } else if offset <= 7 {
            s.append("Minor: ");
            push_dec(&mut s, crate::parser::le_u16(line[0], line[1]) as u64);
        } else if offset <= 11 {
            s.append("TZ: ");
            push_dec(&mut s, crate::parser::le_u32(line[0], line[1], line[2], line[3]) as u64);
        } else {
            s.append("Acc: ");
            push_dec(&mut s, crate::parser::le_u32(line[0], line[1], line[2], line[3]) as u64);
        }
        s
    }

    /// Packet field label for an offset `field_offset` bytes into a packet.
    fn parse_packet_field(field_offset: usize, line: &[u8]) -> (r: String)
        requires
            field_offset <= 15 ==> line@.len() >= 4,
        ensures
            r@ == spec_packet_field(field_offset as int, line@),
    {
        let mut s = String::new();
        if field_offset <= 3 {
            s.append("TS: ");
            push_dec(&mut s, crate::parser::le_u32(line[0], line[1], line[2], line[3]) as u64);
        } else if field_offset <= 7 {
            s.append("TSn: ");
            push_dec(&mut s, crate::parser::le_u32(line[0], line[1], line[2], line[3]) as u64);
        } else if field_offset <= 11 {
            s.append("Len: ");
            push_dec(&mut s, crate::parser::le_u32(line[0], line[1], line[2], line[3]) as u64);
        } else if field_offset <= 15 {
            s.append("CRC: 0x");
            push_hex_padded(
                &mut s,
                crate::parser::le_u32(line[0], line[1], line[2], line[3]) as u64,
                8,
            );
        } else {
            s.append("Data[");
            push_dec(&mut s, (field_offset - 16) as u64);
            s.append("]");
            proof {
                assert(s@ =~= "Data["@ + spec_dec(field_offset - 16) + "]"@);
            }
        }
        s
    }

    /// The packet whose header or payload owns `offset`, as its index and
    /// start offset.
    fn find_packet_at_offset(offset: usize, packets: &[DataPacket]) -> (r: Option<(usize, usize)>)
        requires
            packets_wf(packets@),
        ensures
            match r {
                Some((packet_index, packet_start)) => match spec_classify(
                    offset as int,
                    packets@,
                ) {
                    Region::PacketHeader { packet_index: i, packet_start: c } => packet_index == i
                        && packet_start == c,
                    Region::PacketPayload { packet_index: i, packet_start: c, payload_start }
                        => packet_index == i && packet_start == c,
                    _ => false,
                },
                None => !(spec_classify(offset as int, packets@) is PacketHeader || spec_classify(
                    offset as int,
                    packets@,
                ) is PacketPayload),
            },
    {
        match Region::classify(offset, packets) {
            Region::PacketHeader { packet_index, packet_start } => Some(
                (packet_index, packet_start),
            ),
            Region::PacketPayload { packet_index, packet_start, payload_start } => Some(
                (packet_index, packet_start),
            ),
            _ => None,
        }
    }

    /// The whole buffer as dump lines.
    pub fn display_raw_data(&self, data: &[u8]) -> (r: Vec<String>)
        requires
            self.bytes_per_line >= 1,
            data@.len() + self.bytes_per_line <= usize::MAX,
            self.bytes_per_line * 3 + self.bytes_per_line / 8 <= usize::MAX,
        ensures
            r@.len() == spec_total_lines(data@.len() as int, self.bytes_per_line as int),
            forall|j: int|
                0 <= j < r@.len() ==> (#[trigger] r@[j])@ == spec_display_hex_line(
                    data@,
                    0,
                    j,
                    self.bytes_per_line as int,
                ),
    {
        let bpl = self.bytes_per_line;
        let len = data.len();
        let total = crate::viewer::total_lines_for(len, bpl);
        proof {
            vstd::arithmetic::div_mod::lemma_fundamental_div_mod(len + bpl - 1, bpl as int);
            vstd::arithmetic::div_mod::lemma_mod_bound(len + bpl - 1, bpl as int);
        }
        let mut lines: Vec<String> = Vec::new();
        let mut j: usize = 0;
        while j < total
            invariant
                j <= total,
                bpl == self.bytes_per_line,
                bpl >= 1,
                len == data@.len(),
                len + bpl <= usize::MAX,
                bpl * 3 + bpl / 8 <= usize::MAX,
                total == spec_total_lines(len as int, bpl as int),
                total * bpl <= len + bpl - 1,
                lines@.len() == j,
                forall|k: int|
                    0 <= k < j ==> (#[trigger] lines@[k])@ == spec_display_hex_line(
                        data@,
                        0,
                        k,
                        bpl as int,
                    ),
            decreases total - j,
        {
            proof {
                assert(j * bpl <= (total - 1) * bpl) by (nonlinear_arith)
                    requires
                        j < total,
                        bpl >= 1,
                ;
                assert((total - 1) * bpl == total * bpl - bpl) by (nonlinear_arith);
            }
            let line = self.display_hex_line(0, data, j, bpl);
            lines.push(line);
            j = j + 1;
        }
        lines
    }

    /// Summary lines of a decoded file header.
    pub fn display_file_header_info(&self, header: &PcapFileHeader) -> (r: Vec<String>)
        ensures
            r@.len() == 7,
            r@[0]@ == "=== PCAP 文件头信息 ==="@,
            r@[1]@ == "魔数: 0x"@ + spec_hex_padded(header.magic_number as int, 8),
            r@[2]@ == "主版本号: "@ + spec_dec(header.major_version as int),
            r@[3]@ == "次版本号: "@ + spec_dec(header.minor_version as int),
            r@[4]@ == "时区偏移: "@ + spec_dec(header.timezone_offset as int),
            r@[5]@ == "时间戳精度: "@ + spec_dec(header.timestamp_accuracy as int),
            r@[6]@ == Seq::<char>::empty(),
    {
        let mut lines: Vec<String> = Vec::new();
        lines.push(String::from_str("=== PCAP 文件头信息 ==="));
        let mut magic = String::from_str("魔数: 0x");
        push_hex_padded(&mut magic, header.magic_number as u64, 8);
        lines.push(magic);
        let mut major = String::from_str("主版本号: ");
        push_dec(&mut major, header.major_version as u64);
        lines.push(major);
        let mut minor = String::from_str("次版本号: ");
        push_dec(&mut minor, header.minor_version as u64);
        lines.push(minor);
        let mut tz = String::from_str("时区偏移: ");
        push_dec(&mut tz, header.timezone_offset as u64);
        lines.push(tz);
        let mut acc = String::from_str("时间戳精度: ");
        push_dec(&mut acc, header.timestamp_accuracy as u64);
        lines.push(acc);
        lines.push(String::new());
        lines
    }
}

/// The five summary lines of packet `j` stand at positions `3 + 5 * j`
/// onward of `lines`.
pub open spec fn spec_packet_summary_at(lines: Seq<String>, p: DataPacket, j: int) -> bool {
    &&& lines[3 + 5 * j]@ == "数据包 #"@ + spec_dec(j + 1)
    &&& lines[3 + 5 * j + 1]@ == "  时间戳: "@ + spec_dec(p.header.timestamp_seconds as int)
        + "."@ + spec_dec_padded(p.header.timestamp_nanoseconds as int, 9)
    &&& lines[3 + 5 * j + 2]@ == "  数据长度: "@ + spec_dec(p.header.packet_length as int)
        + " 字节"@
    &&& lines[3 + 5 * j + 3]@ == "  校验和: 0x"@ + spec_hex_padded(p.header.checksum as int, 8)
    &&& lines[3 + 5 * j + 4]@ == Seq::<char>::empty()
}

/// How many packets the summary lists in full: the first ten.
pub open spec fn spec_packets_shown(n: int) -> int {
    if n <= 10 {
        n
    } else {
        10
    }
}

impl HexDisplayer {
    /// Summary lines of the packet list: a count, the first ten packets in
    /// full, and a final line counting the rest when there are more.
    pub fn display_packet_info(&self, packets: &[DataPacket]) -> (r: Vec<String>)
        ensures
            r@.len() == 3 + 5 * spec_packets_shown(packets@.len() as int) + (
            if packets@.len() > 10 {
                1int
            } else {
                0
            }),
            r@[0]@ == "=== 数据包信息 ==="@,
            r@[1]@ == "总数据包数: "@ + spec_dec(packets@.len() as int),
            r@[2]@ == Seq::<char>::empty(),
            forall|j: int|
                0 <= j < spec_packets_shown(packets@.len() as int)
                    ==> #[trigger] spec_packet_summary_at(r@, packets@[j], j),
            packets@.len() > 10 ==> r@[r@.len() - 1]@ == "... 还有 "@ + spec_dec(
                packets@.len() - 10,
            ) + " 个数据包"@,
    {
        let n = packets.len();
        let mut lines: Vec<String> = Vec::new();
        lines.push(String::from_str("=== 数据包信息 ==="));
        let mut count_line = String::from_str("总数据包数: ");
        push_dec(&mut count_line, n as u64);
        lines.push(count_line);
        lines.push(String::new());
        let shown = if n <= 10 {
            n
        } else {
            10
        };
        let mut i: usize = 0;
        while i < shown
            invariant
                i <= shown,
                shown == spec_packets_shown(n as int),
                n == packets@.len(),
                lines@.len() == 3 + 5 * i,
                lines@[0]@ == "=== 数据包信息 ==="@,
                lines@[1]@ == "总数据包数: "@ + spec_dec(n as int),
                lines@[2]@ == Seq::<char>::empty(),
                forall|j: int| 0 <= j < i ==> #[trigger] spec_packet_summary_at(
                    lines@,
                    packets@[j],
                    j,
                ),
            decreases shown - i,
        {
            let p = packets[i];
            let ghost prev = lines@;
            let mut title = String::from_str("数据包 #");
            push_dec(&mut title, (i + 1) as u64);
            lines.push(title);
            let mut ts = String::from_str("  时间戳: ");
            push_dec(&mut ts, p.header.timestamp_seconds as u64);
            ts.append(".");
            push_dec_padded(&mut ts, p.header.timestamp_nanoseconds as u64, 9);
            proof {
                assert(ts@ =~= "  时间戳: "@ + spec_dec(p.header.timestamp_seconds as int) + "."@
                    + spec_dec_padded(p.header.timestamp_nanoseconds as int, 9));
            }
            lines.push(ts);
            let mut len_line = String::from_str("  数据长度: ");
            push_dec(&mut len_line, p.header.packet_length as u64);
            len_line.append(" 字节");
            proof {
                assert(len_line@ =~= "  数据长度: "@ + spec_dec(p.header.packet_length as int)
                    + " 字节"@);
            }
            lines.push(len_line);
            let mut crc = String::from_str("  校验和: 0x");
            push_hex_padded(&mut crc, p.header.checksum as u64, 8);
            lines.push(crc);
            lines.push(String::new());
            proof {
                assert(lines@.len() == prev.len() + 5);
                assert(forall|k: int| 0 <= k < prev.len() ==> lines@[k] == prev[k]);
                assert forall|j: int| 0 <= j < i + 1 implies #[trigger] spec_packet_summary_at(
                    lines@,
                    packets@[j],
                    j,
                ) by {
                    if j < i {
                        assert(spec_packet_summary_at(prev, packets@[j], j));
                        assert(lines@[3 + 5 * j] == prev[3 + 5 * j]);
                        assert(lines@[3 + 5 * j + 1] == prev[3 + 5 * j + 1]);
                        assert(lines@[3 + 5 * j + 2] == prev[3 + 5 * j + 2]);
                        assert(lines@[3 + 5 * j + 3] == prev[3 + 5 * j + 3]);
                        assert(lines@[3 + 5 * j + 4] == prev[3 + 5 * j + 4]);
                    } else {
                        assert(lines@[3 + 5 * j]@ == "数据包 #"@ + spec_dec(j + 1));
                    }
                }
            }
            i = i + 1;
        }
        if n > 10 {
            let mut tail = String::from_str("... 还有 ");
            push_dec(&mut tail, (n - 10) as u64);
            tail.append(" 个数据包");
            proof {
                assert(tail@ =~= "... 还有 "@ + spec_dec(n - 10) + " 个数据包"@);
            }
            let ghost before_tail = lines@;
            lines.push(tail);
            proof {
                assert(forall|k: int| 0 <= k < before_tail.len() ==> lines@[k] == before_tail[k]);
                assert forall|j: int|
                    0 <= j < spec_packets_shown(n as int) implies #[trigger] spec_packet_summary_at(
                    lines@,
                    packets@[j],
                    j,
                ) by {
                    assert(spec_packet_summary_at(before_tail, packets@[j], j));
                }
            }
        }
        lines
    }
}

} // verus!
