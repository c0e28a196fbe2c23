//! Line renderer: for one display line of the hex dump, the per-byte hex
//! cells tagged with the region that owns each byte, and the annotation
//! column, populated only on the line that contains a region's first byte.
//!
//! Color is a presentation concern: the renderer hands out text pieces with
//! a style tag (`Plain`, `Valid`, `Invalid`) and region tags per byte; the
//! caller decides what a tag looks like on its terminal.

use vstd::prelude::*;
use vstd::string::StringExecFns;

use crate::classify::{spec_classify, Region};
use crate::parser::{
    packets_wf, spec_file_header, DataPacket, DataPacketHeader, PcapFileHeader, PcapParser,
    EXPECTED_MAGIC, EXPECTED_MAJOR, EXPECTED_MINOR,
};
use crate::textfmt::{
    push_ascii_display, push_dec, push_hex_padded, spec_ascii_display, spec_dec, spec_hex_padded,
};
use crate::timestamp::{format_packet_time, spec_packet_time_text, spec_timestamp_representable};

verus! {

/// How a piece of annotation text should be presented.
#[derive(Debug, Clone, Copy, PartialEq, Eq, Structural)]
pub enum SpanStyle {
    /// Ordinary text.
    Plain,
    /// A decoded value that passed its validity check.
    Valid,
    /// A decoded value that failed its validity check.
    Invalid,
}

/// One piece of annotation text with its presentation tag.
#[derive(Debug, Clone, PartialEq, Eq)]
pub struct Span {
    pub text: String,
    pub style: SpanStyle,
}

/// One cell of the hex column: the byte's two hexadecimal digits and the
/// region that owns the byte.
#[derive(Debug, Clone, Copy, PartialEq, Eq, Structural)]
pub struct HexCell {
    pub hi: char,
    pub lo: char,
    pub region: Region,
}

/// The spans carry exactly the given texts and styles, in order.
pub open spec fn spans_match(spans: Seq<Span>, expect: Seq<(Seq<char>, SpanStyle)>) -> bool {
    &&& spans.len() == expect.len()
    &&& forall|i: int|
        0 <= i < spans.len() ==> (#[trigger] spans[i]).text@ == expect[i].0 && spans[i].style
            == expect[i].1
}

/// The magic number is the expected constant.
pub open spec fn spec_magic_valid(h: PcapFileHeader) -> bool {
    h.magic_number == EXPECTED_MAGIC
}

/// The version is exactly 2.4.
pub open spec fn spec_version_valid(h: PcapFileHeader) -> bool {
    h.major_version == EXPECTED_MAJOR && h.minor_version == EXPECTED_MINOR
}

/// Validity tag of a decoded value.
pub open spec fn spec_validity_style(valid: bool) -> SpanStyle {
    if valid {
        SpanStyle::Valid
    } else {
        SpanStyle::Invalid
    }
}

/// Annotation of the file header's opening line:
/// ` MAGIC: 0x…  VER: maj.min TZ: tz TS_ACC: acc`, with the magic number
/// and the version individually tagged by their validity.
pub open spec fn spec_file_header_spans(h: PcapFileHeader) -> Seq<(Seq<char>, SpanStyle)> {
    seq![
        (" MAGIC: "@, SpanStyle::Plain),
        ("0x"@ + spec_hex_padded(h.magic_number as int, 8), spec_validity_style(spec_magic_valid(h))),
        (" VER: "@, SpanStyle::Plain),
        (
            spec_dec(h.major_version as int) + "."@ + spec_dec(h.minor_version as int),
            spec_validity_style(spec_version_valid(h)),
        ),
        (
            " TZ: "@ + spec_dec(h.timezone_offset as int) + " TS_ACC: "@ + spec_dec(
                h.timestamp_accuracy as int,
            ),
            SpanStyle::Plain,
        ),
    ]
}

/// Annotation of a packet's opening line:
/// ` TIME: … LEN: … CRC: 0x…`, with the timestamp tagged by whether the
/// calendar could represent it.
pub open spec fn spec_packet_info_spans(h: DataPacketHeader) -> Seq<(Seq<char>, SpanStyle)> {
    seq![
        (" TIME: "@, SpanStyle::Plain),
        (
            spec_packet_time_text(h.timestamp_seconds, h.timestamp_nanoseconds),
            spec_validity_style(
                spec_timestamp_representable(h.timestamp_seconds, h.timestamp_nanoseconds),
            ),
        ),
        (" LEN: "@, SpanStyle::Plain),
        (spec_dec(h.packet_length as int), SpanStyle::Valid),
        (" CRC: 0x"@ + spec_hex_padded(h.checksum as int, 8), SpanStyle::Plain),
    ]
}

/// Index of the first packet whose header starts inside `[off, end)`,
/// scanning from packet `i` on.
pub open spec fn spec_packet_starting_in(s: Seq<DataPacket>, i: int, off: int, end: int) -> Option<
    int,
>
    decreases s.len() - i,
{
    if i < 0 || i >= s.len() {
        None
    } else if off <= s[i].start_offset < end {
        Some(i)
    } else {
        spec_packet_starting_in(s, i + 1, off, end)
    }
}

/// First packet whose header starts inside the line `[line_offset,
/// line_offset + line_len)`; its opening annotation belongs to that line.
pub fn find_packet_header_in_line(line_offset: usize, line_len: usize, packets: &[DataPacket]) -> (
    r: Option<usize>)
    requires
        line_offset + line_len <= usize::MAX,
    ensures
        match r {
            Some(i) => {
                &&& Some(i as int) == spec_packet_starting_in(
                    packets@,
                    0,
                    line_offset as int,
                    line_offset + line_len,
                )
                &&& i < packets@.len()
                &&& line_offset <= packets@[i as int].start_offset < line_offset + line_len
            },
            None => spec_packet_starting_in(
                packets@,
                0,
                line_offset as int,
                line_offset + line_len,
            ) is None,
        },
{
    let end = line_offset + line_len;
    let n = packets.len();
    let mut i: usize = 0;
    while i < n
        invariant
            i <= n,
            n == packets@.len(),
            end == line_offset + line_len,
            spec_packet_starting_in(packets@, 0, line_offset as int, end as int)
                == spec_packet_starting_in(packets@, i as int, line_offset as int, end as int),
        decreases n - i,
    {
        let start = packets[i].start_offset;
        if line_offset <= start && start < end {
            return Some(i);
        }
        i = i + 1;
    }
    None
}

/// Build the header-annotation spans for a decoded file header.
pub fn file_header_spans(h: &PcapFileHeader) -> (r: Vec<Span>)
    ensures
        spans_match(r@, spec_file_header_spans(*h)),
{
    let mut spans: Vec<Span> = Vec::new();
    spans.push(Span { text: String::from_str(" MAGIC: "), style: SpanStyle::Plain });
    let mut magic = String::from_str("0x");
    push_hex_padded(&mut magic, h.magic_number as u64, 8);
    let magic_style = if h.magic_number == EXPECTED_MAGIC {
        SpanStyle::Valid
    } else {
        SpanStyle::Invalid
    };
    spans.push(Span { text: magic, style: magic_style });
    spans.push(Span { text: String::from_str(" VER: "), style: SpanStyle::Plain });
    let mut version = String::new();
    push_dec(&mut version, h.major_version as u64);
    version.append(".");
    push_dec(&mut version, h.minor_version as u64);
    let version_style = if h.major_version == EXPECTED_MAJOR && h.minor_version == EXPECTED_MINOR {
        SpanStyle::Valid
    } else {
        SpanStyle::Invalid
    };
    proof {
        assert(version@ =~= spec_dec(h.major_version as int) + "."@ + spec_dec(
            h.minor_version as int,
        ));
    }
    spans.push(Span { text: version, style: version_style });
    let mut tail = String::from_str(" TZ: ");
    push_dec(&mut tail, h.timezone_offset as u64);
    tail.append(" TS_ACC: ");
    push_dec(&mut tail, h.timestamp_accuracy as u64);
    proof {
        assert(tail@ =~= " TZ: "@ + spec_dec(h.timezone_offset as int) + " TS_ACC: "@ + spec_dec(
            h.timestamp_accuracy as int,
        ));
    }
    spans.push(Span { text: tail, style: SpanStyle::Plain });
    spans
}

/// Build the packet-annotation spans for a decoded packet header.
pub fn packet_info_spans(h: &DataPacketHeader) -> (r: Vec<Span>)
    ensures
        spans_match(r@, spec_packet_info_spans(*h)),
{
    let mut spans: Vec<Span> = Vec::new();
    spans.push(Span { text: String::from_str(" TIME: "), style: SpanStyle::Plain });
    let (time_text, time_valid) = format_packet_time(
        h.timestamp_seconds,
        h.timestamp_nanoseconds,
    );
    let time_style = if time_valid {
        SpanStyle::Valid
    } else {
        SpanStyle::Invalid
    };
    spans.push(Span { text: time_text, style: time_style });
    spans.push(Span { text: String::from_str(" LEN: "), style: SpanStyle::Plain });
    let mut len_text = String::new();
    push_dec(&mut len_text, h.packet_length as u64);
    proof {
        assert(len_text@ =~= spec_dec(h.packet_length as int));
    }
    spans.push(Span { text: len_text, style: SpanStyle::Valid });
    let mut crc = String::from_str(" CRC: 0x");
    push_hex_padded(&mut crc, h.checksum as u64, 8);
    spans.push(Span { text: crc, style: SpanStyle::Plain });
    spans
}

/// The plain summary text of a decoded file header:
/// ` MAGIC: 0x… VER: maj.min TZ: tz TS_ACC: acc`.
pub open spec fn spec_file_header_info(h: PcapFileHeader) -> Seq<char> {
    " MAGIC: 0x"@ + spec_hex_padded(h.magic_number as int, 8) + " VER: "@ + spec_dec(
        h.major_version as int,
    ) + "."@ + spec_dec(h.minor_version as int) + " TZ: "@ + spec_dec(h.timezone_offset as int)
        + " TS_ACC: "@ + spec_dec(h.timestamp_accuracy as int)
}

/// Decode the file header fields from the front of `data` and render the
/// plain summary line; nothing when fewer than 16 bytes are available.
pub fn format_file_header_info(data: &[u8]) -> (r: Option<String>)
    ensures
        r is Some <==> data@.len() >= 16,
        r matches Some(s) ==> s@ == spec_file_header_info(spec_file_header(data@)),
{
    let h = match PcapParser::parse_file_header(data) {
        Ok(h) => h,
        Err(_) => {
            return None;
        },
    };
    let mut s = String::from_str(" MAGIC: 0x");
    push_hex_padded(&mut s, h.magic_number as u64, 8);
    s.append(" VER: ");
    push_dec(&mut s, h.major_version as u64);
    s.append(".");
    push_dec(&mut s, h.minor_version as u64);
    s.append(" TZ: ");
    push_dec(&mut s, h.timezone_offset as u64);
    s.append(" TS_ACC: ");
    push_dec(&mut s, h.timestamp_accuracy as u64);
    proof {
        assert(s@ =~= spec_file_header_info(spec_file_header(data@)));
    }
    Some(s)
}

/// Annotation spans owed to the line of `line` bytes starting at absolute
/// offset `off`: the decoded header summary on the file header's opening
/// line (or the raw sidebar text when the line cannot hold the whole
/// header), a packet summary on a packet's opening line, and nothing
/// anywhere else.
pub open spec fn spec_parsed_info_spans(
    line: Seq<u8>,
    off: int,
    header: Option<PcapFileHeader>,
    s: Seq<DataPacket>,
) -> Seq<(Seq<char>, SpanStyle)> {
    if off < 16 {
        if line.len() < 16 {
            seq![(spec_ascii_display(line), SpanStyle::Plain)]
        } else if off == 0 {
            spec_file_header_spans(
                match header {
                    Some(h) => h,
                    None => spec_file_header(line),
                },
            )
        } else {
            Seq::empty()
        }
    } else {
        match spec_packet_starting_in(s, 0, off, off + line.len()) {
            Some(i) => spec_packet_info_spans(s[i].header),
            None => Seq::empty(),
        }
    }
}

/// Annotation column for one line: region-opening lines get their decoded
/// summary, every other line gets nothing.
pub fn format_parsed_info(line: &[u8], line_offset: usize, parser: &PcapParser) -> (r: Vec<Span>)
    requires
        line_offset + line@.len() <= usize::MAX,
    ensures
        spans_match(
            r@,
            spec_parsed_info_spans(line@, line_offset as int, parser.file_header, parser.packets@),
        ),
{
    if line_offset < 16 {
        if line.len() < 16 {
            let mut text = String::new();
            push_ascii_display(&mut text, line);
            proof {
                assert(text@ =~= spec_ascii_display(line@));
            }
            let mut spans: Vec<Span> = Vec::new();
            spans.push(Span { text, style: SpanStyle::Plain });
            spans
        } else if line_offset == 0 {
            let h = match parser.file_header() {
                Some(h) => *h,
                None => match PcapParser::parse_file_header(line) {
                    Ok(h) => h,
                    Err(_) => {
                        // unreachable: the line holds at least 16 bytes
                        proof {
                            assert(false);
                        }
                        PcapFileHeader {
                            magic_number: 0,
                            major_version: 0,
                            minor_version: 0,
                            timezone_offset: 0,
                            timestamp_accuracy: 0,
                        }
                    },
                },
            };
            file_header_spans(&h)
        } else {
            Vec::new()
        }
    } else {
        match find_packet_header_in_line(line_offset, line.len(), parser.packets.as_slice()) {
            Some(i) => packet_info_spans(&parser.packets[i].header),
            None => Vec::new(),
        }
    }
}

/// The cells carry, for each byte of `line`, its two hexadecimal digits
/// and the region owning its absolute offset.
pub open spec fn spec_cells_ok(
    cells: Seq<HexCell>,
    line: Seq<u8>,
    line_offset: int,
    s: Seq<DataPacket>,
) -> bool {
    &&& cells.len() == line.len()
    &&& forall|i: int|
        0 <= i < cells.len() ==> {
            &&& (#[trigger] cells[i]).hi == crate::textfmt::spec_hex_digit(line[i] as int / 16)
            &&& cells[i].lo == crate::textfmt::spec_hex_digit(line[i] as int % 16)
            &&& cells[i].region == spec_classify(line_offset + i, s)
        }
}

/// Hex cells for one line: each byte's two digits, tagged with the region
/// owning the byte's absolute offset.
pub fn hex_cells(line: &[u8], line_offset: usize, packets: &[DataPacket]) -> (r: Vec<HexCell>)
    requires
        packets_wf(packets@),
        line_offset + line@.len() <= usize::MAX,
    ensures
        spec_cells_ok(r@, line@, line_offset as int, packets@),
{
    let n = line.len();
    let mut cells: Vec<HexCell> = Vec::new();
    let mut i: usize = 0;
    while i < n
        invariant
            i <= n,
            n == line@.len(),
            packets_wf(packets@),
            line_offset + n <= usize::MAX,
            cells@.len() == i,
            forall|j: int|
                0 <= j < i ==> {
                    &&& (#[trigger] cells@[j]).hi == crate::textfmt::spec_hex_digit(
                        line@[j] as int / 16,
                    )
                    &&& cells@[j].lo == crate::textfmt::spec_hex_digit(line@[j] as int % 16)
                    &&& cells@[j].region == spec_classify(line_offset + j, packets@)
                },
        decreases n - i,
    {
        let b = line[i];
        let (hi, lo) = crate::textfmt::hex_byte(b);
        let region = Region::classify(line_offset + i, packets);
        cells.push(HexCell { hi, lo, region });
        i = i + 1;
    }
    cells
}

} // verus!
