//! Capture parser: decodes the 16-byte file header and greedily decodes the
//! record sequence, stopping cleanly on truncated trailing data.
//!
//! All integers in the format are little-endian and sit at fixed offsets. A
//! header whose magic number or version is wrong is still returned: content
//! validity is a display-time annotation, not a parse failure. The error
//! path is reserved for buffers too short to hold the file header at all.

use vstd::prelude::*;

use crate::error::PcapViewerError;

verus! {

/// Magic number a valid capture file starts with.
pub const EXPECTED_MAGIC: u32 = 0xD4C3B2A1;

/// Major version of the supported format.
pub const EXPECTED_MAJOR: u16 = 2;

/// Minor version of the supported format.
pub const EXPECTED_MINOR: u16 = 4;

/// File header occupying offsets `[0, 16)`.
#[derive(Debug, Clone, Copy, PartialEq, Eq, Structural)]
pub struct PcapFileHeader {
    pub magic_number: u32,
    pub major_version: u16,
    pub minor_version: u16,
    pub timezone_offset: u32,
    pub timestamp_accuracy: u32,
}

/// Packet header: 16 bytes in front of each payload.
#[derive(Debug, Clone, Copy, PartialEq, Eq, Structural)]
pub struct DataPacketHeader {
    pub timestamp_seconds: u32,
    pub timestamp_nanoseconds: u32,
    pub packet_length: u32,
    pub checksum: u32,
}

/// One decoded packet. `start_offset` is the absolute file offset of the
/// packet's header; the payload occupies
/// `[start_offset + 16, start_offset + 16 + packet_length)` in the original
/// buffer and is never copied.
#[derive(Debug, Clone, Copy, PartialEq, Eq, Structural)]
pub struct DataPacket {
    pub header: DataPacketHeader,
    pub start_offset: usize,
}

/// Little-endian reading of two bytes.
pub open spec fn spec_le_u16(b0: u8, b1: u8) -> u16 {
    (b0 + b1 * 0x100) as u16
}

/// Little-endian reading of four bytes.
pub open spec fn spec_le_u32(b0: u8, b1: u8, b2: u8, b3: u8) -> u32 {
    (b0 + b1 * 0x100 + b2 * 0x10000 + b3 * 0x1000000) as u32
}

/// The file header decoded from the first 16 bytes of `b`.
pub open spec fn spec_file_header(b: Seq<u8>) -> PcapFileHeader
    recommends
        b.len() >= 16,
{
    PcapFileHeader {
        magic_number: spec_le_u32(b[0], b[1], b[2], b[3]),
        major_version: spec_le_u16(b[4], b[5]),
        minor_version: spec_le_u16(b[6], b[7]),
        timezone_offset: spec_le_u32(b[8], b[9], b[10], b[11]),
        timestamp_accuracy: spec_le_u32(b[12], b[13], b[14], b[15]),
    }
}

/// The packet header decoded from the 16 bytes of `b` starting at `off`.
pub open spec fn spec_packet_header(b: Seq<u8>, off: int) -> DataPacketHeader
    recommends
        0 <= off,
        off + 16 <= b.len(),
{
    DataPacketHeader {
        timestamp_seconds: spec_le_u32(b[off], b[off + 1], b[off + 2], b[off + 3]),
        timestamp_nanoseconds: spec_le_u32(b[off + 4], b[off + 5], b[off + 6], b[off + 7]),
        packet_length: spec_le_u32(b[off + 8], b[off + 9], b[off + 10], b[off + 11]),
        checksum: spec_le_u32(b[off + 12], b[off + 13], b[off + 14], b[off + 15]),
    }
}

/// Absolute offset one past a packet's payload.
pub open spec fn spec_packet_end(p: DataPacket) -> int {
    p.start_offset + 16 + p.header.packet_length
}

/// The greedy walk over `b` starting at `off`: decode a 16-byte packet
/// header, and keep the packet only when its whole payload is present;
/// otherwise stop. This is the manual record walk the parser must reproduce.
pub open spec fn spec_parsed_packets(b: Seq<u8>, off: int) -> Seq<DataPacket>
    decreases b.len() - off,
{
    if off < 0 || off + 16 > b.len() {
        Seq::empty()
    } else {
        let header = spec_packet_header(b, off);
        if off + 16 + header.packet_length > b.len() {
            Seq::empty()
        } else {
            seq![DataPacket { header, start_offset: off as usize }] + spec_parsed_packets(
                b,
                off + 16 + header.packet_length,
            )
        }
    }
}

/// The packets abut: the first starts at `start`, and each next one starts
/// where the previous one's payload ends.
pub open spec fn packets_contiguous_from(s: Seq<DataPacket>, start: int) -> bool {
    &&& s.len() > 0 ==> s[0].start_offset == start
    &&& forall|i: int| 1 <= i < s.len() ==> (#[trigger] s[i]).start_offset == spec_packet_end(s[i - 1])
}

/// Shape of every decoded packet list: the packets abut starting right
/// after the file header, and each packet's byte range fits the machine.
/// The offset classifier and the renderer rely on this.
pub open spec fn packets_wf(s: Seq<DataPacket>) -> bool {
    &&& packets_contiguous_from(s, 16)
    &&& forall|i: int| 0 <= i < s.len() ==> spec_packet_end(#[trigger] s[i]) <= usize::MAX
}

/// Every packet a greedy walk of `b` from `off` returns lies inside `b`,
/// abuts its neighbours starting at `off`, and carries exactly the header
/// bytes found at its own start offset.
pub proof fn lemma_parsed_packets_wf(b: Seq<u8>, off: int)
    requires
        0 <= off,
        b.len() <= usize::MAX,
    ensures
        packets_contiguous_from(spec_parsed_packets(b, off), off),
        forall|i: int|
            0 <= i < spec_parsed_packets(b, off).len() ==> spec_packet_end(
                #[trigger] spec_parsed_packets(b, off)[i],
            ) <= b.len(),
        forall|i: int|
            0 <= i < spec_parsed_packets(b, off).len() ==> (#[trigger] spec_parsed_packets(
                b,
                off,
            )[i]).header == spec_packet_header(b, spec_parsed_packets(b, off)[i].start_offset as int),
        forall|i: int|
            0 <= i < spec_parsed_packets(b, off).len() ==> off <= (#[trigger] spec_parsed_packets(
                b,
                off,
            )[i]).start_offset,
    decreases b.len() - off,
{
    let s = spec_parsed_packets(b, off);
    if off + 16 <= b.len() {
        let header = spec_packet_header(b, off);
        let next = off + 16 + header.packet_length;
        if next <= b.len() {
            lemma_parsed_packets_wf(b, next);
            let first = DataPacket { header, start_offset: off as usize };
            let rest = spec_parsed_packets(b, next);
            assert(s =~= seq![first] + rest);
            assert(s[0] == first);
            assert(forall|i: int| 1 <= i < s.len() ==> #[trigger] s[i] == rest[i - 1]);
            assert(spec_packet_end(first) == next);
            assert forall|i: int| 1 <= i < s.len() implies (#[trigger] s[i]).start_offset
                == spec_packet_end(s[i - 1]) by {
                if i == 1 {
                    assert(s[1] == rest[0]);
                    assert(rest.len() > 0 ==> rest[0].start_offset == next);
                } else {
                    assert(s[i] == rest[i - 1]);
                    assert(s[i - 1] == rest[i - 2]);
                    assert(rest[i - 1].start_offset == spec_packet_end(rest[i - 2]));
                }
            }
            assert forall|i: int| 0 <= i < s.len() implies (#[trigger] s[i]).header
                == spec_packet_header(b, s[i].start_offset as int) by {
                if i >= 1 {
                    assert(s[i] == rest[i - 1]);
                }
            }
            assert forall|i: int| 0 <= i < s.len() implies spec_packet_end(#[trigger] s[i])
                <= b.len() by {
                if i >= 1 {
                    assert(s[i] == rest[i - 1]);
                }
            }
            assert forall|i: int| 0 <= i < s.len() implies off <= (#[trigger] s[i]).start_offset by {
                if i >= 1 {
                    assert(s[i] == rest[i - 1]);
                    assert(next <= rest[i - 1].start_offset);
                }
            }
        }
    }
}

/// Parsed capture: the decoded file header and the ordered packet list.
pub struct PcapParser {
    pub file_header: Option<PcapFileHeader>,
    pub packets: Vec<DataPacket>,
}

impl PcapParser {
    /// Parse a whole capture buffer. Fails exactly when fewer than 16 bytes
    /// are available for the file header; a wrong magic number or version is
    /// not a failure. Packet decoding starts at offset 16 and stops cleanly
    /// at truncated trailing data.
    pub fn new(data: &[u8]) -> (r: Result<Self, PcapViewerError>)
        ensures
            r is Ok <==> data@.len() >= 16,
            r matches Err(e) ==> e == PcapViewerError::TruncatedHeader,
            r matches Ok(p) ==> {
                &&& p.file_header == Some(spec_file_header(data@))
                &&& p.packets@ == spec_parsed_packets(data@, 16)
                &&& packets_wf(p.packets@)
            },
    {
        let file_header = match Self::parse_file_header(data) {
            Ok(h) => h,
            Err(e) => {
                return Err(e);
            },
        };
        let packets = Self::parse_packets(data);
        Ok(PcapParser { file_header: Some(file_header), packets })
    }

    /// Decode the 16-byte file header from the front of `data`.
    pub fn parse_file_header(data: &[u8]) -> (r: Result<PcapFileHeader, PcapViewerError>)
        ensures
            r is Ok <==> data@.len() >= 16,
            r matches Err(e) ==> e == PcapViewerError::TruncatedHeader,
            r matches Ok(h) ==> h == spec_file_header(data@),
    {
        if data.len() < 16 {
            return Err(PcapViewerError::TruncatedHeader);
        }
        Ok(
            PcapFileHeader {
                magic_number: le_u32(data[0], data[1], data[2], data[3]),
                major_version: le_u16(data[4], data[5]),
                minor_version: le_u16(data[6], data[7]),
                timezone_offset: le_u32(data[8], data[9], data[10], data[11]),
                timestamp_accuracy: le_u32(data[12], data[13], data[14], data[15]),
            },
        )
    }

    /// Decode one 16-byte packet header at `offset`.
    pub fn parse_packet_header(data: &[u8], offset: usize) -> (r: DataPacketHeader)
        requires
            offset + 16 <= data@.len(),
        ensures
            r == spec_packet_header(data@, offset as int),
    {
        DataPacketHeader {
            timestamp_seconds: le_u32(
                data[offset],
                data[offset + 1],
                data[offset + 2],
                data[offset + 3],
            ),
            timestamp_nanoseconds: le_u32(
                data[offset + 4],
                data[offset + 5],
                data[offset + 6],
                data[offset + 7],
            ),
            packet_length: le_u32(
                data[offset + 8],
                data[offset + 9],
                data[offset + 10],
                data[offset + 11],
            ),
            checksum: le_u32(
                data[offset + 12],
                data[offset + 13],
                data[offset + 14],
                data[offset + 15],
            ),
        }
    }

    /// Greedily decode the packet sequence that starts at offset 16.
    pub fn parse_packets(data: &[u8]) -> (r: Vec<DataPacket>)
        ensures
            r@ == spec_parsed_packets(data@, 16),
            packets_wf(r@),
    {
        let data_len = data.len();
        proof {
            assert(data@.len() == data_len);
            lemma_parsed_packets_wf(data@, 16);
        }
        let mut packets: Vec<DataPacket> = Vec::new();
        if data.len() < 16 {
            assert(spec_parsed_packets(data@, 16) =~= Seq::<DataPacket>::empty());
            return packets;
        }
        let mut offset: usize = 16;
        loop
            invariant
                16 <= offset <= data@.len(),
                packets@ + spec_parsed_packets(data@, offset as int) == spec_parsed_packets(
                    data@,
                    16,
                ),
            ensures
                packets@ == spec_parsed_packets(data@, 16),
            decreases data@.len() - offset,
        {
            if data.len() - offset < 16 {
                assert(spec_parsed_packets(data@, offset as int) =~= Seq::<DataPacket>::empty());
                assert(packets@ =~= packets@ + Seq::<DataPacket>::empty());
                break ;
            }
            let header = Self::parse_packet_header(data, offset);
            let payload_len = header.packet_length as usize;
            if payload_len > data.len() - (offset + 16) {
                assert(spec_parsed_packets(data@, offset as int) =~= Seq::<DataPacket>::empty());
                assert(packets@ =~= packets@ + Seq::<DataPacket>::empty());
                break ;
            }
            let packet = DataPacket { header, start_offset: offset };
            proof {
                let off = offset as int;
                let next = off + 16 + header.packet_length;
                assert(spec_parsed_packets(data@, off) =~= seq![packet] + spec_parsed_packets(
                    data@,
                    next,
                ));
                assert(packets@.push(packet) + spec_parsed_packets(data@, next) =~= packets@ + (
                seq![packet] + spec_parsed_packets(data@, next)));
            }
            packets.push(packet);
            offset = offset + 16 + payload_len;
        }
        packets
    }

    /// The decoded file header, if parsing got that far.
    pub fn file_header(&self) -> (r: Option<&PcapFileHeader>)
        ensures
            match r {
                Some(h) => self.file_header == Some(*h),
                None => self.file_header is None,
            },
    {
        self.file_header.as_ref()
    }

    /// The decoded packets, in file order.
    pub fn packets(&self) -> (r: &[DataPacket])
        ensures
            r@ == self.packets@,
    {
        self.packets.as_slice()
    }
}

/// Read a `u16` from two little-endian bytes.
pub fn le_u16(b0: u8, b1: u8) -> (r: u16)
    ensures
        r == spec_le_u16(b0, b1),
{
    b0 as u16 + b1 as u16 * 0x100
}

/// Read a `u32` from four little-endian bytes.
pub fn le_u32(b0: u8, b1: u8, b2: u8, b3: u8) -> (r: u32)
    ensures
        r == spec_le_u32(b0, b1, b2, b3),
{
    b0 as u32 + b1 as u32 * 0x100 + b2 as u32 * 0x10000 + b3 as u32 * 0x1000000
}

} // verus!
