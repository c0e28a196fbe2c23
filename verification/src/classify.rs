//! Offset classifier: given the decoded packet list and an absolute byte
//! offset, name the structural region that owns that byte.
//!
//! The walk keeps a running cursor that starts right after the 16-byte file
//! header; each packet contributes a 16-byte header region followed by its
//! payload region, and the cursor advances past both. Offsets beyond the
//! last decoded packet are unclassified (truncated trailing data).

use vstd::prelude::*;

use crate::parser::{packets_wf, spec_packet_end, DataPacket};

verus! {

/// The structural region owning one byte offset.
#[derive(Debug, Clone, Copy, PartialEq, Eq, Structural)]
pub enum Region {
    /// Offsets `[0, 16)`: the file header.
    FileHeader,
    /// Inside the 16-byte header of the packet at `packet_index`.
    PacketHeader { packet_index: usize, packet_start: usize },
    /// Inside the payload of the packet at `packet_index`; the payload
    /// begins at `payload_start == packet_start + 16`.
    PacketPayload { packet_index: usize, packet_start: usize, payload_start: usize },
    /// Beyond the last decoded packet: raw trailing bytes.
    Unclassified,
}

/// The classifying walk from packet `i` on, with the running cursor at the
/// start of packet `i`.
pub open spec fn spec_region_from(off: int, s: Seq<DataPacket>, i: int, cursor: int) -> Region
    decreases s.len() - i,
{
    if i < 0 || i >= s.len() {
        Region::Unclassified
    } else {
        let payload_end = cursor + 16 + s[i].header.packet_length;
        if cursor <= off < cursor + 16 {
            Region::PacketHeader { packet_index: i as usize, packet_start: cursor as usize }
        } else if cursor + 16 <= off < payload_end {
            Region::PacketPayload {
                packet_index: i as usize,
                packet_start: cursor as usize,
                payload_start: (cursor + 16) as usize,
            }
        } else {
            spec_region_from(off, s, i + 1, payload_end)
        }
    }
}

/// Region owning `off` in a file whose decoded packet list is `s`.
pub open spec fn spec_classify(off: int, s: Seq<DataPacket>) -> Region {
    if off < 16 {
        Region::FileHeader
    } else {
        spec_region_from(off, s, 0, 16)
    }
}

/// Offset one past the last byte the decoded packets cover (16 when no
/// packet was decoded).
pub open spec fn spec_coverage_end(s: Seq<DataPacket>) -> int {
    if s.len() == 0 {
        16
    } else {
        spec_packet_end(s[s.len() - 1])
    }
}

impl Region {
    /// Region of `offset`, walking the packets in order. Cost is linear in
    /// the number of packets scanned.
    pub fn classify(offset: usize, packets: &[DataPacket]) -> (r: Region)
        requires
            packets_wf(packets@),
        ensures
            r == spec_classify(offset as int, packets@),
    {
        if offset < 16 {
            return Region::FileHeader;
        }
        let n = packets.len();
        let mut i: usize = 0;
        let mut cursor: usize = 16;
        while i < n
            invariant
                packets_wf(packets@),
                n == packets@.len(),
                0 <= i <= n,
                offset >= 16,
                i < n ==> cursor == packets@[i as int].start_offset,
                spec_classify(offset as int, packets@) == spec_region_from(
                    offset as int,
                    packets@,
                    i as int,
                    cursor as int,
                ),
            decreases n - i,
        {
            let payload_len = packets[i].header.packet_length as usize;
            let header_end = cursor + 16;
            if cursor <= offset && offset < header_end {
                return Region::PacketHeader { packet_index: i, packet_start: cursor };
            }
            let payload_end = header_end + payload_len;
            if header_end <= offset && offset < payload_end {
                return Region::PacketPayload {
                    packet_index: i,
                    packet_start: cursor,
                    payload_start: header_end,
                };
            }
            i = i + 1;
            cursor = payload_end;
        }
        Region::Unclassified
    }
}

/// The classifying walk is exact: whichever region it returns really does
/// contain the offset, inside the packet it names.
proof fn lemma_region_from_exact(off: int, s: Seq<DataPacket>, i: int, cursor: int)
    requires
        packets_wf(s),
        s.len() <= usize::MAX,
        0 <= i <= s.len(),
        i < s.len() ==> cursor == s[i].start_offset,
        i == s.len() ==> cursor == spec_coverage_end(s),
        16 <= cursor <= off,
    ensures
        match spec_region_from(off, s, i, cursor) {
            Region::FileHeader => false,
            Region::PacketHeader { packet_index, packet_start } => {
                &&& i <= packet_index < s.len()
                &&& packet_start == s[packet_index as int].start_offset
                &&& packet_start <= off < packet_start + 16
            },
            Region::PacketPayload { packet_index, packet_start, payload_start } => {
                &&& i <= packet_index < s.len()
                &&& packet_start == s[packet_index as int].start_offset
                &&& payload_start == packet_start + 16
                &&& payload_start <= off < spec_packet_end(s[packet_index as int])
            },
            Region::Unclassified => off >= spec_coverage_end(s),
        },
    decreases s.len() - i,
{
    if i < s.len() {
        let payload_end = cursor + 16 + s[i].header.packet_length;
        assert(payload_end == spec_packet_end(s[i]));
        if off >= payload_end {
            if i + 1 < s.len() {
                assert(s[i + 1].start_offset == spec_packet_end(s[i]));
            }
            lemma_region_from_exact(off, s, i + 1, payload_end);
        }
    }
}

/// `classify` partitions `[0, coverage_end)` with no gaps and no overlaps:
/// offsets below 16 belong to the file header; every other offset below the
/// coverage end lands inside exactly the packet header or packet payload
/// range that contains it; offsets past the coverage end are unclassified.
pub proof fn lemma_classify_partition(off: int, s: Seq<DataPacket>)
    requires
        packets_wf(s),
        s.len() <= usize::MAX,
        0 <= off,
    ensures
        off < 16 <==> spec_classify(off, s) == Region::FileHeader,
        16 <= off < spec_coverage_end(s) ==> spec_classify(off, s) != Region::Unclassified,
        spec_classify(off, s) == Region::Unclassified ==> off >= spec_coverage_end(s),
        match spec_classify(off, s) {
            Region::FileHeader => off < 16,
            Region::PacketHeader { packet_index, packet_start } => {
                &&& packet_index < s.len()
                &&& packet_start == s[packet_index as int].start_offset
                &&& packet_start <= off < packet_start + 16
            },
            Region::PacketPayload { packet_index, packet_start, payload_start } => {
                &&& packet_index < s.len()
                &&& packet_start == s[packet_index as int].start_offset
                &&& payload_start == packet_start + 16
                &&& payload_start <= off < spec_packet_end(s[packet_index as int])
            },
            Region::Unclassified => off >= spec_coverage_end(s),
        },
{
    if off >= 16 {
        if s.len() > 0 {
            assert(s[0].start_offset == 16);
        }
        lemma_region_from_exact(off, s, 0, 16);
    }
}

} // verus!
