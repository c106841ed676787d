//! Inbound decoder: preamble search, packet segmentation, residue carry, and
//! the command value carried between the host, the coordinator and the
//! serial worker.
//!
//! `decode` turns one raw read plus the residue of the previous read into a
//! sequence of validated feedback records and a new residue.

use vstd::prelude::*;

use crate::feedback::Feedback;
use crate::feedback::format_feedback;
use crate::feedback::spec_parse;
use crate::frame::check_crc;
use crate::frame::valid_frame;

verus! {

/// The outbound command kinds, plus `SerialControl` for port lifecycle
/// requests that never reach the wire.
#[derive(Clone, Copy, Debug, PartialEq, Eq, Structural)]
pub enum CommandId {
    SerialControl,
    BaseControl,
    Sound,
    SoundSequence,
    RequestExtra,
    GeneralPurposeOutput,
    SetControllerGain,
    GetControllerGain,
}

/// A host request: either a serial-control message (`subcommand` plus an
/// optional port name) or a fully serialized command frame in `payload`.
#[derive(Clone, Debug)]
pub struct Command {
    pub ty: CommandId,
    pub serial_command: String,
    pub serial_port_name: String,
    pub payload: Vec<u8>,
}

impl Command {
    /// An empty serial-control command.
    pub fn new() -> (c: Command)
        ensures
            c.ty == CommandId::SerialControl,
            c.serial_command@ == Seq::<char>::empty(),
            c.serial_port_name@ == Seq::<char>::empty(),
            c.payload@ == Seq::<u8>::empty(),
    {
        Command {
            ty: CommandId::SerialControl,
            serial_command: String::new(),
            serial_port_name: String::new(),
            payload: Vec::new(),
        }
    }
}

/// Why a decode call produced no result.
#[derive(Clone, Copy, Debug, PartialEq, Eq, Structural)]
pub enum DecodeError {
    /// The read was shorter than the decoder's minimum; the caller should
    /// retry with the next read and keep its residue.
    InsufficientData,
    /// No preamble was found anywhere in the read.
    NoHeader,
}

/// A preamble `0xAA 0x55` begins at index `i`.
pub open spec fn is_header_at(s: Seq<u8>, i: int) -> bool {
    &&& 0 <= i
    &&& i + 1 < s.len()
    &&& s[i] == 0xAA
    &&& s[i + 1] == 0x55
}

/// The header positions below `n`, in increasing order.
pub open spec fn header_positions_upto(s: Seq<u8>, n: int) -> Seq<int>
    decreases n,
{
    if n <= 0 {
        Seq::empty()
    } else {
        header_positions_upto(s, n - 1) + if is_header_at(s, n - 1) {
            seq![n - 1]
        } else {
            Seq::empty()
        }
    }
}

/// All header positions of `s`, in increasing order.
pub open spec fn header_positions(s: Seq<u8>) -> Seq<int> {
    header_positions_upto(s, s.len() as int)
}

/// Every listed position is a header below `n`, the list is strictly
/// increasing, and it is complete for the range `[0, n)`.
pub proof fn lemma_header_positions_upto(s: Seq<u8>, n: int)
    ensures
        forall|k: int|
            0 <= k < header_positions_upto(s, n).len() ==> is_header_at(
                s,
                #[trigger] header_positions_upto(s, n)[k],
            ) && header_positions_upto(s, n)[k] < n,
        forall|k1: int, k2: int|
            0 <= k1 < k2 < header_positions_upto(s, n).len() ==> #[trigger] header_positions_upto(
                s,
                n,
            )[k1] < #[trigger] header_positions_upto(s, n)[k2],
        forall|i: int|
            0 <= i < n && is_header_at(s, i) ==> header_positions_upto(s, n).contains(i),
    decreases n,
{
    if n > 0 {
        lemma_header_positions_upto(s, n - 1);
        let prev = header_positions_upto(s, n - 1);
        let cur = header_positions_upto(s, n);
        if is_header_at(s, n - 1) {
            assert forall|i: int| 0 <= i < n && is_header_at(s, i) implies cur.contains(i) by {
                if i < n - 1 {
                    assert(prev.contains(i));
                    let k = choose|k: int| 0 <= k < prev.len() && prev[k] == i;
                    assert(cur[k] == i);
                } else {
                    assert(cur[cur.len() - 1] == i);
                }
            }
        } else {
            assert(cur =~= prev);
            assert forall|i: int| 0 <= i < n && is_header_at(s, i) implies cur.contains(i) by {
                if i < n - 1 {
                    assert(prev.contains(i));
                    let k = choose|k: int| 0 <= k < prev.len() && prev[k] == i;
                    assert(cur[k] == i);
                }
            }
        }
    }
}

/// The properties of `lemma_header_positions_upto`, stated for the whole
/// sequence.
pub proof fn lemma_header_positions(s: Seq<u8>)
    ensures
        forall|k: int|
            0 <= k < header_positions(s).len() ==> is_header_at(
                s,
                #[trigger] header_positions(s)[k],
            ) && header_positions(s)[k] < s.len(),
        forall|k1: int, k2: int|
            0 <= k1 < k2 < header_positions(s).len() ==> #[trigger] header_positions(s)[k1]
                < #[trigger] header_positions(s)[k2],
        forall|i: int| 0 <= i && is_header_at(s, i) ==> header_positions(s).contains(i),
{
    lemma_header_positions_upto(s, s.len() as int);
}

/// The bytes of segment `k`: from header `k` to the next header, or to the
/// end of the buffer for the last header.
pub open spec fn segment_at(s: Seq<u8>, k: int) -> Seq<u8> {
    let h = header_positions(s);
    if k + 1 < h.len() {
        s.subrange(h[k], h[k + 1])
    } else {
        s.subrange(h[k], s.len() as int)
    }
}

/// All segments of `s`, one per header, in order.
pub open spec fn spec_segments(s: Seq<u8>) -> Seq<Seq<u8>> {
    Seq::new(header_positions(s).len(), |k: int| segment_at(s, k))
}

/// The segments that pass frame validation, in order.
pub open spec fn keep_valid(segs: Seq<Seq<u8>>) -> Seq<Seq<u8>>
    decreases segs.len(),
{
    if segs.len() == 0 {
        Seq::empty()
    } else {
        keep_valid(segs.drop_last()) + if valid_frame(segs.last()) {
            seq![segs.last()]
        } else {
            Seq::empty()
        }
    }
}

/// Appending a segment appends it to the kept list exactly when it is a
/// valid frame.
pub proof fn lemma_keep_valid_push(segs: Seq<Seq<u8>>, x: Seq<u8>)
    ensures
        keep_valid(segs.push(x)) == keep_valid(segs) + if valid_frame(x) {
            seq![x]
        } else {
            Seq::<Seq<u8>>::empty()
        },
{
    assert(segs.push(x).drop_last() =~= segs);
    assert(segs.push(x).last() == x);
}

/// The repaired leading packet, if the first header sits past the start of
/// the read, the previous residue is non-empty, and gluing the residue to
/// the leading fragment forms a valid frame.
pub open spec fn spec_leading(s: Seq<u8>, r: Seq<u8>) -> Seq<Seq<u8>> {
    let h = header_positions(s);
    if h.len() > 0 && h[0] != 0 && r.len() != 0 && valid_frame(r + s.subrange(0, h[0])) {
        seq![r + s.subrange(0, h[0])]
    } else {
        Seq::empty()
    }
}

/// All packets of this read that pass validation: the repaired leading
/// packet, if any, then the valid segments in order.
pub open spec fn spec_ok_packets(s: Seq<u8>, r: Seq<u8>) -> Seq<Seq<u8>> {
    spec_leading(s, r) + keep_valid(spec_segments(s))
}

/// The residue this read leaves behind: the final segment when it fails
/// validation, nothing when it passes.
pub open spec fn spec_residue_out(s: Seq<u8>) -> Seq<u8> {
    let segs = spec_segments(s);
    if valid_frame(segs.last()) {
        Seq::empty()
    } else {
        segs.last()
    }
}

/// An executable position list agrees with a spec position list.
pub open spec fn positions_match(h: Seq<usize>, hs: Seq<int>) -> bool {
    &&& h.len() == hs.len()
    &&& forall|k: int| 0 <= k < h.len() ==> #[trigger] h[k] as int == hs[k]
}

/// Scans `buffer` for every `0xAA 0x55` preamble and returns the positions
/// of their first bytes, in increasing order.
pub fn search_header(buffer: &[u8]) -> (h: Vec<usize>)
    ensures
        positions_match(h@, header_positions(buffer@)),
{
    let ghost s = buffer@;
    let len = buffer.len();
    let mut h: Vec<usize> = Vec::new();
    let mut i: usize = 1;
    if len == 0 {
        return h;
    }
    while i < len
        invariant
            1 <= i <= len,
            len == s.len(),
            s == buffer@,
            positions_match(h@, header_positions_upto(s, i - 1)),
        decreases len - i,
    {
        if buffer[i - 1] == 0xAA && buffer[i] == 0x55 {
            h.push(i - 1);
        }
        i = i + 1;
    }
    proof {
        assert(header_positions(s) == header_positions_upto(s, len as int));
        assert(!is_header_at(s, len - 1));
        assert(header_positions_upto(s, len as int) =~= header_positions_upto(s, len - 1));
    }
    h
}

/// Copies `buffer[start..end]` into a fresh vector.
pub(crate) fn copy_range(buffer: &[u8], start: usize, end: usize) -> (v: Vec<u8>)
    requires
        start <= end,
        end <= buffer.len(),
    ensures
        v@ == buffer@.subrange(start as int, end as int),
{
    let mut v: Vec<u8> = Vec::new();
    let mut i: usize = start;
    while i < end
        invariant
            start <= i <= end,
            end <= buffer@.len(),
            v@ == buffer@.subrange(start as int, i as int),
        decreases end - i,
    {
        proof {
            assert(buffer@.subrange(start as int, i + 1 as int) =~= buffer@.subrange(
                start as int,
                i as int,
            ).push(buffer@[i as int]));
        }
        v.push(buffer[i]);
        i = i + 1;
    }
    v
}

/// Glues the carried residue to the broken leading fragment of a read.
pub fn merge_residue(residue: &[u8], broken_packet: &[u8]) -> (v: Vec<u8>)
    ensures
        v@ == residue@ + broken_packet@,
{
    let mut v = copy_range(residue, 0, residue.len());
    let mut tail = copy_range(broken_packet, 0, broken_packet.len());
    proof {
        assert(residue@.subrange(0, residue@.len() as int) =~= residue@);
        assert(broken_packet@.subrange(0, broken_packet@.len() as int) =~= broken_packet@);
    }
    v.append(&mut tail);
    v
}

/// Splits `buffer` into one packet per header: each runs to the next header,
/// and the last runs to the end of the buffer.
pub fn divide_packet(buffer: &[u8], headers: &Vec<usize>) -> (packets: Vec<Vec<u8>>)
    requires
        positions_match(headers@, header_positions(buffer@)),
    ensures
        packets@.len() == header_positions(buffer@).len(),
        forall|k: int|
            0 <= k < packets@.len() ==> #[trigger] packets@[k]@ == spec_segments(buffer@)[k],
{
    let ghost s = buffer@;
    proof {
        lemma_header_positions(s);
    }
    let n = headers.len();
    let mut packets: Vec<Vec<u8>> = Vec::new();
    let mut i: usize = 0;
    while i < n
        invariant
            0 <= i <= n,
            s == buffer@,
            n == headers@.len(),
            positions_match(headers@, header_positions(s)),
            forall|k: int|
                0 <= k < header_positions(s).len() ==> is_header_at(
                    s,
                    #[trigger] header_positions(s)[k],
                ) && header_positions(s)[k] < s.len(),
            forall|k1: int, k2: int|
                0 <= k1 < k2 < header_positions(s).len() ==> #[trigger] header_positions(s)[k1]
                    < #[trigger] header_positions(s)[k2],
            packets@.len() == i,
            forall|k: int| 0 <= k < i ==> #[trigger] packets@[k]@ == spec_segments(s)[k],
        decreases n - i,
    {
        let start = headers[i];
        let end = if i + 1 != n {
            headers[i + 1]
        } else {
            buffer.len()
        };
        let b = copy_range(buffer, start, end);
        packets.push(b);
        i = i + 1;
    }
    packets
}

/// Decodes one raw read together with the residue carried from the previous
/// read.
///
/// A read shorter than 81 bytes reports `InsufficientData`, and the caller
/// keeps its residue for the next read. A long read with no preamble at all
/// reports `NoHeader`, and the caller adopts the entire read as its new
/// residue (as `worker_process_read` does). Otherwise the decoder repairs
/// the leading fragment against the residue when that yields a valid frame,
/// parses every valid segment into a feedback record, and returns the final
/// segment as the new residue when it fails validation.
///
/// The old residue is consumed whether or not the repair succeeds: the
/// decoder mends at most one broken frame per read, and a failed repair is
/// dropped, not carried further.
pub fn decode(buffer: &[u8], residue: &[u8]) -> (r: Result<(Vec<Feedback>, Vec<u8>), DecodeError>)
    ensures
        buffer@.len() < 81 ==> r is Err && r->Err_0 == DecodeError::InsufficientData,
        buffer@.len() >= 81 && header_positions(buffer@).len() == 0 ==> r is Err && r->Err_0
            == DecodeError::NoHeader,
        r is Ok <==> (buffer@.len() >= 81 && header_positions(buffer@).len() > 0),
        r is Ok ==> ({
            let fbs = r->Ok_0.0;
            let res = r->Ok_0.1;
            let packets = spec_ok_packets(buffer@, residue@);
            &&& fbs@.len() == packets.len()
            &&& forall|j: int|
                0 <= j < packets.len() ==> #[trigger] fbs@[j] == spec_parse(
                    packets[j],
                    fbs@[j].epoch_time_stamp,
                )
            &&& res@ == spec_residue_out(buffer@)
        }),
{
    let ghost s = buffer@;
    let len = buffer.len();
    if len < 81 {
        return Err(DecodeError::InsufficientData);
    }
    let headers = search_header(buffer);
    if headers.len() == 0 {
        return Err(DecodeError::NoHeader);
    }
    proof {
        lemma_header_positions(s);
    }

    let mut feedbacks: Vec<Feedback> = Vec::new();
    let mut new_residue: Vec<u8> = Vec::new();

    let h0 = headers[0];
    if h0 != 0 && residue.len() != 0 {
        let broken_packet = copy_range(buffer, 0, h0);
        let merged_packet = merge_residue(residue, broken_packet.as_slice());
        let correct_crc = check_crc(&merged_packet);
        if correct_crc {
            let f = format_feedback(&merged_packet);
            feedbacks.push(f);
        }
    }
    assert(feedbacks@.len() == spec_leading(s, residue@).len());
    assert(forall|j: int|
        0 <= j < feedbacks@.len() ==> #[trigger] feedbacks@[j] == spec_parse(
            spec_leading(s, residue@)[j],
            feedbacks@[j].epoch_time_stamp,
        ));

    let packets = divide_packet(buffer, &headers);
    let n = packets.len();
    let mut i: usize = 0;
    while i < n
        invariant
            0 <= i <= n,
            s == buffer@,
            n == packets@.len(),
            n == header_positions(s).len(),
            n >= 1,
            forall|k: int|
                0 <= k < packets@.len() ==> #[trigger] packets@[k]@ == spec_segments(s)[k],
            feedbacks@.len() == spec_leading(s, residue@).len() + keep_valid(
                spec_segments(s).subrange(0, i as int),
            ).len(),
            forall|j: int|
                0 <= j < feedbacks@.len() ==> #[trigger] feedbacks@[j] == spec_parse(
                    (spec_leading(s, residue@) + keep_valid(
                        spec_segments(s).subrange(0, i as int),
                    ))[j],
                    feedbacks@[j].epoch_time_stamp,
                ),
            i == 0 ==> new_residue@ == Seq::<u8>::empty(),
            i > 0 ==> new_residue@ == (if valid_frame(spec_segments(s)[i - 1]) {
                Seq::<u8>::empty()
            } else {
                spec_segments(s)[i - 1]
            }),
        decreases n - i,
    {
        proof {
            assert(spec_segments(s).subrange(0, i + 1 as int) =~= spec_segments(s).subrange(
                0,
                i as int,
            ).push(spec_segments(s)[i as int]));
            lemma_keep_valid_push(spec_segments(s).subrange(0, i as int), spec_segments(s)[i as int]);
        }
        let packet = &packets[i];
        let correct_crc = check_crc(packet);
        if correct_crc {
            let f = format_feedback(packet);
            feedbacks.push(f);
            new_residue = Vec::new();
        } else {
            new_residue = copy_range(packet.as_slice(), 0, packet.len());
            proof {
                assert(packet@.subrange(0, packet@.len() as int) =~= packet@);
            }
        }
        i = i + 1;
    }
    proof {
        assert(spec_segments(s).subrange(0, n as int) =~= spec_segments(s));
        assert(spec_segments(s).last() == spec_segments(s)[n - 1]);
    }
    Ok((feedbacks, new_residue))
}

/// Each position shifted right by `d`.
pub open spec fn shift_positions(h: Seq<int>, d: int) -> Seq<int> {
    h.map_values(|p: int| p + d)
}

/// Below the boundary of `a`, the headers of `a + b` are the headers of `a`:
/// the pair straddling the boundary is no header, because `b` opens with the
/// first preamble byte.
proof fn lemma_headers_upto_prefix(a: Seq<u8>, b: Seq<u8>, n: int)
    requires
        n <= a.len(),
        b.len() > 0,
        b[0] == 0xAA,
    ensures
        header_positions_upto(a + b, n) == header_positions_upto(a, n),
    decreases n,
{
    if n > 0 {
        lemma_headers_upto_prefix(a, b, n - 1);
        if n - 1 == a.len() - 1 {
            assert((a + b)[n] == b[0]);
            assert(!is_header_at(a + b, n - 1));
            assert(!is_header_at(a, n - 1));
        } else {
            assert(is_header_at(a + b, n - 1) == is_header_at(a, n - 1));
        }
        assert(header_positions_upto(a + b, n) =~= header_positions_upto(a, n));
    }
}

/// Beyond the boundary of `a`, the headers of `a + b` are the headers of `b`
/// shifted by the length of `a`.
proof fn lemma_headers_upto_concat(a: Seq<u8>, b: Seq<u8>, n: int)
    requires
        a.len() <= n <= a.len() + b.len(),
        b.len() > 0,
        b[0] == 0xAA,
    ensures
        header_positions_upto(a + b, n) == header_positions_upto(a, a.len() as int)
            + shift_positions(header_positions_upto(b, n - a.len()), a.len() as int),
    decreases n - a.len(),
{
    let alen = a.len() as int;
    if n == alen {
        lemma_headers_upto_prefix(a, b, n);
        assert(header_positions_upto(b, 0) == Seq::<int>::empty());
        assert(header_positions_upto(a + b, n) =~= header_positions_upto(a, alen)
            + shift_positions(header_positions_upto(b, 0), alen));
    } else {
        lemma_headers_upto_concat(a, b, n - 1);
        assert((a + b).len() == a.len() + b.len());
        if n - 1 < alen + b.len() - 1 {
            assert((a + b)[n - 1] == b[n - 1 - alen]);
            assert((a + b)[n] == b[n - alen]);
            assert(is_header_at(a + b, n - 1) == is_header_at(b, n - 1 - alen));
        } else {
            assert(!is_header_at(a + b, n - 1));
            assert(!is_header_at(b, n - 1 - alen));
        }
        assert(header_positions_upto(a + b, n) =~= header_positions_upto(a, alen)
            + shift_positions(header_positions_upto(b, n - alen), alen));
    }
}

/// The headers of `a + b`, when `b` opens with a preamble: the headers of
/// `a`, then the headers of `b` shifted past `a`.
proof fn lemma_headers_concat(a: Seq<u8>, b: Seq<u8>)
    requires
        b.len() > 0,
        b[0] == 0xAA,
    ensures
        header_positions(a + b) == header_positions(a) + shift_positions(
            header_positions(b),
            a.len() as int,
        ),
{
    lemma_headers_upto_concat(a, b, (a.len() + b.len()) as int);
    assert(!is_header_at(a, a.len() - 1));
    assert(header_positions(a) =~= header_positions_upto(a, a.len() as int));
}

/// Filtering for valid frames distributes over concatenation.
proof fn lemma_keep_valid_concat(s1: Seq<Seq<u8>>, s2: Seq<Seq<u8>>)
    ensures
        keep_valid(s1 + s2) == keep_valid(s1) + keep_valid(s2),
    decreases s2.len(),
{
    if s2.len() == 0 {
        assert(s1 + s2 =~= s1);
        assert(keep_valid(s2) == Seq::<Seq<u8>>::empty());
        assert(keep_valid(s1) + keep_valid(s2) =~= keep_valid(s1));
    } else {
        lemma_keep_valid_concat(s1, s2.drop_last());
        assert(s1 + s2 =~= (s1 + s2.drop_last()).push(s2.last()));
        lemma_keep_valid_push(s1 + s2.drop_last(), s2.last());
        assert(s2 =~= s2.drop_last().push(s2.last()));
        lemma_keep_valid_push(s2.drop_last(), s2.last());
        assert(keep_valid(s1 + s2) =~= keep_valid(s1) + keep_valid(s2));
    }
}

/// A sequence that opens with a preamble has its first header at zero.
proof fn lemma_first_header_is_zero(b: Seq<u8>)
    requires
        is_header_at(b, 0),
    ensures
        header_positions(b).len() > 0,
        header_positions(b)[0] == 0,
{
    lemma_header_positions(b);
    assert(header_positions(b).contains(0));
    let k = choose|k: int| 0 <= k < header_positions(b).len() && header_positions(b)[k] == 0;
    if k > 0 {
        assert(header_positions(b)[0] < header_positions(b)[k]);
        assert(is_header_at(b, header_positions(b)[0]));
    }
}

/// Concatenation law: a well-formed stream split at a frame boundary and
/// decoded in two reads with residue carry yields the same packets and the
/// same final residue as the stream decoded in one read. The boundary must
/// open with a preamble, and both halves must be long enough to decode and
/// hold at least one preamble.
pub proof fn lemma_decode_concatenation(a: Seq<u8>, b: Seq<u8>, r0: Seq<u8>)
    requires
        a.len() >= 81,
        b.len() >= 81,
        header_positions(a).len() > 0,
        is_header_at(b, 0),
    ensures
        spec_ok_packets(a + b, r0) == spec_ok_packets(a, r0) + spec_ok_packets(
            b,
            spec_residue_out(a),
        ),
        spec_residue_out(a + b) == spec_residue_out(b),
{
    let ab = a + b;
    let alen = a.len() as int;
    let ha = header_positions(a);
    let hb = header_positions(b);
    let hab = header_positions(ab);
    let na = ha.len() as int;
    let nb = hb.len() as int;
    lemma_headers_concat(a, b);
    lemma_header_positions(a);
    lemma_header_positions(b);
    lemma_first_header_is_zero(b);
    assert(hab.len() == na + nb);
    assert(forall|k: int| 0 <= k < na ==> hab[k] == ha[k]);
    assert(forall|k: int| na <= k < na + nb ==> hab[k] == hb[k - na] + alen);
    assert(hab[na] == alen);

    // Segment-by-segment correspondence.
    assert forall|k: int| 0 <= k < na implies spec_segments(ab)[k] == spec_segments(a)[k] by {
        let lo = ha[k];
        if k + 1 < na {
            assert(ab.subrange(lo, ha[k + 1]) =~= a.subrange(lo, ha[k + 1]));
        } else {
            assert(segment_at(ab, k) == ab.subrange(lo, alen));
            assert(ab.subrange(lo, alen) =~= a.subrange(lo, alen));
        }
    }
    assert forall|k: int| na <= k < na + nb implies spec_segments(ab)[k] == spec_segments(b)[k
        - na] by {
        let j = k - na;
        let lo = hb[j];
        if k + 1 < na + nb {
            assert(ab.subrange(lo + alen, hb[j + 1] + alen) =~= b.subrange(lo, hb[j + 1]));
        } else {
            assert(segment_at(ab, k) == ab.subrange(lo + alen, ab.len() as int));
            assert(ab.subrange(lo + alen, ab.len() as int) =~= b.subrange(lo, b.len() as int));
        }
    }
    assert(spec_segments(ab) =~= spec_segments(a) + spec_segments(b));

    // The kept segments concatenate.
    lemma_keep_valid_concat(spec_segments(a), spec_segments(b));

    // The leading repair of the combined read is that of the first half,
    // and the second half starts on a header, so it repairs nothing.
    assert(ab.subrange(0, hab[0]) =~= a.subrange(0, ha[0]));
    assert(spec_leading(ab, r0) == spec_leading(a, r0));
    assert(spec_leading(b, spec_residue_out(a)) == Seq::<Seq<u8>>::empty());

    assert(spec_ok_packets(ab, r0) =~= spec_ok_packets(a, r0) + spec_ok_packets(
        b,
        spec_residue_out(a),
    ));

    // The final segment of the combined read is the final segment of the
    // second half, so the residues agree.
    assert(spec_segments(ab).last() == spec_segments(b).last());
}

} // verus!
