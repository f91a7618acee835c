use std::collections::VecDeque;

use vstd::prelude::*;

use crate::header::{header_byte, header_of_byte, lemma_header_byte_round_trip, Header};

verus! {

/// The largest payload a frame can carry.
pub const MAX_PAYLOAD: u16 = 1024;

/// The largest payload of a frame that may still be merged into another one.
pub const MAX_MERGEABLE: u16 = 1020;

/// The 10-bit length field of a payload of `len` bytes: a full payload of
/// 1024 bytes overflows the field and is written as 0.
pub open spec fn length_field(len: nat) -> int {
    if len == 1024 {
        0
    } else {
        len as int
    }
}

/// The leading big-endian 16-bit word `(header << 10) | (length & 0x3FF)`.
pub open spec fn tl_word(h: Header, len: nat) -> int {
    header_byte(h) as int * 1024 + length_field(len)
}

/// The wire form of a frame: the header/length word, then the payload.
pub open spec fn wire(h: Header, p: Seq<u8>) -> Seq<u8> {
    seq![(tl_word(h, p.len()) / 256) as u8, (tl_word(h, p.len()) % 256) as u8] + p
}

/// The word that the first two bytes of `b` hold, read big-endian.
pub open spec fn read_tl(b: Seq<u8>) -> int
    recommends
        b.len() >= 2,
{
    b[0] as int * 256 + b[1] as int
}

/// What a whole buffer decodes to: `None` unless the declared length matches
/// the bytes after the word, or the buffer is 1026 bytes long with a length
/// field of 0 (a full payload).
pub open spec fn parse(b: Seq<u8>) -> Option<(Header, Seq<u8>)> {
    if b.len() < 2 {
        None
    } else {
        let tl = read_tl(b);
        let h = header_of_byte(tl / 1024);
        let field = tl % 1024;
        if (field == 0 && b.len() == 1026) || field == b.len() - 2 {
            Some((h, b.subrange(2, b.len() as int)))
        } else {
            None
        }
    }
}

/// What a frame contributes to a merge: its wire form, or only its payload
/// when it is already a `MULTIPLE` (whose payload is a run of frames).
pub open spec fn merge_content(t: (Header, Seq<u8>)) -> Seq<u8> {
    if t.0 == Header::MULTIPLE {
        t.1
    } else {
        wire(t.0, t.1)
    }
}

/// The `MULTIPLE` frame that merging `l` and `r` gives: `None` when `l` is not
/// mergeable (over 1020 bytes) or the merged payload would exceed 1024 bytes.
pub open spec fn merge_spec(l: (Header, Seq<u8>), r: (Header, Seq<u8>)) -> Option<(Header, Seq<u8>)> {
    if l.1.len() > 1020 || merge_content(l).len() + merge_content(r).len() > 1024 {
        None
    } else {
        Some((Header::MULTIPLE, merge_content(l) + merge_content(r)))
    }
}

/// The frames that a run of wire frames holds, read front to back; `None`
/// when the run ends inside a frame.
pub open spec fn split_frames(p: Seq<u8>) -> Option<Seq<(Header, Seq<u8>)>>
    decreases p.len(),
{
    if p.len() == 0 {
        Some(Seq::empty())
    } else if p.len() < 2 {
        None
    } else {
        let tl = read_tl(p);
        let len = tl % 1024;
        if p.len() < 2 + len {
            None
        } else {
            match split_frames(p.subrange(2 + len, p.len() as int)) {
                Some(rest) => Some(seq![(header_of_byte(tl / 1024), p.subrange(2, 2 + len))] + rest),
                None => None,
            }
        }
    }
}

/// What splitting a frame gives: the frames inside a `MULTIPLE`, or the frame
/// itself.
pub open spec fn split_spec(t: (Header, Seq<u8>)) -> Option<Seq<(Header, Seq<u8>)>> {
    if t.0 == Header::MULTIPLE {
        split_frames(t.1)
    } else {
        Some(seq![t])
    }
}

/// The views of a run of frames.
pub open spec fn views(v: Seq<TLV>) -> Seq<(Header, Seq<u8>)> {
    v.map_values(|t: TLV| t@)
}

/// Merging a run of frames left to right: the first frame alone, then each
/// next one merged into what came before.
pub open spec fn merge_all(ts: Seq<(Header, Seq<u8>)>) -> Option<(Header, Seq<u8>)>
    decreases ts.len(),
{
    if ts.len() == 0 {
        None
    } else if ts.len() == 1 {
        Some(ts[0])
    } else {
        match merge_all(ts.drop_last()) {
            Some(m) => merge_spec(m, ts.last()),
            None => None,
        }
    }
}

/// The wire forms of a run of frames, one after the other.
pub open spec fn wires(ts: Seq<(Header, Seq<u8>)>) -> Seq<u8>
    decreases ts.len(),
{
    if ts.len() == 0 {
        Seq::empty()
    } else {
        wire(ts[0].0, ts[0].1) + wires(ts.drop_first())
    }
}

proof fn lemma_tl_word(h: Header, len: nat)
    requires
        len <= 1024,
    ensures
        0 <= tl_word(h, len) < 65536,
        (tl_word(h, len) / 256) as u8 as int * 256 + (tl_word(h, len) % 256) as u8 as int == tl_word(h, len),
        tl_word(h, len) / 1024 == header_byte(h) as int,
        tl_word(h, len) % 1024 == length_field(len),
        len == 1024 ==> (tl_word(h, len) / 256) as u8 == header_byte(h) * 4 && (tl_word(h, len) % 256) as u8 == 0,
{
    lemma_header_byte_round_trip(h);
    let b = header_byte(h) as int;
    let f = length_field(len);
    assert(0 <= f < 1024);
    assert(b * 1024 + f < 65536) by (nonlinear_arith)
        requires
            0 <= b < 64,
            0 <= f < 1024,
    ;
    assert((b * 1024 + f) / 1024 == b && (b * 1024 + f) % 1024 == f) by (nonlinear_arith)
        requires
            0 <= b < 64,
            0 <= f < 1024,
    ;
    let t = b * 1024 + f;
    assert(0 <= t / 256 < 256 && 0 <= t % 256 < 256 && (t / 256) * 256 + t % 256 == t) by (nonlinear_arith)
        requires
            0 <= t < 65536,
    ;
    if len == 1024 {
        assert(t / 256 == b * 4 && t % 256 == 0) by (nonlinear_arith)
            requires
                t == b * 1024,
                0 <= b < 64,
        ;
    }
}

/// Decoding the wire form of a frame of at most 1024 bytes gives the frame
/// back.
pub proof fn lemma_round_trip(h: Header, p: Seq<u8>)
    requires
        p.len() <= 1024,
    ensures
        parse(wire(h, p)) == Some((h, p)),
{
    lemma_tl_word(h, p.len());
    lemma_header_byte_round_trip(h);
    let w = wire(h, p);
    assert(read_tl(w) == tl_word(h, p.len()));
    assert(w.subrange(2, w.len() as int) =~= p);
}

/// The leading word of a frame's wire form holds its header and its length
/// modulo 1024; a full frame of 1024 bytes leaves the length bits at zero.
pub proof fn lemma_length_law(h: Header, p: Seq<u8>)
    requires
        p.len() <= 1024,
    ensures
        header_of_byte(read_tl(wire(h, p)) / 1024) == h,
        read_tl(wire(h, p)) % 1024 == p.len() % 1024,
        p.len() == 1024 ==> wire(h, p)[0] == header_byte(h) * 4 && wire(h, p)[1] == 0,
        p.len() == 1024 && h == Header::UNKNOWN ==> wire(h, p)[0] == 0 && wire(h, p)[1] == 0,
{
    lemma_tl_word(h, p.len());
    lemma_header_byte_round_trip(h);
}

/// Two frames whose merged contents would exceed 1024 bytes do not merge.
pub proof fn lemma_merge_overflow(l: (Header, Seq<u8>), r: (Header, Seq<u8>))
    requires
        merge_content(l).len() + merge_content(r).len() > 1024,
    ensures
        merge_spec(l, r) is None,
{
}

/// A buffer shorter than the header/length word, or whose declared length
/// disagrees with the bytes after it (a full 1026-byte frame declaring 0
/// aside), does not decode.
pub proof fn lemma_malformed_rejected(b: Seq<u8>)
    requires
        b.len() < 2 || (read_tl(b) % 1024 != b.len() - 2 && !(read_tl(b) % 1024 == 0 && b.len() == 1026)),
    ensures
        parse(b) is None,
{
}

proof fn lemma_split_wire(h: Header, p: Seq<u8>, rest: Seq<u8>)
    requires
        p.len() < 1024,
    ensures
        split_frames(wire(h, p) + rest) == match split_frames(rest) {
            Some(r) => Some(seq![(h, p)] + r),
            None => None::<Seq<(Header, Seq<u8>)>>,
        },
{
    lemma_tl_word(h, p.len());
    lemma_header_byte_round_trip(h);
    let q = wire(h, p) + rest;
    assert(read_tl(q) == tl_word(h, p.len()));
    assert(q.subrange(2 + p.len() as int, q.len() as int) =~= rest);
    assert(q.subrange(2, 2 + p.len() as int) =~= p);
}

proof fn lemma_split_wires(ts: Seq<(Header, Seq<u8>)>)
    requires
        forall|i: int| 0 <= i < ts.len() ==> #[trigger] ts[i].1.len() < 1024,
    ensures
        split_frames(wires(ts)) == Some(ts),
    decreases ts.len(),
{
    if ts.len() == 0 {
        assert(split_frames(Seq::<u8>::empty()) == Some(Seq::<(Header, Seq<u8>)>::empty()));
    } else {
        let rest = ts.drop_first();
        assert forall|i: int| 0 <= i < rest.len() implies #[trigger] rest[i].1.len() < 1024 by {
            assert(rest[i] == ts[i + 1]);
        }
        lemma_split_wires(rest);
        lemma_split_wire(ts[0].0, ts[0].1, wires(rest));
        assert(seq![ts[0]] + rest =~= ts);
    }
}

proof fn lemma_wires_push(ts: Seq<(Header, Seq<u8>)>, t: (Header, Seq<u8>))
    ensures
        wires(ts.push(t)) == wires(ts) + wire(t.0, t.1),
    decreases ts.len(),
{
    if ts.len() == 0 {
        let e = ts.push(t).drop_first();
        assert(e.len() == 0);
        assert(wires(e) == Seq::<u8>::empty());
        assert(wires(ts.push(t)) =~= wire(t.0, t.1));
    } else {
        lemma_wires_push(ts.drop_first(), t);
        assert(ts.push(t).drop_first() =~= ts.drop_first().push(t));
        assert(wires(ts.push(t)) =~= wires(ts) + wire(t.0, t.1));
    }
}

proof fn lemma_merge_all_wires(ts: Seq<(Header, Seq<u8>)>)
    requires
        ts.len() >= 2,
        forall|i: int| 0 <= i < ts.len() ==> #[trigger] ts[i].0 != Header::MULTIPLE,
        merge_all(ts) is Some,
    ensures
        merge_all(ts) == Some((Header::MULTIPLE, wires(ts))),
        forall|i: int| 0 <= i < ts.len() ==> #[trigger] ts[i].1.len() < 1024,
    decreases ts.len(),
{
    let init = ts.drop_last();
    let t = ts.last();
    assert(init.push(t) =~= ts);
    lemma_wires_push(init, t);
    if ts.len() == 2 {
        assert(init =~= seq![ts[0]]);
        let e = init.drop_first();
        assert(e.len() == 0);
        assert(wires(e) == Seq::<u8>::empty());
        assert(wires(init) =~= wire(ts[0].0, ts[0].1));
    } else {
        assert forall|i: int| 0 <= i < init.len() implies #[trigger] init[i].0 != Header::MULTIPLE by {
            assert(init[i] == ts[i]);
        }
        lemma_merge_all_wires(init);
    }
    assert forall|i: int| 0 <= i < ts.len() implies #[trigger] ts[i].1.len() < 1024 by {
        if i < ts.len() - 1 {
            assert(ts[i] == init[i]);
        }
    }
}

/// Merging a run of frames (none of them a `MULTIPLE`) left to right and then
/// splitting the result gives the run back, in order.
pub proof fn lemma_merge_split(ts: Seq<(Header, Seq<u8>)>)
    requires
        ts.len() >= 1,
        forall|i: int| 0 <= i < ts.len() ==> #[trigger] ts[i].0 != Header::MULTIPLE,
        merge_all(ts) is Some,
    ensures
        split_spec(merge_all(ts)->Some_0) == Some(ts),
{
    if ts.len() == 1 {
        assert(seq![ts[0]] =~= ts);
    } else {
        lemma_merge_all_wires(ts);
        lemma_split_wires(ts);
    }
}

/// A framed message: a header and a payload of at most 1024 bytes.
#[derive(Debug, PartialEq, Eq)]
pub struct TLV {
    header: Header,
    length: u16,
    payload: Vec<u8>,
    mergeable: bool,
}

impl View for TLV {
    type V = (Header, Seq<u8>);

    closed spec fn view(&self) -> (Header, Seq<u8>) {
        (self.header, self.payload@)
    }
}

impl Clone for TLV {
    fn clone(&self) -> (r: Self)
        ensures
            r@ == self@,
    {
        proof {
            use_type_invariant(self);
        }
        TLV {
            header: self.header,
            length: self.length,
            payload: self.payload.clone(),
            mergeable: self.mergeable,
        }
    }
}

impl TLV {
    #[verifier::type_invariant]
    closed spec fn inv(&self) -> bool {
        &&& self.payload@.len() == self.length as nat
        &&& self.length <= 1024
        &&& self.mergeable == (self.length <= 1020)
    }

    pub fn set_header(&mut self, header: Header)
        ensures
            final(self)@ == (header, old(self)@.1),
    {
        proof {
            use_type_invariant(&*self);
        }
        self.header = header;
    }

    pub fn header(&self) -> (r: Header)
        ensures
            r == self@.0,
    {
        self.header
    }

    pub fn length(&self) -> (r: u16)
        ensures
            r as nat == self@.1.len(),
            r <= 1024,
    {
        proof {
            use_type_invariant(self);
        }
        self.length
    }

    pub fn payload(&self) -> (r: Vec<u8>)
        ensures
            r@ == self@.1,
    {
        self.payload.clone()
    }

    pub fn mergeable(&self) -> (r: bool)
        ensures
            r == (self@.1.len() <= 1020),
    {
        proof {
            use_type_invariant(self);
        }
        self.mergeable
    }

    /// A frame with the given header and payload (`None` is an empty one);
    /// `None` when the payload is longer than 1024 bytes.
    pub fn new(header: Header, data: Option<Vec<u8>>) -> (r: Option<TLV>)
        ensures
            r.is_some() == (data is None || data->Some_0@.len() <= 1024),
            r.is_some() ==> r->Some_0@ == (
                header,
                match data {
                    None => Seq::<u8>::empty(),
                    Some(d) => d@,
                },
            ),
    {
        match data {
            None => Some(TLV { header, length: 0, payload: Vec::new(), mergeable: true }),
            Some(data) => {
                if data.len() > 1024 {
                    return None;
                }
                let length = data.len() as u16;
                Some(TLV { header, length, payload: data, mergeable: length <= MAX_MERGEABLE })
            },
        }
    }

    /// The wire form of the frame.
    pub fn to_bytes(&self) -> (r: VecDeque<u8>)
        ensures
            r@ == wire(self@.0, self@.1),
    {
        proof {
            use_type_invariant(self);
        }
        let mut tl: u16 = self.header.to_byte() as u16 * 1024;
        if self.length < MAX_PAYLOAD {
            tl = tl + self.length;
        }
        let mut tlv: VecDeque<u8> = VecDeque::new();
        tlv.push_back((tl / 256) as u8);
        tlv.push_back((tl % 256) as u8);
        let mut i: usize = 0;
        while i < self.payload.len()
            invariant
                0 <= i <= self.payload@.len(),
                tlv@ == seq![(tl / 256) as u8, (tl % 256) as u8] + self.payload@.subrange(0, i as int),
            decreases self.payload@.len() - i,
        {
            tlv.push_back(self.payload[i]);
            i = i + 1;
            assert(self.payload@.subrange(0, i as int) == self.payload@.subrange(0, i - 1).push(self.payload@[i - 1]));
        }
        assert(self.payload@.subrange(0, i as int) == self.payload@);
        tlv
    }

    /// Decodes a whole buffer into a frame.
    pub fn from_bytes(tlv_bytes: VecDeque<u8>) -> (r: Option<TLV>)
        ensures
            r.is_some() == parse(tlv_bytes@).is_some(),
            r.is_some() ==> r->Some_0@ == parse(tlv_bytes@)->Some_0,
    {
        let len = tlv_bytes.len();
        if len < 2 {
            return None;
        }
        let tl: u16 = tlv_bytes[0] as u16 * 256 + tlv_bytes[1] as u16;
        let header: Header = Header::from_byte((tl / 1024) as u8);
        let mut length: u16 = tl % 1024;
        if length == 0 && len == 1026 {
            length = MAX_PAYLOAD;
        } else if length as usize != len - 2 {
            return None;
        }
        let mut payload: Vec<u8> = Vec::new();
        let mut i: usize = 2;
        while i < len
            invariant
                2 <= i <= len,
                len == tlv_bytes@.len(),
                payload@ == tlv_bytes@.subrange(2, i as int),
            decreases len - i,
        {
            payload.push(tlv_bytes[i]);
            i = i + 1;
            assert(tlv_bytes@.subrange(2, i as int) == tlv_bytes@.subrange(2, i - 1).push(tlv_bytes@[i - 1]));
        }
        Some(TLV { header, length, payload, mergeable: length <= MAX_MERGEABLE })
    }
    /// Splits a `MULTIPLE` into the frames it carries; any other frame gives
    /// itself. `None` when the payload of a `MULTIPLE` ends inside a frame.
    pub fn split(&self) -> (r: Option<Vec<TLV>>)
        ensures
            r.is_some() == split_spec(self@).is_some(),
            r.is_some() ==> views(r->Some_0@) == split_spec(self@)->Some_0,
    {
        proof {
            use_type_invariant(self);
        }
        let mut result: Vec<TLV> = Vec::new();
        match self.header {
            Header::MULTIPLE => {
                let n: usize = self.payload.len();
                let ghost p = self.payload@;
                let mut cursor: usize = 0;
                assert(p.subrange(0, n as int) =~= p);
                assert(views(result@) =~= Seq::<(Header, Seq<u8>)>::empty());
                proof {
                    match split_frames(p) {
                        Some(rest) => {
                            assert(views(result@) + rest =~= rest);
                        },
                        None => {},
                    }
                }
                while cursor < n
                    invariant
                        n == p.len(),
                        p == self.payload@,
                        self.header == Header::MULTIPLE,
                        n <= 1024,
                        cursor <= n,
                        split_frames(p) == match split_frames(p.subrange(cursor as int, n as int)) {
                            Some(rest) => Some(views(result@) + rest),
                            None => None::<Seq<(Header, Seq<u8>)>>,
                        },
                    decreases n - cursor,
                {
                    let ghost q = p.subrange(cursor as int, n as int);
                    if cursor + 1 >= n {
                        assert(q.len() == 1);
                        assert(split_frames(q) is None);
                        assert(split_spec(self@) == split_frames(p));
                        return None;
                    }
                    let tl: u16 = self.payload[cursor] as u16 * 256 + self.payload[cursor + 1] as u16;
                    assert(read_tl(q) == tl);
                    let len: usize = (tl % 1024) as usize;
                    if cursor + 2 + len > n {
                        assert(q.len() < 2 + read_tl(q) % 1024);
                        assert(split_frames(q) is None);
                        assert(split_spec(self@) == split_frames(p));
                        return None;
                    }
                    let head: Header = Header::from_byte((tl / 1024) as u8);
                    let mut data: Vec<u8> = Vec::new();
                    let start: usize = cursor + 2;
                    let mut i: usize = start;
                    while i < start + len
                        invariant
                            start <= i <= start + len,
                            start + len <= n,
                            n == self.payload@.len(),
                            data@ == self.payload@.subrange(start as int, i as int),
                        decreases start + len - i,
                    {
                        data.push(self.payload[i]);
                        i = i + 1;
                        assert(self.payload@.subrange(start as int, i as int) == self.payload@.subrange(start as int, i - 1).push(self.payload@[i - 1]));
                    }
                    let ghost old_views = views(result@);
                    let t = TLV { header: head, length: len as u16, payload: data, mergeable: len <= 1020 };
                    result.push(t);
                    assert(q.subrange(2, 2 + len as int) =~= p.subrange(start as int, start + len));
                    assert(q.subrange(2 + len as int, q.len() as int) =~= p.subrange(start + len, n as int));
                    assert(views(result@) =~= old_views.push((head, data@)));
                    proof {
                        let tail = p.subrange(start + len, n as int);
                        match split_frames(tail) {
                            Some(rest) => {
                                assert(old_views + (seq![(head, data@)] + rest) =~= old_views.push((head, data@)) + rest);
                            },
                            None => {},
                        }
                    }
                    cursor = start + len;
                }
                assert(p.subrange(cursor as int, n as int) =~= Seq::<u8>::empty());
                assert(views(result@) + Seq::<(Header, Seq<u8>)>::empty() =~= views(result@));
            },
            _ => {
                result.push(self.clone());
                assert(views(result@) =~= seq![self@]);
            },
        }
        Some(result)
    }

    /// Merges two frames into one `MULTIPLE`.
    pub fn merge(left: TLV, right: TLV) -> (r: Option<TLV>)
        ensures
            r.is_some() == merge_spec(left@, right@).is_some(),
            r.is_some() ==> r->Some_0@ == merge_spec(left@, right@)->Some_0,
    {
        proof {
            use_type_invariant(&left);
            use_type_invariant(&right);
        }
        if !left.mergeable() {
            return None;
        }
        let left_header: Header = left.header();
        let left_len: u16 = match left_header {
            Header::MULTIPLE => left.length(),
            _ => left.length() + 2,
        };
        let right_header: Header = right.header();
        let right_len: u16 = match right_header {
            Header::MULTIPLE => right.length(),
            _ => right.length() + 2,
        };
        if !(left_len + right_len <= MAX_PAYLOAD) {
            return None;
        }
        let mut left_data: VecDeque<u8> = left.to_bytes();
        if let Header::MULTIPLE = left_header {
            left_data.pop_front();
            left_data.pop_front();
        }
        let mut right_data: VecDeque<u8> = right.to_bytes();
        if let Header::MULTIPLE = right_header {
            right_data.pop_front();
            right_data.pop_front();
        }
        assert(left_data@ =~= merge_content(left@));
        assert(right_data@ =~= merge_content(right@));
        let mut data: Vec<u8> = Vec::new();
        append_deque(&mut data, &left_data);
        append_deque(&mut data, &right_data);
        TLV::new(Header::MULTIPLE, Some(data))
    }
}

/// Appends the bytes of a deque to a vector.
fn append_deque(v: &mut Vec<u8>, d: &VecDeque<u8>)
    ensures
        final(v)@ == old(v)@ + d@,
{
    let ghost start = v@;
    let mut i: usize = 0;
    while i < d.len()
        invariant
            0 <= i <= d@.len(),
            v@ == start + d@.subrange(0, i as int),
        decreases d@.len() - i,
    {
        v.push(d[i]);
        i = i + 1;
        assert(d@.subrange(0, i as int) == d@.subrange(0, i - 1).push(d@[i - 1]));
    }
    assert(d@.subrange(0, i as int) =~= d@);
}

} // verus!
