use std::collections::VecDeque;

use vstd::prelude::*;

use crate::header::Header;
use crate::host::Host;
use crate::tlv::{parse, wire, TLV};

verus! {

/// A frame together with the hosts it comes from and goes to, when known.
#[derive(Debug)]
pub struct Datagram {
    src: Option<Host>,
    data: TLV,
    dst: Option<Host>,
}

/// A datagram as plain values: source, frame, destination.
pub struct DatagramView {
    pub src: Option<Host>,
    pub data: (Header, Seq<u8>),
    pub dst: Option<Host>,
}

impl View for Datagram {
    type V = DatagramView;

    closed spec fn view(&self) -> DatagramView {
        DatagramView { src: self.src, data: self.data@, dst: self.dst }
    }
}

impl Clone for Datagram {
    fn clone(&self) -> (r: Self)
        ensures
            r@ == self@,
    {
        Datagram { src: self.src, data: self.data.clone(), dst: self.dst }
    }
}

impl Datagram {
    pub fn new(src: Option<Host>, data: TLV, dst: Option<Host>) -> (r: Datagram)
        ensures
            r@ == (DatagramView { src, data: data@, dst }),
    {
        Datagram { src, data, dst }
    }

    /// A datagram with no hosts around the frame.
    pub fn from_tlv(data: TLV) -> (r: Datagram)
        ensures
            r@ == (DatagramView { src: None, data: data@, dst: None }),
    {
        Datagram { src: None, data, dst: None }
    }

    /// A datagram with an empty frame of the given header and no hosts.
    pub fn from_header(header: Header) -> (r: Datagram)
        ensures
            r@ == (DatagramView { src: None, data: (header, Seq::<u8>::empty()), dst: None }),
    {
        let data = TLV::new(header, None).unwrap();
        Datagram { src: None, data, dst: None }
    }

    pub fn src(&self) -> (r: Option<Host>)
        ensures
            r == self@.src,
    {
        self.src
    }

    pub fn dst(&self) -> (r: Option<Host>)
        ensures
            r == self@.dst,
    {
        self.dst
    }

    pub fn header(&self) -> (r: Header)
        ensures
            r == self@.data.0,
    {
        self.data.header()
    }

    pub fn set_header(&mut self, header: Header)
        ensures
            final(self)@ == (DatagramView { data: (header, old(self)@.data.1), ..old(self)@ }),
    {
        self.data.set_header(header);
    }

    pub fn data(&self) -> (r: TLV)
        ensures
            r@ == self@.data,
    {
        self.data.clone()
    }

    /// The wire form of the frame.
    pub fn to_bytes(&self) -> (r: Vec<u8>)
        ensures
            r@ == wire(self@.data.0, self@.data.1),
    {
        let d: VecDeque<u8> = self.data.to_bytes();
        let mut v: Vec<u8> = Vec::new();
        let mut i: usize = 0;
        while i < d.len()
            invariant
                0 <= i <= d@.len(),
                v@ == d@.subrange(0, i as int),
            decreases d@.len() - i,
        {
            v.push(d[i]);
            i = i + 1;
            assert(d@.subrange(0, i as int) == d@.subrange(0, i - 1).push(d@[i - 1]));
        }
        assert(d@.subrange(0, i as int) =~= d@);
        v
    }

    /// Decodes a whole buffer into a datagram between the given hosts;
    /// `None` when the bytes are not one frame.
    pub fn from_bytes(src: Option<Host>, dg_bytes: Vec<u8>, dst: Option<Host>) -> (r: Option<Datagram>)
        ensures
            r.is_some() == parse(dg_bytes@).is_some(),
            r.is_some() ==> r->Some_0@ == (DatagramView { src, data: parse(dg_bytes@)->Some_0, dst }),
    {
        let mut d: VecDeque<u8> = VecDeque::new();
        let mut i: usize = 0;
        while i < dg_bytes.len()
            invariant
                0 <= i <= dg_bytes@.len(),
                d@ == dg_bytes@.subrange(0, i as int),
            decreases dg_bytes@.len() - i,
        {
            d.push_back(dg_bytes[i]);
            i = i + 1;
            assert(dg_bytes@.subrange(0, i as int) == dg_bytes@.subrange(0, i - 1).push(dg_bytes@[i - 1]));
        }
        assert(dg_bytes@.subrange(0, i as int) =~= dg_bytes@);
        match TLV::from_bytes(d) {
            Some(data) => Some(Datagram { src, data, dst }),
            None => None,
        }
    }

    /// Exchanges source and destination (a reply goes back where the request
    /// came from).
    pub fn swap(&mut self)
        ensures
            final(self)@ == (DatagramView { src: old(self)@.dst, data: old(self)@.data, dst: old(self)@.src }),
    {
        let tmp: Option<Host>;
        if let Some(_) = self.src {
            tmp = self.src;
            self.src = self.dst;
            self.dst = tmp;
        } else if let Some(_) = self.dst {
            self.src = self.dst;
            self.dst = None;
        }
    }
}

} // verus!
