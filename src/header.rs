use vstd::prelude::*;

verus! {

/// The kind of a framed message.
#[derive(Debug, Clone, Copy, PartialEq, Eq, Structural)]
pub enum Header {
    HELLO,
    MULTIPLE,
    PING,
    PONG,
    UNKNOWN,
}

/// The byte that stands for a header on the wire.
pub open spec fn header_byte(h: Header) -> u8 {
    match h {
        Header::UNKNOWN => 0,
        Header::HELLO => 1,
        Header::PING => 2,
        Header::PONG => 4,
        Header::MULTIPLE => 63,
    }
}

/// The header that a wire byte decodes to; unassigned bytes decode as `UNKNOWN`.
pub open spec fn header_of_byte(b: int) -> Header {
    if b == 63 {
        Header::MULTIPLE
    } else if b == 4 {
        Header::PONG
    } else if b == 2 {
        Header::PING
    } else if b == 1 {
        Header::HELLO
    } else {
        Header::UNKNOWN
    }
}

/// Decoding the byte of a header gives the header back.
pub proof fn lemma_header_byte_round_trip(h: Header)
    ensures
        header_of_byte(header_byte(h) as int) == h,
        header_byte(h) < 64,
{
}

impl Header {
    pub fn to_byte(&self) -> (r: u8)
        ensures
            r == header_byte(*self),
    {
        match self {
            Header::UNKNOWN => 0,
            Header::HELLO => 1,
            Header::PING => 2,
            Header::PONG => 4,
            Header::MULTIPLE => 63,
        }
    }

    pub fn from_byte(header_byte: u8) -> (r: Header)
        ensures
            r == header_of_byte(header_byte as int),
    {
        match header_byte {
            63 => Header::MULTIPLE,
            4 => Header::PONG,
            2 => Header::PING,
            1 => Header::HELLO,
            _ => Header::UNKNOWN,
        }
    }
}

} // verus!
