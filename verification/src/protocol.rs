//! The libvirt RPC message header, the stream hole record and their wire layout.
use vstd::prelude::*;
use crate::wire::{
    be32, be64, bits_i32, bits_i64, bits_to_i32, bits_to_i64, from_be32, from_be64, i32_bits, i32_to_bits,
    i64_bits, i64_to_bits, lemma_be32_bytes_roundtrip, lemma_be32_roundtrip, lemma_be64_bytes_roundtrip,
    lemma_be64_roundtrip, lemma_bits_i32_roundtrip, lemma_bits_i64_roundtrip, lemma_i32_bits_roundtrip,
    lemma_i64_bits_roundtrip, push_be32, push_be64, read_be32, read_be64,
};

verus! {

pub const VIR_NET_MESSAGE_INITIAL: u32 = 65536u32;
pub const VIR_NET_MESSAGE_LEGACY_PAYLOAD_MAX: u32 = 262120u32;
pub const VIR_NET_MESSAGE_MAX: u32 = 33554432u32;
pub const VIR_NET_MESSAGE_HEADER_MAX: u32 = 24u32;
pub const VIR_NET_MESSAGE_PAYLOAD_MAX: u32 = 33554408u32;
pub const VIR_NET_MESSAGE_LEN_MAX: u32 = 4u32;
pub const VIR_NET_MESSAGE_STRING_MAX: u32 = 4194304u32;
pub const VIR_NET_MESSAGE_NUM_FDS_MAX: u32 = 32u32;
pub const VIR_NET_MESSAGE_HEADER_XDR_LEN: u32 = 4u32;
pub const VIR_UUID_BUFLEN: u32 = 16u32;

/// Size in bytes of an encoded message header.
pub const HEADER_LEN: usize = 24;

/// Size in bytes of an encoded stream hole.
pub const HOLE_LEN: usize = 12;

/// The kind of an RPC message.
#[derive(Clone, Copy, Debug, PartialEq, Eq, Structural)]
pub enum Virnetmessagetype {
    VirNetCall,
    VirNetReply,
    VirNetMessage,
    VirNetStream,
    VirNetCallWithFds,
    VirNetReplyWithFds,
    VirNetStreamHole,
}

/// The status of an RPC message.
#[derive(Clone, Copy, Debug, PartialEq, Eq, Structural)]
pub enum Virnetmessagestatus {
    VirNetOk,
    VirNetError,
    VirNetContinue,
}

/// The fixed header that precedes every RPC message body.
#[derive(Clone, Copy, Debug, PartialEq, Eq, Structural)]
pub struct Virnetmessageheader {
    pub prog: u32,
    pub vers: u32,
    pub proc: i32,
    pub type_: Virnetmessagetype,
    pub serial: u32,
    pub status: Virnetmessagestatus,
}

#[derive(Clone, Debug)]
pub struct Virnetmessagenonnulldomain {
    pub name: String,
    pub uuid: [u8; 16],
    pub id: i32,
}

#[derive(Clone, Debug)]
pub struct Virnetmessagenonnullnetwork {
    pub name: String,
    pub uuid: [u8; 16],
}

/// The error record that a server sends in place of a reply body.
#[derive(Clone, Debug)]
pub struct Virnetmessageerror {
    pub code: i32,
    pub domain: i32,
    pub message: Option<String>,
    pub level: i32,
    pub dom: Option<Virnetmessagenonnulldomain>,
    pub str1: Option<String>,
    pub str2: Option<String>,
    pub str3: Option<String>,
    pub int1: i32,
    pub int2: i32,
    pub net: Option<Virnetmessagenonnullnetwork>,
}

/// A run of zeroes in a sparse stream.
#[derive(Clone, Copy, Debug, PartialEq, Eq, Structural)]
pub struct Virnetstreamhole {
    pub length: i64,
    pub flags: u32,
}

/// Why bytes could not be read as a header or a hole.
#[derive(Clone, Copy, Debug, PartialEq, Eq, Structural)]
pub enum DecodeError {
    /// Fewer bytes than the record needs.
    Truncated,
    /// The message type word is not a known type.
    InvalidMessageType(u32),
    /// The message status word is not a known status.
    InvalidMessageStatus(u32),
}

impl Virnetmessagetype {
    /// The number by which the type travels on the wire.
    pub open spec fn wire_code(self) -> u32 {
        match self {
            Virnetmessagetype::VirNetCall => 0,
            Virnetmessagetype::VirNetReply => 1,
            Virnetmessagetype::VirNetMessage => 2,
            Virnetmessagetype::VirNetStream => 3,
            Virnetmessagetype::VirNetCallWithFds => 4,
            Virnetmessagetype::VirNetReplyWithFds => 5,
            Virnetmessagetype::VirNetStreamHole => 6,
        }
    }

    /// The type that travels as `code`, if any.
    pub open spec fn from_wire_code(code: u32) -> Option<Self> {
        if code == 0 {
            Some(Virnetmessagetype::VirNetCall)
        } else if code == 1 {
            Some(Virnetmessagetype::VirNetReply)
        } else if code == 2 {
            Some(Virnetmessagetype::VirNetMessage)
        } else if code == 3 {
            Some(Virnetmessagetype::VirNetStream)
        } else if code == 4 {
            Some(Virnetmessagetype::VirNetCallWithFds)
        } else if code == 5 {
            Some(Virnetmessagetype::VirNetReplyWithFds)
        } else if code == 6 {
            Some(Virnetmessagetype::VirNetStreamHole)
        } else {
            None
        }
    }

    pub fn code(&self) -> (c: u32)
        ensures
            c == self.wire_code(),
    {
        match self {
            Virnetmessagetype::VirNetCall => 0,
            Virnetmessagetype::VirNetReply => 1,
            Virnetmessagetype::VirNetMessage => 2,
            Virnetmessagetype::VirNetStream => 3,
            Virnetmessagetype::VirNetCallWithFds => 4,
            Virnetmessagetype::VirNetReplyWithFds => 5,
            Virnetmessagetype::VirNetStreamHole => 6,
        }
    }

    pub fn from_code(code: u32) -> (r: Option<Self>)
        ensures
            r == Self::from_wire_code(code),
    {
        if code == 0 {
            Some(Virnetmessagetype::VirNetCall)
        } else if code == 1 {
            Some(Virnetmessagetype::VirNetReply)
        } else if code == 2 {
            Some(Virnetmessagetype::VirNetMessage)
        } else if code == 3 {
            Some(Virnetmessagetype::VirNetStream)
        } else if code == 4 {
            Some(Virnetmessagetype::VirNetCallWithFds)
        } else if code == 5 {
            Some(Virnetmessagetype::VirNetReplyWithFds)
        } else if code == 6 {
            Some(Virnetmessagetype::VirNetStreamHole)
        } else {
            None
        }
    }
}

impl Virnetmessagestatus {
    /// The number by which the status travels on the wire.
    pub open spec fn wire_code(self) -> u32 {
        match self {
            Virnetmessagestatus::VirNetOk => 0,
            Virnetmessagestatus::VirNetError => 1,
            Virnetmessagestatus::VirNetContinue => 2,
        }
    }

    /// The status that travels as `code`, if any.
    pub open spec fn from_wire_code(code: u32) -> Option<Self> {
        if code == 0 {
            Some(Virnetmessagestatus::VirNetOk)
        } else if code == 1 {
            Some(Virnetmessagestatus::VirNetError)
        } else if code == 2 {
            Some(Virnetmessagestatus::VirNetContinue)
        } else {
            None
        }
    }

    pub fn code(&self) -> (c: u32)
        ensures
            c == self.wire_code(),
    {
        match self {
            Virnetmessagestatus::VirNetOk => 0,
            Virnetmessagestatus::VirNetError => 1,
            Virnetmessagestatus::VirNetContinue => 2,
        }
    }

    pub fn from_code(code: u32) -> (r: Option<Self>)
        ensures
            r == Self::from_wire_code(code),
    {
        if code == 0 {
            Some(Virnetmessagestatus::VirNetOk)
        } else if code == 1 {
            Some(Virnetmessagestatus::VirNetError)
        } else if code == 2 {
            Some(Virnetmessagestatus::VirNetContinue)
        } else {
            None
        }
    }
}

/// The 24 bytes of a header: six big-endian words in field order, the
/// enumerations by their wire codes and the procedure by its bit pattern.
pub open spec fn header_bytes(h: Virnetmessageheader) -> Seq<u8> {
    be32(h.prog) + be32(h.vers) + be32(i32_bits(h.proc)) + be32(h.type_.wire_code()) + be32(h.serial)
        + be32(h.status.wire_code())
}

/// What the first 24 bytes of `b` read as: a header, or the first field that
/// does not decode.
pub open spec fn header_from_bytes(b: Seq<u8>) -> Result<Virnetmessageheader, DecodeError>
    recommends
        b.len() >= 24,
{
    let t = from_be32(b.subrange(12, 16));
    let s = from_be32(b.subrange(20, 24));
    match Virnetmessagetype::from_wire_code(t) {
        None => Err(DecodeError::InvalidMessageType(t)),
        Some(type_) => match Virnetmessagestatus::from_wire_code(s) {
            None => Err(DecodeError::InvalidMessageStatus(s)),
            Some(status) => Ok(
                Virnetmessageheader {
                    prog: from_be32(b.subrange(0, 4)),
                    vers: from_be32(b.subrange(4, 8)),
                    proc: bits_i32(from_be32(b.subrange(8, 12))),
                    type_,
                    serial: from_be32(b.subrange(16, 20)),
                    status,
                },
            ),
        },
    }
}

/// The 12 bytes of a hole: the length as a big-endian hyper, then the flags.
pub open spec fn hole_bytes(h: Virnetstreamhole) -> Seq<u8> {
    be64(i64_bits(h.length)) + be32(h.flags)
}

/// What the front of `b` reads as when a hole is expected.
pub open spec fn hole_from_bytes(b: Seq<u8>) -> Result<Virnetstreamhole, DecodeError> {
    if b.len() < 12 {
        Err(DecodeError::Truncated)
    } else {
        Ok(
            Virnetstreamhole {
                length: bits_i64(from_be64(b.subrange(0, 8))),
                flags: from_be32(b.subrange(8, 12)),
            },
        )
    }
}

proof fn lemma_type_code_roundtrip(t: Virnetmessagetype)
    ensures
        Virnetmessagetype::from_wire_code(t.wire_code()) == Some(t),
{
}

proof fn lemma_status_code_roundtrip(s: Virnetmessagestatus)
    ensures
        Virnetmessagestatus::from_wire_code(s.wire_code()) == Some(s),
{
}

proof fn lemma_type_code_inverse(c: u32)
    ensures
        Virnetmessagetype::from_wire_code(c) matches Some(t) ==> t.wire_code() == c,
{
}

proof fn lemma_status_code_inverse(c: u32)
    ensures
        Virnetmessagestatus::from_wire_code(c) matches Some(s) ==> s.wire_code() == c,
{
}

/// Reading back the bytes of a header gives the header.
pub proof fn lemma_header_roundtrip(h: Virnetmessageheader)
    ensures
        header_bytes(h).len() == HEADER_LEN,
        header_from_bytes(header_bytes(h)) == Ok::<Virnetmessageheader, DecodeError>(h),
{
    let b = header_bytes(h);
    lemma_be32_roundtrip(h.prog);
    lemma_be32_roundtrip(h.vers);
    lemma_be32_roundtrip(i32_bits(h.proc));
    lemma_be32_roundtrip(h.type_.wire_code());
    lemma_be32_roundtrip(h.serial);
    lemma_be32_roundtrip(h.status.wire_code());
    lemma_i32_bits_roundtrip(h.proc);
    lemma_type_code_roundtrip(h.type_);
    lemma_status_code_roundtrip(h.status);
    assert(b.subrange(0, 4) =~= be32(h.prog));
    assert(b.subrange(4, 8) =~= be32(h.vers));
    assert(b.subrange(8, 12) =~= be32(i32_bits(h.proc)));
    assert(b.subrange(12, 16) =~= be32(h.type_.wire_code()));
    assert(b.subrange(16, 20) =~= be32(h.serial));
    assert(b.subrange(20, 24) =~= be32(h.status.wire_code()));
}

/// Bytes that read as a header are exactly that header's bytes.
pub proof fn lemma_header_bytes_roundtrip(b: Seq<u8>)
    requires
        b.len() == HEADER_LEN,
        header_from_bytes(b) is Ok,
    ensures
        header_bytes(header_from_bytes(b)->Ok_0) == b,
{
    let h = header_from_bytes(b)->Ok_0;
    lemma_be32_bytes_roundtrip(b.subrange(0, 4));
    lemma_be32_bytes_roundtrip(b.subrange(4, 8));
    lemma_be32_bytes_roundtrip(b.subrange(8, 12));
    lemma_be32_bytes_roundtrip(b.subrange(12, 16));
    lemma_be32_bytes_roundtrip(b.subrange(16, 20));
    lemma_be32_bytes_roundtrip(b.subrange(20, 24));
    lemma_bits_i32_roundtrip(from_be32(b.subrange(8, 12)));
    lemma_type_code_inverse(from_be32(b.subrange(12, 16)));
    lemma_status_code_inverse(from_be32(b.subrange(20, 24)));
    assert(header_bytes(h) =~= b.subrange(0, 4) + b.subrange(4, 8) + b.subrange(8, 12) + b.subrange(
        12,
        16,
    ) + b.subrange(16, 20) + b.subrange(20, 24));
    assert(header_bytes(h) =~= b);
}

/// Reading back the bytes of a hole gives the hole.
pub proof fn lemma_hole_roundtrip(h: Virnetstreamhole)
    ensures
        hole_bytes(h).len() == HOLE_LEN,
        hole_from_bytes(hole_bytes(h)) == Ok::<Virnetstreamhole, DecodeError>(h),
{
    let b = hole_bytes(h);
    lemma_be64_roundtrip(i64_bits(h.length));
    lemma_be32_roundtrip(h.flags);
    lemma_i64_bits_roundtrip(h.length);
    assert(b.subrange(0, 8) =~= be64(i64_bits(h.length)));
    assert(b.subrange(8, 12) =~= be32(h.flags));
}

/// Bytes that read as a hole begin with exactly that hole's bytes.
pub proof fn lemma_hole_bytes_roundtrip(b: Seq<u8>)
    requires
        hole_from_bytes(b) is Ok,
    ensures
        hole_bytes(hole_from_bytes(b)->Ok_0) == b.subrange(0, HOLE_LEN as int),
{
    let h = hole_from_bytes(b)->Ok_0;
    lemma_be64_bytes_roundtrip(b.subrange(0, 8));
    lemma_be32_bytes_roundtrip(b.subrange(8, 12));
    lemma_bits_i64_roundtrip(from_be64(b.subrange(0, 8)));
    assert(hole_bytes(h) =~= b.subrange(0, 12));
}

impl Virnetmessageheader {
    /// Encodes the header as it travels on the wire.
    pub fn to_bytes(&self) -> (r: Vec<u8>)
        ensures
            r@ == header_bytes(*self),
            r@.len() == HEADER_LEN,
    {
        let mut out: Vec<u8> = Vec::new();
        push_be32(&mut out, self.prog);
        push_be32(&mut out, self.vers);
        push_be32(&mut out, i32_to_bits(self.proc));
        push_be32(&mut out, self.type_.code());
        push_be32(&mut out, self.serial);
        push_be32(&mut out, self.status.code());
        proof {
            lemma_header_roundtrip(*self);
            assert(out@ =~= header_bytes(*self));
        }
        out
    }

    /// Decodes a header from the first 24 bytes of `bytes`.
    pub fn from_bytes(bytes: &[u8]) -> (r: Result<Virnetmessageheader, DecodeError>)
        requires
            bytes@.len() >= HEADER_LEN,
        ensures
            r == header_from_bytes(bytes@),
    {
        let _n = bytes.len();
        let t = read_be32(bytes, 12);
        let s = read_be32(bytes, 20);
        match Virnetmessagetype::from_code(t) {
            None => Err(DecodeError::InvalidMessageType(t)),
            Some(type_) => match Virnetmessagestatus::from_code(s) {
                None => Err(DecodeError::InvalidMessageStatus(s)),
                Some(status) => {
                    let prog = read_be32(bytes, 0);
                    let vers = read_be32(bytes, 4);
                    let proc = bits_to_i32(read_be32(bytes, 8));
                    let serial = read_be32(bytes, 16);
                    Ok(Virnetmessageheader { prog, vers, proc, type_, serial, status })
                },
            },
        }
    }
}

impl Virnetstreamhole {
    /// Encodes the hole as it travels on the wire.
    pub fn to_bytes(&self) -> (r: Vec<u8>)
        ensures
            r@ == hole_bytes(*self),
            r@.len() == HOLE_LEN,
    {
        let mut out: Vec<u8> = Vec::new();
        push_be64(&mut out, i64_to_bits(self.length));
        push_be32(&mut out, self.flags);
        proof {
            lemma_hole_roundtrip(*self);
            assert(out@ =~= hole_bytes(*self));
        }
        out
    }

    /// Decodes a hole from the front of `bytes`; bytes past the first 12 are ignored.
    pub fn from_bytes(bytes: &[u8]) -> (r: Result<Virnetstreamhole, DecodeError>)
        ensures
            r == hole_from_bytes(bytes@),
    {
        if bytes.len() < HOLE_LEN {
            Err(DecodeError::Truncated)
        } else {
            let length = bits_to_i64(read_be64(bytes, 0));
            let flags = read_be32(bytes, 8);
            Ok(Virnetstreamhole { length, flags })
        }
    }
}

/// Each message type and status travels as the code libvirt's RPC protocol
/// fixes for it: types Call 0, Reply 1, Message 2, Stream 3, CallWithFds 4,
/// ReplyWithFds 5, StreamHole 6; statuses Ok 0, Error 1, Continue 2.
pub proof fn lemma_wire_codes_declared()
    ensures
        Virnetmessagetype::VirNetCall.wire_code() == 0,
        Virnetmessagetype::VirNetReply.wire_code() == 1,
        Virnetmessagetype::VirNetMessage.wire_code() == 2,
        Virnetmessagetype::VirNetStream.wire_code() == 3,
        Virnetmessagetype::VirNetCallWithFds.wire_code() == 4,
        Virnetmessagetype::VirNetReplyWithFds.wire_code() == 5,
        Virnetmessagetype::VirNetStreamHole.wire_code() == 6,
        Virnetmessagestatus::VirNetOk.wire_code() == 0,
        Virnetmessagestatus::VirNetError.wire_code() == 1,
        Virnetmessagestatus::VirNetContinue.wire_code() == 2,
{
}

/// The type and status words of an encoded header: three zero bytes, then
/// the protocol's code of the type (bytes 12 to 16) and of the status (bytes
/// 20 to 24), whatever the rest of the header holds.
pub proof fn lemma_header_type_status_words(h: Virnetmessageheader)
    ensures
        header_bytes(h).subrange(12, 16) == seq![
            0u8,
            0u8,
            0u8,
            match h.type_ {
                Virnetmessagetype::VirNetCall => 0u8,
                Virnetmessagetype::VirNetReply => 1u8,
                Virnetmessagetype::VirNetMessage => 2u8,
                Virnetmessagetype::VirNetStream => 3u8,
                Virnetmessagetype::VirNetCallWithFds => 4u8,
                Virnetmessagetype::VirNetReplyWithFds => 5u8,
                Virnetmessagetype::VirNetStreamHole => 6u8,
            },
        ],
        header_bytes(h).subrange(20, 24) == seq![
            0u8,
            0u8,
            0u8,
            match h.status {
                Virnetmessagestatus::VirNetOk => 0u8,
                Virnetmessagestatus::VirNetError => 1u8,
                Virnetmessagestatus::VirNetContinue => 2u8,
            },
        ],
{
    let b = header_bytes(h);
    assert(b.subrange(12, 16) =~= be32(h.type_.wire_code()));
    assert(b.subrange(20, 24) =~= be32(h.status.wire_code()));
}

} // verus!
