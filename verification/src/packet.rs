//! Framing of RPC packets: a length word, the header, then the payload; and
//! the sorting of a received body by its header.
use vstd::prelude::*;
use crate::protocol::{
    header_bytes, header_from_bytes, hole_bytes, hole_from_bytes, lemma_header_roundtrip,
    DecodeError, Virnetmessageheader, Virnetmessagestatus, Virnetmessagetype, Virnetstreamhole,
    HEADER_LEN,
};
use crate::wire::{be32, from_be32, lemma_be32_roundtrip, push_be32, push_bytes, read_be32};

verus! {

/// Bytes in front of every payload: the length word and the header.
pub const PACKET_PREFIX_LEN: usize = 28;

/// A piece of a data stream: a run of bytes, or a hole of zeroes.
#[derive(Clone, Debug)]
pub enum VirNetStream {
    Hole(Virnetstreamhole),
    Raw(Vec<u8>),
}

/// A packet as the receiver hands it on: the header and the body, if any.
#[derive(Clone, Debug)]
pub struct VirNetResponseRaw {
    pub header: Virnetmessageheader,
    pub body: Option<Vec<u8>>,
}

/// A received body sorted by what the header says it holds.
#[derive(Clone, Debug)]
pub enum ResponseBody {
    /// The server's error record, still encoded.
    ProtocolError(Vec<u8>),
    /// A reply or event body, still encoded.
    Data(Vec<u8>),
    /// A piece of a data stream.
    Stream(VirNetStream),
}

/// The payload that a stream piece travels as.
pub open spec fn stream_bytes(s: VirNetStream) -> Seq<u8> {
    match s {
        VirNetStream::Hole(h) => hole_bytes(h),
        VirNetStream::Raw(b) => b@,
    }
}

/// A whole packet: its total length, the header, the payload.
pub open spec fn packet_bytes(h: Virnetmessageheader, payload: Seq<u8>) -> Seq<u8> {
    be32((PACKET_PREFIX_LEN + payload.len()) as u32) + header_bytes(h) + payload
}

/// The header a request is sent with.
pub open spec fn request_header(
    program: u32,
    version: u32,
    procedure: i32,
    req_type: Virnetmessagetype,
    serial: u32,
    status: Virnetmessagestatus,
) -> Virnetmessageheader {
    Virnetmessageheader { prog: program, vers: version, proc: procedure, type_: req_type, serial, status }
}

/// The payload of an optional body: nothing when there is none.
pub open spec fn payload_of(payload: Option<Seq<u8>>) -> Seq<u8> {
    match payload {
        Some(p) => p,
        None => Seq::empty(),
    }
}

/// Whether a received body can be sorted: an error, or a type that carries a
/// reply, an event or a stream piece.
pub open spec fn dispatchable(h: Virnetmessageheader) -> bool {
    ||| h.status == Virnetmessagestatus::VirNetError
    ||| h.type_ == Virnetmessagetype::VirNetReply
    ||| h.type_ == Virnetmessagetype::VirNetMessage
    ||| h.type_ == Virnetmessagetype::VirNetStream
    ||| h.type_ == Virnetmessagetype::VirNetStreamHole
}

/// Appends the encoded form of a stream piece.
pub fn push_stream(out: &mut Vec<u8>, s: &VirNetStream)
    ensures
        final(out)@ == old(out)@ + stream_bytes(*s),
{
    match s {
        VirNetStream::Hole(h) => {
            let b = h.to_bytes();
            push_bytes(out, b.as_slice());
        },
        VirNetStream::Raw(b) => {
            push_bytes(out, b.as_slice());
        },
    }
}

/// The payload that a stream piece travels as.
pub fn stream_payload(s: &VirNetStream) -> (r: Vec<u8>)
    ensures
        r@ == stream_bytes(*s),
{
    let mut out: Vec<u8> = Vec::new();
    push_stream(&mut out, s);
    assert(out@ =~= stream_bytes(*s));
    out
}

/// Builds the packet that carries a request: the length word counts itself,
/// the header and the payload.
pub fn encode_request(
    program: u32,
    version: u32,
    procedure: i32,
    req_type: Virnetmessagetype,
    req_serial: u32,
    req_status: Virnetmessagestatus,
    payload: Option<&[u8]>,
) -> (r: Vec<u8>)
    requires
        payload matches Some(p) ==> p@.len() + PACKET_PREFIX_LEN <= u32::MAX,
    ensures
        r@ == packet_bytes(
            request_header(program, version, procedure, req_type, req_serial, req_status),
            payload_of(
                match payload {
                    Some(p) => Some(p@),
                    None => None,
                },
            ),
        ),
{
    let header = Virnetmessageheader {
        prog: program,
        vers: version,
        proc: procedure,
        type_: req_type,
        serial: req_serial,
        status: req_status,
    };
    let header_bytes = header.to_bytes();
    let mut len: u32 = 4;
    len = len + HEADER_LEN as u32;
    match payload {
        Some(p) => {
            len = len + p.len() as u32;
        },
        None => {},
    }
    let mut out: Vec<u8> = Vec::new();
    push_be32(&mut out, len);
    push_bytes(&mut out, header_bytes.as_slice());
    match payload {
        Some(p) => {
            push_bytes(&mut out, p);
        },
        None => {},
    }
    proof {
        let ghost pl = payload_of(
            match payload {
                Some(p) => Some(p@),
                None => None,
            },
        );
        assert(out@ =~= packet_bytes(header, pl));
    }
    out
}

/// The packet of a call: type `Call`, status `Ok`, the encoded arguments if any.
pub fn call_packet(program: u32, version: u32, procedure: i32, serial: u32, args: Option<&[u8]>) -> (r:
    Vec<u8>)
    requires
        args matches Some(p) ==> p@.len() + PACKET_PREFIX_LEN <= u32::MAX,
    ensures
        r@ == packet_bytes(
            request_header(
                program,
                version,
                procedure,
                Virnetmessagetype::VirNetCall,
                serial,
                Virnetmessagestatus::VirNetOk,
            ),
            payload_of(
                match args {
                    Some(p) => Some(p@),
                    None => None,
                },
            ),
        ),
{
    encode_request(
        program,
        version,
        procedure,
        Virnetmessagetype::VirNetCall,
        serial,
        Virnetmessagestatus::VirNetOk,
        args,
    )
}

/// The packet that sends a piece of stream data for the stream opened by the
/// call with header `opened`: type `Stream`, status `Continue`, same
/// program, version and serial.
pub fn stream_data_packet(opened: &Virnetmessageheader, procedure: i32, buf: &[u8]) -> (r: Vec<u8>)
    requires
        buf@.len() + PACKET_PREFIX_LEN <= u32::MAX,
    ensures
        r@ == packet_bytes(
            request_header(
                opened.prog,
                opened.vers,
                procedure,
                Virnetmessagetype::VirNetStream,
                opened.serial,
                Virnetmessagestatus::VirNetContinue,
            ),
            buf@,
        ),
{
    encode_request(
        opened.prog,
        opened.vers,
        procedure,
        Virnetmessagetype::VirNetStream,
        opened.serial,
        Virnetmessagestatus::VirNetContinue,
        Some(buf),
    )
}

/// The packet that sends a hole of the stream opened by the call with header
/// `opened`: type `StreamHole`, status `Continue`, the encoded hole.
pub fn stream_hole_packet(opened: &Virnetmessageheader, procedure: i32, length: i64, flags: u32) -> (r:
    Vec<u8>)
    ensures
        r@ == packet_bytes(
            request_header(
                opened.prog,
                opened.vers,
                procedure,
                Virnetmessagetype::VirNetStreamHole,
                opened.serial,
                Virnetmessagestatus::VirNetContinue,
            ),
            hole_bytes(Virnetstreamhole { length, flags }),
        ),
{
    let hole = Virnetstreamhole { length, flags };
    let body = hole.to_bytes();
    encode_request(
        opened.prog,
        opened.vers,
        procedure,
        Virnetmessagetype::VirNetStreamHole,
        opened.serial,
        Virnetmessagestatus::VirNetContinue,
        Some(body.as_slice()),
    )
}

/// The packet that ends the stream opened by the call with header `opened`:
/// type `Stream`, status `Ok`, no payload.
pub fn stream_finish_packet(opened: &Virnetmessageheader, procedure: i32) -> (r: Vec<u8>)
    ensures
        r@ == packet_bytes(
            request_header(
                opened.prog,
                opened.vers,
                procedure,
                Virnetmessagetype::VirNetStream,
                opened.serial,
                Virnetmessagestatus::VirNetOk,
            ),
            Seq::empty(),
        ),
{
    encode_request(
        opened.prog,
        opened.vers,
        procedure,
        Virnetmessagetype::VirNetStream,
        opened.serial,
        Virnetmessagestatus::VirNetOk,
        None,
    )
}

/// Reads the total length from the first four bytes of a packet.
pub fn packet_length(prefix: &[u8]) -> (r: u32)
    requires
        prefix@.len() >= 4,
    ensures
        r == from_be32(prefix@),
{
    let r = read_be32(prefix, 0);
    assert(prefix@.subrange(0, 4) =~= seq![prefix@[0], prefix@[1], prefix@[2], prefix@[3]]);
    r
}

/// The number of body bytes that follow the header of a packet of the given
/// total length.
pub fn body_length(packet_len: u32) -> (r: usize)
    requires
        packet_len >= PACKET_PREFIX_LEN,
    ensures
        r == packet_len - PACKET_PREFIX_LEN,
{
    (packet_len as usize) - PACKET_PREFIX_LEN
}

/// Packs a received header and body; an empty body is no body.
pub fn make_response(header: Virnetmessageheader, body: Vec<u8>) -> (r: VirNetResponseRaw)
    ensures
        r.header == header,
        body@.len() == 0 ==> r.body is None,
        body@.len() > 0 ==> (r.body matches Some(b) && b@ == body@),
{
    if body.len() == 0 {
        VirNetResponseRaw { header, body: None }
    } else {
        VirNetResponseRaw { header, body: Some(body) }
    }
}

/// Sorts a received body by its header: an error record when the status says
/// so, otherwise a reply or event, a run of stream bytes, or a decoded hole.
pub fn dispatch_body(header: &Virnetmessageheader, body: Vec<u8>) -> (r: Result<
    ResponseBody,
    DecodeError,
>)
    requires
        dispatchable(*header),
    ensures
        header.status == Virnetmessagestatus::VirNetError ==> (r matches Ok(
            ResponseBody::ProtocolError(b),
        ) && b@ == body@),
        header.status != Virnetmessagestatus::VirNetError ==> {
            &&& (header.type_ == Virnetmessagetype::VirNetReply || header.type_
                == Virnetmessagetype::VirNetMessage) ==> (r matches Ok(ResponseBody::Data(b)) && b@
                == body@)
            &&& header.type_ == Virnetmessagetype::VirNetStream ==> (r matches Ok(
                ResponseBody::Stream(VirNetStream::Raw(b)),
            ) && b@ == body@)
            &&& header.type_ == Virnetmessagetype::VirNetStreamHole ==> match hole_from_bytes(
                body@,
            ) {
                Ok(h) => r == Ok::<ResponseBody, DecodeError>(
                    ResponseBody::Stream(VirNetStream::Hole(h)),
                ),
                Err(e) => r == Err::<ResponseBody, DecodeError>(e),
            }
        },
{
    if header.status == Virnetmessagestatus::VirNetError {
        Ok(ResponseBody::ProtocolError(body))
    } else {
        match header.type_ {
            Virnetmessagetype::VirNetReply | Virnetmessagetype::VirNetMessage => Ok(
                ResponseBody::Data(body),
            ),
            Virnetmessagetype::VirNetStream => Ok(ResponseBody::Stream(VirNetStream::Raw(body))),
            _ => {
                match Virnetstreamhole::from_bytes(body.as_slice()) {
                    Ok(h) => Ok(ResponseBody::Stream(VirNetStream::Hole(h))),
                    Err(e) => Err(e),
                }
            },
        }
    }
}

/// What a request packet reads back as on the receiving side: its length word
/// leaves exactly the payload after the header, the header decodes to the one
/// sent, and the payload follows it unchanged.
pub proof fn lemma_packet_read_back(h: Virnetmessageheader, payload: Seq<u8>)
    requires
        payload.len() + PACKET_PREFIX_LEN <= u32::MAX,
    ensures
        ({
            let b = packet_bytes(h, payload);
            &&& b.len() == PACKET_PREFIX_LEN + payload.len()
            &&& from_be32(b) >= PACKET_PREFIX_LEN
            &&& from_be32(b) - PACKET_PREFIX_LEN == payload.len()
            &&& header_from_bytes(b.subrange(4, PACKET_PREFIX_LEN as int)) == Ok::<
                Virnetmessageheader,
                DecodeError,
            >(h)
            &&& b.subrange(PACKET_PREFIX_LEN as int, b.len() as int) == payload
        }),
{
    let b = packet_bytes(h, payload);
    let n = (PACKET_PREFIX_LEN + payload.len()) as u32;
    lemma_be32_roundtrip(n);
    lemma_header_roundtrip(h);
    assert(b.subrange(0, 4) =~= be32(n));
    assert(from_be32(b) == from_be32(be32(n)));
    assert(b.subrange(4, PACKET_PREFIX_LEN as int) =~= header_bytes(h));
    assert(b.subrange(PACKET_PREFIX_LEN as int, b.len() as int) =~= payload);
}

/// A stream piece sent as a payload sorts back into the same piece.
pub proof fn lemma_stream_read_back(s: VirNetStream)
    ensures
        match s {
            VirNetStream::Raw(b) => stream_bytes(s) == b@,
            VirNetStream::Hole(h) => hole_from_bytes(stream_bytes(s)) == Ok::<
                Virnetstreamhole,
                DecodeError,
            >(h),
        },
{
    match s {
        VirNetStream::Hole(h) => {
            crate::protocol::lemma_hole_roundtrip(h);
        },
        VirNetStream::Raw(_) => {},
    }
}

} // verus!
