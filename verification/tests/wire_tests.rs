use libvirt_remote::packet::{
    body_length, call_packet, dispatch_body, encode_request, make_response, packet_length,
    stream_data_packet, stream_finish_packet, stream_hole_packet, stream_payload, ResponseBody,
    VirNetStream, PACKET_PREFIX_LEN,
};
use libvirt_remote::protocol::{
    DecodeError, Virnetmessageheader, Virnetmessagestatus, Virnetmessagetype, Virnetstreamhole,
};

fn header() -> Virnetmessageheader {
    Virnetmessageheader {
        prog: 0x20008086,
        vers: 1,
        proc: -3,
        type_: Virnetmessagetype::VirNetReply,
        serial: 7,
        status: Virnetmessagestatus::VirNetContinue,
    }
}

#[test]
fn header_encodes_as_six_big_endian_words() {
    let bytes = header().to_bytes();
    assert_eq!(
        bytes,
        vec![
            0x20, 0x00, 0x80, 0x86, 0, 0, 0, 1, 0xff, 0xff, 0xff, 0xfd, 0, 0, 0, 1, 0, 0, 0, 7, 0,
            0, 0, 2
        ]
    );
}

#[test]
fn header_roundtrip() {
    let h = header();
    let back = Virnetmessageheader::from_bytes(&h.to_bytes()).unwrap();
    assert_eq!(back, h);
}

#[test]
fn header_rejects_unknown_type_and_status() {
    let mut bytes = header().to_bytes();
    bytes[15] = 7;
    assert_eq!(
        Virnetmessageheader::from_bytes(&bytes),
        Err(DecodeError::InvalidMessageType(7))
    );
    let mut bytes = header().to_bytes();
    bytes[23] = 3;
    assert_eq!(
        Virnetmessageheader::from_bytes(&bytes),
        Err(DecodeError::InvalidMessageStatus(3))
    );
}

#[test]
fn hole_roundtrip_and_truncation() {
    let h = Virnetstreamhole { length: -2, flags: 5 };
    let bytes = h.to_bytes();
    assert_eq!(bytes, vec![0xff, 0xff, 0xff, 0xff, 0xff, 0xff, 0xff, 0xfe, 0, 0, 0, 5]);
    assert_eq!(Virnetstreamhole::from_bytes(&bytes), Ok(h));
    assert_eq!(Virnetstreamhole::from_bytes(&bytes[..11]), Err(DecodeError::Truncated));
}

#[test]
fn request_packet_reads_back() {
    let payload = [1u8, 2, 3];
    let p = encode_request(
        1,
        2,
        3,
        Virnetmessagetype::VirNetCall,
        9,
        Virnetmessagestatus::VirNetOk,
        Some(&payload),
    );
    assert_eq!(p.len(), PACKET_PREFIX_LEN + 3);
    let len = packet_length(&p);
    assert_eq!(len, 31);
    assert_eq!(body_length(len), 3);
    let h = Virnetmessageheader::from_bytes(&p[4..28]).unwrap();
    assert_eq!(h.serial, 9);
    assert_eq!(h.proc, 3);
    assert_eq!(&p[28..], &payload);
    let raw = make_response(h, p[28..].to_vec());
    assert_eq!(raw.body, Some(vec![1, 2, 3]));
}

#[test]
fn empty_request_has_no_body() {
    let p = call_packet(1, 1, 4, 1, None);
    assert_eq!(p.len(), 28);
    assert_eq!(packet_length(&p), 28);
    assert_eq!(body_length(28), 0);
    let h = Virnetmessageheader::from_bytes(&p[4..28]).unwrap();
    assert_eq!(h.type_, Virnetmessagetype::VirNetCall);
    assert_eq!(h.status, Virnetmessagestatus::VirNetOk);
    assert!(make_response(h, vec![]).body.is_none());
}

#[test]
fn stream_packets() {
    let opened = header();
    let d = stream_data_packet(&opened, 208, &[9, 9]);
    let h = Virnetmessageheader::from_bytes(&d[4..28]).unwrap();
    assert_eq!(h.type_, Virnetmessagetype::VirNetStream);
    assert_eq!(h.status, Virnetmessagestatus::VirNetContinue);
    assert_eq!((h.prog, h.vers, h.serial, h.proc), (opened.prog, opened.vers, 7, 208));
    let hp = stream_hole_packet(&opened, 208, 4096, 0);
    let h = Virnetmessageheader::from_bytes(&hp[4..28]).unwrap();
    assert_eq!(h.type_, Virnetmessagetype::VirNetStreamHole);
    assert_eq!(
        Virnetstreamhole::from_bytes(&hp[28..]),
        Ok(Virnetstreamhole { length: 4096, flags: 0 })
    );
    let f = stream_finish_packet(&opened, 208);
    assert_eq!(f.len(), 28);
    let h = Virnetmessageheader::from_bytes(&f[4..28]).unwrap();
    assert_eq!(h.status, Virnetmessagestatus::VirNetOk);
    assert_eq!(h.type_, Virnetmessagetype::VirNetStream);
}

#[test]
fn stream_payloads() {
    assert_eq!(stream_payload(&VirNetStream::Raw(vec![4, 5])), vec![4, 5]);
    assert_eq!(
        stream_payload(&VirNetStream::Hole(Virnetstreamhole { length: 1, flags: 2 })),
        vec![0, 0, 0, 0, 0, 0, 0, 1, 0, 0, 0, 2]
    );
}

#[test]
fn dispatch_sorts_bodies() {
    let mut h = header();
    h.status = Virnetmessagestatus::VirNetError;
    assert!(matches!(dispatch_body(&h, vec![1]), Ok(ResponseBody::ProtocolError(b)) if b == vec![1]));
    h.status = Virnetmessagestatus::VirNetOk;
    h.type_ = Virnetmessagetype::VirNetMessage;
    assert!(matches!(dispatch_body(&h, vec![2]), Ok(ResponseBody::Data(b)) if b == vec![2]));
    h.type_ = Virnetmessagetype::VirNetStream;
    assert!(matches!(dispatch_body(&h, vec![3]), Ok(ResponseBody::Stream(VirNetStream::Raw(b))) if b == vec![3]));
    h.type_ = Virnetmessagetype::VirNetStreamHole;
    let hole = Virnetstreamhole { length: 10, flags: 0 }.to_bytes();
    assert!(matches!(dispatch_body(&h, hole), Ok(ResponseBody::Stream(VirNetStream::Hole(x))) if x.length == 10));
    assert!(matches!(dispatch_body(&h, vec![0; 4]), Err(DecodeError::Truncated)));
}
