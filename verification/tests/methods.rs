use xor::error::InitError;
use xor::methods::dns::{bound_check, dns_pad, dns_unpad};
use xor::methods::dns_pad::{payload_bound_check, DNS_QUERY, DNS_QUERY_LEN};
use xor::methods::{DnsPad, Method, MethodApply, MethodError, MethodState, MethodUndo, Xor, XorToken};

#[test]
fn test_xor_roundtrip() {
    let size = 256;

    let mut buf = vec![0u8; size];

    let mut token = XorToken::new();
    token.init(0xAA).unwrap();

    let payload: Box<[u8]> = (0..size).map(|x| x as u8).collect();
    let mut n = payload.len();

    buf[..n].copy_from_slice(&payload);
    let original = payload.clone();
    let normal_xor = {
        let mut payload = payload.clone();
        payload.iter_mut().for_each(|b| *b ^= 0xAA);
        payload
    };

    token.xor().apply(&mut buf, &mut n).unwrap();

    assert_ne!(&buf[..n], &*original);
    assert_eq!(&buf[..n], &*normal_xor);

    token.xor().apply(&mut buf, &mut n).unwrap();

    assert_eq!(n, original.len());

    assert_eq!(&buf[..n], &*original);
}

#[test]
fn test_dns_pad_roundtrip() {
    let mut buf = [0u8; 256];

    let original = b"hello dns pad";
    let mut n = original.len();

    buf[..n].copy_from_slice(original);

    DnsPad.apply(&mut buf, &mut n).unwrap();

    assert_eq!(n, original.len() + DNS_QUERY_LEN);

    assert_eq!(&buf[..DNS_QUERY_LEN], &DNS_QUERY);

    DnsPad.undo(&mut buf, &mut n).unwrap();

    assert_eq!(n, original.len());

    assert_eq!(&buf[..n], original);
}

#[test]
fn dns_query_is_root_servers_ns_query() {
    assert_eq!(DNS_QUERY_LEN, 56);
    assert_eq!(&DNS_QUERY[..12], &[0x07, 0x21, 0x01, 0x10, 0, 2, 0, 0, 0, 0, 0, 0]);
    let question: &[u8] = b"\x0croot-servers\x03net\x00\x00\x02\x00\x01";
    assert_eq!(&DNS_QUERY[12..34], question);
    assert_eq!(&DNS_QUERY[34..56], question);
}

#[test]
fn xor_only_touches_the_prefix() {
    let mut buf = vec![1u8, 2, 3, 4];
    xor::xor::xor(&mut buf, 2, 0x0F);
    assert_eq!(buf, vec![0x0E, 0x0D, 3, 4]);
    xor::xor::xor(&mut buf, 0, 0xFF);
    assert_eq!(buf, vec![0x0E, 0x0D, 3, 4]);
    xor::xor::xor(&mut buf, 4, 0);
    assert_eq!(buf, vec![0x0E, 0x0D, 3, 4]);
}

#[test]
fn pad_keeps_bytes_after_the_packet() {
    let mut buf = vec![9u8; 70];
    buf[0] = 1;
    buf[1] = 2;
    let mut n = 2;
    DnsPad.apply(&mut buf, &mut n).unwrap();
    assert_eq!(n, 58);
    assert_eq!(&buf[..56], &DNS_QUERY);
    assert_eq!(&buf[56..58], &[1, 2]);
    assert_eq!(&buf[58..], &[9u8; 12]);
}

#[test]
fn pad_overflow_is_refused() {
    // the buffer must be longer than n + DNS_QUERY_LEN
    let mut buf = vec![7u8; 60];
    let mut n = 4;
    let r = DnsPad.apply(&mut buf, &mut n);
    assert_eq!(r, Err(MethodError::PadOverflow { cap: 60, n: 4 }));
    assert_eq!(n, 4);
    assert_eq!(buf, vec![7u8; 60]);
    let mut n = 3;
    assert!(DnsPad.apply(&mut buf, &mut n).is_ok());
    assert_eq!(n, 59);
}

#[test]
fn unpad_underflow_is_refused() {
    let mut buf = vec![5u8; 100];
    let mut n = DNS_QUERY_LEN - 1;
    let r = DnsPad.undo(&mut buf, &mut n);
    assert_eq!(r, Err(MethodError::UnpadUnderflow { n: 55 }));
    assert_eq!(n, 55);
    let mut n = DNS_QUERY_LEN;
    assert!(DnsPad.undo(&mut buf, &mut n).is_ok());
    assert_eq!(n, 0);
}

#[test]
fn unpad_moves_the_payload_down() {
    let mut buf: Vec<u8> = (0..80u8).collect();
    let mut n = 60;
    DnsPad.undo(&mut buf, &mut n).unwrap();
    assert_eq!(n, 4);
    assert_eq!(&buf[..4], &[56, 57, 58, 59]);
    assert_eq!(&buf[4..], &(4..80u8).collect::<Vec<u8>>()[..]);
}

#[test]
fn bound_checks() {
    assert!(!payload_bound_check(56));
    assert!(payload_bound_check(57));
    assert!(!bound_check(0));
    assert!(bound_check(1452));
    assert!(DnsPad::check_apply(61, 4));
    assert!(!DnsPad::check_apply(60, 4));
    assert!(!DnsPad::check_apply(10, usize::MAX));
    assert!(DnsPad::check_undo(56));
    assert!(!DnsPad::check_undo(55));
}

#[test]
fn legacy_pad_and_unpad() {
    let mut buf = vec![0u8; 64];
    buf[0] = 0xAB;
    buf[1] = 0xCD;
    let n = dns_pad(&mut buf, 2);
    assert_eq!(n, 58);
    assert_eq!(&buf[..56], &DNS_QUERY);
    assert_eq!(&buf[56..58], &[0xAB, 0xCD]);
    let m = dns_unpad(&mut buf, 2);
    assert_eq!(m, 0);
    assert_eq!(&buf[..2], &[0xAB, 0xCD]);
}

fn run_both(m: Method, from_outbound: bool, token: &XorToken, data: &[u8]) {
    let mut buf = vec![0u8; 200];
    buf[..data.len()].copy_from_slice(data);
    let mut n = data.len();
    m.run(token, from_outbound, &mut buf, &mut n).unwrap();
    let peer = match m {
        Method::Xor => Method::Xor,
        Method::DnsPad => Method::DnsUnPad,
        Method::DnsUnPad => Method::DnsPad,
    };
    peer.run(token, from_outbound, &mut buf, &mut n).unwrap();
    assert_eq!(n, data.len());
    assert_eq!(&buf[..n], data);
}

#[test]
fn tunnel_roundtrip_both_directions() {
    let mut token = XorToken::new();
    token.init(0x5C).unwrap();
    let data = b"payload through the tunnel";
    run_both(Method::Xor, false, &token, data);
    run_both(Method::Xor, true, &token, data);
    // client -> local (DnsPad pads) -> remote (DnsUnPad unpads)
    run_both(Method::DnsPad, false, &token, data);
    // server -> remote (DnsUnPad pads) -> local (DnsPad unpads)
    run_both(Method::DnsUnPad, true, &token, data);
}

#[test]
fn run_picks_pad_or_unpad_by_side() {
    let token = XorToken::new();
    let mut buf = vec![0u8; 100];
    let mut n = 3;
    Method::DnsPad.run(&token, false, &mut buf, &mut n).unwrap();
    assert_eq!(n, 59);
    let mut n = 3;
    let r = Method::DnsPad.run(&token, true, &mut buf, &mut n);
    assert_eq!(r, Err(MethodError::UnpadUnderflow { n: 3 }));
    let mut n = 3;
    Method::DnsUnPad.run(&token, true, &mut buf, &mut n).unwrap();
    assert_eq!(n, 59);
}

#[test]
fn method_names() {
    for m in [Method::Xor, Method::DnsPad, Method::DnsUnPad] {
        assert_eq!(Method::from_str(m.as_str()), Ok(m));
        assert_eq!(Method::at(m.index()), m);
    }
    assert_eq!(Method::Xor.as_str(), "xor");
    assert_eq!(Method::DnsPad.as_str(), "dnspad");
    assert_eq!(Method::DnsUnPad.as_str(), "dnsunpad");
    assert_eq!(Method::from_str("XOR"), Err(()));
    assert_eq!(Method::from_str(""), Err(()));
    assert_eq!(Method::from_str("dnspadx"), Err(()));
    assert_eq!(Method::default(), Method::Xor);
}

#[test]
fn method_state_is_set_once() {
    let mut st = MethodState::new();
    assert_eq!(st.init(Method::DnsUnPad), Ok(()));
    assert_eq!(st.current(), Method::DnsUnPad);
    assert_eq!(st.init(Method::Xor), Err(InitError::AlreadyExists));
    assert_eq!(st.current(), Method::DnsUnPad);
}

#[test]
fn xor_token_is_set_once() {
    let mut t = XorToken::new();
    assert_eq!(t.init(0x11), Ok(()));
    assert_eq!(t.get(), 0x11);
    assert_eq!(t.init(0x22), Err(InitError::AlreadyExists));
    assert_eq!(t.get(), 0x11);
    let x: Xor = t.xor();
    assert_eq!(x.token, 0x11);
}

#[test]
fn cells_report_whether_set() {
    let mut t = XorToken::new();
    assert!(!t.is_set());
    t.init(1).unwrap();
    assert!(t.is_set());
    let mut m = MethodState::new();
    assert!(!m.is_set());
    m.init(Method::DnsPad).unwrap();
    assert!(m.is_set());
}
