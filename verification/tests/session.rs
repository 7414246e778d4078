use xor::methods::{Method, XorToken};
use xor::local::{ConnectCtx, Endpoint, LastSeen, LocalAddr, LocalAddrState, Session, WatchDog};
use xor::recv_send::{
    on_recv_error, on_send_error, Admission, Inbound, IoErrorKind, Outbound, RecvErrorAction, RecvSend,
    SendErrorAction,
};
use xor::shutdown::Shutdown;
use xor::socket::Socket;

fn ep(ip: u128, port: u16) -> Endpoint {
    Endpoint { v6: false, ip, port, flowinfo: 0, scope_id: 0 }
}

#[test]
fn shutdown_is_reported_once() {
    let mut s = Shutdown::new();
    assert!(!s.requested());
    assert!(s.try_request());
    assert!(s.requested());
    assert!(!s.try_request());
    let mut t = Shutdown::new();
    t.request();
    assert!(t.requested());
    assert!(!t.try_request());
}

#[test]
fn sockets_flip() {
    assert_eq!(Socket::Inbound.not(), Socket::Outbound);
    assert_eq!(Socket::Outbound.not(), Socket::Inbound);
    assert_eq!(Socket::Inbound.not().not(), Socket::Inbound);
    assert_eq!(Socket::Inbound.as_str(), "inbound");
    assert_eq!(Socket::Outbound.as_str(), "outbound");
}

#[test]
fn version_check_and_update() {
    let mut local = LocalAddr::new();
    let mut ver = 0usize;
    assert!(!local.check_and_update(&mut ver));
    local.set(ep(1, 2));
    assert_eq!(local.version(), 1);
    assert!(local.check_and_update(&mut ver));
    assert_eq!(ver, 1);
    assert!(!local.check_and_update(&mut ver));
    let mut st = LocalAddrState::new();
    assert!(local.check_and_update_state(&mut st));
    assert_eq!(st.addr(), ep(1, 2));
    assert!(!local.check_and_update_state(&mut st));
    assert_eq!(local.current(), ep(1, 2));
}

#[test]
fn connect_once() {
    let mut ctx = ConnectCtx::new();
    let mut local = LocalAddr::new();
    let mut seen = LastSeen::new();
    assert!(!ctx.is_connected());
    assert!(ctx.connect(&mut local, &mut seen, ep(7, 8), 1000));
    assert!(ctx.is_connected());
    assert_eq!(local.current(), ep(7, 8));
    assert_eq!(seen.elapsed(1500), 500);
    assert!(!ctx.connect(&mut local, &mut seen, ep(9, 9), 2000));
    assert_eq!(local.current(), ep(7, 8));
    assert_eq!(local.version(), 1);
    ctx.disconnect();
    assert!(!ctx.is_connected());
    assert!(ctx.try_connect());
    assert!(!ctx.try_connect());
}

#[test]
fn last_seen_within_interval_is_not_recorded() {
    let mut seen = LastSeen::new();
    seen.now(100);
    assert_eq!(seen.elapsed(100), 100);
    seen.now(101);
    assert_eq!(seen.elapsed(101), 0);
    seen.now(150);
    assert_eq!(seen.elapsed(150), 49);
    seen.now(300);
    assert_eq!(seen.elapsed(300), 0);
    assert_eq!(seen.elapsed(10), 0);
    seen.raise_interval(1000);
    seen.now(1200);
    assert_eq!(seen.elapsed(1200), 900);
    seen.raise_interval(5);
    seen.now(1400);
    assert_eq!(seen.elapsed(1400), 0);
}

#[test]
fn watchdog_times_out_silent_client() {
    assert_eq!(WatchDog::update_interval(3000), 1500);
    assert_eq!(WatchDog::update_interval(1), 1);
    let mut s = Session::new();
    assert!(s.ctx.connect(&mut s.local, &mut s.seen, ep(3, 4), 1000));
    assert_eq!(WatchDog::check(&mut s, 2000, 5000), None);
    assert!(s.ctx.is_connected());
    assert_eq!(WatchDog::check(&mut s, 6000, 5000), Some(ep(3, 4)));
    assert!(!s.ctx.is_connected());
    let mut seen = LastSeen::new();
    WatchDog::configure(&mut seen, 1001);
    seen.now(400);
    assert_eq!(seen.elapsed(400), 400);
    seen.now(600);
    seen.now(1000);
    assert_eq!(seen.elapsed(1000), 400);
}

#[test]
fn only_the_client_passes() {
    let rs = RecvSend::<Inbound>::new();
    let mut s = Session::new();
    let mut cache = LocalAddrState::new();
    let a = ep(10, 1000);
    let b = ep(11, 1000);
    assert_eq!(rs.additional(a, &mut s, &mut cache, 500), Admission::Connected);
    assert!(s.ctx.is_connected());
    assert_eq!(cache.addr(), a);
    assert_eq!(rs.additional(a, &mut s, &mut cache, 900), Admission::Pass);
    assert_eq!(rs.additional(b, &mut s, &mut cache, 950), Admission::Mismatch { local: a, current: b });
    assert_eq!(s.local.current(), a);
    // once the watchdog disconnects, the next sender becomes the client
    assert_eq!(WatchDog::check(&mut s, 100_000, 5000), Some(a));
    assert_eq!(rs.inbound_additional(b, &mut s, &mut cache, 100_001), Admission::Connected);
    assert_eq!(cache.addr(), b);
    assert_eq!(rs.inbound_additional(a, &mut s, &mut cache, 100_002), Admission::Mismatch { local: b, current: a });
}

#[test]
fn outbound_packets_pass_and_refresh_the_cache() {
    let rs = RecvSend::<Outbound>::new();
    let mut s = Session::new();
    let mut cache = LocalAddrState::new();
    assert!(s.ctx.connect(&mut s.local, &mut s.seen, ep(5, 6), 0));
    assert_eq!(rs.additional(ep(1, 1), &mut s, &mut cache, 10), Admission::Pass);
    assert_eq!(cache.addr(), ep(5, 6));
    assert!(!rs.outbound_additional(&s, &mut cache));
    assert!(RecvSend::<Outbound>::from_outbound());
    assert!(!RecvSend::<Inbound>::from_outbound());
}

#[test]
fn transform_uses_the_side() {
    let token = XorToken::new();
    let mut buf = vec![0u8; 100];
    let mut n = 1;
    RecvSend::<Inbound>::new().transform(Method::DnsPad, &token, &mut buf, &mut n).unwrap();
    assert_eq!(n, 57);
    RecvSend::<Outbound>::new().transform(Method::DnsPad, &token, &mut buf, &mut n).unwrap();
    assert_eq!(n, 1);
}

#[test]
fn io_error_handling() {
    assert_eq!(on_send_error(IoErrorKind::WouldBlock), SendErrorAction::Drop);
    assert_eq!(on_send_error(IoErrorKind::Interrupted), SendErrorAction::Retry);
    assert_eq!(on_send_error(IoErrorKind::Other), SendErrorAction::Stop);
    assert_eq!(on_recv_error(IoErrorKind::WouldBlock), RecvErrorAction::Wait);
    assert_eq!(on_recv_error(IoErrorKind::Interrupted), RecvErrorAction::Retry);
    assert_eq!(on_recv_error(IoErrorKind::Other), RecvErrorAction::Stop);
}

#[test]
fn version_counts_stores() {
    let mut local = LocalAddr::new();
    for k in 1..=5usize {
        local.set(ep(k as u128, 1));
        assert_eq!(local.version(), k);
    }
}
