use easy_proxy::capsule::Delay;
use easy_proxy::config::{AppConfig, Mode, Phase, RuntimeState};
use easy_proxy::daemon::ProbePlan;
use easy_proxy::recover::{relogin_allowed, should_enter_reconnect};
use easy_proxy::tunnel::{
    build_dns_query, direct_tcp_probe, dns_reply_matches, dns_udp_probe, latency_step, measured,
    probe_latency,
    probe_state_latency, probe_txid, socks_probe, spawn_daemon, stop_daemon, stop_daemon_and_wait,
    wait_for_end, wait_ready, EndWait, LatencyStep, SocksAction, SocksEvent, StopPlan, Sweep, UdpEvent, UdpStep, WaitReady,
};

const TARGET: (u8, u8, u8, u8) = (10, 0, 104, 104);
const SHORT: u64 = 500;

#[test]
fn enter_reconnect_at_threshold() {
    assert!(!should_enter_reconnect(1, 2));
    assert!(should_enter_reconnect(2, 2));
    assert!(should_enter_reconnect(3, 2));
}

#[test]
fn relogin_gate_semantics() {
    assert!(relogin_allowed(1000, None, 3600));
    assert!(!relogin_allowed(1000, Some(900), 3600));
    assert!(relogin_allowed(4600, Some(1000), 3600));
    assert!(!relogin_allowed(500, Some(1000), 3600));
}

#[test]
fn relogin_gate_without_an_interval() {
    assert!(relogin_allowed(1000, Some(1000), 0));
    assert!(!relogin_allowed(999, Some(1000), 0));
}

/// A server that takes part without authentication and answers the request with `reply`; one
/// that sends nothing more once `reply` is at its end.
fn against(reply: Vec<u8>) -> bool {
    assert_eq!(
        socks_probe(&SocksEvent::Connected, TARGET, 53),
        SocksAction::Send { bytes: vec![0x05, 0x01, 0x00], read: 2 }
    );
    let request = vec![0x05, 0x01, 0x00, 0x01, 10, 0, 104, 104, 0, 53];
    assert_eq!(
        socks_probe(&SocksEvent::Method(0x05, 0x00), TARGET, 53),
        SocksAction::Send { bytes: request, read: 4 }
    );
    let mut wanted = 4;
    loop {
        let ev = if wanted > reply.len() {
            SocksEvent::Failed
        } else {
            SocksEvent::Reply(reply[..wanted].to_vec())
        };
        match socks_probe(&ev, TARGET, 53) {
            SocksAction::Alive => return true,
            SocksAction::Dead => return false,
            SocksAction::Read(more) => wanted += more,
            SocksAction::Send { .. } => panic!("nothing is left to send"),
        }
    }
}

fn ok_reply(rep: u8) -> Vec<u8> {
    vec![0x05, rep, 0x00, 0x01, 0, 0, 0, 0, 0, 0]
}

#[test]
fn socks_probe_success_reply_is_alive() {
    assert!(against(ok_reply(0x00)));
}

#[test]
fn socks_probe_connection_refused_reply_is_alive() {
    assert!(against(ok_reply(0x05)));
}

#[test]
fn socks_probe_unreachable_reply_is_dead() {
    assert!(!against(ok_reply(0x04)));
}

#[test]
fn socks_probe_no_reply_times_out_dead() {
    assert!(!against(Vec::new()));
}

#[test]
fn socks_probe_no_listener_is_dead() {
    assert_eq!(socks_probe(&SocksEvent::Failed, TARGET, 53), SocksAction::Dead);
}

#[test]
fn socks_probe_garbage_reply_is_dead() {
    assert!(!against(vec![0xde, 0xad, 0xbe, 0xef, 0, 0, 0, 0, 0, 0]));
}

#[test]
fn socks_probe_needs_a_whole_reply() {
    let reply = ok_reply(0x00);
    for n in 0..reply.len() {
        assert!(!against(reply[..n].to_vec()), "cut off after {n} bytes");
        let so_far = SocksEvent::Reply(reply[..n].to_vec());
        assert_ne!(socks_probe(&so_far, TARGET, 53), SocksAction::Alive);
    }
    assert!(against(reply));
    // the other types of addresses
    let mut v6 = vec![0x05, 0x00, 0x00, 0x04];
    v6.extend([0; 18]);
    assert!(against(v6.clone()));
    assert!(!against(v6[..21].to_vec()));
    let mut name = vec![0x05, 0x05, 0x00, 0x03, 2];
    name.extend(b"ab");
    name.extend([0, 53]);
    assert!(against(name.clone()));
    assert!(!against(name[..8].to_vec()));
    assert!(!against(vec![0x05, 0x00, 0x00, 0x02, 0, 0, 0, 0, 0, 0]));
}

#[test]
fn socks_probe_needs_a_server_without_authentication() {
    assert_eq!(socks_probe(&SocksEvent::Method(5, 2), TARGET, 53), SocksAction::Dead);
    assert_eq!(socks_probe(&SocksEvent::Method(4, 0), TARGET, 53), SocksAction::Dead);
}

#[test]
fn dns_query_wire_shape() {
    let q = build_dns_query(0xabcd, "work.yangqianguan.com");
    assert_eq!(&q[..2], &[0xab, 0xcd]);
    assert_eq!(q[2] & 0x80, 0);
    assert_eq!(q[2] & 0x01, 1);
    assert_eq!(&q[4..6], &[0x00, 0x01]);
    let mut expect = vec![4u8];
    expect.extend(b"work");
    expect.push(12);
    expect.extend(b"yangqianguan");
    expect.push(3);
    expect.extend(b"com");
    expect.push(0);
    assert_eq!(&q[12..12 + expect.len()], &expect[..]);
    assert_eq!(&q[q.len() - 4..], &[0x00, 0x01, 0x00, 0x01]);
}

#[test]
fn dns_reply_matching_rules() {
    let mut reply = build_dns_query(0x1234, "a.com");
    reply[2] |= 0x80;
    assert!(dns_reply_matches(0x1234, &reply));
    assert!(!dns_reply_matches(0x9999, &reply));
    let query = build_dns_query(0x1234, "a.com");
    assert!(!dns_reply_matches(0x1234, &query));
    assert!(!dns_reply_matches(0x1234, &reply[..8]));
    let mut nx = reply.clone();
    nx[3] |= 0x03;
    assert!(dns_reply_matches(0x1234, &nx));
}

/// A server that sends a query back with the answer bit set, or stays silent.
fn asked(txid: u16, answers: bool) -> bool {
    let mut buf = build_dns_query(txid, "work.yangqianguan.com");
    buf[2] |= 0x80;
    let waiting = UdpEvent::Waiting { elapsed_ms: 0 };
    assert_eq!(dns_udp_probe(&waiting, txid, SHORT), UdpStep::Receive(500));
    let ev = if answers { UdpEvent::Received(buf) } else { UdpEvent::Failed };
    dns_udp_probe(&ev, txid, SHORT) == UdpStep::Alive
}

#[test]
fn dns_udp_probe_reply_is_alive() {
    assert!(asked(probe_txid(4711, Some(123_456_789)), true));
}

#[test]
fn dns_udp_probe_silence_times_out_dead() {
    assert!(!asked(probe_txid(4711, None), false));
    let late = UdpEvent::Waiting { elapsed_ms: 500 };
    assert_eq!(dns_udp_probe(&late, 1, SHORT), UdpStep::Dead);
}

#[test]
fn dns_udp_probe_passes_over_other_messages() {
    let mut other = build_dns_query(2, "a.com");
    other[2] |= 0x80;
    assert_eq!(dns_udp_probe(&UdpEvent::Received(other), 1, SHORT), UdpStep::Again);
    let later = UdpEvent::Waiting { elapsed_ms: 200 };
    assert_eq!(dns_udp_probe(&later, 1, SHORT), UdpStep::Receive(300));
}

#[test]
fn query_ids() {
    assert_eq!(probe_txid(0x1_0001, Some(0x2_0003)), 2);
    assert_eq!(probe_txid(0xffff_1234, None), 0x1234);
}

#[test]
fn direct_probe_shares_its_time() {
    assert_eq!(direct_tcp_probe(1500, 0), Some(1500));
    assert_eq!(direct_tcp_probe(1500, 700), Some(800));
    assert_eq!(direct_tcp_probe(1500, 1501), None);
}

#[test]
fn delays_are_at_least_one() {
    assert_eq!(measured(Some(0)), Delay::Value(1));
    assert_eq!(measured(Some(42)), Delay::Value(42));
    assert_eq!(measured(None), Delay::Timeout);
}

fn state() -> RuntimeState {
    let mut st = RuntimeState::default();
    st.daemon_pid = 77;
    st.port = 7899;
    st.server = "vpn.example.com".to_string();
    st
}

#[test]
fn waiting_for_the_daemon() {
    let mut st = state();
    assert_eq!(wait_ready(Some(&st), "log", "tail", 1, 45_000), WaitReady::Sleep(200));
    assert_eq!(wait_ready(None, "log", "tail", 1, 45_000), WaitReady::Sleep(200));
    assert_eq!(
        wait_ready(None, "log", "tail", 45_000, 45_000),
        WaitReady::Failed("等待隧道就绪超时\n--- tunnel.log 末尾 ---\ntail".to_string())
    );
    st.error = Some("boom".to_string());
    assert_eq!(
        wait_ready(Some(&st), "log", "tail", 1, 45_000),
        WaitReady::Failed("隧道启动失败: boom\n详见 log".to_string())
    );
    st.phase = Phase::Online;
    assert_eq!(wait_ready(Some(&st), "log", "tail", 1, 45_000), WaitReady::Online);
}

#[test]
fn latency_plans() {
    let mut st = state();
    assert_eq!(
        probe_state_latency(&st),
        ProbePlan::Curl { port: 7899, server: "vpn.example.com".to_string() }
    );
    st.vpn_dns = Some("10.0.104.104".to_string());
    assert_eq!(
        probe_state_latency(&st),
        ProbePlan::Socks { addr: "127.0.0.1:7899".to_string(), ip: TARGET, port: 53 }
    );
    st.mode = Mode::Tun;
    assert_eq!(
        probe_state_latency(&st),
        ProbePlan::UdpDns { ip: TARGET, port: 53, qname: "vpn.example.com".to_string() }
    );
    st.vpn_dns = None;
    assert_eq!(
        probe_state_latency(&st),
        ProbePlan::Direct { host: "vpn.example.com".to_string(), port: 443 }
    );
    let argv = probe_latency(7899, "vpn.example.com");
    assert_eq!(argv[2], "http://127.0.0.1:7899");
    assert_eq!(argv[10], "https://vpn.example.com/");
}

#[test]
fn measuring_a_delay() {
    let curl = ProbePlan::Curl { port: 7899, server: "s".to_string() };
    let direct = ProbePlan::Direct { host: "s".to_string(), port: 443 };
    assert_eq!(latency_step(&curl, 0, None), LatencyStep::Try { timeout_ms: 3000 });
    assert_eq!(latency_step(&curl, 1, None), LatencyStep::Try { timeout_ms: 3000 });
    assert_eq!(latency_step(&curl, 2, None), LatencyStep::Done(Delay::Timeout));
    assert_eq!(latency_step(&curl, 0, Some(0)), LatencyStep::Done(Delay::Value(0)));
    assert_eq!(latency_step(&direct, 0, None), LatencyStep::Try { timeout_ms: 1500 });
    assert_eq!(latency_step(&direct, 1, None), LatencyStep::Done(Delay::Timeout));
    assert_eq!(latency_step(&direct, 0, Some(0)), LatencyStep::Done(Delay::Value(1)));
}

#[test]
fn waiting_for_a_process_to_end() {
    assert_eq!(wait_for_end(true, 299, 300), EndWait::Sleep(100));
    assert_eq!(wait_for_end(true, 300, 300), EndWait::Over);
    assert_eq!(wait_for_end(false, 0, 300), EndWait::Over);
}

#[test]
fn stopping_the_daemon() {
    let mut st = state();
    assert_eq!(
        stop_daemon(Some(&st)),
        StopPlan { terminate: Some(77), wait_ms: 300, sweep: Sweep::Pkill }
    );
    st.mode = Mode::Tun;
    st.daemon_pid = 0;
    assert_eq!(
        stop_daemon(Some(&st)),
        StopPlan { terminate: None, wait_ms: 3000, sweep: Sweep::Janitor }
    );
    assert_eq!(
        stop_daemon_and_wait(None, 5000),
        StopPlan { terminate: None, wait_ms: 5000, sweep: Sweep::Pkill }
    );
}

#[test]
fn daemon_command_line() {
    let mut cfg = AppConfig::default();
    cfg.server = "vpn.example.com".to_string();
    let plain = spawn_daemon(&cfg, "abc", 1234, false);
    assert_eq!(plain[0], "__serve");
    assert!(plain.contains(&"1234".to_string()));
    assert!(!plain.contains(&"--tun".to_string()));
    let tun = spawn_daemon(&cfg, "abc", 1234, true);
    assert_eq!(tun[tun.len() - 1], "--tun");
    assert_eq!(&tun[..tun.len() - 1], &plain[..]);
}
