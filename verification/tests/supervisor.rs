use easy_proxy::config::{Mode, Phase};
use easy_proxy::daemon::{ProbePlan, ReadyInfo, ServeArgs};
use easy_proxy::supervisor::{Action, Event, Now, Supervisor};

fn text(s: &str) -> String {
    s.to_string()
}

fn begin(tun: bool) -> (Supervisor, Action<String>) {
    let args = ServeArgs {
        twfid: text("abc"),
        server: text("vpn.example.com"),
        https_port: 443,
        mixed_port: 7899,
        socks: text("127.0.0.1:1080"),
        http: text("127.0.0.1:1081"),
        last_sms_sent: 1000,
        tun,
    };
    Supervisor::new(args, 42, 2, 3600, vec![text("corp.example.com")])
}

fn now(unix: u64) -> Now {
    Now { millis: 5_000, unix, shutdown: false }
}

/// Takes the events one after the other and hands back what was asked for last.
fn go(mut s: Supervisor, evs: Vec<Event<String>>) -> (Supervisor, Action<String>) {
    let mut last = Action::Wait;
    for ev in evs {
        let (next, action, _) = s.step(ev, now(5_000));
        s = next;
        last = action;
    }
    (s, last)
}

fn info() -> ReadyInfo<String> {
    ReadyInfo {
        ip: text("2.0.1.6"),
        vpn_dns: Some(text("10.0.104.104")),
        gateway_ip: Some(text("1.2.3.4")),
    }
}

fn socks() -> ProbePlan<String> {
    ProbePlan::Socks { addr: text("127.0.0.1:1080"), ip: (10, 0, 104, 104), port: 53 }
}

fn serving() -> Supervisor {
    let (s, _) = begin(false);
    let (s, last) = go(
        s,
        vec![
            Event::StateWritten,
            Event::TunnelReady(info()),
            Event::ProbeDone(true),
            Event::Bound,
            Event::StateWritten,
        ],
    );
    assert_eq!(last, Action::Serve { keepalive: true });
    s
}

#[test]
fn the_first_tunnel() {
    let (s, first) = begin(false);
    assert_eq!(first, Action::WriteState);
    assert_eq!(s.core.state.phase, Phase::Reconnecting);
    assert_eq!(s.core.state.mode, Mode::Proxy);
    assert_eq!(s.core.state.last_sms_sent, Some(1000));
    let (s, a, _) = s.step(Event::StateWritten, now(0));
    assert_eq!(a, Action::StartTunnel(text("abc")));
    let (s, a, _) = s.step(Event::TunnelReady(info()), now(0));
    assert_eq!(a, Action::Probe { plan: socks(), keepalive: false });
    assert_eq!(s.core.state.tunnel_ip, "2.0.1.6");
    let (s, a, _) = s.step(Event::ProbeDone(true), now(0));
    assert_eq!(a, Action::Bind(7899));
    assert_eq!(s.core.state.vpn_dns, Some(text("10.0.104.104")));
    let (s, a, _) = s.step(Event::Bound, now(0));
    assert_eq!(a, Action::WriteState);
    assert_eq!(s.core.state.phase, Phase::Online);
}

#[test]
fn a_target_that_does_not_answer_is_dropped() {
    let (s, _) = begin(false);
    let (s, _) = go(s, vec![Event::StateWritten, Event::TunnelReady(info())]);
    let (s, a, _) = s.step(Event::ProbeDone(false), now(0));
    assert_eq!(a, Action::Bind(7899));
    assert_eq!(s.core.state.vpn_dns, None);
}

#[test]
fn the_transparent_mode_guards_before_it_probes() {
    let (s, _) = begin(true);
    let (s, a) = go(s, vec![Event::StateWritten, Event::TunnelReady(info())]);
    assert_eq!(a, Action::Guard);
    let (s, a, _) = s.step(Event::Guarded, now(0));
    assert_eq!(a, Action::RouteExempt(text("1.2.3.4")));
    let (s, a, _) = s.step(Event::Exempted, now(0));
    assert_eq!(a, Action::HostsPin { ip: text("1.2.3.4"), server: text("vpn.example.com") });
    let (s, a, _) = s.step(Event::Pinned, now(0));
    let plan = ProbePlan::UdpDns {
        ip: (10, 0, 104, 104),
        port: 53,
        qname: text("vpn.example.com"),
    };
    assert_eq!(a, Action::Probe { plan, keepalive: false });
    let (s, a, _) = s.step(Event::ProbeDone(true), now(0));
    assert_eq!(a, Action::DnsSync);
    let (_, a, _) = s.step(Event::Synced, now(0));
    assert_eq!(a, Action::Bind(7899));
}

#[test]
fn a_first_tunnel_that_fails_is_reported() {
    let (s, _) = begin(true);
    let (s, _) = go(s, vec![Event::StateWritten, Event::TunnelReady(info())]);
    let (s, a, _) = s.step(Event::GuardFailed(text("no routes")), now(0));
    assert_eq!(a, Action::KillTunnel);
    let (s, a, _) = s.step(Event::Killed, now(0));
    assert_eq!(a, Action::WriteState);
    assert_eq!(s.core.state.error, Some(text("no routes")));
    let (_, a, _) = s.step(Event::StateWritten, now(0));
    assert_eq!(a, Action::Exit(Some(text("no routes"))));
}

#[test]
fn a_tunnel_that_cannot_be_started_ends_the_daemon() {
    let (s, _) = begin(false);
    let (_, a) = go(s, vec![Event::StateWritten, Event::TunnelNotStarted(text("x"))]);
    assert_eq!(a, Action::Exit(Some(text("x"))));
    let (s, _) = begin(false);
    let (_, a) = go(s, vec![Event::StateWriteFailed(text("y"))]);
    assert_eq!(a, Action::Exit(Some(text("y"))));
}

#[test]
fn a_port_in_use_is_reported() {
    let (s, _) = begin(false);
    let (s, a) = go(
        s,
        vec![
            Event::StateWritten,
            Event::TunnelReady(info()),
            Event::ProbeDone(true),
            Event::BindFailed(text("in use")),
        ],
    );
    assert_eq!(a, Action::KillTunnel);
    let (s, _, _) = s.step(Event::Killed, now(0));
    assert_eq!(
        s.core.state.error,
        Some(text("绑定混合端口 127.0.0.1:7899 失败: in use"))
    );
}

#[test]
fn failed_checks_are_counted() {
    let s = serving();
    let (s, a, _) = s.step(Event::Tick, now(0));
    assert_eq!(a, Action::Probe { plan: socks(), keepalive: true });
    let (s, a, _) = s.step(Event::ProbeDone(false), now(0));
    assert_eq!(a, Action::Serve { keepalive: false });
    assert_eq!(s.core.fails, 1);
    // a check that succeeds starts the count anew
    let (s, _) = go(s, vec![Event::Tick, Event::ProbeDone(true)]);
    assert_eq!(s.core.fails, 0);
    let (s, a) = go(
        s,
        vec![Event::Tick, Event::ProbeDone(false), Event::Tick, Event::ProbeDone(false)],
    );
    assert_eq!(a, Action::WriteState);
    assert_eq!(s.core.state.phase, Phase::Reconnecting);
}

#[test]
fn changes_of_the_network_are_gathered() {
    let line = || Event::RouteLine(text("RTM_NEWADDR: address being added to iface: len 176"));
    let s = serving();
    let (s, _, _) = s.step(Event::RouteLine(text("RTM_ADD: Add Route: len 140")), now(0));
    assert_eq!(s.core.net_check_at, None);
    let (s, _, _) = s.step(line(), now(0));
    assert_eq!(s.core.net_check_at, Some(6_500));
    let (s, _, _) = s.step(line(), Now { millis: 6_000, unix: 0, shutdown: false });
    assert_eq!(s.core.net_check_at, Some(6_500));
    let (s, a, _) = s.step(Event::NetCheckDue, now(0));
    assert_eq!(a, Action::Probe { plan: socks(), keepalive: false });
    assert_eq!(s.core.net_check_at, None);
    // one failure is enough
    let (_, a, _) = s.step(Event::ProbeDone(false), now(0));
    assert_eq!(a, Action::WriteState);
}

/// Recovery up to the point where the session in use did not bring the tunnel back.
fn old_session_failed(unix: u64, shutdown: bool) -> (Supervisor, Action<String>) {
    let s = serving();
    let (s, a) = go(s, vec![Event::TunnelExited(text("exit status: 1")), Event::StateWritten]);
    assert_eq!(a, Action::WaitGateway);
    let (s, a, _) = s.step(Event::GatewayWaited, now(0));
    assert_eq!(a, Action::RestartTunnel(text("abc")));
    let (s, a, _) = s.step(Event::TunnelNotReady(text("x")), Now { millis: 0, unix, shutdown });
    (s, a)
}

#[test]
fn recovery_with_the_session_in_use() {
    let s = serving();
    let (s, _) = go(s, vec![Event::TunnelExited(text("exit status: 1")), Event::StateWritten, Event::GatewayWaited]);
    let (s, _, _) = s.step(Event::TunnelReady(info()), now(0));
    let (s, a, _) = s.step(Event::ProbeDone(true), now(0));
    assert_eq!(a, Action::Probe { plan: socks(), keepalive: false });
    let (s, a, _) = s.step(Event::ProbeDone(true), now(0));
    assert_eq!(a, Action::WriteState);
    assert_eq!(s.core.state.phase, Phase::Online);
    let (_, a, _) = s.step(Event::StateWritten, now(0));
    assert_eq!(a, Action::Serve { keepalive: false });
}

#[test]
fn a_silent_login_keeps_the_interval() {
    assert_eq!(old_session_failed(4_600, false).1, Action::SilentLogin);
    assert_eq!(old_session_failed(4_599, false).1, Action::KillTunnel);
    assert_eq!(old_session_failed(4_600, true).1, Action::KillTunnel);
}

#[test]
fn recovery_with_a_new_session() {
    let (s, _) = old_session_failed(9_000, false);
    let (s, a, _) = s.step(Event::LoggedIn { twfid: text("def"), sent_at: 9_000 }, now(0));
    assert_eq!(a, Action::RestartTunnel(text("def")));
    assert_eq!(s.core.state.last_sms_sent, Some(9_000));
    // the new session is the last try
    let (_, a, _) = s.step(Event::TunnelNotReady(text("x")), now(99_000));
    assert_eq!(a, Action::KillTunnel);
    let (s, _) = old_session_failed(9_000, false);
    let (s, a, _) = s.step(Event::LoginFailed { sent_at: 9_001 }, now(0));
    assert_eq!(a, Action::KillTunnel);
    assert_eq!(s.core.state.last_sms_sent, Some(9_001));
}

#[test]
fn resolver_entries_go_before_the_network_is_awaited() {
    let (s, _) = begin(true);
    let (s, _) = go(
        s,
        vec![
            Event::StateWritten,
            Event::TunnelReady(ReadyInfo { ip: text(""), vpn_dns: None, gateway_ip: None }),
            Event::Guarded,
            Event::Bound,
            Event::StateWritten,
        ],
    );
    let (s, a) = go(s, vec![Event::TunnelExited(text("exit status: 1")), Event::StateWritten]);
    assert_eq!(a, Action::DnsClean);
    let (_, a, _) = s.step(Event::Cleaned, now(0));
    assert_eq!(a, Action::WaitGateway);
}

#[test]
fn the_end_is_orderly() {
    let (s, a, _) = serving().step(Event::Shutdown, now(0));
    assert_eq!(a, Action::KillTunnel);
    let (s, a, _) = s.step(Event::Killed, now(0));
    assert_eq!(a, Action::ClearState);
    let (s, a, _) = s.step(Event::Cleared, now(0));
    assert_eq!(a, Action::Exit(None));
    // what does not concern a stage changes nothing
    let (_, a, _) = s.step(Event::Tick, now(0));
    assert_eq!(a, Action::Wait);
}

#[test]
fn the_log_tells_changes_of_state() {
    let (s, _) = begin(false);
    let (s, _) = go(
        s,
        vec![
            Event::StateWritten,
            Event::TunnelReady(info()),
            Event::ProbeDone(true),
            Event::Bound,
        ],
    );
    let (s, _, lines) = s.step(Event::StateWritten, now(0));
    assert_eq!(lines, vec![text("ready: mixed 127.0.0.1:7899 → socks 127.0.0.1:1080")]);
    // a tunnel that answers is not worth a line
    let (s, _, lines) = s.step(Event::Tick, now(0));
    assert!(lines.is_empty());
    let (s, _, lines) = s.step(Event::ProbeDone(true), now(0));
    assert!(lines.is_empty());
    let (s, _) = go(s, vec![Event::Tick, Event::ProbeDone(false), Event::Tick]);
    let (s, _, lines) = s.step(Event::ProbeDone(false), now(0));
    assert_eq!(lines, vec![text("探测连续失败 2 次，进入重连")]);
    let (s, _) = go(
        s,
        vec![
            Event::StateWritten,
            Event::GatewayWaited,
            Event::TunnelReady(info()),
            Event::ProbeDone(true),
        ],
    );
    let (s, _, lines) = s.step(Event::ProbeDone(true), now(0));
    assert_eq!(lines, vec![text("旧 TWFID 重启成功")]);
    let (s, _, lines) = s.step(Event::StateWritten, now(0));
    assert_eq!(lines, vec![text("已恢复 online")]);
    let (s, _, lines) = s.step(Event::TunnelExited(text("exit status: 1")), now(0));
    assert_eq!(lines, vec![text("zju-connect 退出: exit status: 1，隧道断开")]);
    let (s, _) = go(s, vec![Event::StateWritten, Event::GatewayWaited]);
    let (_, _, lines) = s.step(Event::TunnelNotReady(text("x")), now(1_001));
    assert_eq!(
        lines,
        vec![
            text("旧 TWFID 重启失败: x"),
            text("距上次发码不足 3600s,不静默重登 → offline"),
            text("恢复失败 → offline 退出"),
        ]
    );
}

#[test]
fn the_log_tells_how_a_new_session_fared() {
    let (s, _) = old_session_failed(9_000, false);
    let logged_in = Event::LoggedIn { twfid: text("def"), sent_at: 9_000 };
    let (s, _) = go(s, vec![logged_in, Event::TunnelReady(info()), Event::ProbeDone(true)]);
    let (_, _, lines) = s.step(Event::ProbeDone(false), now(0));
    assert_eq!(
        lines,
        vec![text("新 TWFID 重启后验活探测不通"), text("恢复失败 → offline 退出")]
    );
}

#[test]
fn the_log_tells_the_target_of_probes() {
    let (s, _) = begin(false);
    let (s, _) = go(s, vec![Event::StateWritten]);
    let (s, _, lines) = s.step(Event::TunnelReady(info()), now(0));
    assert!(lines.is_empty());
    let (_, _, lines) = s.step(Event::ProbeDone(true), now(0));
    assert_eq!(lines, vec![text("健康检查:穿隧道 SOCKS TCP 探测 VPN DNS 10.0.104.104:53")]);
    let (s, _) = begin(false);
    let (s, _) = go(s, vec![Event::StateWritten, Event::TunnelReady(info())]);
    let (_, _, lines) = s.step(Event::ProbeDone(false), now(0));
    assert_eq!(
        lines,
        vec![text(
            "穿隧道 SOCKS TCP 探针(VPN DNS 10.0.104.104:53)在新隧道上不通,降级为网关直连探测"
        )]
    );
    let (s, _) = begin(false);
    let (s, _) = go(s, vec![Event::StateWritten]);
    let unknown = ReadyInfo { ip: text(""), vpn_dns: None, gateway_ip: None };
    let (_, _, lines) = s.step(Event::TunnelReady(unknown), now(0));
    assert_eq!(
        lines,
        vec![text("未从日志解析到 VPN DNS,健康检查降级为网关直连探测(对隧道假死不敏感)")]
    );
}

#[test]
fn the_log_tells_what_the_transparent_mode_goes_without() {
    let (mut s, _) = begin(true);
    s.core.suffixes.push(text("No/Suffix"));
    let unknown = ReadyInfo { ip: text(""), vpn_dns: None, gateway_ip: None };
    let (s, _) = go(s, vec![Event::StateWritten, Event::TunnelReady(unknown)]);
    let (_, a, lines) = s.step(Event::Guarded, now(0));
    assert_eq!(a, Action::Bind(7899));
    assert_eq!(
        lines,
        vec![
            text("未从日志解析到网关 IP,跳过网关豁免路由(隧道保活可能被回环拖死)"),
            text("未从日志解析到 VPN DNS,健康检查降级为网关直连探测(对隧道假死不敏感)"),
            text("dns_suffixes 含非法项,跳过: No/Suffix"),
            text("未获得可用 VPN DNS,跳过 scoped resolver 配置(域名解析可走 7899 代理)"),
        ]
    );
    // nothing is missing
    let (s, _) = begin(true);
    let (s, _) = go(
        s,
        vec![
            Event::StateWritten,
            Event::TunnelReady(info()),
            Event::Guarded,
            Event::Exempted,
            Event::Pinned,
        ],
    );
    let (_, a, lines) = s.step(Event::ProbeDone(true), now(0));
    assert_eq!(a, Action::DnsSync);
    assert_eq!(lines, vec![text("健康检查:穿隧道 UDP DNS 探测 VPN DNS 10.0.104.104:53")]);
}
