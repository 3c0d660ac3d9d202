use easy_proxy::daemon::{
    beforehand_line, check_interval, first_found, found_or_empty, http_upstream_port, is_route_event, parse_gateway_ip,
    parse_vpn_dns, probe, probe_step, ready_info, relay, resolve_gateway_ips, send_update_session,
    session_updated, sync_lines, tun_dns_sync, tun_guardrails, tun_hosts_pin, tun_route_exempt,
    tunnel_command, wait_gateway_reachable, wait_socks_ready, zju_args, GatewayEvent, GatewayStep,
    GuardError, ProbePlan, ProbeStep, ReadyPoll, ServeArgs, READY_WINDOW,
};
use easy_proxy::config::tail_start;
use easy_proxy::tun::{ServeError, HELPER_PATH};
use easy_proxy::words::{path_word, plain_words, word, Arg};

fn args(tun: bool) -> ServeArgs {
    ServeArgs {
        twfid: "abc123".to_string(),
        server: "vpn.example.com".to_string(),
        https_port: 443,
        mixed_port: 7899,
        socks: "127.0.0.1:1080".to_string(),
        http: "127.0.0.1:1081".to_string(),
        last_sms_sent: 0,
        tun,
    }
}

fn owned(v: &[&str]) -> Vec<String> {
    v.iter().map(|s| s.to_string()).collect()
}

#[test]
fn route_event_lines_detected() {
    assert!(is_route_event("RTM_NEWADDR: address being added to iface: len 176"));
    assert!(is_route_event("RTM_DELADDR: address being removed from iface: len 176"));
    assert!(is_route_event("RTM_IFINFO: iface status change: len 168, if# 12"));
    assert!(!is_route_event(
        "RTM_ADD: Add Route: len 140, pid: 726, seq 155420, errno 0, flags:<HOST,DONE,STATIC>"
    ));
    assert!(!is_route_event("RTM_DELETE: Delete Route: len 172"));
    assert!(!is_route_event("RTM_GET: Report Metrics: len 140"));
    assert!(!is_route_event("got message of size 176 on Wed Jul 23 15:30:00 2026"));
    assert!(!is_route_event(" locks:  inits: "));
    assert!(!is_route_event("sockaddrs: <DST,GATEWAY,NETMASK>"));
    assert!(!is_route_event(""));
}

#[test]
fn parse_vpn_dns_from_real_log() {
    let log = "2026/07/23 15:30:03 Client IP: 2.0.1.6\n\
               2026/07/23 15:30:03 Use DNS server 10.0.104.104 provided by server\n\
               2026/07/23 15:30:03 SOCKS5 server listening on 127.0.0.1:1080\n";
    assert_eq!(parse_vpn_dns(log), Some("10.0.104.104".to_string()));
}

#[test]
fn parse_vpn_dns_set_variant() {
    let log = "2026/07/23 15:30:03 Set DNS server: 10.10.0.21\n";
    assert_eq!(parse_vpn_dns(log), Some("10.10.0.21".to_string()));
}

#[test]
fn parse_vpn_dns_absent_is_none() {
    assert_eq!(parse_vpn_dns("SOCKS5 server listening on 127.0.0.1:1080"), None);
}

#[test]
fn parse_gateway_ip_from_real_log() {
    let log = "2026/07/28 23:30:14 Socket: connected to: 111.207.219.226:443\n\
               2026/07/28 23:30:14 TLS: connected to: 111.207.219.226:443\n\
               2026/07/28 23:30:14 Client IP: 2.0.1.54\n";
    assert_eq!(parse_gateway_ip(log), Some("111.207.219.226".to_string()));
    assert_eq!(parse_gateway_ip("no socket line here"), None);
}

#[test]
fn ready_window_covers_tun_route_burst() {
    let mut log = String::from(
        "2026/07/27 20:02:12 Client IP: 2.0.1.24\n\
         2026/07/27 20:02:12 Use DNS server 10.0.104.104 provided by server\n",
    );
    for i in 0..2000 {
        log.push_str(&format!(
            "2026/07/27 20:02:12 Add route to 10.{}.{}.0/24\n",
            i / 256,
            i % 256
        ));
    }
    log.push_str("2026/07/27 20:02:13 SOCKS5 server listening on 127.0.0.1:1080\n");
    assert_eq!(READY_WINDOW, 512 * 1024);
    let start = tail_start(log.len() as u64, 512 * 1024) as usize;
    let text = &log[start..];
    assert!(text.contains("SOCKS5 server listening"));
    assert_eq!(ready_info(text).ip, "2.0.1.24");
    assert_eq!(parse_vpn_dns(text), Some("10.0.104.104".to_string()));
    assert_eq!(
        wait_socks_ready(None, text, "", 0, 30_000),
        ReadyPoll::Ready(ready_info(text))
    );
}

#[test]
fn http_upstream_port_parses_and_falls_back() {
    assert_eq!(http_upstream_port("127.0.0.1:1081"), 1081);
    assert_eq!(http_upstream_port("127.0.0.1:1234"), 1234);
    assert_eq!(http_upstream_port("garbage"), 1081);
}

#[test]
fn http_upstream_port_edges() {
    assert_eq!(http_upstream_port("[::1]:80"), 80);
    assert_eq!(http_upstream_port("127.0.0.1:65536"), 1081);
    assert_eq!(http_upstream_port("127.0.0.1:"), 1081);
    assert_eq!(http_upstream_port("4321"), 4321);
}

#[test]
fn socks_first_byte_routes_to_socks_upstream() {
    assert_eq!(relay(&[0x05], "socks", "http"), Some("socks".to_string()));
}

#[test]
fn http_first_byte_routes_to_http_upstream() {
    assert_eq!(relay(b"G", "socks", "http"), Some("http".to_string()));
}

#[test]
fn a_connection_that_sends_nothing_goes_nowhere() {
    assert_eq!(relay(&[], "socks", "http"), None);
}

#[test]
fn ready_information() {
    let info = ready_info("your IP: 2.0.1.9\nSocket: connected to: 1.2.3.4:443\n");
    assert_eq!(info.ip, "2.0.1.9");
    assert_eq!(info.vpn_dns, None);
    assert_eq!(info.gateway_ip, Some("1.2.3.4".to_string()));
    assert_eq!(ready_info("your IP: 2.0.1.9 Client IP: 2.0.1.8").ip, "2.0.1.8");
    assert_eq!(ready_info("").ip, "");
    assert_eq!(first_found(None, Some("b".to_string())), Some("b".to_string()));
    assert_eq!(
        first_found(Some("a".to_string()), Some("b".to_string())),
        Some("a".to_string())
    );
    assert_eq!(found_or_empty(None), "");
}

#[test]
fn waiting_for_the_tunnel() {
    assert_eq!(
        wait_socks_ready(Some("exit status: 1"), "SOCKS5 server listening", "tail", 0, 9),
        ReadyPoll::Failed("zju-connect 启动即退出 (exit status: 1)\ntail".to_string())
    );
    assert_eq!(
        wait_socks_ready(None, "nothing", "tail", 9, 9),
        ReadyPoll::Failed("等待 zju-connect SOCKS 就绪超时\ntail".to_string())
    );
    assert_eq!(wait_socks_ready(None, "nothing", "tail", 8, 9), ReadyPoll::Sleep(300));
}

#[test]
fn waiting_for_the_network() {
    assert_eq!(
        wait_gateway_reachable(GatewayEvent::Round { shutdown: false }, 30_000),
        GatewayStep::Connect(3000)
    );
    assert_eq!(
        wait_gateway_reachable(GatewayEvent::Round { shutdown: true }, 30_000),
        GatewayStep::Done
    );
    let tried = |connected, elapsed_ms| GatewayEvent::Tried { connected, elapsed_ms };
    assert_eq!(wait_gateway_reachable(tried(true, 0), 30_000), GatewayStep::Done);
    assert_eq!(wait_gateway_reachable(tried(false, 30_000), 30_000), GatewayStep::Done);
    assert_eq!(wait_gateway_reachable(tried(false, 29_999), 30_000), GatewayStep::Sleep(2000));
}

#[test]
fn checks_are_at_least_a_second_apart() {
    assert_eq!(check_interval(0), 1);
    assert_eq!(check_interval(60), 60);
}

#[test]
fn tunnel_command_lines() {
    let a = args(false);
    let mut expect = vec![path_word(b"/bin/zju")];
    expect.extend(plain_words(zju_args(&a)));
    assert_eq!(tunnel_command(b"/bin/zju", &a, "abc123", &[]).unwrap(), expect);
    let other = tunnel_command(b"/bin/zju", &a, "def", &[]).unwrap();
    assert_eq!(&other[5..7], &[word("-twf-id"), word("def")]);
    // a path need not be text
    assert_eq!(tunnel_command(b"/\xff", &a, "def", &[]).unwrap()[0], Arg::Path(vec![47, 255]));
    let tun =
        tunnel_command(b"/bin/zju", &args(true), "abc123", &owned(&["1.2.3.4", "5.6.7.8"]));
    let tun = tun.unwrap();
    assert_eq!(
        &tun[..4],
        &[word("/usr/bin/sudo"), word("-n"), word(HELPER_PATH), word("start-tunnel")]
    );
    assert!(tun.contains(&word("1.2.3.4,5.6.7.8")));
    assert_eq!(
        tunnel_command(b"/bin/zju", &args(true), "a b", &[]),
        Err(ServeError::Twfid)
    );
}

#[test]
fn a_probe_has_two_tries() {
    let once_more = ProbeStep::Try { timeout_ms: 3000 };
    assert_eq!(probe_step(0, false), once_more);
    assert_eq!(probe_step(1, true), ProbeStep::Done(true));
    assert_eq!(probe_step(1, false), once_more);
    assert_eq!(probe_step(2, true), ProbeStep::Done(true));
    assert_eq!(probe_step(2, false), ProbeStep::Done(false));
}

#[test]
fn gateway_addresses_are_sorted_once() {
    assert_eq!(
        resolve_gateway_ips(&owned(&["9.9.9.9", "::1", "1.2.3.4", "9.9.9.9"])),
        owned(&["1.2.3.4", "9.9.9.9"])
    );
}

#[test]
fn guard_rails() {
    let routes = "Add route to 10.0.0.0/8\n";
    assert_eq!(tun_guardrails("", None), Err(GuardError::NoRoutes));
    assert_eq!(tun_guardrails(routes, Some("interface: utun6\n")), Err(GuardError::DefaultRoute));
    assert_eq!(tun_guardrails(routes, Some("interface: en0\n")), Ok(()));
    assert_eq!(tun_guardrails(routes, None), Ok(()));
    assert_ne!(GuardError::NoRoutes.message(), GuardError::DefaultRoute.message());
}

#[test]
fn exemption_pin_and_resolver() {
    let ip = Some("1.2.3.4".to_string());
    assert_eq!(tun_route_exempt(&ip), ip);
    assert_eq!(tun_route_exempt(&Some("1.2.3".to_string())), None);
    assert_eq!(tun_route_exempt(&None), None);
    assert_eq!(tun_hosts_pin(&ip, "vpn.example.com"), ip);
    assert_eq!(tun_hosts_pin(&ip, "9.9.9.9"), None);
    assert_eq!(tun_hosts_pin(&None, "vpn.example.com"), None);
    assert_eq!(
        tun_dns_sync(&owned(&["corp.example.com"]), &Some("10.0.0.1".to_string())),
        Some(owned(&["corp.example.com=10.0.0.1"]))
    );
    assert_eq!(tun_dns_sync(&[], &Some("10.0.0.1".to_string())), None);
    assert_eq!(tun_dns_sync(&owned(&["corp.example.com"]), &None), None);
}

#[test]
fn session_renewal() {
    let argv = send_update_session("vpn.example.com", 4430, "abc");
    assert_eq!(argv[0], "/usr/bin/curl");
    assert!(argv.contains(&"Cookie: TWFID=abc".to_string()));
    assert_eq!(
        argv[argv.len() - 1],
        "https://vpn.example.com:4430/por/update_session.csp?apiversion=1&twfid=abc"
    );
    assert!(session_updated(" 200\n"));
    assert!(!session_updated("302"));
}

#[test]
fn probes_by_mode() {
    let dns = Some("10.0.104.104".to_string());
    assert_eq!(
        probe(&args(false), &dns),
        ProbePlan::Socks { addr: "127.0.0.1:1080".to_string(), ip: (10, 0, 104, 104), port: 53 }
    );
    assert_eq!(
        probe(&args(false), &None),
        ProbePlan::Curl { port: 1081, server: "vpn.example.com".to_string() }
    );
    assert_eq!(
        probe(&args(true), &dns),
        ProbePlan::UdpDns {
            ip: (10, 0, 104, 104),
            port: 53,
            qname: "vpn.example.com".to_string()
        }
    );
    assert_eq!(
        probe(&args(true), &Some("junk".to_string())),
        ProbePlan::Direct { host: "vpn.example.com".to_string(), port: 443 }
    );
}

#[test]
fn lines_on_addresses_and_suffixes() {
    assert_eq!(
        beforehand_line(&owned(&["1.2.3.4", "5.6.7.8"])),
        "启动前预豁免网关 IP: 1.2.3.4,5.6.7.8"
    );
    assert_eq!(
        beforehand_line(&[]),
        "启动前解析网关 IP 失败,跳过预豁免(隧道可能踩启动竞态)"
    );
    let dns = Some("10.0.0.1".to_string());
    assert!(sync_lines(&owned(&["corp.example.com"]), &dns).is_empty());
    assert!(sync_lines(&[], &None).is_empty());
    // without a suffix that could be served, a missing server is not worth a line
    assert_eq!(
        sync_lines(&owned(&["..", "a/b"]), &None),
        owned(&["dns_suffixes 含非法项,跳过: ..", "dns_suffixes 含非法项,跳过: a/b"])
    );
    assert_eq!(
        sync_lines(&owned(&["corp.example.com"]), &Some("junk".to_string())),
        owned(&["未获得可用 VPN DNS,跳过 scoped resolver 配置(域名解析可走 7899 代理)"])
    );
}
