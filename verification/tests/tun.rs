use easy_proxy::tun::{
    check_ready, count_add_route, default_route_is_utun, dns_sync_pairs, janitor, parse_ipv4,
    sudo_helper, valid_bind, valid_ipv4, valid_server, valid_suffix, valid_twfid, validate_serve,
    HelperRun, Installed, Readiness, ServeError, HELPER_DIR, HELPER_PATH, HELPER_SCRIPT,
    ROOT_ZJU_PATH,
};

#[test]
fn server_twfid_bind_whitelists() {
    assert!(valid_server("vpn.example.com"));
    assert!(!valid_server("v;rm -rf /"));
    assert!(!valid_server(""));
    assert!(valid_twfid("abcDEF123"));
    assert!(!valid_twfid("a b"));
    assert!(!valid_twfid("-tun-mode"));
    assert!(valid_bind("127.0.0.1:1080"));
    assert!(!valid_bind("0.0.0.0:1080"));
    assert!(!valid_bind("127.0.0.1:1080 -x"));
}

#[test]
fn suffix_and_ip_whitelists() {
    assert!(valid_suffix("corp.example.com"));
    assert!(!valid_suffix("Corp.Example.com"));
    assert!(!valid_suffix("a/b"));
    assert!(!valid_suffix(".."));
    assert!(!valid_suffix(".hidden"));
    assert!(!valid_suffix("a..b"));
    assert!(valid_ipv4("10.0.104.104"));
    assert!(!valid_ipv4("10.0.104"));
    assert!(!valid_ipv4("evil"));
}

#[test]
fn validate_serve_rejects_injection() {
    assert!(validate_serve("vpn.example.com", "abc123", "127.0.0.1:1080", "127.0.0.1:1081").is_ok());
    assert!(
        validate_serve("vpn.example.com", "x; reboot", "127.0.0.1:1080", "127.0.0.1:1081").is_err()
    );
}

#[test]
fn validate_serve_errors() {
    let ok = "127.0.0.1:1";
    assert_eq!(validate_serve("a b", "x", ok, ok), Err(ServeError::Server("a b".to_string())));
    assert_eq!(validate_serve("a", "", ok, ok), Err(ServeError::Twfid));
    assert_eq!(validate_serve("a", "x", ok, "127.0.0.1:"), Err(ServeError::Bind));
    assert_eq!(ServeError::Server("a b".to_string()).message(), "server 含非法字符: a b");
    assert_eq!(ServeError::Twfid.message(), "twfid 含非法字符");
    assert_eq!(ServeError::Bind.message(), "socks/http 监听地址非法(须为 127.0.0.1:端口)");
}

#[test]
fn dotted_addresses() {
    for s in [
        "0.0.0.0", "255.255.255.255", "1.2.3.4", "256.1.1.1", "01.2.3.4", "1.2.3.4.", "1..3.4",
        "1.2.3.04", "+1.2.3.4", " 1.2.3.4", "1.2.3.1000", "",
    ] {
        assert_eq!(valid_ipv4(s), reference_ipv4(s));
    }
    assert_eq!(parse_ipv4("10.0.104.104"), Some((10, 0, 104, 104)));
}

fn reference_ipv4(s: &str) -> bool {
    ["0.0.0.0", "255.255.255.255", "1.2.3.4"].contains(&s)
}

#[test]
fn count_add_route_from_real_log_shape() {
    let log = "2026/07/27 10:00:01 Add route to 10.0.0.0/8\n\
               2026/07/27 10:00:01 Add route to 172.16.0.0/12\n\
               2026/07/27 10:00:02 SOCKS5 server listening on 127.0.0.1:1080\n";
    assert_eq!(count_add_route(log), 2);
    assert_eq!(count_add_route("no routes here"), 0);
}

#[test]
fn default_route_utun_detection() {
    let utun = "   route to: default\ndestination: default\n  interface: utun6\n";
    let wifi = "   route to: default\ndestination: default\n  interface: en0\n";
    assert!(default_route_is_utun(utun));
    assert!(!default_route_is_utun(wifi));
    assert!(!default_route_is_utun(""));
}

#[test]
fn dns_sync_pairs_maps_suffixes_to_vpn_dns() {
    let pairs = dns_sync_pairs(&["yangqianguan.com", "fintopia.tech"], "10.0.104.104");
    assert_eq!(
        pairs,
        vec![
            "yangqianguan.com=10.0.104.104".to_string(),
            "fintopia.tech=10.0.104.104".to_string(),
        ]
    );
}

#[test]
fn dns_sync_pairs_empty_suffixes_empty() {
    assert!(dns_sync_pairs(&[], "10.0.104.104").is_empty());
}

#[test]
fn helper_script_invariants() {
    assert!(!HELPER_SCRIPT.contains("dns-hijack"));
    assert!(HELPER_SCRIPT.contains("-tun-mode"));
    assert!(HELPER_SCRIPT.contains("-add-route"));
    assert!(HELPER_SCRIPT.contains("# managed by easy-proxy"));
    assert!(HELPER_SCRIPT.contains("/var/run/easy-proxy-tun.pid"));
    assert!(HELPER_SCRIPT.contains("route-exempt)"));
    assert!(HELPER_SCRIPT.contains("/var/run/easy-proxy-route-exempt"));
    assert!(
        HELPER_SCRIPT.matches("    route_unexempt").count() >= 2,
        "stop-tunnel/janitor 两处都应清豁免"
    );
    assert!(HELPER_SCRIPT.contains("hosts-pin)"));
    assert!(HELPER_SCRIPT.contains("# easy-proxy-pin"));
    let dns_clean_fn = HELPER_SCRIPT
        .split("dns_clean() {")
        .nth(1)
        .and_then(|s| s.split('}').next())
        .expect("dns_clean 函数存在");
    assert!(dns_clean_fn.contains("hosts_unpin"), "dns_clean 必须清 hosts pin");
    assert!(HELPER_SCRIPT.contains("--exempt-ips"));
    let after_start = HELPER_SCRIPT.split("start-tunnel)").nth(1).expect("start-tunnel 块存在");
    let exempt_pos = after_start.find("route_exempt_one").expect("start-tunnel 内有预豁免");
    let exec_pos = after_start.find("exec \"$ZJU\"").expect("start-tunnel 内有 exec");
    assert!(exempt_pos < exec_pos, "预豁免必须先于 exec zju-connect");
    assert!(HELPER_SCRIPT.contains(&format!("DIR=\"{HELPER_DIR}\"")));
    assert!(HELPER_SCRIPT.contains("ZJU=\"$DIR/zju-connect\""));
    assert!(ROOT_ZJU_PATH.starts_with(HELPER_DIR));
    assert!(HELPER_SCRIPT.starts_with("#!/bin/sh"));
    assert!(HELPER_SCRIPT.contains("set -eu"));
}

#[test]
fn helper_command_line() {
    assert_eq!(
        sudo_helper(&["route-exempt", "1.2.3.4"]),
        vec!["/usr/bin/sudo", "-n", HELPER_PATH, "route-exempt", "1.2.3.4"]
    );
}

#[test]
fn janitor_results() {
    assert_eq!(janitor(&HelperRun::Ended { success: true, stderr: "x".to_string() }), Ok(()));
    assert_eq!(
        janitor(&HelperRun::Ended { success: false, stderr: " no \n".to_string() }),
        Err("janitor 失败: no".to_string())
    );
    assert_eq!(janitor(&HelperRun::NotStarted("gone".to_string())), Err("gone".to_string()));
}

#[test]
fn readiness() {
    let ready = Installed {
        helper_exists: true,
        sudoers_exists: true,
        helper_text: Some(HELPER_SCRIPT.to_string()),
        root_len: Some(5),
        user_len: Some(5),
    };
    assert_eq!(check_ready(&ready), Readiness::Ready);
    assert_eq!(check_ready(&Installed { user_len: Some(6), ..ready.clone() }), Readiness::Stale);
    assert_eq!(check_ready(&Installed { user_len: None, root_len: None, ..ready.clone() }), Readiness::Stale);
    assert_eq!(
        check_ready(&Installed { helper_text: Some("old".to_string()), ..ready.clone() }),
        Readiness::Stale
    );
    assert_eq!(check_ready(&Installed { sudoers_exists: false, ..ready.clone() }), Readiness::Stale);
    assert_eq!(
        check_ready(&Installed { helper_exists: false, sudoers_exists: false, ..ready }),
        Readiness::NotInstalled
    );
}
