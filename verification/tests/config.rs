use easy_proxy::config::{
    now_unix, seconds_or_zero, tail_start, AppConfig, Mode, NoHome, Paths, Phase, PromptConfig,
    RuntimeState,
};

#[test]
fn phase_default_is_reconnecting() {
    assert_eq!(Phase::default(), Phase::Reconnecting);
}

#[test]
fn appconfig_defaults_present() {
    let c = AppConfig::default();
    assert_eq!(c.healthcheck_interval, 60);
    assert_eq!(c.healthcheck_fail_threshold, 2);
    assert_eq!(c.silent_relogin_interval, 3600);
}

#[test]
fn other_defaults() {
    let c = AppConfig::default();
    assert_eq!(c.port, 443);
    assert_eq!(c.mixed_port, 7899);
    assert_eq!(c.sms_retries, 1);
    assert_eq!(c.sms_retry_interval_secs, 30);
    assert!(c.sms_command.is_none());
    assert!(c.tun.dns_suffixes.is_empty());
    assert_eq!(Mode::default(), Mode::Proxy);
    let st = RuntimeState::default();
    assert_eq!(st.phase, Phase::Reconnecting);
    assert_eq!(st.mode, Mode::Proxy);
    assert_eq!(st.last_sms_sent, None);
    assert_eq!(st.vpn_dns, None);
    let p = PromptConfig::default();
    assert_eq!(p.online(), "󰌘");
    assert_eq!(p.offline(), "󰌙");
    assert_eq!(p.reconnecting(), "󰑐");
    assert_eq!(p.delay(), "󱎫");
    assert_eq!(p.port(), "󰤨");
}

#[test]
fn read_tail_bytes_returns_only_suffix() {
    let text = "0123456789ABCDEF";
    let start = tail_start(text.len() as u64, 4) as usize;
    assert_eq!(&text[start..], "CDEF");
}

#[test]
fn read_tail_bytes_shorter_than_max_ok() {
    let text = "abc";
    let start = tail_start(text.len() as u64, 100) as usize;
    assert_eq!(&text[start..], "abc");
}

#[test]
fn paths_layout_config_data_state_cache() {
    let p = Paths::new().unwrap();
    assert!(p.app_config.ends_with(b".config/easy-proxy/config.yaml"));
    assert!(p.zju_bin.ends_with(b".local/share/easy-proxy/zju-connect"));
    assert!(p.completion_file.ends_with(b".local/share/easy-proxy/_easy-proxy"));
    assert!(p.completion_link.ends_with(b".local/share/zsh/site-functions/_easy-proxy"));
    assert!(p.state.ends_with(b".local/state/easy-proxy/state.json"));
    assert!(p.cookies.ends_with(b".local/state/easy-proxy/.cookies"));
    assert!(p.daemon_log.ends_with(b".local/state/easy-proxy/daemon.log"));
    assert!(p.tunnel_log.ends_with(b".local/state/easy-proxy/tunnel.log"));
    assert!(p.silent_cookies.ends_with(b".cache/easy-proxy/silent.cookies"));
}

#[test]
fn paths_below_a_home() {
    let p = Paths::at(Some(b"/home/u".to_vec())).unwrap();
    assert_eq!(p.app_config, b"/home/u/.config/easy-proxy/config.yaml");
    assert_eq!(p.zshrc, b"/home/u/.zshrc");
    assert_ne!(p.silent_cookies, p.cookies);
    let root = Paths::at(Some(b"/".to_vec())).unwrap();
    assert_eq!(root.state_dir, b"/.local/state/easy-proxy");
    let odd = Paths::at(Some(vec![47, 255])).unwrap();
    assert_eq!(odd.zshrc, b"/\xff/.zshrc");
    let err = Paths::at(None).unwrap_err();
    assert_eq!(err, NoHome);
    assert_eq!(err.message(), "无法定位 HOME");
}

#[test]
fn clock_readings() {
    assert_eq!(seconds_or_zero(Some(7)), 7);
    assert_eq!(seconds_or_zero(None), 0);
    assert!(now_unix() > 1_500_000_000);
}

#[test]
fn sms_command_is_trimmed() {
    let mut c = AppConfig::default();
    assert_eq!(c.sms_command_text(), None);
    c.sms_command = Some("  \n".to_string());
    assert_eq!(c.sms_command_text(), None);
    c.sms_command = Some("  echo 1 ".to_string());
    assert_eq!(c.sms_command_text(), Some("echo 1".to_string()));
}
