use easy_proxy::capsule::{
    ansi_bg_fg, ansi_fg, columns_set, display_width, error_line, format_capsule, hex_to_rgb, info_line,
    is_private_use, normalize, prompt_char_width, prompt_width, segments, shell_single_quote,
    success_line, terminal_width, truncate, ConnState, Delay, PortSeg, ProxyStatus, Segment,
    ANSI_BOLD_BLUE, ANSI_BOLD_GREEN, ANSI_BOLD_RED, ANSI_RESET,
};
use easy_proxy::config::PromptConfig;

#[test]
fn logo_slot_widths_align() {
    assert_eq!(display_width("✔ "), 2);
    assert_eq!(display_width("✘ "), 2);
    assert_eq!(display_width("• "), 2);
}

#[test]
fn info_line_uses_blue_dot_logo() {
    let p = PromptConfig::default();
    assert_eq!(info_line("连接中…", None, &p), format!("{ANSI_BOLD_BLUE}•{ANSI_RESET} 连接中…"));
}

#[test]
fn tun_port_segment_renders_tun() {
    let p = PromptConfig::default();
    let st = ProxyStatus {
        state: ConnState::Online,
        delay: Delay::Value(12),
        port: Some(PortSeg::Tun),
    };
    let segs = segments(&st, &p);
    assert_eq!(segs.len(), 3);
    assert_eq!(segs[2].value, "tun");
}

#[test]
fn reconnecting_state_renders_yellow_first_segment() {
    let p = PromptConfig::default();
    let st = ProxyStatus {
        state: ConnState::Reconnecting,
        delay: Delay::Hidden,
        port: Some(PortSeg::Num(7899)),
    };
    let segs = segments(&st, &p);
    assert_eq!(segs[0].value, "reconnecting");
    assert_eq!(segs[0].color, "#f8dea6");
    assert_eq!(segs.len(), 2);
    assert_eq!(segs[1].value, "7899");
}

#[test]
fn online_and_offline_states_unchanged() {
    let p = PromptConfig::default();
    let on = segments(
        &ProxyStatus {
            state: ConnState::Online,
            delay: Delay::Value(42),
            port: Some(PortSeg::Num(7899)),
        },
        &p,
    );
    assert_eq!(on[0].value, "online");
    assert_eq!(on.len(), 3);
    let off = segments(
        &ProxyStatus { state: ConnState::Offline, delay: Delay::Hidden, port: None },
        &p,
    );
    assert_eq!(off[0].value, "offline");
    assert_eq!(off.len(), 1);
}

#[test]
fn delay_segment_texts() {
    let p = PromptConfig::default();
    let value = segments(
        &ProxyStatus { state: ConnState::Online, delay: Delay::Value(42), port: None },
        &p,
    );
    assert_eq!(value[1].value, "42ms");
    let timeout = segments(
        &ProxyStatus { state: ConnState::Online, delay: Delay::Timeout, port: None },
        &p,
    );
    assert_eq!(timeout[1].value, "timeout");
}

#[test]
fn widths_of_characters() {
    assert_eq!(prompt_char_width('a'), 1);
    assert_eq!(prompt_char_width('中'), 2);
    assert_eq!(prompt_char_width('\n'), 0);
    assert_eq!(prompt_char_width('\u{e0b6}'), 2);
    assert_eq!(prompt_char_width('…'), 1);
    assert!(is_private_use('\u{f0318}'));
    assert!(!is_private_use('a'));
    assert_eq!(prompt_width("a中\u{e0b6}"), 5);
    assert_eq!(display_width("中文"), 4);
    assert_eq!(display_width("…"), 1);
}

#[test]
fn normalize_squeezes_white_space() {
    assert_eq!(normalize("  a \t b\nc  "), "a b c");
    assert_eq!(normalize(" \u{3000} "), "");
}

#[test]
fn truncate_marks_what_is_cut() {
    assert_eq!(truncate("abcdef", 6), "abcdef");
    assert_eq!(truncate("abcdef", 4), "abc…");
    assert_eq!(truncate("中文字", 4), "中…");
    assert_eq!(truncate("abcdef", 1), "…");
    assert_eq!(truncate("abcdef", 0), "");
}

#[test]
fn fit_stays_within_its_columns() {
    let seg = Segment::new("icon", "a rather long value", "#a6e3a1");
    assert_eq!(seg.width, 26);
    let fitted = seg.fit(12);
    assert_eq!(fitted.icon, "icon");
    assert_eq!(fitted.value, "a ra…");
    assert_eq!(fitted.width, 12);
    assert_eq!(seg.fit(26).value, "a rather long value");
    assert_eq!(seg.fit(3).width, 3);
}

#[test]
fn colours() {
    assert_eq!(hex_to_rgb("#a6e3a1"), Some((166, 227, 161)));
    assert_eq!(hex_to_rgb("11111B"), Some((17, 17, 27)));
    assert_eq!(hex_to_rgb("#+f0000"), Some((15, 0, 0)));
    assert_eq!(hex_to_rgb("#12345"), None);
    assert_eq!(hex_to_rgb("#12345g"), None);
    assert_eq!(ansi_fg("#010203"), "\x1b[38;2;1;2;3m");
    assert_eq!(ansi_fg("?"), "\x1b[38;2;205;214;244m");
    assert_eq!(ansi_bg_fg("#010203", "#040506"), "\x1b[48;2;1;2;3m\x1b[38;2;4;5;6m");
    assert_eq!(ansi_bg_fg("?", "?"), "\x1b[48;2;49;50;68m\x1b[38;2;17;17;27m");
}

#[test]
fn offline_capsule_text() {
    let p = PromptConfig {
        online_icon: None,
        offline_icon: Some("x".to_string()),
        reconnecting_icon: None,
        delay_icon: None,
        port_icon: None,
    };
    let st = ProxyStatus { state: ConnState::Offline, delay: Delay::Hidden, port: None };
    let fg = "\x1b[38;2;108;112;134m";
    let body = "\x1b[48;2;108;112;134m\x1b[38;2;17;17;27m x offline ";
    assert_eq!(
        format_capsule(&st, &p, 80, 0),
        format!("{fg}\u{e0b6}{body}{ANSI_RESET}{fg}\u{e0b4}{ANSI_RESET}")
    );
    assert_eq!(p.online(), "󰌘");
}

#[test]
fn narrow_terminals_break_the_capsule() {
    let p = PromptConfig::default();
    let st = ProxyStatus {
        state: ConnState::Reconnecting,
        delay: Delay::Hidden,
        port: Some(PortSeg::Num(7899)),
    };
    assert_eq!(format_capsule(&st, &p, 80, 0).split('\n').count(), 1);
    assert_eq!(format_capsule(&st, &p, 1, 0).split('\n').count(), 2);
    // what is taken before the capsule pushes it to a line of its own
    let pushed = format_capsule(&st, &p, 20, 15);
    assert!(pushed.starts_with('\n'));
    assert_eq!(pushed.split('\n').count(), 3);
    assert!(format_capsule(&st, &p, 20, usize::MAX).starts_with('\n'));
}

#[test]
fn message_lines() {
    let p = PromptConfig::default();
    assert_eq!(success_line("好", None, &p), format!("{ANSI_BOLD_GREEN}✔{ANSI_RESET} 好"));
    assert_eq!(error_line("坏", None, &p), format!("{ANSI_BOLD_RED}✘{ANSI_RESET} 坏"));
    let st = ProxyStatus { state: ConnState::Offline, delay: Delay::Hidden, port: None };
    let line = success_line("已断开", Some((st, 80)), &p);
    let capsule = format_capsule(&st, &p, 80, display_width("已断开") + 3);
    assert_eq!(line, format!("{ANSI_BOLD_GREEN}✔{ANSI_RESET} 已断开 {capsule}"));
}

#[test]
fn terminal_width_sources() {
    assert_eq!(columns_set(Some("120")), Some(120));
    assert_eq!(columns_set(Some("0")), None);
    assert_eq!(columns_set(Some("wide")), None);
    assert_eq!(columns_set(None), None);
    assert_eq!(terminal_width(Some("120"), Some("90")), 120);
    assert_eq!(terminal_width(Some("0"), Some(" 90\n")), 90);
    assert_eq!(terminal_width(Some("wide"), None), 80);
    assert_eq!(terminal_width(None, Some("0")), 0);
    assert_eq!(terminal_width(None, None), 80);
    assert_eq!(terminal_width(Some("99999999999999999999999"), None), 80);
}

#[test]
fn quoting_for_the_shell() {
    assert_eq!(shell_single_quote("it's"), "'it'\\''s'");
    assert_eq!(shell_single_quote(""), "''");
    assert_eq!(shell_single_quote("$(rm) \"x\""), "'$(rm) \"x\"'");
}
