use easy_proxy::capsule::{display_width, success_line, ConnState, Delay, PortSeg};
use easy_proxy::cli::{
    capsule_from, cmd_disconnect, cmd_port, cmd_restart, cmd_start, cmd_status, cmd_stop,
    connected_state, daemon_sleep, emit_shell_error, esc_pressed, finish_text, foreign_proxy_name,
    obtain_twfid, port_seg, probe_wanted,
    progress_text, run, runtime_capsule, sleep_cancelable, sms_sent_line,
    spinner_frame, top_error, typed_code_ok, wait_sms_file, Command, EnvValue, FilePoll,
    ObtainAction, ObtainEvent, ObtainJob, ObtainStage, ProxySet, SleepStep,
    SPINNER_FRAMES,
};
use easy_proxy::config::{AppConfig, Mode, Phase, PromptConfig, RuntimeState};
use easy_proxy::connect::{cmd_connect, ConnectAction, ConnectEvent, ConnectJob, ConnectStage};
use easy_proxy::tun::Readiness;

fn text(s: &str) -> String {
    s.to_string()
}

#[test]
fn spinner_frame_cycles() {
    assert_eq!(spinner_frame(0), SPINNER_FRAMES[0]);
    assert_eq!(spinner_frame(10), SPINNER_FRAMES[0]);
    assert_eq!(spinner_frame(11), SPINNER_FRAMES[1]);
}

#[test]
fn progress_logo_aligns_with_result_markers() {
    for f in SPINNER_FRAMES {
        assert_eq!(display_width(&format!("{f} ")), 2, "帧 {f} 不是单字宽");
    }
    assert_eq!(display_width("› "), 2);
    assert_eq!(display_width("✔ "), 2);
    assert_eq!(display_width("✘ "), 2);
}

#[test]
fn capsule_online_with_probe_alive_shows_delay() {
    let c = capsule_from(Phase::Online, Delay::Value(42), PortSeg::Num(7899));
    assert_eq!(c.state, ConnState::Online);
    assert_eq!(c.delay, Delay::Value(42));
    assert_eq!(c.port, Some(PortSeg::Num(7899)));
}

#[test]
fn capsule_online_but_probe_dead_shows_reconnecting_without_delay() {
    let c = capsule_from(Phase::Online, Delay::Timeout, PortSeg::Num(7899));
    assert_eq!(c.state, ConnState::Reconnecting);
    assert_eq!(c.delay, Delay::Hidden);
    assert_eq!(c.port, Some(PortSeg::Num(7899)));
}

#[test]
fn capsule_reconnecting_phase_never_shows_delay() {
    let c = capsule_from(Phase::Reconnecting, Delay::Value(10), PortSeg::Num(7899));
    assert_eq!(c.state, ConnState::Reconnecting);
    assert_eq!(c.delay, Delay::Hidden);
}

#[test]
fn capsule_of_a_state() {
    let mut st = RuntimeState::default();
    st.port = 7899;
    st.phase = Phase::Online;
    assert_eq!(port_seg(&st), PortSeg::Num(7899));
    st.mode = Mode::Tun;
    assert_eq!(runtime_capsule(&st, Delay::Value(3)).port, Some(PortSeg::Tun));
    assert!(probe_wanted(&st));
    assert!(connected_state(Some(&st), true).is_some());
    assert!(connected_state(Some(&st), false).is_none());
    st.phase = Phase::Reconnecting;
    assert!(!probe_wanted(&st));
    assert!(connected_state(Some(&st), true).is_none());
}

#[test]
fn lines_under_way() {
    assert_eq!(progress_text(false, "  x", 3), "  x");
    assert_eq!(
        progress_text(true, "  x", 10),
        format!("\r\x1b[2K\x1b[1;38;2;137;180;250m{}\x1b[0m x", SPINNER_FRAMES[0])
    );
    assert_eq!(finish_text(true, " x"), "\r\x1b[2K x");
    assert_eq!(finish_text(false, " x"), " x");
}

#[test]
fn the_escape_key() {
    assert!(esc_pressed(&[0x1b]));
    assert!(esc_pressed(b"a\x1b"));
    assert!(esc_pressed(b"\x1bx"));
    assert!(!esc_pressed(b"\x1b[A"));
    assert!(!esc_pressed(b"\x1bOA"));
    assert!(!esc_pressed(b""));
}

#[test]
fn waits_that_can_be_cancelled() {
    assert_eq!(sleep_cancelable(true, 9, 5), SleepStep::Over { cancelled: true });
    assert_eq!(sleep_cancelable(false, 5, 5), SleepStep::Over { cancelled: false });
    assert_eq!(sleep_cancelable(false, 4, 5), SleepStep::Sleep(120));
    assert_eq!(daemon_sleep(true, 5, 5), SleepStep::Over { cancelled: false });
    assert_eq!(daemon_sleep(true, 4, 5), SleepStep::Over { cancelled: true });
    assert_eq!(daemon_sleep(false, 4, 5), SleepStep::Sleep(120));
}

#[test]
fn codes_from_a_file() {
    assert_eq!(wait_sms_file(Some(" 1234\n"), 0), FilePoll::Code(text("1234")));
    assert_eq!(wait_sms_file(Some("x"), 0), FilePoll::Sleep(500));
    assert_eq!(wait_sms_file(None, 180_000), FilePoll::TimedOut);
    assert!(typed_code_ok(" 123456 "));
    assert!(!typed_code_ok("12"));
}

#[test]
fn commands_that_need_a_configuration() {
    assert!(run(Command::Connect { relogin: false, tun: false }));
    assert!(!run(Command::Install));
    assert!(top_error("boom").contains("boom"));
}

fn obtain_job(file: Option<&str>, command: Option<&str>) -> ObtainJob {
    ObtainJob {
        phone: text("138****8000"),
        sms_file: file.map(text),
        command: command.map(text),
        prompt: PromptConfig::default(),
    }
}

#[test]
fn a_code_is_taken_at_most_three_times() {
    let job = obtain_job(None, Some("cmd"));
    let p = PromptConfig::default();
    let (at, a) = obtain_twfid(&job, ObtainStage::Start, ObtainEvent::Begin);
    assert_eq!(a, ObtainAction::Show(success_line("短信验证码已发送至 138****8000", None, &p)));
    let (at, a) = obtain_twfid(&job, at, ObtainEvent::Shown);
    assert_eq!(a, ObtainAction::Fetch(text("cmd")));
    let (mut at, a) = obtain_twfid(&job, at, ObtainEvent::Fetched(None));
    assert_eq!(a, ObtainAction::AskCode);
    for left in ["2", "1", "0"] {
        let (next, a) = obtain_twfid(&job, at, ObtainEvent::Code(text("1234")));
        assert_eq!(a, ObtainAction::Submit(text("1234")));
        let (next, a) = obtain_twfid(&job, next, ObtainEvent::Rejected(text("no")));
        let line = format!("验证码错误（no），剩余 {left} 次");
        assert!(matches!(&a, ObtainAction::Show(m) if m.contains(&line)));
        let (next, a) = obtain_twfid(&job, next, ObtainEvent::Shown);
        if left == "0" {
            assert_eq!(a, ObtainAction::Fail(text("验证码连续 3 次错误")));
        } else {
            assert_eq!(a, ObtainAction::AskCode);
        }
        at = next;
    }
    assert_eq!(at, ObtainStage::Done);
}

#[test]
fn a_named_file_goes_first() {
    let job = obtain_job(Some("/tmp/code"), Some("cmd"));
    let (at, _) = obtain_twfid(&job, ObtainStage::Start, ObtainEvent::Begin);
    let (at, a) = obtain_twfid(&job, at, ObtainEvent::Shown);
    assert_eq!(a, ObtainAction::ReadFile(text("/tmp/code")));
    let (at, _) = obtain_twfid(&job, at, ObtainEvent::Code(text("1234")));
    let (_, a) = obtain_twfid(&job, at, ObtainEvent::Accepted(text("abc")));
    assert_eq!(a, ObtainAction::Return(text("abc")));
}

#[test]
fn other_ends_of_obtaining() {
    let job = obtain_job(None, None);
    assert!(!sms_sent_line("", &PromptConfig::default()).contains("至"));
    let (at, a) = obtain_twfid(&job, ObtainStage::Heading, ObtainEvent::Shown);
    assert_eq!(a, ObtainAction::AskCode);
    let (_, a) = obtain_twfid(&job, at, ObtainEvent::NoCode(text("x")));
    assert_eq!(a, ObtainAction::Fail(text("x")));
    let (_, a) = obtain_twfid(&job, ObtainStage::Fetching, ObtainEvent::FetchFailed(text("y")));
    assert_eq!(a, ObtainAction::Fail(text("y")));
    let submitting = ObtainStage::Submitting { by_hand: true, attempt: 1 };
    let (_, a) = obtain_twfid(&job, submitting, ObtainEvent::SubmitFailed(text("z")));
    assert_eq!(a, ObtainAction::Fail(text("z")));
}

#[test]
fn proxies_of_other_tools() {
    assert_eq!(foreign_proxy_name(&EnvValue::Absent), None);
    assert_eq!(foreign_proxy_name(&EnvValue::Text(String::new())), None);
    assert_eq!(foreign_proxy_name(&EnvValue::Text(text("easy"))), None);
    assert_eq!(foreign_proxy_name(&EnvValue::Text(text("clash"))), Some(text("clash")));
    assert_eq!(foreign_proxy_name(&EnvValue::NotText), Some(text("<非文本值>")));
}

#[test]
fn starting_and_stopping_in_a_shell() {
    let p = PromptConfig::default();
    let easy = EnvValue::Absent;
    let free = ProxySet { http_proxy: false, https_proxy: false, all_proxy: false };
    assert!(!free.occupied());
    assert!(ProxySet { http_proxy: true, ..free }.occupied());
    assert!(ProxySet { https_proxy: true, ..free }.occupied());
    let clash = EnvValue::Text(text("clash"));
    let on = cmd_start(&easy, Some(7899), free, &p, 80);
    assert_eq!(
        &on[..6],
        &[
            text("export http_proxy=http://127.0.0.1:7899"),
            text("export https_proxy=http://127.0.0.1:7899"),
            text("export all_proxy=socks5://127.0.0.1:7899"),
            text("export no_proxy=localhost,127.0.0.1"),
            text("export CORP_PROXY=http://127.0.0.1:7899"),
            text("export proxy_name=easy"),
        ]
    );
    assert!(on[6].starts_with("echo '"));
    let refused = emit_shell_error("proxy_name 当前为 clash，非 easy，拒绝操作", &p);
    assert_eq!(refused[1], "return 1 2>/dev/null || exit 1");
    assert_eq!(cmd_start(&clash, Some(7899), free, &p, 80), refused);
    assert_eq!(
        cmd_start(&easy, None, free, &p, 80),
        emit_shell_error("未连接，请先执行 easy-proxy connect", &p)
    );
    assert_eq!(
        cmd_start(&easy, Some(7899), ProxySet { all_proxy: true, ..free }, &p, 80),
        emit_shell_error("环境变量被占用，请先执行 easy-proxy stop", &p)
    );
    let off = cmd_stop(&easy, false, &p);
    assert_eq!(off[0], "unset http_proxy https_proxy all_proxy no_proxy CORP_PROXY proxy_name");
    assert_eq!(cmd_stop(&clash, false, &p), refused);
    assert_eq!(cmd_stop(&clash, true, &p), off);
    assert_eq!(cmd_restart(&clash, false, Some(7899), &p, 80), refused);
    assert_eq!(&cmd_restart(&clash, true, Some(7899), &p, 80)[..6], &on[..6]);
    assert_eq!(
        cmd_restart(&easy, false, None, &p, 80),
        emit_shell_error("未连接，请先执行 easy-proxy connect", &p)
    );
    assert_eq!(cmd_disconnect(&p, 80)[0], off[0]);
}

#[test]
fn printed_messages_are_quoted() {
    let lines = emit_shell_error("it's $(here)", &PromptConfig::default());
    assert!(lines[0].ends_with("it'\\''s $(here)'"));
}

#[test]
fn status_and_port() {
    let p = PromptConfig::default();
    assert!(cmd_status(None, &p, 80).contains("offline"));
    let mut st = RuntimeState::default();
    st.phase = Phase::Online;
    st.port = 7899;
    assert!(cmd_status(Some((&st, Delay::Value(5))), &p, 80).contains("5ms"));
    assert!(cmd_status(Some((&st, Delay::Timeout)), &p, 80).contains("reconnecting"));
    assert_eq!(cmd_port(Some(1), 7899, true), Ok(text("1")));
    assert_eq!(cmd_port(None, 7899, false), Ok(text("7899")));
    assert_eq!(cmd_port(None, 7899, true), Err(text("未连接")));
}

fn connect_job(relogin: bool, tun: bool) -> ConnectJob {
    let mut cfg = AppConfig::default();
    cfg.server = text("vpn.example.com");
    cfg.username = text("u");
    ConnectJob { cfg, app_config: text("/c.yaml"), relogin, tun, columns: 80 }
}

#[test]
fn connecting_needs_a_server_and_a_user() {
    let mut job = connect_job(false, false);
    job.cfg.username = text(" ");
    let (at, a) = cmd_connect(&job, ConnectStage::Start, ConnectEvent::Begin(None));
    assert_eq!(at, ConnectStage::Done);
    assert_eq!(a, ConnectAction::Fail(text("请先编辑 /c.yaml 填入 server 和 username")));
}

#[test]
fn an_online_daemon_is_left_alone() {
    let job = connect_job(false, false);
    let found = Some((Phase::Online, PortSeg::Num(7899)));
    let (at, a) = cmd_connect(&job, ConnectStage::Start, ConnectEvent::Begin(found));
    assert_eq!(a, ConnectAction::Probe);
    let (at, a) = cmd_connect(&job, at, ConnectEvent::Probed(Delay::Value(5)));
    assert_eq!(at, ConnectStage::Done);
    assert!(matches!(&a, ConnectAction::Print(m) if m.contains("已经在连接中")));
    let (_, a) = cmd_connect(
        &job,
        ConnectStage::Probing(PortSeg::Tun),
        ConnectEvent::Probed(Delay::Timeout),
    );
    assert!(matches!(&a, ConnectAction::Print(m) if m.contains("隧道恢复中")));
}

#[test]
fn connecting_with_the_stored_password() {
    let job = connect_job(false, false);
    let (at, a) = cmd_connect(&job, ConnectStage::Start, ConnectEvent::Begin(None));
    assert_eq!(a, ConnectAction::Prepare);
    let (at, a) = cmd_connect(&job, at, ConnectEvent::Prepared);
    assert_eq!(a, ConnectAction::ReadPassword);
    let (at, a) = cmd_connect(&job, at, ConnectEvent::Password(Some(text("pw"))));
    assert_eq!(a, ConnectAction::Login(text("pw")));
    let (at, a) = cmd_connect(&job, at, ConnectEvent::SmsSent { phone: text("1"), at: 50 });
    assert_eq!(a, ConnectAction::Obtain { phone: text("1") });
    // nothing is stored; the time of the first SMS counts where no other was sent
    let (at, a) = cmd_connect(&job, at, ConnectEvent::Obtained { twfid: text("abc"), sms_at: 0 });
    assert_eq!(a, ConnectAction::Spawn { twfid: text("abc"), sms_at: 50, tun: false });
    let (at, a) = cmd_connect(&job, at, ConnectEvent::Spawned);
    assert_eq!(
        a,
        ConnectAction::WaitReady { notice: text("  连接中…"), timeout_ms: 45_000 }
    );
    let (at, a) = cmd_connect(&job, at, ConnectEvent::Ready(PortSeg::Num(7899)));
    assert_eq!(a, ConnectAction::ProbeReady);
    let (at, a) = cmd_connect(&job, at, ConnectEvent::Probed(Delay::Value(9)));
    assert!(matches!(&a, ConnectAction::Print(m) if m.contains("已连接") && m.contains("9ms")));
    assert_eq!(at, ConnectStage::Done);
}

#[test]
fn connecting_with_a_typed_password() {
    let job = connect_job(true, false);
    let (at, a) = cmd_connect(&job, ConnectStage::Preparing, ConnectEvent::Prepared);
    assert_eq!(a, ConnectAction::AskPassword { refusal: None, prompt: text("VPN 密码（u）") });
    let (at, _) = cmd_connect(&job, at, ConnectEvent::Typed(text("bad")));
    let (at, a) = cmd_connect(&job, at, ConnectEvent::PasswordRejected(text("no")));
    assert!(matches!(
        &a,
        ConnectAction::AskPassword { refusal: Some(m), .. } if m.contains("密码被拒: no，请重新输入")
    ));
    let (at, a) = cmd_connect(&job, at, ConnectEvent::Typed(text("good")));
    assert_eq!(a, ConnectAction::Login(text("good")));
    let (at, _) = cmd_connect(&job, at, ConnectEvent::SmsSent { phone: text(""), at: 50 });
    // the password that was taken is stored; the time of the last SMS counts
    let (at, a) = cmd_connect(&job, at, ConnectEvent::Obtained { twfid: text("abc"), sms_at: 80 });
    assert_eq!(a, ConnectAction::Store { password: text("good") });
    let (_, a) = cmd_connect(&job, at, ConnectEvent::Stored);
    assert_eq!(a, ConnectAction::Spawn { twfid: text("abc"), sms_at: 80, tun: false });
}

#[test]
fn the_transparent_mode_is_checked_before_the_login() {
    let job = connect_job(false, true);
    let found = Some((Phase::Reconnecting, PortSeg::Tun));
    let (at, a) = cmd_connect(&job, ConnectStage::Start, ConnectEvent::Begin(found));
    assert!(matches!(a, ConnectAction::TakeOver { wait_ms: 5000, .. }));
    let (at, a) = cmd_connect(&job, at, ConnectEvent::Stopped);
    assert_eq!(a, ConnectAction::CheckTun);
    let (at, a) = cmd_connect(&job, at, ConnectEvent::Checked(Readiness::Ready));
    assert_eq!(a, ConnectAction::Sweep);
    let (_, a) = cmd_connect(&job, at, ConnectEvent::Swept);
    assert_eq!(a, ConnectAction::Prepare);
    let check = |r| cmd_connect(&job, ConnectStage::CheckingTun, ConnectEvent::Checked(r)).1;
    assert_eq!(check(Readiness::NotInstalled), ConnectAction::Fail(text("TUN 组件未安装")));
    assert_eq!(check(Readiness::Stale), ConnectAction::Fail(text("TUN 组件版本过旧")));
}

#[test]
fn connections_that_fail() {
    let job = connect_job(false, true);
    let cases = vec![
        (ConnectStage::Sweeping, ConnectEvent::SweepFailed(text("x"))),
        (ConnectStage::Preparing, ConnectEvent::PrepareFailed(text("x"))),
        (ConnectStage::AskingPassword, ConnectEvent::TypeFailed(text("x"))),
        (
            ConnectStage::LoggingIn { password: text("p"), typed: true },
            ConnectEvent::LoginFailed(text("x")),
        ),
        (
            ConnectStage::Obtaining { password: text("p"), typed: true, sms_at: 1 },
            ConnectEvent::ObtainFailed(text("x")),
        ),
        (
            ConnectStage::Storing { twfid: text("t"), sms_at: 1 },
            ConnectEvent::StoreFailed(text("x")),
        ),
        (ConnectStage::Spawning, ConnectEvent::SpawnFailed(text("x"))),
        (ConnectStage::WaitingReady, ConnectEvent::NotReady(text("x"))),
    ];
    for (at, ev) in cases {
        let (at, a) = cmd_connect(&job, at, ev);
        assert_eq!(at, ConnectStage::Done);
        assert_eq!(a, ConnectAction::Fail(text("x")));
    }
}
