use easy_proxy::config::{AppConfig, PromptConfig};
use easy_proxy::sms::{
    fetch_and_submit_loop, fetched, perform, run_sms_command, should_resend, silent_login,
    valid_sms_code, CommandEvent, CommandStep, FetchAction, FetchEvent, FetchLoop, SilentAction,
    SilentEvent, SilentStage, SmsFetch, SmsUi,
};
use std::cell::RefCell;

/// Cancels nothing and shows nothing.
struct SilentUi;

impl SmsUi for SilentUi {
    fn progress(&self, _t: &str) {}
    fn finish_ok(&self, _t: &str) {}
    fn finish_err(&self, _t: &str) {}
    fn is_cancelled(&self) -> bool {
        false
    }
    fn sleep_cancelable(&self, _millis: u64) -> bool {
        false
    }
}

#[test]
fn should_resend_only_on_prev_empty() {
    assert_eq!(should_resend(None), false);
    assert_eq!(should_resend(Some(true)), true);
    assert_eq!(should_resend(Some(false)), false);
}

#[test]
fn valid_code_accepts_4_to_8_digits() {
    assert_eq!(valid_sms_code(" 929869 \n"), Some("929869".to_string()));
    assert_eq!(valid_sms_code("1234"), Some("1234".to_string()));
    assert_eq!(valid_sms_code("12345678"), Some("12345678".to_string()));
}

#[test]
fn valid_code_rejects_junk() {
    assert_eq!(valid_sms_code(""), None);
    assert_eq!(valid_sms_code("   "), None);
    assert_eq!(valid_sms_code("123"), None);
    assert_eq!(valid_sms_code("123456789"), None);
    assert_eq!(valid_sms_code("code:123456"), None);
    assert_eq!(valid_sms_code("abcd"), None);
}

fn exited(success: bool, stdout: &str) -> CommandEvent {
    CommandEvent::Exited { success, stdout: stdout.to_string() }
}

#[test]
fn command_stdout_code_is_returned() {
    assert_eq!(
        run_sms_command(&exited(true, "654321\n"), 5000),
        CommandStep::Finish(SmsFetch::Code("654321".to_string()))
    );
}

#[test]
fn command_no_valid_output_is_empty() {
    let empty = CommandStep::Finish(SmsFetch::Empty);
    assert_eq!(run_sms_command(&exited(true, ""), 5000), empty);
    assert_eq!(run_sms_command(&exited(false, ""), 5000), empty);
    assert_eq!(run_sms_command(&exited(true, "not-a-code\n"), 5000), empty);
    assert_eq!(run_sms_command(&exited(false, "123456\n"), 5000), empty);
    assert_eq!(run_sms_command(&CommandEvent::NotStarted, 5000), empty);
    assert_eq!(run_sms_command(&CommandEvent::WaitFailed, 5000), empty);
}

#[test]
fn command_timeout_kills_and_returns_empty() {
    let running = |elapsed_ms| CommandEvent::Running { cancelled: false, elapsed_ms };
    assert!(matches!(run_sms_command(&running(299), 300), CommandStep::Poll(_)));
    assert_eq!(run_sms_command(&running(300), 300), CommandStep::Kill(SmsFetch::Empty));
    let cancelled = CommandEvent::Running { cancelled: true, elapsed_ms: 0 };
    assert_eq!(run_sms_command(&cancelled, 300), CommandStep::Kill(SmsFetch::Cancelled));
}

#[test]
fn silent_login_without_sms_command_errs_fast() {
    let mut cfg = AppConfig::default();
    cfg.server = "127.0.0.1".into();
    cfg.username = "u".into();
    cfg.sms_command = None;
    let (at, action) = silent_login(&cfg, SilentStage::Start, SilentEvent::Begin, false);
    assert_eq!(at, SilentStage::Done);
    assert!(matches!(action, SilentAction::Fail(_)));
}

fn text(s: &str) -> String {
    s.to_string()
}

#[test]
fn a_silent_login() {
    let mut cfg = AppConfig::default();
    cfg.sms_command = Some(text(" echo 123456 "));
    let (at, a) = silent_login(&cfg, SilentStage::Start, SilentEvent::Begin, false);
    assert_eq!(a, SilentAction::ReadPassword);
    assert_eq!(
        silent_login(&cfg, at, SilentEvent::Password(None), false),
        (SilentStage::Done, SilentAction::Fail(text("钥匙串无密码, 无法静默重登")))
    );
    let (at, a) = silent_login(&cfg, at, SilentEvent::Password(Some(text("pw"))), false);
    assert_eq!(a, SilentAction::Login(text("pw")));
    assert_eq!(
        silent_login(&cfg, at, SilentEvent::PasswordRejected(text("no")), false),
        (SilentStage::Done, SilentAction::Fail(text("密码被拒: no")))
    );
    assert_eq!(
        silent_login(&cfg, at, SilentEvent::LoginFailed(text("down")), false),
        (SilentStage::Done, SilentAction::Fail(text("down")))
    );
    let (at, a) = silent_login(&cfg, at, SilentEvent::SmsSent, false);
    assert_eq!(a, SilentAction::NoteSmsSent);
    assert_eq!(
        silent_login(&cfg, at, SilentEvent::Noted, true),
        (SilentStage::Done, SilentAction::Fail(text("shutdown")))
    );
    let (at, a) = silent_login(&cfg, at, SilentEvent::Noted, false);
    assert_eq!(a, SilentAction::Fetch(text("echo 123456")));
    assert_eq!(
        silent_login(&cfg, at, SilentEvent::Fetched(Some(text("abc"))), false),
        (SilentStage::Done, SilentAction::Succeed(text("abc")))
    );
    let (_, a) = silent_login(&cfg, at, SilentEvent::Fetched(None), false);
    assert!(matches!(a, SilentAction::Fail(_)));
    let (_, a) = silent_login(&cfg, at, SilentEvent::FetchFailed(text("x")), false);
    assert_eq!(a, SilentAction::Fail(text("x")));
}

fn rounds(retries: u32) -> (FetchLoop, FetchAction<String>) {
    let mut cfg = AppConfig::default();
    cfg.sms_retries = retries;
    cfg.sms_retry_interval_secs = 30;
    FetchLoop::new(&cfg, " (hint)", PromptConfig::default())
}

#[test]
fn rounds_with_an_empty_one_and_a_refusal() {
    let (at, a) = rounds(2);
    assert_eq!(a, FetchAction::Progress(text("  [自动] 第 1/3 次取码… (hint)")));
    let shown = perform(&SilentUi, &a).unwrap();
    let (at, a) = fetch_and_submit_loop(at, shown);
    assert_eq!(a, FetchAction::RunCommand);
    assert!(perform(&SilentUi, &a).is_none());
    // nothing came: another SMS is asked for, noted, and the wait is kept
    let (at, a) = fetch_and_submit_loop(at, fetched(SmsFetch::Empty));
    assert_eq!(a, FetchAction::Progress(text("  [自动] 第 2/3 次取码… (hint)")));
    let (at, a) = fetch_and_submit_loop(at, FetchEvent::Shown);
    assert_eq!(a, FetchAction::Resend);
    let (at, a) = fetch_and_submit_loop(at, FetchEvent::Resent);
    assert_eq!(a, FetchAction::NoteSmsSent);
    let (at, a) = fetch_and_submit_loop(at, FetchEvent::Noted);
    assert_eq!(a, FetchAction::Sleep(30_000));
    let slept = perform(&SilentUi, &a).unwrap();
    let (at, a) = fetch_and_submit_loop(at, slept);
    assert_eq!(a, FetchAction::RunCommand);
    let (at, a) = fetch_and_submit_loop(at, fetched(SmsFetch::Code(text("1234"))));
    assert_eq!(a, FetchAction::Submit(text("1234")));
    // refused: no other SMS, only the wait
    let (at, _) = fetch_and_submit_loop(at, FetchEvent::Rejected);
    let (at, a) = fetch_and_submit_loop(at, FetchEvent::Shown);
    assert_eq!(a, FetchAction::Sleep(30_000));
    let (at, _) = fetch_and_submit_loop(at, FetchEvent::Slept { cancelled: false });
    let (at, _) = fetch_and_submit_loop(at, FetchEvent::Code(text("5678")));
    // the last round is over
    let (at, a) = fetch_and_submit_loop(at, FetchEvent::Rejected);
    assert!(matches!(&a, FetchAction::FinishErr(m) if m.contains("未取到验证码，回退手动输入")));
    let (_, a) = fetch_and_submit_loop(at, FetchEvent::Shown);
    assert_eq!(a, FetchAction::Return(None));
}

#[test]
fn a_round_that_succeeds() {
    let (at, _) = rounds(0);
    let (at, _) = fetch_and_submit_loop(at, FetchEvent::Shown);
    let (at, _) = fetch_and_submit_loop(at, FetchEvent::Code(text("1234")));
    let (at, a) = fetch_and_submit_loop(at, FetchEvent::Accepted(text("abc")));
    assert!(matches!(&a, FetchAction::FinishOk(m) if m.contains("验证码已通过")));
    let (_, a) = fetch_and_submit_loop(at, FetchEvent::Shown);
    assert_eq!(a, FetchAction::Return(Some(text("abc"))));
}

#[test]
fn rounds_that_break_off() {
    let (at, _) = rounds(1);
    let (at, _) = fetch_and_submit_loop(at, FetchEvent::Shown);
    let (_, a) = fetch_and_submit_loop(at, fetched(SmsFetch::Cancelled));
    assert!(matches!(&a, FetchAction::FinishErr(m) if m.contains("已取消自动取码")));
    let (at, _) = rounds(1);
    let (at, _) = fetch_and_submit_loop(at, FetchEvent::Shown);
    let (at, _) = fetch_and_submit_loop(at, FetchEvent::Empty);
    let (at, _) = fetch_and_submit_loop(at, FetchEvent::Shown);
    let (_, a) = fetch_and_submit_loop(at, FetchEvent::ResendFailed(text("down")));
    assert!(matches!(
        &a,
        FetchAction::FinishErr(m) if m.contains("补发短信失败：down，回退手动输入")
    ));
    let (at, _) = rounds(1);
    let (at, _) = fetch_and_submit_loop(at, FetchEvent::Shown);
    let (at, _) = fetch_and_submit_loop(at, FetchEvent::Code(text("1234")));
    let (_, a) = fetch_and_submit_loop(at, FetchEvent::SubmitFailed(text("down")));
    assert_eq!(a, FetchAction::Fail(text("down")));
}

#[test]
fn there_is_no_hint_unless_one_is_given() {
    assert_eq!(SilentUi.cancel_hint(), "");
}

/// Records what it is asked to do, and cancels waits where told to.
struct Recorder {
    calls: RefCell<Vec<String>>,
    cancels: bool,
}

impl Recorder {
    fn new(cancels: bool) -> Recorder {
        Recorder { calls: RefCell::new(Vec::new()), cancels }
    }
}

impl SmsUi for Recorder {
    fn progress(&self, t: &str) {
        self.calls.borrow_mut().push(format!("progress {t}"));
    }
    fn finish_ok(&self, t: &str) {
        self.calls.borrow_mut().push(format!("ok {t}"));
    }
    fn finish_err(&self, t: &str) {
        self.calls.borrow_mut().push(format!("err {t}"));
    }
    fn is_cancelled(&self) -> bool {
        self.cancels
    }
    fn sleep_cancelable(&self, millis: u64) -> bool {
        self.calls.borrow_mut().push(format!("sleep {millis}"));
        self.cancels
    }
}

#[test]
fn what_concerns_the_user_is_performed() {
    let ui = Recorder::new(false);
    assert_eq!(perform(&ui, &FetchAction::Progress(text("a"))), Some(FetchEvent::Shown));
    assert_eq!(perform(&ui, &FetchAction::FinishOk(text("b"))), Some(FetchEvent::Shown));
    assert_eq!(perform(&ui, &FetchAction::FinishErr(text("c"))), Some(FetchEvent::Shown));
    assert_eq!(
        perform(&ui, &FetchAction::Sleep(30_000)),
        Some(FetchEvent::Slept { cancelled: false })
    );
    assert_eq!(perform(&ui, &FetchAction::RunCommand), None);
    assert_eq!(perform(&ui, &FetchAction::Submit(text("1234"))), None);
    assert_eq!(*ui.calls.borrow(), ["progress a", "ok b", "err c", "sleep 30000"]);
}

#[test]
fn a_cancelled_wait_is_reported() {
    let ui = Recorder::new(true);
    let slept = perform(&ui, &FetchAction::Sleep(7)).unwrap();
    assert_eq!(slept, FetchEvent::Slept { cancelled: true });
    let (at, _) = rounds(1);
    let (at, _) = fetch_and_submit_loop(at, FetchEvent::Shown);
    let (at, _) = fetch_and_submit_loop(at, FetchEvent::Code(text("1234")));
    let (at, _) = fetch_and_submit_loop(at, FetchEvent::Rejected);
    let (at, a) = fetch_and_submit_loop(at, FetchEvent::Shown);
    assert_eq!(a, FetchAction::Sleep(30_000));
    let (_, a) = fetch_and_submit_loop(at, slept);
    assert!(matches!(&a, FetchAction::FinishErr(m) if m.contains("已取消自动取码")));
}
