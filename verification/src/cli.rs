//! The commands: what they print, and the way of `connect` from the password to the tunnel.

use vstd::prelude::*;

use crate::capsule;
use crate::capsule::{ConnState, Delay, PortSeg, ProxyStatus};
use crate::config::{Mode, Phase, PromptConfig, RuntimeState};
use crate::decimal;
use crate::sms;
use crate::text;

verus! {

/// A command.
#[derive(Debug, Clone, Copy, PartialEq, Eq, Structural)]
pub enum Command {
    Connect { relogin: bool, tun: bool },
    Disconnect,
    Start,
    Stop { force: bool },
    Restart { force: bool },
    Status,
    Port { connected: bool },
    Install,
    Serve,
}

/// Whether a command needs the configuration to be there: all do but `install`, which writes
/// it.
pub fn run(command: Command) -> (needs_config: bool)
    ensures
        needs_config == (command != Command::Install),
{
    match command {
        Command::Install => false,
        _ => true,
    }
}

/// An error as shown where a command fails.
pub fn top_error(message: &str) -> (r: String)
    ensures
        r@ == capsule::marked(capsule::ANSI_BOLD_RED@, "✘"@, message@),
{
    capsule::error_line(message, None, &PromptConfig::default())
}

// ---------------------------------------------------------------------------------------
// Lines under way

pub const SPINNER_FRAMES: [&'static str; 10] = [
    "⠋",
    "⠙",
    "⠹",
    "⠸",
    "⠼",
    "⠴",
    "⠦",
    "⠧",
    "⠇",
    "⠏",
];

/// A frame of the spinner, over and over.
pub fn spinner_frame(i: usize) -> (r: &'static str)
    ensures
        r@ == SPINNER_FRAMES[i as int % 10]@,
{
    SPINNER_FRAMES[i % 10]
}

/// What removes a line that is under way.
pub const CLEAR_LINE: &'static str = "\r\x1b[2K";

/// A line under way: on a terminal with a spinner in front, in place of the line before it;
/// elsewhere as it is.
pub fn progress_text(tty: bool, text: &str, frame: usize) -> (r: String)
    ensures
        r@ == (if tty {
            CLEAR_LINE@ + capsule::ANSI_BOLD_BLUE@ + SPINNER_FRAMES[frame as int % 10]@
                + capsule::ANSI_RESET@ + " "@ + text::trim_start(text@)
        } else {
            text@
        }),
{
    if !tty {
        return text.to_owned();
    }
    let mut out = CLEAR_LINE.to_owned();
    out.append(capsule::ANSI_BOLD_BLUE);
    out.append(spinner_frame(frame));
    out.append(capsule::ANSI_RESET);
    out.append(" ");
    out.append(&text::trimmed_start(text));
    out
}

/// The final line of something that was under way.
pub fn finish_text(tty: bool, text: &str) -> (r: String)
    ensures
        r@ == (if tty {
            CLEAR_LINE@ + text@
        } else {
            text@
        }),
{
    if tty {
        let mut out = CLEAR_LINE.to_owned();
        out.append(text);
        out
    } else {
        text.to_owned()
    }
}

/// What was typed holds an escape on its own, and is not the sequence of a key.
pub open spec fn escape_typed(bytes: Seq<u8>) -> bool {
    let sequence = bytes.len() >= 2 && bytes[0] == 0x1b && (bytes[1] == 0x5b || bytes[1] == 0x4f);
    !sequence && exists|i: int| 0 <= i < bytes.len() && bytes[i] == 0x1b
}

/// Whether the escape key was pressed.
pub fn esc_pressed(bytes: &[u8]) -> (r: bool)
    ensures
        r == escape_typed(bytes@),
{
    if bytes.len() >= 2 && bytes[0] == 0x1b && (bytes[1] == 0x5b || bytes[1] == 0x4f) {
        return false;
    }
    let mut i: usize = 0;
    while i < bytes.len()
        invariant
            i <= bytes.len(),
            forall|j: int| 0 <= j < i ==> bytes@[j] != 0x1b,
            !(bytes@.len() >= 2 && bytes@[0] == 0x1b && (bytes@[1] == 0x5b || bytes@[1] == 0x4f)),
        decreases bytes.len() - i,
    {
        if bytes[i] == 0x1b {
            assert(bytes@[i as int] == 0x1b);
            return true;
        }
        i += 1;
    }
    false
}

/// How a wait that can be cancelled goes on.
#[derive(Debug, Clone, Copy, PartialEq, Eq, Structural)]
pub enum SleepStep {
    /// It is over: cancelled, or not.
    Over { cancelled: bool },
    /// Look again after so many milliseconds.
    Sleep(u64),
}

/// One look at a wait that can be cancelled by a key: the key goes before the time.
pub fn sleep_cancelable(cancel: bool, elapsed_ms: u64, total_ms: u64) -> (r: SleepStep)
    ensures
        r == (if cancel {
            SleepStep::Over { cancelled: true }
        } else if elapsed_ms >= total_ms {
            SleepStep::Over { cancelled: false }
        } else {
            SleepStep::Sleep(120)
        }),
{
    if cancel {
        SleepStep::Over { cancelled: true }
    } else if elapsed_ms >= total_ms {
        SleepStep::Over { cancelled: false }
    } else {
        SleepStep::Sleep(120)
    }
}

/// One look at a wait that ends when the daemon is told to stop: the time goes first.
pub fn daemon_sleep(shutdown: bool, elapsed_ms: u64, total_ms: u64) -> (r: SleepStep)
    ensures
        r == (if elapsed_ms >= total_ms {
            SleepStep::Over { cancelled: false }
        } else if shutdown {
            SleepStep::Over { cancelled: true }
        } else {
            SleepStep::Sleep(120)
        }),
{
    if elapsed_ms >= total_ms {
        SleepStep::Over { cancelled: false }
    } else if shutdown {
        SleepStep::Over { cancelled: true }
    } else {
        SleepStep::Sleep(120)
    }
}

/// How waiting for a code in a file goes on.
#[derive(Debug, PartialEq, Eq)]
pub enum FilePoll {
    Code(String),
    TimedOut,
    /// Look again after so many milliseconds.
    Sleep(u64),
}

/// How long a code in a file is waited for, in milliseconds.
pub const SMS_FILE_TIMEOUT_MS: u64 = 180000;

/// One look at a file in which a code is to appear. What is there is taken out either way; only
/// a code counts.
pub fn wait_sms_file(content: Option<&str>, elapsed_ms: u64) -> (r: FilePoll)
    ensures
        match content {
            Some(s) => match sms::code_in(s@) {
                Some(c) => r matches FilePoll::Code(code) && code@ == c,
                None => r == (if elapsed_ms >= SMS_FILE_TIMEOUT_MS {
                    FilePoll::TimedOut
                } else {
                    FilePoll::Sleep(500)
                }),
            },
            None => r == (if elapsed_ms >= SMS_FILE_TIMEOUT_MS {
                FilePoll::TimedOut
            } else {
                FilePoll::Sleep(500)
            }),
        },
{
    if let Some(s) = content {
        if let Some(code) = sms::valid_sms_code(s) {
            return FilePoll::Code(code);
        }
    }
    if elapsed_ms >= SMS_FILE_TIMEOUT_MS {
        FilePoll::TimedOut
    } else {
        FilePoll::Sleep(500)
    }
}

// ---------------------------------------------------------------------------------------
// The code

/// The line that tells that an SMS was sent.
pub open spec fn sent_text(phone: Seq<char>, prompt: PromptConfig) -> Seq<char> {
    capsule::ok_text(
        if phone.len() == 0 {
            "短信验证码已发送"@
        } else {
            "短信验证码已发送至 "@ + phone
        },
        None,
        prompt,
    )
}

/// The line that tells that an SMS was sent.
pub fn sms_sent_line(phone: &str, prompt: &PromptConfig) -> (r: String)
    ensures
        r@ == sent_text(phone@, *prompt),
{
    if phone.is_empty() {
        capsule::success_line("短信验证码已发送", None, prompt)
    } else {
        let mut m = "短信验证码已发送至 ".to_owned();
        m.append(phone);
        capsule::success_line(&m, None, prompt)
    }
}

/// How often a code can be handed in by hand or from a file.
pub const CODE_ATTEMPTS: u32 = 3;

/// Whether what was typed is a code.
pub fn typed_code_ok(s: &str) -> (r: bool)
    ensures
        r == sms::is_code(text::trim(s@)),
{
    sms::valid_sms_code(s).is_some()
}

/// The line for a code that was refused, typed or from a file, with the attempts that are left.
pub open spec fn refusal_text(by_hand: bool, why: Seq<char>, left: int) -> Seq<char> {
    if by_hand {
        "验证码错误（"@ + why + "），剩余 "@ + decimal::digits(left as nat) + " 次"@
    } else {
        "[自动化] 验证码被拒（"@ + why + "），剩余 "@ + decimal::digits(left as nat) + " 次"@
    }
}

/// The error where no attempt is left.
pub open spec fn exhausted_text(by_hand: bool) -> Seq<char> {
    if by_hand {
        "验证码连续 3 次错误"@
    } else {
        "[自动化] 验证码连续 3 次被拒"@
    }
}

/// The attempts that are left after one.
pub open spec fn attempts_left(attempt: u32) -> int {
    if attempt > CODE_ATTEMPTS {
        0
    } else {
        CODE_ATTEMPTS - attempt
    }
}

/// The line for a typed code that was refused.
pub fn manual_phase(why: &str, attempt: u32, prompt: &PromptConfig) -> (r: String)
    ensures
        r@ == capsule::err_text(refusal_text(true, why@, attempts_left(attempt)), None, *prompt),
{
    let left: u32 = if attempt > CODE_ATTEMPTS {
        0
    } else {
        CODE_ATTEMPTS - attempt
    };
    let mut m = "验证码错误（".to_owned();
    m.append(why);
    m.append("），剩余 ");
    m.append(&decimal::decimal(left as u64));
    m.append(" 次");
    capsule::error_line(&m, None, prompt)
}

/// The line for a code from a file that was refused.
pub fn automation_via_file(why: &str, attempt: u32, prompt: &PromptConfig) -> (r: String)
    ensures
        r@ == capsule::err_text(refusal_text(false, why@, attempts_left(attempt)), None, *prompt),
{
    let left: u32 = if attempt > CODE_ATTEMPTS {
        0
    } else {
        CODE_ATTEMPTS - attempt
    };
    let mut m = "[自动化] 验证码被拒（".to_owned();
    m.append(why);
    m.append("），剩余 ");
    m.append(&decimal::decimal(left as u64));
    m.append(" 次");
    capsule::error_line(&m, None, prompt)
}

/// How far the way from the SMS to a session is.
#[derive(Debug, PartialEq, Eq)]
pub enum ObtainStage {
    Start,
    /// It is being shown that an SMS was sent.
    Heading,
    /// The rounds of fetching are under way.
    Fetching,
    /// A code is being waited for, typed or from a file.
    Asking { by_hand: bool, attempt: u32 },
    /// A code is being handed in.
    Submitting { by_hand: bool, attempt: u32 },
    /// It is being shown that a code was refused.
    Refusing { by_hand: bool, attempt: u32 },
    Done,
}

/// What has happened on that way.
#[derive(Debug, PartialEq, Eq)]
pub enum ObtainEvent<T> {
    Begin,
    Shown,
    /// The rounds are over, with a session or without.
    Fetched(Option<T>),
    FetchFailed(T),
    Code(T),
    /// No code came.
    NoCode(T),
    Accepted(T),
    Rejected(T),
    SubmitFailed(T),
}

/// What to do next on that way.
#[derive(Debug, PartialEq, Eq)]
pub enum ObtainAction<T> {
    Show(T),
    /// Go through the rounds of fetching with this command.
    Fetch(T),
    /// Wait for a code in this file.
    ReadFile(T),
    /// Have a code typed.
    AskCode,
    Submit(T),
    Return(T),
    Fail(T),
    /// What happened does not concern this stage.
    Wait,
}

impl View for ObtainEvent<String> {
    type V = ObtainEvent<Seq<char>>;

    open spec fn view(&self) -> ObtainEvent<Seq<char>> {
        match *self {
            ObtainEvent::Begin => ObtainEvent::Begin,
            ObtainEvent::Shown => ObtainEvent::Shown,
            ObtainEvent::Fetched(t) => ObtainEvent::Fetched(text::opt_text(t)),
            ObtainEvent::FetchFailed(m) => ObtainEvent::FetchFailed(m@),
            ObtainEvent::Code(c) => ObtainEvent::Code(c@),
            ObtainEvent::NoCode(m) => ObtainEvent::NoCode(m@),
            ObtainEvent::Accepted(t) => ObtainEvent::Accepted(t@),
            ObtainEvent::Rejected(m) => ObtainEvent::Rejected(m@),
            ObtainEvent::SubmitFailed(m) => ObtainEvent::SubmitFailed(m@),
        }
    }
}

impl View for ObtainAction<String> {
    type V = ObtainAction<Seq<char>>;

    open spec fn view(&self) -> ObtainAction<Seq<char>> {
        match *self {
            ObtainAction::Show(t) => ObtainAction::Show(t@),
            ObtainAction::Fetch(c) => ObtainAction::Fetch(c@),
            ObtainAction::ReadFile(p) => ObtainAction::ReadFile(p@),
            ObtainAction::AskCode => ObtainAction::AskCode,
            ObtainAction::Submit(c) => ObtainAction::Submit(c@),
            ObtainAction::Return(t) => ObtainAction::Return(t@),
            ObtainAction::Fail(m) => ObtainAction::Fail(m@),
            ObtainAction::Wait => ObtainAction::Wait,
        }
    }
}

/// What is known when an SMS was sent.
#[derive(Debug)]
pub struct ObtainJob {
    /// The phone that it was sent to, where known.
    pub phone: String,
    /// The file that a script fills with the code, where one is named.
    pub sms_file: Option<String>,
    /// The command that fetches the code, where one is configured.
    pub command: Option<String>,
    pub prompt: PromptConfig,
}

/// A code is asked for: in the file where one is named, else from the user.
pub open spec fn ask(job: ObtainJob, attempt: u32) -> (ObtainStage, ObtainAction<Seq<char>>) {
    match job.sms_file {
        Some(p) => (
            ObtainStage::Asking { by_hand: false, attempt },
            ObtainAction::ReadFile(p@),
        ),
        None => (ObtainStage::Asking { by_hand: true, attempt }, ObtainAction::AskCode),
    }
}

/// What follows on an event.
pub open spec fn obtain_next(
    job: ObtainJob,
    stage: ObtainStage,
    ev: ObtainEvent<Seq<char>>,
) -> (ObtainStage, ObtainAction<Seq<char>>) {
    match (stage, ev) {
        (ObtainStage::Start, ObtainEvent::Begin) => (
            ObtainStage::Heading,
            ObtainAction::Show(sent_text(job.phone@, job.prompt)),
        ),
        (ObtainStage::Heading, ObtainEvent::Shown) => if job.sms_file is Some {
            ask(job, 1)
        } else {
            match job.command {
                Some(c) => (ObtainStage::Fetching, ObtainAction::Fetch(c@)),
                None => ask(job, 1),
            }
        },
        (ObtainStage::Fetching, ObtainEvent::Fetched(t)) => match t {
            Some(t) => (ObtainStage::Done, ObtainAction::Return(t)),
            None => ask(job, 1),
        },
        (ObtainStage::Fetching, ObtainEvent::FetchFailed(m)) => (
            ObtainStage::Done,
            ObtainAction::Fail(m),
        ),
        (ObtainStage::Asking { by_hand, attempt }, ObtainEvent::Code(c)) => (
            ObtainStage::Submitting { by_hand, attempt },
            ObtainAction::Submit(c),
        ),
        (ObtainStage::Asking { .. }, ObtainEvent::NoCode(m)) => (
            ObtainStage::Done,
            ObtainAction::Fail(m),
        ),
        (ObtainStage::Submitting { .. }, ObtainEvent::Accepted(t)) => (
            ObtainStage::Done,
            ObtainAction::Return(t),
        ),
        (ObtainStage::Submitting { .. }, ObtainEvent::SubmitFailed(m)) => (
            ObtainStage::Done,
            ObtainAction::Fail(m),
        ),
        (ObtainStage::Submitting { by_hand, attempt }, ObtainEvent::Rejected(why)) => (
            ObtainStage::Refusing { by_hand, attempt },
            ObtainAction::Show(
                capsule::err_text(
                    refusal_text(by_hand, why, attempts_left(attempt)),
                    None,
                    job.prompt,
                ),
            ),
        ),
        (ObtainStage::Refusing { by_hand, attempt }, ObtainEvent::Shown) => if attempt
            >= CODE_ATTEMPTS {
            (ObtainStage::Done, ObtainAction::Fail(exhausted_text(by_hand)))
        } else {
            ask(job, (attempt + 1) as u32)
        },
        _ => (stage, ObtainAction::Wait),
    }
}

fn ask_code(job: &ObtainJob, attempt: u32) -> (r: (ObtainStage, ObtainAction<String>))
    ensures
        (r.0, r.1@) == ask(*job, attempt),
{
    match &job.sms_file {
        Some(p) => (
            ObtainStage::Asking { by_hand: false, attempt },
            ObtainAction::ReadFile(p.clone()),
        ),
        None => (ObtainStage::Asking { by_hand: true, attempt }, ObtainAction::AskCode),
    }
}

/// One step on the way from the SMS to a session. The code comes from the file where one is
/// named, else from the command where one is configured, else, and where the command brought
/// none, from the user. A typed code, and one from a file, can be refused three times.
pub fn obtain_twfid(job: &ObtainJob, at: ObtainStage, ev: ObtainEvent<String>) -> (r: (
    ObtainStage,
    ObtainAction<String>,
))
    ensures
        (r.0, r.1@) == obtain_next(*job, at, ev@),
{
    match at {
        ObtainStage::Start => match ev {
            ObtainEvent::Begin => (
                ObtainStage::Heading,
                ObtainAction::Show(sms_sent_line(&job.phone, &job.prompt)),
            ),
            _ => (at, ObtainAction::Wait),
        },
        ObtainStage::Heading => match ev {
            ObtainEvent::Shown => if job.sms_file.is_some() {
                ask_code(job, 1)
            } else {
                match &job.command {
                    Some(c) => (ObtainStage::Fetching, ObtainAction::Fetch(c.clone())),
                    None => ask_code(job, 1),
                }
            },
            _ => (at, ObtainAction::Wait),
        },
        ObtainStage::Fetching => match ev {
            ObtainEvent::Fetched(t) => match t {
                Some(t) => (ObtainStage::Done, ObtainAction::Return(t)),
                None => ask_code(job, 1),
            },
            ObtainEvent::FetchFailed(m) => (ObtainStage::Done, ObtainAction::Fail(m)),
            _ => (at, ObtainAction::Wait),
        },
        ObtainStage::Asking { by_hand, attempt } => match ev {
            ObtainEvent::Code(c) => (
                ObtainStage::Submitting { by_hand, attempt },
                ObtainAction::Submit(c),
            ),
            ObtainEvent::NoCode(m) => (ObtainStage::Done, ObtainAction::Fail(m)),
            _ => (at, ObtainAction::Wait),
        },
        ObtainStage::Submitting { by_hand, attempt } => match ev {
            ObtainEvent::Accepted(t) => (ObtainStage::Done, ObtainAction::Return(t)),
            ObtainEvent::SubmitFailed(m) => (ObtainStage::Done, ObtainAction::Fail(m)),
            ObtainEvent::Rejected(why) => {
                let line = if by_hand {
                    manual_phase(&why, attempt, &job.prompt)
                } else {
                    automation_via_file(&why, attempt, &job.prompt)
                };
                (ObtainStage::Refusing { by_hand, attempt }, ObtainAction::Show(line))
            },
            _ => (at, ObtainAction::Wait),
        },
        ObtainStage::Refusing { by_hand, attempt } => match ev {
            ObtainEvent::Shown => if attempt >= CODE_ATTEMPTS {
                let m = if by_hand {
                    "验证码连续 3 次错误".to_owned()
                } else {
                    "[自动化] 验证码连续 3 次被拒".to_owned()
                };
                (ObtainStage::Done, ObtainAction::Fail(m))
            } else {
                ask_code(job, attempt + 1)
            },
            _ => (at, ObtainAction::Wait),
        },
        ObtainStage::Done => (at, ObtainAction::Wait),
    }
}

/// Where a run of events leads.
pub open spec fn obtain_reached(job: ObtainJob, evs: Seq<ObtainEvent<Seq<char>>>) -> (
    ObtainStage,
    ObtainAction<Seq<char>>,
)
    decreases evs.len(),
{
    if evs.len() == 0 {
        (ObtainStage::Start, ObtainAction::Wait)
    } else {
        obtain_next(job, obtain_reached(job, evs.drop_last()).0, evs.last())
    }
}

/// How many codes a run of events has handed in, apart from those of the rounds.
pub open spec fn codes_submitted(job: ObtainJob, evs: Seq<ObtainEvent<Seq<char>>>) -> int
    decreases evs.len(),
{
    if evs.len() == 0 {
        0
    } else {
        codes_submitted(job, evs.drop_last()) + (if obtain_reached(job, evs).1 is Submit {
            1int
        } else {
            0int
        })
    }
}

proof fn lemma_obtain_inv(job: ObtainJob, evs: Seq<ObtainEvent<Seq<char>>>)
    ensures
        ({
            let n = codes_submitted(job, evs);
            match obtain_reached(job, evs).0 {
                ObtainStage::Asking { by_hand, attempt } => n == attempt - 1 && 1 <= attempt <= 3
                    && (by_hand == (job.sms_file is None)),
                ObtainStage::Submitting { by_hand, attempt } => n == attempt && 1 <= attempt <= 3
                    && (by_hand == (job.sms_file is None)),
                ObtainStage::Refusing { by_hand, attempt } => n == attempt && 1 <= attempt <= 3
                    && (by_hand == (job.sms_file is None)),
                ObtainStage::Fetching => n == 0 && job.sms_file is None,
                ObtainStage::Done => 0 <= n <= 3,
                _ => n == 0,
            }
        }),
    decreases evs.len(),
{
    if evs.len() > 0 {
        lemma_obtain_inv(job, evs.drop_last());
    }
}

/// However it goes, at most three codes are handed in by hand or from a file.
pub proof fn law_at_most_three_codes(job: ObtainJob, evs: Seq<ObtainEvent<Seq<char>>>)
    ensures
        codes_submitted(job, evs) <= 3,
{
    lemma_obtain_inv(job, evs);
}

/// A file that is named goes before the command, and the command before the keyboard: where a
/// file is named, neither is the command run nor the user asked; where a command is configured,
/// the user is asked only after its rounds ended without a session.
pub proof fn law_order_of_code_sources(job: ObtainJob, evs: Seq<ObtainEvent<Seq<char>>>)
    ensures
        job.sms_file is Some ==> !(obtain_reached(job, evs).1 is Fetch) && !(obtain_reached(
            job,
            evs,
        ).1 is AskCode),
        job.sms_file is None && job.command is Some && evs.len() > 0 && obtain_reached(
            job,
            evs,
        ).1 is AskCode ==> obtain_reached(job, evs.drop_last()).0 is Fetching || obtain_reached(
            job,
            evs.drop_last(),
        ).0 is Refusing,
{
    lemma_obtain_inv(job, evs);
    if evs.len() > 0 {
        lemma_obtain_inv(job, evs.drop_last());
    }
}

// ---------------------------------------------------------------------------------------
// The capsule of a daemon

/// What a capsule shows of a daemon: online with its delay where the phase is online and the
/// probe did not fail, else reconnecting, without a delay but with the port.
pub fn capsule_from(phase: Phase, probe: Delay, port: PortSeg) -> (r: ProxyStatus)
    ensures
        r == shown(phase, probe, port),
{
    match (phase, probe) {
        (Phase::Online, Delay::Timeout) | (Phase::Reconnecting, _) => ProxyStatus {
            state: ConnState::Reconnecting,
            delay: Delay::Hidden,
            port: Some(port),
        },
        (Phase::Online, delay) => ProxyStatus { state: ConnState::Online, delay, port: Some(port) },
    }
}

/// What a capsule shows of a daemon.
pub open spec fn shown(phase: Phase, probe: Delay, port: PortSeg) -> ProxyStatus {
    if phase == Phase::Online && probe != Delay::Timeout {
        ProxyStatus { state: ConnState::Online, delay: probe, port: Some(port) }
    } else {
        ProxyStatus { state: ConnState::Reconnecting, delay: Delay::Hidden, port: Some(port) }
    }
}

/// What a capsule shows of no daemon.
pub open spec fn nothing_shown() -> ProxyStatus {
    ProxyStatus { state: ConnState::Offline, delay: Delay::Hidden, port: None }
}

/// The port segment of a daemon: its port, or that it runs in the transparent mode.
pub open spec fn port_shown(st: RuntimeState) -> PortSeg {
    if st.mode == Mode::Tun {
        PortSeg::Tun
    } else {
        PortSeg::Num(st.port)
    }
}

/// The port segment of a daemon.
pub fn port_seg(st: &RuntimeState) -> (r: PortSeg)
    ensures
        r == port_shown(*st),
{
    if st.mode == Mode::Tun {
        PortSeg::Tun
    } else {
        PortSeg::Num(st.port)
    }
}

/// What a capsule shows of a daemon, with what a probe of its tunnel found. A daemon that is
/// reconnecting needs no probe: whatever is given for it is not shown.
pub fn runtime_capsule(st: &RuntimeState, probe: Delay) -> (r: ProxyStatus)
    ensures
        r == shown(st.phase, probe, port_shown(*st)),
{
    capsule_from(st.phase, probe, port_seg(st))
}

/// Whether the tunnel of a daemon is probed before its capsule is shown: one that is
/// reconnecting is not waited for.
pub fn probe_wanted(st: &RuntimeState) -> (r: bool)
    ensures
        r == (st.phase == Phase::Online),
{
    st.phase == Phase::Online
}

/// A capsule says online only of a daemon that is in that phase and whose tunnel answered.
pub proof fn law_online_is_honest(phase: Phase, probe: Delay, port: PortSeg)
    ensures
        shown(phase, probe, port).state == ConnState::Online <==> phase == Phase::Online && probe
            != Delay::Timeout,
        shown(phase, probe, port).state != ConnState::Online ==> shown(phase, probe, port).delay
            == Delay::Hidden,
{
}

/// The state of a daemon that is alive and online.
pub fn connected_state<'a>(state: Option<&'a RuntimeState>, alive: bool) -> (r: Option<
    &'a RuntimeState,
>)
    ensures
        r == (if state is Some && state->0.phase == Phase::Online && alive {
            state
        } else {
            None
        }),
{
    match state {
        Some(st) => if st.phase == Phase::Online && alive {
            Some(st)
        } else {
            None
        },
        None => None,
    }
}

// ---------------------------------------------------------------------------------------
// Commands for the current shell

/// The value of a variable of the environment.
#[derive(Debug, PartialEq, Eq)]
pub enum EnvValue {
    Absent,
    Text(String),
    /// It is not valid Unicode.
    NotText,
}

/// The name of another tool that has set the proxy of this shell.
pub open spec fn foreign_name(val: EnvValue) -> Option<Seq<char>> {
    match val {
        EnvValue::Absent => None,
        EnvValue::Text(t) => if t@.len() == 0 || t@ == "easy"@ {
            None
        } else {
            Some(t@)
        },
        EnvValue::NotText => Some("<非文本值>"@),
    }
}

/// The name of another tool that has set the proxy of this shell, by the value of `proxy_name`.
/// Where there is one, its variables are left alone.
pub fn foreign_proxy_name(val: &EnvValue) -> (r: Option<String>)
    ensures
        text::opt_text(r) == foreign_name(*val),
{
    match val {
        EnvValue::Absent => None,
        EnvValue::Text(t) => if t.as_str().is_empty() || text::same_text(t, "easy") {
            None
        } else {
            Some(t.clone())
        },
        EnvValue::NotText => Some("<非文本值>".to_owned()),
    }
}

/// The variables that `start` sets and `stop` removes.
pub open spec fn variables() -> Seq<Seq<char>> {
    seq!["http_proxy"@, "https_proxy"@, "all_proxy"@, "no_proxy"@, "CORP_PROXY"@, "proxy_name"@]
}

/// The address of the local proxy.
pub open spec fn local(scheme: Seq<char>, port: u16) -> Seq<char> {
    scheme + "://127.0.0.1:"@ + decimal::digits(port as nat)
}

/// Their values for a port.
pub open spec fn values(port: u16) -> Seq<Seq<char>> {
    seq![
        local("http"@, port),
        local("http"@, port),
        local("socks5"@, port),
        "localhost,127.0.0.1"@,
        local("http"@, port),
        "easy"@,
    ]
}

/// The line that sets a variable.
pub open spec fn export_text(name: Seq<char>, value: Seq<char>) -> Seq<char> {
    "export "@ + name + "="@ + value
}

/// The lines that set the variables for a port.
pub open spec fn export_texts(port: u16) -> Seq<Seq<char>> {
    Seq::new(6, |i: int| export_text(variables()[i], values(port)[i]))
}

/// The line that prints a message from within a shell.
pub open spec fn echo_text(message: Seq<char>) -> Seq<char> {
    "echo "@ + capsule::quoted(message)
}

fn echo_line(message: &str) -> (r: String)
    ensures
        r@ == echo_text(message@),
{
    let mut out = "echo ".to_owned();
    out.append(&capsule::shell_single_quote(message));
    out
}

fn export_line(name: &str, value: &str) -> (r: String)
    ensures
        r@ == export_text(name@, value@),
{
    let mut out = "export ".to_owned();
    out.append(name);
    out.append("=");
    out.append(value);
    out
}

fn local_proxy(scheme: &str, port: u16) -> (r: String)
    ensures
        r@ == local(scheme@, port),
{
    let mut out = scheme.to_owned();
    out.append("://127.0.0.1:");
    out.append(&decimal::decimal(port as u64));
    out
}

/// The lines that set the variables for a port, and tell that it was done.
pub open spec fn exports(
    port: u16,
    message: Seq<char>,
    prompt: PromptConfig,
    columns: usize,
) -> Seq<Seq<char>> {
    let status = ProxyStatus {
        state: ConnState::Online,
        delay: Delay::Hidden,
        port: Some(PortSeg::Num(port)),
    };
    export_texts(port).push(
        echo_text(capsule::ok_text(message, Some((status, columns)), prompt)),
    )
}

/// The lines that set the variables for a port, and tell that it was done.
pub fn emit_exports(port: u16, message: &str, prompt: &PromptConfig, columns: usize) -> (r: Vec<
    String,
>)
    ensures
        text::texts(r@) == exports(port, message@, *prompt, columns),
{
    let status = ProxyStatus {
        state: ConnState::Online,
        delay: Delay::Hidden,
        port: Some(PortSeg::Num(port)),
    };
    let http = local_proxy("http", port);
    let r: Vec<String> = vec![
        export_line("http_proxy", &http),
        export_line("https_proxy", &http),
        export_line("all_proxy", &local_proxy("socks5", port)),
        export_line("no_proxy", "localhost,127.0.0.1"),
        export_line("CORP_PROXY", &http),
        export_line("proxy_name", "easy"),
        echo_line(&capsule::success_line(message, Some((status, columns)), prompt)),
    ];
    assert(text::texts(r@) =~= exports(port, message@, *prompt, columns));
    r
}

/// The lines that tell of an error and end the evaluation with it.
pub open spec fn shell_error(message: Seq<char>, prompt: PromptConfig) -> Seq<Seq<char>> {
    seq![
        echo_text(capsule::err_text(message, None, prompt)),
        "return 1 2>/dev/null || exit 1"@,
    ]
}

/// The lines that tell of an error and end the evaluation with it.
pub fn emit_shell_error(message: &str, prompt: &PromptConfig) -> (r: Vec<String>)
    ensures
        text::texts(r@) == shell_error(message@, *prompt),
{
    let r: Vec<String> = vec![
        echo_line(&capsule::error_line(message, None, prompt)),
        "return 1 2>/dev/null || exit 1".to_owned(),
    ];
    assert(text::texts(r@) =~= shell_error(message@, *prompt));
    r
}

/// The error where another tool has set the proxy of this shell.
pub open spec fn foreign_text(name: Seq<char>) -> Seq<char> {
    "proxy_name 当前为 "@ + name + "，非 easy，拒绝操作"@
}

fn foreign_error(name: &str, prompt: &PromptConfig) -> (r: Vec<String>)
    ensures
        text::texts(r@) == shell_error(foreign_text(name@), *prompt),
{
    let mut m = "proxy_name 当前为 ".to_owned();
    m.append(name);
    m.append("，非 easy，拒绝操作");
    emit_shell_error(&m, prompt)
}

/// Which variables of this shell name a proxy.
#[derive(Debug, Clone, Copy, PartialEq, Eq, Structural)]
pub struct ProxySet {
    pub http_proxy: bool,
    pub https_proxy: bool,
    pub all_proxy: bool,
}

impl ProxySet {
    /// A proxy is set already.
    pub open spec fn taken(self) -> bool {
        self.http_proxy || self.https_proxy || self.all_proxy
    }

    /// Whether a proxy is set already.
    pub fn occupied(&self) -> (r: bool)
        ensures
            r == self.taken(),
    {
        self.http_proxy || self.https_proxy || self.all_proxy
    }
}

/// What `start` prints: the lines that set the variables, unless another tool has set the proxy
/// of this shell, no daemon is online, or a proxy is set already.
pub fn cmd_start(
    proxy_name: &EnvValue,
    connected: Option<u16>,
    set: ProxySet,
    prompt: &PromptConfig,
    columns: usize,
) -> (r: Vec<String>)
    ensures
        text::texts(r@) == (match (foreign_name(*proxy_name), connected) {
            (Some(name), _) => shell_error(foreign_text(name), *prompt),
            (None, None) => shell_error("未连接，请先执行 easy-proxy connect"@, *prompt),
            (None, Some(port)) => if set.taken() {
                shell_error("环境变量被占用，请先执行 easy-proxy stop"@, *prompt)
            } else {
                exports(port, "命令行代理已开启"@, *prompt, columns)
            },
        }),
{
    if let Some(name) = foreign_proxy_name(proxy_name) {
        return foreign_error(&name, prompt);
    }
    match connected {
        None => emit_shell_error("未连接，请先执行 easy-proxy connect", prompt),
        Some(port) => if set.occupied() {
            emit_shell_error("环境变量被占用，请先执行 easy-proxy stop", prompt)
        } else {
            emit_exports(port, "命令行代理已开启", prompt, columns)
        },
    }
}

/// The line that removes the variables.
pub open spec fn unset_text() -> Seq<char> {
    "unset "@ + text::join(variables(), " "@)
}

fn unset_line() -> (r: String)
    ensures
        r@ == unset_text(),
{
    let names: Vec<String> = vec![
        "http_proxy".to_owned(),
        "https_proxy".to_owned(),
        "all_proxy".to_owned(),
        "no_proxy".to_owned(),
        "CORP_PROXY".to_owned(),
        "proxy_name".to_owned(),
    ];
    assert(text::texts(names@) =~= variables());
    let mut unset = "unset ".to_owned();
    unset.append(&text::joined(&names, " "));
    unset
}

/// What `stop` prints: the line that removes the variables, unless another tool has set the
/// proxy of this shell and it is not forced.
pub fn cmd_stop(proxy_name: &EnvValue, force: bool, prompt: &PromptConfig) -> (r: Vec<String>)
    ensures
        text::texts(r@) == (match foreign_name(*proxy_name) {
            Some(name) if !force => shell_error(foreign_text(name), *prompt),
            _ => seq![
                unset_text(),
                echo_text(capsule::ok_text("命令行代理已关闭"@, None, *prompt)),
            ],
        }),
{
    if !force {
        if let Some(name) = foreign_proxy_name(proxy_name) {
            return foreign_error(&name, prompt);
        }
    }
    let r: Vec<String> = vec![
        unset_line(),
        echo_line(&capsule::success_line("命令行代理已关闭", None, prompt)),
    ];
    assert(text::texts(r@) =~= seq![
        unset_text(),
        echo_text(capsule::ok_text("命令行代理已关闭"@, None, *prompt)),
    ]);
    r
}

/// What `restart` prints: the lines that set the variables anew, unless another tool has set the
/// proxy of this shell and it is not forced, or no daemon is online.
pub fn cmd_restart(
    proxy_name: &EnvValue,
    force: bool,
    connected: Option<u16>,
    prompt: &PromptConfig,
    columns: usize,
) -> (r: Vec<String>)
    ensures
        text::texts(r@) == (match (foreign_name(*proxy_name), connected) {
            (Some(name), _) if !force => shell_error(foreign_text(name), *prompt),
            (_, None) => shell_error("未连接，请先执行 easy-proxy connect"@, *prompt),
            (_, Some(port)) => exports(port, "命令行代理已重启"@, *prompt, columns),
        }),
{
    if !force {
        if let Some(name) = foreign_proxy_name(proxy_name) {
            return foreign_error(&name, prompt);
        }
    }
    match connected {
        None => emit_shell_error("未连接，请先执行 easy-proxy connect", prompt),
        Some(port) => emit_exports(port, "命令行代理已重启", prompt, columns),
    }
}

/// What `disconnect` prints once the daemon is stopped: the line that removes the variables, and
/// that it was done.
pub fn cmd_disconnect(prompt: &PromptConfig, columns: usize) -> (r: Vec<String>)
    ensures
        text::texts(r@) == seq![
            unset_text(),
            echo_text(
                capsule::ok_text("已断开"@, Some((nothing_shown(), columns)), *prompt),
            ),
        ],
{
    let status = ProxyStatus { state: ConnState::Offline, delay: Delay::Hidden, port: None };
    let r: Vec<String> = vec![
        unset_line(),
        echo_line(&capsule::success_line("已断开", Some((status, columns)), prompt)),
    ];
    assert(text::texts(r@) =~= seq![
        unset_text(),
        echo_text(capsule::ok_text("已断开"@, Some((nothing_shown(), columns)), *prompt)),
    ]);
    r
}

/// What `status` prints: the capsule of the daemon that is alive, or of none.
pub fn cmd_status(
    state: Option<(&RuntimeState, Delay)>,
    prompt: &PromptConfig,
    columns: usize,
) -> (r: String)
    ensures
        r@ == capsule::capsule_text(
            match state {
                Some((st, probe)) => shown(st.phase, probe, port_shown(*st)),
                None => nothing_shown(),
            },
            *prompt,
            columns as int,
            0,
        ),
{
    let status = match state {
        Some((st, probe)) => runtime_capsule(st, probe),
        None => ProxyStatus { state: ConnState::Offline, delay: Delay::Hidden, port: None },
    };
    capsule::format_capsule(&status, prompt, columns, 0)
}

/// What `port` prints: the port of the daemon that is online; without one the configured port,
/// or an error where only a daemon's port is wanted.
pub fn cmd_port(connected: Option<u16>, mixed_port: u16, connected_only: bool) -> (r: Result<
    String,
    String,
>)
    ensures
        match connected {
            Some(port) => r matches Ok(t) && t@ == decimal::digits(port as nat),
            None => if connected_only {
                r matches Err(m) && m@ == "未连接"@
            } else {
                r matches Ok(t) && t@ == decimal::digits(mixed_port as nat)
            },
        },
{
    match connected {
        Some(port) => Ok(decimal::decimal(port as u64)),
        None => if connected_only {
            Err("未连接".to_owned())
        } else {
            Ok(decimal::decimal(mixed_port as u64))
        },
    }
}

/// What is evaluated to print a message prints just that message: behind the command stands one
/// closed word, which reads as the message and in which nothing stands bare.
pub proof fn law_printed_messages_are_inert(message: Seq<char>)
    ensures
        capsule::shell_reads(echo_text(message).skip(5)) == (capsule::ShellWord {
            word: message,
            quoted: false,
            escaped: false,
            bare: false,
        }),
{
    reveal_strlit("echo ");
    capsule::law_shell_reads_quoted(message);
    assert(echo_text(message).skip(5) =~= capsule::quoted(message));
}

// ---------------------------------------------------------------------------------------
// Laws of the way from the SMS to a session

/// A session that was obtained is returned, that one and no other: exactly where the rounds end
/// with one, and where the portal takes a code, typed or from a file.
pub proof fn law_an_obtained_session_is_returned(
    job: ObtainJob,
    stage: ObtainStage,
    ev: ObtainEvent<Seq<char>>,
)
    ensures
        ({
            let (to, action) = obtain_next(job, stage, ev);
            let session: Option<Seq<char>> = match ev {
                ObtainEvent::Fetched(t) => if stage is Fetching {
                    t
                } else {
                    None
                },
                ObtainEvent::Accepted(t) => if stage is Submitting {
                    Some(t)
                } else {
                    None
                },
                _ => None,
            };
            &&& action is Return <==> session is Some
            &&& action is Return ==> Some(action->Return_0) == session && to is Done
        }),
{
}

/// A code is asked for, the first time: where a file is named, or where no command is configured, as
/// soon as it is shown that an SMS was sent; else once the rounds ended without a session. It is
/// asked for once more after each refusal that leaves an attempt. It is looked for in the file
/// where one is named, and else the user types it.
pub proof fn law_when_a_code_is_asked_for(
    job: ObtainJob,
    stage: ObtainStage,
    ev: ObtainEvent<Seq<char>>,
)
    ensures
        ({
            let (to, action) = obtain_next(job, stage, ev);
            let first = (stage is Heading && ev is Shown && (job.sms_file is Some || job.command
                is None)) || (stage is Fetching && ev == ObtainEvent::<Seq<char>>::Fetched(None));
            let again = match stage {
                ObtainStage::Refusing { attempt, .. } => ev is Shown && attempt < 3,
                _ => false,
            };
            &&& action is AskCode <==> (first || again) && job.sms_file is None
            &&& action is ReadFile <==> (first || again) && job.sms_file is Some
            &&& action is ReadFile ==> action->ReadFile_0 == job.sms_file->0@
            &&& first ==> to == (ObtainStage::Asking {
                by_hand: job.sms_file is None,
                attempt: 1,
            })
            &&& again ==> to == (ObtainStage::Asking {
                by_hand: job.sms_file is None,
                attempt: (stage->Refusing_attempt + 1) as u32,
            })
            &&& action is Fetch <==> stage is Heading && ev is Shown && job.sms_file is None
                && job.command is Some
            &&& action is Fetch ==> to is Fetching && action->Fetch_0 == job.command->0@
        }),
{
}

/// A code is handed in as it was typed or found. One that is refused is answered with the reason and
/// the attempts that are left of three; the way ends in an error after the third refusal, where no
/// code came, where one could not be handed in, and where the rounds broke off.
pub proof fn law_what_becomes_of_a_code(
    job: ObtainJob,
    stage: ObtainStage,
    ev: ObtainEvent<Seq<char>>,
)
    ensures
        ({
            let (to, action) = obtain_next(job, stage, ev);
            let why: Option<Seq<char>> = match (stage, ev) {
                (ObtainStage::Fetching, ObtainEvent::FetchFailed(m)) => Some(m),
                (ObtainStage::Asking { .. }, ObtainEvent::NoCode(m)) => Some(m),
                (ObtainStage::Submitting { .. }, ObtainEvent::SubmitFailed(m)) => Some(m),
                (ObtainStage::Refusing { by_hand, attempt }, ObtainEvent::Shown) => if attempt < 3 {
                    None
                } else if by_hand {
                    Some("验证码连续 3 次错误"@)
                } else {
                    Some("[自动化] 验证码连续 3 次被拒"@)
                },
                _ => None,
            };
            &&& action is Submit <==> stage is Asking && ev is Code
            &&& action is Submit ==> action == ObtainAction::Submit(ev->Code_0) && to == (
            ObtainStage::Submitting {
                by_hand: stage->Asking_by_hand,
                attempt: stage->Asking_attempt,
            })
            &&& action is Fail <==> why is Some
            &&& action is Fail ==> Some(action->Fail_0) == why && to is Done
            &&& match (stage, ev) {
                (
                    ObtainStage::Submitting { by_hand, attempt },
                    ObtainEvent::Rejected(reason),
                ) => attempt <= 3 ==> to == (ObtainStage::Refusing { by_hand, attempt }) && action
                    == ObtainAction::Show(
                    capsule::err_text(
                        (if by_hand {
                            "验证码错误（"@
                        } else {
                            "[自动化] 验证码被拒（"@
                        }) + reason + "），剩余 "@ + decimal::digits((3 - attempt) as nat)
                            + " 次"@,
                        None,
                        job.prompt,
                    ),
                ),
                (ObtainStage::Start, ObtainEvent::Begin) => to is Heading && action
                    == ObtainAction::Show(sent_text(job.phone@, job.prompt)),
                _ => true,
            }
        }),
{
}

/// The line that tells of an SMS names the phone, where it is known.
pub proof fn law_the_phone_is_named(phone: Seq<char>, prompt: PromptConfig)
    ensures
        phone.len() > 0 ==> sent_text(phone, prompt) == capsule::ok_text(
            "短信验证码已发送至 "@ + phone,
            None,
            prompt,
        ),
        phone.len() == 0 ==> sent_text(phone, prompt) == capsule::ok_text(
            "短信验证码已发送"@,
            None,
            prompt,
        ),
{
}

// ---------------------------------------------------------------------------------------
// Laws of what is printed for a shell

/// The lines that `start` prints set these variables, and the line that `stop` prints removes
/// exactly these again: the proxy for requests by HTTP, plain and secured, at the mixed port; the
/// proxy for everything else there too, by SOCKS; what goes past the proxy; and whose they are.
#[verifier::spinoff_prover]
#[verifier::rlimit(60)]
pub proof fn law_stop_removes_what_start_sets(port: u16)
    ensures
        ({
            let names = seq![
                "http_proxy"@,
                "https_proxy"@,
                "all_proxy"@,
                "no_proxy"@,
                "CORP_PROXY"@,
                "proxy_name"@,
            ];
            let at = "://127.0.0.1:"@ + decimal::digits(port as nat);
            let values = seq![
                "http"@ + at,
                "http"@ + at,
                "socks5"@ + at,
                "localhost,127.0.0.1"@,
                "http"@ + at,
                "easy"@,
            ];
            &&& export_texts(port).len() == 6
            &&& forall|i: int|
                0 <= i < 6 ==> #[trigger] export_texts(port)[i] == "export "@ + names[i] + "="@
                    + values[i]
            &&& text::split(unset_text(), ' ') == seq!["unset"@] + names
        }),
{
    let names = variables();
    let at = "://127.0.0.1:"@ + decimal::digits(port as nat);
    assert("http"@ + at =~= local("http"@, port));
    assert("socks5"@ + at =~= local("socks5"@, port));
    reveal_strlit("http_proxy");
    reveal_strlit("https_proxy");
    reveal_strlit("all_proxy");
    reveal_strlit("no_proxy");
    reveal_strlit("CORP_PROXY");
    reveal_strlit("proxy_name");
    reveal_strlit("unset");
    reveal_strlit("unset ");
    reveal_strlit(" ");
    assert(" "@ =~= seq![' ']);
    let parts = seq!["unset"@] + names;
    assert forall|i: int| 0 <= i < parts.len() implies text::free_of(#[trigger] parts[i], ' ') by {
        assert(text::free_of("unset"@, ' '));
        assert(text::free_of("http_proxy"@, ' '));
        assert(text::free_of("https_proxy"@, ' '));
        assert(text::free_of("all_proxy"@, ' '));
        assert(text::free_of("no_proxy"@, ' '));
        assert(text::free_of("CORP_PROXY"@, ' '));
        assert(text::free_of("proxy_name"@, ' '));
    }
    text::law_splitting_undoes_joining(parts, ' ');
    text::lemma_join_front("unset"@, names, seq![' ']);
    assert("unset "@ =~= "unset"@ + seq![' ']);
    assert(unset_text() =~= text::join(parts, seq![' ']));
}

/// Another tool is named by what the variable holds, unless that is nothing or this tool's own name;
/// what is not text is another tool's too.
pub proof fn law_whose_a_proxy_is(val: EnvValue)
    ensures
        val is Absent ==> foreign_name(val) is None,
        val is NotText ==> foreign_name(val) is Some,
        val matches EnvValue::Text(t) ==> (foreign_name(val) is None <==> t@.len() == 0 || t@
            == "easy"@) && (foreign_name(val) is Some ==> foreign_name(val) == Some(t@)),
{
}

/// What is told where another tool has set the proxy, and where there is an error: the message is
/// printed, and the evaluation ends with a failure, in a function and at the prompt alike.
pub proof fn law_errors_end_the_evaluation(
    name: Seq<char>,
    message: Seq<char>,
    prompt: PromptConfig,
)
    ensures
        shell_error(message, prompt).len() == 2,
        shell_error(message, prompt)[0] == "echo "@ + capsule::quoted(
            capsule::err_text(message, None, prompt),
        ),
        shell_error(message, prompt)[1] == "return 1 2>/dev/null || exit 1"@,
        foreign_text(name) == "proxy_name 当前为 "@ + name + "，非 easy，拒绝操作"@,
{
}

/// Behind the lines that set the variables stands one that prints the message with a capsule that
/// says online and shows the port.
pub proof fn law_starting_is_told(
    port: u16,
    message: Seq<char>,
    prompt: PromptConfig,
    columns: usize,
)
    ensures
        exports(port, message, prompt, columns).take(6) == export_texts(port),
        exports(port, message, prompt, columns).len() == 7,
        exports(port, message, prompt, columns)[6] == "echo "@ + capsule::quoted(
            capsule::ok_text(
                message,
                Some(
                    (
                        (ProxyStatus {
                            state: ConnState::Online,
                            delay: Delay::Hidden,
                            port: Some(PortSeg::Num(port)),
                        }),
                        columns,
                    ),
                ),
                prompt,
            ),
        ),
{
    assert(exports(port, message, prompt, columns).take(6) =~= export_texts(port));
}

/// A capsule shows the port of every daemon, and that it runs in the transparent mode in place of
/// it; it shows the delay of exactly those that are online. Of no daemon it shows that it is
/// offline.
pub proof fn law_what_a_capsule_shows(st: RuntimeState, probe: Delay)
    ensures
        shown(st.phase, probe, port_shown(st)).port == Some(
            if st.mode == Mode::Tun {
                PortSeg::Tun
            } else {
                PortSeg::Num(st.port)
            },
        ),
        st.phase == Phase::Online && probe != Delay::Timeout ==> shown(
            st.phase,
            probe,
            port_shown(st),
        ).delay == probe,
        shown(st.phase, probe, port_shown(st)).state != ConnState::Offline,
        nothing_shown() == (ProxyStatus {
            state: ConnState::Offline,
            delay: Delay::Hidden,
            port: None,
        }),
{
}

/// The escape key was pressed exactly where its byte is there and what was typed does not begin like
/// the sequence of another key.
pub proof fn law_when_escape_was_pressed(before: Seq<u8>, after: Seq<u8>)
    requires
        before.len() > 0,
        before[0] != 0x1b,
    ensures
        escape_typed(before + seq![0x1bu8] + after),
        escape_typed(seq![0x1bu8]),
        !escape_typed(seq![0x1bu8, 0x5b] + after),
        !escape_typed(seq![0x1bu8, 0x4f] + after),
        !(exists|i: int| 0 <= i < after.len() && after[i] == 0x1b) ==> !escape_typed(after),
{
    let all = before + seq![0x1bu8] + after;
    assert(all[before.len() as int] == 0x1b);
    assert(seq![0x1bu8][0] == 0x1b);
}

// ---------------------------------------------------------------------------------------
// Laws of the commands

/// `start` sets the variables for the port of the daemon exactly where no other tool has set the
/// proxy, a daemon is online, and no proxy is set; otherwise it prints an error and sets nothing.
pub proof fn law_when_start_sets_the_variables(
    proxy_name: &EnvValue,
    connected: Option<u16>,
    set: ProxySet,
    prompt: &PromptConfig,
    columns: usize,
    r: Vec<String>,
)
    requires
        call_ensures(cmd_start, (proxy_name, connected, set, prompt, columns), r),
    ensures
        ({
            let free = foreign_name(*proxy_name) is None && connected is Some && !set.http_proxy
                && !set.https_proxy && !set.all_proxy;
            &&& free ==> text::texts(r@).take(6) == export_texts(connected->0)
            &&& !free ==> text::texts(r@).len() == 2 && text::texts(r@)[1]
                == "return 1 2>/dev/null || exit 1"@
        }),
{
    if connected is Some {
        law_starting_is_told(connected->0, "命令行代理已开启"@, *prompt, columns);
    }
}

/// `stop` removes the variables, and `restart` sets them anew for the port of a daemon that is
/// online, unless another tool has set the proxy; where it is forced, that does not count. Neither
/// looks at which variables are set.
pub proof fn law_when_the_variables_are_renewed(
    proxy_name: &EnvValue,
    force: bool,
    connected: Option<u16>,
    prompt: &PromptConfig,
    columns: usize,
    stopped: Vec<String>,
    renewed: Vec<String>,
)
    requires
        call_ensures(cmd_stop, (proxy_name, force, prompt), stopped),
        call_ensures(cmd_restart, (proxy_name, force, connected, prompt, columns), renewed),
    ensures
        ({
            let allowed = force || foreign_name(*proxy_name) is None;
            let failure = "return 1 2>/dev/null || exit 1"@;
            &&& text::texts(stopped@).len() == 2
            &&& allowed ==> text::texts(stopped@)[0] == unset_text()
            &&& !allowed ==> text::texts(stopped@)[1] == failure
            &&& allowed && connected is Some ==> text::texts(renewed@).take(6) == export_texts(
                connected->0,
            )
            &&& !(allowed && connected is Some) ==> text::texts(renewed@).len() == 2 && text::texts(
                renewed@,
            )[1] == failure
        }),
{
    if connected is Some {
        law_starting_is_told(connected->0, "命令行代理已重启"@, *prompt, columns);
    }
}

/// A daemon counts as connected exactly where it is alive and its state says that it is online.
pub proof fn law_which_daemon_is_connected(
    state: Option<&RuntimeState>,
    alive: bool,
    r: Option<&RuntimeState>,
)
    requires
        call_ensures(connected_state, (state, alive), r),
    ensures
        r is Some <==> state is Some && alive && state->0.phase == Phase::Online,
        r is Some ==> r == state,
{
}

/// A wait is over once its time is up or it is cancelled, and not before; a key cancels a wait even
/// when its time is up, the end of the daemon only one whose time is not.
pub proof fn law_when_a_wait_is_over(
    cancel: bool,
    elapsed_ms: u64,
    total_ms: u64,
    by_key: SleepStep,
    by_end: SleepStep,
)
    requires
        call_ensures(sleep_cancelable, (cancel, elapsed_ms, total_ms), by_key),
        call_ensures(daemon_sleep, (cancel, elapsed_ms, total_ms), by_end),
    ensures
        by_key is Over <==> cancel || elapsed_ms >= total_ms,
        by_end is Over <==> cancel || elapsed_ms >= total_ms,
        by_key == (SleepStep::Over { cancelled: true }) <==> cancel,
        by_end == (SleepStep::Over { cancelled: true }) <==> cancel && elapsed_ms < total_ms,
{
}

/// A code from a file counts whenever it is found, however late; without one the wait goes on for
/// three minutes.
pub proof fn law_how_long_a_file_is_waited_for(
    content: Option<&str>,
    elapsed_ms: u64,
    r: FilePoll,
)
    requires
        call_ensures(wait_sms_file, (content, elapsed_ms), r),
    ensures
        r is Code <==> (content matches Some(s) && sms::code_in(s@) is Some),
        r matches FilePoll::Code(c) ==> Some(c@) == sms::code_in(content->0@),
        r is TimedOut <==> !(r is Code) && elapsed_ms >= 180000,
{
}

/// `port` prints the port of the daemon that is online, and without one the configured port, unless
/// only a daemon's port is wanted, which is then an error. `disconnect` removes the variables.
pub proof fn law_which_port_is_printed(
    connected: Option<u16>,
    mixed_port: u16,
    connected_only: bool,
    r: Result<String, String>,
    prompt: &PromptConfig,
    columns: usize,
    gone: Vec<String>,
)
    requires
        call_ensures(cmd_port, (connected, mixed_port, connected_only), r),
        call_ensures(cmd_disconnect, (prompt, columns), gone),
    ensures
        r is Err <==> connected is None && connected_only,
        r is Ok ==> decimal::parse_unsigned(r->Ok_0@, u16::MAX as int) == Some(
            match connected {
                Some(p) => p as int,
                None => mixed_port as int,
            },
        ),
        text::texts(gone@).len() == 2,
        text::texts(gone@)[0] == unset_text(),
{
    decimal::lemma_parse_of_digits(mixed_port as nat, u16::MAX as int);
    if connected is Some {
        decimal::lemma_parse_of_digits(connected->0 as nat, u16::MAX as int);
    }
}

/// `status` prints the capsule of the daemon that is alive: online, with its delay, exactly where it
/// says so itself and its tunnel answered; and that there is none where none is.
pub proof fn law_which_status_is_printed(
    state: Option<(&RuntimeState, Delay)>,
    prompt: &PromptConfig,
    columns: usize,
    r: String,
)
    requires
        call_ensures(cmd_status, (state, prompt, columns), r),
    ensures
        r@ == capsule::capsule_text(
            (ProxyStatus {
                state: match state {
                    Some((st, probe)) => if st.phase == Phase::Online && probe != Delay::Timeout {
                        ConnState::Online
                    } else {
                        ConnState::Reconnecting
                    },
                    None => ConnState::Offline,
                },
                delay: match state {
                    Some((st, probe)) => if st.phase == Phase::Online && probe != Delay::Timeout {
                        probe
                    } else {
                        Delay::Hidden
                    },
                    None => Delay::Hidden,
                },
                port: match state {
                    Some((st, _)) => Some(
                        if st.mode == Mode::Tun {
                            PortSeg::Tun
                        } else {
                            PortSeg::Num(st.port)
                        },
                    ),
                    None => None,
                },
            }),
            *prompt,
            columns as int,
            0,
        ),
{
}

} // verus!
