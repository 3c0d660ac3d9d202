//! Fetching the SMS code by a command and handing it in, round by round.
//!
//! The same rounds serve a login in the foreground and a silent one: what differs is told
//! through [`SmsUi`].

use vstd::prelude::*;

use crate::capsule;
use crate::config::{AppConfig, PromptConfig};
use crate::decimal;
use crate::text;

verus! {

/// How long the command may run, in milliseconds. It waits for the SMS itself; this only ends
/// one that hangs.
pub const SMS_COMMAND_TIMEOUT_MS: u64 = 90000;

/// What the command brought.
#[derive(Debug, PartialEq, Eq)]
pub enum SmsFetch {
    Code(String),
    /// No code: nothing printed, or something else, or it took too long, or it failed.
    Empty,
    Cancelled,
}

/// Where the progress of fetching is shown, and where it can be cancelled.
pub trait SmsUi {
    /// Shows a line for something under way.
    fn progress(&self, text: &str);

    /// Shows the final line of something that succeeded.
    fn finish_ok(&self, text: &str);

    /// Shows the final line of something that failed.
    fn finish_err(&self, text: &str);

    /// Whether it has been asked to cancel.
    fn is_cancelled(&self) -> bool;

    /// Waits for so many milliseconds; `true` where it was asked to cancel meanwhile.
    fn sleep_cancelable(&self, millis: u64) -> bool;

    /// The hint how to cancel, behind a line for something under way; none unless an
    /// implementation gives one.
    fn cancel_hint(&self) -> (r: &str)
        default_ensures
            r@ == ""@,
    {
        ""
    }
}

/// A code: four to eight digits.
pub open spec fn is_code(s: Seq<char>) -> bool {
    4 <= s.len() <= 8 && text::all_digits(s)
}

/// The code in an output: what is left of it without the white space around it, where that is
/// a code.
pub open spec fn code_in(raw: Seq<char>) -> Option<Seq<char>> {
    if is_code(text::trim(raw)) {
        Some(text::trim(raw))
    } else {
        None
    }
}

/// The code in an output.
pub fn valid_sms_code(raw: &str) -> (r: Option<String>)
    ensures
        text::opt_text(r) == code_in(raw@),
{
    let chars = text::trimmed_chars(&text::chars_of(raw));
    if 4 <= chars.len() && chars.len() <= 8 && text::only_digits(&chars) {
        Some(text::string_of(&chars))
    } else {
        None
    }
}

/// Whether another SMS is asked for before a round, by how the round before it ended: with no
/// code (`Some(true)`), with one that was refused (`Some(false)`), or not at all (`None`).
pub fn should_resend(prev_empty: Option<bool>) -> (r: bool)
    ensures
        r == (prev_empty == Some(true)),
{
    match prev_empty {
        Some(empty) => empty,
        None => false,
    }
}

// ---------------------------------------------------------------------------------------
// Running the command

/// What has been seen of the command.
#[derive(Debug, PartialEq, Eq)]
pub enum CommandEvent {
    NotStarted,
    /// Its state could not be learnt.
    WaitFailed,
    /// It is still running.
    Running { cancelled: bool, elapsed_ms: u64 },
    Exited { success: bool, stdout: String },
}

/// What to do about the command.
#[derive(Debug, PartialEq, Eq)]
pub enum CommandStep {
    Finish(SmsFetch),
    /// End the command first.
    Kill(SmsFetch),
    /// Look again after so many milliseconds.
    Poll(u64),
}

/// One look at the command. A code that it prints counts only where it ends well; it is ended
/// where it was asked to cancel, or where the time is up.
pub fn run_sms_command(ev: &CommandEvent, timeout_ms: u64) -> (r: CommandStep)
    ensures
        match *ev {
            CommandEvent::NotStarted => r == CommandStep::Finish(SmsFetch::Empty),
            CommandEvent::WaitFailed => r == CommandStep::Finish(SmsFetch::Empty),
            CommandEvent::Running { cancelled, elapsed_ms } => r == (if cancelled {
                CommandStep::Kill(SmsFetch::Cancelled)
            } else if elapsed_ms >= timeout_ms {
                CommandStep::Kill(SmsFetch::Empty)
            } else {
                CommandStep::Poll(150)
            }),
            CommandEvent::Exited { success, stdout } => match code_in(stdout@) {
                Some(c) => if success {
                    r matches CommandStep::Finish(SmsFetch::Code(code)) && code@ == c
                } else {
                    r == CommandStep::Finish(SmsFetch::Empty)
                },
                None => r == CommandStep::Finish(SmsFetch::Empty),
            },
        },
{
    match ev {
        CommandEvent::NotStarted => CommandStep::Finish(SmsFetch::Empty),
        CommandEvent::WaitFailed => CommandStep::Finish(SmsFetch::Empty),
        CommandEvent::Running { cancelled, elapsed_ms } => if *cancelled {
            CommandStep::Kill(SmsFetch::Cancelled)
        } else if *elapsed_ms >= timeout_ms {
            CommandStep::Kill(SmsFetch::Empty)
        } else {
            CommandStep::Poll(150)
        },
        CommandEvent::Exited { success, stdout } => match valid_sms_code(stdout) {
            Some(code) => if *success {
                CommandStep::Finish(SmsFetch::Code(code))
            } else {
                CommandStep::Finish(SmsFetch::Empty)
            },
            None => CommandStep::Finish(SmsFetch::Empty),
        },
    }
}

// ---------------------------------------------------------------------------------------
// The rounds

/// What the rounds are waiting for.
#[derive(Debug, PartialEq, Eq)]
pub enum FetchStage<T> {
    /// The line for the round is being shown.
    Showing,
    /// Another SMS is being asked for.
    Resending,
    /// The SMS is being noted.
    Noting,
    /// The time before the command is being waited for.
    Sleeping,
    /// The command is running.
    Fetching,
    /// A code is being handed in.
    Submitting,
    /// Success is being shown, with this session.
    Passing(T),
    /// Failure is being shown.
    Closing,
    Done,
}

/// What has happened in the rounds.
#[derive(Debug, PartialEq, Eq)]
pub enum FetchEvent<T> {
    Shown,
    Resent,
    ResendFailed(T),
    Noted,
    Slept { cancelled: bool },
    Code(T),
    Empty,
    Cancelled,
    Accepted(T),
    Rejected,
    SubmitFailed(T),
}

/// What to do next in the rounds.
#[derive(Debug, PartialEq, Eq)]
pub enum FetchAction<T> {
    Progress(T),
    /// Ask the portal for another SMS.
    Resend,
    /// Note that an SMS was sent.
    NoteSmsSent,
    /// Wait for so many milliseconds.
    Sleep(u64),
    RunCommand,
    Submit(T),
    FinishOk(T),
    FinishErr(T),
    /// The end: a session, or none.
    Return(Option<T>),
    /// The end, with an error.
    Fail(T),
    /// What happened does not concern this stage.
    Wait,
}

impl View for FetchStage<String> {
    type V = FetchStage<Seq<char>>;

    open spec fn view(&self) -> FetchStage<Seq<char>> {
        match *self {
            FetchStage::Showing => FetchStage::Showing,
            FetchStage::Resending => FetchStage::Resending,
            FetchStage::Noting => FetchStage::Noting,
            FetchStage::Sleeping => FetchStage::Sleeping,
            FetchStage::Fetching => FetchStage::Fetching,
            FetchStage::Submitting => FetchStage::Submitting,
            FetchStage::Passing(t) => FetchStage::Passing(t@),
            FetchStage::Closing => FetchStage::Closing,
            FetchStage::Done => FetchStage::Done,
        }
    }
}

impl View for FetchEvent<String> {
    type V = FetchEvent<Seq<char>>;

    open spec fn view(&self) -> FetchEvent<Seq<char>> {
        match *self {
            FetchEvent::Shown => FetchEvent::Shown,
            FetchEvent::Resent => FetchEvent::Resent,
            FetchEvent::ResendFailed(e) => FetchEvent::ResendFailed(e@),
            FetchEvent::Noted => FetchEvent::Noted,
            FetchEvent::Slept { cancelled } => FetchEvent::Slept { cancelled },
            FetchEvent::Code(c) => FetchEvent::Code(c@),
            FetchEvent::Empty => FetchEvent::Empty,
            FetchEvent::Cancelled => FetchEvent::Cancelled,
            FetchEvent::Accepted(t) => FetchEvent::Accepted(t@),
            FetchEvent::Rejected => FetchEvent::Rejected,
            FetchEvent::SubmitFailed(e) => FetchEvent::SubmitFailed(e@),
        }
    }
}

impl View for FetchAction<String> {
    type V = FetchAction<Seq<char>>;

    open spec fn view(&self) -> FetchAction<Seq<char>> {
        match *self {
            FetchAction::Progress(t) => FetchAction::Progress(t@),
            FetchAction::Resend => FetchAction::Resend,
            FetchAction::NoteSmsSent => FetchAction::NoteSmsSent,
            FetchAction::Sleep(ms) => FetchAction::Sleep(ms),
            FetchAction::RunCommand => FetchAction::RunCommand,
            FetchAction::Submit(c) => FetchAction::Submit(c@),
            FetchAction::FinishOk(t) => FetchAction::FinishOk(t@),
            FetchAction::FinishErr(t) => FetchAction::FinishErr(t@),
            FetchAction::Return(t) => FetchAction::Return(text::opt_text(t)),
            FetchAction::Fail(e) => FetchAction::Fail(e@),
            FetchAction::Wait => FetchAction::Wait,
        }
    }
}

/// The rounds of fetching, in the model.
#[verifier::ext_equal]
pub struct RoundsView {
    /// How many rounds there are.
    pub max: u32,
    /// The seconds to wait before each round after the first.
    pub wait_secs: u32,
    pub hint: Seq<char>,
    pub prompt: PromptConfig,
    /// The round that is under way, from one.
    pub round: u32,
    /// How the round before ended.
    pub prev_empty: Option<bool>,
}

pub type FetchTurn = (RoundsView, FetchStage<Seq<char>>, FetchAction<Seq<char>>);

/// The line for a round.
pub open spec fn round_line(f: RoundsView) -> Seq<char> {
    "  [自动] 第 "@ + decimal::digits(f.round as nat) + "/"@ + decimal::digits(f.max as nat)
        + " 次取码…"@ + f.hint
}

/// Showing that the rounds are over without a session.
pub open spec fn close(f: RoundsView, message: Seq<char>) -> FetchTurn {
    (
        f,
        FetchStage::Closing,
        FetchAction::FinishErr(capsule::err_text(message, None, f.prompt)),
    )
}

/// The rounds were cancelled.
pub open spec fn cancelled_rounds(f: RoundsView) -> FetchTurn {
    close(f, "[自动] 已取消自动取码，转手动输入"@)
}

/// The next round, where one is left.
pub open spec fn next_round(f: RoundsView) -> FetchTurn {
    if f.round < f.max {
        let g = RoundsView { round: (f.round + 1) as u32, ..f };
        (g, FetchStage::Showing, FetchAction::Progress(round_line(g)))
    } else {
        close(f, "[自动] 未取到验证码，回退手动输入"@)
    }
}

/// The wait before a round after the first.
pub open spec fn pause(f: RoundsView) -> FetchTurn {
    (f, FetchStage::Sleeping, FetchAction::Sleep((f.wait_secs * 1000) as u64))
}

/// What follows on an event.
pub open spec fn fetch_next(
    f: RoundsView,
    stage: FetchStage<Seq<char>>,
    ev: FetchEvent<Seq<char>>,
) -> FetchTurn {
    match (stage, ev) {
        (FetchStage::Showing, FetchEvent::Shown) => match f.prev_empty {
            None => (f, FetchStage::Fetching, FetchAction::RunCommand),
            Some(true) => (f, FetchStage::Resending, FetchAction::Resend),
            Some(false) => pause(f),
        },
        (FetchStage::Resending, FetchEvent::Resent) => (
            f,
            FetchStage::Noting,
            FetchAction::NoteSmsSent,
        ),
        (FetchStage::Resending, FetchEvent::ResendFailed(e)) => close(
            f,
            "[自动] 补发短信失败："@ + e + "，回退手动输入"@,
        ),
        (FetchStage::Noting, FetchEvent::Noted) => pause(f),
        (FetchStage::Sleeping, FetchEvent::Slept { cancelled }) => if cancelled {
            cancelled_rounds(f)
        } else {
            (f, FetchStage::Fetching, FetchAction::RunCommand)
        },
        (FetchStage::Fetching, FetchEvent::Cancelled) => cancelled_rounds(f),
        (FetchStage::Fetching, FetchEvent::Empty) => next_round(
            RoundsView { prev_empty: Some(true), ..f },
        ),
        (FetchStage::Fetching, FetchEvent::Code(c)) => (
            f,
            FetchStage::Submitting,
            FetchAction::Submit(c),
        ),
        (FetchStage::Submitting, FetchEvent::Accepted(t)) => (
            f,
            FetchStage::Passing(t),
            FetchAction::FinishOk(capsule::ok_text("[自动] 验证码已通过"@, None, f.prompt)),
        ),
        (FetchStage::Submitting, FetchEvent::Rejected) => next_round(
            RoundsView { prev_empty: Some(false), ..f },
        ),
        (FetchStage::Submitting, FetchEvent::SubmitFailed(e)) => (
            f,
            FetchStage::Done,
            FetchAction::Fail(e),
        ),
        (FetchStage::Passing(t), FetchEvent::Shown) => (
            f,
            FetchStage::Done,
            FetchAction::Return(Some(t)),
        ),
        (FetchStage::Closing, FetchEvent::Shown) => (
            f,
            FetchStage::Done,
            FetchAction::Return(None),
        ),
        _ => (f, stage, FetchAction::Wait),
    }
}

/// The rounds of fetching.
#[derive(Debug)]
pub struct Rounds {
    pub max: u32,
    pub wait_secs: u32,
    pub hint: String,
    pub prompt: PromptConfig,
    pub round: u32,
    pub prev_empty: Option<bool>,
}

impl View for Rounds {
    type V = RoundsView;

    open spec fn view(&self) -> RoundsView {
        RoundsView {
            max: self.max,
            wait_secs: self.wait_secs,
            hint: self.hint@,
            prompt: self.prompt,
            round: self.round,
            prev_empty: self.prev_empty,
        }
    }
}

/// The rounds between two events.
#[derive(Debug)]
pub struct FetchLoop {
    pub rounds: Rounds,
    pub stage: FetchStage<String>,
}

/// What the rounds and their action are in the model.
pub open spec fn fetch_turn(r: (FetchLoop, FetchAction<String>)) -> FetchTurn {
    (r.0.rounds@, r.0.stage@, r.1@)
}

/// The rounds before the first.
pub open spec fn no_round_yet(
    retries: u32,
    wait_secs: u32,
    hint: Seq<char>,
    prompt: PromptConfig,
) -> RoundsView {
    RoundsView {
        max: (1 + retries) as u32,
        wait_secs,
        hint,
        prompt,
        round: 0,
        prev_empty: None,
    }
}

impl Rounds {
    fn close(self, message: &str) -> (r: (FetchLoop, FetchAction<String>))
        ensures
            fetch_turn(r) == close(self@, message@),
    {
        let line = capsule::error_line(message, None, &self.prompt);
        (FetchLoop { rounds: self, stage: FetchStage::Closing }, FetchAction::FinishErr(line))
    }

    fn cancelled(self) -> (r: (FetchLoop, FetchAction<String>))
        ensures
            fetch_turn(r) == cancelled_rounds(self@),
    {
        self.close("[自动] 已取消自动取码，转手动输入")
    }

    fn next_round(self) -> (r: (FetchLoop, FetchAction<String>))
        ensures
            fetch_turn(r) == next_round(self@),
    {
        if self.round < self.max {
            let round: u32 = self.round + 1;
            let mut line = "  [自动] 第 ".to_owned();
            line.append(&decimal::decimal(round as u64));
            line.append("/");
            line.append(&decimal::decimal(self.max as u64));
            line.append(" 次取码…");
            line.append(&self.hint);
            let rounds = Rounds { round, ..self };
            (FetchLoop { rounds, stage: FetchStage::Showing }, FetchAction::Progress(line))
        } else {
            self.close("[自动] 未取到验证码，回退手动输入")
        }
    }

    fn pause(self) -> (r: (FetchLoop, FetchAction<String>))
        ensures
            fetch_turn(r) == pause(self@),
    {
        let millis: u64 = self.wait_secs as u64 * 1000;
        (FetchLoop { rounds: self, stage: FetchStage::Sleeping }, FetchAction::Sleep(millis))
    }
}

impl FetchLoop {
    /// The rounds with the first one about to be shown. There are `1 + sms_retries` of them.
    pub fn new(cfg: &AppConfig, hint: &str, prompt: PromptConfig) -> (r: (
        FetchLoop,
        FetchAction<String>,
    ))
        requires
            cfg.sms_retries < u32::MAX,
        ensures
            fetch_turn(r) == next_round(
                no_round_yet(cfg.sms_retries, cfg.sms_retry_interval_secs, hint@, prompt),
            ),
    {
        let rounds = Rounds {
            max: 1 + cfg.sms_retries,
            wait_secs: cfg.sms_retry_interval_secs,
            hint: hint.to_owned(),
            prompt,
            round: 0,
            prev_empty: None,
        };
        rounds.next_round()
    }
}

/// One step of the rounds. Each round shows its line and runs the command; a code is handed in
/// at once. Before each round after the first there is a wait, and where the round before
/// brought no code, another SMS is asked for first. The rounds end with a session, when none is
/// left, when they are cancelled, or when no SMS can be asked for.
pub fn fetch_and_submit_loop(at: FetchLoop, ev: FetchEvent<String>) -> (r: (
    FetchLoop,
    FetchAction<String>,
))
    ensures
        fetch_turn(r) == fetch_next(at.rounds@, at.stage@, ev@),
{
    let FetchLoop { rounds, stage } = at;
    match stage {
        FetchStage::Showing => match ev {
            FetchEvent::Shown => match rounds.prev_empty {
                None => (
                    FetchLoop { rounds, stage: FetchStage::Fetching },
                    FetchAction::RunCommand,
                ),
                Some(_) => if should_resend(rounds.prev_empty) {
                    (FetchLoop { rounds, stage: FetchStage::Resending }, FetchAction::Resend)
                } else {
                    rounds.pause()
                },
            },
            _ => (FetchLoop { rounds, stage: FetchStage::Showing }, FetchAction::Wait),
        },
        FetchStage::Resending => match ev {
            FetchEvent::Resent => (
                FetchLoop { rounds, stage: FetchStage::Noting },
                FetchAction::NoteSmsSent,
            ),
            FetchEvent::ResendFailed(e) => {
                let mut m = "[自动] 补发短信失败：".to_owned();
                m.append(&e);
                m.append("，回退手动输入");
                rounds.close(&m)
            },
            _ => (FetchLoop { rounds, stage: FetchStage::Resending }, FetchAction::Wait),
        },
        FetchStage::Noting => match ev {
            FetchEvent::Noted => rounds.pause(),
            _ => (FetchLoop { rounds, stage: FetchStage::Noting }, FetchAction::Wait),
        },
        FetchStage::Sleeping => match ev {
            FetchEvent::Slept { cancelled } => if cancelled {
                rounds.cancelled()
            } else {
                (FetchLoop { rounds, stage: FetchStage::Fetching }, FetchAction::RunCommand)
            },
            _ => (FetchLoop { rounds, stage: FetchStage::Sleeping }, FetchAction::Wait),
        },
        FetchStage::Fetching => match ev {
            FetchEvent::Cancelled => rounds.cancelled(),
            FetchEvent::Empty => {
                let rounds = Rounds { prev_empty: Some(true), ..rounds };
                rounds.next_round()
            },
            FetchEvent::Code(c) => (
                FetchLoop { rounds, stage: FetchStage::Submitting },
                FetchAction::Submit(c),
            ),
            _ => (FetchLoop { rounds, stage: FetchStage::Fetching }, FetchAction::Wait),
        },
        FetchStage::Submitting => match ev {
            FetchEvent::Accepted(t) => {
                let line = capsule::success_line("[自动] 验证码已通过", None, &rounds.prompt);
                (
                    FetchLoop { rounds, stage: FetchStage::Passing(t) },
                    FetchAction::FinishOk(line),
                )
            },
            FetchEvent::Rejected => {
                let rounds = Rounds { prev_empty: Some(false), ..rounds };
                rounds.next_round()
            },
            FetchEvent::SubmitFailed(e) => (
                FetchLoop { rounds, stage: FetchStage::Done },
                FetchAction::Fail(e),
            ),
            _ => (FetchLoop { rounds, stage: FetchStage::Submitting }, FetchAction::Wait),
        },
        FetchStage::Passing(t) => match ev {
            FetchEvent::Shown => (
                FetchLoop { rounds, stage: FetchStage::Done },
                FetchAction::Return(Some(t)),
            ),
            _ => (FetchLoop { rounds, stage: FetchStage::Passing(t) }, FetchAction::Wait),
        },
        FetchStage::Closing => match ev {
            FetchEvent::Shown => (
                FetchLoop { rounds, stage: FetchStage::Done },
                FetchAction::Return(None),
            ),
            _ => (FetchLoop { rounds, stage: FetchStage::Closing }, FetchAction::Wait),
        },
        FetchStage::Done => (FetchLoop { rounds, stage: FetchStage::Done }, FetchAction::Wait),
    }
}

/// The event for what the command brought.
pub fn fetched(f: SmsFetch) -> (r: FetchEvent<String>)
    ensures
        r@ == (match f {
            SmsFetch::Code(c) => FetchEvent::Code(c@),
            SmsFetch::Empty => FetchEvent::<Seq<char>>::Empty,
            SmsFetch::Cancelled => FetchEvent::<Seq<char>>::Cancelled,
        }),
{
    match f {
        SmsFetch::Code(c) => FetchEvent::Code(c),
        SmsFetch::Empty => FetchEvent::Empty,
        SmsFetch::Cancelled => FetchEvent::Cancelled,
    }
}

/// Performs what concerns the user, and says what has happened; `None` where the action is for
/// someone else.
pub fn perform<U: SmsUi>(ui: &U, action: &FetchAction<String>) -> (r: Option<FetchEvent<String>>)
    ensures
        match *action {
            FetchAction::Progress(t) => r == Some(FetchEvent::<String>::Shown) && exists|s: &str|
                s@ == t@ && #[trigger] call_ensures(U::progress, (ui, s), ()),
            FetchAction::FinishOk(t) => r == Some(FetchEvent::<String>::Shown) && exists|s: &str|
                s@ == t@ && #[trigger] call_ensures(U::finish_ok, (ui, s), ()),
            FetchAction::FinishErr(t) => r == Some(FetchEvent::<String>::Shown) && exists|s: &str|
                s@ == t@ && #[trigger] call_ensures(U::finish_err, (ui, s), ()),
            FetchAction::Sleep(ms) => r matches Some(FetchEvent::Slept { cancelled })
                && call_ensures(U::sleep_cancelable, (ui, ms), cancelled),
            _ => r is None,
        },
{
    match action {
        FetchAction::Progress(t) => {
            ui.progress(t);
            Some(FetchEvent::Shown)
        },
        FetchAction::FinishOk(t) => {
            ui.finish_ok(t);
            Some(FetchEvent::Shown)
        },
        FetchAction::FinishErr(t) => {
            ui.finish_err(t);
            Some(FetchEvent::Shown)
        },
        FetchAction::Sleep(ms) => Some(FetchEvent::Slept { cancelled: ui.sleep_cancelable(*ms) }),
        _ => None,
    }
}

// ---------------------------------------------------------------------------------------
// Laws of the rounds

/// Another SMS is asked for only after a round that brought no code: never before the first
/// round, and never after a code was refused.
pub proof fn law_resend_only_after_an_empty_round(
    f: RoundsView,
    stage: FetchStage<Seq<char>>,
    ev: FetchEvent<Seq<char>>,
)
    ensures
        fetch_next(f, stage, ev).2 == FetchAction::<Seq<char>>::Resend ==> f.prev_empty == Some(
            true,
        ),
        fetch_next(f, stage, ev).0.prev_empty == (match (stage, ev) {
            (FetchStage::Fetching, FetchEvent::Empty) => Some(true),
            (FetchStage::Submitting, FetchEvent::Rejected) => Some(false),
            _ => f.prev_empty,
        }),
{
}

/// Every SMS that was asked for is noted before anything else happens.
pub proof fn law_every_resend_is_noted(f: RoundsView)
    ensures
        fetch_next(f, FetchStage::Resending, FetchEvent::Resent).2 == FetchAction::<
            Seq<char>,
        >::NoteSmsSent,
{
}

/// The command runs without a wait before it only in the first round.
pub proof fn law_later_rounds_wait(
    f: RoundsView,
    stage: FetchStage<Seq<char>>,
    ev: FetchEvent<Seq<char>>,
)
    requires
        fetch_next(f, stage, ev).2 == FetchAction::<Seq<char>>::RunCommand,
    ensures
        f.prev_empty is None || (stage == FetchStage::<Seq<char>>::Sleeping && ev == FetchEvent::<
            Seq<char>,
        >::Slept { cancelled: false }),
{
}

/// A code is handed in as the command brought it.
pub proof fn law_codes_are_handed_in_unchanged(
    f: RoundsView,
    stage: FetchStage<Seq<char>>,
    ev: FetchEvent<Seq<char>>,
    code: Seq<char>,
)
    requires
        fetch_next(f, stage, ev).2 == FetchAction::Submit(code),
    ensures
        ev == FetchEvent::Code(code),
{
}

/// Once asked to cancel, the rounds end without a session.
pub proof fn law_cancelling_ends_the_rounds(f: RoundsView)
    ensures
        fetch_next(f, FetchStage::Fetching, FetchEvent::Cancelled).1 == FetchStage::<
            Seq<char>,
        >::Closing,
        fetch_next(f, FetchStage::Sleeping, FetchEvent::Slept { cancelled: true }).1
            == FetchStage::<Seq<char>>::Closing,
        fetch_next(f, FetchStage::Closing, FetchEvent::Shown).2 == FetchAction::<
            Seq<char>,
        >::Return(None),
{
}

/// Where a run of events leads.
pub open spec fn fetch_reached(start: FetchTurn, evs: Seq<FetchEvent<Seq<char>>>) -> FetchTurn
    decreases evs.len(),
{
    if evs.len() == 0 {
        start
    } else {
        let t = fetch_reached(start, evs.drop_last());
        fetch_next(t.0, t.1, evs.last())
    }
}

/// How often a run of events has led to the command, and to another SMS.
pub open spec fn fetch_counts(start: FetchTurn, evs: Seq<FetchEvent<Seq<char>>>) -> (int, int)
    decreases evs.len(),
{
    if evs.len() == 0 {
        (0, 0)
    } else {
        let c = fetch_counts(start, evs.drop_last());
        match fetch_reached(start, evs).2 {
            FetchAction::RunCommand => (c.0 + 1, c.1),
            FetchAction::Resend => (c.0, c.1 + 1),
            _ => c,
        }
    }
}

/// What holds at every stage of the rounds.
pub open spec fn rounds_inv(t: FetchTurn, c: (int, int), max: u32) -> bool {
    let f = t.0;
    &&& f.max == max
    &&& 1 <= f.round <= max
    &&& match t.1 {
        FetchStage::Showing => {
            &&& c.0 == f.round - 1
            &&& f.round == 1 ==> f.prev_empty is None && c.1 == 0
            &&& f.round > 1 ==> f.prev_empty is Some && c.1 <= f.round - 2
        },
        FetchStage::Resending | FetchStage::Noting | FetchStage::Sleeping => c.0 == f.round - 1
            && f.round > 1 && c.1 <= f.round - 1,
        FetchStage::Fetching | FetchStage::Submitting => c.0 == f.round && c.1 <= f.round - 1,
        _ => c.0 <= f.round && c.1 <= f.round - 1,
    }
}

proof fn lemma_rounds_inv(
    retries: u32,
    wait_secs: u32,
    hint: Seq<char>,
    prompt: PromptConfig,
    evs: Seq<FetchEvent<Seq<char>>>,
)
    requires
        retries < u32::MAX,
    ensures
        rounds_inv(
            fetch_reached(next_round(no_round_yet(retries, wait_secs, hint, prompt)), evs),
            fetch_counts(next_round(no_round_yet(retries, wait_secs, hint, prompt)), evs),
            (1 + retries) as u32,
        ),
    decreases evs.len(),
{
    if evs.len() > 0 {
        lemma_rounds_inv(retries, wait_secs, hint, prompt, evs.drop_last());
    }
}

/// However the rounds go, the command runs at most `1 + sms_retries` times, and at most
/// `sms_retries` further SMS are asked for.
pub proof fn law_rounds_are_limited(
    retries: u32,
    wait_secs: u32,
    hint: Seq<char>,
    prompt: PromptConfig,
    evs: Seq<FetchEvent<Seq<char>>>,
)
    requires
        retries < u32::MAX,
    ensures
        fetch_counts(next_round(no_round_yet(retries, wait_secs, hint, prompt)), evs).0 <= 1
            + retries,
        fetch_counts(next_round(no_round_yet(retries, wait_secs, hint, prompt)), evs).1 <= retries,
{
    lemma_rounds_inv(retries, wait_secs, hint, prompt, evs);
}

// ---------------------------------------------------------------------------------------
// The silent login

/// How far a silent login is.
#[derive(Debug, Clone, Copy, PartialEq, Eq, Structural)]
pub enum SilentStage {
    Start,
    /// The password is being looked up.
    AskingPassword,
    /// The password is being handed in.
    LoggingIn,
    /// The SMS is being noted.
    Noting,
    /// The rounds of fetching are under way.
    Fetching,
    Done,
}

/// What has happened to a silent login.
#[derive(Debug, PartialEq, Eq)]
pub enum SilentEvent<T> {
    Begin,
    /// The password, where there is one.
    Password(Option<T>),
    SmsSent,
    PasswordRejected(T),
    LoginFailed(T),
    Noted,
    /// The rounds are over, with a session or without.
    Fetched(Option<T>),
    FetchFailed(T),
}

/// What to do next in a silent login.
#[derive(Debug, PartialEq, Eq)]
pub enum SilentAction<T> {
    ReadPassword,
    Login(T),
    /// Note that an SMS was sent.
    NoteSmsSent,
    /// Go through the rounds of fetching with this command.
    Fetch(T),
    Succeed(T),
    Fail(T),
    /// What happened does not concern this stage.
    Wait,
}

impl View for SilentEvent<String> {
    type V = SilentEvent<Seq<char>>;

    open spec fn view(&self) -> SilentEvent<Seq<char>> {
        match *self {
            SilentEvent::Begin => SilentEvent::Begin,
            SilentEvent::Password(p) => SilentEvent::Password(text::opt_text(p)),
            SilentEvent::SmsSent => SilentEvent::SmsSent,
            SilentEvent::PasswordRejected(m) => SilentEvent::PasswordRejected(m@),
            SilentEvent::LoginFailed(m) => SilentEvent::LoginFailed(m@),
            SilentEvent::Noted => SilentEvent::Noted,
            SilentEvent::Fetched(t) => SilentEvent::Fetched(text::opt_text(t)),
            SilentEvent::FetchFailed(m) => SilentEvent::FetchFailed(m@),
        }
    }
}

impl View for SilentAction<String> {
    type V = SilentAction<Seq<char>>;

    open spec fn view(&self) -> SilentAction<Seq<char>> {
        match *self {
            SilentAction::ReadPassword => SilentAction::ReadPassword,
            SilentAction::Login(p) => SilentAction::Login(p@),
            SilentAction::NoteSmsSent => SilentAction::NoteSmsSent,
            SilentAction::Fetch(c) => SilentAction::Fetch(c@),
            SilentAction::Succeed(t) => SilentAction::Succeed(t@),
            SilentAction::Fail(m) => SilentAction::Fail(m@),
            SilentAction::Wait => SilentAction::Wait,
        }
    }
}

/// What follows on an event. `command` is the command that fetches codes, where there is one.
pub open spec fn silent_next(
    command: Option<Seq<char>>,
    stage: SilentStage,
    ev: SilentEvent<Seq<char>>,
    shutdown: bool,
) -> (SilentStage, SilentAction<Seq<char>>) {
    match (stage, ev) {
        (SilentStage::Start, SilentEvent::Begin) => if command is Some {
            (SilentStage::AskingPassword, SilentAction::ReadPassword)
        } else {
            (SilentStage::Done, SilentAction::Fail("未配置 sms_command, 无法静默重登"@))
        },
        (SilentStage::AskingPassword, SilentEvent::Password(p)) => match p {
            Some(p) => (SilentStage::LoggingIn, SilentAction::Login(p)),
            None => (SilentStage::Done, SilentAction::Fail("钥匙串无密码, 无法静默重登"@)),
        },
        (SilentStage::LoggingIn, SilentEvent::SmsSent) => (
            SilentStage::Noting,
            SilentAction::NoteSmsSent,
        ),
        (SilentStage::LoggingIn, SilentEvent::PasswordRejected(m)) => (
            SilentStage::Done,
            SilentAction::Fail("密码被拒: "@ + m),
        ),
        (SilentStage::LoggingIn, SilentEvent::LoginFailed(m)) => (
            SilentStage::Done,
            SilentAction::Fail(m),
        ),
        (SilentStage::Noting, SilentEvent::Noted) => if shutdown {
            (SilentStage::Done, SilentAction::Fail("shutdown"@))
        } else {
            match command {
                Some(c) => (SilentStage::Fetching, SilentAction::Fetch(c)),
                None => (SilentStage::Done, SilentAction::Fail("未配置 sms_command, 无法静默重登"@)),
            }
        },
        (SilentStage::Fetching, SilentEvent::Fetched(t)) => match t {
            Some(t) => (SilentStage::Done, SilentAction::Succeed(t)),
            None => (SilentStage::Done, SilentAction::Fail("静默取码失败"@)),
        },
        (SilentStage::Fetching, SilentEvent::FetchFailed(m)) => (
            SilentStage::Done,
            SilentAction::Fail(m),
        ),
        _ => (stage, SilentAction::Wait),
    }
}

/// One step of a silent login: look up the password, hand it in, note the SMS, and go through
/// the rounds of fetching. Without a command that fetches codes nothing is begun.
pub fn silent_login(
    cfg: &AppConfig,
    at: SilentStage,
    ev: SilentEvent<String>,
    shutdown: bool,
) -> (r: (SilentStage, SilentAction<String>))
    ensures
        (r.0, r.1@) == silent_next(
            crate::config::usable_command(cfg.sms_command),
            at,
            ev@,
            shutdown,
        ),
{
    let command = cfg.sms_command_text();
    match at {
        SilentStage::Start => match ev {
            SilentEvent::Begin => if command.is_some() {
                (SilentStage::AskingPassword, SilentAction::ReadPassword)
            } else {
                (
                    SilentStage::Done,
                    SilentAction::Fail("未配置 sms_command, 无法静默重登".to_owned()),
                )
            },
            _ => (at, SilentAction::Wait),
        },
        SilentStage::AskingPassword => match ev {
            SilentEvent::Password(p) => match p {
                Some(p) => (SilentStage::LoggingIn, SilentAction::Login(p)),
                None => (
                    SilentStage::Done,
                    SilentAction::Fail("钥匙串无密码, 无法静默重登".to_owned()),
                ),
            },
            _ => (at, SilentAction::Wait),
        },
        SilentStage::LoggingIn => match ev {
            SilentEvent::SmsSent => (SilentStage::Noting, SilentAction::NoteSmsSent),
            SilentEvent::PasswordRejected(m) => {
                let mut why = "密码被拒: ".to_owned();
                why.append(&m);
                (SilentStage::Done, SilentAction::Fail(why))
            },
            SilentEvent::LoginFailed(m) => (SilentStage::Done, SilentAction::Fail(m)),
            _ => (at, SilentAction::Wait),
        },
        SilentStage::Noting => match ev {
            SilentEvent::Noted => if shutdown {
                (SilentStage::Done, SilentAction::Fail("shutdown".to_owned()))
            } else {
                match command {
                    Some(c) => (SilentStage::Fetching, SilentAction::Fetch(c)),
                    None => (
                        SilentStage::Done,
                        SilentAction::Fail("未配置 sms_command, 无法静默重登".to_owned()),
                    ),
                }
            },
            _ => (at, SilentAction::Wait),
        },
        SilentStage::Fetching => match ev {
            SilentEvent::Fetched(t) => match t {
                Some(t) => (SilentStage::Done, SilentAction::Succeed(t)),
                None => (SilentStage::Done, SilentAction::Fail("静默取码失败".to_owned())),
            },
            SilentEvent::FetchFailed(m) => (SilentStage::Done, SilentAction::Fail(m)),
            _ => (at, SilentAction::Wait),
        },
        SilentStage::Done => (at, SilentAction::Wait),
    }
}

/// Without a command that fetches codes a silent login fails at once: no password is looked
/// up, and nothing is sent.
pub proof fn law_no_command_no_login(ev: SilentEvent<Seq<char>>, shutdown: bool)
    ensures
        silent_next(None, SilentStage::Start, SilentEvent::Begin, shutdown).0
            == SilentStage::Done,
        silent_next(None, SilentStage::Start, SilentEvent::Begin, shutdown).1 is Fail,
        silent_next(None, SilentStage::Done, ev, shutdown) == (
            SilentStage::Done,
            SilentAction::<Seq<char>>::Wait,
        ),
{
}

/// Once the password is taken, the SMS is noted at once. A code is fetched only after that, and
/// not where the daemon was told to stop meanwhile.
pub proof fn law_silent_sms_is_noted(
    command: Option<Seq<char>>,
    stage: SilentStage,
    ev: SilentEvent<Seq<char>>,
    shutdown: bool,
)
    ensures
        silent_next(command, SilentStage::LoggingIn, SilentEvent::SmsSent, shutdown).1
            == SilentAction::<Seq<char>>::NoteSmsSent,
        silent_next(command, stage, ev, shutdown).1 is Fetch ==> stage == SilentStage::Noting
            && ev == SilentEvent::<Seq<char>>::Noted && !shutdown,
{
}

// ---------------------------------------------------------------------------------------
// Laws of what each step does

/// Four to eight digits are read as a code, whatever white space stands around them; nothing else
/// is.
pub proof fn law_what_is_read_as_a_code(
    a: Seq<char>,
    code: Seq<char>,
    b: Seq<char>,
    raw: Seq<char>,
)
    requires
        text::blank(a),
        text::blank(b),
    ensures
        4 <= code.len() <= 8 && text::all_digits(code) ==> code_in(a + code + b) == Some(code),
        code_in(raw) matches Some(c) ==> c == text::trim(raw) && 4 <= c.len() <= 8
            && text::all_digits(c),
        code_in(raw) is None ==> !(4 <= text::trim(raw).len() <= 8 && text::all_digits(
            text::trim(raw),
        )),
{
    if 4 <= code.len() <= 8 && text::all_digits(code) {
        assert(text::is_digit(code[0]));
        assert(text::is_digit(code[code.len() - 1]));
        text::lemma_trim_of_padded(a, code, b);
    }
}

/// The command runs as soon as the first round is shown, and in every later round once its wait is
/// over and was not cancelled; at no other time.
pub proof fn law_when_the_command_runs(
    f: RoundsView,
    stage: FetchStage<Seq<char>>,
    ev: FetchEvent<Seq<char>>,
)
    ensures
        fetch_next(f, stage, ev).2 is RunCommand <==> (stage is Showing && ev is Shown
            && f.prev_empty is None) || (stage is Sleeping && ev == FetchEvent::<
            Seq<char>,
        >::Slept { cancelled: false }),
        fetch_next(f, stage, ev).2 is RunCommand ==> fetch_next(f, stage, ev).1 is Fetching
            && fetch_next(f, stage, ev).0 == f,
{
}

/// Another SMS is asked for exactly where a later round is shown after one that brought no code.
/// The wait before a later round follows at once where a code was refused, and else once the SMS
/// is noted; it is as long as configured.
pub proof fn law_what_goes_before_a_later_round(
    f: RoundsView,
    stage: FetchStage<Seq<char>>,
    ev: FetchEvent<Seq<char>>,
)
    ensures
        ({
            let (after, to, action) = fetch_next(f, stage, ev);
            &&& action is Resend <==> stage is Showing && ev is Shown && f.prev_empty == Some(true)
            &&& action is Resend ==> to is Resending && after == f
            &&& action is NoteSmsSent <==> stage is Resending && ev is Resent
            &&& action is NoteSmsSent ==> to is Noting && after == f
            &&& action is Sleep <==> (stage is Showing && ev is Shown && f.prev_empty == Some(
                false,
            )) || (stage is Noting && ev is Noted)
            &&& action matches FetchAction::Sleep(ms) ==> ms == f.wait_secs * 1000 && to is Sleeping
                && after == f
        }),
{
}

/// A code is handed in as soon as the command brings it. A code that was taken ends the rounds: it
/// is shown that it was, and then its session is returned, that one and no other. Rounds that
/// cannot hand a code in end with that error.
pub proof fn law_an_accepted_code_ends_the_rounds(
    f: RoundsView,
    stage: FetchStage<Seq<char>>,
    ev: FetchEvent<Seq<char>>,
)
    ensures
        ({
            let (after, to, action) = fetch_next(f, stage, ev);
            &&& action is Submit <==> stage is Fetching && ev is Code
            &&& action is Submit ==> to is Submitting && action == FetchAction::Submit(ev->Code_0)
            &&& action is FinishOk <==> stage is Submitting && ev is Accepted
            &&& action is FinishOk ==> to == FetchStage::Passing(ev->Accepted_0)
            &&& action is FinishOk ==> action == FetchAction::FinishOk(
                capsule::ok_text("[自动] 验证码已通过"@, None, f.prompt),
            )
            &&& action is Return <==> (stage is Passing || stage is Closing) && ev is Shown
            &&& stage is Passing && ev is Shown ==> action == FetchAction::Return(
                Some(stage->Passing_0),
            )
            &&& stage is Closing && ev is Shown ==> action == FetchAction::<Seq<char>>::Return(None)
            &&& action is Return ==> to is Done
            &&& action is Fail <==> stage is Submitting && ev is SubmitFailed
            &&& action is Fail ==> to is Done && action == FetchAction::Fail(ev->SubmitFailed_0)
        }),
{
}

/// A round that brings no code, or one that is refused, is followed by the next while there is one,
/// which is shown by its number; after the last one it is shown that there is none.
pub proof fn law_rounds_follow_each_other(
    f: RoundsView,
    stage: FetchStage<Seq<char>>,
    ev: FetchEvent<Seq<char>>,
)
    ensures
        ({
            let (after, to, action) = fetch_next(f, stage, ev);
            let over = (stage is Fetching && ev is Empty) || (stage is Submitting && ev is Rejected);
            &&& action is Progress <==> over && f.round < f.max
            &&& action is Progress ==> to is Showing && after.round == f.round + 1 && action
                == FetchAction::Progress(
                "  [自动] 第 "@ + decimal::digits((f.round + 1) as nat) + "/"@ + decimal::digits(
                    f.max as nat,
                ) + " 次取码…"@ + f.hint,
            )
            &&& !(action is Progress) ==> after.round == f.round
            &&& over && f.round >= f.max ==> action == FetchAction::FinishErr(
                capsule::err_text("[自动] 未取到验证码，回退手动输入"@, None, f.prompt),
            )
            &&& after.max == f.max && after.wait_secs == f.wait_secs
            &&& after.hint == f.hint && after.prompt == f.prompt
        }),
{
}

/// The rounds end without a session exactly where they are cancelled, where none is left, and where
/// no other SMS could be asked for; each time it is shown why.
pub proof fn law_when_rounds_end_without_a_session(
    f: RoundsView,
    stage: FetchStage<Seq<char>>,
    ev: FetchEvent<Seq<char>>,
)
    ensures
        ({
            let (after, to, action) = fetch_next(f, stage, ev);
            let cancelled = (stage is Fetching && ev is Cancelled) || (stage is Sleeping && ev
                == FetchEvent::<Seq<char>>::Slept { cancelled: true });
            let refused = stage is Resending && ev is ResendFailed;
            let none_left = ((stage is Fetching && ev is Empty) || (stage is Submitting && ev
                is Rejected)) && f.round >= f.max;
            &&& action is FinishErr <==> cancelled || refused || none_left
            &&& action is FinishErr ==> to is Closing
            &&& cancelled ==> action == FetchAction::FinishErr(
                capsule::err_text("[自动] 已取消自动取码，转手动输入"@, None, f.prompt),
            )
            &&& refused ==> action == FetchAction::FinishErr(
                capsule::err_text(
                    "[自动] 补发短信失败："@ + ev->ResendFailed_0 + "，回退手动输入"@,
                    None,
                    f.prompt,
                ),
            )
        }),
{
}

/// The rounds begin with the first, of one more than the configured retries.
pub proof fn law_rounds_begin_with_the_first(
    retries: u32,
    wait_secs: u32,
    hint: Seq<char>,
    prompt: PromptConfig,
)
    requires
        retries < u32::MAX,
    ensures
        ({
            let (f, stage, action) = next_round(no_round_yet(retries, wait_secs, hint, prompt));
            &&& f.round == 1 && f.max == retries + 1
            &&& f.wait_secs == wait_secs && f.hint == hint && f.prompt == prompt
            &&& f.prev_empty is None
            &&& stage is Showing
            &&& action == FetchAction::Progress(
                "  [自动] 第 "@ + decimal::digits(1) + "/"@ + decimal::digits((retries + 1) as nat)
                    + " 次取码…"@ + hint,
            )
        }),
{
}

/// What a silent login does and when: with a command it looks the password up, hands in the one
/// that was found, notes the SMS as soon as the password was taken, and then fetches with that
/// command unless the daemon was told to stop. It succeeds exactly with the session that was
/// fetched.
pub proof fn law_the_way_of_a_silent_login(
    command: Option<Seq<char>>,
    stage: SilentStage,
    ev: SilentEvent<Seq<char>>,
    shutdown: bool,
)
    ensures
        ({
            let (to, action) = silent_next(command, stage, ev, shutdown);
            &&& action is ReadPassword <==> stage == SilentStage::Start && ev is Begin && command
                is Some
            &&& action is ReadPassword ==> to == SilentStage::AskingPassword
            &&& action is Login <==> stage == SilentStage::AskingPassword && (ev matches
                SilentEvent::Password(p) && p is Some)
            &&& action is Login ==> to == SilentStage::LoggingIn && Some(action->Login_0)
                == ev->Password_0
            &&& action is NoteSmsSent <==> stage == SilentStage::LoggingIn && ev is SmsSent
            &&& action is NoteSmsSent ==> to == SilentStage::Noting
            &&& action is Fetch <==> stage == SilentStage::Noting && ev is Noted && !shutdown
                && command is Some
            &&& action is Fetch ==> to == SilentStage::Fetching && Some(action->Fetch_0) == command
            &&& action is Succeed <==> stage == SilentStage::Fetching && (ev matches
                SilentEvent::Fetched(t) && t is Some)
            &&& action is Succeed ==> to == SilentStage::Done && Some(action->Succeed_0)
                == ev->Fetched_0
        }),
{
}

/// When a silent login fails, and with what message.
pub proof fn law_when_a_silent_login_fails(
    command: Option<Seq<char>>,
    stage: SilentStage,
    ev: SilentEvent<Seq<char>>,
    shutdown: bool,
)
    ensures
        ({
            let (to, action) = silent_next(command, stage, ev, shutdown);
            let why: Option<Seq<char>> = match ev {
                SilentEvent::Begin => if stage == SilentStage::Start && command is None {
                    Some("未配置 sms_command, 无法静默重登"@)
                } else {
                    None
                },
                SilentEvent::Password(p) => if stage == SilentStage::AskingPassword && p is None {
                    Some("钥匙串无密码, 无法静默重登"@)
                } else {
                    None
                },
                SilentEvent::PasswordRejected(m) => if stage == SilentStage::LoggingIn {
                    Some("密码被拒: "@ + m)
                } else {
                    None
                },
                SilentEvent::LoginFailed(m) => if stage == SilentStage::LoggingIn {
                    Some(m)
                } else {
                    None
                },
                SilentEvent::Noted => if stage == SilentStage::Noting && shutdown {
                    Some("shutdown"@)
                } else if stage == SilentStage::Noting && command is None {
                    Some("未配置 sms_command, 无法静默重登"@)
                } else {
                    None
                },
                SilentEvent::Fetched(t) => if stage == SilentStage::Fetching && t is None {
                    Some("静默取码失败"@)
                } else {
                    None
                },
                SilentEvent::FetchFailed(m) => if stage == SilentStage::Fetching {
                    Some(m)
                } else {
                    None
                },
                SilentEvent::SmsSent => None,
            };
            &&& action is Fail <==> why is Some
            &&& action is Fail ==> to == SilentStage::Done && Some(action->Fail_0) == why
            &&& action is Wait ==> to == stage
        }),
{
}

/// The command brings a code exactly where it ended well and printed one. It is ended before its
/// time exactly where it was asked to cancel or ran for too long; cancelling is told apart from
/// finding nothing.
pub proof fn law_what_the_command_brings(ev: &CommandEvent, timeout_ms: u64, r: CommandStep)
    requires
        call_ensures(run_sms_command, (ev, timeout_ms), r),
    ensures
        (r matches CommandStep::Finish(SmsFetch::Code(c))) <==> (*ev matches CommandEvent::Exited {
            success,
            stdout,
        } && success && code_in(stdout@) is Some),
        r matches CommandStep::Finish(SmsFetch::Code(c)) ==> Some(c@) == code_in(
            (*ev)->stdout@,
        ),
        r is Kill <==> (*ev matches CommandEvent::Running { cancelled, elapsed_ms } && (cancelled
            || elapsed_ms >= timeout_ms)),
        r == CommandStep::Kill(SmsFetch::Cancelled) <==> (*ev matches CommandEvent::Running {
            cancelled,
            ..
        } && cancelled),
        r is Poll <==> (*ev matches CommandEvent::Running { cancelled, elapsed_ms } && !cancelled
            && elapsed_ms < timeout_ms),
{
}

/// The model of the rounds holds what they hold, each part in its place.
pub proof fn law_the_model_of_the_rounds_is_faithful(f: Rounds)
    ensures
        f@.max == f.max && f@.round == f.round && f@.wait_secs == f.wait_secs,
        f@.hint == f.hint@ && f@.prompt == f.prompt && f@.prev_empty == f.prev_empty,
{
}

} // verus!
