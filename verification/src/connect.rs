//! The way of `connect`: from a look at what is running, over the password and the SMS code, to
//! a daemon that is online.

use vstd::prelude::*;

use crate::capsule;
use crate::capsule::{Delay, PortSeg};
use crate::cli;
use crate::config::{AppConfig, Phase};
use crate::text;
use crate::tun::Readiness;
use crate::tunnel;

verus! {

/// How far `connect` is.
#[derive(Debug, PartialEq, Eq)]
pub enum ConnectStage<T> {
    Start,
    /// The tunnel of a daemon that says it is online is being probed.
    Probing(PortSeg),
    /// A daemon that is reconnecting is being stopped.
    TakingOver,
    /// It is being looked up what the transparent mode needs.
    CheckingTun,
    /// What an earlier tunnel left behind is being swept up.
    Sweeping,
    /// The tunnel program and the directories are being put in place.
    Preparing,
    /// The stored password is being looked up.
    ReadingPassword,
    /// A password is being typed.
    AskingPassword,
    /// A password is being handed in: this one, typed in this run or not.
    LoggingIn { password: T, typed: bool },
    /// The code is being obtained and handed in; an SMS was sent at this time.
    Obtaining { password: T, typed: bool, sms_at: u64 },
    /// The password is being stored.
    Storing { twfid: T, sms_at: u64 },
    /// The daemon is being started.
    Spawning,
    /// The daemon is being waited for.
    WaitingReady,
    /// The tunnel of the new daemon is being probed.
    ProbingReady(PortSeg),
    Done,
}

/// What has happened to `connect`.
#[derive(Debug, PartialEq, Eq)]
pub enum ConnectEvent<T> {
    /// It begins; this is the phase and the port segment of a daemon that is alive.
    Begin(Option<(Phase, PortSeg)>),
    Probed(Delay),
    Stopped,
    Checked(Readiness),
    Swept,
    SweepFailed(T),
    Prepared,
    PrepareFailed(T),
    /// The stored password, where there is one.
    Password(Option<T>),
    Typed(T),
    TypeFailed(T),
    PasswordRejected(T),
    /// The password was taken and an SMS sent, at this time, to this phone.
    SmsSent { phone: T, at: u64 },
    LoginFailed(T),
    /// There is a session; the last SMS was sent at this time, or none but the first where it is
    /// zero.
    Obtained { twfid: T, sms_at: u64 },
    ObtainFailed(T),
    Stored,
    StoreFailed(T),
    Spawned,
    SpawnFailed(T),
    /// The daemon is online.
    Ready(PortSeg),
    NotReady(T),
}

/// What to do next in `connect`.
#[derive(Debug, PartialEq, Eq)]
pub enum ConnectAction<T> {
    /// Probe the tunnel of the daemon that is alive.
    Probe,
    /// Print this line and end.
    Print(T),
    /// Show this line, stop the daemon, and wait for its end so many milliseconds.
    TakeOver { notice: T, wait_ms: u64 },
    CheckTun,
    Sweep,
    Prepare,
    ReadPassword,
    /// Have a password typed, after this line where there is one.
    AskPassword { refusal: Option<T>, prompt: T },
    Login(T),
    /// Obtain a session with the code that was sent to this phone.
    Obtain { phone: T },
    Store { password: T },
    /// Remove the cookies, and start the daemon.
    Spawn { twfid: T, sms_at: u64, tun: bool },
    /// Show this line while the daemon is waited for, so many milliseconds.
    WaitReady { notice: T, timeout_ms: u64 },
    /// Probe the tunnel of the daemon that has come online.
    ProbeReady,
    Fail(T),
    /// What happened does not concern this stage.
    Wait,
}

impl View for ConnectStage<String> {
    type V = ConnectStage<Seq<char>>;

    open spec fn view(&self) -> ConnectStage<Seq<char>> {
        match *self {
            ConnectStage::Start => ConnectStage::Start,
            ConnectStage::Probing(p) => ConnectStage::Probing(p),
            ConnectStage::TakingOver => ConnectStage::TakingOver,
            ConnectStage::CheckingTun => ConnectStage::CheckingTun,
            ConnectStage::Sweeping => ConnectStage::Sweeping,
            ConnectStage::Preparing => ConnectStage::Preparing,
            ConnectStage::ReadingPassword => ConnectStage::ReadingPassword,
            ConnectStage::AskingPassword => ConnectStage::AskingPassword,
            ConnectStage::LoggingIn { password, typed } => ConnectStage::LoggingIn {
                password: password@,
                typed,
            },
            ConnectStage::Obtaining { password, typed, sms_at } => ConnectStage::Obtaining {
                password: password@,
                typed,
                sms_at,
            },
            ConnectStage::Storing { twfid, sms_at } => ConnectStage::Storing {
                twfid: twfid@,
                sms_at,
            },
            ConnectStage::Spawning => ConnectStage::Spawning,
            ConnectStage::WaitingReady => ConnectStage::WaitingReady,
            ConnectStage::ProbingReady(p) => ConnectStage::ProbingReady(p),
            ConnectStage::Done => ConnectStage::Done,
        }
    }
}

impl View for ConnectEvent<String> {
    type V = ConnectEvent<Seq<char>>;

    open spec fn view(&self) -> ConnectEvent<Seq<char>> {
        match *self {
            ConnectEvent::Begin(found) => ConnectEvent::Begin(found),
            ConnectEvent::Probed(d) => ConnectEvent::Probed(d),
            ConnectEvent::Stopped => ConnectEvent::Stopped,
            ConnectEvent::Checked(r) => ConnectEvent::Checked(r),
            ConnectEvent::Swept => ConnectEvent::Swept,
            ConnectEvent::SweepFailed(m) => ConnectEvent::SweepFailed(m@),
            ConnectEvent::Prepared => ConnectEvent::Prepared,
            ConnectEvent::PrepareFailed(m) => ConnectEvent::PrepareFailed(m@),
            ConnectEvent::Password(p) => ConnectEvent::Password(text::opt_text(p)),
            ConnectEvent::Typed(p) => ConnectEvent::Typed(p@),
            ConnectEvent::TypeFailed(m) => ConnectEvent::TypeFailed(m@),
            ConnectEvent::PasswordRejected(m) => ConnectEvent::PasswordRejected(m@),
            ConnectEvent::SmsSent { phone, at } => ConnectEvent::SmsSent { phone: phone@, at },
            ConnectEvent::LoginFailed(m) => ConnectEvent::LoginFailed(m@),
            ConnectEvent::Obtained { twfid, sms_at } => ConnectEvent::Obtained {
                twfid: twfid@,
                sms_at,
            },
            ConnectEvent::ObtainFailed(m) => ConnectEvent::ObtainFailed(m@),
            ConnectEvent::Stored => ConnectEvent::Stored,
            ConnectEvent::StoreFailed(m) => ConnectEvent::StoreFailed(m@),
            ConnectEvent::Spawned => ConnectEvent::Spawned,
            ConnectEvent::SpawnFailed(m) => ConnectEvent::SpawnFailed(m@),
            ConnectEvent::Ready(p) => ConnectEvent::Ready(p),
            ConnectEvent::NotReady(m) => ConnectEvent::NotReady(m@),
        }
    }
}

impl View for ConnectAction<String> {
    type V = ConnectAction<Seq<char>>;

    open spec fn view(&self) -> ConnectAction<Seq<char>> {
        match *self {
            ConnectAction::Probe => ConnectAction::Probe,
            ConnectAction::Print(t) => ConnectAction::Print(t@),
            ConnectAction::TakeOver { notice, wait_ms } => ConnectAction::TakeOver {
                notice: notice@,
                wait_ms,
            },
            ConnectAction::CheckTun => ConnectAction::CheckTun,
            ConnectAction::Sweep => ConnectAction::Sweep,
            ConnectAction::Prepare => ConnectAction::Prepare,
            ConnectAction::ReadPassword => ConnectAction::ReadPassword,
            ConnectAction::AskPassword { refusal, prompt } => ConnectAction::AskPassword {
                refusal: text::opt_text(refusal),
                prompt: prompt@,
            },
            ConnectAction::Login(p) => ConnectAction::Login(p@),
            ConnectAction::Obtain { phone } => ConnectAction::Obtain { phone: phone@ },
            ConnectAction::Store { password } => ConnectAction::Store { password: password@ },
            ConnectAction::Spawn { twfid, sms_at, tun } => ConnectAction::Spawn {
                twfid: twfid@,
                sms_at,
                tun,
            },
            ConnectAction::WaitReady { notice, timeout_ms } => ConnectAction::WaitReady {
                notice: notice@,
                timeout_ms,
            },
            ConnectAction::ProbeReady => ConnectAction::ProbeReady,
            ConnectAction::Fail(m) => ConnectAction::Fail(m@),
            ConnectAction::Wait => ConnectAction::Wait,
        }
    }
}

/// What `connect` is called with.
#[derive(Debug)]
pub struct ConnectJob {
    pub cfg: AppConfig,
    /// The path of the configuration.
    pub app_config: String,
    /// Whether the stored password is to be passed over.
    pub relogin: bool,
    pub tun: bool,
    /// The width of the terminal.
    pub columns: usize,
}

pub type ConnectTurn = (ConnectStage<Seq<char>>, ConnectAction<Seq<char>>);

/// The server or the user is not configured.
pub open spec fn incomplete(cfg: AppConfig) -> bool {
    text::trim(cfg.server@).len() == 0 || text::trim(cfg.username@).len() == 0
}

/// Having a password typed.
pub open spec fn ask_password(job: ConnectJob, refusal: Option<Seq<char>>) -> ConnectTurn {
    (
        ConnectStage::AskingPassword,
        ConnectAction::AskPassword {
            refusal,
            prompt: "VPN 密码（"@ + job.cfg.username@ + "）"@,
        },
    )
}

/// The first step towards a new daemon.
pub open spec fn proceed(job: ConnectJob) -> ConnectTurn {
    if job.tun {
        (ConnectStage::CheckingTun, ConnectAction::CheckTun)
    } else {
        (ConnectStage::Preparing, ConnectAction::Prepare)
    }
}

/// What follows on a look at what is running.
pub open spec fn begin(job: ConnectJob, found: Option<(Phase, PortSeg)>) -> ConnectTurn {
    if incomplete(job.cfg) {
        (
            ConnectStage::Done,
            ConnectAction::Fail("请先编辑 "@ + job.app_config@ + " 填入 server 和 username"@),
        )
    } else {
        match found {
            Some((Phase::Online, port)) => (ConnectStage::Probing(port), ConnectAction::Probe),
            Some((Phase::Reconnecting, _)) => (
                ConnectStage::TakingOver,
                ConnectAction::TakeOver {
                    notice: capsule::info_text(
                        "检测到后台正在重连,改由本次登录接管"@,
                        None,
                        job.cfg.prompt,
                    ),
                    wait_ms: 5000,
                },
            ),
            None => proceed(job),
        }
    }
}

/// What is printed of a daemon that is online already.
pub open spec fn already(job: ConnectJob, port: PortSeg, probe: Delay) -> Seq<char> {
    let status = cli::shown(Phase::Online, probe, port);
    if probe != Delay::Timeout {
        capsule::ok_text("已经在连接中"@, Some((status, job.columns)), job.cfg.prompt)
    } else {
        capsule::info_text(
            "隧道恢复中(看门狗将自动重连)"@,
            Some((status, job.columns)),
            job.cfg.prompt,
        )
    }
}

/// What follows on a session.
pub open spec fn spawn(job: ConnectJob, twfid: Seq<char>, sms_at: u64) -> ConnectTurn {
    (ConnectStage::Spawning, ConnectAction::Spawn { twfid, sms_at, tun: job.tun })
}

/// What happens up to the password.
pub open spec fn prepare(
    job: ConnectJob,
    stage: ConnectStage<Seq<char>>,
    ev: ConnectEvent<Seq<char>>,
) -> ConnectTurn {
    match stage {
        ConnectStage::Start => match ev {
            ConnectEvent::Begin(found) => begin(job, found),
            _ => (stage, ConnectAction::Wait),
        },
        ConnectStage::Probing(port) => match ev {
            ConnectEvent::Probed(d) => (
                ConnectStage::Done,
                ConnectAction::Print(already(job, port, d)),
            ),
            _ => (stage, ConnectAction::Wait),
        },
        ConnectStage::TakingOver => match ev {
            ConnectEvent::Stopped => proceed(job),
            _ => (stage, ConnectAction::Wait),
        },
        ConnectStage::CheckingTun => match ev {
            ConnectEvent::Checked(Readiness::Ready) => (
                ConnectStage::Sweeping,
                ConnectAction::Sweep,
            ),
            ConnectEvent::Checked(Readiness::NotInstalled) => (
                ConnectStage::Done,
                ConnectAction::Fail("TUN 组件未安装"@),
            ),
            ConnectEvent::Checked(Readiness::Stale) => (
                ConnectStage::Done,
                ConnectAction::Fail("TUN 组件版本过旧"@),
            ),
            _ => (stage, ConnectAction::Wait),
        },
        ConnectStage::Sweeping => match ev {
            ConnectEvent::Swept => (ConnectStage::Preparing, ConnectAction::Prepare),
            ConnectEvent::SweepFailed(m) => (ConnectStage::Done, ConnectAction::Fail(m)),
            _ => (stage, ConnectAction::Wait),
        },
        ConnectStage::Preparing => match ev {
            ConnectEvent::Prepared => if job.relogin {
                ask_password(job, None)
            } else {
                (ConnectStage::ReadingPassword, ConnectAction::ReadPassword)
            },
            ConnectEvent::PrepareFailed(m) => (ConnectStage::Done, ConnectAction::Fail(m)),
            _ => (stage, ConnectAction::Wait),
        },
        _ => (stage, ConnectAction::Wait),
    }
}

/// What happens from the password to the session.
pub open spec fn authenticate(
    job: ConnectJob,
    stage: ConnectStage<Seq<char>>,
    ev: ConnectEvent<Seq<char>>,
) -> ConnectTurn {
    match stage {
        ConnectStage::ReadingPassword => match ev {
            ConnectEvent::Password(Some(p)) => (
                ConnectStage::LoggingIn { password: p, typed: false },
                ConnectAction::Login(p),
            ),
            ConnectEvent::Password(None) => ask_password(job, None),
            _ => (stage, ConnectAction::Wait),
        },
        ConnectStage::AskingPassword => match ev {
            ConnectEvent::Typed(p) => (
                ConnectStage::LoggingIn { password: p, typed: true },
                ConnectAction::Login(p),
            ),
            ConnectEvent::TypeFailed(m) => (ConnectStage::Done, ConnectAction::Fail(m)),
            _ => (stage, ConnectAction::Wait),
        },
        ConnectStage::LoggingIn { password, typed } => match ev {
            ConnectEvent::PasswordRejected(m) => ask_password(
                job,
                Some(
                    capsule::err_text(
                        "密码被拒: "@ + m + "，请重新输入"@,
                        None,
                        job.cfg.prompt,
                    ),
                ),
            ),
            ConnectEvent::SmsSent { phone, at } => (
                ConnectStage::Obtaining { password, typed, sms_at: at },
                ConnectAction::Obtain { phone },
            ),
            ConnectEvent::LoginFailed(m) => (ConnectStage::Done, ConnectAction::Fail(m)),
            _ => (stage, ConnectAction::Wait),
        },
        ConnectStage::Obtaining { password, typed, sms_at } => match ev {
            ConnectEvent::Obtained { twfid, sms_at: later } => {
                let last = if later == 0 {
                    sms_at
                } else {
                    later
                };
                if typed {
                    (
                        ConnectStage::Storing { twfid, sms_at: last },
                        ConnectAction::Store { password },
                    )
                } else {
                    spawn(job, twfid, last)
                }
            },
            ConnectEvent::ObtainFailed(m) => (ConnectStage::Done, ConnectAction::Fail(m)),
            _ => (stage, ConnectAction::Wait),
        },
        ConnectStage::Storing { twfid, sms_at } => match ev {
            ConnectEvent::Stored => spawn(job, twfid, sms_at),
            ConnectEvent::StoreFailed(m) => (ConnectStage::Done, ConnectAction::Fail(m)),
            _ => (stage, ConnectAction::Wait),
        },
        _ => (stage, ConnectAction::Wait),
    }
}

/// What happens from the session to the daemon that is online.
pub open spec fn launch(
    job: ConnectJob,
    stage: ConnectStage<Seq<char>>,
    ev: ConnectEvent<Seq<char>>,
) -> ConnectTurn {
    match stage {
        ConnectStage::Spawning => match ev {
            ConnectEvent::Spawned => (
                ConnectStage::WaitingReady,
                ConnectAction::WaitReady {
                    notice: "  连接中…"@,
                    timeout_ms: tunnel::CONNECT_TIMEOUT_MS,
                },
            ),
            ConnectEvent::SpawnFailed(m) => (ConnectStage::Done, ConnectAction::Fail(m)),
            _ => (stage, ConnectAction::Wait),
        },
        ConnectStage::WaitingReady => match ev {
            ConnectEvent::Ready(port) => (
                ConnectStage::ProbingReady(port),
                ConnectAction::ProbeReady,
            ),
            ConnectEvent::NotReady(m) => (ConnectStage::Done, ConnectAction::Fail(m)),
            _ => (stage, ConnectAction::Wait),
        },
        ConnectStage::ProbingReady(port) => match ev {
            ConnectEvent::Probed(d) => (
                ConnectStage::Done,
                ConnectAction::Print(
                    capsule::ok_text(
                        "已连接"@,
                        Some((cli::shown(Phase::Online, d, port), job.columns)),
                        job.cfg.prompt,
                    ),
                ),
            ),
            _ => (stage, ConnectAction::Wait),
        },
        _ => (stage, ConnectAction::Wait),
    }
}

/// What follows on an event.
pub open spec fn connect_next(
    job: ConnectJob,
    stage: ConnectStage<Seq<char>>,
    ev: ConnectEvent<Seq<char>>,
) -> ConnectTurn {
    match stage {
        ConnectStage::Start | ConnectStage::Probing(_) | ConnectStage::TakingOver | ConnectStage::CheckingTun | ConnectStage::Sweeping | ConnectStage::Preparing => prepare(job, stage, ev),
        ConnectStage::ReadingPassword | ConnectStage::AskingPassword | ConnectStage::LoggingIn { .. } | ConnectStage::Obtaining { .. } | ConnectStage::Storing { .. } => authenticate(job, stage, ev),
        ConnectStage::Spawning | ConnectStage::WaitingReady | ConnectStage::ProbingReady(_) => launch(job, stage, ev),
        ConnectStage::Done => (stage, ConnectAction::Wait),
    }
}

fn ask_for_password(job: &ConnectJob, refusal: Option<String>) -> (r: (
    ConnectStage<String>,
    ConnectAction<String>,
))
    ensures
        (r.0@, r.1@) == ask_password(*job, text::opt_text(refusal)),
{
    let mut prompt = "VPN 密码（".to_owned();
    prompt.append(&job.cfg.username);
    prompt.append("）");
    (ConnectStage::AskingPassword, ConnectAction::AskPassword { refusal, prompt })
}

fn go_on(job: &ConnectJob) -> (r: (ConnectStage<String>, ConnectAction<String>))
    ensures
        (r.0@, r.1@) == proceed(*job),
{
    if job.tun {
        (ConnectStage::CheckingTun, ConnectAction::CheckTun)
    } else {
        (ConnectStage::Preparing, ConnectAction::Prepare)
    }
}

fn look(job: &ConnectJob, found: Option<(Phase, PortSeg)>) -> (r: (
    ConnectStage<String>,
    ConnectAction<String>,
))
    ensures
        (r.0@, r.1@) == begin(*job, found),
{
    let server = text::trimmed(&job.cfg.server);
    let username = text::trimmed(&job.cfg.username);
    if server.as_str().is_empty() || username.as_str().is_empty() {
        let mut m = "请先编辑 ".to_owned();
        m.append(&job.app_config);
        m.append(" 填入 server 和 username");
        return (ConnectStage::Done, ConnectAction::Fail(m));
    }
    match found {
        Some((phase, port)) => match phase {
            Phase::Online => (ConnectStage::Probing(port), ConnectAction::Probe),
            Phase::Reconnecting => {
                let notice = capsule::info_line(
                    "检测到后台正在重连,改由本次登录接管",
                    None,
                    &job.cfg.prompt,
                );
                (ConnectStage::TakingOver, ConnectAction::TakeOver { notice, wait_ms: 5000 })
            },
        },
        None => go_on(job),
    }
}

fn already_line(job: &ConnectJob, port: PortSeg, probe: Delay) -> (r: String)
    ensures
        r@ == already(*job, port, probe),
{
    let status = cli::capsule_from(Phase::Online, probe, port);
    if probe != Delay::Timeout {
        capsule::success_line("已经在连接中", Some((status, job.columns)), &job.cfg.prompt)
    } else {
        capsule::info_line(
            "隧道恢复中(看门狗将自动重连)",
            Some((status, job.columns)),
            &job.cfg.prompt,
        )
    }
}

fn prepare_step(job: &ConnectJob, at: ConnectStage<String>, ev: ConnectEvent<String>) -> (r: (
    ConnectStage<String>,
    ConnectAction<String>,
))
    ensures
        (r.0@, r.1@) == prepare(*job, at@, ev@),
{
    match at {
        ConnectStage::Start => match ev {
            ConnectEvent::Begin(found) => look(job, found),
            _ => (ConnectStage::Start, ConnectAction::Wait),
        },
        ConnectStage::Probing(port) => match ev {
            ConnectEvent::Probed(d) => (
                ConnectStage::Done,
                ConnectAction::Print(already_line(job, port, d)),
            ),
            _ => (ConnectStage::Probing(port), ConnectAction::Wait),
        },
        ConnectStage::TakingOver => match ev {
            ConnectEvent::Stopped => go_on(job),
            _ => (ConnectStage::TakingOver, ConnectAction::Wait),
        },
        ConnectStage::CheckingTun => match ev {
            ConnectEvent::Checked(r) => match r {
                Readiness::Ready => (ConnectStage::Sweeping, ConnectAction::Sweep),
                Readiness::NotInstalled => (
                    ConnectStage::Done,
                    ConnectAction::Fail("TUN 组件未安装".to_owned()),
                ),
                Readiness::Stale => (
                    ConnectStage::Done,
                    ConnectAction::Fail("TUN 组件版本过旧".to_owned()),
                ),
            },
            _ => (ConnectStage::CheckingTun, ConnectAction::Wait),
        },
        ConnectStage::Sweeping => match ev {
            ConnectEvent::Swept => (ConnectStage::Preparing, ConnectAction::Prepare),
            ConnectEvent::SweepFailed(m) => (ConnectStage::Done, ConnectAction::Fail(m)),
            _ => (ConnectStage::Sweeping, ConnectAction::Wait),
        },
        ConnectStage::Preparing => match ev {
            ConnectEvent::Prepared => if job.relogin {
                ask_for_password(job, None)
            } else {
                (ConnectStage::ReadingPassword, ConnectAction::ReadPassword)
            },
            ConnectEvent::PrepareFailed(m) => (ConnectStage::Done, ConnectAction::Fail(m)),
            _ => (ConnectStage::Preparing, ConnectAction::Wait),
        },
        other => (other, ConnectAction::Wait),
    }
}

fn authenticate_step(job: &ConnectJob, at: ConnectStage<String>, ev: ConnectEvent<String>) -> (r: (
    ConnectStage<String>,
    ConnectAction<String>,
))
    ensures
        (r.0@, r.1@) == authenticate(*job, at@, ev@),
{
    match at {
        ConnectStage::ReadingPassword => match ev {
            ConnectEvent::Password(found) => match found {
                Some(p) => {
                    let password = p.clone();
                    (ConnectStage::LoggingIn { password, typed: false }, ConnectAction::Login(p))
                },
                None => ask_for_password(job, None),
            },
            _ => (ConnectStage::ReadingPassword, ConnectAction::Wait),
        },
        ConnectStage::AskingPassword => match ev {
            ConnectEvent::Typed(p) => {
                let password = p.clone();
                (ConnectStage::LoggingIn { password, typed: true }, ConnectAction::Login(p))
            },
            ConnectEvent::TypeFailed(m) => (ConnectStage::Done, ConnectAction::Fail(m)),
            _ => (ConnectStage::AskingPassword, ConnectAction::Wait),
        },
        ConnectStage::LoggingIn { password, typed } => match ev {
            ConnectEvent::PasswordRejected(m) => {
                let mut why = "密码被拒: ".to_owned();
                why.append(&m);
                why.append("，请重新输入");
                ask_for_password(job, Some(capsule::error_line(&why, None, &job.cfg.prompt)))
            },
            ConnectEvent::SmsSent { phone, at } => (
                ConnectStage::Obtaining { password, typed, sms_at: at },
                ConnectAction::Obtain { phone },
            ),
            ConnectEvent::LoginFailed(m) => (ConnectStage::Done, ConnectAction::Fail(m)),
            _ => (ConnectStage::LoggingIn { password, typed }, ConnectAction::Wait),
        },
        ConnectStage::Obtaining { password, typed, sms_at } => match ev {
            ConnectEvent::Obtained { twfid, sms_at: later } => {
                let last: u64 = if later == 0 {
                    sms_at
                } else {
                    later
                };
                if typed {
                    (
                        ConnectStage::Storing { twfid, sms_at: last },
                        ConnectAction::Store { password },
                    )
                } else {
                    (
                        ConnectStage::Spawning,
                        ConnectAction::Spawn { twfid, sms_at: last, tun: job.tun },
                    )
                }
            },
            ConnectEvent::ObtainFailed(m) => (ConnectStage::Done, ConnectAction::Fail(m)),
            _ => (ConnectStage::Obtaining { password, typed, sms_at }, ConnectAction::Wait),
        },
        ConnectStage::Storing { twfid, sms_at } => match ev {
            ConnectEvent::Stored => (
                ConnectStage::Spawning,
                ConnectAction::Spawn { twfid, sms_at, tun: job.tun },
            ),
            ConnectEvent::StoreFailed(m) => (ConnectStage::Done, ConnectAction::Fail(m)),
            _ => (ConnectStage::Storing { twfid, sms_at }, ConnectAction::Wait),
        },
        other => (other, ConnectAction::Wait),
    }
}

fn launch_step(job: &ConnectJob, at: ConnectStage<String>, ev: ConnectEvent<String>) -> (r: (
    ConnectStage<String>,
    ConnectAction<String>,
))
    ensures
        (r.0@, r.1@) == launch(*job, at@, ev@),
{
    match at {
        ConnectStage::Spawning => match ev {
            ConnectEvent::Spawned => (
                ConnectStage::WaitingReady,
                ConnectAction::WaitReady {
                    notice: "  连接中…".to_owned(),
                    timeout_ms: tunnel::CONNECT_TIMEOUT_MS,
                },
            ),
            ConnectEvent::SpawnFailed(m) => (ConnectStage::Done, ConnectAction::Fail(m)),
            _ => (ConnectStage::Spawning, ConnectAction::Wait),
        },
        ConnectStage::WaitingReady => match ev {
            ConnectEvent::Ready(port) => (
                ConnectStage::ProbingReady(port),
                ConnectAction::ProbeReady,
            ),
            ConnectEvent::NotReady(m) => (ConnectStage::Done, ConnectAction::Fail(m)),
            _ => (ConnectStage::WaitingReady, ConnectAction::Wait),
        },
        ConnectStage::ProbingReady(port) => match ev {
            ConnectEvent::Probed(d) => {
                let status = cli::capsule_from(Phase::Online, d, port);
                (
                    ConnectStage::Done,
                    ConnectAction::Print(
                        capsule::success_line(
                            "已连接",
                            Some((status, job.columns)),
                            &job.cfg.prompt,
                        ),
                    ),
                )
            },
            _ => (ConnectStage::ProbingReady(port), ConnectAction::Wait),
        },
        other => (other, ConnectAction::Wait),
    }
}

/// One step of `connect`. A daemon that is online is left alone; one that is reconnecting is
/// taken over. Then come the password, stored or typed, the SMS code, and the new daemon. A
/// password that was typed is stored once it has led to a session.
pub fn cmd_connect(job: &ConnectJob, at: ConnectStage<String>, ev: ConnectEvent<String>) -> (r: (
    ConnectStage<String>,
    ConnectAction<String>,
))
    ensures
        (r.0@, r.1@) == connect_next(*job, at@, ev@),
{
    match at {
        ConnectStage::Start | ConnectStage::Probing(_) | ConnectStage::TakingOver | ConnectStage::CheckingTun | ConnectStage::Sweeping | ConnectStage::Preparing => prepare_step(job, at, ev),
        ConnectStage::ReadingPassword | ConnectStage::AskingPassword | ConnectStage::LoggingIn { .. } | ConnectStage::Obtaining { .. } | ConnectStage::Storing { .. } => authenticate_step(job, at, ev),
        ConnectStage::Spawning | ConnectStage::WaitingReady | ConnectStage::ProbingReady(_) => launch_step(job, at, ev),
        ConnectStage::Done => (ConnectStage::Done, ConnectAction::Wait),
    }
}

// ---------------------------------------------------------------------------------------
// Laws

/// Where a run of events leads.
pub open spec fn connect_reached(job: ConnectJob, evs: Seq<ConnectEvent<Seq<char>>>) -> ConnectTurn
    decreases evs.len(),
{
    if evs.len() == 0 {
        (ConnectStage::Start, ConnectAction::Wait)
    } else {
        connect_next(job, connect_reached(job, evs.drop_last()).0, evs.last())
    }
}

/// A daemon that is online is left alone: no password is handed in, no SMS is sent, and nothing
/// is stopped or started, whatever its probe says.
pub proof fn law_an_online_daemon_is_left_alone(job: ConnectJob, port: PortSeg, probe: Delay)
    requires
        !incomplete(job.cfg),
    ensures
        connect_next(job, ConnectStage::Start, ConnectEvent::Begin(Some((Phase::Online, port))))
            == (ConnectStage::<Seq<char>>::Probing(port), ConnectAction::<Seq<char>>::Probe),
        connect_next(job, ConnectStage::Probing(port), ConnectEvent::Probed(probe)).1 is Print,
        connect_next(job, ConnectStage::Probing(port), ConnectEvent::Probed(probe)).0
            == ConnectStage::<Seq<char>>::Done,
{
}

/// The password that a run of events has handed in last, and whether it was typed.
pub open spec fn last_handed_in(job: ConnectJob, evs: Seq<ConnectEvent<Seq<char>>>) -> Option<
    (Seq<char>, bool),
>
    decreases evs.len(),
{
    if evs.len() == 0 {
        None
    } else {
        match connect_reached(job, evs).1 {
            ConnectAction::Login(p) => Some((p, evs.last() is Typed)),
            _ => last_handed_in(job, evs.drop_last()),
        }
    }
}

proof fn lemma_password_is_remembered(job: ConnectJob, evs: Seq<ConnectEvent<Seq<char>>>)
    ensures
        match connect_reached(job, evs).0 {
            ConnectStage::LoggingIn { password, typed } => last_handed_in(job, evs) == Some(
                (password, typed),
            ),
            ConnectStage::Obtaining { password, typed, .. } => last_handed_in(job, evs) == Some(
                (password, typed),
            ),
            _ => true,
        },
    decreases evs.len(),
{
    if evs.len() > 0 {
        lemma_password_is_remembered(job, evs.drop_last());
    }
}

/// A password is stored only once it has led to a session, and only where it was typed: it is
/// the one that was handed in last, so neither a refused one nor the one that is stored.
pub proof fn law_what_is_stored(
    job: ConnectJob,
    evs: Seq<ConnectEvent<Seq<char>>>,
    password: Seq<char>,
)
    requires
        connect_reached(job, evs).1 == (ConnectAction::Store { password }),
    ensures
        evs.len() > 0,
        evs.last() is Obtained,
        last_handed_in(job, evs) == Some((password, true)),
{
    lemma_password_is_remembered(job, evs.drop_last());
}

/// Where the stored password is to be passed over, it is never looked up.
pub proof fn law_relogin_passes_over_the_stored_password(
    job: ConnectJob,
    stage: ConnectStage<Seq<char>>,
    ev: ConnectEvent<Seq<char>>,
)
    requires
        job.relogin,
    ensures
        !(connect_next(job, stage, ev).1 is ReadPassword),
{
}

/// A daemon is started only for a session, with the time of the last SMS: of a later one where
/// there was one, else of the one that the password caused.
pub proof fn law_daemons_start_with_a_session(
    job: ConnectJob,
    stage: ConnectStage<Seq<char>>,
    ev: ConnectEvent<Seq<char>>,
    twfid: Seq<char>,
    sms_at: u64,
    tun: bool,
)
    requires
        connect_next(job, stage, ev).1 == (ConnectAction::Spawn { twfid, sms_at, tun }),
    ensures
        tun == job.tun,
        match (stage, ev) {
            (
                ConnectStage::Obtaining { sms_at: first, typed, .. },
                ConnectEvent::Obtained { twfid: t, sms_at: later },
            ) => !typed && t == twfid && sms_at == (if later == 0 {
                first
            } else {
                later
            }),
            (ConnectStage::Storing { twfid: t, sms_at: s }, ConnectEvent::Stored) => t == twfid
                && s == sms_at,
            _ => false,
        },
{
}

/// The parts of the transparent mode were found ready, and then what was left behind was swept
/// up.
pub open spec fn made_ready(evs: Seq<ConnectEvent<Seq<char>>>) -> bool {
    exists|i: int, j: int|
        0 <= i < j < evs.len() && #[trigger] evs[i] == ConnectEvent::<Seq<char>>::Checked(
            Readiness::Ready,
        ) && #[trigger] evs[j] == ConnectEvent::<Seq<char>>::Swept
}

/// The action belongs to the login or to what follows it.
pub open spec fn underway(action: ConnectAction<Seq<char>>) -> bool {
    match action {
        ConnectAction::Prepare | ConnectAction::ReadPassword => true,
        ConnectAction::AskPassword { .. } | ConnectAction::Login(_) => true,
        ConnectAction::Obtain { .. } | ConnectAction::Store { .. } => true,
        ConnectAction::Spawn { .. } | ConnectAction::WaitReady { .. } => true,
        ConnectAction::ProbeReady => true,
        _ => false,
    }
}

proof fn lemma_made_ready(job: ConnectJob, evs: Seq<ConnectEvent<Seq<char>>>)
    requires
        job.tun,
    ensures
        match connect_reached(job, evs).0 {
            ConnectStage::Start | ConnectStage::Probing(_) | ConnectStage::TakingOver => true,
            ConnectStage::CheckingTun | ConnectStage::Done => true,
            ConnectStage::Sweeping => exists|i: int|
                0 <= i < evs.len() && #[trigger] evs[i] == ConnectEvent::<Seq<char>>::Checked(
                    Readiness::Ready,
                ),
            _ => made_ready(evs),
        },
    decreases evs.len(),
{
    if evs.len() > 0 {
        let init = evs.drop_last();
        let n = init.len() as int;
        lemma_made_ready(job, init);
        assert(evs[n] == evs.last());
        if made_ready(init) {
            let (i, j) = choose|i: int, j: int|
                0 <= i < j < init.len() && #[trigger] init[i] == ConnectEvent::<
                    Seq<char>,
                >::Checked(Readiness::Ready) && #[trigger] init[j] == ConnectEvent::<
                    Seq<char>,
                >::Swept;
            assert(evs[i] == init[i] && evs[j] == init[j]);
        }
        if connect_reached(job, init).0 is Sweeping {
            let i = choose|i: int|
                0 <= i < init.len() && #[trigger] init[i] == ConnectEvent::<
                    Seq<char>,
                >::Checked(Readiness::Ready);
            assert(evs[i] == init[i]);
        }
    }
}

/// In the transparent mode a run neither asks for a password nor logs in nor starts a daemon
/// before the parts of that mode were found ready and what an earlier tunnel left behind was
/// swept up.
pub proof fn law_transparent_mode_is_checked_first(
    job: ConnectJob,
    evs: Seq<ConnectEvent<Seq<char>>>,
)
    requires
        job.tun,
        underway(connect_reached(job, evs).1),
    ensures
        made_ready(evs),
{
    lemma_made_ready(job, evs);
}

/// `connect` is refused, before anything else, exactly where the configured server or user is
/// missing or blank; the message names the file to edit.
pub proof fn law_what_has_to_be_configured(
    job: ConnectJob,
    found: Option<(Phase, PortSeg)>,
)
    ensures
        ({
            let missing = text::blank(job.cfg.server@) || text::blank(job.cfg.username@);
            let (to, action) = connect_next(job, ConnectStage::Start, ConnectEvent::Begin(found));
            &&& incomplete(job.cfg) <==> missing
            &&& action is Fail <==> missing
            &&& missing ==> to is Done && action == ConnectAction::Fail(
                "请先编辑 "@ + job.app_config@ + " 填入 server 和 username"@,
            )
        }),
{
    text::lemma_trim_of_blank(job.cfg.server@);
    text::lemma_trim_of_blank(job.cfg.username@);
}

/// What is found running decides how `connect` begins: a daemon that says it is online is probed and
/// told of; one that is reconnecting is stopped, within five seconds, and taken over; and only then,
/// or where there is none, the way to a new daemon begins. In the transparent mode that way begins
/// with a look at what is installed, and goes on, where that is ready, by sweeping up.
pub proof fn law_how_connecting_begins(
    job: ConnectJob,
    stage: ConnectStage<Seq<char>>,
    ev: ConnectEvent<Seq<char>>,
)
    ensures
        ({
            let (to, action) = connect_next(job, stage, ev);
            let begun = stage is Start && ev is Begin && !incomplete(job.cfg);
            let clear = (begun && ev == ConnectEvent::<Seq<char>>::Begin(None)) || (stage
                is TakingOver && ev is Stopped);
            &&& action is Probe <==> begun && (ev matches ConnectEvent::Begin(
                Some((Phase::Online, _)),
            ))
            &&& action is Probe ==> Some((Phase::Online, to->Probing_0)) == ev->Begin_0 && to
                is Probing
            &&& action is TakeOver <==> begun && (ev matches ConnectEvent::Begin(
                Some((Phase::Reconnecting, _)),
            ))
            &&& action is TakeOver ==> to is TakingOver && action->wait_ms == 5000
                && action->TakeOver_notice == capsule::info_text(
                "检测到后台正在重连,改由本次登录接管"@,
                None,
                job.cfg.prompt,
            )
            &&& action is CheckTun <==> clear && job.tun
            &&& action is CheckTun ==> to is CheckingTun
            &&& action is Sweep <==> stage is CheckingTun && ev == ConnectEvent::<
                Seq<char>,
            >::Checked(Readiness::Ready)
            &&& action is Sweep ==> to is Sweeping
            &&& action is Prepare <==> (clear && !job.tun) || (stage is Sweeping && ev is Swept)
            &&& action is Prepare ==> to is Preparing
        }),
{
}

/// The stored password is looked up once everything is in place, unless it is to be passed over. A
/// password is typed where it is passed over, where none is stored, and after one was refused; the
/// user is then asked by name, and told of the refusal. The password that is handed in is the one
/// that was found or typed.
pub proof fn law_which_password_is_handed_in(
    job: ConnectJob,
    stage: ConnectStage<Seq<char>>,
    ev: ConnectEvent<Seq<char>>,
)
    ensures
        ({
            let (to, action) = connect_next(job, stage, ev);
            let refused = stage is LoggingIn && ev is PasswordRejected;
            &&& action is ReadPassword <==> stage is Preparing && ev is Prepared && !job.relogin
            &&& action is ReadPassword ==> to is ReadingPassword
            &&& action is AskPassword <==> (stage is Preparing && ev is Prepared && job.relogin) || (
            stage is ReadingPassword && ev == ConnectEvent::<Seq<char>>::Password(None)) || refused
            &&& action is AskPassword ==> to is AskingPassword && action->AskPassword_prompt
                == "VPN 密码（"@ + job.cfg.username@ + "）"@
            &&& action is AskPassword ==> action->refusal == (if refused {
                Some(
                    capsule::err_text(
                        "密码被拒: "@ + ev->PasswordRejected_0 + "，请重新输入"@,
                        None,
                        job.cfg.prompt,
                    ),
                )
            } else {
                None
            })
            &&& action is Login <==> (stage is ReadingPassword && (ev matches
                ConnectEvent::Password(p) && p is Some)) || (stage is AskingPassword && ev
                is Typed)
            &&& action is Login && stage is ReadingPassword ==> Some(action->Login_0)
                == ev->Password_0 && to == (ConnectStage::LoggingIn {
                password: action->Login_0,
                typed: false,
            })
            &&& action is Login && stage is AskingPassword ==> action->Login_0 == ev->Typed_0 && to
                == (ConnectStage::LoggingIn { password: action->Login_0, typed: true })
        }),
{
}

/// Once the password was taken, a session is obtained with the code that was sent. With a session
/// the daemon is started: at once where the password was a stored one, and once it is stored where
/// it was typed. Nothing else stores a password or starts a daemon.
pub proof fn law_what_follows_on_the_password(
    job: ConnectJob,
    stage: ConnectStage<Seq<char>>,
    ev: ConnectEvent<Seq<char>>,
)
    ensures
        ({
            let (to, action) = connect_next(job, stage, ev);
            &&& action is Obtain <==> stage is LoggingIn && ev is SmsSent
            &&& action is Obtain ==> action->Obtain_phone == ev->phone && to == (
            ConnectStage::Obtaining {
                password: stage->LoggingIn_password,
                typed: stage->LoggingIn_typed,
                sms_at: ev->at,
            })
            &&& action is Store <==> (stage matches ConnectStage::Obtaining { typed, .. } && typed
                && ev is Obtained)
            &&& action is Store ==> action->Store_password == stage->Obtaining_password && to == (
            ConnectStage::Storing {
                twfid: ev->Obtained_twfid,
                sms_at: if ev->Obtained_sms_at == 0 {
                    stage->Obtaining_sms_at
                } else {
                    ev->Obtained_sms_at
                },
            })
            &&& action is Spawn <==> (stage matches ConnectStage::Obtaining { typed, .. } && !typed
                && ev is Obtained) || (stage is Storing && ev is Stored)
            &&& action is Spawn ==> to is Spawning
        }),
{
}

/// A daemon that was started is waited for, forty-five seconds long, then probed, and what the
/// probe found is printed, and that it is connected.
pub proof fn law_a_started_daemon_is_waited_for(
    job: ConnectJob,
    stage: ConnectStage<Seq<char>>,
    ev: ConnectEvent<Seq<char>>,
)
    ensures
        ({
            let (to, action) = connect_next(job, stage, ev);
            &&& action is WaitReady <==> stage is Spawning && ev is Spawned
            &&& action is WaitReady ==> to is WaitingReady && action == (ConnectAction::WaitReady {
                notice: "  连接中…"@,
                timeout_ms: 45000,
            })
            &&& action is ProbeReady <==> stage is WaitingReady && ev is Ready
            &&& action is ProbeReady ==> to == ConnectStage::<Seq<char>>::ProbingReady(ev->Ready_0)
            &&& action is Print <==> (stage is Probing || stage is ProbingReady) && ev is Probed
            &&& action is Print ==> to is Done
            &&& stage is ProbingReady && ev is Probed ==> action == ConnectAction::Print(
                capsule::ok_text(
                    "已连接"@,
                    Some(
                        (
                            cli::shown(Phase::Online, ev->Probed_0, stage->ProbingReady_0),
                            job.columns,
                        ),
                    ),
                    job.cfg.prompt,
                ),
            )
            &&& stage is Probing && ev is Probed ==> action == ConnectAction::Print(
                if ev->Probed_0 == Delay::Timeout {
                    capsule::info_text(
                        "隧道恢复中(看门狗将自动重连)"@,
                        Some(
                            (
                                cli::shown(Phase::Online, ev->Probed_0, stage->Probing_0),
                                job.columns,
                            ),
                        ),
                        job.cfg.prompt,
                    )
                } else {
                    capsule::ok_text(
                        "已经在连接中"@,
                        Some(
                            (
                                cli::shown(Phase::Online, ev->Probed_0, stage->Probing_0),
                                job.columns,
                            ),
                        ),
                        job.cfg.prompt,
                    )
                },
            )
        }),
{
}

/// `connect` fails exactly where something on its way fails, and with the message of that; a refused
/// password is no such failure. What concerns no stage changes nothing.
pub proof fn law_when_connecting_fails(
    job: ConnectJob,
    stage: ConnectStage<Seq<char>>,
    ev: ConnectEvent<Seq<char>>,
)
    requires
        !(stage is Start),
    ensures
        ({
            let (to, action) = connect_next(job, stage, ev);
            let why: Option<Seq<char>> = match ev {
                ConnectEvent::Checked(r) => if stage is CheckingTun && r == Readiness::NotInstalled {
                    Some("TUN 组件未安装"@)
                } else if stage is CheckingTun && r == Readiness::Stale {
                    Some("TUN 组件版本过旧"@)
                } else {
                    None
                },
                ConnectEvent::SweepFailed(m) => if stage is Sweeping {
                    Some(m)
                } else {
                    None
                },
                ConnectEvent::PrepareFailed(m) => if stage is Preparing {
                    Some(m)
                } else {
                    None
                },
                ConnectEvent::TypeFailed(m) => if stage is AskingPassword {
                    Some(m)
                } else {
                    None
                },
                ConnectEvent::LoginFailed(m) => if stage is LoggingIn {
                    Some(m)
                } else {
                    None
                },
                ConnectEvent::ObtainFailed(m) => if stage is Obtaining {
                    Some(m)
                } else {
                    None
                },
                ConnectEvent::StoreFailed(m) => if stage is Storing {
                    Some(m)
                } else {
                    None
                },
                ConnectEvent::SpawnFailed(m) => if stage is Spawning {
                    Some(m)
                } else {
                    None
                },
                ConnectEvent::NotReady(m) => if stage is WaitingReady {
                    Some(m)
                } else {
                    None
                },
                _ => None,
            };
            &&& action is Fail <==> why is Some
            &&& action is Fail ==> Some(action->Fail_0) == why && to is Done
            &&& action is Wait ==> to == stage
        }),
{
}

} // verus!
