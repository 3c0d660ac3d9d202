//! The life of the daemon as a machine: bringing a tunnel up, watching it, and recovering it.
//!
//! A [`Supervisor`] is handed what has just happened and answers with what to do next. The
//! program around it performs the action and hands its outcome back.

use vstd::prelude::*;

use crate::config::{Mode, Phase, RuntimeState, RuntimeStateView};
use crate::daemon;
use crate::daemon::{ProbePlan, ReadyInfo, ServeArgs, ServeArgsView};
use crate::decimal;
use crate::recover;
use crate::text;
use crate::tun;

verus! {

/// Which tunnel is being brought up: the first, one with the session that is in use, or one
/// with a session from a silent login.
#[derive(Debug, Clone, Copy, PartialEq, Eq, Structural)]
pub enum Attempt {
    First,
    Old,
    New,
}

/// What led to a probe of a tunnel in use.
#[derive(Debug, Clone, Copy, PartialEq, Eq, Structural)]
pub enum Reason {
    NetChange,
    Tick,
}

/// What the supervisor is waiting for.
#[derive(Debug, PartialEq, Eq)]
pub enum Stage<T> {
    /// The first state is being written.
    Recording,
    /// A tunnel is being started.
    Launching(Attempt),
    /// The guards of the transparent mode are being checked.
    Guarding(Attempt, ReadyInfo<T>),
    /// The gateway is being kept out of the tunnel.
    Exempting(Attempt, ReadyInfo<T>),
    /// The server's name is being pinned to the gateway's address.
    Pinning(Attempt, ReadyInfo<T>),
    /// A probe of the VPN's DNS server shows whether it can be the target of probes.
    Picking(Attempt, T),
    /// A probe shows whether the tunnel works.
    Verifying(Attempt),
    /// Resolver entries are being written.
    Syncing(Attempt),
    /// The mixed port is being bound.
    Binding,
    /// It is being written that the daemon is online.
    Announcing,
    /// The first tunnel failed and is being stopped.
    Aborting(T),
    /// The failure is being written.
    Reporting(T),
    /// The tunnel is in use.
    Serving,
    /// The tunnel in use is being probed.
    Checking(Reason),
    /// It is being written that the daemon is reconnecting.
    Marking,
    /// Resolver entries are being removed before recovery.
    Clearing,
    /// The network is being waited for.
    Waiting,
    /// A silent login is under way.
    LoggingIn,
    /// It is being written that the daemon is online again.
    Restoring,
    /// The tunnel is being stopped for good.
    Stopping,
    /// Resolver entries are being removed for good.
    Sweeping,
    /// The state is being removed.
    Forgetting,
    Done,
}

/// What has happened.
#[derive(Debug, PartialEq, Eq)]
pub enum Event<T> {
    StateWritten,
    StateWriteFailed(T),
    TunnelReady(ReadyInfo<T>),
    /// The tunnel was started but did not become ready.
    TunnelNotReady(T),
    TunnelNotStarted(T),
    Guarded,
    GuardFailed(T),
    Exempted,
    Pinned,
    ProbeDone(bool),
    Synced,
    Bound,
    BindFailed(T),
    Killed,
    Cleaned,
    GatewayWaited,
    /// A silent login ended with a session. An SMS was sent at the given time, or not at all
    /// where it is zero.
    LoggedIn { twfid: T, sent_at: u64 },
    LoginFailed { sent_at: u64 },
    Cleared,
    /// The tunnel program has ended, with this status.
    TunnelExited(T),
    RouteLine(T),
    RouteEnded,
    NetCheckDue,
    Tick,
    Shutdown,
}

/// What to do next.
#[derive(Debug, PartialEq, Eq)]
pub enum Action<T> {
    WriteState,
    StartTunnel(T),
    /// Stop the tunnel, then start one for a session.
    RestartTunnel(T),
    KillTunnel,
    Guard,
    RouteExempt(T),
    HostsPin { ip: T, server: T },
    /// Probe the tunnel; tell the gateway first that the session is in use, where asked to.
    Probe { plan: ProbePlan<T>, keepalive: bool },
    DnsSync,
    DnsClean,
    Bind(u16),
    /// Pass connections on until something happens; tell the gateway first that the session is
    /// in use, where asked to.
    Serve { keepalive: bool },
    WaitGateway,
    SilentLogin,
    ClearState,
    /// End the daemon, with a message where it failed.
    Exit(Option<T>),
    /// What happened does not concern this stage.
    Wait,
}

/// The readings of the clocks, and whether the daemon has been told to stop.
#[derive(Debug, Clone, Copy, PartialEq, Eq, Structural)]
pub struct Now {
    pub millis: u64,
    pub unix: u64,
    pub shutdown: bool,
}

impl View for Stage<String> {
    type V = Stage<Seq<char>>;

    open spec fn view(&self) -> Stage<Seq<char>> {
        match *self {
            Stage::Recording => Stage::Recording,
            Stage::Launching(a) => Stage::Launching(a),
            Stage::Guarding(a, info) => Stage::Guarding(a, info@),
            Stage::Exempting(a, info) => Stage::Exempting(a, info@),
            Stage::Pinning(a, info) => Stage::Pinning(a, info@),
            Stage::Picking(a, dns) => Stage::Picking(a, dns@),
            Stage::Verifying(a) => Stage::Verifying(a),
            Stage::Syncing(a) => Stage::Syncing(a),
            Stage::Binding => Stage::Binding,
            Stage::Announcing => Stage::Announcing,
            Stage::Aborting(m) => Stage::Aborting(m@),
            Stage::Reporting(m) => Stage::Reporting(m@),
            Stage::Serving => Stage::Serving,
            Stage::Checking(r) => Stage::Checking(r),
            Stage::Marking => Stage::Marking,
            Stage::Clearing => Stage::Clearing,
            Stage::Waiting => Stage::Waiting,
            Stage::LoggingIn => Stage::LoggingIn,
            Stage::Restoring => Stage::Restoring,
            Stage::Stopping => Stage::Stopping,
            Stage::Sweeping => Stage::Sweeping,
            Stage::Forgetting => Stage::Forgetting,
            Stage::Done => Stage::Done,
        }
    }
}

impl View for Event<String> {
    type V = Event<Seq<char>>;

    open spec fn view(&self) -> Event<Seq<char>> {
        match *self {
            Event::StateWritten => Event::StateWritten,
            Event::StateWriteFailed(m) => Event::StateWriteFailed(m@),
            Event::TunnelReady(info) => Event::TunnelReady(info@),
            Event::TunnelNotReady(m) => Event::TunnelNotReady(m@),
            Event::TunnelNotStarted(m) => Event::TunnelNotStarted(m@),
            Event::Guarded => Event::Guarded,
            Event::GuardFailed(m) => Event::GuardFailed(m@),
            Event::Exempted => Event::Exempted,
            Event::Pinned => Event::Pinned,
            Event::ProbeDone(ok) => Event::ProbeDone(ok),
            Event::Synced => Event::Synced,
            Event::Bound => Event::Bound,
            Event::BindFailed(m) => Event::BindFailed(m@),
            Event::Killed => Event::Killed,
            Event::Cleaned => Event::Cleaned,
            Event::GatewayWaited => Event::GatewayWaited,
            Event::LoggedIn { twfid, sent_at } => Event::LoggedIn { twfid: twfid@, sent_at },
            Event::LoginFailed { sent_at } => Event::LoginFailed { sent_at },
            Event::Cleared => Event::Cleared,
            Event::TunnelExited(m) => Event::TunnelExited(m@),
            Event::RouteLine(l) => Event::RouteLine(l@),
            Event::RouteEnded => Event::RouteEnded,
            Event::NetCheckDue => Event::NetCheckDue,
            Event::Tick => Event::Tick,
            Event::Shutdown => Event::Shutdown,
        }
    }
}

impl View for Action<String> {
    type V = Action<Seq<char>>;

    open spec fn view(&self) -> Action<Seq<char>> {
        match *self {
            Action::WriteState => Action::WriteState,
            Action::StartTunnel(t) => Action::StartTunnel(t@),
            Action::RestartTunnel(t) => Action::RestartTunnel(t@),
            Action::KillTunnel => Action::KillTunnel,
            Action::Guard => Action::Guard,
            Action::RouteExempt(ip) => Action::RouteExempt(ip@),
            Action::HostsPin { ip, server } => Action::HostsPin { ip: ip@, server: server@ },
            Action::Probe { plan, keepalive } => Action::Probe { plan: plan@, keepalive },
            Action::DnsSync => Action::DnsSync,
            Action::DnsClean => Action::DnsClean,
            Action::Bind(p) => Action::Bind(p),
            Action::Serve { keepalive } => Action::Serve { keepalive },
            Action::WaitGateway => Action::WaitGateway,
            Action::SilentLogin => Action::SilentLogin,
            Action::ClearState => Action::ClearState,
            Action::Exit(m) => Action::Exit(text::opt_text(m)),
            Action::Wait => Action::Wait,
        }
    }
}

// ---------------------------------------------------------------------------------------
// The model

/// What the supervisor holds besides its stage.
#[verifier::ext_equal]
pub struct CoreView {
    pub args: ServeArgsView,
    pub threshold: u32,
    pub interval: u64,
    pub suffixes: Seq<Seq<char>>,
    pub state: RuntimeStateView,
    pub twfid: Seq<char>,
    pub fails: u32,
    pub net_check_at: Option<u64>,
}

/// A supervisor and what it asks for.
pub type Turn = (CoreView, Stage<Seq<char>>, Action<Seq<char>>);

impl CoreView {
    pub open spec fn with_phase(self, phase: Phase) -> CoreView {
        CoreView { state: RuntimeStateView { phase, ..self.state }, ..self }
    }

    pub open spec fn with_tunnel_ip(self, ip: Seq<char>) -> CoreView {
        CoreView { state: RuntimeStateView { tunnel_ip: ip, ..self.state }, ..self }
    }

    pub open spec fn with_vpn_dns(self, vpn_dns: Option<Seq<char>>) -> CoreView {
        CoreView { state: RuntimeStateView { vpn_dns, ..self.state }, ..self }
    }

    pub open spec fn with_error(self, m: Seq<char>) -> CoreView {
        CoreView { state: RuntimeStateView { error: Some(m), ..self.state }, ..self }
    }

    pub open spec fn with_fails(self, fails: u32) -> CoreView {
        CoreView { fails, ..self }
    }

    /// An SMS was sent at the given time; zero for none.
    pub open spec fn with_sms(self, sent_at: u64) -> CoreView {
        if sent_at == 0 {
            self
        } else {
            CoreView {
                state: RuntimeStateView { last_sms_sent: Some(sent_at), ..self.state },
                ..self
            }
        }
    }

    /// Fewer probes have failed in a row than count as a lost connection.
    pub open spec fn wf(self) -> bool {
        self.fails < self.threshold || self.fails == 0
    }
}

/// Passing connections on.
pub open spec fn serve(c: CoreView, keepalive: bool) -> Turn {
    (c, Stage::Serving, Action::Serve { keepalive })
}

/// Giving up: stop the tunnel for good.
pub open spec fn give_up(c: CoreView) -> Turn {
    (c, Stage::Stopping, Action::KillTunnel)
}

/// The beginning of recovery.
pub open spec fn begin_recovery(c: CoreView) -> Turn {
    (c.with_phase(Phase::Reconnecting), Stage::Marking, Action::WriteState)
}

/// A tunnel works and its resolver entries are written: the first is put to use, a recovered
/// one is back.
pub open spec fn synced(c: CoreView, a: Attempt) -> Turn {
    if a == Attempt::First {
        (c, Stage::Binding, Action::Bind(c.args.mixed_port))
    } else {
        (c.with_phase(Phase::Online), Stage::Restoring, Action::WriteState)
    }
}

/// A tunnel works: write its resolver entries, where there are any.
pub open spec fn sync(c: CoreView, a: Attempt) -> Turn {
    if c.args.tun && daemon::sync_plan(c.suffixes, c.state.vpn_dns) is Some {
        (c, Stage::Syncing(a), Action::DnsSync)
    } else {
        synced(c, a)
    }
}

/// The target of probes is chosen: a recovered tunnel has to pass one with it.
pub open spec fn picked(c: CoreView, a: Attempt, dns: Option<Seq<char>>) -> Turn {
    let c = c.with_vpn_dns(dns);
    if a == Attempt::First {
        sync(c, a)
    } else {
        (
            c,
            Stage::Verifying(a),
            Action::Probe { plan: daemon::probe_plan(c.args, dns), keepalive: false },
        )
    }
}

/// Choosing the target of probes: the VPN's DNS server, if it is known and answers.
pub open spec fn pick(c: CoreView, a: Attempt, info: ReadyInfo<Seq<char>>) -> Turn {
    match info.vpn_dns {
        Some(dns) => (
            c,
            Stage::Picking(a, dns),
            Action::Probe { plan: daemon::probe_plan(c.args, Some(dns)), keepalive: false },
        ),
        None => picked(c, a, None),
    }
}

/// Pinning the server's name, where there is something to pin it to.
pub open spec fn pin(c: CoreView, a: Attempt, info: ReadyInfo<Seq<char>>) -> Turn {
    match daemon::pin_target(info.gateway_ip, c.args.server) {
        Some(ip) => (
            c,
            Stage::Pinning(a, info),
            Action::HostsPin { ip, server: c.args.server },
        ),
        None => pick(c, a, info),
    }
}

/// Keeping the gateway out of the tunnel, where its address is known.
pub open spec fn exempt(c: CoreView, a: Attempt, info: ReadyInfo<Seq<char>>) -> Turn {
    match daemon::exempt_target(info.gateway_ip) {
        Some(ip) => (c, Stage::Exempting(a, info), Action::RouteExempt(ip)),
        None => pin(c, a, info),
    }
}

/// A tunnel has come up.
pub open spec fn up(c: CoreView, a: Attempt, info: ReadyInfo<Seq<char>>) -> Turn {
    let c = c.with_tunnel_ip(info.ip);
    if c.args.tun {
        (c, Stage::Guarding(a, info), Action::Guard)
    } else {
        pick(c, a, info)
    }
}

/// The session that was in use did not bring the tunnel back: log in anew, if that may cause
/// another SMS now.
pub open spec fn relogin(c: CoreView, now: Now) -> Turn {
    if !now.shutdown && recover::gate_open(now.unix, c.state.last_sms_sent, c.interval) {
        (c, Stage::LoggingIn, Action::SilentLogin)
    } else {
        give_up(c)
    }
}

/// A tunnel did not come up, or came up and does not work.
pub open spec fn failed(c: CoreView, a: Attempt, m: Seq<char>, started: bool, now: Now) -> Turn {
    match a {
        Attempt::First => if started {
            (c, Stage::Aborting(m), Action::KillTunnel)
        } else {
            (c, Stage::Done, Action::Exit(Some(m)))
        },
        Attempt::Old => relogin(c, now),
        Attempt::New => give_up(c),
    }
}

/// The message for a port that cannot be bound.
pub open spec fn bind_message(port: u16, why: Seq<char>) -> Seq<char> {
    "绑定混合端口 127.0.0.1:"@ + decimal::digits(port as nat) + " 失败: "@ + why
}

/// The end of the time in which further changes of the network are awaited.
pub open spec fn settled_at(millis: u64) -> u64 {
    if millis > u64::MAX - 1500 {
        u64::MAX
    } else {
        (millis + 1500) as u64
    }
}

/// What happens while the tunnel is in use.
pub open spec fn serving(c: CoreView, ev: Event<Seq<char>>, now: Now) -> Turn {
    match ev {
        Event::Tick => (
            c,
            Stage::Checking(Reason::Tick),
            Action::Probe {
                plan: daemon::probe_plan(c.args, c.state.vpn_dns),
                keepalive: true,
            },
        ),
        Event::NetCheckDue => (
            CoreView { net_check_at: None, ..c },
            Stage::Checking(Reason::NetChange),
            Action::Probe {
                plan: daemon::probe_plan(c.args, c.state.vpn_dns),
                keepalive: false,
            },
        ),
        Event::RouteLine(l) => if daemon::route_event(l) && c.net_check_at is None {
            serve(CoreView { net_check_at: Some(settled_at(now.millis)), ..c }, false)
        } else {
            serve(c, false)
        },
        Event::RouteEnded => serve(c, false),
        Event::TunnelExited(_) => begin_recovery(c),
        Event::Shutdown => give_up(c),
        _ => (c, Stage::Serving, Action::Wait),
    }
}

/// What a probe of the tunnel in use leads to.
pub open spec fn checked(c: CoreView, reason: Reason, alive: bool) -> Turn {
    if alive {
        serve(c.with_fails(0), false)
    } else if reason == Reason::NetChange {
        begin_recovery(c)
    } else {
        if c.fails + 1 >= c.threshold {
            begin_recovery(c)
        } else {
            serve(c.with_fails((c.fails + 1) as u32), false)
        }
    }
}

/// What happens while a tunnel is brought up.
pub open spec fn bring_up(
    c: CoreView,
    stage: Stage<Seq<char>>,
    ev: Event<Seq<char>>,
    now: Now,
) -> Turn {
    match stage {
        Stage::Recording => match ev {
            Event::StateWritten => (
                c,
                Stage::Launching(Attempt::First),
                Action::StartTunnel(c.twfid),
            ),
            Event::StateWriteFailed(m) => (
                c,
                Stage::Done,
                Action::Exit(Some(m)),
            ),
            _ => (c, stage, Action::Wait),
        },
        Stage::Launching(a) => match ev {
            Event::TunnelReady(info) => up(c, a, info),
            Event::TunnelNotReady(m) => failed(c, a, m, true, now),
            Event::TunnelNotStarted(m) => failed(c, a, m, false, now),
            _ => (c, stage, Action::Wait),
        },
        Stage::Guarding(a, info) => match ev {
            Event::Guarded => exempt(c, a, info),
            Event::GuardFailed(m) => if a == Attempt::First {
                failed(c, a, m, true, now)
            } else {
                give_up(c)
            },
            _ => (c, stage, Action::Wait),
        },
        Stage::Exempting(a, info) => match ev {
            Event::Exempted => pin(c, a, info),
            _ => (c, stage, Action::Wait),
        },
        Stage::Pinning(a, info) => match ev {
            Event::Pinned => pick(c, a, info),
            _ => (c, stage, Action::Wait),
        },
        Stage::Picking(a, dns) => match ev {
            Event::ProbeDone(ok) => picked(
                c,
                a,
                if ok {
                    Some(dns)
                } else {
                    None
                },
            ),
            _ => (c, stage, Action::Wait),
        },
        Stage::Verifying(a) => match ev {
            Event::ProbeDone(ok) => if ok {
                sync(c, a)
            } else {
                failed(c, a, seq![], true, now)
            },
            _ => (c, stage, Action::Wait),
        },
        Stage::Syncing(a) => match ev {
            Event::Synced => synced(c, a),
            _ => (c, stage, Action::Wait),
        },
        _ => (c, stage, Action::Wait),
    }
}

/// What happens while the first tunnel is put to use, or its failure is reported.
pub open spec fn put_to_use(
    c: CoreView,
    stage: Stage<Seq<char>>,
    ev: Event<Seq<char>>,
    now: Now,
) -> Turn {
    match stage {
        Stage::Binding => match ev {
            Event::Bound => (
                c.with_phase(Phase::Online),
                Stage::Announcing,
                Action::WriteState,
            ),
            Event::BindFailed(m) => (
                c,
                Stage::Aborting(bind_message(c.args.mixed_port, m)),
                Action::KillTunnel,
            ),
            _ => (c, stage, Action::Wait),
        },
        Stage::Announcing => match ev {
            Event::StateWritten => serve(c, true),
            Event::StateWriteFailed(m) => (
                c,
                Stage::Done,
                Action::Exit(Some(m)),
            ),
            _ => (c, stage, Action::Wait),
        },
        Stage::Aborting(m) => match ev {
            Event::Killed => (
                c.with_error(m),
                Stage::Reporting(m),
                Action::WriteState,
            ),
            _ => (c, stage, Action::Wait),
        },
        Stage::Reporting(m) => match ev {
            Event::StateWritten => (c, Stage::Done, Action::Exit(Some(m))),
            Event::StateWriteFailed(_) => (
                c,
                Stage::Done,
                Action::Exit(Some(m)),
            ),
            _ => (c, stage, Action::Wait),
        },
        _ => (c, stage, Action::Wait),
    }
}

/// What happens while the tunnel is in use.
pub open spec fn in_use(
    c: CoreView,
    stage: Stage<Seq<char>>,
    ev: Event<Seq<char>>,
    now: Now,
) -> Turn {
    match stage {
        Stage::Serving => serving(c, ev, now),
        Stage::Checking(reason) => match ev {
            Event::ProbeDone(alive) => checked(c, reason, alive),
            _ => (c, stage, Action::Wait),
        },
        _ => (c, stage, Action::Wait),
    }
}

/// What happens on the way to another tunnel, and at its end.
pub open spec fn recovery(
    c: CoreView,
    stage: Stage<Seq<char>>,
    ev: Event<Seq<char>>,
    now: Now,
) -> Turn {
    match stage {
        Stage::Marking => match ev {
            Event::StateWritten => marked(c),
            Event::StateWriteFailed(_) => marked(c),
            _ => (c, stage, Action::Wait),
        },
        Stage::Clearing => match ev {
            Event::Cleaned => (c, Stage::Waiting, Action::WaitGateway),
            _ => (c, stage, Action::Wait),
        },
        Stage::Waiting => match ev {
            Event::GatewayWaited => if now.shutdown {
                give_up(c)
            } else {
                (c, Stage::Launching(Attempt::Old), Action::RestartTunnel(c.twfid))
            },
            _ => (c, stage, Action::Wait),
        },
        Stage::LoggingIn => match ev {
            Event::LoggedIn { twfid, sent_at } => (
                CoreView { twfid, ..c.with_sms(sent_at) },
                Stage::Launching(Attempt::New),
                Action::RestartTunnel(twfid),
            ),
            Event::LoginFailed { sent_at } => give_up(c.with_sms(sent_at)),
            _ => (c, stage, Action::Wait),
        },
        Stage::Restoring => match ev {
            Event::StateWritten => serve(c.with_fails(0), false),
            Event::StateWriteFailed(_) => serve(c.with_fails(0), false),
            _ => (c, stage, Action::Wait),
        },
        _ => (c, stage, Action::Wait),
    }
}

/// What happens while the daemon ends.
pub open spec fn ending(
    c: CoreView,
    stage: Stage<Seq<char>>,
    ev: Event<Seq<char>>,
    now: Now,
) -> Turn {
    match stage {
        Stage::Stopping => match ev {
            Event::Killed => if c.args.tun {
                (c, Stage::Sweeping, Action::DnsClean)
            } else {
                (c, Stage::Forgetting, Action::ClearState)
            },
            _ => (c, stage, Action::Wait),
        },
        Stage::Sweeping => match ev {
            Event::Cleaned => (c, Stage::Forgetting, Action::ClearState),
            _ => (c, stage, Action::Wait),
        },
        Stage::Forgetting => match ev {
            Event::Cleared => (c, Stage::Done, Action::Exit(None)),
            _ => (c, stage, Action::Wait),
        },
        _ => (c, stage, Action::Wait),
    }
}

/// What follows on an event.
pub open spec fn next(
    c: CoreView,
    stage: Stage<Seq<char>>,
    ev: Event<Seq<char>>,
    now: Now,
) -> Turn {
    match stage {
        Stage::Recording | Stage::Launching(_) | Stage::Guarding(_, _) | Stage::Exempting(_, _) | Stage::Pinning(_, _) | Stage::Picking(_, _) | Stage::Verifying(_) | Stage::Syncing(_) => bring_up(c, stage, ev, now),
        Stage::Binding | Stage::Announcing | Stage::Aborting(_) | Stage::Reporting(_) => put_to_use(c, stage, ev, now),
        Stage::Serving | Stage::Checking(_) => in_use(c, stage, ev, now),
        Stage::Marking | Stage::Clearing | Stage::Waiting | Stage::LoggingIn | Stage::Restoring => recovery(c, stage, ev, now),
        Stage::Stopping | Stage::Sweeping | Stage::Forgetting => ending(c, stage, ev, now),
        Stage::Done => (c, stage, Action::Wait),
    }
}

/// Recovery after its beginning is written down: in the transparent mode resolver entries go
/// first, since names are resolved on the way.
pub open spec fn marked(c: CoreView) -> Turn {
    if c.args.tun {
        (c, Stage::Clearing, Action::DnsClean)
    } else {
        (c, Stage::Waiting, Action::WaitGateway)
    }
}

// ---------------------------------------------------------------------------------------
// The log

/// A line that there may be.
pub open spec fn told(line: Option<Seq<char>>) -> Seq<Seq<char>> {
    match line {
        Some(l) => seq![l],
        None => seq![],
    }
}

/// Which session a tunnel was restarted with; the first tunnel is not restarted.
pub open spec fn session_name(a: Attempt) -> Option<Seq<char>> {
    match a {
        Attempt::First => None,
        Attempt::Old => Some("旧 TWFID"@),
        Attempt::New => Some("新 TWFID"@),
    }
}

/// How a restart failed.
pub open spec fn failure_line(stage: Stage<Seq<char>>, ev: Event<Seq<char>>) -> Option<Seq<char>> {
    match (stage, ev) {
        (Stage::Launching(a), Event::TunnelNotReady(m)) => match session_name(a) {
            Some(n) => Some(n + " 重启失败: "@ + m),
            None => None,
        },
        (Stage::Launching(a), Event::TunnelNotStarted(m)) => match session_name(a) {
            Some(n) => Some(n + " 重启失败: "@ + m),
            None => None,
        },
        (Stage::Guarding(a, _), Event::GuardFailed(m)) => match session_name(a) {
            Some(_) => Some("恢复后护栏失败: "@ + m),
            None => None,
        },
        (Stage::Verifying(a), Event::ProbeDone(false)) => match session_name(a) {
            Some(n) => Some(n + " 重启后验活探测不通"@),
            None => None,
        },
        _ => None,
    }
}

/// The session that was in use did not bring the tunnel back.
pub open spec fn old_session_failed(stage: Stage<Seq<char>>, ev: Event<Seq<char>>) -> bool {
    match (stage, ev) {
        (Stage::Launching(Attempt::Old), Event::TunnelNotReady(_)) => true,
        (Stage::Launching(Attempt::Old), Event::TunnelNotStarted(_)) => true,
        (Stage::Verifying(Attempt::Old), Event::ProbeDone(false)) => true,
        _ => false,
    }
}

/// That it is too early for a silent login.
pub open spec fn too_early_line(
    c: CoreView,
    stage: Stage<Seq<char>>,
    ev: Event<Seq<char>>,
    now: Now,
) -> Option<Seq<char>> {
    if old_session_failed(stage, ev) && !now.shutdown && !recover::gate_open(
        now.unix,
        c.state.last_sms_sent,
        c.interval,
    ) {
        Some("距上次发码不足 "@ + decimal::digits(c.interval as nat) + "s,不静默重登 → offline"@)
    } else {
        None
    }
}

/// That the daemon is ready, that the connection is lost, or that it is back.
pub open spec fn change_line(
    c: CoreView,
    stage: Stage<Seq<char>>,
    ev: Event<Seq<char>>,
) -> Option<Seq<char>> {
    match (stage, ev) {
        (Stage::Announcing, Event::StateWritten) => Some(
            "ready: mixed 127.0.0.1:"@ + decimal::digits(c.args.mixed_port as nat) + " → socks "@
                + c.args.socks,
        ),
        (Stage::Serving, Event::TunnelExited(m)) => Some(
            "zju-connect 退出: "@ + m + "，隧道断开"@,
        ),
        (Stage::Checking(Reason::NetChange), Event::ProbeDone(false)) => Some(
            "检测到网络变化且隧道不通,立即重连"@,
        ),
        (Stage::Checking(Reason::Tick), Event::ProbeDone(false)) => if c.fails + 1 >= c.threshold {
            Some("探测连续失败 "@ + decimal::digits((c.fails + 1) as nat) + " 次，进入重连"@)
        } else {
            None
        },
        (Stage::Restoring, Event::StateWritten) => Some("已恢复 online"@),
        (Stage::Restoring, Event::StateWriteFailed(_)) => Some("已恢复 online"@),
        _ => None,
    }
}

/// What a restart came to, by the stage that follows: the tunnel is back, or it is given up.
pub open spec fn outcome_line(stage: Stage<Seq<char>>, after: Stage<Seq<char>>) -> Option<
    Seq<char>,
> {
    match (stage, after) {
        (Stage::Serving, _) => None,
        (Stage::Stopping, _) => None,
        (_, Stage::Stopping) => Some("恢复失败 → offline 退出"@),
        (Stage::Verifying(Attempt::Old), Stage::Restoring) => Some("旧 TWFID 重启成功"@),
        (Stage::Syncing(Attempt::Old), Stage::Restoring) => Some("旧 TWFID 重启成功"@),
        (Stage::Verifying(_), Stage::Restoring) => Some("静默重登并重启成功"@),
        (Stage::Syncing(_), Stage::Restoring) => Some("静默重登并重启成功"@),
        _ => None,
    }
}

/// That the gateway's address is not known, so that it cannot be kept out of the tunnel.
pub open spec fn no_gateway_line(stage: Stage<Seq<char>>, ev: Event<Seq<char>>) -> Option<
    Seq<char>,
> {
    match (stage, ev) {
        (Stage::Guarding(_, info), Event::Guarded) => if daemon::exempt_target(
            info.gateway_ip,
        ) is None {
            Some("未从日志解析到网关 IP,跳过网关豁免路由(隧道保活可能被回环拖死)"@)
        } else {
            None
        },
        _ => None,
    }
}

/// The target of probes is chosen with this step, with what the log told of the tunnel.
pub open spec fn picking(c: CoreView, stage: Stage<Seq<char>>, ev: Event<Seq<char>>) -> Option<
    (Attempt, ReadyInfo<Seq<char>>),
> {
    match (stage, ev) {
        (Stage::Launching(a), Event::TunnelReady(info)) => if c.args.tun {
            None
        } else {
            Some((a, info))
        },
        (Stage::Guarding(a, info), Event::Guarded) => if daemon::exempt_target(
            info.gateway_ip,
        ) is Some {
            None
        } else {
            Some((a, info))
        },
        (Stage::Exempting(a, info), Event::Exempted) => if daemon::pin_target(
            info.gateway_ip,
            c.args.server,
        ) is Some {
            None
        } else {
            Some((a, info))
        },
        (Stage::Pinning(a, info), Event::Pinned) => Some((a, info)),
        _ => None,
    }
}

/// There is no DNS server to be the target of probes.
pub open spec fn picking_blind(
    c: CoreView,
    stage: Stage<Seq<char>>,
    ev: Event<Seq<char>>,
) -> Option<Attempt> {
    match picking(c, stage, ev) {
        Some((a, info)) => if info.vpn_dns is None {
            Some(a)
        } else {
            None
        },
        None => None,
    }
}

/// How probes go through the tunnel.
pub open spec fn probe_kind(tun: bool) -> Seq<char> {
    if tun {
        "UDP DNS"@
    } else {
        "SOCKS TCP"@
    }
}

/// Which target of probes was chosen: the VPN's DNS server, or the gateway where that one does
/// not answer or is not known.
pub open spec fn target_line(c: CoreView, stage: Stage<Seq<char>>, ev: Event<Seq<char>>) -> Option<
    Seq<char>,
> {
    match (stage, ev) {
        (Stage::Picking(_, dns), Event::ProbeDone(true)) => Some(
            "健康检查:穿隧道 "@ + probe_kind(c.args.tun) + " 探测 VPN DNS "@ + dns + ":53"@,
        ),
        (Stage::Picking(_, dns), Event::ProbeDone(false)) => Some(
            "穿隧道 "@ + probe_kind(c.args.tun) + " 探针(VPN DNS "@ + dns
                + ":53)在新隧道上不通,降级为网关直连探测"@,
        ),
        _ => if picking_blind(c, stage, ev) is Some {
            Some(
                "未从日志解析到 VPN DNS,健康检查降级为网关直连探测(对隧道假死不敏感)"@,
            )
        } else {
            None
        },
    }
}

/// The DNS server, if any, for the resolver entries that this step is the time to write.
pub open spec fn sync_with(c: CoreView, stage: Stage<Seq<char>>, ev: Event<Seq<char>>) -> Option<
    Option<Seq<char>>,
> {
    if !c.args.tun {
        None
    } else {
        match (stage, ev) {
            (Stage::Picking(Attempt::First, dns), Event::ProbeDone(ok)) => Some(
                if ok {
                    Some(dns)
                } else {
                    None
                },
            ),
            (Stage::Verifying(_), Event::ProbeDone(true)) => Some(c.state.vpn_dns),
            _ => if picking_blind(c, stage, ev) == Some(Attempt::First) {
                Some(None)
            } else {
                None
            },
        }
    }
}

/// What is wrong about the resolver entries that this step is the time to write.
pub open spec fn resolver_lines(
    c: CoreView,
    stage: Stage<Seq<char>>,
    ev: Event<Seq<char>>,
) -> Seq<Seq<char>> {
    match sync_with(c, stage, ev) {
        Some(dns) => daemon::sync_texts(c.suffixes, dns),
        None => seq![],
    }
}

/// The lines for the log that a step brings.
pub open spec fn log_lines(
    c: CoreView,
    stage: Stage<Seq<char>>,
    ev: Event<Seq<char>>,
    now: Now,
) -> Seq<Seq<char>> {
    told(failure_line(stage, ev)) + told(too_early_line(c, stage, ev, now)) + told(
        no_gateway_line(stage, ev),
    ) + told(target_line(c, stage, ev)) + resolver_lines(c, stage, ev) + told(
        change_line(c, stage, ev),
    ) + told(outcome_line(stage, next(c, stage, ev, now).1))
}

// ---------------------------------------------------------------------------------------
// The machine

/// What the supervisor holds besides its stage.
#[derive(Debug)]
pub struct Core {
    pub args: ServeArgs,
    /// So many failed probes in a row count as a lost connection.
    pub threshold: u32,
    /// The seconds that have to pass after an SMS before a silent login.
    pub interval: u64,
    /// The domain suffixes to be resolved by the VPN's DNS server.
    pub suffixes: Vec<String>,
    pub state: RuntimeState,
    /// The session in use.
    pub twfid: String,
    /// How many probes have failed in a row.
    pub fails: u32,
    /// When a change of the network is to be followed by a probe, in milliseconds.
    pub net_check_at: Option<u64>,
}

impl View for Core {
    type V = CoreView;

    open spec fn view(&self) -> CoreView {
        CoreView {
            args: self.args@,
            threshold: self.threshold,
            interval: self.interval,
            suffixes: text::texts(self.suffixes@),
            state: self.state@,
            twfid: self.twfid@,
            fails: self.fails,
            net_check_at: self.net_check_at,
        }
    }
}

/// The daemon between two events.
#[derive(Debug)]
pub struct Supervisor {
    pub core: Core,
    pub stage: Stage<String>,
}

/// What a supervisor and its action are in the model.
pub open spec fn turn(r: (Supervisor, Action<String>)) -> Turn {
    (r.0.core@, r.0.stage@, r.1@)
}

/// The state that a daemon begins with.
pub open spec fn first_state(a: ServeArgsView, pid: i32) -> RuntimeStateView {
    RuntimeStateView {
        phase: Phase::Reconnecting,
        mode: if a.tun {
            Mode::Tun
        } else {
            Mode::Proxy
        },
        daemon_pid: pid,
        port: a.mixed_port,
        socks_upstream: a.socks,
        http_upstream: a.http,
        server: a.server,
        tunnel_ip: seq![],
        vpn_dns: None,
        last_sms_sent: if a.last_sms_sent == 0 {
            None
        } else {
            Some(a.last_sms_sent)
        },
        error: None,
    }
}

/// The model of a daemon that is about to write its first state.
pub open spec fn first_core(
    a: ServeArgsView,
    pid: i32,
    threshold: u32,
    interval: u64,
    suffixes: Seq<Seq<char>>,
) -> CoreView {
    CoreView {
        args: a,
        threshold,
        interval,
        suffixes,
        state: first_state(a, pid),
        twfid: a.twfid,
        fails: 0,
        net_check_at: None,
    }
}

impl Core {
    fn set_phase(self, phase: Phase) -> (r: Core)
        ensures
            r@ == self@.with_phase(phase),
    {
        Core { state: RuntimeState { phase, ..self.state }, ..self }
    }

    fn set_fails(self, fails: u32) -> (r: Core)
        ensures
            r@ == self@.with_fails(fails),
    {
        Core { fails, ..self }
    }

    fn note_sms(self, sent_at: u64) -> (r: Core)
        ensures
            r@ == self@.with_sms(sent_at),
    {
        if sent_at == 0 {
            self
        } else {
            Core { state: RuntimeState { last_sms_sent: Some(sent_at), ..self.state }, ..self }
        }
    }

    fn serve(self, keepalive: bool) -> (r: (Supervisor, Action<String>))
        ensures
            turn(r) == serve(self@, keepalive),
    {
        (Supervisor { core: self, stage: Stage::Serving }, Action::Serve { keepalive })
    }

    fn give_up(self) -> (r: (Supervisor, Action<String>))
        ensures
            turn(r) == give_up(self@),
    {
        (Supervisor { core: self, stage: Stage::Stopping }, Action::KillTunnel)
    }

    fn begin_recovery(self) -> (r: (Supervisor, Action<String>))
        ensures
            turn(r) == begin_recovery(self@),
    {
        (
            Supervisor { core: self.set_phase(Phase::Reconnecting), stage: Stage::Marking },
            Action::WriteState,
        )
    }

    fn marked(self) -> (r: (Supervisor, Action<String>))
        ensures
            turn(r) == marked(self@),
    {
        if self.args.tun {
            (Supervisor { core: self, stage: Stage::Clearing }, Action::DnsClean)
        } else {
            (Supervisor { core: self, stage: Stage::Waiting }, Action::WaitGateway)
        }
    }

    fn synced(self, a: Attempt) -> (r: (Supervisor, Action<String>))
        ensures
            turn(r) == synced(self@, a),
    {
        if a == Attempt::First {
            let port = self.args.mixed_port;
            (Supervisor { core: self, stage: Stage::Binding }, Action::Bind(port))
        } else {
            (
                Supervisor { core: self.set_phase(Phase::Online), stage: Stage::Restoring },
                Action::WriteState,
            )
        }
    }

    fn sync(self, a: Attempt) -> (r: (Supervisor, Action<String>))
        ensures
            turn(r) == sync(self@, a),
    {
        if self.args.tun && daemon::tun_dns_sync(&self.suffixes, &self.state.vpn_dns).is_some() {
            (Supervisor { core: self, stage: Stage::Syncing(a) }, Action::DnsSync)
        } else {
            self.synced(a)
        }
    }

    fn picked(self, a: Attempt, dns: Option<String>) -> (r: (Supervisor, Action<String>))
        ensures
            turn(r) == picked(self@, a, text::opt_text(dns)),
    {
        let core = Core { state: RuntimeState { vpn_dns: dns, ..self.state }, ..self };
        if a == Attempt::First {
            core.sync(a)
        } else {
            let plan = daemon::probe(&core.args, &core.state.vpn_dns);
            (
                Supervisor { core, stage: Stage::Verifying(a) },
                Action::Probe { plan, keepalive: false },
            )
        }
    }

    fn pick(self, a: Attempt, info: ReadyInfo<String>) -> (r: (Supervisor, Action<String>))
        ensures
            turn(r) == pick(self@, a, info@),
    {
        match info.vpn_dns {
            Some(dns) => {
                let target = Some(dns.clone());
                let plan = daemon::probe(&self.args, &target);
                (
                    Supervisor { core: self, stage: Stage::Picking(a, dns) },
                    Action::Probe { plan, keepalive: false },
                )
            },
            None => self.picked(a, None),
        }
    }

    fn pin(self, a: Attempt, info: ReadyInfo<String>) -> (r: (Supervisor, Action<String>))
        ensures
            turn(r) == pin(self@, a, info@),
    {
        match daemon::tun_hosts_pin(&info.gateway_ip, &self.args.server) {
            Some(ip) => {
                let server = self.args.server.clone();
                (
                    Supervisor { core: self, stage: Stage::Pinning(a, info) },
                    Action::HostsPin { ip, server },
                )
            },
            None => self.pick(a, info),
        }
    }

    fn exempt(self, a: Attempt, info: ReadyInfo<String>) -> (r: (Supervisor, Action<String>))
        ensures
            turn(r) == exempt(self@, a, info@),
    {
        match daemon::tun_route_exempt(&info.gateway_ip) {
            Some(ip) => (
                Supervisor { core: self, stage: Stage::Exempting(a, info) },
                Action::RouteExempt(ip),
            ),
            None => self.pin(a, info),
        }
    }

    fn up(self, a: Attempt, info: ReadyInfo<String>) -> (r: (Supervisor, Action<String>))
        ensures
            turn(r) == up(self@, a, info@),
    {
        let ip = info.ip.clone();
        let core = Core { state: RuntimeState { tunnel_ip: ip, ..self.state }, ..self };
        if core.args.tun {
            (Supervisor { core, stage: Stage::Guarding(a, info) }, Action::Guard)
        } else {
            core.pick(a, info)
        }
    }

    fn relogin(self, now: Now) -> (r: (Supervisor, Action<String>))
        ensures
            turn(r) == relogin(self@, now),
    {
        if !now.shutdown && recover::relogin_allowed(
            now.unix,
            self.state.last_sms_sent,
            self.interval,
        ) {
            (Supervisor { core: self, stage: Stage::LoggingIn }, Action::SilentLogin)
        } else {
            self.give_up()
        }
    }

    fn failed(self, a: Attempt, m: String, started: bool, now: Now) -> (r: (
        Supervisor,
        Action<String>,
    ))
        ensures
            turn(r) == failed(self@, a, m@, started, now),
    {
        match a {
            Attempt::First => if started {
                (Supervisor { core: self, stage: Stage::Aborting(m) }, Action::KillTunnel)
            } else {
                self.exit(m)
            },
            Attempt::Old => self.relogin(now),
            Attempt::New => self.give_up(),
        }
    }

    fn exit(self, m: String) -> (r: (Supervisor, Action<String>))
        ensures
            turn(r) == (self@, Stage::<Seq<char>>::Done, Action::Exit(Some(m@))),
    {
        (Supervisor { core: self, stage: Stage::Done }, Action::Exit(Some(m)))
    }

    fn serving(self, ev: Event<String>, now: Now) -> (r: (Supervisor, Action<String>))
        ensures
            turn(r) == serving(self@, ev@, now),
    {
        match ev {
            Event::Tick => {
                let plan = daemon::probe(&self.args, &self.state.vpn_dns);
                (
                    Supervisor { core: self, stage: Stage::Checking(Reason::Tick) },
                    Action::Probe { plan, keepalive: true },
                )
            },
            Event::NetCheckDue => {
                let core = Core { net_check_at: None, ..self };
                let plan = daemon::probe(&core.args, &core.state.vpn_dns);
                (
                    Supervisor { core, stage: Stage::Checking(Reason::NetChange) },
                    Action::Probe { plan, keepalive: false },
                )
            },
            Event::RouteLine(l) => if daemon::is_route_event(&l) && self.net_check_at.is_none() {
                let at: u64 = if now.millis > u64::MAX - 1500 {
                    u64::MAX
                } else {
                    now.millis + 1500
                };
                let core = Core { net_check_at: Some(at), ..self };
                core.serve(false)
            } else {
                self.serve(false)
            },
            Event::RouteEnded => self.serve(false),
            Event::TunnelExited(_) => self.begin_recovery(),
            Event::Shutdown => self.give_up(),
            _ => (Supervisor { core: self, stage: Stage::Serving }, Action::Wait),
        }
    }

    fn checked(self, reason: Reason, alive: bool) -> (r: (Supervisor, Action<String>))
        requires
            self@.wf(),
        ensures
            turn(r) == checked(self@, reason, alive),
    {
        if alive {
            self.set_fails(0).serve(false)
        } else if reason == Reason::NetChange {
            self.begin_recovery()
        } else {
            let fails: u32 = self.fails + 1;
            if recover::should_enter_reconnect(fails, self.threshold) {
                self.begin_recovery()
            } else {
                self.set_fails(fails).serve(false)
            }
        }
    }

    fn bring_up(self, stage: Stage<String>, ev: Event<String>, now: Now) -> (r: (
        Supervisor,
        Action<String>,
    ))
        requires
            self@.wf(),
        ensures
            turn(r) == bring_up(self@, stage@, ev@, now),
    {
        let core = self;
        match stage {
            Stage::Recording => match ev {
                Event::StateWritten => {
                    let twfid = core.twfid.clone();
                    (
                        Supervisor { core, stage: Stage::Launching(Attempt::First) },
                        Action::StartTunnel(twfid),
                    )
                },
                Event::StateWriteFailed(m) => core.exit(m),
                _ => (Supervisor { core, stage: Stage::Recording }, Action::Wait),
            },
            Stage::Launching(a) => match ev {
                Event::TunnelReady(info) => core.up(a, info),
                Event::TunnelNotReady(m) => core.failed(a, m, true, now),
                Event::TunnelNotStarted(m) => core.failed(a, m, false, now),
                _ => (Supervisor { core, stage: Stage::Launching(a) }, Action::Wait),
            },
            Stage::Guarding(a, info) => match ev {
                Event::Guarded => core.exempt(a, info),
                Event::GuardFailed(m) => if a == Attempt::First {
                    core.failed(a, m, true, now)
                } else {
                    core.give_up()
                },
                _ => (Supervisor { core, stage: Stage::Guarding(a, info) }, Action::Wait),
            },
            Stage::Exempting(a, info) => match ev {
                Event::Exempted => core.pin(a, info),
                _ => (Supervisor { core, stage: Stage::Exempting(a, info) }, Action::Wait),
            },
            Stage::Pinning(a, info) => match ev {
                Event::Pinned => core.pick(a, info),
                _ => (Supervisor { core, stage: Stage::Pinning(a, info) }, Action::Wait),
            },
            Stage::Picking(a, dns) => match ev {
                Event::ProbeDone(ok) => if ok {
                    core.picked(a, Some(dns))
                } else {
                    core.picked(a, None)
                },
                _ => (Supervisor { core, stage: Stage::Picking(a, dns) }, Action::Wait),
            },
            Stage::Verifying(a) => match ev {
                Event::ProbeDone(ok) => if ok {
                    core.sync(a)
                } else {
                    core.failed(a, String::new(), true, now)
                },
                _ => (Supervisor { core, stage: Stage::Verifying(a) }, Action::Wait),
            },
            Stage::Syncing(a) => match ev {
                Event::Synced => core.synced(a),
                _ => (Supervisor { core, stage: Stage::Syncing(a) }, Action::Wait),
            },
            stage => (Supervisor { core, stage }, Action::Wait),
        }
    }

    fn put_to_use(self, stage: Stage<String>, ev: Event<String>, now: Now) -> (r: (
        Supervisor,
        Action<String>,
    ))
        requires
            self@.wf(),
        ensures
            turn(r) == put_to_use(self@, stage@, ev@, now),
    {
        let core = self;
        match stage {
            Stage::Binding => match ev {
                Event::Bound => (
                    Supervisor { core: core.set_phase(Phase::Online), stage: Stage::Announcing },
                    Action::WriteState,
                ),
                Event::BindFailed(m) => {
                    let mut why = "绑定混合端口 127.0.0.1:".to_owned();
                    why.append(&decimal::decimal(core.args.mixed_port as u64));
                    why.append(" 失败: ");
                    why.append(&m);
                    (Supervisor { core, stage: Stage::Aborting(why) }, Action::KillTunnel)
                },
                _ => (Supervisor { core, stage: Stage::Binding }, Action::Wait),
            },
            Stage::Announcing => match ev {
                Event::StateWritten => core.serve(true),
                Event::StateWriteFailed(m) => core.exit(m),
                _ => (Supervisor { core, stage: Stage::Announcing }, Action::Wait),
            },
            Stage::Aborting(m) => match ev {
                Event::Killed => {
                    let error = Some(m.clone());
                    let core = Core { state: RuntimeState { error, ..core.state }, ..core };
                    (Supervisor { core, stage: Stage::Reporting(m) }, Action::WriteState)
                },
                _ => (Supervisor { core, stage: Stage::Aborting(m) }, Action::Wait),
            },
            Stage::Reporting(m) => match ev {
                Event::StateWritten => core.exit(m),
                Event::StateWriteFailed(_) => core.exit(m),
                _ => (Supervisor { core, stage: Stage::Reporting(m) }, Action::Wait),
            },
            stage => (Supervisor { core, stage }, Action::Wait),
        }
    }

    fn in_use(self, stage: Stage<String>, ev: Event<String>, now: Now) -> (r: (
        Supervisor,
        Action<String>,
    ))
        requires
            self@.wf(),
        ensures
            turn(r) == in_use(self@, stage@, ev@, now),
    {
        let core = self;
        match stage {
            Stage::Serving => core.serving(ev, now),
            Stage::Checking(reason) => match ev {
                Event::ProbeDone(alive) => core.checked(reason, alive),
                _ => (Supervisor { core, stage: Stage::Checking(reason) }, Action::Wait),
            },
            stage => (Supervisor { core, stage }, Action::Wait),
        }
    }

    fn recovery(self, stage: Stage<String>, ev: Event<String>, now: Now) -> (r: (
        Supervisor,
        Action<String>,
    ))
        requires
            self@.wf(),
        ensures
            turn(r) == recovery(self@, stage@, ev@, now),
    {
        let core = self;
        match stage {
            Stage::Marking => match ev {
                Event::StateWritten => core.marked(),
                Event::StateWriteFailed(_) => core.marked(),
                _ => (Supervisor { core, stage: Stage::Marking }, Action::Wait),
            },
            Stage::Clearing => match ev {
                Event::Cleaned => (
                    Supervisor { core, stage: Stage::Waiting },
                    Action::WaitGateway,
                ),
                _ => (Supervisor { core, stage: Stage::Clearing }, Action::Wait),
            },
            Stage::Waiting => match ev {
                Event::GatewayWaited => if now.shutdown {
                    core.give_up()
                } else {
                    let twfid = core.twfid.clone();
                    (
                        Supervisor { core, stage: Stage::Launching(Attempt::Old) },
                        Action::RestartTunnel(twfid),
                    )
                },
                _ => (Supervisor { core, stage: Stage::Waiting }, Action::Wait),
            },
            Stage::LoggingIn => match ev {
                Event::LoggedIn { twfid, sent_at } => {
                    let session = twfid.clone();
                    let noted = core.note_sms(sent_at);
                    let core = Core { twfid, ..noted };
                    (
                        Supervisor { core, stage: Stage::Launching(Attempt::New) },
                        Action::RestartTunnel(session),
                    )
                },
                Event::LoginFailed { sent_at } => {
                    core.note_sms(sent_at).give_up()
                },
                _ => (Supervisor { core, stage: Stage::LoggingIn }, Action::Wait),
            },
            Stage::Restoring => match ev {
                Event::StateWritten => core.set_fails(0).serve(false),
                Event::StateWriteFailed(_) => core.set_fails(0).serve(false),
                _ => (Supervisor { core, stage: Stage::Restoring }, Action::Wait),
            },
            stage => (Supervisor { core, stage }, Action::Wait),
        }
    }

    fn ending(self, stage: Stage<String>, ev: Event<String>, now: Now) -> (r: (
        Supervisor,
        Action<String>,
    ))
        requires
            self@.wf(),
        ensures
            turn(r) == ending(self@, stage@, ev@, now),
    {
        let core = self;
        match stage {
            Stage::Stopping => match ev {
                Event::Killed => if core.args.tun {
                    (Supervisor { core, stage: Stage::Sweeping }, Action::DnsClean)
                } else {
                    (Supervisor { core, stage: Stage::Forgetting }, Action::ClearState)
                },
                _ => (Supervisor { core, stage: Stage::Stopping }, Action::Wait),
            },
            Stage::Sweeping => match ev {
                Event::Cleaned => (
                    Supervisor { core, stage: Stage::Forgetting },
                    Action::ClearState,
                ),
                _ => (Supervisor { core, stage: Stage::Sweeping }, Action::Wait),
            },
            Stage::Forgetting => match ev {
                Event::Cleared => (
                    Supervisor { core, stage: Stage::Done },
                    Action::Exit(None),
                ),
                _ => (Supervisor { core, stage: Stage::Forgetting }, Action::Wait),
            },
            stage => (Supervisor { core, stage }, Action::Wait),
        }
    }
}

/// The count of failed probes stays below what counts as a lost connection.
proof fn lemma_next_wf(c: CoreView, stage: Stage<Seq<char>>, ev: Event<Seq<char>>, now: Now)
    requires
        c.wf(),
    ensures
        next(c, stage, ev, now).0.wf(),
{
}

impl Core {
    fn follow(self, stage: Stage<String>, ev: Event<String>, now: Now) -> (r: (
        Supervisor,
        Action<String>,
    ))
        requires
            self@.wf(),
        ensures
            turn(r) == next(self@, stage@, ev@, now),
    {
        match stage {
            Stage::Recording | Stage::Launching(_) | Stage::Guarding(_, _) | Stage::Exempting(_, _) | Stage::Pinning(_, _) | Stage::Picking(_, _) | Stage::Verifying(_) | Stage::Syncing(_) => self.bring_up(stage, ev, now),
            Stage::Binding | Stage::Announcing | Stage::Aborting(_) | Stage::Reporting(_) => self.put_to_use(stage, ev, now),
            Stage::Serving | Stage::Checking(_) => self.in_use(stage, ev, now),
            Stage::Marking | Stage::Clearing | Stage::Waiting | Stage::LoggingIn | Stage::Restoring => self.recovery(stage, ev, now),
            Stage::Stopping | Stage::Sweeping | Stage::Forgetting => self.ending(stage, ev, now),
            Stage::Done => (Supervisor { core: self, stage: Stage::Done }, Action::Wait),
        }
    }
}

fn restart_failure(name: Option<&str>, m: &str) -> (r: Option<String>)
    ensures
        text::opt_text(r) == (match name {
            Some(n) => Some(n@ + " 重启失败: "@ + m@),
            None => None,
        }),
{
    match name {
        Some(n) => {
            let mut line = n.to_owned();
            line.append(" 重启失败: ");
            line.append(m);
            Some(line)
        },
        None => None,
    }
}

fn name_of(a: Attempt) -> (r: Option<&'static str>)
    ensures
        text::opt_str_text(r) == session_name(a),
{
    match a {
        Attempt::First => None,
        Attempt::Old => Some("旧 TWFID"),
        Attempt::New => Some("新 TWFID"),
    }
}

fn failure_told(stage: &Stage<String>, ev: &Event<String>) -> (r: Option<String>)
    ensures
        text::opt_text(r) == failure_line(stage@, ev@),
{
    match stage {
        Stage::Launching(a) => match ev {
            Event::TunnelNotReady(m) => restart_failure(name_of(*a), m),
            Event::TunnelNotStarted(m) => restart_failure(name_of(*a), m),
            _ => None,
        },
        Stage::Guarding(a, _) => match ev {
            Event::GuardFailed(m) => if name_of(*a).is_some() {
                let mut line = "恢复后护栏失败: ".to_owned();
                line.append(m);
                Some(line)
            } else {
                None
            },
            _ => None,
        },
        Stage::Verifying(a) => match ev {
            Event::ProbeDone(false) => match name_of(*a) {
                Some(n) => {
                    let mut line = n.to_owned();
                    line.append(" 重启后验活探测不通");
                    Some(line)
                },
                None => None,
            },
            _ => None,
        },
        _ => None,
    }
}

fn too_early_told(core: &Core, stage: &Stage<String>, ev: &Event<String>, now: Now) -> (r: Option<
    String,
>)
    ensures
        text::opt_text(r) == too_early_line(core@, stage@, ev@, now),
{
    let failed = match stage {
        Stage::Launching(Attempt::Old) => match ev {
            Event::TunnelNotReady(_) => true,
            Event::TunnelNotStarted(_) => true,
            _ => false,
        },
        Stage::Verifying(Attempt::Old) => match ev {
            Event::ProbeDone(false) => true,
            _ => false,
        },
        _ => false,
    };
    if failed && !now.shutdown && !recover::relogin_allowed(
        now.unix,
        core.state.last_sms_sent,
        core.interval,
    ) {
        let mut line = "距上次发码不足 ".to_owned();
        line.append(&decimal::decimal(core.interval));
        line.append("s,不静默重登 → offline");
        Some(line)
    } else {
        None
    }
}

fn change_told(core: &Core, stage: &Stage<String>, ev: &Event<String>) -> (r: Option<String>)
    ensures
        text::opt_text(r) == change_line(core@, stage@, ev@),
{
    match stage {
        Stage::Announcing => match ev {
            Event::StateWritten => {
                let mut line = "ready: mixed 127.0.0.1:".to_owned();
                line.append(&decimal::decimal(core.args.mixed_port as u64));
                line.append(" → socks ");
                line.append(&core.args.socks);
                Some(line)
            },
            _ => None,
        },
        Stage::Serving => match ev {
            Event::TunnelExited(m) => {
                let mut line = "zju-connect 退出: ".to_owned();
                line.append(m);
                line.append("，隧道断开");
                Some(line)
            },
            _ => None,
        },
        Stage::Checking(reason) => match ev {
            Event::ProbeDone(false) => if *reason == Reason::NetChange {
                Some("检测到网络变化且隧道不通,立即重连".to_owned())
            } else {
                let fails: u64 = core.fails as u64 + 1;
                if fails >= core.threshold as u64 {
                    let mut line = "探测连续失败 ".to_owned();
                    line.append(&decimal::decimal(fails));
                    line.append(" 次，进入重连");
                    Some(line)
                } else {
                    None
                }
            },
            _ => None,
        },
        Stage::Restoring => match ev {
            Event::StateWritten => Some("已恢复 online".to_owned()),
            Event::StateWriteFailed(_) => Some("已恢复 online".to_owned()),
            _ => None,
        },
        _ => None,
    }
}

fn no_gateway_told(stage: &Stage<String>, ev: &Event<String>) -> (r: Option<String>)
    ensures
        text::opt_text(r) == no_gateway_line(stage@, ev@),
{
    match stage {
        Stage::Guarding(_, info) => match ev {
            Event::Guarded => if daemon::tun_route_exempt(&info.gateway_ip).is_none() {
                Some(
                    "未从日志解析到网关 IP,跳过网关豁免路由(隧道保活可能被回环拖死)".to_owned(),
                )
            } else {
                None
            },
            _ => None,
        },
        _ => None,
    }
}

fn blind(a: Attempt, info: &ReadyInfo<String>) -> (r: Option<Attempt>)
    ensures
        r == (if info@.vpn_dns is None {
            Some(a)
        } else {
            None
        }),
{
    if info.vpn_dns.is_none() {
        Some(a)
    } else {
        None
    }
}

fn blindly(core: &Core, stage: &Stage<String>, ev: &Event<String>) -> (r: Option<Attempt>)
    ensures
        r == picking_blind(core@, stage@, ev@),
{
    match stage {
        Stage::Launching(a) => match ev {
            Event::TunnelReady(info) => if core.args.tun {
                None
            } else {
                blind(*a, info)
            },
            _ => None,
        },
        Stage::Guarding(a, info) => match ev {
            Event::Guarded => if daemon::tun_route_exempt(&info.gateway_ip).is_some() {
                None
            } else {
                blind(*a, info)
            },
            _ => None,
        },
        Stage::Exempting(a, info) => match ev {
            Event::Exempted => if daemon::tun_hosts_pin(
                &info.gateway_ip,
                &core.args.server,
            ).is_some() {
                None
            } else {
                blind(*a, info)
            },
            _ => None,
        },
        Stage::Pinning(a, info) => match ev {
            Event::Pinned => blind(*a, info),
            _ => None,
        },
        _ => None,
    }
}

fn kind_of_probe(tun: bool) -> (r: &'static str)
    ensures
        r@ == probe_kind(tun),
{
    if tun {
        "UDP DNS"
    } else {
        "SOCKS TCP"
    }
}

fn target_told(core: &Core, stage: &Stage<String>, ev: &Event<String>) -> (r: Option<String>)
    ensures
        text::opt_text(r) == target_line(core@, stage@, ev@),
{
    if let Stage::Picking(_, dns) = stage {
        if let Event::ProbeDone(ok) = ev {
            let mut line = if *ok {
                "健康检查:穿隧道 ".to_owned()
            } else {
                "穿隧道 ".to_owned()
            };
            line.append(kind_of_probe(core.args.tun));
            if *ok {
                line.append(" 探测 VPN DNS ");
                line.append(dns);
                line.append(":53");
            } else {
                line.append(" 探针(VPN DNS ");
                line.append(dns);
                line.append(":53)在新隧道上不通,降级为网关直连探测");
            }
            return Some(line);
        }
        return None;
    }
    if blindly(core, stage, ev).is_some() {
        Some("未从日志解析到 VPN DNS,健康检查降级为网关直连探测(对隧道假死不敏感)".to_owned())
    } else {
        None
    }
}

fn resolver_told(core: &Core, stage: &Stage<String>, ev: &Event<String>) -> (r: Vec<String>)
    ensures
        text::texts(r@) == resolver_lines(core@, stage@, ev@),
{
    let none: Vec<String> = Vec::new();
    assert(text::texts(none@) =~= Seq::<Seq<char>>::empty());
    if !core.args.tun {
        return none;
    }
    match stage {
        Stage::Picking(a, dns) => match ev {
            Event::ProbeDone(ok) => if *a == Attempt::First {
                let found: Option<String> = if *ok {
                    Some(dns.clone())
                } else {
                    None
                };
                daemon::sync_lines(&core.suffixes, &found)
            } else {
                none
            },
            _ => none,
        },
        Stage::Verifying(_) => match ev {
            Event::ProbeDone(true) => daemon::sync_lines(&core.suffixes, &core.state.vpn_dns),
            _ => none,
        },
        _ => match blindly(core, stage, ev) {
            Some(Attempt::First) => daemon::sync_lines(&core.suffixes, &None),
            _ => none,
        },
    }
}

fn tell_all(lines: Vec<String>, more: Vec<String>) -> (r: Vec<String>)
    ensures
        text::texts(r@) == text::texts(lines@) + text::texts(more@),
{
    let mut lines = lines;
    let mut more = more;
    let ghost held = lines@;
    let ghost added = more@;
    lines.append(&mut more);
    assert(text::texts(lines@) =~= text::texts(held) + text::texts(added));
    lines
}

/// What a stage is to the line on the outcome.
#[derive(Clone, Copy, PartialEq, Eq, Structural)]
enum Before {
    /// The tunnel is in use, or the daemon is ending already.
    Outside,
    /// A tunnel is being tried out, with the session that was in use or with a new one.
    Trying { old: bool },
    Other,
}

spec fn before_of(stage: Stage<Seq<char>>) -> Before {
    match stage {
        Stage::Serving | Stage::Stopping => Before::Outside,
        Stage::Verifying(a) => Before::Trying { old: a == Attempt::Old },
        Stage::Syncing(a) => Before::Trying { old: a == Attempt::Old },
        _ => Before::Other,
    }
}

fn before(stage: &Stage<String>) -> (r: Before)
    ensures
        r == before_of(stage@),
{
    match stage {
        Stage::Serving => Before::Outside,
        Stage::Stopping => Before::Outside,
        Stage::Verifying(a) => Before::Trying { old: *a == Attempt::Old },
        Stage::Syncing(a) => Before::Trying { old: *a == Attempt::Old },
        _ => Before::Other,
    }
}

fn outcome_told(before: Before, after: &Stage<String>, Ghost(stage): Ghost<Stage<Seq<char>>>) -> (r:
    Option<String>)
    requires
        before == before_of(stage),
    ensures
        text::opt_text(r) == outcome_line(stage, after@),
{
    match before {
        Before::Outside => None,
        Before::Trying { old } => match after {
            Stage::Stopping => Some("恢复失败 → offline 退出".to_owned()),
            Stage::Restoring => if old {
                Some("旧 TWFID 重启成功".to_owned())
            } else {
                Some("静默重登并重启成功".to_owned())
            },
            _ => None,
        },
        Before::Other => match after {
            Stage::Stopping => Some("恢复失败 → offline 退出".to_owned()),
            _ => None,
        },
    }
}

fn tell(lines: Vec<String>, line: Option<String>) -> (r: Vec<String>)
    ensures
        text::texts(r@) == text::texts(lines@) + told(text::opt_text(line)),
{
    let mut lines = lines;
    let ghost held = text::texts(lines@);
    match line {
        Some(l) => {
            proof {
                text::lemma_texts_push(lines@, l);
            }
            lines.push(l);
            assert(text::texts(lines@) =~= held + seq![l@]);
        },
        None => {
            assert(held + Seq::<Seq<char>>::empty() =~= held);
        },
    }
    lines
}

impl Supervisor {
    /// A daemon that is about to write its first state.
    pub fn new(
        args: ServeArgs,
        pid: i32,
        threshold: u32,
        interval: u64,
        suffixes: Vec<String>,
    ) -> (r: (Supervisor, Action<String>))
        ensures
            turn(r) == (
                first_core(args@, pid, threshold, interval, text::texts(suffixes@)),
                Stage::<Seq<char>>::Recording,
                Action::<Seq<char>>::WriteState,
            ),
            r.0.core@.wf(),
            r.0.core.state.socks_upstream@ == args.socks@,
            r.0.core.state.http_upstream@ == args.http@,
            r.0.core.state.server@ == args.server@,
            r.0.core.state.port == args.mixed_port,
            r.0.core.state.daemon_pid == pid,
            r.0.core.twfid@ == args.twfid@,
    {
        let state = RuntimeState {
            phase: Phase::Reconnecting,
            mode: if args.tun {
                Mode::Tun
            } else {
                Mode::Proxy
            },
            daemon_pid: pid,
            port: args.mixed_port,
            socks_upstream: args.socks.clone(),
            http_upstream: args.http.clone(),
            server: args.server.clone(),
            tunnel_ip: String::new(),
            vpn_dns: None,
            last_sms_sent: if args.last_sms_sent == 0 {
                None
            } else {
                Some(args.last_sms_sent)
            },
            error: None,
        };
        let twfid = args.twfid.clone();
        let core = Core {
            args,
            threshold,
            interval,
            suffixes,
            state,
            twfid,
            fails: 0,
            net_check_at: None,
        };
        (Supervisor { core, stage: Stage::Recording }, Action::WriteState)
    }

    /// Takes what has happened, and says what to do next, and what to write to the log.
    pub fn step(self, ev: Event<String>, now: Now) -> (r: (
        Supervisor,
        Action<String>,
        Vec<String>,
    ))
        requires
            self.core@.wf(),
        ensures
            turn((r.0, r.1)) == next(self.core@, self.stage@, ev@, now),
            text::texts(r.2@) == log_lines(self.core@, self.stage@, ev@, now),
            r.0.core@.wf(),
    {
        let Supervisor { core, stage } = self;
        let ghost was = stage@;
        let ghost held = core@;
        let ghost happened = ev@;
        proof {
            lemma_next_wf(core@, stage@, ev@, now);
        }
        let none: Vec<String> = Vec::new();
        let lines = tell(none, failure_told(&stage, &ev));
        let lines = tell(lines, too_early_told(&core, &stage, &ev, now));
        let lines = tell(lines, no_gateway_told(&stage, &ev));
        let lines = tell(lines, target_told(&core, &stage, &ev));
        let lines = tell_all(lines, resolver_told(&core, &stage, &ev));
        let lines = tell(lines, change_told(&core, &stage, &ev));
        let before = before(&stage);
        let (next_up, action) = core.follow(stage, ev, now);
        let lines = tell(lines, outcome_told(before, &next_up.stage, Ghost(was)));
        assert(text::texts(lines@) =~= log_lines(held, was, happened, now));
        (next_up, action, lines)
    }
}

// ---------------------------------------------------------------------------------------
// Laws of a single step

/// What was configured never changes.
pub proof fn law_configuration_is_kept(
    c: CoreView,
    stage: Stage<Seq<char>>,
    ev: Event<Seq<char>>,
    now: Now,
)
    ensures
        next(c, stage, ev, now).0.args == c.args,
        next(c, stage, ev, now).0.threshold == c.threshold,
        next(c, stage, ev, now).0.interval == c.interval,
        next(c, stage, ev, now).0.suffixes == c.suffixes,
        next(c, stage, ev, now).0.state.daemon_pid == c.state.daemon_pid,
        next(c, stage, ev, now).0.state.mode == c.state.mode,
{
}

/// A silent login happens only after the session in use failed to bring the tunnel back, only
/// where enough time has passed since the last SMS, and never once the daemon has been told to
/// stop.
pub proof fn law_login_only_through_the_gate(
    c: CoreView,
    stage: Stage<Seq<char>>,
    ev: Event<Seq<char>>,
    now: Now,
)
    requires
        next(c, stage, ev, now).2 == Action::<Seq<char>>::SilentLogin,
    ensures
        !now.shutdown,
        recover::gate_open(now.unix, c.state.last_sms_sent, c.interval),
        stage == Stage::<Seq<char>>::Launching(Attempt::Old) || stage == Stage::<
            Seq<char>,
        >::Verifying(Attempt::Old),
{
}

/// The time of the last SMS is that of the last one that a silent login sent, whether the
/// login succeeded or not; nothing else changes it.
pub proof fn law_every_sms_is_noted(
    c: CoreView,
    stage: Stage<Seq<char>>,
    ev: Event<Seq<char>>,
    now: Now,
)
    ensures
        next(c, stage, ev, now).0.state.last_sms_sent == (match (stage, ev) {
            (Stage::LoggingIn, Event::LoggedIn { sent_at, .. }) => if sent_at == 0 {
                c.state.last_sms_sent
            } else {
                Some(sent_at)
            },
            (Stage::LoggingIn, Event::LoginFailed { sent_at }) => if sent_at == 0 {
                c.state.last_sms_sent
            } else {
                Some(sent_at)
            },
            _ => c.state.last_sms_sent,
        }),
{
}

/// A tunnel is always started for the session in use, and only a silent login changes that
/// session.
pub proof fn law_tunnels_use_the_session(
    c: CoreView,
    stage: Stage<Seq<char>>,
    ev: Event<Seq<char>>,
    now: Now,
)
    ensures
        match next(c, stage, ev, now).2 {
            Action::StartTunnel(t) => t == next(c, stage, ev, now).0.twfid,
            Action::RestartTunnel(t) => t == next(c, stage, ev, now).0.twfid,
            _ => true,
        },
        next(c, stage, ev, now).0.twfid == (match (stage, ev) {
            (Stage::LoggingIn, Event::LoggedIn { twfid, .. }) => twfid,
            _ => c.twfid,
        }),
{
}

/// In the transparent mode recovery waits for the network only after the resolver entries are
/// removed, and a tunnel is restarted only after that wait or after a login.
pub proof fn law_resolver_entries_go_first(
    c: CoreView,
    stage: Stage<Seq<char>>,
    ev: Event<Seq<char>>,
    now: Now,
)
    ensures
        c.args.tun && next(c, stage, ev, now).2 == Action::<Seq<char>>::WaitGateway ==> stage
            == Stage::<Seq<char>>::Clearing && ev == Event::<Seq<char>>::Cleaned,
        next(c, stage, ev, now).2 is RestartTunnel ==> stage == Stage::<Seq<char>>::Waiting
            || stage == Stage::<Seq<char>>::LoggingIn,
{
}

/// One failed check after a change of the network begins recovery; failed checks on the clock
/// do so once enough of them came in a row, and a check that succeeds starts the count anew.
pub proof fn law_when_recovery_begins(c: CoreView, reason: Reason, alive: bool, now: Now)
    ensures
        (next(
            c,
            Stage::Checking(reason),
            Event::ProbeDone(alive),
            now,
        ).1 == Stage::<Seq<char>>::Marking) == (!alive && (reason == Reason::NetChange || c.fails
            + 1 >= c.threshold)),
        alive ==> next(c, Stage::Checking(reason), Event::ProbeDone(alive), now).0.fails == 0,
{
}

/// The first change of the network sets the time of the check that follows it; further changes
/// before that check do not put it off.
pub proof fn law_changes_are_gathered(c: CoreView, line: Seq<char>, at: u64, now: Now)
    requires
        c.net_check_at == Some(at),
    ensures
        next(c, Stage::Serving, Event::RouteLine(line), now) == serve(c, false),
{
}

/// A daemon whose tunnel is in use and answers writes nothing to the log.
pub proof fn law_no_lines_while_online(
    c: CoreView,
    stage: Stage<Seq<char>>,
    ev: Event<Seq<char>>,
    now: Now,
)
    requires
        stage is Serving || stage is Checking,
        next(c, stage, ev, now).1 is Serving || next(c, stage, ev, now).1 is Checking,
    ensures
        log_lines(c, stage, ev, now) =~= Seq::<Seq<char>>::empty(),
{
}

/// Every change of state is logged: exactly one line tells that the daemon is ready, that the
/// connection counts as lost, or that it is back; and a daemon that gives its recovery up says so
/// last.
pub proof fn law_changes_are_logged(
    c: CoreView,
    stage: Stage<Seq<char>>,
    ev: Event<Seq<char>>,
    now: Now,
)
    ensures
        ({
            let after = next(c, stage, ev, now).1;
            let lines = log_lines(c, stage, ev, now);
            &&& after is Marking && !(stage is Marking) ==> lines.len() == 1
            &&& after is Serving && (stage is Announcing || stage is Restoring) ==> lines.len() == 1
            &&& after is Stopping && !(stage is Stopping) && !(stage is Serving) ==> lines.len() > 0
                && lines.last() == "恢复失败 → offline 退出"@
        }),
{
}

/// In the transparent mode a tunnel that is put to use without the resolver entries that were
/// configured for it leaves a line that says so.
pub proof fn law_missing_entries_are_told(
    c: CoreView,
    stage: Stage<Seq<char>>,
    ev: Event<Seq<char>>,
    now: Now,
)
    requires
        c.args.tun,
        daemon::checked_suffixes(c.suffixes).len() > 0,
        next(c, stage, ev, now).2 is Bind || (next(c, stage, ev, now).1 is Restoring && next(
            c,
            stage,
            ev,
            now,
        ).2 is WriteState),
        !(stage is Syncing),
    ensures
        log_lines(c, stage, ev, now).contains(daemon::no_resolver_text()),
{
    let entries = resolver_lines(c, stage, ev);
    let front = told(failure_line(stage, ev)) + told(too_early_line(c, stage, ev, now)) + told(
        no_gateway_line(stage, ev),
    ) + told(target_line(c, stage, ev));
    assert(entries.len() > 0 && entries.last() == daemon::no_resolver_text());
    assert(log_lines(c, stage, ev, now)[front.len() + entries.len() - 1]
        == daemon::no_resolver_text());
}

/// A tunnel that was being brought up does not work: it did not become ready, could not be
/// started, or came up and did not answer the probe that verifies it.
pub open spec fn tunnel_failed(
    a: Attempt,
    stage: Stage<Seq<char>>,
    ev: Event<Seq<char>>,
) -> bool {
    ||| stage == Stage::<Seq<char>>::Launching(a) && (ev is TunnelNotReady || ev
        is TunnelNotStarted)
    ||| stage == Stage::<Seq<char>>::Verifying(a) && ev == Event::<Seq<char>>::ProbeDone(false)
}

/// The daemon may cause another SMS: it was not told to stop, and either none was sent yet, or the
/// last one lies at least the configured interval back.
pub open spec fn may_send_sms(c: CoreView, now: Now) -> bool {
    &&& !now.shutdown
    &&& match c.state.last_sms_sent {
        Some(t) => t + c.interval <= now.unix,
        None => true,
    }
}

/// Recovery is not given up early: where the session in use brought back no working tunnel, in
/// whichever of the three ways, the next thing is a silent login if it may cause another SMS now;
/// only if it may not is the tunnel stopped for good. Nothing else leads to a silent login.
pub proof fn law_recovery_is_not_given_up_early(
    c: CoreView,
    stage: Stage<Seq<char>>,
    ev: Event<Seq<char>>,
    now: Now,
)
    ensures
        next(c, stage, ev, now).2 == Action::<Seq<char>>::SilentLogin <==> tunnel_failed(
            Attempt::Old,
            stage,
            ev,
        ) && may_send_sms(c, now),
        next(c, stage, ev, now).2 == Action::<Seq<char>>::SilentLogin ==> next(c, stage, ev, now).0
            == c && next(c, stage, ev, now).1 == Stage::<Seq<char>>::LoggingIn,
        tunnel_failed(Attempt::Old, stage, ev) && !may_send_sms(c, now) ==> next(c, stage, ev, now)
            == (c, Stage::<Seq<char>>::Stopping, Action::<Seq<char>>::KillTunnel),
{
}

/// A tunnel is started once the first state is written, for the session that the daemon was
/// started with. It is restarted with the session in use once the network was waited for, unless
/// the daemon was told to stop meanwhile, and with a new session once a silent login brought one:
/// with nothing else, and never without.
pub proof fn law_when_tunnels_are_started(
    c: CoreView,
    stage: Stage<Seq<char>>,
    ev: Event<Seq<char>>,
    now: Now,
)
    ensures
        ({
            let (after, to, action) = next(c, stage, ev, now);
            &&& action is StartTunnel <==> stage is Recording && ev is StateWritten
            &&& action is StartTunnel ==> action == Action::StartTunnel(c.twfid) && to == Stage::<
                Seq<char>,
            >::Launching(Attempt::First)
            &&& action is RestartTunnel <==> (stage is Waiting && ev is GatewayWaited
                && !now.shutdown) || (stage is LoggingIn && ev is LoggedIn)
            &&& stage is Waiting && action is RestartTunnel ==> action == Action::RestartTunnel(
                c.twfid,
            ) && to == Stage::<Seq<char>>::Launching(Attempt::Old)
            &&& stage is LoggingIn && ev is LoggedIn ==> action == Action::RestartTunnel(ev->twfid)
                && to == Stage::<Seq<char>>::Launching(Attempt::New) && after.twfid == ev->twfid
        }),
{
}

/// The connection counts as lost: the tunnel program has ended, a probe after a change of the
/// network failed, or one on the clock failed and with it enough in a row.
pub open spec fn connection_lost(
    c: CoreView,
    stage: Stage<Seq<char>>,
    ev: Event<Seq<char>>,
) -> bool {
    ||| stage is Serving && ev is TunnelExited
    ||| stage == Stage::<Seq<char>>::Checking(Reason::NetChange) && ev == Event::<
        Seq<char>,
    >::ProbeDone(false)
    ||| stage == Stage::<Seq<char>>::Checking(Reason::Tick) && ev == Event::<
        Seq<char>,
    >::ProbeDone(false) && c.threshold <= c.fails + 1
}

/// The way of recovery up to the restart: it begins exactly where the connection counts as lost,
/// with a note that the daemon is reconnecting; then come, in the transparent mode only, the
/// removal of the resolver entries, and the wait for the network. A note that could not be written
/// stops nothing.
pub proof fn law_the_way_of_recovery(
    c: CoreView,
    stage: Stage<Seq<char>>,
    ev: Event<Seq<char>>,
    now: Now,
)
    ensures
        ({
            let (after, to, action) = next(c, stage, ev, now);
            let noted = stage is Marking && (ev is StateWritten || ev is StateWriteFailed);
            &&& to is Marking && action is WriteState <==> connection_lost(c, stage, ev)
            &&& connection_lost(c, stage, ev) ==> after == c.with_phase(Phase::Reconnecting)
                && after.state.phase == Phase::Reconnecting
            &&& to is Clearing && action is DnsClean <==> noted && c.args.tun
            &&& action is WaitGateway <==> (noted && !c.args.tun) || (stage is Clearing && ev
                is Cleaned)
            &&& action is WaitGateway ==> to is Waiting && after == c
        }),
{
}

/// Serving goes on exactly after a probe that was answered or does not count yet, after word of
/// the route monitor, and once it is written that the daemon is online. The gateway is told that
/// the session is in use when serving begins, and with each probe on the clock.
pub proof fn law_when_connections_are_passed_on(
    c: CoreView,
    stage: Stage<Seq<char>>,
    ev: Event<Seq<char>>,
    now: Now,
)
    ensures
        ({
            let (after, to, action) = next(c, stage, ev, now);
            &&& action is Serve <==> (stage is Serving && (ev is RouteLine || ev is RouteEnded)) || (
            stage is Checking && ev is ProbeDone && !connection_lost(c, stage, ev)) || (stage
                is Announcing && ev is StateWritten) || (stage is Restoring && (ev is StateWritten
                || ev is StateWriteFailed))
            &&& action is Serve ==> to is Serving
            &&& action == (Action::<Seq<char>>::Serve { keepalive: true }) <==> stage is Announcing
                && ev is StateWritten
            &&& (action matches Action::Probe { keepalive: true, .. }) <==> stage is Serving && ev
                is Tick
        }),
{
}

/// How many probes have failed in a row: none after one that was answered and after a recovery,
/// one more after one on the clock that failed without the connection being lost, and else as many
/// as before.
pub proof fn law_failures_are_counted(
    c: CoreView,
    stage: Stage<Seq<char>>,
    ev: Event<Seq<char>>,
    now: Now,
)
    ensures
        ({
            let after = next(c, stage, ev, now).0;
            let answered = stage is Checking && ev == Event::<Seq<char>>::ProbeDone(true);
            let back = stage is Restoring && (ev is StateWritten || ev is StateWriteFailed);
            let one_more = stage == Stage::<Seq<char>>::Checking(Reason::Tick) && ev == Event::<
                Seq<char>,
            >::ProbeDone(false) && !connection_lost(c, stage, ev);
            &&& answered || back ==> after.fails == 0
            &&& one_more ==> after.fails == c.fails + 1
            &&& !answered && !back && !one_more ==> after.fails == c.fails
        }),
{
}

/// A change of the network is looked into one and a half seconds after the first line that tells
/// of one (or at the end of time); the look itself, and nothing else, lets a later change set
/// another.
pub proof fn law_when_the_network_is_looked_into(
    c: CoreView,
    stage: Stage<Seq<char>>,
    ev: Event<Seq<char>>,
    now: Now,
)
    ensures
        ({
            let after = next(c, stage, ev, now).0;
            let told = stage is Serving && c.net_check_at is None && match ev {
                Event::RouteLine(l) => daemon::route_event(l),
                _ => false,
            };
            &&& told ==> match after.net_check_at {
                Some(t) => t == now.millis + 1500 || (t == u64::MAX && now.millis + 1500
                    > u64::MAX),
                None => false,
            }
            &&& stage is Serving && ev is NetCheckDue ==> after.net_check_at is None && next(
                c,
                stage,
                ev,
                now,
            ).1 == Stage::<Seq<char>>::Checking(Reason::NetChange)
            &&& !told && !(stage is Serving && ev is NetCheckDue) ==> after.net_check_at
                == c.net_check_at
        }),
{
}

/// The tunnel is stopped exactly where the daemon is told to stop, where a tunnel failed and no
/// login may follow, where a login failed, where the guards failed, and where the mixed port
/// cannot be bound. A first tunnel is stopped to report why; any other is stopped for good.
#[verifier::spinoff_prover]
#[verifier::rlimit(40)]
pub proof fn law_when_the_tunnel_is_stopped(
    c: CoreView,
    stage: Stage<Seq<char>>,
    ev: Event<Seq<char>>,
    now: Now,
)
    ensures
        ({
            let (after, to, action) = next(c, stage, ev, now);
            let first = (tunnel_failed(Attempt::First, stage, ev) && !(ev is TunnelNotStarted)) || (
            stage matches Stage::Guarding(Attempt::First, _) && ev is GuardFailed) || (stage
                is Binding && ev is BindFailed);
            let for_good = (stage is Serving && ev is Shutdown) || (stage is Waiting && ev
                is GatewayWaited && now.shutdown) || (tunnel_failed(Attempt::Old, stage, ev)
                && !may_send_sms(c, now)) || tunnel_failed(Attempt::New, stage, ev) || (stage
                is LoggingIn && ev is LoginFailed) || (stage matches Stage::Guarding(a, _) && a
                != Attempt::First && ev is GuardFailed);
            &&& action is KillTunnel <==> first || for_good
            &&& first ==> to is Aborting && after == c
            &&& for_good ==> to is Stopping
            &&& match (stage, ev) {
                (Stage::Launching(Attempt::First), Event::TunnelNotReady(m)) => to
                    == Stage::Aborting(m),
                (Stage::Guarding(Attempt::First, _), Event::GuardFailed(m)) => to
                    == Stage::Aborting(m),
                _ => true,
            }
        }),
{
}

/// The daemon ends exactly where its first state, or that it is online, cannot be written, where
/// its first tunnel cannot be started, where the failure of that tunnel was reported, and where
/// its state was removed at the orderly end. It ends with the message of what failed, and without
/// one at the orderly end.
pub proof fn law_when_the_daemon_ends(
    c: CoreView,
    stage: Stage<Seq<char>>,
    ev: Event<Seq<char>>,
    now: Now,
)
    ensures
        ({
            let (after, to, action) = next(c, stage, ev, now);
            let why: Option<Option<Seq<char>>> = match stage {
                Stage::Recording | Stage::Announcing => match ev {
                    Event::StateWriteFailed(m) => Some(Some(m)),
                    _ => None,
                },
                Stage::Launching(Attempt::First) => match ev {
                    Event::TunnelNotStarted(m) => Some(Some(m)),
                    _ => None,
                },
                Stage::Reporting(m) => if ev is StateWritten || ev is StateWriteFailed {
                    Some(Some(m))
                } else {
                    None
                },
                Stage::Forgetting => if ev is Cleared {
                    Some(None)
                } else {
                    None
                },
                _ => None,
            };
            &&& action is Exit <==> why is Some
            &&& why matches Some(m) ==> (after, to, action) == (c, Stage::<Seq<char>>::Done, Action::Exit(
                m,
            ))
            &&& action is ClearState <==> (stage is Stopping && ev is Killed && !c.args.tun) || (
            stage is Sweeping && ev is Cleaned)
            &&& to is Sweeping && action is DnsClean <==> stage is Stopping && ev is Killed
                && c.args.tun
        }),
{
}

/// A failure of the first tunnel is written down as it was, once that tunnel is stopped, and
/// nothing else is ever written as a failure.
pub proof fn law_what_is_written_as_a_failure(
    c: CoreView,
    stage: Stage<Seq<char>>,
    ev: Event<Seq<char>>,
    now: Now,
)
    ensures
        match (stage, ev) {
            (Stage::Aborting(m), Event::Killed) => next(c, stage, ev, now).0.state.error == Some(m)
                && next(c, stage, ev, now).1 == Stage::Reporting(m) && next(c, stage, ev, now).2
                is WriteState,
            _ => next(c, stage, ev, now).0.state.error == c.state.error,
        },
        (stage is Binding && ev is BindFailed) ==> next(c, stage, ev, now).1 == Stage::Aborting(
            "绑定混合端口 127.0.0.1:"@ + decimal::digits(c.args.mixed_port as nat) + " 失败: "@
                + ev->BindFailed_0,
        ),
{
}

/// In the transparent mode a tunnel that has come up is guarded first; then the gateway, where the
/// log told a valid address of it, is kept out of the tunnel, and after that the server's name,
/// where the server is no address itself, is pinned to that address. In the other mode none of
/// this is done.
pub proof fn law_what_the_transparent_mode_does_first(
    c: CoreView,
    stage: Stage<Seq<char>>,
    ev: Event<Seq<char>>,
    now: Now,
)
    ensures
        ({
            let (after, to, action) = next(c, stage, ev, now);
            &&& action is Guard <==> stage is Launching && ev is TunnelReady && c.args.tun
            &&& (stage matches Stage::Launching(a) && ev matches Event::TunnelReady(info)
                && c.args.tun) ==> to == Stage::Guarding(stage->Launching_0, ev->TunnelReady_0)
            &&& action is RouteExempt <==> (stage matches Stage::Guarding(_, info) && ev is Guarded
                && info.gateway_ip is Some && tun::ipv4(info.gateway_ip->0) is Some)
            &&& action matches Action::RouteExempt(ip) ==> Some(ip)
                == stage->Guarding_1.gateway_ip && to == Stage::Exempting(
                stage->Guarding_0,
                stage->Guarding_1,
            )
            &&& action is HostsPin <==> (stage matches Stage::Exempting(_, info) && ev is Exempted
                && info.gateway_ip is Some && tun::ipv4(info.gateway_ip->0) is Some && tun::ipv4(
                c.args.server,
            ) is None)
            &&& action matches Action::HostsPin { ip, server } ==> Some(ip)
                == stage->Exempting_1.gateway_ip && server == c.args.server && to == Stage::Pinning(
                stage->Exempting_0,
                stage->Exempting_1,
            )
        }),
{
}

/// A tunnel has been brought up to the point where the target of probes is chosen: in the
/// transparent mode with the guards, the gateway and the pin seen to, in the other mode as soon as
/// it is ready. With it goes what its log told.
pub open spec fn seen_to(c: CoreView, stage: Stage<Seq<char>>, ev: Event<Seq<char>>) -> Option<
    (Attempt, ReadyInfo<Seq<char>>),
> {
    match stage {
        Stage::Launching(a) => if ev is TunnelReady && !c.args.tun {
            Some((a, ev->TunnelReady_0))
        } else {
            None
        },
        Stage::Guarding(a, info) => if ev is Guarded && !(info.gateway_ip is Some && tun::ipv4(
            info.gateway_ip->0,
        ) is Some) {
            Some((a, info))
        } else {
            None
        },
        Stage::Exempting(a, info) => if ev is Exempted && (tun::ipv4(c.args.server) is Some || !(
        info.gateway_ip is Some && tun::ipv4(info.gateway_ip->0) is Some)) {
            Some((a, info))
        } else {
            None
        },
        Stage::Pinning(a, info) => if ev is Pinned {
            Some((a, info))
        } else {
            None
        },
        _ => None,
    }
}

/// The DNS server that the log told becomes the target of probes exactly where a probe of it was
/// answered; where it was not, or where the log told none, there is no target. Nothing else
/// changes the target. The address of the tunnel is that of the log.
#[verifier::spinoff_prover]
#[verifier::rlimit(40)]
pub proof fn law_how_the_target_is_chosen(
    c: CoreView,
    stage: Stage<Seq<char>>,
    ev: Event<Seq<char>>,
    now: Now,
)
    ensures
        ({
            let (after, to, action) = next(c, stage, ev, now);
            &&& to is Picking && action is Probe <==> (seen_to(c, stage, ev) matches Some((_, info))
                && info.vpn_dns is Some)
            &&& to is Picking && action is Probe ==> (seen_to(c, stage, ev) matches Some((a, info))
                && to == Stage::Picking(a, info.vpn_dns->0) && action == (Action::Probe {
                plan: daemon::probe_plan(c.args, info.vpn_dns),
                keepalive: false,
            }))
            &&& after.state.vpn_dns == (match (stage, ev) {
                (Stage::Picking(_, dns), Event::ProbeDone(true)) => Some(dns),
                (Stage::Picking(_, _), Event::ProbeDone(false)) => None,
                _ => match seen_to(c, stage, ev) {
                    Some((_, info)) => if info.vpn_dns is None {
                        None
                    } else {
                        c.state.vpn_dns
                    },
                    None => c.state.vpn_dns,
                },
            })
            &&& after.state.tunnel_ip == (match (stage, ev) {
                (Stage::Launching(_), Event::TunnelReady(info)) => info.ip,
                _ => c.state.tunnel_ip,
            })
        }),
{
}

/// The target of probes has just been chosen, for this tunnel.
pub open spec fn just_picked(c: CoreView, stage: Stage<Seq<char>>, ev: Event<Seq<char>>) -> Option<
    Attempt,
> {
    match stage {
        Stage::Picking(a, _) => if ev is ProbeDone {
            Some(a)
        } else {
            None
        },
        _ => match seen_to(c, stage, ev) {
            Some((a, info)) => if info.vpn_dns is None {
                Some(a)
            } else {
                None
            },
            None => None,
        },
    }
}

/// A recovered tunnel is verified by a probe of the target that was just chosen, before anything
/// is written of it; a first tunnel is not. A tunnel that may be put to use gets its resolver
/// entries first, where there are any to write; then the first tunnel is put to use by binding the
/// configured port, and it is noted of a recovered one that the daemon is online.
#[verifier::spinoff_prover]
#[verifier::rlimit(40)]
pub proof fn law_how_a_tunnel_is_put_to_use(
    c: CoreView,
    stage: Stage<Seq<char>>,
    ev: Event<Seq<char>>,
    now: Now,
)
    ensures
        ({
            let (after, to, action) = next(c, stage, ev, now);
            let usable: Option<Attempt> = match stage {
                Stage::Verifying(a) => if ev == Event::<Seq<char>>::ProbeDone(true) {
                    Some(a)
                } else {
                    None
                },
                _ => if just_picked(c, stage, ev) == Some(Attempt::First) {
                    Some(Attempt::First)
                } else {
                    None
                },
            };
            let entries = c.args.tun && daemon::sync_plan(c.suffixes, after.state.vpn_dns) is Some;
            let done: Option<Attempt> = match stage {
                Stage::Syncing(a) => if ev is Synced {
                    Some(a)
                } else {
                    None
                },
                _ => if entries {
                    None
                } else {
                    usable
                },
            };
            &&& to is Verifying && action is Probe <==> (just_picked(c, stage, ev) matches Some(a)
                && a != Attempt::First)
            &&& to is Verifying && action is Probe ==> to == Stage::<Seq<char>>::Verifying(
                just_picked(c, stage, ev)->0,
            ) && action == (Action::Probe {
                plan: daemon::probe_plan(c.args, after.state.vpn_dns),
                keepalive: false,
            })
            &&& action is DnsSync <==> usable is Some && entries
            &&& action is DnsSync ==> to == Stage::<Seq<char>>::Syncing(usable->0)
            &&& action is Bind <==> done == Some(Attempt::First)
            &&& action is Bind ==> action == Action::<Seq<char>>::Bind(c.args.mixed_port) && to
                is Binding
            &&& to is Restoring && action is WriteState <==> (done matches Some(a) && a
                != Attempt::First)
        }),
{
}

/// The phase that is written: online once the mixed port is bound for the first tunnel and once a
/// recovered tunnel is put to use, reconnecting once the connection is lost; nothing else changes
/// it. That a first tunnel is online is written as soon as the port is bound.
pub proof fn law_which_phase_is_written(
    c: CoreView,
    stage: Stage<Seq<char>>,
    ev: Event<Seq<char>>,
    now: Now,
)
    ensures
        ({
            let (after, to, action) = next(c, stage, ev, now);
            let bound = stage is Binding && ev is Bound;
            let back = to is Restoring && action is WriteState;
            &&& bound || back ==> after.state.phase == Phase::Online && action is WriteState
            &&& bound ==> to is Announcing
            &&& connection_lost(c, stage, ev) ==> after.state.phase == Phase::Reconnecting
            &&& !bound && !back && !connection_lost(c, stage, ev) ==> after.state.phase
                == c.state.phase
        }),
{
}

/// While the tunnel is in use a probe is made on the clock and after a change of the network, of
/// the target that was chosen for it.
pub proof fn law_when_a_tunnel_in_use_is_probed(
    c: CoreView,
    stage: Stage<Seq<char>>,
    ev: Event<Seq<char>>,
    now: Now,
)
    ensures
        ({
            let (after, to, action) = next(c, stage, ev, now);
            let by_clock = stage is Serving && ev is Tick;
            let by_change = stage is Serving && ev is NetCheckDue;
            &&& to is Checking && action is Probe <==> by_clock || by_change
            &&& by_clock ==> to == Stage::<Seq<char>>::Checking(Reason::Tick)
            &&& by_change ==> to == Stage::<Seq<char>>::Checking(Reason::NetChange)
            &&& by_clock || by_change ==> action == (Action::Probe {
                plan: daemon::probe_plan(c.args, c.state.vpn_dns),
                keepalive: by_clock,
            })
        }),
{
}

/// Events that do not concern a stage change nothing: whatever is not one of its answers leaves the
/// daemon as it is, waiting.
pub proof fn law_other_events_change_nothing(
    c: CoreView,
    stage: Stage<Seq<char>>,
    ev: Event<Seq<char>>,
    now: Now,
)
    requires
        next(c, stage, ev, now).2 is Wait,
    ensures
        next(c, stage, ev, now).0 == c,
        next(c, stage, ev, now).1 == stage,
        !(stage is Serving && (ev is TunnelExited || ev is Shutdown || ev is Tick || ev
            is NetCheckDue)),
        !(stage is Stopping && ev is Killed),
        !(stage is Aborting && ev is Killed),
        !(stage is Done) ==> !(ev is StateWritten && (stage is Recording || stage is Announcing
            || stage is Reporting || stage is Marking || stage is Restoring)),
{
}

/// What a daemon begins with is what it was started with: its mode, its ports and proxies, the
/// server, the session, and the time of the last SMS, where there was one. It is not online, has
/// no tunnel yet and nothing to complain of.
pub proof fn law_first_state_tells_the_arguments(
    a: ServeArgsView,
    pid: i32,
    threshold: u32,
    interval: u64,
    suffixes: Seq<Seq<char>>,
)
    ensures
        ({
            let c = first_core(a, pid, threshold, interval, suffixes);
            &&& c.args == a && c.twfid == a.twfid
            &&& c.threshold == threshold && c.interval == interval && c.suffixes == suffixes
            &&& c.fails == 0 && c.net_check_at is None
            &&& c.state.mode == Mode::Tun <==> a.tun
            &&& c.state.phase == Phase::Reconnecting
            &&& c.state.daemon_pid == pid
            &&& c.state.port == a.mixed_port
            &&& c.state.socks_upstream == a.socks
            &&& c.state.http_upstream == a.http
            &&& c.state.server == a.server
            &&& c.state.tunnel_ip.len() == 0
            &&& c.state.vpn_dns is None && c.state.error is None
            &&& a.last_sms_sent == 0 ==> c.state.last_sms_sent is None
            &&& a.last_sms_sent != 0 ==> c.state.last_sms_sent == Some(a.last_sms_sent)
        }),
{
}

/// What is written for the other commands to find the daemon by, its port, its proxies and its
/// server, never changes.
pub proof fn law_written_addresses_are_kept(
    c: CoreView,
    stage: Stage<Seq<char>>,
    ev: Event<Seq<char>>,
    now: Now,
)
    ensures
        next(c, stage, ev, now).0.state.port == c.state.port,
        next(c, stage, ev, now).0.state.socks_upstream == c.state.socks_upstream,
        next(c, stage, ev, now).0.state.http_upstream == c.state.http_upstream,
        next(c, stage, ev, now).0.state.server == c.state.server,
{
}

/// What the log says of a connection that is lost: that the tunnel program has ended, and how; that
/// the tunnel did not answer after a change of the network; or how many probes have failed. And
/// what it says of one that is there: the port and the proxy behind it at first, later that it is
/// back.
#[verifier::spinoff_prover]
#[verifier::rlimit(40)]
pub proof fn law_what_the_log_says_of_the_connection(
    c: CoreView,
    stage: Stage<Seq<char>>,
    ev: Event<Seq<char>>,
    now: Now,
)
    ensures
        ({
            let lines = log_lines(c, stage, ev, now);
            &&& connection_lost(c, stage, ev) ==> lines.len() == 1 && lines[0] == (match stage {
                Stage::Serving => "zju-connect 退出: "@ + ev->TunnelExited_0 + "，隧道断开"@,
                Stage::Checking(Reason::NetChange) => "检测到网络变化且隧道不通,立即重连"@,
                _ => "探测连续失败 "@ + decimal::digits((c.fails + 1) as nat)
                    + " 次，进入重连"@,
            })
            &&& stage is Announcing && ev is StateWritten ==> lines.len() == 1 && lines[0]
                == "ready: mixed 127.0.0.1:"@ + decimal::digits(c.args.mixed_port as nat)
                + " → socks "@ + c.args.socks
            &&& stage is Restoring && (ev is StateWritten || ev is StateWriteFailed) ==> lines.len()
                == 1 && lines[0] == "已恢复 online"@
        }),
{
}

/// What the log says of a restart: which session it was made with, how it failed, and whether it
/// was too early for a login; or that it succeeded, and whether that took a login.
#[verifier::spinoff_prover]
#[verifier::rlimit(40)]
pub proof fn law_what_the_log_says_of_a_restart(
    c: CoreView,
    a: Attempt,
    stage: Stage<Seq<char>>,
    ev: Event<Seq<char>>,
    now: Now,
)
    requires
        a != Attempt::First,
    ensures
        ({
            let lines = log_lines(c, stage, ev, now);
            let name = if a == Attempt::Old {
                "旧 TWFID"@
            } else {
                "新 TWFID"@
            };
            &&& stage == Stage::<Seq<char>>::Launching(a) && ev is TunnelNotReady ==> lines.len()
                > 0 && lines[0] == name + " 重启失败: "@ + ev->TunnelNotReady_0
            &&& stage == Stage::<Seq<char>>::Launching(a) && ev is TunnelNotStarted ==> lines.len()
                > 0 && lines[0] == name + " 重启失败: "@ + ev->TunnelNotStarted_0
            &&& stage == Stage::<Seq<char>>::Verifying(a) && ev == Event::<Seq<char>>::ProbeDone(
                false,
            ) ==> lines.len() > 0 && lines[0] == name + " 重启后验活探测不通"@
            &&& (stage matches Stage::Guarding(b, _) && b == a && ev is GuardFailed) ==> lines.len()
                > 0 && lines[0] == "恢复后护栏失败: "@ + ev->GuardFailed_0
            &&& tunnel_failed(Attempt::Old, stage, ev) && may_send_sms(c, now) ==> lines.len() == 1
            &&& tunnel_failed(Attempt::Old, stage, ev) && now.shutdown ==> lines.len() == 2
            &&& tunnel_failed(Attempt::Old, stage, ev) && !may_send_sms(c, now) && !now.shutdown
                ==> lines.len() == 3 && lines[1] == "距上次发码不足 "@ + decimal::digits(
                c.interval as nat,
            ) + "s,不静默重登 → offline"@
            &&& next(c, stage, ev, now).1 is Restoring && next(c, stage, ev, now).2 is WriteState
                && (stage == Stage::<Seq<char>>::Verifying(a) || stage == Stage::<
                Seq<char>,
            >::Syncing(a)) ==> lines.len() > 0 && lines.last() == (if a == Attempt::Old {
                "旧 TWFID 重启成功"@
            } else {
                "静默重登并重启成功"@
            })
        }),
{
}

/// What the log says of a tunnel that is being brought up, a first one or another: that the gateway's
/// address is not known; which target of probes was chosen, or that there is none; and, in the
/// transparent mode, each suffix for which no resolver entry can be written.
#[verifier::spinoff_prover]
#[verifier::rlimit(40)]
pub proof fn law_what_the_log_says_of_a_new_tunnel(
    c: CoreView,
    stage: Stage<Seq<char>>,
    ev: Event<Seq<char>>,
    now: Now,
)
    ensures
        ({
            let lines = log_lines(c, stage, ev, now);
            let kind = if c.args.tun {
                "UDP DNS"@
            } else {
                "SOCKS TCP"@
            };
            let usable = (stage is Verifying && ev == Event::<Seq<char>>::ProbeDone(true))
                || just_picked(c, stage, ev) == Some(Attempt::First);
            &&& (stage matches Stage::Guarding(_, info) && ev is Guarded && !(info.gateway_ip is Some
                && tun::ipv4(info.gateway_ip->0) is Some)) ==> lines.len() > 0 && lines[0]
                == "未从日志解析到网关 IP,跳过网关豁免路由(隧道保活可能被回环拖死)"@
            &&& stage is Picking && ev == Event::<Seq<char>>::ProbeDone(true) ==> lines.len() > 0
                && lines[0] == "健康检查:穿隧道 "@ + kind + " 探测 VPN DNS "@
                + stage->Picking_1 + ":53"@
            &&& stage is Picking && ev == Event::<Seq<char>>::ProbeDone(false) ==> lines.len() > 0
                && lines[0] == "穿隧道 "@ + kind + " 探针(VPN DNS "@ + stage->Picking_1
                + ":53)在新隧道上不通,降级为网关直连探测"@
            &&& (seen_to(c, stage, ev) matches Some((_, info)) && info.vpn_dns is None)
                ==> lines.contains(
                "未从日志解析到 VPN DNS,健康检查降级为网关直连探测(对隧道假死不敏感)"@,
            )
            &&& c.args.tun && usable ==> forall|i: int|
                0 <= i < c.suffixes.len() && !tun::suffix_ok(#[trigger] c.suffixes[i])
                    ==> lines.contains("dns_suffixes 含非法项,跳过: "@ + c.suffixes[i])
        }),
{
    let lines = log_lines(c, stage, ev, now);
    let usable = (stage is Verifying && ev == Event::<Seq<char>>::ProbeDone(true)) || just_picked(
        c,
        stage,
        ev,
    ) == Some(Attempt::First);
    let front = told(failure_line(stage, ev)) + told(too_early_line(c, stage, ev, now)) + told(
        no_gateway_line(stage, ev),
    );
    if seen_to(c, stage, ev) matches Some((_, info)) && info.vpn_dns is None {
        assert(lines[front.len() as int]
            == "未从日志解析到 VPN DNS,健康检查降级为网关直连探测(对隧道假死不敏感)"@);
    }
    if c.args.tun && usable {
        let entries = resolver_lines(c, stage, ev);
        let before = front + told(target_line(c, stage, ev));
        let bad = daemon::bad_suffix_texts(c.suffixes);
        assert forall|i: int| 0 <= i < c.suffixes.len() && !tun::suffix_ok(
            #[trigger] c.suffixes[i],
        ) implies lines.contains("dns_suffixes 含非法项,跳过: "@ + c.suffixes[i]) by {
            daemon::lemma_bad_suffixes_are_told(c.suffixes, i);
            let line = "dns_suffixes 含非法项,跳过: "@ + c.suffixes[i];
            let k = choose|k: int| 0 <= k < bad.len() && bad[k] == line;
            assert(entries[k] == bad[k]);
            assert(lines[before.len() + k] == entries[k]);
        }
    }
}

/// The model holds what the daemon holds, each part in its place.
pub proof fn law_the_model_is_faithful(core: Core, r: (Supervisor, Action<String>))
    ensures
        core@.args == core.args@ && core@.state == core.state@ && core@.twfid == core.twfid@,
        core@.threshold == core.threshold && core@.interval == core.interval,
        core@.fails == core.fails && core@.net_check_at == core.net_check_at,
        core@.suffixes == text::texts(core.suffixes@),
        turn(r).0 == r.0.core@ && turn(r).1 == r.0.stage@ && turn(r).2 == r.1@,
        match (r.1, r.1@) {
            (Action::StartTunnel(t), Action::StartTunnel(u)) => u == t@,
            (Action::RestartTunnel(t), Action::RestartTunnel(u)) => u == t@,
            (Action::RouteExempt(ip), Action::RouteExempt(u)) => u == ip@,
            (Action::HostsPin { ip, server }, Action::HostsPin { ip: u, server: v }) => u == ip@
                && v == server@,
            (Action::Probe { plan, keepalive }, Action::Probe { plan: u, keepalive: v }) => u
                == plan@ && v == keepalive,
            (Action::Bind(p), Action::Bind(u)) => u == p,
            (Action::Serve { keepalive }, Action::Serve { keepalive: v }) => v == keepalive,
            (Action::Exit(m), Action::Exit(u)) => u == text::opt_text(m),
            (Action::WriteState, Action::WriteState) => true,
            (Action::KillTunnel, Action::KillTunnel) => true,
            (Action::Guard, Action::Guard) => true,
            (Action::DnsSync, Action::DnsSync) => true,
            (Action::DnsClean, Action::DnsClean) => true,
            (Action::WaitGateway, Action::WaitGateway) => true,
            (Action::SilentLogin, Action::SilentLogin) => true,
            (Action::ClearState, Action::ClearState) => true,
            (Action::Wait, Action::Wait) => true,
            _ => false,
        },
{
}

/// The stages of recovery and of the end, by how many answers lie ahead of them at most.
pub open spec fn rank(stage: Stage<Seq<char>>) -> nat {
    match stage {
        Stage::Marking => 20,
        Stage::Clearing => 19,
        Stage::Waiting => 18,
        Stage::Launching(a) => if a == Attempt::New {
            10
        } else {
            17
        },
        Stage::Guarding(a, _) => if a == Attempt::New {
            9
        } else {
            16
        },
        Stage::Exempting(a, _) => if a == Attempt::New {
            8
        } else {
            15
        },
        Stage::Pinning(a, _) => if a == Attempt::New {
            7
        } else {
            14
        },
        Stage::Picking(a, _) => if a == Attempt::New {
            6
        } else {
            13
        },
        Stage::Verifying(a) => if a == Attempt::New {
            5
        } else {
            12
        },
        Stage::LoggingIn => 11,
        Stage::Syncing(_) => 4,
        Stage::Restoring => 3,
        Stage::Stopping => 3,
        Stage::Sweeping => 2,
        Stage::Forgetting => 1,
        _ => 0,
    }
}

/// The stage belongs to recovery or to the end.
pub open spec fn recovering(stage: Stage<Seq<char>>) -> bool {
    match stage {
        Stage::Launching(a) => a != Attempt::First,
        Stage::Guarding(a, _) => a != Attempt::First,
        Stage::Exempting(a, _) => a != Attempt::First,
        Stage::Pinning(a, _) => a != Attempt::First,
        Stage::Picking(a, _) => a != Attempt::First,
        Stage::Verifying(a) => a != Attempt::First,
        Stage::Syncing(a) => a != Attempt::First,
        _ => rank(stage) > 0,
    }
}

/// Recovery ends: each answer brings it strictly closer to a tunnel in use or to the end of the
/// daemon, and what is no answer changes nothing. So no recovery logs in twice, or starts more
/// than two tunnels.
pub proof fn law_recovery_ends(
    c: CoreView,
    stage: Stage<Seq<char>>,
    ev: Event<Seq<char>>,
    now: Now,
)
    requires
        recovering(stage),
    ensures
        next(c, stage, ev, now) == (c, stage, Action::<Seq<char>>::Wait) || (rank(
            next(c, stage, ev, now).1,
        ) < rank(stage) && (recovering(next(c, stage, ev, now).1) || next(c, stage, ev, now).1
            == Stage::<Seq<char>>::Serving || next(c, stage, ev, now).1 == Stage::<
            Seq<char>,
        >::Done)),
{
}

// ---------------------------------------------------------------------------------------
// Laws of whole runs

/// A daemon that has just been started.
pub open spec fn begun(
    a: ServeArgsView,
    pid: i32,
    threshold: u32,
    interval: u64,
    suffixes: Seq<Seq<char>>,
) -> Turn {
    (first_core(a, pid, threshold, interval, suffixes), Stage::Recording, Action::WriteState)
}

/// Where a run of events leads.
pub open spec fn reached(start: Turn, evs: Seq<(Event<Seq<char>>, Now)>) -> Turn
    decreases evs.len(),
{
    if evs.len() == 0 {
        start
    } else {
        let t = reached(start, evs.drop_last());
        next(t.0, t.1, evs.last().0, evs.last().1)
    }
}

/// What has been done for the tunnel that was started last.
pub struct Seen {
    /// The guards passed.
    pub guarded: bool,
    /// The gateway's address, where the log told a valid one.
    pub gateway: Option<Seq<char>>,
    /// The gateway was kept out of the tunnel.
    pub exempted: bool,
    /// A probe through the tunnel was answered while it was being verified.
    pub alive: bool,
}

/// What one more event does for the tunnel that was started last.
pub open spec fn seen_after(
    before: Seen,
    stage: Stage<Seq<char>>,
    ev: Event<Seq<char>>,
    action: Action<Seq<char>>,
) -> Seen {
    match action {
        Action::StartTunnel(_) | Action::RestartTunnel(_) => Seen {
            guarded: false,
            gateway: None,
            exempted: false,
            alive: false,
        },
        _ => Seen {
            guarded: before.guarded || (stage is Guarding && ev is Guarded),
            gateway: match (stage, ev) {
                (Stage::Launching(_), Event::TunnelReady(info)) => daemon::exempt_target(
                    info.gateway_ip,
                ),
                _ => before.gateway,
            },
            exempted: before.exempted || (stage is Exempting && ev is Exempted),
            alive: before.alive || (stage is Verifying && ev == Event::<Seq<char>>::ProbeDone(
                true,
            )),
        },
    }
}

/// What a run of events has done for the tunnel that was started last.
pub open spec fn seen(start: Turn, evs: Seq<(Event<Seq<char>>, Now)>) -> Seen
    decreases evs.len(),
{
    if evs.len() == 0 {
        Seen { guarded: false, gateway: None, exempted: false, alive: false }
    } else {
        seen_after(
            seen(start, evs.drop_last()),
            reached(start, evs.drop_last()).1,
            evs.last().0,
            reached(start, evs).2,
        )
    }
}

/// The tunnel was guarded, and the gateway, where known, kept out of it.
pub open spec fn secured(s: Seen) -> bool {
    s.guarded && (s.gateway is Some ==> s.exempted)
}

/// What holds at every stage of a run.
pub open spec fn run_inv(t: Turn, s: Seen) -> bool {
    let tun = t.0.args.tun;
    &&& t.0.wf()
    &&& match t.1 {
        Stage::Guarding(_, info) => s.gateway == daemon::exempt_target(info.gateway_ip),
        Stage::Exempting(_, info) => s.guarded && s.gateway == daemon::exempt_target(
            info.gateway_ip,
        ),
        Stage::Pinning(_, _) => secured(s),
        Stage::Picking(_, _) => tun ==> secured(s),
        Stage::Verifying(_) => tun ==> secured(s),
        Stage::Syncing(a) => (tun ==> secured(s)) && (a != Attempt::First ==> s.alive),
        Stage::Binding => tun ==> secured(s),
        Stage::Announcing => tun ==> secured(s),
        Stage::Serving => tun ==> secured(s),
        Stage::Checking(_) => tun ==> secured(s),
        Stage::Restoring => (tun ==> secured(s)) && s.alive,
        _ => true,
    }
    &&& t.0.state.phase == Phase::Online ==> match t.1 {
        Stage::Announcing | Stage::Serving | Stage::Checking(_) | Stage::Restoring => true,
        Stage::Stopping | Stage::Sweeping | Stage::Forgetting | Stage::Done => true,
        _ => false,
    }
}

proof fn lemma_step_keeps_inv(t: Turn, s: Seen, ev: Event<Seq<char>>, now: Now)
    requires
        run_inv(t, s),
    ensures
        run_inv(
            next(t.0, t.1, ev, now),
            seen_after(s, t.1, ev, next(t.0, t.1, ev, now).2),
        ),
        next(t.0, t.1, ev, now).0.args == t.0.args,
        next(t.0, t.1, ev, now).2 is Probe && t.0.args.tun ==> secured(
            seen_after(s, t.1, ev, next(t.0, t.1, ev, now).2),
        ),
{
}

proof fn lemma_run_inv(
    a: ServeArgsView,
    pid: i32,
    threshold: u32,
    interval: u64,
    suffixes: Seq<Seq<char>>,
    evs: Seq<(Event<Seq<char>>, Now)>,
)
    ensures
        run_inv(
            reached(begun(a, pid, threshold, interval, suffixes), evs),
            seen(begun(a, pid, threshold, interval, suffixes), evs),
        ),
        reached(begun(a, pid, threshold, interval, suffixes), evs).0.args == a,
        reached(begun(a, pid, threshold, interval, suffixes), evs).2 is Probe && a.tun ==> secured(
            seen(begun(a, pid, threshold, interval, suffixes), evs),
        ),
    decreases evs.len(),
{
    let start = begun(a, pid, threshold, interval, suffixes);
    if evs.len() > 0 {
        lemma_run_inv(a, pid, threshold, interval, suffixes, evs.drop_last());
        lemma_step_keeps_inv(
            reached(start, evs.drop_last()),
            seen(start, evs.drop_last()),
            evs.last().0,
            evs.last().1,
        );
    }
}

/// In the transparent mode no probe is sent, whether a tunnel is being brought up or is in use,
/// before its guards have passed and the gateway, where its address is known, is kept out of
/// it.
pub proof fn law_probes_come_after_the_guards(
    a: ServeArgsView,
    pid: i32,
    threshold: u32,
    interval: u64,
    suffixes: Seq<Seq<char>>,
    evs: Seq<(Event<Seq<char>>, Now)>,
)
    requires
        a.tun,
        reached(begun(a, pid, threshold, interval, suffixes), evs).2 is Probe,
    ensures
        secured(seen(begun(a, pid, threshold, interval, suffixes), evs)),
{
    lemma_run_inv(a, pid, threshold, interval, suffixes, evs);
}

/// The daemon writes that it is online only once the mixed port is bound for the first tunnel,
/// or once a probe through a recovered tunnel was answered.
pub proof fn law_online_means_working(
    a: ServeArgsView,
    pid: i32,
    threshold: u32,
    interval: u64,
    suffixes: Seq<Seq<char>>,
    evs: Seq<(Event<Seq<char>>, Now)>,
)
    requires
        reached(begun(a, pid, threshold, interval, suffixes), evs).2 == Action::<
            Seq<char>,
        >::WriteState,
        reached(begun(a, pid, threshold, interval, suffixes), evs).0.state.phase == Phase::Online,
    ensures
        evs.len() > 0,
        evs.last().0 is Bound || seen(
            begun(a, pid, threshold, interval, suffixes),
            evs,
        ).alive,
{
    lemma_run_inv(a, pid, threshold, interval, suffixes, evs);
    if evs.len() > 0 {
        lemma_run_inv(a, pid, threshold, interval, suffixes, evs.drop_last());
    }
}

/// The time of the last SMS that a run knows of: the last one that a silent login told, else the
/// one that the daemon was started with.
pub open spec fn last_sms(
    a: ServeArgsView,
    start: Turn,
    evs: Seq<(Event<Seq<char>>, Now)>,
) -> Option<u64>
    decreases evs.len(),
{
    if evs.len() == 0 {
        if a.last_sms_sent == 0 {
            None
        } else {
            Some(a.last_sms_sent)
        }
    } else {
        let before = last_sms(a, start, evs.drop_last());
        let sent_at: u64 = match (reached(start, evs.drop_last()).1, evs.last().0) {
            (Stage::LoggingIn, Event::LoggedIn { sent_at, .. }) => sent_at,
            (Stage::LoggingIn, Event::LoginFailed { sent_at }) => sent_at,
            _ => 0,
        };
        if sent_at == 0 {
            before
        } else {
            Some(sent_at)
        }
    }
}

proof fn lemma_last_sms(
    a: ServeArgsView,
    pid: i32,
    threshold: u32,
    interval: u64,
    suffixes: Seq<Seq<char>>,
    evs: Seq<(Event<Seq<char>>, Now)>,
)
    ensures
        ({
            let start = begun(a, pid, threshold, interval, suffixes);
            &&& reached(start, evs).0.state.last_sms_sent == last_sms(a, start, evs)
            &&& reached(start, evs).0.interval == interval
        }),
    decreases evs.len(),
{
    if evs.len() > 0 {
        lemma_last_sms(a, pid, threshold, interval, suffixes, evs.drop_last());
        let t = reached(begun(a, pid, threshold, interval, suffixes), evs.drop_last());
        law_every_sms_is_noted(t.0, t.1, evs.last().0, evs.last().1);
        law_configuration_is_kept(t.0, t.1, evs.last().0, evs.last().1);
    }
}

/// However a run goes, a silent login begins only where at least the configured interval has
/// passed since the last SMS, whoever caused it.
pub proof fn law_silent_logins_are_spaced(
    a: ServeArgsView,
    pid: i32,
    threshold: u32,
    interval: u64,
    suffixes: Seq<Seq<char>>,
    evs: Seq<(Event<Seq<char>>, Now)>,
)
    requires
        reached(begun(a, pid, threshold, interval, suffixes), evs).2 == Action::<
            Seq<char>,
        >::SilentLogin,
    ensures
        evs.len() > 0,
        match last_sms(a, begun(a, pid, threshold, interval, suffixes), evs.drop_last()) {
            Some(t) => t + interval <= evs.last().1.unix,
            None => true,
        },
{
    lemma_last_sms(a, pid, threshold, interval, suffixes, evs.drop_last());
}

/// In every run fewer probes in a row have failed than count as a lost connection.
pub proof fn law_failures_stay_below_threshold(
    a: ServeArgsView,
    pid: i32,
    threshold: u32,
    interval: u64,
    suffixes: Seq<Seq<char>>,
    evs: Seq<(Event<Seq<char>>, Now)>,
)
    ensures
        reached(begun(a, pid, threshold, interval, suffixes), evs).0.fails < threshold || reached(
            begun(a, pid, threshold, interval, suffixes),
            evs,
        ).0.fails == 0,
    decreases evs.len(),
{
    lemma_run_inv(a, pid, threshold, interval, suffixes, evs);
    lemma_threshold_is_kept(a, pid, threshold, interval, suffixes, evs);
}

proof fn lemma_threshold_is_kept(
    a: ServeArgsView,
    pid: i32,
    threshold: u32,
    interval: u64,
    suffixes: Seq<Seq<char>>,
    evs: Seq<(Event<Seq<char>>, Now)>,
)
    ensures
        reached(begun(a, pid, threshold, interval, suffixes), evs).0.threshold == threshold,
    decreases evs.len(),
{
    if evs.len() > 0 {
        lemma_threshold_is_kept(a, pid, threshold, interval, suffixes, evs.drop_last());
        let t = reached(begun(a, pid, threshold, interval, suffixes), evs.drop_last());
        law_configuration_is_kept(t.0, t.1, evs.last().0, evs.last().1);
    }
}

/// A daemon that gives up, or is told to stop, ends in this order: it stops the tunnel, in the
/// transparent mode it removes the resolver entries, it removes its state, and it exits without
/// an error.
pub proof fn law_the_end_is_orderly(c: CoreView, n1: Now, n2: Now, n3: Now)
    ensures
        ({
            let t1 = next(c, Stage::Stopping, Event::Killed, n1);
            if c.args.tun {
                let t2 = next(t1.0, t1.1, Event::Cleaned, n2);
                let t3 = next(t2.0, t2.1, Event::Cleared, n3);
                &&& give_up(c).2 == Action::<Seq<char>>::KillTunnel
                &&& t1.2 == Action::<Seq<char>>::DnsClean
                &&& t2.2 == Action::<Seq<char>>::ClearState
                &&& t3 == (c, Stage::<Seq<char>>::Done, Action::<Seq<char>>::Exit(None))
            } else {
                let t2 = next(t1.0, t1.1, Event::Cleared, n2);
                &&& give_up(c).2 == Action::<Seq<char>>::KillTunnel
                &&& t1.2 == Action::<Seq<char>>::ClearState
                &&& t2 == (c, Stage::<Seq<char>>::Done, Action::<Seq<char>>::Exit(None))
            }
        }),
{
}

/// A first tunnel that comes up but fails is stopped before the failure is written and the
/// daemon exits with it; it is never written that the daemon is online.
pub proof fn law_first_failure_is_reported(c: CoreView, m: Seq<char>, n1: Now, n2: Now)
    requires
        c.state.phase == Phase::Reconnecting,
    ensures
        ({
            let t1 = failed(c, Attempt::First, m, true, n1);
            let t2 = next(t1.0, t1.1, Event::Killed, n1);
            let t3 = next(t2.0, t2.1, Event::StateWritten, n2);
            &&& t1.2 == Action::<Seq<char>>::KillTunnel
            &&& t2.2 == Action::<Seq<char>>::WriteState
            &&& t2.0.state.error == Some(m)
            &&& t2.0.state.phase == Phase::Reconnecting
            &&& t3.2 == Action::<Seq<char>>::Exit(Some(m))
        }),
{
}

} // verus!
