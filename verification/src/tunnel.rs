//! Starting and stopping the daemon, waiting for it, and measuring the delay of its tunnel.

use vstd::prelude::*;

use crate::capsule::Delay;
use crate::config::{AppConfig, Mode, Phase, RuntimeState};
use crate::daemon;
use crate::daemon::ProbePlan;
use crate::decimal;
use crate::text;
use crate::tun;
use crate::words;

verus! {

pub const SOCKS_UPSTREAM: &'static str = "127.0.0.1:1080";

pub const HTTP_UPSTREAM: &'static str = "127.0.0.1:1081";

// ---------------------------------------------------------------------------------------
// Starting

/// The arguments that the daemon is started with.
pub open spec fn daemon_words(
    cfg: AppConfig,
    twfid: Seq<char>,
    last_sms_sent: u64,
    tun: bool,
) -> Seq<Seq<char>> {
    let words = seq![
        "__serve"@,
        "--twfid"@,
        twfid,
        "--server"@,
        cfg.server@,
        "--https-port"@,
        decimal::digits(cfg.port as nat),
        "--mixed-port"@,
        decimal::digits(cfg.mixed_port as nat),
        "--socks"@,
        SOCKS_UPSTREAM@,
        "--http"@,
        HTTP_UPSTREAM@,
        "--last-sms-sent"@,
        decimal::digits(last_sms_sent as nat),
    ];
    if tun {
        words.push("--tun"@)
    } else {
        words
    }
}

/// The arguments that the daemon is started with.
pub fn spawn_daemon(cfg: &AppConfig, twfid: &str, last_sms_sent: u64, tun: bool) -> (r: Vec<
    String,
>)
    ensures
        text::texts(r@) == daemon_words(*cfg, twfid@, last_sms_sent, tun),
{
    let mut r: Vec<String> = vec![
        "__serve".to_owned(),
        "--twfid".to_owned(),
        twfid.to_owned(),
        "--server".to_owned(),
        cfg.server.clone(),
        "--https-port".to_owned(),
        decimal::decimal(cfg.port as u64),
        "--mixed-port".to_owned(),
        decimal::decimal(cfg.mixed_port as u64),
        "--socks".to_owned(),
        SOCKS_UPSTREAM.to_owned(),
        "--http".to_owned(),
        HTTP_UPSTREAM.to_owned(),
        "--last-sms-sent".to_owned(),
        decimal::decimal(last_sms_sent),
    ];
    if tun {
        r.push("--tun".to_owned());
    }
    assert(text::texts(r@) =~= daemon_words(*cfg, twfid@, last_sms_sent, tun));
    r
}

/// A daemon that reads its options back is what it was configured to be: it has the session, the
/// server and its port, the mixed port, the two proxies of the tunnel program and the time of the
/// last SMS, and it is told of the transparent mode exactly where that is wanted.
#[verifier::spinoff_prover]
#[verifier::rlimit(60)]
pub proof fn law_daemons_read_their_configuration(
    cfg: AppConfig,
    twfid: Seq<char>,
    last_sms_sent: u64,
    tun: bool,
)
    ensures
        ({
            let all = daemon_words(cfg, twfid, last_sms_sent, tun);
            let options = all.skip(1);
            let alone = seq!["--tun"@];
            &&& all[0] == "__serve"@
            &&& words::option_value(options, alone, "--twfid"@) == Some(twfid)
            &&& words::option_value(options, alone, "--server"@) == Some(cfg.server@)
            &&& words::option_value(options, alone, "--https-port"@) matches Some(t)
                && decimal::parse_unsigned(t, u16::MAX as int) == Some(cfg.port as int)
            &&& words::option_value(options, alone, "--mixed-port"@) matches Some(t)
                && decimal::parse_unsigned(t, u16::MAX as int) == Some(cfg.mixed_port as int)
            &&& words::option_value(options, alone, "--socks"@) == Some("127.0.0.1:1080"@)
            &&& words::option_value(options, alone, "--http"@) == Some("127.0.0.1:1081"@)
            &&& words::option_value(options, alone, "--last-sms-sent"@) matches Some(t)
                && decimal::parse_unsigned(t, u64::MAX as int) == Some(last_sms_sent as int)
            &&& words::option_named(options, alone, "--tun"@) == tun
            &&& all.len() == 15 + (if tun {
                1int
            } else {
                0int
            })
        }),
{
    reveal_strlit("--twfid");
    reveal_strlit("--server");
    reveal_strlit("--https-port");
    reveal_strlit("--mixed-port");
    reveal_strlit("--socks");
    reveal_strlit("--http");
    reveal_strlit("--last-sms-sent");
    reveal_strlit("--tun");
    decimal::lemma_parse_of_digits(cfg.port as nat, u16::MAX as int);
    decimal::lemma_parse_of_digits(cfg.mixed_port as nat, u16::MAX as int);
    decimal::lemma_parse_of_digits(last_sms_sent as nat, u64::MAX as int);
    let all = daemon_words(cfg, twfid, last_sms_sent, tun);
    let alone = seq!["--tun"@];
    let sms = decimal::digits(last_sms_sent as nat);
    let r7 = if tun {
        seq!["--tun"@] + Seq::<Seq<char>>::empty()
    } else {
        Seq::<Seq<char>>::empty()
    };
    let r6 = seq!["--last-sms-sent"@, sms] + r7;
    let r5 = seq!["--http"@, HTTP_UPSTREAM@] + r6;
    let r4 = seq!["--socks"@, SOCKS_UPSTREAM@] + r5;
    let r3 = seq!["--mixed-port"@, decimal::digits(cfg.mixed_port as nat)] + r4;
    let r2 = seq!["--https-port"@, decimal::digits(cfg.port as nat)] + r3;
    let r1 = seq!["--server"@, cfg.server@] + r2;
    let r0 = seq!["--twfid"@, twfid] + r1;
    assert(all.skip(1) =~= r0);
    assert(alone[0] == "--tun"@);
    assert("--http"@.len() == 6 && "--last-sms-sent"@.len() == 15 && "--tun"@.len() == 5);
    assert("--twfid"@.len() == 7 && "--socks"@.len() == 7 && "--server"@.len() == 8);
    assert("--https-port"@.len() == 12 && "--mixed-port"@.len() == 12);
    assert("--https-port"@[2] != "--mixed-port"@[2]);
    assert("--twfid"@[2] != "--socks"@[2]);
    let port = decimal::digits(cfg.port as nat);
    let mixed = decimal::digits(cfg.mixed_port as nat);
    if tun {
        words::lemma_option_alone(r7, "--tun"@, Seq::empty(), alone);
    }
    words::lemma_option_with_value(r6, "--last-sms-sent"@, sms, r7, alone);
    words::lemma_option_with_value(r5, "--http"@, HTTP_UPSTREAM@, r6, alone);
    words::lemma_option_with_value(r4, "--socks"@, SOCKS_UPSTREAM@, r5, alone);
    words::lemma_option_with_value(r3, "--mixed-port"@, mixed, r4, alone);
    words::lemma_option_with_value(r2, "--https-port"@, port, r3, alone);
    words::lemma_option_with_value(r1, "--server"@, cfg.server@, r2, alone);
    words::lemma_option_with_value(r0, "--twfid"@, twfid, r1, alone);
    assert(words::option_value(r4, alone, "--socks"@) == Some(SOCKS_UPSTREAM@));
    assert(words::option_value(r4, alone, "--http"@) == Some(HTTP_UPSTREAM@));
    assert(words::option_value(r4, alone, "--last-sms-sent"@) == Some(sms));
    assert(words::option_value(r2, alone, "--last-sms-sent"@) == Some(sms));
    assert(words::option_value(r2, alone, "--socks"@) == Some(SOCKS_UPSTREAM@));
    assert(words::option_value(r2, alone, "--http"@) == Some(HTTP_UPSTREAM@));
    assert(words::option_named(r4, alone, "--tun"@) == tun);
    assert(words::option_named(r2, alone, "--tun"@) == tun);
}

/// How waiting for the daemon goes on.
#[derive(Debug, PartialEq, Eq)]
pub enum WaitReady {
    Online,
    Failed(String),
    /// Look again after so many milliseconds.
    Sleep(u64),
}

/// How long the daemon may take to come online, in milliseconds.
pub const CONNECT_TIMEOUT_MS: u64 = 45000;

/// One look at a daemon that is starting: it is online, it has reported an error, it has taken
/// too long, or it is to be looked at again.
pub fn wait_ready(
    state: Option<&RuntimeState>,
    tunnel_log: &str,
    tail: &str,
    elapsed_ms: u64,
    timeout_ms: u64,
) -> (r: WaitReady)
    ensures
        if state is Some && state->0.phase == Phase::Online {
            r == WaitReady::Online
        } else if state is Some && state->0.error is Some {
            r matches WaitReady::Failed(m) && m@ == "隧道启动失败: "@ + state->0.error->0@
                + "\n详见 "@ + tunnel_log@
        } else if elapsed_ms >= timeout_ms {
            r matches WaitReady::Failed(m) && m@ == "等待隧道就绪超时\n--- tunnel.log 末尾 ---\n"@
                + tail@
        } else {
            r == WaitReady::Sleep(200)
        },
{
    if let Some(st) = state {
        if st.phase == Phase::Online {
            return WaitReady::Online;
        }
        if let Some(err) = &st.error {
            let mut m = "隧道启动失败: ".to_owned();
            m.append(err);
            m.append("\n详见 ");
            m.append(tunnel_log);
            return WaitReady::Failed(m);
        }
    }
    if elapsed_ms >= timeout_ms {
        let mut m = "等待隧道就绪超时\n--- tunnel.log 末尾 ---\n".to_owned();
        m.append(tail);
        return WaitReady::Failed(m);
    }
    WaitReady::Sleep(200)
}

// ---------------------------------------------------------------------------------------
// Delay

/// The command line that asks for the gateway's start page through a local HTTP proxy and
/// prints how long it took.
pub fn probe_latency(port: u16, server: &str) -> (r: Vec<String>)
    ensures
        text::texts(r@) == seq![
            "/usr/bin/curl"@,
            "-x"@,
            "http://127.0.0.1:"@ + decimal::digits(port as nat),
            "-sk"@,
            "-o"@,
            "/dev/null"@,
            "--max-time"@,
            "3"@,
            "-w"@,
            "%{time_total}"@,
            "https://"@ + server@ + "/"@,
        ],
{
    let mut proxy = "http://127.0.0.1:".to_owned();
    proxy.append(&decimal::decimal(port as u64));
    let mut url = "https://".to_owned();
    url.append(server);
    url.append("/");
    let ghost proxy_text = proxy@;
    let ghost url_text = url@;
    let r: Vec<String> = vec![
        "/usr/bin/curl".to_owned(),
        "-x".to_owned(),
        proxy,
        "-sk".to_owned(),
        "-o".to_owned(),
        "/dev/null".to_owned(),
        "--max-time".to_owned(),
        "3".to_owned(),
        "-w".to_owned(),
        "%{time_total}".to_owned(),
        url,
    ];
    assert(text::texts(r@) =~= seq![
        "/usr/bin/curl"@,
        "-x"@,
        proxy_text,
        "-sk"@,
        "-o"@,
        "/dev/null"@,
        "--max-time"@,
        "3"@,
        "-w"@,
        "%{time_total}"@,
        url_text,
    ]);
    r
}

/// How long one probe for a command may take, in milliseconds.
pub const LATENCY_TIMEOUT_MS: u64 = 1500;

/// How a command measures the delay of the tunnel.
pub open spec fn latency_plan(st: RuntimeState) -> ProbePlan<Seq<char>> {
    match daemon::dns_address(text::opt_text(st.vpn_dns)) {
        Some(v) => if st.mode == Mode::Tun {
            ProbePlan::UdpDns {
                ip: daemon::ip_bytes(v),
                port: daemon::DNS_PORT,
                qname: st.server@,
            }
        } else {
            ProbePlan::Socks {
                addr: "127.0.0.1:"@ + decimal::digits(st.port as nat),
                ip: daemon::ip_bytes(v),
                port: daemon::DNS_PORT,
            }
        },
        None => if st.mode == Mode::Tun {
            ProbePlan::Direct { host: st.server@, port: 443 }
        } else {
            ProbePlan::Curl { port: st.port, server: st.server@ }
        },
    }
}

/// How a command measures the delay of the tunnel: as the daemon probes it, but through the
/// mixed port, so that passing connections on is part of what is measured.
pub fn probe_state_latency(st: &RuntimeState) -> (r: ProbePlan<String>)
    ensures
        r@ == latency_plan(*st),
{
    let ip: Option<(u8, u8, u8, u8)> = match &st.vpn_dns {
        Some(d) => tun::parse_ipv4(d),
        None => None,
    };
    match ip {
        Some(ip) => if st.mode == Mode::Tun {
            ProbePlan::UdpDns { ip, port: daemon::DNS_PORT, qname: st.server.clone() }
        } else {
            let mut addr = "127.0.0.1:".to_owned();
            addr.append(&decimal::decimal(st.port as u64));
            ProbePlan::Socks { addr, ip, port: daemon::DNS_PORT }
        },
        None => if st.mode == Mode::Tun {
            ProbePlan::Direct { host: st.server.clone(), port: 443 }
        } else {
            ProbePlan::Curl { port: st.port, server: st.server.clone() }
        },
    }
}

/// The delay to show for a probe that took so many milliseconds, at least one; a timeout for
/// one that failed.
pub fn measured(elapsed_ms: Option<u64>) -> (r: Delay)
    ensures
        r == (match elapsed_ms {
            Some(ms) => Delay::Value(
                if ms == 0 {
                    1
                } else {
                    ms
                },
            ),
            None => Delay::Timeout,
        }),
{
    match elapsed_ms {
        Some(ms) => Delay::Value(
            if ms == 0 {
                1
            } else {
                ms
            },
        ),
        None => Delay::Timeout,
    }
}

/// What to do next about measuring a delay.
#[derive(Debug, Clone, Copy, PartialEq, Eq, Structural)]
pub enum LatencyStep {
    /// Make one try, which may take so many milliseconds.
    Try { timeout_ms: u64 },
    Done(Delay),
}

/// How often a command tries: it does not wait for a second answer, except where the delay is
/// measured by a request, which is repeated once.
pub open spec fn latency_tries<T>(plan: ProbePlan<T>) -> u32 {
    if plan is Curl {
        2
    } else {
        1
    }
}

/// One step of measuring a delay: how many tries have failed so far, and how many milliseconds
/// the one that was answered took. A request tells its own time; any other delay is at least
/// one.
pub fn latency_step(plan: &ProbePlan<String>, failed: u32, answered: Option<u64>) -> (r:
    LatencyStep)
    ensures
        r == (match answered {
            Some(ms) => LatencyStep::Done(
                Delay::Value(
                    if ms == 0 && !(*plan is Curl) {
                        1
                    } else {
                        ms
                    },
                ),
            ),
            None => if failed >= latency_tries(*plan) {
                LatencyStep::Done(Delay::Timeout)
            } else {
                LatencyStep::Try {
                    timeout_ms: if *plan is Curl {
                        daemon::PROBE_TIMEOUT_MS
                    } else {
                        LATENCY_TIMEOUT_MS
                    },
                }
            },
        }),
{
    let by_request = match plan {
        ProbePlan::Curl { .. } => true,
        _ => false,
    };
    match answered {
        Some(ms) => LatencyStep::Done(
            if by_request {
                Delay::Value(ms)
            } else {
                measured(Some(ms))
            },
        ),
        None => {
            let tries: u32 = if by_request {
                2
            } else {
                1
            };
            if failed >= tries {
                LatencyStep::Done(measured(None))
            } else if by_request {
                LatencyStep::Try { timeout_ms: daemon::PROBE_TIMEOUT_MS }
            } else {
                LatencyStep::Try { timeout_ms: LATENCY_TIMEOUT_MS }
            }
        },
    }
}

/// What has come of a connection to a SOCKS proxy.
#[derive(Debug, PartialEq, Eq)]
pub enum SocksEvent {
    /// It is open.
    Connected,
    /// The proxy answered the greeting with these two bytes.
    Method(u8, u8),
    /// The bytes of the answer to the request that have been read so far.
    Reply(Vec<u8>),
    /// It could not be opened, or broke, or stayed silent for too long.
    Failed,
}

/// What to do with a connection to a SOCKS proxy.
#[derive(Debug, PartialEq, Eq)]
pub enum SocksAction {
    /// Send these bytes, then read so many.
    Send { bytes: Vec<u8>, read: usize },
    /// Read so many more bytes of the answer.
    Read(usize),
    Alive,
    Dead,
}

/// The request to connect to a port of an address.
pub open spec fn connect_request(ip: (u8, u8, u8, u8), port: u16) -> Seq<u8> {
    seq![5, 1, 0, 1, ip.0, ip.1, ip.2, ip.3, (port / 256) as u8, (port % 256) as u8]
}

/// How many bytes an answer has, as far as its beginning tells: a head of four, an address by
/// its type (four bytes, sixteen, or a name with its length in front) and two for the port.
/// `None` for a type that there is not.
pub open spec fn reply_len(b: Seq<u8>) -> Option<int> {
    if b.len() < 4 {
        Some(4)
    } else if b[3] == 1 {
        Some(10)
    } else if b[3] == 4 {
        Some(22)
    } else if b[3] == 3 {
        if b.len() < 5 {
            Some(5)
        } else {
            Some(7 + b[4] as int)
        }
    } else {
        None
    }
}

/// An answer is complete: it holds its whole head, and all the bytes that its head announces.
pub open spec fn whole_reply(b: Seq<u8>) -> bool {
    &&& b.len() >= 4
    &&& b[3] == 3 ==> b.len() >= 5
    &&& reply_len(b) matches Some(n) && b.len() >= n
}

/// The far end took the connection or refused it, as far as the answer has been read.
pub open spec fn through_tunnel(b: Seq<u8>) -> bool {
    &&& b.len() >= 1 ==> b[0] == 5
    &&& b.len() >= 2 ==> b[1] == 0 || b[1] == 5
}

/// The number of bytes that an answer has, as far as its beginning tells.
fn answer_len(b: &[u8]) -> (r: Option<usize>)
    ensures
        match r {
            Some(n) => reply_len(b@) == Some(n as int),
            None => reply_len(b@) is None,
        },
{
    if b.len() < 4 {
        Some(4)
    } else if b[3] == 1 {
        Some(10)
    } else if b[3] == 4 {
        Some(22)
    } else if b[3] == 3 {
        if b.len() < 5 {
            Some(5)
        } else {
            Some(7 + b[4] as usize)
        }
    } else {
        None
    }
}

/// A probe through a SOCKS proxy to a port of an address. The tunnel is alive where a complete
/// answer says that the far end took the connection or refused it: either has come through the
/// tunnel. Anything else the proxy may have made up itself.
pub fn socks_probe(ev: &SocksEvent, ip: (u8, u8, u8, u8), port: u16) -> (r: SocksAction)
    ensures
        match *ev {
            SocksEvent::Connected => r matches SocksAction::Send { bytes, read } && bytes@ == seq![
                5u8,
                1,
                0,
            ] && read == 2,
            SocksEvent::Method(v, m) => if v == 5 && m == 0 {
                r matches SocksAction::Send { bytes, read } && bytes@ == connect_request(ip, port)
                    && read == 4
            } else {
                r == SocksAction::Dead
            },
            SocksEvent::Reply(b) => if !through_tunnel(b@) || reply_len(b@) is None {
                r == SocksAction::Dead
            } else if whole_reply(b@) {
                r == SocksAction::Alive
            } else {
                r matches SocksAction::Read(n) && b@.len() + n == reply_len(b@)->0
            },
            SocksEvent::Failed => r == SocksAction::Dead,
        },
{
    match ev {
        SocksEvent::Connected => SocksAction::Send { bytes: vec![5, 1, 0], read: 2 },
        SocksEvent::Method(v, m) => if *v == 5 && *m == 0 {
            let request: Vec<u8> = vec![
                5,
                1,
                0,
                1,
                ip.0,
                ip.1,
                ip.2,
                ip.3,
                (port / 256) as u8,
                (port % 256) as u8,
            ];
            SocksAction::Send { bytes: request, read: 4 }
        } else {
            SocksAction::Dead
        },
        SocksEvent::Reply(b) => {
            if b.len() >= 1 && b[0] != 5 {
                return SocksAction::Dead;
            }
            if b.len() >= 2 && b[1] != 0 && b[1] != 5 {
                return SocksAction::Dead;
            }
            match answer_len(b) {
                None => SocksAction::Dead,
                Some(n) => if b.len() >= n {
                    SocksAction::Alive
                } else {
                    SocksAction::Read(n - b.len())
                },
            }
        },
        SocksEvent::Failed => SocksAction::Dead,
    }
}

/// No beginning of an answer is itself a whole answer, so one that is cut off never counts: there
/// are bytes that it still lacks. A whole one counts by its first two bytes alone.
pub proof fn law_only_whole_answers_count(b: Seq<u8>)
    ensures
        !whole_reply(b) && through_tunnel(b) && reply_len(b) is Some ==> b.len() < reply_len(b)->0,
        whole_reply(b) ==> reply_len(b) is Some && (through_tunnel(b) == (b[0] == 5 && (b[1] == 0
            || b[1] == 5))),
        forall|n: int|
            0 <= n < b.len() && whole_reply(b) && b.len() == reply_len(b)->0 ==> !whole_reply(
                #[trigger] b.take(n),
            ),
{
}

/// The time that is left for the next address of a host, in milliseconds; none where more than
/// all of it is used up.
pub fn direct_tcp_probe(timeout_ms: u64, elapsed_ms: u64) -> (r: Option<u64>)
    ensures
        match r {
            Some(left) => elapsed_ms + left == timeout_ms,
            None => elapsed_ms > timeout_ms,
        },
{
    if elapsed_ms > timeout_ms {
        None
    } else {
        Some(timeout_ms - elapsed_ms)
    }
}

// ---------------------------------------------------------------------------------------
// DNS

/// The two bytes of a number, high byte first.
pub open spec fn big_endian(n: u16) -> Seq<u8> {
    seq![(n / 256) as u8, (n % 256) as u8]
}

/// The bytes of a label, cut off after 63.
pub open spec fn label_bytes(label: Seq<char>) -> Seq<u8> {
    let b = vstd::utf8::encode_utf8(label);
    if b.len() > 63 {
        b.take(63)
    } else {
        b
    }
}

/// Labels on the wire: each behind its length.
pub open spec fn wire(labels: Seq<Seq<char>>) -> Seq<u8>
    decreases labels.len(),
{
    if labels.len() == 0 {
        seq![]
    } else {
        wire(labels.drop_last()) + seq![label_bytes(labels.last()).len() as u8] + label_bytes(
            labels.last(),
        )
    }
}

/// The labels of a name.
pub open spec fn labels_of(name: Seq<char>) -> Seq<Seq<char>> {
    text::nonempty(text::split(name, '.'))
}

/// A query for the IPv4 address of a name, with recursion desired.
pub open spec fn dns_query(txid: u16, name: Seq<char>) -> Seq<u8> {
    big_endian(txid) + seq![1u8, 0, 0, 1, 0, 0, 0, 0, 0, 0] + wire(labels_of(name)) + seq![
        0u8,
        0,
        1,
        0,
        1,
    ]
}

/// A query for the IPv4 address of a name.
pub fn build_dns_query(txid: u16, qname: &str) -> (r: Vec<u8>)
    ensures
        r@ == dns_query(txid, qname@),
{
    let mut q: Vec<u8> = vec![
        (txid / 256) as u8,
        (txid % 256) as u8,
        1,
        0,
        0,
        1,
        0,
        0,
        0,
        0,
        0,
        0,
    ];
    let ghost head = big_endian(txid) + seq![1u8, 0, 0, 1, 0, 0, 0, 0, 0, 0];
    assert(q@ =~= head);
    let pieces = text::split_chars(&text::chars_of(qname), '.');
    let ghost views = text::split(qname@, '.');
    let mut i: usize = 0;
    assert(text::nonempty(views.take(0)) =~= Seq::<Seq<char>>::empty());
    assert(wire(Seq::<Seq<char>>::empty()) =~= Seq::<u8>::empty());
    assert(q@ =~= head + wire(text::nonempty(views.take(0))));
    while i < pieces.len()
        invariant
            i <= pieces.len(),
            views == text::texts(pieces@),
            q@ == head + wire(text::nonempty(views.take(i as int))),
        decreases pieces.len() - i,
    {
        let label = pieces[i].as_str();
        let ghost done = text::nonempty(views.take(i as int));
        assert(views.take(i + 1).drop_last() =~= views.take(i as int));
        assert(views.take(i + 1).last() == label@);
        if !label.is_empty() {
            let bytes = label.as_bytes();
            let n: usize = if bytes.len() > 63 {
                63
            } else {
                bytes.len()
            };
            let part = vstd::slice::slice_subrange(bytes, 0, n);
            assert(part@ =~= label_bytes(label@));
            let ghost before = q@;
            q.push(n as u8);
            q.extend_from_slice(part);
            assert(done.push(label@).drop_last() =~= done);
            assert(q@ =~= before + seq![n as u8] + part@);
            assert(q@ =~= head + wire(done.push(label@)));
        }
        i += 1;
    }
    assert(views.take(i as int) =~= views);
    q.push(0);
    q.push(0);
    q.push(1);
    q.push(0);
    q.push(1);
    assert(q@ =~= dns_query(txid, qname@));
    q
}

/// A message is an answer to the query with the given id.
pub open spec fn answers(txid: u16, buf: Seq<u8>) -> bool {
    &&& buf.len() >= 12
    &&& buf.take(2) == big_endian(txid)
    &&& buf[2] & 0x80 != 0
}

/// Whether a message is an answer to the query with the given id. Any answer will do, also
/// that the name does not exist: it has come back through the tunnel.
pub fn dns_reply_matches(txid: u16, buf: &[u8]) -> (r: bool)
    ensures
        r == answers(txid, buf@),
{
    if buf.len() < 12 {
        return false;
    }
    let same = buf[0] == (txid / 256) as u8 && buf[1] == (txid % 256) as u8;
    proof {
        if same {
            assert(buf@.take(2) =~= big_endian(txid));
        } else {
            assert(buf@.take(2)[0] == buf@[0]);
            assert(buf@.take(2)[1] == buf@[1]);
        }
    }
    same && buf[2] & 0x80 != 0
}

/// No query answers itself, and a query with the mark of an answer does.
pub proof fn law_query_and_answer(txid: u16, name: Seq<char>)
    ensures
        !answers(txid, dns_query(txid, name)),
        answers(
            txid,
            dns_query(txid, name).update(2, dns_query(txid, name)[2] | 0x80),
        ),
{
    let q = dns_query(txid, name);
    assert(q[2] == 1);
    assert(1u8 & 0x80 == 0) by (bit_vector);
    assert((1u8 | 0x80) & 0x80 != 0) by (bit_vector);
    let a = q.update(2, q[2] | 0x80);
    assert(a.take(2) =~= big_endian(txid));
    assert(a[2] == 1u8 | 0x80);
}

/// An answer to one query is no answer to a query with another id.
pub proof fn law_ids_tell_queries_apart(a: u16, b: u16, buf: Seq<u8>)
    requires
        answers(a, buf),
        answers(b, buf),
    ensures
        a == b,
{
    assert(big_endian(a)[0] == big_endian(b)[0]);
    assert(big_endian(a)[1] == big_endian(b)[1]);
}

/// The labels that a message holds from its beginning up to the empty label, and what follows;
/// `None` where the message ends too early.
pub open spec fn read_labels(b: Seq<u8>) -> Option<(Seq<Seq<u8>>, Seq<u8>)>
    decreases b.len(),
{
    if b.len() == 0 {
        None
    } else if b[0] == 0 {
        Some((seq![], b.skip(1)))
    } else if b[0] > 63 || b.len() < 1 + b[0] {
        None
    } else {
        match read_labels(b.skip(1 + b[0] as int)) {
            Some((labels, rest)) => Some((seq![b.subrange(1, 1 + b[0] as int)] + labels, rest)),
            None => None,
        }
    }
}

/// The bytes of labels.
pub open spec fn all_label_bytes(labels: Seq<Seq<char>>) -> Seq<Seq<u8>> {
    Seq::new(labels.len(), |i: int| label_bytes(labels[i]))
}

proof fn lemma_encoding_not_empty(s: Seq<char>)
    requires
        s.len() > 0,
    ensures
        vstd::utf8::encode_utf8(s).len() > 0,
{
    assert(vstd::utf8::encode_scalar(s[0] as u32).len() > 0);
}

proof fn lemma_wire_reads_back(labels: Seq<Seq<char>>, more: Seq<Seq<u8>>, tail: Seq<u8>, rest: Seq<u8>)
    requires
        forall|i: int| 0 <= i < labels.len() ==> (#[trigger] labels[i]).len() > 0,
        read_labels(tail) == Some((more, rest)),
    ensures
        read_labels(wire(labels) + tail) == Some((all_label_bytes(labels) + more, rest)),
    decreases labels.len(),
{
    if labels.len() == 0 {
        assert(wire(labels) + tail =~= tail);
        assert(all_label_bytes(labels) + more =~= more);
    } else {
        let l = labels.last();
        let lb = label_bytes(l);
        assert(labels[labels.len() - 1].len() > 0);
        lemma_encoding_not_empty(l);
        let t2 = seq![lb.len() as u8] + lb + tail;
        assert(t2[0] == lb.len());
        assert(t2.skip(1 + t2[0] as int) =~= tail);
        assert(t2.subrange(1, 1 + t2[0] as int) =~= lb);
        assert(read_labels(t2) == Some((seq![lb] + more, rest)));
        let init = labels.drop_last();
        assert forall|i: int| 0 <= i < init.len() implies (#[trigger] init[i]).len() > 0 by {
            assert(labels[i].len() > 0);
        }
        lemma_wire_reads_back(init, seq![lb] + more, t2, rest);
        assert(wire(labels) + tail =~= wire(init) + t2);
        assert(all_label_bytes(labels) + more =~= all_label_bytes(init) + (seq![lb] + more));
    }
}

proof fn lemma_nonempty_pieces(v: Seq<Seq<char>>, i: int)
    requires
        0 <= i < text::nonempty(v).len(),
    ensures
        text::nonempty(v)[i].len() > 0,
    decreases v.len(),
{
    if v.len() > 0 {
        if v.last().len() == 0 {
            lemma_nonempty_pieces(v.drop_last(), i);
        } else if i < text::nonempty(v.drop_last()).len() {
            lemma_nonempty_pieces(v.drop_last(), i);
        }
    }
}

/// A query spells its name: behind the header stand the labels of the name, each cut off after
/// 63 bytes, and behind them the type and the class.
pub proof fn law_query_spells_the_name(txid: u16, name: Seq<char>)
    ensures
        read_labels(dns_query(txid, name).skip(12)) == Some(
            (all_label_bytes(labels_of(name)), seq![0u8, 1, 0, 1]),
        ),
{
    let tail = seq![0u8, 0, 1, 0, 1];
    let labels = labels_of(name);
    assert(tail.skip(1) =~= seq![0u8, 1, 0, 1]);
    assert(read_labels(tail) == Some((Seq::<Seq<u8>>::empty(), seq![0u8, 1, 0, 1])));
    assert forall|i: int| 0 <= i < labels.len() implies (#[trigger] labels[i]).len() > 0 by {
        lemma_nonempty_pieces(text::split(name, '.'), i);
    }
    lemma_wire_reads_back(labels, seq![], tail, seq![0u8, 1, 0, 1]);
    assert(dns_query(txid, name).skip(12) =~= wire(labels) + tail);
    assert(all_label_bytes(labels) + Seq::<Seq<u8>>::empty() =~= all_label_bytes(labels));
}

/// The id of a query, from the process id and the nanoseconds of the clock.
pub fn probe_txid(pid: u32, nanos: Option<u32>) -> (r: u16)
    ensures
        r == (pid % 65536) as u16 ^ (match nanos {
            Some(n) => (n % 65536) as u16,
            None => 0,
        }),
{
    let p: u16 = (pid % 65536) as u16;
    let n: u16 = match nanos {
        Some(n) => (n % 65536) as u16,
        None => 0,
    };
    p ^ n
}

/// What has come of a query.
#[derive(Debug, PartialEq, Eq)]
pub enum UdpEvent {
    /// A message can be waited for; so many milliseconds have passed since the query was sent.
    Waiting { elapsed_ms: u64 },
    /// A message has come in.
    Received(Vec<u8>),
    /// No message came in time, or the socket failed.
    Failed,
}

/// What to do about a query.
#[derive(Debug, Clone, Copy, PartialEq, Eq, Structural)]
pub enum UdpStep {
    /// Receive a message, for at most so many milliseconds.
    Receive(u64),
    /// That was no answer: see how much time is left.
    Again,
    Alive,
    Dead,
}

/// A probe by a DNS query: the tunnel is alive as soon as an answer comes in, and dead once the
/// time is up. Messages that are no answer are passed over.
pub fn dns_udp_probe(ev: &UdpEvent, txid: u16, timeout_ms: u64) -> (r: UdpStep)
    ensures
        r == (match *ev {
            UdpEvent::Waiting { elapsed_ms } => if elapsed_ms < timeout_ms {
                UdpStep::Receive((timeout_ms - elapsed_ms) as u64)
            } else {
                UdpStep::Dead
            },
            UdpEvent::Received(buf) => if answers(txid, buf@) {
                UdpStep::Alive
            } else {
                UdpStep::Again
            },
            UdpEvent::Failed => UdpStep::Dead,
        }),
{
    match ev {
        UdpEvent::Waiting { elapsed_ms } => if *elapsed_ms < timeout_ms {
            UdpStep::Receive(timeout_ms - *elapsed_ms)
        } else {
            UdpStep::Dead
        },
        UdpEvent::Received(buf) => if dns_reply_matches(txid, buf) {
            UdpStep::Alive
        } else {
            UdpStep::Again
        },
        UdpEvent::Failed => UdpStep::Dead,
    }
}

// ---------------------------------------------------------------------------------------
// Stopping

/// What sweeps up after a daemon that may not have ended in order.
#[derive(Debug, Clone, Copy, PartialEq, Eq, Structural)]
pub enum Sweep {
    /// The helper, for what runs as root.
    Janitor,
    /// A signal to the user's own tunnel program.
    Pkill,
}

/// How a daemon is stopped.
#[derive(Debug, Clone, Copy, PartialEq, Eq, Structural)]
pub struct StopPlan {
    /// The process to be told to end, if it is alive.
    pub terminate: Option<i32>,
    /// How long its end is waited for, in milliseconds.
    pub wait_ms: u64,
    pub sweep: Sweep,
}

/// How the daemon with the given state is stopped: by a signal, where it names a process, and
/// in the transparent mode with the helper to sweep up.
pub fn stop_daemon_and_wait(state: Option<&RuntimeState>, timeout_ms: u64) -> (r: StopPlan)
    ensures
        r == (StopPlan {
            terminate: if state is Some && state->0.daemon_pid > 0 {
                Some(state->0.daemon_pid)
            } else {
                None
            },
            wait_ms: timeout_ms,
            sweep: if state is Some && state->0.mode == Mode::Tun {
                Sweep::Janitor
            } else {
                Sweep::Pkill
            },
        }),
{
    match state {
        Some(st) => StopPlan {
            terminate: if st.daemon_pid > 0 {
                Some(st.daemon_pid)
            } else {
                None
            },
            wait_ms: timeout_ms,
            sweep: if st.mode == Mode::Tun {
                Sweep::Janitor
            } else {
                Sweep::Pkill
            },
        },
        None => StopPlan { terminate: None, wait_ms: timeout_ms, sweep: Sweep::Pkill },
    }
}

/// How `disconnect` stops the daemon: in the transparent mode it waits longer, since there is
/// more for the daemon to undo.
pub fn stop_daemon(state: Option<&RuntimeState>) -> (r: StopPlan)
    ensures
        r.terminate == (if state is Some && state->0.daemon_pid > 0 {
            Some(state->0.daemon_pid)
        } else {
            None
        }),
        r.wait_ms == (if state is Some && state->0.mode == Mode::Tun {
            3000
        } else {
            300u64
        }),
        r.sweep == (if state is Some && state->0.mode == Mode::Tun {
            Sweep::Janitor
        } else {
            Sweep::Pkill
        }),
{
    let timeout_ms: u64 = match state {
        Some(st) => if st.mode == Mode::Tun {
            3000
        } else {
            300
        },
        None => 300,
    };
    stop_daemon_and_wait(state, timeout_ms)
}

/// How waiting for the end of a process goes on.
#[derive(Debug, Clone, Copy, PartialEq, Eq, Structural)]
pub enum EndWait {
    /// It is not waited for any longer.
    Over,
    /// Look again after so many milliseconds.
    Sleep(u64),
}

/// One look at a process that was told to end: it is waited for while it is alive and there is
/// time left.
pub fn wait_for_end(alive: bool, elapsed_ms: u64, wait_ms: u64) -> (r: EndWait)
    ensures
        r == (if alive && elapsed_ms < wait_ms {
            EndWait::Sleep(100)
        } else {
            EndWait::Over
        }),
{
    if alive && elapsed_ms < wait_ms {
        EndWait::Sleep(100)
    } else {
        EndWait::Over
    }
}

// ---------------------------------------------------------------------------------------
// Laws of the probes of a command

/// A command probes a known DNS server at port 53 of the very address that its text spells: in the
/// transparent mode by a query for the server's name, else through the mixed port.
pub proof fn law_commands_probe_the_dns_server(st: RuntimeState, w: u8, x: u8, y: u8, z: u8)
    requires
        text::opt_text(st.vpn_dns) == Some(tun::dotted(w, x, y, z)),
    ensures
        latency_plan(st) == (if st.mode == Mode::Tun {
            ProbePlan::UdpDns { ip: (w, x, y, z), port: 53, qname: st.server@ }
        } else {
            ProbePlan::Socks {
                addr: "127.0.0.1:"@ + decimal::digits(st.port as nat),
                ip: (w, x, y, z),
                port: 53,
            }
        }),
{
    tun::law_written_addresses_are_read(w, x, y, z);
}

/// Where no DNS server is known, or what is known is no address, a command probes the gateway: in
/// the transparent mode at port 443, else through the mixed port. Only such a request is tried a
/// second time.
pub proof fn law_commands_else_probe_the_gateway(st: RuntimeState)
    requires
        st.vpn_dns is None || tun::ipv4(st.vpn_dns->0@) is None,
    ensures
        latency_plan(st) == (if st.mode == Mode::Tun {
            ProbePlan::Direct { host: st.server@, port: 443 }
        } else {
            ProbePlan::Curl { port: st.port, server: st.server@ }
        }),
        latency_tries(latency_plan(st)) == (if st.mode == Mode::Tun {
            1u32
        } else {
            2u32
        }),
{
}

/// Two bytes stand for the number that they were made from.
pub proof fn law_big_endian_reads_back(n: u16)
    ensures
        big_endian(n).len() == 2,
        big_endian(n)[0] * 256 + big_endian(n)[1] == n,
{
}

/// The request to a SOCKS proxy asks, in version five, for a connection to an IPv4 address, and
/// holds the bytes of that address and the port, high byte first, and nothing else.
pub proof fn law_what_a_proxy_is_asked_for(ip: (u8, u8, u8, u8), port: u16)
    ensures
        ({
            let r = connect_request(ip, port);
            &&& r.len() == 10
            &&& r.take(4) == seq![5u8, 1, 0, 1]
            &&& r.subrange(4, 8) == seq![ip.0, ip.1, ip.2, ip.3]
            &&& r[8] * 256 + r[9] == port
        }),
{
    let r = connect_request(ip, port);
    assert(r.take(4) =~= seq![5u8, 1, 0, 1]);
    assert(r.subrange(4, 8) =~= seq![ip.0, ip.1, ip.2, ip.3]);
}

/// An answer is whole with the two bytes of its port, behind an address of four bytes, one of
/// sixteen, or a name with its length in front; and it counts where the far end took the connection
/// or refused it, and only then.
pub proof fn law_which_answers_are_whole(
    version: u8,
    status: u8,
    v4: Seq<u8>,
    v6: Seq<u8>,
    name: Seq<u8>,
    port: Seq<u8>,
)
    requires
        v4.len() == 4,
        v6.len() == 16,
        name.len() <= 255,
        port.len() == 2,
    ensures
        ({
            let a = seq![version, status, 0, 1] + v4 + port;
            let b = seq![version, status, 0, 4] + v6 + port;
            let c = seq![version, status, 0, 3, name.len() as u8] + name + port;
            let counts = version == 5 && (status == 0 || status == 5);
            &&& whole_reply(a) && reply_len(a) == Some(a.len() as int)
            &&& whole_reply(b) && reply_len(b) == Some(b.len() as int)
            &&& whole_reply(c) && reply_len(c) == Some(c.len() as int)
            &&& through_tunnel(a) == counts
            &&& through_tunnel(b) == counts
            &&& through_tunnel(c) == counts
            &&& !whole_reply(a.drop_last())
            &&& !whole_reply(b.drop_last())
            &&& !whole_reply(c.drop_last())
        }),
{
}

/// An answer with an address of any other kind is none, and one whose kind is not known yet has at
/// least four bytes.
pub proof fn law_other_answers_are_none(b: Seq<u8>)
    ensures
        b.len() < 4 ==> reply_len(b) == Some(4int) && !whole_reply(b),
        b.len() >= 4 && b[3] != 1 && b[3] != 3 && b[3] != 4 ==> reply_len(b) is None
            && !whole_reply(b),
{
}

/// The header of a query holds its id and asks one question, recursively; it announces no answers.
/// What is shorter than such a header, or has another id, or no mark of an answer, answers nothing.
pub proof fn law_the_header_of_a_query(txid: u16, name: Seq<char>, buf: Seq<u8>)
    ensures
        dns_query(txid, name).len() >= 17,
        dns_query(txid, name)[0] * 256 + dns_query(txid, name)[1] == txid,
        dns_query(txid, name).subrange(2, 12) == seq![1u8, 0, 0, 1, 0, 0, 0, 0, 0, 0],
        answers(txid, buf) ==> buf.len() >= 12 && buf[0] * 256 + buf[1] == txid && buf[2] & 0x80
            != 0,
        buf.len() >= 12 && buf[0] * 256 + buf[1] == txid && buf[2] & 0x80 != 0 ==> answers(
            txid,
            buf,
        ),
{
    assert(dns_query(txid, name).subrange(2, 12) =~= seq![1u8, 0, 0, 1, 0, 0, 0, 0, 0, 0]);
    if answers(txid, buf) {
        assert(buf.take(2)[0] == buf[0] && buf.take(2)[1] == buf[1]);
    }
    if buf.len() >= 12 && buf[0] * 256 + buf[1] == txid {
        assert(buf.take(2) =~= big_endian(txid));
    }
}

/// The labels of a name are its parts between the dots, but for empty ones; each goes out as it is
/// encoded, or as its first 63 bytes where it is longer.
pub proof fn law_labels_of_a_name(name: Seq<char>, label: Seq<char>)
    ensures
        labels_of(name) == text::split(name, '.').filter(|t: Seq<char>| t.len() > 0),
        vstd::utf8::encode_utf8(label).len() <= 63 ==> label_bytes(label)
            == vstd::utf8::encode_utf8(label),
        vstd::utf8::encode_utf8(label).len() > 63 ==> label_bytes(label).len() == 63
            && label_bytes(label) == vstd::utf8::encode_utf8(label).take(63),
{
    text::law_only_empty_pieces_go(text::split(name, '.'));
}

// ---------------------------------------------------------------------------------------
// Laws of single decisions

/// A daemon that is starting is done waiting for exactly where it is online, where it has reported
/// an error, and where the time is up; being online goes before an error, and an error before the
/// time.
pub proof fn law_when_a_daemon_is_ready(
    state: Option<&RuntimeState>,
    tunnel_log: &str,
    tail: &str,
    elapsed_ms: u64,
    timeout_ms: u64,
    r: WaitReady,
)
    requires
        call_ensures(wait_ready, (state, tunnel_log, tail, elapsed_ms, timeout_ms), r),
    ensures
        ({
            let online = state is Some && state->0.phase == Phase::Online;
            let reported = state is Some && state->0.error is Some;
            &&& r is Online <==> online
            &&& r is Sleep <==> !online && !reported && elapsed_ms < timeout_ms
            &&& !online && reported ==> (r matches WaitReady::Failed(m) && text::contains(
                m@,
                state->0.error->0@,
            ))
        }),
{
    let online = state is Some && state->0.phase == Phase::Online;
    let reported = state is Some && state->0.error is Some;
    if !online && reported {
        if let WaitReady::Failed(m) = r {
            let e = state->0.error->0@;
            let head = "隧道启动失败: "@;
            let n = head.len() as int;
            assert(m@.subrange(n, n + e.len()) =~= e);
            assert(text::occurs_at(m@, e, n));
        }
    }
}

/// The delay is measured through the proxy on the given local port, by asking for the start page of
/// the given server, and it is what is printed.
pub proof fn law_how_a_delay_is_asked_for(port: u16, server: &str, w: Vec<String>)
    requires
        call_ensures(probe_latency, (port, server), w),
    ensures
        ({
            let t = text::texts(w@);
            let alone = seq!["-sk"@];
            &&& t[0] == "/usr/bin/curl"@
            &&& t.last() == "https://"@ + server@ + "/"@
            &&& words::option_value(t.skip(1), alone, "-x"@) == Some(
                "http://127.0.0.1:"@ + decimal::digits(port as nat),
            )
            &&& words::option_value(t.skip(1), alone, "-o"@) == Some("/dev/null"@)
            &&& words::option_value(t.skip(1), alone, "--max-time"@) == Some("3"@)
            &&& words::option_value(t.skip(1), alone, "-w"@) == Some("%{time_total}"@)
        }),
{
    reveal_strlit("-sk");
    reveal_strlit("-x");
    reveal_strlit("-o");
    reveal_strlit("--max-time");
    reveal_strlit("-w");
    assert("-sk"@.len() == 3 && "-o"@.len() == 2 && "--max-time"@.len() == 10);
    assert("-w"@.len() == 2 && "-x"@.len() == 2);
    assert("-o"@[1] != "-w"@[1] && "-o"@[1] != "-x"@[1] && "-w"@[1] != "-x"@[1]);
    let t = text::texts(w@);
    let alone = seq!["-sk"@];
    assert(alone[0] == "-sk"@);
    let proxy = "http://127.0.0.1:"@ + decimal::digits(port as nat);
    let r0 = t.skip(1);
    let r1 = t.skip(3);
    let r2 = t.skip(4);
    let r3 = t.skip(6);
    let r4 = t.skip(8);
    assert(r0 =~= seq!["-x"@, proxy] + r1);
    assert(r1 =~= seq!["-sk"@] + r2);
    assert(r2 =~= seq!["-o"@, "/dev/null"@] + r3);
    assert(r3 =~= seq!["--max-time"@, "3"@] + r4);
    assert(r4 =~= seq!["-w"@, "%{time_total}"@] + t.skip(10));
    words::lemma_option_with_value(r4, "-w"@, "%{time_total}"@, t.skip(10), alone);
    words::lemma_option_with_value(r3, "--max-time"@, "3"@, r4, alone);
    words::lemma_option_with_value(r2, "-o"@, "/dev/null"@, r3, alone);
    words::lemma_option_alone(r1, "-sk"@, r2, alone);
    words::lemma_option_with_value(r0, "-x"@, proxy, r1, alone);
    assert(words::option_value(r2, alone, "-w"@) == Some("%{time_total}"@));
    assert(words::option_value(r1, alone, "-w"@) == Some("%{time_total}"@));
}

/// A delay that was measured is shown, at least as one millisecond; a probe that failed is shown as
/// such, and never as a delay.
pub proof fn law_which_delay_is_shown(elapsed_ms: Option<u64>, r: Delay)
    requires
        call_ensures(measured, (elapsed_ms,), r),
    ensures
        elapsed_ms is None <==> r == Delay::Timeout,
        elapsed_ms matches Some(ms) && ms > 0 ==> r == Delay::Value(elapsed_ms->0),
        elapsed_ms == Some(0u64) ==> r == Delay::Value(1),
{
}

/// A daemon is told to end exactly where its state names a process; what it may leave behind is
/// swept up by the helper exactly where it ran in the transparent mode. Then, too, its end is waited
/// for ten times as long.
pub proof fn law_how_a_daemon_is_stopped(
    state: Option<&RuntimeState>,
    timeout_ms: u64,
    at_once: StopPlan,
    r: StopPlan,
)
    requires
        call_ensures(stop_daemon_and_wait, (state, timeout_ms), at_once),
        call_ensures(stop_daemon, (state,), r),
    ensures
        at_once.terminate == r.terminate && at_once.sweep == r.sweep,
        at_once.wait_ms == timeout_ms,
        r.terminate is Some <==> state is Some && state->0.daemon_pid > 0,
        r.terminate is Some ==> r.terminate == Some(state->0.daemon_pid),
        r.sweep == Sweep::Janitor <==> state is Some && state->0.mode == Mode::Tun,
        r.wait_ms == (if r.sweep == Sweep::Janitor {
            3000u64
        } else {
            300u64
        }),
{
}

/// A query is answered, and the tunnel alive, exactly with a message that answers it; other messages
/// are passed over while there is time, and the whole of what is left of it is waited.
pub proof fn law_when_a_query_is_answered(
    ev: &UdpEvent,
    txid: u16,
    timeout_ms: u64,
    r: UdpStep,
)
    requires
        call_ensures(dns_udp_probe, (ev, txid, timeout_ms), r),
    ensures
        r == UdpStep::Alive <==> (*ev matches UdpEvent::Received(buf) && answers(txid, buf@)),
        r == UdpStep::Dead <==> *ev is Failed || (*ev matches UdpEvent::Waiting { elapsed_ms }
            && elapsed_ms >= timeout_ms),
        r matches UdpStep::Receive(ms) ==> (*ev matches UdpEvent::Waiting { elapsed_ms }
            && elapsed_ms + ms == timeout_ms),
{
}

/// The tunnel is alive, by a SOCKS proxy, exactly with a whole answer that says that the far end took
/// the connection or refused it.
pub proof fn law_when_a_proxy_shows_life(
    ev: &SocksEvent,
    ip: (u8, u8, u8, u8),
    port: u16,
    r: SocksAction,
)
    requires
        call_ensures(socks_probe, (ev, ip, port), r),
    ensures
        r is Alive <==> (*ev matches SocksEvent::Reply(b) && whole_reply(b@) && b@[0] == 5 && (b@[1]
            == 0 || b@[1] == 5)),
        *ev is Failed ==> r is Dead,
        *ev is Connected ==> r is Send,
        *ev matches SocksEvent::Method(v, m) ==> (r is Send <==> v == 5 && m == 0) && (r is Dead
            <==> !(v == 5 && m == 0)),
{
}

} // verus!
