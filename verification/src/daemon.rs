//! What the background daemon computes: the command lines of the tunnel and of the helper, what
//! the log of the tunnel tells, how the tunnel is probed and waited for, and where connections
//! go. When each of these is called for is decided in [`crate::supervisor`].

use vstd::prelude::*;

use crate::decimal;
use crate::outside;
use crate::text;
use crate::tun;
use crate::words;
use crate::words::Arg;

verus! {

/// What the daemon is started with.
#[derive(Debug, Clone)]
pub struct ServeArgs {
    pub twfid: String,
    pub server: String,
    pub https_port: u16,
    pub mixed_port: u16,
    pub socks: String,
    pub http: String,
    /// When the last SMS was sent; zero for never.
    pub last_sms_sent: u64,
    /// Whether the tunnel runs in the transparent mode.
    pub tun: bool,
}

/// The arguments with their strings taken as texts.
#[verifier::ext_equal]
pub struct ServeArgsView {
    pub twfid: Seq<char>,
    pub server: Seq<char>,
    pub https_port: u16,
    pub mixed_port: u16,
    pub socks: Seq<char>,
    pub http: Seq<char>,
    pub last_sms_sent: u64,
    pub tun: bool,
}

impl View for ServeArgs {
    type V = ServeArgsView;

    open spec fn view(&self) -> ServeArgsView {
        ServeArgsView {
            twfid: self.twfid@,
            server: self.server@,
            https_port: self.https_port,
            mixed_port: self.mixed_port,
            socks: self.socks@,
            http: self.http@,
            last_sms_sent: self.last_sms_sent,
            tun: self.tun,
        }
    }
}

// ---------------------------------------------------------------------------------------
// Command lines

/// The arguments of the tunnel program.
pub open spec fn zju_words(a: ServeArgsView) -> Seq<Seq<char>> {
    seq![
        "-server"@,
        a.server,
        "-port"@,
        decimal::digits(a.https_port as nat),
        "-twf-id"@,
        a.twfid,
        "-disable-zju-config"@,
        "-skip-domain-resource"@,
        "-zju-dns-server"@,
        "auto"@,
        "-disable-multi-line"@,
        "-socks-bind"@,
        a.socks,
        "-http-bind"@,
        a.http,
    ]
}

/// The arguments of the tunnel program.
pub fn zju_args(a: &ServeArgs) -> (r: Vec<String>)
    ensures
        text::texts(r@) == zju_words(a@),
{
    let r: Vec<String> = vec![
        "-server".to_owned(),
        a.server.clone(),
        "-port".to_owned(),
        decimal::decimal(a.https_port as u64),
        "-twf-id".to_owned(),
        a.twfid.clone(),
        "-disable-zju-config".to_owned(),
        "-skip-domain-resource".to_owned(),
        "-zju-dns-server".to_owned(),
        "auto".to_owned(),
        "-disable-multi-line".to_owned(),
        "-socks-bind".to_owned(),
        a.socks.clone(),
        "-http-bind".to_owned(),
        a.http.clone(),
    ];
    assert(text::texts(r@) =~= zju_words(a@));
    r
}

/// The IPv4 addresses among those that a server name resolved to.
pub open spec fn ipv4_among(resolved: Seq<Seq<char>>) -> Set<Seq<char>> {
    resolved.to_set().filter(|t: Seq<char>| tun::ipv4(t) is Some)
}

/// The IPv4 addresses that a server name resolved to, in order and without repetition.
pub fn resolve_gateway_ips(resolved: &[String]) -> (r: Vec<String>)
    ensures
        text::ascending(text::texts(r@)),
        text::texts(r@).to_set() == ipv4_among(text::texts(resolved@)),
{
    let mut out: Vec<String> = Vec::new();
    let mut i: usize = 0;
    assert(text::texts(out@).to_set() =~= ipv4_among(text::texts(resolved@).take(0)));
    while i < resolved.len()
        invariant
            i <= resolved.len(),
            text::ascending(text::texts(out@)),
            text::texts(out@).to_set() == ipv4_among(text::texts(resolved@).take(i as int)),
        decreases resolved.len() - i,
    {
        let ghost all = text::texts(resolved@);
        let ghost held = ipv4_among(all.take(i as int));
        proof {
            assert(all.take(i + 1) =~= all.take(i as int).push(all[i as int]));
            text::lemma_to_set_push(all.take(i as int), all[i as int]);
        }
        if tun::valid_ipv4(&resolved[i]) {
            out = text::inserted(out, &resolved[i]);
            assert(ipv4_among(all.take(i + 1)) =~= held.insert(all[i as int]));
        } else {
            assert(ipv4_among(all.take(i + 1)) =~= held);
        }
        i += 1;
    }
    assert(text::texts(resolved@).take(i as int) =~= text::texts(resolved@));
    out
}

/// The line for the log on the addresses that are kept out of a tunnel before it starts.
pub open spec fn beforehand_text(ips: Seq<Seq<char>>) -> Seq<char> {
    if ips.len() == 0 {
        "启动前解析网关 IP 失败,跳过预豁免(隧道可能踩启动竞态)"@
    } else {
        "启动前预豁免网关 IP: "@ + text::join(ips, ","@)
    }
}

/// The line for the log on the addresses that are kept out of a tunnel before it starts.
pub fn beforehand_line(ips: &[String]) -> (r: String)
    ensures
        r@ == beforehand_text(text::texts(ips@)),
{
    if ips.len() == 0 {
        "启动前解析网关 IP 失败,跳过预豁免(隧道可能踩启动竞态)".to_owned()
    } else {
        let mut line = "启动前预豁免网关 IP: ".to_owned();
        line.append(&text::joined(ips, ","));
        line
    }
}

/// The command line that starts a tunnel through the helper.
pub open spec fn helper_words(a: ServeArgsView, twfid: Seq<char>, ips: Seq<Seq<char>>) -> Seq<
    Seq<char>,
> {
    let head = seq![
        "/usr/bin/sudo"@,
        "-n"@,
        tun::HELPER_PATH@,
        "start-tunnel"@,
        "--server"@,
        a.server,
        "--https-port"@,
        decimal::digits(a.https_port as nat),
        "--twfid"@,
        twfid,
        "--socks"@,
        a.socks,
        "--http"@,
        a.http,
    ];
    if ips.len() == 0 {
        head
    } else {
        head + seq!["--exempt-ips"@, text::join(ips, ","@)]
    }
}

/// The command line that starts the tunnel for a session. In the transparent mode it goes
/// through the helper, with the gateway's addresses that are to be kept out of the tunnel, and
/// only where every value may be handed to the helper.
pub fn tunnel_command(zju_bin: &[u8], args: &ServeArgs, twfid: &str, ips: &[String]) -> (r: Result<
    Vec<Arg>,
    tun::ServeError,
>)
    ensures
        !args.tun ==> (r matches Ok(w) && words::words(w@) == seq![words::Word::Path(zju_bin@)]
            + words::plain(zju_words((ServeArgsView { twfid: twfid@, ..args@ })))),
        args.tun ==> match r {
            Ok(w) => {
                &&& tun::server_ok(args.server@)
                &&& tun::twfid_ok(twfid@)
                &&& tun::bind_ok(args.socks@)
                &&& tun::bind_ok(args.http@)
                &&& words::words(w@) == words::plain(
                    helper_words(args@, twfid@, text::texts(ips@)),
                )
            },
            Err(tun::ServeError::Server(s)) => !tun::server_ok(args.server@) && s@
                == args.server@,
            Err(tun::ServeError::Twfid) => tun::server_ok(args.server@) && !tun::twfid_ok(twfid@),
            Err(tun::ServeError::Bind) => tun::server_ok(args.server@) && tun::twfid_ok(twfid@)
                && !(tun::bind_ok(args.socks@) && tun::bind_ok(args.http@)),
        },
{
    if args.tun {
        match tun::validate_serve(&args.server, twfid, &args.socks, &args.http) {
            Ok(_) => {},
            Err(e) => return Err(e),
        }
        let mut w: Vec<String> = vec![
            "/usr/bin/sudo".to_owned(),
            "-n".to_owned(),
            tun::HELPER_PATH.to_owned(),
            "start-tunnel".to_owned(),
            "--server".to_owned(),
            args.server.clone(),
            "--https-port".to_owned(),
            decimal::decimal(args.https_port as u64),
            "--twfid".to_owned(),
            twfid.to_owned(),
            "--socks".to_owned(),
            args.socks.clone(),
            "--http".to_owned(),
            args.http.clone(),
        ];
        if ips.len() > 0 {
            w.push("--exempt-ips".to_owned());
            w.push(text::joined(ips, ","));
        }
        assert(text::texts(w@) =~= helper_words(args@, twfid@, text::texts(ips@)));
        Ok(words::plain_words(w))
    } else {
        let a = ServeArgs {
            twfid: twfid.to_owned(),
            server: args.server.clone(),
            https_port: args.https_port,
            mixed_port: args.mixed_port,
            socks: args.socks.clone(),
            http: args.http.clone(),
            last_sms_sent: args.last_sms_sent,
            tun: args.tun,
        };
        let mut w: Vec<Arg> = vec![words::path_word(zju_bin)];
        let mut rest = words::plain_words(zju_args(&a));
        let ghost head = w@;
        let ghost tail = rest@;
        w.append(&mut rest);
        assert(words::words(w@) =~= words::words(head) + words::words(tail));
        assert(words::words(head) =~= seq![words::Word::Path(zju_bin@)]);
        Ok(w)
    }
}

// ---------------------------------------------------------------------------------------
// A tunnel that has come up in the transparent mode

/// Why a tunnel that has come up must not be used.
#[derive(Debug, Clone, Copy, PartialEq, Eq, Structural)]
pub enum GuardError {
    /// The server handed out no routes.
    NoRoutes,
    /// The default route points into a tunnel.
    DefaultRoute,
}

impl GuardError {
    /// The text of the message for an error.
    pub open spec fn text(self) -> Seq<char> {
        match self {
            GuardError::NoRoutes => "服务端未下发内网网段(tunnel.log 无 Add route to),TUN 不可用"@,
            GuardError::DefaultRoute => "默认路由指向 utun,违反分流不变量,回滚"@,
        }
    }

    /// The message for an error.
    pub fn message(&self) -> (r: String)
        ensures
            r@ == self.text(),
    {
        match self {
            GuardError::NoRoutes => {
                "服务端未下发内网网段(tunnel.log 无 Add route to),TUN 不可用".to_owned()
            },
            GuardError::DefaultRoute => "默认路由指向 utun,违反分流不变量,回滚".to_owned(),
        }
    }
}

/// The output of `route -n get default` names a tunnel interface.
pub open spec fn points_into_tunnel(route: Seq<char>) -> bool {
    exists|i: int|
        0 <= i < text::lines(route).len() && tun::names_utun(#[trigger] text::lines(route)[i])
}

/// Whether a tunnel that has come up may be used: its log tells of at least one route, and the
/// default route, where it could be read, does not point into a tunnel.
pub fn tun_guardrails(log: &str, default_route: Option<&str>) -> (r: Result<(), GuardError>)
    ensures
        r == (if tun::count_with(text::lines(log@), "Add route to"@) == 0 {
            Err::<(), GuardError>(GuardError::NoRoutes)
        } else if default_route is Some && points_into_tunnel(default_route->0@) {
            Err(GuardError::DefaultRoute)
        } else {
            Ok(())
        }),
{
    if tun::count_add_route(log) == 0 {
        return Err(GuardError::NoRoutes);
    }
    if let Some(out) = default_route {
        if tun::default_route_is_utun(out) {
            return Err(GuardError::DefaultRoute);
        }
    }
    Ok(())
}

/// The gateway's address where it is a valid one.
pub open spec fn exempt_target(gateway_ip: Option<Seq<char>>) -> Option<Seq<char>> {
    match gateway_ip {
        Some(ip) => if tun::ipv4(ip) is Some {
            Some(ip)
        } else {
            None
        },
        None => None,
    }
}

/// The address to keep out of the tunnel: the gateway's, where the log told a valid one.
pub fn tun_route_exempt(gateway_ip: &Option<String>) -> (r: Option<String>)
    ensures
        text::opt_text(r) == exempt_target(text::opt_text(*gateway_ip)),
{
    match gateway_ip {
        Some(ip) => if tun::valid_ipv4(ip) {
            Some(ip.clone())
        } else {
            None
        },
        None => None,
    }
}

/// The gateway's address, where the server is a name that is to be pinned to it.
pub open spec fn pin_target(gateway_ip: Option<Seq<char>>, server: Seq<char>) -> Option<
    Seq<char>,
> {
    if tun::ipv4(server) is Some {
        None
    } else {
        exempt_target(gateway_ip)
    }
}

/// The address to pin the server name to; none where the server is an address itself or the
/// log told no valid one.
pub fn tun_hosts_pin(gateway_ip: &Option<String>, server: &str) -> (r: Option<String>)
    ensures
        text::opt_text(r) == pin_target(text::opt_text(*gateway_ip), server@),
{
    if tun::valid_ipv4(server) {
        return None;
    }
    tun_route_exempt(gateway_ip)
}

/// The suffixes that pass the check, in their order.
pub open spec fn checked_suffixes(suffixes: Seq<Seq<char>>) -> Seq<Seq<char>>
    decreases suffixes.len(),
{
    if suffixes.len() == 0 {
        seq![]
    } else if tun::suffix_ok(suffixes.last()) {
        checked_suffixes(suffixes.drop_last()).push(suffixes.last())
    } else {
        checked_suffixes(suffixes.drop_last())
    }
}

/// The resolver entries to write: one for each checked suffix, where there is one and the
/// VPN's DNS server is known by a valid address.
pub open spec fn sync_plan(suffixes: Seq<Seq<char>>, vpn_dns: Option<Seq<char>>) -> Option<
    Seq<Seq<char>>,
> {
    let ok = checked_suffixes(suffixes);
    match exempt_target(vpn_dns) {
        Some(dns) => if ok.len() == 0 {
            None
        } else {
            Some(Seq::new(ok.len(), |i: int| tun::sync_pair(ok[i], dns)))
        },
        None => None,
    }
}

/// That a suffix is passed over.
pub open spec fn bad_suffix_text(suffix: Seq<char>) -> Seq<char> {
    "dns_suffixes 含非法项,跳过: "@ + suffix
}

/// A line for each suffix that does not pass the check, in their order.
pub open spec fn bad_suffix_texts(suffixes: Seq<Seq<char>>) -> Seq<Seq<char>>
    decreases suffixes.len(),
{
    if suffixes.len() == 0 {
        seq![]
    } else if tun::suffix_ok(suffixes.last()) {
        bad_suffix_texts(suffixes.drop_last())
    } else {
        bad_suffix_texts(suffixes.drop_last()).push(bad_suffix_text(suffixes.last()))
    }
}

/// That there is no DNS server for the resolver entries.
pub open spec fn no_resolver_text() -> Seq<char> {
    "未获得可用 VPN DNS,跳过 scoped resolver 配置(域名解析可走 7899 代理)"@
}

/// The lines for the log on the resolver entries: each suffix that is passed over, and, where
/// there are others, that they cannot be served for want of a DNS server.
pub open spec fn sync_texts(suffixes: Seq<Seq<char>>, vpn_dns: Option<Seq<char>>) -> Seq<
    Seq<char>,
> {
    if checked_suffixes(suffixes).len() > 0 && exempt_target(vpn_dns) is None {
        bad_suffix_texts(suffixes).push(no_resolver_text())
    } else {
        bad_suffix_texts(suffixes)
    }
}

/// The lines for the log on the resolver entries.
pub fn sync_lines(suffixes: &[String], vpn_dns: &Option<String>) -> (r: Vec<String>)
    ensures
        text::texts(r@) == sync_texts(text::texts(suffixes@), text::opt_text(*vpn_dns)),
{
    let mut lines: Vec<String> = Vec::new();
    let mut some = false;
    let mut i: usize = 0;
    let ghost all = text::texts(suffixes@);
    assert(text::texts(lines@) =~= bad_suffix_texts(all.take(0)));
    while i < suffixes.len()
        invariant
            i <= suffixes.len(),
            all == text::texts(suffixes@),
            text::texts(lines@) == bad_suffix_texts(all.take(i as int)),
            some == (checked_suffixes(all.take(i as int)).len() > 0),
        decreases suffixes.len() - i,
    {
        assert(all.take(i + 1).drop_last() =~= all.take(i as int));
        assert(all.take(i + 1).last() == suffixes@[i as int]@);
        if tun::valid_suffix(&suffixes[i]) {
            some = true;
        } else {
            let mut line = "dns_suffixes 含非法项,跳过: ".to_owned();
            line.append(&suffixes[i]);
            proof {
                text::lemma_texts_push(lines@, line);
            }
            lines.push(line);
        }
        i += 1;
    }
    assert(all.take(i as int) =~= all);
    if some && tun_route_exempt(vpn_dns).is_none() {
        let line = "未获得可用 VPN DNS,跳过 scoped resolver 配置(域名解析可走 7899 代理)".to_owned();
        proof {
            text::lemma_texts_push(lines@, line);
        }
        lines.push(line);
    }
    lines
}

/// The resolver entries to write.
pub fn tun_dns_sync(suffixes: &[String], vpn_dns: &Option<String>) -> (r: Option<Vec<String>>)
    ensures
        match r {
            Some(pairs) => sync_plan(text::texts(suffixes@), text::opt_text(*vpn_dns)) == Some(
                text::texts(pairs@),
            ),
            None => sync_plan(text::texts(suffixes@), text::opt_text(*vpn_dns)) is None,
        },
{
    let mut ok: Vec<&str> = Vec::new();
    let mut i: usize = 0;
    let ghost all = text::texts(suffixes@);
    assert(Seq::new(ok@.len(), |j: int| ok@[j]@) =~= checked_suffixes(all.take(0)));
    while i < suffixes.len()
        invariant
            i <= suffixes.len(),
            all == text::texts(suffixes@),
            Seq::new(ok@.len(), |j: int| ok@[j]@) == checked_suffixes(all.take(i as int)),
        decreases suffixes.len() - i,
    {
        assert(all.take(i + 1).drop_last() =~= all.take(i as int));
        assert(all.take(i + 1).last() == suffixes@[i as int]@);
        let ghost held = ok@;
        if tun::valid_suffix(&suffixes[i]) {
            ok.push(suffixes[i].as_str());
            assert(Seq::new(ok@.len(), |j: int| ok@[j]@) =~= Seq::new(
                held.len(),
                |j: int| held[j]@,
            ).push(suffixes@[i as int]@));
        }
        i += 1;
    }
    assert(all.take(i as int) =~= all);
    let ghost views = checked_suffixes(all);
    if ok.len() == 0 {
        return None;
    }
    match tun_route_exempt(vpn_dns) {
        Some(dns) => {
            let pairs = tun::dns_sync_pairs(&ok, &dns);
            assert(text::texts(pairs@) =~= Seq::new(
                views.len(),
                |j: int| tun::sync_pair(views[j], dns@),
            )) by {
                assert forall|j: int| 0 <= j < views.len() implies ok@[j]@ == views[j] by {
                    assert(Seq::new(ok@.len(), |k: int| ok@[k]@)[j] == ok@[j]@);
                }
            }
            Some(pairs)
        },
        None => None,
    }
}

// ---------------------------------------------------------------------------------------
// Keeping the session alive

/// The command line that tells the gateway that a session is still in use.
pub fn send_update_session(server: &str, port: u16, twfid: &str) -> (r: Vec<String>)
    ensures
        text::texts(r@) == seq![
            "/usr/bin/curl"@,
            "-sk"@,
            "-o"@,
            "/dev/null"@,
            "--max-time"@,
            "8"@,
            "-w"@,
            "%{http_code}"@,
            "-H"@,
            "Cookie: TWFID="@ + twfid@,
            "-H"@,
            "User-Agent: EasyConnect_Linux_Ubuntu"@,
            "https://"@ + server@ + ":"@ + decimal::digits(port as nat)
                + "/por/update_session.csp?apiversion=1&twfid="@ + twfid@,
        ],
{
    let mut url = "https://".to_owned();
    url.append(server);
    url.append(":");
    url.append(&decimal::decimal(port as u64));
    url.append("/por/update_session.csp?apiversion=1&twfid=");
    url.append(twfid);
    let mut cookie = "Cookie: TWFID=".to_owned();
    cookie.append(twfid);
    let ghost url_text = url@;
    let ghost cookie_text = cookie@;
    let r: Vec<String> = vec![
        "/usr/bin/curl".to_owned(),
        "-sk".to_owned(),
        "-o".to_owned(),
        "/dev/null".to_owned(),
        "--max-time".to_owned(),
        "8".to_owned(),
        "-w".to_owned(),
        "%{http_code}".to_owned(),
        "-H".to_owned(),
        cookie,
        "-H".to_owned(),
        "User-Agent: EasyConnect_Linux_Ubuntu".to_owned(),
        url,
    ];
    assert(text::texts(r@) =~= seq![
        "/usr/bin/curl"@,
        "-sk"@,
        "-o"@,
        "/dev/null"@,
        "--max-time"@,
        "8"@,
        "-w"@,
        "%{http_code}"@,
        "-H"@,
        cookie_text,
        "-H"@,
        "User-Agent: EasyConnect_Linux_Ubuntu"@,
        url_text,
    ]);
    r
}

/// Whether the gateway took the news: the status code that was printed is 200.
pub fn session_updated(printed: &str) -> (r: bool)
    ensures
        r == (text::trim(printed@) == "200"@),
{
    text::same_text(&text::trimmed(printed), "200")
}

// ---------------------------------------------------------------------------------------
// Probes

/// A probe of the tunnel.
#[derive(Debug, PartialEq, Eq)]
pub enum ProbePlan<T> {
    /// A DNS query by UDP to a port of an address behind the tunnel, for a name.
    UdpDns { ip: (u8, u8, u8, u8), port: u16, qname: T },
    /// A TCP connection to a host, past every proxy.
    Direct { host: T, port: u16 },
    /// A connection through a SOCKS proxy to a port of an address behind the tunnel.
    Socks { addr: T, ip: (u8, u8, u8, u8), port: u16 },
    /// A request for a server's start page through an HTTP proxy on a local port.
    Curl { port: u16, server: T },
}

impl View for ProbePlan<String> {
    type V = ProbePlan<Seq<char>>;

    open spec fn view(&self) -> ProbePlan<Seq<char>> {
        match *self {
            ProbePlan::UdpDns { ip, port, qname } => ProbePlan::UdpDns { ip, port, qname: qname@ },
            ProbePlan::Direct { host, port } => ProbePlan::Direct { host: host@, port },
            ProbePlan::Socks { addr, ip, port } => ProbePlan::Socks { addr: addr@, ip, port },
            ProbePlan::Curl { port, server } => ProbePlan::Curl { port, server: server@ },
        }
    }
}

/// The port of a DNS server.
pub const DNS_PORT: u16 = 53;

/// How often a probe is tried before it counts as failed.
pub const PROBE_TRIES: u32 = 2;

/// How long one try may take, in milliseconds.
pub const PROBE_TIMEOUT_MS: u64 = 3000;

/// The port number behind the last colon of an address; 1081 where there is none.
pub open spec fn port_of(addr: Seq<char>) -> int {
    match decimal::parse_unsigned(text::split(addr, ':').last(), u16::MAX as int) {
        Some(p) => p,
        None => 1081,
    }
}

/// The port of the HTTP proxy that the tunnel program offers.
pub fn http_upstream_port(http: &str) -> (r: u16)
    ensures
        r == port_of(http@),
{
    let pieces = text::split_chars(&text::chars_of(http), ':');
    proof {
        text::lemma_split_nonempty(http@, ':');
    }
    let last = &pieces[pieces.len() - 1];
    assert(text::texts(pieces@).last() == last@);
    match decimal::parse_number(last, u16::MAX as u64) {
        Some(p) => p as u16,
        None => 1081,
    }
}

/// The port of an address made of a host and a port number is that number.
pub proof fn law_port_of_address(host: Seq<char>, port: u16)
    ensures
        port_of(host + ":"@ + decimal::digits(port as nat)) == port,
{
    reveal_strlit(":");
    let d = decimal::digits(port as nat);
    decimal::lemma_digits_are_digits(port as nat);
    assert forall|i: int| 0 <= i < d.len() implies #[trigger] d[i] != ':' by {
        assert(text::is_digit(d[i]));
    }
    text::lemma_split_last(host, d, ':');
    assert(host + ":"@ + d =~= host.push(':') + d);
    decimal::lemma_parse_of_digits(port as nat, u16::MAX as int);
}

/// The address of the VPN's DNS server, where it is known and valid.
pub open spec fn dns_address(vpn_dns: Option<Seq<char>>) -> Option<(int, int, int, int)> {
    match vpn_dns {
        Some(d) => tun::ipv4(d),
        None => None,
    }
}

/// The bytes of an address.
pub open spec fn ip_bytes(v: (int, int, int, int)) -> (u8, u8, u8, u8) {
    (v.0 as u8, v.1 as u8, v.2 as u8, v.3 as u8)
}

/// How the tunnel is probed. In the transparent mode the query goes straight to the VPN's DNS
/// server, or to the gateway where none is known; otherwise through the SOCKS proxy, or
/// through the HTTP proxy to the gateway.
pub open spec fn probe_plan(a: ServeArgsView, vpn_dns: Option<Seq<char>>) -> ProbePlan<Seq<char>> {
    match dns_address(vpn_dns) {
        Some(v) => if a.tun {
            ProbePlan::UdpDns { ip: ip_bytes(v), port: DNS_PORT, qname: a.server }
        } else {
            ProbePlan::Socks { addr: a.socks, ip: ip_bytes(v), port: DNS_PORT }
        },
        None => if a.tun {
            ProbePlan::Direct { host: a.server, port: a.https_port }
        } else {
            ProbePlan::Curl { port: port_of(a.http) as u16, server: a.server }
        },
    }
}

/// How the tunnel is probed.
pub fn probe(args: &ServeArgs, vpn_dns: &Option<String>) -> (r: ProbePlan<String>)
    ensures
        r@ == probe_plan(args@, text::opt_text(*vpn_dns)),
{
    let ip: Option<(u8, u8, u8, u8)> = match vpn_dns {
        Some(d) => tun::parse_ipv4(d),
        None => None,
    };
    match ip {
        Some(ip) => if args.tun {
            ProbePlan::UdpDns { ip, port: DNS_PORT, qname: args.server.clone() }
        } else {
            ProbePlan::Socks { addr: args.socks.clone(), ip, port: DNS_PORT }
        },
        None => if args.tun {
            ProbePlan::Direct { host: args.server.clone(), port: args.https_port }
        } else {
            ProbePlan::Curl { port: http_upstream_port(&args.http), server: args.server.clone() }
        },
    }
}

/// What to do next about a probe.
#[derive(Debug, Clone, Copy, PartialEq, Eq, Structural)]
pub enum ProbeStep {
    /// Make one try, which may take so many milliseconds.
    Try { timeout_ms: u64 },
    /// It is over; `true` where the tunnel answered.
    Done(bool),
}

/// One step of a probe: how many tries were made so far, and whether the last of them was
/// answered. One answer is enough; without one there are two tries.
pub fn probe_step(tries: u32, answered: bool) -> (r: ProbeStep)
    ensures
        r == (if answered {
            ProbeStep::Done(true)
        } else if tries >= PROBE_TRIES {
            ProbeStep::Done(false)
        } else {
            ProbeStep::Try { timeout_ms: PROBE_TIMEOUT_MS }
        }),
{
    if answered {
        ProbeStep::Done(true)
    } else if tries >= PROBE_TRIES {
        ProbeStep::Done(false)
    } else {
        ProbeStep::Try { timeout_ms: PROBE_TIMEOUT_MS }
    }
}

/// In the transparent mode no probe goes through a proxy: what is sent to the gateway that way
/// would be turned back into the tunnel.
pub proof fn law_tun_probes_use_no_proxy(a: ServeArgsView, vpn_dns: Option<Seq<char>>)
    requires
        a.tun,
    ensures
        probe_plan(a, vpn_dns) is UdpDns || probe_plan(a, vpn_dns) is Direct,
{
}

// ---------------------------------------------------------------------------------------
// The mixed port and the route monitor

/// Where a client's connection is passed on to, by the first byte it sends: a SOCKS greeting
/// to the SOCKS proxy, anything else to the HTTP proxy. A client that sends nothing is
/// dropped.
pub fn relay(first: &[u8], socks: &str, http: &str) -> (r: Option<String>)
    ensures
        match r {
            Some(up) => first@.len() > 0 && up@ == (if first@[0] == 5 {
                socks@
            } else {
                http@
            }),
            None => first@.len() == 0,
        },
{
    if first.len() == 0 {
        return None;
    }
    if first[0] == 5 {
        Some(socks.to_owned())
    } else {
        Some(http.to_owned())
    }
}

/// A line of the route monitor that tells of a change of an interface or an address.
pub open spec fn route_event(line: Seq<char>) -> bool {
    ||| text::starts_with(line, "RTM_IFINFO"@)
    ||| text::starts_with(line, "RTM_NEWADDR"@)
    ||| text::starts_with(line, "RTM_DELADDR"@)
}

/// Whether a line of the route monitor tells of a change of an interface or an address. Routes
/// that come and go are everyday noise and do not count.
pub fn is_route_event(line: &str) -> (r: bool)
    ensures
        r == route_event(line@),
{
    text::begins(line, "RTM_IFINFO") || text::begins(line, "RTM_NEWADDR") || text::begins(
        line,
        "RTM_DELADDR",
    )
}

// ---------------------------------------------------------------------------------------
// Waiting for the tunnel

/// What the log of a tunnel that is ready tells: the client's address, the DNS server that the
/// VPN hands out, and the address of the gateway that was connected to.
#[derive(Debug, PartialEq, Eq)]
pub struct ReadyInfo<T> {
    pub ip: T,
    pub vpn_dns: Option<T>,
    pub gateway_ip: Option<T>,
}

impl View for ReadyInfo<String> {
    type V = ReadyInfo<Seq<char>>;

    open spec fn view(&self) -> ReadyInfo<Seq<char>> {
        ReadyInfo {
            ip: self.ip@,
            vpn_dns: text::opt_text(self.vpn_dns),
            gateway_ip: text::opt_text(self.gateway_ip),
        }
    }
}

pub const USE_DNS: &'static str = r"Use DNS server\s+([\d.]+)";

pub const SET_DNS: &'static str = r"Set DNS server:\s*([\d.]+)";

pub const CONNECTED_TO: &'static str = r"Socket: connected to:\s*([\d.]+):";

pub const CLIENT_IP: &'static str = r"Client IP:\s*([\d.]+)";

pub const YOUR_IP: &'static str = r"your IP:\s*([\d.]+)";

/// The first of two findings that is there.
pub open spec fn first_of(a: Option<Seq<char>>, b: Option<Seq<char>>) -> Option<Seq<char>> {
    match a {
        Some(x) => Some(x),
        None => b,
    }
}

/// The first of two findings that is there.
pub fn first_found(a: Option<String>, b: Option<String>) -> (r: Option<String>)
    ensures
        text::opt_text(r) == first_of(text::opt_text(a), text::opt_text(b)),
{
    match a {
        Some(x) => Some(x),
        None => b,
    }
}

/// The DNS server that the log tells of: one that the server handed out, else one that was
/// configured.
pub open spec fn vpn_dns_in(log: Seq<char>) -> Option<Seq<char>> {
    first_of(outside::regex_group(USE_DNS@, log), outside::regex_group(SET_DNS@, log))
}

/// The DNS server that the log tells of.
pub fn parse_vpn_dns(log: &str) -> (r: Option<String>)
    ensures
        text::opt_text(r) == vpn_dns_in(log@),
{
    first_found(outside::regex_first_group(log, USE_DNS), outside::regex_first_group(log, SET_DNS))
}

/// The address of the gateway that the log tells of.
pub fn parse_gateway_ip(log: &str) -> (r: Option<String>)
    ensures
        text::opt_text(r) == outside::regex_group(CONNECTED_TO@, log@),
{
    outside::regex_first_group(log, CONNECTED_TO)
}

/// The address that the log gives the client, under either of its two headings; empty where
/// there is none.
pub open spec fn client_ip_in(log: Seq<char>) -> Seq<char> {
    match first_of(outside::regex_group(CLIENT_IP@, log), outside::regex_group(YOUR_IP@, log)) {
        Some(ip) => ip,
        None => seq![],
    }
}

/// The finding, or an empty text where there is none.
pub fn found_or_empty(found: Option<String>) -> (r: String)
    ensures
        r@ == (match text::opt_text(found) {
            Some(t) => t,
            None => Seq::<char>::empty(),
        }),
{
    match found {
        Some(t) => t,
        None => String::new(),
    }
}

/// What the log of a tunnel that is ready tells.
pub fn ready_info(log: &str) -> (r: ReadyInfo<String>)
    ensures
        r@ == (ReadyInfo {
            ip: client_ip_in(log@),
            vpn_dns: vpn_dns_in(log@),
            gateway_ip: outside::regex_group(CONNECTED_TO@, log@),
        }),
{
    let ip = found_or_empty(
        first_found(
            outside::regex_first_group(log, CLIENT_IP),
            outside::regex_first_group(log, YOUR_IP),
        ),
    );
    ReadyInfo { ip, vpn_dns: parse_vpn_dns(log), gateway_ip: parse_gateway_ip(log) }
}

/// How waiting for a tunnel goes on.
#[derive(Debug, PartialEq, Eq)]
pub enum ReadyPoll<T> {
    Ready(ReadyInfo<T>),
    Failed(T),
    /// Look again after so many milliseconds.
    Sleep(u64),
}

/// How long a tunnel may take to become ready, in milliseconds.
pub const READY_TIMEOUT_MS: u64 = 30000;

/// How many bytes of the end of the tunnel's log are read: enough to hold the addresses at its
/// beginning behind thousands of routes.
pub const READY_WINDOW: u64 = 524288;

/// How many bytes of the end of the tunnel's log are shown where it failed.
pub const TAIL_BYTES: u64 = 1000;

/// One look at a tunnel that is starting: whether its program has ended (with what status),
/// what its log says, how long it has been waited for.
pub fn wait_socks_ready(
    exited: Option<&str>,
    log: &str,
    tail: &str,
    elapsed_ms: u64,
    timeout_ms: u64,
) -> (r: ReadyPoll<String>)
    ensures
        match exited {
            Some(status) => r matches ReadyPoll::Failed(m) && m@ == "zju-connect 启动即退出 ("@
                + status@ + ")\n"@ + tail@,
            None => if text::contains(log@, "SOCKS5 server listening"@) {
                r matches ReadyPoll::Ready(info) && info@ == (ReadyInfo {
                    ip: client_ip_in(log@),
                    vpn_dns: vpn_dns_in(log@),
                    gateway_ip: outside::regex_group(CONNECTED_TO@, log@),
                })
            } else if elapsed_ms >= timeout_ms {
                r matches ReadyPoll::Failed(m) && m@ == "等待 zju-connect SOCKS 就绪超时\n"@
                    + tail@
            } else {
                r == ReadyPoll::<String>::Sleep(300)
            },
        },
{
    if let Some(status) = exited {
        let mut m = "zju-connect 启动即退出 (".to_owned();
        m.append(status);
        m.append(")\n");
        m.append(tail);
        return ReadyPoll::Failed(m);
    }
    if text::has(log, "SOCKS5 server listening") {
        return ReadyPoll::Ready(ready_info(log));
    }
    if elapsed_ms >= timeout_ms {
        let mut m = "等待 zju-connect SOCKS 就绪超时\n".to_owned();
        m.append(tail);
        return ReadyPoll::Failed(m);
    }
    ReadyPoll::Sleep(300)
}

/// The time between two checks on the clock, in seconds: what is configured, but at least one.
pub fn check_interval(configured: u64) -> (r: u64)
    ensures
        r == (if configured == 0 {
            1
        } else {
            configured
        }),
{
    if configured == 0 {
        1
    } else {
        configured
    }
}

/// What has been seen while waiting for the network.
#[derive(Debug, Clone, Copy, PartialEq, Eq, Structural)]
pub enum GatewayEvent {
    /// A round begins; the daemon has been told to stop, or not.
    Round { shutdown: bool },
    /// A connection to the gateway was tried.
    Tried { connected: bool, elapsed_ms: u64 },
}

/// How waiting for the network goes on.
#[derive(Debug, Clone, Copy, PartialEq, Eq, Structural)]
pub enum GatewayStep {
    /// Try to connect to the gateway, for at most so many milliseconds.
    Connect(u64),
    /// Begin the next round after so many milliseconds.
    Sleep(u64),
    Done,
}

/// How long the network is waited for before recovery goes on without it, in milliseconds.
pub const GATEWAY_BUDGET_MS: u64 = 30000;

/// One step of waiting for the network: it ends when the gateway can be reached, when the time
/// is up, or when the daemon has been told to stop.
pub fn wait_gateway_reachable(ev: GatewayEvent, budget_ms: u64) -> (r: GatewayStep)
    ensures
        r == (match ev {
            GatewayEvent::Round { shutdown } => if shutdown {
                GatewayStep::Done
            } else {
                GatewayStep::Connect(3000)
            },
            GatewayEvent::Tried { connected, elapsed_ms } => if connected || elapsed_ms
                >= budget_ms {
                GatewayStep::Done
            } else {
                GatewayStep::Sleep(2000)
            },
        }),
{
    match ev {
        GatewayEvent::Round { shutdown } => if shutdown {
            GatewayStep::Done
        } else {
            GatewayStep::Connect(3000)
        },
        GatewayEvent::Tried { connected, elapsed_ms } => if connected || elapsed_ms >= budget_ms {
            GatewayStep::Done
        } else {
            GatewayStep::Sleep(2000)
        },
    }
}

// ---------------------------------------------------------------------------------------
// Laws of what the tunnel is started with

/// The tunnel program that reads its arguments connects to the configured server and port with the
/// session, offers its proxies at the configured addresses, and takes its DNS server from the
/// gateway; neither its built-in configuration nor resources by name nor several lines are used.
#[verifier::spinoff_prover]
#[verifier::rlimit(60)]
pub proof fn law_the_tunnel_program_reads_its_arguments(a: ServeArgsView)
    ensures
        ({
            let w = zju_words(a);
            let alone = seq![
                "-disable-zju-config"@,
                "-skip-domain-resource"@,
                "-disable-multi-line"@,
            ];
            &&& words::option_value(w, alone, "-server"@) == Some(a.server)
            &&& words::option_value(w, alone, "-port"@) matches Some(t) && decimal::parse_unsigned(
                t,
                u16::MAX as int,
            ) == Some(a.https_port as int)
            &&& words::option_value(w, alone, "-twf-id"@) == Some(a.twfid)
            &&& words::option_value(w, alone, "-zju-dns-server"@) == Some("auto"@)
            &&& words::option_value(w, alone, "-socks-bind"@) == Some(a.socks)
            &&& words::option_value(w, alone, "-http-bind"@) == Some(a.http)
            &&& words::option_named(w, alone, "-disable-zju-config"@)
            &&& words::option_named(w, alone, "-skip-domain-resource"@)
            &&& words::option_named(w, alone, "-disable-multi-line"@)
            &&& w.len() == 15
        }),
{
    reveal_strlit("-server");
    reveal_strlit("-port");
    reveal_strlit("-twf-id");
    reveal_strlit("-disable-zju-config");
    reveal_strlit("-skip-domain-resource");
    reveal_strlit("-zju-dns-server");
    reveal_strlit("-disable-multi-line");
    reveal_strlit("-socks-bind");
    reveal_strlit("-http-bind");
    assert("-server"@.len() == 7 && "-port"@.len() == 5 && "-twf-id"@.len() == 7);
    assert("-disable-zju-config"@.len() == 19 && "-skip-domain-resource"@.len() == 21);
    assert("-zju-dns-server"@.len() == 15 && "-disable-multi-line"@.len() == 19);
    assert("-socks-bind"@.len() == 11 && "-http-bind"@.len() == 10);
    assert("-server"@[1] != "-twf-id"@[1]);
    assert("-disable-zju-config"@[9] != "-disable-multi-line"@[9]);
    decimal::lemma_parse_of_digits(a.https_port as nat, u16::MAX as int);
    let port = decimal::digits(a.https_port as nat);
    let alone = seq![
        "-disable-zju-config"@,
        "-skip-domain-resource"@,
        "-disable-multi-line"@,
    ];
    assert(alone[0] == "-disable-zju-config"@ && alone[1] == "-skip-domain-resource"@);
    assert(alone[2] == "-disable-multi-line"@);
    let r9 = Seq::<Seq<char>>::empty();
    let r8 = seq!["-http-bind"@, a.http] + r9;
    let r7 = seq!["-socks-bind"@, a.socks] + r8;
    let r6 = seq!["-disable-multi-line"@] + r7;
    let r5 = seq!["-zju-dns-server"@, "auto"@] + r6;
    let r4 = seq!["-skip-domain-resource"@] + r5;
    let r3 = seq!["-disable-zju-config"@] + r4;
    let r2 = seq!["-twf-id"@, a.twfid] + r3;
    let r1 = seq!["-port"@, port] + r2;
    let r0 = seq!["-server"@, a.server] + r1;
    assert(zju_words(a) =~= r0);
    words::lemma_option_with_value(r8, "-http-bind"@, a.http, r9, alone);
    words::lemma_option_with_value(r7, "-socks-bind"@, a.socks, r8, alone);
    words::lemma_option_alone(r6, "-disable-multi-line"@, r7, alone);
    words::lemma_option_with_value(r5, "-zju-dns-server"@, "auto"@, r6, alone);
    words::lemma_option_alone(r4, "-skip-domain-resource"@, r5, alone);
    words::lemma_option_alone(r3, "-disable-zju-config"@, r4, alone);
    words::lemma_option_with_value(r2, "-twf-id"@, a.twfid, r3, alone);
    words::lemma_option_with_value(r1, "-port"@, port, r2, alone);
    words::lemma_option_with_value(r0, "-server"@, a.server, r1, alone);
    assert(words::option_value(r7, alone, "-http-bind"@) == Some(a.http));
    assert(words::option_value(r4, alone, "-http-bind"@) == Some(a.http));
    assert(words::option_value(r4, alone, "-socks-bind"@) == Some(a.socks));
    assert(words::option_value(r4, alone, "-zju-dns-server"@) == Some("auto"@));
    assert(words::option_value(r2, alone, "-http-bind"@) == Some(a.http));
    assert(words::option_value(r2, alone, "-socks-bind"@) == Some(a.socks));
    assert(words::option_value(r2, alone, "-zju-dns-server"@) == Some("auto"@));
    assert(words::option_named(r4, alone, "-disable-multi-line"@));
    assert(words::option_named(r2, alone, "-disable-multi-line"@));
    assert(words::option_named(r2, alone, "-skip-domain-resource"@));
}

/// The helper is called by `sudo`, which never asks, for its command that starts a tunnel. Reading
/// its options it finds the server and its port, the session and the two addresses; and it finds
/// the addresses to keep out of the tunnel, each of them and in their order, where there are any.
#[verifier::spinoff_prover]
#[verifier::rlimit(60)]
pub proof fn law_the_helper_reads_its_arguments(
    a: ServeArgsView,
    twfid: Seq<char>,
    ips: Seq<Seq<char>>,
)
    requires
        forall|i: int| 0 <= i < ips.len() ==> tun::ipv4(#[trigger] ips[i]) is Some,
    ensures
        ({
            let all = helper_words(a, twfid, ips);
            let options = all.skip(4);
            let alone = Seq::<Seq<char>>::empty();
            &&& all.take(4) == seq![
                "/usr/bin/sudo"@,
                "-n"@,
                "/usr/local/libexec/easy-proxy/ep-tun-helper"@,
                "start-tunnel"@,
            ]
            &&& words::option_value(options, alone, "--server"@) == Some(a.server)
            &&& words::option_value(options, alone, "--https-port"@) matches Some(t)
                && decimal::parse_unsigned(t, u16::MAX as int) == Some(a.https_port as int)
            &&& words::option_value(options, alone, "--twfid"@) == Some(twfid)
            &&& words::option_value(options, alone, "--socks"@) == Some(a.socks)
            &&& words::option_value(options, alone, "--http"@) == Some(a.http)
            &&& match words::option_value(options, alone, "--exempt-ips"@) {
                Some(t) => ips.len() > 0 && text::split(t, ',') == ips,
                None => ips.len() == 0,
            }
        }),
{
    reveal_strlit("--server");
    reveal_strlit("--https-port");
    reveal_strlit("--twfid");
    reveal_strlit("--socks");
    reveal_strlit("--http");
    reveal_strlit("--exempt-ips");
    reveal_strlit(",");
    assert("--server"@.len() == 8 && "--https-port"@.len() == 12 && "--twfid"@.len() == 7);
    assert("--socks"@.len() == 7 && "--http"@.len() == 6 && "--exempt-ips"@.len() == 12);
    assert("--https-port"@[2] != "--exempt-ips"@[2]);
    assert("--twfid"@[2] != "--socks"@[2]);
    assert(","@ =~= seq![',']);
    decimal::lemma_parse_of_digits(a.https_port as nat, u16::MAX as int);
    let port = decimal::digits(a.https_port as nat);
    let list = text::join(ips, ","@);
    let alone = Seq::<Seq<char>>::empty();
    let r6 = Seq::<Seq<char>>::empty();
    let r5 = if ips.len() == 0 {
        r6
    } else {
        seq!["--exempt-ips"@, list] + r6
    };
    let r4 = seq!["--http"@, a.http] + r5;
    let r3 = seq!["--socks"@, a.socks] + r4;
    let r2 = seq!["--twfid"@, twfid] + r3;
    let r1 = seq!["--https-port"@, port] + r2;
    let r0 = seq!["--server"@, a.server] + r1;
    let all = helper_words(a, twfid, ips);
    assert(all.skip(4) =~= r0);
    assert(all.take(4) =~= seq![
        "/usr/bin/sudo"@,
        "-n"@,
        "/usr/local/libexec/easy-proxy/ep-tun-helper"@,
        "start-tunnel"@,
    ]);
    if ips.len() > 0 {
        words::lemma_option_with_value(r5, "--exempt-ips"@, list, r6, alone);
        assert forall|i: int| 0 <= i < ips.len() implies text::free_of(#[trigger] ips[i], ',') by {
            lemma_addresses_have_no(ips[i], ',');
        }
        text::law_splitting_undoes_joining(ips, ',');
    }
    words::lemma_option_with_value(r4, "--http"@, a.http, r5, alone);
    words::lemma_option_with_value(r3, "--socks"@, a.socks, r4, alone);
    words::lemma_option_with_value(r2, "--twfid"@, twfid, r3, alone);
    words::lemma_option_with_value(r1, "--https-port"@, port, r2, alone);
    words::lemma_option_with_value(r0, "--server"@, a.server, r1, alone);
    assert(words::option_value(r3, alone, "--http"@) == Some(a.http));
    assert(words::option_value(r3, alone, "--exempt-ips"@) == words::option_value(
        r5,
        alone,
        "--exempt-ips"@,
    ));
}

/// An address holds digits and dots only.
proof fn lemma_addresses_have_no(ip: Seq<char>, c: char)
    requires
        tun::ipv4(ip) is Some,
        c != '.',
        !text::is_digit(c),
    ensures
        text::free_of(ip, c),
{
    text::law_joining_undoes_splitting(ip, '.');
    let p = text::split(ip, '.');
    assert forall|i: int| 0 <= i < p.len() implies text::free_of(#[trigger] p[i], c) by {
        assert(tun::octet(p[i]) is Some);
        assert forall|j: int| 0 <= j < p[i].len() implies #[trigger] p[i][j] != c by {
            assert(text::is_digit(p[i][j]));
        }
    }
    lemma_joined_have_no(p, seq!['.'], c);
}

proof fn lemma_joined_have_no(parts: Seq<Seq<char>>, sep: Seq<char>, c: char)
    requires
        forall|i: int| 0 <= i < parts.len() ==> text::free_of(#[trigger] parts[i], c),
        text::free_of(sep, c),
    ensures
        text::free_of(text::join(parts, sep), c),
    decreases parts.len(),
{
    if parts.len() == 1 {
        assert(text::free_of(parts[0], c));
    } else if parts.len() > 1 {
        let init = parts.drop_last();
        assert forall|i: int| 0 <= i < init.len() implies text::free_of(#[trigger] init[i], c) by {
            assert(text::free_of(parts[i], c));
        }
        lemma_joined_have_no(init, sep, c);
        assert(text::free_of(parts[parts.len() - 1], c));
    }
}

// ---------------------------------------------------------------------------------------
// Laws of the resolver entries

/// The suffixes that are used are those that pass the check, each of them and in their order; each
/// of the others has a line in the log, in their order too.
pub proof fn law_no_valid_suffix_is_dropped(suffixes: Seq<Seq<char>>)
    ensures
        checked_suffixes(suffixes) == suffixes.filter(|s: Seq<char>| tun::suffix_ok(s)),
        bad_suffix_texts(suffixes) == suffixes.filter(
            |s: Seq<char>| !tun::suffix_ok(s),
        ).map_values(|s: Seq<char>| "dns_suffixes 含非法项,跳过: "@ + s),
        forall|i: int|
            0 <= i < suffixes.len() && tun::suffix_ok(#[trigger] suffixes[i])
                ==> checked_suffixes(suffixes).contains(suffixes[i]),
        forall|j: int|
            0 <= j < checked_suffixes(suffixes).len() ==> tun::suffix_ok(
                #[trigger] checked_suffixes(suffixes)[j],
            ) && suffixes.contains(checked_suffixes(suffixes)[j]),
    decreases suffixes.len(),
{
    reveal(Seq::filter);
    let ok = checked_suffixes(suffixes);
    let bad = |s: Seq<char>| !tun::suffix_ok(s);
    let line = |s: Seq<char>| "dns_suffixes 含非法项,跳过: "@ + s;
    if suffixes.len() == 0 {
        assert(ok =~= suffixes);
        assert(bad_suffix_texts(suffixes) =~= suffixes.filter(bad).map_values(line));
    } else {
        let init = suffixes.drop_last();
        law_no_valid_suffix_is_dropped(init);
        let before = checked_suffixes(init);
        if !tun::suffix_ok(suffixes.last()) {
            assert(init.filter(bad).push(suffixes.last()).map_values(line) =~= init.filter(
                bad,
            ).map_values(line).push(line(suffixes.last())));
        } else {
            assert(ok[ok.len() - 1] == suffixes.last());
        }
        assert forall|i: int| 0 <= i < suffixes.len() && tun::suffix_ok(
            #[trigger] suffixes[i],
        ) implies ok.contains(suffixes[i]) by {
            if i < init.len() {
                assert(init[i] == suffixes[i]);
                let k = choose|k: int| 0 <= k < before.len() && before[k] == suffixes[i];
                assert(ok[k] == suffixes[i]);
            }
        }
        assert forall|j: int| 0 <= j < ok.len() implies tun::suffix_ok(#[trigger] ok[j])
            && suffixes.contains(ok[j]) by {
            if j < before.len() {
                assert(ok[j] == before[j]);
                assert(init.contains(before[j]));
                let k = choose|k: int| 0 <= k < init.len() && init[k] == before[j];
                assert(suffixes[k] == ok[j]);
            } else {
                assert(suffixes[suffixes.len() - 1] == ok[j]);
            }
        }
    }
}

/// Resolver entries are written exactly where the VPN's DNS server is known by a valid address and
/// at least one configured suffix passes the check. There is then one for each suffix that passes,
/// no more and no fewer, in their order; the helper, which takes an entry apart at its equals sign,
/// finds in each the suffix and the server.
#[verifier::spinoff_prover]
#[verifier::rlimit(60)]
pub proof fn law_every_valid_suffix_gets_an_entry(
    suffixes: Seq<Seq<char>>,
    vpn_dns: Option<Seq<char>>,
)
    ensures
        sync_plan(suffixes, vpn_dns) is Some <==> (vpn_dns matches Some(d) && tun::ipv4(d) is Some)
            && exists|i: int| 0 <= i < suffixes.len() && tun::suffix_ok(#[trigger] suffixes[i]),
        sync_plan(suffixes, vpn_dns) matches Some(pairs) ==> {
            let ok = suffixes.filter(|s: Seq<char>| tun::suffix_ok(s));
            &&& pairs.len() == ok.len()
            &&& forall|i: int|
                0 <= i < ok.len() ==> text::split(#[trigger] pairs[i], '=') == seq![
                    ok[i],
                    vpn_dns->0,
                ]
            &&& forall|i: int|
                0 <= i < suffixes.len() && tun::suffix_ok(#[trigger] suffixes[i])
                    ==> pairs.contains(suffixes[i] + "="@ + vpn_dns->0)
        },
{
    law_no_valid_suffix_is_dropped(suffixes);
    let ok = checked_suffixes(suffixes);
    if exists|i: int| 0 <= i < suffixes.len() && tun::suffix_ok(#[trigger] suffixes[i]) {
        let i = choose|i: int| 0 <= i < suffixes.len() && tun::suffix_ok(#[trigger] suffixes[i]);
        assert(ok.contains(suffixes[i]));
    }
    if ok.len() > 0 {
        assert(tun::suffix_ok(ok[0]) && suffixes.contains(ok[0]));
        let k = choose|k: int| 0 <= k < suffixes.len() && suffixes[k] == ok[0];
        assert(tun::suffix_ok(suffixes[k]));
    }
    if let Some(pairs) = sync_plan(suffixes, vpn_dns) {
        let d = vpn_dns->0;
        reveal_strlit("=");
        assert("="@ =~= seq!['=']);
        assert forall|i: int| 0 <= i < ok.len() implies text::split(#[trigger] pairs[i], '=')
            == seq![ok[i], d] by {
            let parts = seq![ok[i], d];
            assert(tun::suffix_ok(ok[i]));
            assert forall|j: int| 0 <= j < ok[i].len() implies #[trigger] ok[i][j] != '=' by {
                assert(tun::suffix_char(ok[i][j]));
            }
            assert(text::free_of(parts[0], '='));
            lemma_addresses_have_no(d, '=');
            assert(text::free_of(parts[1], '='));
            text::law_splitting_undoes_joining(parts, '=');
            assert(parts.drop_last() =~= seq![ok[i]]);
            assert(text::join(parts.drop_last(), seq!['=']) == ok[i]);
            assert(text::join(parts, seq!['=']) == ok[i] + seq!['='] + d);
        }
        assert forall|i: int| 0 <= i < suffixes.len() && tun::suffix_ok(
            #[trigger] suffixes[i],
        ) implies pairs.contains(suffixes[i] + "="@ + d) by {
            assert(ok.contains(suffixes[i]));
            let k = choose|k: int| 0 <= k < ok.len() && ok[k] == suffixes[i];
            assert(pairs[k] == suffixes[i] + "="@ + d);
        }
    }
}

/// The gateway is kept out of the tunnel exactly where the log told a valid address of it, and it
/// is that address; the server's name is pinned to the same address, unless the server is an
/// address itself.
pub proof fn law_the_gateway_is_what_the_log_told(gateway_ip: Option<Seq<char>>, server: Seq<char>)
    ensures
        exempt_target(gateway_ip) is Some <==> gateway_ip is Some && tun::ipv4(gateway_ip->0)
            is Some,
        exempt_target(gateway_ip) is Some ==> exempt_target(gateway_ip) == gateway_ip,
        pin_target(gateway_ip, server) is Some <==> gateway_ip is Some && tun::ipv4(gateway_ip->0)
            is Some && tun::ipv4(server) is None,
        pin_target(gateway_ip, server) is Some ==> pin_target(gateway_ip, server) == gateway_ip,
{
}

// ---------------------------------------------------------------------------------------
// Laws of the probes

/// A probe of a known DNS server goes to port 53 of the very address that its text spells: in the
/// transparent mode as a query for the server's name, else through the SOCKS proxy that the tunnel
/// program offers.
pub proof fn law_probes_reach_the_dns_server(a: ServeArgsView, w: u8, x: u8, y: u8, z: u8)
    ensures
        probe_plan(a, Some(tun::dotted(w, x, y, z))) == (if a.tun {
            ProbePlan::UdpDns { ip: (w, x, y, z), port: 53, qname: a.server }
        } else {
            ProbePlan::Socks { addr: a.socks, ip: (w, x, y, z), port: 53 }
        }),
{
    tun::law_written_addresses_are_read(w, x, y, z);
}

/// Where no DNS server is known, or what is known is no address, a probe goes to the gateway: in
/// the transparent mode straight to its port, else through the port of the HTTP proxy that the
/// tunnel program offers.
pub proof fn law_other_probes_reach_the_gateway(
    a: ServeArgsView,
    vpn_dns: Option<Seq<char>>,
    host: Seq<char>,
    port: u16,
)
    requires
        vpn_dns is None || tun::ipv4(vpn_dns->0) is None,
        a.http == host + ":"@ + decimal::digits(port as nat),
    ensures
        probe_plan(a, vpn_dns) == (if a.tun {
            ProbePlan::Direct { host: a.server, port: a.https_port }
        } else {
            ProbePlan::Curl { port, server: a.server }
        }),
{
    law_port_of_address(host, port);
}

/// An address behind whose last colon stands no port number has the port 1081.
pub proof fn law_addresses_without_a_port(host: Seq<char>, behind: Seq<char>)
    requires
        text::free_of(behind, ':'),
        decimal::parse_unsigned(behind, u16::MAX as int) is None,
    ensures
        port_of(host + ":"@ + behind) == 1081,
        port_of(behind) == 1081,
{
    reveal_strlit(":");
    text::lemma_split_last(host, behind, ':');
    assert(host + ":"@ + behind =~= host.push(':') + behind);
    text::law_splitting_undoes_joining(seq![behind], ':');
}

/// A line of the route monitor counts exactly where it begins with one of three marks: a change of
/// an interface, a new address, a removed address.
pub proof fn law_which_changes_count(line: Seq<char>)
    ensures
        route_event(line) <==> exists|rest: Seq<char>| #![trigger rest.len()]
            line == "RTM_IFINFO"@ + rest || line == "RTM_NEWADDR"@ + rest || line == "RTM_DELADDR"@
                + rest,
{
    if route_event(line) {
        let p = if text::starts_with(line, "RTM_IFINFO"@) {
            "RTM_IFINFO"@
        } else if text::starts_with(line, "RTM_NEWADDR"@) {
            "RTM_NEWADDR"@
        } else {
            "RTM_DELADDR"@
        };
        let rest = line.skip(p.len() as int);
        assert(rest.len() >= 0);
        assert(line =~= p + rest) by {
            assert(line.subrange(0, p.len() as int) == p);
        }
    }
    if exists|rest: Seq<char>| #![trigger rest.len()]
        line == "RTM_IFINFO"@ + rest || line == "RTM_NEWADDR"@ + rest || line == "RTM_DELADDR"@
            + rest {
        let rest = choose|rest: Seq<char>| #![trigger rest.len()]
            line == "RTM_IFINFO"@ + rest || line == "RTM_NEWADDR"@ + rest || line
                == "RTM_DELADDR"@ + rest;
        let p = if line == "RTM_IFINFO"@ + rest {
            "RTM_IFINFO"@
        } else if line == "RTM_NEWADDR"@ + rest {
            "RTM_NEWADDR"@
        } else {
            "RTM_DELADDR"@
        };
        assert(line.subrange(0, p.len() as int) =~= p);
    }
}

/// What the log of a tunnel tells goes by its own words: the DNS server that the gateway handed out
/// goes before one that was set, and the client's address under its first heading before the
/// second; there is none exactly where neither is there.
pub proof fn law_what_the_log_tells(log: Seq<char>)
    ensures
        ({
            let used = outside::regex_group(r"Use DNS server\s+([\d.]+)"@, log);
            let set = outside::regex_group(r"Set DNS server:\s*([\d.]+)"@, log);
            &&& used is Some ==> vpn_dns_in(log) == used
            &&& used is None ==> vpn_dns_in(log) == set
        }),
        ({
            let client = outside::regex_group(r"Client IP:\s*([\d.]+)"@, log);
            let yours = outside::regex_group(r"your IP:\s*([\d.]+)"@, log);
            &&& client matches Some(ip) ==> client_ip_in(log) == ip
            &&& client is None && yours is Some ==> client_ip_in(log) == yours->0
            &&& client is None && yours is None ==> client_ip_in(log).len() == 0
        }),
        CONNECTED_TO@ == r"Socket: connected to:\s*([\d.]+):"@,
{
}

/// The line on the addresses that are kept out of a tunnel names each of them, in their order.
pub proof fn law_addresses_are_told(ips: Seq<Seq<char>>)
    requires
        ips.len() > 0,
        forall|i: int| 0 <= i < ips.len() ==> tun::ipv4(#[trigger] ips[i]) is Some,
    ensures
        text::starts_with(beforehand_text(ips), "启动前预豁免网关 IP: "@),
        text::split(
            beforehand_text(ips).skip("启动前预豁免网关 IP: "@.len() as int),
            ',',
        ) == ips,
{
    reveal_strlit(",");
    assert(","@ =~= seq![',']);
    assert forall|i: int| 0 <= i < ips.len() implies text::free_of(#[trigger] ips[i], ',') by {
        lemma_addresses_have_no(ips[i], ',');
    }
    text::law_splitting_undoes_joining(ips, ',');
    let head = "启动前预豁免网关 IP: "@;
    let t = beforehand_text(ips);
    assert(t.subrange(0, head.len() as int) =~= head);
    assert(t.skip(head.len() as int) =~= text::join(ips, ","@));
}

// ---------------------------------------------------------------------------------------
// Laws of single decisions

/// A client that greets in the way of SOCKS, version five, reaches the SOCKS proxy, and any other
/// client that sends something the HTTP proxy; only one that sends nothing reaches neither.
pub proof fn law_where_connections_go(first: &[u8], socks: &str, http: &str, r: Option<String>)
    requires
        call_ensures(relay, (first, socks, http), r),
    ensures
        first@.len() == 0 <==> r is None,
        first@.len() > 0 && first@[0] == 5 ==> text::opt_text(r) == Some(socks@),
        first@.len() > 0 && first@[0] != 5 ==> text::opt_text(r) == Some(http@),
{
}

/// A tunnel may be used exactly where a line of its log tells of a route and no line of what is known
/// of the default route names a tunnel; where there is no route that is the complaint, whatever the
/// default route is.
pub proof fn law_which_tunnels_may_be_used(
    log: &str,
    default_route: Option<&str>,
    r: Result<(), GuardError>,
)
    requires
        call_ensures(tun_guardrails, (log, default_route), r),
    ensures
        ({
            let lines = text::lines(log@);
            let routed = exists|i: int|
                0 <= i < lines.len() && text::contains(#[trigger] lines[i], "Add route to"@);
            let captured = match default_route {
                Some(out) => exists|i: int|
                    0 <= i < text::lines(out@).len() && tun::names_utun(
                        #[trigger] text::lines(out@)[i],
                    ),
                None => false,
            };
            &&& r is Ok <==> routed && !captured
            &&& r == Err::<(), GuardError>(GuardError::NoRoutes) <==> !routed
            &&& r == Err::<(), GuardError>(GuardError::DefaultRoute) <==> routed && captured
        }),
{
    lemma_counted_routes(text::lines(log@));
}

proof fn lemma_counted_routes(lines: Seq<Seq<char>>)
    ensures
        tun::count_with(lines, "Add route to"@) > 0 <==> exists|i: int|
            0 <= i < lines.len() && text::contains(#[trigger] lines[i], "Add route to"@),
{
    tun::law_lines_are_counted(lines, "Add route to"@);
}

/// The gateway is told of the very session that is in use, in a cookie and in the address, at its
/// page for that; nothing but the status of the reply is printed, and only 200 counts.
#[verifier::spinoff_prover]
#[verifier::rlimit(60)]
pub proof fn law_how_a_session_is_kept_alive(
    server: &str,
    port: u16,
    twfid: &str,
    w: Vec<String>,
    printed: &str,
    taken: bool,
)
    requires
        call_ensures(send_update_session, (server, port, twfid), w),
        call_ensures(session_updated, (printed,), taken),
    ensures
        ({
            let t = text::texts(w@);
            let alone = seq!["-sk"@];
            &&& t[0] == "/usr/bin/curl"@
            &&& t.last() == "https://"@ + server@ + ":"@ + decimal::digits(port as nat)
                + "/por/update_session.csp?apiversion=1&twfid="@ + twfid@
            &&& t.contains("Cookie: TWFID="@ + twfid@)
            &&& t.contains("User-Agent: EasyConnect_Linux_Ubuntu"@)
            &&& words::option_value(t.skip(1), alone, "-o"@) == Some("/dev/null"@)
            &&& words::option_value(t.skip(1), alone, "--max-time"@) == Some("8"@)
            &&& words::option_value(t.skip(1), alone, "-w"@) == Some("%{http_code}"@)
            &&& words::option_value(t.skip(1), alone, "-H"@) == Some("Cookie: TWFID="@ + twfid@)
        }),
        taken <==> text::trim(printed@) == "200"@,
{
    reveal_strlit("-sk");
    reveal_strlit("-o");
    reveal_strlit("--max-time");
    reveal_strlit("-w");
    reveal_strlit("-H");
    assert("-sk"@.len() == 3 && "-o"@.len() == 2 && "--max-time"@.len() == 10);
    assert("-w"@.len() == 2 && "-H"@.len() == 2);
    assert("-o"@[1] != "-w"@[1] && "-o"@[1] != "-H"@[1] && "-w"@[1] != "-H"@[1]);
    let t = text::texts(w@);
    let alone = seq!["-sk"@];
    assert(alone[0] == "-sk"@);
    assert(t[9] == "Cookie: TWFID="@ + twfid@);
    assert(t[11] == "User-Agent: EasyConnect_Linux_Ubuntu"@);
    let r4 = t.skip(8);
    let r3 = t.skip(6);
    let r2 = t.skip(4);
    let r1 = t.skip(2);
    let r0 = t.skip(1);
    assert(r0 =~= seq!["-sk"@] + r1);
    assert(r1 =~= seq!["-o"@, "/dev/null"@] + r2);
    assert(r2 =~= seq!["--max-time"@, "8"@] + r3);
    assert(r3 =~= seq!["-w"@, "%{http_code}"@] + r4);
    assert(r4 =~= seq!["-H"@, "Cookie: TWFID="@ + twfid@] + t.skip(10));
    words::lemma_option_alone(r0, "-sk"@, r1, alone);
    words::lemma_option_with_value(r1, "-o"@, "/dev/null"@, r2, alone);
    words::lemma_option_with_value(r2, "--max-time"@, "8"@, r3, alone);
    words::lemma_option_with_value(r3, "-w"@, "%{http_code}"@, r4, alone);
    words::lemma_option_with_value(r4, "-H"@, "Cookie: TWFID="@ + twfid@, t.skip(10), alone);
}

/// A tunnel is ready exactly where its program still runs and its log says that the proxy listens;
/// it has failed where the program has ended, or where the time is up without that; in between it is
/// looked at again.
pub proof fn law_when_a_tunnel_is_ready(
    exited: Option<&str>,
    log: &str,
    tail: &str,
    elapsed_ms: u64,
    timeout_ms: u64,
    r: ReadyPoll<String>,
)
    requires
        call_ensures(wait_socks_ready, (exited, log, tail, elapsed_ms, timeout_ms), r),
    ensures
        ({
            let listens = text::contains(log@, "SOCKS5 server listening"@);
            &&& r is Ready <==> exited is None && listens
            &&& r is Failed <==> exited is Some || (!listens && elapsed_ms >= timeout_ms)
            &&& r is Sleep <==> exited is None && !listens && elapsed_ms < timeout_ms
            &&& r matches ReadyPoll::Ready(info) ==> info@.ip == client_ip_in(log@)
                && info@.vpn_dns == vpn_dns_in(log@) && info@.gateway_ip == outside::regex_group(
                r"Socket: connected to:\s*([\d.]+):"@,
                log@,
            )
        }),
{
}

/// A probe is tried at most twice: it goes on exactly while none of the tries was answered and fewer
/// than two were made, and what it ends with is whether one was answered.
pub proof fn law_a_probe_is_tried_twice(tries: u32, answered: bool, r: ProbeStep)
    requires
        call_ensures(probe_step, (tries, answered), r),
    ensures
        r is Try <==> !answered && tries < 2,
        r matches ProbeStep::Try { timeout_ms } ==> timeout_ms == 3000,
        !(r is Try) ==> r == ProbeStep::Done(answered),
{
}

/// Waiting for the network ends exactly where the gateway was reached, where the time is up, and,
/// before another try, where the daemon was told to stop.
pub proof fn law_when_waiting_for_the_network_ends(
    ev: GatewayEvent,
    budget_ms: u64,
    r: GatewayStep,
)
    requires
        call_ensures(wait_gateway_reachable, (ev, budget_ms), r),
    ensures
        r == GatewayStep::Done <==> match ev {
            GatewayEvent::Round { shutdown } => shutdown,
            GatewayEvent::Tried { connected, elapsed_ms } => connected || elapsed_ms >= budget_ms,
        },
        ev is Round && r != GatewayStep::Done ==> r is Connect,
        ev is Tried && r != GatewayStep::Done ==> r is Sleep,
{
}

/// The tunnel program itself is run in the ordinary mode, whatever the values are. In the
/// transparent mode the helper is run in its place, and exactly where every value passes its check.
pub proof fn law_what_starts_a_tunnel(
    zju_bin: &[u8],
    args: &ServeArgs,
    twfid: &str,
    ips: &[String],
    r: Result<Vec<Arg>, tun::ServeError>,
)
    requires
        call_ensures(tunnel_command, (zju_bin, args, twfid, ips), r),
    ensures
        !args.tun ==> (r matches Ok(w) && words::words(w@)[0] == words::Word::Path(zju_bin@)
            && words::words(w@).skip(1) == words::plain(
            zju_words((ServeArgsView { twfid: twfid@, ..args@ })),
        )),
        args.tun ==> (r is Ok <==> tun::server_ok(args.server@) && tun::twfid_ok(twfid@)
            && tun::bind_ok(args.socks@) && tun::bind_ok(args.http@)),
        args.tun && r is Ok ==> words::words(r->Ok_0@) == words::plain(
            helper_words(args@, twfid@, text::texts(ips@)),
        ),
{
    if !args.tun {
        if let Ok(w) = r {
            assert(words::words(w@).skip(1) =~= words::plain(
                zju_words((ServeArgsView { twfid: twfid@, ..args@ })),
            ));
        }
    }
}

/// The addresses that are kept out of a tunnel before it starts are the IPv4 addresses that the
/// server's name resolved to, each of them, once, and nothing else.
pub proof fn law_which_addresses_are_resolved(resolved: &[String], r: Vec<String>, ip: Seq<char>)
    requires
        call_ensures(resolve_gateway_ips, (resolved,), r),
    ensures
        text::texts(r@).contains(ip) <==> text::texts(resolved@).contains(ip) && tun::ipv4(ip)
            is Some,
        forall|i: int, j: int|
            0 <= i < j < r@.len() ==> text::before(
                #[trigger] text::texts(r@)[i],
                #[trigger] text::texts(r@)[j],
            ),
{
    assert(text::texts(r@).to_set().contains(ip) == text::texts(r@).contains(ip));
    assert(text::texts(resolved@).to_set().contains(ip) == text::texts(resolved@).contains(ip));
    assert(ipv4_among(text::texts(resolved@)).contains(ip) == (text::texts(
        resolved@,
    ).to_set().contains(ip) && tun::ipv4(ip) is Some));
}

/// What is wrong with a tunnel is told: that it has no routes, or that it captured the default route.
pub proof fn law_what_the_guards_say(e: GuardError)
    ensures
        e.text() == (match e {
            GuardError::NoRoutes => {
                "服务端未下发内网网段(tunnel.log 无 Add route to),TUN 不可用"@
            },
            GuardError::DefaultRoute => "默认路由指向 utun,违反分流不变量,回滚"@,
        }),
{
}

/// Each suffix that is passed over has its line.
pub proof fn lemma_bad_suffixes_are_told(suffixes: Seq<Seq<char>>, i: int)
    requires
        0 <= i < suffixes.len(),
        !tun::suffix_ok(suffixes[i]),
    ensures
        bad_suffix_texts(suffixes).contains("dns_suffixes 含非法项,跳过: "@ + suffixes[i]),
    decreases suffixes.len(),
{
    let init = suffixes.drop_last();
    let line = "dns_suffixes 含非法项,跳过: "@ + suffixes[i];
    let all = bad_suffix_texts(suffixes);
    if i < init.len() {
        lemma_bad_suffixes_are_told(init, i);
        let before = bad_suffix_texts(init);
        let k = choose|k: int| 0 <= k < before.len() && before[k] == line;
        assert(all[k] == line);
    } else {
        assert(all[all.len() - 1] == line);
    }
}

/// The models hold what the values hold, each part in its place.
pub proof fn law_the_models_are_faithful(
    a: ServeArgs,
    info: ReadyInfo<String>,
    plan: ProbePlan<String>,
)
    ensures
        a@.twfid == a.twfid@ && a@.server == a.server@,
        a@.https_port == a.https_port && a@.mixed_port == a.mixed_port,
        a@.socks == a.socks@ && a@.http == a.http@,
        a@.last_sms_sent == a.last_sms_sent && a@.tun == a.tun,
        info@.ip == info.ip@,
        info@.vpn_dns == text::opt_text(info.vpn_dns),
        info@.gateway_ip == text::opt_text(info.gateway_ip),
        match (plan, plan@) {
            (
                ProbePlan::UdpDns { ip, port, qname },
                ProbePlan::UdpDns { ip: i, port: p, qname: q },
            ) => i == ip && p == port && q == qname@,
            (ProbePlan::Direct { host, port }, ProbePlan::Direct { host: h, port: p }) => h == host@
                && p == port,
            (
                ProbePlan::Socks { addr, ip, port },
                ProbePlan::Socks { addr: a, ip: i, port: p },
            ) => a == addr@ && i == ip && p == port,
            (ProbePlan::Curl { port, server }, ProbePlan::Curl { port: p, server: s }) => p == port
                && s == server@,
            _ => false,
        },
{
}

/// That resolver entries cannot be written is told exactly where there is a suffix to write one for
/// and no valid address of a DNS server; it is told last, behind the suffixes that are passed over.
pub proof fn law_when_a_missing_server_is_told(
    suffixes: Seq<Seq<char>>,
    vpn_dns: Option<Seq<char>>,
)
    ensures
        ({
            let wanted = exists|i: int|
                0 <= i < suffixes.len() && tun::suffix_ok(#[trigger] suffixes[i]);
            let known = vpn_dns is Some && tun::ipv4(vpn_dns->0) is Some;
            let bad = suffixes.filter(|s: Seq<char>| !tun::suffix_ok(s)).map_values(
                |s: Seq<char>| "dns_suffixes 含非法项,跳过: "@ + s,
            );
            &&& wanted && !known ==> sync_texts(suffixes, vpn_dns) == bad.push(
                "未获得可用 VPN DNS,跳过 scoped resolver 配置(域名解析可走 7899 代理)"@,
            )
            &&& !wanted || known ==> sync_texts(suffixes, vpn_dns) == bad
        }),
{
    law_no_valid_suffix_is_dropped(suffixes);
    let ok = checked_suffixes(suffixes);
    if ok.len() > 0 {
        assert(tun::suffix_ok(ok[0]) && suffixes.contains(ok[0]));
        let k = choose|k: int| 0 <= k < suffixes.len() && suffixes[k] == ok[0];
        assert(tun::suffix_ok(suffixes[k]));
    }
    if exists|i: int| 0 <= i < suffixes.len() && tun::suffix_ok(#[trigger] suffixes[i]) {
        let i = choose|i: int| 0 <= i < suffixes.len() && tun::suffix_ok(#[trigger] suffixes[i]);
        assert(ok.contains(suffixes[i]));
    }
}

} // verus!
