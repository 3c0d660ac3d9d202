//! Configuration, runtime state and file layout.

use vstd::prelude::*;

use crate::outside;
use crate::text;

verus! {

pub const ONLINE_ICON: &'static str = "󰌘";

pub const OFFLINE_ICON: &'static str = "󰌙";

pub const RECONNECTING_ICON: &'static str = "󰑐";

pub const DELAY_ICON: &'static str = "󱎫";

pub const PORT_ICON: &'static str = "󰤨";

/// The icons of the segments of the status capsule (Nerd Font glyphs from the private use
/// area). An icon that is not set falls back to its default.
#[derive(Debug, Clone)]
pub struct PromptConfig {
    pub online_icon: Option<String>,
    pub offline_icon: Option<String>,
    pub reconnecting_icon: Option<String>,
    pub delay_icon: Option<String>,
    pub port_icon: Option<String>,
}

/// The text of an icon, or its default where none is set.
pub open spec fn icon_or(icon: Option<String>, default: Seq<char>) -> Seq<char> {
    match icon {
        Some(s) => s@,
        None => default,
    }
}

impl Default for PromptConfig {
    fn default() -> (r: Self)
        ensures
            text::opt_text(r.online_icon) == Some(ONLINE_ICON@),
            text::opt_text(r.offline_icon) == Some(OFFLINE_ICON@),
            text::opt_text(r.reconnecting_icon) == Some(RECONNECTING_ICON@),
            text::opt_text(r.delay_icon) == Some(DELAY_ICON@),
            text::opt_text(r.port_icon) == Some(PORT_ICON@),
    {
        PromptConfig {
            online_icon: Some(ONLINE_ICON.to_owned()),
            offline_icon: Some(OFFLINE_ICON.to_owned()),
            reconnecting_icon: Some(RECONNECTING_ICON.to_owned()),
            delay_icon: Some(DELAY_ICON.to_owned()),
            port_icon: Some(PORT_ICON.to_owned()),
        }
    }
}

impl PromptConfig {
    /// The icon of the online segment.
    pub fn online(&self) -> (r: &str)
        ensures
            r@ == icon_or(self.online_icon, ONLINE_ICON@),
    {
        match &self.online_icon {
            Some(s) => s.as_str(),
            None => ONLINE_ICON,
        }
    }

    /// The icon of the offline segment.
    pub fn offline(&self) -> (r: &str)
        ensures
            r@ == icon_or(self.offline_icon, OFFLINE_ICON@),
    {
        match &self.offline_icon {
            Some(s) => s.as_str(),
            None => OFFLINE_ICON,
        }
    }

    /// The icon of the reconnecting segment.
    pub fn reconnecting(&self) -> (r: &str)
        ensures
            r@ == icon_or(self.reconnecting_icon, RECONNECTING_ICON@),
    {
        match &self.reconnecting_icon {
            Some(s) => s.as_str(),
            None => RECONNECTING_ICON,
        }
    }

    /// The icon of the delay segment.
    pub fn delay(&self) -> (r: &str)
        ensures
            r@ == icon_or(self.delay_icon, DELAY_ICON@),
    {
        match &self.delay_icon {
            Some(s) => s.as_str(),
            None => DELAY_ICON,
        }
    }

    /// The icon of the port segment.
    pub fn port(&self) -> (r: &str)
        ensures
            r@ == icon_or(self.port_icon, PORT_ICON@),
    {
        match &self.port_icon {
            Some(s) => s.as_str(),
            None => PORT_ICON,
        }
    }
}

/// The `tun:` section of the configuration.
#[derive(Debug, Clone)]
pub struct TunConfig {
    /// Domain suffixes that are resolved by the VPN's DNS server while the tunnel is up.
    /// Empty: no resolver file is written.
    pub dns_suffixes: Vec<String>,
}

impl Default for TunConfig {
    fn default() -> (r: Self)
        ensures
            r.dns_suffixes@.len() == 0,
    {
        TunConfig { dns_suffixes: Vec::new() }
    }
}

/// How the tunnel is used: behind a local proxy port, or transparently through a network
/// interface.
#[derive(Debug, Clone, Copy, PartialEq, Eq, Structural)]
pub enum Mode {
    Proxy,
    Tun,
}

impl Default for Mode {
    fn default() -> (r: Self)
        ensures
            r == Mode::Proxy,
    {
        Mode::Proxy
    }
}

/// The contents of `~/.config/easy-proxy/config.yaml`.
#[derive(Debug, Clone)]
pub struct AppConfig {
    pub server: String,
    pub port: u16,
    pub username: String,
    pub mixed_port: u16,
    pub prompt: PromptConfig,
    /// A shell command that prints the SMS code. Without it the code is typed in.
    pub sms_command: Option<String>,
    /// How often fetching a code is tried again: there are `1 + sms_retries` rounds.
    pub sms_retries: u32,
    /// Seconds to wait before each round after the first.
    pub sms_retry_interval_secs: u32,
    /// Seconds between two health checks.
    pub healthcheck_interval: u64,
    /// So many failed health checks in a row count as a lost connection.
    pub healthcheck_fail_threshold: u32,
    /// Seconds that have to pass after the last SMS before a silent login may cause another.
    pub silent_relogin_interval: u64,
    pub tun: TunConfig,
}

/// The default of `port`.
pub fn default_https_port() -> (r: u16)
    ensures
        r == 443,
{
    443
}

/// The default of `mixed_port`.
pub fn default_mixed_port() -> (r: u16)
    ensures
        r == 7899,
{
    7899
}

/// The default of `sms_retries`.
pub fn default_sms_retries() -> (r: u32)
    ensures
        r == 1,
{
    1
}

/// The default of `sms_retry_interval_secs`.
pub fn default_sms_retry_interval_secs() -> (r: u32)
    ensures
        r == 30,
{
    30
}

/// The default of `healthcheck_interval`.
pub fn default_healthcheck_interval() -> (r: u64)
    ensures
        r == 60,
{
    60
}

/// The default of `healthcheck_fail_threshold`.
pub fn default_healthcheck_fail_threshold() -> (r: u32)
    ensures
        r == 2,
{
    2
}

/// The default of `silent_relogin_interval`.
pub fn default_silent_relogin_interval() -> (r: u64)
    ensures
        r == 3600,
{
    3600
}

impl Default for AppConfig {
    fn default() -> (r: Self)
        ensures
            r.server@.len() == 0,
            r.port == 443,
            r.username@.len() == 0,
            r.mixed_port == 7899,
            text::opt_text(r.prompt.online_icon) == Some(ONLINE_ICON@),
            text::opt_text(r.prompt.offline_icon) == Some(OFFLINE_ICON@),
            text::opt_text(r.prompt.reconnecting_icon) == Some(RECONNECTING_ICON@),
            text::opt_text(r.prompt.delay_icon) == Some(DELAY_ICON@),
            text::opt_text(r.prompt.port_icon) == Some(PORT_ICON@),
            r.sms_command is None,
            r.sms_retries == 1,
            r.sms_retry_interval_secs == 30,
            r.healthcheck_interval == 60,
            r.healthcheck_fail_threshold == 2,
            r.silent_relogin_interval == 3600,
            r.tun.dns_suffixes@.len() == 0,
    {
        AppConfig {
            server: String::new(),
            port: default_https_port(),
            username: String::new(),
            mixed_port: default_mixed_port(),
            prompt: PromptConfig::default(),
            sms_command: None,
            sms_retries: default_sms_retries(),
            sms_retry_interval_secs: default_sms_retry_interval_secs(),
            healthcheck_interval: default_healthcheck_interval(),
            healthcheck_fail_threshold: default_healthcheck_fail_threshold(),
            silent_relogin_interval: default_silent_relogin_interval(),
            tun: TunConfig::default(),
        }
    }
}

/// The trimmed SMS command, where one is configured and is not blank.
pub open spec fn usable_command(command: Option<String>) -> Option<Seq<char>> {
    match command {
        Some(c) => if text::trim(c@).len() == 0 {
            None
        } else {
            Some(text::trim(c@))
        },
        None => None,
    }
}

impl AppConfig {
    /// The trimmed SMS command, where one is configured and is not blank.
    pub fn sms_command_text(&self) -> (r: Option<String>)
        ensures
            text::opt_text(r) == usable_command(self.sms_command),
    {
        match &self.sms_command {
            Some(c) => {
                let t = text::trimmed(c.as_str());
                if t.as_str().is_empty() {
                    None
                } else {
                    Some(t)
                }
            },
            None => None,
        }
    }
}

/// What the daemon is doing. Being offline is not a phase: it is the absence of a state file.
#[derive(Debug, Clone, Copy, PartialEq, Eq, Structural)]
pub enum Phase {
    Online,
    Reconnecting,
}

impl Default for Phase {
    fn default() -> (r: Self)
        ensures
            r == Phase::Reconnecting,
    {
        Phase::Reconnecting
    }
}

/// A reading of the clock in seconds since the Unix epoch; zero for a clock that stands
/// before it.
pub fn seconds_or_zero(reading: Option<u64>) -> (r: u64)
    ensures
        r == (match reading {
            Some(s) => s,
            None => 0,
        }),
{
    match reading {
        Some(s) => s,
        None => 0,
    }
}

/// The present time in seconds since the Unix epoch: a reading of the clock, or zero where the
/// clock stands before it.
pub fn now_unix() -> (r: u64)
    ensures
        exists|t: Option<u64>| #[trigger]
            call_ensures(outside::unix_seconds, (), t) && r == (match t {
                Some(s) => s,
                None => 0,
            }),
{
    seconds_or_zero(outside::unix_seconds())
}

/// Where to start reading a file of `len` bytes to get its last `max` bytes, or all of it
/// where it is shorter.
pub fn tail_start(len: u64, max: u64) -> (start: u64)
    ensures
        start + (if len < max {
            len
        } else {
            max
        }) == len,
{
    if len > max {
        len - max
    } else {
        0
    }
}

/// What the daemon writes down for the other commands to read.
#[derive(Debug, Clone)]
pub struct RuntimeState {
    pub phase: Phase,
    pub mode: Mode,
    pub daemon_pid: i32,
    pub port: u16,
    pub socks_upstream: String,
    pub http_upstream: String,
    pub server: String,
    pub tunnel_ip: String,
    /// The DNS server that the VPN hands out, the target of probes through the tunnel.
    pub vpn_dns: Option<String>,
    /// When the last SMS was sent.
    pub last_sms_sent: Option<u64>,
    pub error: Option<String>,
}

/// A runtime state with its strings taken as texts.
#[verifier::ext_equal]
pub struct RuntimeStateView {
    pub phase: Phase,
    pub mode: Mode,
    pub daemon_pid: i32,
    pub port: u16,
    pub socks_upstream: Seq<char>,
    pub http_upstream: Seq<char>,
    pub server: Seq<char>,
    pub tunnel_ip: Seq<char>,
    pub vpn_dns: Option<Seq<char>>,
    pub last_sms_sent: Option<u64>,
    pub error: Option<Seq<char>>,
}

impl View for RuntimeState {
    type V = RuntimeStateView;

    open spec fn view(&self) -> RuntimeStateView {
        RuntimeStateView {
            phase: self.phase,
            mode: self.mode,
            daemon_pid: self.daemon_pid,
            port: self.port,
            socks_upstream: self.socks_upstream@,
            http_upstream: self.http_upstream@,
            server: self.server@,
            tunnel_ip: self.tunnel_ip@,
            vpn_dns: text::opt_text(self.vpn_dns),
            last_sms_sent: self.last_sms_sent,
            error: text::opt_text(self.error),
        }
    }
}

impl Default for RuntimeState {
    fn default() -> (r: Self)
        ensures
            r.phase == Phase::Reconnecting,
            r.mode == Mode::Proxy,
            r.daemon_pid == 0,
            r.port == 0,
            r.socks_upstream@.len() == 0,
            r.http_upstream@.len() == 0,
            r.server@.len() == 0,
            r.tunnel_ip@.len() == 0,
            r.vpn_dns is None,
            r.last_sms_sent is None,
            r.error is None,
    {
        RuntimeState {
            phase: Phase::default(),
            mode: Mode::default(),
            daemon_pid: 0,
            port: 0,
            socks_upstream: String::new(),
            http_upstream: String::new(),
            server: String::new(),
            tunnel_ip: String::new(),
            vpn_dns: None,
            last_sms_sent: None,
            error: None,
        }
    }
}

/// Where everything lies, all of it under the home directory: configuration, data, runtime
/// state and cache each in a directory of its own. Paths are bytes, since a home directory need
/// not be text.
#[derive(Debug, Clone)]
pub struct Paths {
    pub config_dir: Vec<u8>,
    pub data_dir: Vec<u8>,
    pub zsh_functions_dir: Vec<u8>,
    pub state_dir: Vec<u8>,
    pub cache_dir: Vec<u8>,
    pub app_config: Vec<u8>,
    pub zju_bin: Vec<u8>,
    pub completion_file: Vec<u8>,
    pub completion_link: Vec<u8>,
    pub state: Vec<u8>,
    pub cookies: Vec<u8>,
    /// The cookie jar of silent logins: it can be thrown away, and is never the one of a
    /// login in the foreground.
    pub silent_cookies: Vec<u8>,
    pub daemon_log: Vec<u8>,
    pub tunnel_log: Vec<u8>,
    pub zshrc: Vec<u8>,
}

/// The byte between the parts of a path.
pub const SLASH: u8 = 47;

/// A relative path below a directory.
pub open spec fn below(dir: Seq<u8>, rel: Seq<char>) -> Seq<u8> {
    if dir.len() == 0 || dir.last() == SLASH {
        dir + vstd::utf8::encode_utf8(rel)
    } else {
        dir.push(SLASH) + vstd::utf8::encode_utf8(rel)
    }
}

/// A relative path below a directory.
fn joined_path(dir: &[u8], rel: &str) -> (r: Vec<u8>)
    ensures
        r@ == below(dir@, rel@),
{
    let n = dir.len();
    let mut out: Vec<u8> = Vec::new();
    out.extend_from_slice(dir);
    if n > 0 && dir[n - 1] != SLASH {
        out.push(SLASH);
    }
    let ghost head = out@;
    let tail = rel.as_bytes();
    out.extend_from_slice(tail);
    assert(out@ =~= head + tail@);
    assert(out@ =~= below(dir@, rel@));
    out
}

/// The home directory cannot be found.
#[derive(Debug, Clone, Copy, PartialEq, Eq, Structural)]
pub struct NoHome;

impl NoHome {
    /// The message shown for it.
    pub fn message(&self) -> (r: String)
        ensures
            r@ == "无法定位 HOME"@,
    {
        "无法定位 HOME".to_owned()
    }
}

impl Paths {
    /// The layout below a home directory.
    pub open spec fn laid_out(self, home: Seq<u8>) -> bool {
        &&& self.config_dir@ == below(home, ".config/easy-proxy"@)
        &&& self.data_dir@ == below(home, ".local/share/easy-proxy"@)
        &&& self.zsh_functions_dir@ == below(home, ".local/share/zsh/site-functions"@)
        &&& self.state_dir@ == below(home, ".local/state/easy-proxy"@)
        &&& self.cache_dir@ == below(home, ".cache/easy-proxy"@)
        &&& self.app_config@ == below(self.config_dir@, "config.yaml"@)
        &&& self.zju_bin@ == below(self.data_dir@, "zju-connect"@)
        &&& self.completion_file@ == below(self.data_dir@, "_easy-proxy"@)
        &&& self.completion_link@ == below(self.zsh_functions_dir@, "_easy-proxy"@)
        &&& self.state@ == below(self.state_dir@, "state.json"@)
        &&& self.cookies@ == below(self.state_dir@, ".cookies"@)
        &&& self.daemon_log@ == below(self.state_dir@, "daemon.log"@)
        &&& self.tunnel_log@ == below(self.state_dir@, "tunnel.log"@)
        &&& self.silent_cookies@ == below(self.cache_dir@, "silent.cookies"@)
        &&& self.zshrc@ == below(home, ".zshrc"@)
    }

    /// The layout below the given home directory.
    pub fn at(home: Option<Vec<u8>>) -> (r: Result<Paths, NoHome>)
        ensures
            match r {
                Ok(p) => home is Some && p.laid_out(home->0@),
                Err(_) => home is None,
            },
    {
        let home: Vec<u8> = match home {
            Some(h) => h,
            None => return Err(NoHome),
        };
        let config_dir = joined_path(&home, ".config/easy-proxy");
        let data_dir = joined_path(&home, ".local/share/easy-proxy");
        let zsh_functions_dir = joined_path(&home, ".local/share/zsh/site-functions");
        let state_dir = joined_path(&home, ".local/state/easy-proxy");
        let cache_dir = joined_path(&home, ".cache/easy-proxy");
        Ok(
            Paths {
                app_config: joined_path(&config_dir, "config.yaml"),
                zju_bin: joined_path(&data_dir, "zju-connect"),
                completion_file: joined_path(&data_dir, "_easy-proxy"),
                completion_link: joined_path(&zsh_functions_dir, "_easy-proxy"),
                state: joined_path(&state_dir, "state.json"),
                cookies: joined_path(&state_dir, ".cookies"),
                daemon_log: joined_path(&state_dir, "daemon.log"),
                tunnel_log: joined_path(&state_dir, "tunnel.log"),
                silent_cookies: joined_path(&cache_dir, "silent.cookies"),
                zshrc: joined_path(&home, ".zshrc"),
                config_dir,
                data_dir,
                zsh_functions_dir,
                state_dir,
                cache_dir,
            },
        )
    }

    /// The layout below the user's home directory; an error exactly where there is none.
    pub fn new() -> (r: Result<Paths, NoHome>)
        ensures
            exists|home: Option<Vec<u8>>| #[trigger]
                call_ensures(outside::home_dir, (), home) && match r {
                    Ok(p) => home is Some && p.laid_out(home->0@),
                    Err(_) => home is None,
                },
    {
        Paths::at(outside::home_dir())
    }
}

/// The cookie jar of silent logins is never the jar of a login in the foreground.
pub proof fn law_silent_jar_is_its_own(p: Paths, home: Seq<u8>)
    requires
        p.laid_out(home),
    ensures
        p.silent_cookies@ != p.cookies@,
{
    reveal_strlit(".cookies");
    reveal_strlit("silent.cookies");
    reveal_strlit(".local/state/easy-proxy");
    vstd::utf8::is_ascii_chars_encode_utf8(".cookies"@);
    vstd::utf8::is_ascii_chars_encode_utf8("silent.cookies"@);
    vstd::utf8::is_ascii_chars_encode_utf8(".local/state/easy-proxy"@);
    let a = p.silent_cookies@;
    let b = p.cookies@;
    let state = vstd::utf8::encode_utf8(".local/state/easy-proxy"@);
    assert(state[state.len() - 1] == 121);
    assert(p.state_dir@.last() == 121);
    assert(vstd::utf8::encode_utf8("silent.cookies"@)[5] == 116);
    assert(a[a.len() - 9] == 116);
    assert(b[b.len() - 9] == SLASH);
}

/// A path below a directory is the directory, one slash between, and the relative path; there is no
/// second slash where the directory ends in one.
pub proof fn law_paths_are_joined_by_one_slash(dir: Seq<u8>, rel: Seq<char>)
    ensures
        dir.len() > 0 && dir.last() == 47 ==> below(dir, rel) == dir + vstd::utf8::encode_utf8(rel),
        dir.len() > 0 && dir.last() != 47 ==> below(dir, rel) == dir + seq![47u8]
            + vstd::utf8::encode_utf8(rel),
{
    assert(dir.push(47) =~= dir + seq![47u8]);
}

/// Everything lies where it is documented, whatever the home directory is: the configuration, the
/// tunnel program and the completion, the state and the logs, and the two cookie jars.
pub proof fn law_where_everything_lies(p: Paths, home: Seq<u8>)
    requires
        p.laid_out(home),
    ensures
        p.app_config@ == below(below(home, ".config/easy-proxy"@), "config.yaml"@),
        p.zju_bin@ == below(below(home, ".local/share/easy-proxy"@), "zju-connect"@),
        p.completion_file@ == below(below(home, ".local/share/easy-proxy"@), "_easy-proxy"@),
        p.completion_link@ == below(
            below(home, ".local/share/zsh/site-functions"@),
            "_easy-proxy"@,
        ),
        p.state@ == below(below(home, ".local/state/easy-proxy"@), "state.json"@),
        p.cookies@ == below(below(home, ".local/state/easy-proxy"@), ".cookies"@),
        p.daemon_log@ == below(below(home, ".local/state/easy-proxy"@), "daemon.log"@),
        p.tunnel_log@ == below(below(home, ".local/state/easy-proxy"@), "tunnel.log"@),
        p.silent_cookies@ == below(below(home, ".cache/easy-proxy"@), "silent.cookies"@),
        p.zshrc@ == below(home, ".zshrc"@),
{
}

/// A command for codes counts exactly where it is configured and not blank, and then without the
/// white space around it.
pub proof fn law_which_command_counts(command: Option<String>)
    ensures
        usable_command(command) is Some <==> command is Some && !text::blank(command->0@),
        usable_command(command) is Some ==> usable_command(command) == Some(
            text::trim(command->0@),
        ),
{
    if command is Some {
        text::lemma_trim_of_blank(command->0@);
    }
}

/// An icon that is set is shown, and its default only where none is.
pub proof fn law_which_icon_is_shown(icon: Option<String>, default: Seq<char>)
    ensures
        icon is Some ==> icon_or(icon, default) == icon->0@,
        icon is None ==> icon_or(icon, default) == default,
{
}

/// The end of a file is read: as many bytes as asked for, and all of them where there are fewer.
pub proof fn law_how_much_of_a_file_is_read(len: u64, max: u64, start: u64)
    requires
        call_ensures(tail_start, (len, max), start),
    ensures
        start <= len,
        len - start <= max,
        len - start == max || start == 0,
{
}

/// The model of a state holds what the state holds, each part in its place.
pub proof fn law_the_model_of_a_state_is_faithful(st: RuntimeState)
    ensures
        st@.phase == st.phase && st@.mode == st.mode,
        st@.daemon_pid == st.daemon_pid && st@.port == st.port,
        st@.socks_upstream == st.socks_upstream@,
        st@.http_upstream == st.http_upstream@,
        st@.server == st.server@,
        st@.tunnel_ip == st.tunnel_ip@,
        st@.vpn_dns == text::opt_text(st.vpn_dns),
        st@.last_sms_sent == st.last_sms_sent,
        st@.error == text::opt_text(st.error),
{
}

} // verus!
