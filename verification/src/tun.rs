//! The transparent mode: the root helper, what may be handed to it, and the checks that guard
//! a tunnel that has just come up.
//!
//! The helper is the only thing that runs as root. Its path is fixed, it knows a closed set of
//! commands, and it puts the tunnel's command line together itself: callers fill in values,
//! and only values that pass the checks of this module.

use vstd::prelude::*;

use crate::decimal;
use crate::text;

verus! {

pub const HELPER_DIR: &'static str = "/usr/local/libexec/easy-proxy";

pub const HELPER_PATH: &'static str = "/usr/local/libexec/easy-proxy/ep-tun-helper";

pub const ROOT_ZJU_PATH: &'static str = "/usr/local/libexec/easy-proxy/zju-connect";

pub const SUDOERS_PATH: &'static str = "/etc/sudoers.d/easy-proxy";

/// The text of the root helper.
pub const HELPER_SCRIPT: &'static str = r##"#!/bin/sh
# ep-tun-helper — easy-proxy TUN 模式 root helper(由 easy-proxy install --tun 安装)
# sudoers NOPASSWD 的唯一授权入口:子命令白名单 + 参数正则校验;
# zju-connect 命令行由本脚本固定拼装,外部只能填值、不能注入 flag。
set -eu

DIR="/usr/local/libexec/easy-proxy"
ZJU="$DIR/zju-connect"
PIDFILE="/var/run/easy-proxy-tun.pid"
EXEMPT_FILE="/var/run/easy-proxy-route-exempt"
RESOLVER_DIR="/etc/resolver"
MARKER="# managed by easy-proxy"
HOSTS_FILE="/etc/hosts"
HOSTS_MARKER="# easy-proxy-pin"

die() { echo "ep-tun-helper: $*" >&2; exit 1; }
match() { printf '%s' "$1" | grep -Eq "$2"; }

[ "$(id -u)" = "0" ] || die "需要 root(应经 sudo 调用)"

# 摘全部网关豁免主机路由(记录文件每行一个 IP),隧道停/清残留时调用
route_unexempt() {
  [ -f "$EXEMPT_FILE" ] || return 0
  while IFS= read -r ip; do
    if match "${ip:-}" '^[0-9]+\.[0-9]+\.[0-9]+\.[0-9]+$'; then
      /sbin/route -n delete -host "$ip" >/dev/null 2>&1 || true
    fi
  done < "$EXEMPT_FILE"
  rm -f "$EXEMPT_FILE"
}

# 钉一个网关豁免主机路由(幂等追加):到网关自身的流量必须走物理口。
# 失败只警告不致命——没有豁免时隧道仍能连上(~78s 后死,由看门狗自愈),比连不上强。
route_exempt_one() {
  ip="$1"
  gw=$(/sbin/route -n get default 2>/dev/null | awk '/gateway:/{print $2}')
  if ! match "${gw:-}" '^[0-9]+\.[0-9]+\.[0-9]+\.[0-9]+$'; then
    echo "ep-tun-helper: 取不到物理默认网关,跳过豁免 $ip" >&2
    return 0
  fi
  /sbin/route -n delete -host "$ip" >/dev/null 2>&1 || true
  if /sbin/route -n add -host "$ip" "$gw" >/dev/null 2>&1; then
    grep -qx "$ip" "$EXEMPT_FILE" 2>/dev/null || echo "$ip" >> "$EXEMPT_FILE"
  else
    echo "ep-tun-helper: 豁免路由添加失败: $ip -> $gw" >&2
  fi
  return 0
}

# 按 pidfile 停隧道:校验 pid 的可执行路径确为 root copy,防 pid 复用误杀
stop_tunnel() {
  [ -f "$PIDFILE" ] || return 0
  pid=$(cat "$PIDFILE" 2>/dev/null || true)
  if match "${pid:-}" '^[0-9]+$'; then
    comm=$(ps -p "$pid" -o comm= 2>/dev/null || true)
    if [ "$comm" = "$ZJU" ]; then
      kill "$pid" 2>/dev/null || true
      i=0
      while [ "$i" -lt 50 ] && kill -0 "$pid" 2>/dev/null; do sleep 0.1; i=$((i+1)); done
      if kill -0 "$pid" 2>/dev/null; then kill -9 "$pid" 2>/dev/null || true; fi
    fi
  fi
  rm -f "$PIDFILE"
}

# 摘 /etc/hosts 里的网关域名 pin(带行尾标记的行)。cat 重定向保 inode/权限。
hosts_unpin() {
  grep -q "$HOSTS_MARKER" "$HOSTS_FILE" 2>/dev/null || return 0
  tmp="/var/run/easy-proxy-hosts.$$"
  grep -v "$HOSTS_MARKER" "$HOSTS_FILE" > "$tmp" 2>/dev/null || true
  cat "$tmp" > "$HOSTS_FILE"
  rm -f "$tmp"
  return 0
}

# dns_clean 语义 = 清掉 easy-proxy 注入的一切域名解析改动(resolver 文件 + hosts pin),
# 恢复前与退出时共用:保证网关域名解析回到系统原生路径。
dns_clean() {
  hosts_unpin
  [ -d "$RESOLVER_DIR" ] || return 0
  for f in "$RESOLVER_DIR"/*; do
    [ -f "$f" ] || continue
    if [ "$(head -n 1 "$f" 2>/dev/null)" = "$MARKER" ]; then rm -f "$f"; fi
  done
  return 0
}

cmd="${1:-}"
if [ $# -gt 0 ]; then shift; fi

case "$cmd" in
  start-tunnel)
    server=""; https_port=""; twfid=""; socks=""; http=""; exempt_ips=""
    while [ $# -gt 0 ]; do
      case "$1" in
        --server)     server="$2";     shift 2 ;;
        --https-port) https_port="$2"; shift 2 ;;
        --twfid)      twfid="$2";      shift 2 ;;
        --socks)      socks="$2";      shift 2 ;;
        --http)       http="$2";       shift 2 ;;
        --exempt-ips) exempt_ips="$2"; shift 2 ;;
        *) die "未知参数: $1" ;;
      esac
    done
    match "$server" '^[A-Za-z0-9.-]+$'        || die "server 非法"
    match "$https_port" '^[0-9]+$'            || die "https-port 非法"
    match "$twfid" '^[A-Za-z0-9]+$'           || die "twfid 非法"
    match "$socks" '^127\.0\.0\.1:[0-9]+$'    || die "socks 非法"
    match "$http" '^127\.0\.0\.1:[0-9]+$'     || die "http 非法"
    if [ -n "$exempt_ips" ]; then
      match "$exempt_ips" '^[0-9]+\.[0-9]+\.[0-9]+\.[0-9]+(,[0-9]+\.[0-9]+\.[0-9]+\.[0-9]+)*$' || die "exempt-ips 非法"
    fi
    stop_tunnel
    # 网关豁免必须在 zju-connect 启动**之前**钉好:zju 的 L3 数据连接 dial 与
    # -add-route 批量加路由是并发竞速,路由先生效时 dial 源地址被绑到 utun 虚拟 IP,
    # SYN 进自己的 TUN 黑洞,~75s 超时 panic → 隧道 78s 必死(2026-07-29 真机抓包实锤:
    # SYN_SENT 源 2.0.1.44)。先钉豁免则 dial 恒走物理口,竞态消失。
    for eip in $(printf '%s' "$exempt_ips" | tr ',' ' '); do
      route_exempt_one "$eip"
    done
    echo "$$" > "$PIDFILE"
    # exec 不换 pid,pidfile 即隧道进程;stdout/stderr 继承调用方 fd(tunnel.log)
    exec "$ZJU" -server "$server" -port "$https_port" -twf-id "$twfid" \
      -tun-mode -add-route \
      -disable-zju-config -skip-domain-resource -zju-dns-server auto -disable-multi-line \
      -socks-bind "$socks" -http-bind "$http"
    ;;
  stop-tunnel)
    stop_tunnel
    route_unexempt
    ;;
  route-exempt)
    # 就绪后按实连 IP 补钉豁免(幂等追加,不清启动前已钉的解析 IP——update_session
    # 会重新解析域名,解析出的 IP 与实连 IP 都必须保持豁免)。
    [ $# -gt 0 ] || die "route-exempt 需要至少一个 ip"
    for ip in "$@"; do
      match "$ip" '^[0-9]+\.[0-9]+\.[0-9]+\.[0-9]+$' || die "ip 非法: $ip"
      route_exempt_one "$ip"
    done
    ;;
  hosts-pin)
    # 网关域名 pin 进 /etc/hosts(实连 IP):运行期 zju 重建连接/会话保活都要重新
    # 解析网关域名,而 scoped resolver 的快照 DNS 可能解析不出它(2026-07-29 真机:
    # 豁免条目指向 114 → lookup no such host → panic)。hosts 优先于一切 DNS,连根解决。
    ip="${1:-}"; domain="${2:-}"
    match "$ip" '^[0-9]+\.[0-9]+\.[0-9]+\.[0-9]+$' || die "ip 非法"
    match "$domain" '^[A-Za-z0-9.-]+$'             || die "domain 非法"
    hosts_unpin
    printf '%s %s %s\n' "$ip" "$domain" "$HOSTS_MARKER" >> "$HOSTS_FILE"
    ;;
  dns-sync)
    [ $# -gt 0 ] || die "dns-sync 需要至少一个 suffix=ip"
    mkdir -p "$RESOLVER_DIR"
    keep=" "
    for pair in "$@"; do
      suffix="${pair%%=*}"; ip="${pair#*=}"
      match "$suffix" '^[a-z0-9.-]+$' || die "suffix 非法: $suffix"
      case "$suffix" in *..*|.*) die "suffix 非法: $suffix" ;; esac
      match "$ip" '^[0-9]+\.[0-9]+\.[0-9]+\.[0-9]+$' || die "ip 非法: $ip"
      printf '%s\nnameserver %s\n' "$MARKER" "$ip" > "$RESOLVER_DIR/$suffix"
      keep="$keep$suffix "
    done
    # 同步语义:删掉带标记但不在本次列表中的旧文件
    for f in "$RESOLVER_DIR"/*; do
      [ -f "$f" ] || continue
      [ "$(head -n 1 "$f" 2>/dev/null)" = "$MARKER" ] || continue
      name=$(basename "$f")
      case "$keep" in *" $name "*) ;; *) rm -f "$f" ;; esac
    done
    ;;
  dns-clean)
    dns_clean
    ;;
  janitor)
    dns_clean
    route_unexempt
    # 只杀可执行路径 == root copy 的孤儿隧道,绝不误伤用户态 zju-connect
    pids=$(ps -axo pid=,comm= | awk -v z="$ZJU" '$2==z {print $1}' || true)
    for p in $pids; do kill "$p" 2>/dev/null || true; done
    rm -f "$PIDFILE"
    ;;
  *)
    die "未知子命令: ${cmd:-<空>}"
    ;;
esac
"##;

// ---------------------------------------------------------------------------------------
// What may be handed to the helper

/// A character of a server name.
pub open spec fn server_char(c: char) -> bool {
    text::is_alnum(c) || c == '.' || c == '-'
}

/// A character of a resolver suffix.
pub open spec fn suffix_char(c: char) -> bool {
    text::is_lower(c) || text::is_digit(c) || c == '.' || c == '-'
}

/// A server name: letters, digits, dots and hyphens.
pub open spec fn server_ok(s: Seq<char>) -> bool {
    s.len() > 0 && forall|i: int| 0 <= i < s.len() ==> server_char(#[trigger] s[i])
}

/// A session id: letters and digits.
pub open spec fn twfid_ok(s: Seq<char>) -> bool {
    s.len() > 0 && forall|i: int| 0 <= i < s.len() ==> text::is_alnum(#[trigger] s[i])
}

/// A resolver suffix: lower-case letters, digits, dots and hyphens, with no dot in front and
/// no two dots in a row.
pub open spec fn suffix_ok(s: Seq<char>) -> bool {
    &&& s.len() > 0
    &&& forall|i: int| 0 <= i < s.len() ==> suffix_char(#[trigger] s[i])
    &&& !text::contains(s, ".."@)
    &&& !text::starts_with(s, "."@)
}

/// A listening address on the loopback interface: a port number behind `127.0.0.1:`.
pub open spec fn bind_ok(s: Seq<char>) -> bool {
    match text::strip_prefix(s, "127.0.0.1:"@) {
        Some(port) => port.len() > 0 && text::all_digits(port),
        None => false,
    }
}

fn is_alphanumeric(c: char) -> (r: bool)
    ensures
        r == text::is_alnum(c),
{
    ('0' <= c && c <= '9') || ('a' <= c && c <= 'z') || ('A' <= c && c <= 'Z')
}

/// Whether a server name holds only letters, digits, dots and hyphens.
pub fn valid_server(s: &str) -> (r: bool)
    ensures
        r == server_ok(s@),
{
    let chars = text::chars_of(s);
    if chars.len() == 0 {
        return false;
    }
    let mut i: usize = 0;
    while i < chars.len()
        invariant
            i <= chars.len(),
            chars@ == s@,
            forall|j: int| 0 <= j < i ==> server_char(#[trigger] chars@[j]),
        decreases chars.len() - i,
    {
        let c = chars[i];
        if !(is_alphanumeric(c) || c == '.' || c == '-') {
            assert(!server_char(s@[i as int]));
            return false;
        }
        i += 1;
    }
    true
}

/// Whether a session id holds only letters and digits.
pub fn valid_twfid(s: &str) -> (r: bool)
    ensures
        r == twfid_ok(s@),
{
    let chars = text::chars_of(s);
    if chars.len() == 0 {
        return false;
    }
    let mut i: usize = 0;
    while i < chars.len()
        invariant
            i <= chars.len(),
            chars@ == s@,
            forall|j: int| 0 <= j < i ==> text::is_alnum(#[trigger] chars@[j]),
        decreases chars.len() - i,
    {
        if !is_alphanumeric(chars[i]) {
            assert(!text::is_alnum(s@[i as int]));
            return false;
        }
        i += 1;
    }
    true
}

/// Whether a resolver suffix can name a resolver file.
pub fn valid_suffix(s: &str) -> (r: bool)
    ensures
        r == suffix_ok(s@),
{
    let chars = text::chars_of(s);
    if chars.len() == 0 {
        return false;
    }
    let mut i: usize = 0;
    while i < chars.len()
        invariant
            i <= chars.len(),
            chars@ == s@,
            forall|j: int| 0 <= j < i ==> suffix_char(#[trigger] chars@[j]),
        decreases chars.len() - i,
    {
        let c = chars[i];
        if !(('a' <= c && c <= 'z') || ('0' <= c && c <= '9') || c == '.' || c == '-') {
            assert(!suffix_char(s@[i as int]));
            return false;
        }
        i += 1;
    }
    !text::has(s, "..") && !text::begins(s, ".")
}

/// The value of one part of a dotted address: one to three digits without a leading zero, at
/// most 255.
pub open spec fn octet(p: Seq<char>) -> Option<int> {
    if 1 <= p.len() <= 3 && text::all_digits(p) && (p.len() == 1 || p[0] != '0')
        && decimal::digits_value(p) <= 255 {
        Some(decimal::digits_value(p))
    } else {
        None
    }
}

/// The four bytes of a dotted address.
pub open spec fn ipv4(s: Seq<char>) -> Option<(int, int, int, int)> {
    let p = text::split(s, '.');
    if p.len() != 4 {
        None
    } else {
        match (octet(p[0]), octet(p[1]), octet(p[2]), octet(p[3])) {
            (Some(a), Some(b), Some(c), Some(d)) => Some((a, b, c, d)),
            _ => None,
        }
    }
}

fn octet_value(p: &str) -> (r: Option<u8>)
    ensures
        match r {
            Some(v) => octet(p@) == Some(v as int),
            None => octet(p@) is None,
        },
{
    let chars = text::chars_of(p);
    let n = chars.len();
    if n < 1 || n > 3 || !text::only_digits(&chars) || (n > 1 && chars[0] == '0') {
        return None;
    }
    assert(text::is_digit(chars@[0]));
    assert(decimal::unsigned_part(chars@) == chars@);
    match decimal::parse_chars(&chars, 255) {
        Some(v) => Some(v as u8),
        None => None,
    }
}

/// The four bytes of a dotted address.
pub fn parse_ipv4(s: &str) -> (r: Option<(u8, u8, u8, u8)>)
    ensures
        match r {
            Some((a, b, c, d)) => ipv4(s@) == Some((a as int, b as int, c as int, d as int)),
            None => ipv4(s@) is None,
        },
{
    let chars = text::chars_of(s);
    let parts = text::split_chars(&chars, '.');
    assert(text::texts(parts@).len() == parts@.len());
    if parts.len() != 4 {
        return None;
    }
    let a = octet_value(&parts[0]);
    let b = octet_value(&parts[1]);
    let c = octet_value(&parts[2]);
    let d = octet_value(&parts[3]);
    match (a, b, c, d) {
        (Some(a), Some(b), Some(c), Some(d)) => Some((a, b, c, d)),
        _ => None,
    }
}

/// Whether a text is a dotted IPv4 address.
pub fn valid_ipv4(s: &str) -> (r: bool)
    ensures
        r == (ipv4(s@) is Some),
{
    parse_ipv4(s).is_some()
}

/// Whether a text is a listening address on the loopback interface.
pub fn valid_bind(s: &str) -> (r: bool)
    ensures
        r == bind_ok(s@),
{
    let chars = text::chars_of(s);
    let prefix = text::chars_of("127.0.0.1:");
    match text::stripped_prefix(&chars, &prefix) {
        Some(port) => port.len() > 0 && text::only_digits(&port),
        None => false,
    }
}

/// Why a tunnel cannot be started with the given values.
#[derive(Debug, PartialEq, Eq)]
pub enum ServeError {
    Server(String),
    Twfid,
    Bind,
}

impl ServeError {
    /// The text of the message for an error.
    pub open spec fn text(self) -> Seq<char> {
        match self {
            ServeError::Server(s) => "server 含非法字符: "@ + s@,
            ServeError::Twfid => "twfid 含非法字符"@,
            ServeError::Bind => "socks/http 监听地址非法(须为 127.0.0.1:端口)"@,
        }
    }

    /// The message for an error.
    pub fn message(&self) -> (r: String)
        ensures
            r@ == self.text(),
    {
        match self {
            ServeError::Server(s) => {
                let mut out = "server 含非法字符: ".to_owned();
                out.append(s);
                out
            },
            ServeError::Twfid => "twfid 含非法字符".to_owned(),
            ServeError::Bind => "socks/http 监听地址非法(须为 127.0.0.1:端口)".to_owned(),
        }
    }
}

/// Checks the values that a tunnel is started with, in this order: the server name, the
/// session id, the two listening addresses.
pub fn validate_serve(server: &str, twfid: &str, socks: &str, http: &str) -> (r: Result<
    (),
    ServeError,
>)
    ensures
        match r {
            Ok(_) => server_ok(server@) && twfid_ok(twfid@) && bind_ok(socks@) && bind_ok(http@),
            Err(ServeError::Server(s)) => !server_ok(server@) && s@ == server@,
            Err(ServeError::Twfid) => server_ok(server@) && !twfid_ok(twfid@),
            Err(ServeError::Bind) => server_ok(server@) && twfid_ok(twfid@) && !(bind_ok(socks@)
                && bind_ok(http@)),
        },
{
    if !valid_server(server) {
        return Err(ServeError::Server(server.to_owned()));
    }
    if !valid_twfid(twfid) {
        return Err(ServeError::Twfid);
    }
    if !valid_bind(socks) || !valid_bind(http) {
        return Err(ServeError::Bind);
    }
    Ok(())
}

/// A character that a shell would not take as it stands, or that ends a word.
pub open spec fn shell_special(c: char) -> bool {
    !(text::is_alnum(c) || c == '.' || c == '-' || c == ':')
}

/// What passes the checks holds no character that means something to a shell, and a session
/// id cannot be taken for an option.
pub proof fn law_checked_values_are_plain(s: Seq<char>, i: int)
    requires
        server_ok(s) || twfid_ok(s) || suffix_ok(s) || bind_ok(s),
        0 <= i < s.len(),
    ensures
        !shell_special(s[i]),
        twfid_ok(s) ==> s[0] != '-',
{
    if server_ok(s) {
        assert(server_char(s[i]));
    } else if twfid_ok(s) {
        assert(text::is_alnum(s[i]));
    } else if suffix_ok(s) {
        assert(suffix_char(s[i]));
    } else {
        reveal_strlit("127.0.0.1:");
        let p = "127.0.0.1:"@;
        if i < p.len() {
            assert(s.subrange(0, p.len() as int)[i] == p[i]);
        } else {
            assert(text::is_digit(s.skip(p.len() as int)[i - p.len()]));
        }
    }
    if twfid_ok(s) {
        assert(text::is_alnum(s[0]));
    }
}

/// A checked suffix names a file in the resolver directory itself: it holds no slash, and is
/// neither the directory nor the one above it.
pub proof fn law_suffix_stays_in_directory(s: Seq<char>)
    requires
        suffix_ok(s),
    ensures
        !text::contains(s, "/"@),
        s != "."@,
        s != ".."@,
{
    reveal_strlit("/");
    reveal_strlit(".");
    reveal_strlit("..");
    if text::contains(s, "/"@) {
        let i = choose|i: int| text::occurs_at(s, "/"@, i);
        assert(s.subrange(i, i + 1)[0] == '/');
        assert(suffix_char(s[i]));
    }
    if s == "."@ {
        assert(s.subrange(0, 1) =~= "."@);
    }
    if s == ".."@ {
        assert(s.subrange(0, 2) =~= ".."@);
        assert(text::occurs_at(s, ".."@, 0));
    }
}

// ---------------------------------------------------------------------------------------
// Guards

/// How many of the lines hold a text.
pub open spec fn count_with(lines: Seq<Seq<char>>, needle: Seq<char>) -> nat
    decreases lines.len(),
{
    if lines.len() == 0 {
        0
    } else {
        count_with(lines.drop_last(), needle) + (if text::contains(lines.last(), needle) {
            1nat
        } else {
            0nat
        })
    }
}

/// How many routes the tunnel's log says were added.
pub fn count_add_route(log: &str) -> (r: usize)
    ensures
        r == count_with(text::lines(log@), "Add route to"@),
{
    let lines = text::lines_of(log);
    let ghost views = text::lines(log@);
    let mut n: usize = 0;
    let mut i: usize = 0;
    while i < lines.len()
        invariant
            i <= lines.len(),
            views == text::texts(lines@),
            n <= i,
            n == count_with(views.take(i as int), "Add route to"@),
        decreases lines.len() - i,
    {
        assert(views.take(i + 1).drop_last() =~= views.take(i as int));
        assert(views.take(i + 1).last() == lines@[i as int]@);
        if text::has(&lines[i], "Add route to") {
            n += 1;
        }
        i += 1;
    }
    assert(views.take(i as int) =~= views);
    n
}

/// A line of routing output that names a tunnel interface.
pub open spec fn names_utun(line: Seq<char>) -> bool {
    match text::strip_prefix(text::trim(line), "interface:"@) {
        Some(v) => text::starts_with(text::trim(v), "utun"@),
        None => false,
    }
}

/// Whether the output of `route -n get default` names a tunnel interface.
pub fn default_route_is_utun(route_get_output: &str) -> (r: bool)
    ensures
        r == (exists|i: int|
            0 <= i < text::lines(route_get_output@).len() && names_utun(
                #[trigger] text::lines(route_get_output@)[i],
            )),
{
    let lines = text::lines_of(route_get_output);
    let ghost views = text::lines(route_get_output@);
    let prefix = text::chars_of("interface:");
    let utun = text::chars_of("utun");
    let mut i: usize = 0;
    while i < lines.len()
        invariant
            i <= lines.len(),
            views == text::texts(lines@),
            prefix@ == "interface:"@,
            utun@ == "utun"@,
            forall|j: int| 0 <= j < i ==> !names_utun(#[trigger] views[j]),
            views == text::lines(route_get_output@),
        decreases lines.len() - i,
    {
        assert(views[i as int] == lines@[i as int]@);
        let line = text::trimmed_chars(&text::chars_of(&lines[i]));
        if let Some(v) = text::stripped_prefix(&line, &prefix) {
            let v = text::trimmed_chars(&v);
            if text::chars_start_with(&v, &utun) {
                assert(names_utun(views[i as int]));
                return true;
            }
        }
        i += 1;
    }
    false
}

// ---------------------------------------------------------------------------------------
// Calling the helper

/// The argument that maps a suffix to a DNS server.
pub open spec fn sync_pair(suffix: Seq<char>, dns: Seq<char>) -> Seq<char> {
    suffix + "="@ + dns
}

/// The arguments that map each suffix to the VPN's DNS server.
pub fn dns_sync_pairs(suffixes: &[&str], vpn_dns: &str) -> (r: Vec<String>)
    ensures
        text::texts(r@) == Seq::new(
            suffixes@.len(),
            |i: int| sync_pair(suffixes@[i]@, vpn_dns@),
        ),
{
    let mut out: Vec<String> = Vec::new();
    let mut i: usize = 0;
    while i < suffixes.len()
        invariant
            i <= suffixes.len(),
            out@.len() == i,
            forall|j: int|
                0 <= j < i ==> (#[trigger] out@[j])@ == sync_pair(suffixes@[j]@, vpn_dns@),
        decreases suffixes.len() - i,
    {
        let mut t = suffixes[i].to_owned();
        t.append("=");
        t.append(vpn_dns);
        out.push(t);
        i += 1;
    }
    assert(text::texts(out@) =~= Seq::new(
        suffixes@.len(),
        |i: int| sync_pair(suffixes@[i]@, vpn_dns@),
    ));
    out
}

/// The command line that calls the helper: `sudo` is told never to ask for a password.
pub fn sudo_helper(args: &[&str]) -> (r: Vec<String>)
    ensures
        text::texts(r@) == seq!["/usr/bin/sudo"@, "-n"@, HELPER_PATH@] + Seq::new(
            args@.len(),
            |i: int| args@[i]@,
        ),
{
    let mut out: Vec<String> = Vec::new();
    out.push("/usr/bin/sudo".to_owned());
    out.push("-n".to_owned());
    out.push(HELPER_PATH.to_owned());
    let mut i: usize = 0;
    let ghost head = seq!["/usr/bin/sudo"@, "-n"@, HELPER_PATH@];
    while i < args.len()
        invariant
            i <= args.len(),
            head == seq!["/usr/bin/sudo"@, "-n"@, HELPER_PATH@],
            out@.len() == 3 + i,
            forall|j: int| 0 <= j < 3 ==> (#[trigger] out@[j])@ == head[j],
            forall|j: int| 3 <= j < 3 + i ==> (#[trigger] out@[j])@ == args@[j - 3]@,
        decreases args.len() - i,
    {
        out.push(args[i].to_owned());
        i += 1;
    }
    assert(text::texts(out@) =~= head + Seq::new(args@.len(), |i: int| args@[i]@));
    out
}

/// How a call of the helper went.
#[derive(Debug, PartialEq, Eq)]
pub enum HelperRun {
    /// It could not be started, for the given reason.
    NotStarted(String),
    /// It ended, with this status and this on its standard error.
    Ended { success: bool, stderr: String },
}

/// The result of sweeping up what an earlier tunnel left behind: nothing to report where the
/// helper succeeded, else the message to show.
pub fn janitor(run: &HelperRun) -> (r: Result<(), String>)
    ensures
        match *run {
            HelperRun::NotStarted(e) => r matches Err(m) && m@ == e@,
            HelperRun::Ended { success, stderr } => if success {
                r is Ok
            } else {
                r matches Err(m) && m@ == "janitor 失败: "@ + text::trim(stderr@)
            },
        },
{
    match run {
        HelperRun::NotStarted(e) => Err(e.clone()),
        HelperRun::Ended { success, stderr } => {
            if *success {
                Ok(())
            } else {
                let mut m = "janitor 失败: ".to_owned();
                m.append(&text::trimmed(stderr));
                Err(m)
            }
        },
    }
}

/// Whether the parts that the transparent mode needs are installed.
#[derive(Debug, Clone, Copy, PartialEq, Eq, Structural)]
pub enum Readiness {
    /// The helper is the one of this version, it may be run without a password, and root's
    /// copy of the tunnel program is as long as the user's.
    Ready,
    /// Neither the helper nor the permission to run it is there.
    NotInstalled,
    /// They are there, but not as this version needs them.
    Stale,
}

/// What was found of the parts that the transparent mode needs.
#[derive(Debug, Clone)]
pub struct Installed {
    pub helper_exists: bool,
    pub sudoers_exists: bool,
    /// The helper's text, where it could be read.
    pub helper_text: Option<String>,
    /// The length of root's copy of the tunnel program.
    pub root_len: Option<u64>,
    /// The length of the user's copy.
    pub user_len: Option<u64>,
}

/// Whether the parts that the transparent mode needs are installed.
pub fn check_ready(found: &Installed) -> (r: Readiness)
    ensures
        r == (if !found.helper_exists && !found.sudoers_exists {
            Readiness::NotInstalled
        } else if text::opt_text(found.helper_text) == Some(HELPER_SCRIPT@) && found.sudoers_exists
            && found.root_len is Some && found.root_len == found.user_len {
            Readiness::Ready
        } else {
            Readiness::Stale
        }),
{
    if !found.helper_exists && !found.sudoers_exists {
        return Readiness::NotInstalled;
    }
    let helper_ok = match &found.helper_text {
        Some(s) => text::same_text(s, HELPER_SCRIPT),
        None => false,
    };
    let zju_ok = match (found.root_len, found.user_len) {
        (Some(root), Some(user)) => root == user,
        _ => false,
    };
    if helper_ok && found.sudoers_exists && zju_ok {
        Readiness::Ready
    } else {
        Readiness::Stale
    }
}

// ---------------------------------------------------------------------------------------
// Laws of what passes the checks

/// A server name passes exactly where it is not empty and made of letters, digits, dots and
/// hyphens; a session id exactly where it is not empty and made of letters and digits.
pub proof fn law_which_names_pass(s: Seq<char>)
    ensures
        server_ok(s) <==> s.len() > 0 && forall|i: int|
            #![trigger s[i]]
            0 <= i < s.len() ==> ('a' <= s[i] && s[i] <= 'z') || ('A' <= s[i] && s[i] <= 'Z') || (
            '0' <= s[i] && s[i] <= '9') || s[i] == '.' || s[i] == '-',
        twfid_ok(s) <==> s.len() > 0 && forall|i: int|
            #![trigger s[i]]
            0 <= i < s.len() ==> ('a' <= s[i] && s[i] <= 'z') || ('A' <= s[i] && s[i] <= 'Z') || (
            '0' <= s[i] && s[i] <= '9'),
{
    if server_ok(s) {
        assert forall|i: int| 0 <= i < s.len() implies server_char(#[trigger] s[i]) by {}
    }
    if twfid_ok(s) {
        assert forall|i: int| 0 <= i < s.len() implies text::is_alnum(#[trigger] s[i]) by {}
    }
}

/// A suffix passes exactly where it is not empty, made of lower-case letters, digits, dots and
/// hyphens, does not begin with a dot and has no two dots in a row.
pub proof fn law_which_suffixes_pass(s: Seq<char>)
    ensures
        suffix_ok(s) <==> {
            &&& s.len() > 0
            &&& forall|i: int|
                #![trigger s[i]]
                0 <= i < s.len() ==> ('a' <= s[i] && s[i] <= 'z') || ('0' <= s[i] && s[i] <= '9')
                    || s[i] == '.' || s[i] == '-'
            &&& s[0] != '.'
            &&& forall|i: int, j: int|
                #![trigger s[i], s[j]]
                0 <= i && j == i + 1 && j < s.len() ==> !(s[i] == '.' && s[j] == '.')
        },
{
    reveal_strlit(".");
    reveal_strlit("..");
    if suffix_ok(s) {
        assert forall|i: int| 0 <= i < s.len() implies suffix_char(#[trigger] s[i]) by {}
        if s[0] == '.' {
            assert(s.subrange(0, 1) =~= "."@);
        }
        assert forall|i: int, j: int|
            #![trigger s[i], s[j]]
            0 <= i && j == i + 1 && j < s.len() implies !(s[i] == '.' && s[j] == '.') by {
            if s[i] == '.' && s[j] == '.' {
                assert(s.subrange(i, i + 2) =~= ".."@);
                assert(text::occurs_at(s, ".."@, i));
            }
        }
    } else if s.len() > 0 {
        if text::contains(s, ".."@) {
            let i = choose|i: int| text::occurs_at(s, ".."@, i);
            assert(s.subrange(i, i + 2)[0] == s[i]);
            assert(s.subrange(i, i + 2)[1] == s[i + 1]);
        }
        if text::starts_with(s, "."@) {
            assert(s.subrange(0, 1)[0] == s[0]);
        }
    }
}

/// A listening address passes exactly where it is `127.0.0.1:` with one or more digits behind it.
pub proof fn law_which_listening_addresses_pass(s: Seq<char>)
    ensures
        bind_ok(s) <==> exists|port: Seq<char>| #[trigger]
            text::all_digits(port) && port.len() > 0 && s == "127.0.0.1:"@ + port,
{
    let p = "127.0.0.1:"@;
    if bind_ok(s) {
        let port = s.skip(p.len() as int);
        assert(s.subrange(0, p.len() as int) == p);
        assert(s =~= p + port);
        assert(text::all_digits(port));
    }
    if exists|port: Seq<char>| #[trigger]
        text::all_digits(port) && port.len() > 0 && s == p + port {
        let port = choose|port: Seq<char>| #[trigger]
            text::all_digits(port) && port.len() > 0 && s == p + port;
        assert(s.subrange(0, p.len() as int) =~= p);
        assert(s.skip(p.len() as int) =~= port);
    }
}

/// An address as it is written: its four bytes in decimal, with dots between them.
pub open spec fn dotted(a: u8, b: u8, c: u8, d: u8) -> Seq<char> {
    text::join(
        seq![
            decimal::digits(a as nat),
            decimal::digits(b as nat),
            decimal::digits(c as nat),
            decimal::digits(d as nat),
        ],
        seq!['.'],
    )
}

proof fn lemma_octet_of_digits(n: nat)
    requires
        n <= 255,
    ensures
        octet(decimal::digits(n)) == Some(n as int),
        text::free_of(decimal::digits(n), '.'),
{
    let p = decimal::digits(n);
    decimal::lemma_digits_are_digits(n);
    decimal::lemma_digits_value_of_digits(n);
    reveal_with_fuel(decimal::digits, 4);
    assert forall|i: int| 0 <= i < p.len() implies #[trigger] p[i] != '.' by {
        assert(text::is_digit(p[i]));
    }
}

proof fn lemma_octet_is_digits(p: Seq<char>)
    requires
        octet(p) is Some,
    ensures
        0 <= octet(p)->0 <= 255,
        p == decimal::digits(octet(p)->0 as nat),
{
    reveal_with_fuel(decimal::digits, 4);
    reveal_with_fuel(decimal::digits_value, 4);
    let v = octet(p)->0;
    assert(text::is_digit(p[0]));
    if p.len() == 1 {
        assert(p.drop_last() =~= Seq::<char>::empty());
        assert(p =~= decimal::digits(v as nat));
    } else if p.len() == 2 {
        assert(text::is_digit(p[1]));
        assert(p.drop_last().drop_last() =~= Seq::<char>::empty());
        let h = decimal::digit_value(p[0]);
        let l = decimal::digit_value(p[1]);
        assert(v == h * 10 + l);
        assert(v / 10 == h && v % 10 == l);
        assert(p =~= decimal::digits(v as nat));
    } else {
        assert(text::is_digit(p[1]) && text::is_digit(p[2]));
        assert(p.drop_last().drop_last().drop_last() =~= Seq::<char>::empty());
        let h = decimal::digit_value(p[0]);
        let m = decimal::digit_value(p[1]);
        let l = decimal::digit_value(p[2]);
        assert(v == (h * 10 + m) * 10 + l);
        assert(v / 10 == h * 10 + m && v % 10 == l);
        assert((h * 10 + m) / 10 == h && (h * 10 + m) % 10 == m);
        assert(p =~= decimal::digits(v as nat));
    }
}

/// Every address is read from the way it is written.
pub proof fn law_written_addresses_are_read(a: u8, b: u8, c: u8, d: u8)
    ensures
        ipv4(dotted(a, b, c, d)) == Some((a as int, b as int, c as int, d as int)),
{
    let p = seq![
        decimal::digits(a as nat),
        decimal::digits(b as nat),
        decimal::digits(c as nat),
        decimal::digits(d as nat),
    ];
    lemma_octet_of_digits(a as nat);
    lemma_octet_of_digits(b as nat);
    lemma_octet_of_digits(c as nat);
    lemma_octet_of_digits(d as nat);
    text::law_splitting_undoes_joining(p, '.');
}

/// Nothing else is read as an address: a text is read as four numbers only where it is written as
/// they are, without leading zeros, signs or spaces, and each of them is a byte.
pub proof fn law_only_written_addresses_are_read(s: Seq<char>, v: (int, int, int, int))
    requires
        ipv4(s) == Some(v),
    ensures
        0 <= v.0 <= 255 && 0 <= v.1 <= 255 && 0 <= v.2 <= 255 && 0 <= v.3 <= 255,
        s == dotted(v.0 as u8, v.1 as u8, v.2 as u8, v.3 as u8),
{
    let p = text::split(s, '.');
    lemma_octet_is_digits(p[0]);
    lemma_octet_is_digits(p[1]);
    lemma_octet_is_digits(p[2]);
    lemma_octet_is_digits(p[3]);
    text::law_joining_undoes_splitting(s, '.');
    assert(p =~= seq![
        decimal::digits(v.0 as u8 as nat),
        decimal::digits(v.1 as u8 as nat),
        decimal::digits(v.2 as u8 as nat),
        decimal::digits(v.3 as u8 as nat),
    ]);
}

/// The lines that hold a text are counted, no others.
pub proof fn law_lines_are_counted(lines: Seq<Seq<char>>, needle: Seq<char>)
    ensures
        count_with(lines, needle) == lines.filter(|l: Seq<char>| text::contains(l, needle)).len(),
        count_with(lines, needle) == 0 <==> forall|i: int|
            0 <= i < lines.len() ==> !text::contains(#[trigger] lines[i], needle),
    decreases lines.len(),
{
    reveal(Seq::filter);
    if lines.len() > 0 {
        let init = lines.drop_last();
        law_lines_are_counted(init, needle);
        if count_with(lines, needle) == 0 {
            assert forall|i: int| 0 <= i < lines.len() implies !text::contains(
                #[trigger] lines[i],
                needle,
            ) by {
                if i < init.len() {
                    assert(!text::contains(init[i], needle));
                }
            }
        }
        if forall|i: int| 0 <= i < lines.len() ==> !text::contains(#[trigger] lines[i], needle) {
            assert forall|i: int| 0 <= i < init.len() implies !text::contains(
                #[trigger] init[i],
                needle,
            ) by {
                assert(!text::contains(lines[i], needle));
            }
            assert(!text::contains(lines[lines.len() - 1], needle));
        }
    }
}

/// A line names a tunnel exactly where, apart from white space, it is `interface:` and then a name
/// that begins with `utun`.
pub proof fn law_which_lines_name_a_tunnel(a: Seq<char>, b: Seq<char>, name: Seq<char>)
    requires
        text::blank(a),
        text::blank(b),
        name.len() > 0,
        !text::is_ws(name[0]),
        !text::is_ws(name.last()),
    ensures
        names_utun(a + "interface: "@ + name + b) <==> text::starts_with(name, "utun"@),
{
    reveal_strlit("interface: ");
    reveal_strlit("interface:");
    let core = "interface: "@ + name;
    text::lemma_trim_of_padded(a, core, b);
    assert(a + "interface: "@ + name + b =~= a + core + b);
    let p = "interface:"@;
    assert(core.subrange(0, p.len() as int) =~= p);
    let v = core.skip(p.len() as int);
    let space = seq![' '];
    let nothing = Seq::<char>::empty();
    assert(v =~= space + name + nothing);
    assert(text::is_ws(' '));
    text::lemma_trim_of_padded(space, name, nothing);
}

/// The parts of the transparent mode are ready exactly where the helper is that of this version, it
/// may be run without a password, and root's copy of the tunnel program is as long as the user's;
/// they are not installed exactly where neither the helper nor the permission is there.
pub proof fn law_when_the_transparent_mode_is_ready(found: &Installed, r: Readiness)
    requires
        call_ensures(check_ready, (found,), r),
    ensures
        r == Readiness::NotInstalled <==> !found.helper_exists && !found.sudoers_exists,
        r == Readiness::Ready <==> found.sudoers_exists && (found.helper_text matches Some(t) && t@
            == HELPER_SCRIPT@) && (found.root_len matches Some(n) && found.user_len == Some(n)),
{
}

/// The helper is called by `sudo`, which never asks for a password, by its fixed path and with just
/// the given arguments.
pub proof fn law_how_the_helper_is_called(args: &[&str], r: Vec<String>)
    requires
        call_ensures(sudo_helper, (args,), r),
    ensures
        text::texts(r@).len() == 3 + args@.len(),
        text::texts(r@)[0] == "/usr/bin/sudo"@,
        text::texts(r@)[1] == "-n"@,
        text::texts(r@)[2] == "/usr/local/libexec/easy-proxy/ep-tun-helper"@,
        forall|i: int| 0 <= i < args@.len() ==> text::texts(r@)[3 + i] == (#[trigger] args@[i])@,
{
}

/// Nothing is reported of a helper that succeeded; of one that did not, what it told or why it could
/// not be started.
pub proof fn law_what_sweeping_up_reports(run: &HelperRun, r: Result<(), String>)
    requires
        call_ensures(janitor, (run,), r),
    ensures
        r is Ok <==> (*run matches HelperRun::Ended { success, .. } && success),
        *run matches HelperRun::NotStarted(e) ==> r->Err_0@ == e@,
        *run matches HelperRun::Ended { success, stderr } && !success ==> r->Err_0@
            == "janitor 失败: "@ + text::trim((*run)->Ended_stderr@),
{
}

/// No other line names a tunnel: apart from white space such a line is `interface:` and something
/// that begins with `utun`.
pub proof fn law_no_other_line_names_a_tunnel(line: Seq<char>)
    ensures
        names_utun(line) ==> text::trim(line) == "interface:"@ + text::trim(line).skip(
            "interface:"@.len() as int,
        ) && text::starts_with(
            text::trim(text::trim(line).skip("interface:"@.len() as int)),
            "utun"@,
        ),
{
    let t = text::trim(line);
    let p = "interface:"@;
    if names_utun(line) {
        assert(t.subrange(0, p.len() as int) == p);
        assert(t =~= p + t.skip(p.len() as int));
    }
}

} // verus!
