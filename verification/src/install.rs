//! Setting up the shell: the default configuration, the completion, and the managed block in
//! the shell's start file.

use vstd::prelude::*;

use crate::capsule;
use crate::config::PromptConfig;
use crate::text;

verus! {

pub const BLOCK_BEGIN: &'static str = "# >>> easy-proxy >>>";

pub const BLOCK_END: &'static str = "# <<< easy-proxy <<<";

/// What was done about a file.
#[derive(Debug, Clone, Copy, PartialEq, Eq, Structural)]
pub enum Action {
    Added,
    Updated,
    Kept,
}

impl Action {
    /// The text for what was done.
    pub open spec fn text(self) -> Seq<char> {
        match self {
            Action::Added => "已设置"@,
            Action::Updated => "已更新"@,
            Action::Kept => "已存在"@,
        }
    }

    /// The text for what was done.
    pub fn label(self) -> (r: &'static str)
        ensures
            r@ == self.text(),
    {
        match self {
            Action::Added => "已设置",
            Action::Updated => "已更新",
            Action::Kept => "已存在",
        }
    }
}

/// Whether the tunnel program has to be written: it is missing, or not as long as the one that
/// comes with this version.
pub fn ensure_zju_bin(present_len: Option<u64>, wanted_len: u64) -> (r: bool)
    ensures
        r == (present_len != Some(wanted_len)),
{
    match present_len {
        Some(n) => n != wanted_len,
        None => true,
    }
}

/// What is done about the configuration: one that is there is kept.
pub fn ensure_config(exists: bool) -> (r: Action)
    ensures
        r == (if exists {
            Action::Kept
        } else {
            Action::Added
        }),
{
    if exists {
        Action::Kept
    } else {
        Action::Added
    }
}

/// What is done about the completion: one that is there is replaced.
pub fn write_completion(existed: bool) -> (r: Action)
    ensures
        r == (if existed {
            Action::Updated
        } else {
            Action::Added
        }),
{
    if existed {
        Action::Updated
    } else {
        Action::Added
    }
}

/// The configuration that is written where there is none.
pub const DEFAULT_CONFIG: &'static str = r#"# easy-proxy 配置：首次安装后请填写 server 与 username
server: ""            # 深信服 EasyConnect 门户地址，例: vpn.example.com
port: 443
username: ""          # 门户登录用户名/邮箱，例: your-name@example.com
# 本机对外暴露的混合代理端口（http+socks 同一个端口）
mixed_port: 7899
# 自动获取短信验证码（可选、可插拔，默认关闭）：配一条命令，connect 时执行它取码，
# 取不到就回退手动输入（自动期间可随时按 esc 取消，直接转手动）。命令经 `sh -c` 执行；
# 脚本自己负责轮询等码、往前看多久、是否过期，只需把 4–8 位数字打到 stdout（是否有效由服务端最终校验）。
# 示例脚本见 README（不随程序内置）。
# sms_command: "python3 ~/.local/share/easy-proxy/scripts/get_sms.py"
# sms_retries: 1              # 自动取码额度：总轮数=1+该值。没取到会补发一次短信重取；被拒则不重发只重读。默认 1
# sms_retry_interval_secs: 30 # 「被拒后重读」前的等待秒数（给正确验证码送达的时间）。默认 30
prompt:
  online_icon: "󰌘"
  offline_icon: "󰌙"
  reconnecting_icon: "󰑐"
  delay_icon: "󱎫"
  port_icon: "󰤨"
"#;

/// The configuration that is written where there is none.
pub fn default_config() -> (r: String)
    ensures
        r@ == DEFAULT_CONFIG@,
{
    DEFAULT_CONFIG.to_owned()
}

/// The completion for the shell.
pub const COMPLETION: &'static str = r#"#compdef easy-proxy

_easy-proxy() {
  local -a commands
  commands=(
    'connect:登录并启动隧道后台守护'
    'disconnect:停止隧道并清除当前终端代理'
    'start:为当前终端设置代理环境变量'
    'stop:移除当前终端代理环境变量'
    'restart:重新读取端口并更新代理环境变量'
    'status:显示连接状态胶囊'
    'port:输出当前端口号'
    'install:安装 .zshrc、补全与默认配置'
  )
  _arguments -s \
    '(-h --help)'{-h,--help}'[显示帮助信息]' \
    '1:command:->cmds' \
    '*::arg:->args'
  case "$state" in
    cmds) _describe 'command' commands ;;
    args)
      case "$words[1]" in
        connect) _arguments '--relogin[忽略钥匙串密码，强制重新输入]' '(-t --tun)'{-t,--tun}'[TUN 透明模式]' ;;
        stop|restart) _arguments '(-f --force)'{-f,--force}'[proxy_name 非 easy 时也强制执行]' ;;
      esac
      ;;
  esac
}

_easy-proxy "$@"
"#;

/// The completion for the shell.
pub fn completion_script() -> (r: &'static str)
    ensures
        r@ == COMPLETION@,
{
    COMPLETION
}

// ---------------------------------------------------------------------------------------
// The managed block

pub const WRAPPER_HEAD: &'static str = r#"
# easy-proxy wrapper (added by easy-proxy install)
easy-proxy() {
  case "$1" in
    start|stop|restart|disconnect) eval "$(COLUMNS=${COLUMNS:-80} ""#;

pub const WRAPPER_EVAL: &'static str = r#"" "$@")" ;;
    *) COLUMNS=${COLUMNS:-80} ""#;

pub const WRAPPER_PLAIN: &'static str = r#"" "$@" ;;
  esac
}
ep() {
  emulate -L zsh
  if ! COLUMNS=${COLUMNS:-80} ""#;

pub const EP_STATUS: &'static str = r#"" port --connected >/dev/null 2>&1; then
    COLUMNS=${COLUMNS:-80} ""#;

pub const EP_RESTART: &'static str = r#"" status >&2
    return 1
  fi
  (
    eval "$(COLUMNS=${COLUMNS:-80} ""#;

pub const EP_TAIL: &'static str = r#"" restart -f)" >&2 || exit
    if [[ -n ${aliases[$1]} ]]; then
      eval "${aliases[$1]} ${(j: :)${(@q)@[2,-1]}}"
    else
      "$@"
    fi
  )
}
"#;

/// The parts of the managed block between which the path of the program stands.
pub open spec fn block_parts() -> Seq<Seq<char>> {
    seq![
        WRAPPER_HEAD@,
        WRAPPER_EVAL@,
        WRAPPER_PLAIN@,
        EP_STATUS@,
        EP_RESTART@,
        EP_TAIL@,
    ]
}

/// The managed block for a program.
pub open spec fn block_for(exe: Seq<char>) -> Seq<char> {
    BLOCK_BEGIN@ + text::join(block_parts(), exe) + BLOCK_END@ + "\n"@
}

/// The managed block for a program: a function that runs it, and evaluates what it prints where
/// it sets variables, and one that runs a single command through the proxy.
pub fn zsh_block(exe: &str) -> (r: String)
    ensures
        r@ == block_for(exe@),
{
    let parts: Vec<String> = vec![
        WRAPPER_HEAD.to_owned(),
        WRAPPER_EVAL.to_owned(),
        WRAPPER_PLAIN.to_owned(),
        EP_STATUS.to_owned(),
        EP_RESTART.to_owned(),
        EP_TAIL.to_owned(),
    ];
    assert(text::texts(parts@) =~= block_parts());
    let mut out = BLOCK_BEGIN.to_owned();
    out.append(&text::joined(&parts, exe));
    out.append(BLOCK_END);
    out.append("\n");
    out
}

/// Where the managed block of a text begins and ends, the line feed behind it included.
pub open spec fn block_span(original: Seq<char>) -> Option<(int, int)> {
    match text::index_of(original, BLOCK_BEGIN@) {
        Some(begin) => match text::first_from(original, BLOCK_END@, begin) {
            Some(at) => {
                let end = at + BLOCK_END@.len();
                if end < original.len() && original[end] == '\n' {
                    Some((begin, end + 1))
                } else {
                    Some((begin, end))
                }
            },
            None => None,
        },
        None => None,
    }
}

/// The line feeds that go between a text and a block behind it: the last line is ended, and an
/// empty line follows.
pub open spec fn gap(original: Seq<char>) -> Seq<char> {
    if original.len() > 0 && original.last() != '\n' {
        "\n"@ + "\n"@
    } else {
        "\n"@
    }
}

/// The text with its managed block replaced, or with the block behind it where it has none.
pub open spec fn with_block(original: Seq<char>, block: Seq<char>) -> Seq<char> {
    match block_span(original) {
        Some((begin, end)) => original.take(begin) + block + original.skip(end),
        None => original + gap(original) + block,
    }
}

/// The text with its managed block replaced, or with the block behind it where it has none.
pub fn replace_managed_block(original: &str, block: &str) -> (r: String)
    ensures
        r@ == with_block(original@, block@),
{
    let chars = text::chars_of(original);
    let n = chars.len();
    let begin_mark = text::chars_of(BLOCK_BEGIN);
    let end_mark = text::chars_of(BLOCK_END);
    if let Some(begin) = text::find_chars(&chars, &begin_mark, 0) {
        if let Some(at) = text::find_chars(&chars, &end_mark, begin) {
            let mut end: usize = at + end_mark.len();
            if end < chars.len() && chars[end] == '\n' {
                end += 1;
            }
            let mut out = text::string_between(&chars, 0, begin);
            out.append(block);
            out.append(&text::string_between(&chars, end, chars.len()));
            assert(chars@.subrange(0, begin as int) =~= chars@.take(begin as int));
            assert(chars@.subrange(end as int, chars@.len() as int) =~= chars@.skip(end as int));
            return out;
        }
    }
    let mut out = original.to_owned();
    if n > 0 && chars[n - 1] != '\n' {
        out.append("\n");
    }
    out.append("\n");
    assert(out@ =~= original@ + gap(original@));
    out.append(block);
    out
}

/// What updating the start file does: the block is renewed where both its marks are there.
pub fn update_zshrc(original: &str, exe: &str) -> (r: (Action, String))
    ensures
        r.0 == (if text::contains(original@, BLOCK_BEGIN@) && text::contains(
            original@,
            BLOCK_END@,
        ) {
            Action::Updated
        } else {
            Action::Added
        }),
        r.1@ == with_block(original@, block_for(exe@)),
{
    let block = zsh_block(exe);
    let action = if text::has(original, BLOCK_BEGIN) && text::has(original, BLOCK_END) {
        Action::Updated
    } else {
        Action::Added
    };
    (action, replace_managed_block(original, &block))
}

/// The line that tells what was done about a file.
pub open spec fn done_line(
    action: Action,
    name: Seq<char>,
    path: Seq<char>,
    prompt: PromptConfig,
) -> Seq<char> {
    capsule::ok_text(action.text() + name + ": "@ + path, None, prompt)
}

/// The line that tells what was done about a file.
pub fn install_line(action: Action, name: &str, path: &str, prompt: &PromptConfig) -> (r: String)
    ensures
        r@ == done_line(action, name@, path@, *prompt),
{
    let mut m = action.label().to_owned();
    m.append(name);
    m.append(": ");
    m.append(path);
    capsule::success_line(&m, None, prompt)
}

/// The paths that `install` tells of, as shown.
#[derive(Debug)]
pub struct Shown {
    pub zshrc: String,
    pub completion_link: String,
    pub app_config: String,
    pub zju_bin: String,
}

/// What `install` prints.
pub fn cmd_install(
    paths: &Shown,
    zshrc: Action,
    completion: Action,
    config: Action,
    prompt: &PromptConfig,
) -> (r: Vec<String>)
    ensures
        text::texts(r@) == seq![
            done_line(zshrc, "环境配置(.zshrc)"@, paths.zshrc@, *prompt),
            done_line(completion, "补全配置"@, paths.completion_link@, *prompt),
            done_line(config, "默认配置"@, paths.app_config@, *prompt),
            capsule::ok_text("zju-connect 已就绪: "@ + paths.zju_bin@, None, *prompt),
            capsule::ok_text("完成。执行 source ~/.zshrc 或打开新终端后生效"@, None, *prompt),
        ],
{
    let mut ready = "zju-connect 已就绪: ".to_owned();
    ready.append(&paths.zju_bin);
    let r: Vec<String> = vec![
        install_line(zshrc, "环境配置(.zshrc)", &paths.zshrc, prompt),
        install_line(completion, "补全配置", &paths.completion_link, prompt),
        install_line(config, "默认配置", &paths.app_config, prompt),
        capsule::success_line(&ready, None, prompt),
        capsule::success_line("完成。执行 source ~/.zshrc 或打开新终端后生效", None, prompt),
    ];
    assert(text::texts(r@) =~= seq![
        done_line(zshrc, "环境配置(.zshrc)"@, paths.zshrc@, *prompt),
        done_line(completion, "补全配置"@, paths.completion_link@, *prompt),
        done_line(config, "默认配置"@, paths.app_config@, *prompt),
        capsule::ok_text("zju-connect 已就绪: "@ + paths.zju_bin@, None, *prompt),
        capsule::ok_text("完成。执行 source ~/.zshrc 或打开新终端后生效"@, None, *prompt),
    ]);
    r
}

// ---------------------------------------------------------------------------------------
// Laws

/// Text outside the managed block is kept as it is, to the last character.
pub proof fn law_outside_is_kept(original: Seq<char>, block: Seq<char>)
    ensures
        match block_span(original) {
            Some((begin, end)) => {
                &&& 0 <= begin <= end <= original.len()
                &&& with_block(original, block).take(begin) == original.take(begin)
                &&& with_block(original, block).skip(begin + block.len()) == original.skip(end)
            },
            None => with_block(original, block).take(original.len() as int) == original,
        },
{
    let r = with_block(original, block);
    match block_span(original) {
        Some((begin, end)) => {
            text::lemma_first_from(original, BLOCK_BEGIN@, 0);
            text::lemma_first_from(original, BLOCK_END@, begin);
            assert(r.take(begin) =~= original.take(begin));
            assert(r.skip(begin + block.len()) =~= original.skip(end));
        },
        None => {
            assert(r.take(original.len() as int) =~= original);
        },
    }
}

/// A managed block: it starts with the first mark and ends with the only second mark and a line
/// feed.
pub open spec fn is_block(b: Seq<char>) -> bool {
    &&& text::starts_with(b, BLOCK_BEGIN@)
    &&& b.len() >= BLOCK_END@.len() + 1
    &&& text::first_from(b, BLOCK_END@, 0) == Some(b.len() - BLOCK_END@.len() - 1)
    &&& b.last() == '\n'
}

/// The text has a first mark without a second one behind it.
pub open spec fn dangling(original: Seq<char>) -> bool {
    match text::index_of(original, BLOCK_BEGIN@) {
        Some(begin) => text::first_from(original, BLOCK_END@, begin) is None,
        None => false,
    }
}

/// Where a block stands behind a text in which the first mark does not occur before it, it is
/// the managed block.
proof fn lemma_span_of_block(pre: Seq<char>, block: Seq<char>, post: Seq<char>)
    requires
        is_block(block),
        forall|j: int|
            0 <= j < pre.len() ==> !text::occurs_at(pre + block + post, BLOCK_BEGIN@, j),
    ensures
        block_span(pre + block + post) == Some((pre.len() as int, pre.len() as int + block.len())),
{
    let r = pre + block + post;
    let b = pre.len() as int;
    let begin = BLOCK_BEGIN@;
    let end = BLOCK_END@;
    let p = block.len() - end.len() - 1;
    text::lemma_first_from(block, end, 0);
    assert(r.subrange(b, b + begin.len()) =~= block.subrange(0, begin.len() as int));
    assert(text::occurs_at(r, begin, b));
    text::lemma_first_from_is(r, begin, 0, b);
    assert(r.subrange(b + p, b + p + end.len()) =~= block.subrange(p, p + end.len()));
    assert(text::occurs_at(r, end, b + p));
    assert forall|j: int| b <= j < b + p implies !text::occurs_at(r, end, j) by {
        if text::occurs_at(r, end, j) {
            assert(r.subrange(j, j + end.len()) =~= block.subrange(j - b, j - b + end.len()));
            assert(text::occurs_at(block, end, j - b));
        }
    }
    text::lemma_first_from_is(r, end, b, b + p);
    assert(r[b + p + end.len()] == block.last());
}

/// Renewing the block that was just put in gives the same as putting the new one in at once. A
/// text with a first mark and no second one behind it is left out: there a block is put behind
/// the text, and what stands between the marks would go with the next renewal.
pub proof fn law_renewing_replaces(original: Seq<char>, first: Seq<char>, second: Seq<char>)
    requires
        is_block(first),
        !dangling(original),
    ensures
        with_block(with_block(original, first), second) == with_block(original, second),
{
    reveal_strlit("# >>> easy-proxy >>>");
    reveal_strlit("\n");
    let begin = BLOCK_BEGIN@;
    let r = with_block(original, first);
    text::lemma_first_from(original, begin, 0);
    match block_span(original) {
        Some((b, e)) => {
            text::lemma_first_from(original, BLOCK_END@, b);
            let pre = original.take(b);
            let post = original.skip(e);
            assert forall|j: int| 0 <= j < pre.len() implies !text::occurs_at(
                pre + first + post,
                begin,
                j,
            ) by {
                if text::occurs_at(pre + first + post, begin, j) {
                    assert(first.subrange(0, begin.len() as int) == begin);
                    assert(original.subrange(b, b + begin.len()) == begin);
                    assert forall|k: int| 0 <= k < begin.len() implies original[j + k]
                        == begin[k] by {
                        assert((pre + first + post).subrange(j, j + begin.len())[k] == begin[k]);
                        if j + k >= b {
                            assert(first.subrange(0, begin.len() as int)[j + k - b] == first[j + k
                                - b]);
                            assert(original.subrange(b, b + begin.len())[j + k - b]
                                == original[j + k]);
                        }
                    }
                    assert(original.subrange(j, j + begin.len()) =~= begin);
                    assert(text::occurs_at(original, begin, j));
                }
            }
            lemma_span_of_block(pre, first, post);
            assert(r.take(b) =~= pre);
            assert(r.skip(b + first.len()) =~= post);
        },
        None => {
            let pre = original + gap(original);
            let post = Seq::<char>::empty();
            assert(pre + first + post =~= r);
            assert forall|j: int| 0 <= j < pre.len() implies !text::occurs_at(
                pre + first + post,
                begin,
                j,
            ) by {
                if text::occurs_at(pre + first + post, begin, j) {
                    let s = (pre + first + post).subrange(j, j + begin.len());
                    if j + begin.len() <= original.len() {
                        assert(original.subrange(j, j + begin.len()) =~= s);
                        assert(text::occurs_at(original, begin, j));
                    } else {
                        let k = pre.len() - 1 - j;
                        if k < begin.len() {
                            assert(s[k] == '\n');
                        } else {
                            let m = original.len() - j;
                            assert(s[m] == '\n');
                        }
                    }
                }
            }
            lemma_span_of_block(pre, first, post);
            assert(r.take(pre.len() as int) =~= pre);
            assert(r.skip((pre.len() + first.len()) as int) =~= post);
            assert(pre + second + post =~= pre + second);
        },
    }
}

/// The text holds no angle bracket that opens.
spec fn no_angle(s: Seq<char>) -> bool {
    forall|i: int| 0 <= i < s.len() ==> #[trigger] s[i] != '<'
}

proof fn lemma_wrapper_head()
    ensures
        no_angle(WRAPPER_HEAD@),
        WRAPPER_HEAD@.len() > 0 && WRAPPER_HEAD@.last() == '"',
{
    reveal_strlit(
        r#"
# easy-proxy wrapper (added by easy-proxy install)
easy-proxy() {
  case "$1" in
    start|stop|restart|disconnect) eval "$(COLUMNS=${COLUMNS:-80} ""#,
    );
}

proof fn lemma_wrapper_eval()
    ensures
        no_angle(WRAPPER_EVAL@),
        WRAPPER_EVAL@.len() > 0 && WRAPPER_EVAL@[0] == '"',
        WRAPPER_EVAL@.len() > 0 && WRAPPER_EVAL@.last() == '"',
{
    reveal_strlit(
        r#"" "$@")" ;;
    *) COLUMNS=${COLUMNS:-80} ""#,
    );
}

proof fn lemma_wrapper_plain()
    ensures
        no_angle(WRAPPER_PLAIN@),
        WRAPPER_PLAIN@.len() > 0 && WRAPPER_PLAIN@[0] == '"',
        WRAPPER_PLAIN@.len() > 0 && WRAPPER_PLAIN@.last() == '"',
{
    reveal_strlit(
        r#"" "$@" ;;
  esac
}
ep() {
  emulate -L zsh
  if ! COLUMNS=${COLUMNS:-80} ""#,
    );
}

proof fn lemma_ep_status()
    ensures
        no_angle(EP_STATUS@),
        EP_STATUS@.len() > 0 && EP_STATUS@[0] == '"',
        EP_STATUS@.len() > 0 && EP_STATUS@.last() == '"',
{
    reveal_strlit(
        r#"" port --connected >/dev/null 2>&1; then
    COLUMNS=${COLUMNS:-80} ""#,
    );
}

proof fn lemma_ep_restart()
    ensures
        no_angle(EP_RESTART@),
        EP_RESTART@.len() > 0 && EP_RESTART@[0] == '"',
        EP_RESTART@.len() > 0 && EP_RESTART@.last() == '"',
{
    reveal_strlit(
        r#"" status >&2
    return 1
  fi
  (
    eval "$(COLUMNS=${COLUMNS:-80} ""#,
    );
}

proof fn lemma_ep_tail()
    ensures
        no_angle(EP_TAIL@),
        EP_TAIL@.len() > 0 && EP_TAIL@[0] == '"',
        EP_TAIL@.len() > 0 && EP_TAIL@.last() == '\n',
{
    reveal_strlit(
        r#"" restart -f)" >&2 || exit
    if [[ -n ${aliases[$1]} ]]; then
      eval "${aliases[$1]} ${(j: :)${(@q)@[2,-1]}}"
    else
      "$@"
    fi
  )
}
"#,
    );
}

/// A mark that occurs in a text between quotes and the texts around it occurs in one of them.
proof fn lemma_mark_between_quotes(left: Seq<char>, mid: Seq<char>, right: Seq<char>, mark: Seq<char>)
    requires
        left.len() > 0 && left.last() == '"',
        right.len() > 0 && right[0] == '"',
        mark.len() > 0,
        forall|i: int| 0 <= i < mark.len() ==> #[trigger] mark[i] != '"',
        text::contains(left + mid + right, mark),
    ensures
        text::contains(left, mark) || text::contains(mid, mark) || text::contains(right, mark),
{
    let all = left + mid + right;
    let q = choose|q: int| text::occurs_at(all, mark, q);
    let a = left.len() as int;
    let b = a + mid.len();
    let n = mark.len() as int;
    let s = all.subrange(q, q + n);
    if q < a {
        if q + n >= a {
            assert(s[a - 1 - q] == '"');
        }
        assert(left.subrange(q, q + n) =~= s);
        assert(text::occurs_at(left, mark, q));
    } else if q < b {
        if q + n > b {
            assert(s[b - q] == '"');
        }
        assert(mid.subrange(q - a, q - a + n) =~= s);
        assert(text::occurs_at(mid, mark, q - a));
    } else {
        assert(right.subrange(q - b, q - b + n) =~= s);
        assert(text::occurs_at(right, mark, q - b));
    }
}

/// A mark with an angle bracket does not occur in a text without one.
proof fn lemma_no_mark(s: Seq<char>)
    requires
        no_angle(s),
    ensures
        !text::contains(s, BLOCK_END@),
{
    reveal_strlit("# <<< easy-proxy <<<");
    if text::contains(s, BLOCK_END@) {
        let q = choose|q: int| text::occurs_at(s, BLOCK_END@, q);
        assert(s.subrange(q, q + BLOCK_END@.len())[2] == s[q + 2]);
    }
}

/// One more part of the block, with the program's path before it.
proof fn lemma_add_part(left: Seq<char>, exe: Seq<char>, part: Seq<char>)
    requires
        left.len() > 0 && left.last() == '"',
        part.len() > 0 && part[0] == '"',
        no_angle(part),
        !text::contains(left, BLOCK_END@),
        !text::contains(exe, BLOCK_END@),
    ensures
        !text::contains(left + exe + part, BLOCK_END@),
        (left + exe + part).last() == part.last(),
{
    reveal_strlit("# <<< easy-proxy <<<");
    lemma_no_mark(part);
    if text::contains(left + exe + part, BLOCK_END@) {
        lemma_mark_between_quotes(left, exe, part, BLOCK_END@);
    }
}

/// What is written for a program whose path does not hold the second mark is a managed block.
pub proof fn law_what_is_written_is_a_block(exe: Seq<char>)
    requires
        !text::contains(exe, BLOCK_END@),
    ensures
        is_block(block_for(exe)),
{
    reveal_strlit("# <<< easy-proxy <<<");
    reveal_strlit("# >>> easy-proxy >>>");
    reveal_strlit("\n");
    lemma_wrapper_head();
    lemma_wrapper_eval();
    lemma_wrapper_plain();
    lemma_ep_status();
    lemma_ep_restart();
    lemma_ep_tail();
    let p = block_parts();
    let j1 = p[0];
    let j2 = j1 + exe + p[1];
    let j3 = j2 + exe + p[2];
    let j4 = j3 + exe + p[3];
    let j5 = j4 + exe + p[4];
    let j6 = j5 + exe + p[5];
    lemma_no_mark(j1);
    lemma_add_part(j1, exe, p[1]);
    lemma_add_part(j2, exe, p[2]);
    lemma_add_part(j3, exe, p[3]);
    lemma_add_part(j4, exe, p[4]);
    lemma_add_part(j5, exe, p[5]);
    assert(text::join(p, exe) == j6) by {
        assert(p.drop_last() =~= p.take(5));
        assert(p.take(5).drop_last() =~= p.take(4));
        assert(p.take(4).drop_last() =~= p.take(3));
        assert(p.take(3).drop_last() =~= p.take(2));
        assert(p.take(2).drop_last() =~= p.take(1));
        assert(text::join(p.take(1), exe) == j1);
        assert(text::join(p.take(2), exe) == j2);
        assert(text::join(p.take(3), exe) == j3);
        assert(text::join(p.take(4), exe) == j4);
        assert(text::join(p.take(5), exe) == j5);
    }
    let begin = BLOCK_BEGIN@;
    let end = BLOCK_END@;
    let b = block_for(exe);
    let at: int = begin.len() as int + j6.len();
    assert(b =~= begin + j6 + end + "\n"@);
    assert(b.subrange(0, begin.len() as int) =~= begin);
    assert(b.subrange(at, at + end.len()) =~= end);
    assert(text::occurs_at(b, end, at));
    assert forall|q: int| 0 <= q < at implies !text::occurs_at(b, end, q) by {
        if text::occurs_at(b, end, q) {
            let s = b.subrange(q, q + end.len());
            if q < begin.len() {
                assert(s[0] == b[q] && b[q] == begin[q]);
                assert(q == 0);
                assert(s[2] == b[2] && b[2] == begin[2]);
            } else if q + end.len() > at {
                assert(s[at - 1 - q] == j6.last());
            } else {
                let r = q - begin.len();
                assert(j6.subrange(r, r + end.len()) =~= s);
                assert(text::occurs_at(j6, end, r));
            }
        }
    }
    text::lemma_first_from_is(b, end, 0, at);
}

/// Installing twice leaves what installing once, with the later program, leaves.
pub proof fn law_installing_twice(original: Seq<char>, first: Seq<char>, second: Seq<char>)
    requires
        !dangling(original),
        !text::contains(first, BLOCK_END@),
    ensures
        with_block(with_block(original, block_for(first)), block_for(second)) == with_block(
            original,
            block_for(second),
        ),
{
    law_what_is_written_is_a_block(first);
    law_renewing_replaces(original, block_for(first), block_for(second));
}

/// The block is in the text that is written, whole: where the managed block stood, or behind
/// everything else, after an empty line.
pub proof fn law_the_block_is_put_in(original: Seq<char>, block: Seq<char>)
    ensures
        match block_span(original) {
            Some((begin, end)) => with_block(original, block).subrange(
                begin,
                begin + block.len(),
            ) == block,
            None => with_block(original, block) == original + (if original.len() > 0
                && original.last() != '\n' {
                "\n"@
            } else {
                ""@
            }) + "\n"@ + block,
        },
{
    reveal_strlit("");
    reveal_strlit("\n");
    text::lemma_first_from(original, BLOCK_BEGIN@, 0);
    match block_span(original) {
        Some((begin, end)) => {
            text::lemma_first_from(original, BLOCK_END@, begin);
            assert(with_block(original, block).subrange(begin, begin + block.len()) =~= block);
        },
        None => {
            if original.len() > 0 && original.last() != '\n' {
                assert(original + gap(original) + block =~= original + "\n"@ + "\n"@ + block);
            } else {
                assert(original + gap(original) + block =~= original + ""@ + "\n"@ + block);
            }
        },
    }
}

/// The managed block is found from its first mark to the first second mark behind it, with the line
/// feed there; there is none exactly where one of the marks is missing.
pub proof fn law_where_the_block_stands(original: Seq<char>)
    ensures
        match block_span(original) {
            Some((begin, end)) => {
                &&& text::occurs_at(original, "# >>> easy-proxy >>>"@, begin)
                &&& forall|j: int|
                    0 <= j < begin ==> !text::occurs_at(original, "# >>> easy-proxy >>>"@, j)
                &&& exists|at: int| #[trigger]
                    text::occurs_at(original, "# <<< easy-proxy <<<"@, at) && begin <= at && (
                    forall|j: int|
                        begin <= j < at ==> !text::occurs_at(original, "# <<< easy-proxy <<<"@, j))
                        && (end == at + 20 || (end == at + 21 && original[at + 20] == '\n')) && (end
                        < original.len() && end == at + 20 ==> original[end] != '\n')
            },
            None => !text::contains(original, "# >>> easy-proxy >>>"@) || exists|b: int|
                #[trigger] text::occurs_at(original, "# >>> easy-proxy >>>"@, b) && forall|j: int|
                    b <= j ==> !text::occurs_at(original, "# <<< easy-proxy <<<"@, j),
        },
{
    reveal_strlit("# <<< easy-proxy <<<");
    text::lemma_first_from(original, BLOCK_BEGIN@, 0);
    match text::index_of(original, BLOCK_BEGIN@) {
        Some(begin) => {
            text::lemma_first_from(original, BLOCK_END@, begin);
            match text::first_from(original, BLOCK_END@, begin) {
                Some(at) => {
                    assert(text::occurs_at(original, BLOCK_END@, at));
                },
                None => {
                    assert(text::occurs_at(original, BLOCK_BEGIN@, begin));
                },
            }
        },
        None => {},
    }
}

/// The managed block runs the given program: in each of the five places where it calls one, between
/// quotes.
pub proof fn law_the_block_runs_the_program(exe: Seq<char>)
    ensures
        block_for(exe) == "# >>> easy-proxy >>>"@ + (WRAPPER_HEAD@ + exe + WRAPPER_EVAL@ + exe
            + WRAPPER_PLAIN@ + exe + EP_STATUS@ + exe + EP_RESTART@ + exe + EP_TAIL@)
            + "# <<< easy-proxy <<<"@ + "\n"@,
        WRAPPER_HEAD@.len() > 0 && WRAPPER_HEAD@.last() == '"',
        WRAPPER_EVAL@.len() > 0 && WRAPPER_EVAL@[0] == '"' && WRAPPER_EVAL@.last() == '"',
        WRAPPER_PLAIN@.len() > 0 && WRAPPER_PLAIN@[0] == '"' && WRAPPER_PLAIN@.last() == '"',
        EP_STATUS@.len() > 0 && EP_STATUS@[0] == '"' && EP_STATUS@.last() == '"',
        EP_RESTART@.len() > 0 && EP_RESTART@[0] == '"' && EP_RESTART@.last() == '"',
        EP_TAIL@.len() > 0 && EP_TAIL@[0] == '"',
{
    lemma_wrapper_head();
    lemma_wrapper_eval();
    lemma_wrapper_plain();
    lemma_ep_status();
    lemma_ep_restart();
    lemma_ep_tail();
    let p = block_parts();
    assert(p.drop_last() =~= p.take(5));
    assert(p.take(5).drop_last() =~= p.take(4));
    assert(p.take(4).drop_last() =~= p.take(3));
    assert(p.take(3).drop_last() =~= p.take(2));
    assert(p.take(2).drop_last() =~= p.take(1));
    assert(text::join(p.take(1), exe) == p[0]);
    assert(text::join(p.take(2), exe) == p[0] + exe + p[1]);
    assert(text::join(p.take(3), exe) == p[0] + exe + p[1] + exe + p[2]);
    assert(text::join(p.take(4), exe) == p[0] + exe + p[1] + exe + p[2] + exe + p[3]);
    assert(text::join(p.take(5), exe) == p[0] + exe + p[1] + exe + p[2] + exe + p[3] + exe + p[4]);
    assert(text::join(p, exe) == text::join(p.take(5), exe) + exe + p[5]);
}

/// What was done about a file is told with what it is and where it lies.
pub proof fn law_what_was_done_is_told(
    action: Action,
    name: Seq<char>,
    path: Seq<char>,
    prompt: PromptConfig,
)
    ensures
        done_line(action, name, path, prompt) == capsule::ok_text(
            (match action {
                Action::Added => "已设置"@,
                Action::Updated => "已更新"@,
                Action::Kept => "已存在"@,
            }) + name + ": "@ + path,
            None,
            prompt,
        ),
{
}

/// The start file is written with the block for the program in it; that it was renewed is told
/// exactly where both marks were there before. A configuration that is there is kept.
pub proof fn law_what_installing_does(
    original: &str,
    exe: &str,
    exists_already: bool,
    r: (Action, String),
    config: Action,
)
    requires
        call_ensures(update_zshrc, (original, exe), r),
        call_ensures(ensure_config, (exists_already,), config),
    ensures
        r.1@ == with_block(original@, block_for(exe@)),
        r.0 == Action::Updated <==> text::contains(original@, "# >>> easy-proxy >>>"@)
            && text::contains(original@, "# <<< easy-proxy <<<"@),
        r.0 != Action::Kept,
        config == Action::Kept <==> exists_already,
{
}

} // verus!
