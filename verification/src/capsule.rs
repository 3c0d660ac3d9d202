//! The status capsule: a line of rounded segments for state, delay and port.

use vstd::prelude::*;

use crate::config;
use crate::config::PromptConfig;
use crate::decimal;
use crate::outside;
use crate::text;

verus! {

pub const ANSI_RESET: &'static str = "\x1b[0m";

pub const ANSI_BOLD_GREEN: &'static str = "\x1b[1;38;2;166;227;161m";

pub const ANSI_BOLD_RED: &'static str = "\x1b[1;38;2;243;139;168m";

pub const ANSI_BOLD_BLUE: &'static str = "\x1b[1;38;2;137;180;250m";

pub const COLOR_ONLINE: &'static str = "#a6e3a1";

pub const COLOR_RECONNECTING: &'static str = "#f8dea6";

pub const COLOR_OFFLINE: &'static str = "#6c7086";

pub const COLOR_DELAY: &'static str = "#74c7ec";

pub const COLOR_PORT: &'static str = "#b4befe";

pub const COLOR_TEXT: &'static str = "#11111b";

/// The delay segment.
#[derive(Debug, Clone, Copy, PartialEq, Eq, Structural)]
pub enum Delay {
    Hidden,
    Value(u64),
    Timeout,
}

/// The state segment: online, reconnecting (the daemon lives and works on it) or offline.
#[derive(Debug, Clone, Copy, PartialEq, Eq, Structural)]
pub enum ConnState {
    Online,
    Reconnecting,
    Offline,
}

/// The port segment: a port number, or `tun` for the transparent mode.
#[derive(Debug, Clone, Copy, PartialEq, Eq, Structural)]
pub enum PortSeg {
    Num(u16),
    Tun,
}

/// What a capsule shows.
#[derive(Debug, Clone, Copy, PartialEq, Eq, Structural)]
pub struct ProxyStatus {
    pub state: ConnState,
    pub delay: Delay,
    pub port: Option<PortSeg>,
}

// ---------------------------------------------------------------------------------------
// Widths

/// A code point of one of the three private use areas.
pub open spec fn private_use(c: char) -> bool {
    let u = c as u32;
    ||| 0xE000 <= u <= 0xF8FF
    ||| 0xF0000 <= u <= 0xFFFFD
    ||| 0x100000 <= u <= 0x10FFFD
}

/// The columns that a capsule reserves for a character: two for a glyph of a private use
/// area, none for a control character.
pub open spec fn char_width(c: char) -> nat {
    if private_use(c) {
        2
    } else {
        match outside::char_columns(c) {
            Some(w) => w,
            None => 0,
        }
    }
}

/// The columns that a capsule reserves for a text.
pub open spec fn width(s: Seq<char>) -> nat
    decreases s.len(),
{
    if s.len() == 0 {
        0
    } else {
        char_width(s[0]) + width(s.drop_first())
    }
}

/// The width of two texts one after the other is the sum of their widths.
pub proof fn lemma_width_concat(a: Seq<char>, b: Seq<char>)
    ensures
        width(a + b) == width(a) + width(b),
    decreases a.len(),
{
    if a.len() == 0 {
        assert(a + b =~= b);
    } else {
        lemma_width_concat(a.drop_first(), b);
        assert((a + b).drop_first() =~= a.drop_first() + b);
    }
}

/// One more character adds its width.
pub proof fn lemma_width_push(a: Seq<char>, c: char)
    ensures
        width(a.push(c)) == width(a) + char_width(c),
{
    let one = seq![c];
    lemma_width_concat(a, one);
    assert(a.push(c) =~= a + one);
    assert(one.drop_first() =~= Seq::<char>::empty());
    assert(width(one.drop_first()) == 0);
}

/// Whether a character lies in a private use area.
pub fn is_private_use(ch: char) -> (r: bool)
    ensures
        r == private_use(ch),
{
    let u: u32 = ch as u32;
    (0xE000 <= u && u <= 0xF8FF) || (0xF0000 <= u && u <= 0xFFFFD) || (0x100000 <= u && u
        <= 0x10FFFD)
}

/// The columns reserved for a character.
pub fn prompt_char_width(ch: char) -> (r: usize)
    ensures
        r == char_width(ch),
        r <= text::utf8_len(ch),
        ' ' <= ch && ch <= '~' ==> r == 1,
{
    if is_private_use(ch) {
        return 2;
    }
    match outside::unicode_char_width(ch) {
        Some(w) => w,
        None => 0,
    }
}

/// The text consists of printable ASCII characters.
pub open spec fn printable_ascii(s: Seq<char>) -> bool {
    forall|i: int| 0 <= i < s.len() ==> ' ' <= #[trigger] s[i] && s[i] <= '~'
}

/// The columns reserved for a text.
///
/// The sum over the characters of a text can be formed: it is bounded by the bytes of the
/// text, of which there are no more than a `usize` counts.
pub fn prompt_width(input: &str) -> (r: usize)
    ensures
        r == width(input@),
        printable_ascii(input@) ==> r == input@.len(),
{
    let bytes: usize = input.as_bytes().len();
    let chars = text::chars_of(input);
    let mut sum: usize = 0;
    let mut i: usize = 0;
    let ghost total = vstd::utf8::encode_utf8(input@).len();
    assert(chars@.take(0) =~= Seq::<char>::empty());
    assert(chars@.skip(0) =~= chars@);
    while i < chars.len()
        invariant
            i <= chars.len(),
            total <= bytes,
            sum == width(chars@.take(i as int)),
            printable_ascii(chars@) ==> sum == i,
            sum + vstd::utf8::encode_utf8(chars@.skip(i as int)).len() <= total,
        decreases chars.len() - i,
    {
        let w = prompt_char_width(chars[i]);
        proof {
            let rest = chars@.skip(i as int);
            let next = chars@.skip(i + 1);
            assert(rest.drop_first() =~= next);
            assert(vstd::utf8::encode_utf8(rest) == vstd::utf8::encode_scalar(rest[0] as u32)
                + vstd::utf8::encode_utf8(next));
            assert(chars@.take(i + 1) =~= chars@.take(i as int).push(chars@[i as int]));
            lemma_width_push(chars@.take(i as int), chars@[i as int]);
        }
        sum = sum + w;
        i += 1;
    }
    assert(chars@.take(i as int) =~= input@);
    sum
}

/// The columns that a text takes on a terminal.
pub fn display_width(input: &str) -> (r: usize)
    ensures
        r as nat == outside::text_columns(input@),
        input@.len() == 1 && input@[0] > '\u{a0}' ==> outside::char_columns(input@[0]) == Some(
            r as nat,
        ),
        input@ == seq!['…'] ==> r == 1,
{
    outside::unicode_str_width(input)
}

// ---------------------------------------------------------------------------------------
// Segments

/// How many leading characters of a text fit into `room` columns.
pub open spec fn fitting(s: Seq<char>, room: int) -> int
    decreases s.len(),
{
    if s.len() == 0 || char_width(s[0]) > room {
        0
    } else {
        1 + fitting(s.drop_first(), room - char_width(s[0]))
    }
}

/// A text cut to at most `max` columns, with an ellipsis in place of what was cut off.
pub open spec fn cut(s: Seq<char>, max: int) -> Seq<char> {
    if width(s) <= max {
        s
    } else if max == 0 {
        seq![]
    } else if max == 1 {
        seq!['…']
    } else {
        s.take(fitting(s, max - 1)).push('…')
    }
}

/// The characters that fit into a room are no wider than the room.
proof fn lemma_fitting(s: Seq<char>, room: int)
    requires
        0 <= room,
    ensures
        0 <= fitting(s, room) <= s.len(),
        width(s.take(fitting(s, room))) <= room,
    decreases s.len(),
{
    let n = fitting(s, room);
    if s.len() > 0 && char_width(s[0]) <= room {
        let rest = s.drop_first();
        lemma_fitting(rest, room - char_width(s[0]));
        assert(s.take(n).drop_first() =~= rest.take(n - 1));
        assert(s.take(n)[0] == s[0]);
    } else {
        assert(s.take(0) =~= Seq::<char>::empty());
    }
}

/// The text cut to at most `max_width` columns, with an ellipsis in place of what was cut
/// off. What is returned never takes more than `max_width` columns.
pub fn truncate(input: &str, max_width: usize) -> (r: String)
    ensures
        r@ == cut(input@, max_width as int),
        width(r@) <= max_width,
        text::plain_spaced(input@) ==> text::plain_spaced(r@),
{
    if prompt_width(input) <= max_width {
        return text::string_of(&text::chars_of(input));
    }
    if max_width == 0 {
        return String::new();
    }
    let marker = "…";
    proof {
        reveal_strlit("…");
        assert(marker@ =~= seq!['…']);
    }
    let marker_width: usize = display_width(marker);
    assert(char_width('…') == 1);
    assert(width(marker@) == 1) by {
        lemma_width_push(Seq::<char>::empty(), '…');
        assert(Seq::<char>::empty().push('…') =~= marker@);
    }
    if max_width <= marker_width {
        return marker.to_owned();
    }
    let content_width: usize = max_width - marker_width;
    let chars = text::chars_of(input);
    let mut out = String::new();
    let mut used: usize = 0;
    let mut i: usize = 0;
    assert(chars@.skip(0) =~= chars@);
    assert(out@ =~= chars@.take(0));
    loop
        invariant_except_break
            i <= chars.len(),
            used <= content_width,
            out@ == chars@.take(i as int),
            fitting(chars@, content_width as int) == i + fitting(
                chars@.skip(i as int),
                content_width - used,
            ),
        ensures
            i <= chars.len(),
            out@ == chars@.take(i as int),
            i == fitting(chars@, content_width as int),
        decreases chars.len() - i,
    {
        if i == chars.len() {
            break;
        }
        let w = prompt_char_width(chars[i]);
        if w > content_width - used {
            break;
        }
        assert(chars@.skip(i as int).drop_first() =~= chars@.skip(i + 1));
        out.push(chars[i]);
        assert(chars@.take(i + 1) =~= chars@.take(i as int).push(chars@[i as int]));
        used = used + w;
        i += 1;
    }
    proof {
        lemma_fitting(chars@, content_width as int);
        lemma_width_push(out@, '…');
        assert(out@ + marker@ =~= out@.push('…'));
    }
    out.append(marker);
    out
}

/// The text with each run of white space replaced by one space, and none at its ends.
pub fn normalize(input: &str) -> (r: String)
    ensures
        r@ == text::squeeze(input@),
{
    text::squeezed(input)
}

/// A segment of a capsule.
pub struct Segment {
    pub icon: String,
    pub value: String,
    pub color: &'static str,
    pub width: usize,
}

/// What a segment shows.
#[verifier::ext_equal]
pub struct SegmentView {
    pub icon: Seq<char>,
    pub value: Seq<char>,
    pub color: Seq<char>,
}

impl View for Segment {
    type V = SegmentView;

    open spec fn view(&self) -> SegmentView {
        SegmentView { icon: self.icon@, value: self.value@, color: self.color@ }
    }
}

impl SegmentView {
    /// The segment for an icon and a value, with runs of white space squeezed.
    pub open spec fn of(icon: Seq<char>, value: Seq<char>, color: Seq<char>) -> SegmentView {
        SegmentView { icon: text::squeeze(icon), value: text::squeeze(value), color }
    }

    /// The columns that the segment takes.
    pub open spec fn columns(self) -> nat {
        width(" "@ + self.icon + " "@ + self.value + " "@)
    }

    /// The segment, shortened where it takes more than `max` columns: the icon first, then
    /// the value in what room the icon leaves.
    pub open spec fn fit(self, max: int) -> SegmentView {
        if self.columns() <= max {
            self
        } else {
            let icon = cut(self.icon, if max < 3 { 0 } else { max - 3 });
            let fixed = width(" "@ + icon + "  "@);
            let value = cut(self.value, if max < fixed { 0 } else { max - fixed });
            SegmentView::of(icon, value, self.color)
        }
    }
}

/// Squeezing a text whose only white space is the plain space does not make it wider.
proof fn lemma_squeeze_narrow(s: Seq<char>)
    requires
        char_width(' ') == 1,
        text::plain_spaced(s),
    ensures
        width(text::squeeze(s)) <= width(s),
    decreases s.len(),
{
    reveal_strlit(" ");
    if s.len() == 0 {
        let p = text::split_ws(s);
        assert(p.drop_last() =~= Seq::<Seq<char>>::empty());
        assert(text::nonempty(p.drop_last()) =~= Seq::<Seq<char>>::empty());
        assert(p.last().len() == 0);
        assert(text::words(s) =~= Seq::<Seq<char>>::empty());
    } else {
        let t = s.drop_last();
        let c = s.last();
        assert(t.push(c) =~= s);
        assert(text::plain_spaced(t)) by {
            assert forall|i: int| 0 <= i < t.len() && text::is_ws(#[trigger] t[i]) implies t[i]
                == ' ' by {
                assert(s[i] == t[i]);
            }
        }
        lemma_squeeze_narrow(t);
        text::lemma_squeeze_push(t, c);
        lemma_width_push(t, c);
        if !text::is_ws(c) {
            if text::split_ws(t).last().len() > 0 {
                lemma_width_push(text::squeeze(t), c);
            } else if text::words(t).len() == 0 {
                lemma_width_push(Seq::<char>::empty(), c);
                assert(Seq::<char>::empty().push(c) =~= seq![c]);
            } else {
                assert(t.len() > 0) by {
                    if t.len() == 0 {
                        let p = text::split_ws(t);
                        assert(p.drop_last() =~= Seq::<Seq<char>>::empty());
                        assert(text::nonempty(p.drop_last()) =~= Seq::<Seq<char>>::empty());
                        assert(p.last().len() == 0);
                        assert(text::words(t) =~= Seq::<Seq<char>>::empty());
                    }
                }
                let u = t.drop_last();
                assert(u.push(t.last()) =~= t);
                assert(text::is_ws(t.last()) && t.last() == ' ') by {
                    assert(text::is_ws(t[t.len() - 1]));
                }
                assert(text::plain_spaced(u)) by {
                    assert forall|i: int| 0 <= i < u.len() && text::is_ws(
                        #[trigger] u[i],
                    ) implies u[i] == ' ' by {
                        assert(t[i] == u[i]);
                    }
                }
                lemma_squeeze_narrow(u);
                text::lemma_squeeze_push(u, ' ');
                lemma_width_push(u, ' ');
                let sq = text::squeeze(t);
                lemma_width_push(sq, ' ');
                lemma_width_push(sq.push(' '), c);
                assert(sq + " "@ + seq![c] =~= sq.push(' ').push(c));
            }
        }
    }
}

/// The columns of a segment are those of its two texts and three spaces.
proof fn lemma_columns(seg: SegmentView)
    requires
        char_width(' ') == 1,
    ensures
        seg.columns() == width(seg.icon) + width(seg.value) + 3,
{
    reveal_strlit(" ");
    let sp = " "@;
    assert(width(sp) == 1) by {
        lemma_width_push(Seq::<char>::empty(), ' ');
        assert(Seq::<char>::empty().push(' ') =~= sp);
    }
    lemma_width_concat(sp, seg.icon);
    lemma_width_concat(sp + seg.icon, sp);
    lemma_width_concat(sp + seg.icon + sp, seg.value);
    lemma_width_concat(sp + seg.icon + sp + seg.value, sp);
}

/// Three spaces take three columns exactly where a space takes one.
proof fn lemma_blank_width(w: int)
    requires
        w == width("   "@),
    ensures
        w == 3 * char_width(' '),
{
    reveal_strlit("   ");
    let none = Seq::<char>::empty();
    lemma_width_push(none, ' ');
    lemma_width_push(none.push(' '), ' ');
    lemma_width_push(none.push(' ').push(' '), ' ');
    assert(none.push(' ').push(' ').push(' ') =~= "   "@);
}

/// An icon with the spaces around it, before any value.
proof fn lemma_held_width(icon: Seq<char>)
    requires
        char_width(' ') == 1,
    ensures
        width(" "@ + icon + "  "@) == width(icon) + 3,
{
    reveal_strlit(" ");
    reveal_strlit("  ");
    let none = Seq::<char>::empty();
    lemma_width_push(none, ' ');
    lemma_width_push(none.push(' '), ' ');
    assert(none.push(' ') =~= " "@);
    assert(none.push(' ').push(' ') =~= "  "@);
    lemma_width_concat(" "@, icon);
    lemma_width_concat(" "@ + icon, "  "@);
}

impl Segment {
    /// The stored width is the segment's, and its texts hold no white space but plain spaces.
    pub open spec fn wf(self) -> bool {
        &&& self.width == self@.columns()
        &&& text::plain_spaced(self.icon@)
        &&& text::plain_spaced(self.value@)
    }

    /// The segment for an icon and a value.
    pub fn new(icon: &str, value: &str, color: &'static str) -> (r: Segment)
        ensures
            r@ == SegmentView::of(icon@, value@, color@),
            r.wf(),
    {
        proof {
            text::lemma_squeeze_plain(icon@);
            text::lemma_squeeze_plain(value@);
        }
        let icon = normalize(icon);
        let value = normalize(value);
        let mut plain = " ".to_owned();
        plain.append(&icon);
        plain.append(" ");
        plain.append(&value);
        plain.append(" ");
        let width = prompt_width(&plain);
        Segment { icon, value, color, width }
    }

    /// The segment, shortened to at most `max_width` columns. Where three columns or more are
    /// granted, what is returned takes no more than that.
    pub fn fit(&self, max_width: usize) -> (r: Segment)
        requires
            self.wf(),
        ensures
            r@ == self@.fit(max_width as int),
            r.wf(),
            max_width >= 3 ==> r.width <= max_width,
    {
        if self.width <= max_width {
            return Segment {
                icon: self.icon.clone(),
                value: self.value.clone(),
                color: self.color,
                width: self.width,
            };
        }
        let empty: usize = prompt_width("   ");
        proof {
            reveal_strlit("   ");
            lemma_blank_width(empty as int);
        }
        let icon_budget: usize = if max_width < empty {
            0
        } else {
            max_width - empty
        };
        let icon = truncate(&self.icon, icon_budget);
        let mut held = " ".to_owned();
        held.append(&icon);
        held.append("  ");
        let fixed = prompt_width(&held);
        let value_budget: usize = if max_width < fixed {
            0
        } else {
            max_width - fixed
        };
        let value = truncate(&self.value, value_budget);
        let r = Segment::new(&icon, &value, self.color);
        proof {
            lemma_columns(r@);
            lemma_squeeze_narrow(icon@);
            lemma_squeeze_narrow(value@);
            lemma_held_width(icon@);
        }
        r
    }
}

/// What a sequence of segments shows.
pub open spec fn seg_views(v: Seq<Segment>) -> Seq<SegmentView> {
    Seq::new(v.len(), |i: int| v[i]@)
}

/// Every segment is well-formed.
pub open spec fn all_wf(v: Seq<Segment>) -> bool {
    forall|i: int| 0 <= i < v.len() ==> (#[trigger] v[i]).wf()
}

/// The first segment of a status.
pub open spec fn state_segment(state: ConnState, prompt: PromptConfig) -> SegmentView {
    match state {
        ConnState::Offline => SegmentView::of(
            config::icon_or(prompt.offline_icon, config::OFFLINE_ICON@),
            "offline"@,
            COLOR_OFFLINE@,
        ),
        ConnState::Online => SegmentView::of(
            config::icon_or(prompt.online_icon, config::ONLINE_ICON@),
            "online"@,
            COLOR_ONLINE@,
        ),
        ConnState::Reconnecting => SegmentView::of(
            config::icon_or(prompt.reconnecting_icon, config::RECONNECTING_ICON@),
            "reconnecting"@,
            COLOR_RECONNECTING@,
        ),
    }
}

/// The delay as shown: in milliseconds, or that none was measured in time.
pub open spec fn delay_text(delay: Delay) -> Option<Seq<char>> {
    match delay {
        Delay::Hidden => None,
        Delay::Value(ms) => Some(decimal::digits(ms as nat) + "ms"@),
        Delay::Timeout => Some("timeout"@),
    }
}

/// The port as shown.
pub open spec fn port_text(port: PortSeg) -> Seq<char> {
    match port {
        PortSeg::Num(n) => decimal::digits(n as nat),
        PortSeg::Tun => "tun"@,
    }
}

/// The segments of a status: its state, then delay and port where they are known. Offline
/// shows nothing else.
pub open spec fn segments_of(status: ProxyStatus, prompt: PromptConfig) -> Seq<SegmentView> {
    let first = seq![state_segment(status.state, prompt)];
    if status.state == ConnState::Offline {
        first
    } else {
        let delay = match delay_text(status.delay) {
            Some(t) => seq![
                SegmentView::of(
                    config::icon_or(prompt.delay_icon, config::DELAY_ICON@),
                    t,
                    COLOR_DELAY@,
                ),
            ],
            None => Seq::<SegmentView>::empty(),
        };
        let port = match status.port {
            Some(p) => seq![
                SegmentView::of(
                    config::icon_or(prompt.port_icon, config::PORT_ICON@),
                    port_text(p),
                    COLOR_PORT@,
                ),
            ],
            None => Seq::<SegmentView>::empty(),
        };
        first + delay + port
    }
}

/// The segments of a status.
pub fn segments(status: &ProxyStatus, prompt: &PromptConfig) -> (r: Vec<Segment>)
    ensures
        seg_views(r@) == segments_of(*status, *prompt),
        all_wf(r@),
{
    let mut out: Vec<Segment> = Vec::new();
    match status.state {
        ConnState::Offline => {
            out.push(Segment::new(prompt.offline(), "offline", COLOR_OFFLINE));
            assert(seg_views(out@) =~= segments_of(*status, *prompt));
            return out;
        },
        ConnState::Online => {
            out.push(Segment::new(prompt.online(), "online", COLOR_ONLINE));
        },
        ConnState::Reconnecting => {
            out.push(Segment::new(prompt.reconnecting(), "reconnecting", COLOR_RECONNECTING));
        },
    }
    match status.delay {
        Delay::Hidden => {},
        Delay::Value(ms) => {
            let mut t = decimal::decimal(ms);
            t.append("ms");
            out.push(Segment::new(prompt.delay(), &t, COLOR_DELAY));
        },
        Delay::Timeout => {
            out.push(Segment::new(prompt.delay(), "timeout", COLOR_DELAY));
        },
    }
    if let Some(port) = status.port {
        let value = match port {
            PortSeg::Num(n) => decimal::decimal(n as u64),
            PortSeg::Tun => "tun".to_owned(),
        };
        out.push(Segment::new(prompt.port(), &value, COLOR_PORT));
    }
    assert(seg_views(out@) =~= segments_of(*status, *prompt));
    out
}

// ---------------------------------------------------------------------------------------
// Colours

/// The value of a hexadecimal digit.
pub open spec fn hex_digit(b: u8) -> Option<int> {
    if 0x30 <= b <= 0x39 {
        Some(b - 0x30)
    } else if 0x41 <= b <= 0x46 {
        Some(b - 0x41 + 10)
    } else if 0x61 <= b <= 0x66 {
        Some(b - 0x61 + 10)
    } else {
        None
    }
}

/// The number that two bytes spell in hexadecimal. A plus sign may stand in place of the
/// first digit.
pub open spec fn hex_pair(hi: u8, lo: u8) -> Option<int> {
    match (hex_digit(hi), hex_digit(lo)) {
        (Some(h), Some(l)) => Some(h * 16 + l),
        (None, Some(l)) => if hi == 0x2b {
            Some(l)
        } else {
            None
        },
        _ => None,
    }
}

/// The red, green and blue of a colour written as six hexadecimal digits.
pub open spec fn rgb(b: Seq<u8>) -> Option<(int, int, int)> {
    if b.len() != 6 {
        None
    } else {
        match (hex_pair(b[0], b[1]), hex_pair(b[2], b[3]), hex_pair(b[4], b[5])) {
            (Some(r), Some(g), Some(b)) => Some((r, g, b)),
            _ => None,
        }
    }
}

/// The text without one leading number sign.
pub open spec fn without_hash(s: Seq<char>) -> Seq<char> {
    if s.len() > 0 && s[0] == '#' {
        s.skip(1)
    } else {
        s
    }
}

fn hex_digit_value(b: u8) -> (r: Option<u8>)
    ensures
        match r {
            Some(v) => v < 16 && hex_digit(b) == Some(v as int),
            None => hex_digit(b) is None,
        },
{
    if 0x30 <= b && b <= 0x39 {
        Some(b - 0x30)
    } else if 0x41 <= b && b <= 0x46 {
        Some(b - 0x41 + 10)
    } else if 0x61 <= b && b <= 0x66 {
        Some(b - 0x61 + 10)
    } else {
        None
    }
}

fn hex_pair_value(hi: u8, lo: u8) -> (r: Option<u8>)
    ensures
        match r {
            Some(v) => hex_pair(hi, lo) == Some(v as int),
            None => hex_pair(hi, lo) is None,
        },
{
    match (hex_digit_value(hi), hex_digit_value(lo)) {
        (Some(h), Some(l)) => Some(h * 16 + l),
        (None, Some(l)) => if hi == 0x2b {
            Some(l)
        } else {
            None
        },
        _ => None,
    }
}

/// The red, green and blue of a colour written as six hexadecimal digits, with or without a
/// number sign before them.
pub fn hex_to_rgb(input: &str) -> (r: Option<(u8, u8, u8)>)
    ensures
        match r {
            Some((x, y, z)) => rgb(vstd::utf8::encode_utf8(without_hash(input@))) == Some(
                (x as int, y as int, z as int),
            ),
            None => rgb(vstd::utf8::encode_utf8(without_hash(input@))) is None,
        },
{
    let chars = text::chars_of(input);
    let from: usize = if chars.len() > 0 && chars[0] == '#' {
        1
    } else {
        0
    };
    let t = text::string_between(&chars, from, chars.len());
    assert(t@ =~= without_hash(input@));
    let b = t.as_str().as_bytes();
    if b.len() != 6 {
        return None;
    }
    match (hex_pair_value(b[0], b[1]), hex_pair_value(b[2], b[3]), hex_pair_value(b[4], b[5])) {
        (Some(x), Some(y), Some(z)) => Some((x, y, z)),
        _ => None,
    }
}

/// The red, green and blue of a colour, or a fallback where it cannot be read.
pub open spec fn rgb_or(color: Seq<char>, fallback: (int, int, int)) -> (int, int, int) {
    match rgb(vstd::utf8::encode_utf8(without_hash(color))) {
        Some(c) => c,
        None => fallback,
    }
}

/// The escape sequence with the given introduction for a colour.
pub open spec fn escape(intro: Seq<char>, c: (int, int, int)) -> Seq<char> {
    intro + decimal::digits(c.0 as nat) + ";"@ + decimal::digits(c.1 as nat) + ";"@
        + decimal::digits(c.2 as nat) + "m"@
}

/// The escape sequence that sets the foreground.
pub open spec fn fg_escape(fg: Seq<char>) -> Seq<char> {
    escape("\x1b[38;2;"@, rgb_or(fg, (205, 214, 244)))
}

/// The escape sequences that set the background, then the foreground.
pub open spec fn bg_fg_escape(bg: Seq<char>, fg: Seq<char>) -> Seq<char> {
    escape("\x1b[48;2;"@, rgb_or(bg, (49, 50, 68))) + escape(
        "\x1b[38;2;"@,
        rgb_or(fg, (17, 17, 27)),
    )
}

fn escape_text(intro: &str, c: (u8, u8, u8)) -> (r: String)
    ensures
        r@ == escape(intro@, (c.0 as int, c.1 as int, c.2 as int)),
{
    let mut out = intro.to_owned();
    out.append(&decimal::decimal(c.0 as u64));
    out.append(";");
    out.append(&decimal::decimal(c.1 as u64));
    out.append(";");
    out.append(&decimal::decimal(c.2 as u64));
    out.append("m");
    out
}

/// The escape sequences that set background and foreground.
pub fn ansi_bg_fg(bg: &str, fg: &str) -> (r: String)
    ensures
        r@ == bg_fg_escape(bg@, fg@),
{
    let b: (u8, u8, u8) = match hex_to_rgb(bg) {
        Some(c) => c,
        None => (49, 50, 68),
    };
    let f: (u8, u8, u8) = match hex_to_rgb(fg) {
        Some(c) => c,
        None => (17, 17, 27),
    };
    let mut out = escape_text("\x1b[48;2;", b);
    out.append(&escape_text("\x1b[38;2;", f));
    out
}

/// The escape sequence that sets the foreground.
pub fn ansi_fg(fg: &str) -> (r: String)
    ensures
        r@ == fg_escape(fg@),
{
    let f: (u8, u8, u8) = match hex_to_rgb(fg) {
        Some(c) => c,
        None => (205, 214, 244),
    };
    escape_text("\x1b[38;2;", f)
}

// ---------------------------------------------------------------------------------------
// Lines of segments

/// The columns that a segment adds to a line: one fewer after the first, since two
/// neighbours share an edge.
pub open spec fn added(seg: SegmentView, first: bool) -> int {
    if first || seg.columns() == 0 {
        seg.columns() as int
    } else {
        seg.columns() - 1
    }
}

/// The columns that a line of segments takes.
pub open spec fn line_columns(line: Seq<SegmentView>) -> int
    decreases line.len(),
{
    if line.len() == 0 {
        0
    } else {
        line_columns(line.drop_last()) + added(line.last(), line.len() == 1)
    }
}

/// Segments being laid out: the finished lines, the line in progress and the columns taken
/// on it.
#[verifier::ext_equal]
pub struct Layout {
    pub lines: Seq<Seq<SegmentView>>,
    pub current: Seq<SegmentView>,
    pub used: int,
}

impl Layout {
    /// The layout with one more segment: on the line in progress, or on a new one where that
    /// line would be filled.
    pub open spec fn place(self, seg: SegmentView, columns: int) -> Layout {
        let full = self.used > 0 && self.used + added(seg, self.current.len() == 0) >= columns;
        if full {
            Layout {
                lines: self.lines.push(self.current),
                current: seq![seg],
                used: added(seg, true),
            }
        } else {
            Layout {
                lines: self.lines,
                current: self.current.push(seg),
                used: self.used + added(seg, self.current.len() == 0),
            }
        }
    }

    /// All lines.
    pub open spec fn finish(self) -> Seq<Seq<SegmentView>> {
        if self.current.len() == 0 {
            self.lines
        } else {
            self.lines.push(self.current)
        }
    }

    /// No line takes more than the terminal's columns. On the first line the columns that
    /// were taken before it count too, and there the segments stay short of the edge.
    pub open spec fn fits(self, columns: int, initial: int) -> bool {
        &&& self.used == line_columns(self.current) + (if self.lines.len() == 0 {
            initial
        } else {
            0
        })
        &&& line_fits(self.current, self.lines.len() == 0, columns, initial)
        &&& forall|k: int|
            0 <= k < self.lines.len() ==> line_fits(
                #[trigger] self.lines[k],
                k == 0,
                columns,
                initial,
            )
    }
}

/// A line stays within the terminal.
pub open spec fn line_fits(
    line: Seq<SegmentView>,
    first: bool,
    columns: int,
    initial: int,
) -> bool {
    if first && initial > 0 {
        line.len() == 0 || initial + line_columns(line) < columns
    } else {
        line_columns(line) <= columns
    }
}

/// The layout of the first `n` segments.
pub open spec fn laid_out(segs: Seq<SegmentView>, n: int, columns: int, initial: int) -> Layout
    decreases n,
{
    if n <= 0 {
        Layout { lines: seq![], current: seq![], used: initial }
    } else {
        laid_out(segs, n - 1, columns, initial).place(segs[n - 1].fit(columns), columns)
    }
}

/// The columns that are used: a terminal counts as at least twenty wide.
pub open spec fn usable(terminal: int) -> int {
    if terminal < 20 {
        20
    } else {
        terminal
    }
}

/// The lines of a capsule.
pub open spec fn capsule_lines(
    status: ProxyStatus,
    prompt: PromptConfig,
    terminal: int,
    initial: int,
) -> Seq<Seq<SegmentView>> {
    let segs = segments_of(status, prompt);
    laid_out(segs, segs.len() as int, usable(terminal), initial).finish()
}

/// Placing a segment that is no wider than the terminal keeps every line within it.
proof fn lemma_place_fits(l: Layout, seg: SegmentView, columns: int, initial: int)
    requires
        l.fits(columns, initial),
        seg.columns() <= columns,
        0 <= initial,
    ensures
        l.place(seg, columns).fits(columns, initial),
{
    let m = l.place(seg, columns);
    let full = l.used > 0 && l.used + added(seg, l.current.len() == 0) >= columns;
    if full {
        assert(m.current.drop_last() =~= Seq::<SegmentView>::empty());
        assert(line_columns(m.current.drop_last()) == 0);
        assert forall|k: int| 0 <= k < m.lines.len() implies line_fits(
            #[trigger] m.lines[k],
            k == 0,
            columns,
            initial,
        ) by {
            if k < l.lines.len() {
                assert(m.lines[k] == l.lines[k]);
            } else {
                assert(m.lines[k] == l.current);
            }
        }
    } else {
        assert(m.current.drop_last() =~= l.current);
        lemma_line_columns_nonneg(l.current);
    }
}

/// The columns of a line are not negative.
proof fn lemma_line_columns_nonneg(line: Seq<SegmentView>)
    ensures
        0 <= line_columns(line),
    decreases line.len(),
{
    if line.len() > 0 {
        lemma_line_columns_nonneg(line.drop_last());
    }
}

/// What a sequence of lines shows.
pub open spec fn line_views(v: Seq<Vec<Segment>>) -> Seq<Seq<SegmentView>> {
    Seq::new(v.len(), |i: int| seg_views(v[i]@))
}

/// Whether a segment still fits on the line in progress.
fn line_is_full(used: usize, add: usize, columns: usize) -> (r: bool)
    ensures
        r == (used > 0 && used + add >= columns),
{
    used > 0 && (add >= columns || used >= columns - add)
}

/// The segments of a status laid out in lines that stay within the terminal. `initial_width`
/// columns are taken on the first line already.
fn lay_out(
    status: &ProxyStatus,
    prompt: &PromptConfig,
    columns: usize,
    initial_width: usize,
) -> (lines: Vec<Vec<Segment>>)
    requires
        columns >= 20,
    ensures
        line_views(lines@) == laid_out(
            segments_of(*status, *prompt),
            segments_of(*status, *prompt).len() as int,
            columns as int,
            initial_width as int,
        ).finish(),
        laid_out(
            segments_of(*status, *prompt),
            segments_of(*status, *prompt).len() as int,
            columns as int,
            initial_width as int,
        ).fits(columns as int, initial_width as int),
{
    let segs = segments(status, prompt);
    let ghost views = segments_of(*status, *prompt);
    let mut lines: Vec<Vec<Segment>> = Vec::new();
    let mut current: Vec<Segment> = Vec::new();
    let mut used: usize = initial_width;
    let mut i: usize = 0;
    assert(line_views(lines@) =~= Seq::<Seq<SegmentView>>::empty());
    assert(seg_views(current@) =~= Seq::<SegmentView>::empty());
    while i < segs.len()
        invariant
            i <= segs.len(),
            columns >= 20,
            all_wf(segs@),
            seg_views(segs@) == views,
            (Layout {
                lines: line_views(lines@),
                current: seg_views(current@),
                used: used as int,
            }) == laid_out(views, i as int, columns as int, initial_width as int),
            laid_out(views, i as int, columns as int, initial_width as int).fits(
                columns as int,
                initial_width as int,
            ),
        decreases segs.len() - i,
    {
        assert(segs@[i as int].wf());
        let segment = segs[i].fit(columns);
        let ghost before = laid_out(views, i as int, columns as int, initial_width as int);
        let add: usize = if current.len() == 0 || segment.width == 0 {
            segment.width
        } else {
            segment.width - 1
        };
        assert(views[i as int] == segs@[i as int]@);
        assert(add == added(segment@, before.current.len() == 0));
        proof {
            lemma_place_fits(before, segment@, columns as int, initial_width as int);
        }
        if line_is_full(used, add, columns) {
            let ghost done = current@;
            let ghost old_lines = lines@;
            lines.push(current);
            assert(line_views(lines@) =~= line_views(old_lines).push(seg_views(done)));
            current = Vec::new();
            used = segment.width;
            let ghost shown = segment@;
            current.push(segment);
            assert(seg_views(current@) =~= seq![shown]);
        } else {
            let ghost held = current@;
            let ghost shown = segment@;
            used = used + add;
            current.push(segment);
            assert(seg_views(current@) =~= seg_views(held).push(shown));
        }
        i += 1;
    }
    if current.len() > 0 {
        let ghost done = current@;
        let ghost old_lines = lines@;
        lines.push(current);
        assert(line_views(lines@) =~= line_views(old_lines).push(seg_views(done)));
    }
    lines
}

/// The left edge of a line of segments.
pub const LEFT_EDGE: &'static str = "\u{e0b6}";

/// The right edge of a segment.
pub const RIGHT_EDGE: &'static str = "\u{e0b4}";

/// One segment of a line as written to the terminal, with its right edge.
pub open spec fn rendered_segment(line: Seq<SegmentView>, i: int) -> Seq<char> {
    let seg = line[i];
    let start = if i == 0 {
        fg_escape(seg.color) + LEFT_EDGE@
    } else {
        Seq::<char>::empty()
    };
    let body = bg_fg_escape(seg.color, COLOR_TEXT@) + " "@ + seg.icon + " "@ + seg.value + " "@;
    let end = if i + 1 < line.len() {
        bg_fg_escape(line[i + 1].color, seg.color) + RIGHT_EDGE@
    } else {
        ANSI_RESET@ + fg_escape(seg.color) + RIGHT_EDGE@ + ANSI_RESET@
    };
    start + body + end
}

/// The first `n` segments of a line as written to the terminal.
pub open spec fn rendered(line: Seq<SegmentView>, n: int) -> Seq<char>
    decreases n,
{
    if n <= 0 {
        seq![]
    } else {
        rendered(line, n - 1) + rendered_segment(line, n - 1)
    }
}

/// A line of segments as written to the terminal.
pub fn render_line(segments: &[Segment]) -> (r: String)
    ensures
        r@ == rendered(seg_views(segments@), segments@.len() as int),
{
    let mut out = String::new();
    let mut i: usize = 0;
    let ghost line = seg_views(segments@);
    while i < segments.len()
        invariant
            i <= segments.len(),
            line == seg_views(segments@),
            out@ == rendered(line, i as int),
        decreases segments.len() - i,
    {
        let seg = &segments[i];
        let start = if i == 0 {
            let mut t = ansi_fg(seg.color);
            t.append(LEFT_EDGE);
            t
        } else {
            String::new()
        };
        let mut body = ansi_bg_fg(seg.color, COLOR_TEXT);
        body.append(" ");
        body.append(&seg.icon);
        body.append(" ");
        body.append(&seg.value);
        body.append(" ");
        let end = if i + 1 < segments.len() {
            let mut t = ansi_bg_fg(segments[i + 1].color, seg.color);
            t.append(RIGHT_EDGE);
            t
        } else {
            let mut t = ANSI_RESET.to_owned();
            t.append(&ansi_fg(seg.color));
            t.append(RIGHT_EDGE);
            t.append(ANSI_RESET);
            t
        };
        let mut piece = start;
        piece.append(&body);
        piece.append(&end);
        assert(piece@ =~= rendered_segment(line, i as int));
        out.append(&piece);
        i += 1;
    }
    out
}

/// The lines of a capsule as written to the terminal.
pub open spec fn rendered_lines(lines: Seq<Seq<SegmentView>>) -> Seq<Seq<char>> {
    Seq::new(lines.len(), |i: int| rendered(lines[i], lines[i].len() as int))
}

/// A capsule as written to the terminal.
pub open spec fn capsule_text(
    status: ProxyStatus,
    prompt: PromptConfig,
    terminal: int,
    initial: int,
) -> Seq<char> {
    text::join(rendered_lines(capsule_lines(status, prompt, terminal, initial)), "\n"@)
}

/// Every line of the capsule stays within the terminal.
pub open spec fn capsule_fits(
    status: ProxyStatus,
    prompt: PromptConfig,
    terminal: int,
    initial: int,
) -> bool {
    let lines = capsule_lines(status, prompt, terminal, initial);
    forall|k: int|
        0 <= k < lines.len() ==> line_fits(
            #[trigger] lines[k],
            k == 0,
            usable(terminal),
            initial,
        )
}

/// The capsule of a status, broken into lines that stay within the terminal.
/// `initial_width` columns are taken on the first line already.
pub fn format_capsule(
    status: &ProxyStatus,
    prompt: &PromptConfig,
    terminal_width: usize,
    initial_width: usize,
) -> (r: String)
    ensures
        r@ == capsule_text(*status, *prompt, terminal_width as int, initial_width as int),
        capsule_fits(*status, *prompt, terminal_width as int, initial_width as int),
{
    let columns: usize = if terminal_width < 20 {
        20
    } else {
        terminal_width
    };
    let lines = lay_out(status, prompt, columns, initial_width);
    let mut texts: Vec<String> = Vec::new();
    let mut i: usize = 0;
    let ghost views = line_views(lines@);
    while i < lines.len()
        invariant
            i <= lines.len(),
            views == line_views(lines@),
            texts@.len() == i,
            forall|j: int|
                0 <= j < i ==> (#[trigger] texts@[j])@ == rendered(views[j], views[j].len() as int),
        decreases lines.len() - i,
    {
        let t = render_line(lines[i].as_slice());
        assert(views[i as int] == seg_views(lines@[i as int]@));
        texts.push(t);
        i += 1;
    }
    assert(text::texts(texts@) =~= rendered_lines(views));
    proof {
        let l = laid_out(
            segments_of(*status, *prompt),
            segments_of(*status, *prompt).len() as int,
            columns as int,
            initial_width as int,
        );
        assert forall|k: int| 0 <= k < views.len() implies line_fits(
            #[trigger] views[k],
            k == 0,
            columns as int,
            initial_width as int,
        ) by {
            if k < l.lines.len() {
                assert(views[k] == l.lines[k]);
            }
        }
    }
    text::joined(&texts, "\n")
}

// ---------------------------------------------------------------------------------------
// Message lines

/// A message with its mark, without a capsule.
pub open spec fn marked(color: Seq<char>, mark: Seq<char>, message: Seq<char>) -> Seq<char> {
    color + mark + ANSI_RESET@ + " "@ + message
}

/// The columns taken before the capsule of a message line: the mark, the message and the
/// spaces around it.
pub open spec fn columns_before(message: Seq<char>) -> int {
    let w = outside::text_columns(message) + 3;
    if w > usize::MAX {
        usize::MAX as int
    } else {
        w as int
    }
}

/// A message with its mark, and with a capsule where a status is given together with the
/// width of the terminal.
pub open spec fn message_line(
    color: Seq<char>,
    mark: Seq<char>,
    message: Seq<char>,
    status: Option<(ProxyStatus, usize)>,
    prompt: PromptConfig,
) -> Seq<char> {
    match status {
        None => marked(color, mark, message),
        Some((st, terminal)) => marked(color, mark, message) + " "@ + capsule_text(
            st,
            prompt,
            terminal as int,
            columns_before(message),
        ),
    }
}

/// A line that reports success.
pub open spec fn ok_text(
    message: Seq<char>,
    status: Option<(ProxyStatus, usize)>,
    prompt: PromptConfig,
) -> Seq<char> {
    message_line(ANSI_BOLD_GREEN@, "✔"@, message, status, prompt)
}

/// A line that reports an error.
pub open spec fn err_text(
    message: Seq<char>,
    status: Option<(ProxyStatus, usize)>,
    prompt: PromptConfig,
) -> Seq<char> {
    message_line(ANSI_BOLD_RED@, "✘"@, message, status, prompt)
}

/// A line that neither reports success nor an error.
pub open spec fn info_text(
    message: Seq<char>,
    status: Option<(ProxyStatus, usize)>,
    prompt: PromptConfig,
) -> Seq<char> {
    message_line(ANSI_BOLD_BLUE@, "•"@, message, status, prompt)
}

fn marked_line(
    color: &str,
    mark: &str,
    message: &str,
    status: Option<(ProxyStatus, usize)>,
    prompt: &PromptConfig,
) -> (r: String)
    ensures
        r@ == message_line(color@, mark@, message@, status, *prompt),
{
    let mut out = color.to_owned();
    out.append(mark);
    out.append(ANSI_RESET);
    out.append(" ");
    out.append(message);
    if let Some((st, terminal)) = status {
        let w: usize = display_width(message);
        let before: usize = if w > usize::MAX - 3 {
            usize::MAX
        } else {
            w + 3
        };
        out.append(" ");
        out.append(&format_capsule(&st, prompt, terminal, before));
    }
    out
}

/// A line that reports success, with a capsule where a status is given together with the
/// width of the terminal.
pub fn success_line(
    message: &str,
    status: Option<(ProxyStatus, usize)>,
    prompt: &PromptConfig,
) -> (r: String)
    ensures
        r@ == ok_text(message@, status, *prompt),
{
    marked_line(ANSI_BOLD_GREEN, "✔", message, status, prompt)
}

/// A line that reports an error.
pub fn error_line(
    message: &str,
    status: Option<(ProxyStatus, usize)>,
    prompt: &PromptConfig,
) -> (r: String)
    ensures
        r@ == err_text(message@, status, *prompt),
{
    marked_line(ANSI_BOLD_RED, "✘", message, status, prompt)
}

/// A line that neither reports success nor an error. Its mark is as wide as the others, so
/// that the messages line up.
pub fn info_line(
    message: &str,
    status: Option<(ProxyStatus, usize)>,
    prompt: &PromptConfig,
) -> (r: String)
    ensures
        r@ == info_text(message@, status, *prompt),
{
    marked_line(ANSI_BOLD_BLUE, "•", message, status, prompt)
}

/// The width of the terminal: what the environment says, if it is a number above zero; else
/// what `tput` printed, if it is a number; else eighty.
pub open spec fn terminal_columns(
    columns: Option<Seq<char>>,
    tput: Option<Seq<char>>,
    max: int,
) -> int {
    let said = match columns {
        Some(c) => decimal::parse_unsigned(c, max),
        None => None,
    };
    let printed = match tput {
        Some(t) => decimal::parse_unsigned(text::trim(t), max),
        None => None,
    };
    match (said, printed) {
        (Some(n), _) if n > 0 => n,
        (_, Some(n)) => n,
        _ => 80,
    }
}

/// The width that the value of `COLUMNS` gives; `None` where `tput` has to be asked.
pub fn columns_set(columns: Option<&str>) -> (r: Option<usize>)
    ensures
        match r {
            Some(n) => n > 0 && columns is Some && decimal::parse_unsigned(
                columns->0@,
                usize::MAX as int,
            ) == Some(n as int),
            None => columns is None || match decimal::parse_unsigned(
                columns->0@,
                usize::MAX as int,
            ) {
                Some(n) => n == 0,
                None => true,
            },
        },
{
    if let Some(c) = columns {
        if let Some(n) = decimal::parse_number(c, usize::MAX as u64) {
            if n > 0 {
                return Some(n as usize);
            }
        }
    }
    None
}

/// The width of the terminal, from the value of `COLUMNS` and the output of `tput cols`.
pub fn terminal_width(columns: Option<&str>, tput: Option<&str>) -> (r: usize)
    ensures
        r == terminal_columns(
            text::opt_str_text(columns),
            text::opt_str_text(tput),
            usize::MAX as int,
        ),
{
    if let Some(n) = columns_set(columns) {
        return n;
    }
    if let Some(t) = tput {
        let trimmed = text::trimmed(t);
        if let Some(n) = decimal::parse_number(&trimmed, usize::MAX as u64) {
            return n as usize;
        }
    }
    80
}

// ---------------------------------------------------------------------------------------
// Quoting for the shell

/// A text in single quotes for the shell.
pub open spec fn quoted(s: Seq<char>) -> Seq<char> {
    "'"@ + text::replace_char(s, '\'', "'\\''"@) + "'"@
}

/// The text in single quotes for the shell.
pub fn shell_single_quote(input: &str) -> (r: String)
    ensures
        r@ == quoted(input@),
{
    let mut out = "'".to_owned();
    out.append(&text::replaced_char(input, '\'', "'\\''"));
    out.append("'");
    out
}

/// How a shell reads a word made of single-quoted stretches and of characters escaped by a
/// backslash: the word so far, whether it stands inside quotes or behind a backslash, and
/// whether some character stood bare.
#[verifier::ext_equal]
pub struct ShellWord {
    pub word: Seq<char>,
    pub quoted: bool,
    pub escaped: bool,
    pub bare: bool,
}

impl ShellWord {
    /// Reads one more character.
    pub open spec fn read(self, c: char) -> ShellWord {
        if self.quoted {
            if c == '\'' {
                ShellWord { quoted: false, ..self }
            } else {
                ShellWord { word: self.word.push(c), ..self }
            }
        } else if self.escaped {
            ShellWord { word: self.word.push(c), escaped: false, ..self }
        } else if c == '\'' {
            ShellWord { quoted: true, ..self }
        } else if c == '\\' {
            ShellWord { escaped: true, ..self }
        } else {
            ShellWord { word: self.word.push(c), bare: true, ..self }
        }
    }
}

/// What a shell reads from a text.
pub open spec fn shell_reads(s: Seq<char>) -> ShellWord
    decreases s.len(),
{
    if s.len() == 0 {
        ShellWord { word: seq![], quoted: false, escaped: false, bare: false }
    } else {
        shell_reads(s.drop_last()).read(s.last())
    }
}

proof fn lemma_reads_replaced(s: Seq<char>)
    ensures
        shell_reads("'"@ + text::replace_char(s, '\'', "'\\''"@)) == (ShellWord {
            word: s,
            quoted: true,
            escaped: false,
            bare: false,
        }),
    decreases s.len(),
{
    reveal_strlit("'");
    reveal_strlit("'\\''");
    let esc = "'\\''"@;
    let head = "'"@;
    if s.len() == 0 {
        let t = head + text::replace_char(s, '\'', esc);
        assert(t =~= seq!['\'']);
        assert(t.drop_last() =~= Seq::<char>::empty());
        assert(shell_reads(t.drop_last()).word =~= s);
    } else {
        let init = s.drop_last();
        lemma_reads_replaced(init);
        let t = head + text::replace_char(init, '\'', esc);
        let u = head + text::replace_char(s, '\'', esc);
        if s.last() == '\'' {
            let u1 = t.push('\'');
            let u2 = u1.push('\\');
            let u3 = u2.push('\'');
            let u4 = u3.push('\'');
            assert(u =~= u4);
            assert(u4.drop_last() =~= u3);
            assert(u3.drop_last() =~= u2);
            assert(u2.drop_last() =~= u1);
            assert(u1.drop_last() =~= t);
            assert(shell_reads(u1) == shell_reads(t).read('\''));
            assert(shell_reads(u2) == shell_reads(u1).read('\\'));
            assert(shell_reads(u3) == shell_reads(u2).read('\''));
            assert(shell_reads(u4) == shell_reads(u3).read('\''));
            assert(init.push('\'') =~= s);
            assert(shell_reads(u).word =~= s);
        } else {
            assert(u =~= t.push(s.last()));
            assert(u.drop_last() =~= t);
            assert(shell_reads(u).word =~= s);
        }
    }
}

/// A shell reads a quoted text back as that text, as one closed word in which no character
/// stands bare.
pub proof fn law_shell_reads_quoted(s: Seq<char>)
    ensures
        shell_reads(quoted(s)) == (ShellWord {
            word: s,
            quoted: false,
            escaped: false,
            bare: false,
        }),
{
    reveal_strlit("'");
    lemma_reads_replaced(s);
    let t = "'"@ + text::replace_char(s, '\'', "'\\''"@);
    assert(quoted(s) =~= t.push('\''));
    assert(quoted(s).drop_last() =~= t);
}

// ---------------------------------------------------------------------------------------
// Laws of what is shown

/// A glyph of a private use area takes two columns; every other character takes what it takes in a
/// terminal, and none where that is not known.
pub proof fn law_icons_take_two_columns(c: char)
    ensures
        ('\u{e000}' <= c && c <= '\u{f8ff}') || ('\u{f0000}' <= c && c <= '\u{ffffd}') || (
        '\u{100000}' <= c && c <= '\u{10fffd}') ==> char_width(c) == 2,
        !(('\u{e000}' <= c && c <= '\u{f8ff}') || ('\u{f0000}' <= c && c <= '\u{ffffd}') || (
        '\u{100000}' <= c && c <= '\u{10fffd}')) ==> char_width(c) == (match outside::char_columns(
            c,
        ) {
            Some(w) => w,
            None => 0,
        }),
{
}

proof fn lemma_fitting_is_most(s: Seq<char>, room: int)
    requires
        0 <= room,
        width(s) > room,
    ensures
        fitting(s, room) < s.len(),
        width(s.take(fitting(s, room) + 1)) > room,
    decreases s.len(),
{
    if s.len() > 0 {
        if char_width(s[0]) > room {
            assert(s.take(1).drop_first() =~= Seq::<char>::empty());
            assert(width(s.take(1)) == char_width(s[0]) + width(s.take(1).drop_first()));
        } else {
            let rest = s.drop_first();
            lemma_fitting(rest, room - char_width(s[0]));
            lemma_fitting_is_most(rest, room - char_width(s[0]));
            let n = fitting(s, room);
            assert(s.take(n + 1).drop_first() =~= rest.take(n));
        }
    }
}

/// A text that fits is not cut. Of one that does not, as many characters are kept as leave a column
/// for the ellipsis, no fewer: one more would be too wide. In a single column stands the ellipsis,
/// in none nothing.
pub proof fn law_as_little_as_possible_is_cut(s: Seq<char>, max: int)
    requires
        0 <= max,
    ensures
        width(s) <= max ==> cut(s, max) == s,
        width(s) > max && max == 0 ==> cut(s, max).len() == 0,
        width(s) > max && max == 1 ==> cut(s, max) == seq!['…'],
        width(s) > max && max >= 2 ==> exists|n: int|
            #![trigger s.take(n)]
            0 <= n < s.len() && cut(s, max) == s.take(n).push('…') && width(s.take(n)) <= max - 1
                && width(s.take(n + 1)) > max - 1,
{
    if width(s) > max && max >= 2 {
        lemma_fitting(s, max - 1);
        lemma_fitting_is_most(s, max - 1);
        let n = fitting(s, max - 1);
        assert(cut(s, max) == s.take(n).push('…'));
    }
}

/// A segment that fits stays as it is; any other keeps its colour, its icon is cut to what leaves
/// room for three spaces, and its value to what the icon leaves.
pub proof fn law_how_a_segment_is_shortened(seg: SegmentView, max: int)
    requires
        3 <= max,
    ensures
        seg.columns() <= max ==> seg.fit(max) == seg,
        seg.fit(max).color == seg.color,
        seg.columns() > max ==> seg.fit(max).icon == text::squeeze(cut(seg.icon, max - 3)),
        seg.columns() > max ==> ({
            let taken = width(" "@ + cut(seg.icon, max - 3) + "  "@);
            seg.fit(max).value == text::squeeze(
                cut(
                    seg.value,
                    if taken > max {
                        0
                    } else {
                        max - taken
                    },
                ),
            )
        }),
{
}

/// A capsule shows these segments and no others, in this order: the state, in words and in its
/// colour; the delay, where it is to be shown, in milliseconds or that it took too long; the port or
/// that the mode is the transparent one. Offline it shows the state alone.
pub proof fn law_what_the_segments_say(status: ProxyStatus, prompt: PromptConfig)
    ensures
        ({
            let segs = segments_of(status, prompt);
            let state = match status.state {
                ConnState::Online => SegmentView::of(
                    config::icon_or(prompt.online_icon, "󰌘"@),
                    "online"@,
                    "#a6e3a1"@,
                ),
                ConnState::Reconnecting => SegmentView::of(
                    config::icon_or(prompt.reconnecting_icon, "󰑐"@),
                    "reconnecting"@,
                    "#f8dea6"@,
                ),
                ConnState::Offline => SegmentView::of(
                    config::icon_or(prompt.offline_icon, "󰌙"@),
                    "offline"@,
                    "#6c7086"@,
                ),
            };
            let delayed = status.state != ConnState::Offline && status.delay != Delay::Hidden;
            let ported = status.state != ConnState::Offline && status.port is Some;
            &&& segs.len() == 1 + (if delayed {
                1int
            } else {
                0int
            }) + (if ported {
                1int
            } else {
                0int
            })
            &&& segs[0] == state
            &&& delayed ==> segs[1] == SegmentView::of(
                config::icon_or(prompt.delay_icon, "󱎫"@),
                match status.delay {
                    Delay::Value(ms) => decimal::digits(ms as nat) + "ms"@,
                    _ => "timeout"@,
                },
                "#74c7ec"@,
            )
            &&& ported ==> segs.last() == SegmentView::of(
                config::icon_or(prompt.port_icon, "󰤨"@),
                match status.port->0 {
                    PortSeg::Num(n) => decimal::digits(n as nat),
                    PortSeg::Tun => "tun"@,
                },
                "#b4befe"@,
            )
        }),
{
}

/// A segment holds its icon and its value with single spaces between their words, and its colour.
pub proof fn law_what_a_segment_holds(icon: Seq<char>, value: Seq<char>, color: Seq<char>)
    ensures
        SegmentView::of(icon, value, color).icon == text::squeeze(icon),
        SegmentView::of(icon, value, color).value == text::squeeze(value),
        SegmentView::of(icon, value, color).color == color,
        SegmentView::of(icon, value, color).columns() == width(
            " "@ + text::squeeze(icon) + " "@ + text::squeeze(value) + " "@,
        ),
{
}

// ---------------------------------------------------------------------------------------
// Laws of the lines

/// The segments on lines, one after the other.
pub open spec fn on_lines(lines: Seq<Seq<SegmentView>>) -> Seq<SegmentView>
    decreases lines.len(),
{
    if lines.len() == 0 {
        seq![]
    } else {
        on_lines(lines.drop_last()) + lines.last()
    }
}

proof fn lemma_laid_out_keeps(segs: Seq<SegmentView>, n: int, columns: int, initial: int)
    requires
        0 <= n <= segs.len(),
    ensures
        ({
            let l = laid_out(segs, n, columns, initial);
            on_lines(l.lines) + l.current == Seq::new(n as nat, |i: int| segs[i].fit(columns))
        }),
    decreases n,
{
    let l = laid_out(segs, n, columns, initial);
    if n > 0 {
        lemma_laid_out_keeps(segs, n - 1, columns, initial);
        let before = laid_out(segs, n - 1, columns, initial);
        let seg = segs[n - 1].fit(columns);
        assert(before.lines.push(before.current).drop_last() =~= before.lines);
        assert(on_lines(l.lines) + l.current =~= (on_lines(before.lines) + before.current).push(
            seg,
        ));
        assert(Seq::new(n as nat, |i: int| segs[i].fit(columns)) =~= Seq::new(
            (n - 1) as nat,
            |i: int| segs[i].fit(columns),
        ).push(seg));
    } else {
        assert(on_lines(l.lines) + l.current =~= Seq::new(
            n as nat,
            |i: int| segs[i].fit(columns),
        ));
    }
}

/// No segment is lost or moved when a capsule is broken into lines: read line by line they are the
/// segments of the status, each shortened to a terminal of at least twenty columns.
pub proof fn law_no_segment_is_lost(
    status: ProxyStatus,
    prompt: PromptConfig,
    terminal: int,
    initial: int,
)
    ensures
        ({
            let segs = segments_of(status, prompt);
            let columns = if terminal < 20 {
                20
            } else {
                terminal
            };
            on_lines(capsule_lines(status, prompt, terminal, initial)) == Seq::new(
                segs.len(),
                |i: int| segs[i].fit(columns),
            )
        }),
{
    let segs = segments_of(status, prompt);
    let n = segs.len() as int;
    let l = laid_out(segs, n, usable(terminal), initial);
    lemma_laid_out_keeps(segs, n, usable(terminal), initial);
    if l.current.len() == 0 {
        assert(on_lines(l.lines) + l.current =~= on_lines(l.lines));
    } else {
        assert(l.lines.push(l.current).drop_last() =~= l.lines);
    }
}

/// A segment goes on a new line exactly where something stands on the line in progress and the
/// segment, which shares an edge with its neighbour, would reach the end of the terminal.
pub proof fn law_when_a_line_is_broken(l: Layout, seg: SegmentView, columns: int)
    ensures
        ({
            let more = if l.current.len() == 0 || seg.columns() == 0 {
                seg.columns() as int
            } else {
                seg.columns() - 1
            };
            let broken = l.used > 0 && l.used + more >= columns;
            let m = l.place(seg, columns);
            &&& broken ==> m.lines == l.lines.push(l.current) && m.current == seq![seg] && m.used
                == seg.columns()
            &&& !broken ==> m.lines == l.lines && m.current == l.current.push(seg) && m.used
                == l.used + more
        }),
{
}

// ---------------------------------------------------------------------------------------
// Laws of the colours

/// A colour written as a number sign and three bytes in hexadecimal digits has those bytes; what is
/// not six bytes long has none, and the fallback is taken.
pub proof fn law_colours_are_read(r: u8, g: u8, b: u8, fallback: (int, int, int), s: Seq<char>)
    ensures
        rgb_or(seq!['#'] + outside::hex_text(seq![r, g, b]), fallback) == (r as int, g as int, b as int),
        vstd::utf8::encode_utf8(without_hash(s)).len() != 6 ==> rgb_or(s, fallback) == fallback,
{
    let bytes = seq![r, g, b];
    let t = outside::hex_text(bytes);
    assert forall|i: int| 0 <= i < t.len() implies '\0' <= #[trigger] t[i] && t[i] <= '\u{7f}' by {
        assert(0 <= outside::half_byte(bytes, i) < 16);
    }
    vstd::utf8::is_ascii_chars_encode_utf8(t);
    assert((seq!['#'] + t).skip(1) =~= t);
    let e = vstd::utf8::encode_utf8(t);
    assert forall|i: int| 0 <= i < 6 implies hex_digit(#[trigger] e[i]) == Some(
        outside::half_byte(bytes, i),
    ) by {
        assert(0 <= outside::half_byte(bytes, i) < 16);
        assert(t[i] as u8 == e[i]);
    }
    assert(hex_digit(e[0]) == Some(r as int / 16) && hex_digit(e[1]) == Some(r as int % 16));
    assert(hex_digit(e[2]) == Some(g as int / 16) && hex_digit(e[3]) == Some(g as int % 16));
    assert(hex_digit(e[4]) == Some(b as int / 16) && hex_digit(e[5]) == Some(b as int % 16));
}

/// The escape sequence for a foreground, and those for a background with a foreground, name the
/// colours in decimal, red, green and blue.
pub proof fn law_escapes_name_the_colours(r: u8, g: u8, b: u8, x: u8, y: u8, z: u8)
    ensures
        ({
            let one = seq!['#'] + outside::hex_text(seq![r, g, b]);
            let other = seq!['#'] + outside::hex_text(seq![x, y, z]);
            let first = decimal::digits(r as nat) + ";"@ + decimal::digits(g as nat) + ";"@
                + decimal::digits(b as nat) + "m"@;
            let second = decimal::digits(x as nat) + ";"@ + decimal::digits(y as nat) + ";"@
                + decimal::digits(z as nat) + "m"@;
            &&& fg_escape(one) == "\x1b[38;2;"@ + first
            &&& bg_fg_escape(one, other) == "\x1b[48;2;"@ + first + ("\x1b[38;2;"@ + second)
        }),
{
    let one = seq!['#'] + outside::hex_text(seq![r, g, b]);
    let other = seq!['#'] + outside::hex_text(seq![x, y, z]);
    let first = decimal::digits(r as nat) + ";"@ + decimal::digits(g as nat) + ";"@
        + decimal::digits(b as nat) + "m"@;
    let second = decimal::digits(x as nat) + ";"@ + decimal::digits(y as nat) + ";"@
        + decimal::digits(z as nat) + "m"@;
    law_colours_are_read(r, g, b, (205, 214, 244), one);
    law_colours_are_read(r, g, b, (49, 50, 68), one);
    law_colours_are_read(x, y, z, (17, 17, 27), other);
    assert(fg_escape(one) =~= "\x1b[38;2;"@ + first);
    assert(bg_fg_escape(one, other) =~= "\x1b[48;2;"@ + first + ("\x1b[38;2;"@ + second));
}

// ---------------------------------------------------------------------------------------
// Laws of a line as written

/// What a terminal shows: the characters outside escape sequences.
pub struct Shown {
    pub text: Seq<char>,
    /// In the middle of an escape sequence.
    pub escaping: bool,
}

impl Shown {
    /// One more character.
    pub open spec fn read(self, c: char) -> Shown {
        if self.escaping {
            Shown { escaping: c != 'm', ..self }
        } else if c == '\x1b' {
            Shown { escaping: true, ..self }
        } else {
            Shown { text: self.text.push(c), ..self }
        }
    }

    /// More characters.
    pub open spec fn read_all(self, s: Seq<char>) -> Shown
        decreases s.len(),
    {
        if s.len() == 0 {
            self
        } else {
            self.read_all(s.drop_last()).read(s.last())
        }
    }
}

proof fn lemma_read_more(sh: Shown, a: Seq<char>, b: Seq<char>)
    ensures
        sh.read_all(a + b) == sh.read_all(a).read_all(b),
    decreases b.len(),
{
    if b.len() == 0 {
        assert(a + b =~= a);
    } else {
        lemma_read_more(sh, a, b.drop_last());
        assert((a + b).drop_last() =~= a + b.drop_last());
    }
}

proof fn lemma_read_plain(sh: Shown, s: Seq<char>)
    requires
        !sh.escaping,
        text::free_of(s, '\x1b'),
    ensures
        sh.read_all(s) == (Shown { text: sh.text + s, escaping: false }),
    decreases s.len(),
{
    if s.len() == 0 {
        assert(sh.text + s =~= sh.text);
    } else {
        let init = s.drop_last();
        assert forall|i: int| 0 <= i < init.len() implies #[trigger] init[i] != '\x1b' by {
            assert(s[i] != '\x1b');
        }
        lemma_read_plain(sh, init);
        assert(s[s.len() - 1] != '\x1b');
        assert((sh.text + init).push(s.last()) =~= sh.text + s);
    }
}

/// A text that begins an escape sequence, goes on without an `m` and ends it shows nothing.
proof fn lemma_read_escape(sh: Shown, s: Seq<char>)
    requires
        !sh.escaping,
        s.len() >= 2,
        s[0] == '\x1b',
        s.last() == 'm',
        text::free_of(s.subrange(1, s.len() - 1), 'm'),
    ensures
        sh.read_all(s) == sh,
{
    let head = seq!['\x1b'];
    let mid = s.subrange(1, s.len() - 1);
    assert(head.drop_last() =~= Seq::<char>::empty());
    assert(sh.read_all(head) == sh.read_all(head.drop_last()).read('\x1b'));
    let on = Shown { escaping: true, ..sh };
    assert(sh.read_all(head) == on);
    lemma_read_inside(on, mid);
    lemma_read_more(sh, head, mid);
    assert(s.drop_last() =~= head + mid);
}

proof fn lemma_read_inside(sh: Shown, s: Seq<char>)
    requires
        sh.escaping,
        text::free_of(s, 'm'),
    ensures
        sh.read_all(s) == sh,
    decreases s.len(),
{
    if s.len() > 0 {
        let init = s.drop_last();
        assert forall|i: int| 0 <= i < init.len() implies #[trigger] init[i] != 'm' by {
            assert(s[i] != 'm');
        }
        lemma_read_inside(sh, init);
        assert(s[s.len() - 1] != 'm');
    }
}

#[verifier::spinoff_prover]
#[verifier::rlimit(60)]
proof fn lemma_escape_shows_nothing(sh: Shown, intro: Seq<char>, c: (int, int, int))
    requires
        !sh.escaping,
        intro == "\x1b[38;2;"@ || intro == "\x1b[48;2;"@,
    ensures
        sh.read_all(escape(intro, c)) == sh,
{
    reveal_strlit("\x1b[38;2;");
    reveal_strlit("\x1b[48;2;");
    reveal_strlit(";");
    reveal_strlit("m");
    let s = escape(intro, c);
    let d0 = decimal::digits(c.0 as nat);
    let d1 = decimal::digits(c.1 as nat);
    let d2 = decimal::digits(c.2 as nat);
    decimal::lemma_digits_are_digits(c.0 as nat);
    decimal::lemma_digits_are_digits(c.1 as nat);
    decimal::lemma_digits_are_digits(c.2 as nat);
    let tail = intro.skip(1);
    let mid = tail + d0 + ";"@ + d1 + ";"@ + d2;
    assert(s =~= seq!['\x1b'] + mid + "m"@);
    assert(s.subrange(1, s.len() - 1) =~= mid);
    assert(text::free_of(tail, 'm'));
    assert(text::free_of(d0, 'm')) by {
        assert forall|i: int| 0 <= i < d0.len() implies #[trigger] d0[i] != 'm' by {
            assert(text::is_digit(d0[i]));
        }
    }
    assert(text::free_of(d1, 'm')) by {
        assert forall|i: int| 0 <= i < d1.len() implies #[trigger] d1[i] != 'm' by {
            assert(text::is_digit(d1[i]));
        }
    }
    assert(text::free_of(d2, 'm')) by {
        assert forall|i: int| 0 <= i < d2.len() implies #[trigger] d2[i] != 'm' by {
            assert(text::is_digit(d2[i]));
        }
    }
    assert(text::free_of(mid, 'm'));
    lemma_read_escape(sh, s);
}

proof fn lemma_reset_shows_nothing(sh: Shown)
    requires
        !sh.escaping,
    ensures
        sh.read_all(ANSI_RESET@) == sh,
{
    reveal_strlit("\x1b[0m");
    let s = ANSI_RESET@;
    assert(text::free_of(s.subrange(1, s.len() - 1), 'm'));
    lemma_read_escape(sh, s);
}

/// What a line shows of its first `n` segments: each with its icon and its value, spaces around
/// them, and an edge behind; in front of the first one the other edge.
pub open spec fn plain_line(line: Seq<SegmentView>, n: int) -> Seq<char>
    decreases n,
{
    if n <= 0 {
        seq![]
    } else {
        plain_line(line, n - 1) + (if n == 1 {
            "\u{e0b6}"@
        } else {
            ""@
        }) + " "@ + line[n - 1].icon + " "@ + line[n - 1].value + " "@ + "\u{e0b4}"@
    }
}

#[verifier::spinoff_prover]
#[verifier::rlimit(60)]
proof fn lemma_segment_shows(sh: Shown, line: Seq<SegmentView>, i: int)
    requires
        !sh.escaping,
        0 <= i < line.len(),
        text::free_of(line[i].icon, '\x1b'),
        text::free_of(line[i].value, '\x1b'),
    ensures
        sh.read_all(rendered_segment(line, i)) == (Shown {
            text: sh.text + ((if i == 0 {
                "\u{e0b6}"@
            } else {
                ""@
            }) + " "@ + line[i].icon + " "@ + line[i].value + " "@ + "\u{e0b4}"@),
            escaping: false,
        }),
{
    reveal_strlit("");
    reveal_strlit(" ");
    reveal_strlit("\u{e0b6}");
    reveal_strlit("\u{e0b4}");
    let seg = line[i];
    let none = Seq::<char>::empty();
    let left = if i == 0 {
        LEFT_EDGE@
    } else {
        none
    };
    let start = if i == 0 {
        fg_escape(seg.color) + LEFT_EDGE@
    } else {
        none
    };
    // the left edge
    let s1 = Shown { text: sh.text + left, escaping: false };
    if i == 0 {
        lemma_escape_shows_nothing(sh, "\x1b[38;2;"@, rgb_or(seg.color, (205, 214, 244)));
        lemma_read_more(sh, fg_escape(seg.color), LEFT_EDGE@);
        lemma_read_plain(sh, LEFT_EDGE@);
    } else {
        assert(sh.text + none =~= sh.text);
    }
    assert(sh.read_all(start) == s1);
    // the body
    let words = " "@ + seg.icon + " "@ + seg.value + " "@;
    let ink = bg_fg_escape(seg.color, COLOR_TEXT@);
    let body = bg_fg_escape(seg.color, COLOR_TEXT@) + " "@ + seg.icon + " "@ + seg.value + " "@;
    assert(body =~= ink + words);
    lemma_bg_fg_shows_nothing(s1, seg.color, COLOR_TEXT@);
    lemma_read_more(s1, ink, words);
    assert(text::free_of(words, '\x1b'));
    lemma_read_plain(s1, words);
    let s2 = Shown { text: s1.text + words, escaping: false };
    assert(s1.read_all(body) == s2);
    // the right edge
    let s3 = Shown { text: s2.text + RIGHT_EDGE@, escaping: false };
    lemma_read_plain(s2, RIGHT_EDGE@);
    let end = if i + 1 < line.len() {
        bg_fg_escape(line[i + 1].color, seg.color) + RIGHT_EDGE@
    } else {
        ANSI_RESET@ + fg_escape(seg.color) + RIGHT_EDGE@ + ANSI_RESET@
    };
    if i + 1 < line.len() {
        lemma_bg_fg_shows_nothing(s2, line[i + 1].color, seg.color);
        lemma_read_more(s2, bg_fg_escape(line[i + 1].color, seg.color), RIGHT_EDGE@);
    } else {
        lemma_reset_shows_nothing(s2);
        lemma_reset_shows_nothing(s3);
        lemma_escape_shows_nothing(s2, "\x1b[38;2;"@, rgb_or(seg.color, (205, 214, 244)));
        lemma_read_more(s2, ANSI_RESET@, fg_escape(seg.color));
        lemma_read_more(s2, ANSI_RESET@ + fg_escape(seg.color), RIGHT_EDGE@);
        lemma_read_more(s2, ANSI_RESET@ + fg_escape(seg.color) + RIGHT_EDGE@, ANSI_RESET@);
    }
    assert(s2.read_all(end) == s3);
    lemma_read_more(sh, start, body);
    lemma_read_more(sh, start + body, end);
    assert(s3.text =~= sh.text + ((if i == 0 {
        "\u{e0b6}"@
    } else {
        ""@
    }) + " "@ + seg.icon + " "@ + seg.value + " "@ + "\u{e0b4}"@));
}

proof fn lemma_bg_fg_shows_nothing(sh: Shown, bg: Seq<char>, fg: Seq<char>)
    requires
        !sh.escaping,
    ensures
        sh.read_all(bg_fg_escape(bg, fg)) == sh,
{
    let a = rgb_or(bg, (49, 50, 68));
    let b = rgb_or(fg, (17, 17, 27));
    lemma_escape_shows_nothing(sh, "\x1b[48;2;"@, a);
    lemma_escape_shows_nothing(sh, "\x1b[38;2;"@, b);
    lemma_read_more(sh, escape("\x1b[48;2;"@, a), escape("\x1b[38;2;"@, b));
}

/// What a terminal shows of a line of a capsule is each of its segments, in their order, with icon
/// and value, between rounded edges; the rest is colour.
pub proof fn law_what_a_line_shows(line: Seq<SegmentView>, n: int)
    requires
        0 <= n <= line.len(),
        forall|i: int|
            0 <= i < line.len() ==> text::free_of((#[trigger] line[i]).icon, '\x1b')
                && text::free_of(line[i].value, '\x1b'),
    ensures
        (Shown { text: seq![], escaping: false }).read_all(rendered(line, n)) == (Shown {
            text: plain_line(line, n),
            escaping: false,
        }),
    decreases n,
{
    let clear = Shown { text: seq![], escaping: false };
    if n > 0 {
        law_what_a_line_shows(line, n - 1);
        let before = Shown { text: plain_line(line, n - 1), escaping: false };
        assert(text::free_of(line[n - 1].icon, '\x1b'));
        lemma_segment_shows(before, line, n - 1);
        lemma_read_more(clear, rendered(line, n - 1), rendered_segment(line, n - 1));
        assert(before.text + ((if n - 1 == 0 {
            "\u{e0b6}"@
        } else {
            ""@
        }) + " "@ + line[n - 1].icon + " "@ + line[n - 1].value + " "@ + "\u{e0b4}"@)
            =~= plain_line(line, n));
    }
}

/// Each segment of a line stands on its own colour, written in the dark colour of all texts.
#[verifier::spinoff_prover]
#[verifier::rlimit(60)]
pub proof fn law_each_segment_has_its_colour(line: Seq<SegmentView>, i: int, n: int)
    requires
        0 <= i < n <= line.len(),
    ensures
        text::contains(
            rendered(line, n),
            bg_fg_escape(line[i].color, "#11111b"@) + " "@ + line[i].icon + " "@ + line[i].value
                + " "@,
        ),
    decreases n,
{
    let seg = line[i];
    let want = bg_fg_escape(seg.color, COLOR_TEXT@) + " "@ + seg.icon + " "@ + seg.value + " "@;
    let all = rendered(line, n);
    if i == n - 1 {
        let before = rendered(line, n - 1);
        let start = if i == 0 {
            fg_escape(seg.color) + LEFT_EDGE@
        } else {
            Seq::<char>::empty()
        };
        let at: int = before.len() as int + start.len();
        assert(all.subrange(at, at + want.len()) =~= want);
        assert(text::occurs_at(all, want, at));
    } else {
        law_each_segment_has_its_colour(line, i, n - 1);
        let before = rendered(line, n - 1);
        let at = choose|at: int| text::occurs_at(before, want, at);
        assert(all.subrange(at, at + want.len()) =~= before.subrange(at, at + want.len()));
        assert(text::occurs_at(all, want, at));
    }
}

/// The right edge of a segment as written to the terminal.
pub open spec fn right_edge(line: Seq<SegmentView>, i: int) -> Seq<char> {
    if i + 1 < line.len() {
        bg_fg_escape(line[i + 1].color, line[i].color) + "\u{e0b4}"@
    } else {
        "\x1b[0m"@ + fg_escape(line[i].color) + "\u{e0b4}"@ + "\x1b[0m"@
    }
}

proof fn lemma_found_behind(a: Seq<char>, b: Seq<char>)
    ensures
        text::contains(a + b, b),
{
    let n = a.len() as int;
    assert((a + b).subrange(n, n + b.len()) =~= b);
    assert(text::occurs_at(a + b, b, n));
}

proof fn lemma_found_in_front(a: Seq<char>, b: Seq<char>, want: Seq<char>)
    requires
        text::contains(a, want),
    ensures
        text::contains(a + b, want),
{
    let at = choose|at: int| text::occurs_at(a, want, at);
    assert((a + b).subrange(at, at + want.len()) =~= a.subrange(at, at + want.len()));
    assert(text::occurs_at(a + b, want, at));
}

#[verifier::spinoff_prover]
#[verifier::rlimit(60)]
proof fn lemma_segment_ends(line: Seq<SegmentView>, i: int)
    requires
        0 <= i < line.len(),
    ensures
        text::contains(
            rendered_segment(line, i),
            " "@ + line[i].value + " "@ + right_edge(line, i),
        ),
{
    let seg = line[i];
    let start = if i == 0 {
        fg_escape(seg.color) + LEFT_EDGE@
    } else {
        Seq::<char>::empty()
    };
    let ink = bg_fg_escape(seg.color, COLOR_TEXT@);
    let end = right_edge(line, i);
    let head = start + (ink + " "@ + seg.icon);
    let want = " "@ + seg.value + " "@ + end;
    assert(rendered_segment(line, i) == start + (ink + " "@ + seg.icon + " "@ + seg.value + " "@)
        + end);
    assert(rendered_segment(line, i) =~= head + want);
    lemma_found_behind(head, want);
}

proof fn lemma_found_further_on(a: Seq<char>, b: Seq<char>, want: Seq<char>)
    requires
        text::contains(b, want),
    ensures
        text::contains(a + b, want),
{
    let at = choose|at: int| text::occurs_at(b, want, at);
    let k = a.len() as int;
    assert((a + b).subrange(k + at, k + at + want.len()) =~= b.subrange(at, at + want.len()));
    assert(text::occurs_at(a + b, want, k + at));
}

proof fn lemma_value_with_edge(line: Seq<SegmentView>, i: int, n: int)
    requires
        0 <= i < n <= line.len(),
    ensures
        text::contains(
            rendered(line, n),
            " "@ + line[i].value + " "@ + right_edge(line, i),
        ),
    decreases n,
{
    let want = " "@ + line[i].value + " "@ + right_edge(line, i);
    if i == n - 1 {
        lemma_segment_ends(line, i);
        lemma_found_further_on(rendered(line, n - 1), rendered_segment(line, n - 1), want);
    } else {
        lemma_value_with_edge(line, i, n - 1);
        lemma_found_in_front(rendered(line, n - 1), rendered_segment(line, n - 1), want);
    }
}

#[verifier::spinoff_prover]
#[verifier::rlimit(60)]
proof fn lemma_first_edge(line: Seq<SegmentView>)
    requires
        line.len() > 0,
    ensures
        text::starts_with(rendered(line, 1), fg_escape(line[0].color) + LEFT_EDGE@),
{
    let left = fg_escape(line[0].color) + LEFT_EDGE@;
    let first = rendered_segment(line, 0);
    assert(rendered(line, 0) =~= Seq::<char>::empty());
    assert(rendered(line, 1) =~= first);
    assert(first.subrange(0, left.len() as int) =~= left);
}

/// The edges of a line join the colours: the first one has that of the first segment, each one
/// between two segments has that of the one before it on that of the one behind it, and the last
/// one has that of the last segment on nothing.
pub proof fn law_edges_join_the_colours(line: Seq<SegmentView>, i: int, n: int)
    requires
        0 <= i < n <= line.len(),
    ensures
        text::starts_with(rendered(line, 1), fg_escape(line[0].color) + "\u{e0b6}"@),
        text::contains(
            rendered(line, n),
            " "@ + line[i].value + " "@ + (if i + 1 < line.len() {
                bg_fg_escape(line[i + 1].color, line[i].color) + "\u{e0b4}"@
            } else {
                "\x1b[0m"@ + fg_escape(line[i].color) + "\u{e0b4}"@ + "\x1b[0m"@
            }),
        ),
{
    lemma_first_edge(line);
    lemma_value_with_edge(line, i, n);
}

// ---------------------------------------------------------------------------------------
// Laws of messages

/// Success is marked by a green tick, an error by a red cross, and anything else by a blue dot; then
/// come a space and the message, and behind another space the capsule, where there is one. It knows
/// how many columns the message takes.
pub proof fn law_how_messages_are_marked(
    message: Seq<char>,
    status: ProxyStatus,
    terminal: usize,
    prompt: PromptConfig,
)
    ensures
        ({
            let ok = "\x1b[1;38;2;166;227;161m"@ + "✔"@ + "\x1b[0m"@ + " "@ + message;
            let err = "\x1b[1;38;2;243;139;168m"@ + "✘"@ + "\x1b[0m"@ + " "@ + message;
            let info = "\x1b[1;38;2;137;180;250m"@ + "•"@ + "\x1b[0m"@ + " "@ + message;
            let behind = " "@ + capsule_text(
                status,
                prompt,
                terminal as int,
                columns_before(message),
            );
            &&& ok_text(message, None, prompt) == ok
            &&& err_text(message, None, prompt) == err
            &&& info_text(message, None, prompt) == info
            &&& ok_text(message, Some((status, terminal)), prompt) == ok + behind
            &&& err_text(message, Some((status, terminal)), prompt) == err + behind
            &&& info_text(message, Some((status, terminal)), prompt) == info + behind
        }),
        outside::text_columns(message) + 3 <= usize::MAX ==> columns_before(message)
            == outside::text_columns(message) + 3,
{
    let ok = "\x1b[1;38;2;166;227;161m"@ + "✔"@ + "\x1b[0m"@ + " "@ + message;
    let err = "\x1b[1;38;2;243;139;168m"@ + "✘"@ + "\x1b[0m"@ + " "@ + message;
    let info = "\x1b[1;38;2;137;180;250m"@ + "•"@ + "\x1b[0m"@ + " "@ + message;
    let capsule = capsule_text(status, prompt, terminal as int, columns_before(message));
    assert(ok + " "@ + capsule =~= ok + (" "@ + capsule));
    assert(err + " "@ + capsule =~= err + (" "@ + capsule));
    assert(info + " "@ + capsule =~= info + (" "@ + capsule));
}

/// The width of the terminal is what the environment says, where that is a number above zero; else
/// what `tput` printed, where that is a number; and else eighty.
pub proof fn law_where_the_width_comes_from(
    n: u32,
    m: u32,
    columns: Option<Seq<char>>,
    tput: Option<Seq<char>>,
    max: int,
)
    requires
        u32::MAX <= max,
    ensures
        n > 0 ==> terminal_columns(Some(decimal::digits(n as nat)), tput, max) == n,
        columns is None || columns == Some("0"@) || decimal::parse_unsigned(columns->0, max) is None
            ==> {
            &&& terminal_columns(columns, Some(decimal::digits(m as nat)), max) == m
            &&& terminal_columns(columns, None, max) == 80
            &&& tput is Some && decimal::parse_unsigned(text::trim(tput->0), max) is None
                ==> terminal_columns(columns, tput, max) == 80
        },
{
    reveal_strlit("0");
    decimal::lemma_parse_of_digits(n as nat, max);
    decimal::lemma_parse_of_digits(m as nat, max);
    decimal::lemma_parse_of_digits(0, max);
    assert(decimal::digits(0) =~= "0"@);
    let d = decimal::digits(m as nat);
    decimal::lemma_digits_are_digits(m as nat);
    let none = Seq::<char>::empty();
    assert(text::is_digit(d[0]) && text::is_digit(d[d.len() - 1]));
    text::lemma_trim_of_padded(none, d, none);
    assert(none + d + none =~= d);
}

} // verus!
