//! Text as sequences of characters: searching, trimming, splitting and joining.
//!
//! Every function here works on the characters of a string; the specification functions of
//! this module are the vocabulary in which the rest of the library states what it prints and
//! what it recognises.

use vstd::prelude::*;
use vstd::string::*;

verus! {

/// `String::push` appends one character to the end of the string.
pub assume_specification[ String::push ](s: &mut String, c: char)
    ensures
        final(s)@ == old(s)@.push(c),
;

/// The texts held by a sequence of strings.
pub open spec fn texts(v: Seq<String>) -> Seq<Seq<char>> {
    Seq::new(v.len(), |i: int| v[i]@)
}

/// Appending a string appends its text.
pub proof fn lemma_texts_push(v: Seq<String>, s: String)
    ensures
        texts(v.push(s)) == texts(v).push(s@),
{
    assert(texts(v.push(s)) =~= texts(v).push(s@));
}

/// The text held by an optional string.
pub open spec fn opt_text(s: Option<String>) -> Option<Seq<char>> {
    match s {
        Some(t) => Some(t@),
        None => None,
    }
}

/// The text held by an optional string slice.
pub open spec fn opt_str_text(s: Option<&str>) -> Option<Seq<char>> {
    match s {
        Some(t) => Some(t@),
        None => None,
    }
}

/// The characters of a string.
pub fn chars_of(s: &str) -> (v: Vec<char>)
    ensures
        v@ == s@,
{
    let mut v: Vec<char> = Vec::new();
    for c in it: s.chars()
        invariant
            v@ == it.seq().take(it.index()),
            it.seq() == s@,
    {
        v.push(c);
        assert(it.seq().take(it.index() + 1) =~= it.seq().take(it.index()).push(c));
    }
    assert(s@.take(s@.len() as int) =~= s@);
    v
}

/// The string made of the given characters.
pub fn string_of(chars: &[char]) -> (s: String)
    ensures
        s@ == chars@,
{
    let mut out = String::new();
    let mut i: usize = 0;
    while i < chars.len()
        invariant
            i <= chars.len(),
            out@ == chars@.take(i as int),
        decreases chars.len() - i,
    {
        out.push(chars[i]);
        i += 1;
        assert(chars@.take(i as int) =~= chars@.take(i - 1).push(chars@[i - 1]));
    }
    assert(chars@.take(i as int) =~= chars@);
    out
}

/// The string made of the characters from `from` up to, not including, `to`.
pub fn string_between(chars: &[char], from: usize, to: usize) -> (s: String)
    requires
        from <= to <= chars@.len(),
    ensures
        s@ == chars@.subrange(from as int, to as int),
{
    let part = vstd::slice::slice_subrange(chars, from, to);
    string_of(part)
}

/// Whether two character sequences are equal.
pub fn chars_equal(a: &[char], b: &[char]) -> (r: bool)
    ensures
        r == (a@ == b@),
{
    if a.len() != b.len() {
        return false;
    }
    let mut i: usize = 0;
    while i < a.len()
        invariant
            i <= a.len(),
            a@.len() == b@.len(),
            forall|j: int| 0 <= j < i ==> a@[j] == b@[j],
        decreases a.len() - i,
    {
        if a[i] != b[i] {
            return false;
        }
        i += 1;
    }
    assert(a@ =~= b@);
    true
}

/// Whether two strings hold the same text.
pub fn same_text(a: &str, b: &str) -> (r: bool)
    ensures
        r == (a@ == b@),
{
    let x = chars_of(a);
    let y = chars_of(b);
    chars_equal(&x, &y)
}

// ---------------------------------------------------------------------------------------
// Character classes

/// The Unicode `White_Space` property.
pub open spec fn is_ws(c: char) -> bool {
    let u = c as u32;
    ||| 0x9 <= u <= 0xD
    ||| u == 0x20
    ||| u == 0x85
    ||| u == 0xA0
    ||| u == 0x1680
    ||| 0x2000 <= u <= 0x200A
    ||| u == 0x2028
    ||| u == 0x2029
    ||| u == 0x202F
    ||| u == 0x205F
    ||| u == 0x3000
}

/// Whether a character has the Unicode `White_Space` property.
pub fn white_space(c: char) -> (r: bool)
    ensures
        r == is_ws(c),
{
    let u: u32 = c as u32;
    (0x9 <= u && u <= 0xD) || u == 0x20 || u == 0x85 || u == 0xA0 || u == 0x1680 || (0x2000 <= u
        && u <= 0x200A) || u == 0x2028 || u == 0x2029 || u == 0x202F || u == 0x205F || u == 0x3000
}

/// An ASCII decimal digit.
pub open spec fn is_digit(c: char) -> bool {
    '0' <= c && c <= '9'
}

/// An ASCII lower-case letter.
pub open spec fn is_lower(c: char) -> bool {
    'a' <= c && c <= 'z'
}

/// An ASCII upper-case letter.
pub open spec fn is_upper(c: char) -> bool {
    'A' <= c && c <= 'Z'
}

/// An ASCII letter or digit.
pub open spec fn is_alnum(c: char) -> bool {
    is_digit(c) || is_lower(c) || is_upper(c)
}

/// The lower-case letter for an ASCII upper-case letter; any other character itself.
pub open spec fn ascii_lower(c: char) -> char {
    if is_upper(c) {
        (c as int - 'A' as int + 'a' as int) as char
    } else {
        c
    }
}

/// Every character of the text is an ASCII digit.
pub open spec fn all_digits(s: Seq<char>) -> bool {
    forall|i: int| 0 <= i < s.len() ==> is_digit(#[trigger] s[i])
}

/// Whether every character is an ASCII digit.
pub fn only_digits(chars: &[char]) -> (r: bool)
    ensures
        r == all_digits(chars@),
{
    let mut i: usize = 0;
    while i < chars.len()
        invariant
            i <= chars.len(),
            forall|j: int| 0 <= j < i ==> is_digit(#[trigger] chars@[j]),
        decreases chars.len() - i,
    {
        if !('0' <= chars[i] && chars[i] <= '9') {
            assert(!is_digit(chars@[i as int]));
            return false;
        }
        i += 1;
    }
    true
}

/// How many bytes the UTF-8 encoding of a character has.
pub open spec fn utf8_len(c: char) -> int {
    let u = c as u32;
    if u < 0x80 {
        1
    } else if u < 0x800 {
        2
    } else if u < 0x10000 {
        3
    } else {
        4
    }
}

// ---------------------------------------------------------------------------------------
// Trimming

/// The text without its leading white space.
pub open spec fn trim_start(s: Seq<char>) -> Seq<char>
    decreases s.len(),
{
    if s.len() > 0 && is_ws(s[0]) {
        trim_start(s.drop_first())
    } else {
        s
    }
}

/// The text without its trailing white space.
pub open spec fn trim_end(s: Seq<char>) -> Seq<char>
    decreases s.len(),
{
    if s.len() > 0 && is_ws(s.last()) {
        trim_end(s.drop_last())
    } else {
        s
    }
}

/// The text without leading and trailing white space.
pub open spec fn trim(s: Seq<char>) -> Seq<char> {
    trim_end(trim_start(s))
}

/// No white space is left at either end.
pub proof fn lemma_trim_ends(s: Seq<char>)
    ensures
        trim(s).len() == 0 || (!is_ws(trim(s)[0]) && !is_ws(trim(s).last())),
        trim(trim(s)) == trim(s),
{
    lemma_trim_start_first(s);
    lemma_trim_end_last(trim_start(s));
}

proof fn lemma_trim_start_first(s: Seq<char>)
    ensures
        trim_start(s).len() == 0 || !is_ws(trim_start(s)[0]),
    decreases s.len(),
{
    if s.len() > 0 && is_ws(s[0]) {
        lemma_trim_start_first(s.drop_first());
    }
}

proof fn lemma_trim_end_last(s: Seq<char>)
    ensures
        trim_end(s).len() == 0 || (!is_ws(trim_end(s).last()) && trim_end(s)[0] == s[0]),
    decreases s.len(),
{
    if s.len() > 0 && is_ws(s.last()) {
        lemma_trim_end_last(s.drop_last());
    }
}

/// The characters without their leading white space.
pub fn trimmed_start_chars(chars: &[char]) -> (r: Vec<char>)
    ensures
        r@ == trim_start(chars@),
{
    let mut i: usize = 0;
    assert(chars@.skip(0) =~= chars@);
    while i < chars.len() && white_space(chars[i])
        invariant
            i <= chars.len(),
            trim_start(chars@) == trim_start(chars@.skip(i as int)),
        decreases chars.len() - i,
    {
        assert(chars@.skip(i as int).drop_first() =~= chars@.skip(i + 1));
        i += 1;
    }
    let rest = vstd::slice::slice_subrange(chars, i, chars.len());
    assert(rest@ =~= chars@.skip(i as int));
    vstd::slice::slice_to_vec(rest)
}

/// The characters without leading and trailing white space.
pub fn trimmed_chars(chars: &[char]) -> (r: Vec<char>)
    ensures
        r@ == trim(chars@),
{
    let head = trimmed_start_chars(chars);
    let mut j: usize = head.len();
    assert(head@.take(j as int) =~= head@);
    while j > 0 && white_space(head[j - 1])
        invariant
            j <= head.len(),
            trim_end(head@) == trim_end(head@.take(j as int)),
        decreases j,
    {
        assert(head@.take(j as int).drop_last() =~= head@.take(j - 1));
        j -= 1;
    }
    let kept = vstd::slice::slice_subrange(&head, 0, j);
    assert(kept@ =~= head@.take(j as int));
    vstd::slice::slice_to_vec(kept)
}

/// The string without leading and trailing white space.
pub fn trimmed(s: &str) -> (r: String)
    ensures
        r@ == trim(s@),
{
    let chars = chars_of(s);
    let kept = trimmed_chars(&chars);
    string_of(&kept)
}

/// The string without its leading white space.
pub fn trimmed_start(s: &str) -> (r: String)
    ensures
        r@ == trim_start(s@),
{
    let chars = chars_of(s);
    let kept = trimmed_start_chars(&chars);
    string_of(&kept)
}

/// The text without the occurrences of `c` at its end.
pub open spec fn trim_end_char(s: Seq<char>, c: char) -> Seq<char>
    decreases s.len(),
{
    if s.len() > 0 && s.last() == c {
        trim_end_char(s.drop_last(), c)
    } else {
        s
    }
}

/// The string without the occurrences of `c` at its end.
pub fn trimmed_end_char(s: &str, c: char) -> (r: String)
    ensures
        r@ == trim_end_char(s@, c),
{
    let head = chars_of(s);
    let mut j: usize = head.len();
    assert(head@.take(j as int) =~= head@);
    while j > 0 && head[j - 1] == c
        invariant
            j <= head.len(),
            trim_end_char(head@, c) == trim_end_char(head@.take(j as int), c),
        decreases j,
    {
        assert(head@.take(j as int).drop_last() =~= head@.take(j - 1));
        j -= 1;
    }
    assert(head@.subrange(0, j as int) =~= head@.take(j as int));
    string_between(&head, 0, j)
}

// ---------------------------------------------------------------------------------------
// Searching

/// `needle` stands in `hay` at position `i`.
pub open spec fn occurs_at(hay: Seq<char>, needle: Seq<char>, i: int) -> bool {
    &&& 0 <= i
    &&& i + needle.len() <= hay.len()
    &&& hay.subrange(i, i + needle.len()) == needle
}

/// `needle` stands somewhere in `hay`.
pub open spec fn contains(hay: Seq<char>, needle: Seq<char>) -> bool {
    exists|i: int| occurs_at(hay, needle, i)
}

/// The first position at or after `from` where `needle` stands in `hay`.
pub open spec fn first_from(hay: Seq<char>, needle: Seq<char>, from: int) -> Option<int>
    decreases hay.len() + 1 - from,
{
    if from > hay.len() {
        None
    } else if occurs_at(hay, needle, from) {
        Some(from)
    } else {
        first_from(hay, needle, from + 1)
    }
}

/// The first position where `needle` stands in `hay`.
pub open spec fn index_of(hay: Seq<char>, needle: Seq<char>) -> Option<int> {
    first_from(hay, needle, 0)
}

/// What `first_from` finds is an occurrence with none before it; it finds nothing only where
/// there is none.
pub proof fn lemma_first_from(hay: Seq<char>, needle: Seq<char>, from: int)
    requires
        0 <= from,
    ensures
        match first_from(hay, needle, from) {
            Some(i) => {
                &&& from <= i
                &&& occurs_at(hay, needle, i)
                &&& forall|j: int| from <= j < i ==> !occurs_at(hay, needle, j)
            },
            None => forall|j: int| from <= j ==> !occurs_at(hay, needle, j),
        },
    decreases hay.len() + 1 - from,
{
    if from > hay.len() {
    } else if occurs_at(hay, needle, from) {
    } else {
        lemma_first_from(hay, needle, from + 1);
    }
}

/// A position with an occurrence, and none between `from` and it, is the one that
/// `first_from` finds.
pub proof fn lemma_first_from_is(hay: Seq<char>, needle: Seq<char>, from: int, at: int)
    requires
        0 <= from <= at,
        occurs_at(hay, needle, at),
        forall|j: int| from <= j < at ==> !occurs_at(hay, needle, j),
    ensures
        first_from(hay, needle, from) == Some(at),
{
    lemma_first_from(hay, needle, from);
}

/// Whether `needle` stands in `hay` at position `at`.
pub fn chars_occur_at(hay: &[char], needle: &[char], at: usize) -> (r: bool)
    requires
        at <= hay@.len(),
    ensures
        r == occurs_at(hay@, needle@, at as int),
{
    if needle.len() > hay.len() - at {
        return false;
    }
    let part = vstd::slice::slice_subrange(hay, at, at + needle.len());
    chars_equal(part, needle)
}

/// The first position at or after `from` where `needle` stands in `hay`.
pub fn find_chars(hay: &[char], needle: &[char], from: usize) -> (r: Option<usize>)
    requires
        from <= hay@.len(),
    ensures
        match r {
            Some(i) => first_from(hay@, needle@, from as int) == Some(i as int) && i + needle@.len()
                <= hay@.len(),
            None => first_from(hay@, needle@, from as int) is None,
        },
{
    let mut i: usize = from;
    loop
        invariant
            from <= i <= hay@.len(),
            first_from(hay@, needle@, from as int) == first_from(hay@, needle@, i as int),
        decreases hay@.len() - i,
    {
        if chars_occur_at(hay, needle, i) {
            return Some(i);
        }
        if i == hay.len() {
            assert(first_from(hay@, needle@, i + 1) is None);
            return None;
        }
        i += 1;
    }
}

/// Whether `needle` stands somewhere in `hay`.
pub fn chars_contain(hay: &[char], needle: &[char]) -> (r: bool)
    ensures
        r == contains(hay@, needle@),
{
    proof {
        lemma_first_from(hay@, needle@, 0);
        if contains(hay@, needle@) {
            let i = choose|i: int| occurs_at(hay@, needle@, i);
            assert(0 <= i);
        }
    }
    find_chars(hay, needle, 0).is_some()
}

/// Whether `needle` stands somewhere in `hay`.
pub fn has(hay: &str, needle: &str) -> (r: bool)
    ensures
        r == contains(hay@, needle@),
{
    let h = chars_of(hay);
    let n = chars_of(needle);
    chars_contain(&h, &n)
}

/// The text starts with `prefix`.
pub open spec fn starts_with(s: Seq<char>, prefix: Seq<char>) -> bool {
    occurs_at(s, prefix, 0)
}

/// Whether the characters start with `prefix`.
pub fn chars_start_with(s: &[char], prefix: &[char]) -> (r: bool)
    ensures
        r == starts_with(s@, prefix@),
{
    chars_occur_at(s, prefix, 0)
}

/// Whether the string starts with `prefix`.
pub fn begins(s: &str, prefix: &str) -> (r: bool)
    ensures
        r == starts_with(s@, prefix@),
{
    let h = chars_of(s);
    let n = chars_of(prefix);
    chars_start_with(&h, &n)
}

/// The text after `prefix`, where it starts with it.
pub open spec fn strip_prefix(s: Seq<char>, prefix: Seq<char>) -> Option<Seq<char>> {
    if starts_with(s, prefix) {
        Some(s.skip(prefix.len() as int))
    } else {
        None
    }
}

/// The characters after `prefix`, where they start with it.
pub fn stripped_prefix(s: &[char], prefix: &[char]) -> (r: Option<Vec<char>>)
    ensures
        match r {
            Some(rest) => strip_prefix(s@, prefix@) == Some(rest@),
            None => strip_prefix(s@, prefix@) is None,
        },
{
    if chars_start_with(s, prefix) {
        let rest = vstd::slice::slice_subrange(s, prefix.len(), s.len());
        assert(rest@ =~= s@.skip(prefix@.len() as int));
        Some(vstd::slice::slice_to_vec(rest))
    } else {
        None
    }
}

// ---------------------------------------------------------------------------------------
// Splitting and joining

/// The pieces of the text between the occurrences of `c`, empty ones among them.
pub open spec fn split(s: Seq<char>, c: char) -> Seq<Seq<char>>
    decreases s.len(),
{
    if s.len() == 0 {
        seq![Seq::<char>::empty()]
    } else {
        let before = split(s.drop_last(), c);
        if s.last() == c {
            before.push(Seq::<char>::empty())
        } else {
            before.drop_last().push(before.last().push(s.last()))
        }
    }
}

/// Splitting always yields at least one piece.
pub proof fn lemma_split_nonempty(s: Seq<char>, c: char)
    ensures
        split(s, c).len() >= 1,
    decreases s.len(),
{
    if s.len() > 0 {
        lemma_split_nonempty(s.drop_last(), c);
    }
}

/// The pieces of the characters between the occurrences of `c`.
pub fn split_chars(s: &[char], c: char) -> (r: Vec<String>)
    ensures
        texts(r@) == split(s@, c),
{
    let mut out: Vec<String> = Vec::new();
    let mut cur = String::new();
    let mut i: usize = 0;
    assert(texts(out@).push(cur@) =~= split(s@.take(0), c));
    while i < s.len()
        invariant
            i <= s.len(),
            texts(out@).push(cur@) == split(s@.take(i as int), c),
        decreases s.len() - i,
    {
        let ghost before = texts(out@).push(cur@);
        assert(s@.take(i + 1).drop_last() =~= s@.take(i as int));
        assert(before.drop_last() =~= texts(out@));
        if s[i] == c {
            proof {
                lemma_texts_push(out@, cur);
            }
            out.push(cur);
            cur = String::new();
        } else {
            cur.push(s[i]);
        }
        i += 1;
        assert(texts(out@).push(cur@) =~= split(s@.take(i as int), c));
    }
    assert(s@.take(i as int) =~= s@);
    proof {
        lemma_texts_push(out@, cur);
    }
    out.push(cur);
    out
}

/// Behind the last separator stands the last piece.
pub proof fn lemma_split_last(a: Seq<char>, b: Seq<char>, c: char)
    requires
        forall|i: int| 0 <= i < b.len() ==> #[trigger] b[i] != c,
    ensures
        split(a.push(c) + b, c).last() == b,
    decreases b.len(),
{
    let s = a.push(c) + b;
    lemma_split_nonempty(s.drop_last(), c);
    if b.len() == 0 {
        assert(s.last() == c);
        assert(b =~= Seq::<char>::empty());
    } else {
        let rest = b.drop_last();
        assert forall|i: int| 0 <= i < rest.len() implies #[trigger] rest[i] != c by {
            assert(b[i] != c);
        }
        lemma_split_last(a, rest, c);
        assert(s.drop_last() =~= a.push(c) + rest);
        assert(s.last() == b.last());
        assert(b[b.len() - 1] != c);
        assert(rest.push(b.last()) =~= b);
    }
}

/// The pieces of the text between white space, empty ones among them.
pub open spec fn split_ws(s: Seq<char>) -> Seq<Seq<char>>
    decreases s.len(),
{
    if s.len() == 0 {
        seq![Seq::<char>::empty()]
    } else {
        let before = split_ws(s.drop_last());
        if is_ws(s.last()) {
            before.push(Seq::<char>::empty())
        } else {
            before.drop_last().push(before.last().push(s.last()))
        }
    }
}

/// The pieces that are not empty, in their order.
pub open spec fn nonempty(v: Seq<Seq<char>>) -> Seq<Seq<char>>
    decreases v.len(),
{
    if v.len() == 0 {
        seq![]
    } else if v.last().len() == 0 {
        nonempty(v.drop_last())
    } else {
        nonempty(v.drop_last()).push(v.last())
    }
}

/// The words of the text: its maximal runs without white space.
pub open spec fn words(s: Seq<char>) -> Seq<Seq<char>> {
    nonempty(split_ws(s))
}

/// The pieces of the characters between white space.
fn split_ws_chars(s: &[char]) -> (r: Vec<String>)
    ensures
        texts(r@) == split_ws(s@),
{
    let mut out: Vec<String> = Vec::new();
    let mut cur = String::new();
    let mut i: usize = 0;
    assert(texts(out@).push(cur@) =~= split_ws(s@.take(0)));
    while i < s.len()
        invariant
            i <= s.len(),
            texts(out@).push(cur@) == split_ws(s@.take(i as int)),
        decreases s.len() - i,
    {
        let ghost before = texts(out@).push(cur@);
        assert(s@.take(i + 1).drop_last() =~= s@.take(i as int));
        assert(before.drop_last() =~= texts(out@));
        if white_space(s[i]) {
            proof {
                lemma_texts_push(out@, cur);
            }
            out.push(cur);
            cur = String::new();
        } else {
            cur.push(s[i]);
        }
        i += 1;
        assert(texts(out@).push(cur@) =~= split_ws(s@.take(i as int)));
    }
    assert(s@.take(i as int) =~= s@);
    proof {
        lemma_texts_push(out@, cur);
    }
    out.push(cur);
    out
}

/// The words of the string.
pub fn words_of(s: &str) -> (r: Vec<String>)
    ensures
        texts(r@) == words(s@),
{
    let chars = chars_of(s);
    let pieces = split_ws_chars(&chars);
    let mut out: Vec<String> = Vec::new();
    let mut i: usize = 0;
    assert(texts(out@) =~= nonempty(texts(pieces@).take(0)));
    while i < pieces.len()
        invariant
            i <= pieces.len(),
            texts(out@) == nonempty(texts(pieces@).take(i as int)),
        decreases pieces.len() - i,
    {
        assert(texts(pieces@).take(i + 1).drop_last() =~= texts(pieces@).take(i as int));
        if !pieces[i].as_str().is_empty() {
            let w = pieces[i].clone();
            proof {
                lemma_texts_push(out@, w);
            }
            out.push(w);
        }
        i += 1;
    }
    assert(texts(pieces@).take(i as int) =~= texts(pieces@));
    out
}

/// The texts one after the other, with `sep` between each two.
pub open spec fn join(parts: Seq<Seq<char>>, sep: Seq<char>) -> Seq<char>
    decreases parts.len(),
{
    if parts.len() == 0 {
        seq![]
    } else if parts.len() == 1 {
        parts[0]
    } else {
        join(parts.drop_last(), sep) + sep + parts.last()
    }
}

/// The strings one after the other, with `sep` between each two.
pub fn joined(parts: &[String], sep: &str) -> (r: String)
    ensures
        r@ == join(texts(parts@), sep@),
{
    let mut out = String::new();
    let mut i: usize = 0;
    assert(out@ =~= join(texts(parts@).take(0), sep@));
    while i < parts.len()
        invariant
            i <= parts.len(),
            out@ == join(texts(parts@).take(i as int), sep@),
        decreases parts.len() - i,
    {
        assert(texts(parts@).take(i + 1).drop_last() =~= texts(parts@).take(i as int));
        if i > 0 {
            out.append(sep);
            out.append(parts[i].as_str());
        } else {
            assert(texts(parts@).take(1)[0] == parts@[0]@);
            out = parts[i].clone();
        }
        i += 1;
    }
    assert(texts(parts@).take(i as int) =~= texts(parts@));
    out
}

/// The words of the text with one space between each two.
pub open spec fn squeeze(s: Seq<char>) -> Seq<char> {
    join(words(s), " "@)
}

/// The words of the string with one space between each two.
pub fn squeezed(s: &str) -> (r: String)
    ensures
        r@ == squeeze(s@),
{
    let w = words_of(s);
    joined(&w, " ")
}

/// What one more character does to the words of a text: white space nothing; another
/// character extends the last word, or begins a new one after white space.
pub proof fn lemma_words_push(s: Seq<char>, c: char)
    ensures
        split_ws(s).len() >= 1,
        is_ws(c) ==> words(s.push(c)) == words(s),
        !is_ws(c) && split_ws(s).last().len() > 0 ==> words(s).len() > 0 && words(s.push(c))
            == words(s).drop_last().push(words(s).last().push(c)),
        !is_ws(c) && split_ws(s).last().len() == 0 ==> words(s.push(c)) == words(s).push(seq![c]),
        split_ws(s).last().len() == 0 ==> s.len() == 0 || is_ws(s.last()),
    decreases s.len(),
{
    assert(s.push(c).drop_last() =~= s);
    if s.len() > 0 {
        lemma_words_push(s.drop_last(), s.last());
        assert(s.drop_last().push(s.last()) =~= s);
    }
    let p = split_ws(s);
    if is_ws(c) {
        let q = p.push(Seq::<char>::empty());
        assert(q.drop_last() =~= p);
        assert(nonempty(q) == nonempty(p));
    } else {
        let q = p.drop_last().push(p.last().push(c));
        assert(q.drop_last() =~= p.drop_last());
        assert(nonempty(q) == nonempty(p.drop_last()).push(p.last().push(c)));
        if p.last().len() > 0 {
            assert(nonempty(p) == nonempty(p.drop_last()).push(p.last()));
            assert(nonempty(p).drop_last() =~= nonempty(p.drop_last()));
        } else {
            assert(nonempty(p) == nonempty(p.drop_last()));
            assert(p.last().push(c) =~= seq![c]);
        }
    }
}

/// What one more character does to the squeezed text.
pub proof fn lemma_squeeze_push(s: Seq<char>, c: char)
    ensures
        is_ws(c) ==> squeeze(s.push(c)) == squeeze(s),
        !is_ws(c) && split_ws(s).last().len() > 0 ==> squeeze(s.push(c)) == squeeze(s).push(c),
        !is_ws(c) && split_ws(s).last().len() == 0 ==> squeeze(s.push(c)) == (if words(s).len()
            == 0 {
            seq![c]
        } else {
            squeeze(s) + " "@ + seq![c]
        }),
        split_ws(s).last().len() == 0 ==> s.len() == 0 || is_ws(s.last()),
{
    lemma_words_push(s, c);
    if !is_ws(c) {
        let w = words(s);
        if split_ws(s).last().len() > 0 {
            let v = w.drop_last().push(w.last().push(c));
            if w.len() > 1 {
                assert(v.drop_last() =~= w.drop_last());
                assert(join(v, " "@) =~= join(w, " "@).push(c));
            } else {
                assert(v =~= seq![w[0].push(c)]);
            }
        } else {
            let v = w.push(seq![c]);
            assert(v.drop_last() =~= w);
        }
    }
}

/// The only white space in the text is the plain space.
pub open spec fn plain_spaced(s: Seq<char>) -> bool {
    forall|i: int| 0 <= i < s.len() && is_ws(#[trigger] s[i]) ==> s[i] == ' '
}

/// A squeezed text holds no white space but plain spaces.
pub proof fn lemma_squeeze_plain(s: Seq<char>)
    ensures
        plain_spaced(squeeze(s)),
    decreases s.len(),
{
    reveal_strlit(" ");
    if s.len() == 0 {
        assert(words(s) =~= Seq::<Seq<char>>::empty()) by {
            let p = split_ws(s);
            assert(p.drop_last() =~= Seq::<Seq<char>>::empty());
            assert(nonempty(p.drop_last()) =~= Seq::<Seq<char>>::empty());
            assert(p.last().len() == 0);
        }
    } else {
        let t = s.drop_last();
        lemma_squeeze_plain(t);
        lemma_squeeze_push(t, s.last());
        assert(t.push(s.last()) =~= s);
    }
}

/// The text without one carriage return at its end.
pub open spec fn strip_cr(s: Seq<char>) -> Seq<char> {
    if s.len() > 0 && s.last() == '\r' {
        s.drop_last()
    } else {
        s
    }
}

/// The lines of the text. A line ends at a line feed, which with a carriage return before it
/// is no part of the line; text after the last line feed is a line unless it is empty.
pub open spec fn lines(s: Seq<char>) -> Seq<Seq<char>> {
    let p = split(s, '\n');
    let ended = Seq::new((p.len() - 1) as nat, |i: int| strip_cr(p[i]));
    if p.last().len() == 0 {
        ended
    } else {
        ended.push(p.last())
    }
}

/// The string without one carriage return at its end.
fn stripped_cr(s: &str) -> (r: String)
    ensures
        r@ == strip_cr(s@),
{
    let chars = chars_of(s);
    let n = chars.len();
    if n > 0 && chars[n - 1] == '\r' {
        assert(chars@.subrange(0, n - 1) =~= chars@.drop_last());
        string_between(&chars, 0, n - 1)
    } else {
        string_of(&chars)
    }
}

/// The lines of the string.
pub fn lines_of(s: &str) -> (r: Vec<String>)
    ensures
        texts(r@) == lines(s@),
{
    let chars = chars_of(s);
    let pieces = split_chars(&chars, '\n');
    proof {
        lemma_split_nonempty(s@, '\n');
    }
    let ghost p = split(s@, '\n');
    let mut out: Vec<String> = Vec::new();
    let mut i: usize = 0;
    while i < pieces.len() - 1
        invariant
            p == texts(pieces@),
            1 <= pieces@.len(),
            i + 1 <= pieces@.len(),
            out@.len() == i,
            forall|j: int| 0 <= j < i ==> (#[trigger] out@[j])@ == strip_cr(p[j]),
        decreases pieces.len() - i,
    {
        out.push(stripped_cr(pieces[i].as_str()));
        i += 1;
    }
    let ghost ended = Seq::new((p.len() - 1) as nat, |j: int| strip_cr(p[j]));
    assert(texts(out@) =~= ended);
    if !pieces[i].as_str().is_empty() {
        let last = pieces[i].clone();
        proof {
            lemma_texts_push(out@, last);
        }
        out.push(last);
    }
    out
}

/// The text with each `c` replaced by `with`.
pub open spec fn replace_char(s: Seq<char>, c: char, with: Seq<char>) -> Seq<char>
    decreases s.len(),
{
    if s.len() == 0 {
        seq![]
    } else if s.last() == c {
        replace_char(s.drop_last(), c, with) + with
    } else {
        replace_char(s.drop_last(), c, with).push(s.last())
    }
}

/// The string with each `c` replaced by `with`.
pub fn replaced_char(s: &str, c: char, with: &str) -> (r: String)
    ensures
        r@ == replace_char(s@, c, with@),
{
    let chars = chars_of(s);
    let mut out = String::new();
    let mut i: usize = 0;
    assert(out@ =~= replace_char(chars@.take(0), c, with@));
    while i < chars.len()
        invariant
            i <= chars.len(),
            out@ == replace_char(chars@.take(i as int), c, with@),
        decreases chars.len() - i,
    {
        assert(chars@.take(i + 1).drop_last() =~= chars@.take(i as int));
        if chars[i] == c {
            out.append(with);
        } else {
            out.push(chars[i]);
        }
        i += 1;
    }
    assert(chars@.take(i as int) =~= chars@);
    out
}

// ---------------------------------------------------------------------------------------
// Order

/// The text comes before the other in the order of their characters.
pub open spec fn before(a: Seq<char>, b: Seq<char>) -> bool
    decreases a.len(),
{
    if b.len() == 0 {
        false
    } else if a.len() == 0 {
        true
    } else {
        a[0] < b[0] || (a[0] == b[0] && before(a.drop_first(), b.drop_first()))
    }
}

/// Each text comes before the next.
pub open spec fn ascending(v: Seq<Seq<char>>) -> bool {
    forall|i: int, j: int| 0 <= i < j < v.len() ==> before(#[trigger] v[i], #[trigger] v[j])
}

/// Of two different texts one comes before the other.
pub proof fn lemma_before_total(a: Seq<char>, b: Seq<char>)
    requires
        a != b,
    ensures
        before(a, b) || before(b, a),
    decreases a.len(),
{
    if a.len() == 0 || b.len() == 0 {
        if a.len() == 0 && b.len() == 0 {
            assert(a =~= b);
        }
    } else if a[0] == b[0] {
        if a.drop_first() == b.drop_first() {
            assert(a =~= seq![a[0]] + a.drop_first());
            assert(b =~= seq![b[0]] + b.drop_first());
        }
        lemma_before_total(a.drop_first(), b.drop_first());
    }
}

/// The order is transitive.
pub proof fn lemma_before_transitive(a: Seq<char>, b: Seq<char>, c: Seq<char>)
    requires
        before(a, b),
        before(b, c),
    ensures
        before(a, c),
    decreases a.len(),
{
    if a.len() > 0 && a[0] == b[0] && b[0] == c[0] {
        lemma_before_transitive(a.drop_first(), b.drop_first(), c.drop_first());
    }
}

/// Whether a text comes before another.
pub fn comes_before(a: &[char], b: &[char]) -> (r: bool)
    ensures
        r == before(a@, b@),
{
    let mut i: usize = 0;
    assert(a@.skip(0) =~= a@);
    assert(b@.skip(0) =~= b@);
    while i < a.len() && i < b.len() && a[i] == b[i]
        invariant
            i <= a.len(),
            i <= b.len(),
            before(a@, b@) == before(a@.skip(i as int), b@.skip(i as int)),
        decreases a.len() - i,
    {
        assert(a@.skip(i as int).drop_first() =~= a@.skip(i + 1));
        assert(b@.skip(i as int).drop_first() =~= b@.skip(i + 1));
        i += 1;
    }
    if i == b.len() {
        false
    } else if i == a.len() {
        true
    } else {
        a[i] < b[i]
    }
}

/// One more text adds itself to the set of texts.
pub proof fn lemma_to_set_push(v: Seq<Seq<char>>, t: Seq<char>)
    ensures
        v.push(t).to_set() == v.to_set().insert(t),
{
    assert forall|x: Seq<char>| v.push(t).to_set().contains(x) == v.to_set().insert(t).contains(
        x,
    ) by {
        if v.push(t).contains(x) {
            let i = choose|i: int| 0 <= i < v.push(t).len() && v.push(t)[i] == x;
            if i < v.len() {
                assert(v[i] == x);
            }
        }
        if v.contains(x) {
            let i = choose|i: int| 0 <= i < v.len() && v[i] == x;
            assert(v.push(t)[i] == x);
        }
        assert(v.push(t)[v.len() as int] == t);
    }
    assert(v.push(t).to_set() =~= v.to_set().insert(t));
}

/// Ascending strings with one more text put in its place, unless it is there already.
pub fn inserted(v: Vec<String>, s: &str) -> (r: Vec<String>)
    requires
        ascending(texts(v@)),
    ensures
        ascending(texts(r@)),
        texts(r@).to_set() == texts(v@).to_set().insert(s@),
{
    let key = chars_of(s);
    let ghost held = texts(v@);
    let mut at: usize = 0;
    while at < v.len() && comes_before(&chars_of(&v[at]), &key)
        invariant
            at <= v.len(),
            key@ == s@,
            held == texts(v@),
            forall|j: int| 0 <= j < at ==> before(#[trigger] held[j], s@),
        decreases v.len() - at,
    {
        assert(held[at as int] == v@[at as int]@);
        at += 1;
    }
    if at < v.len() && same_text(&v[at], s) {
        proof {
            assert(held[at as int] == s@);
            assert(held.to_set().contains(s@));
            assert(held.to_set().insert(s@) =~= held.to_set());
        }
        return v;
    }
    let mut out = v;
    out.insert(at, s.to_owned());
    proof {
        let now = texts(out@);
        assert(now =~= held.insert(at as int, s@));
        assert(at < held.len() ==> before(s@, held[at as int])) by {
            if at < held.len() {
                lemma_before_total(held[at as int], s@);
            }
        }
        assert forall|j: int| at <= j < held.len() implies before(s@, #[trigger] held[j]) by {
            if j > at {
                lemma_before_transitive(s@, held[at as int], held[j]);
            }
        }
        assert forall|i: int, j: int| 0 <= i < j < now.len() implies before(
            #[trigger] now[i],
            #[trigger] now[j],
        ) by {
            if i < at {
                assert(now[i] == held[i]);
            } else if i > at {
                assert(now[i] == held[i - 1]);
            }
            if j < at {
                assert(now[j] == held[j]);
            } else if j > at {
                assert(now[j] == held[j - 1]);
            }
        }
        assert forall|x: Seq<char>| now.to_set().contains(x) == held.to_set().insert(
            s@,
        ).contains(x) by {
            if now.contains(x) {
                let i = choose|i: int| 0 <= i < now.len() && now[i] == x;
                if i < at {
                    assert(held[i] == x);
                } else if i > at {
                    assert(held[i - 1] == x);
                }
            }
            if held.contains(x) {
                let i = choose|i: int| 0 <= i < held.len() && held[i] == x;
                if i < at {
                    assert(now[i] == x);
                } else {
                    assert(now[i + 1] == x);
                }
            }
            assert(now[at as int] == s@);
        }
        assert(now.to_set() =~= held.to_set().insert(s@));
    }
    out
}

// ---------------------------------------------------------------------------------------
// Laws

/// The text holds no `c`.
pub open spec fn free_of(s: Seq<char>, c: char) -> bool {
    forall|i: int| 0 <= i < s.len() ==> #[trigger] s[i] != c
}

/// Splitting loses nothing: no piece holds the separator, and the pieces with the separator between
/// them are the text.
pub proof fn law_joining_undoes_splitting(s: Seq<char>, c: char)
    ensures
        split(s, c).len() >= 1,
        forall|i: int| 0 <= i < split(s, c).len() ==> free_of(#[trigger] split(s, c)[i], c),
        join(split(s, c), seq![c]) == s,
    decreases s.len(),
{
    let p = split(s, c);
    if s.len() == 0 {
        assert(join(p, seq![c]) =~= s);
    } else {
        let init = s.drop_last();
        law_joining_undoes_splitting(init, c);
        let before = split(init, c);
        if s.last() == c {
            assert(p.drop_last() =~= before);
            assert(join(p, seq![c]) =~= init + seq![c] + Seq::<char>::empty());
            assert(init + seq![c] + Seq::<char>::empty() =~= s);
            assert forall|i: int| 0 <= i < p.len() implies free_of(#[trigger] p[i], c) by {
                if i < before.len() {
                    assert(free_of(before[i], c));
                }
            }
        } else {
            let last = before.last();
            assert(free_of(before[before.len() - 1], c));
            assert forall|i: int| 0 <= i < p.len() implies free_of(#[trigger] p[i], c) by {
                if i < before.len() - 1 {
                    assert(free_of(before[i], c));
                }
            }
            assert(p.drop_last() =~= before.drop_last());
            if before.len() == 1 {
                assert(join(before, seq![c]) == before[0]);
                assert(last.push(s.last()) =~= s);
            } else {
                assert(join(before.drop_last(), seq![c]) + seq![c] + last == init);
                assert(join(p, seq![c]) =~= init.push(s.last()));
                assert(init.push(s.last()) =~= s);
            }
        }
    }
}

proof fn lemma_split_grows(a: Seq<char>, b: Seq<char>, c: char)
    requires
        free_of(b, c),
    ensures
        split(a.push(c) + b, c) == split(a, c).push(b),
    decreases b.len(),
{
    let s = a.push(c) + b;
    if b.len() == 0 {
        assert(s =~= a.push(c));
        assert(s.drop_last() =~= a);
        assert(b =~= Seq::<char>::empty());
    } else {
        let rest = b.drop_last();
        assert forall|i: int| 0 <= i < rest.len() implies #[trigger] rest[i] != c by {
            assert(b[i] != c);
        }
        lemma_split_grows(a, rest, c);
        assert(s.drop_last() =~= a.push(c) + rest);
        assert(b[b.len() - 1] != c);
        assert(split(a, c).push(rest).drop_last() =~= split(a, c));
        assert(rest.push(b.last()) =~= b);
    }
}

proof fn lemma_split_free(b: Seq<char>, c: char)
    requires
        free_of(b, c),
    ensures
        split(b, c) == seq![b],
    decreases b.len(),
{
    if b.len() == 0 {
        assert(b =~= Seq::<char>::empty());
    } else {
        let rest = b.drop_last();
        assert forall|i: int| 0 <= i < rest.len() implies #[trigger] rest[i] != c by {
            assert(b[i] != c);
        }
        lemma_split_free(rest, c);
        assert(b[b.len() - 1] != c);
        assert(rest.push(b.last()) =~= b);
        assert(split(b, c) =~= seq![b]);
    }
}

/// Joined texts that do not hold the separator come apart again where they were joined.
pub proof fn law_splitting_undoes_joining(parts: Seq<Seq<char>>, c: char)
    requires
        parts.len() >= 1,
        forall|i: int| 0 <= i < parts.len() ==> free_of(#[trigger] parts[i], c),
    ensures
        split(join(parts, seq![c]), c) == parts,
    decreases parts.len(),
{
    let last = parts.last();
    assert(free_of(parts[parts.len() - 1], c));
    if parts.len() == 1 {
        lemma_split_free(last, c);
        assert(parts =~= seq![last]);
    } else {
        let init = parts.drop_last();
        assert forall|i: int| 0 <= i < init.len() implies free_of(#[trigger] init[i], c) by {
            assert(free_of(parts[i], c));
        }
        law_splitting_undoes_joining(init, c);
        let a = join(init, seq![c]);
        assert(a + seq![c] + last =~= a.push(c) + last);
        lemma_split_grows(a, last, c);
        assert(init.push(last) =~= parts);
    }
}

/// The text is nothing but white space.
pub open spec fn blank(s: Seq<char>) -> bool {
    forall|i: int| 0 <= i < s.len() ==> is_ws(#[trigger] s[i])
}

proof fn lemma_trim_start_splits(s: Seq<char>)
    ensures
        trim_start(s).len() <= s.len(),
        blank(s.take(s.len() - trim_start(s).len())),
        s.skip(s.len() - trim_start(s).len()) == trim_start(s),
        trim_start(s).len() == 0 || !is_ws(trim_start(s)[0]),
    decreases s.len(),
{
    if s.len() > 0 && is_ws(s[0]) {
        let rest = s.drop_first();
        lemma_trim_start_splits(rest);
        let n = s.len() - trim_start(s).len();
        assert forall|i: int| 0 <= i < s.take(n).len() implies is_ws(#[trigger] s.take(n)[i]) by {
            if i > 0 {
                assert(is_ws(rest.take(n - 1)[i - 1]));
            }
        }
        assert(s.skip(n) =~= rest.skip(n - 1));
    } else {
        assert(s.skip(0) =~= s);
    }
}

proof fn lemma_trim_end_splits(s: Seq<char>)
    ensures
        trim_end(s).len() <= s.len(),
        blank(s.skip(trim_end(s).len() as int)),
        s.take(trim_end(s).len() as int) == trim_end(s),
        trim_end(s).len() == 0 || !is_ws(trim_end(s).last()),
    decreases s.len(),
{
    if s.len() > 0 && is_ws(s.last()) {
        let rest = s.drop_last();
        lemma_trim_end_splits(rest);
        let n = trim_end(s).len() as int;
        assert forall|i: int| 0 <= i < s.skip(n).len() implies is_ws(#[trigger] s.skip(n)[i]) by {
            if n + i < rest.len() {
                assert(is_ws(rest.skip(n)[i]));
            }
        }
        assert(s.take(n) =~= rest.take(n));
    } else {
        assert(s.take(s.len() as int) =~= s);
    }
}

/// Trimming takes white space off both ends, all of it and nothing else: what is left begins and
/// ends with something else, or is empty where there was nothing else.
pub proof fn law_trimming_takes_white_space_off_the_ends(s: Seq<char>)
    ensures
        exists|a: Seq<char>, b: Seq<char>|
            #![trigger blank(a), blank(b)]
            blank(a) && blank(b) && s == a + trim(s) + b,
        trim(s).len() == 0 || (!is_ws(trim(s)[0]) && !is_ws(trim(s).last())),
{
    let t = trim_start(s);
    lemma_trim_start_splits(s);
    lemma_trim_end_splits(t);
    lemma_trim_ends(s);
    let a = s.take(s.len() - t.len());
    let b = t.skip(trim(s).len() as int);
    assert(t =~= trim(s) + b);
    assert(s =~= a + trim(s) + b);
    assert(blank(a) && blank(b));
    if trim(s).len() > 0 {
        assert(t[0] == trim(s)[0]);
    }
}

/// White space around a text that neither begins nor ends with any is trimmed off.
pub proof fn lemma_trim_of_padded(a: Seq<char>, t: Seq<char>, b: Seq<char>)
    requires
        blank(a),
        blank(b),
        t.len() > 0,
        !is_ws(t[0]),
        !is_ws(t.last()),
    ensures
        trim(a + t + b) == t,
{
    lemma_trim_start_of_padded(a, t + b);
    assert(a + t + b =~= a + (t + b));
    lemma_trim_end_of_padded(t, b);
}

proof fn lemma_trim_start_of_padded(a: Seq<char>, t: Seq<char>)
    requires
        blank(a),
        t.len() > 0,
        !is_ws(t[0]),
    ensures
        trim_start(a + t) == t,
    decreases a.len(),
{
    if a.len() == 0 {
        assert(a + t =~= t);
    } else {
        let rest = a.drop_first();
        assert(is_ws(a[0]));
        assert forall|i: int| 0 <= i < rest.len() implies is_ws(#[trigger] rest[i]) by {
            assert(is_ws(a[i + 1]));
        }
        lemma_trim_start_of_padded(rest, t);
        assert((a + t).drop_first() =~= rest + t);
    }
}

proof fn lemma_trim_end_of_padded(t: Seq<char>, b: Seq<char>)
    requires
        blank(b),
        t.len() > 0,
        !is_ws(t.last()),
    ensures
        trim_end(t + b) == t,
    decreases b.len(),
{
    if b.len() == 0 {
        assert(t + b =~= t);
    } else {
        let rest = b.drop_last();
        assert(is_ws(b[b.len() - 1]));
        assert forall|i: int| 0 <= i < rest.len() implies is_ws(#[trigger] rest[i]) by {
            assert(is_ws(b[i]));
        }
        lemma_trim_end_of_padded(t, rest);
        assert((t + b).drop_last() =~= t + rest);
    }
}

/// A text joined with others stands in front of them.
pub proof fn lemma_join_front(first: Seq<char>, rest: Seq<Seq<char>>, sep: Seq<char>)
    requires
        rest.len() >= 1,
    ensures
        join(seq![first] + rest, sep) == first + sep + join(rest, sep),
    decreases rest.len(),
{
    let all = seq![first] + rest;
    assert(all.drop_last() =~= seq![first] + rest.drop_last());
    if rest.len() == 1 {
        assert(all.drop_last() =~= seq![first]);
        assert(join(all.drop_last(), sep) == first);
        assert(join(rest, sep) == rest[0]);
    } else {
        lemma_join_front(first, rest.drop_last(), sep);
        assert(join(all, sep) =~= first + sep + join(rest.drop_last(), sep) + sep + rest.last());
        assert(join(all, sep) =~= first + sep + join(rest, sep));
    }
}

/// Nothing is left of a text exactly where it is nothing but white space.
pub proof fn lemma_trim_of_blank(s: Seq<char>)
    ensures
        trim(s).len() == 0 <==> blank(s),
{
    law_trimming_takes_white_space_off_the_ends(s);
    let (a, b) = choose|a: Seq<char>, b: Seq<char>|
        #![trigger blank(a), blank(b)]
        blank(a) && blank(b) && s == a + trim(s) + b;
    if trim(s).len() == 0 {
        assert forall|i: int| 0 <= i < s.len() implies is_ws(#[trigger] s[i]) by {
            if i < a.len() {
                assert(is_ws(a[i]));
            } else {
                assert(is_ws(b[i - a.len()]));
            }
        }
    } else {
        assert(s[a.len() as int] == trim(s)[0]);
    }
}

/// The pieces that are kept are those that are not empty, in their order.
pub proof fn law_only_empty_pieces_go(v: Seq<Seq<char>>)
    ensures
        nonempty(v) == v.filter(|t: Seq<char>| t.len() > 0),
    decreases v.len(),
{
    reveal(Seq::filter);
    if v.len() > 0 {
        law_only_empty_pieces_go(v.drop_last());
    } else {
        assert(nonempty(v) =~= v);
    }
}

/// Lines that are written one after the other, each ended by a line feed, are read as they were
/// written.
pub proof fn law_lines_are_read_as_written(v: Seq<Seq<char>>)
    requires
        v.len() >= 1,
        forall|i: int| 0 <= i < v.len() ==> free_of(#[trigger] v[i], '\n'),
        forall|i: int|
            0 <= i < v.len() ==> (#[trigger] v[i]).len() == 0 || v[i].last() != '\r',
    ensures
        lines(join(v, seq!['\n']).push('\n')) == v,
{
    let s = join(v, seq!['\n']);
    law_splitting_undoes_joining(v, '\n');
    assert(s.push('\n').drop_last() =~= s);
    let p = split(s.push('\n'), '\n');
    assert(p == v.push(Seq::<char>::empty()));
    assert(lines(s.push('\n')) =~= v) by {
        assert forall|i: int| 0 <= i < v.len() implies strip_cr(p[i]) == v[i] by {
            assert(p[i] == v[i]);
            assert(v[i].len() == 0 || v[i].last() != '\r');
        }
    }
}

/// White space is what Unicode calls so: the tab and what follows it up to the carriage return, the
/// space, the next line, and the spaces and separators of other widths.
pub proof fn law_what_white_space_is(c: char)
    ensures
        is_ws(c) <==> ('\t' <= c && c <= '\r') || c == ' ' || c == '\u{85}' || c == '\u{a0}' || c
            == '\u{1680}' || ('\u{2000}' <= c && c <= '\u{200a}') || c == '\u{2028}' || c
            == '\u{2029}' || c == '\u{202f}' || c == '\u{205f}' || c == '\u{3000}',
{
}

/// A word is not empty and holds no white space.
pub open spec fn is_word(w: Seq<char>) -> bool {
    w.len() > 0 && forall|i: int| 0 <= i < w.len() ==> !is_ws(#[trigger] w[i])
}

proof fn lemma_split_ws_of(a: Seq<char>, c: char, b: Seq<char>)
    requires
        is_ws(c),
    ensures
        split_ws(a.push(c) + b) == split_ws(a) + split_ws(b),
        split_ws(b).len() >= 1,
    decreases b.len(),
{
    let s = a.push(c) + b;
    if b.len() == 0 {
        assert(s =~= a.push(c));
        assert(s.drop_last() =~= a);
        assert(split_ws(s) =~= split_ws(a) + split_ws(b));
    } else {
        let rest = b.drop_last();
        lemma_split_ws_of(a, c, rest);
        assert(s.drop_last() =~= a.push(c) + rest);
        assert(s.last() == b.last());
        let p = split_ws(a);
        let q = split_ws(rest);
        assert((p + q).last() == q.last());
        assert((p + q).drop_last() =~= p + q.drop_last());
        assert(split_ws(s) =~= p + split_ws(b));
    }
}

proof fn lemma_nonempty_of(p: Seq<Seq<char>>, q: Seq<Seq<char>>)
    ensures
        nonempty(p + q) == nonempty(p) + nonempty(q),
    decreases q.len(),
{
    if q.len() == 0 {
        assert(p + q =~= p);
        assert(nonempty(p) + nonempty(q) =~= nonempty(p));
    } else {
        lemma_nonempty_of(p, q.drop_last());
        assert((p + q).drop_last() =~= p + q.drop_last());
        assert(nonempty(p + q) =~= nonempty(p) + nonempty(q));
    }
}

/// The words of a text: white space anywhere parts them, so that the words before it and those
/// behind it make up all of them; a text that is a word itself is its only one, and one without
/// characters has none.
pub proof fn law_how_texts_come_apart_into_words(
    a: Seq<char>,
    c: char,
    b: Seq<char>,
    w: Seq<char>,
)
    ensures
        is_ws(c) ==> words(a.push(c) + b) == words(a) + words(b),
        is_word(w) ==> words(w) == seq![w],
        words(Seq::<char>::empty()).len() == 0,
{
    if is_ws(c) {
        lemma_split_ws_of(a, c, b);
        lemma_nonempty_of(split_ws(a), split_ws(b));
    }
    if is_word(w) {
        lemma_words_of_word(w);
    }
    let p = split_ws(Seq::<char>::empty());
    assert(p.drop_last() =~= Seq::<Seq<char>>::empty());
    assert(nonempty(p.drop_last()).len() == 0);
}

proof fn lemma_words_of_word(w: Seq<char>)
    requires
        is_word(w),
    ensures
        split_ws(w) == seq![w],
        words(w) == seq![w],
    decreases w.len(),
{
    let init = w.drop_last();
    assert(!is_ws(w[w.len() - 1]));
    if init.len() == 0 {
        assert(init =~= Seq::<char>::empty());
        assert(Seq::<char>::empty().push(w.last()) =~= w);
        assert(split_ws(init) == seq![Seq::<char>::empty()]);
        assert(split_ws(w) =~= seq![w]);
    } else {
        assert forall|i: int| 0 <= i < init.len() implies !is_ws(#[trigger] init[i]) by {
            assert(!is_ws(w[i]));
        }
        lemma_words_of_word(init);
        assert(init.push(w.last()) =~= w);
        assert(split_ws(w) =~= seq![w]);
    }
    assert(seq![w].drop_last() =~= Seq::<Seq<char>>::empty());
    assert(nonempty(seq![w].drop_last()) =~= Seq::<Seq<char>>::empty());
    assert(nonempty(seq![w]) =~= seq![w]);
}

/// A squeezed text is its words with one space between each two.
pub proof fn law_squeezing_keeps_the_words(s: Seq<char>)
    ensures
        squeeze(s) == join(words(s), seq![' ']),
{
    reveal_strlit(" ");
    assert(" "@ =~= seq![' ']);
}

/// Only the given character is taken off the end, and all of it there.
pub proof fn law_what_is_taken_off_the_end(s: Seq<char>, c: char)
    ensures
        trim_end_char(s, c).len() <= s.len(),
        trim_end_char(s, c) == s.take(trim_end_char(s, c).len() as int),
        forall|i: int| trim_end_char(s, c).len() <= i < s.len() ==> #[trigger] s[i] == c,
        trim_end_char(s, c).len() == 0 || trim_end_char(s, c).last() != c,
    decreases s.len(),
{
    if s.len() > 0 && s.last() == c {
        let init = s.drop_last();
        law_what_is_taken_off_the_end(init, c);
        let n = trim_end_char(s, c).len() as int;
        assert(s.take(n) =~= init.take(n));
        assert forall|i: int| n <= i < s.len() implies #[trigger] s[i] == c by {
            if i < init.len() {
                assert(init[i] == c);
            }
        }
    } else {
        assert(s.take(s.len() as int) =~= s);
    }
}

/// A line may end in a carriage return and a line feed, and the last one need not be ended.
pub proof fn law_lines_may_end_otherwise(v: Seq<Seq<char>>)
    requires
        v.len() >= 1,
        forall|i: int| 0 <= i < v.len() ==> free_of(#[trigger] v[i], '\n'),
    ensures
        lines(join(v.map_values(|l: Seq<char>| l.push('\r')), seq!['\n']).push('\n')) == v,
        v.last().len() > 0 && (forall|i: int|
            0 <= i < v.len() ==> (#[trigger] v[i]).len() == 0 || v[i].last() != '\r') ==> lines(
            join(v, seq!['\n']),
        ) == v,
{
    let returned = v.map_values(|l: Seq<char>| l.push('\r'));
    assert forall|i: int| 0 <= i < returned.len() implies free_of(
        #[trigger] returned[i],
        '\n',
    ) by {
        assert(free_of(v[i], '\n'));
    }
    law_splitting_undoes_joining(returned, '\n');
    let s = join(returned, seq!['\n']);
    assert(s.push('\n').drop_last() =~= s);
    let p = split(s.push('\n'), '\n');
    assert(p == returned.push(Seq::<char>::empty()));
    assert(lines(s.push('\n')) =~= v) by {
        assert forall|i: int| 0 <= i < v.len() implies strip_cr(p[i]) == v[i] by {
            assert(p[i] == v[i].push('\r'));
            assert(v[i].push('\r').drop_last() =~= v[i]);
        }
    }
    if v.last().len() > 0 && (forall|i: int|
        0 <= i < v.len() ==> (#[trigger] v[i]).len() == 0 || v[i].last() != '\r') {
        law_splitting_undoes_joining(v, '\n');
        let q = split(join(v, seq!['\n']), '\n');
        assert(q == v);
        assert(lines(join(v, seq!['\n'])) =~= v) by {
            assert forall|i: int| 0 <= i < v.len() - 1 implies strip_cr(q[i]) == v[i] by {
                assert(v[i].len() == 0 || v[i].last() != '\r');
            }
        }
    }
}

/// Texts are ordered by the first character in which they differ; one that is the beginning of the
/// other goes first.
pub proof fn law_how_texts_are_ordered(
    same: Seq<char>,
    x: char,
    y: char,
    a: Seq<char>,
    b: Seq<char>,
)
    ensures
        x < y ==> before(same + seq![x] + a, same + seq![y] + b) && !before(
            same + seq![y] + b,
            same + seq![x] + a,
        ),
        before(same, same + seq![x] + a),
        !before(same + seq![x] + a, same),
        !before(same, same),
    decreases same.len(),
{
    let p = same + seq![x] + a;
    let q = same + seq![y] + b;
    if same.len() > 0 {
        let rest = same.drop_first();
        law_how_texts_are_ordered(rest, x, y, a, b);
        assert(p.drop_first() =~= rest + seq![x] + a);
        assert(q.drop_first() =~= rest + seq![y] + b);
    }
}

/// A replaced character is gone, with its replacement in every place where it stood, and nothing else
/// changes.
pub proof fn law_how_characters_are_replaced(
    a: Seq<char>,
    b: Seq<char>,
    c: char,
    with: Seq<char>,
)
    requires
        free_of(b, c),
    ensures
        replace_char(b, c, with) == b,
        replace_char(a.push(c) + b, c, with) == replace_char(a, c, with) + with + b,
    decreases b.len(),
{
    let s = a.push(c) + b;
    if b.len() == 0 {
        assert(s =~= a.push(c));
        assert(s.drop_last() =~= a);
        assert(replace_char(b, c, with) =~= b);
        assert(replace_char(a, c, with) + with + b =~= replace_char(a, c, with) + with);
    } else {
        let rest = b.drop_last();
        assert forall|i: int| 0 <= i < rest.len() implies #[trigger] rest[i] != c by {
            assert(b[i] != c);
        }
        law_how_characters_are_replaced(a, rest, c, with);
        assert(b[b.len() - 1] != c);
        assert(s.drop_last() =~= a.push(c) + rest);
        assert(replace_char(b, c, with) =~= b);
        assert(replace_char(s, c, with) =~= replace_char(a, c, with) + with + b);
    }
}

/// The lower-case letter for an upper-case one is the one in the same place of the alphabet; any
/// other character stays as it is.
pub proof fn law_lower_case_letters(c: char)
    ensures
        'A' <= c && c <= 'Z' ==> 'a' <= ascii_lower(c) && ascii_lower(c) <= 'z' && ascii_lower(
            c,
        ) as int - 'a' as int == c as int - 'A' as int,
        !('A' <= c && c <= 'Z') ==> ascii_lower(c) == c,
{
}

} // verus!
