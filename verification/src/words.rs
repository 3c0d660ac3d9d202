//! The words of a command line: texts, and paths, which need not be text.

use vstd::prelude::*;

verus! {

/// A word of a command line.
#[derive(Debug, Clone, PartialEq, Eq)]
pub enum Arg {
    Text(String),
    /// The bytes of a path.
    Path(Vec<u8>),
}

/// What a word is.
pub enum Word {
    Text(Seq<char>),
    Path(Seq<u8>),
}

impl View for Arg {
    type V = Word;

    open spec fn view(&self) -> Word {
        match *self {
            Arg::Text(t) => Word::Text(t@),
            Arg::Path(p) => Word::Path(p@),
        }
    }
}

/// What the words of a command line are.
pub open spec fn words(v: Seq<Arg>) -> Seq<Word> {
    Seq::new(v.len(), |i: int| v[i]@)
}

/// Texts as words.
pub open spec fn plain(texts: Seq<Seq<char>>) -> Seq<Word> {
    Seq::new(texts.len(), |i: int| Word::Text(texts[i]))
}

/// The value that a command line gives to an option, where its words are read in order, each name
/// with the value behind it, but for the names that stand alone.
pub open spec fn option_value(
    w: Seq<Seq<char>>,
    alone: Seq<Seq<char>>,
    name: Seq<char>,
) -> Option<Seq<char>>
    decreases w.len(),
{
    if w.len() == 0 {
        None
    } else if alone.contains(w[0]) {
        option_value(w.skip(1), alone, name)
    } else if w.len() == 1 {
        None
    } else if w[0] == name {
        Some(w[1])
    } else {
        option_value(w.skip(2), alone, name)
    }
}

/// A command line names an option that stands alone, where its words are read in the same way.
pub open spec fn option_named(w: Seq<Seq<char>>, alone: Seq<Seq<char>>, name: Seq<char>) -> bool
    decreases w.len(),
{
    if w.len() == 0 {
        false
    } else if alone.contains(w[0]) {
        w[0] == name || option_named(w.skip(1), alone, name)
    } else if w.len() == 1 {
        false
    } else {
        option_named(w.skip(2), alone, name)
    }
}

/// Reading goes past an option with its value.
pub proof fn lemma_option_with_value(
    w: Seq<Seq<char>>,
    n: Seq<char>,
    v: Seq<char>,
    rest: Seq<Seq<char>>,
    alone: Seq<Seq<char>>,
)
    requires
        !alone.contains(n),
        w == seq![n, v] + rest,
    ensures
        forall|name: Seq<char>| #[trigger]
            option_value(w, alone, name) == (if n == name {
                Some(v)
            } else {
                option_value(rest, alone, name)
            }),
        forall|name: Seq<char>| #[trigger]
            option_named(w, alone, name) == option_named(rest, alone, name),
{
    assert(w.skip(2) =~= rest);
}

/// Reading goes past an option that stands alone.
pub proof fn lemma_option_alone(
    w: Seq<Seq<char>>,
    n: Seq<char>,
    rest: Seq<Seq<char>>,
    alone: Seq<Seq<char>>,
)
    requires
        alone.contains(n),
        w == seq![n] + rest,
    ensures
        forall|name: Seq<char>| #[trigger]
            option_value(w, alone, name) == option_value(rest, alone, name),
        forall|name: Seq<char>| #[trigger]
            option_named(w, alone, name) == (n == name || option_named(rest, alone, name)),
{
    assert(w.skip(1) =~= rest);
}

/// A text as a word.
pub fn word(t: &str) -> (r: Arg)
    ensures
        r@ == Word::Text(t@),
{
    Arg::Text(t.to_owned())
}

/// Texts as words.
pub fn plain_words(texts: Vec<String>) -> (r: Vec<Arg>)
    ensures
        words(r@) == plain(crate::text::texts(texts@)),
{
    let mut r: Vec<Arg> = Vec::new();
    let mut i: usize = 0;
    let ghost all = crate::text::texts(texts@);
    while i < texts.len()
        invariant
            i <= texts.len(),
            all == crate::text::texts(texts@),
            words(r@) == plain(all.take(i as int)),
        decreases texts.len() - i,
    {
        let ghost before = r@;
        r.push(word(&texts[i]));
        assert(words(r@) =~= words(before).push(Word::Text(all[i as int])));
        assert(plain(all.take(i + 1)) =~= plain(all.take(i as int)).push(
            Word::Text(all[i as int]),
        ));
        i += 1;
    }
    assert(all.take(i as int) =~= all);
    r
}

/// A path as a word.
pub fn path_word(p: &[u8]) -> (r: Arg)
    ensures
        r@ == Word::Path(p@),
{
    let mut bytes: Vec<u8> = Vec::new();
    bytes.extend_from_slice(p);
    assert(bytes@ =~= p@);
    Arg::Path(bytes)
}

} // verus!
