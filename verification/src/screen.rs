use vstd::prelude::*;

use crate::message::Event;

verus! {

/// The key value that the toolkit reports for the Return key.
pub const KEY_RETURN: u32 = 65293;

/// The character that a key press sends to the shell, for the keys that
/// the terminal handles itself: Return sends a carriage return; other keys
/// send nothing (typed text arrives through the input method instead).
pub fn key_char(keyval: u32) -> (ch: Option<char>)
    ensures
        ch == (if keyval == KEY_RETURN {
            Some('\r')
        } else {
            None
        }),
{
    if keyval == KEY_RETURN {
        Some('\r')
    } else {
        None
    }
}

/// Where a notice from the backend goes in the user interface: text that a
/// shell wrote goes to the window of its terminal; every other notice is
/// only logged.
pub fn window_write_target(event: Event) -> (target: Option<(u64, String)>)
    ensures
        match event {
            Event::WindowWrite(id, content) => target == Some((id, content)),
            _ => target is None,
        },
{
    match event {
        Event::WindowWrite(id, content) => Some((id, content)),
        _ => None,
    }
}

/// The hooks that the input method calls while the terminal has the
/// focus: `connect` gets the text that the user committed.
pub struct IMEventHooksRecords<F> {
    pub connect: F,
}

impl<F> IMEventHooksRecords<F> {
    pub fn new(connect: F) -> (hooks: Self)
        ensures
            hooks.connect == connect,
    {
        IMEventHooksRecords { connect }
    }
}

/// One character drawn on the screen and the text row it is drawn on.
#[derive(Clone, Copy, Debug, PartialEq, Eq)]
pub struct Glyph {
    pub ch: char,
    pub row: usize,
}

/// The number of line feeds in `t`.
pub open spec fn newlines(t: Seq<char>) -> nat
    decreases t.len(),
{
    if t.len() == 0 {
        0
    } else {
        newlines(t.drop_last()) + if t.last() == '\n' {
            1nat
        } else {
            0nat
        }
    }
}

/// How the text is laid out: every character but the line feed is drawn,
/// in order, on the row given by the number of line feeds before it; a line
/// feed starts a new row at the left edge.
pub open spec fn layout(t: Seq<char>) -> Seq<Glyph>
    decreases t.len(),
{
    if t.len() == 0 {
        Seq::empty()
    } else if t.last() == '\n' {
        layout(t.drop_last())
    } else {
        layout(t.drop_last()).push(Glyph { ch: t.last(), row: newlines(t.drop_last()) as usize })
    }
}

/// Whether a character is drawn: every character but the line feed.
pub open spec fn is_drawn() -> spec_fn(char) -> bool {
    |c: char| c != '\n'
}

/// Whether a character is a line feed.
pub open spec fn is_line_feed() -> spec_fn(char) -> bool {
    |c: char| c == '\n'
}

/// The characters of `t` that are drawn: all but the line feeds, in order.
pub open spec fn drawn_chars(t: Seq<char>) -> Seq<char> {
    t.filter(is_drawn())
}

/// How many line feeds `t` holds.
pub open spec fn line_feed_count(t: Seq<char>) -> nat {
    t.filter(is_line_feed()).len()
}

proof fn lemma_newlines_count(t: Seq<char>)
    ensures
        newlines(t) == line_feed_count(t),
    decreases t.len(),
{
    if t.len() > 0 {
        let s = t.drop_last();
        lemma_newlines_count(s);
        assert(t == s.push(t.last()));
        s.lemma_filter_push(t.last(), is_line_feed());
    }
}

/// What the drawing shows of a text: one glyph for each character that is
/// not a line feed, in the text's order, and the glyph of the character at
/// index `i` is on the row given by the number of line feeds (and of no
/// other character) before index `i`.
pub proof fn law_layout_rows(t: Seq<char>)
    ensures
        layout(t).len() == drawn_chars(t).len(),
        forall|i: int|
            0 <= i < t.len() && t[i] != '\n' ==> layout(t)[drawn_chars(t.take(i)).len() as int] == (
            Glyph { ch: t[i], row: line_feed_count(t.take(i)) as usize }),
    decreases t.len(),
{
    if t.len() > 0 {
        let s = t.drop_last();
        let c = t.last();
        law_layout_rows(s);
        lemma_newlines_count(s);
        assert(t == s.push(c));
        s.lemma_filter_push(c, is_drawn());
        lemma_layout_push(s, c);
        assert forall|i: int|
            0 <= i < t.len() && t[i] != '\n' implies layout(t)[drawn_chars(t.take(i)).len() as int]
            == (Glyph { ch: t[i], row: line_feed_count(t.take(i)) as usize }) by {
            let k = drawn_chars(t.take(i)).len() as int;
            if i < s.len() {
                assert(t.take(i) =~= s.take(i));
                assert(t[i] == s[i]);
                assert(k < drawn_chars(s).len()) by {
                    let p = s.take(i);
                    assert(s.take(i + 1) =~= p.push(s[i]));
                    p.lemma_filter_push(s[i], is_drawn());
                    lemma_filter_prefix_len(s, i + 1);
                }
                assert(layout(s)[k] == (Glyph { ch: s[i], row: line_feed_count(s.take(i)) as usize }));
                assert(layout(s.push(c))[k] == layout(s)[k]);
            } else {
                assert(i == s.len());
                assert(t.take(i) =~= s);
                assert(t[i] == c);
                assert(k == layout(s).len());
            }
        }
    }
}

proof fn lemma_layout_push(s: Seq<char>, c: char)
    ensures
        c == '\n' ==> layout(s.push(c)) == layout(s),
        c != '\n' ==> layout(s.push(c)) == layout(s).push(Glyph { ch: c, row: newlines(s) as usize }),
        layout(s.push(c)).len() == layout(s).len() + (if c == '\n' { 0int } else { 1int }),
        forall|k: int| 0 <= k < layout(s).len() ==> #[trigger] layout(s.push(c))[k] == layout(s)[k],
        c != '\n' ==> layout(s.push(c))[layout(s).len() as int] == (Glyph { ch: c, row: newlines(s) as usize }),
{
    assert(s.push(c).drop_last() =~= s);
}

proof fn lemma_filter_prefix_len(s: Seq<char>, j: int)
    requires
        0 <= j <= s.len(),
    ensures
        drawn_chars(s.take(j)).len() <= drawn_chars(s).len(),
    decreases s.len() - j,
{
    if j == s.len() {
        assert(s.take(j) =~= s);
    } else {
        lemma_filter_prefix_len(s, j + 1);
        assert(s.take(j + 1) =~= s.take(j).push(s[j]));
        s.take(j).lemma_filter_push(s[j], is_drawn());
    }
}

proof fn lemma_newlines_bound(t: Seq<char>)
    ensures
        newlines(t) <= t.len(),
    decreases t.len(),
{
    if t.len() > 0 {
        lemma_newlines_bound(t.drop_last());
    }
}

/// The glyphs to draw for the terminal's text, in drawing order.
pub fn glyphs(texts: &Vec<char>) -> (g: Vec<Glyph>)
    ensures
        g@ == layout(texts@),
        g@.len() == drawn_chars(texts@).len(),
        forall|i: int|
            0 <= i < texts@.len() && texts@[i] != '\n' ==> g@[drawn_chars(texts@.take(i)).len() as int]
                == (Glyph { ch: texts@[i], row: line_feed_count(texts@.take(i)) as usize }),
{
    proof {
        law_layout_rows(texts@);
    }
    let mut g: Vec<Glyph> = Vec::new();
    let mut row: usize = 0;
    let n: usize = texts.len();
    let mut i: usize = 0;
    while i < n
        invariant
            n == texts@.len(),
            i <= n,
            row == newlines(texts@.take(i as int)),
            g@ == layout(texts@.take(i as int)),
        decreases n - i,
    {
        let c = texts[i];
        let ghost prefix = texts@.take(i as int);
        proof {
            assert(texts@.take(i + 1).drop_last() =~= prefix);
            lemma_newlines_bound(prefix);
        }
        if c == '\n' {
            row = row + 1;
        } else {
            g.push(Glyph { ch: c, row });
        }
        i = i + 1;
    }
    assert(texts@.take(n as int) =~= texts@);
    g
}

} // verus!
