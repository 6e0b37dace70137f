use vstd::prelude::*;
use vstd::utf8::*;

use crate::codec::{decimal, decimal_string, decode_text};

verus! {

/// What the reader of the pseudo terminal reports: a chunk of the bytes
/// that the shell wrote.
#[derive(Debug)]
pub enum Event {
    Terminal(Vec<u8>),
}

/// Where a call of `fork` left the process that made it.
#[derive(Clone, Copy, Debug, PartialEq, Eq)]
pub enum ForkRole {
    /// No child was made.
    Failed,
    /// This is the new child, which becomes the shell.
    Child,
    /// This is the parent, which keeps the terminal's master side.
    Parent,
}

/// The role that `fork`'s result gives: -1 is failure, 0 the child, and a
/// positive process id the parent. `fork` returns nothing else.
pub fn fork_role(pid: i32) -> (role: ForkRole)
    requires
        pid >= -1,
    ensures
        role == (if pid == -1 {
            ForkRole::Failed
        } else if pid == 0 {
            ForkRole::Child
        } else {
            ForkRole::Parent
        }),
{
    if pid == -1 {
        ForkRole::Failed
    } else if pid == 0 {
        ForkRole::Child
    } else {
        ForkRole::Parent
    }
}

/// The text state of one terminal: its size in cells, the size of a cell in
/// pixels, and every character that the shell has written so far.
pub struct State {
    pub columns: i32,
    pub rows: i32,
    pub font_width: i32,
    pub font_height: i32,
    pub texts: Vec<char>,
}

impl State {
    /// A fresh terminal: 40 columns by 16 rows of 20 by 26 pixel cells, and
    /// no text yet.
    pub fn new() -> (state: State)
        ensures
            state.columns == 40,
            state.rows == 16,
            state.font_width == 20,
            state.font_height == 26,
            state.texts@ == Seq::<char>::empty(),
    {
        State { columns: 40, rows: 16, font_width: 20, font_height: 26, texts: Vec::new() }
    }

    /// Appends one character that the shell wrote.
    pub fn recv_char(&mut self, c: char)
        ensures
            final(self).texts@ == old(self).texts@.push(c),
            final(self).columns == old(self).columns,
            final(self).rows == old(self).rows,
            final(self).font_width == old(self).font_width,
            final(self).font_height == old(self).font_height,
    {
        self.texts.push(c)
    }

    /// Appends every character of a chunk of shell output, which must be
    /// valid UTF-8.
    pub fn handle_event(&mut self, event: Event)
        requires
            match event {
                Event::Terminal(bytes) => valid_utf8(bytes@),
            },
        ensures
            match event {
                Event::Terminal(bytes) => final(self).texts@ == old(self).texts@ + decode_utf8(
                    bytes@,
                ),
            },
            final(self).columns == old(self).columns,
            final(self).rows == old(self).rows,
            final(self).font_width == old(self).font_width,
            final(self).font_height == old(self).font_height,
    {
        match event {
            Event::Terminal(bytes) => {
                let ghost decoded = decode_utf8(bytes@);
                let ghost start = self.texts@;
                match decode_text(bytes) {
                    Some(text) => {
                        for c in it: text.chars()
                            invariant
                                self.texts@ == start + it.seq().take(it.index() as int),
                                it.seq() == decoded,
                                self.columns == old(self).columns,
                                self.rows == old(self).rows,
                                self.font_width == old(self).font_width,
                                self.font_height == old(self).font_height,
                        {
                            self.recv_char(c);
                        }
                    },
                    None => {},
                }
            },
        }
    }

    /// The size in cells that the kernel is told for the pseudo terminal;
    /// each field is cut to 16 bits as a cast does.
    pub fn winsize(&self) -> (size: (u16, u16))
        ensures
            size == (self.columns as u16, self.rows as u16),
    {
        (self.columns as u16, self.rows as u16)
    }

    /// The size in pixels of the drawing area: columns times cell width,
    /// rows times cell height.
    pub fn pixel_size(&self) -> (size: (i32, i32))
        requires
            i32::MIN <= self.columns * self.font_width <= i32::MAX,
            i32::MIN <= self.rows * self.font_height <= i32::MAX,
        ensures
            size.0 == self.columns * self.font_width,
            size.1 == self.rows * self.font_height,
    {
        (self.columns * self.font_width, self.rows * self.font_height)
    }

    /// The environment that the shell starts with: the terminal type, true
    /// colour, and the size in columns and lines, in this order.
    pub fn child_env(&self) -> (env: Vec<(String, String)>)
        ensures
            env@.len() == 4,
            env@[0].0@ == "TERM"@,
            env@[0].1@ == "term-256color"@,
            env@[1].0@ == "COLORTERM"@,
            env@[1].1@ == "truecolor"@,
            env@[2].0@ == "COLUMNS"@,
            env@[2].1@ == decimal(self.columns as int),
            env@[3].0@ == "LINES"@,
            env@[3].1@ == decimal(self.rows as int),
    {
        let mut env: Vec<(String, String)> = Vec::new();
        env.push((String::from_str("TERM"), String::from_str("term-256color")));
        env.push((String::from_str("COLORTERM"), String::from_str("truecolor")));
        env.push((String::from_str("COLUMNS"), decimal_string(self.columns)));
        env.push((String::from_str("LINES"), decimal_string(self.rows)));
        env
    }
}

} // verus!
