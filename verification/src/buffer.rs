//! Model of the line-edit input buffer.
//!
//! The real buffer owns a cursor and multi-line reflow; the core only
//! calls it through a narrow contract — configure a width, start a new
//! prompt, collect the text, consume a key, set highlight markup, flush
//! to the terminal.  The model keeps what those calls observe: the
//! buffered text (edits applied at the end of the line) and the token
//! markup last applied to it.

use vstd::prelude::*;
use crate::keys::{Key, KeyEvent};
use crate::terminal::Terminal;

verus! {

/// The input buffer model.
pub struct PromptBuffer {
    /// The buffered text.
    pub text: Vec<char>,
    /// Configured rendering width.
    pub width: usize,
    /// Syntax-highlight markup last applied to the text: the token
    /// classes handed back by the engine, or `None` when the text
    /// carries no markup.
    pub markup: Option<Vec<u32>>,
}

/// The text of `b` after consuming one key event: printable keys append
/// their character, Enter appends a line feed, Backspace removes the
/// last character, and navigation keys leave the text unchanged.
pub open spec fn consumed_text(t: Seq<char>, event: KeyEvent) -> Seq<char> {
    match event.key {
        Key::Char(c) => t.push(c),
        Key::Enter => t.push('\n'),
        Key::Backspace => if t.len() > 0 {
            t.drop_last()
        } else {
            t
        },
        _ => t,
    }
}

impl PromptBuffer {
    /// An empty buffer of the given width.
    pub fn new(width: usize) -> (r: PromptBuffer)
        ensures
            r.text@ == Seq::<char>::empty(),
            r.width == width,
            r.markup is None,
    {
        PromptBuffer { text: Vec::new(), width, markup: None }
    }

    /// Adopts a new rendering width.
    pub fn configure(&mut self, width: usize)
        ensures
            *final(self) == (PromptBuffer { width, ..*old(self) }),
    {
        self.width = width;
    }

    /// Starts a fresh prompt line: text and markup are dropped.
    pub fn start_new(&mut self)
        ensures
            final(self).text@ == Seq::<char>::empty(),
            final(self).markup is None,
            final(self).width == old(self).width,
    {
        self.text.clear();
        self.markup = None;
    }

    /// The full current text.
    pub fn collect(&self) -> (r: Vec<char>)
        ensures
            r@ == self.text@,
    {
        let mut r: Vec<char> = Vec::new();
        crate::text::append_text(&mut r, &self.text);
        proof {
            assert(r@ =~= self.text@);
        }
        r
    }

    /// Applies one key event as an edit.
    pub fn consume(&mut self, event: KeyEvent)
        ensures
            final(self).text@ == consumed_text(old(self).text@, event),
            final(self).markup == old(self).markup,
            final(self).width == old(self).width,
    {
        match event.key {
            Key::Char(c) => self.text.push(c),
            Key::Enter => self.text.push('\n'),
            Key::Backspace => {
                let _ = self.text.pop();
            },
            _ => {},
        }
    }

    /// Applies syntax-highlight markup to the current text.
    pub fn highlight_sql(&mut self, tokens: Vec<u32>)
        ensures
            *final(self) == (PromptBuffer { markup: Some(tokens), ..*old(self) }),
    {
        self.markup = Some(tokens);
    }

    /// Renders the buffered text onto the terminal's input line.
    pub fn flush(&self, term: &mut Terminal)
        ensures
            *final(term) == (Terminal { line: final(term).line, ..*old(term) }),
            final(term).line@ == self.text@,
    {
        term.render_line(&self.text);
    }
}

} // verus!
