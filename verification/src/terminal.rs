//! Model of the terminal surface as the session core sees it.
//!
//! The real surface renders glyphs and captures raw keys; the core only
//! ever appends text, re-renders the current input line, clears the
//! screen and asks for focus.  The model records exactly those
//! observable effects: `out` is everything written to the scrollback
//! since the last clear, `line` is the rendered input line, and a
//! driver outside the library reflects both onto a real device.

use vstd::prelude::*;

verus! {

/// Carriage-return + line-feed, the terminal's line ending.
pub open spec fn crlf() -> Seq<char> {
    seq!['\r', '\n']
}

/// The terminal surface model.
pub struct Terminal {
    /// Text written to the scrollback since the last clear.
    pub out: Vec<char>,
    /// The currently rendered input line.
    pub line: Vec<char>,
    /// Whether the surface holds the input focus.
    pub focused: bool,
    /// Column width of the surface.
    pub cols: usize,
}

impl Terminal {
    /// A fresh surface of the given width.
    pub fn new(cols: usize) -> (r: Terminal)
        ensures
            r.out@ == Seq::<char>::empty(),
            r.line@ == Seq::<char>::empty(),
            !r.focused,
            r.cols == cols,
    {
        Terminal { out: Vec::new(), line: Vec::new(), focused: false, cols }
    }

    /// Current column width.
    pub fn get_cols(&self) -> (r: usize)
        ensures
            r == self.cols,
    {
        self.cols
    }

    /// Appends text to the scrollback.
    pub fn write(&mut self, text: &Vec<char>)
        ensures
            *final(self) == (Terminal { out: final(self).out, ..*old(self) }),
            final(self).out@ == old(self).out@ + text@,
    {
        crate::text::append_text(&mut self.out, text);
    }

    /// Appends a string slice to the scrollback.
    pub fn write_str(&mut self, text: &str)
        ensures
            *final(self) == (Terminal { out: final(self).out, ..*old(self) }),
            final(self).out@ == old(self).out@ + text@,
    {
        crate::text::append_str(&mut self.out, text);
    }

    /// Clears the scrollback, as the clear-screen control sequence does
    /// on the real surface.
    pub fn clear(&mut self)
        ensures
            *final(self) == (Terminal { out: final(self).out, ..*old(self) }),
            final(self).out@ == Seq::<char>::empty(),
    {
        self.out.clear();
    }

    /// Re-renders the input line.
    pub fn render_line(&mut self, line: &Vec<char>)
        ensures
            *final(self) == (Terminal { line: final(self).line, ..*old(self) }),
            final(self).line@ == line@,
    {
        self.line.clear();
        crate::text::append_text(&mut self.line, line);
        proof {
            assert(self.line@ =~= line@);
        }
    }

    /// Takes the input focus.
    pub fn focus(&mut self)
        ensures
            *final(self) == (Terminal { focused: true, ..*old(self) }),
    {
        self.focused = true;
    }
}

} // verus!
