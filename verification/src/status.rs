//! The four outcomes a line can be committed with, and their coloured marks.

use vstd::prelude::*;

verus! {

/// The outcome a line is committed with.
#[derive(Debug, Clone, Copy, PartialEq, Eq, Structural)]
pub enum Status {
    Success,
    Fail,
    Warn,
    Info,
}

/// A mark wrapped in an SGR colour `ESC [ 3 <colour> m` and the reset `ESC [ 0 m`.
pub open spec fn colored(colour: char, mark: char) -> Seq<char> {
    seq!['\x1B', '[', '3', colour, 'm', mark, '\x1B', '[', '0', 'm']
}

impl Status {
    /// The digit that selects the colour: green, red, yellow, blue.
    pub open spec fn colour(self) -> char {
        match self {
            Status::Success => '2',
            Status::Fail => '1',
            Status::Warn => '3',
            Status::Info => '4',
        }
    }

    /// The mark itself: check, cross, warning triangle, letter i.
    pub open spec fn mark(self) -> char {
        match self {
            Status::Success => '\u{2714}',
            Status::Fail => '\u{2716}',
            Status::Warn => '\u{26A0}',
            Status::Info => '\u{2139}',
        }
    }

    /// The characters shown for this outcome.
    pub open spec fn glyph(self) -> Seq<char> {
        colored(self.colour(), self.mark())
    }

    /// The coloured mark of this outcome. It depends on the outcome alone.
    pub fn as_str(&self) -> (s: &'static str)
        ensures
            s@ == self.glyph(),
    {
        match self {
            Status::Success => {
                proof {
                    reveal_strlit("\x1B[32m\u{2714}\x1B[0m");
                }
                let s = "\x1B[32m\u{2714}\x1B[0m";
                assert(s@ =~= Status::Success.glyph());
                s
            },
            Status::Fail => {
                proof {
                    reveal_strlit("\x1B[31m\u{2716}\x1B[0m");
                }
                let s = "\x1B[31m\u{2716}\x1B[0m";
                assert(s@ =~= Status::Fail.glyph());
                s
            },
            Status::Warn => {
                proof {
                    reveal_strlit("\x1B[33m\u{26A0}\x1B[0m");
                }
                let s = "\x1B[33m\u{26A0}\x1B[0m";
                assert(s@ =~= Status::Warn.glyph());
                s
            },
            Status::Info => {
                proof {
                    reveal_strlit("\x1B[34m\u{2139}\x1B[0m");
                }
                let s = "\x1B[34m\u{2139}\x1B[0m";
                assert(s@ =~= Status::Info.glyph());
                s
            },
        }
    }
}

/// Every outcome has a mark of ten characters that starts with the escape of
/// its own colour and ends with the reset, and no two outcomes share a mark.
pub proof fn lemma_glyphs_distinct(a: Status, b: Status)
    ensures
        a.glyph().len() == 10,
        a.glyph().subrange(6, 10) == seq!['\x1B', '[', '0', 'm'],
        a.glyph() == b.glyph() <==> a == b,
{
    assert(a.glyph().subrange(6, 10) =~= seq!['\x1B', '[', '0', 'm']);
    if a.glyph() == b.glyph() {
        assert(a.glyph()[3] == b.glyph()[3]);
    }
}

} // verus!
