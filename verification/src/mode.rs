//! The four compression presets the external engine understands.

use vstd::prelude::*;
use vstd::string::StringExecFns;

verus! {

/// A quality/size preset for the recompressed document. Each variant maps to
/// a distinct resolution tradeoff defined by the external engine, from
/// `Screen` (75ppi, smallest file) through `Ebook` (150ppi) and `Prepress`
/// (300ppi) to `Print` (600ppi, largest file).
#[derive(Clone, Copy, Debug, PartialEq, Eq, Structural)]
pub enum Mode {
    Screen,
    Ebook,
    Prepress,
    Print,
}

impl Mode {
    /// The lower-case wire token for this preset, as the engine's
    /// quality-settings flag expects it.
    pub open spec fn spec_token(self) -> Seq<char> {
        match self {
            Mode::Screen => "screen"@,
            Mode::Ebook => "ebook"@,
            Mode::Prepress => "prepress"@,
            Mode::Print => "print"@,
        }
    }

    /// Which preset, if any, a caller-supplied token selects. The match is
    /// exact and case-sensitive.
    pub open spec fn spec_from_token(s: Seq<char>) -> Option<Mode> {
        if s == "screen"@ {
            Some(Mode::Screen)
        } else if s == "ebook"@ {
            Some(Mode::Ebook)
        } else if s == "prepress"@ {
            Some(Mode::Prepress)
        } else if s == "print"@ {
            Some(Mode::Print)
        } else {
            None
        }
    }

    /// Render the preset's wire token.
    pub fn token(&self) -> (r: String)
        ensures
            r@ == self.spec_token(),
    {
        match self {
            Mode::Screen => String::from_str("screen"),
            Mode::Ebook => String::from_str("ebook"),
            Mode::Prepress => String::from_str("prepress"),
            Mode::Print => String::from_str("print"),
        }
    }

    /// Recognize a caller-supplied preset token; `None` for anything but the
    /// four exact lower-case names.
    pub fn from_token(s: &str) -> (r: Option<Mode>)
        ensures
            r == Mode::spec_from_token(s@),
    {
        if crate::strings::str_eq(s, "screen") {
            Some(Mode::Screen)
        } else if crate::strings::str_eq(s, "ebook") {
            Some(Mode::Ebook)
        } else if crate::strings::str_eq(s, "prepress") {
            Some(Mode::Prepress)
        } else if crate::strings::str_eq(s, "print") {
            Some(Mode::Print)
        } else {
            None
        }
    }
}

impl Default for Mode {
    /// The preset used when the caller names none.
    fn default() -> (r: Mode)
        ensures
            r == Mode::Ebook,
    {
        Mode::Ebook
    }
}

/// Recognizing a preset's own token gives that preset back: the wire mapping
/// is injective and `spec_from_token` inverts `spec_token`.
pub proof fn lemma_token_round_trip(m: Mode)
    ensures
        Mode::spec_from_token(m.spec_token()) == Some(m),
{
    reveal_strlit("screen");
    reveal_strlit("ebook");
    reveal_strlit("prepress");
    reveal_strlit("print");
    assert("screen"@.len() == 6);
    assert("ebook"@.len() == 5);
    assert("prepress"@.len() == 8);
    assert("print"@.len() == 5);
    assert("print"@[0] == 'p' && "ebook"@[0] == 'e');
    match m {
        Mode::Screen => {
            assert(Mode::spec_from_token("screen"@) == Some(Mode::Screen));
        },
        Mode::Ebook => {
            assert(Mode::spec_from_token("ebook"@) == Some(Mode::Ebook));
        },
        Mode::Prepress => {
            assert(Mode::spec_from_token("prepress"@) == Some(Mode::Prepress));
        },
        Mode::Print => {
            assert(Mode::spec_from_token("print"@) == Some(Mode::Print));
        },
    }
}

} // verus!
