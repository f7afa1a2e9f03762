//! Colors for widget content and superscript lettering.
use vstd::prelude::*;
use vstd::string::*;

use crate::text::{from_chars, to_chars};

verus! {

/// Marks the start of text that takes no width on screen (zsh `%{`).
pub const ZERO_WIDTH_BEGIN: &'static str = "%{";

/// Marks the end of text that takes no width on screen (zsh `%}`).
pub const ZERO_WIDTH_END: &'static str = "%}";

/// The escape sequence that resets all terminal attributes.
pub const SGR_RESET: &'static str = "\x1b[0m";

/// Superscript forms of `0` to `9`.
pub const SUPERSCRIPT_DIGITS: &'static str = "⁰¹²³⁴⁵⁶⁷⁸⁹";

/// Superscript forms of `A` to `Z`; letters without one map to a space.
pub const SUPERSCRIPT_CAPITALS: &'static str = "ᴬᴮᶜᴰᴱꟳᴳᴴᴵᴶᴷᴸᴹᴺᴼᴾꟴᴿˢᵀᵁⱽᵂ   ";

/// Superscript forms of `a` to `z`; letters without one map to a space.
pub const SUPERSCRIPT_LOWERCASE: &'static str = "ᵃᵇᶜᵈᵉᶠᵍʰⁱʲᵏˡᵐⁿᵒᵖ ʳˢᵗᵘᵛʷˣʸᶻ";

/// The superscript form of one character: ASCII digits and letters are looked
/// up in the tables, every other character stays as it is.
pub open spec fn superscript_char(c: char) -> char {
    if '0' <= c && c <= '9' {
        SUPERSCRIPT_DIGITS@[c as int - '0' as int]
    } else if 'A' <= c && c <= 'Z' {
        SUPERSCRIPT_CAPITALS@[c as int - 'A' as int]
    } else if 'a' <= c && c <= 'z' {
        SUPERSCRIPT_LOWERCASE@[c as int - 'a' as int]
    } else {
        c
    }
}

/// The superscript form of a text, character by character.
pub open spec fn superscript(s: Seq<char>) -> Seq<char> {
    s.map_values(|c: char| superscript_char(c))
}

/// Whether `c` is an ASCII digit or letter, the characters that have a table
/// entry.
pub open spec fn is_ascii_alphanumeric(c: char) -> bool {
    ('0' <= c && c <= '9') || ('A' <= c && c <= 'Z') || ('a' <= c && c <= 'z')
}

fn superscript_of(c: char) -> (r: char)
    ensures
        r == superscript_char(c),
{
    proof {
        reveal_strlit("⁰¹²³⁴⁵⁶⁷⁸⁹");
        reveal_strlit("ᴬᴮᶜᴰᴱꟳᴳᴴᴵᴶᴷᴸᴹᴺᴼᴾꟴᴿˢᵀᵁⱽᵂ   ");
        reveal_strlit("ᵃᵇᶜᵈᵉᶠᵍʰⁱʲᵏˡᵐⁿᵒᵖ ʳˢᵗᵘᵛʷˣʸᶻ");
    }
    if '0' <= c && c <= '9' {
        let i = (c as u32 - '0' as u32) as usize;
        SUPERSCRIPT_DIGITS.get_char(i)
    } else if 'A' <= c && c <= 'Z' {
        let i = (c as u32 - 'A' as u32) as usize;
        SUPERSCRIPT_CAPITALS.get_char(i)
    } else if 'a' <= c && c <= 'z' {
        let i = (c as u32 - 'a' as u32) as usize;
        SUPERSCRIPT_LOWERCASE.get_char(i)
    } else {
        c
    }
}

/// Rewrites ASCII digits and letters of `s` in superscript.
pub fn to_superscript(s: &str) -> (r: String)
    ensures
        r@ == superscript(s@),
        r@.len() == s@.len(),
        forall|i: int| 0 <= i < s@.len() && !is_ascii_alphanumeric(s@[i]) ==> r@[i] == s@[i],
{
    let c = to_chars(s);
    let mut out: Vec<char> = Vec::new();
    let mut i: usize = 0;
    while i < c.len()
        invariant
            c@ == s@,
            i <= c@.len(),
            out@ =~= superscript(s@.take(i as int)),
        decreases c@.len() - i,
    {
        out.push(superscript_of(c[i]));
        assert(s@.take(i + 1) =~= s@.take(i as int).push(s@[i as int]));
        i = i + 1;
    }
    assert(s@.take(i as int) =~= s@);
    from_chars(out.as_slice())
}

/// Every superscript character stays as it is when rewritten again.
proof fn lemma_superscript_char_fixed(c: char)
    ensures
        superscript_char(superscript_char(c)) == superscript_char(c),
{
    reveal_strlit("⁰¹²³⁴⁵⁶⁷⁸⁹");
    reveal_strlit("ᴬᴮᶜᴰᴱꟳᴳᴴᴵᴶᴷᴸᴹᴺᴼᴾꟴᴿˢᵀᵁⱽᵂ   ");
    reveal_strlit("ᵃᵇᶜᵈᵉᶠᵍʰⁱʲᵏˡᵐⁿᵒᵖ ʳˢᵗᵘᵛʷˣʸᶻ");
    if '0' <= c && c <= '9' {
        let i = c as int - '0' as int;
        assert(0 <= i < 10);
        assert(!is_ascii_alphanumeric(SUPERSCRIPT_DIGITS@[i]));
    } else if 'A' <= c && c <= 'Z' {
        let i = c as int - 'A' as int;
        assert(0 <= i < 26);
        assert(!is_ascii_alphanumeric(SUPERSCRIPT_CAPITALS@[i]));
    } else if 'a' <= c && c <= 'z' {
        let i = c as int - 'a' as int;
        assert(0 <= i < 26);
        assert(!is_ascii_alphanumeric(SUPERSCRIPT_LOWERCASE@[i]));
    }
}

/// Writing a text in superscript twice gives the same as writing it once.
pub proof fn lemma_superscript_idempotent(s: Seq<char>)
    ensures
        superscript(superscript(s)) == superscript(s),
{
    assert forall|i: int| 0 <= i < s.len() implies superscript(superscript(s))[i] == superscript(
        s,
    )[i] by {
        lemma_superscript_char_fixed(s[i]);
    }
    assert(superscript(superscript(s)) =~= superscript(s));
}

/// Superscript of a concatenation is the concatenation of the superscripts.
pub proof fn lemma_superscript_concat(a: Seq<char>, b: Seq<char>)
    ensures
        superscript(a + b) == superscript(a) + superscript(b),
{
    assert(superscript(a + b) =~= superscript(a) + superscript(b));
}

/// A color that can be applied to widget content.
#[derive(Clone, Copy, PartialEq, Eq, Structural)]
pub enum Color {
    Default,
    Red,
    Green,
    Yellow,
    Blue,
    Magenta,
    Cyan,
    White,
    /// Don't apply any color codes to inherit the previous color settings.
    Inherit,
}

/// The ANSI escape sequence of a color (empty for `Color::Inherit`).
pub open spec fn color_code(c: Color) -> Seq<char> {
    match c {
        Color::Default => SGR_RESET@,
        Color::Red => "\x1b[31m"@,
        Color::Green => "\x1b[32m"@,
        Color::Yellow => "\x1b[33m"@,
        Color::Blue => "\x1b[34m"@,
        Color::Magenta => "\x1b[35m"@,
        Color::Cyan => "\x1b[36m"@,
        Color::White => "\x1b[37m"@,
        Color::Inherit => Seq::empty(),
    }
}

/// The text that switches to a color in a zsh prompt: its escape sequence
/// between zero-width markers, or nothing for `Color::Inherit`.
pub open spec fn activation(c: Color) -> Seq<char> {
    match c {
        Color::Inherit => Seq::empty(),
        _ => ZERO_WIDTH_BEGIN@ + color_code(c) + ZERO_WIDTH_END@,
    }
}

impl Color {
    /// The color that resets all attributes.
    pub open spec fn reset_spec() -> Color {
        Color::Default
    }

    /// The color that resets all attributes.
    #[verifier::when_used_as_spec(reset_spec)]
    pub fn reset() -> (r: Color)
        ensures
            r == Color::Default,
    {
        Color::Default
    }

    /// The ANSI escape sequence of the color.
    pub fn code(&self) -> (r: &'static str)
        ensures
            r@ == color_code(*self),
    {
        proof {
            reveal_strlit("");
        }
        match *self {
            Color::Default => SGR_RESET,
            Color::Red => "\x1b[31m",
            Color::Green => "\x1b[32m",
            Color::Yellow => "\x1b[33m",
            Color::Blue => "\x1b[34m",
            Color::Magenta => "\x1b[35m",
            Color::Cyan => "\x1b[36m",
            Color::White => "\x1b[37m",
            Color::Inherit => "",
        }
    }

    /// Return the ANSI escape codes to activate the given color.
    pub fn activate(&self) -> (r: String)
        ensures
            r@ == activation(*self),
            *self == Color::Inherit <==> r@.len() == 0,
    {
        proof {
            reveal_strlit("");
            reveal_strlit("%{");
            reveal_strlit("%}");
        }
        match self {
            Color::Inherit => String::new(),
            _ => {
                let mut s = String::from_str(ZERO_WIDTH_BEGIN);
                s.append(self.code());
                s.append(ZERO_WIDTH_END);
                s
            },
        }
    }
}

} // verus!
