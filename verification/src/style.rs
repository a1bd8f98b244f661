//! Rendering of ANSI-colored text.
//!
//! A styled piece of text is the text wrapped in a Select Graphic Rendition
//! escape sequence: `ESC [ codes m text ESC [ 0 m`, where `codes` lists the
//! attribute codes separated by semicolons (`1` bold, `2` dim, and `30`-`37`
//! for the foreground colors), and `ESC [ 0 m` resets the style.

use vstd::prelude::*;
use vstd::string::StringExecFns;

verus! {

/// `text` wrapped in the SGR sequence for `codes`, followed by a style reset.
pub open spec fn painted(codes: Seq<char>, text: Seq<char>) -> Seq<char> {
    seq!['\u{1b}', '['] + codes + seq!['m'] + text + seq!['\u{1b}', '[', '0', 'm']
}

/// Wraps `text` in the SGR sequence for `codes` and a trailing reset.
pub fn paint(codes: &str, text: &str) -> (r: String)
    ensures
        r@ == painted(codes@, text@),
{
    let mut r = String::new();
    r.append("\u{1b}[");
    r.append(codes);
    r.append("m");
    r.append(text);
    r.append("\u{1b}[0m");
    proof {
        reveal_strlit("\u{1b}[");
        reveal_strlit("m");
        reveal_strlit("\u{1b}[0m");
        assert(r@ =~= painted(codes@, text@));
    }
    r
}

/// `text` colored red.
pub fn red(text: &str) -> (r: String)
    ensures
        r@ == painted(seq!['3', '1'], text@),
{
    let r = paint("31", text);
    proof {
        reveal_strlit("31");
        assert("31"@ =~= seq!['3', '1']);
    }
    r
}

/// `text` colored green.
pub fn green(text: &str) -> (r: String)
    ensures
        r@ == painted(seq!['3', '2'], text@),
{
    let r = paint("32", text);
    proof {
        reveal_strlit("32");
        assert("32"@ =~= seq!['3', '2']);
    }
    r
}

/// `text` colored white.
pub fn white(text: &str) -> (r: String)
    ensures
        r@ == painted(seq!['3', '7'], text@),
{
    let r = paint("37", text);
    proof {
        reveal_strlit("37");
        assert("37"@ =~= seq!['3', '7']);
    }
    r
}

/// `text` in bold white.
pub fn white_bold(text: &str) -> (r: String)
    ensures
        r@ == painted(seq!['1', ';', '3', '7'], text@),
{
    let r = paint("1;37", text);
    proof {
        reveal_strlit("1;37");
        assert("1;37"@ =~= seq!['1', ';', '3', '7']);
    }
    r
}

/// `text` in dim white.
pub fn white_dimmed(text: &str) -> (r: String)
    ensures
        r@ == painted(seq!['2', ';', '3', '7'], text@),
{
    let r = paint("2;37", text);
    proof {
        reveal_strlit("2;37");
        assert("2;37"@ =~= seq!['2', ';', '3', '7']);
    }
    r
}

/// `text` in bold cyan.
pub fn cyan_bold(text: &str) -> (r: String)
    ensures
        r@ == painted(seq!['1', ';', '3', '6'], text@),
{
    let r = paint("1;36", text);
    proof {
        reveal_strlit("1;36");
        assert("1;36"@ =~= seq!['1', ';', '3', '6']);
    }
    r
}

/// `text` in bold blue.
pub fn blue_bold(text: &str) -> (r: String)
    ensures
        r@ == painted(seq!['1', ';', '3', '4'], text@),
{
    let r = paint("1;34", text);
    proof {
        reveal_strlit("1;34");
        assert("1;34"@ =~= seq!['1', ';', '3', '4']);
    }
    r
}

/// `text` in dim yellow.
pub fn yellow_dimmed(text: &str) -> (r: String)
    ensures
        r@ == painted(seq!['2', ';', '3', '3'], text@),
{
    let r = paint("2;33", text);
    proof {
        reveal_strlit("2;33");
        assert("2;33"@ =~= seq!['2', ';', '3', '3']);
    }
    r
}

/// `text` in bold dim yellow.
pub fn yellow_dimmed_bold(text: &str) -> (r: String)
    ensures
        r@ == painted(seq!['1', ';', '2', ';', '3', '3'], text@),
{
    let r = paint("1;2;33", text);
    proof {
        reveal_strlit("1;2;33");
        assert("1;2;33"@ =~= seq!['1', ';', '2', ';', '3', '3']);
    }
    r
}

/// `text` in bold dim green.
pub fn green_bold_dimmed(text: &str) -> (r: String)
    ensures
        r@ == painted(seq!['1', ';', '2', ';', '3', '2'], text@),
{
    let r = paint("1;2;32", text);
    proof {
        reveal_strlit("1;2;32");
        assert("1;2;32"@ =~= seq!['1', ';', '2', ';', '3', '2']);
    }
    r
}

/// `text` in dim green.
pub fn green_dimmed(text: &str) -> (r: String)
    ensures
        r@ == painted(seq!['2', ';', '3', '2'], text@),
{
    let r = paint("2;32", text);
    proof {
        reveal_strlit("2;32");
        assert("2;32"@ =~= seq!['2', ';', '3', '2']);
    }
    r
}

} // verus!
