//! Abstract draw instructions.
//!
//! The simulation core never touches a display surface: each frame it emits a
//! finite, ordered sequence of [`DrawCommand`] values, and the host renders
//! them.  The mathematical model of a command is a [`DrawStep`], which holds
//! unbounded integers and character sequences so that contracts can speak of
//! exact cell positions and texts.

use vstd::prelude::*;

verus! {

use vstd::string::StringExecFns;

/// Colours of the character-cell surface that the game uses.
#[derive(Clone, Copy, PartialEq, Eq, Structural, Debug)]
pub enum TermColor {
    Black,
    Red,
    Yellow,
    Navy,
}

/// One draw instruction handed to the host renderer.
pub enum DrawCommand {
    /// Put one glyph at a cell.
    SetCell { x: i32, y: i32, glyph: char, fg: TermColor, bg: TermColor },
    /// Put a line of text starting at a cell.
    DrawText { x: i32, y: i32, text: String },
}

/// Mathematical model of a [`DrawCommand`].
pub enum DrawStep {
    Cell { x: int, y: int, glyph: char, fg: TermColor, bg: TermColor },
    Text { x: int, y: int, text: Seq<char> },
}

impl View for DrawCommand {
    type V = DrawStep;

    open spec fn view(&self) -> DrawStep {
        match self {
            DrawCommand::SetCell { x, y, glyph, fg, bg } => DrawStep::Cell {
                x: *x as int,
                y: *y as int,
                glyph: *glyph,
                fg: *fg,
                bg: *bg,
            },
            DrawCommand::DrawText { x, y, text } => DrawStep::Text {
                x: *x as int,
                y: *y as int,
                text: text@,
            },
        }
    }
}

/// The models of a whole frame's worth of commands, in order.
pub open spec fn draws_of(s: Seq<DrawCommand>) -> Seq<DrawStep> {
    s.map_values(|c: DrawCommand| c@)
}

/// Column at which a text of the given length starts when centred on a
/// surface of the given width.
pub open spec fn center_of(width: int, len: int) -> int {
    width / 2 - len / 2
}

/// Computes the starting column of a centred text.
pub fn centered_x(width: i32, len: usize) -> (x: i32)
    requires
        0 <= width,
        len <= i32::MAX,
    ensures
        x == center_of(width as int, len as int),
{
    width / 2 - (len as i32) / 2
}

/// The decimal digits of a natural number, most significant first.
pub open spec fn dec_digits(n: nat) -> Seq<char>
    decreases n,
{
    if n < 10 {
        seq![digit_char(n as int)]
    } else {
        dec_digits(n / 10).push(digit_char((n % 10) as int))
    }
}

/// The character for one decimal digit.
pub open spec fn digit_char(d: int) -> char {
    ((0x30 + d) as u8) as char
}

/// Ten to the given power.
pub open spec fn pow10(k: nat) -> nat
    decreases k,
{
    if k == 0 {
        1
    } else {
        10 * pow10((k - 1) as nat)
    }
}

/// A number below `pow10(k)` has at most `k` decimal digits.
pub proof fn lemma_dec_digits_len(n: nat, k: nat)
    requires
        1 <= k,
        n < pow10(k),
    ensures
        1 <= dec_digits(n).len() <= k,
    decreases k,
{
    if n >= 10 {
        assert(pow10(k) == 10 * pow10((k - 1) as nat));
        lemma_dec_digits_len(n / 10, (k - 1) as nat);
    }
}

/// Any `u32` has at most ten decimal digits.
pub proof fn lemma_dec_digits_len_u32(n: u32)
    ensures
        1 <= dec_digits(n as nat).len() <= 10,
{
    reveal_with_fuel(pow10, 11);
    assert(pow10(10) == 10000000000);
    lemma_dec_digits_len(n as nat, 10);
}

/// The one-character string for a decimal digit.
pub fn digit_str(d: u32) -> (r: &'static str)
    requires
        d < 10,
    ensures
        r@ =~= seq![digit_char(d as int)],
{
    let r = match d {
        0 => "0",
        1 => "1",
        2 => "2",
        3 => "3",
        4 => "4",
        5 => "5",
        6 => "6",
        7 => "7",
        8 => "8",
        _ => "9",
    };
    proof {
        reveal_strlit("0");
        reveal_strlit("1");
        reveal_strlit("2");
        reveal_strlit("3");
        reveal_strlit("4");
        reveal_strlit("5");
        reveal_strlit("6");
        reveal_strlit("7");
        reveal_strlit("8");
        reveal_strlit("9");
    }
    r
}

/// Renders a number in decimal.
pub fn u32_to_decimal(n: u32) -> (s: String)
    ensures
        s@ == dec_digits(n as nat),
    decreases n,
{
    if n < 10 {
        let s = digit_str(n).to_owned();
        proof {
            assert(s@ =~= dec_digits(n as nat));
        }
        s
    } else {
        let q = n / 10;
        let r = n % 10;
        let s = u32_to_decimal(q).concat(digit_str(r));
        proof {
            assert(s@ =~= dec_digits(n as nat));
        }
        s
    }
}

} // verus!
