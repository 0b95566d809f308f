//! The status line: mode, a file label and the cursor position, laid out
//! over the full width of the viewport.

use vstd::prelude::*;
use crate::editor::Editor;
use crate::input::Mode;

verus! {

/// The glyph between the mode segment and the middle segment.
pub const LEFT_GLYPH: char = '\u{e0b0}';

/// The glyph between the middle segment and the position segment.
pub const RIGHT_GLYPH: char = '\u{e0b2}';

/// The character of a decimal digit.
pub open spec fn digit_char(d: nat) -> char {
    if d == 0 { '0' }
    else if d == 1 { '1' }
    else if d == 2 { '2' }
    else if d == 3 { '3' }
    else if d == 4 { '4' }
    else if d == 5 { '5' }
    else if d == 6 { '6' }
    else if d == 7 { '7' }
    else if d == 8 { '8' }
    else { '9' }
}

/// `n` written in decimal, without leading zeros.
pub open spec fn decimal(n: nat) -> Seq<char>
    decreases n,
{
    if n < 10 {
        seq![digit_char(n)]
    } else {
        decimal(n / 10).push(digit_char(n % 10))
    }
}

/// The mode's name in upper case, with one space on each side.
pub open spec fn mode_segment(mode: Mode) -> Seq<char> {
    match mode {
        Mode::Normal => seq![' ', 'N', 'O', 'R', 'M', 'A', 'L', ' '],
        Mode::Insert => seq![' ', 'I', 'N', 'S', 'E', 'R', 'T', ' '],
    }
}

/// `" {column}:{row} "`.
pub open spec fn position_segment(column: nat, row: nat) -> Seq<char> {
    seq![' '] + decimal(column) + seq![':'] + decimal(row) + seq![' ']
}

/// The placeholder label shown in the middle segment.
pub open spec fn file_label() -> Seq<char> {
    seq!['s', 'r', 'c', '/', 'm', 'a', 'i', 'n', '.', 'r', 's']
}

/// `s` cut or padded with spaces to exactly `width` characters.
pub open spec fn padded(s: Seq<char>, width: int) -> Seq<char>
    recommends
        width >= 0,
{
    if s.len() >= width {
        s.take(width)
    } else {
        s + Seq::new((width - s.len()) as nat, |i: int| ' ')
    }
}

/// The rendered status line, segment by segment, and the row it goes on.
pub struct StatusLine {
    pub row: u16,
    pub mode_segment: String,
    pub left_glyph: char,
    pub middle: String,
    pub right_glyph: char,
    pub position: String,
}

impl Editor {
    /// The width left to the middle segment.
    pub open spec fn middle_width(self) -> int {
        self.size.0 - mode_segment(self.mode).len() - position_segment(self.cx as nat, self.cy as nat).len() - 2
    }

    /// Whether the viewport has room for the status line: the fixed segments
    /// and the two glyphs fit in its width, and it has a second-to-last row.
    pub open spec fn status_fits(self) -> bool {
        self.middle_width() >= 0 && self.size.1 >= 2
    }
}

fn digit_str(d: usize) -> (r: &'static str)
    requires
        d < 10,
    ensures
        r@ == seq![digit_char(d as nat)],
{
    proof {
        reveal_strlit("0");
        reveal_strlit("1");
        reveal_strlit("2");
        reveal_strlit("3");
        reveal_strlit("4");
        reveal_strlit("5");
        reveal_strlit("6");
        reveal_strlit("7");
        reveal_strlit("8");
        reveal_strlit("9");
    }
    if d == 0 { "0" }
    else if d == 1 { "1" }
    else if d == 2 { "2" }
    else if d == 3 { "3" }
    else if d == 4 { "4" }
    else if d == 5 { "5" }
    else if d == 6 { "6" }
    else if d == 7 { "7" }
    else if d == 8 { "8" }
    else { "9" }
}

/// Appends `n` in decimal to `s`.
pub fn push_decimal(s: &mut String, n: usize)
    ensures
        final(s)@ == old(s)@ + decimal(n as nat),
    decreases n,
{
    if n >= 10 {
        push_decimal(s, n / 10);
    }
    s.append(digit_str(n % 10));
    assert(s@ =~= old(s)@ + decimal(n as nat));
}

/// `label` cut or padded with spaces to exactly `width` characters.
fn pad_to(label: &str, width: usize) -> (r: String)
    ensures
        r@ == padded(label@, width as int),
{
    let full = label.unicode_len();
    let kept = if full < width { full } else { width };
    let text = label.substring_char(0, kept);
    let mut r = String::from_str(text);
    let start = kept;
    let mut i: usize = start;
    while i < width
        invariant
            full == label@.len(),
            start == if full < width { full } else { width },
            text@ == label@.subrange(0, start as int),
            start <= i <= width,
            r@ =~= text@ + Seq::new((i - start) as nat, |j: int| ' '),
        decreases width - i,
    {
        r.append(" ");
        proof {
            reveal_strlit(" ");
        }
        i = i + 1;
    }
    assert(r@ =~= padded(label@, width as int));
    r
}

impl Editor {
    /// Renders the status line, or `None` where the viewport is too small
    /// for it (see `status_fits`).
    pub fn status_line(&self) -> (r: Option<StatusLine>)
        ensures
            r is Some <==> self.status_fits(),
            r matches Some(line) ==> {
                &&& line.row == self.size.1 - 2
                &&& line.mode_segment@ == mode_segment(self.mode)
                &&& line.left_glyph == LEFT_GLYPH
                &&& line.middle@ == padded(file_label(), self.middle_width())
                &&& line.right_glyph == RIGHT_GLYPH
                &&& line.position@ == position_segment(self.cx as nat, self.cy as nat)
            },
    {
        proof {
            reveal_strlit(" NORMAL ");
            reveal_strlit(" INSERT ");
            reveal_strlit(" ");
            reveal_strlit(":");
            reveal_strlit("src/main.rs");
        }
        let mode = match self.mode {
            Mode::Normal => String::from_str(" NORMAL "),
            Mode::Insert => String::from_str(" INSERT "),
        };
        let mut position = String::from_str(" ");
        push_decimal(&mut position, self.cx);
        position.append(":");
        push_decimal(&mut position, self.cy);
        position.append(" ");
        assert(position@ =~= position_segment(self.cx as nat, self.cy as nat));
        assert(mode@ =~= mode_segment(self.mode));

        let width = self.size.0 as usize;
        let mode_len = mode.as_str().unicode_len();
        let position_len = position.as_str().unicode_len();
        if self.size.1 < 2 || mode_len > width || position_len > width - mode_len
            || width - mode_len - position_len < 2 {
            return None;
        }
        let middle = pad_to("src/main.rs", width - mode_len - position_len - 2);
        assert(file_label() =~= "src/main.rs"@);
        Some(StatusLine {
            row: self.size.1 - 2,
            mode_segment: mode,
            left_glyph: LEFT_GLYPH,
            middle,
            right_glyph: RIGHT_GLYPH,
            position,
        })
    }
}

} // verus!
