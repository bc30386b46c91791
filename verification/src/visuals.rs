//! The clock face: large digits drawn from a fixed table of glyphs.
//!
//! A glyph is five rows of text. A digit's rows are five characters wide, the
//! colon's rows three. One line of the face joins the same row of the four
//! digits and of the colon, with a single space between neighbours.

use vstd::prelude::*;
use vstd::string::StringExecFns;

verus! {

/// Rows in every glyph, and so lines in the clock face.
pub const ROWS: usize = 5;

/// Characters in a row of a digit.
pub const DIGIT_WIDTH: usize = 5;

/// Characters in a row of the colon.
pub const COLON_WIDTH: usize = 3;

/// Characters in a line of the clock face: four digits, the colon and four
/// spaces between them.
pub const LINE_WIDTH: usize = 27;

pub const COLON: [&'static str; 5] = [
    "   ",
    " █ ",
    "   ",
    " █ ",
    "   ",
];

pub const ZERO: [&'static str; 5] = [
    " ███ ",
    "█   █",
    "█   █",
    "█   █",
    " ███ ",
];

pub const ONE: [&'static str; 5] = [
    "  █  ",
    " ██  ",
    "  █  ",
    "  █  ",
    " ███ ",
];

pub const TWO: [&'static str; 5] = [
    " ███ ",
    "    █",
    " ███ ",
    "█    ",
    " ███ ",
];

pub const THREE: [&'static str; 5] = [
    " ███ ",
    "    █",
    " ███ ",
    "    █",
    " ███ ",
];

pub const FOUR: [&'static str; 5] = [
    "█   █",
    "█   █",
    " ███ ",
    "    █",
    "    █",
];

pub const FIVE: [&'static str; 5] = [
    " ███ ",
    "█    ",
    " ███ ",
    "    █",
    " ███ ",
];

pub const SIX: [&'static str; 5] = [
    " ███ ",
    "█    ",
    " ███ ",
    "█   █",
    " ███ ",
];

pub const SEVEN: [&'static str; 5] = [
    " ███ ",
    "    █",
    "   █ ",
    "  █  ",
    " ███ ",
];

pub const EIGHT: [&'static str; 5] = [
    " ███ ",
    "█   █",
    " ███ ",
    "█   █",
    " ███ ",
];

pub const NINE: [&'static str; 5] = [
    " ███ ",
    "█   █",
    " ███ ",
    "    █",
    " ███ ",
];

/// The glyph of each digit, at the digit's own index.
pub const NUMBER_MAP: [[&'static str; 5]; 10] = [
    ZERO,
    ONE,
    TWO,
    THREE,
    FOUR,
    FIVE,
    SIX,
    SEVEN,
    EIGHT,
    NINE,
];

/// Row `row` of the glyph of `digit`.
pub open spec fn digit_row(digit: int, row: int) -> Seq<char> {
    NUMBER_MAP[digit][row]@
}

/// Row `row` of the colon.
pub open spec fn colon_row(row: int) -> Seq<char> {
    COLON[row]@
}

/// Line `row` of the face that shows the minutes `m1 m2` and the seconds
/// `s1 s2`.
pub open spec fn time_row(m1: int, m2: int, s1: int, s2: int, row: int) -> Seq<char> {
    digit_row(m1, row) + " "@ + digit_row(m2, row) + " "@ + colon_row(row) + " "@ + digit_row(
        s1,
        row,
    ) + " "@ + digit_row(s2, row)
}

/// The four digits of a clock that shows `total_secs` seconds as minutes and
/// seconds: tens and ones of the minutes, then tens and ones of the seconds.
pub open spec fn clock_digits(total_secs: int) -> (int, int, int, int) {
    let minutes = total_secs / 60;
    let seconds = total_secs % 60;
    (minutes / 10, minutes % 10, seconds / 10, seconds % 10)
}

/// Every row of a digit is five characters wide, and every row of the colon
/// three.
pub proof fn lemma_glyph_widths(digit: int, row: int)
    requires
        0 <= digit < 10,
        0 <= row < ROWS,
    ensures
        digit_row(digit, row).len() == DIGIT_WIDTH,
        colon_row(row).len() == COLON_WIDTH,
{
    reveal_strlit(" ███ ");
    reveal_strlit("█   █");
    reveal_strlit("█    ");
    reveal_strlit("    █");
    reveal_strlit("  █  ");
    reveal_strlit(" ██  ");
    reveal_strlit("   █ ");
    reveal_strlit("   ");
    reveal_strlit(" █ ");
}

/// Every line of the clock face is twenty-seven characters wide.
pub proof fn lemma_line_width(m1: int, m2: int, s1: int, s2: int, row: int)
    requires
        0 <= m1 < 10,
        0 <= m2 < 10,
        0 <= s1 < 10,
        0 <= s2 < 10,
        0 <= row < ROWS,
    ensures
        time_row(m1, m2, s1, s2, row).len() == LINE_WIDTH,
{
    lemma_glyph_widths(m1, row);
    lemma_glyph_widths(m2, row);
    lemma_glyph_widths(s1, row);
    lemma_glyph_widths(s2, row);
    reveal_strlit(" ");
}

/// The five lines of the clock face that shows the minutes `m1 m2` and the
/// seconds `s1 s2`, from the top line down.
pub fn draw_time(m1: u64, m2: u64, s1: u64, s2: u64) -> (lines: Vec<String>)
    requires
        m1 < 10,
        m2 < 10,
        s1 < 10,
        s2 < 10,
    ensures
        lines@.len() == ROWS,
        forall|row: int|
            0 <= row < ROWS ==> (#[trigger] lines@[row])@ == time_row(
                m1 as int,
                m2 as int,
                s1 as int,
                s2 as int,
                row,
            ),
        forall|row: int| 0 <= row < ROWS ==> (#[trigger] lines@[row])@.len() == LINE_WIDTH,
{
    let mut lines: Vec<String> = Vec::with_capacity(ROWS);
    let mut i: usize = 0;
    while i < ROWS
        invariant
            m1 < 10,
            m2 < 10,
            s1 < 10,
            s2 < 10,
            i <= ROWS,
            lines@.len() == i,
            forall|row: int|
                0 <= row < i ==> (#[trigger] lines@[row])@ == time_row(
                    m1 as int,
                    m2 as int,
                    s1 as int,
                    s2 as int,
                    row,
                ),
            forall|row: int| 0 <= row < i ==> (#[trigger] lines@[row])@.len() == LINE_WIDTH,
        decreases ROWS - i,
    {
        let mut line: String = String::from_str(NUMBER_MAP[m1 as usize][i]);
        line.append(" ");
        line.append(NUMBER_MAP[m2 as usize][i]);
        line.append(" ");
        line.append(COLON[i]);
        line.append(" ");
        line.append(NUMBER_MAP[s1 as usize][i]);
        line.append(" ");
        line.append(NUMBER_MAP[s2 as usize][i]);
        proof {
            lemma_line_width(m1 as int, m2 as int, s1 as int, s2 as int, i as int);
        }
        lines.push(line);
        i += 1;
    }
    lines
}

} // verus!
