//! Pure helpers behind the terminal rendering: the spinner frame for a
//! point in time, and the mapping from a buffer cursor to a screen
//! position.  The drawing itself happens outside the library.

use vstd::prelude::*;
use vstd::string::StrSliceExecFns;

use crate::app::clamp_cursor;
use crate::app::newline_count;

verus! {

/// The spinner frame shown at a given time, in milliseconds: the four
/// frames rotate every 150 ms.
pub open spec fn spinner_spec(millis: u64) -> char {
    let idx = (millis as int / 150) % 4;
    if idx == 0 {
        '|'
    } else if idx == 1 {
        '/'
    } else if idx == 2 {
        '-'
    } else {
        '\\'
    }
}

/// The spinner frame for a point in time, given in milliseconds.
pub fn spinner_symbol(millis: u64) -> (c: char)
    ensures
        c == spinner_spec(millis),
{
    let idx = (millis / 150) % 4;
    if idx == 0 {
        '|'
    } else if idx == 1 {
        '/'
    } else if idx == 2 {
        '-'
    } else {
        '\\'
    }
}

/// The start of the line containing position `c`: one past the last
/// newline before it, or the start of the text.
pub open spec fn last_line_start(s: Seq<char>, c: int) -> int
    decreases c,
{
    if c <= 0 {
        0
    } else if s[c - 1] == '\n' {
        c
    } else {
        last_line_start(s, c - 1)
    }
}

/// The row of the cursor: how many newlines precede it.
pub open spec fn cursor_row(s: Seq<char>, cursor: int) -> int {
    newline_count(s.take(clamp_cursor(s, cursor)))
}

/// The column of the cursor within its row.
pub open spec fn cursor_col(s: Seq<char>, cursor: int) -> int {
    let c = clamp_cursor(s, cursor);
    c - last_line_start(s, c)
}

/// The row and column of a cursor in a text, counting characters.
pub fn cursor_position(text: &str, cursor: usize) -> (r: (usize, usize))
    ensures
        r.0 as int == cursor_row(text@, cursor as int),
        r.1 as int == cursor_col(text@, cursor as int),
{
    let n = text.unicode_len();
    let cc = if cursor < n {
        cursor
    } else {
        n
    };
    let mut row: usize = 0;
    let mut col: usize = 0;
    let mut i: usize = 0;
    while i < cc
        invariant
            i <= cc <= n,
            n == text@.len(),
            row <= i,
            col <= i,
            row as int == newline_count(text@.take(i as int)),
            col as int == i - last_line_start(text@, i as int),
        decreases cc - i,
    {
        let ch = text.get_char(i);
        proof {
            assert(text@.take(i + 1).drop_last() =~= text@.take(i as int));
            assert(text@.take(i + 1).last() == text@[i as int]);
        }
        if ch == '\n' {
            row += 1;
            col = 0;
        } else {
            col += 1;
        }
        i += 1;
    }
    (row, col)
}

/// Where a buffer cursor lands inside a screen area, or `None` when it
/// is scrolled out of view or the area is empty.  The area is given by
/// its top-left corner and size.
pub open spec fn cursor_to_screen_spec(
    x: int,
    y: int,
    width: int,
    height: int,
    row: int,
    col: int,
    scroll: int,
) -> Option<(int, int)> {
    if width == 0 || height == 0 {
        None
    } else if row < scroll {
        None
    } else if row - scroll >= height {
        None
    } else {
        let cx = if col <= width - 1 {
            col
        } else {
            width - 1
        };
        let cy = if row - scroll <= height - 1 {
            row - scroll
        } else {
            height - 1
        };
        Some((x + cx, y + cy))
    }
}

/// Map a cursor's row and column to a screen position inside an area.
pub fn cursor_to_screen(
    x: u16,
    y: u16,
    width: u16,
    height: u16,
    row: usize,
    col: usize,
    scroll: u16,
) -> (r: Option<(u16, u16)>)
    requires
        x + width <= 0x10000,
        y + height <= 0x10000,
    ensures
        r is Some <==> cursor_to_screen_spec(
            x as int,
            y as int,
            width as int,
            height as int,
            row as int,
            col as int,
            scroll as int,
        ) is Some,
        r matches Some(p) ==> cursor_to_screen_spec(
            x as int,
            y as int,
            width as int,
            height as int,
            row as int,
            col as int,
            scroll as int,
        ) matches Some(q) && p.0 as int == q.0 && p.1 as int == q.1,
{
    if width == 0 || height == 0 {
        return None;
    }
    let scroll_u: usize = scroll as usize;
    if row < scroll_u {
        return None;
    }
    let visible_row = row - scroll_u;
    if visible_row >= height as usize {
        return None;
    }
    let max_x: usize = (width - 1) as usize;
    let max_y: usize = (height - 1) as usize;
    let cx = if col < max_x {
        col
    } else {
        max_x
    };
    let cy = if visible_row < max_y {
        visible_row
    } else {
        max_y
    };
    let sx: u16 = x + (cx as u16);
    let sy: u16 = y + (cy as u16);
    Some((sx, sy))
}

} // verus!
