//! In-memory assembly of a plain-text portable pixmap.
//!
//! The file body is a two-line header (format tag, then width, height and
//! the maximum channel value) followed by one line per pixel, row-major,
//! with the three channel values in decimal.

use vstd::prelude::*;
use vstd::string::StringExecFns;
use crate::color::Color;
use crate::decimal::{dec_digits, u32_string};

verus! {

/// A completed image: its dimensions and its grid of packed colors,
/// stored as rows top to bottom.
pub struct PPM {
    pub width: u16,
    pub height: u16,
    pub data: Vec<Vec<Color>>,
}

/// The text line of one pixel: a newline, then the three channels in
/// decimal separated by single spaces.
pub open spec fn pixel_text(c: Color) -> Seq<char> {
    "\n"@ + dec_digits(c.red() as int) + " "@ + dec_digits(c.green() as int) + " "@
        + dec_digits(c.blue() as int)
}

/// The text of one row of pixels, left to right.
pub open spec fn row_text(row: Seq<Color>) -> Seq<char>
    decreases row.len(),
{
    if row.len() == 0 {
        Seq::empty()
    } else {
        row_text(row.drop_last()) + pixel_text(row.last())
    }
}

/// The text of all rows, top to bottom.
pub open spec fn grid_text(rows: Seq<Vec<Color>>) -> Seq<char>
    decreases rows.len(),
{
    if rows.len() == 0 {
        Seq::empty()
    } else {
        grid_text(rows.drop_last()) + row_text(rows.last()@)
    }
}

/// The complete file text: header, then every pixel line.
pub open spec fn file_text(width: u16, height: u16, rows: Seq<Vec<Color>>) -> Seq<char> {
    "P3\n"@ + dec_digits(width as int) + " "@ + dec_digits(height as int) + "\n255"@
        + grid_text(rows)
}

/// Appends one pixel's line to the output text.
fn push_pixel_text(s: &mut String, c: &Color)
    ensures
        final(s)@ == old(s)@ + pixel_text(*c),
{
    s.append("\n");
    s.append(u32_string(c.r() as u32).as_str());
    s.append(" ");
    s.append(u32_string(c.g() as u32).as_str());
    s.append(" ");
    s.append(u32_string(c.b() as u32).as_str());
    assert(s@ =~= old(s)@ + pixel_text(*c));
}

/// Appends one row's pixel lines to the output text.
fn push_row_text(s: &mut String, row: &Vec<Color>)
    ensures
        final(s)@ == old(s)@ + row_text(row@),
{
    let mut j: usize = 0;
    while j < row.len()
        invariant
            j <= row.len(),
            s@ == old(s)@ + row_text(row@.take(j as int)),
        decreases row.len() - j,
    {
        push_pixel_text(s, &row[j]);
        proof {
            assert(row@.take(j + 1).drop_last() =~= row@.take(j as int));
            assert(row@.take(j + 1).last() == row@[j as int]);
            assert(s@ =~= old(s)@ + row_text(row@.take(j + 1)));
        }
        j = j + 1;
    }
    proof {
        assert(row@.take(row@.len() as int) =~= row@);
    }
}

impl PPM {
    /// Stores an image's dimensions and pixel grid.
    pub fn new(width: u16, height: u16, data: Vec<Vec<Color>>) -> (p: PPM)
        ensures
            p.width == width,
            p.height == height,
            p.data@ == data@,
    {
        PPM { width, height, data }
    }

    /// Renders the image as the full text of a plain-text portable pixmap.
    pub fn as_file_data(&self) -> (s: String)
        ensures
            s@ == file_text(self.width, self.height, self.data@),
    {
        let mut s = "P3\n".to_owned();
        s.append(u32_string(self.width as u32).as_str());
        s.append(" ");
        s.append(u32_string(self.height as u32).as_str());
        s.append("\n255");
        let ghost header = s@;
        assert(header =~= "P3\n"@ + dec_digits(self.width as int) + " "@ + dec_digits(
            self.height as int,
        ) + "\n255"@);
        let mut i: usize = 0;
        while i < self.data.len()
            invariant
                i <= self.data.len(),
                s@ == header + grid_text(self.data@.take(i as int)),
                header == "P3\n"@ + dec_digits(self.width as int) + " "@ + dec_digits(
                    self.height as int,
                ) + "\n255"@,
            decreases self.data.len() - i,
        {
            push_row_text(&mut s, &self.data[i]);
            proof {
                assert(self.data@.take(i + 1).drop_last() =~= self.data@.take(i as int));
                assert(self.data@.take(i + 1).last() == self.data@[i as int]);
                assert(s@ =~= header + grid_text(self.data@.take(i + 1)));
            }
            i = i + 1;
        }
        proof {
            assert(self.data@.take(self.data@.len() as int) =~= self.data@);
        }
        s
    }
}

} // verus!
