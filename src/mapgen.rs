//! The tile map: a text grid in which every character but `.` is a solid tile.
use vstd::prelude::*;
use crate::geometry::Rect;
use crate::units::TILE_SIZE;

verus! {

/// Longest map text accepted, in bytes: every tile coordinate then fits in `i32`.
pub const MAX_MAP_LEN: usize = 0x7ff_ffff;

/// Why a map text was refused.
#[derive(Clone, Copy, Debug, PartialEq, Eq, Structural)]
pub enum MapError {
    /// The byte at `offset` is not ASCII.
    NonAscii { offset: usize },
}

/// The solid tile of row `row` and column `col`.
pub open spec fn tile_at(row: int, col: int) -> Rect {
    Rect {
        x: (col * TILE_SIZE) as i32,
        y: (row * TILE_SIZE + TILE_SIZE / 2) as i32,
        w: TILE_SIZE as u32,
        h: TILE_SIZE as u32,
    }
}

/// A line break ends a row: `\n`, or `\r` just before `\n`, which belongs to it.
pub open spec fn is_break(s: Seq<u8>, i: int) -> bool {
    s[i] == 10u8 || (s[i] == 13u8 && i + 1 < s.len() && s[i + 1] == 10u8)
}

/// The tiles of `s` from byte `i` on, where byte `i` stands at row `row` and
/// column `col`, in reading order: row by row, left to right.
pub open spec fn tiles_from(s: Seq<u8>, i: int, row: int, col: int) -> Seq<Rect>
    decreases s.len() - i,
{
    if i < 0 || i >= s.len() {
        Seq::empty()
    } else if s[i] == 10u8 {
        tiles_from(s, i + 1, row + 1, 0)
    } else if is_break(s, i) || s[i] == 46u8 {
        tiles_from(s, i + 1, row, if s[i] == 46u8 { col + 1 } else { col })
    } else {
        seq![tile_at(row, col)] + tiles_from(s, i + 1, row, col + 1)
    }
}

/// The tiles of a whole map text.
pub open spec fn tiles_of(s: Seq<u8>) -> Seq<Rect> {
    tiles_from(s, 0, 0, 0)
}

/// Whether every byte of `s` is ASCII.
pub open spec fn all_ascii(s: Seq<u8>) -> bool {
    forall|i: int| 0 <= i < s.len() ==> s[i] < 128
}

/// Parses a map text into its solid tiles, in reading order. The tile of row
/// `r` and column `c` has its top-left corner at `(16 c, 16 r + 8)`. A line
/// ends at `\n` or `\r\n`; empty lines give no tile. A text that holds a
/// byte that is not ASCII is refused, with the offset of the first such byte.
pub fn map_to_rects(text: &[u8]) -> (r: Result<Vec<Rect>, MapError>)
    requires
        text@.len() <= MAX_MAP_LEN,
    ensures
        all_ascii(text@) ==> (r matches Ok(v) && v@ == tiles_of(text@)),
        !all_ascii(text@) ==> (r matches Err(MapError::NonAscii { offset }) && offset
            < text@.len() && text@[offset as int] >= 128 && all_ascii(
            text@.subrange(0, offset as int),
        )),
{
    let n = text.len();
    let mut i: usize = 0;
    while i < n
        invariant
            n == text@.len(),
            i <= n,
            all_ascii(text@.subrange(0, i as int)),
        decreases n - i,
    {
        if text[i] >= 128 {
            return Err(MapError::NonAscii { offset: i });
        }
        i = i + 1;
    }
    assert(text@.subrange(0, n as int) =~= text@);
    let mut rects: Vec<Rect> = Vec::new();
    let mut row: usize = 0;
    let mut col: usize = 0;
    let mut i: usize = 0;
    while i < n
        invariant
            n == text@.len(),
            n <= MAX_MAP_LEN,
            i <= n,
            row <= i,
            col <= i,
            rects@ + tiles_from(text@, i as int, row as int, col as int) == tiles_of(text@),
        decreases n - i,
    {
        let b = text[i];
        if b == 10 {
            row = row + 1;
            col = 0;
        } else if b == 13 && i + 1 < n && text[i + 1] == 10 {
        } else if b == 46 {
            col = col + 1;
        } else {
            let t = Rect::new(
                col as i32 * TILE_SIZE,
                row as i32 * TILE_SIZE + TILE_SIZE / 2,
                TILE_SIZE as u32,
                TILE_SIZE as u32,
            );
            proof {
                assert(t == tile_at(row as int, col as int));
                assert(rects@.push(t) + tiles_from(text@, i + 1, row as int, col + 1) == rects@ + (
                seq![t] + tiles_from(text@, i + 1, row as int, col + 1)));
            }
            rects.push(t);
            col = col + 1;
        }
        i = i + 1;
    }
    Ok(rects)
}

} // verus!
