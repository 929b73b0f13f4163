//! The SD-card programs: the card's size, where the status and the
//! directory listing go, the text shown for a chunk of a file, and the
//! clock that stamps the files.

use vstd::prelude::*;
use crate::canvas::{Baseline, Color, DrawOp, Font, Point, SpecDrawOp};

verus! {

#[verifier::external_type_specification]
#[verifier::external_body]
pub struct ExHeaplessString<const N: usize>(heapless::String<N>);

/// The characters held by a heapless string of 128 bytes.
pub uninterp spec fn line_chars(s: heapless::String<128>) -> Seq<char>;

/// Number of bytes of the UTF-8 encoding of `c`.
pub open spec fn char_width(c: char) -> nat {
    if (c as u32) <= 0x7f {
        1
    } else if (c as u32) <= 0x7ff {
        2
    } else if (c as u32) <= 0xffff {
        3
    } else {
        4
    }
}

/// Number of bytes of the UTF-8 encoding of `s`.
pub open spec fn utf8_width(s: Seq<char>) -> nat
    decreases s.len(),
{
    if s.len() == 0 {
        0
    } else {
        utf8_width(s.drop_last()) + char_width(s.last())
    }
}

/// Calls heapless' `String::<128>::new`, which makes an empty string.
#[verifier::external_body]
fn line_new() -> (s: heapless::String<128>)
    ensures
        line_chars(s) == Seq::<char>::empty(),
{
    heapless::String::new()
}

/// Calls heapless' `String::<128>::push`. The string holds at most 128
/// bytes of UTF-8: `push` appends `c` and returns `Ok` when its encoding
/// fits in what is left, and otherwise returns `Err` and leaves the string
/// as it was.
#[verifier::external_body]
fn line_push(s: &mut heapless::String<128>, c: char) -> (r: Result<(), ()>)
    ensures
        utf8_width(line_chars(*old(s))) + char_width(c) <= 128 ==> r is Ok && line_chars(*final(s))
            == line_chars(*old(s)).push(c),
        utf8_width(line_chars(*old(s))) + char_width(c) > 128 ==> r is Err && line_chars(*final(s))
            == line_chars(*old(s)),
{
    s.push(c)
}

/// Each byte read as the character with that code (ISO 8859-1).
pub open spec fn latin1(bytes: Seq<u8>) -> Seq<char> {
    bytes.map_values(|b: u8| b as char)
}

/// The text shown for a chunk read from a file: each byte becomes the
/// character with that code. It must fit in a line of 128 bytes, where a
/// byte from 0x80 up takes two; `Err` when it does not.
pub fn chunk_text(bytes: &[u8]) -> (r: Result<heapless::String<128>, ()>)
    ensures
        r is Ok <==> utf8_width(latin1(bytes@)) <= 128,
        r matches Ok(line) ==> line_chars(line) == latin1(bytes@),
{
    let mut line = line_new();
    let n = bytes.len();
    let mut i: usize = 0;
    while i < n
        invariant
            n == bytes@.len(),
            i <= n,
            line_chars(line) == latin1(bytes@.take(i as int)),
            utf8_width(latin1(bytes@.take(i as int))) <= 128,
        decreases n - i,
    {
        let c = bytes[i] as char;
        let pushed = line_push(&mut line, c);
        proof {
            assert(bytes@.take(i + 1) =~= bytes@.take(i as int).push(bytes@[i as int]));
            assert(latin1(bytes@.take(i + 1)) =~= latin1(bytes@.take(i as int)).push(c));
            assert(latin1(bytes@.take(i + 1)).drop_last() =~= latin1(bytes@.take(i as int)));
        }
        if pushed.is_err() {
            proof {
                lemma_width_prefix(latin1(bytes@), i + 1);
                assert(latin1(bytes@).take(i + 1) =~= latin1(bytes@.take(i + 1)));
            }
            return Err(());
        }
        i = i + 1;
    }
    proof {
        assert(bytes@.take(n as int) =~= bytes@);
    }
    Ok(line)
}

proof fn lemma_width_prefix(s: Seq<char>, k: int)
    requires
        0 <= k <= s.len(),
    ensures
        utf8_width(s.take(k)) <= utf8_width(s),
    decreases s.len() - k,
{
    if k < s.len() {
        lemma_width_prefix(s, k + 1);
        assert(s.take(k + 1).drop_last() =~= s.take(k));
    } else {
        assert(s.take(k) =~= s);
    }
}

/// The capacity of the card in mebibytes, rounded down.
pub fn card_size_mb(size_bytes: u64) -> (mb: u64)
    ensures
        mb == size_bytes / 1048576u64,
{
    size_bytes / 1024 / 1024
}

/// White 9x15 text whose top-left corner is `pos`.
pub open spec fn spec_large_text(text: Seq<char>, pos: Point) -> SpecDrawOp {
    SpecDrawOp::Text { text, position: pos, font: Font::Ascii9x15, color: Color::White, baseline: Baseline::Top }
}

/// The status line at the top of the screen: the card's state, or the text
/// read from a file.
pub fn status_line(text: String) -> (op: DrawOp)
    ensures
        op@ == spec_large_text(text@, Point { x: 4, y: 2 }),
{
    DrawOp::Text { text, position: Point::new(4, 2), font: Font::Ascii9x15, color: Color::White, baseline: Baseline::Top }
}

/// The top of line `count` of the directory listing: lines are 16 pixels
/// apart, starting 20 pixels from the top.
pub open spec fn listing_y(count: int) -> int {
    20 + 16 * count
}

/// Line `count` of the directory listing (an error message goes where the
/// first entry would).
pub fn listing_line(count: i32, text: String) -> (op: DrawOp)
    requires
        i32::MIN <= 16 * count,
        listing_y(count as int) <= i32::MAX,
    ensures
        op@ == spec_large_text(text@, Point { x: 4, y: listing_y(count as int) as i32 }),
{
    DrawOp::Text {
        text,
        position: Point::new(4, 20 + count * 16),
        font: Font::Ascii9x15,
        color: Color::White,
        baseline: Baseline::Top,
    }
}

/// A file timestamp, field by field as the FAT file system stores it.
#[derive(Clone, Copy, Debug, PartialEq, Eq, Structural)]
pub struct Timestamp {
    pub year_since_1970: u8,
    pub zero_indexed_month: u8,
    pub zero_indexed_day: u8,
    pub hours: u8,
    pub minutes: u8,
    pub seconds: u8,
}

/// The board has no real-time clock: files are stamped with midnight,
/// January 1st 1970.
pub fn fixed_timestamp() -> (t: Timestamp)
    ensures
        t == (Timestamp {
            year_since_1970: 0,
            zero_indexed_month: 0,
            zero_indexed_day: 0,
            hours: 0,
            minutes: 0,
            seconds: 0,
        }),
{
    Timestamp { year_since_1970: 0, zero_indexed_month: 0, zero_indexed_day: 0, hours: 0, minutes: 0, seconds: 0 }
}

} // verus!
