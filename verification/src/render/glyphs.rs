//! The 5x7 bitmap font used for map labels.

use crate::text::chars_of;
use vstd::prelude::*;

verus! {

/// The glyph of `c` in the 5x7 bitmap font: seven rows, top first, each
/// holding five pixels in its low bits (the leftmost pixel in bit 4). Letters
/// of either case share the capital's glyph; digits, space, `.`, `-` and `'`
/// have glyphs; every other character has none.
pub open spec fn glyph_rows(c: char) -> Option<[u8; 7]> {
    match c {
        'A' | 'a' => Some([0b01110, 0b10001, 0b10001, 0b11111, 0b10001, 0b10001, 0b10001]),
        'B' | 'b' => Some([0b11110, 0b10001, 0b10001, 0b11110, 0b10001, 0b10001, 0b11110]),
        'C' | 'c' => Some([0b01110, 0b10001, 0b10000, 0b10000, 0b10000, 0b10001, 0b01110]),
        'D' | 'd' => Some([0b11100, 0b10010, 0b10001, 0b10001, 0b10001, 0b10010, 0b11100]),
        'E' | 'e' => Some([0b11111, 0b10000, 0b10000, 0b11110, 0b10000, 0b10000, 0b11111]),
        'F' | 'f' => Some([0b11111, 0b10000, 0b10000, 0b11110, 0b10000, 0b10000, 0b10000]),
        'G' | 'g' => Some([0b01110, 0b10001, 0b10000, 0b10111, 0b10001, 0b10001, 0b01110]),
        'H' | 'h' => Some([0b10001, 0b10001, 0b10001, 0b11111, 0b10001, 0b10001, 0b10001]),
        'I' | 'i' => Some([0b01110, 0b00100, 0b00100, 0b00100, 0b00100, 0b00100, 0b01110]),
        'J' | 'j' => Some([0b00111, 0b00010, 0b00010, 0b00010, 0b00010, 0b10010, 0b01100]),
        'K' | 'k' => Some([0b10001, 0b10010, 0b10100, 0b11000, 0b10100, 0b10010, 0b10001]),
        'L' | 'l' => Some([0b10000, 0b10000, 0b10000, 0b10000, 0b10000, 0b10000, 0b11111]),
        'M' | 'm' => Some([0b10001, 0b11011, 0b10101, 0b10101, 0b10001, 0b10001, 0b10001]),
        'N' | 'n' => Some([0b10001, 0b11001, 0b10101, 0b10011, 0b10001, 0b10001, 0b10001]),
        'O' | 'o' => Some([0b01110, 0b10001, 0b10001, 0b10001, 0b10001, 0b10001, 0b01110]),
        'P' | 'p' => Some([0b11110, 0b10001, 0b10001, 0b11110, 0b10000, 0b10000, 0b10000]),
        'Q' | 'q' => Some([0b01110, 0b10001, 0b10001, 0b10001, 0b10101, 0b10010, 0b01101]),
        'R' | 'r' => Some([0b11110, 0b10001, 0b10001, 0b11110, 0b10100, 0b10010, 0b10001]),
        'S' | 's' => Some([0b01110, 0b10001, 0b10000, 0b01110, 0b00001, 0b10001, 0b01110]),
        'T' | 't' => Some([0b11111, 0b00100, 0b00100, 0b00100, 0b00100, 0b00100, 0b00100]),
        'U' | 'u' => Some([0b10001, 0b10001, 0b10001, 0b10001, 0b10001, 0b10001, 0b01110]),
        'V' | 'v' => Some([0b10001, 0b10001, 0b10001, 0b10001, 0b10001, 0b01010, 0b00100]),
        'W' | 'w' => Some([0b10001, 0b10001, 0b10001, 0b10101, 0b10101, 0b11011, 0b10001]),
        'X' | 'x' => Some([0b10001, 0b10001, 0b01010, 0b00100, 0b01010, 0b10001, 0b10001]),
        'Y' | 'y' => Some([0b10001, 0b10001, 0b01010, 0b00100, 0b00100, 0b00100, 0b00100]),
        'Z' | 'z' => Some([0b11111, 0b00001, 0b00010, 0b00100, 0b01000, 0b10000, 0b11111]),
        '0' => Some([0b01110, 0b10001, 0b10011, 0b10101, 0b11001, 0b10001, 0b01110]),
        '1' => Some([0b00100, 0b01100, 0b00100, 0b00100, 0b00100, 0b00100, 0b01110]),
        '2' => Some([0b01110, 0b10001, 0b00001, 0b00110, 0b01000, 0b10000, 0b11111]),
        '3' => Some([0b01110, 0b10001, 0b00001, 0b00110, 0b00001, 0b10001, 0b01110]),
        '4' => Some([0b00010, 0b00110, 0b01010, 0b10010, 0b11111, 0b00010, 0b00010]),
        '5' => Some([0b11111, 0b10000, 0b11110, 0b00001, 0b00001, 0b10001, 0b01110]),
        '6' => Some([0b01110, 0b10000, 0b10000, 0b11110, 0b10001, 0b10001, 0b01110]),
        '7' => Some([0b11111, 0b00001, 0b00010, 0b00100, 0b01000, 0b01000, 0b01000]),
        '8' => Some([0b01110, 0b10001, 0b10001, 0b01110, 0b10001, 0b10001, 0b01110]),
        '9' => Some([0b01110, 0b10001, 0b10001, 0b01111, 0b00001, 0b00001, 0b01110]),
        ' ' => Some([0b00000, 0b00000, 0b00000, 0b00000, 0b00000, 0b00000, 0b00000]),
        '.' => Some([0b00000, 0b00000, 0b00000, 0b00000, 0b00000, 0b00000, 0b00100]),
        '-' => Some([0b00000, 0b00000, 0b00000, 0b11111, 0b00000, 0b00000, 0b00000]),
        '\'' => Some([0b00100, 0b00100, 0b00000, 0b00000, 0b00000, 0b00000, 0b00000]),
        _ => None,
    }
}

/// `c` with an ASCII lower-case letter made upper case (as
/// `char::to_ascii_uppercase`).
pub open spec fn ascii_upper(c: char) -> char {
    if 'a' <= c <= 'z' {
        ((c as u32) - 32) as char
    } else {
        c
    }
}

/// Whether the font has a glyph for the upper-case character `c`: capital
/// letters, digits, space, `.`, `-` and `'`.
pub open spec fn font_char(c: char) -> bool {
    ||| 'A' <= c <= 'Z'
    ||| '0' <= c <= '9'
    ||| c == ' '
    ||| c == '.'
    ||| c == '-'
    ||| c == '\''
}

/// A character's glyph is that of its upper-case form; the font covers
/// exactly letters, digits, space, `.`, `-` and `'`; every glyph row holds
/// five pixels (is below 32).
pub proof fn law_glyphs_ignore_case(c: char)
    ensures
        glyph_rows(c) == glyph_rows(ascii_upper(c)),
        glyph_rows(c) is Some <==> font_char(ascii_upper(c)),
        glyph_rows(c) matches Some(g) ==> forall|i: int| 0 <= i < 7 ==> #[trigger] g[i] < 32,
{
}

/// Looks up the bitmap glyph of a character.
pub fn char_glyph(c: char) -> (r: Option<[u8; 7]>)
    ensures
        r == glyph_rows(c),
{
    let rows: [u8; 7] = match c {
        'A' | 'a' => [0b01110, 0b10001, 0b10001, 0b11111, 0b10001, 0b10001, 0b10001],
        'B' | 'b' => [0b11110, 0b10001, 0b10001, 0b11110, 0b10001, 0b10001, 0b11110],
        'C' | 'c' => [0b01110, 0b10001, 0b10000, 0b10000, 0b10000, 0b10001, 0b01110],
        'D' | 'd' => [0b11100, 0b10010, 0b10001, 0b10001, 0b10001, 0b10010, 0b11100],
        'E' | 'e' => [0b11111, 0b10000, 0b10000, 0b11110, 0b10000, 0b10000, 0b11111],
        'F' | 'f' => [0b11111, 0b10000, 0b10000, 0b11110, 0b10000, 0b10000, 0b10000],
        'G' | 'g' => [0b01110, 0b10001, 0b10000, 0b10111, 0b10001, 0b10001, 0b01110],
        'H' | 'h' => [0b10001, 0b10001, 0b10001, 0b11111, 0b10001, 0b10001, 0b10001],
        'I' | 'i' => [0b01110, 0b00100, 0b00100, 0b00100, 0b00100, 0b00100, 0b01110],
        'J' | 'j' => [0b00111, 0b00010, 0b00010, 0b00010, 0b00010, 0b10010, 0b01100],
        'K' | 'k' => [0b10001, 0b10010, 0b10100, 0b11000, 0b10100, 0b10010, 0b10001],
        'L' | 'l' => [0b10000, 0b10000, 0b10000, 0b10000, 0b10000, 0b10000, 0b11111],
        'M' | 'm' => [0b10001, 0b11011, 0b10101, 0b10101, 0b10001, 0b10001, 0b10001],
        'N' | 'n' => [0b10001, 0b11001, 0b10101, 0b10011, 0b10001, 0b10001, 0b10001],
        'O' | 'o' => [0b01110, 0b10001, 0b10001, 0b10001, 0b10001, 0b10001, 0b01110],
        'P' | 'p' => [0b11110, 0b10001, 0b10001, 0b11110, 0b10000, 0b10000, 0b10000],
        'Q' | 'q' => [0b01110, 0b10001, 0b10001, 0b10001, 0b10101, 0b10010, 0b01101],
        'R' | 'r' => [0b11110, 0b10001, 0b10001, 0b11110, 0b10100, 0b10010, 0b10001],
        'S' | 's' => [0b01110, 0b10001, 0b10000, 0b01110, 0b00001, 0b10001, 0b01110],
        'T' | 't' => [0b11111, 0b00100, 0b00100, 0b00100, 0b00100, 0b00100, 0b00100],
        'U' | 'u' => [0b10001, 0b10001, 0b10001, 0b10001, 0b10001, 0b10001, 0b01110],
        'V' | 'v' => [0b10001, 0b10001, 0b10001, 0b10001, 0b10001, 0b01010, 0b00100],
        'W' | 'w' => [0b10001, 0b10001, 0b10001, 0b10101, 0b10101, 0b11011, 0b10001],
        'X' | 'x' => [0b10001, 0b10001, 0b01010, 0b00100, 0b01010, 0b10001, 0b10001],
        'Y' | 'y' => [0b10001, 0b10001, 0b01010, 0b00100, 0b00100, 0b00100, 0b00100],
        'Z' | 'z' => [0b11111, 0b00001, 0b00010, 0b00100, 0b01000, 0b10000, 0b11111],
        '0' => [0b01110, 0b10001, 0b10011, 0b10101, 0b11001, 0b10001, 0b01110],
        '1' => [0b00100, 0b01100, 0b00100, 0b00100, 0b00100, 0b00100, 0b01110],
        '2' => [0b01110, 0b10001, 0b00001, 0b00110, 0b01000, 0b10000, 0b11111],
        '3' => [0b01110, 0b10001, 0b00001, 0b00110, 0b00001, 0b10001, 0b01110],
        '4' => [0b00010, 0b00110, 0b01010, 0b10010, 0b11111, 0b00010, 0b00010],
        '5' => [0b11111, 0b10000, 0b11110, 0b00001, 0b00001, 0b10001, 0b01110],
        '6' => [0b01110, 0b10000, 0b10000, 0b11110, 0b10001, 0b10001, 0b01110],
        '7' => [0b11111, 0b00001, 0b00010, 0b00100, 0b01000, 0b01000, 0b01000],
        '8' => [0b01110, 0b10001, 0b10001, 0b01110, 0b10001, 0b10001, 0b01110],
        '9' => [0b01110, 0b10001, 0b10001, 0b01111, 0b00001, 0b00001, 0b01110],
        ' ' => [0b00000, 0b00000, 0b00000, 0b00000, 0b00000, 0b00000, 0b00000],
        '.' => [0b00000, 0b00000, 0b00000, 0b00000, 0b00000, 0b00000, 0b00100],
        '-' => [0b00000, 0b00000, 0b00000, 0b11111, 0b00000, 0b00000, 0b00000],
        '\'' => [0b00100, 0b00100, 0b00000, 0b00000, 0b00000, 0b00000, 0b00000],
        _ => {
            return None;
        },
    };
    Some(rows)
}

/// Whether pixel `col` (0 to 4, left to right) of glyph row `row` is set.
pub open spec fn glyph_bit(g: [u8; 7], row: int, col: int) -> bool {
    g[row] & (1u8 << ((4 - col) as u8)) != 0
}

/// Label drawing visits, for the `k`-th character, its 7 rows and in each its
/// 5 columns; `t` numbers these visits (35 per character) in drawing order.
/// The character of visit `t`.
pub open spec fn visit_char(t: int) -> int {
    t / 35
}

/// The glyph row of visit `t`.
pub open spec fn visit_row(t: int) -> int {
    (t % 35) / 5
}

/// The glyph column of visit `t`.
pub open spec fn visit_col(t: int) -> int {
    t % 5
}

/// Whether visit `t` of a label `cs` meets a set glyph pixel.
pub open spec fn visit_inks(cs: Seq<char>, t: int) -> bool {
    glyph_rows(cs[visit_char(t)]) matches Some(g) && glyph_bit(g, visit_row(t), visit_col(t))
}

/// The image pixel of visit `t` of a label whose first character's top-left
/// corner is `(x, y)`: characters advance 6 pixels to the right.
pub open spec fn visit_pixel(x: i32, y: i32, t: int) -> (int, int) {
    (x + 6 * visit_char(t) + visit_col(t), y + visit_row(t))
}

/// Whether the `i32` pixel arithmetic of drawing `cs` at `(x, y)` stays in
/// range: the pen position after the last character, and the row of every
/// set glyph pixel.
pub open spec fn label_fits(cs: Seq<char>, x: i32, y: i32) -> bool {
    &&& x + 6 * cs.len() <= i32::MAX
    &&& forall|t: int| 0 <= t < 35 * cs.len() && #[trigger] visit_inks(cs, t) ==> y + visit_row(t) <= i32::MAX
}

/// Whether drawing `text` at `(x, y)` keeps its `i32` pixel arithmetic in range.
pub fn label_in_range(x: i32, y: i32, text: &str) -> (r: bool)
    ensures
        r == label_fits(text@, x, y),
{
    let cs = chars_of(text);
    let n = cs.len();
    if n as u64 > 0x1_0000_0000 || x as i64 + 6 * (n as i64) > 0x7fff_ffff {
        return false;
    }
    let total: u64 = 35 * (n as u64);
    let mut t: u64 = 0;
    while t < total
        invariant
            cs@ == text@,
            n == cs@.len(),
            n <= 0x1_0000_0000,
            total == 35 * n,
            t <= total,
            x + 6 * n <= i32::MAX,
            forall|k: int| 0 <= k < t && #[trigger] visit_inks(text@, k) ==> y + visit_row(k) <= i32::MAX,
        decreases total - t,
    {
        let ghost tt = t as int;
        let k = t / 35;
        let row = (t % 35) / 5;
        let col = t % 5;
        assert(k < n) by (nonlinear_arith)
            requires
                t < 35 * n,
                k == t / 35,
        ;
        assert(k == visit_char(tt) && row == visit_row(tt) && col == visit_col(tt));
        if let Some(g) = char_glyph(cs[k as usize]) {
            let bits = g[row as usize];
            if bits & (1u8 << ((4 - col) as u8)) != 0 {
                assert(visit_inks(text@, tt));
                if y as i64 + row as i64 > 0x7fff_ffff {
                    return false;
                }
            } else {
                assert(!visit_inks(text@, tt));
            }
        } else {
            assert(!visit_inks(text@, tt));
        }
        t = t + 1;
    }
    true
}

/// The pixels that the first `t` visits of drawing `cs` at `(x, y)` colour,
/// in order: set glyph pixels that lie in the `img_width` by `height` image.
pub open spec fn label_pixels_upto(cs: Seq<char>, img_width: u32, height: u32, x: i32, y: i32, t: nat) -> Seq<(i32, i32)>
    decreases t,
{
    if t == 0 {
        Seq::empty()
    } else {
        let before = label_pixels_upto(cs, img_width, height, x, y, (t - 1) as nat);
        let p = visit_pixel(x, y, t - 1);
        if visit_inks(cs, t - 1) && 0 <= p.0 < (img_width as i32) && 0 <= p.1 < (height as i32) {
            before.push((p.0 as i32, p.1 as i32))
        } else {
            before
        }
    }
}

/// The pixels, in drawing order, that a label `text` drawn with its first
/// character's top-left corner at `(x, y)` colours in an `img_width` by
/// `height` image (5x7 glyphs, 6 pixels apart; characters without a glyph
/// leave a gap).
pub fn label_pixels(img_width: u32, height: u32, x: i32, y: i32, text: &str) -> (r: Vec<(i32, i32)>)
    requires
        label_fits(text@, x, y),
    ensures
        r@ == label_pixels_upto(text@, img_width, height, x, y, (35 * text@.len()) as nat),
{
    let cs = chars_of(text);
    let n = cs.len();
    let w = img_width as i32;
    let h = height as i32;
    assert(n <= 0x1_0000_0000) by (nonlinear_arith)
        requires
            x + 6 * n <= i32::MAX,
            x >= i32::MIN,
    ;
    let total: u64 = 35 * (n as u64);
    let mut out: Vec<(i32, i32)> = Vec::new();
    let mut t: u64 = 0;
    while t < total
        invariant
            cs@ == text@,
            n == cs@.len(),
            n <= 0x1_0000_0000,
            total == 35 * n,
            t <= total,
            w == img_width as i32,
            h == height as i32,
            label_fits(text@, x, y),
            out@ == label_pixels_upto(text@, img_width, height, x, y, t as nat),
        decreases total - t,
    {
        let ghost tt = t as int;
        let ghost prev = out@;
        let k = t / 35;
        let row = (t % 35) / 5;
        let col = t % 5;
        assert(k < n) by (nonlinear_arith)
            requires
                t < 35 * n,
                k == t / 35,
        ;
        assert(row < 7 && col < 5);
        assert(k == visit_char(tt) && row == visit_row(tt) && col == visit_col(tt));
        let ghost p = visit_pixel(x, y, tt);
        if let Some(g) = char_glyph(cs[k as usize]) {
            let bits = g[row as usize];
            if bits & (1u8 << ((4 - col) as u8)) != 0 {
                assert(visit_inks(text@, tt));
                assert(6 * k + 4 < 6 * n) by (nonlinear_arith)
                    requires
                        k < n,
                ;
                let px64: i64 = x as i64 + 6 * (k as i64) + col as i64;
                let px: i32 = px64 as i32;
                let py: i32 = y + row as i32;
                assert(px == p.0 && py == p.1);
                if px >= 0 && px < w && py >= 0 && py < h {
                    out.push((px, py));
                }
            } else {
                assert(!visit_inks(text@, tt));
            }
        } else {
            assert(!visit_inks(text@, tt));
        }
        assert(out@ == label_pixels_upto(text@, img_width, height, x, y, (t + 1) as nat));
        t = t + 1;
    }
    out
}

} // verus!
