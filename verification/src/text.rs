//! Font metrics: measuring a string against a font's per-character
//! advance table and greedy word wrapping against a width limit.
//! Loading font images and drawing glyphs happen outside this crate.
use vstd::prelude::*;
use crate::types::{IScalar, Vec3, Vec3i};

verus! {

/// A bitmap font's metrics: per-character advances and offsets into
/// its glyph sheet.
#[derive(Debug, Clone, PartialEq)]
pub struct Font {
    pub name: String,
    pub palette: i32,
    pub height: i32,
    pub widths: Vec<Vec<i16>>,
    pub offsets: Vec<Vec<i16>>,
    pub size_addition: i16,
}

impl Font {
    /// The font has a primary advance table covering every character
    /// the text may hold, with nonnegative advances.
    pub open spec fn covers(self, chars: Seq<char>) -> bool {
        &&& self.widths@.len() >= 1
        &&& forall|i: int|
            0 <= i < chars.len() ==> 0 <= ((#[trigger] chars[i]) as int)
                && ((chars[i]) as int) < self.widths@[0]@.len()
        &&& forall|j: int|
            0 <= j < self.widths@[0]@.len() ==> 0 <= #[trigger] self.widths@[0]@[j]
    }
}

/// Total advance of the first `n` characters of `chars` under the
/// primary advance table.
pub open spec fn spec_text_width(widths: Seq<i16>, chars: Seq<char>, n: int) -> int
    decreases n,
{
    if n <= 0 {
        0
    } else {
        spec_text_width(widths, chars, n - 1) + widths[chars[n - 1] as int]
    }
}

/// The sum of nonnegative advances is nonnegative and bounded by the
/// largest advance times the count.
proof fn lemma_text_width_bound(widths: Seq<i16>, chars: Seq<char>, n: int)
    requires
        0 <= n <= chars.len(),
        forall|i: int|
            0 <= i < chars.len() ==> 0 <= ((#[trigger] chars[i]) as int) && ((chars[i]) as int)
                < widths.len(),
        forall|j: int| 0 <= j < widths.len() ==> 0 <= #[trigger] widths[j],
    ensures
        0 <= spec_text_width(widths, chars, n) <= n * 32768,
    decreases n,
{
    if n > 0 {
        lemma_text_width_bound(widths, chars, n - 1);
        assert(((chars[n - 1]) as int) < widths.len());
        assert(0 <= (chars[n - 1]) as int);
        assert(0 <= widths[chars[n - 1] as int]);
        assert(widths[chars[n - 1] as int] <= 32767);
        assert((n - 1) * 32768 + 32768 == n * 32768) by (nonlinear_arith);
    }
}

/// Measures a string against a font: the summed advance of its
/// characters, and the font height.
pub fn text_size(font: &Font, text: &str) -> (r: Vec3i)
    requires
        font.covers(text@),
        text@.len() <= 30_000,
    ensures
        r.x == spec_text_width(font.widths@[0]@, text@, text@.len() as int),
        r.y == font.height,
        r.z == 0,
{
    let widths = &font.widths[0];
    let n = text.unicode_len();
    let mut size_x: i32 = 0;
    let mut i: usize = 0;
    proof {
        lemma_text_width_bound(font.widths@[0]@, text@, text@.len() as int);
    }
    while i < n
        invariant
            i <= n == text@.len() <= 30_000,
            font.covers(text@),
            widths@ == font.widths@[0]@,
            size_x == spec_text_width(font.widths@[0]@, text@, i as int),
            0 <= size_x <= i * 32768,
        decreases n - i,
    {
        let c = text.get_char(i);
        let charid = c as usize;
        proof {
            lemma_text_width_bound(font.widths@[0]@, text@, i as int + 1);
            assert(i * 32768 + 32768 == (i + 1) * 32768) by (nonlinear_arith);
        }
        size_x = size_x + widths[charid] as i32;
        i = i + 1;
    }
    Vec3 { x: size_x, y: font.height, z: 0 }
}

/// Total advance of the characters `a..b` of `chars`.
pub open spec fn spec_width_between(widths: Seq<i16>, chars: Seq<char>, a: int, b: int) -> int
    decreases b - a,
{
    if b <= a {
        0
    } else {
        spec_width_between(widths, chars, a, b - 1) + widths[chars[b - 1] as int]
    }
}

/// With nonnegative advances, every range width is nonnegative.
proof fn lemma_width_nonneg(widths: Seq<i16>, chars: Seq<char>, a: int, b: int)
    requires
        0 <= a,
        b <= chars.len(),
        forall|i: int|
            0 <= i < chars.len() ==> 0 <= ((#[trigger] chars[i]) as int) && ((chars[i]) as int)
                < widths.len(),
        forall|j: int| 0 <= j < widths.len() ==> 0 <= #[trigger] widths[j],
    ensures
        0 <= spec_width_between(widths, chars, a, b),
    decreases b - a,
{
    if b > a {
        lemma_width_nonneg(widths, chars, a, b - 1);
    }
}

/// With nonnegative advances, widening a range to the right cannot
/// shrink its width.
proof fn lemma_width_grows_right(widths: Seq<i16>, chars: Seq<char>, a: int, b: int, c: int)
    requires
        0 <= a <= b <= c <= chars.len(),
        forall|i: int|
            0 <= i < chars.len() ==> 0 <= ((#[trigger] chars[i]) as int) && ((chars[i]) as int)
                < widths.len(),
        forall|j: int| 0 <= j < widths.len() ==> 0 <= #[trigger] widths[j],
    ensures
        spec_width_between(widths, chars, a, b) <= spec_width_between(widths, chars, a, c),
    decreases c - b,
{
    if b < c {
        lemma_width_grows_right(widths, chars, a, b, c - 1);
    }
}

/// With nonnegative advances, shrinking a range from the left cannot
/// grow its width.
proof fn lemma_width_shrinks_left(widths: Seq<i16>, chars: Seq<char>, a1: int, a2: int, b: int)
    requires
        0 <= a1 <= a2,
        b <= chars.len(),
        forall|i: int|
            0 <= i < chars.len() ==> 0 <= ((#[trigger] chars[i]) as int) && ((chars[i]) as int)
                < widths.len(),
        forall|j: int| 0 <= j < widths.len() ==> 0 <= #[trigger] widths[j],
    ensures
        spec_width_between(widths, chars, a2, b) <= spec_width_between(widths, chars, a1, b),
    decreases b - a1,
{
    if a2 < b {
        lemma_width_shrinks_left(widths, chars, a1, a2, b - 1);
    } else {
        lemma_width_nonneg(widths, chars, a1, b);
    }
}

/// A line is a contiguous piece of the text with no leading or
/// trailing space, and its total advance fits the wrap limit.
pub open spec fn is_wrapped_line(widths: Seq<i16>, limit: int, text: Seq<char>,
    line: Seq<char>) -> bool {
    exists|a: int, b: int|
        #![trigger text.subrange(a, b)]
        {
            &&& 0 <= a <= b <= text.len()
            &&& line == text.subrange(a, b)
            &&& (a < b ==> text[a] != ' ' && text[b - 1] != ' ')
            &&& spec_width_between(widths, text, a, b) <= limit
        }
}

/// Greedy word wrap: breaks `text` into lines at newlines and at the
/// last space before the advance total would pass `limit`; every
/// returned line is a contiguous piece of the text with no leading or
/// trailing space. Wrapping needs every single character to fit the
/// limit by itself.
pub fn word_wrap(font: &Font, text: &str, limit: IScalar) -> (result: Vec<String>)
    requires
        font.covers(text@),
        text@.len() <= 30_000,
        0 <= limit <= 1_000_000_000,
        forall|i: int|
            0 <= i < text@.len() ==> font.widths@[0]@[(#[trigger] text@[i]) as int] <= limit,
    ensures
        result@.len() >= 1,
        forall|k: int|
            0 <= k < result@.len() ==> is_wrapped_line(
                font.widths@[0]@,
                limit as int,
                text@,
                (#[trigger] result@[k])@,
            ),
{
    let widths = &font.widths[0];
    let n = text.unicode_len();
    let mut result: Vec<String> = Vec::new();
    let mut i: usize = 0;
    let mut start: usize = 0;
    let mut end: usize = 0;
    let mut current_width: i32 = 0;
    while i <= n
        invariant
            n == text@.len() <= 30_000,
            font.covers(text@),
            widths@ == font.widths@[0]@,
            0 <= limit,
            forall|k: int|
                0 <= k < text@.len() ==> font.widths@[0]@[(#[trigger] text@[k]) as int]
                    <= limit,
            start <= end <= i,
            i <= n + 1,
            i == n + 1 ==> result@.len() >= 1,
            i == start ==> current_width == 0,
            0 <= current_width <= limit,
            limit <= 1_000_000_000,
            current_width == spec_width_between(
                font.widths@[0]@,
                text@,
                start as int,
                i as int,
            ),
            forall|k: int|
                0 <= k < result@.len() ==> is_wrapped_line(
                    font.widths@[0]@,
                    limit as int,
                    text@,
                    (#[trigger] result@[k])@,
                ),
        decreases (n + 1 - start) * (n + 2) + (n + 1 - i),
    {
        let ghost old_start = start as int;
        let ghost old_i = i as int;
        let mut wrap = false;
        let ch: char = if i < n {
            text.get_char(i)
        } else {
            '\n'
        };
        if ch == '\n' {
            wrap = true;
        } else {
            if ch == ' ' {
                end = i;
            }
            let w = widths[ch as usize] as i32;
            if current_width + w > limit {
                wrap = true;
            } else {
                current_width = current_width + w;
            }
        }
        if wrap {
            proof {
                if ch != '\n' {
                    assert(old_i < n);
                    assert(text@[old_i] == ch);
                    assert(font.widths@[0]@[(text@[old_i]) as int] <= limit);
                    assert(old_i > old_start);
                }
            }
            if start == end || ch == '\n' {
                end = i;
            }
            i = end;
            if ch == '\n' || ch == ' ' {
                i = i + 1;
            }
            // trim the piece [start, end) before keeping it
            let mut a = start;
            let mut b = end;
            while a < b && text.get_char(a) == ' '
                invariant
                    start <= a <= b <= end <= n == text@.len(),
                decreases b - a,
            {
                a = a + 1;
            }
            while b > a && text.get_char(b - 1) == ' '
                invariant
                    start <= a <= b <= end <= n,
                    n == text@.len(),
                    a == b || text@[a as int] != ' ',
                decreases b - a,
            {
                b = b - 1;
            }
            let piece = text.substring_char(a, b);
            let line = piece.to_owned();
            proof {
                assert(line@ == text@.subrange(a as int, b as int));
            }
            let ghost old_result = result@;
            proof {
                let ai = a as int;
                let bi = b as int;
                let ws = font.widths@[0]@;
                // the kept piece fits the limit: it sits inside the
                // span whose accumulated advance was measured
                lemma_width_grows_right(ws, text@, start as int, bi, old_i);
                lemma_width_shrinks_left(ws, text@, start as int, ai, bi);
                assert(spec_width_between(ws, text@, ai, bi) <= limit);
                assert(is_wrapped_line(ws, limit as int, text@, line@)) by {
                    assert({
                        &&& 0 <= ai <= bi <= text@.len()
                        &&& line@ == text@.subrange(ai, bi)
                        &&& (ai < bi ==> text@[ai] != ' ' && text@[bi - 1] != ' ')
                    });
                }
            }
            result.push(line);
            proof {
                assert forall|k: int|
                    0 <= k < result@.len() implies is_wrapped_line(
                    font.widths@[0]@,
                    limit as int,
                    text@,
                    (#[trigger] result@[k])@,
                ) by {
                    if k < result@.len() - 1 {
                        assert(result@[k] == old_result[k]);
                    } else {
                        assert(result@[k] == line);
                    }
                }
            }
            start = i;
            end = i;
            current_width = 0;
            proof {
                assert(start >= old_start + 1);
                vstd::arithmetic::mul::lemma_mul_inequality(
                    n + 1 - start as int,
                    n - old_start,
                    n + 2,
                );
                vstd::arithmetic::mul::lemma_mul_is_distributive_sub_other_way(
                    n + 2,
                    n + 1 - old_start,
                    1,
                );
            }
        } else {
            i = i + 1;
        }
    }
    result
}

} // verus!
