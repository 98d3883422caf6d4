//! The logo blitted after the scan: a raw buffer of packed 32-bit pixels,
//! drawn in the middle of the screen.
use vstd::prelude::*;

verus! {

/// Why a raw pixel buffer cannot be used for an image.
#[derive(Clone, Copy, Debug, PartialEq, Eq, Structural)]
pub enum ImageError {
    /// The buffer does not hold four bytes for each of width × height pixels.
    SizeMismatch,
    /// The buffer does not start on a 4-byte boundary, so it cannot be read
    /// as 32-bit pixels in place.
    Misaligned,
}

/// Relies on `bytemuck::try_cast_slice::<u8, u32>`: on success the words
/// cover exactly the bytes, four bytes to a word; it fails when the length
/// is not a multiple of four, and also when the bytes do not start on a
/// 4-byte boundary, which depends on where they lie in memory.
#[verifier::external_body]
fn cast_to_words(bytes: &[u8]) -> (r: Option<Vec<u32>>)
    ensures
        r matches Some(words) ==> words@.len() * 4 == bytes@.len(),
        bytes@.len() % 4 != 0 ==> r is None,
{
    bytemuck::try_cast_slice::<u8, u32>(bytes).ok().map(|words| words.to_vec())
}

/// Reads a raw buffer as the pixels of a `width` × `height` image. The size
/// is checked first; a buffer of the right size can still be refused when it
/// is not 4-byte aligned.
pub fn image_pixels(bytes: &[u8], width: usize, height: usize) -> (r: Result<Vec<u32>, ImageError>)
    ensures
        r == Err::<Vec<u32>, ImageError>(ImageError::SizeMismatch) <==> bytes@.len() != 4 * width
            * height,
        r matches Ok(pixels) ==> pixels@.len() == width * height,
{
    let length = bytes.len();
    let size = match width.checked_mul(height) {
        Some(count) => count.checked_mul(4),
        None => None,
    };
    proof {
        assert(4 * width * height == (width * height) * 4) by (nonlinear_arith);
        assert(width * height > usize::MAX ==> 4 * width * height > usize::MAX)
            by (nonlinear_arith);
    }
    match size {
        Some(size) => {
            if size != length {
                return Err(ImageError::SizeMismatch);
            }
        },
        None => {
            return Err(ImageError::SizeMismatch);
        },
    }
    match cast_to_words(bytes) {
        Some(pixels) => Ok(pixels),
        None => Err(ImageError::Misaligned),
    }
}

/// Top-left corner that puts a `width` × `height` image in the middle of a
/// `screen_width` × `screen_height` display.
pub fn centered_origin(screen_width: usize, screen_height: usize, width: usize, height: usize) -> (r: (
    usize,
    usize,
))
    requires
        width <= screen_width,
        height <= screen_height,
    ensures
        r.0 == (screen_width - width) / 2,
        r.1 == (screen_height - height) / 2,
{
    ((screen_width - width) / 2, (screen_height - height) / 2)
}

/// An ASCII decimal digit.
pub open spec fn is_digit(b: u8) -> bool {
    0x30 <= b <= 0x39
}

/// A non-empty run of decimal digits.
pub open spec fn is_decimal(s: Seq<u8>) -> bool {
    s.len() > 0 && forall|i: int| 0 <= i < s.len() ==> is_digit(#[trigger] s[i])
}

/// The number a run of decimal digits spells.
pub open spec fn decimal_value(s: Seq<u8>) -> nat
    decreases s.len(),
{
    if s.len() == 0 {
        0
    } else {
        decimal_value(s.drop_last()) * 10 + (s.last() - 0x30) as nat
    }
}

/// `s` reads `(W,H)`, with `W` and `H` written in decimal and the comma at
/// index `comma`.
pub open spec fn dimensions_text(s: Seq<u8>, comma: int) -> bool {
    &&& 1 < comma < s.len() - 1
    &&& s[0] == 0x28
    &&& s[comma] == 0x2C
    &&& s[s.len() - 1] == 0x29
    &&& is_decimal(s.subrange(1, comma))
    &&& is_decimal(s.subrange(comma + 1, s.len() - 1))
}

/// Reads a decimal number from `s[start..end]` that fits in a `usize`.
fn parse_decimal(s: &[u8], start: usize, end: usize) -> (r: Option<usize>)
    requires
        start <= end <= s@.len(),
    ensures
        r == (if is_decimal(s@.subrange(start as int, end as int)) && decimal_value(
            s@.subrange(start as int, end as int),
        ) <= usize::MAX {
            Some(decimal_value(s@.subrange(start as int, end as int)) as usize)
        } else {
            None
        }),
{
    if start == end {
        return None;
    }
    let mut value: usize = 0;
    let mut i = start;
    while i < end
        invariant
            start <= i <= end <= s@.len(),
            is_decimal(s@.subrange(start as int, i as int)) || i == start,
            value == decimal_value(s@.subrange(start as int, i as int)),
        decreases end - i,
    {
        let ghost prefix = s@.subrange(start as int, i as int);
        let ghost next = s@.subrange(start as int, i + 1);
        assert(next.drop_last() =~= prefix);
        assert(next.last() == s@[i as int]);
        let b = s[i];
        if b < 0x30 || b > 0x39 {
            assert(!is_digit(next[i - start]));
            assert forall|e: int| i + 1 <= e <= end implies !is_decimal(
                #[trigger] s@.subrange(start as int, e),
            ) by {
                assert(s@.subrange(start as int, e)[i - start] == b);
            }
            return None;
        }
        let digit = (b - 0x30) as usize;
        if value > (usize::MAX - digit) / 10 {
            proof {
                assert(value * 10 + digit > usize::MAX) by (nonlinear_arith)
                    requires
                        value > (usize::MAX - digit) / 10,
                        digit <= 9,
                ;
                if is_decimal(s@.subrange(start as int, end as int)) {
                    assert(is_digit(next[i - start]));
                    assert forall|k: int| 0 <= k < next.len() implies is_digit(#[trigger] next[k]) by {
                        if k < prefix.len() {
                            assert(next[k] == prefix[k]);
                        }
                    }
                    lemma_decimal_grows(s@, start as int, i as int + 1, end as int);
                }
            }
            return None;
        }
        value = value * 10 + digit;
        i = i + 1;
        assert forall|k: int| 0 <= k < next.len() implies is_digit(#[trigger] next[k]) by {
            if k < prefix.len() {
                assert(next[k] == prefix[k]);
            }
        }
    }
    Some(value)
}

/// Digits added after a prefix never make the number smaller, so a prefix
/// that is already too large for a `usize` rules the whole run out.
proof fn lemma_decimal_grows(s: Seq<u8>, start: int, mid: int, end: int)
    requires
        0 <= start < mid <= end <= s.len(),
        is_decimal(s.subrange(start, end)),
    ensures
        decimal_value(s.subrange(start, mid)) <= decimal_value(s.subrange(start, end)),
    decreases end - mid,
{
    if mid < end {
        let longer = s.subrange(start, end);
        let shorter = s.subrange(start, end - 1);
        assert(longer.drop_last() =~= shorter);
        assert forall|k: int| 0 <= k < shorter.len() implies is_digit(#[trigger] shorter[k]) by {
            assert(shorter[k] == longer[k]);
        }
        lemma_decimal_grows(s, start, mid, end - 1);
    }
}

/// Reads the image dimensions text `(W,H)`; `None` when the text has another
/// shape or a number does not fit in a `usize`.
pub fn parse_dimensions(text: &[u8]) -> (r: Option<(usize, usize)>)
    ensures
        r matches Some((w, h)) ==> exists|comma: int|
            dimensions_text(text@, comma) && w == decimal_value(text@.subrange(1, comma))
                && h == decimal_value(text@.subrange(comma + 1, text@.len() - 1)),
        r is None ==> forall|comma: int|
            dimensions_text(text@, comma) ==> decimal_value(text@.subrange(1, comma))
                > usize::MAX || decimal_value(text@.subrange(comma + 1, text@.len() - 1))
                > usize::MAX,
{
    let n = text.len();
    if n < 5 || text[0] != 0x28 || text[n - 1] != 0x29 {
        return None;
    }
    let mut comma: usize = 1;
    while comma < n - 1 && text[comma] != 0x2C
        invariant
            1 <= comma <= n - 1,
            n == text@.len(),
            forall|k: int| 1 <= k < comma ==> text@[k] != 0x2C,
        decreases n - comma,
    {
        comma = comma + 1;
    }
    proof {
        // a comma inside a run of digits is impossible, so only the first
        // comma can separate the two numbers
        assert forall|c: int| dimensions_text(text@, c) implies c == comma by {
            if c < comma {
                assert(text@[c] != 0x2C);
            } else if c > comma {
                assert(text@.subrange(1, c)[comma - 1] == text@[comma as int]);
                assert(is_digit(text@.subrange(1, c)[comma - 1]));
            }
        }
    }
    if comma == n - 1 {
        return None;
    }
    let w = parse_decimal(text, 1, comma);
    let h = parse_decimal(text, comma + 1, n - 1);
    match (w, h) {
        (Some(w), Some(h)) => {
            assert(dimensions_text(text@, comma as int));
            Some((w, h))
        },
        _ => None,
    }
}

} // verus!
