//! What is put on the panel: the text as it fits, and the glyph size for it.

use crate::bounded::MAX_TEXT_BYTES;
use crate::text::{byte_len, truncate_to_boundary, truncated};
use core::convert::Infallible;
use vstd::prelude::*;

verus! {

/// Unwraps a result whose error type has no values.
///
/// Nothing can be an `Err` here, so the value handed back is always the one
/// that `res` holds; the contract says so for every `Ok`.
pub fn into_ok<T>(res: Result<T, Infallible>) -> (val: T)
    ensures
        res is Ok ==> res == Ok::<T, Infallible>(val),
{
    let Ok(val) = res;
    val
}

/// The glyph size for a text that takes `bytes` bytes. The longer the text,
/// the smaller the glyphs, so that the whole text stays on the panel:
///
/// | bytes    | size |
/// |----------|------|
/// | 0 to 9   | 50   |
/// | 10 to 14 | 40   |
/// | 15 to 19 | 30   |
/// | 20 to 24 | 20   |
/// | 25 to 32 | 15   |
///
/// A text that is drawn never takes more than 32 bytes; for a longer one the
/// function gives the smallest size too.
pub open spec fn font_size_for(bytes: nat) -> u32 {
    if bytes <= 9 {
        50
    } else if bytes <= 14 {
        40
    } else if bytes <= 19 {
        30
    } else if bytes <= 24 {
        20
    } else {
        15
    }
}

/// What to draw: a text and the size of its glyphs.
#[derive(Clone, Copy, Debug)]
pub struct DrawPlan<'a> {
    /// The text, at most `MAX_TEXT_BYTES` bytes of it.
    pub text: &'a str,
    /// The glyph size.
    pub font_size: u32,
}

/// Decides how `text` is drawn: cut to `MAX_TEXT_BYTES` bytes at a character
/// boundary first, then sized by the number of bytes that are left.
pub fn text_to_display(text: &str) -> (plan: DrawPlan<'_>)
    ensures
        plan.text@ == truncated(text@, MAX_TEXT_BYTES as nat),
        byte_len(plan.text@) <= MAX_TEXT_BYTES,
        plan.font_size == font_size_for(byte_len(plan.text@)),
{
    let fitted = truncate_to_boundary(text, MAX_TEXT_BYTES);
    let bytes = fitted.as_bytes().len();
    let font_size: u32 = if bytes <= 9 {
        50
    } else if bytes <= 14 {
        40
    } else if bytes <= 19 {
        30
    } else if bytes <= 24 {
        20
    } else {
        15
    };
    DrawPlan { text: fitted, font_size }
}

} // verus!
