//! The bounded string that holds a status text: at most 32 bytes of UTF-8,
//! kept in a `heapless::String`.

use crate::text::{
    byte_len, is_trimmed, lemma_trimmed_is_prefix, trim_trailing_whitespace, trimmed,
    truncate_to_boundary, truncated,
};
use core::str::FromStr;
use vstd::prelude::*;

verus! {

/// Most bytes that a status text can take.
pub const MAX_TEXT_BYTES: usize = 32;

/// `heapless::String`, a string of at most `N` bytes that lives without a
/// heap. Nothing inside it is visible here; `held_text` names what it holds.
#[verifier::external_type_specification]
#[verifier::external_body]
pub struct ExBoundedString<const N: usize>(heapless::String<N>);

/// The characters that a bounded string holds, in order.
pub uninterp spec fn held_text(s: heapless::String<32>) -> Seq<char>;

/// `heapless::String::new`: a bounded string that holds nothing.
#[verifier::external_body]
fn bounded_new() -> (s: heapless::String<32>)
    ensures
        held_text(s) == Seq::<char>::empty(),
{
    heapless::String::new()
}

/// `heapless::String::from_str`: copies `text` into a bounded string. It fails
/// exactly when `text` takes more than the 32 bytes that the string has room for.
#[verifier::external_body]
fn bounded_from_str(text: &str) -> (r: Result<heapless::String<32>, ()>)
    ensures
        r is Ok <==> byte_len(text@) <= 32,
        r matches Ok(s) ==> held_text(s) == text@,
{
    heapless::String::from_str(text)
}

/// `heapless::String::push`: appends one character. Where the character's
/// bytes no longer fit, it fails and leaves the string as it was. It never
/// panics.
#[verifier::external_body]
fn bounded_push(s: &mut heapless::String<32>, c: char) -> (r: Result<(), ()>)
    ensures
        r is Ok <==> byte_len(held_text(*old(s)).push(c)) <= 32,
        r is Ok ==> held_text(*final(s)) == held_text(*old(s)).push(c),
        r is Err ==> held_text(*final(s)) == held_text(*old(s)),
    no_unwind
{
    s.push(c)
}

/// `heapless::String::as_str`: the characters held, as a string slice.
#[verifier::external_body]
fn bounded_as_str(s: &heapless::String<32>) -> (text: &str)
    ensures
        text@ == held_text(*s),
{
    s.as_str()
}

/// `==` of `heapless::String`: whether two bounded strings hold the same
/// characters.
#[verifier::external_body]
fn bounded_eq(a: &heapless::String<32>, b: &heapless::String<32>) -> (same: bool)
    ensures
        same == (held_text(*a) == held_text(*b)),
{
    a == b
}

/// A status text: what the panel shows, at most `MAX_TEXT_BYTES` bytes long.
#[derive(Debug)]
pub struct StatusText {
    inner: heapless::String<32>,
}

impl View for StatusText {
    type V = Seq<char>;

    closed spec fn view(&self) -> Seq<char> {
        held_text(self.inner)
    }
}

impl StatusText {
    /// What holds of every status text: it takes at most `MAX_TEXT_BYTES` bytes.
    #[verifier::type_invariant]
    pub open spec fn fits(self) -> bool {
        byte_len(self@) <= MAX_TEXT_BYTES
    }

    /// The empty text.
    pub fn new() -> (text: StatusText)
        ensures
            text@ == Seq::<char>::empty(),
    {
        StatusText { inner: bounded_new() }
    }

    /// `text` as a status text, if it fits.
    pub fn from_text(text: &str) -> (r: Option<StatusText>)
        ensures
            r is Some <==> byte_len(text@) <= MAX_TEXT_BYTES,
            r matches Some(t) ==> t@ == text@,
    {
        match bounded_from_str(text) {
            Ok(inner) => Some(StatusText { inner }),
            Err(_) => None,
        }
    }

    /// The longest prefix of `text` that fits a status text.
    pub fn truncated_from(text: &str) -> (cut: StatusText)
        ensures
            cut@ == truncated(text@, MAX_TEXT_BYTES as nat),
            byte_len(cut@) <= MAX_TEXT_BYTES,
    {
        let head = truncate_to_boundary(text, MAX_TEXT_BYTES);
        match bounded_from_str(head) {
            Ok(inner) => StatusText { inner },
            Err(_) => {
                assert(false);
                StatusText { inner: bounded_new() }
            },
        }
    }

    /// The text as a string slice.
    pub fn as_str(&self) -> (text: &str)
        ensures
            text@ == self@,
            byte_len(text@) <= MAX_TEXT_BYTES,
    {
        proof {
            use_type_invariant(self);
        }
        bounded_as_str(&self.inner)
    }

    /// Number of bytes that the text takes.
    pub fn len(&self) -> (n: usize)
        ensures
            n == byte_len(self@),
            n <= MAX_TEXT_BYTES,
    {
        proof {
            use_type_invariant(self);
        }
        bounded_as_str(&self.inner).as_bytes().len()
    }

    /// Whether the text holds no character.
    pub fn is_empty(&self) -> (b: bool)
        ensures
            b == (self@.len() == 0),
    {
        bounded_as_str(&self.inner).is_empty()
    }

    /// Whether both hold the same characters.
    pub fn same_text(&self, other: &StatusText) -> (same: bool)
        ensures
            same == (self@ == other@),
    {
        bounded_eq(&self.inner, &other.inner)
    }

    /// Appends `c` if its bytes still fit; otherwise fails, and the text stays
    /// as it was.
    pub fn push(&mut self, c: char) -> (r: Result<(), ()>)
        ensures
            r is Ok <==> byte_len(old(self)@.push(c)) <= MAX_TEXT_BYTES,
            r is Ok ==> final(self)@ == old(self)@.push(c),
            r is Err ==> final(self)@ == old(self)@,
    {
        proof {
            use_type_invariant(&*self);
        }
        bounded_push(&mut self.inner, c)
    }

    /// The text without the white space at its end.
    pub fn trim_end(&self) -> (kept: StatusText)
        ensures
            kept@ == trimmed(self@),
            is_trimmed(kept@),
    {
        let kept = trim_trailing_whitespace(bounded_as_str(&self.inner));
        proof {
            use_type_invariant(self);
            lemma_trimmed_is_prefix(self@);
        }
        match bounded_from_str(kept) {
            Ok(inner) => StatusText { inner },
            Err(_) => {
                assert(false);
                StatusText { inner: bounded_new() }
            },
        }
    }
}

} // verus!
