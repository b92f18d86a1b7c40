//! Text as the panel shows it: measured in UTF-8 bytes, cut at character
//! boundaries, and stripped of trailing white space.

use vstd::prelude::*;
use vstd::string::*;
use vstd::utf8::*;

verus! {

/// Number of bytes that `text` takes in UTF-8.
pub open spec fn byte_len(text: Seq<char>) -> nat {
    encode_utf8(text).len()
}

/// The longest prefix of `text` that takes at most `budget` bytes in UTF-8.
pub open spec fn truncated(text: Seq<char>, budget: nat) -> Seq<char>
    decreases text.len(),
{
    if text.len() == 0 || byte_len(text) <= budget {
        text
    } else {
        truncated(text.drop_last(), budget)
    }
}

/// Encoding distributes over concatenation.
pub proof fn lemma_encode_concat(a: Seq<char>, b: Seq<char>)
    ensures
        encode_utf8(a + b) == encode_utf8(a) + encode_utf8(b),
    decreases a.len(),
{
    if a.len() == 0 {
        assert(a + b == b);
        assert(encode_utf8(a) + encode_utf8(b) == encode_utf8(b));
    } else {
        lemma_encode_concat(a.drop_first(), b);
        assert((a + b).drop_first() == a.drop_first() + b);
        assert((a + b)[0] == a[0]);
        assert(encode_utf8(a + b) == encode_scalar(a[0] as u32) + (encode_utf8(a.drop_first())
            + encode_utf8(b)));
    }
}

/// Every character takes between one and four bytes.
pub proof fn lemma_scalar_len(c: char)
    ensures
        1 <= encode_scalar(c as u32).len() <= 4,
{
}

/// A text takes at least one byte for each of its characters, and at most four.
pub proof fn lemma_byte_len_bounds(text: Seq<char>)
    ensures
        text.len() <= byte_len(text) <= 4 * text.len(),
    decreases text.len(),
{
    if text.len() > 0 {
        lemma_scalar_len(text[0]);
        lemma_byte_len_bounds(text.drop_first());
    }
}

/// A text of ASCII characters takes one byte for each of them.
pub proof fn lemma_ascii_byte_len(text: Seq<char>)
    requires
        is_ascii_chars(text),
    ensures
        byte_len(text) == text.len(),
{
    is_ascii_chars_encode_utf8(text);
}

/// A prefix takes no more bytes than the whole, and fewer if it is shorter.
pub proof fn lemma_prefix_byte_len(text: Seq<char>, k: int)
    requires
        0 <= k <= text.len(),
    ensures
        byte_len(text.take(k)) <= byte_len(text),
        k < text.len() ==> byte_len(text.take(k)) < byte_len(text),
        byte_len(text) == byte_len(text.take(k)) + byte_len(text.skip(k)),
{
    assert(text == text.take(k) + text.skip(k));
    lemma_encode_concat(text.take(k), text.skip(k));
    lemma_byte_len_bounds(text.skip(k));
}

/// `truncated` is the prefix that fits and that the next character would overflow.
pub proof fn lemma_truncated_is_longest_fit(text: Seq<char>, budget: nat, k: int)
    requires
        0 <= k <= text.len(),
        byte_len(text.take(k)) <= budget,
        k < text.len() ==> byte_len(text.take(k + 1)) > budget,
    ensures
        truncated(text, budget) == text.take(k),
    decreases text.len(),
{
    if text.len() == 0 {
        assert(text.take(k) == text);
    } else if byte_len(text) <= budget {
        if k < text.len() {
            lemma_prefix_byte_len(text, k + 1);
        }
        assert(text.take(k) == text);
    } else {
        assert(text.take(text.len() as int) == text);
        let shorter = text.drop_last();
        assert(shorter.take(k) == text.take(k));
        if k < shorter.len() {
            assert(shorter.take(k + 1) == text.take(k + 1));
        }
        lemma_truncated_is_longest_fit(shorter, budget, k);
    }
}

/// What `truncated` keeps: a prefix that fits the budget, the whole text where
/// that fits, and otherwise a prefix that the next character would overflow.
pub proof fn lemma_truncated_fits(text: Seq<char>, budget: nat)
    ensures
        truncated(text, budget).len() <= text.len(),
        truncated(text, budget) == text.take(truncated(text, budget).len() as int),
        byte_len(truncated(text, budget)) <= budget,
        byte_len(text) <= budget ==> truncated(text, budget) == text,
        truncated(text, budget).len() < text.len() ==> byte_len(
            text.take(truncated(text, budget).len() as int + 1),
        ) > budget,
    decreases text.len(),
{
    if text.len() == 0 || byte_len(text) <= budget {
        assert(text.take(text.len() as int) =~= text);
    } else {
        let shorter = text.drop_last();
        lemma_truncated_fits(shorter, budget);
        let n = truncated(shorter, budget).len() as int;
        assert(shorter.take(n) =~= text.take(n));
        if n < shorter.len() {
            assert(shorter.take(n + 1) =~= text.take(n + 1));
        } else {
            assert(text.take(n + 1) =~= text);
        }
    }
}

/// Where a prefix of `text` ends, a character of its encoding begins (or the
/// encoding ends).
pub proof fn lemma_prefix_ends_at_boundary(text: Seq<char>, k: int)
    requires
        0 <= k <= text.len(),
    ensures
        is_char_boundary(encode_utf8(text), byte_len(text.take(k)) as int),
    decreases k,
{
    broadcast use encode_utf8_valid_utf8;

    let bytes = encode_utf8(text);
    if k == 0 {
        assert(text.take(0) =~= Seq::<char>::empty());
    } else {
        let rest = text.drop_first();
        encode_utf8_first_scalar(text);
        lemma_scalar_len(text[0]);
        assert(pop_first_scalar(bytes) =~= encode_utf8(rest));
        assert(text.take(k) =~= seq![text[0]] + rest.take(k - 1));
        lemma_encode_concat(seq![text[0]], rest.take(k - 1));
        assert(encode_utf8(seq![text[0]]) =~= encode_scalar(text[0] as u32)) by {
            assert(seq![text[0]].drop_first() =~= Seq::<char>::empty());
            assert(encode_utf8(Seq::<char>::empty()) =~= Seq::<u8>::empty());
        }
        lemma_prefix_byte_len(text, k);
        lemma_prefix_ends_at_boundary(rest, k - 1);
    }
}

/// A text whose encoding is the first `cut` bytes of the encoding of `whole`,
/// where `cut` is a character boundary, is a prefix of `whole`.
pub proof fn lemma_boundary_cut_is_prefix(whole: Seq<char>, head: Seq<char>, cut: int)
    requires
        is_char_boundary(encode_utf8(whole), cut),
        0 <= cut <= byte_len(whole),
        encode_utf8(head) == encode_utf8(whole).subrange(0, cut),
    ensures
        head.len() <= whole.len(),
        head == whole.take(head.len() as int),
{
    broadcast use encode_utf8_valid_utf8, encode_utf8_decode_utf8;

    let bytes = encode_utf8(whole);
    decode_utf8_split(bytes, cut);
    let tail = decode_utf8(bytes.subrange(cut, bytes.len() as int));
    assert(decode_utf8(bytes) == whole);
    assert(decode_utf8(encode_utf8(head)) == head);
    assert(whole =~= head + tail);
    assert(whole.take(head.len() as int) =~= head);
}

/// Cuts `text` down to at most `budget` bytes without splitting a character:
/// the cut falls on the last character boundary at or before the budget.
pub fn truncate_to_boundary(text: &str, budget: usize) -> (cut: &str)
    ensures
        cut@ == truncated(text@, budget as nat),
        byte_len(cut@) <= budget,
{
    broadcast use encode_utf8_valid_utf8;

    let ghost bytes = encode_utf8(text@);
    let total = text.as_bytes().len();
    if total <= budget {
        return text;
    }
    let mut at: usize = budget;
    while !text.is_char_boundary(at)
        invariant
            bytes == encode_utf8(text@),
            valid_utf8(bytes),
            at <= budget < bytes.len(),
            forall|j: int| at < j <= budget ==> !is_char_boundary(bytes, j),
        decreases at,
    {
        at = at - 1;
    }
    let (head, _) = text.split_at(at);
    proof {
        lemma_boundary_cut_is_prefix(text@, head@, at as int);
        let k = head@.len() as int;
        assert(byte_len(text@.take(k)) == at);
        assert(k < text@.len()) by {
            if k == text@.len() {
                assert(text@.take(k) =~= text@);
            }
        }
        lemma_prefix_ends_at_boundary(text@, k + 1);
        assert(text@.take(k + 1) =~= text@.take(k).push(text@[k]));
        assert(text@.take(k).push(text@[k]) =~= text@.take(k) + seq![text@[k]]);
        lemma_encode_concat(text@.take(k), seq![text@[k]]);
        lemma_byte_len_bounds(seq![text@[k]]);
        lemma_prefix_byte_len(text@, k + 1);
        lemma_truncated_is_longest_fit(text@, budget as nat, k);
    }
    head
}

/// Whether `c` is white space, as Unicode defines it: the characters with
/// the code points 9 to 13 (tab, line feed, vertical tab, form feed, carriage
/// return), the space, the next-line control 0x85, the no-break space 0xA0, and
/// the spaces and separators 0x1680, 0x2000 to 0x200A, 0x2028, 0x2029, 0x202F,
/// 0x205F and 0x3000.
pub open spec fn white_space(c: char) -> bool {
    let n = c as u32;
    ||| 0x09 <= n <= 0x0d
    ||| n == 0x20
    ||| n == 0x85
    ||| n == 0xa0
    ||| n == 0x1680
    ||| 0x2000 <= n <= 0x200a
    ||| n == 0x2028
    ||| n == 0x2029
    ||| n == 0x202f
    ||| n == 0x205f
    ||| n == 0x3000
}

/// Tells whether `c` is white space.
pub fn is_white_space(c: char) -> (b: bool)
    ensures
        b == white_space(c),
{
    let n = c as u32;
    (0x09 <= n && n <= 0x0d) || n == 0x20 || n == 0x85 || n == 0xa0 || n == 0x1680 || (0x2000 <= n
        && n <= 0x200a) || n == 0x2028 || n == 0x2029 || n == 0x202f || n == 0x205f || n == 0x3000
}

/// `text` without the white space at its end.
pub open spec fn trimmed(text: Seq<char>) -> Seq<char>
    decreases text.len(),
{
    if text.len() > 0 && white_space(text.last()) {
        trimmed(text.drop_last())
    } else {
        text
    }
}

/// Whether `text` ends in something other than white space, or is empty.
pub open spec fn is_trimmed(text: Seq<char>) -> bool {
    text.len() == 0 || !white_space(text.last())
}

/// What trimming leaves is a prefix of the text and does not end in white space;
/// all that it drops is white space.
pub proof fn lemma_trimmed_is_prefix(text: Seq<char>)
    ensures
        trimmed(text).len() <= text.len(),
        trimmed(text) == text.take(trimmed(text).len() as int),
        is_trimmed(trimmed(text)),
        forall|i: int| trimmed(text).len() <= i < text.len() ==> white_space(#[trigger] text[i]),
        byte_len(trimmed(text)) <= byte_len(text),
    decreases text.len(),
{
    if text.len() > 0 && white_space(text.last()) {
        let shorter = text.drop_last();
        lemma_trimmed_is_prefix(shorter);
        let n = trimmed(shorter).len() as int;
        assert(shorter.take(n) =~= text.take(n));
        lemma_prefix_byte_len(text, n);
        assert forall|i: int| n <= i < text.len() implies white_space(#[trigger] text[i]) by {
            if i < shorter.len() {
                assert(shorter[i] == text[i]);
            }
        }
    } else {
        assert(text.take(text.len() as int) =~= text);
    }
}

/// Trimming a second time changes nothing.
pub proof fn lemma_trim_idempotent(text: Seq<char>)
    ensures
        trimmed(trimmed(text)) == trimmed(text),
    decreases text.len(),
{
    if text.len() > 0 && white_space(text.last()) {
        lemma_trim_idempotent(text.drop_last());
    }
}

/// A text that does not end in white space is left as it is.
pub proof fn lemma_trimmed_fixed_point(text: Seq<char>)
    ensures
        is_trimmed(text) <==> trimmed(text) == text,
{
    if !is_trimmed(text) {
        lemma_trimmed_is_prefix(text);
    }
}

/// Strips the white space at the end of `text`.
pub fn trim_trailing_whitespace(text: &str) -> (kept: &str)
    ensures
        kept@ == trimmed(text@),
{
    let mut end: usize = text.unicode_len();
    proof {
        assert(text@.take(end as int) =~= text@);
    }
    while end > 0 && is_white_space(text.get_char(end - 1))
        invariant
            end <= text@.len(),
            trimmed(text@) == trimmed(text@.take(end as int)),
        decreases end,
    {
        proof {
            assert(text@.take(end as int).drop_last() =~= text@.take(end - 1));
        }
        end = end - 1;
    }
    text.substring_char(0, end)
}

} // verus!
