//! Reading the backend's answer: which characters of a name are kept, which of
//! the two names is shown, and what is shown for a status that is no success.

use crate::bounded::{StatusText, MAX_TEXT_BYTES};
use crate::control::{FetchOutcome, OutcomeView};
use crate::decimal::{decimal, decimal_text, digits, lemma_decimal_is_digits};
use crate::report::{error_line, error_text, format_error};
use crate::text::{byte_len, lemma_ascii_byte_len, lemma_encode_concat, lemma_truncated_fits};
use vstd::prelude::*;
use vstd::string::*;
use vstd::utf8::is_ascii_chars;

verus! {

/// Whether `c` is a letter: what `char::is_alphabetic` answers for it.
pub uninterp spec fn alphabetic(c: char) -> bool;

/// `char::is_alphabetic` of std: whether Unicode counts the character as
/// Alphabetic. The answer depends on the character alone and is given the
/// name `alphabetic`; nothing is claimed of any particular character.
#[verifier::external_body]
fn is_alphabetic(c: char) -> (b: bool)
    ensures
        b == alphabetic(c),
{
    c.is_alphabetic()
}

/// `StatusCode::is_successful` of reqwless: whether an HTTP status code lies
/// between 200 and 299.
#[verifier::external_body]
fn status_is_successful(code: u16) -> (ok: bool)
    ensures
        ok == (200 <= code <= 299),
{
    reqwless::response::StatusCode(code).is_successful()
}

/// Whether a character of a name is kept: letters, and `?`, space, `(`, `)`, `,`.
pub open spec fn kept(c: char) -> bool {
    alphabetic(c) || c == '?' || c == ' ' || c == '(' || c == ')' || c == ','
}

/// The characters of `text` that are kept, in their order.
pub open spec fn filtered(text: Seq<char>) -> Seq<char>
    decreases text.len(),
{
    if text.len() == 0 {
        text
    } else if kept(text.last()) {
        filtered(text.drop_last()).push(text.last())
    } else {
        filtered(text.drop_last())
    }
}

/// What is kept of a beginning of a text takes no more bytes than what is kept
/// of the whole text.
pub proof fn lemma_filtered_prefix(text: Seq<char>, k: int)
    requires
        0 <= k <= text.len(),
    ensures
        byte_len(filtered(text.take(k))) <= byte_len(filtered(text)),
    decreases text.len() - k,
{
    if k == text.len() {
        assert(text.take(k) =~= text);
    } else {
        lemma_filtered_prefix(text, k + 1);
        let longer = text.take(k + 1);
        assert(longer.drop_last() =~= text.take(k));
        if kept(longer.last()) {
            assert(filtered(longer) =~= filtered(text.take(k)) + seq![longer.last()]);
            lemma_encode_concat(filtered(text.take(k)), seq![longer.last()]);
        }
    }
}

/// A name that does not fit a status text once it is filtered.
#[derive(Clone, Copy, Debug, PartialEq, Eq, Structural)]
pub struct InvalidLength {
    /// Number of bytes of the name as it came.
    pub length: usize,
}

/// Keeps the letters of `raw` and the few other characters that a name may
/// hold, and drops the rest. Fails if what is kept takes more than
/// `MAX_TEXT_BYTES` bytes.
pub fn filter_characters(raw: &str) -> (r: Result<StatusText, InvalidLength>)
    ensures
        r is Ok <==> byte_len(filtered(raw@)) <= MAX_TEXT_BYTES,
        r matches Ok(name) ==> name@ == filtered(raw@),
        r matches Err(e) ==> e.length == byte_len(raw@),
{
    let mut out = StatusText::new();
    let length = raw.as_bytes().len();
    for c in it: raw.chars()
        invariant
            it.seq() == raw@,
            out@ == filtered(raw@.take(it.index() as int)),
            length == byte_len(raw@),
    {
        let keep = is_alphabetic(c) || c == '?' || c == ' ' || c == '(' || c == ')' || c == ',';
        proof {
            let done = it.index() as int;
            assert(raw@.take(done + 1).drop_last() =~= raw@.take(done));
            assert(raw@.take(done + 1).last() == c);
        }
        if keep {
            if out.push(c).is_err() {
                proof {
                    lemma_filtered_prefix(raw@, it.index() as int + 1);
                }
                return Err(InvalidLength { length });
            }
        }
    }
    proof {
        assert(raw@.take(raw@.len() as int) =~= raw@);
        use_type_invariant(&out);
    }
    Ok(out)
}

/// A name of `length` bytes that does not fit, in words.
pub open spec fn invalid_length_words(length: nat) -> Seq<char> {
    "invalid length "@ + decimal(length) + ", expected A string that fit into 32 bytes"@
}

impl InvalidLength {
    /// The error in words: the length that was found, and what was expected.
    pub fn describe(&self) -> (words: String)
        ensures
            words@ == invalid_length_words(self.length as nat),
    {
        let mut words = String::from_str("invalid length ");
        words.append(decimal_text(self.length as u64).as_str());
        words.append(", expected A string that fit into 32 bytes");
        words
    }
}

/// The name that is shown: the front's own name if it has one, else its custom
/// name, else a line that says that the front is empty.
pub open spec fn front_status(front: Seq<char>, custom: Seq<char>) -> Seq<char> {
    if front.len() > 0 {
        front
    } else if custom.len() > 0 {
        custom
    } else {
        "Front is Empty"@
    }
}

/// Picks the name that is shown from the two that the backend gave.
pub fn select_front_status(front: StatusText, custom: StatusText) -> (shown: StatusText)
    ensures
        shown@ == front_status(front@, custom@),
{
    if !front.is_empty() {
        front
    } else if !custom.is_empty() {
        custom
    } else {
        proof {
            reveal_strlit("Front is Empty");
            lemma_ascii_byte_len("Front is Empty"@);
            lemma_truncated_fits("Front is Empty"@, MAX_TEXT_BYTES as nat);
        }
        StatusText::truncated_from("Front is Empty")
    }
}

/// Whether an HTTP status code reports success.
pub fn is_successful(status: u16) -> (ok: bool)
    ensures
        ok == (200 <= status <= 299),
{
    status_is_successful(status)
}

/// The line shown for a status code that is no success: `SP Error: ` and the
/// code in decimal.
pub open spec fn status_error_line(status: u16) -> Seq<char> {
    error_line("SP Error"@, decimal(status as nat))
}

/// The line for a status code always fits a status text.
pub proof fn lemma_status_error_line_fits(status: u16)
    ensures
        byte_len(status_error_line(status)) <= 15,
        error_text("SP Error"@, decimal(status as nat)) == status_error_line(status),
{
    reveal_strlit("SP Error");
    reveal_with_fuel(digits, 6);
    lemma_decimal_is_digits(status as nat);
    let line = status_error_line(status);
    assert(line.len() <= 15);
    assert(is_ascii_chars(line)) by {
        assert forall|i: int| 0 <= i < line.len() implies '\0' <= #[trigger] line[i] <= '\u{7f}' by {
            if i >= 10 {
                assert(line[i] == decimal(status as nat)[i - 10]);
            }
        }
    }
    lemma_ascii_byte_len(line);
    lemma_truncated_fits(line, MAX_TEXT_BYTES as nat);
}

/// The text shown for a status code that is no success.
pub fn status_error_text(status: u16) -> (text: StatusText)
    ensures
        text@ == status_error_line(status),
{
    proof {
        lemma_status_error_line_fits(status);
    }
    format_error("SP Error", decimal_text(status as u64).as_str())
}

/// What the backend's answer comes to: for a status code that is no success,
/// the line that says so; else the name picked from the two names, each
/// filtered first; or the length of the first of them that does not fit.
pub open spec fn front_name(status: u16, front: Seq<char>, custom: Seq<char>) -> Result<
    Seq<char>,
    nat,
> {
    if !(200 <= status <= 299) {
        Ok(status_error_line(status))
    } else if byte_len(filtered(front)) > MAX_TEXT_BYTES {
        Err(byte_len(front))
    } else if byte_len(filtered(custom)) > MAX_TEXT_BYTES {
        Err(byte_len(custom))
    } else {
        Ok(front_status(filtered(front), filtered(custom)))
    }
}

/// Turns the backend's answer into the status text: `status` is the HTTP
/// status code, `front` and `custom` are the two names of the answer's body as
/// they came (they are not looked at unless the code reports success).
pub fn current_front_name(status: u16, front: &str, custom: &str) -> (r: Result<
    StatusText,
    InvalidLength,
>)
    ensures
        r is Ok <==> front_name(status, front@, custom@) is Ok,
        r matches Ok(name) ==> front_name(status, front@, custom@) == Ok::<Seq<char>, nat>(name@),
        r matches Err(e) ==> front_name(status, front@, custom@) == Err::<Seq<char>, nat>(
            e.length as nat,
        ),
{
    if !is_successful(status) {
        return Ok(status_error_text(status));
    }
    let front_name = match filter_characters(front) {
        Ok(name) => name,
        Err(e) => {
            return Err(e);
        },
    };
    let custom_name = match filter_characters(custom) {
        Ok(name) => name,
        Err(e) => {
            return Err(e);
        },
    };
    Ok(select_front_status(front_name, custom_name))
}

/// What the control loop is told of an answer: the name, or, for a name that
/// does not fit, a failure of the fetch that the panel will show in words.
pub fn reply_outcome(reply: Result<StatusText, InvalidLength>) -> (outcome: FetchOutcome)
    ensures
        outcome@ == match reply {
            Ok(name) => OutcomeView::Success(name@),
            Err(e) => OutcomeView::RecoverableError(invalid_length_words(e.length as nat)),
        },
{
    match reply {
        Ok(name) => FetchOutcome::Success(name),
        Err(e) => FetchOutcome::RecoverableError(e.describe()),
    }
}

} // verus!
