//! Texts, numbers, times and error messages.

use crate::clock;
use crate::clock::{clamp_millis, current_unix_ms, unix_ms};
use crate::error::{detailed, path_failure, IoFailure, PluginError};
use crate::text;
use crate::text::{
    copy_opt_text, decimal_text, join2, join3, join4, printed_text, same_opt_text, same_text,
};
use std::time::SystemTime;
use vstd::prelude::*;

verus! {

/// Whether all characters are white space.
pub open spec fn blank(chars: Seq<char>) -> bool {
    forall|i: int| 0 <= i < chars.len() ==> text::white_space(#[trigger] chars[i])
}

/// Whether `inner` is `whole` without the white space around it: what is left out on
/// either side is white space, and what is left neither starts nor ends with any.
pub open spec fn without_blanks(whole: Seq<char>, inner: Seq<char>) -> bool {
    exists|start: int, end: int|
        0 <= start <= end <= whole.len() && inner == #[trigger] whole.subrange(start, end) && blank(
            whole.take(start),
        ) && blank(whole.skip(end)) && (inner.len() > 0 ==> !text::white_space(inner.first())
            && !text::white_space(inner.last()))
}

/// The characters with the property `White_Space` are those that Unicode lists.
pub proof fn white_space_is_listed(c: char)
    ensures
        text::white_space(c) <==> (seq![
            0x20u32,
            0x85,
            0xa0,
            0x1680,
            0x2028,
            0x2029,
            0x202f,
            0x205f,
            0x3000,
        ].contains(c as u32) || 0x9 <= c as u32 <= 0xd || 0x2000 <= c as u32 <= 0x200a),
{
    let listed = seq![
        0x20u32,
        0x85,
        0xa0,
        0x1680,
        0x2028,
        0x2029,
        0x202f,
        0x205f,
        0x3000,
    ];
    assert(listed[0] == 0x20 && listed[1] == 0x85 && listed[2] == 0xa0 && listed[3] == 0x1680);
    assert(listed[4] == 0x2028 && listed[5] == 0x2029 && listed[6] == 0x202f);
    assert(listed[7] == 0x205f && listed[8] == 0x3000);
}

proof fn lemma_trimmed_start(whole: Seq<char>) -> (start: int)
    ensures
        0 <= start <= whole.len(),
        text::trimmed_start(whole) == whole.skip(start),
        blank(whole.take(start)),
        start < whole.len() ==> !text::white_space(whole[start]),
    decreases whole.len(),
{
    if whole.len() > 0 && text::white_space(whole.first()) {
        let rest = whole.drop_first();
        let start = lemma_trimmed_start(rest) + 1;
        assert(rest.skip(start - 1) =~= whole.skip(start));
        assert forall|i: int| 0 <= i < start implies text::white_space(
            #[trigger] whole.take(start)[i],
        ) by {
            if i > 0 {
                assert(whole.take(start)[i] == rest.take(start - 1)[i - 1]);
            }
        }
        start
    } else {
        assert(whole.skip(0) =~= whole);
        0
    }
}

proof fn lemma_trimmed_end(whole: Seq<char>) -> (end: int)
    ensures
        0 <= end <= whole.len(),
        text::trimmed_end(whole) == whole.take(end),
        blank(whole.skip(end)),
        end > 0 ==> !text::white_space(whole[end - 1]),
    decreases whole.len(),
{
    if whole.len() > 0 && text::white_space(whole.last()) {
        let rest = whole.drop_last();
        let end = lemma_trimmed_end(rest);
        assert(rest.take(end) =~= whole.take(end));
        assert forall|i: int| 0 <= i < whole.len() - end implies text::white_space(
            #[trigger] whole.skip(end)[i],
        ) by {
            if i < whole.len() - end - 1 {
                assert(whole.skip(end)[i] == rest.skip(end)[i]);
            }
        }
        end
    } else {
        assert(whole.take(whole.len() as int) =~= whole);
        whole.len() as int
    }
}

/// To trim a text takes away the white space around it and nothing else.
pub proof fn trimming_takes_the_blanks_around(whole: Seq<char>)
    ensures
        without_blanks(whole, text::trimmed(whole)),
{
    let start = lemma_trimmed_start(whole);
    let rest = whole.skip(start);
    let end = lemma_trimmed_end(rest);
    let inner = whole.subrange(start, start + end);
    assert(text::trimmed(whole) =~= inner);
    assert(whole.skip(start + end) =~= rest.skip(end));
    if inner.len() > 0 {
        assert(inner.first() == whole[start]);
        assert(inner.last() == rest[end - 1]);
    }
}

/// There is one way to leave out the white space around a text.
proof fn lemma_one_inner(whole: Seq<char>, left: Seq<char>, right: Seq<char>)
    requires
        without_blanks(whole, left),
        without_blanks(whole, right),
    ensures
        left == right,
{
    let (s1, e1) = choose|start: int, end: int|
        0 <= start <= end <= whole.len() && left == #[trigger] whole.subrange(start, end) && blank(
            whole.take(start),
        ) && blank(whole.skip(end)) && (left.len() > 0 ==> !text::white_space(left.first())
            && !text::white_space(left.last()));
    let (s2, e2) = choose|start: int, end: int|
        0 <= start <= end <= whole.len() && right == #[trigger] whole.subrange(start, end) && blank(
            whole.take(start),
        ) && blank(whole.skip(end)) && (right.len() > 0 ==> !text::white_space(right.first())
            && !text::white_space(right.last()));
    lemma_inside(whole, s1, e1, s2, e2);
    lemma_inside(whole, s2, e2, s1, e1);
    if left.len() == 0 || right.len() == 0 {
        assert(left =~= right);
    }
}

proof fn lemma_inside(whole: Seq<char>, s1: int, e1: int, s2: int, e2: int)
    requires
        0 <= s1 < e1 <= whole.len() ==> !text::white_space(whole[s1]) && !text::white_space(
            whole[e1 - 1],
        ),
        0 <= s1 <= e1 <= whole.len(),
        0 <= s2 <= e2 <= whole.len(),
        blank(whole.take(s2)),
        blank(whole.skip(e2)),
    ensures
        s1 < e1 ==> s2 <= s1 && e1 <= e2,
{
    if s1 < e1 {
        if s1 < s2 {
            assert(whole.take(s2)[s1] == whole[s1]);
        }
        if e2 < e1 {
            assert(whole.skip(e2)[e1 - 1 - e2] == whole[e1 - 1]);
        }
    }
}

/// What bytes say: the text that they encode, or what is read from them where they are
/// not UTF-8, without the white space around it.
pub open spec fn says(bytes: Seq<u8>, inner: Seq<char>) -> bool {
    exists|whole: Seq<char>|
        (if vstd::utf8::valid_utf8(bytes) {
            vstd::utf8::encode_utf8(whole) == bytes
        } else {
            whole == text::lossy_text(bytes)
        }) && #[trigger] without_blanks(whole, inner)
}

/// The one text that bytes say.
pub open spec fn said(bytes: Seq<u8>) -> Seq<char> {
    choose|inner: Seq<char>| says(bytes, inner)
}

/// `printed_text` gives what the bytes say, and there is only one such text.
pub proof fn printed_bytes_are_read(bytes: &[u8], printed: String)
    requires
        call_ensures(printed_text, (bytes,), printed),
    ensures
        says(bytes@, printed@),
        printed@ == said(bytes@),
{
    lemma_printed(bytes@);
}

pub(crate) proof fn lemma_printed(bytes: Seq<u8>)
    ensures
        says(bytes, text::printed(bytes)),
        text::printed(bytes) == said(bytes),
{
    let whole = text::text_in(bytes);
    if vstd::utf8::valid_utf8(bytes) {
        vstd::utf8::decode_utf8_encode_utf8(bytes);
    }
    trimming_takes_the_blanks_around(whole);
    assert(says(bytes, text::printed(bytes)));
    let inner = said(bytes);
    let other = choose|other: Seq<char>|
        (if vstd::utf8::valid_utf8(bytes) {
            vstd::utf8::encode_utf8(other) == bytes
        } else {
            other == text::lossy_text(bytes)
        }) && #[trigger] without_blanks(other, inner);
    if vstd::utf8::valid_utf8(bytes) {
        vstd::utf8::encode_utf8_decode_utf8(other);
    }
    assert(other == whole);
    lemma_one_inner(whole, inner, text::printed(bytes));
}

/// The number that decimal digits stand for.
pub open spec fn number(digits: Seq<char>) -> nat
    decreases digits.len(),
{
    if digits.len() == 0 {
        0
    } else {
        10 * number(digits.drop_last()) + (digits.last() as u32 - '0' as u32) as nat
    }
}

/// Whether all characters are decimal digits.
pub open spec fn all_digits(chars: Seq<char>) -> bool {
    forall|i: int| 0 <= i < chars.len() ==> '0' <= #[trigger] chars[i] <= '9'
}

/// Whether these are the digits of a number, without a leading zero.
pub open spec fn is_number(digits: Seq<char>, n: nat) -> bool {
    &&& all_digits(digits)
    &&& number(digits) == n
    &&& digits.len() > 0
    &&& digits[0] == '0' ==> digits.len() == 1
}

pub(crate) proof fn lemma_decimal(n: nat)
    ensures
        is_number(text::decimal(n), n),
        n > 0 ==> text::decimal(n)[0] != '0',
    decreases n,
{
    reveal_with_fuel(number, 2);
    let digits = text::decimal(n);
    if n >= 10 {
        lemma_decimal(n / 10);
        assert(digits.drop_last() =~= text::decimal(n / 10));
        assert(digits[0] == text::decimal(n / 10)[0]);
    }
}

/// `decimal_text` writes a number in digits that stand for it, without a leading zero.
pub proof fn numbers_are_written(n: u64, digits: String)
    requires
        call_ensures(decimal_text, (n,), digits),
    ensures
        is_number(digits@, n as nat),
{
    lemma_decimal(n as nat);
}

/// Texts are compared and joined by all of their characters.
pub proof fn texts_are_joined(
    a: &str,
    b: &str,
    c: &str,
    d: &str,
    same: bool,
    two: String,
    three: String,
    four: String,
)
    requires
        call_ensures(same_text, (a, b), same),
        call_ensures(join2, (a, b), two),
        call_ensures(join3, (a, b, c), three),
        call_ensures(join4, (a, b, c, d), four),
    ensures
        same <==> a@ == b@,
        two@ == a@ + b@,
        three@ == a@ + b@ + c@,
        four@ == a@ + b@ + c@ + d@,
{
}

/// `copy_opt_text` gives the same characters back, or none where there was no text.
pub proof fn copies_are_the_same(text: &Option<String>, copy: Option<String>)
    requires
        call_ensures(copy_opt_text, (text,), copy),
    ensures
        text is Some <==> copy is Some,
        text is Some ==> copy->0@ == text->0@,
{
}

/// `same_opt_text` tells texts apart by whether they are there and by their characters.
pub proof fn missing_texts_are_told_apart(left: &Option<String>, right: &Option<String>, same: bool)
    requires
        call_ensures(same_opt_text, (left, right), same),
    ensures
        same <==> (left is Some <==> right is Some) && (left is Some && right is Some
            ==> left->0@ == right->0@),
{
}

/// `clamp_millis` keeps every number that fits, and gives zero for none and the largest
/// number for those that do not fit.
pub proof fn milliseconds_are_kept(millis: Option<u128>, kept: u64)
    requires
        call_ensures(clamp_millis, (millis,), kept),
    ensures
        millis is None ==> kept == 0,
        millis matches Some(millis) ==> (millis <= u64::MAX ==> kept == millis),
        millis matches Some(millis) ==> (millis > u64::MAX ==> kept == u64::MAX),
{
}

/// Whether `ms` is a reading of the clock in milliseconds since the start of 1970.
pub open spec fn reads(time: SystemTime, ms: u64) -> bool {
    match clock::since_epoch(time) {
        None => ms == 0,
        Some(duration) => if clock::whole_millis(duration) <= u64::MAX {
            ms == clock::whole_millis(duration)
        } else {
            ms == u64::MAX
        },
    }
}

/// `unix_ms` gives the whole milliseconds of a reading.
pub proof fn readings_are_counted(time: &SystemTime, ms: u64)
    requires
        call_ensures(unix_ms, (time,), ms),
    ensures
        reads(*time, ms),
{
}

/// `current_unix_ms` gives the whole milliseconds of some reading.
pub proof fn the_clock_is_read(ms: u64)
    requires
        call_ensures(current_unix_ms, (), ms),
    ensures
        exists|time: SystemTime| #[trigger] reads(time, ms),
{
    let time = choose|time: SystemTime| ms == #[trigger] clock::unix_millis(time);
    assert(reads(time, ms));
}

/// An error tells the message that it was made with.
pub proof fn errors_tell_their_message(message: String, error: PluginError, told: &str)
    requires
        call_ensures(PluginError::new, (message,), error),
        call_ensures(PluginError::message, (&error,), told),
    ensures
        told@ == message@,
        error@ == message@,
{
}

/// The errors for files tell what failed, on which path, and what the system said.
pub proof fn file_errors_tell_the_path(
    problem: &str,
    path: &str,
    words: &str,
    failure: &IoFailure,
    error: PluginError,
    described: PluginError,
    plain: PluginError,
)
    requires
        call_ensures(path_failure, (problem, path, words), error),
        call_ensures(IoFailure::describe, (failure, problem), described),
        call_ensures(detailed, (problem, words), plain),
    ensures
        error@ == problem@ + path@ + ": "@ + words@,
        described@ == problem@ + failure.path@ + ": "@ + failure.error@,
        plain@ == problem@ + words@,
{
}

} // verus!
