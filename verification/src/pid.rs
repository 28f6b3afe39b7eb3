//! Process identifiers as text: the decimal form that goes into commands and
//! into the PID record, reading the record back, and finding an identifier in
//! the output of a process listing.

use crate::error::RecorderError;
use vstd::prelude::*;
use vstd::string::StringExecFns;

verus! {

/// The character of the decimal digit `d`.
pub open spec fn digit_char(d: nat) -> char
    recommends
        d < 10,
{
    if d == 0 {
        '0'
    } else if d == 1 {
        '1'
    } else if d == 2 {
        '2'
    } else if d == 3 {
        '3'
    } else if d == 4 {
        '4'
    } else if d == 5 {
        '5'
    } else if d == 6 {
        '6'
    } else if d == 7 {
        '7'
    } else if d == 8 {
        '8'
    } else {
        '9'
    }
}

/// The decimal numeral of `n`, without sign or leading zeros.
pub open spec fn decimal(n: nat) -> Seq<char>
    decreases n,
{
    if n < 10 {
        seq![digit_char(n)]
    } else {
        decimal(n / 10).push(digit_char(n % 10))
    }
}

/// The bytes of a text of ASCII characters.
pub open spec fn ascii(text: Seq<char>) -> Seq<u8> {
    Seq::new(text.len(), |i: int| text[i] as u8)
}

/// The code of a decimal digit is 48 plus the digit.
pub proof fn lemma_digit_code(d: nat)
    requires
        d < 10,
    ensures
        digit_char(d) as u8 == 48 + d,
{
}

/// The text of one decimal digit.
fn digit_text(d: u32) -> (text: &'static str)
    requires
        d < 10,
    ensures
        text@ == seq![digit_char(d as nat)],
{
    proof {
        reveal_strlit("0");
        reveal_strlit("1");
        reveal_strlit("2");
        reveal_strlit("3");
        reveal_strlit("4");
        reveal_strlit("5");
        reveal_strlit("6");
        reveal_strlit("7");
        reveal_strlit("8");
        reveal_strlit("9");
    }
    let text = if d == 0 {
        "0"
    } else if d == 1 {
        "1"
    } else if d == 2 {
        "2"
    } else if d == 3 {
        "3"
    } else if d == 4 {
        "4"
    } else if d == 5 {
        "5"
    } else if d == 6 {
        "6"
    } else if d == 7 {
        "7"
    } else if d == 8 {
        "8"
    } else {
        "9"
    };
    assert(text@ =~= seq![digit_char(d as nat)]);
    text
}

/// The decimal numeral of `pid`, as it is written into commands and into the
/// PID record.
pub fn pid_text(pid: u32) -> (text: String)
    ensures
        text@ == decimal(pid as nat),
    decreases pid,
{
    if pid < 10 {
        String::from_str(digit_text(pid))
    } else {
        let mut text = pid_text(pid / 10);
        text.append(digit_text(pid % 10));
        assert(text@ =~= decimal(pid as nat));
        text
    }
}

/// The bytes of the decimal numeral of `pid`.
pub fn pid_digits(pid: u32) -> (digits: Vec<u8>)
    ensures
        digits@ == ascii(decimal(pid as nat)),
    decreases pid,
{
    if pid < 10 {
        let mut digits: Vec<u8> = Vec::new();
        digits.push((48 + pid) as u8);
        proof {
            lemma_digit_code(pid as nat);
        }
        assert(digits@ =~= ascii(decimal(pid as nat)));
        digits
    } else {
        let mut digits = pid_digits(pid / 10);
        digits.push((48 + pid % 10) as u8);
        proof {
            lemma_digit_code((pid % 10) as nat);
        }
        assert(digits@ =~= ascii(decimal(pid as nat)));
        digits
    }
}

/// True for the bytes of the decimal digits.
pub open spec fn is_digit(b: u8) -> bool {
    48 <= b <= 57
}

/// True for the ASCII blanks: space, tab, line feed, vertical tab, form feed
/// and carriage return.
pub open spec fn is_blank(b: u8) -> bool {
    b == 32 || 9 <= b <= 13
}

/// True when every byte is a decimal digit.
pub open spec fn all_digits(s: Seq<u8>) -> bool {
    forall|i: int| 0 <= i < s.len() ==> is_digit(#[trigger] s[i])
}

/// The number that a sequence of decimal digits denotes.
pub open spec fn digits_value(digits: Seq<u8>) -> nat
    decreases digits.len(),
{
    if digits.len() == 0 {
        0
    } else {
        digits_value(digits.drop_last()) * 10 + (digits.last() - 48) as nat
    }
}

/// `s` from its first byte that is not a blank.
pub open spec fn without_leading_blanks(s: Seq<u8>) -> Seq<u8>
    decreases s.len(),
{
    if s.len() > 0 && is_blank(s[0]) {
        without_leading_blanks(s.drop_first())
    } else {
        s
    }
}

/// `s` up to its last byte that is not a blank.
pub open spec fn without_trailing_blanks(s: Seq<u8>) -> Seq<u8>
    decreases s.len(),
{
    if s.len() > 0 && is_blank(s.last()) {
        without_trailing_blanks(s.drop_last())
    } else {
        s
    }
}

/// `s` without the blanks at either end.
pub open spec fn trimmed(s: Seq<u8>) -> Seq<u8> {
    without_trailing_blanks(without_leading_blanks(s))
}

/// `s` without one leading plus sign.
pub open spec fn unsigned_part(s: Seq<u8>) -> Seq<u8> {
    if s.len() > 0 && s[0] == 43 {
        s.drop_first()
    } else {
        s
    }
}

/// The identifier that a PID record holds: between optional blanks, an
/// optional plus sign and at least one decimal digit, denoting a number that
/// fits in 32 bits. Anything else holds none.
pub open spec fn parse_pid(content: Seq<u8>) -> Option<u32> {
    let digits = unsigned_part(trimmed(content));
    if digits.len() > 0 && all_digits(digits) && digits_value(digits) <= u32::MAX {
        Some(digits_value(digits) as u32)
    } else {
        None
    }
}

/// A prefix of a numeral denotes no more than the numeral.
proof fn lemma_prefix_value(s: Seq<u8>, k: int)
    requires
        0 <= k <= s.len(),
    ensures
        digits_value(s.take(k)) <= digits_value(s),
    decreases s.len(),
{
    if k == s.len() {
        assert(s.take(k) =~= s);
    } else {
        lemma_prefix_value(s.drop_last(), k);
        assert(s.drop_last().take(k) =~= s.take(k));
    }
}

fn blank(b: u8) -> (r: bool)
    ensures
        r == is_blank(b),
{
    b == 32 || (9 <= b && b <= 13)
}

/// Reads the identifier out of the content of a PID record.
///
/// It succeeds exactly on the contents that `parse_pid` accepts, and reports
/// every other content as an invalid record.
pub fn parse_pid_record(content: &[u8]) -> (parsed: Result<u32, RecorderError>)
    ensures
        match parsed {
            Ok(pid) => parse_pid(content@) == Some(pid),
            Err(e) => e == RecorderError::InvalidPidRecord && parse_pid(content@) is None,
        },
{
    let n = content.len();
    let mut start: usize = 0;
    assert(content@.subrange(0, n as int) =~= content@);
    while start < n && blank(content[start])
        invariant
            start <= n,
            n == content@.len(),
            without_leading_blanks(content@) == without_leading_blanks(
                content@.subrange(start as int, n as int),
            ),
        decreases n - start,
    {
        assert(content@.subrange(start as int, n as int).drop_first() =~= content@.subrange(
            start + 1,
            n as int,
        ));
        start += 1;
    }
    let ghost body = content@.subrange(start as int, n as int);
    assert(without_leading_blanks(content@) == body);

    let mut end: usize = n;
    while end > start && blank(content[end - 1])
        invariant
            start <= end <= n,
            n == content@.len(),
            without_trailing_blanks(body) == without_trailing_blanks(
                content@.subrange(start as int, end as int),
            ),
        decreases end - start,
    {
        assert(content@.subrange(start as int, end as int).drop_last() =~= content@.subrange(
            start as int,
            end - 1,
        ));
        end -= 1;
    }
    assert(trimmed(content@) == content@.subrange(start as int, end as int));

    let mut pos: usize = start;
    if pos < end && content[pos] == 43 {
        assert(content@.subrange(start as int, end as int).drop_first() =~= content@.subrange(
            start + 1,
            end as int,
        ));
        pos += 1;
    }
    let ghost digits = content@.subrange(pos as int, end as int);
    assert(unsigned_part(trimmed(content@)) == digits);
    if pos == end {
        return Err(RecorderError::InvalidPidRecord);
    }
    let mut value: u64 = 0;
    let mut i: usize = pos;
    while i < end
        invariant
            pos <= i <= end <= n,
            n == content@.len(),
            digits == content@.subrange(pos as int, end as int),
            digits == unsigned_part(trimmed(content@)),
            all_digits(digits.take(i - pos)),
            value == digits_value(digits.take(i - pos)),
            value <= u32::MAX,
        decreases end - i,
    {
        let b = content[i];
        if b < 48 || b > 57 {
            assert(!is_digit(digits[i - pos]));
            return Err(RecorderError::InvalidPidRecord);
        }
        assert(digits.take(i - pos + 1).drop_last() =~= digits.take(i - pos));
        let next: u64 = value * 10 + (b - 48) as u64;
        if next > 0xffff_ffff {
            proof {
                lemma_prefix_value(digits, i - pos + 1);
            }
            return Err(RecorderError::InvalidPidRecord);
        }
        value = next;
        i += 1;
    }
    assert(digits.take(i - pos) =~= digits);
    Ok(value as u32)
}

/// The numeral of `n` is made of digits only, is not empty, and denotes `n`.
pub proof fn lemma_decimal_denotes(n: nat)
    ensures
        ascii(decimal(n)).len() > 0,
        all_digits(ascii(decimal(n))),
        digits_value(ascii(decimal(n))) == n,
    decreases n,
{
    let s = ascii(decimal(n));
    if n < 10 {
        lemma_digit_code(n);
        assert(s.drop_last() =~= Seq::<u8>::empty());
        assert(digits_value(s.drop_last()) == 0);
        assert(s[0] == 48 + n);
    } else {
        let front = ascii(decimal(n / 10));
        lemma_decimal_denotes(n / 10);
        lemma_digit_code(n % 10);
        assert(s.drop_last() =~= front);
        assert(s.last() == 48 + n % 10);
        assert forall|i: int| 0 <= i < s.len() implies is_digit(#[trigger] s[i]) by {
            if i < front.len() {
                assert(s[i] == front[i]);
            }
        }
    }
}

/// A record that holds the numeral of `pid`, and nothing else, is read back as
/// `pid`.
pub proof fn law_record_round_trip(pid: u32)
    ensures
        parse_pid(ascii(decimal(pid as nat))) == Some(pid),
{
    let s = ascii(decimal(pid as nat));
    lemma_decimal_denotes(pid as nat);
    assert(is_digit(s[0]));
    assert(is_digit(s.last()));
}

/// True when `needle` stands in `hay` at index `at`.
pub open spec fn occurs_at(hay: Seq<u8>, needle: Seq<u8>, at: int) -> bool {
    0 <= at && at + needle.len() <= hay.len() && hay.subrange(at, at + needle.len()) == needle
}

/// True when `needle` stands somewhere in `hay`, as a run of adjacent bytes.
pub open spec fn mentions(hay: Seq<u8>, needle: Seq<u8>) -> bool {
    exists|at: int| occurs_at(hay, needle, at)
}

fn matches_at(hay: &[u8], needle: &[u8], at: usize) -> (found: bool)
    requires
        at + needle@.len() <= hay@.len(),
    ensures
        found == occurs_at(hay@, needle@, at as int),
{
    let limit: usize = hay.len();
    let mut j: usize = 0;
    while j < needle.len()
        invariant
            j <= needle@.len(),
            at + needle@.len() <= hay@.len() == limit,
            forall|k: int| 0 <= k < j ==> hay@[at + k] == needle@[k],
        decreases needle@.len() - j,
    {
        if hay[at + j] != needle[j] {
            assert(hay@.subrange(at as int, at + needle@.len())[j as int] != needle@[j as int]);
            return false;
        }
        j += 1;
    }
    assert(hay@.subrange(at as int, at + needle@.len()) =~= needle@);
    true
}

/// Tells whether `needle` stands somewhere in `hay`.
pub fn contains_bytes(hay: &[u8], needle: &[u8]) -> (found: bool)
    ensures
        found == mentions(hay@, needle@),
{
    if needle.len() > hay.len() {
        return false;
    }
    let last: usize = hay.len() - needle.len();
    let mut at: usize = 0;
    loop
        invariant
            at <= last,
            last == hay@.len() - needle@.len(),
            forall|a: int| 0 <= a < at ==> !occurs_at(hay@, needle@, a),
        decreases last - at,
    {
        if matches_at(hay, needle, at) {
            return true;
        }
        if at == last {
            assert(forall|a: int| !occurs_at(hay@, needle@, a));
            return false;
        }
        at += 1;
    }
}

/// Tells whether the output of a process listing mentions `pid`: whether the
/// decimal numeral of `pid` stands somewhere in `listing`.
///
/// The numeral is not delimited, so a listing that holds a longer number of
/// which it is a part counts as a mention too.
pub fn listing_mentions_pid(listing: &[u8], pid: u32) -> (found: bool)
    ensures
        found == mentions(listing@, ascii(decimal(pid as nat))),
{
    let digits = pid_digits(pid);
    contains_bytes(listing, digits.as_slice())
}

} // verus!
