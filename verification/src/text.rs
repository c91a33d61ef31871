//! Text handling shared by the rest of the crate: comparing and trimming
//! typed lines, writing ordinals in decimal and reading them back.

use vstd::prelude::*;
use vstd::string::*;

verus! {

/// The ten decimal digits, in order of their value.
pub open spec fn digits() -> Seq<char> {
    seq!['0', '1', '2', '3', '4', '5', '6', '7', '8', '9']
}

/// The digit that stands for `d`, for `d` below ten.
pub open spec fn digit_char(d: int) -> char
    recommends
        0 <= d < 10,
{
    digits()[d]
}

/// A number written in decimal, without sign or leading zeros.
pub open spec fn decimal(n: nat) -> Seq<char>
    decreases n,
{
    if n < 10 {
        seq![digit_char(n as int)]
    } else {
        decimal(n / 10) + seq![digit_char((n % 10) as int)]
    }
}

/// Whether `c` is one of the ten decimal digits.
pub open spec fn is_digit(c: char) -> bool {
    '0' <= c && c <= '9'
}

/// The value of a decimal digit.
pub open spec fn digit_value(c: char) -> nat
    recommends
        is_digit(c),
{
    (c as u32 - '0' as u32) as nat
}

/// Whether every character of `s` is a decimal digit.
pub open spec fn all_digits(s: Seq<char>) -> bool {
    forall|i: int| 0 <= i < s.len() ==> is_digit(#[trigger] s[i])
}

/// The number that a run of decimal digits stands for; leading zeros count
/// for nothing, and the empty run stands for zero.
pub open spec fn decimal_value(s: Seq<char>) -> nat
    decreases s.len(),
{
    if s.len() == 0 {
        0
    } else {
        decimal_value(s.drop_last()) * 10 + digit_value(s.last())
    }
}

/// What is left of `s` once one leading plus sign, if any, is taken away.
pub open spec fn unsigned_part(s: Seq<char>) -> Seq<char> {
    if s.len() > 0 && s[0] == '+' {
        s.drop_first()
    } else {
        s
    }
}

/// Whether `s` is a number as a picker accepts it: an optional plus sign
/// followed by one or more decimal digits and nothing else.
pub open spec fn is_number(s: Seq<char>) -> bool {
    unsigned_part(s).len() > 0 && all_digits(unsigned_part(s))
}

/// The value of a number that `is_number` accepts.
pub open spec fn number_value(s: Seq<char>) -> nat {
    decimal_value(unsigned_part(s))
}

/// The zero-based position that a one-based ordinal typed into a picker over
/// `count` entries selects, if the text is a number from 1 to `count`.
pub open spec fn picked(input: Seq<char>, count: nat) -> Option<nat> {
    if is_number(input) && 1 <= number_value(input) <= count {
        Some((number_value(input) - 1) as nat)
    } else {
        None
    }
}

/// Whether `c` counts as white space around a typed line.
pub open spec fn is_whitespace(c: char) -> bool {
    let code = c as u32;
    ||| 0x09 <= code <= 0x0d
    ||| code == 0x20
    ||| code == 0x85
    ||| code == 0xa0
    ||| code == 0x1680
    ||| 0x2000 <= code <= 0x200a
    ||| code == 0x2028
    ||| code == 0x2029
    ||| code == 0x202f
    ||| code == 0x205f
    ||| code == 0x3000
}

/// `s` without the white space at its start.
pub open spec fn trim_start(s: Seq<char>) -> Seq<char>
    decreases s.len(),
{
    if s.len() > 0 && is_whitespace(s[0]) {
        trim_start(s.drop_first())
    } else {
        s
    }
}

/// `s` without the white space at its end.
pub open spec fn trim_end(s: Seq<char>) -> Seq<char>
    decreases s.len(),
{
    if s.len() > 0 && is_whitespace(s.last()) {
        trim_end(s.drop_last())
    } else {
        s
    }
}

/// `s` without the white space at either end.
pub open spec fn trimmed(s: Seq<char>) -> Seq<char> {
    trim_end(trim_start(s))
}

/// The characters of a string, in order.
pub fn chars_of(s: &str) -> (chars: Vec<char>)
    ensures
        chars@ == s@,
{
    let mut chars: Vec<char> = Vec::new();
    for c in it: s.chars()
        invariant
            it.seq() == s@,
            chars@ == s@.take(it.index()),
    {
        chars.push(c);
    }
    chars
}

/// Whether two strings hold the same characters.
pub fn same_text(a: &str, b: &str) -> (same: bool)
    ensures
        same == (a@ == b@),
{
    let left = a.to_owned();
    let right = b.to_owned();
    left == right
}

/// Whether `c` counts as white space around a typed line.
pub fn whitespace(c: char) -> (white: bool)
    ensures
        white == is_whitespace(c),
{
    let code: u32 = c as u32;
    (0x09 <= code && code <= 0x0d) || code == 0x20 || code == 0x85 || code == 0xa0 || code
        == 0x1680 || (0x2000 <= code && code <= 0x200a) || code == 0x2028 || code == 0x2029
        || code == 0x202f || code == 0x205f || code == 0x3000
}

/// A typed line without the white space around it.
pub fn trim(line: &str) -> (text: String)
    ensures
        text@ == trimmed(line@),
{
    let chars = chars_of(line);
    let mut start: usize = 0;
    assert(chars@.skip(0) == chars@);
    while start < chars.len() && whitespace(chars[start])
        invariant
            start <= chars.len(),
            trim_start(chars@) == trim_start(chars@.skip(start as int)),
        decreases chars.len() - start,
    {
        assert(chars@.skip(start as int).drop_first() == chars@.skip(start + 1));
        start += 1;
    }
    let mut end: usize = chars.len();
    assert(chars@.subrange(start as int, end as int) == chars@.skip(start as int));
    while end > start && whitespace(chars[end - 1])
        invariant
            start <= end <= chars.len(),
            trim_end(chars@.skip(start as int)) == trim_end(
                chars@.subrange(start as int, end as int),
            ),
        decreases end - start,
    {
        assert(chars@.subrange(start as int, end as int).drop_last() == chars@.subrange(
            start as int,
            end - 1,
        ));
        end -= 1;
    }
    String::from_str(line.substring_char(start, end))
}

/// Two texts, one after the other.
pub fn join(first: &str, second: &str) -> (text: String)
    ensures
        text@ == first@ + second@,
{
    let mut text = String::from_str(first);
    text.append(second);
    text
}

/// Three texts, one after the other.
pub fn join3(first: &str, second: &str, third: &str) -> (text: String)
    ensures
        text@ == first@ + second@ + third@,
{
    let mut text = String::from_str(first);
    text.append(second);
    text.append(third);
    text
}

/// Adds each of `more`, in order, at the end of `lines`.
pub fn push_lines(lines: &mut Vec<String>, more: Vec<String>)
    ensures
        final(lines).deep_view() == old(lines).deep_view() + more.deep_view(),
{
    let mut more = more;
    let ghost added = more.deep_view();
    let ghost before = lines.deep_view();
    lines.append(&mut more);
    assert(lines.deep_view() =~= before + added);
}

/// Adds one line at the end of `lines`.
pub fn push_line(lines: &mut Vec<String>, line: String)
    ensures
        final(lines).deep_view() == old(lines).deep_view().push(line@),
{
    lines.push(line);
    assert(lines.deep_view() =~= old(lines).deep_view().push(line@));
}

/// A list of lines that holds none.
pub fn no_lines() -> (lines: Vec<String>)
    ensures
        lines.deep_view() == Seq::<Seq<char>>::empty(),
{
    let lines: Vec<String> = Vec::new();
    assert(lines.deep_view() =~= Seq::<Seq<char>>::empty());
    lines
}

/// The text of one decimal digit.
fn digit_text(d: usize) -> (text: &'static str)
    requires
        d < 10,
    ensures
        text@ == seq![digit_char(d as int)],
{
    proof {
        reveal_strlit("0123456789");
    }
    let all: &'static str = "0123456789";
    all.substring_char(d, d + 1)
}

/// Writes `n` in decimal.
pub fn decimal_string(n: usize) -> (text: String)
    ensures
        text@ == decimal(n as nat),
    decreases n,
{
    if n < 10 {
        String::from_str(digit_text(n))
    } else {
        let mut text = decimal_string(n / 10);
        text.append(digit_text(n % 10));
        text
    }
}

/// The value of a run of digits is at least the value of each of its
/// beginnings.
pub proof fn lemma_decimal_value_grows(s: Seq<char>, k: int)
    requires
        0 <= k <= s.len(),
    ensures
        decimal_value(s.take(k)) <= decimal_value(s),
    decreases s.len(),
{
    if k == s.len() {
        assert(s.take(k) == s);
    } else {
        assert(s.drop_last().take(k) == s.take(k));
        lemma_decimal_value_grows(s.drop_last(), k);
    }
}

/// Each digit character is a digit, is no plus sign, and has the value
/// that it stands for.
pub proof fn lemma_digit_char(d: int)
    requires
        0 <= d < 10,
    ensures
        is_digit(digit_char(d)),
        digit_char(d) != '+',
        digit_value(digit_char(d)) == d,
{
    assert(digits()[0] == '0');
    assert(digits()[1] == '1');
    assert(digits()[2] == '2');
    assert(digits()[3] == '3');
    assert(digits()[4] == '4');
    assert(digits()[5] == '5');
    assert(digits()[6] == '6');
    assert(digits()[7] == '7');
    assert(digits()[8] == '8');
    assert(digits()[9] == '9');
}

/// A number written in decimal reads back as itself: the text is a number
/// as a picker accepts it, and its value is the number written.
pub proof fn lemma_decimal_reads_back(n: nat)
    ensures
        decimal(n).len() > 0,
        all_digits(decimal(n)),
        unsigned_part(decimal(n)) == decimal(n),
        is_number(decimal(n)),
        number_value(decimal(n)) == n,
    decreases n,
{
    if n < 10 {
        lemma_digit_char(n as int);
        assert(decimal(n).drop_last() =~= Seq::<char>::empty());
        assert(decimal_value(decimal(n).drop_last()) == 0);
    } else {
        lemma_decimal_reads_back(n / 10);
        lemma_digit_char((n % 10) as int);
        let front = decimal(n / 10);
        let last = digit_char((n % 10) as int);
        assert(decimal(n) == front + seq![last]);
        assert(decimal(n).drop_last() =~= front);
        assert(decimal(n).last() == last);
        assert(decimal(n)[0] == front[0]);
        assert forall|i: int| 0 <= i < decimal(n).len() implies is_digit(
            #[trigger] decimal(n)[i],
        ) by {
            if i < front.len() {
                assert(decimal(n)[i] == front[i]);
            }
        }
    }
}

/// The ordinal that a picker shows before an entry selects that entry: for
/// every position of a list, the position's number counted from one, written
/// in decimal, picks the position.
pub proof fn lemma_ordinal_picks_entry(position: nat, count: nat)
    requires
        position < count,
    ensures
        picked(decimal(position + 1), count) == Some(position),
{
    lemma_decimal_reads_back(position + 1);
}

/// What a picker accepts: the answers that select nothing are exactly those
/// that are no number, and the numbers that are zero or beyond the list.
pub proof fn lemma_picked_in_range(input: Seq<char>, count: nat)
    ensures
        picked(input, count) is None <==> !is_number(input) || number_value(input) == 0
            || number_value(input) > count,
        picked(input, count) matches Some(index) ==> index < count && index + 1 == number_value(
            input,
        ),
{
}

/// Reads a one-based ordinal typed into a picker over `count` entries and
/// gives the zero-based position it selects. Anything that is not a number
/// from 1 to `count` selects nothing.
pub fn pick_index(input: &str, count: usize) -> (index: Option<usize>)
    ensures
        match index {
            Some(i) => picked(input@, count as nat) == Some(i as nat),
            None => picked(input@, count as nat) is None,
        },
{
    let chars = chars_of(input);
    let first: usize = if chars.len() > 0 && chars[0] == '+' {
        1
    } else {
        0
    };
    let ghost run = unsigned_part(input@);
    assert(run == chars@.skip(first as int));
    if first == chars.len() {
        return None;
    }
    let mut value: usize = 0;
    let mut at: usize = first;
    assert(run.take(0) == Seq::<char>::empty());
    while at < chars.len()
        invariant
            first <= at <= chars.len(),
            run == chars@.skip(first as int),
            run == unsigned_part(input@),
            all_digits(run.take(at - first)),
            value == decimal_value(run.take(at - first)),
            value <= count,
        decreases chars.len() - at,
    {
        let c = chars[at];
        assert(c == run[at - first]);
        if !('0' <= c && c <= '9') {
            assert(!is_digit(run[at - first]));
            return None;
        }
        let d: usize = (c as u32 - '0' as u32) as usize;
        let ghost longer = run.take(at - first + 1);
        assert(longer.drop_last() == run.take(at - first));
        assert(longer.last() == c);
        assert(decimal_value(longer) == value * 10 + d);
        if value > count / 10 || d > count - value * 10 {
            proof {
                lemma_decimal_value_grows(run, at - first + 1);
            }
            return None;
        }
        value = value * 10 + d;
        at += 1;
    }
    assert(run.take(at - first) == run);
    if value >= 1 {
        Some(value - 1)
    } else {
        None
    }
}

} // verus!
