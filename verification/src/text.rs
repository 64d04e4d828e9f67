//! Text handling shared by the rest of the library: decimal numbers, substring
//! search, trimming and the tail of a log.

use vstd::prelude::*;
use vstd::utf8::{decode_utf8, valid_utf8};

verus! {

// ---------------------------------------------------------------------------
// Decimal numbers
// ---------------------------------------------------------------------------

/// The character of the decimal digit `d`.
pub open spec fn digit_char(d: nat) -> char {
    (('0' as nat) + d) as char
}

/// The decimal digits of `n`, most significant first and without leading zeros.
pub open spec fn decimal(n: nat) -> Seq<char>
    decreases n,
{
    if n < 10 {
        seq![digit_char(n)]
    } else {
        decimal(n / 10).push(digit_char(n % 10))
    }
}

/// The number that a sequence of decimal digits denotes.
pub open spec fn number_of(digits: Seq<char>) -> int
    decreases digits.len(),
{
    if digits.len() == 0 {
        0
    } else {
        number_of(digits.drop_last()) * 10 + (digits.last() as int - '0' as int)
    }
}

/// Reading the digits of a number back gives the number.
pub proof fn law_decimal_denotes(n: nat)
    ensures
        number_of(decimal(n)) == n,
    decreases n,
{
    if n < 10 {
        let s = seq![digit_char(n)];
        assert(s.drop_last() =~= Seq::<char>::empty());
        assert(number_of(s.drop_last()) == 0);
    } else {
        law_decimal_denotes(n / 10);
        assert(decimal(n).drop_last() =~= decimal(n / 10));
    }
}

/// Two numbers with the same decimal digits are the same number.
pub proof fn law_decimal_injective(a: nat, b: nat)
    requires
        decimal(a) == decimal(b),
    ensures
        a == b,
{
    law_decimal_denotes(a);
    law_decimal_denotes(b);
}

/// `String::push`: the character is appended to the string.
pub assume_specification[ String::push ](string: &mut String, ch: char)
    ensures
        final(string)@ == old(string)@.push(ch),
;

/// Appends the decimal digits of `n` to `out`.
pub fn push_decimal(out: &mut String, n: u32)
    ensures
        final(out)@ == old(out)@ + decimal(n as nat),
    decreases n,
{
    if n >= 10 {
        push_decimal(out, n / 10);
    }
    let digit: u8 = (n % 10) as u8;
    out.push((48u8 + digit) as char);
    assert(out@ =~= old(out)@ + decimal(n as nat));
}

// ---------------------------------------------------------------------------
// Characters of a string
// ---------------------------------------------------------------------------

/// The characters of `s`, in order.
pub fn chars_of(s: &str) -> (out: Vec<char>)
    ensures
        out@ == s@,
{
    let mut out: Vec<char> = Vec::new();
    for c in it: s.chars()
        invariant
            it.seq() == s@,
            out@ == s@.take(it.index() as int),
    {
        out.push(c);
        assert(out@ =~= s@.take(it.index() + 1));
    }
    assert(s@.take(s@.len() as int) =~= s@);
    out
}

/// Appends the characters `chars[from..to]` to `out`.
fn push_range(out: &mut String, chars: &Vec<char>, from: usize, to: usize)
    requires
        from <= to <= chars@.len(),
    ensures
        final(out)@ == old(out)@ + chars@.subrange(from as int, to as int),
{
    let ghost before = out@;
    let mut i: usize = from;
    assert(out@ =~= before + chars@.subrange(from as int, i as int));
    while i < to
        invariant
            from <= i <= to <= chars@.len(),
            out@ == before + chars@.subrange(from as int, i as int),
        decreases to - i,
    {
        out.push(chars[i]);
        i = i + 1;
        assert(out@ =~= before + chars@.subrange(from as int, i as int));
    }
}

// ---------------------------------------------------------------------------
// Substring search
// ---------------------------------------------------------------------------

/// `needle` stands in `haystack` at position `at`.
pub open spec fn occurs_at(haystack: Seq<char>, needle: Seq<char>, at: int) -> bool {
    &&& 0 <= at
    &&& at + needle.len() <= haystack.len()
    &&& haystack.subrange(at, at + needle.len()) == needle
}

/// `needle` stands somewhere in `haystack`.
pub open spec fn contains_text(haystack: Seq<char>, needle: Seq<char>) -> bool {
    exists|at: int| occurs_at(haystack, needle, at)
}

/// Whether `needle` stands in `haystack` at position `at`.
fn matches_at(haystack: &Vec<char>, needle: &Vec<char>, at: usize) -> (found: bool)
    requires
        at + needle@.len() <= haystack@.len(),
    ensures
        found == occurs_at(haystack@, needle@, at as int),
{
    let len: usize = haystack.len();
    let mut k: usize = 0;
    while k < needle.len()
        invariant
            k <= needle@.len(),
            len == haystack@.len(),
            at + needle@.len() <= haystack@.len(),
            forall|j: int| 0 <= j < k ==> haystack@[at + j] == needle@[j],
        decreases needle@.len() - k,
    {
        if haystack[at + k] != needle[k] {
            assert(haystack@.subrange(at as int, at + needle@.len())[k as int] != needle@[k as int]);
            return false;
        }
        k = k + 1;
    }
    assert(haystack@.subrange(at as int, at + needle@.len()) =~= needle@);
    true
}

/// Whether `needle` stands somewhere in `haystack`.
pub fn contains(haystack: &str, needle: &str) -> (found: bool)
    ensures
        found == contains_text(haystack@, needle@),
{
    let hay = chars_of(haystack);
    let pin = chars_of(needle);
    if pin.len() > hay.len() {
        return false;
    }
    let last: usize = hay.len() - pin.len();
    let mut at: usize = 0;
    while at <= last
        invariant
            hay@ == haystack@,
            pin@ == needle@,
            last + pin@.len() == hay@.len(),
            at <= last + 1,
            forall|j: int| 0 <= j < at ==> !occurs_at(haystack@, needle@, j),
        decreases last + 1 - at,
    {
        if matches_at(&hay, &pin, at) {
            return true;
        }
        if at == last {
            return false;
        }
        at = at + 1;
    }
    false
}

// ---------------------------------------------------------------------------
// Trimming
// ---------------------------------------------------------------------------

/// The characters with the Unicode property White_Space.
pub open spec fn white_space(c: char) -> bool {
    ||| '\u{9}' <= c <= '\u{d}'
    ||| c == '\u{20}'
    ||| c == '\u{85}'
    ||| c == '\u{a0}'
    ||| c == '\u{1680}'
    ||| '\u{2000}' <= c <= '\u{200a}'
    ||| c == '\u{2028}'
    ||| c == '\u{2029}'
    ||| c == '\u{202f}'
    ||| c == '\u{205f}'
    ||| c == '\u{3000}'
}

/// Whether `c` has the Unicode property White_Space.
pub fn is_white_space(c: char) -> (white: bool)
    ensures
        white == white_space(c),
{
    ('\u{9}' <= c && c <= '\u{d}') || c == '\u{20}' || c == '\u{85}' || c == '\u{a0}' || c
        == '\u{1680}' || ('\u{2000}' <= c && c <= '\u{200a}') || c == '\u{2028}' || c
        == '\u{2029}' || c == '\u{202f}' || c == '\u{205f}' || c == '\u{3000}'
}

/// `s` without the white space at its front.
pub open spec fn trim_front(s: Seq<char>) -> Seq<char>
    decreases s.len(),
{
    if s.len() > 0 && white_space(s[0]) {
        trim_front(s.drop_first())
    } else {
        s
    }
}

/// `s` without the white space at its back.
pub open spec fn trim_back(s: Seq<char>) -> Seq<char>
    decreases s.len(),
{
    if s.len() > 0 && white_space(s.last()) {
        trim_back(s.drop_last())
    } else {
        s
    }
}

/// `s` without the white space at its two ends.
pub open spec fn trimmed(s: Seq<char>) -> Seq<char> {
    trim_back(trim_front(s))
}

/// `s` without the white space at its two ends.
pub fn trim(s: &str) -> (out: String)
    ensures
        out@ == trimmed(s@),
{
    let chars = chars_of(s);
    let len: usize = chars.len();
    let mut from: usize = 0;
    assert(s@.subrange(0, len as int) =~= s@);
    while from < len && is_white_space(chars[from])
        invariant
            chars@ == s@,
            len == s@.len(),
            from <= len,
            trim_front(s@) == trim_front(s@.subrange(from as int, len as int)),
        decreases len - from,
    {
        assert(s@.subrange(from as int, len as int).drop_first() =~= s@.subrange(
            from + 1,
            len as int,
        ));
        from = from + 1;
    }
    let mut to: usize = len;
    while from < to && is_white_space(chars[to - 1])
        invariant
            chars@ == s@,
            len == s@.len(),
            from <= to <= len,
            trimmed(s@) == trim_back(s@.subrange(from as int, to as int)),
        decreases to - from,
    {
        assert(s@.subrange(from as int, to as int).drop_last() =~= s@.subrange(
            from as int,
            to - 1,
        ));
        to = to - 1;
    }
    let mut out = String::new();
    push_range(&mut out, &chars, from, to);
    assert(out@ =~= s@.subrange(from as int, to as int));
    out
}

/// What is left after trimming neither begins nor ends with white space.
pub proof fn law_trimmed_ends(s: Seq<char>)
    ensures
        trimmed(s).len() > 0 ==> !white_space(trimmed(s)[0]) && !white_space(trimmed(s).last()),
{
    lemma_trim_front_stops(s);
    lemma_trim_back_keeps_front(trim_front(s));
}

proof fn lemma_trim_front_stops(s: Seq<char>)
    ensures
        trim_front(s).len() > 0 ==> !white_space(trim_front(s)[0]),
    decreases s.len(),
{
    if s.len() > 0 && white_space(s[0]) {
        lemma_trim_front_stops(s.drop_first());
    }
}

proof fn lemma_trim_back_keeps_front(s: Seq<char>)
    ensures
        trim_back(s).len() > 0 ==> trim_back(s)[0] == s[0] && !white_space(trim_back(s).last()),
    decreases s.len(),
{
    if s.len() > 0 && white_space(s.last()) {
        lemma_trim_back_keeps_front(s.drop_last());
    }
}

// ---------------------------------------------------------------------------
// Lines
// ---------------------------------------------------------------------------

/// A line without the carriage return that precedes its line feed.
pub open spec fn without_return(line: Seq<char>) -> Seq<char> {
    if line.len() > 0 && line.last() == '\r' {
        line.drop_last()
    } else {
        line
    }
}

/// The position of the first line feed of `s`, or its length where it has none.
pub open spec fn feed_position(s: Seq<char>) -> nat
    decreases s.len(),
{
    if s.len() == 0 || s[0] == '\n' {
        0
    } else {
        1 + feed_position(s.drop_first())
    }
}

/// The lines of `s`. A line ends with a line feed, or a carriage return and a
/// line feed; the ending is no part of the line. The last line needs no ending,
/// and a carriage return without a line feed is kept.
pub open spec fn lines(s: Seq<char>) -> Seq<Seq<char>>
    decreases s.len(),
{
    let at = feed_position(s);
    if s.len() == 0 {
        seq![]
    } else if at >= s.len() {
        seq![s]
    } else {
        seq![without_return(s.take(at as int))] + lines(s.skip(at + 1int))
    }
}

/// The lines `rows` with a line feed between each two.
pub open spec fn join_lines(rows: Seq<Seq<char>>) -> Seq<char>
    decreases rows.len(),
{
    if rows.len() == 0 {
        seq![]
    } else if rows.len() == 1 {
        rows[0]
    } else {
        join_lines(rows.drop_last()).push('\n') + rows.last()
    }
}

/// The last `max` of `rows`, or all of them where there are fewer.
pub open spec fn last_rows(rows: Seq<Seq<char>>, max: nat) -> Seq<Seq<char>> {
    if rows.len() <= max {
        rows
    } else {
        rows.skip(rows.len() - max)
    }
}

/// The last `max` lines of `s`, with a line feed between each two.
pub open spec fn tail_text(s: Seq<char>, max: nat) -> Seq<char> {
    join_lines(last_rows(lines(s), max))
}

/// The text between the positions of each pair.
spec fn rows_of(chars: Seq<char>, spans: Seq<(usize, usize)>) -> Seq<Seq<char>> {
    spans.map_values(|span: (usize, usize)| chars.subrange(span.0 as int, span.1 as int))
}

spec fn spans_fit(chars: Seq<char>, spans: Seq<(usize, usize)>) -> bool {
    forall|i: int|
        0 <= i < spans.len() ==> (#[trigger] spans[i]).0 <= spans[i].1 <= chars.len()
}

proof fn lemma_feed_position(s: Seq<char>, at: int)
    requires
        0 <= at <= s.len(),
        forall|j: int| 0 <= j < at ==> s[j] != '\n',
        at < s.len() ==> s[at] == '\n',
    ensures
        feed_position(s) == at,
    decreases s.len(),
{
    if at > 0 {
        let rest = s.drop_first();
        assert forall|j: int| 0 <= j < at - 1 implies rest[j] != '\n' by {
            assert(rest[j] == s[j + 1]);
        }
        lemma_feed_position(rest, at - 1);
    }
}

/// Where each line of `chars` begins and ends.
fn line_spans(chars: &Vec<char>) -> (spans: Vec<(usize, usize)>)
    ensures
        spans_fit(chars@, spans@),
        rows_of(chars@, spans@) == lines(chars@),
{
    let len: usize = chars.len();
    let mut spans: Vec<(usize, usize)> = Vec::new();
    let mut start: usize = 0;
    let mut i: usize = 0;
    assert(chars@.skip(0) =~= chars@);
    assert(lines(chars@) =~= rows_of(chars@, spans@) + lines(chars@.skip(0)));
    while i < len
        invariant
            len == chars@.len(),
            start <= i <= len,
            spans_fit(chars@, spans@),
            lines(chars@) == rows_of(chars@, spans@) + lines(chars@.skip(start as int)),
            forall|j: int| start <= j < i ==> chars@[j] != '\n',
        decreases len - i,
    {
        if chars[i] == '\n' {
            let end: usize = if start < i && chars[i - 1] == '\r' {
                i - 1
            } else {
                i
            };
            let ghost rest = chars@.skip(start as int);
            let ghost at = i - start;
            let ghost before = spans@;
            proof {
                assert forall|j: int| 0 <= j < at implies rest[j] != '\n' by {
                    assert(rest[j] == chars@[start + j]);
                }
                lemma_feed_position(rest, at);
                assert(rest.skip(at + 1) =~= chars@.skip(i + 1));
                assert(without_return(rest.take(at)) =~= chars@.subrange(start as int, end as int));
            }
            spans.push((start, end));
            start = i + 1;
            assert(rows_of(chars@, spans@) =~= rows_of(chars@, before).push(
                without_return(rest.take(at)),
            ));
            assert(lines(chars@) =~= rows_of(chars@, spans@) + lines(chars@.skip(start as int)));
        }
        i = i + 1;
    }
    let ghost rest = chars@.skip(start as int);
    proof {
        assert forall|j: int| 0 <= j < rest.len() implies rest[j] != '\n' by {
            assert(rest[j] == chars@[start + j]);
        }
        lemma_feed_position(rest, rest.len() as int);
    }
    if start < len {
        let ghost before = spans@;
        spans.push((start, len));
        assert(chars@.subrange(start as int, len as int) =~= rest);
        assert(rows_of(chars@, spans@) =~= rows_of(chars@, before) + lines(rest));
    } else {
        assert(rows_of(chars@, spans@) =~= rows_of(chars@, spans@) + lines(rest));
    }
    spans
}

/// The last `max` lines of `s`, with a line feed between each two.
pub fn tail(s: &str, max: usize) -> (out: String)
    ensures
        out@ == tail_text(s@, max as nat),
{
    let chars = chars_of(s);
    let spans = line_spans(&chars);
    let count: usize = spans.len();
    let first: usize = if count <= max {
        0
    } else {
        count - max
    };
    let ghost rows = rows_of(chars@, spans@);
    let ghost shown = rows.skip(first as int);
    assert(shown =~= last_rows(lines(s@), max as nat));
    let mut out = String::new();
    let mut i: usize = first;
    assert(shown.take(0) =~= Seq::<Seq<char>>::empty());
    while i < count
        invariant
            count == spans@.len(),
            first <= i <= count,
            spans_fit(chars@, spans@),
            rows == rows_of(chars@, spans@),
            shown == rows.skip(first as int),
            out@ == join_lines(shown.take(i - first)),
        decreases count - i,
    {
        let ghost before = out@;
        if i > first {
            out.push('\n');
        }
        let span = spans[i];
        push_range(&mut out, &chars, span.0, span.1);
        proof {
            let done = shown.take(i + 1 - first);
            assert(done.last() == rows[i as int]);
            assert(done.drop_last() =~= shown.take(i - first));
            if i == first {
                assert(before =~= Seq::<char>::empty());
                assert(out@ =~= done[0]);
            }
        }
        i = i + 1;
    }
    assert(shown.take(count - first) =~= shown);
    out
}

/// The tail of a text with no more than `max` lines is all of its lines.
pub proof fn law_tail_is_whole(s: Seq<char>, max: nat)
    requires
        lines(s).len() <= max,
    ensures
        tail_text(s, max) == join_lines(lines(s)),
{
}

/// The number of line feeds in `s`.
spec fn feeds(s: Seq<char>) -> nat
    decreases s.len(),
{
    if s.len() == 0 {
        0
    } else {
        (if s[0] == '\n' { 1nat } else { 0nat }) + feeds(s.drop_first())
    }
}

proof fn lemma_feeds_concat(a: Seq<char>, b: Seq<char>)
    ensures
        feeds(a + b) == feeds(a) + feeds(b),
    decreases a.len(),
{
    if a.len() == 0 {
        assert(a + b =~= b);
    } else {
        assert((a + b).drop_first() =~= a.drop_first() + b);
        lemma_feeds_concat(a.drop_first(), b);
    }
}

proof fn lemma_feed_position_splits(s: Seq<char>)
    ensures
        feed_position(s) <= s.len(),
        feed_position(s) < s.len() ==> s[feed_position(s) as int] == '\n',
        feeds(s.take(feed_position(s) as int)) == 0,
    decreases s.len(),
{
    let at = feed_position(s);
    if s.len() > 0 && s[0] != '\n' {
        let rest = s.drop_first();
        lemma_feed_position_splits(rest);
        assert(s.take(at as int).drop_first() =~= rest.take(at - 1));
    } else {
        assert(s.take(0) =~= Seq::<char>::empty());
    }
}

proof fn lemma_lines_have_no_feed(s: Seq<char>)
    ensures
        lines(s).len() <= feeds(s) + 1,
        forall|i: int| 0 <= i < lines(s).len() ==> feeds(#[trigger] lines(s)[i]) == 0,
    decreases s.len(),
{
    if s.len() > 0 {
        let at = feed_position(s) as int;
        lemma_feed_position_splits(s);
        if at >= s.len() {
            assert(s.take(at) =~= s);
        } else {
            let row = s.take(at);
            let rest = s.skip(at + 1);
            lemma_lines_have_no_feed(rest);
            lemma_feeds_concat(row, seq!['\n'] + rest);
            assert(row + (seq!['\n'] + rest) =~= s);
            assert((seq!['\n'] + rest).drop_first() =~= rest);
            if row.len() > 0 {
                lemma_feeds_concat(row.drop_last(), seq![row.last()]);
                assert(row.drop_last() + seq![row.last()] =~= row);
            }
            assert forall|i: int| 0 <= i < lines(s).len() implies feeds(
                #[trigger] lines(s)[i],
            ) == 0 by {
                if i > 0 {
                    assert(lines(s)[i] == lines(rest)[i - 1]);
                }
            }
        }
    }
}

proof fn lemma_join_feeds(rows: Seq<Seq<char>>)
    requires
        rows.len() > 0,
        forall|i: int| 0 <= i < rows.len() ==> feeds(#[trigger] rows[i]) == 0,
    ensures
        feeds(join_lines(rows)) == rows.len() - 1,
    decreases rows.len(),
{
    if rows.len() > 1 {
        let inner = rows.drop_last();
        assert forall|i: int| 0 <= i < inner.len() implies feeds(#[trigger] inner[i]) == 0 by {
            assert(inner[i] == rows[i]);
        }
        lemma_join_feeds(inner);
        let head = join_lines(inner);
        lemma_feeds_concat(head, seq!['\n']);
        assert(head + seq!['\n'] =~= head.push('\n'));
        assert(seq!['\n'].drop_first() =~= Seq::<char>::empty());
        assert(feeds(seq!['\n'].drop_first()) == 0);
        lemma_feeds_concat(head.push('\n'), rows.last());
        assert(feeds(rows[rows.len() - 1]) == 0);
    }
}

/// A tail of `max` lines has no more than `max` lines.
pub proof fn law_tail_is_bounded(s: Seq<char>, max: nat)
    ensures
        lines(tail_text(s, max)).len() <= max,
{
    let rows = last_rows(lines(s), max);
    if rows.len() > 0 {
        lemma_lines_have_no_feed(s);
        let cut = lines(s).len() - rows.len();
        assert forall|i: int| 0 <= i < rows.len() implies feeds(#[trigger] rows[i]) == 0 by {
            assert(rows[i] == lines(s)[cut + i]);
        }
        lemma_join_feeds(rows);
        lemma_lines_have_no_feed(tail_text(s, max));
    }
}

/// Asking for fewer lines gives the end of what asking for more lines gives.
pub proof fn law_tail_is_suffix(s: Seq<char>, fewer: nat, more: nat)
    requires
        fewer <= more,
    ensures
        tail_text(s, fewer).is_suffix_of(tail_text(s, more)),
{
    let wide = last_rows(lines(s), more);
    let narrow = last_rows(lines(s), fewer);
    let cut = wide.len() - narrow.len();
    assert(narrow =~= wide.skip(cut));
    lemma_join_suffix(wide, cut);
}

proof fn lemma_join_suffix(rows: Seq<Seq<char>>, cut: int)
    requires
        0 <= cut <= rows.len(),
    ensures
        join_lines(rows.skip(cut)).is_suffix_of(join_lines(rows)),
    decreases rows.len(),
{
    let whole = join_lines(rows);
    let part = join_lines(rows.skip(cut));
    if cut == rows.len() {
        assert(rows.skip(cut) =~= Seq::<Seq<char>>::empty());
        assert(whole.subrange(whole.len() as int, whole.len() as int) =~= part);
    } else if cut == rows.len() - 1 {
        assert(rows.skip(cut) =~= seq![rows.last()]);
        assert(part == rows.last());
        assert(whole.subrange(whole.len() - part.len(), whole.len() as int) =~= part);
    } else {
        let inner = rows.drop_last();
        lemma_join_suffix(inner, cut);
        assert(rows.skip(cut).drop_last() =~= inner.skip(cut));
        let head = join_lines(inner);
        let short = join_lines(inner.skip(cut));
        assert(short =~= head.subrange(head.len() - short.len(), head.len() as int));
        assert(whole.subrange(whole.len() - part.len(), whole.len() as int) =~= part);
    }
}

// ---------------------------------------------------------------------------
// Lossy decoding
// ---------------------------------------------------------------------------

/// The text that lossy UTF-8 decoding makes of `bytes`.
pub uninterp spec fn lossy_utf8(bytes: Seq<u8>) -> Seq<char>;

/// `String::from_utf8_lossy`: bytes that are valid UTF-8 come out as the
/// characters they encode. Of bytes that are not, the text is only named: what
/// stands for an invalid sequence, made with U+FFFD, and that the valid bytes
/// around it come out unchanged, is left unsaid.
#[verifier::external_body]
pub(crate) fn decode_lossy(bytes: &[u8]) -> (text: String)
    ensures
        text@ == lossy_utf8(bytes@),
        valid_utf8(bytes@) ==> text@ == decode_utf8(bytes@),
{
    String::from_utf8_lossy(bytes).into_owned()
}

// ---------------------------------------------------------------------------
// What the functions above are for
// ---------------------------------------------------------------------------

/// A number below ten is written as its one digit, and to write another digit
/// behind a number is to multiply it by ten and add the digit.
pub proof fn law_decimal_appends_a_digit(n: nat, d: nat)
    requires
        d < 10,
    ensures
        decimal(d) == seq![(48 + d) as char],
        n > 0 ==> decimal(10 * n + d) == decimal(n).push((48 + d) as char),
{
    if n > 0 {
        assert((10 * n + d) / 10 == n);
        assert((10 * n + d) % 10 == d);
    }
}

/// The digits of a number are the characters from 0 to 9, and the first is 0 for
/// zero alone.
pub proof fn law_decimal_is_canonical(n: nat)
    ensures
        decimal(n).len() > 0,
        forall|i: int| 0 <= i < decimal(n).len() ==> '0' <= #[trigger] decimal(n)[i] <= '9',
        decimal(n)[0] == '0' <==> n == 0,
    decreases n,
{
    if n >= 10 {
        law_decimal_is_canonical(n / 10);
    }
}

/// A text stands in another exactly if the other is made of some text, the text
/// and some text.
pub proof fn law_contains_is_a_middle(haystack: Seq<char>, needle: Seq<char>)
    ensures
        contains_text(haystack, needle) <==> exists|before: Seq<char>, after: Seq<char>|
            haystack == #[trigger] (before + needle + after),
{
    if contains_text(haystack, needle) {
        let at = choose|at: int| occurs_at(haystack, needle, at);
        let before = haystack.take(at);
        let after = haystack.skip(at + needle.len());
        assert(haystack.subrange(at, at + needle.len()) == needle);
        assert(haystack =~= before + needle + after);
    }
    if exists|before: Seq<char>, after: Seq<char>|
        haystack == #[trigger] (before + needle + after) {
        let (before, after): (Seq<char>, Seq<char>) = choose|
            before: Seq<char>,
            after: Seq<char>,
        | haystack == #[trigger] (before + needle + after);
        let at = before.len() as int;
        assert(haystack.subrange(at, at + needle.len()) =~= needle);
        assert(occurs_at(haystack, needle, at));
    }
}

/// The white space characters, by their numbers.
pub proof fn law_white_space_table(c: char)
    ensures
        white_space(c) <==> {
            let n = c as u32;
            ||| n == 9 || n == 10 || n == 11 || n == 12 || n == 13 || n == 32 || n == 133
            ||| n == 160 || n == 5760 || n == 8192 || n == 8193 || n == 8194 || n == 8195
            ||| n == 8196 || n == 8197 || n == 8198 || n == 8199 || n == 8200 || n == 8201
            ||| n == 8202 || n == 8232 || n == 8233 || n == 8239 || n == 8287 || n == 12288
        },
{
}

/// All of `s` is white space.
pub open spec fn blank(s: Seq<char>) -> bool {
    forall|i: int| 0 <= i < s.len() ==> white_space(#[trigger] s[i])
}

proof fn lemma_trim_front_splits(s: Seq<char>) -> (cut: Seq<char>)
    ensures
        blank(cut),
        s == cut + trim_front(s),
    decreases s.len(),
{
    if s.len() > 0 && white_space(s[0]) {
        let rest = lemma_trim_front_splits(s.drop_first());
        let cut = seq![s[0]] + rest;
        assert(s =~= seq![s[0]] + s.drop_first());
        assert(s =~= cut + trim_front(s));
        cut
    } else {
        assert(s =~= Seq::<char>::empty() + trim_front(s));
        Seq::empty()
    }
}

proof fn lemma_trim_back_splits(s: Seq<char>) -> (cut: Seq<char>)
    ensures
        blank(cut),
        s == trim_back(s) + cut,
    decreases s.len(),
{
    if s.len() > 0 && white_space(s.last()) {
        let rest = lemma_trim_back_splits(s.drop_last());
        let cut = rest.push(s.last());
        assert(s =~= s.drop_last().push(s.last()));
        assert(s =~= trim_back(s) + cut);
        cut
    } else {
        assert(s =~= trim_back(s) + Seq::<char>::empty());
        Seq::empty()
    }
}

/// Trimming cuts white space off the two ends, and nothing else.
pub proof fn law_trim_cuts_white_space(s: Seq<char>)
    ensures
        exists|before: Seq<char>, after: Seq<char>|
            blank(before) && blank(after) && s == #[trigger] (before + trimmed(s) + after),
{
    let before = lemma_trim_front_splits(s);
    let after = lemma_trim_back_splits(trim_front(s));
    assert(s =~= before + trimmed(s) + after);
}

/// White space around a text that neither begins nor ends with any is cut off, and
/// all of a blank text is.
pub proof fn law_trim_finds_the_text(before: Seq<char>, text: Seq<char>, after: Seq<char>)
    requires
        blank(before),
        blank(after),
        text.len() > 0 ==> !white_space(text[0]) && !white_space(text.last()),
    ensures
        trimmed(before + text + after) == text,
    decreases before.len() + after.len(),
{
    let s = before + text + after;
    if before.len() > 0 {
        assert(white_space(s[0])) by {
            assert(s[0] == before[0]);
        }
        assert(s.drop_first() =~= before.drop_first() + text + after);
        law_trim_finds_the_text(before.drop_first(), text, after);
    } else if text.len() == 0 {
        assert(s =~= after);
        lemma_blank_is_cut(after);
    } else {
        assert(s[0] == text[0]);
        assert(trim_front(s) == s);
        lemma_trim_back_stops_at(text, after);
        assert(s =~= text + after);
    }
}

proof fn lemma_blank_is_cut(s: Seq<char>)
    requires
        blank(s),
    ensures
        trim_front(s) == Seq::<char>::empty(),
        trimmed(s) == Seq::<char>::empty(),
    decreases s.len(),
{
    if s.len() > 0 {
        assert(white_space(s[0]));
        lemma_blank_is_cut(s.drop_first());
    } else {
        assert(s =~= Seq::<char>::empty());
    }
}

proof fn lemma_trim_back_stops_at(text: Seq<char>, after: Seq<char>)
    requires
        blank(after),
        text.len() > 0,
        !white_space(text.last()),
    ensures
        trim_back(text + after) == text,
    decreases after.len(),
{
    let s = text + after;
    if after.len() > 0 {
        assert(s.last() == after[after.len() - 1]);
        assert(s.drop_last() =~= text + after.drop_last());
        lemma_trim_back_stops_at(text, after.drop_last());
    } else {
        assert(s =~= text);
    }
}

/// An empty text has no lines. A text without a line feed is one line. What stands
/// before the first line feed, or before a carriage return and the first line
/// feed, is the first line, and what follows has the other lines.
pub proof fn law_lines_split(row: Seq<char>, rest: Seq<char>)
    requires
        forall|i: int| 0 <= i < row.len() ==> #[trigger] row[i] != '\n',
    ensures
        lines(Seq::<char>::empty()) == Seq::<Seq<char>>::empty(),
        row.len() > 0 ==> lines(row) == seq![row],
        row.len() == 0 || row.last() != '\r' ==> lines(row + seq!['\n'] + rest) == seq![row]
            + lines(rest),
        lines(row + seq!['\r', '\n'] + rest) == seq![row] + lines(rest),
{
    if row.len() > 0 {
        lemma_feed_position(row, row.len() as int);
    }
    lemma_first_line(row, rest);
    let returned = row.push('\r');
    assert forall|i: int| 0 <= i < returned.len() implies #[trigger] returned[i] != '\n' by {
        if i < row.len() {
            assert(returned[i] == row[i]);
        }
    }
    lemma_first_line(returned, rest);
    assert(returned + seq!['\n'] + rest =~= row + seq!['\r', '\n'] + rest);
    assert(returned.drop_last() =~= row);
}

proof fn lemma_first_line(row: Seq<char>, rest: Seq<char>)
    requires
        forall|i: int| 0 <= i < row.len() ==> #[trigger] row[i] != '\n',
    ensures
        lines(row + seq!['\n'] + rest) == seq![without_return(row)] + lines(rest),
{
    let s = row + seq!['\n'] + rest;
    let at = row.len() as int;
    assert forall|j: int| 0 <= j < at implies s[j] != '\n' by {
        assert(s[j] == row[j]);
    }
    lemma_feed_position(s, at);
    assert(s.take(at) =~= row);
    assert(s.skip(at + 1) =~= rest);
}

/// No lines joined are the empty text, one line joined is the line, and joined
/// lines are joined with joined lines by a line feed.
pub proof fn law_join_of_parts(row: Seq<char>, a: Seq<Seq<char>>, b: Seq<Seq<char>>)
    requires
        a.len() > 0,
        b.len() > 0,
    ensures
        join_lines(Seq::<Seq<char>>::empty()) == Seq::<char>::empty(),
        join_lines(seq![row]) == row,
        join_lines(a + b) == join_lines(a) + seq!['\n'] + join_lines(b),
    decreases b.len(),
{
    let whole = a + b;
    assert(whole.last() == b.last());
    if b.len() == 1 {
        assert(whole.drop_last() =~= a);
        assert(join_lines(whole) =~= join_lines(a) + seq!['\n'] + join_lines(b));
    } else {
        law_join_of_parts(row, a, b.drop_last());
        assert(whole.drop_last() =~= a + b.drop_last());
        assert(join_lines(whole) =~= join_lines(a) + seq!['\n'] + join_lines(b));
    }
}

/// The tail is made of as many of the last lines as are asked for and there are:
/// no line is left out and none is added.
pub proof fn law_tail_is_made_of_the_last_lines(s: Seq<char>, max: nat)
    ensures
        lines(s).len() >= max ==> tail_text(s, max) == join_lines(
            Seq::new(max, |i: int| lines(s)[lines(s).len() - max + i]),
        ),
        lines(s).len() < max ==> tail_text(s, max) == join_lines(
            Seq::new(lines(s).len(), |i: int| lines(s)[i]),
        ),
{
    let n = lines(s).len();
    if n >= max {
        assert(last_rows(lines(s), max) =~= Seq::new(max, |i: int| lines(s)[n - max + i]));
    } else {
        assert(last_rows(lines(s), max) =~= Seq::new(n, |i: int| lines(s)[i]));
    }
}

/// Asking for one line more puts the line before the tail in front of it, as long
/// as there is one; no line asked for is the empty text.
pub proof fn law_tail_grows_by_a_line(s: Seq<char>, max: nat)
    ensures
        tail_text(s, 0) == Seq::<char>::empty(),
        0 == max && max < lines(s).len() ==> tail_text(s, max + 1) == lines(s).last(),
        0 < max < lines(s).len() ==> tail_text(s, max + 1) == lines(s)[lines(s).len() - max - 1]
            + seq!['\n'] + tail_text(s, max),
        max >= lines(s).len() ==> tail_text(s, max + 1) == tail_text(s, max),
{
    let rows = lines(s);
    let n = rows.len() as int;
    assert(last_rows(rows, 0) =~= Seq::<Seq<char>>::empty());
    if max < n {
        let row = rows[n - max - 1];
        let some = last_rows(rows, max);
        let more = last_rows(rows, max + 1);
        assert(more =~= seq![row] + some);
        if max > 0 {
            law_join_of_parts(row, seq![row], some);
        } else {
            assert(more =~= seq![row]);
        }
    }
}

} // verus!
