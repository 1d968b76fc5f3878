//! Laws of texts: numbers, prefixes, words, lines and base58.

use crate::auth::base58;
use crate::text;
use vstd::prelude::*;
use vstd::string::*;

verus! {

/// Law: numbers are written in decimal. A number below ten is one digit, the characters `0` to
/// `9` standing for it in this order; any other is its tenth followed by its last digit.
pub proof fn numbers_are_written_in_decimal(n: nat, d: nat)
    requires
        d < 10,
    ensures
        text::decimal(d).len() == 1,
        text::decimal(d)[0] as int == 48 + d,
        n > 0 ==> text::decimal(n * 10 + d) == text::decimal(n) + text::decimal(d),
{
    assert((n * 10 + d) / 10 == n);
    assert((n * 10 + d) % 10 == d);
    if n > 0 {
        assert(text::decimal(n * 10 + d) =~= text::decimal(n) + text::decimal(d));
    }
}

/// Law: what is written of a number is its decimal form.
pub proof fn numbers_become_texts(n: u64, r: String)
    requires
        call_ensures(text::decimal_string, (n,), r),
    ensures
        r@ == text::decimal(n as nat),
{
}

/// The number that a text denotes if each of its characters is a digit, the last one counting
/// once and each other ten times what its right neighbour counts.
pub open spec fn number_of(s: Seq<char>) -> int
    decreases s.len(),
{
    if s.len() == 0 {
        0
    } else {
        number_of(s.drop_last()) * 10 + (s.last() as int - 48)
    }
}

/// Whether a text consists of digits, of which there are some.
pub open spec fn is_number(s: Seq<char>) -> bool {
    s.len() > 0 && forall|i: int| 0 <= i < s.len() ==> 48 <= (#[trigger] s[i]) as int <= 57
}

proof fn lemma_number_of(s: Seq<char>)
    requires
        forall|i: int| 0 <= i < s.len() ==> 48 <= (#[trigger] s[i]) as int <= 57,
    ensures
        number_of(s) == text::digits_value(s),
    decreases s.len(),
{
    if s.len() > 0 {
        assert forall|i: int| 0 <= i < s.drop_last().len() implies 48 <= (
        #[trigger] s.drop_last()[i]) as int <= 57 by {
            assert(s.drop_last()[i] == s[i]);
        }
        lemma_number_of(s.drop_last());
        assert(48 <= s[s.len() - 1] as int);
    }
}

/// Law: the number that a text denotes is that of its digits; a plus sign in front of them does
/// not count, and nothing else may stand in it.
pub proof fn texts_denote_numbers(s: Seq<char>)
    ensures
        is_number(s) ==> text::unsigned_value(s) == Some(number_of(s) as nat),
        is_number(s) ==> text::unsigned_value(seq!['+'] + s) == Some(number_of(s) as nat),
        !is_number(s) && (s.len() > 0 ==> s[0] != '+') ==> text::unsigned_value(s) is None,
        !is_number(s) ==> text::unsigned_value(seq!['+'] + s) is None,
        is_number(s) ==> number_of(s) >= 0,
{
    let plus = seq!['+'] + s;
    assert(plus.skip(1) =~= s);
    if is_number(s) {
        assert(s[0] as int >= 48);
        lemma_number_of(s);
    }
}

/// Law: a text is read as a number of a type exactly if it denotes one that fits.
pub proof fn numbers_are_read_if_they_fit(s: &str, r: Option<u64>, q: Option<u16>)
    requires
        call_ensures(text::parse_u64, (s,), r),
        call_ensures(text::parse_u16, (s,), q),
    ensures
        match text::unsigned_value(s@) {
            Some(n) => {
                &&& n <= 0xffff_ffff_ffff_ffff <==> r is Some
                &&& r is Some ==> r->0 == n
                &&& n <= 65535 <==> q is Some
                &&& q is Some ==> q->0 == n
            },
            None => r is None && q is None,
        },
{
}

/// Law: a text starts with another exactly if it is that text and then something.
pub proof fn prefixes_come_first(s: &str, prefix: &str, r: bool)
    requires
        call_ensures(text::starts_with, (s, prefix), r),
    ensures
        r <==> exists|rest: Seq<char>| s@ == #[trigger] (prefix@ + rest),
{
    if r {
        assert(s@ =~= prefix@ + s@.skip(prefix@.len() as int));
    }
    if exists|rest: Seq<char>| s@ == #[trigger] (prefix@ + rest) {
        let rest = choose|rest: Seq<char>| s@ == #[trigger] (prefix@ + rest);
        assert(s@.take(prefix@.len() as int) =~= prefix@);
    }
}

/// Law: two texts are the same exactly if they have the same characters.
pub proof fn same_texts_agree(a: &str, b: &str, r: bool)
    requires
        call_ensures(text::same_text, (a, b), r),
    ensures
        r <==> a@.len() == b@.len() && forall|i: int| 0 <= i < a@.len() ==> a@[i] == b@[i],
{
    if a@.len() == b@.len() && forall|i: int| 0 <= i < a@.len() ==> a@[i] == b@[i] {
        assert(a@ =~= b@);
    }
}

proof fn lemma_trimmed(s: Seq<char>, c: char)
    ensures
        text::trim_end(s, c).len() <= s.len(),
        text::trim_end(s, c) == s.take(text::trim_end(s, c).len() as int),
        forall|i: int| text::trim_end(s, c).len() <= i < s.len() ==> s[i] == c,
        text::trim_end(s, c).len() > 0 ==> text::trim_end(s, c).last() != c,
    decreases s.len(),
{
    if s.len() > 0 && s.last() == c {
        lemma_trimmed(s.drop_last(), c);
        let t = text::trim_end(s, c);
        assert(s.drop_last().take(t.len() as int) =~= s.take(t.len() as int));
        assert forall|i: int| t.len() <= i < s.len() implies s[i] == c by {
            if i < s.len() - 1 {
                assert(s.drop_last()[i] == s[i]);
            }
        }
    } else {
        assert(s.take(s.len() as int) =~= s);
    }
}

/// Law: trimming takes off the run of a character at the end, all of it and nothing else.
pub proof fn trimming_takes_off_the_run_at_the_end(s: &str, c: char, r: &str)
    requires
        call_ensures(text::trim_end_matches, (s, c), r),
    ensures
        r@.len() <= s@.len(),
        forall|i: int| 0 <= i < r@.len() ==> r@[i] == s@[i],
        forall|i: int| r@.len() <= i < s@.len() ==> s@[i] == c,
        r@.len() > 0 ==> r@[r@.len() - 1] != c,
{
    lemma_trimmed(s@, c);
}

/// Law: white space is what Unicode calls so.
pub proof fn white_space_is_that_of_unicode(c: char)
    ensures
        text::is_space(c) <==> {
            let n = c as int;
            ||| 9 <= n <= 13
            ||| n == 32
            ||| n == 133
            ||| n == 160
            ||| n == 5760
            ||| 8192 <= n <= 8202
            ||| n == 8232
            ||| n == 8233
            ||| n == 8239
            ||| n == 8287
            ||| n == 12288
        },
{
}

/// Whether all characters of a text are white space.
pub open spec fn is_blank(s: Seq<char>) -> bool {
    forall|i: int| 0 <= i < s.len() ==> text::is_space(#[trigger] s[i])
}

/// Whether a text is one word: some characters, none of them white space.
pub open spec fn is_word(s: Seq<char>) -> bool {
    s.len() > 0 && forall|i: int| 0 <= i < s.len() ==> !text::is_space(#[trigger] s[i])
}

proof fn lemma_leading_spaces(blank: Seq<char>, rest: Seq<char>)
    requires
        is_blank(blank),
        rest.len() > 0 ==> !text::is_space(rest[0]),
    ensures
        text::leading_spaces(blank + rest) == blank.len(),
    decreases blank.len(),
{
    let s = blank + rest;
    if blank.len() > 0 {
        assert(s[0] == blank[0]);
        assert(s.skip(1) =~= blank.skip(1) + rest);
        assert forall|i: int| 0 <= i < blank.skip(1).len() implies text::is_space(
            #[trigger] blank.skip(1)[i],
        ) by {
            assert(blank.skip(1)[i] == blank[i + 1]);
        }
        lemma_leading_spaces(blank.skip(1), rest);
    } else {
        assert(s =~= rest);
    }
}

proof fn lemma_leading_word(w: Seq<char>, rest: Seq<char>)
    requires
        forall|i: int| 0 <= i < w.len() ==> !text::is_space(#[trigger] w[i]),
        rest.len() > 0 ==> text::is_space(rest[0]),
    ensures
        text::leading_word(w + rest) == w.len(),
    decreases w.len(),
{
    let s = w + rest;
    if w.len() > 0 {
        assert(s[0] == w[0]);
        assert(s.skip(1) =~= w.skip(1) + rest);
        assert forall|i: int| 0 <= i < w.skip(1).len() implies !text::is_space(
            #[trigger] w.skip(1)[i],
        ) by {
            assert(w.skip(1)[i] == w[i + 1]);
        }
        lemma_leading_word(w.skip(1), rest);
    } else {
        assert(s =~= rest);
    }
}

/// Law: a text that is blank has no words. Any other is, behind its leading white space, a word
/// and a rest that is empty or starts with white space: that word is its first, and the words of
/// the rest are its others.
pub proof fn words_stand_between_white_space(
    blank: Seq<char>,
    w: Seq<char>,
    rest: Seq<char>,
    n: nat,
)
    requires
        is_blank(blank),
        is_word(w),
        rest.len() > 0 ==> text::is_space(rest[0]),
    ensures
        text::word(blank, n) is None,
        text::word(blank + w + rest, 0) == Some(w),
        text::word(blank + w + rest, n + 1) == text::word(rest, n),
{
    lemma_leading_spaces(blank, Seq::empty());
    assert(blank + Seq::<char>::empty() =~= blank);
    assert(blank.skip(blank.len() as int).len() == 0);
    let s = blank + w + rest;
    assert(s =~= blank + (w + rest));
    assert((w + rest)[0] == w[0]);
    lemma_leading_spaces(blank, w + rest);
    assert(s.skip(blank.len() as int) =~= w + rest);
    lemma_leading_word(w, rest);
    assert((w + rest).take(w.len() as int) =~= w);
    assert((w + rest).skip(w.len() as int) =~= rest);
}

/// Law: the words of a text are handed out by their number.
pub proof fn words_are_found_by_number(s: &str, n: usize, r: Option<&str>)
    requires
        call_ensures(text::nth_word, (s, n), r),
    ensures
        match r {
            Some(w) => text::word(s@, n as nat) == Some(w@),
            None => text::word(s@, n as nat) is None,
        },
{
}

proof fn lemma_before_line_feed_of(line: Seq<char>, rest: Seq<char>)
    requires
        !line.contains('\n'),
        rest.len() > 0 ==> rest[0] == '\n',
    ensures
        text::before_line_feed(line + rest) == line.len(),
    decreases line.len(),
{
    let s = line + rest;
    if line.len() > 0 {
        assert(s[0] == line[0]);
        assert(line.contains(line[0]));
        assert(s.skip(1) =~= line.skip(1) + rest);
        assert(!line.skip(1).contains('\n')) by {
            if line.skip(1).contains('\n') {
                let i = choose|i: int| 0 <= i < line.skip(1).len() && line.skip(1)[i] == '\n';
                assert(line[i + 1] == '\n');
            }
        }
        lemma_before_line_feed_of(line.skip(1), rest);
    } else {
        assert(s =~= rest);
    }
}

/// Law: lines end in a line feed, which is no part of them, nor is one carriage return before
/// it. The first line of a text and the lines of what follows it are the lines of the text; what
/// stands behind the last line feed is a line only if there is something.
pub proof fn lines_end_in_line_feeds(line: Seq<char>, rest: Seq<char>)
    requires
        !line.contains('\n'),
    ensures
        text::lines_of(Seq::empty()) == Seq::<Seq<char>>::empty(),
        line.len() > 0 ==> text::lines_of(line) == seq![line],
        (line.len() > 0 ==> line.last() != '\r') ==> text::lines_of(line + seq!['\n'] + rest)
            == seq![line] + text::lines_of(rest),
        text::lines_of(line + seq!['\r', '\n'] + rest) == seq![line] + text::lines_of(rest),
{
    lemma_before_line_feed_of(line, Seq::empty());
    assert(line + Seq::<char>::empty() =~= line);
    if line.len() > 0 {
        assert(text::first_line(line) =~= line);
        assert(text::other_lines(line) =~= Seq::<char>::empty());
        assert(text::lines_of(Seq::empty()) =~= Seq::<Seq<char>>::empty());
        assert(text::lines_of(line) =~= seq![line]);
    }
    let s = line + seq!['\n'] + rest;
    assert(s =~= line + (seq!['\n'] + rest));
    lemma_before_line_feed_of(line, seq!['\n'] + rest);
    if line.len() > 0 ==> line.last() != '\r' {
        assert(text::first_line(s) =~= line);
        assert(text::other_lines(s) =~= rest);
    }
    let l = line.push('\r');
    let t = line + seq!['\r', '\n'] + rest;
    assert(!l.contains('\n')) by {
        if l.contains('\n') {
            let i = choose|i: int| 0 <= i < l.len() && l[i] == '\n';
            assert(i < line.len());
            assert(line[i] == '\n');
        }
    }
    assert(t =~= l + (seq!['\n'] + rest));
    lemma_before_line_feed_of(l, seq!['\n'] + rest);
    assert(text::first_line(t) =~= line);
    assert(text::other_lines(t) =~= rest);
}

/// Law: the lines of a text are handed out in order, all of them.
pub proof fn lines_come_in_order(s: &str, r: Vec<&str>)
    requires
        call_ensures(text::lines, (s,), r),
    ensures
        r@.len() == text::lines_of(s@).len(),
        forall|i: int| 0 <= i < r@.len() ==> (#[trigger] r@[i])@ == text::lines_of(s@)[i],
{
    assert forall|i: int| 0 <= i < r@.len() implies (#[trigger] r@[i])@ == text::lines_of(
        s@,
    )[i] by {
        assert(text::texts(r@)[i] == r@[i]@);
    }
}

/// Law: the digits of base58 are the 58 characters of the Bitcoin alphabet, in its order.
pub proof fn base58_has_the_bitcoin_alphabet(d: nat)
    requires
        d < 58,
    ensures
        base58::base58_char(d)
            == "123456789ABCDEFGHJKLMNPQRSTUVWXYZabcdefghijkmnopqrstuvwxyz"@[d as int],
{
    reveal_strlit("123456789ABCDEFGHJKLMNPQRSTUVWXYZabcdefghijkmnopqrstuvwxyz");
}

proof fn lemma_zeros_in_front(bytes: Seq<u8>)
    ensures
        base58::big_endian(seq![0u8] + bytes) == base58::big_endian(bytes),
    decreases bytes.len(),
{
    let s = seq![0u8] + bytes;
    if bytes.len() == 0 {
        assert(s.drop_last() =~= Seq::<u8>::empty());
        assert(base58::big_endian(s.drop_last()) == 0);
    } else {
        assert(s.drop_last() =~= seq![0u8] + bytes.drop_last());
        lemma_zeros_in_front(bytes.drop_last());
    }
}

/// Law: base58 writes bytes as one number. The number is what the bytes are in base 256, and is
/// written with one digit more whenever it is 58 times as large and a digit; each zero byte in
/// front is a digit `1` in front.
pub proof fn base58_writes_bytes_as_a_number(bytes: Seq<u8>, byte: u8, n: nat, d: nat)
    requires
        d < 58,
        n * 58 + d > 0,
    ensures
        base58::big_endian(bytes.push(byte)) == base58::big_endian(bytes) * 256 + byte,
        base58::big_endian(Seq::empty()) == 0,
        base58::base58_digits(n * 58 + d) == base58::base58_digits(n).push(base58::base58_char(d)),
        base58::base58_digits(0).len() == 0,
        base58::base58(seq![0u8] + bytes) == seq!['1'] + base58::base58(bytes),
        bytes.len() == 0 || bytes[0] != 0 ==> base58::base58(bytes) == base58::base58_digits(
            base58::big_endian(bytes),
        ),
{
    assert(bytes.push(byte).drop_last() =~= bytes);
    assert((n * 58 + d) / 58 == n);
    assert((n * 58 + d) % 58 == d);
    let s = seq![0u8] + bytes;
    assert(s.skip(1) =~= bytes);
    lemma_zeros_in_front(bytes);
    assert(base58::base58_char(0) == '1');
    assert(base58::base58(s) =~= seq!['1'] + base58::base58(bytes));
    if bytes.len() == 0 || bytes[0] != 0 {
        assert(base58::base58(bytes) =~= base58::base58_digits(base58::big_endian(bytes)));
    }
}

} // verus!
