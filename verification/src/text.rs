//! Character-level helpers on strings: comparison, suffixes, splitting on a
//! separator and decimal rendering.

use vstd::prelude::*;

verus! {

/// `suffix` ends `s`.
pub open spec fn is_suffix(s: Seq<char>, suffix: Seq<char>) -> bool {
    s.len() >= suffix.len() && s.subrange(s.len() - suffix.len(), s.len() as int) == suffix
}

/// Index of the first `sep` in `s`, or `s.len()` when there is none.
pub open spec fn first_sep(s: Seq<char>, sep: char) -> int
    decreases s.len(),
{
    if s.len() == 0 || s[0] == sep {
        0
    } else {
        1 + first_sep(s.drop_first(), sep)
    }
}

/// The pieces of `s` between occurrences of `sep`, in order. A string without
/// `sep` is one piece; a trailing `sep` leaves an empty last piece.
pub open spec fn split_on(s: Seq<char>, sep: char) -> Seq<Seq<char>>
    decreases s.len(),
{
    let k = first_sep(s, sep);
    if 0 <= k < s.len() {
        seq![s.take(k)] + split_on(s.skip(k + 1), sep)
    } else {
        seq![s]
    }
}

/// The views of a sequence of strings.
pub open spec fn views(v: Seq<String>) -> Seq<Seq<char>> {
    Seq::new(v.len(), |i: int| v[i]@)
}

/// The character for a single decimal digit.
pub open spec fn digit_char(d: nat) -> char {
    if d == 0 {
        '0'
    } else if d == 1 {
        '1'
    } else if d == 2 {
        '2'
    } else if d == 3 {
        '3'
    } else if d == 4 {
        '4'
    } else if d == 5 {
        '5'
    } else if d == 6 {
        '6'
    } else if d == 7 {
        '7'
    } else if d == 8 {
        '8'
    } else {
        '9'
    }
}

/// The decimal digits of `n`, most significant first, without leading zeros.
pub open spec fn decimal(n: nat) -> Seq<char>
    decreases n,
{
    if n < 10 {
        seq![digit_char(n)]
    } else {
        decimal(n / 10).push(digit_char(n % 10))
    }
}

/// When no character before `k` is `sep`, the first separator is at `k` if
/// `s[k]` is one, and is past the end if `k` is the end.
pub proof fn lemma_first_sep_at(s: Seq<char>, sep: char, k: int)
    requires
        0 <= k <= s.len(),
        forall|j: int| 0 <= j < k ==> s[j] != sep,
        k < s.len() ==> s[k] == sep,
    ensures
        first_sep(s, sep) == k,
    decreases k,
{
    if k > 0 {
        let t = s.drop_first();
        assert forall|j: int| 0 <= j < k - 1 implies t[j] != sep by {
            assert(t[j] == s[j + 1]);
        }
        lemma_first_sep_at(t, sep, k - 1);
    }
}

/// Whether two strings hold the same characters.
pub fn str_equal(a: &str, b: &str) -> (r: bool)
    ensures
        r == (a@ == b@),
{
    let n: usize = a.unicode_len();
    if n != b.unicode_len() {
        return false;
    }
    let mut i: usize = 0;
    while i < n
        invariant
            n == a@.len(),
            n == b@.len(),
            i <= n,
            forall|j: int| 0 <= j < i ==> a@[j] == b@[j],
        decreases n - i,
    {
        if a.get_char(i) != b.get_char(i) {
            return false;
        }
        i = i + 1;
    }
    assert(a@ =~= b@);
    true
}

/// What precedes `suffix` in `s`, when `s` ends in `suffix`.
pub fn strip_suffix<'a>(s: &'a str, suffix: &str) -> (r: Option<&'a str>)
    ensures
        r.is_some() == is_suffix(s@, suffix@),
        r.is_some() ==> r.unwrap()@ == s@.take(s@.len() - suffix@.len()),
{
    let n: usize = s.unicode_len();
    let m: usize = suffix.unicode_len();
    if n < m {
        return None;
    }
    let cut: usize = n - m;
    let tail = s.substring_char(cut, n);
    if str_equal(tail, suffix) {
        Some(s.substring_char(0, cut))
    } else {
        None
    }
}

/// Splits `s` at every `sep`.
pub fn split_fields(s: &str, sep: char) -> (out: Vec<String>)
    ensures
        views(out@) == split_on(s@, sep),
{
    let n: usize = s.unicode_len();
    let mut out: Vec<String> = Vec::new();
    let mut start: usize = 0;
    let mut i: usize = 0;
    proof {
        assert(s@.skip(0) =~= s@);
        assert(views(out@) + split_on(s@, sep) =~= split_on(s@, sep));
    }
    while i < n
        invariant
            n == s@.len(),
            start <= i <= n,
            forall|j: int| start <= j < i ==> s@[j] != sep,
            split_on(s@, sep) == views(out@) + split_on(s@.skip(start as int), sep),
        decreases n - i,
    {
        if s.get_char(i) == sep {
            let piece = String::from_str(s.substring_char(start, i));
            proof {
                let rest = s@.skip(start as int);
                let k = i - start;
                assert forall|j: int| 0 <= j < k implies rest[j] != sep by {
                    assert(rest[j] == s@[start + j]);
                }
                lemma_first_sep_at(rest, sep, k);
                assert(rest.take(k) =~= s@.subrange(start as int, i as int));
                assert(rest.skip(k + 1) =~= s@.skip(i + 1));
                assert(views(out@.push(piece)) =~= views(out@) + seq![piece@]);
                assert(views(out@) + (seq![piece@] + split_on(s@.skip(i + 1), sep)) =~= (views(
                    out@,
                ) + seq![piece@]) + split_on(s@.skip(i + 1), sep));
            }
            out.push(piece);
            start = i + 1;
        }
        i = i + 1;
    }
    let last = String::from_str(s.substring_char(start, n));
    proof {
        let rest = s@.skip(start as int);
        assert forall|j: int| 0 <= j < rest.len() implies rest[j] != sep by {
            assert(rest[j] == s@[start + j]);
        }
        lemma_first_sep_at(rest, sep, rest.len() as int);
        assert(rest =~= s@.subrange(start as int, n as int));
        assert(views(out@.push(last)) =~= views(out@) + seq![last@]);
    }
    out.push(last);
    out
}

/// The one-character string for a decimal digit.
pub fn digit_str(d: u32) -> (r: &'static str)
    requires
        d < 10,
    ensures
        r@ == seq![digit_char(d as nat)],
{
    proof {
        reveal_strlit("0");
        reveal_strlit("1");
        reveal_strlit("2");
        reveal_strlit("3");
        reveal_strlit("4");
        reveal_strlit("5");
        reveal_strlit("6");
        reveal_strlit("7");
        reveal_strlit("8");
        reveal_strlit("9");
    }
    let r = if d == 0 {
        "0"
    } else if d == 1 {
        "1"
    } else if d == 2 {
        "2"
    } else if d == 3 {
        "3"
    } else if d == 4 {
        "4"
    } else if d == 5 {
        "5"
    } else if d == 6 {
        "6"
    } else if d == 7 {
        "7"
    } else if d == 8 {
        "8"
    } else {
        "9"
    };
    assert(r@ =~= seq![digit_char(d as nat)]);
    r
}

/// Appends the decimal digits of `n` to `out`.
pub fn push_decimal(out: &mut String, n: u32)
    ensures
        final(out)@ == old(out)@ + decimal(n as nat),
    decreases n,
{
    if n >= 10 {
        push_decimal(out, n / 10);
    }
    out.append(digit_str(n % 10));
    proof {
        if n >= 10 {
            assert(old(out)@ + decimal((n / 10) as nat) + seq![digit_char((n % 10) as nat)] =~= old(
                out,
            )@ + decimal(n as nat));
        }
    }
}

/// The pieces put together again, with `sep` between neighbours.
pub open spec fn join_with(pieces: Seq<Seq<char>>, sep: char) -> Seq<char>
    decreases pieces.len(),
{
    if pieces.len() == 0 {
        Seq::empty()
    } else if pieces.len() == 1 {
        pieces[0]
    } else {
        pieces[0] + seq![sep] + join_with(pieces.drop_first(), sep)
    }
}

/// How often `sep` occurs in `s`.
pub open spec fn count_sep(s: Seq<char>, sep: char) -> nat
    decreases s.len(),
{
    if s.len() == 0 {
        0
    } else {
        count_sep(s.drop_last(), sep) + if s.last() == sep {
            1nat
        } else {
            0nat
        }
    }
}

/// The number that a sequence of decimal digits spells.
pub open spec fn number_of(digits: Seq<char>) -> nat
    decreases digits.len(),
{
    if digits.len() == 0 {
        0
    } else {
        number_of(digits.drop_last()) * 10 + digit_value(digits.last())
    }
}

/// The value of a decimal digit, and zero for any other character.
pub open spec fn digit_value(c: char) -> nat {
    if c == '1' {
        1
    } else if c == '2' {
        2
    } else if c == '3' {
        3
    } else if c == '4' {
        4
    } else if c == '5' {
        5
    } else if c == '6' {
        6
    } else if c == '7' {
        7
    } else if c == '8' {
        8
    } else if c == '9' {
        9
    } else {
        0
    }
}

/// `first_sep` is where the first separator stands: within the string, with
/// no separator before it, and with one at it unless it is the end.
pub proof fn lemma_first_sep_is_first(s: Seq<char>, sep: char)
    ensures
        0 <= first_sep(s, sep) <= s.len(),
        forall|j: int| 0 <= j < first_sep(s, sep) ==> s[j] != sep,
        first_sep(s, sep) < s.len() ==> s[first_sep(s, sep)] == sep,
    decreases s.len(),
{
    if s.len() != 0 && s[0] != sep {
        let t = s.drop_first();
        lemma_first_sep_is_first(t, sep);
        assert forall|j: int| 0 <= j < first_sep(s, sep) implies s[j] != sep by {
            if j > 0 {
                assert(s[j] == t[j - 1]);
            }
        }
        if first_sep(s, sep) < s.len() {
            assert(s[first_sep(s, sep)] == t[first_sep(t, sep)]);
        }
    }
}

/// Counting goes piece by piece: the separators of two strings in a row are
/// those of the one and those of the other.
pub proof fn lemma_count_sep_concat(a: Seq<char>, b: Seq<char>, sep: char)
    ensures
        count_sep(a + b, sep) == count_sep(a, sep) + count_sep(b, sep),
    decreases b.len(),
{
    if b.len() == 0 {
        assert(a + b =~= a);
    } else {
        lemma_count_sep_concat(a, b.drop_last(), sep);
        assert((a + b).drop_last() =~= a + b.drop_last());
        assert((a + b).last() == b.last());
    }
}

/// A string that holds no separator counts none.
pub proof fn lemma_count_sep_none(s: Seq<char>, sep: char)
    requires
        forall|j: int| 0 <= j < s.len() ==> s[j] != sep,
    ensures
        count_sep(s, sep) == 0,
    decreases s.len(),
{
    if s.len() != 0 {
        lemma_count_sep_none(s.drop_last(), sep);
    }
}

/// Splitting loses nothing and invents nothing: there is one piece more than
/// there are separators, no piece holds a separator, and the pieces joined
/// by the separator are the string again.
pub proof fn lemma_split_on_is_exact(s: Seq<char>, sep: char)
    ensures
        split_on(s, sep).len() == count_sep(s, sep) + 1,
        forall|i: int, j: int|
            0 <= i < split_on(s, sep).len() && 0 <= j < split_on(s, sep)[i].len() ==> split_on(
                s,
                sep,
            )[i][j] != sep,
        join_with(split_on(s, sep), sep) == s,
    decreases s.len(),
{
    let k = first_sep(s, sep);
    lemma_first_sep_is_first(s, sep);
    if 0 <= k < s.len() {
        let head = s.take(k);
        let tail = s.skip(k + 1);
        let rest = split_on(tail, sep);
        let pieces = split_on(s, sep);
        lemma_split_on_is_exact(tail, sep);
        assert(pieces == seq![head] + rest);
        assert(pieces[0] == head);
        assert(pieces.drop_first() =~= rest);
        assert(s =~= head + seq![sep] + tail);
        lemma_count_sep_none(head, sep);
        lemma_count_sep_concat(head, seq![sep], sep);
        lemma_count_sep_concat(head + seq![sep], tail, sep);
        assert(seq![sep].drop_last() =~= Seq::<char>::empty());
        assert(count_sep(seq![sep].drop_last(), sep) == 0);
        assert(seq![sep].last() == sep);
        assert(count_sep(seq![sep], sep) == 1);
        assert forall|i: int, j: int|
            0 <= i < pieces.len() && 0 <= j < pieces[i].len() implies pieces[i][j] != sep by {
            if i > 0 {
                assert(pieces[i] == rest[i - 1]);
            }
        }
    } else {
        lemma_count_sep_none(s, sep);
    }
}

/// The digits that `decimal` writes spell the number: reading them gives it
/// back, each of them is a digit, and the first is no zero unless the number
/// is zero.
pub proof fn lemma_decimal_spells_the_number(n: nat)
    ensures
        number_of(decimal(n)) == n,
        decimal(n).len() >= 1,
        forall|i: int|
            0 <= i < decimal(n).len() ==> exists|d: nat| d < 10 && #[trigger] decimal(n)[i] == digit_char(d),
        n > 0 ==> decimal(n)[0] != '0',
    decreases n,
{
    if n < 10 {
        let digits = decimal(n);
        assert(digits.drop_last() =~= Seq::<char>::empty());
        assert(number_of(digits.drop_last()) == 0);
        assert(digits.last() == digit_char(n));
        assert(digit_value(digit_char(n)) == n);
        assert(number_of(digits) == n);
        assert(digits[0] == digit_char(n));
    } else {
        lemma_decimal_spells_the_number(n / 10);
        let digits = decimal(n);
        let d = n % 10;
        assert(digits.drop_last() =~= decimal(n / 10));
        assert(number_of(digits.drop_last()) == n / 10);
        assert(digits.last() == digit_char(d));
        assert(digit_value(digit_char(d)) == d);
        assert(number_of(digits) == (n / 10) * 10 + d);
        assert(digits[0] == decimal(n / 10)[0]);
        assert forall|i: int| 0 <= i < digits.len() implies exists|e: nat|
            e < 10 && #[trigger] digits[i] == digit_char(e) by {
            if i < digits.len() - 1 {
                assert(digits[i] == decimal(n / 10)[i]);
            } else {
                assert(digits[i] == digit_char(d));
            }
        }
    }
}

} // verus!
