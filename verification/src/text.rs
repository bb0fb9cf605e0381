//! Text: comparison of string slices, decimal numerals, and the pieces between
//! separators.

use vstd::prelude::*;

verus! {

/// The decimal digit of a number below ten.
pub open spec fn digit_char(d: nat) -> char {
    (48 + d % 10) as char
}

/// The decimal numeral of `n`, without sign or leading zeros.
pub open spec fn decimal(n: nat) -> Seq<char>
    decreases n,
{
    if n < 10 {
        seq![digit_char(n)]
    } else {
        decimal(n / 10).push(digit_char(n % 10))
    }
}

/// Whether two string slices hold the same characters.
pub fn same_text(a: &str, b: &str) -> (res: bool)
    ensures
        res == (a@ == b@),
{
    a.to_string() == b.to_string()
}

/// The one-character string of a decimal digit.
fn digit_text(d: u32) -> (res: &'static str)
    requires
        d < 10,
    ensures
        res@ == seq![digit_char(d as nat)],
{
    proof {
        reveal_strlit("0");
        reveal_strlit("1");
        reveal_strlit("2");
        reveal_strlit("3");
        reveal_strlit("4");
        reveal_strlit("5");
        reveal_strlit("6");
        reveal_strlit("7");
        reveal_strlit("8");
        reveal_strlit("9");
    }
    if d == 0 {
        "0"
    } else if d == 1 {
        "1"
    } else if d == 2 {
        "2"
    } else if d == 3 {
        "3"
    } else if d == 4 {
        "4"
    } else if d == 5 {
        "5"
    } else if d == 6 {
        "6"
    } else if d == 7 {
        "7"
    } else if d == 8 {
        "8"
    } else {
        "9"
    }
}

/// Writes `n` in decimal.
pub fn decimal_text(n: u32) -> (res: String)
    ensures
        res@ == decimal(n as nat),
    decreases n,
{
    if n < 10 {
        digit_text(n).to_string()
    } else {
        let mut text: String = decimal_text(n / 10);
        text.append(digit_text(n % 10));
        assert(text@ =~= decimal(n as nat));
        text
    }
}

/// The pieces of `s` between the separators, in order. There is one more of
/// them than there are separators.
pub open spec fn split(s: Seq<char>, separator: char) -> Seq<Seq<char>>
    decreases s.len(),
{
    if s.contains(separator) {
        let i = s.index_of_first(separator)->0;
        proof {
            s.index_of_first_ensures(separator);
        }
        seq![s.take(i)] + split(s.skip(i + 1), separator)
    } else {
        seq![s]
    }
}

/// Cutting after a separator-free start: the start is the first piece.
pub proof fn lemma_split_cut(head: Seq<char>, separator: char, tail: Seq<char>)
    requires
        !head.contains(separator),
    ensures
        split(head.push(separator) + tail, separator) == seq![head] + split(tail, separator),
{
    let s = head.push(separator) + tail;
    assert(s[head.len() as int] == separator);
    assert(s.contains(separator));
    s.index_of_first_ensures(separator);
    let i = s.index_of_first(separator)->0;
    if i < head.len() {
        assert(head[i] == s[i]);
        assert(head.contains(separator));
    }
    assert(i == head.len());
    assert(s.take(i) =~= head);
    assert(s.skip(i + 1) =~= tail);
}

/// The pieces with the separator between them.
pub open spec fn join(pieces: Seq<Seq<char>>, separator: char) -> Seq<char>
    decreases pieces.len(),
{
    if pieces.len() == 0 {
        Seq::empty()
    } else if pieces.len() == 1 {
        pieces[0]
    } else {
        pieces[0].push(separator) + join(pieces.skip(1), separator)
    }
}

/// How often `c` occurs in `s`.
pub open spec fn occurrences(s: Seq<char>, c: char) -> nat
    decreases s.len(),
{
    if s.len() == 0 {
        0
    } else {
        occurrences(s.skip(1), c) + if s[0] == c {
            1nat
        } else {
            0nat
        }
    }
}

/// Splitting loses nothing: the pieces hold no separator, and joined by it they
/// are the text again. There is one more of them than there are separators.
pub proof fn law_split(s: Seq<char>, separator: char)
    ensures
        join(split(s, separator), separator) == s,
        forall|i: int|
            0 <= i < split(s, separator).len() ==> !(#[trigger] split(s, separator)[i]).contains(
                separator,
            ),
        split(s, separator).len() == occurrences(s, separator) + 1,
    decreases s.len(),
{
    if s.contains(separator) {
        s.index_of_first_ensures(separator);
        let i = s.index_of_first(separator)->0;
        let tail = s.skip(i + 1);
        law_split(tail, separator);
        lemma_occurrences_skip(s, separator, i);
        assert(split(s, separator).skip(1) =~= split(tail, separator));
        assert(s.take(i).push(separator) + tail =~= s);
    } else {
        lemma_occurrences_none(s, separator);
    }
}

/// A text in which `c` does not occur.
proof fn lemma_occurrences_none(s: Seq<char>, c: char)
    requires
        !s.contains(c),
    ensures
        occurrences(s, c) == 0,
    decreases s.len(),
{
    if s.len() > 0 {
        assert(s.contains(s[0]));
        assert forall|k: int| 0 <= k < s.skip(1).len() implies s.skip(1)[k] != c by {
            assert(s.contains(s[k + 1]));
        }
        lemma_occurrences_none(s.skip(1), c);
    }
}

/// Everything up to the first `c` holds one of them.
proof fn lemma_occurrences_skip(s: Seq<char>, c: char, i: int)
    requires
        0 <= i < s.len(),
        s[i] == c,
        forall|k: int| 0 <= k < i ==> s[k] != c,
    ensures
        occurrences(s, c) == occurrences(s.skip(i + 1), c) + 1,
    decreases s.len(),
{
    if i > 0 {
        lemma_occurrences_skip(s.skip(1), c, i - 1);
        assert(s.skip(1).skip(i) =~= s.skip(i + 1));
    }
}

/// A decimal numeral is made of digits, has no leading zero unless it is zero,
/// and read digit by digit it is the number again.
pub proof fn law_decimal(n: nat)
    ensures
        decimal(n).len() > 0,
        forall|i: int|
            0 <= i < decimal(n).len() ==> '0' as int <= (#[trigger] decimal(n)[i]) as int <= '9' as int,
        n > 0 ==> decimal(n)[0] != '0',
        n == 0 ==> decimal(n).len() == 1,
        decimal(n).fold_left(0int, |v: int, c: char| 10 * v + (c as int - '0' as int)) == n,
    decreases n,
{
    let read = |v: int, c: char| 10 * v + (c as int - '0' as int);
    assert(digit_char(n % 10) as int == '0' as int + n % 10);
    if n < 10 {
        assert(n % 10 == n);
        assert(decimal(n).drop_last() =~= Seq::empty());
        assert(decimal(n).drop_last().fold_left(0int, read) == 0);
    } else {
        law_decimal(n / 10);
        assert(decimal(n).drop_last() =~= decimal(n / 10));
        assert((n % 10) % 10 == n % 10);
    }
}

} // verus!
