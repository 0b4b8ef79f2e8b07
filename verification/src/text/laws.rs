//! What characterises the text operations.

use vstd::prelude::*;

verus! {

/// White space is what Unicode's `White_Space` property names, and nothing else.
pub proof fn white_space_is_unicode_white_space(c: char)
    ensures
        super::is_white(c) <==> (c == '\t' || c == '\n' || c == '\u{b}' || c == '\u{c}' || c == '\r'
            || c == ' ' || c == '\u{85}' || c == '\u{a0}' || c == '\u{1680}' || c == '\u{2000}' || c
            == '\u{2001}' || c == '\u{2002}' || c == '\u{2003}' || c == '\u{2004}' || c
            == '\u{2005}' || c == '\u{2006}' || c == '\u{2007}' || c == '\u{2008}' || c
            == '\u{2009}' || c == '\u{200a}' || c == '\u{2028}' || c == '\u{2029}' || c
            == '\u{202f}' || c == '\u{205f}' || c == '\u{3000}'),
{
}

/// The two cases of a letter are each other's, letters keep their place in the
/// alphabet, and a character that is no ASCII letter has no other case.
pub proof fn cases_mirror_each_other(c: char)
    ensures
        'a' <= c <= 'z' ==> super::upper_char(c) as int - 'A' as int == c as int - 'a' as int && super::lower_char(
            super::upper_char(c),
        ) == c && super::lower_char(c) == c,
        'A' <= c <= 'Z' ==> super::lower_char(c) as int - 'a' as int == c as int - 'A' as int && super::upper_char(
            super::lower_char(c),
        ) == c && super::upper_char(c) == c,
        !('a' <= c <= 'z') && !('A' <= c <= 'Z') ==> super::upper_char(c) == c
            && super::lower_char(c) == c,
{
}

/// A change of case works character by character.
pub proof fn case_changes_each_character(s: Seq<char>)
    ensures
        super::upper(s).len() == s.len() && super::lower(s).len() == s.len(),
        forall|i: int|
            0 <= i < s.len() ==> #[trigger] super::upper(s)[i] == super::upper_char(s[i]),
        forall|i: int|
            0 <= i < s.len() ==> #[trigger] super::lower(s)[i] == super::lower_char(s[i]),
{
}

/// A text is what trimming leaves of it, with white space before and behind; what is
/// left neither begins nor ends with white space.
pub proof fn trimming_takes_off_white_space_alone(s: Seq<char>)
    ensures
        exists|a: int, b: int|
            #![trigger s.subrange(a, b)]
            0 <= a <= b <= s.len() && super::trimmed(s) == s.subrange(a, b) && (forall|i: int|
                0 <= i < a ==> super::is_white(#[trigger] s[i])) && (forall|i: int|
                b <= i < s.len() ==> super::is_white(#[trigger] s[i])) && (a < b
                ==> !super::is_white(s[a]) && !super::is_white(s[b - 1])),
{
    super::lemma_front_stops(s);
    let f = super::trim_front(s);
    super::lemma_back_stops(f);
    lemma_back_is_white(f);
    let t = super::trim_back(f);
    let a = s.len() - f.len();
    let b = a + t.len();
    assert(t =~= s.subrange(a, b));
    assert forall|i: int| b <= i < s.len() implies super::is_white(#[trigger] s[i]) by {
        assert(f[i - a] == s[i]);
    }
    if a < b {
        assert(s[a] == t[0]);
        assert(t[0] == f[0]);
        assert(s[b - 1] == t.last());
    }
}

proof fn lemma_back_is_white(s: Seq<char>)
    ensures
        super::trim_back(s).len() <= s.len(),
        forall|k: int| super::trim_back(s).len() <= k < s.len() ==> super::is_white(#[trigger] s[k]),
    decreases s.len(),
{
    if s.len() > 0 && super::is_white(s.last()) {
        lemma_back_is_white(s.drop_last());
        assert forall|k: int| super::trim_back(s).len() <= k < s.len() implies super::is_white(
            #[trigger] s[k],
        ) by {
            if k < s.len() - 1 {
                assert(s.drop_last()[k] == s[k]);
            }
        }
    }
}

/// A text is blank exactly if it has no character that is not white space.
pub proof fn blank_means_no_ink(s: Seq<char>)
    ensures
        super::is_blank(s) <==> !exists|i: int|
            0 <= i < s.len() && !super::is_white(#[trigger] s[i]),
{
}

/// White space separates words: the words of two texts with white space between them
/// are those of the one and those of the other.
pub proof fn white_space_separates_words(a: Seq<char>, w: char, b: Seq<char>)
    requires
        super::is_white(w),
    ensures
        super::word_count(a + seq![w] + b) == super::word_count(a) + super::word_count(b),
    decreases b.len(),
{
    let s = a + seq![w] + b;
    if b.len() == 0 {
        assert(s =~= a + seq![w]);
        lemma_words_of_prefix(a, s, a.len());
        assert(s[a.len() as int] == w);
        assert(super::word_count(b) == 0);
    } else {
        let front = b.drop_last();
        white_space_separates_words(a, w, front);
        let t = a + seq![w] + front;
        assert(s =~= t.push(b.last()));
        lemma_words_of_prefix(t, s, t.len());
        lemma_words_of_prefix(front, b, front.len());
        assert(s[t.len() as int] == b.last());
        if front.len() > 0 {
            assert(s[t.len() - 1] == b[b.len() - 2]);
        } else {
            assert(s[t.len() - 1] == w);
        }
    }
}

proof fn lemma_words_of_prefix(p: Seq<char>, s: Seq<char>, n: nat)
    requires
        n <= p.len() <= s.len(),
        forall|i: int| 0 <= i < p.len() ==> p[i] == s[i],
    ensures
        super::words_before(p, n) == super::words_before(s, n),
    decreases n,
{
    if n > 0 {
        lemma_words_of_prefix(p, s, (n - 1) as nat);
    }
}

/// A text without white space is one word, unless it is empty, and a blank text has
/// none.
pub proof fn a_word_is_a_run_of_ink(s: Seq<char>)
    ensures
        super::is_blank(s) ==> super::word_count(s) == 0,
        s.len() > 0 && (forall|i: int| 0 <= i < s.len() ==> !super::is_white(#[trigger] s[i]))
            ==> super::word_count(s) == 1,
{
    if super::is_blank(s) {
        lemma_blank_words(s, s.len());
    }
    if s.len() > 0 && (forall|i: int| 0 <= i < s.len() ==> !super::is_white(#[trigger] s[i])) {
        lemma_ink_words(s, s.len());
    }
}

proof fn lemma_blank_words(s: Seq<char>, n: nat)
    requires
        n <= s.len(),
        super::is_blank(s),
    ensures
        super::words_before(s, n) == 0,
    decreases n,
{
    if n > 0 {
        lemma_blank_words(s, (n - 1) as nat);
        assert(super::is_white(s[n - 1]));
    }
}

proof fn lemma_ink_words(s: Seq<char>, n: nat)
    requires
        0 < n <= s.len(),
        forall|i: int| 0 <= i < s.len() ==> !super::is_white(#[trigger] s[i]),
    ensures
        super::words_before(s, n) == 1,
    decreases n,
{
    reveal_with_fuel(super::words_before, 2);
    if n > 1 {
        lemma_ink_words(s, (n - 1) as nat);
        assert(!super::is_white(s[n - 2]));
    } else {
        assert(!super::is_white(s[0]));
    }
}

/// The number that a numeral stands for.
pub open spec fn numeral_value(s: Seq<char>) -> int
    decreases s.len(),
{
    if s.len() == 0 {
        0
    } else {
        10 * numeral_value(s.drop_last()) + (s.last() as int - '0' as int)
    }
}

/// Whether a text is made of digits.
pub open spec fn all_digits(s: Seq<char>) -> bool {
    forall|i: int| 0 <= i < s.len() ==> '0' <= (#[trigger] s[i]) <= '9'
}

/// A decimal numeral is made of digits, stands for its number, and has no zero in
/// front but that of zero itself.
pub proof fn decimal_stands_for_its_number(n: nat)
    ensures
        all_digits(super::decimal(n)),
        numeral_value(super::decimal(n)) == n,
        super::decimal(n).len() > 0,
        n > 0 ==> super::decimal(n)[0] != '0',
        n < 10 ==> super::decimal(n).len() == 1,
    decreases n,
{
    if n < 10 {
        let s = super::decimal(n);
        assert(s.drop_last() =~= Seq::<char>::empty());
        assert(numeral_value(s.drop_last()) == 0);
    } else {
        decimal_stands_for_its_number(n / 10);
        let front = super::decimal(n / 10);
        let s = super::decimal(n);
        assert(s.drop_last() =~= front);
        assert(s[0] == front[0]);
        assert forall|i: int| 0 <= i < s.len() implies '0' <= (#[trigger] s[i]) <= '9' by {
            if i < front.len() {
                assert(s[i] == front[i]);
            }
        }
    }
}

/// Zeros in front make a numeral as long as is asked for and no longer, and change
/// nothing else of it.
pub proof fn padding_adds_zeros_in_front(s: Seq<char>, width: nat)
    ensures
        super::zero_padded(s, width).len() == (if s.len() < width {
            width
        } else {
            s.len()
        }),
        super::zero_padded(s, width).skip(super::zero_padded(s, width).len() - s.len()) == s,
        forall|i: int|
            0 <= i < super::zero_padded(s, width).len() - s.len() ==> #[trigger] super::zero_padded(
                s,
                width,
            )[i] == '0',
    decreases width - s.len(),
{
    if s.len() < width {
        let z = seq!['0'] + s;
        padding_adds_zeros_in_front(z, width);
        let p = super::zero_padded(s, width);
        let k = p.len() - z.len();
        assert(p.skip(k) == z);
        assert(p.skip(k + 1) =~= z.skip(1)) by {
            assert(p.skip(k).skip(1) =~= p.skip(k + 1));
        }
        assert(z.skip(1) =~= s);
        assert(p[k] == p.skip(k)[0]);
    } else {
        assert(s.skip(0) =~= s);
    }
}

/// A number in at least `width` characters: the sign where it is negative, and then
/// the numeral of its magnitude with zeros in front.
pub proof fn padded_numbers_keep_their_value(n: int, width: nat)
    ensures
        n >= 0 ==> super::padded_int(n, width).len() >= width && super::padded_int(n, width)
            == super::zero_padded(super::decimal(n as nat), width),
        n < 0 ==> super::padded_int(n, width).len() >= width && super::padded_int(n, width)[0]
            == '-' && super::padded_int(n, width).skip(1) == super::zero_padded(
            super::decimal((-n) as nat),
            if width > 0 {
                (width - 1) as nat
            } else {
                0
            },
        ),
{
    if n >= 0 {
        padding_adds_zeros_in_front(super::decimal(n as nat), width);
    } else {
        let w = if width > 0 {
            (width - 1) as nat
        } else {
            0
        };
        let z = super::zero_padded(super::decimal((-n) as nat), w);
        padding_adds_zeros_in_front(super::decimal((-n) as nat), w);
        assert((seq!['-'] + z).skip(1) =~= z);
    }
}

/// Pieces put together again, with the separator between them, are the text, and none
/// of them holds the separator: so nothing is lost and every separator separates.
pub proof fn pieces_make_up_the_text(s: Seq<char>, sep: char)
    ensures
        super::joined(super::pieces(s, sep), seq![sep]) == s,
        super::pieces(s, sep).len() > 0,
        forall|i: int|
            0 <= i < super::pieces(s, sep).len() ==> !(#[trigger] super::pieces(
                s,
                sep,
            )[i]).contains(sep),
    decreases s.len(),
{
    let list = super::pieces(s, sep);
    if s.len() == 0 {
        assert(list[0] =~= s);
    } else {
        let front = s.drop_last();
        let before = super::pieces(front, sep);
        pieces_make_up_the_text(front, sep);
        if s.last() == sep {
            assert(list == before.push(Seq::<char>::empty()));
            assert(list.drop_last() =~= before);
            assert(super::joined(list, seq![sep]) =~= front + seq![sep] + Seq::<char>::empty());
            assert(s =~= front.push(sep));
        } else {
            let last = before.last().push(s.last());
            assert(list.last() == last);
            assert(list.drop_last() =~= before.drop_last());
            if before.len() == 1 {
                assert(before[0] == front);
                assert(list[0] == last);
            } else {
                assert(super::joined(before, seq![sep]) == super::joined(
                    before.drop_last(),
                    seq![sep],
                ) + seq![sep] + before.last());
                assert(super::joined(list, seq![sep]) =~= super::joined(before, seq![sep]).push(
                    s.last(),
                ));
            }
            assert(s =~= front.push(s.last()));
            assert forall|i: int| 0 <= i < list.len() implies !(#[trigger] list[i]).contains(
                sep,
            ) by {
                if i < before.len() - 1 {
                    assert(list[i] == before[i]);
                } else {
                    let b = before[before.len() - 1];
                    if last.contains(sep) {
                        let k = choose|k: int| 0 <= k < last.len() && last[k] == sep;
                        assert(b[k] == sep);
                    }
                }
            }
        }
    }
}

/// Joining lists one after the other joins what each comes to; one piece alone is
/// itself.
pub proof fn joining_goes_piece_by_piece(
    a: Seq<Seq<char>>,
    b: Seq<Seq<char>>,
    sep: Seq<char>,
    piece: Seq<char>,
)
    requires
        a.len() > 0,
        b.len() > 0,
    ensures
        super::joined(a + b, sep) == super::joined(a, sep) + sep + super::joined(b, sep),
        super::joined(seq![piece], sep) == piece,
        super::joined(Seq::<Seq<char>>::empty(), sep).len() == 0,
    decreases b.len(),
{
    let whole = a + b;
    assert(whole.drop_last() =~= a + b.drop_last());
    assert(whole.last() == b.last());
    if b.len() == 1 {
        assert(a + b.drop_last() =~= a);
        assert(super::joined(b, sep) == b[0]);
    } else {
        joining_goes_piece_by_piece(a, b.drop_last(), sep, piece);
        assert(super::joined(whole, sep) =~= super::joined(a, sep) + sep + super::joined(b, sep));
    }
}

/// What was joined with a separator that no piece holds comes apart into its pieces.
pub proof fn joined_pieces_come_apart(list: Seq<Seq<char>>, sep: char)
    requires
        list.len() > 0,
        forall|i: int| 0 <= i < list.len() ==> !(#[trigger] list[i]).contains(sep),
    ensures
        super::pieces(super::joined(list, seq![sep]), sep) == list,
    decreases list.len(),
{
    if list.len() == 1 {
        lemma_no_separator(list[0], sep);
        assert(list =~= seq![list[0]]);
    } else {
        let front = list.drop_last();
        assert forall|i: int| 0 <= i < front.len() implies !(#[trigger] front[i]).contains(
            sep,
        ) by {
            assert(front[i] == list[i]);
        }
        joined_pieces_come_apart(front, sep);
        let head = super::joined(front, seq![sep]);
        lemma_pieces_behind(head, list.last(), sep);
        assert(list =~= front.push(list.last()));
    }
}

proof fn lemma_no_separator(s: Seq<char>, sep: char)
    requires
        !s.contains(sep),
    ensures
        super::pieces(s, sep) == seq![s],
    decreases s.len(),
{
    if s.len() > 0 {
        assert(s[s.len() - 1] != sep);
        assert(!s.drop_last().contains(sep)) by {
            if s.drop_last().contains(sep) {
                let k = choose|k: int| 0 <= k < s.drop_last().len() && s.drop_last()[k] == sep;
                assert(s[k] == sep);
            }
        }
        lemma_no_separator(s.drop_last(), sep);
        assert(super::pieces(s, sep) =~= seq![s.drop_last().push(s.last())]);
        assert(s.drop_last().push(s.last()) =~= s);
    } else {
        assert(s =~= Seq::<char>::empty());
    }
}

proof fn lemma_pieces_behind(head: Seq<char>, tail: Seq<char>, sep: char)
    requires
        !tail.contains(sep),
    ensures
        super::pieces(head + seq![sep] + tail, sep) == super::pieces(head, sep).push(tail),
    decreases tail.len(),
{
    let s = head + seq![sep] + tail;
    let before = super::pieces(head, sep);
    if tail.len() == 0 {
        assert(s =~= head.push(sep));
        assert(s.drop_last() =~= head);
        assert(tail =~= Seq::<char>::empty());
    } else {
        let front = tail.drop_last();
        assert(tail[tail.len() - 1] != sep);
        assert(!front.contains(sep)) by {
            if front.contains(sep) {
                let k = choose|k: int| 0 <= k < front.len() && front[k] == sep;
                assert(tail[k] == sep);
            }
        }
        lemma_pieces_behind(head, front, sep);
        assert(s.drop_last() =~= head + seq![sep] + front);
        assert(s.last() == tail.last());
        assert(front.push(tail.last()) =~= tail);
        assert(super::pieces(s, sep) =~= before.push(tail));
    }
}

/// Of two texts that begin alike, the first character in which they differ decides
/// which comes first; and a text comes before those that go on where it ends.
pub proof fn the_first_difference_decides(p: Seq<char>, a: Seq<char>, b: Seq<char>)
    ensures
        a.len() > 0 && b.len() > 0 && a[0] != b[0] ==> (super::lex_less(p + a, p + b) <==> a[0]
            < b[0]),
        a.len() == 0 ==> (super::lex_less(p + a, p + b) <==> b.len() > 0),
    decreases p.len(),
{
    if p.len() == 0 {
        assert(p + a =~= a);
        assert(p + b =~= b);
    } else {
        the_first_difference_decides(p.drop_first(), a, b);
        assert((p + a).drop_first() =~= p.drop_first() + a);
        assert((p + b).drop_first() =~= p.drop_first() + b);
        assert((p + a)[0] == p[0] && (p + b)[0] == p[0]);
    }
}

} // verus!
