//! Character-level text operations: white space, ASCII case, decimal numerals,
//! splitting, joining and ordering.
//!
//! Text is modelled as a sequence of Unicode scalar values (`Seq<char>`), the
//! view that `str` and `String` have.

pub mod laws;

use vstd::prelude::*;

verus! {

/// `String::push` appends one character to the end of the string.
pub assume_specification[ String::push ](s: &mut String, c: char)
    ensures
        final(s)@ == old(s)@.push(c),
;

// ---- Characters -------------------------------------------------------------

/// The characters with the Unicode `White_Space` property.
pub open spec fn is_white(c: char) -> bool {
    let n = c as int;
    ||| 0x9 <= n <= 0xd
    ||| n == 0x20
    ||| n == 0x85
    ||| n == 0xa0
    ||| n == 0x1680
    ||| 0x2000 <= n <= 0x200a
    ||| n == 0x2028
    ||| n == 0x2029
    ||| n == 0x202f
    ||| n == 0x205f
    ||| n == 0x3000
}

/// Whether `c` is Unicode white space.
pub fn is_whitespace(c: char) -> (r: bool)
    ensures
        r == is_white(c),
{
    let n: u32 = c as u32;
    (0x9 <= n && n <= 0xd) || n == 0x20 || n == 0x85 || n == 0xa0 || n == 0x1680 || (0x2000 <= n
        && n <= 0x200a) || n == 0x2028 || n == 0x2029 || n == 0x202f || n == 0x205f || n == 0x3000
}

/// The ASCII upper-case form of `c`; every other character is its own.
pub open spec fn upper_char(c: char) -> char {
    if 'a' <= c <= 'z' {
        (c as int - 32) as char
    } else {
        c
    }
}

/// The ASCII lower-case form of `c`; every other character is its own.
pub open spec fn lower_char(c: char) -> char {
    if 'A' <= c <= 'Z' {
        (c as int + 32) as char
    } else {
        c
    }
}

/// The ASCII upper-case form of `c`.
pub fn ascii_upper(c: char) -> (r: char)
    ensures
        r == upper_char(c),
{
    if 'a' <= c && c <= 'z' {
        (c as u8 - 32) as char
    } else {
        c
    }
}

/// The ASCII lower-case form of `c`.
pub fn ascii_lower(c: char) -> (r: char)
    ensures
        r == lower_char(c),
{
    if 'A' <= c && c <= 'Z' {
        (c as u8 + 32) as char
    } else {
        c
    }
}

// ---- Whole strings ----------------------------------------------------------

/// The characters of `s`, in order.
pub fn to_chars(s: &str) -> (r: Vec<char>)
    ensures
        r@ == s@,
{
    let mut r: Vec<char> = Vec::new();
    for c in it: s.chars()
        invariant
            it.seq() == s@,
            r@ == s@.take(it.index()),
    {
        r.push(c);
    }
    r
}

/// The string made of `chars[from..to]`.
pub fn string_of(chars: &Vec<char>, from: usize, to: usize) -> (r: String)
    requires
        from <= to <= chars@.len(),
    ensures
        r@ == chars@.subrange(from as int, to as int),
{
    let mut r = String::new();
    let mut i: usize = from;
    while i < to
        invariant
            from <= i <= to <= chars@.len(),
            r@ == chars@.subrange(from as int, i as int),
        decreases to - i,
    {
        r.push(chars[i]);
        i = i + 1;
        assert(chars@.subrange(from as int, i as int) == chars@.subrange(
            from as int,
            i - 1,
        ).push(chars@[i - 1]));
    }
    r
}

/// Whether `a` and `b` hold the same characters.
pub fn same(a: &str, b: &str) -> (r: bool)
    ensures
        r == (a@ == b@),
{
    let x = to_chars(a);
    let y = to_chars(b);
    if x.len() != y.len() {
        return false;
    }
    let mut i: usize = 0;
    while i < x.len()
        invariant
            x@ == a@,
            y@ == b@,
            x@.len() == y@.len(),
            i <= x@.len(),
            forall|k: int| 0 <= k < i ==> x@[k] == y@[k],
        decreases x@.len() - i,
    {
        if x[i] != y[i] {
            return false;
        }
        i = i + 1;
    }
    assert(a@ =~= b@);
    true
}

/// Every character in its ASCII upper-case form.
pub open spec fn upper(s: Seq<char>) -> Seq<char> {
    s.map_values(|c: char| upper_char(c))
}

/// Every character in its ASCII lower-case form.
pub open spec fn lower(s: Seq<char>) -> Seq<char> {
    s.map_values(|c: char| lower_char(c))
}

/// `s` with every ASCII letter in upper case.
pub fn to_ascii_uppercase(s: &str) -> (r: String)
    ensures
        r@ == upper(s@),
{
    let mut r = String::new();
    for c in it: s.chars()
        invariant
            it.seq() == s@,
            r@ == upper(s@.take(it.index())),
    {
        r.push(ascii_upper(c));
        assert(upper(s@.take(it.index() + 1)) =~= upper(s@.take(it.index())).push(
            upper_char(s@[it.index() as int]),
        ));
    }
    assert(s@.take(s@.len() as int) =~= s@);
    r
}

/// `s` with every ASCII letter in lower case.
pub fn to_ascii_lowercase(s: &str) -> (r: String)
    ensures
        r@ == lower(s@),
{
    let mut r = String::new();
    for c in it: s.chars()
        invariant
            it.seq() == s@,
            r@ == lower(s@.take(it.index())),
    {
        r.push(ascii_lower(c));
        assert(lower(s@.take(it.index() + 1)) =~= lower(s@.take(it.index())).push(
            lower_char(s@[it.index() as int]),
        ));
    }
    assert(s@.take(s@.len() as int) =~= s@);
    r
}

// ---- Trimming ---------------------------------------------------------------

/// `s` without its leading white space.
pub open spec fn trim_front(s: Seq<char>) -> Seq<char>
    decreases s.len(),
{
    if s.len() > 0 && is_white(s[0]) {
        trim_front(s.drop_first())
    } else {
        s
    }
}

/// `s` without its trailing white space.
pub open spec fn trim_back(s: Seq<char>) -> Seq<char>
    decreases s.len(),
{
    if s.len() > 0 && is_white(s.last()) {
        trim_back(s.drop_last())
    } else {
        s
    }
}

/// `s` without its leading and trailing white space.
pub open spec fn trimmed(s: Seq<char>) -> Seq<char> {
    trim_back(trim_front(s))
}

/// Whether `s` holds nothing but white space.
pub open spec fn is_blank(s: Seq<char>) -> bool {
    forall|i: int| 0 <= i < s.len() ==> is_white(#[trigger] s[i])
}

proof fn lemma_trim_front(s: Seq<char>, i: int)
    requires
        0 <= i <= s.len(),
        forall|k: int| 0 <= k < i ==> is_white(#[trigger] s[k]),
        i < s.len() ==> !is_white(s[i]),
    ensures
        trim_front(s) == s.skip(i),
    decreases i,
{
    if i == 0 {
        assert(s.skip(0) =~= s);
    } else {
        assert(is_white(s[0]));
        assert forall|k: int| 0 <= k < i - 1 implies is_white(#[trigger] s.drop_first()[k]) by {
            assert(s.drop_first()[k] == s[k + 1]);
        }
        lemma_trim_front(s.drop_first(), i - 1);
        assert(s.drop_first().skip(i - 1) =~= s.skip(i));
    }
}

proof fn lemma_trim_back(s: Seq<char>, j: int)
    requires
        0 <= j <= s.len(),
        forall|k: int| j <= k < s.len() ==> is_white(#[trigger] s[k]),
        j > 0 ==> !is_white(s[j - 1]),
    ensures
        trim_back(s) == s.take(j),
    decreases s.len() - j,
{
    if j == s.len() {
        assert(s.take(j) =~= s);
    } else {
        assert(is_white(s.last()));
        assert forall|k: int| j <= k < s.drop_last().len() implies is_white(
            #[trigger] s.drop_last()[k],
        ) by {
            assert(s.drop_last()[k] == s[k]);
        }
        lemma_trim_back(s.drop_last(), j);
        assert(s.drop_last().take(j) =~= s.take(j));
    }
}

/// A text trims to nothing exactly if it holds nothing but white space.
pub proof fn trimmed_is_empty_iff_blank(s: Seq<char>)
    ensures
        trimmed(s).len() == 0 <==> is_blank(s),
{
    lemma_front_stops(s);
    let f = trim_front(s);
    if is_blank(s) {
        if f.len() > 0 {
            let i = s.len() - f.len();
            assert(f[0] == s[i]);
        }
        assert(trim_back(f) =~= f);
    } else {
        lemma_back_keeps(f);
        let k = choose|k: int| 0 <= k < s.len() && !is_white(#[trigger] s[k]);
        if f.len() == 0 {
            assert(is_white(s[k]));
        }
    }
}

pub proof fn lemma_front_stops(s: Seq<char>)
    ensures
        trim_front(s).len() <= s.len(),
        trim_front(s) == s.skip(s.len() - trim_front(s).len()),
        trim_front(s).len() > 0 ==> !is_white(trim_front(s)[0]),
        forall|k: int| 0 <= k < s.len() - trim_front(s).len() ==> is_white(#[trigger] s[k]),
    decreases s.len(),
{
    if s.len() > 0 && is_white(s[0]) {
        lemma_front_stops(s.drop_first());
        let f = trim_front(s);
        assert(f =~= s.skip(s.len() - f.len()));
        assert forall|k: int| 0 <= k < s.len() - f.len() implies is_white(#[trigger] s[k]) by {
            if k > 0 {
                assert(s.drop_first()[k - 1] == s[k]);
            }
        }
    } else {
        assert(s.skip(0) =~= s);
    }
}

proof fn lemma_back_keeps(s: Seq<char>)
    requires
        s.len() > 0 ==> !is_white(s[0]),
    ensures
        s.len() > 0 ==> trim_back(s).len() > 0,
    decreases s.len(),
{
    if s.len() > 1 && is_white(s.last()) {
        assert(s.drop_last()[0] == s[0]);
        lemma_back_keeps(s.drop_last());
    }
}

/// Trimming a text that was trimmed changes nothing.
pub proof fn trimmed_is_stable(s: Seq<char>)
    ensures
        trimmed(trimmed(s)) == trimmed(s),
{
    let f = trim_front(s);
    lemma_front_stops(s);
    lemma_back_stops(f);
    let t = trim_back(f);
    if t.len() > 0 {
        assert(t[0] == f[0]);
    }
    assert(trim_front(t) == t);
    assert(trim_back(t) == t);
}

pub proof fn lemma_back_stops(s: Seq<char>)
    ensures
        trim_back(s).len() <= s.len(),
        trim_back(s) == s.take(trim_back(s).len() as int),
        trim_back(s).len() > 0 ==> !is_white(trim_back(s).last()),
    decreases s.len(),
{
    if s.len() > 0 && is_white(s.last()) {
        lemma_back_stops(s.drop_last());
        let t = trim_back(s);
        assert(t =~= s.take(t.len() as int));
    } else {
        assert(s.take(s.len() as int) =~= s);
    }
}

/// Trimming takes off whatever white space was put around a text.
pub proof fn blanks_around_are_trimmed(before: Seq<char>, s: Seq<char>, after: Seq<char>)
    requires
        is_blank(before),
        is_blank(after),
    ensures
        trimmed(before + s + after) == trimmed(s),
{
    let whole = before + s + after;
    lemma_front_stops(s);
    let f = trim_front(s);
    let cut = s.len() - f.len();
    if f.len() > 0 {
        assert forall|k: int| 0 <= k < before.len() + cut implies is_white(#[trigger] whole[k]) by {
            if k < before.len() {
                assert(whole[k] == before[k]);
            } else {
                assert(whole[k] == s[k - before.len()]);
            }
        }
        assert(whole[before.len() + cut] == s[cut as int]);
        assert(s[cut as int] == f[0]);
        lemma_trim_front(whole, (before.len() + cut) as int);
        assert(trim_front(whole) =~= f + after);
        lemma_back_of_blank(f, after);
    } else {
        assert forall|k: int| 0 <= k < whole.len() implies is_white(#[trigger] whole[k]) by {
            if k < before.len() {
                assert(whole[k] == before[k]);
            } else if k < before.len() + s.len() {
                assert(whole[k] == s[k - before.len()]);
            } else {
                assert(whole[k] == after[k - before.len() - s.len()]);
            }
        }
        trimmed_is_empty_iff_blank(whole);
        trimmed_is_empty_iff_blank(s);
        assert(is_blank(s)) by {
            assert forall|k: int| 0 <= k < s.len() implies is_white(#[trigger] s[k]) by {
                assert(k < cut);
            }
        }
        assert(trimmed(whole) =~= trimmed(s));
    }
}

proof fn lemma_back_of_blank(s: Seq<char>, after: Seq<char>)
    requires
        is_blank(after),
    ensures
        trim_back(s + after) == trim_back(s),
    decreases after.len(),
{
    if after.len() == 0 {
        assert(s + after =~= s);
    } else {
        assert(is_white(after[after.len() - 1]));
        assert((s + after).drop_last() =~= s + after.drop_last());
        assert(is_blank(after.drop_last())) by {
            assert forall|k: int| 0 <= k < after.drop_last().len() implies is_white(
                #[trigger] after.drop_last()[k],
            ) by {
                assert(after.drop_last()[k] == after[k]);
            }
        }
        lemma_back_of_blank(s, after.drop_last());
    }
}

/// `s` without its leading and trailing white space.
pub fn trim(s: &str) -> (r: &str)
    ensures
        r@ == trimmed(s@),
{
    let v = to_chars(s);
    let n = v.len();
    let mut i: usize = 0;
    while i < n && is_whitespace(v[i])
        invariant
            n == v@.len(),
            i <= n,
            forall|k: int| 0 <= k < i ==> is_white(#[trigger] v@[k]),
        decreases n - i,
    {
        i = i + 1;
    }
    let mut j: usize = n;
    while j > i && is_whitespace(v[j - 1])
        invariant
            n == v@.len(),
            i <= j <= n,
            forall|k: int| j <= k < n ==> is_white(#[trigger] v@[k]),
        decreases j,
    {
        j = j - 1;
    }
    proof {
        lemma_trim_front(s@, i as int);
        let f = s@.skip(i as int);
        assert forall|k: int| j - i <= k < f.len() implies is_white(#[trigger] f[k]) by {
            assert(f[k] == s@[k + i]);
        }
        if j > i {
            assert(f[j - i - 1] == s@[j - 1]);
        }
        lemma_trim_back(f, j - i);
        assert(f.take(j - i) =~= s@.subrange(i as int, j as int));
    }
    s.substring_char(i, j)
}

/// Whether `s` holds nothing but white space.
pub fn blank(s: &str) -> (r: bool)
    ensures
        r == is_blank(s@),
        r == (trimmed(s@).len() == 0),
{
    let v = to_chars(s);
    let mut i: usize = 0;
    proof {
        trimmed_is_empty_iff_blank(s@);
    }
    while i < v.len()
        invariant
            v@ == s@,
            trimmed(s@).len() == 0 <==> is_blank(s@),
            i <= v@.len(),
            forall|k: int| 0 <= k < i ==> is_white(#[trigger] v@[k]),
        decreases v@.len() - i,
    {
        if !is_whitespace(v[i]) {
            assert(!is_white(s@[i as int]));
            return false;
        }
        i = i + 1;
    }
    true
}

// ---- Words ------------------------------------------------------------------

/// Whether a word (a maximal run of characters that are not white space) begins
/// at position `i` of `s`.
pub open spec fn word_begins(s: Seq<char>, i: int) -> bool {
    !is_white(s[i]) && (i == 0 || is_white(s[i - 1]))
}

/// The number of words that begin in the first `n` characters of `s`.
pub open spec fn words_before(s: Seq<char>, n: nat) -> nat
    decreases n,
{
    if n == 0 {
        0
    } else {
        words_before(s, (n - 1) as nat) + if word_begins(s, n - 1) {
            1nat
        } else {
            0nat
        }
    }
}

/// The number of words of `s`.
pub open spec fn word_count(s: Seq<char>) -> nat {
    words_before(s, s.len())
}

/// The number of words of `s`.
pub fn count_words(s: &str) -> (r: u64)
    ensures
        r == word_count(s@),
{
    let v = to_chars(s);
    let mut n: u64 = 0;
    let mut i: usize = 0;
    while i < v.len()
        invariant
            v@ == s@,
            i <= v@.len(),
            n == words_before(s@, i as nat),
            n <= i,
        decreases v@.len() - i,
    {
        if !is_whitespace(v[i]) && (i == 0 || is_whitespace(v[i - 1])) {
            n = n + 1;
        }
        i = i + 1;
    }
    n
}

// ---- Decimal numerals -------------------------------------------------------

/// The decimal digit `d`.
pub open spec fn digit(d: int) -> char {
    ('0' as int + d) as char
}

/// The decimal numeral of `n`, without leading zeros.
pub open spec fn decimal(n: nat) -> Seq<char>
    decreases n,
{
    if n < 10 {
        seq![digit(n as int)]
    } else {
        decimal(n / 10).push(digit((n % 10) as int))
    }
}

/// `s` with zeros in front up to `width` characters.
pub open spec fn zero_padded(s: Seq<char>, width: nat) -> Seq<char>
    decreases width - s.len(),
{
    if s.len() >= width {
        s
    } else {
        zero_padded(seq!['0'] + s, width)
    }
}

/// The numeral of `n` in at least `width` characters, the sign counted, with
/// zeros between the sign and the digits.
pub open spec fn padded_int(n: int, width: nat) -> Seq<char> {
    if n < 0 {
        seq!['-'] + zero_padded(
            decimal((-n) as nat),
            if width > 0 {
                (width - 1) as nat
            } else {
                0
            },
        )
    } else {
        zero_padded(decimal(n as nat), width)
    }
}

/// The decimal numeral of `n`.
pub fn to_decimal(n: u64) -> (r: String)
    ensures
        r@ == decimal(n as nat),
    decreases n,
{
    if n < 10 {
        let mut r = String::new();
        r.push((48u8 + (n as u8)) as char);
        assert(r@ =~= decimal(n as nat));
        r
    } else {
        let mut r = to_decimal(n / 10);
        r.push((48u8 + ((n % 10) as u8)) as char);
        r
    }
}

/// `s` with zeros in front up to `width` characters.
pub fn zero_pad(s: String, width: usize) -> (r: String)
    ensures
        r@ == zero_padded(s@, width as nat),
{
    let mut r = s;
    let mut len: usize = r.as_str().unicode_len();
    while len < width
        invariant
            len == r@.len(),
            zero_padded(r@, width as nat) == zero_padded(s@, width as nat),
        decreases width - len,
    {
        let mut longer = String::new();
        longer.push('0');
        longer.append(r.as_str());
        assert(longer@ =~= seq!['0'] + r@);
        r = longer;
        len = len + 1;
    }
    r
}

/// The numeral of `n` in at least `width` characters, as `format!("{:0width$}")`
/// writes it.
pub fn to_padded_int(n: i64, width: usize) -> (r: String)
    ensures
        r@ == padded_int(n as int, width as nat),
{
    if n >= 0 {
        zero_pad(to_decimal(n as u64), width)
    } else {
        let magnitude: u64 = (-(n + 1)) as u64 + 1;
        let inner: usize = if width > 0 {
            width - 1
        } else {
            0
        };
        let mut r = String::new();
        r.push('-');
        r.append(zero_pad(to_decimal(magnitude), inner).as_str());
        assert(r@ =~= seq!['-'] + zero_padded(decimal((-(n as int)) as nat), inner as nat));
        r
    }
}

// ---- Splitting and joining --------------------------------------------------

/// The pieces of `s` between occurrences of `sep`; one more than there are
/// occurrences.
pub open spec fn pieces(s: Seq<char>, sep: char) -> Seq<Seq<char>>
    decreases s.len(),
{
    if s.len() == 0 {
        seq![Seq::<char>::empty()]
    } else {
        let front = pieces(s.drop_last(), sep);
        if s.last() == sep {
            front.push(Seq::<char>::empty())
        } else {
            front.update(front.len() - 1, front.last().push(s.last()))
        }
    }
}

/// The parts of `list`, with `sep` between neighbours.
pub open spec fn joined(list: Seq<Seq<char>>, sep: Seq<char>) -> Seq<char>
    decreases list.len(),
{
    if list.len() == 0 {
        Seq::<char>::empty()
    } else if list.len() == 1 {
        list[0]
    } else {
        joined(list.drop_last(), sep) + sep + list.last()
    }
}

/// What a list of strings holds.
pub open spec fn views(list: Seq<String>) -> Seq<Seq<char>> {
    list.map_values(|s: String| s@)
}

/// The pieces of `s` between occurrences of `sep`.
pub fn split_on(s: &str, sep: char) -> (r: Vec<String>)
    ensures
        views(r@) == pieces(s@, sep),
{
    let v = to_chars(s);
    let mut r: Vec<String> = Vec::new();
    let mut cur = String::new();
    let mut i: usize = 0;
    proof {
        assert(s@.take(0) =~= Seq::<char>::empty());
        assert(views(r@).push(cur@) =~= pieces(s@.take(0), sep));
    }
    while i < v.len()
        invariant
            v@ == s@,
            i <= v@.len(),
            views(r@).push(cur@) == pieces(s@.take(i as int), sep),
        decreases v@.len() - i,
    {
        let c = v[i];
        let ghost before = views(r@).push(cur@);
        let ghost next = s@.take(i + 1);
        proof {
            assert(next.drop_last() =~= s@.take(i as int));
            assert(next.last() == c);
        }
        if c == sep {
            r.push(cur);
            cur = String::new();
            assert(views(r@) =~= before);
            assert(views(r@).push(cur@) =~= pieces(next, sep));
        } else {
            let ghost old_cur = cur@;
            cur.push(c);
            assert(before.last() == old_cur);
            assert(views(r@).push(cur@) =~= pieces(next, sep));
        }
        i = i + 1;
    }
    let ghost all = views(r@).push(cur@);
    r.push(cur);
    assert(views(r@) =~= all);
    assert(s@.take(s@.len() as int) =~= s@);
    r
}

/// The parts of `list`, with `sep` between neighbours.
pub fn join(list: &Vec<String>, sep: &str) -> (r: String)
    ensures
        r@ == joined(views(list@), sep@),
{
    let mut r = String::new();
    let mut i: usize = 0;
    proof {
        assert(views(list@.take(0)) =~= Seq::<Seq<char>>::empty());
    }
    while i < list.len()
        invariant
            i <= list@.len(),
            r@ == joined(views(list@.take(i as int)), sep@),
        decreases list@.len() - i,
    {
        let ghost next = views(list@.take(i + 1));
        proof {
            assert(next.drop_last() =~= views(list@.take(i as int)));
            assert(next.last() == list@[i as int]@);
        }
        if i > 0 {
            r.append(sep);
        }
        r.append(list[i].as_str());
        proof {
            if i == 0 {
                assert(r@ =~= next[0]);
            }
        }
        i = i + 1;
    }
    assert(list@.take(list@.len() as int) =~= list@);
    r
}

// ---- Ordering ---------------------------------------------------------------

/// Whether `a` comes strictly before `b` in dictionary order of code points.
pub open spec fn lex_less(a: Seq<char>, b: Seq<char>) -> bool
    decreases a.len(),
{
    if b.len() == 0 {
        false
    } else if a.len() == 0 {
        true
    } else if a[0] != b[0] {
        a[0] < b[0]
    } else {
        lex_less(a.drop_first(), b.drop_first())
    }
}

/// Dictionary order is irreflexive and total.
pub proof fn lex_less_total(a: Seq<char>, b: Seq<char>)
    ensures
        !lex_less(a, a),
        lex_less(a, b) ==> !lex_less(b, a),
        a != b ==> lex_less(a, b) || lex_less(b, a),
    decreases a.len(),
{
    if a.len() > 0 && b.len() > 0 {
        lex_less_total(a.drop_first(), b.drop_first());
        if a[0] == b[0] && a.drop_first() == b.drop_first() {
            assert(a =~= seq![a[0]] + a.drop_first());
            assert(b =~= seq![b[0]] + b.drop_first());
        }
    } else if a.len() > 0 {
        lex_less_total(a.drop_first(), b);
    } else if b.len() == 0 {
        assert(a =~= b);
    }
}

/// Dictionary order is transitive.
pub proof fn lex_less_transitive(a: Seq<char>, b: Seq<char>, c: Seq<char>)
    requires
        lex_less(a, b),
        lex_less(b, c),
    ensures
        lex_less(a, c),
    decreases a.len(),
{
    if a.len() > 0 && b.len() > 0 && c.len() > 0 && a[0] == b[0] && b[0] == c[0] {
        lex_less_transitive(a.drop_first(), b.drop_first(), c.drop_first());
    }
}

/// Whether `a` comes strictly before `b` in dictionary order of code points.
pub fn precedes(a: &str, b: &str) -> (r: bool)
    ensures
        r == lex_less(a@, b@),
{
    let x = to_chars(a);
    let y = to_chars(b);
    let mut i: usize = 0;
    proof {
        assert(a@.skip(0) =~= a@);
        assert(b@.skip(0) =~= b@);
    }
    while i < x.len() && i < y.len() && x[i] == y[i]
        invariant
            x@ == a@,
            y@ == b@,
            i <= x@.len(),
            i <= y@.len(),
            lex_less(a@, b@) == lex_less(a@.skip(i as int), b@.skip(i as int)),
        decreases x@.len() - i,
    {
        proof {
            let p = a@.skip(i as int);
            let q = b@.skip(i as int);
            assert(p[0] == q[0]);
            assert(p.drop_first() =~= a@.skip(i + 1));
            assert(q.drop_first() =~= b@.skip(i + 1));
        }
        i = i + 1;
    }
    if i >= y.len() {
        false
    } else if i >= x.len() {
        true
    } else {
        x[i] < y[i]
    }
}

} // verus!
