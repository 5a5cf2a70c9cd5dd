//! Character-level helpers shared by the rendering code: decimal digits,
//! conversions between `&str`, `String` and `Vec<char>`, lower-casing and
//! substring search.
use vstd::prelude::*;

verus! {

/// The ASCII digit for `d` (for `d < 10`).
pub open spec fn digit_char(d: nat) -> char {
    if d == 0 { '0' }
    else if d == 1 { '1' }
    else if d == 2 { '2' }
    else if d == 3 { '3' }
    else if d == 4 { '4' }
    else if d == 5 { '5' }
    else if d == 6 { '6' }
    else if d == 7 { '7' }
    else if d == 8 { '8' }
    else { '9' }
}

/// The decimal notation of `n`, most significant digit first, with no
/// leading zeros (zero itself is written `0`).
pub open spec fn decimal(n: nat) -> Seq<char>
    decreases n,
{
    if n < 10 {
        seq![digit_char(n)]
    } else {
        decimal(n / 10).push(digit_char(n % 10))
    }
}

/// Returns the digit character for `d`.
pub fn digit(d: u64) -> (c: char)
    requires
        d < 10,
    ensures
        c == digit_char(d as nat),
{
    if d == 0 { '0' }
    else if d == 1 { '1' }
    else if d == 2 { '2' }
    else if d == 3 { '3' }
    else if d == 4 { '4' }
    else if d == 5 { '5' }
    else if d == 6 { '6' }
    else if d == 7 { '7' }
    else if d == 8 { '8' }
    else { '9' }
}

/// Appends the decimal notation of `n` to `out`.
pub fn push_decimal(out: &mut Vec<char>, n: u64)
    ensures
        final(out)@ == old(out)@ + decimal(n as nat),
    decreases n,
{
    if n >= 10 {
        push_decimal(out, n / 10);
    }
    out.push(digit(n % 10));
    proof {
        assert(old(out)@ + decimal(n as nat) =~= out@) by {
            if n >= 10 {
                assert(decimal(n as nat) == decimal((n / 10) as nat).push(digit_char((n % 10) as nat)));
            }
        }
    }
}

/// The characters of `s`, in order.
pub(crate) fn str_chars(s: &str) -> (v: Vec<char>)
    ensures
        v@ == s@,
{
    broadcast use vstd::string::axiom_spec_iter;

    let mut v: Vec<char> = Vec::new();
    for c in it: s.chars()
        invariant
            it.seq() == s@,
            v@ == it.seq().take(it.index() as int),
    {
        v.push(c);
    }
    v
}

/// `std`'s `String: FromIterator<&char>`: the string made of the given
/// characters, in order.
#[verifier::external_body]
pub(crate) fn string_from_chars(v: &Vec<char>) -> (s: String)
    ensures
        s@ == v@,
{
    v.iter().collect()
}

/// Appends the characters of `s` to `out`.
pub fn push_str(out: &mut Vec<char>, s: &str)
    ensures
        final(out)@ == old(out)@ + s@,
{
    let mut chars = str_chars(s);
    out.append(&mut chars);
}


/// What `std`'s `str::to_lowercase` returns for a string with the
/// characters `s` (the Unicode lower-case mapping of each character, with
/// the context rule for a final capital sigma).
pub uninterp spec fn lowercase(s: Seq<char>) -> Seq<char>;

/// The character is ASCII.
pub open spec fn is_ascii_char(c: char) -> bool {
    (c as int) < 128
}

/// Every character is ASCII.
pub open spec fn all_ascii(s: Seq<char>) -> bool {
    forall|i: int| 0 <= i < s.len() ==> is_ascii_char(#[trigger] s[i])
}

/// `c` with `A`-`Z` mapped to `a`-`z`.
pub open spec fn ascii_lower_char(c: char) -> char {
    if 'A' <= c && c <= 'Z' {
        ((c as int) + 32) as char
    } else {
        c
    }
}

/// `c` with `a`-`z` mapped to `A`-`Z`.
pub open spec fn ascii_upper_char(c: char) -> char {
    if 'a' <= c && c <= 'z' {
        ((c as int) - 32) as char
    } else {
        c
    }
}

/// `s` with its ASCII letters in lower case.
pub open spec fn ascii_lower(s: Seq<char>) -> Seq<char> {
    s.map_values(|c: char| ascii_lower_char(c))
}

/// `s` with its ASCII letters in upper case.
pub open spec fn ascii_upper(s: Seq<char>) -> Seq<char> {
    s.map_values(|c: char| ascii_upper_char(c))
}

/// `std`'s `str::to_lowercase`. Besides naming the result, the contract
/// states the documented mapping of ASCII text: under the Unicode
/// lower-case mapping, `A`-`Z` become `a`-`z` and every other ASCII
/// character stays as it is. Nothing is stated about other characters.
#[verifier::external_body]
pub(crate) fn to_lowercase(s: &str) -> (res: String)
    ensures
        res@ == lowercase(s@),
        all_ascii(s@) ==> res@ == ascii_lower(s@),
{
    s.to_lowercase()
}

/// Whether `std`'s `char::is_whitespace` holds of `c` (the Unicode
/// `White_Space` property).
pub uninterp spec fn is_whitespace(c: char) -> bool;

/// The ASCII characters with the Unicode `White_Space` property: tab, line
/// feed, vertical tab, form feed, carriage return and space.
pub open spec fn ascii_whitespace(c: char) -> bool {
    c == ' ' || ('\t' <= c && c <= '\r')
}

/// `std`'s `char::is_whitespace`. Besides naming the result, the contract
/// states the documented fact for ASCII characters: those with the Unicode
/// `White_Space` property are U+0009 to U+000D and the space.
#[verifier::external_body]
pub(crate) fn char_is_whitespace(c: char) -> (res: bool)
    ensures
        res == is_whitespace(c),
        is_ascii_char(c) ==> res == ascii_whitespace(c),
{
    c.is_whitespace()
}

/// The views of a sequence of character vectors.
pub open spec fn char_views(v: Seq<Vec<char>>) -> Seq<Seq<char>> {
    v.map_values(|x: Vec<char>| x@)
}

/// One step of splitting on whitespace: the finished tokens and the token
/// being read, after reading `c`.
pub open spec fn split_step(state: (Seq<Seq<char>>, Seq<char>), c: char) -> (Seq<Seq<char>>, Seq<char>) {
    if is_whitespace(c) {
        if state.1.len() > 0 {
            (state.0.push(state.1), Seq::empty())
        } else {
            (state.0, Seq::empty())
        }
    } else {
        (state.0, state.1.push(c))
    }
}

/// The state of splitting on whitespace after the first `n` characters of `s`.
pub open spec fn split_prefix(s: Seq<char>, n: nat) -> (Seq<Seq<char>>, Seq<char>)
    decreases n,
{
    if n == 0 {
        (Seq::empty(), Seq::empty())
    } else {
        split_step(split_prefix(s, (n - 1) as nat), s[n - 1])
    }
}

/// The maximal runs of non-whitespace characters of `s`, in order: what
/// `str::split_whitespace` yields.
pub open spec fn whitespace_tokens(s: Seq<char>) -> Seq<Seq<char>> {
    let state = split_prefix(s, s.len());
    if state.1.len() > 0 {
        state.0.push(state.1)
    } else {
        state.0
    }
}

/// One step of splitting on ASCII whitespace.
pub open spec fn ascii_split_step(state: (Seq<Seq<char>>, Seq<char>), c: char) -> (Seq<Seq<char>>, Seq<char>) {
    if ascii_whitespace(c) {
        if state.1.len() > 0 {
            (state.0.push(state.1), Seq::empty())
        } else {
            (state.0, Seq::empty())
        }
    } else {
        (state.0, state.1.push(c))
    }
}

/// The state of splitting on ASCII whitespace after the first `n`
/// characters of `s`.
pub open spec fn ascii_split_prefix(s: Seq<char>, n: nat) -> (Seq<Seq<char>>, Seq<char>)
    decreases n,
{
    if n == 0 {
        (Seq::empty(), Seq::empty())
    } else {
        ascii_split_step(ascii_split_prefix(s, (n - 1) as nat), s[n - 1])
    }
}

/// The maximal runs of characters of `s` that are not ASCII whitespace.
pub open spec fn ascii_tokens(s: Seq<char>) -> Seq<Seq<char>> {
    let state = ascii_split_prefix(s, s.len());
    if state.1.len() > 0 {
        state.0.push(state.1)
    } else {
        state.0
    }
}

/// Where whitespace and ASCII whitespace agree on the first `n`
/// characters, the two splits agree there.
proof fn lemma_ascii_split_agrees(s: Seq<char>, n: nat)
    requires
        n <= s.len(),
        forall|k: int| 0 <= k < n ==> is_whitespace(#[trigger] s[k]) == ascii_whitespace(s[k]),
    ensures
        split_prefix(s, n) == ascii_split_prefix(s, n),
    decreases n,
{
    if n > 0 {
        lemma_ascii_split_agrees(s, (n - 1) as nat);
        assert(is_whitespace(s[n - 1]) == ascii_whitespace(s[n - 1]));
    }
}

/// The tokens of an ASCII text are ASCII.
pub proof fn lemma_ascii_tokens_ascii(s: Seq<char>)
    requires
        all_ascii(s),
    ensures
        forall|j: int| 0 <= j < ascii_tokens(s).len() ==> all_ascii(#[trigger] ascii_tokens(s)[j]),
{
    lemma_ascii_split_prefix_ascii(s, s.len());
}

proof fn lemma_ascii_split_prefix_ascii(s: Seq<char>, n: nat)
    requires
        all_ascii(s),
        n <= s.len(),
    ensures
        forall|j: int| 0 <= j < ascii_split_prefix(s, n).0.len() ==> all_ascii(#[trigger] ascii_split_prefix(s, n).0[j]),
        all_ascii(ascii_split_prefix(s, n).1),
    decreases n,
{
    if n > 0 {
        lemma_ascii_split_prefix_ascii(s, (n - 1) as nat);
        let p = ascii_split_prefix(s, (n - 1) as nat);
        assert(is_ascii_char(s[n - 1]));
        assert forall|i: int| 0 <= i < p.1.push(s[n - 1]).len() implies is_ascii_char(#[trigger] p.1.push(s[n - 1])[i]) by {
            if i < p.1.len() {
                assert(is_ascii_char(p.1[i]));
            }
        }
        let q = ascii_split_prefix(s, n);
        assert forall|j: int| 0 <= j < q.0.len() implies all_ascii(#[trigger] q.0[j]) by {
            if j < p.0.len() {
                assert(q.0[j] == p.0[j]);
            }
        }
    }
}

/// Splits `s` into its maximal runs of non-whitespace characters.
pub fn split_whitespace(s: &str) -> (tokens: Vec<Vec<char>>)
    ensures
        char_views(tokens@) == whitespace_tokens(s@),
        all_ascii(s@) ==> whitespace_tokens(s@) == ascii_tokens(s@),
{
    let chars = str_chars(s);
    let mut tokens: Vec<Vec<char>> = Vec::new();
    let mut current: Vec<char> = Vec::new();
    let n = chars.len();
    for i in 0..n
        invariant
            n == chars@.len(),
            chars@ == s@,
            char_views(tokens@) == split_prefix(s@, i as nat).0,
            current@ == split_prefix(s@, i as nat).1,
            forall|k: int| 0 <= k < i && is_ascii_char(#[trigger] s@[k]) ==> is_whitespace(s@[k]) == ascii_whitespace(s@[k]),
    {
        let c = chars[i];
        let ghost before = split_prefix(s@, i as nat);
        assert(split_prefix(s@, (i + 1) as nat) == split_step(before, c));
        if char_is_whitespace(c) {
            if current.len() > 0 {
                tokens.push(current);
                current = Vec::new();
                assert(char_views(tokens@) =~= before.0.push(before.1));
            }
            assert(current@ =~= Seq::<char>::empty());
        } else {
            current.push(c);
        }
    }
    if current.len() > 0 {
        tokens.push(current);
        assert(char_views(tokens@) =~= whitespace_tokens(s@));
    }
    proof {
        if all_ascii(s@) {
            assert forall|k: int| 0 <= k < s@.len() implies is_whitespace(#[trigger] s@[k]) == ascii_whitespace(s@[k]) by {
                assert(is_ascii_char(s@[k]));
            }
            lemma_ascii_split_agrees(s@, s@.len());
        }
    }
    tokens
}

/// `needle` occurs in `hay` starting at position `i`.
pub open spec fn occurs_at(hay: Seq<char>, needle: Seq<char>, i: int) -> bool {
    0 <= i && i + needle.len() <= hay.len() && hay.subrange(i, i + needle.len()) == needle
}

/// `needle` occurs somewhere in `hay` (the empty sequence occurs everywhere).
pub open spec fn contains_seq(hay: Seq<char>, needle: Seq<char>) -> bool {
    exists|i: int| occurs_at(hay, needle, i)
}

fn matches_at(hay: &Vec<char>, needle: &Vec<char>, i: usize) -> (res: bool)
    requires
        i + needle@.len() <= hay@.len(),
    ensures
        res == occurs_at(hay@, needle@, i as int),
{
    let n = needle.len();
    for j in 0..n
        invariant
            n == needle@.len(),
            i + n <= hay.len(),
            forall|k: int| 0 <= k < j ==> hay@[i + k] == needle@[k],
    {
        if hay[i + j] != needle[j] {
            assert(hay@.subrange(i as int, i + n)[j as int] != needle@[j as int]);
            return false;
        }
    }
    assert(hay@.subrange(i as int, i + n) =~= needle@);
    true
}

/// Whether `needle` occurs in `hay`.
pub fn contains_chars(hay: &Vec<char>, needle: &Vec<char>) -> (res: bool)
    ensures
        res == contains_seq(hay@, needle@),
{
    if needle.len() > hay.len() {
        return false;
    }
    let last = hay.len() - needle.len();
    let mut i: usize = 0;
    loop
        invariant
            i <= last,
            last == hay@.len() - needle@.len(),
            forall|k: int| 0 <= k < i ==> !occurs_at(hay@, needle@, k),
        decreases last - i,
    {
        if matches_at(hay, needle, i) {
            return true;
        }
        if i == last {
            assert forall|k: int| !occurs_at(hay@, needle@, k) by {
                if 0 <= k && k <= i {
                    if k < i {
                    }
                }
            }
            return false;
        }
        i = i + 1;
    }
}

/// Strict lexicographic order on character sequences, by code point: the
/// order of `str`'s `<`.
pub open spec fn lex_less(a: Seq<char>, b: Seq<char>) -> bool
    decreases a.len(),
{
    if a.len() == 0 {
        b.len() > 0
    } else if b.len() == 0 {
        false
    } else if (a[0] as int) < (b[0] as int) {
        true
    } else if a[0] == b[0] {
        lex_less(a.drop_first(), b.drop_first())
    } else {
        false
    }
}

/// No sequence is less than itself.
pub proof fn lemma_lex_irreflexive(a: Seq<char>)
    ensures
        !lex_less(a, a),
    decreases a.len(),
{
    if a.len() > 0 {
        lemma_lex_irreflexive(a.drop_first());
    }
}

/// The lexicographic order is transitive.
pub proof fn lemma_lex_transitive(a: Seq<char>, b: Seq<char>, c: Seq<char>)
    requires
        lex_less(a, b),
        lex_less(b, c),
    ensures
        lex_less(a, c),
    decreases a.len(),
{
    if a.len() > 0 && b.len() > 0 && c.len() > 0 {
        if a[0] == b[0] && b[0] == c[0] {
            lemma_lex_transitive(a.drop_first(), b.drop_first(), c.drop_first());
        }
    }
}

/// Two different sequences are ordered one way or the other.
pub proof fn lemma_lex_total(a: Seq<char>, b: Seq<char>)
    requires
        a != b,
    ensures
        lex_less(a, b) || lex_less(b, a),
    decreases a.len(),
{
    if a.len() > 0 && b.len() > 0 {
        if a[0] == b[0] {
            if a.drop_first() == b.drop_first() {
                assert(a =~= seq![a[0]] + a.drop_first());
                assert(b =~= seq![b[0]] + b.drop_first());
            }
            lemma_lex_total(a.drop_first(), b.drop_first());
        } else {
            assert((a[0] as int) != (b[0] as int));
        }
    } else if a.len() == 0 && b.len() == 0 {
        assert(a =~= b);
    }
}

/// Whether `a` comes strictly before `b` in code-point order.
pub fn lex_less_chars(a: &Vec<char>, b: &Vec<char>) -> (res: bool)
    ensures
        res == lex_less(a@, b@),
{
    let mut i: usize = 0;
    assert(a@.skip(0) =~= a@ && b@.skip(0) =~= b@);
    loop
        invariant
            i <= a@.len(),
            i <= b@.len(),
            lex_less(a@, b@) == lex_less(a@.skip(i as int), b@.skip(i as int)),
        decreases a@.len() - i,
    {
        if i == a.len() {
            return i < b.len();
        }
        if i == b.len() {
            return false;
        }
        let x = a[i];
        let y = b[i];
        assert(a@.skip(i as int)[0] == x && b@.skip(i as int)[0] == y);
        if x < y {
            return true;
        }
        if x != y {
            return false;
        }
        assert(a@.skip(i as int).drop_first() =~= a@.skip(i + 1));
        assert(b@.skip(i as int).drop_first() =~= b@.skip(i + 1));
        i = i + 1;
    }
}

} // verus!
