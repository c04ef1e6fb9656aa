//! Character-level text helpers: ASCII case folding, Unicode whitespace
//! trimming, substring search, lexicographic order and splitting, each with
//! the mathematical definition that its contract refers to.
use vstd::prelude::*;

verus! {

// ── Specifications ──────────────────────────────────────────────────────────

/// ASCII lowercase of one character; every other character is unchanged.
pub open spec fn lower_char(c: char) -> char {
    if 'A' <= c && c <= 'Z' {
        ((c as u32) + 32) as char
    } else {
        c
    }
}

/// ASCII uppercase of one character; every other character is unchanged.
pub open spec fn upper_char(c: char) -> char {
    if 'a' <= c && c <= 'z' {
        ((c as u32) - 32) as char
    } else {
        c
    }
}

/// ASCII lowercase of a whole text.
pub open spec fn ascii_lower(s: Seq<char>) -> Seq<char> {
    s.map_values(|c: char| lower_char(c))
}

/// ASCII uppercase of a whole text.
pub open spec fn ascii_upper(s: Seq<char>) -> Seq<char> {
    s.map_values(|c: char| upper_char(c))
}

/// The Unicode `White_Space` property, which is what `char::is_whitespace`
/// documents: U+0009..U+000D, U+0020, U+0085, U+00A0, U+1680,
/// U+2000..U+200A, U+2028, U+2029, U+202F, U+205F and U+3000.
pub open spec fn is_white_space(c: char) -> bool {
    let x = c as u32;
    (0x9 <= x && x <= 0xd) || x == 0x20 || x == 0x85 || x == 0xa0 || x == 0x1680 || (0x2000 <= x
        && x <= 0x200a) || x == 0x2028 || x == 0x2029 || x == 0x202f || x == 0x205f || x == 0x3000
}

/// Number of whitespace characters at the start of `s`.
pub open spec fn leading_ws(s: Seq<char>) -> nat
    decreases s.len(),
{
    if s.len() > 0 && is_white_space(s[0]) {
        1 + leading_ws(s.drop_first())
    } else {
        0
    }
}

/// Number of whitespace characters at the end of `s`.
pub open spec fn trailing_ws(s: Seq<char>) -> nat
    decreases s.len(),
{
    if s.len() > 0 && is_white_space(s.last()) {
        1 + trailing_ws(s.drop_last())
    } else {
        0
    }
}

/// `s` without its leading and trailing whitespace (what `str::trim` gives).
pub open spec fn trimmed(s: Seq<char>) -> Seq<char> {
    let t = s.skip(leading_ws(s) as int);
    t.take(t.len() - trailing_ws(t))
}

/// `pat` occurs in `s` as a contiguous run (the empty text occurs everywhere).
pub open spec fn has_infix(s: Seq<char>, pat: Seq<char>) -> bool {
    exists|i: int| 0 <= i && i + pat.len() <= s.len() && #[trigger] s.subrange(i, i + pat.len()) == pat
}

/// Strict lexicographic order by code point, which is the order of `str`.
pub open spec fn lex_lt(a: Seq<char>, b: Seq<char>) -> bool
    decreases a.len(),
{
    if a.len() == 0 {
        b.len() > 0
    } else if b.len() == 0 {
        false
    } else if a[0] != b[0] {
        a[0] < b[0]
    } else {
        lex_lt(a.drop_first(), b.drop_first())
    }
}

/// The pieces of `s` between occurrences of `d` (what `str::split` gives for
/// a character pattern); there is always at least one piece.
pub open spec fn split_on(s: Seq<char>, d: char) -> Seq<Seq<char>>
    decreases s.len(),
{
    if s.len() == 0 {
        seq![Seq::<char>::empty()]
    } else {
        let init = split_on(s.drop_last(), d);
        if s.last() == d {
            init.push(Seq::<char>::empty())
        } else {
            init.update(init.len() - 1, init.last().push(s.last()))
        }
    }
}

/// The texts of `list` with `sep` between neighbours.
pub open spec fn joined(list: Seq<Seq<char>>, sep: Seq<char>) -> Seq<char>
    decreases list.len(),
{
    if list.len() == 0 {
        Seq::<char>::empty()
    } else if list.len() == 1 {
        list[0]
    } else {
        joined(list.drop_last(), sep) + sep + list.last()
    }
}

// ── Lemmas ──────────────────────────────────────────────────────────────────

/// Splitting always yields at least one piece.
pub proof fn lemma_split_nonempty(s: Seq<char>, d: char)
    ensures
        split_on(s, d).len() >= 1,
    decreases s.len(),
{
    if s.len() > 0 {
        lemma_split_nonempty(s.drop_last(), d);
    }
}

/// `lex_lt` is irreflexive.
pub proof fn lemma_lex_irreflexive(a: Seq<char>)
    ensures
        !lex_lt(a, a),
    decreases a.len(),
{
    if a.len() > 0 {
        lemma_lex_irreflexive(a.drop_first());
    }
}

/// `lex_lt` is transitive.
pub proof fn lemma_lex_transitive(a: Seq<char>, b: Seq<char>, c: Seq<char>)
    requires
        lex_lt(a, b),
        lex_lt(b, c),
    ensures
        lex_lt(a, c),
    decreases a.len(),
{
    if a.len() > 0 && b.len() > 0 && c.len() > 0 {
        if a[0] == b[0] && b[0] == c[0] {
            lemma_lex_transitive(a.drop_first(), b.drop_first(), c.drop_first());
        }
    }
}

/// `lex_lt` orders any two distinct texts.
pub proof fn lemma_lex_total(a: Seq<char>, b: Seq<char>)
    requires
        a != b,
    ensures
        lex_lt(a, b) || lex_lt(b, a),
    decreases a.len(),
{
    if a.len() == 0 {
        assert(b.len() > 0) by {
            if b.len() == 0 {
                assert(a =~= b);
            }
        }
    } else if b.len() == 0 {
    } else if a[0] != b[0] {
    } else {
        if a.drop_first() == b.drop_first() {
            assert(a =~= seq![a[0]] + a.drop_first());
            assert(b =~= seq![b[0]] + b.drop_first());
        }
        lemma_lex_total(a.drop_first(), b.drop_first());
    }
}

/// `lex_lt` is asymmetric.
pub proof fn lemma_lex_asymmetric(a: Seq<char>, b: Seq<char>)
    requires
        lex_lt(a, b),
    ensures
        !lex_lt(b, a),
{
    if lex_lt(b, a) {
        lemma_lex_transitive(a, b, a);
        lemma_lex_irreflexive(a);
    }
}

proof fn lemma_lex_skip(a: Seq<char>, b: Seq<char>, i: int)
    requires
        0 <= i,
        i <= a.len(),
        i <= b.len(),
        a.take(i) == b.take(i),
    ensures
        lex_lt(a, b) == lex_lt(a.skip(i), b.skip(i)),
    decreases i,
{
    if i > 0 {
        assert(a[0] == a.take(i)[0]);
        assert(b[0] == b.take(i)[0]);
        assert(a.drop_first().take(i - 1) =~= a.take(i).drop_first());
        assert(b.drop_first().take(i - 1) =~= b.take(i).drop_first());
        lemma_lex_skip(a.drop_first(), b.drop_first(), i - 1);
        assert(a.drop_first().skip(i - 1) =~= a.skip(i));
        assert(b.drop_first().skip(i - 1) =~= b.skip(i));
    } else {
        assert(a.skip(0) =~= a);
        assert(b.skip(0) =~= b);
    }
}

proof fn lemma_leading_ws_step(s: Seq<char>, i: int)
    requires
        0 <= i < s.len(),
        is_white_space(s[i]),
        forall|k: int| 0 <= k < i ==> is_white_space(#[trigger] s[k]),
    ensures
        leading_ws(s) >= i + 1,
        leading_ws(s) == i + 1 + leading_ws(s.skip(i + 1)),
    decreases i,
{
    if i > 0 {
        lemma_leading_ws_step(s.drop_first(), i - 1);
        assert(s.drop_first().skip(i) =~= s.skip(i + 1));
    } else {
        assert(s.skip(1) =~= s.drop_first());
    }
}

proof fn lemma_leading_ws_stop(s: Seq<char>, i: int)
    requires
        0 <= i <= s.len(),
        i == s.len() || !is_white_space(s[i]),
        forall|k: int| 0 <= k < i ==> is_white_space(#[trigger] s[k]),
    ensures
        leading_ws(s) == i,
    decreases i,
{
    if i > 0 {
        lemma_leading_ws_stop(s.drop_first(), i - 1);
    }
}

proof fn lemma_trailing_ws_stop(s: Seq<char>, j: int)
    requires
        0 <= j <= s.len(),
        j == 0 || !is_white_space(s[j - 1]),
        forall|k: int| j <= k < s.len() ==> is_white_space(#[trigger] s[k]),
    ensures
        trailing_ws(s) == s.len() - j,
    decreases s.len() - j,
{
    if j < s.len() {
        assert(s.drop_last().len() == s.len() - 1);
        assert forall|k: int| j <= k < s.drop_last().len() implies is_white_space(
            #[trigger] s.drop_last()[k],
        ) by {
            assert(s.drop_last()[k] == s[k]);
        }
        if j > 0 {
            assert(s.drop_last()[j - 1] == s[j - 1]);
        }
        lemma_trailing_ws_stop(s.drop_last(), j);
    }
}

/// `s[i..j]` is what trimming `s` keeps: everything outside it is whitespace
/// and, when it is not empty, it starts and ends with a non-whitespace
/// character.
pub open spec fn trim_span(s: Seq<char>, i: int, j: int) -> bool {
    &&& 0 <= i <= j <= s.len()
    &&& forall|k: int| 0 <= k < i ==> is_white_space(#[trigger] s[k])
    &&& forall|k: int| j <= k < s.len() ==> is_white_space(#[trigger] s[k])
    &&& i < j ==> !is_white_space(s[i]) && !is_white_space(s[j - 1])
}

proof fn lemma_leading_facts(s: Seq<char>)
    ensures
        leading_ws(s) <= s.len(),
        forall|k: int| 0 <= k < leading_ws(s) ==> is_white_space(#[trigger] s[k]),
        leading_ws(s) < s.len() ==> !is_white_space(s[leading_ws(s) as int]),
    decreases s.len(),
{
    if s.len() > 0 && is_white_space(s[0]) {
        let t = s.drop_first();
        lemma_leading_facts(t);
        assert forall|k: int| 0 <= k < leading_ws(s) implies is_white_space(#[trigger] s[k]) by {
            if k > 0 {
                assert(s[k] == t[k - 1]);
            }
        }
        if leading_ws(s) < s.len() {
            assert(s[leading_ws(s) as int] == t[leading_ws(t) as int]);
        }
    }
}

proof fn lemma_trailing_facts(s: Seq<char>)
    ensures
        trailing_ws(s) <= s.len(),
        forall|k: int| s.len() - trailing_ws(s) <= k < s.len() ==> is_white_space(#[trigger] s[k]),
        trailing_ws(s) < s.len() ==> !is_white_space(s[s.len() - trailing_ws(s) - 1]),
    decreases s.len(),
{
    if s.len() > 0 && is_white_space(s.last()) {
        let t = s.drop_last();
        lemma_trailing_facts(t);
        assert forall|k: int| s.len() - trailing_ws(s) <= k < s.len() implies is_white_space(#[trigger] s[k]) by {
            if k < s.len() - 1 {
                assert(s[k] == t[k]);
            }
        }
        if trailing_ws(s) < s.len() {
            assert(s[s.len() - trailing_ws(s) - 1] == t[t.len() - trailing_ws(t) - 1]);
        }
    }
}

/// Trimming keeps exactly the part that a trim span marks.
pub proof fn lemma_trimmed_is_span(s: Seq<char>, i: int, j: int)
    requires
        trim_span(s, i, j),
    ensures
        trimmed(s) == s.subrange(i, j),
{
    if i < j {
        lemma_leading_ws_stop(s, i);
        let t = s.skip(i);
        assert forall|k: int| j - i <= k < t.len() implies is_white_space(#[trigger] t[k]) by {
            assert(t[k] == s[k + i]);
        }
        assert(t[j - i - 1] == s[j - 1]);
        lemma_trailing_ws_stop(t, j - i);
        assert(t.take(j - i) =~= s.subrange(i, j));
    } else {
        lemma_leading_ws_stop(s, s.len() as int);
        let t = s.skip(s.len() as int);
        assert(t.len() == 0);
        assert(t.take(0) =~= s.subrange(i, j));
    }
}

/// Every text has a trim span.
pub proof fn lemma_trim_span_exists(s: Seq<char>) -> (r: (int, int))
    ensures
        trim_span(s, r.0, r.1),
{
    lemma_leading_facts(s);
    let i = leading_ws(s) as int;
    let t = s.skip(i);
    lemma_trailing_facts(t);
    let j = i + t.len() - trailing_ws(t);
    assert forall|k: int| j <= k < s.len() implies is_white_space(#[trigger] s[k]) by {
        assert(s[k] == t[k - i]);
    }
    if i < j {
        assert(s[i] == t[0]);
        assert(s[j - 1] == t[t.len() - trailing_ws(t) - 1]);
    }
    (i, j)
}

/// Surrounding whitespace does not change what trimming keeps.
pub proof fn lemma_trimmed_padded(left: Seq<char>, s: Seq<char>, right: Seq<char>)
    requires
        forall|k: int| 0 <= k < left.len() ==> is_white_space(#[trigger] left[k]),
        forall|k: int| 0 <= k < right.len() ==> is_white_space(#[trigger] right[k]),
    ensures
        trimmed(left + s + right) == trimmed(s),
{
    let (i, j) = lemma_trim_span_exists(s);
    lemma_trimmed_is_span(s, i, j);
    let x = left + s + right;
    let p = left.len() as int;
    assert forall|k: int| 0 <= k < p + i implies is_white_space(#[trigger] x[k]) by {
        if k < p {
            assert(x[k] == left[k]);
        } else {
            assert(x[k] == s[k - p]);
        }
    }
    assert forall|k: int| p + j <= k < x.len() implies is_white_space(#[trigger] x[k]) by {
        if k < p + s.len() {
            assert(x[k] == s[k - p]);
        } else {
            assert(x[k] == right[k - p - s.len()]);
        }
    }
    if i < j {
        assert(x[p + i] == s[i]);
        assert(x[p + j - 1] == s[j - 1]);
    }
    lemma_trimmed_is_span(x, p + i, p + j);
    assert(x.subrange(p + i, p + j) =~= s.subrange(i, j));
}

/// ASCII uppercasing keeps whitespace where it is, so it commutes with
/// trimming; lowercasing afterwards gives the lowercase of the original.
pub proof fn lemma_case_folding(s: Seq<char>)
    ensures
        trimmed(ascii_upper(s)) == ascii_upper(trimmed(s)),
        ascii_lower(ascii_upper(s)) == ascii_lower(s),
{
    let u = ascii_upper(s);
    assert forall|k: int| 0 <= k < s.len() implies is_white_space(#[trigger] u[k]) == is_white_space(s[k])
        && lower_char(u[k]) == lower_char(s[k]) by {
        let c = s[k];
        if 'a' <= c && c <= 'z' {
            assert(((c as u32) - 32) as char as u32 == (c as u32) - 32);
        }
    }
    let (i, j) = lemma_trim_span_exists(s);
    lemma_trimmed_is_span(s, i, j);
    if i < j {
        assert(is_white_space(u[i]) == is_white_space(s[i]));
        assert(is_white_space(u[j - 1]) == is_white_space(s[j - 1]));
    }
    lemma_trimmed_is_span(u, i, j);
    assert(u.subrange(i, j) =~= ascii_upper(s.subrange(i, j)));
    assert(ascii_lower(u) =~= ascii_lower(s));
}

// ── Conversions ─────────────────────────────────────────────────────────────

/// `String::push`, which appends a character to the end of the string: the
/// contract claims that the new text is the old one followed by `c`.
#[verifier::external_body]
pub(crate) fn push_char(s: &mut String, c: char)
    ensures
        final(s)@ == old(s)@.push(c),
{
    s.push(c);
}

/// The characters of a string slice, in order.
pub fn chars_of(s: &str) -> (v: Vec<char>)
    ensures
        v@ == s@,
{
    let mut v: Vec<char> = Vec::new();
    for c in it: s.chars()
        invariant
            v@ == it.seq().take(it.index() as int),
    {
        v.push(c);
    }
    v
}

/// An owned copy of a string slice.
pub fn owned(s: &str) -> (r: String)
    ensures
        r@ == s@,
{
    let mut r = String::new();
    r.append(s);
    r
}

/// `a` followed by `b`.
pub fn concat2(a: &str, b: &str) -> (r: String)
    ensures
        r@ == a@ + b@,
{
    let mut r = String::new();
    r.append(a);
    r.append(b);
    r
}

/// `a`, `b` and `c` one after another.
pub fn concat3(a: &str, b: &str, c: &str) -> (r: String)
    ensures
        r@ == a@ + b@ + c@,
{
    let mut r = String::new();
    r.append(a);
    r.append(b);
    r.append(c);
    r
}

/// The strings of `list` with `sep` between neighbours (what `join` gives).
pub fn join_strings(list: &Vec<String>, sep: &str) -> (r: String)
    ensures
        r@ == joined(list@.map_values(|s: String| s@), sep@),
{
    let ghost texts = list@.map_values(|s: String| s@);
    let mut r = String::new();
    let mut i: usize = 0;
    while i < list.len()
        invariant
            i <= list.len(),
            texts == list@.map_values(|s: String| s@),
            r@ == joined(texts.take(i as int), sep@),
        decreases list.len() - i,
    {
        assert(texts.take(i + 1).drop_last() =~= texts.take(i as int));
        assert(texts.take(i + 1).last() == list@[i as int]@);
        if i > 0 {
            r.append(sep);
        } else {
            assert(r@ =~= Seq::<char>::empty());
        }
        r.append(list[i].as_str());
        i += 1;
    }
    assert(texts.take(list.len() as int) =~= texts);
    r
}

// ── Case, whitespace, comparison ────────────────────────────────────────────

/// ASCII lowercase of one character.
pub fn to_lower_char(c: char) -> (r: char)
    ensures
        r == lower_char(c),
{
    if 'A' <= c && c <= 'Z' {
        let x: u8 = (c as u8) + 32;
        x as char
    } else {
        c
    }
}

/// ASCII uppercase of one character.
pub fn to_upper_char(c: char) -> (r: char)
    ensures
        r == upper_char(c),
{
    if 'a' <= c && c <= 'z' {
        let x: u8 = (c as u8) - 32;
        x as char
    } else {
        c
    }
}

/// ASCII lowercase copy of a text (what `str::to_ascii_lowercase` gives).
pub fn to_ascii_lowercase(s: &str) -> (r: String)
    ensures
        r@ == ascii_lower(s@),
{
    let v = chars_of(s);
    let mut r = String::new();
    let mut i: usize = 0;
    while i < v.len()
        invariant
            i <= v.len(),
            v@ == s@,
            r@ == ascii_lower(v@.take(i as int)),
        decreases v.len() - i,
    {
        let c = to_lower_char(v[i]);
        push_char(&mut r, c);
        assert(ascii_lower(v@.take(i + 1)) =~= ascii_lower(v@.take(i as int)).push(c));
        i += 1;
    }
    assert(v@.take(v.len() as int) =~= v@);
    r
}

/// ASCII uppercase copy of a text (what `str::to_ascii_uppercase` gives).
pub fn to_ascii_uppercase(s: &str) -> (r: String)
    ensures
        r@ == ascii_upper(s@),
{
    let v = chars_of(s);
    let mut r = String::new();
    let mut i: usize = 0;
    while i < v.len()
        invariant
            i <= v.len(),
            v@ == s@,
            r@ == ascii_upper(v@.take(i as int)),
        decreases v.len() - i,
    {
        let c = to_upper_char(v[i]);
        push_char(&mut r, c);
        assert(ascii_upper(v@.take(i + 1)) =~= ascii_upper(v@.take(i as int)).push(c));
        i += 1;
    }
    assert(v@.take(v.len() as int) =~= v@);
    r
}

/// Whether a character is Unicode whitespace (what `char::is_whitespace` gives).
pub fn is_whitespace(c: char) -> (r: bool)
    ensures
        r == is_white_space(c),
{
    let x = c as u32;
    (0x9 <= x && x <= 0xd) || x == 0x20 || x == 0x85 || x == 0xa0 || x == 0x1680 || (0x2000 <= x
        && x <= 0x200a) || x == 0x2028 || x == 0x2029 || x == 0x202f || x == 0x205f || x == 0x3000
}

/// `s` without leading and trailing whitespace (what `str::trim` gives).
pub fn trim(s: &str) -> (r: &str)
    ensures
        r@ == trimmed(s@),
{
    let v = chars_of(s);
    let n = v.len();
    let mut i: usize = 0;
    while i < n && is_whitespace(v[i])
        invariant
            i <= n == v.len(),
            forall|k: int| 0 <= k < i ==> is_white_space(#[trigger] v@[k]),
        decreases n - i,
    {
        i += 1;
    }
    proof {
        lemma_leading_ws_stop(v@, i as int);
    }
    let mut j: usize = n;
    while j > i && is_whitespace(v[j - 1])
        invariant
            i <= j <= n == v.len(),
            forall|k: int| j <= k < n ==> is_white_space(#[trigger] v@[k]),
        decreases j - i,
    {
        j -= 1;
    }
    proof {
        let t = v@.skip(i as int);
        assert forall|k: int| j - i <= k < t.len() implies is_white_space(#[trigger] t[k]) by {
            assert(t[k] == v@[k + i]);
        }
        if j > i {
            assert(t[j - i - 1] == v@[j - 1]);
        }
        lemma_trailing_ws_stop(t, j - i);
        assert(t.take(j - i) =~= v@.subrange(i as int, j as int));
    }
    s.substring_char(i, j)
}

/// Whether two texts are equal.
pub fn str_eq(a: &str, b: &str) -> (r: bool)
    ensures
        r == (a@ == b@),
{
    let va = chars_of(a);
    let vb = chars_of(b);
    chars_eq(&va, &vb)
}

/// Whether two character vectors are equal.
pub fn chars_eq(a: &Vec<char>, b: &Vec<char>) -> (r: bool)
    ensures
        r == (a@ == b@),
{
    if a.len() != b.len() {
        return false;
    }
    let mut i: usize = 0;
    while i < a.len()
        invariant
            i <= a.len() == b.len(),
            forall|k: int| 0 <= k < i ==> a@[k] == b@[k],
        decreases a.len() - i,
    {
        if a[i] != b[i] {
            return false;
        }
        i += 1;
    }
    assert(a@ =~= b@);
    true
}

/// Whether `a` comes strictly before `b` in lexicographic order.
pub fn chars_less(a: &Vec<char>, b: &Vec<char>) -> (r: bool)
    ensures
        r == lex_lt(a@, b@),
{
    let mut i: usize = 0;
    while i < a.len() && i < b.len()
        invariant
            i <= a.len(),
            i <= b.len(),
            a@.take(i as int) == b@.take(i as int),
        decreases a.len() - i,
    {
        if a[i] != b[i] {
            proof {
                lemma_lex_skip(a@, b@, i as int);
                assert(a@.skip(i as int)[0] == a@[i as int]);
                assert(b@.skip(i as int)[0] == b@[i as int]);
            }
            return a[i] < b[i];
        }
        assert(a@.take(i + 1) =~= a@.take(i as int).push(a@[i as int]));
        assert(b@.take(i + 1) =~= b@.take(i as int).push(b@[i as int]));
        i += 1;
    }
    proof {
        lemma_lex_skip(a@, b@, i as int);
    }
    i < b.len()
}

/// Whether `a` comes strictly before `b` in lexicographic order.
pub fn str_less(a: &str, b: &str) -> (r: bool)
    ensures
        r == lex_lt(a@, b@),
{
    let va = chars_of(a);
    let vb = chars_of(b);
    chars_less(&va, &vb)
}

/// Whether `pat` occurs in `s` (what `str::contains` gives for a text pattern).
pub fn chars_contain(s: &Vec<char>, pat: &Vec<char>) -> (r: bool)
    ensures
        r == has_infix(s@, pat@),
{
    if pat.len() > s.len() {
        assert forall|i: int| 0 <= i && i + pat@.len() <= s@.len() implies #[trigger] s@.subrange(
            i,
            i + pat@.len(),
        ) != pat@ by {}
        return false;
    }
    let last = s.len() - pat.len();
    let mut i: usize = 0;
    loop
        invariant
            i <= last,
            last == s.len() - pat.len(),
            forall|k: int| 0 <= k < i ==> #[trigger] s@.subrange(k, k + pat@.len()) != pat@,
        decreases last - i,
    {
        let mut j: usize = 0;
        let mut same = true;
        while j < pat.len()
            invariant
                i <= last,
                last == s.len() - pat.len(),
                j <= pat.len(),
                same ==> forall|k: int| 0 <= k < j ==> s@[i + k] == pat@[k],
                !same ==> s@.subrange(i as int, i + pat@.len()) != pat@,
            decreases pat.len() - j,
        {
            if same && s[i + j] != pat[j] {
                same = false;
                assert(s@.subrange(i as int, i + pat@.len())[j as int] == s@[i + j]);
            }
            j += 1;
        }
        if same {
            assert(s@.subrange(i as int, i + pat@.len()) =~= pat@);
            return true;
        }
        if i == last {
            return false;
        }
        i += 1;
    }
}

/// Whether `pat` occurs in `s` (what `str::contains` gives for a text pattern).
pub fn contains(s: &str, pat: &str) -> (r: bool)
    ensures
        r == has_infix(s@, pat@),
{
    let vs = chars_of(s);
    let vp = chars_of(pat);
    chars_contain(&vs, &vp)
}

} // verus!
