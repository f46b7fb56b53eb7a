//! Character-level helpers on strings, each stated over `Seq<char>`.
use vstd::prelude::*;
use vstd::string::*;

verus! {

/// Appends one character to a `String` (std `String::push`).
#[verifier::external_body]
pub(crate) fn push_char(s: &mut String, c: char)
    ensures
        final(s)@ == old(s)@.push(c),
{
    s.push(c);
}

/// The characters of a string slice, in order.
pub fn chars_of(s: &str) -> (v: Vec<char>)
    ensures
        v@ == s@,
{
    let mut v: Vec<char> = Vec::new();
    for c in it: s.chars()
        invariant
            v@ == it.seq().take(it.index() as int),
    {
        v.push(c);
    }
    v
}

/// A fresh `String` holding `s`.
pub fn owned(s: &str) -> (r: String)
    ensures
        r@ == s@,
{
    s.to_owned()
}

/// A `String` holding the characters `v[from..to]`.
pub fn string_from_range(v: &Vec<char>, from: usize, to: usize) -> (r: String)
    requires
        from <= to <= v.len(),
    ensures
        r@ == v@.subrange(from as int, to as int),
{
    let mut r = String::new();
    let mut i = from;
    while i < to
        invariant
            from <= i <= to <= v.len(),
            r@ == v@.subrange(from as int, i as int),
        decreases to - i,
    {
        push_char(&mut r, v[i]);
        assert(v@.subrange(from as int, i + 1) == v@.subrange(from as int, i as int).push(v@[i as int]));
        i += 1;
    }
    r
}

/// A `String` holding all the characters of `v`.
pub fn string_from_chars(v: &Vec<char>) -> (r: String)
    ensures
        r@ == v@,
{
    let r = string_from_range(v, 0, v.len());
    assert(v@.subrange(0, v@.len() as int) == v@);
    r
}

/// `a` followed by `b`.
pub fn concat(a: &str, b: &str) -> (r: String)
    ensures
        r@ == a@ + b@,
{
    let mut r = a.to_owned();
    r.append(b);
    r
}

/// Two string slices hold the same characters.
pub fn str_eq(a: &str, b: &str) -> (r: bool)
    ensures
        r == (a@ == b@),
{
    let x = a.to_owned();
    let y = b.to_owned();
    x == y
}

// ---------------------------------------------------------------- whitespace

/// The Unicode `White_Space` property, which std's `char::is_whitespace` tests.
pub open spec fn is_ws(c: char) -> bool {
    ||| ('\u{9}' <= c && c <= '\u{d}')
    ||| c == ' '
    ||| c == '\u{85}'
    ||| c == '\u{a0}'
    ||| c == '\u{1680}'
    ||| ('\u{2000}' <= c && c <= '\u{200a}')
    ||| c == '\u{2028}'
    ||| c == '\u{2029}'
    ||| c == '\u{202f}'
    ||| c == '\u{205f}'
    ||| c == '\u{3000}'
}

pub fn is_whitespace(c: char) -> (b: bool)
    ensures
        b == is_ws(c),
{
    ('\u{9}' <= c && c <= '\u{d}') || c == ' ' || c == '\u{85}' || c == '\u{a0}' || c
        == '\u{1680}' || ('\u{2000}' <= c && c <= '\u{200a}') || c == '\u{2028}' || c
        == '\u{2029}' || c == '\u{202f}' || c == '\u{205f}' || c == '\u{3000}'
}

/// `s` without its leading whitespace (std `str::trim_start`).
pub open spec fn trim_ws_start(s: Seq<char>) -> Seq<char>
    decreases s.len(),
{
    if s.len() > 0 && is_ws(s[0]) {
        trim_ws_start(s.drop_first())
    } else {
        s
    }
}

/// `s` without its trailing whitespace (std `str::trim_end`).
pub open spec fn trim_ws_end(s: Seq<char>) -> Seq<char>
    decreases s.len(),
{
    if s.len() > 0 && is_ws(s.last()) {
        trim_ws_end(s.drop_last())
    } else {
        s
    }
}

/// `s` without leading and trailing whitespace (std `str::trim`).
pub open spec fn trim_ws(s: Seq<char>) -> Seq<char> {
    trim_ws_end(trim_ws_start(s))
}

/// `s` without leading occurrences of `c`.
pub open spec fn strip_leading(s: Seq<char>, c: char) -> Seq<char>
    decreases s.len(),
{
    if s.len() > 0 && s[0] == c {
        strip_leading(s.drop_first(), c)
    } else {
        s
    }
}

/// `s` without trailing occurrences of `c` (std `str::trim_end_matches` with a char).
pub open spec fn strip_trailing(s: Seq<char>, c: char) -> Seq<char>
    decreases s.len(),
{
    if s.len() > 0 && s.last() == c {
        strip_trailing(s.drop_last(), c)
    } else {
        s
    }
}

/// `s` without leading and trailing occurrences of `c` (std `str::trim_matches` with a char).
pub open spec fn strip_both(s: Seq<char>, c: char) -> Seq<char> {
    strip_trailing(strip_leading(s, c), c)
}

proof fn lemma_trim_ws_start_skip(s: Seq<char>, i: int)
    requires
        0 <= i <= s.len(),
        forall|k: int| 0 <= k < i ==> is_ws(#[trigger] s[k]),
    ensures
        trim_ws_start(s) == trim_ws_start(s.subrange(i, s.len() as int)),
    decreases i,
{
    if i > 0 {
        assert(s.drop_first().subrange(i - 1, s.drop_first().len() as int) =~= s.subrange(
            i,
            s.len() as int,
        ));
        assert forall|k: int| 0 <= k < i - 1 implies is_ws(#[trigger] s.drop_first()[k]) by {
            assert(s.drop_first()[k] == s[k + 1]);
        }
        lemma_trim_ws_start_skip(s.drop_first(), i - 1);
    } else {
        assert(s.subrange(0, s.len() as int) =~= s);
    }
}

proof fn lemma_trim_ws_end_skip(s: Seq<char>, j: int)
    requires
        0 <= j <= s.len(),
        forall|k: int| j <= k < s.len() ==> is_ws(#[trigger] s[k]),
    ensures
        trim_ws_end(s) == trim_ws_end(s.subrange(0, j)),
    decreases s.len() - j,
{
    if j < s.len() {
        assert(s.drop_last().subrange(0, j) =~= s.subrange(0, j));
        assert forall|k: int| j <= k < s.drop_last().len() implies is_ws(
            #[trigger] s.drop_last()[k],
        ) by {
            assert(s.drop_last()[k] == s[k]);
        }
        lemma_trim_ws_end_skip(s.drop_last(), j);
    } else {
        assert(s.subrange(0, j) =~= s);
    }
}

proof fn lemma_strip_leading_skip(s: Seq<char>, c: char, i: int)
    requires
        0 <= i <= s.len(),
        forall|k: int| 0 <= k < i ==> #[trigger] s[k] == c,
    ensures
        strip_leading(s, c) == strip_leading(s.subrange(i, s.len() as int), c),
    decreases i,
{
    if i > 0 {
        assert(s.drop_first().subrange(i - 1, s.drop_first().len() as int) =~= s.subrange(
            i,
            s.len() as int,
        ));
        assert forall|k: int| 0 <= k < i - 1 implies #[trigger] s.drop_first()[k] == c by {
            assert(s.drop_first()[k] == s[k + 1]);
        }
        lemma_strip_leading_skip(s.drop_first(), c, i - 1);
    } else {
        assert(s.subrange(0, s.len() as int) =~= s);
    }
}

proof fn lemma_strip_trailing_skip(s: Seq<char>, c: char, j: int)
    requires
        0 <= j <= s.len(),
        forall|k: int| j <= k < s.len() ==> #[trigger] s[k] == c,
    ensures
        strip_trailing(s, c) == strip_trailing(s.subrange(0, j), c),
    decreases s.len() - j,
{
    if j < s.len() {
        assert(s.drop_last().subrange(0, j) =~= s.subrange(0, j));
        assert forall|k: int| j <= k < s.drop_last().len() implies #[trigger] s.drop_last()[k]
            == c by {
            assert(s.drop_last()[k] == s[k]);
        }
        lemma_strip_trailing_skip(s.drop_last(), c, j);
    } else {
        assert(s.subrange(0, j) =~= s);
    }
}

/// The characters of `v` without leading and trailing whitespace.
pub fn trim_chars(v: &Vec<char>) -> (r: Vec<char>)
    ensures
        r@ == trim_ws(v@),
{
    let n = v.len();
    let mut i: usize = 0;
    while i < n && is_whitespace(v[i])
        invariant
            i <= n == v.len(),
            forall|k: int| 0 <= k < i ==> is_ws(#[trigger] v@[k]),
        decreases n - i,
    {
        i += 1;
    }
    proof {
        lemma_trim_ws_start_skip(v@, i as int);
        let t = v@.subrange(i as int, n as int);
        if i < n {
            assert(t[0] == v@[i as int]);
        }
        assert(trim_ws_start(t) == t);
    }
    let mut j: usize = n;
    while j > i && is_whitespace(v[j - 1])
        invariant
            i <= j <= n == v.len(),
            forall|k: int| j <= k < n ==> is_ws(#[trigger] v@[k]),
        decreases j,
    {
        j -= 1;
    }
    let mut r: Vec<char> = Vec::new();
    let mut k = i;
    while k < j
        invariant
            i <= k <= j <= n == v.len(),
            r@ == v@.subrange(i as int, k as int),
        decreases j - k,
    {
        r.push(v[k]);
        k += 1;
    }
    proof {
        let t = v@.subrange(i as int, n as int);
        assert forall|m: int| (j - i) <= m < t.len() implies is_ws(#[trigger] t[m]) by {
            assert(t[m] == v@[m + i]);
        }
        lemma_trim_ws_end_skip(t, j - i);
        assert(t.subrange(0, j - i) =~= r@);
        if j > i {
            assert(r@.last() == v@[j - 1]);
        }
        assert(trim_ws_end(r@) == r@);
    }
    r
}

/// The characters of `v` without leading and trailing occurrences of `c`.
pub fn strip_both_chars(v: &Vec<char>, c: char) -> (r: Vec<char>)
    ensures
        r@ == strip_both(v@, c),
{
    let n = v.len();
    let mut i: usize = 0;
    while i < n && v[i] == c
        invariant
            i <= n == v.len(),
            forall|k: int| 0 <= k < i ==> #[trigger] v@[k] == c,
        decreases n - i,
    {
        i += 1;
    }
    proof {
        lemma_strip_leading_skip(v@, c, i as int);
        let t = v@.subrange(i as int, n as int);
        if i < n {
            assert(t[0] == v@[i as int]);
        }
        assert(strip_leading(t, c) == t);
    }
    let mut j: usize = n;
    while j > i && v[j - 1] == c
        invariant
            i <= j <= n == v.len(),
            forall|k: int| j <= k < n ==> #[trigger] v@[k] == c,
        decreases j,
    {
        j -= 1;
    }
    let mut r: Vec<char> = Vec::new();
    let mut k = i;
    while k < j
        invariant
            i <= k <= j <= n == v.len(),
            r@ == v@.subrange(i as int, k as int),
        decreases j - k,
    {
        r.push(v[k]);
        k += 1;
    }
    proof {
        let t = v@.subrange(i as int, n as int);
        assert forall|m: int| (j - i) <= m < t.len() implies #[trigger] t[m] == c by {
            assert(t[m] == v@[m + i]);
        }
        lemma_strip_trailing_skip(t, c, j - i);
        assert(t.subrange(0, j - i) =~= r@);
        if j > i {
            assert(r@.last() == v@[j - 1]);
        }
        assert(strip_trailing(r@, c) == r@);
    }
    r
}

/// The characters of `v` without trailing occurrences of `c`.
pub fn strip_trailing_chars(v: &Vec<char>, c: char) -> (r: Vec<char>)
    ensures
        r@ == strip_trailing(v@, c),
{
    let n = v.len();
    let mut j: usize = n;
    while j > 0 && v[j - 1] == c
        invariant
            j <= n == v.len(),
            forall|k: int| j <= k < n ==> #[trigger] v@[k] == c,
        decreases j,
    {
        j -= 1;
    }
    let mut r: Vec<char> = Vec::new();
    let mut k: usize = 0;
    while k < j
        invariant
            k <= j <= n == v.len(),
            r@ == v@.subrange(0, k as int),
        decreases j - k,
    {
        r.push(v[k]);
        k += 1;
    }
    proof {
        lemma_strip_trailing_skip(v@, c, j as int);
        if j > 0 {
            assert(r@.last() == v@[j - 1]);
        }
        assert(strip_trailing(r@, c) == r@);
    }
    r
}

// ---------------------------------------------------------------- ASCII case

pub open spec fn ascii_lower_char(c: char) -> char {
    if 'A' <= c && c <= 'Z' {
        ((c as int) + 32) as char
    } else {
        c
    }
}

pub open spec fn ascii_upper_char(c: char) -> char {
    if 'a' <= c && c <= 'z' {
        ((c as int) - 32) as char
    } else {
        c
    }
}

/// std `str::to_ascii_lowercase`.
pub open spec fn ascii_lower(s: Seq<char>) -> Seq<char> {
    s.map_values(|c: char| ascii_lower_char(c))
}

/// std `str::to_ascii_uppercase`.
pub open spec fn ascii_upper(s: Seq<char>) -> Seq<char> {
    s.map_values(|c: char| ascii_upper_char(c))
}

pub fn to_ascii_lower_char(c: char) -> (r: char)
    ensures
        r == ascii_lower_char(c),
{
    if 'A' <= c && c <= 'Z' {
        let u = (c as u32) + 32;
        assert(65 <= u <= 122);
        char_from_ascii(u as u8)
    } else {
        c
    }
}

pub fn to_ascii_upper_char(c: char) -> (r: char)
    ensures
        r == ascii_upper_char(c),
{
    if 'a' <= c && c <= 'z' {
        let u = (c as u32) - 32;
        char_from_ascii(u as u8)
    } else {
        c
    }
}

/// The character with an ASCII code.
fn char_from_ascii(b: u8) -> (c: char)
    requires
        b < 128,
    ensures
        c == (b as int) as char,
{
    b as char
}

pub fn to_ascii_lower(v: &Vec<char>) -> (r: Vec<char>)
    ensures
        r@ == ascii_lower(v@),
{
    let mut r: Vec<char> = Vec::new();
    for i in 0..v.len()
        invariant
            r@ == ascii_lower(v@.subrange(0, i as int)),
    {
        let c = to_ascii_lower_char(v[i]);
        r.push(c);
        assert(ascii_lower(v@.subrange(0, i + 1)) =~= ascii_lower(v@.subrange(0, i as int)).push(
            c,
        ));
    }
    assert(v@.subrange(0, v@.len() as int) =~= v@);
    r
}

pub fn to_ascii_upper(s: &str) -> (r: String)
    ensures
        r@ == ascii_upper(s@),
{
    let v = chars_of(s);
    let mut r = String::new();
    for i in 0..v.len()
        invariant
            v@ == s@,
            r@ == ascii_upper(v@.subrange(0, i as int)),
    {
        let c = to_ascii_upper_char(v[i]);
        push_char(&mut r, c);
        assert(ascii_upper(v@.subrange(0, i + 1)) =~= ascii_upper(v@.subrange(0, i as int)).push(
            c,
        ));
    }
    assert(v@.subrange(0, v@.len() as int) =~= v@);
    r
}

pub open spec fn is_ascii_char(c: char) -> bool {
    (c as int) < 128
}

pub open spec fn all_ascii(s: Seq<char>) -> bool {
    forall|i: int| 0 <= i < s.len() ==> is_ascii_char(#[trigger] s[i])
}

} // verus!

verus! {

// ---------------------------------------------------------------- splitting

/// The pieces of `s[start..]` split at `sep`, scanning from `pos` (std `str::split` with a char).
pub open spec fn split_from(s: Seq<char>, sep: char, start: int, pos: int) -> Seq<Seq<char>>
    decreases s.len() - pos,
{
    if pos >= s.len() {
        seq![s.subrange(start, s.len() as int)]
    } else if s[pos] == sep {
        seq![s.subrange(start, pos)] + split_from(s, sep, pos + 1, pos + 1)
    } else {
        split_from(s, sep, start, pos + 1)
    }
}

/// std `str::split` with a char pattern: every piece between separators, empty ones included.
pub open spec fn split(s: Seq<char>, sep: char) -> Seq<Seq<char>> {
    split_from(s, sep, 0, 0)
}

/// `s` holds the character `c`.
pub open spec fn has_char(s: Seq<char>, c: char) -> bool {
    exists|i: int| 0 <= i < s.len() && s[i] == c
}

pub fn contains_char(v: &Vec<char>, c: char) -> (b: bool)
    ensures
        b == has_char(v@, c),
{
    for i in 0..v.len()
        invariant
            forall|k: int| 0 <= k < i ==> v@[k] != c,
    {
        if v[i] == c {
            return true;
        }
    }
    false
}

/// `p` occurs in `s` at position `i`.
pub open spec fn occurs_at(s: Seq<char>, p: Seq<char>, i: int) -> bool {
    0 <= i && i + p.len() <= s.len() && s.subrange(i, i + p.len()) == p
}

/// `s` starts with `p` (std `str::starts_with`).
pub open spec fn starts_with(s: Seq<char>, p: Seq<char>) -> bool {
    occurs_at(s, p, 0)
}

/// `s` ends with `p` (std `str::ends_with`).
pub open spec fn ends_with(s: Seq<char>, p: Seq<char>) -> bool {
    p.len() <= s.len() && s.subrange(s.len() - p.len(), s.len() as int) == p
}

pub fn chars_occur_at(s: &Vec<char>, p: &Vec<char>, i: usize) -> (b: bool)
    ensures
        b == occurs_at(s@, p@, i as int),
{
    if i > s.len() || p.len() > s.len() - i {
        return false;
    }
    for k in 0..p.len()
        invariant
            i + p.len() <= s.len(),
            forall|m: int| 0 <= m < k ==> s@[i + m] == p@[m],
    {
        if s[i + k] != p[k] {
            assert(s@.subrange(i as int, i + p.len())[k as int] != p@[k as int]);
            return false;
        }
    }
    assert(s@.subrange(i as int, i + p.len()) =~= p@);
    true
}

pub fn chars_ends_with(s: &Vec<char>, p: &Vec<char>) -> (b: bool)
    ensures
        b == ends_with(s@, p@),
{
    if p.len() > s.len() {
        false
    } else {
        chars_occur_at(s, p, s.len() - p.len())
    }
}

/// `p` occurs somewhere in `s` (std `str::contains` with a string pattern).
pub open spec fn contains_seq(s: Seq<char>, p: Seq<char>) -> bool {
    exists|i: int| occurs_at(s, p, i)
}

pub fn chars_contain(s: &Vec<char>, p: &Vec<char>) -> (b: bool)
    ensures
        b == contains_seq(s@, p@),
{
    if p.len() > s.len() {
        assert forall|i: int| !occurs_at(s@, p@, i) by {}
        return false;
    }
    if p.len() == 0 {
        assert(s@.subrange(0, 0) =~= p@);
        assert(occurs_at(s@, p@, 0));
        return true;
    }
    let last = s.len() - p.len();
    let mut i: usize = 0;
    while i <= last
        invariant
            last + p.len() == s.len(),
            p.len() > 0,
            forall|k: int| 0 <= k < i ==> !occurs_at(s@, p@, k),
        decreases last + 1 - i,
    {
        if chars_occur_at(s, p, i) {
            return true;
        }
        i += 1;
    }
    assert forall|k: int| !occurs_at(s@, p@, k) by {
        if 0 <= k < i {
        }
    }
    false
}

// ---------------------------------------------------------------- decimal numbers

pub open spec fn digit_char(d: nat) -> char {
    ((d as int) + 48) as char
}

/// The decimal digits of `n`, as std's `Display` for unsigned integers writes them.
pub open spec fn decimal(n: nat) -> Seq<char>
    decreases n,
{
    if n < 10 {
        seq![digit_char(n)]
    } else {
        decimal(n / 10).push(digit_char(n % 10))
    }
}

pub fn write_decimal(out: &mut String, n: usize)
    ensures
        final(out)@ == old(out)@ + decimal(n as nat),
    decreases n,
{
    if n < 10 {
        push_char(out, char_from_ascii((n as u8) + 48));
        assert(old(out)@.push(digit_char(n as nat)) =~= old(out)@ + decimal(n as nat));
    } else {
        write_decimal(out, n / 10);
        push_char(out, char_from_ascii(((n % 10) as u8) + 48));
        assert(old(out)@ + decimal((n / 10) as nat) + seq![digit_char((n % 10) as nat)] =~= old(
            out,
        )@ + decimal(n as nat));
    }
}

/// `n` written in decimal (std `usize::to_string`).
pub fn usize_to_string(n: usize) -> (r: String)
    ensures
        r@ == decimal(n as nat),
{
    let mut r = String::new();
    write_decimal(&mut r, n);
    assert(Seq::<char>::empty() + decimal(n as nat) =~= decimal(n as nat));
    r
}

} // verus!

verus! {

/// A copy of a list of strings (std `Vec::clone`).
pub fn clone_strings(v: &Vec<String>) -> (r: Vec<String>)
    ensures
        r@ == v@,
{
    let mut r: Vec<String> = Vec::new();
    for i in 0..v.len()
        invariant
            r@ == v@.subrange(0, i as int),
    {
        r.push(v[i].clone());
        assert(r@ =~= v@.subrange(0, i + 1));
    }
    assert(v@.subrange(0, v@.len() as int) =~= v@);
    r
}

/// A copy of an optional string (std `Option::clone`).
pub fn clone_opt_string(v: &Option<String>) -> (r: Option<String>)
    ensures
        r == *v,
{
    match v {
        Some(s) => Some(s.clone()),
        None => None,
    }
}

} // verus!

verus! {

/// The pieces of `list` with `sep` between neighbours (std `[String]::join`).
pub open spec fn join(list: Seq<Seq<char>>, sep: Seq<char>) -> Seq<char>
    decreases list.len(),
{
    if list.len() == 0 {
        Seq::empty()
    } else if list.len() == 1 {
        list[0]
    } else {
        join(list.drop_last(), sep) + sep + list.last()
    }
}

/// The views of a list of strings.
pub open spec fn views(v: Seq<String>) -> Seq<Seq<char>> {
    v.map_values(|s: String| s@)
}

/// The strings of `list` joined by `sep`.
pub fn join_strings(list: &[String], sep: &str) -> (r: String)
    ensures
        r@ == join(views(list@), sep@),
{
    let mut r = String::new();
    let ghost vs = views(list@);
    for i in 0..list.len()
        invariant
            vs == views(list@),
            r@ == join(vs.take(i as int), sep@),
    {
        assert(vs.take(i + 1).drop_last() =~= vs.take(i as int));
        assert(vs.take(i + 1).last() == list@[i as int]@);
        if i != 0 {
            r.append(sep);
        } else {
            assert(vs.take(1).len() == 1);
        }
        r.append(list[i].as_str());
    }
    assert(vs.take(list.len() as int) =~= vs);
    r
}

/// `a`, then `b`, then `c`.
pub fn concat3(a: &str, b: &str, c: &str) -> (r: String)
    ensures
        r@ == a@ + b@ + c@,
{
    let mut r = a.to_owned();
    r.append(b);
    r.append(c);
    r
}

} // verus!

verus! {

/// Removes the last character of a `String`, if any (std `String::pop`).
#[verifier::external_body]
pub(crate) fn pop_char(s: &mut String)
    ensures
        old(s)@.len() > 0 ==> final(s)@ == old(s)@.drop_last(),
        old(s)@.len() == 0 ==> final(s)@ == old(s)@,
{
    s.pop();
}

} // verus!

verus! {

pub proof fn lemma_strip_leading_props(s: Seq<char>, c: char)
    ensures
        strip_leading(s, c).len() == 0 || strip_leading(s, c)[0] != c,
        strip_leading(s, c).len() <= s.len(),
    decreases s.len(),
{
    if s.len() > 0 && s[0] == c {
        lemma_strip_leading_props(s.drop_first(), c);
    }
}

pub proof fn lemma_strip_trailing_props(s: Seq<char>, c: char)
    ensures
        strip_trailing(s, c).len() <= s.len(),
        strip_trailing(s, c) == s.subrange(0, strip_trailing(s, c).len() as int),
        strip_trailing(s, c).len() == 0 || strip_trailing(s, c).last() != c,
    decreases s.len(),
{
    if s.len() > 0 && s.last() == c {
        lemma_strip_trailing_props(s.drop_last(), c);
        let r = strip_trailing(s.drop_last(), c);
        assert(s.drop_last().subrange(0, r.len() as int) =~= s.subrange(0, r.len() as int));
    } else {
        assert(s.subrange(0, s.len() as int) =~= s);
    }
}

pub proof fn lemma_trim_ws_noop(s: Seq<char>)
    requires
        forall|i: int| 0 <= i < s.len() ==> !is_ws(#[trigger] s[i]),
    ensures
        trim_ws(s) == s,
{
    if s.len() > 0 {
        assert(!is_ws(s[0]));
        assert(!is_ws(s.last()));
    }
}

pub proof fn lemma_ascii_lower_idempotent(s: Seq<char>)
    ensures
        ascii_lower(ascii_lower(s)) == ascii_lower(s),
{
    assert(ascii_lower(ascii_lower(s)) =~= ascii_lower(s));
}

} // verus!

verus! {

/// `v` holds exactly the characters of `lit`.
pub fn chars_are(v: &Vec<char>, lit: &str) -> (b: bool)
    ensures
        b == (v@ == lit@),
{
    let w = chars_of(lit);
    if v.len() != w.len() {
        return false;
    }
    for i in 0..v.len()
        invariant
            v@.len() == w@.len(),
            w@ == lit@,
            forall|k: int| 0 <= k < i ==> v@[k] == w@[k],
    {
        if v[i] != w[i] {
            return false;
        }
    }
    assert(v@ =~= w@);
    true
}

/// The characters `v[from..to]`.
pub fn chars_range(v: &Vec<char>, from: usize, to: usize) -> (r: Vec<char>)
    requires
        from <= to <= v.len(),
    ensures
        r@ == v@.subrange(from as int, to as int),
{
    let mut r: Vec<char> = Vec::new();
    let mut i = from;
    while i < to
        invariant
            from <= i <= to <= v.len(),
            r@ == v@.subrange(from as int, i as int),
        decreases to - i,
    {
        r.push(v[i]);
        i += 1;
    }
    r
}

pub open spec fn char_views(v: Seq<Vec<char>>) -> Seq<Seq<char>> {
    v.map_values(|x: Vec<char>| x@)
}

/// The pieces of `v` between occurrences of `sep`, empty ones included (std `str::split`).
pub fn split_chars(v: &Vec<char>, sep: char) -> (r: Vec<Vec<char>>)
    ensures
        char_views(r@) == split(v@, sep),
{
    let n = v.len();
    let mut r: Vec<Vec<char>> = Vec::new();
    let mut start: usize = 0;
    let mut pos: usize = 0;
    while pos < n
        invariant
            start <= pos <= n == v.len(),
            split(v@, sep) == char_views(r@) + split_from(v@, sep, start as int, pos as int),
        decreases n - pos,
    {
        if v[pos] == sep {
            let piece = chars_range(v, start, pos);
            proof {
                let rest = split_from(v@, sep, pos + 1, pos + 1);
                assert(split_from(v@, sep, start as int, pos as int) == seq![v@.subrange(start as int, pos as int)] + rest);
            }
            let ghost before = r@;
            r.push(piece);
            proof {
                assert(char_views(r@) =~= char_views(before).push(piece@));
                let rest = split_from(v@, sep, pos + 1, pos + 1);
                assert(char_views(before) + (seq![piece@] + rest) =~= char_views(before).push(piece@) + rest);
            }
            start = pos + 1;
        } else {
            assert(split_from(v@, sep, start as int, pos as int) == split_from(v@, sep, start as int, pos + 1));
        }
        pos += 1;
    }
    let piece = chars_range(v, start, n);
    let ghost before = r@;
    r.push(piece);
    proof {
        assert(split_from(v@, sep, start as int, pos as int) == seq![v@.subrange(start as int, n as int)]);
        assert(char_views(r@) =~= char_views(before).push(piece@));
        assert(char_views(before) + seq![piece@] =~= char_views(before).push(piece@));
    }
    r
}

} // verus!

verus! {

// ---------------------------------------------------------------- lines

/// std `str::lines`: the pieces between `'\n'`; a piece followed by `'\n'` loses a final
/// `'\r'`, and the empty piece after a final `'\n'` (or of an empty text) is not a line.
pub open spec fn lines(s: Seq<char>) -> Seq<Seq<char>> {
    let parts = split(s, '\n');
    let kept = if parts.len() > 0 && parts.last().len() == 0 { parts.drop_last() } else { parts };
    Seq::new(
        kept.len(),
        |i: int|
            if i < parts.len() - 1 && kept[i].len() > 0 && kept[i].last() == '\r' {
                kept[i].drop_last()
            } else {
                kept[i]
            },
    )
}

/// Each line of `s` (std `str::lines`) with its surrounding whitespace removed.
pub open spec fn trimmed_lines(s: Seq<char>) -> Seq<Seq<char>> {
    lines(s).map_values(|l: Seq<char>| trim_ws(l))
}

/// The lines of `s`, each trimmed (std `str::lines` then `str::trim`).
pub fn trimmed_lines_of(s: &str) -> (r: Vec<Vec<char>>)
    ensures
        char_views(r@) == trimmed_lines(s@),
{
    let v = chars_of(s);
    let parts = split_chars(&v, '\n');
    let ghost pv = char_views(parts@);
    let n = parts.len();
    let kept = if n > 0 && parts[n - 1].len() == 0 { n - 1 } else { n };
    proof {
        assert(pv == split(s@, '\n'));
        assert(n > 0 ==> pv.last() == parts@[n - 1]@);
    }
    let mut r: Vec<Vec<char>> = Vec::new();
    let mut i: usize = 0;
    while i < kept
        invariant
            kept <= n == parts.len(),
            pv == char_views(parts@),
            pv == split(s@, '\n'),
            kept == (if pv.len() > 0 && pv.last().len() == 0 { pv.len() - 1 } else { pv.len() as int }),
            i <= kept,
            r@.len() == i,
            forall|k: int| 0 <= k < i ==> #[trigger] r@[k]@ == trimmed_lines(s@)[k],
        decreases kept - i,
    {
        let piece = &parts[i];
        let m = piece.len();
        let line = if i + 1 < n && m > 0 && piece[m - 1] == '\r' {
            chars_range(piece, 0, m - 1)
        } else {
            chars_range(piece, 0, m)
        };
        proof {
            assert(piece@.subrange(0, m as int) =~= piece@);
            assert(m > 0 ==> piece@.subrange(0, m - 1) =~= piece@.drop_last());
        }
        let t = trim_chars(&line);
        r.push(t);
        i += 1;
    }
    proof {
        assert(char_views(r@) =~= trimmed_lines(s@));
    }
    r
}

/// `s` does not start with `c`.
pub open spec fn not_starting_with(s: Seq<char>, c: char) -> bool {
    s.len() == 0 || s[0] != c
}

} // verus!

verus! {

/// `dir` joined with the relative path `name`, as std `Path::join` does: a `'/'` goes between
/// them unless `dir` is empty or already ends with one.
pub open spec fn spec_join_path(dir: Seq<char>, name: Seq<char>) -> Seq<char> {
    if dir.len() == 0 {
        name
    } else if dir.last() == '/' {
        dir + name
    } else {
        dir + seq!['/'] + name
    }
}

/// `dir` joined with the relative path `name`.
pub fn join_path(dir: &str, name: &str) -> (r: String)
    ensures
        r@ == spec_join_path(dir@, name@),
{
    let d = chars_of(dir);
    if d.len() == 0 {
        owned(name)
    } else if d[d.len() - 1] == '/' {
        concat(dir, name)
    } else {
        proof {
            reveal_strlit("/");
        }
        concat3(dir, "/", name)
    }
}

} // verus!

verus! {

/// What std's `str::to_lowercase` returns for a text: the text with every character replaced
/// by its lowercase mapping from the Unicode tables.
pub uninterp spec fn unicode_lowercase(s: Seq<char>) -> Seq<char>;

/// std `str::to_lowercase`. Its documentation defines the result by the Unicode derived
/// property `Lowercase` and the Unicode case tables, and it depends on the text alone; the
/// result is named. One fact of those tables is claimed besides: an ASCII text lowercases as
/// `to_ascii_lowercase` does (`A`–`Z` map to `a`–`z`, every other ASCII character to itself).
#[verifier::external_body]
pub(crate) fn to_lowercase(s: &str) -> (r: String)
    ensures
        r@ == unicode_lowercase(s@),
        all_ascii(s@) ==> r@ == ascii_lower(s@),
{
    s.to_lowercase()
}

} // verus!

verus! {

/// std `str::replace`: every occurrence of `p`, scanning from the left without overlaps,
/// replaced by `r`; an empty `p` matches before every character and at the end.
pub open spec fn replace_all(s: Seq<char>, p: Seq<char>, r: Seq<char>) -> Seq<char>
    decreases s.len(),
{
    if p.len() == 0 {
        if s.len() == 0 {
            r
        } else {
            r + seq![s[0]] + replace_all(s.drop_first(), p, r)
        }
    } else if s.len() == 0 {
        s
    } else if occurs_at(s, p, 0) {
        r + replace_all(s.subrange(p.len() as int, s.len() as int), p, r)
    } else {
        seq![s[0]] + replace_all(s.drop_first(), p, r)
    }
}

/// `s` with every occurrence of `p` replaced by `r`.
pub fn replace_str(s: &str, p: &str, r: &str) -> (out: String)
    ensures
        out@ == replace_all(s@, p@, r@),
{
    let v = chars_of(s);
    let pv = chars_of(p);
    let n = v.len();
    let mut out = String::new();
    let mut i: usize = 0;
    assert(v@.subrange(0, n as int) =~= v@);
    while i < n
        invariant
            n == v@.len(),
            v@ == s@,
            pv@ == p@,
            i <= n,
            out@ + replace_all(v@.subrange(i as int, n as int), p@, r@) == replace_all(s@, p@, r@),
        decreases n - i,
    {
        let ghost rest = v@.subrange(i as int, n as int);
        if pv.len() == 0 {
            out.append(r);
            push_char(&mut out, v[i]);
            assert(rest.drop_first() =~= v@.subrange(i + 1, n as int));
            assert(rest[0] == v@[i as int]);
            i += 1;
        } else if chars_occur_at(&v, &pv, i) {
            out.append(r);
            proof {
                assert(rest.subrange(0, pv@.len() as int) =~= v@.subrange(i as int, i + pv@.len()));
                assert(occurs_at(rest, p@, 0));
                assert(rest.subrange(pv@.len() as int, rest.len() as int) =~= v@.subrange(i + pv@.len(), n as int));
            }
            i += pv.len();
        } else {
            proof {
                if occurs_at(rest, p@, 0) {
                    assert(rest.subrange(0, pv@.len() as int) =~= v@.subrange(i as int, i + pv@.len()));
                }
                assert(rest.drop_first() =~= v@.subrange(i + 1, n as int));
                assert(rest[0] == v@[i as int]);
            }
            push_char(&mut out, v[i]);
            i += 1;
        }
    }
    if pv.len() == 0 {
        out.append(r);
    }
    proof {
        assert(v@.subrange(n as int, n as int) =~= Seq::<char>::empty());
    }
    out
}

} // verus!

verus! {

/// The pieces of `s[start..]` between runs of whitespace, scanning from `pos`.
pub open spec fn words_from(s: Seq<char>, start: int, pos: int) -> Seq<Seq<char>>
    decreases s.len() - pos,
{
    if pos >= s.len() {
        if start < s.len() {
            seq![s.subrange(start, s.len() as int)]
        } else {
            Seq::empty()
        }
    } else if is_ws(s[pos]) {
        (if start < pos { seq![s.subrange(start, pos)] } else { Seq::empty() }) + words_from(s, pos + 1, pos + 1)
    } else {
        words_from(s, start, pos + 1)
    }
}

/// std `str::split_whitespace`: the non-empty runs of non-whitespace characters.
pub open spec fn words(s: Seq<char>) -> Seq<Seq<char>> {
    words_from(s, 0, 0)
}

/// The words of `s`, in order.
pub fn split_words(s: &str) -> (r: Vec<String>)
    ensures
        views(r@) == words(s@),
{
    let v = chars_of(s);
    let n = v.len();
    let mut r: Vec<String> = Vec::new();
    let mut start: usize = 0;
    let mut pos: usize = 0;
    while pos < n
        invariant
            v@ == s@,
            n == v@.len(),
            start <= pos <= n,
            words(s@) == views(r@) + words_from(v@, start as int, pos as int),
        decreases n - pos,
    {
        if is_whitespace(v[pos]) {
            let ghost before = views(r@);
            if start < pos {
                let piece = string_from_range(&v, start, pos);
                r.push(piece);
                assert(views(r@) =~= before.push(v@.subrange(start as int, pos as int)));
                assert(before + (seq![v@.subrange(start as int, pos as int)] + words_from(v@, pos + 1, pos + 1)) =~= views(r@) + words_from(v@, pos + 1, pos + 1));
            } else {
                assert(before + (Seq::<Seq<char>>::empty() + words_from(v@, pos + 1, pos + 1)) =~= before + words_from(v@, pos + 1, pos + 1));
            }
            start = pos + 1;
        }
        pos += 1;
    }
    let ghost before = views(r@);
    if start < n {
        let piece = string_from_range(&v, start, n);
        r.push(piece);
        assert(views(r@) =~= before.push(v@.subrange(start as int, n as int)));
        assert(before + seq![v@.subrange(start as int, n as int)] =~= views(r@));
    } else {
        assert(before + Seq::<Seq<char>>::empty() =~= before);
    }
    r
}

} // verus!

verus! {

/// Filtering a sequence with one more element at the end.
pub proof fn lemma_filter_push<A>(s: Seq<A>, e: A, p: spec_fn(A) -> bool)
    ensures
        s.push(e).filter(p) == (if p(e) { s.filter(p).push(e) } else { s.filter(p) }),
{
    reveal(Seq::filter);
    assert(s.push(e).drop_last() =~= s);
}

} // verus!

verus! {

/// Scanning past characters that are not the separator does not change the pieces.
pub proof fn lemma_split_scan(s: Seq<char>, sep: char, start: int, pos: int, k: int)
    requires
        0 <= start <= pos <= k <= s.len(),
        forall|m: int| pos <= m < k ==> #[trigger] s[m] != sep,
    ensures
        split_from(s, sep, start, pos) == split_from(s, sep, start, k),
    decreases k - pos,
{
    if pos < k {
        lemma_split_scan(s, sep, start, pos + 1, k);
    }
}

/// The pieces from `start` depend only on the text from `start`.
pub proof fn lemma_split_shift(s: Seq<char>, sep: char, start: int, pos: int)
    requires
        0 <= start <= pos <= s.len(),
    ensures
        split_from(s, sep, start, pos) == split_from(s.subrange(start, s.len() as int), sep, 0, pos - start),
    decreases s.len() - pos,
{
    let t = s.subrange(start, s.len() as int);
    if pos >= s.len() {
        assert(t.subrange(0, t.len() as int) =~= s.subrange(start, s.len() as int));
    } else if s[pos] == sep {
        assert(t[pos - start] == s[pos]);
        assert(t.subrange(0, pos - start) =~= s.subrange(start, pos));
        lemma_split_shift(s, sep, pos + 1, pos + 1);
        lemma_split_shift(t, sep, pos - start + 1, pos - start + 1);
        assert(t.subrange(pos - start + 1, t.len() as int) =~= s.subrange(pos + 1, s.len() as int));
    } else {
        assert(t[pos - start] == s[pos]);
        lemma_split_shift(s, sep, start, pos + 1);
    }
}

/// Every line followed by the separator, front first.
pub open spec fn terminated(list: Seq<Seq<char>>, sep: char) -> Seq<char>
    decreases list.len(),
{
    if list.len() == 0 {
        Seq::empty()
    } else {
        list[0] + seq![sep] + terminated(list.drop_first(), sep)
    }
}

proof fn lemma_terminated_push(list: Seq<Seq<char>>, x: Seq<char>, sep: char)
    ensures
        terminated(list.push(x), sep) == terminated(list, sep) + x + seq![sep],
    decreases list.len(),
{
    if list.len() == 0 {
        assert(list.push(x).drop_first() =~= Seq::<Seq<char>>::empty());
        assert(list.push(x)[0] == x);
        assert(terminated(Seq::<Seq<char>>::empty(), sep) =~= Seq::<char>::empty());
        assert(terminated(list.push(x), sep) =~= x + seq![sep]);
        assert(terminated(list, sep) + x + seq![sep] =~= x + seq![sep]);
    } else {
        assert(list.push(x).drop_first() =~= list.drop_first().push(x));
        lemma_terminated_push(list.drop_first(), x, sep);
        assert(terminated(list.push(x), sep) =~= terminated(list, sep) + x + seq![sep]);
    }
}

/// Joining with a separator and ending with one terminates every piece.
pub proof fn lemma_join_terminated(list: Seq<Seq<char>>, sep: char)
    requires
        list.len() > 0,
    ensures
        join(list, seq![sep]) + seq![sep] == terminated(list, sep),
    decreases list.len(),
{
    if list.len() == 1 {
        assert(list =~= Seq::<Seq<char>>::empty().push(list[0]));
        lemma_terminated_push(Seq::<Seq<char>>::empty(), list[0], sep);
        assert(terminated(Seq::<Seq<char>>::empty(), sep) =~= Seq::<char>::empty());
        assert(join(list, seq![sep]) + seq![sep] =~= Seq::<char>::empty() + list[0] + seq![sep]);
    } else {
        lemma_join_terminated(list.drop_last(), sep);
        assert(list.drop_last().push(list.last()) =~= list);
        lemma_terminated_push(list.drop_last(), list.last(), sep);
        assert(join(list, seq![sep]) + seq![sep] =~= (join(list.drop_last(), seq![sep]) + seq![sep]) + list.last() + seq![sep]);
    }
}

/// Splitting terminated pieces that hold no separator gives them back, and an empty last piece.
/// Splitting lines that were each ended by the separator, then a last piece without it,
/// gives those lines and the last piece.
pub proof fn lemma_split_terminated_then(list: Seq<Seq<char>>, x: Seq<char>, sep: char)
    requires
        forall|i: int, m: int| 0 <= i < list.len() && 0 <= m < list[i].len() ==> #[trigger] list[i][m] != sep,
        forall|m: int| 0 <= m < x.len() ==> #[trigger] x[m] != sep,
    ensures
        split(terminated(list, sep) + x, sep) == list.push(x),
    decreases list.len(),
{
    let s = terminated(list, sep) + x;
    if list.len() == 0 {
        assert(s =~= x);
        lemma_split_scan(s, sep, 0, 0, s.len() as int);
        assert(s.subrange(0, s.len() as int) =~= x);
        assert(split(s, sep) =~= seq![x]);
        assert(list.push(x) =~= seq![x]);
    } else {
        let y = list[0];
        let rest = list.drop_first();
        assert forall|i: int, m: int| 0 <= i < rest.len() && 0 <= m < rest[i].len() implies #[trigger] rest[i][m] != sep by {
            assert(rest[i] == list[i + 1]);
        }
        lemma_split_terminated_then(rest, x, sep);
        let n = y.len() as int;
        assert(s =~= y + seq![sep] + (terminated(rest, sep) + x));
        assert forall|m: int| 0 <= m < n implies #[trigger] s[m] != sep by {
            assert(s[m] == y[m]);
            assert(list[0][m] != sep);
        }
        lemma_split_scan(s, sep, 0, 0, n);
        assert(s[n] == sep);
        assert(s.subrange(0, n) =~= y);
        lemma_split_shift(s, sep, n + 1, n + 1);
        assert(s.subrange(n + 1, s.len() as int) =~= terminated(rest, sep) + x);
        assert(split(s, sep) =~= seq![y] + rest.push(x));
        assert(list.push(x) =~= seq![y] + rest.push(x));
    }
}

/// A non-empty list joined by the separator is its lines but the last, each ended by the
/// separator, then the last line.
pub proof fn lemma_join_as_terminated(list: Seq<Seq<char>>, sep: char)
    requires
        list.len() > 0,
    ensures
        join(list, seq![sep]) == terminated(list.drop_last(), sep) + list.last(),
    decreases list.len(),
{
    if list.len() == 1 {
        assert(list.drop_last() =~= Seq::<Seq<char>>::empty());
        assert(join(list, seq![sep]) == list[0]);
        assert(terminated(list.drop_last(), sep) + list.last() =~= list[0]);
    } else {
        let init = list.drop_last();
        lemma_join_as_terminated(init, sep);
        lemma_terminated_push(init.drop_last(), init.last(), sep);
        assert(init.drop_last().push(init.last()) =~= init);
    }
}

/// Splitting lines joined by a separator that none of them holds gives the lines back.
pub proof fn lemma_split_join(list: Seq<Seq<char>>, sep: char)
    requires
        list.len() > 0,
        forall|i: int, m: int| 0 <= i < list.len() && 0 <= m < list[i].len() ==> #[trigger] list[i][m] != sep,
    ensures
        split(join(list, seq![sep]), sep) == list,
{
    let init = list.drop_last();
    lemma_join_as_terminated(list, sep);
    assert forall|i: int, m: int| 0 <= i < init.len() && 0 <= m < init[i].len() implies #[trigger] init[i][m] != sep by {
        assert(init[i] == list[i]);
    }
    assert forall|m: int| 0 <= m < list.last().len() implies #[trigger] list.last()[m] != sep by {
        assert(list.last() == list[list.len() - 1]);
    }
    lemma_split_terminated_then(init, list.last(), sep);
    assert(init.push(list.last()) =~= list);
}

pub proof fn lemma_split_terminated(list: Seq<Seq<char>>, sep: char)
    requires
        forall|i: int, m: int| 0 <= i < list.len() && 0 <= m < list[i].len() ==> #[trigger] list[i][m] != sep,
    ensures
        split(terminated(list, sep), sep) == list.push(Seq::empty()),
    decreases list.len(),
{
    let s = terminated(list, sep);
    if list.len() == 0 {
        assert(s.len() == 0);
        assert(s.subrange(0, 0) =~= Seq::<char>::empty());
        assert(split(s, sep) =~= seq![Seq::<char>::empty()]);
        assert(list.push(Seq::empty()) =~= seq![Seq::<char>::empty()]);
    } else {
        let x = list[0];
        let rest = list.drop_first();
        assert forall|i: int, m: int| 0 <= i < rest.len() && 0 <= m < rest[i].len() implies #[trigger] rest[i][m] != sep by {
            assert(rest[i] == list[i + 1]);
        }
        lemma_split_terminated(rest, sep);
        let n = x.len() as int;
        assert(s =~= x + seq![sep] + terminated(rest, sep));
        assert forall|m: int| 0 <= m < n implies #[trigger] s[m] != sep by {
            assert(s[m] == x[m]);
            assert(list[0][m] != sep);
        }
        lemma_split_scan(s, sep, 0, 0, n);
        assert(s[n] == sep);
        assert(s.subrange(0, n) =~= x);
        lemma_split_shift(s, sep, n + 1, n + 1);
        assert(s.subrange(n + 1, s.len() as int) =~= terminated(rest, sep));
        assert(split(s, sep) =~= seq![x] + rest.push(Seq::empty()));
        assert(list.push(Seq::empty()) =~= seq![x] + rest.push(Seq::empty()));
    }
}

} // verus!

verus! {

/// The first piece from `start` runs up to the first separator at or after `pos` (or the end).
pub proof fn lemma_split_from_first(s: Seq<char>, sep: char, start: int, pos: int)
    requires
        0 <= start <= pos <= s.len(),
        forall|k: int| start <= k < pos ==> #[trigger] s[k] != sep,
    ensures
        exists|j: int| pos <= j <= s.len() && split_from(s, sep, start, pos)[0] == s.subrange(start, j)
            && forall|k: int| start <= k < j ==> #[trigger] s[k] != sep,
    decreases s.len() - pos,
{
    if pos >= s.len() {
        assert(split_from(s, sep, start, pos)[0] == s.subrange(start, s.len() as int));
    } else if s[pos] == sep {
        assert(split_from(s, sep, start, pos)[0] == s.subrange(start, pos));
    } else {
        lemma_split_from_first(s, sep, start, pos + 1);
    }
}

} // verus!
