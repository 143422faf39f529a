//! Text primitives shared by the whole crate.
//!
//! Every string is reasoned about as the sequence of its characters. The few
//! operations of the standard library that are defined by Unicode tables are
//! kept behind small trusted functions; everything else is built from
//! characters and proved here.
use vstd::prelude::*;
use vstd::string::*;

verus! {

// ---------------------------------------------------------------------------
// Operations defined by Unicode tables
// ---------------------------------------------------------------------------

/// The uppercase form that `str::to_uppercase` gives to a text.
pub uninterp spec fn uppercase_of(s: Seq<char>) -> Seq<char>;

/// The lowercase form that `str::to_lowercase` gives to a text.
pub uninterp spec fn lowercase_of(s: Seq<char>) -> Seq<char>;

/// Whether `char::is_whitespace` holds of a character.
pub uninterp spec fn whitespace(c: char) -> bool;

/// Calls `str::to_uppercase`. The result depends on the text alone; nothing
/// more is claimed of it than that it is the text's uppercase form.
#[verifier::external_body]
pub(crate) fn to_uppercase(s: &str) -> (r: String)
    ensures
        r@ == uppercase_of(s@),
{
    s.to_uppercase()
}

/// Calls `str::to_lowercase`. The result depends on the text alone; nothing
/// more is claimed of it than that it is the text's lowercase form.
#[verifier::external_body]
pub(crate) fn to_lowercase(s: &str) -> (r: String)
    ensures
        r@ == lowercase_of(s@),
{
    s.to_lowercase()
}

/// Calls `char::is_whitespace`, which depends on the character alone.
#[verifier::external_body]
pub(crate) fn is_whitespace(c: char) -> (r: bool)
    ensures
        r == whitespace(c),
{
    c.is_whitespace()
}

/// Calls `String::push`, which appends the character at the end.
#[verifier::external_body]
pub(crate) fn push_char(s: &mut String, c: char)
    ensures
        final(s)@ == old(s)@.push(c),
{
    s.push(c);
}

// ---------------------------------------------------------------------------
// Characters
// ---------------------------------------------------------------------------

pub open spec fn ascii_digit(c: char) -> bool {
    '0' <= c <= '9'
}

pub open spec fn ascii_letter(c: char) -> bool {
    ('a' <= c <= 'z') || ('A' <= c <= 'Z')
}

/// The lowercase form of an ASCII letter; every other character is itself.
pub open spec fn ascii_lower(c: char) -> char {
    if 'A' <= c <= 'Z' {
        ((c as u8) + 32) as char
    } else {
        c
    }
}

pub fn is_ascii_digit(c: char) -> (r: bool)
    ensures
        r == ascii_digit(c),
{
    c >= '0' && c <= '9'
}

pub fn is_ascii_letter(c: char) -> (r: bool)
    ensures
        r == ascii_letter(c),
{
    (c >= 'a' && c <= 'z') || (c >= 'A' && c <= 'Z')
}

pub fn to_ascii_lower(c: char) -> (r: char)
    ensures
        r == ascii_lower(c),
{
    if c >= 'A' && c <= 'Z' {
        let b: u8 = c as u8;
        (b + 32) as char
    } else {
        c
    }
}

// ---------------------------------------------------------------------------
// Between strings and characters
// ---------------------------------------------------------------------------

/// The characters of `s`, in order.
pub fn chars_of(s: &str) -> (r: Vec<char>)
    ensures
        r@ == s@,
{
    let mut out: Vec<char> = Vec::new();
    for c in it: s.chars()
        invariant
            it.seq() == s@,
            out@ == it.seq().take(it.index() as int),
    {
        out.push(c);
    }
    out
}

/// The string made of `chars[from..to]`.
pub fn text_of_range(chars: &Vec<char>, from: usize, to: usize) -> (r: String)
    requires
        from <= to <= chars.len(),
    ensures
        r@ == chars@.subrange(from as int, to as int),
{
    let mut out = String::new();
    let mut i: usize = from;
    while i < to
        invariant
            from <= i <= to <= chars.len(),
            out@ == chars@.subrange(from as int, i as int),
        decreases to - i,
    {
        push_char(&mut out, chars[i]);
        i += 1;
    }
    out
}

/// The string made of `chars`.
pub fn text_of(chars: &Vec<char>) -> (r: String)
    ensures
        r@ == chars@,
{
    let r = text_of_range(chars, 0, chars.len());
    assert(chars@.subrange(0, chars@.len() as int) == chars@);
    r
}

/// An owned copy of `s`.
pub fn owned(s: &str) -> (r: String)
    ensures
        r@ == s@,
{
    s.to_owned()
}

/// Whether two texts hold the same characters.
pub fn same(a: &str, b: &str) -> (r: bool)
    ensures
        r == (a@ == b@),
{
    a.to_owned() == b.to_owned()
}

// ---------------------------------------------------------------------------
// Searching
// ---------------------------------------------------------------------------

/// `p` is what `s` begins with.
pub open spec fn has_prefix(s: Seq<char>, p: Seq<char>) -> bool {
    p.len() <= s.len() && s.subrange(0, p.len() as int) == p
}

/// `p` stands in `s` at position `at`.
pub open spec fn occurs_at(s: Seq<char>, p: Seq<char>, at: int) -> bool {
    0 <= at && at + p.len() <= s.len() && s.subrange(at, at + p.len()) == p
}

/// `p` stands somewhere in `s`.
pub open spec fn has_infix(s: Seq<char>, p: Seq<char>) -> bool {
    exists|at: int| occurs_at(s, p, at)
}

fn matches_at(s: &Vec<char>, p: &Vec<char>, at: usize) -> (r: bool)
    requires
        at + p.len() <= s.len(),
    ensures
        r == occurs_at(s@, p@, at as int),
{
    let mut k: usize = 0;
    while k < p.len()
        invariant
            k <= p.len(),
            at + p.len() <= s.len(),
            forall|j: int| 0 <= j < k ==> s@[at + j] == p@[j],
        decreases p.len() - k,
    {
        if s[at + k] != p[k] {
            proof {
                let sub = s@.subrange(at as int, at + p@.len());
                assert(sub[k as int] == s@[at + k]);
            }
            return false;
        }
        k += 1;
    }
    assert(s@.subrange(at as int, at + p@.len()) =~= p@);
    true
}

/// Whether `s` begins with `p`.
pub fn starts_with(s: &str, p: &str) -> (r: bool)
    ensures
        r == has_prefix(s@, p@),
{
    let sv = chars_of(s);
    let pv = chars_of(p);
    if pv.len() > sv.len() {
        return false;
    }
    matches_at(&sv, &pv, 0)
}

/// Whether `p` occurs in `s`.
pub fn contains(s: &str, p: &str) -> (r: bool)
    ensures
        r == has_infix(s@, p@),
{
    let sv = chars_of(s);
    let pv = chars_of(p);
    contains_chars(&sv, &pv)
}

/// Whether `p` occurs in `s`, both given as characters.
pub fn contains_chars(sv: &Vec<char>, pv: &Vec<char>) -> (r: bool)
    ensures
        r == has_infix(sv@, pv@),
{
    if pv.len() > sv.len() {
        assert(forall|at: int| !occurs_at(sv@, pv@, at));
        return false;
    }
    let last: usize = sv.len() - pv.len();
    let mut at: usize = 0;
    while at < last
        invariant
            last == sv.len() - pv.len(),
            at <= last,
            forall|j: int| 0 <= j < at ==> !occurs_at(sv@, pv@, j),
        decreases last - at,
    {
        if matches_at(sv, pv, at) {
            return true;
        }
        at += 1;
    }
    let found = matches_at(sv, pv, last);
    assert(!found ==> forall|j: int| !occurs_at(sv@, pv@, j));
    found
}

/// The text with every ASCII letter in lowercase.
pub open spec fn ascii_folded(s: Seq<char>) -> Seq<char> {
    Seq::new(s.len(), |i: int| ascii_lower(s[i]))
}

/// Equality that takes an ASCII letter and its other case for the same.
pub open spec fn same_ignoring_ascii_case(a: Seq<char>, b: Seq<char>) -> bool {
    ascii_folded(a) == ascii_folded(b)
}

/// Whether two texts are equal up to the case of their ASCII letters.
pub fn eq_ignore_ascii_case(a: &str, b: &str) -> (r: bool)
    ensures
        r == same_ignoring_ascii_case(a@, b@),
{
    let av = chars_of(a);
    let bv = chars_of(b);
    if av.len() != bv.len() {
        assert(ascii_folded(av@).len() != ascii_folded(bv@).len());
        return false;
    }
    let mut i: usize = 0;
    while i < av.len()
        invariant
            i <= av.len(),
            av.len() == bv.len(),
            av@ == a@,
            bv@ == b@,
            forall|j: int| 0 <= j < i ==> ascii_lower(av@[j]) == ascii_lower(bv@[j]),
        decreases av.len() - i,
    {
        if to_ascii_lower(av[i]) != to_ascii_lower(bv[i]) {
            assert(ascii_folded(av@)[i as int] == ascii_lower(av@[i as int]));
            assert(ascii_folded(bv@)[i as int] == ascii_lower(bv@[i as int]));
            return false;
        }
        i += 1;
    }
    assert(ascii_folded(av@) =~= ascii_folded(bv@));
    true
}


// ---------------------------------------------------------------------------
// Trimming and splitting
// ---------------------------------------------------------------------------

/// The text without the whitespace it begins with.
pub open spec fn skip_leading(s: Seq<char>) -> Seq<char>
    decreases s.len(),
{
    if s.len() > 0 && whitespace(s[0]) {
        skip_leading(s.drop_first())
    } else {
        s
    }
}

/// The text without the whitespace it ends with.
pub open spec fn skip_trailing(s: Seq<char>) -> Seq<char>
    decreases s.len(),
{
    if s.len() > 0 && whitespace(s.last()) {
        skip_trailing(s.drop_last())
    } else {
        s
    }
}

/// The text without the whitespace around it.
pub open spec fn trimmed(s: Seq<char>) -> Seq<char> {
    skip_trailing(skip_leading(s))
}

/// What is left when leading whitespace is taken away is the end of the
/// text, and begins with no whitespace.
pub proof fn skip_leading_is_suffix(s: Seq<char>)
    ensures
        skip_leading(s).len() <= s.len(),
        skip_leading(s) == s.skip(s.len() - skip_leading(s).len()),
        skip_leading(s).len() > 0 ==> !whitespace(skip_leading(s)[0]),
    decreases s.len(),
{
    if s.len() > 0 && whitespace(s[0]) {
        skip_leading_is_suffix(s.drop_first());
        let rest = skip_leading(s.drop_first());
        assert(s.drop_first().skip(s.drop_first().len() - rest.len()) == s.skip(
            s.len() - rest.len(),
        ));
    } else {
        assert(s.skip(0) == s);
    }
}

/// What is left when trailing whitespace is taken away is the beginning of
/// the text, and ends with no whitespace.
pub proof fn skip_trailing_is_prefix(s: Seq<char>)
    ensures
        skip_trailing(s).len() <= s.len(),
        skip_trailing(s) == s.take(skip_trailing(s).len() as int),
        skip_trailing(s).len() > 0 ==> !whitespace(skip_trailing(s).last()),
    decreases s.len(),
{
    if s.len() > 0 && whitespace(s.last()) {
        skip_trailing_is_prefix(s.drop_last());
        let rest = skip_trailing(s.drop_last());
        assert(s.drop_last().take(rest.len() as int) == s.take(rest.len() as int));
    } else {
        assert(s.take(s.len() as int) == s);
    }
}

/// Trimming a trimmed text changes nothing.
pub proof fn trimmed_is_idempotent(s: Seq<char>)
    ensures
        trimmed(trimmed(s)) == trimmed(s),
{
    let inner = skip_leading(s);
    let t = trimmed(s);
    skip_leading_is_suffix(s);
    skip_trailing_is_prefix(inner);
    if t.len() > 0 {
        assert(t[0] == inner[0]);
    }
    assert(skip_leading(t) == t);
    assert(skip_trailing(t) == t);
}

/// The text without the whitespace around it.
#[verifier::loop_isolation(false)]
pub fn trim(s: &str) -> (r: String)
    ensures
        r@ == trimmed(s@),
{
    let chars = chars_of(s);
    let n = chars.len();
    let mut i: usize = 0;
    assert(s@.subrange(0, n as int) == s@);
    while i < n && is_whitespace(chars[i])
        invariant
            i <= n,
            skip_leading(s@) == skip_leading(s@.subrange(i as int, n as int)),
        decreases n - i,
    {
        assert(s@.subrange(i as int, n as int).drop_first() == s@.subrange(i + 1, n as int));
        i += 1;
    }
    let ghost rest = s@.subrange(i as int, n as int);
    assert(skip_leading(s@) == rest);
    let mut j: usize = n;
    while j > i && is_whitespace(chars[j - 1])
        invariant
            i <= j <= n,
            skip_trailing(rest) == skip_trailing(s@.subrange(i as int, j as int)),
        decreases j,
    {
        assert(s@.subrange(i as int, j as int).drop_last() == s@.subrange(i as int, j - 1));
        j -= 1;
    }
    text_of_range(&chars, i, j)
}

/// The first position at or after `from` where `c` stands, or the length of
/// the text where it stands nowhere.
pub open spec fn find_char(s: Seq<char>, c: char, from: int) -> int
    decreases s.len() - from,
{
    if from < 0 || from >= s.len() {
        s.len() as int
    } else if s[from] == c {
        from
    } else {
        find_char(s, c, from + 1)
    }
}

#[verifier::loop_isolation(false)]
fn position_of(chars: &Vec<char>, c: char, from: usize) -> (r: usize)
    requires
        from <= chars.len(),
    ensures
        r == find_char(chars@, c, from as int),
        from <= r <= chars.len(),
{
    let mut i: usize = from;
    while i < chars.len() && chars[i] != c
        invariant
            from <= i <= chars.len(),
            find_char(chars@, c, from as int) == find_char(chars@, c, i as int),
        decreases chars.len() - i,
    {
        i += 1;
    }
    i
}

/// The first line of a text: what stands before the first line feed, without
/// the carriage return that may precede it; the whole text where it has no
/// line feed.
pub open spec fn first_line_of(s: Seq<char>) -> Seq<char> {
    let end = find_char(s, '\n', 0);
    if 0 < end < s.len() && s[end - 1] == '\r' {
        s.subrange(0, end - 1)
    } else {
        s.subrange(0, end)
    }
}

pub fn first_line(s: &str) -> (r: String)
    ensures
        r@ == first_line_of(s@),
{
    let chars = chars_of(s);
    let end = position_of(&chars, '\n', 0);
    if 0 < end && end < chars.len() && chars[end - 1] == '\r' {
        text_of_range(&chars, 0, end - 1)
    } else {
        text_of_range(&chars, 0, end)
    }
}

/// The second of the segments that dots divide a text into; empty where the
/// text has no dot.
pub open spec fn second_segment_of(s: Seq<char>) -> Seq<char> {
    let first = find_char(s, '.', 0);
    if first >= s.len() {
        Seq::empty()
    } else {
        s.subrange(first + 1, find_char(s, '.', first + 1))
    }
}

pub fn second_segment(s: &str) -> (r: String)
    ensures
        r@ == second_segment_of(s@),
{
    let chars = chars_of(s);
    let first = position_of(&chars, '.', 0);
    if first >= chars.len() {
        String::new()
    } else {
        let next = position_of(&chars, '.', first + 1);
        text_of_range(&chars, first + 1, next)
    }
}

/// The text after every leading repetition of `p` is taken away.
pub open spec fn without_prefixes(s: Seq<char>, p: Seq<char>) -> Seq<char>
    decreases s.len(),
{
    if p.len() > 0 && has_prefix(s, p) {
        without_prefixes(s.skip(p.len() as int), p)
    } else {
        s
    }
}

#[verifier::loop_isolation(false)]
pub fn strip_prefixes(s: &str, p: &str) -> (r: String)
    ensures
        r@ == without_prefixes(s@, p@),
{
    let sv = chars_of(s);
    let pv = chars_of(p);
    let n = sv.len();
    let mut at: usize = 0;
    if pv.len() == 0 {
        return text_of(&sv);
    }
    assert(s@.skip(0) == s@);
    while pv.len() <= n - at && matches_at(&sv, &pv, at)
        invariant
            at <= n,
            without_prefixes(s@, p@) == without_prefixes(s@.skip(at as int), p@),
        decreases n - at,
    {
        proof {
            let t = s@.skip(at as int);
            assert(t.subrange(0, p@.len() as int) == s@.subrange(at as int, at + p@.len()));
            assert(t.skip(p@.len() as int) == s@.skip(at + p@.len()));
        }
        at += pv.len();
    }
    proof {
        let t = s@.skip(at as int);
        if p@.len() <= t.len() {
            assert(t.subrange(0, p@.len() as int) == s@.subrange(at as int, at + p@.len()));
        }
        assert(t == s@.subrange(at as int, n as int));
    }
    text_of_range(&sv, at, n)
}

// ---------------------------------------------------------------------------
// Order
// ---------------------------------------------------------------------------

/// Lexicographic order by character code, a text before its extensions.
pub open spec fn lex_le(a: Seq<char>, b: Seq<char>) -> bool
    decreases a.len(),
{
    if a.len() == 0 {
        true
    } else if b.len() == 0 {
        false
    } else if a[0] != b[0] {
        a[0] < b[0]
    } else {
        lex_le(a.drop_first(), b.drop_first())
    }
}

#[verifier::loop_isolation(false)]
pub fn text_le(a: &str, b: &str) -> (r: bool)
    ensures
        r == lex_le(a@, b@),
{
    let av = chars_of(a);
    let bv = chars_of(b);
    let mut i: usize = 0;
    assert(a@.skip(0) == a@ && b@.skip(0) == b@);
    while i < av.len() && i < bv.len() && av[i] == bv[i]
        invariant
            i <= av.len(),
            i <= bv.len(),
            lex_le(a@, b@) == lex_le(a@.skip(i as int), b@.skip(i as int)),
        decreases av.len() - i,
    {
        assert(a@.skip(i as int).drop_first() == a@.skip(i + 1));
        assert(b@.skip(i as int).drop_first() == b@.skip(i + 1));
        i += 1;
    }
    if i >= av.len() {
        true
    } else if i >= bv.len() {
        false
    } else {
        av[i] < bv[i]
    }
}

/// Of two texts, one comes at or before the other.
pub proof fn lex_le_is_total(a: Seq<char>, b: Seq<char>)
    ensures
        lex_le(a, b) || lex_le(b, a),
    decreases a.len(),
{
    if a.len() > 0 && b.len() > 0 && a[0] == b[0] {
        lex_le_is_total(a.drop_first(), b.drop_first());
    }
}

/// A text that comes at or before a second, which comes at or before a
/// third, comes at or before the third.
pub proof fn lex_le_is_transitive(a: Seq<char>, b: Seq<char>, c: Seq<char>)
    requires
        lex_le(a, b),
        lex_le(b, c),
    ensures
        lex_le(a, c),
    decreases a.len(),
{
    if a.len() > 0 && b.len() > 0 && c.len() > 0 && a[0] == b[0] && b[0] == c[0] {
        lex_le_is_transitive(a.drop_first(), b.drop_first(), c.drop_first());
    }
}

// ---------------------------------------------------------------------------
// Numbers
// ---------------------------------------------------------------------------

/// The character of a digit below sixteen.
pub open spec fn digit_char(d: int) -> char {
    if d < 10 {
        (48 + d) as char
    } else {
        (87 + d) as char
    }
}

/// A number in decimal notation.
pub open spec fn decimal_of(n: nat) -> Seq<char>
    decreases n,
{
    if n < 10 {
        seq![digit_char(n as int)]
    } else {
        decimal_of(n / 10).push(digit_char((n % 10) as int))
    }
}

/// A number in lowercase hexadecimal notation.
pub open spec fn hex_of(n: nat) -> Seq<char>
    decreases n,
{
    if n < 16 {
        seq![digit_char(n as int)]
    } else {
        hex_of(n / 16).push(digit_char((n % 16) as int))
    }
}

fn digit(d: u64) -> (r: char)
    requires
        d < 16,
    ensures
        r == digit_char(d as int),
{
    if d < 10 {
        (48u8 + (d as u8)) as char
    } else {
        (87u8 + (d as u8)) as char
    }
}

pub fn decimal(n: u64) -> (r: String)
    ensures
        r@ == decimal_of(n as nat),
    decreases n,
{
    if n < 10 {
        let mut out = String::new();
        push_char(&mut out, digit(n));
        assert(out@ == seq![digit_char(n as int)]);
        out
    } else {
        let mut out = decimal(n / 10);
        push_char(&mut out, digit(n % 10));
        out
    }
}

pub fn hex(n: u64) -> (r: String)
    ensures
        r@ == hex_of(n as nat),
    decreases n,
{
    if n < 16 {
        let mut out = String::new();
        push_char(&mut out, digit(n));
        assert(out@ == seq![digit_char(n as int)]);
        out
    } else {
        let mut out = hex(n / 16);
        push_char(&mut out, digit(n % 16));
        out
    }
}

// ---------------------------------------------------------------------------
// Lists of texts
// ---------------------------------------------------------------------------

/// The texts of a list, with `sep` between neighbours.
pub open spec fn joined(items: Seq<Seq<char>>, sep: Seq<char>) -> Seq<char>
    decreases items.len(),
{
    if items.len() == 0 {
        Seq::empty()
    } else if items.len() == 1 {
        items[0]
    } else {
        joined(items.drop_last(), sep) + sep + items.last()
    }
}

#[verifier::loop_isolation(false)]
pub fn join(items: &Vec<String>, sep: &str) -> (r: String)
    ensures
        r@ == joined(items.deep_view(), sep@),
{
    let mut out = String::new();
    let mut i: usize = 0;
    while i < items.len()
        invariant
            i <= items.len(),
            out@ == joined(items.deep_view().take(i as int), sep@),
        decreases items.len() - i,
    {
        if i > 0 {
            out.append(sep);
        }
        out.append(items[i].as_str());
        proof {
            let next = items.deep_view().take(i + 1);
            assert(next.drop_last() == items.deep_view().take(i as int));
            assert(next.last() == items[i as int]@);
        }
        i += 1;
    }
    assert(items.deep_view().take(items.len() as int) == items.deep_view());
    out
}

/// Every text of a list between `before` and `after`, one after the other.
pub open spec fn each_wrapped(items: Seq<Seq<char>>, before: Seq<char>, after: Seq<char>) -> Seq<
    char,
>
    decreases items.len(),
{
    if items.len() == 0 {
        Seq::empty()
    } else {
        each_wrapped(items.drop_last(), before, after) + before + items.last() + after
    }
}

/// Appends every text of `items` to `out`, each between `before` and `after`.
#[verifier::loop_isolation(false)]
pub fn append_each(out: &mut String, items: &Vec<String>, before: &str, after: &str)
    ensures
        final(out)@ == old(out)@ + each_wrapped(items.deep_view(), before@, after@),
{
    let mut i: usize = 0;
    while i < items.len()
        invariant
            i <= items.len(),
            out@ == old(out)@ + each_wrapped(items.deep_view().take(i as int), before@, after@),
        decreases items.len() - i,
    {
        out.append(before);
        out.append(items[i].as_str());
        out.append(after);
        proof {
            let next = items.deep_view().take(i + 1);
            assert(next.drop_last() == items.deep_view().take(i as int));
            assert(next.last() == items[i as int]@);
        }
        i += 1;
    }
    assert(items.deep_view().take(items.len() as int) == items.deep_view());
}

/// A copy of a list of texts.
pub fn copy_texts(items: &Vec<String>) -> (r: Vec<String>)
    ensures
        r.deep_view() == items.deep_view(),
{
    items.clone()
}

/// Whether a list holds a text.
pub fn holds(items: &Vec<String>, s: &str) -> (r: bool)
    ensures
        r == items.deep_view().contains(s@),
{
    let mut i: usize = 0;
    while i < items.len()
        invariant
            i <= items.len(),
            forall|j: int| 0 <= j < i ==> items.deep_view()[j] != s@,
        decreases items.len() - i,
    {
        if same(items[i].as_str(), s) {
            assert(items.deep_view()[i as int] == s@);
            return true;
        }
        i += 1;
    }
    false
}


// ---------------------------------------------------------------------------
// Words
// ---------------------------------------------------------------------------

/// The words of a text from position `at` on, after `found`: `start` is
/// where the word that `at` stands in begins, or negative where `at` stands
/// in none.
pub open spec fn words_from(s: Seq<char>, at: int, start: int, found: Seq<Seq<char>>) -> Seq<
    Seq<char>,
>
    decreases s.len() - at,
{
    if at < 0 || at >= s.len() {
        if 0 <= start <= s.len() {
            found.push(s.subrange(start, s.len() as int))
        } else {
            found
        }
    } else if whitespace(s[at]) {
        if 0 <= start <= at {
            words_from(s, at + 1, -1, found.push(s.subrange(start, at)))
        } else {
            words_from(s, at + 1, -1, found)
        }
    } else {
        words_from(
            s,
            at + 1,
            if 0 <= start <= at {
                start
            } else {
                at
            },
            found,
        )
    }
}

/// The words of a text: its longest runs of characters that are no
/// whitespace, in order.
pub open spec fn words_of(s: Seq<char>) -> Seq<Seq<char>> {
    words_from(s, 0, -1, Seq::empty())
}

/// The words of a text.
#[verifier::loop_isolation(false)]
pub fn words(s: &str) -> (r: Vec<String>)
    ensures
        r.deep_view() == words_of(s@),
{
    let chars = chars_of(s);
    let mut found: Vec<String> = Vec::new();
    let mut start: usize = 0;
    let mut inside = false;
    let mut at: usize = 0;
    assert(found.deep_view() =~= Seq::empty());
    while at < chars.len()
        invariant
            at <= chars.len(),
            inside ==> start <= at,
            words_of(s@) == words_from(
                s@,
                at as int,
                if inside {
                    start as int
                } else {
                    -1
                },
                found.deep_view(),
            ),
        decreases chars.len() - at,
    {
        let ghost before = found.deep_view();
        if is_whitespace(chars[at]) {
            if inside {
                found.push(text_of_range(&chars, start, at));
                assert(found.deep_view() =~= before.push(s@.subrange(start as int, at as int)));
                inside = false;
            }
        } else if !inside {
            inside = true;
            start = at;
        }
        at += 1;
    }
    let ghost before = found.deep_view();
    if inside {
        found.push(text_of_range(&chars, start, chars.len()));
        assert(found.deep_view() =~= before.push(s@.subrange(start as int, s@.len() as int)));
    }
    found
}

/// A text as a preview shows it: in full where it has at most `most`
/// characters; or else its first `kept` characters and `...`.
pub open spec fn preview_of(s: Seq<char>, most: int, kept: int) -> Seq<char> {
    if s.len() > most && 0 <= kept <= s.len() {
        s.take(kept) + "..."@
    } else {
        s
    }
}

/// A text as a preview shows it.
pub fn preview(s: &str, most: usize, kept: usize) -> (r: String)
    ensures
        r@ == preview_of(s@, most as int, kept as int),
{
    let chars = chars_of(s);
    if chars.len() > most && kept <= chars.len() {
        let mut out = text_of_range(&chars, 0, kept);
        out.append("...");
        out
    } else {
        owned(s)
    }
}

/// `text` where `present` holds, nothing otherwise.
pub open spec fn section(present: bool, text: Seq<char>) -> Seq<char> {
    if present {
        text
    } else {
        Seq::empty()
    }
}

/// `heading` and `body` in a row where `present` holds, nothing otherwise.
pub fn headed(present: bool, heading: &str, body: &str) -> (r: String)
    ensures
        r@ == section(present, heading@ + body@),
{
    if present {
        let mut part = owned(heading);
        part.append(body);
        part
    } else {
        String::new()
    }
}

/// `label`, `value` and `tail` in a row where `present` holds, nothing
/// otherwise.
pub fn labelled(present: bool, label: &str, value: &str, tail: &str) -> (r: String)
    ensures
        r@ == section(present, label@ + value@ + tail@),
{
    if present {
        let mut part = owned(label);
        part.append(value);
        part.append(tail);
        part
    } else {
        String::new()
    }
}

/// Every item of a list between `before` and `after`, as one text.
pub fn wrapped_items(items: &Vec<String>, before: &str, after: &str) -> (r: String)
    ensures
        r@ == each_wrapped(items.deep_view(), before@, after@),
{
    let mut part = String::new();
    append_each(&mut part, items, before, after);
    assert(part@ =~= each_wrapped(items.deep_view(), before@, after@));
    part
}

} // verus!
