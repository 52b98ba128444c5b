//! Text helpers shared by the rest of the library.
//!
//! Every function here is specified over `Seq<char>`, the view of `str` and
//! `String`.

use vstd::prelude::*;
use vstd::string::*;

verus! {

/// `String::push` of the standard library: appends one character to the end
/// of the string and leaves the rest untouched.
pub assume_specification[ std::string::String::push ](s: &mut std::string::String, c: char)
    ensures
        final(s)@ == old(s)@.push(c),
;

/// The characters of `s`, in order.
pub fn chars_of(s: &str) -> (v: Vec<char>)
    ensures
        v@ == s@,
{
    let mut v: Vec<char> = Vec::new();
    for c in it: s.chars()
        invariant
            it.seq() == s@,
            v@ == s@.take(it.index()),
    {
        v.push(c);
    }
    v
}

/// The string made of the characters `v[from..to]`.
pub(crate) fn string_of_range(v: &Vec<char>, from: usize, to: usize) -> (s: String)
    requires
        from <= to <= v@.len(),
    ensures
        s@ == v@.subrange(from as int, to as int),
{
    let mut s = String::new();
    let mut i: usize = from;
    while i < to
        invariant
            from <= i <= to <= v@.len(),
            s@ == v@.subrange(from as int, i as int),
        decreases to - i,
    {
        s.push(v[i]);
        i += 1;
    }
    s
}

/// The string made of the characters of `v`.
pub fn string_of(v: &Vec<char>) -> (s: String)
    ensures
        s@ == v@,
{
    let s = string_of_range(v, 0, v.len());
    s
}

/// Whether two string slices hold the same characters.
pub fn str_eq(a: &str, b: &str) -> (r: bool)
    ensures
        r == (a@ == b@),
{
    let x = a.to_owned();
    let y = b.to_owned();
    x == y
}

/// Whether `p` is a prefix of `s`.
pub open spec fn has_prefix(s: Seq<char>, p: Seq<char>) -> bool {
    p.len() <= s.len() && s.subrange(0, p.len() as int) == p
}

/// Whether `pat` occurs in `v` at index `at`.
pub(crate) fn matches_at(v: &Vec<char>, at: usize, pat: &Vec<char>) -> (r: bool)
    requires
        at <= v@.len(),
    ensures
        r == has_prefix(v@.skip(at as int), pat@),
{
    if pat.len() > v.len() - at {
        return false;
    }
    let mut k: usize = 0;
    while k < pat.len()
        invariant
            at + pat@.len() <= v@.len() <= usize::MAX,
            k <= pat@.len(),
            forall|j: int| 0 <= j < k ==> v@[at + j] == pat@[j],
        decreases pat@.len() - k,
    {
        if v[at + k] != pat[k] {
            return false;
        }
        k += 1;
    }
    assert(v@.skip(at as int).subrange(0, pat@.len() as int) =~= pat@);
    true
}

/// Whether `s` starts with `p`.
pub fn starts_with(s: &str, p: &str) -> (r: bool)
    ensures
        r == has_prefix(s@, p@),
{
    let v = chars_of(s);
    let pat = chars_of(p);
    assert(v@.skip(0) == v@);
    matches_at(&v, 0, &pat)
}

/// `s` with every non-overlapping occurrence of `pat` replaced by `to`,
/// scanning from the left. With an empty `pat`, `to` is put before every
/// character of `s` and after the last one.
pub open spec fn replace_all(s: Seq<char>, pat: Seq<char>, to: Seq<char>) -> Seq<char>
    decreases s.len(),
{
    if pat.len() == 0 {
        if s.len() == 0 {
            to
        } else {
            to + seq![s[0]] + replace_all(s.skip(1), pat, to)
        }
    } else if s.len() == 0 {
        s
    } else if has_prefix(s, pat) {
        to + replace_all(s.skip(pat.len() as int), pat, to)
    } else {
        seq![s[0]] + replace_all(s.skip(1), pat, to)
    }
}

/// Literal substring replacement: every occurrence of `pat` in `s`, found
/// from the left without overlap, becomes `to`.
pub fn replace(s: &str, pat: &str, to: &str) -> (r: String)
    ensures
        r@ == replace_all(s@, pat@, to@),
{
    let v = chars_of(s);
    let p = chars_of(pat);
    let t = chars_of(to);
    let mut out: Vec<char> = Vec::new();
    let mut i: usize = 0;
    assert(v@.skip(0) == v@);
    while i < v.len()
        invariant
            i <= v@.len(),
            out@ + replace_all(v@.skip(i as int), p@, t@) == replace_all(v@, p@, t@),
        decreases v@.len() - i,
    {
        let ghost rest = v@.skip(i as int);
        let ghost before = out@;
        if p.len() == 0 {
            extend(&mut out, &t);
            out.push(v[i]);
            assert(rest.skip(1) == v@.skip(i + 1));
            i += 1;
        } else if matches_at(&v, i, &p) {
            extend(&mut out, &t);
            assert(rest.skip(p@.len() as int) == v@.skip(i + p@.len()));
            i += p.len();
        } else {
            out.push(v[i]);
            assert(rest.skip(1) == v@.skip(i + 1));
            i += 1;
        }
    }
    if p.len() == 0 {
        extend(&mut out, &t);
    }
    string_of(&out)
}

/// Appends the characters of `more` to `out`.
pub fn extend(out: &mut Vec<char>, more: &Vec<char>)
    ensures
        final(out)@ == old(out)@ + more@,
{
    let mut k: usize = 0;
    while k < more.len()
        invariant
            k <= more@.len(),
            out@ == old(out)@ + more@.take(k as int),
        decreases more@.len() - k,
    {
        out.push(more[k]);
        k += 1;
    }
}

/// Whether `pat` occurs somewhere in `s`.
pub open spec fn occurs_in(s: Seq<char>, pat: Seq<char>) -> bool {
    exists|i: int| 0 <= i <= s.len() && has_prefix(#[trigger] s.skip(i), pat)
}

/// A text in which the pattern does not occur is left as it is.
pub proof fn lemma_replace_absent(s: Seq<char>, pat: Seq<char>, to: Seq<char>)
    requires
        pat.len() > 0,
        !occurs_in(s, pat),
    ensures
        replace_all(s, pat, to) == s,
    decreases s.len(),
{
    if s.len() > 0 {
        assert(s.skip(0) == s);
        let rest = s.skip(1);
        assert(!occurs_in(rest, pat)) by {
            if occurs_in(rest, pat) {
                let i = choose|i: int| 0 <= i <= rest.len() && has_prefix(#[trigger] rest.skip(i), pat);
                assert(rest.skip(i) == s.skip(i + 1));
            }
        }
        lemma_replace_absent(rest, pat, to);
    }
}

/// Replacing `pat` in a text that is exactly `pat` leaves `to`.
pub proof fn lemma_replace_whole(pat: Seq<char>, to: Seq<char>)
    requires
        pat.len() > 0,
    ensures
        replace_all(pat, pat, to) == to,
{
    let rest = pat.skip(pat.len() as int);
    assert(pat.subrange(0, pat.len() as int) == pat);
    assert(replace_all(rest, pat, to) == rest);
}

/// The decimal digit for `d`, which is below ten.
pub open spec fn digit(d: int) -> char {
    if d == 0 {
        '0'
    } else if d == 1 {
        '1'
    } else if d == 2 {
        '2'
    } else if d == 3 {
        '3'
    } else if d == 4 {
        '4'
    } else if d == 5 {
        '5'
    } else if d == 6 {
        '6'
    } else if d == 7 {
        '7'
    } else if d == 8 {
        '8'
    } else {
        '9'
    }
}

/// `n` written in base ten, without leading zeros.
pub open spec fn decimal(n: nat) -> Seq<char>
    decreases n,
{
    if n < 10 {
        seq![digit(n as int)]
    } else {
        decimal(n / 10).push(digit((n % 10) as int))
    }
}

fn digit_char(d: u64) -> (c: char)
    requires
        d < 10,
    ensures
        c == digit(d as int),
{
    if d == 0 {
        '0'
    } else if d == 1 {
        '1'
    } else if d == 2 {
        '2'
    } else if d == 3 {
        '3'
    } else if d == 4 {
        '4'
    } else if d == 5 {
        '5'
    } else if d == 6 {
        '6'
    } else if d == 7 {
        '7'
    } else if d == 8 {
        '8'
    } else {
        '9'
    }
}

/// Appends `n` in base ten to `out`.
pub fn push_decimal(out: &mut String, n: u64)
    ensures
        final(out)@ == old(out)@ + decimal(n as nat),
    decreases n,
{
    if n >= 10 {
        push_decimal(out, n / 10);
    }
    out.push(digit_char(n % 10));
}

/// `n` in base ten.
pub fn decimal_string(n: u64) -> (s: String)
    ensures
        s@ == decimal(n as nat),
{
    let mut s = String::new();
    push_decimal(&mut s, n);
    s
}

/// The characters that `char::is_ascii_whitespace` accepts: space, tab, line
/// feed, form feed and carriage return.
pub open spec fn is_ascii_space(c: char) -> bool {
    c == ' ' || c == '\t' || c == '\n' || c == '\x0C' || c == '\r'
}

/// Length of the longest prefix of `s` that holds no ASCII whitespace.
pub open spec fn word_len(s: Seq<char>) -> nat
    decreases s.len(),
{
    if s.len() == 0 || is_ascii_space(s[0]) {
        0
    } else {
        1 + word_len(s.skip(1))
    }
}

/// What `word_len` measures: the characters before it are no whitespace,
/// and the one at it, if there is one, is.
proof fn lemma_word_len(s: Seq<char>)
    ensures
        word_len(s) <= s.len(),
        s.len() > 0 && !is_ascii_space(s[0]) ==> word_len(s) >= 1,
        forall|i: int| 0 <= i < word_len(s) ==> !is_ascii_space(#[trigger] s[i]),
        word_len(s) < s.len() ==> is_ascii_space(s[word_len(s) as int]),
    decreases s.len(),
{
    if s.len() > 0 && !is_ascii_space(s[0]) {
        lemma_word_len(s.skip(1));
        assert forall|i: int| 0 <= i < word_len(s) implies !is_ascii_space(#[trigger] s[i]) by {
            if i > 0 {
                assert(s[i] == s.skip(1)[i - 1]);
            }
        }
    }
}

/// The maximal runs of characters of `s` that hold no ASCII whitespace, in
/// order: what `str::split_ascii_whitespace` yields.
pub open spec fn words(s: Seq<char>) -> Seq<Seq<char>>
    decreases s.len(),
    via words_terminates
{
    if s.len() == 0 {
        Seq::empty()
    } else if is_ascii_space(s[0]) {
        words(s.skip(1))
    } else {
        seq![s.take(word_len(s) as int)] + words(s.skip(word_len(s) as int))
    }
}

#[via_fn]
proof fn words_terminates(s: Seq<char>) {
    lemma_word_len(s);
}

/// Splits `s` at ASCII whitespace and drops the empty pieces.
pub fn split_ascii_whitespace(s: &str) -> (r: Vec<String>)
    ensures
        r.deep_view() == words(s@),
{
    let v = chars_of(s);
    let mut out: Vec<String> = Vec::new();
    let mut i: usize = 0;
    assert(v@.skip(0) == v@);
    while i < v.len()
        invariant
            i <= v@.len(),
            out.deep_view() + words(v@.skip(i as int)) == words(v@),
        decreases v@.len() - i,
    {
        let ghost rest = v@.skip(i as int);
        let ghost before = out.deep_view();
        if is_space(v[i]) {
            assert(rest.skip(1) == v@.skip(i + 1));
            i += 1;
        } else {
            let start = i;
            proof {
                lemma_word_len(rest);
            }
            while i < v.len() && !is_space(v[i])
                invariant
                    start <= i <= v@.len(),
                    rest == v@.skip(start as int),
                    i - start <= word_len(rest) <= rest.len(),
                    forall|j: int| 0 <= j < word_len(rest) ==> !is_ascii_space(#[trigger] rest[j]),
                    word_len(rest) < rest.len() ==> is_ascii_space(rest[word_len(rest) as int]),
                decreases v@.len() - i,
            {
                i += 1;
            }
            assert(i - start == word_len(rest)) by {
                if i < v@.len() {
                    assert(v@[i as int] == rest[i - start]);
                }
            }
            let w = string_of_range(&v, start, i);
            assert(w@ == rest.take(word_len(rest) as int));
            assert(rest.skip(word_len(rest) as int) == v@.skip(i as int));
            out.push(w);
        }
    }
    out
}

/// Whether `c` is ASCII whitespace.
pub fn is_space(c: char) -> (r: bool)
    ensures
        r == is_ascii_space(c),
{
    c == ' ' || c == '\t' || c == '\n' || c == '\x0C' || c == '\r'
}

/// `s` without the prefix `p`, where it has that prefix; otherwise `s`.
pub open spec fn without_prefix(s: Seq<char>, p: Seq<char>) -> Seq<char> {
    if has_prefix(s, p) {
        s.skip(p.len() as int)
    } else {
        s
    }
}

/// Removes one leading `p` from `s`, if `s` starts with it.
pub fn strip_prefix(s: &str, p: &str) -> (r: String)
    ensures
        r@ == without_prefix(s@, p@),
{
    let v = chars_of(s);
    let pat = chars_of(p);
    assert(v@.skip(0) == v@);
    if matches_at(&v, 0, &pat) {
        string_of_range(&v, pat.len(), v.len())
    } else {
        string_of(&v)
    }
}

/// The concatenation of all the pieces, in order.
pub open spec fn concat_all(parts: Seq<Seq<char>>) -> Seq<char>
    decreases parts.len(),
{
    if parts.len() == 0 {
        Seq::empty()
    } else {
        concat_all(parts.drop_last()) + parts.last()
    }
}

/// Joins the pieces without a separator.
pub fn concat_strings(parts: &Vec<String>) -> (r: String)
    ensures
        r@ == concat_all(parts.deep_view()),
{
    let mut r = String::new();
    let mut i: usize = 0;
    let ghost all = parts.deep_view();
    while i < parts.len()
        invariant
            i <= parts@.len(),
            all == parts.deep_view(),
            r@ == concat_all(all.take(i as int)),
        decreases parts@.len() - i,
    {
        r.append(parts[i].as_str());
        assert(all.take(i + 1).drop_last() == all.take(i as int));
        i += 1;
    }
    assert(all.take(all.len() as int) == all);
    r
}

/// `part` adjoined to the directory `base`, as paths inside a container are
/// joined: an absolute `part` stands for itself, any other is put behind
/// `base` with one `/` between them, unless `base` is empty or ends in one.
pub open spec fn joined(base: Seq<char>, part: Seq<char>) -> Seq<char> {
    if part.len() > 0 && part[0] == '/' {
        part
    } else if base.len() == 0 || base.last() == '/' {
        base + part
    } else {
        base + seq!['/'] + part
    }
}

/// Joins two paths with `/` as the separator.
pub fn join_path(base: &str, part: &str) -> (r: String)
    ensures
        r@ == joined(base@, part@),
{
    let b = chars_of(base);
    let p = chars_of(part);
    if p.len() > 0 && p[0] == '/' {
        return part.to_owned();
    }
    let mut out = base.to_owned();
    if b.len() > 0 && b[b.len() - 1] != '/' {
        out.push('/');
    }
    out.append(part);
    out
}

/// The pieces put one after the other with `sep` between each two.
pub open spec fn joined_with(parts: Seq<Seq<char>>, sep: Seq<char>) -> Seq<char>
    decreases parts.len(),
{
    if parts.len() == 0 {
        Seq::empty()
    } else if parts.len() == 1 {
        parts[0]
    } else {
        joined_with(parts.drop_last(), sep) + sep + parts.last()
    }
}

/// Joins the pieces with `sep` between each two.
pub fn join(parts: &Vec<String>, sep: &str) -> (r: String)
    ensures
        r@ == joined_with(parts.deep_view(), sep@),
{
    let mut r = String::new();
    let mut i: usize = 0;
    let ghost all = parts.deep_view();
    while i < parts.len()
        invariant
            i <= parts@.len(),
            all == parts.deep_view(),
            r@ == joined_with(all.take(i as int), sep@),
        decreases parts@.len() - i,
    {
        if i > 0 {
            r.append(sep);
        }
        r.append(parts[i].as_str());
        assert(all.take(i + 1).drop_last() == all.take(i as int));
        i += 1;
    }
    assert(all.take(all.len() as int) == all);
    r
}

/// The number of characters of `s` before its first line feed; the length
/// of `s` where it has none.
pub open spec fn line_len(s: Seq<char>) -> nat
    decreases s.len(),
{
    if s.len() == 0 || s[0] == '\n' {
        0
    } else {
        1 + line_len(s.skip(1))
    }
}

/// What `line_len` measures: the characters before it are no line feeds,
/// and the one at it, if there is one, is.
proof fn lemma_line_len(s: Seq<char>)
    ensures
        line_len(s) <= s.len(),
        forall|i: int| 0 <= i < line_len(s) ==> #[trigger] s[i] != '\n',
        line_len(s) < s.len() ==> s[line_len(s) as int] == '\n',
    decreases s.len(),
{
    if s.len() > 0 && s[0] != '\n' {
        lemma_line_len(s.skip(1));
        assert forall|i: int| 0 <= i < line_len(s) implies #[trigger] s[i] != '\n' by {
            if i > 0 {
                assert(s[i] == s.skip(1)[i - 1]);
            }
        }
    }
}

/// The lines of `s`: the pieces between its line feeds. A text without a
/// line feed is one line, and a text that ends in one has an empty last
/// line.
pub open spec fn lines_of(s: Seq<char>) -> Seq<Seq<char>>
    decreases s.len(),
    via lines_of_terminates
{
    if line_len(s) >= s.len() {
        seq![s]
    } else {
        seq![s.take(line_len(s) as int)] + lines_of(s.skip(line_len(s) as int + 1))
    }
}

#[via_fn]
proof fn lines_of_terminates(s: Seq<char>) {
    lemma_line_len(s);
}

/// Splits `s` at its line feeds.
pub fn split_lines(s: &str) -> (r: Vec<String>)
    ensures
        r.deep_view() == lines_of(s@),
{
    let v = chars_of(s);
    let mut out: Vec<String> = Vec::new();
    let mut start: usize = 0;
    assert(v@.skip(0) == v@);
    loop
        invariant
            v@ == s@,
            start <= v@.len(),
            out.deep_view() + lines_of(v@.skip(start as int)) == lines_of(v@),
        decreases v@.len() - start,
    {
        let ghost rest = v@.skip(start as int);
        let ghost before = out.deep_view();
        proof {
            lemma_line_len(rest);
        }
        let mut i = start;
        while i < v.len() && v[i] != '\n'
            invariant
                start <= i <= v@.len(),
                rest == v@.skip(start as int),
                i - start <= line_len(rest) <= rest.len(),
                forall|j: int| 0 <= j < line_len(rest) ==> #[trigger] rest[j] != '\n',
                line_len(rest) < rest.len() ==> rest[line_len(rest) as int] == '\n',
            decreases v@.len() - i,
        {
            i += 1;
        }
        assert(i - start == line_len(rest)) by {
            if i < v@.len() {
                assert(v@[i as int] == rest[i - start]);
            }
        }
        let line = string_of_range(&v, start, i);
        assert(line@ == rest.take(line_len(rest) as int));
        out.push(line);
        if i >= v.len() {
            return out;
        }
        assert(rest.skip(line_len(rest) as int + 1) == v@.skip(i + 1));
        start = i + 1;
    }
}

/// Whether `list` holds `name`.
pub fn list_contains(list: &Vec<String>, name: &str) -> (r: bool)
    ensures
        r == list.deep_view().contains(name@),
{
    let mut i: usize = 0;
    while i < list.len()
        invariant
            i <= list@.len(),
            forall|j: int| 0 <= j < i ==> list.deep_view()[j] != name@,
        decreases list@.len() - i,
    {
        if str_eq(list[i].as_str(), name) {
            assert(list.deep_view()[i as int] == name@);
            return true;
        }
        i += 1;
    }
    false
}

/// Appends copies of the names of `more` to `out`.
pub fn append_names(out: &mut Vec<String>, more: &Vec<String>)
    ensures
        final(out).deep_view() == old(out).deep_view() + more.deep_view(),
{
    let mut i: usize = 0;
    while i < more.len()
        invariant
            i <= more@.len(),
            out.deep_view() == old(out).deep_view() + more.deep_view().take(i as int),
        decreases more@.len() - i,
    {
        let ghost before = out.deep_view();
        out.push(more[i].clone());
        assert(out.deep_view() == before.push(more@[i as int]@));
        i += 1;
    }
}

/// A copy of an optional text.
pub fn copy_text(text: &Option<String>) -> (r: Option<String>)
    ensures
        r.deep_view() == text.deep_view(),
{
    match text {
        Some(t) => Some(t.clone()),
        None => None,
    }
}

/// A copy of a list of texts.
pub fn copy_texts(texts: &Vec<String>) -> (r: Vec<String>)
    ensures
        r.deep_view() == texts.deep_view(),
{
    let mut out: Vec<String> = Vec::new();
    append_names(&mut out, texts);
    out
}

/// One header line: the key, a colon, the value.
pub open spec fn field(key: Seq<char>, value: Seq<char>) -> Seq<char> {
    key + ": "@ + value + "\n"@
}

/// The header line of a value that may be missing.
pub open spec fn optional_field(key: Seq<char>, value: Option<Seq<char>>) -> Seq<char> {
    match value {
        Some(v) => field(key, v),
        None => Seq::empty(),
    }
}

/// Appends one header line to `out`.
pub fn push_field(out: &mut String, key: &str, value: &str)
    ensures
        final(out)@ == old(out)@ + field(key@, value@),
{
    out.append(key);
    out.append(": ");
    out.append(value);
    out.append("\n");
}

/// Appends the header line of `value` to `out`, if there is a value.
pub fn push_optional_field(out: &mut String, key: &str, value: &Option<String>)
    ensures
        final(out)@ == old(out)@ + optional_field(key@, value.deep_view()),
{
    if let Some(v) = value {
        push_field(out, key, v.as_str());
    }
}

} // verus!
