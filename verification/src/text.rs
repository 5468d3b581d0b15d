use vstd::prelude::*;

verus! {

broadcast use vstd::string::group_string_axioms;

/// Appends one character to a `String` (std `String::push`).
/// Trusted: the string afterwards is the old one with `c` added at the end.
#[verifier::external_body]
pub(crate) fn push_char(s: &mut String, c: char)
    ensures
        final(s)@ == old(s)@.push(c),
{
    s.push(c);
}

/// The characters of `s`, in order.
pub fn chars_of(s: &str) -> (v: Vec<char>)
    ensures
        v@ == s@,
{
    let mut v: Vec<char> = Vec::new();
    for c in it: s.chars()
        invariant
            it.seq() == s@,
            v@ == it.seq().take(it.index() as int),
    {
        v.push(c);
    }
    v
}

/// A `String` holding exactly the characters of `v`.
pub fn string_of(v: &[char]) -> (s: String)
    ensures
        s@ == v@,
{
    let mut s = String::new();
    let n = v.len();
    for i in 0..n
        invariant
            n == v@.len(),
            s@ == v@.take(i as int),
    {
        push_char(&mut s, v[i]);
        assert(v@.take(i + 1) == v@.take(i as int).push(v@[i as int]));
    }
    assert(v@.take(n as int) == v@);
    s
}


/// Unicode `White_Space`: the characters `char::is_whitespace` accepts.
pub open spec fn is_ws(c: char) -> bool {
    let u = c as u32;
    ||| 9 <= u <= 13
    ||| u == 32
    ||| u == 0x85
    ||| u == 0xA0
    ||| u == 0x1680
    ||| 0x2000 <= u <= 0x200A
    ||| u == 0x2028
    ||| u == 0x2029
    ||| u == 0x202F
    ||| u == 0x205F
    ||| u == 0x3000
}

/// ASCII punctuation, as `char::is_ascii_punctuation` defines it.
pub open spec fn is_punct(c: char) -> bool {
    let u = c as u32;
    (33 <= u <= 47) || (58 <= u <= 64) || (91 <= u <= 96) || (123 <= u <= 126)
}

/// ASCII letters and digits, as `char::is_ascii_alphanumeric` defines it.
pub open spec fn is_alnum(c: char) -> bool {
    let u = c as u32;
    (48 <= u <= 57) || (65 <= u <= 90) || (97 <= u <= 122)
}

/// `char::to_ascii_lowercase`.
pub open spec fn lower_char(c: char) -> char {
    let u = c as u32;
    if 65 <= u <= 90 { (u + 32) as char } else { c }
}

/// `str::to_ascii_lowercase`, character by character.
pub open spec fn lower(s: Seq<char>) -> Seq<char> {
    s.map_values(|c: char| lower_char(c))
}

pub fn is_ws_exec(c: char) -> (b: bool)
    ensures
        b == is_ws(c),
{
    let u = c as u32;
    (9 <= u && u <= 13) || u == 32 || u == 0x85 || u == 0xA0 || u == 0x1680 || (0x2000 <= u
        && u <= 0x200A) || u == 0x2028 || u == 0x2029 || u == 0x202F || u == 0x205F || u == 0x3000
}

pub fn is_punct_exec(c: char) -> (b: bool)
    ensures
        b == is_punct(c),
{
    let u = c as u32;
    (33 <= u && u <= 47) || (58 <= u && u <= 64) || (91 <= u && u <= 96) || (123 <= u && u <= 126)
}

pub fn is_alnum_exec(c: char) -> (b: bool)
    ensures
        b == is_alnum(c),
{
    let u = c as u32;
    (48 <= u && u <= 57) || (65 <= u && u <= 90) || (97 <= u && u <= 122)
}

pub fn lower_char_exec(c: char) -> (r: char)
    ensures
        r == lower_char(c),
{
    let u = c as u32;
    if 65 <= u && u <= 90 {
        let b: u8 = (u + 32) as u8;
        b as char
    } else {
        c
    }
}


/// The character classes that the library trims and splits by.
#[derive(Clone, Copy, Debug)]
pub enum CharClass {
    /// `char::is_whitespace`.
    Whitespace,
    /// ASCII punctuation or whitespace.
    PunctOrSpace,
    /// Anything but an ASCII letter or digit.
    NotAlnum,
    /// Quotes and sentence punctuation around a file name: `" ' ` , . : ;`.
    PathQuote,
    /// Whitespace or one of `, : - .` (what may follow the agent trigger word).
    CommandSep,
    /// The character `/`.
    Slash,
    /// The character `\n`.
    Newline,
    /// The character `]`.
    CloseBracket,
    /// Anything but `]`.
    NotCloseBracket,
    /// A path separator on Windows: `/` or a backslash.
    AnySlash,
}

pub open spec fn in_class(cls: CharClass, c: char) -> bool {
    match cls {
        CharClass::Whitespace => is_ws(c),
        CharClass::PunctOrSpace => is_punct(c) || is_ws(c),
        CharClass::NotAlnum => !is_alnum(c),
        CharClass::PathQuote => c == '"' || c == '\'' || c == '`' || c == ',' || c == '.' || c == ':'
            || c == ';',
        CharClass::CommandSep => is_ws(c) || c == ',' || c == ':' || c == '-' || c == '.',
        CharClass::Slash => c == '/',
        CharClass::Newline => c == '\n',
        CharClass::CloseBracket => c == ']',
        CharClass::NotCloseBracket => c != ']',
        CharClass::AnySlash => c == '/' || c == '\\',
    }
}

pub fn class_has(cls: CharClass, c: char) -> (b: bool)
    ensures
        b == in_class(cls, c),
{
    match cls {
        CharClass::Whitespace => is_ws_exec(c),
        CharClass::PunctOrSpace => is_punct_exec(c) || is_ws_exec(c),
        CharClass::NotAlnum => !is_alnum_exec(c),
        CharClass::PathQuote => c == '"' || c == '\'' || c == '`' || c == ',' || c == '.' || c
            == ':' || c == ';',
        CharClass::CommandSep => is_ws_exec(c) || c == ',' || c == ':' || c == '-' || c == '.',
        CharClass::Slash => c == '/',
        CharClass::Newline => c == '\n',
        CharClass::CloseBracket => c == ']',
        CharClass::NotCloseBracket => c != ']',
        CharClass::AnySlash => c == '/' || c == '\\',
    }
}

/// How many characters at the start of `s` lie in `cls`.
pub open spec fn lead(s: Seq<char>, cls: CharClass) -> nat
    decreases s.len(),
{
    if s.len() > 0 && in_class(cls, s[0]) {
        1 + lead(s.drop_first(), cls)
    } else {
        0
    }
}

/// How many characters at the end of `s` lie in `cls`.
pub open spec fn trail(s: Seq<char>, cls: CharClass) -> nat
    decreases s.len(),
{
    if s.len() > 0 && in_class(cls, s.last()) {
        1 + trail(s.drop_last(), cls)
    } else {
        0
    }
}

/// `str::trim_start_matches` with a class of characters.
pub open spec fn trim_start(s: Seq<char>, cls: CharClass) -> Seq<char> {
    s.skip(lead(s, cls) as int)
}

/// `str::trim_end_matches` with a class of characters.
pub open spec fn trim_end(s: Seq<char>, cls: CharClass) -> Seq<char> {
    s.take(s.len() - trail(s, cls))
}

/// `str::trim_matches` with a class of characters (`str::trim` for `Whitespace`).
pub open spec fn trim(s: Seq<char>, cls: CharClass) -> Seq<char> {
    trim_end(trim_start(s, cls), cls)
}

pub proof fn lemma_lead_bound(s: Seq<char>, cls: CharClass)
    ensures
        lead(s, cls) <= s.len(),
    decreases s.len(),
{
    if s.len() > 0 && in_class(cls, s[0]) {
        lemma_lead_bound(s.drop_first(), cls);
    }
}

pub proof fn lemma_trail_bound(s: Seq<char>, cls: CharClass)
    ensures
        trail(s, cls) <= s.len(),
    decreases s.len(),
{
    if s.len() > 0 && in_class(cls, s.last()) {
        lemma_trail_bound(s.drop_last(), cls);
    }
}

/// Where the leading run of `cls` stops, the character is outside `cls`.
pub proof fn lemma_lead_stops(s: Seq<char>, cls: CharClass)
    ensures
        lead(s, cls) < s.len() ==> !in_class(cls, s[lead(s, cls) as int]),
    decreases s.len(),
{
    if s.len() > 0 && in_class(cls, s[0]) {
        lemma_lead_stops(s.drop_first(), cls);
        lemma_lead_bound(s.drop_first(), cls);
        if lead(s, cls) < s.len() {
            assert(s[lead(s, cls) as int] == s.drop_first()[lead(s.drop_first(), cls) as int]);
        }
    }
}

/// Where the trailing run of `cls` stops, the character is outside `cls`.
pub proof fn lemma_trail_stops(s: Seq<char>, cls: CharClass)
    ensures
        trail(s, cls) < s.len() ==> !in_class(cls, s[s.len() - 1 - trail(s, cls)]),
    decreases s.len(),
{
    if s.len() > 0 && in_class(cls, s.last()) {
        lemma_trail_stops(s.drop_last(), cls);
        lemma_trail_bound(s.drop_last(), cls);
        if trail(s, cls) < s.len() {
            assert(s[s.len() - 1 - trail(s, cls)] == s.drop_last()[s.drop_last().len() - 1 - trail(
                s.drop_last(),
                cls,
            )]);
        }
    }
}

/// A trimmed text neither starts nor ends with a character of the class.
pub proof fn lemma_trim_edges(s: Seq<char>, cls: CharClass)
    ensures
        trim(s, cls).len() > 0 ==> !in_class(cls, trim(s, cls)[0]) && !in_class(
            cls,
            trim(s, cls).last(),
        ),
{
    let y = trim_start(s, cls);
    lemma_lead_bound(s, cls);
    lemma_lead_stops(s, cls);
    lemma_trail_bound(y, cls);
    lemma_trail_stops(y, cls);
    if trim(s, cls).len() > 0 {
        assert(trim(s, cls)[0] == y[0]);
        assert(y[0] == s[lead(s, cls) as int]);
        assert(trim(s, cls).last() == y[y.len() - 1 - trail(y, cls)]);
    }
}

/// A text that neither starts nor ends with a character of the class is its
/// own trim.
pub proof fn lemma_trim_fixed(s: Seq<char>, cls: CharClass)
    requires
        s.len() > 0 ==> !in_class(cls, s[0]) && !in_class(cls, s.last()),
    ensures
        trim(s, cls) == s,
{
    assert(lead(s, cls) == 0);
    assert(s.skip(0) == s);
    assert(trail(s, cls) == 0);
    assert(s.take(s.len() as int) == s);
}

/// The leading run of a class stops at the first character outside it.
pub proof fn lemma_lead_before(s: Seq<char>, cls: CharClass, i: int)
    requires
        0 <= i < s.len(),
        !in_class(cls, s[i]),
    ensures
        lead(s, cls) <= i,
    decreases s.len(),
{
    if s.len() > 0 && in_class(cls, s[0]) {
        assert(s.drop_first()[i - 1] == s[i]);
        lemma_lead_before(s.drop_first(), cls, i - 1);
    }
}

/// The trailing run of a class stops at the last character outside it.
pub proof fn lemma_trail_after(s: Seq<char>, cls: CharClass, i: int)
    requires
        0 <= i < s.len(),
        !in_class(cls, s[i]),
    ensures
        trail(s, cls) <= s.len() - 1 - i,
    decreases s.len(),
{
    if s.len() > 0 && in_class(cls, s.last()) {
        assert(s.drop_last()[i] == s[i]);
        lemma_trail_after(s.drop_last(), cls, i);
    }
}

/// A text with a character outside the class keeps it when trimmed, so its
/// trim is not empty.
pub proof fn lemma_trim_keeps(s: Seq<char>, cls: CharClass, i: int)
    requires
        0 <= i < s.len(),
        !in_class(cls, s[i]),
    ensures
        trim(s, cls).len() > 0,
{
    lemma_lead_before(s, cls, i);
    let l = lead(s, cls);
    let y = s.skip(l as int);
    assert(y[i - l] == s[i]);
    lemma_trail_after(y, cls, i - l);
}

/// A copy of `v[lo..hi]`.
pub fn slice_chars(v: &[char], lo: usize, hi: usize) -> (r: Vec<char>)
    requires
        lo <= hi <= v@.len(),
    ensures
        r@ == v@.subrange(lo as int, hi as int),
{
    let mut r: Vec<char> = Vec::new();
    let mut i: usize = lo;
    while i < hi
        invariant
            lo <= i <= hi <= v@.len(),
            r@ == v@.subrange(lo as int, i as int),
        decreases hi - i,
    {
        r.push(v[i]);
        assert(v@.subrange(lo as int, i + 1) == v@.subrange(lo as int, i as int).push(v@[i as int]));
        i = i + 1;
    }
    r
}

/// Index of the first character of `v` not in `cls` (the length if there is none).
pub fn lead_exec(v: &[char], cls: CharClass) -> (k: usize)
    ensures
        k == lead(v@, cls),
        k <= v@.len(),
{
    let n = v.len();
    let mut i: usize = 0;
    assert(v@.skip(0) == v@);
    while i < n && class_has(cls, v[i])
        invariant
            i <= n == v@.len(),
            lead(v@, cls) == i + lead(v@.skip(i as int), cls),
        decreases n - i,
    {
        assert(v@.skip(i as int).drop_first() == v@.skip(i + 1));
        i = i + 1;
    }
    i
}

/// Index just after the last character of `v` not in `cls` (zero if there is none).
pub fn trail_start_exec(v: &[char], cls: CharClass) -> (k: usize)
    ensures
        k == v@.len() - trail(v@, cls),
{
    let n = v.len();
    let mut j: usize = n;
    assert(v@.take(n as int) == v@);
    while j > 0 && class_has(cls, v[j - 1])
        invariant
            j <= n == v@.len(),
            trail(v@, cls) == (n - j) + trail(v@.take(j as int), cls),
        decreases j,
    {
        assert(v@.take(j as int).drop_last() == v@.take(j - 1));
        j = j - 1;
    }
    j
}

pub fn trim_chars(v: &[char], cls: CharClass) -> (r: Vec<char>)
    ensures
        r@ == trim(v@, cls),
{
    let lo = lead_exec(v, cls);
    let rest = slice_chars(v, lo, v.len());
    let hi = trail_start_exec(rest.as_slice(), cls);
    proof {
        lemma_trail_bound(rest@, cls);
    }
    slice_chars(rest.as_slice(), 0, hi)
}

pub fn trim_start_chars(v: &[char], cls: CharClass) -> (r: Vec<char>)
    ensures
        r@ == trim_start(v@, cls),
{
    let lo = lead_exec(v, cls);
    slice_chars(v, lo, v.len())
}

pub fn trim_end_chars(v: &[char], cls: CharClass) -> (r: Vec<char>)
    ensures
        r@ == trim_end(v@, cls),
{
    let hi = trail_start_exec(v, cls);
    proof {
        lemma_trail_bound(v@, cls);
    }
    slice_chars(v, 0, hi)
}

pub fn lower_chars(v: &[char]) -> (r: Vec<char>)
    ensures
        r@ == lower(v@),
{
    let mut r: Vec<char> = Vec::new();
    let n = v.len();
    for i in 0..n
        invariant
            n == v@.len(),
            r@ == lower(v@.take(i as int)),
    {
        r.push(lower_char_exec(v[i]));
        assert(lower(v@.take(i + 1)) == lower(v@.take(i as int)).push(lower_char(v@[i as int])));
    }
    assert(v@.take(n as int) == v@);
    r
}

/// `t` occurs in `s` at position `i`.
pub open spec fn match_at(s: Seq<char>, t: Seq<char>, i: int) -> bool {
    0 <= i && i + t.len() <= s.len() && s.subrange(i, i + t.len()) == t
}

/// The first position at or after `i` where `t` occurs in `s`.
pub open spec fn find_from(s: Seq<char>, t: Seq<char>, i: nat) -> Option<nat>
    decreases s.len() + 1 - i,
{
    if i + t.len() > s.len() {
        None
    } else if s.subrange(i as int, (i + t.len()) as int) == t {
        Some(i)
    } else {
        find_from(s, t, i + 1)
    }
}

/// `str::find` with a string pattern, by characters.
pub open spec fn find(s: Seq<char>, t: Seq<char>) -> Option<nat> {
    find_from(s, t, 0)
}

/// `str::contains` with a string pattern.
pub open spec fn contains(s: Seq<char>, t: Seq<char>) -> bool {
    find(s, t) is Some
}

/// `str::starts_with`.
pub open spec fn starts_with(s: Seq<char>, t: Seq<char>) -> bool {
    t.len() <= s.len() && s.take(t.len() as int) == t
}

/// `str::ends_with`.
pub open spec fn ends_with(s: Seq<char>, t: Seq<char>) -> bool {
    t.len() <= s.len() && s.skip(s.len() - t.len()) == t
}

pub fn match_at_exec(v: &[char], t: &[char], i: usize) -> (b: bool)
    ensures
        b == match_at(v@, t@, i as int),
{
    if i > v.len() || t.len() > v.len() - i {
        return false;
    }
    let m = t.len();
    let mut j: usize = 0;
    while j < m
        invariant
            m == t@.len(),
            i + m <= v.len(),
            v.len() == v@.len(),
            j <= m,
            forall|k: int| 0 <= k < j ==> v@[i + k] == t@[k],
        decreases m - j,
    {
        if v[i + j] != t[j] {
            assert(v@.subrange(i as int, i + m)[j as int] != t@[j as int]);
            return false;
        }
        j = j + 1;
    }
    assert(v@.subrange(i as int, i + m) == t@);
    true
}

/// Where `find` finds `t`, `t` occurs.
pub proof fn lemma_find_match(s: Seq<char>, t: Seq<char>)
    ensures
        find(s, t) matches Some(k) ==> match_at(s, t, k as int),
{
    lemma_find_from_match(s, t, 0);
}

pub proof fn lemma_find_from_match(s: Seq<char>, t: Seq<char>, i: nat)
    ensures
        find_from(s, t, i) matches Some(k) ==> match_at(s, t, k as int),
    decreases s.len() + 1 - i,
{
    if i + t.len() > s.len() {
    } else if s.subrange(i as int, (i + t.len()) as int) == t {
    } else {
        lemma_find_from_match(s, t, i + 1);
    }
}

/// An optional position as a natural number.
pub open spec fn opt_nat(o: Option<usize>) -> Option<nat> {
    match o {
        Some(k) => Some(k as nat),
        None => None,
    }
}

pub fn find_chars(v: &[char], t: &[char]) -> (r: Option<usize>)
    ensures
        opt_nat(r) == find(v@, t@),
        r matches Some(k) ==> k + t@.len() <= v@.len(),
{
    let n = v.len();
    let m = t.len();
    if m > n {
        return None;
    }
    if m == 0 {
        assert(v@.subrange(0, 0) == t@);
        return Some(0);
    }
    let mut i: usize = 0;
    while i <= n - m
        invariant
            n == v@.len(),
            m == t@.len(),
            1 <= m <= n,
            i <= n - m + 1,
            find(v@, t@) == find_from(v@, t@, i as nat),
        decreases n - m + 1 - i,
    {
        if match_at_exec(v, t, i) {
            return Some(i);
        }
        i = i + 1;
    }
    None
}

pub fn contains_chars(v: &[char], t: &[char]) -> (b: bool)
    ensures
        b == contains(v@, t@),
{
    find_chars(v, t).is_some()
}

pub fn starts_with_chars(v: &[char], t: &[char]) -> (b: bool)
    ensures
        b == starts_with(v@, t@),
{
    let b = match_at_exec(v, t, 0);
    proof {
        if b {
            assert(v@.take(t@.len() as int) == v@.subrange(0, t@.len() as int));
        }
        if starts_with(v@, t@) {
            assert(v@.take(t@.len() as int) == v@.subrange(0, t@.len() as int));
        }
    }
    b
}

pub fn ends_with_chars(v: &[char], t: &[char]) -> (b: bool)
    ensures
        b == ends_with(v@, t@),
{
    if t.len() > v.len() {
        return false;
    }
    let start = v.len() - t.len();
    let b = match_at_exec(v, t, start);
    proof {
        assert(v@.skip(start as int) == v@.subrange(start as int, v@.len() as int));
    }
    b
}


/// The character sequences that a list of `Vec<char>` holds.
pub open spec fn views(v: Seq<Vec<char>>) -> Seq<Seq<char>> {
    v.map_values(|x: Vec<char>| x@)
}

/// The character sequences that a list of `String`s holds.
pub open spec fn string_views(v: Seq<String>) -> Seq<Seq<char>> {
    v.map_values(|x: String| x@)
}

/// `str::split` by a class of characters, read left to right: the pieces
/// already closed by a separator, and the piece still open.
pub open spec fn split_fold(s: Seq<char>, cls: CharClass) -> (Seq<Seq<char>>, Seq<char>)
    decreases s.len(),
{
    if s.len() == 0 {
        (Seq::empty(), Seq::empty())
    } else {
        let pre = split_fold(s.drop_last(), cls);
        if in_class(cls, s.last()) {
            (pre.0.push(pre.1), Seq::empty())
        } else {
            (pre.0, pre.1.push(s.last()))
        }
    }
}

/// `str::split` by a class of characters: every piece, empty ones included.
pub open spec fn split(s: Seq<char>, cls: CharClass) -> Seq<Seq<char>> {
    split_fold(s, cls).0.push(split_fold(s, cls).1)
}

/// A text with no separator is one open piece.
pub proof fn lemma_split_fold_plain(s: Seq<char>, cls: CharClass)
    requires
        forall|i: int| 0 <= i < s.len() ==> !in_class(cls, #[trigger] s[i]),
    ensures
        split_fold(s, cls) == (Seq::<Seq<char>>::empty(), s),
    decreases s.len(),
{
    if s.len() > 0 {
        lemma_split_fold_plain(s.drop_last(), cls);
        assert(!in_class(cls, s[s.len() - 1]));
        assert(s.drop_last().push(s.last()) =~= s);
    }
}

/// Splitting a concatenation: the open piece of `a` joins the first piece of
/// `b`.
pub proof fn lemma_split_fold_concat(a: Seq<char>, b: Seq<char>, cls: CharClass)
    ensures
        split_fold(a + b, cls) == if split_fold(b, cls).0.len() == 0 {
            (split_fold(a, cls).0, split_fold(a, cls).1 + split_fold(b, cls).1)
        } else {
            (
                split_fold(a, cls).0 + seq![split_fold(a, cls).1 + split_fold(b, cls).0[0]] + split_fold(b, cls).0.skip(1),
                split_fold(b, cls).1,
            )
        },
    decreases b.len(),
{
    if b.len() == 0 {
        assert(a + b =~= a);
    } else {
        let b1 = b.drop_last();
        lemma_split_fold_concat(a, b1, cls);
        assert((a + b).drop_last() =~= a + b1);
        assert((a + b).last() == b.last());
        let sa = split_fold(a, cls);
        let sb1 = split_fold(b1, cls);
        if in_class(cls, b.last()) {
            if sb1.0.len() == 0 {
                assert(sa.0.push(sa.1 + sb1.1) =~= sa.0 + seq![sa.1 + sb1.0.push(sb1.1)[0]] + sb1.0.push(sb1.1).skip(1));
            } else {
                assert((sa.0 + seq![sa.1 + sb1.0[0]] + sb1.0.skip(1)).push(sb1.1) =~= sa.0 + seq![
                    sa.1 + sb1.0.push(sb1.1)[0],
                ] + sb1.0.push(sb1.1).skip(1));
            }
        } else {
            if sb1.0.len() == 0 {
                assert((sa.1 + sb1.1).push(b.last()) =~= sa.1 + sb1.1.push(b.last()));
            }
        }
    }
}

/// Splitting a concatenation (see `lemma_split_fold_concat`).
pub proof fn lemma_split_concat(a: Seq<char>, b: Seq<char>, cls: CharClass)
    ensures
        split(a + b, cls) == split_fold(a, cls).0 + seq![split_fold(a, cls).1 + split(b, cls)[0]] + split(b, cls).skip(1),
{
    lemma_split_fold_concat(a, b, cls);
    let sa = split_fold(a, cls);
    let sb = split_fold(b, cls);
    if sb.0.len() == 0 {
        assert(split(b, cls) =~= seq![sb.1]);
        assert(split(b, cls).skip(1) =~= Seq::<Seq<char>>::empty());
        assert(split(a + b, cls) =~= sa.0 + seq![sa.1 + split(b, cls)[0]] + split(b, cls).skip(1));
    } else {
        assert(split(b, cls)[0] == sb.0[0]);
        assert(split(b, cls).skip(1) =~= sb.0.skip(1).push(sb.1));
        assert(split(a + b, cls) =~= sa.0 + seq![sa.1 + split(b, cls)[0]] + split(b, cls).skip(1));
    }
}

/// The last piece of a split is the end of the text.
pub proof fn lemma_split_last_suffix(s: Seq<char>, cls: CharClass)
    ensures
        split_fold(s, cls).1.len() <= s.len(),
        s.skip(s.len() - split_fold(s, cls).1.len()) == split_fold(s, cls).1,
        split(s, cls).last() == split_fold(s, cls).1,
        split(s, cls).len() >= 1,
    decreases s.len(),
{
    if s.len() > 0 {
        lemma_split_last_suffix(s.drop_last(), cls);
        let pre = split_fold(s.drop_last(), cls).1;
        if !in_class(cls, s.last()) {
            assert(s.skip(s.len() - pre.len() - 1) == s.drop_last().skip(s.drop_last().len() - pre.len()).push(
                s.last(),
            ));
        } else {
            assert(s.skip(s.len() as int) == Seq::<char>::empty());
        }
    }
}

pub open spec fn nonempty(w: Seq<char>) -> bool {
    w.len() > 0
}

/// The non-empty pieces of `split` (`str::split_whitespace` for `Whitespace`).
pub open spec fn words(s: Seq<char>, cls: CharClass) -> Seq<Seq<char>> {
    split(s, cls).filter(|w: Seq<char>| nonempty(w))
}

/// `[T]::join` of character sequences with a separator.
pub open spec fn join(parts: Seq<Seq<char>>, sep: Seq<char>) -> Seq<char>
    decreases parts.len(),
{
    if parts.len() == 0 {
        Seq::empty()
    } else if parts.len() == 1 {
        parts[0]
    } else {
        join(parts.drop_last(), sep) + sep + parts.last()
    }
}

pub fn split_chars(v: &[char], cls: CharClass) -> (r: Vec<Vec<char>>)
    ensures
        views(r@) == split(v@, cls),
{
    let mut done: Vec<Vec<char>> = Vec::new();
    let mut cur: Vec<char> = Vec::new();
    let n = v.len();
    for i in 0..n
        invariant
            n == v@.len(),
            views(done@) == split_fold(v@.take(i as int), cls).0,
            cur@ == split_fold(v@.take(i as int), cls).1,
    {
        assert(v@.take(i + 1).drop_last() == v@.take(i as int));
        if class_has(cls, v[i]) {
            let piece = cur;
            cur = Vec::new();
            done.push(piece);
            assert(views(done@) == split_fold(v@.take(i as int), cls).0.push(piece@));
        } else {
            cur.push(v[i]);
        }
    }
    assert(v@.take(n as int) == v@);
    let last = cur;
    done.push(last);
    assert(views(done@) == split_fold(v@, cls).0.push(last@));
    done
}

pub fn words_chars(v: &[char], cls: CharClass) -> (r: Vec<Vec<char>>)
    ensures
        views(r@) == words(v@, cls),
        forall|k: int| 0 <= k < r@.len() ==> r@[k]@.len() > 0,
{
    let pieces = split_chars(v, cls);
    let mut out: Vec<Vec<char>> = Vec::new();
    let n = pieces.len();
    let ghost p = views(pieces@);
    for i in 0..n
        invariant
            n == pieces@.len(),
            p == views(pieces@),
            views(out@) == p.take(i as int).filter(|w: Seq<char>| nonempty(w)),
            forall|k: int| 0 <= k < out@.len() ==> out@[k]@.len() > 0,
    {
        proof {
            assert(p.take(i + 1) == p.take(i as int).push(p[i as int]));
            p.take(i as int).lemma_filter_push(p[i as int], |w: Seq<char>| nonempty(w));
        }
        if pieces[i].len() > 0 {
            let w = pieces[i].clone();
            out.push(w);
            assert(views(out@) == views(out@).drop_last().push(w@));
        }
    }
    assert(p.take(n as int) == p);
    out
}

pub fn join_chars(parts: &Vec<Vec<char>>, sep: &[char]) -> (r: Vec<char>)
    ensures
        r@ == join(views(parts@), sep@),
{
    let mut r: Vec<char> = Vec::new();
    let n = parts.len();
    let ghost p = views(parts@);
    for i in 0..n
        invariant
            n == parts@.len(),
            p == views(parts@),
            r@ == join(p.take(i as int), sep@),
    {
        assert(p.take(i + 1).drop_last() == p.take(i as int));
        if i > 0 {
            append_chars(&mut r, sep);
        }
        append_chars(&mut r, parts[i].as_slice());
        proof {
            if i == 0 {
                assert(p.take(1)[0] == p[0]);
                assert(r@ == Seq::<char>::empty() + p[0]);
            }
        }
    }
    assert(p.take(n as int) == p);
    r
}

pub fn append_chars(r: &mut Vec<char>, t: &[char])
    ensures
        final(r)@ == old(r)@ + t@,
{
    let m = t.len();
    for j in 0..m
        invariant
            m == t@.len(),
            r@ == old(r)@ + t@.take(j as int),
    {
        r.push(t[j]);
        assert(t@.take(j + 1) == t@.take(j as int).push(t@[j as int]));
    }
    assert(t@.take(m as int) == t@);
}

/// The position of the last `c` in `s`.
pub open spec fn rfind_char(s: Seq<char>, c: char) -> Option<nat>
    decreases s.len(),
{
    if s.len() == 0 {
        None
    } else if s.last() == c {
        Some((s.len() - 1) as nat)
    } else {
        rfind_char(s.drop_last(), c)
    }
}

/// The position of the first `c` in `s`.
pub open spec fn find_char(s: Seq<char>, c: char) -> Option<nat> {
    find(s, seq![c])
}

pub fn rfind_char_exec(v: &[char], c: char) -> (r: Option<usize>)
    ensures
        opt_nat(r) == rfind_char(v@, c),
        r matches Some(k) ==> k < v@.len() && v@[k as int] == c,
{
    let mut j: usize = v.len();
    assert(v@.take(j as int) == v@);
    while j > 0
        invariant
            j <= v@.len(),
            rfind_char(v@, c) == rfind_char(v@.take(j as int), c),
        decreases j,
    {
        if v[j - 1] == c {
            return Some(j - 1);
        }
        assert(v@.take(j as int).drop_last() == v@.take(j - 1));
        j = j - 1;
    }
    None
}

/// `s` with one trailing `\r` removed, if there is one.
pub open spec fn strip_cr(s: Seq<char>) -> Seq<char> {
    if s.len() > 0 && s.last() == '\r' {
        s.drop_last()
    } else {
        s
    }
}

/// `str::lines`: the pieces between `\n`s, a `\r` before each `\n` removed,
/// and no empty last line after a final `\n`.
pub open spec fn lines(s: Seq<char>) -> Seq<Seq<char>> {
    let p = split(s, CharClass::Newline);
    let body = p.drop_last().map_values(|w: Seq<char>| strip_cr(w));
    if p.last().len() == 0 {
        body
    } else {
        body.push(p.last())
    }
}

pub fn lines_chars(v: &[char]) -> (r: Vec<Vec<char>>)
    ensures
        views(r@) == lines(v@),
{
    let pieces = split_chars(v, CharClass::Newline);
    let ghost p = views(pieces@);
    let n = pieces.len();
    let mut out: Vec<Vec<char>> = Vec::new();
    assert(p.len() == n);
    assert(p.len() >= 1);
    for i in 0..n - 1
        invariant
            n == pieces@.len(),
            n >= 1,
            p == views(pieces@),
            views(out@) == p.take(i as int).map_values(|w: Seq<char>| strip_cr(w)),
    {
        let piece = &pieces[i];
        let line = if piece.len() > 0 && piece[piece.len() - 1] == '\r' {
            slice_chars(piece.as_slice(), 0, piece.len() - 1)
        } else {
            piece.clone()
        };
        proof {
            if piece@.len() > 0 && piece@.last() == '\r' {
                assert(piece@.subrange(0, piece@.len() - 1) == piece@.drop_last());
            }
        }
        assert(line@ == strip_cr(p[i as int]));
        out.push(line);
        assert(p.take(i + 1) == p.take(i as int).push(p[i as int]));
        assert(p.take(i + 1).map_values(|w: Seq<char>| strip_cr(w)) == p.take(i as int).map_values(
            |w: Seq<char>| strip_cr(w),
        ).push(strip_cr(p[i as int])));
        assert(views(out@) == views(out@).drop_last().push(line@));
    }
    assert(p.take(n - 1) == p.drop_last());
    if pieces[n - 1].len() > 0 {
        let last = pieces[n - 1].clone();
        out.push(last);
        assert(views(out@) == views(out@).drop_last().push(last@));
    }
    out
}


pub fn eq_chars(a: &[char], b: &[char]) -> (r: bool)
    ensures
        r == (a@ == b@),
{
    if a.len() != b.len() {
        return false;
    }
    let r = match_at_exec(a, b, 0);
    proof {
        assert(a@.subrange(0, b@.len() as int) == a@);
    }
    r
}

/// Whether two strings hold the same characters.
pub fn str_eq(a: &str, b: &str) -> (r: bool)
    ensures
        r == (a@ == b@),
{
    let x = chars_of(a);
    let y = chars_of(b);
    eq_chars(x.as_slice(), y.as_slice())
}

/// A new `String` with the characters of `s`.
pub fn owned(s: &str) -> (r: String)
    ensures
        r@ == s@,
{
    String::from_str(s)
}

/// `str::trim` and friends, on strings.
pub fn trim_str(s: &str, cls: CharClass) -> (r: String)
    ensures
        r@ == trim(s@, cls),
{
    let v = chars_of(s);
    let t = trim_chars(v.as_slice(), cls);
    string_of(t.as_slice())
}

/// `str::to_ascii_lowercase`.
pub fn lower_str(s: &str) -> (r: String)
    ensures
        r@ == lower(s@),
{
    let v = chars_of(s);
    let t = lower_chars(v.as_slice());
    string_of(t.as_slice())
}

/// `str::contains` with a string pattern.
pub fn contains_str(s: &str, t: &str) -> (r: bool)
    ensures
        r == contains(s@, t@),
{
    let v = chars_of(s);
    let w = chars_of(t);
    contains_chars(v.as_slice(), w.as_slice())
}

/// `str::starts_with` with a string pattern.
pub fn starts_with_str(s: &str, t: &str) -> (r: bool)
    ensures
        r == starts_with(s@, t@),
{
    let v = chars_of(s);
    let w = chars_of(t);
    starts_with_chars(v.as_slice(), w.as_slice())
}

/// `str::ends_with` with a string pattern.
pub fn ends_with_str(s: &str, t: &str) -> (r: bool)
    ensures
        r == ends_with(s@, t@),
{
    let v = chars_of(s);
    let w = chars_of(t);
    ends_with_chars(v.as_slice(), w.as_slice())
}

/// `a` followed by `b`.
pub fn concat2(a: &str, b: &str) -> (r: String)
    ensures
        r@ == a@ + b@,
{
    let mut r = String::from_str(a);
    r.append(b);
    r
}

/// `a`, `b` and `c` one after another.
pub fn concat3(a: &str, b: &str, c: &str) -> (r: String)
    ensures
        r@ == a@ + b@ + c@,
{
    let mut r = String::from_str(a);
    r.append(b);
    r.append(c);
    r
}


/// `str::replace`: every occurrence of `from`, left to right and without
/// overlap, replaced by `to`.
pub open spec fn replace_all(s: Seq<char>, from: Seq<char>, to: Seq<char>) -> Seq<char>
    decreases s.len(),
{
    if from.len() == 0 {
        s
    } else {
        match find(s, from) {
            Some(k) => if k + from.len() <= s.len() {
                s.take(k as int) + to + replace_all(s.skip((k + from.len()) as int), from, to)
            } else {
                s
            },
            None => s,
        }
    }
}

pub fn replace_chars(v: &[char], from: &[char], to: &[char]) -> (r: Vec<char>)
    requires
        from@.len() > 0,
    ensures
        r@ == replace_all(v@, from@, to@),
{
    let mut out: Vec<char> = Vec::new();
    let mut rest: Vec<char> = slice_chars(v, 0, v.len());
    assert(v@.subrange(0, v@.len() as int) == v@);
    loop
        invariant
            from@.len() > 0,
            out@ + replace_all(rest@, from@, to@) == replace_all(v@, from@, to@),
        decreases rest@.len(),
    {
        match find_chars(rest.as_slice(), from) {
            Some(k) => {
                let rl = rest.len();
                let fl = from.len();
                assert(k + fl <= rl);
                let head = slice_chars(rest.as_slice(), 0, k);
                let tail = slice_chars(rest.as_slice(), k + fl, rl);
                assert(head@ == rest@.take(k as int));
                assert(tail@ == rest@.skip((k + from@.len()) as int));
                append_chars(&mut out, head.as_slice());
                append_chars(&mut out, to);
                assert(out@ + replace_all(tail@, from@, to@) =~= replace_all(v@, from@, to@));
                rest = tail;
            },
            None => {
                append_chars(&mut out, rest.as_slice());
                return out;
            },
        }
    }
}

/// `str::replace` on strings; `from` must not be empty.
pub fn replace_str(s: &str, from: &str, to: &str) -> (r: String)
    requires
        from@.len() > 0,
    ensures
        r@ == replace_all(s@, from@, to@),
{
    let v = chars_of(s);
    let f = chars_of(from);
    let t = chars_of(to);
    let r = replace_chars(v.as_slice(), f.as_slice(), t.as_slice());
    string_of(r.as_slice())
}


/// The Unicode lower-case form of a text, as std's `str::to_lowercase` gives it.
pub uninterp spec fn unicode_lower(s: Seq<char>) -> Seq<char>;

/// std `str::to_lowercase`. Trusted: the result is `unicode_lower` of the
/// text. The Unicode case tables it follows are not written out here.
#[verifier::external_body]
pub(crate) fn to_lowercase(s: &str) -> (r: String)
    ensures
        r@ == unicode_lower(s@),
{
    s.to_lowercase()
}

/// The Unicode upper-case form of a text, as std's `str::to_uppercase` gives it.
pub uninterp spec fn unicode_upper(s: Seq<char>) -> Seq<char>;

/// std `str::to_uppercase`. Trusted: the result is `unicode_upper` of the
/// text. The Unicode case tables it follows are not written out here.
#[verifier::external_body]
pub(crate) fn to_uppercase(s: &str) -> (r: String)
    ensures
        r@ == unicode_upper(s@),
{
    s.to_uppercase()
}

} // verus!
