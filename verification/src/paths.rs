use vstd::prelude::*;

use crate::platform::TargetOs;
use crate::text::{append_chars, chars_of, eq_chars, split, split_chars, string_of, views, CharClass};

verus! {

/// The environment variables the app reads for its folders.
pub struct EnvVars {
    pub home: Option<String>,
    pub userprofile: Option<String>,
    pub appdata: Option<String>,
    pub local_appdata: Option<String>,
}

/// Whether `c` separates path components on `os`.
pub open spec fn is_sep(os: TargetOs, c: char) -> bool {
    c == '/' || (os == TargetOs::Windows && c == '\\')
}

/// The separator a path gets on `os`.
pub open spec fn sep_char(os: TargetOs) -> char {
    if os == TargetOs::Windows {
        '\\'
    } else {
        '/'
    }
}

/// Whether `c` is an ASCII letter.
pub open spec fn is_ascii_letter(c: char) -> bool {
    ('a' <= c && c <= 'z') || ('A' <= c && c <= 'Z')
}

/// Whether a Windows path is nothing but a drive prefix such as `C:`.
pub open spec fn drive_only(os: TargetOs, p: Seq<char>) -> bool {
    os == TargetOs::Windows && p.len() == 2 && is_ascii_letter(p[0]) && p[1] == ':'
}

/// `PathBuf::join` with a relative component: a separator is put between
/// them unless the base is empty, already ends in one, or is only a drive
/// prefix (`C:` joined with `x` is `C:x`).
pub open spec fn join_path(os: TargetOs, base: Seq<char>, part: Seq<char>) -> Seq<char> {
    if base.len() == 0 || is_sep(os, base.last()) || drive_only(os, base) {
        base + part
    } else {
        base.push(sep_char(os)) + part
    }
}

fn is_ascii_letter_exec(c: char) -> (r: bool)
    ensures
        r == is_ascii_letter(c),
{
    ('a' <= c && c <= 'z') || ('A' <= c && c <= 'Z')
}

fn drive_only_exec(os: TargetOs, v: &[char]) -> (r: bool)
    ensures
        r == drive_only(os, v@),
{
    if os != TargetOs::Windows {
        return false;
    }
    v.len() == 2 && is_ascii_letter_exec(v[0]) && v[1] == ':'
}

/// Joins a relative component onto a path.
pub fn join(os: TargetOs, base: &str, part: &str) -> (r: String)
    ensures
        r@ == join_path(os, base@, part@),
{
    let mut v = chars_of(base);
    let n = v.len();
    if n > 0 {
        let last = v[n - 1];
        let sep_end = last == '/' || (os == TargetOs::Windows && last == '\\');
        if !sep_end && !drive_only_exec(os, v.as_slice()) {
            v.push(if os == TargetOs::Windows { '\\' } else { '/' });
        }
    }
    let p = chars_of(part);
    append_chars(&mut v, p.as_slice());
    string_of(v.as_slice())
}

/// The separators of `os` as a class of characters.
pub open spec fn sep_class(os: TargetOs) -> CharClass {
    if os == TargetOs::Windows {
        CharClass::AnySlash
    } else {
        CharClass::Slash
    }
}

/// Whether a path component counts: not empty and not `.`.
pub open spec fn counts(w: Seq<char>) -> bool {
    w.len() > 0 && w != "."@
}

/// A path as `Path::components` reads it, which is what makes two paths
/// equal: whether it starts at the root, whether it starts with a `.`
/// component, and its other components, empty and `.` ones dropped (so
/// `a//b`, `a/./b` and `a/b/` are all `a/b`).
pub open spec fn path_key(os: TargetOs, p: Seq<char>) -> (bool, bool, Seq<Seq<char>>) {
    let parts = split(p, sep_class(os));
    let rooted = p.len() > 0 && is_sep(os, p[0]);
    (rooted, !rooted && parts[0] == "."@, parts.filter(|w: Seq<char>| counts(w)))
}

fn counts_exec(w: &[char]) -> (r: bool)
    ensures
        r == counts(w@),
{
    proof {
        reveal_strlit(".");
    }
    if w.len() == 0 {
        return false;
    }
    if w.len() == 1 && w[0] == '.' {
        assert(w@ =~= "."@);
        return false;
    }
    assert(w@ != "."@ ==> true);
    if w.len() == 1 {
        assert(w@[0] != "."@[0]);
    }
    true
}

fn path_key_exec(os: TargetOs, v: &[char]) -> (r: (bool, bool, Vec<Vec<char>>))
    ensures
        r.0 == path_key(os, v@).0,
        r.1 == path_key(os, v@).1,
        views(r.2@) == path_key(os, v@).2,
{
    let cls = match os {
        TargetOs::Windows => CharClass::AnySlash,
        TargetOs::Macos => CharClass::Slash,
    };
    let parts = split_chars(v, cls);
    proof {
        crate::text::lemma_split_last_suffix(v@, cls);
    }
    assert(parts@.len() == split(v@, cls).len());
    let rooted = v.len() > 0 && (v[0] == '/' || (os == TargetOs::Windows && v[0] == '\\'));
    let dot = [ '.' ];
    proof {
        reveal_strlit(".");
        assert(dot@ =~= "."@);
    }
    assert(parts@[0]@ == split(v@, cls)[0]);
    let lead = !rooted && eq_chars(parts[0].as_slice(), &dot);
    let mut kept: Vec<Vec<char>> = Vec::new();
    let n = parts.len();
    let ghost all = views(parts@);
    for i in 0..n
        invariant
            n == parts@.len(),
            all == views(parts@),
            all == split(v@, cls),
            views(kept@) == all.take(i as int).filter(|w: Seq<char>| counts(w)),
    {
        proof {
            all.take(i as int).lemma_filter_push(all[i as int], |w: Seq<char>| counts(w));
            assert(all.take(i + 1) == all.take(i as int).push(all[i as int]));
            assert(all[i as int] == parts@[i as int]@);
        }
        if counts_exec(parts[i].as_slice()) {
            kept.push(parts[i].clone());
            assert(views(kept@) =~= views(kept@).drop_last().push(all[i as int]));
        }
    }
    assert(all.take(n as int) == all);
    (rooted, lead, kept)
}

/// Whether two strings name the same path (see `path_key`).
pub fn same_path(os: TargetOs, a: &str, b: &str) -> (r: bool)
    ensures
        r == (path_key(os, a@) == path_key(os, b@)),
{
    let ka = path_key_exec(os, chars_of(a).as_slice());
    let kb = path_key_exec(os, chars_of(b).as_slice());
    let ghost va = views(ka.2@);
    let ghost vb = views(kb.2@);
    if ka.0 != kb.0 || ka.1 != kb.1 || ka.2.len() != kb.2.len() {
        assert(va.len() == ka.2@.len() && vb.len() == kb.2@.len());
        assert(path_key(os, a@).2 == va && path_key(os, b@).2 == vb);
        return false;
    }
    let n = ka.2.len();
    for i in 0..n
        invariant
            n == ka.2@.len() == kb.2@.len(),
            va == views(ka.2@),
            vb == views(kb.2@),
            va == path_key(os, a@).2,
            vb == path_key(os, b@).2,
            forall|k: int| 0 <= k < i ==> ka.2@[k]@ == kb.2@[k]@,
    {
        if !eq_chars(ka.2[i].as_slice(), kb.2[i].as_slice()) {
            assert(va[i as int] != vb[i as int]);
            assert(va != vb);
            return false;
        }
    }
    assert(views(ka.2@) =~= views(kb.2@));
    true
}

/// The first of two optional values, else the second, else the default.
pub open spec fn first_of(a: Option<String>, b: Option<String>, default: Seq<char>) -> Seq<char> {
    match a {
        Some(x) => x@,
        None => match b {
            Some(y) => y@,
            None => default,
        },
    }
}

/// The home folder: `HOME`, else `USERPROFILE`, else `.`.
pub open spec fn home_dir(env: EnvVars) -> Seq<char> {
    first_of(env.home, env.userprofile, "."@)
}

/// The home folder: `HOME`, else `USERPROFILE`, else `.`.
pub fn dirs_home(env: &EnvVars) -> (r: String)
    ensures
        r@ == home_dir(*env),
{
    match &env.home {
        Some(h) => h.clone(),
        None => match &env.userprofile {
            Some(u) => u.clone(),
            None => String::from_str("."),
        },
    }
}

/// The value of an optional variable, or `default`.
pub fn or_default(v: &Option<String>, default: &str) -> (r: String)
    ensures
        r@ == match v {
            Some(x) => x@,
            None => default@,
        },
{
    match v {
        Some(x) => x.clone(),
        None => String::from_str(default),
    }
}

} // verus!
