use vstd::prelude::*;

use crate::agent_types::ToolCall;
use crate::json::{entry, jstr, Json, JsonV};
use crate::text::{
    chars_of, contains, contains_chars, ends_with, ends_with_chars, eq_chars, join, join_chars,
    lower, lower_chars, slice_chars, split, split_chars, string_of, string_views, trim, trim_chars,
    views, words, words_chars, CharClass, append_chars,
};

verus! {

/// The question asked before a workspace write runs.
pub open spec fn workspace_confirmation(name: Seq<char>, args: JsonV) -> Seq<char> {
    let path = match args.str_field("path"@) {
        Some(p) => p,
        None => "(missing path)"@,
    };
    if name == "workspace.save_note"@ {
        "Save this to `"@ + path + "` in your workspace?"@
    } else if name == "workspace.create_note"@ {
        "Create a new note at `"@ + path + "` in your workspace?"@
    } else if name == "workspace.append_note"@ {
        "Append to `"@ + path + "` in your workspace?"@
    } else {
        "Run `"@ + name + "` in your workspace?"@
    }
}

/// The question asked before a workspace tool runs: which note is saved,
/// created or appended to, or which tool is run.
pub fn confirmation_text(tool: &ToolCall) -> (r: String)
    ensures
        r@ == workspace_confirmation(tool.name@, tool.args@),
{
    let path: &str = match tool.args.get_str("path") {
        Some(p) => p.as_str(),
        None => "(missing path)",
    };
    let name = tool.name.as_str();
    if crate::text::str_eq(name, "workspace.save_note") {
        crate::text::concat3("Save this to `", path, "` in your workspace?")
    } else if crate::text::str_eq(name, "workspace.create_note") {
        crate::text::concat3("Create a new note at `", path, "` in your workspace?")
    } else if crate::text::str_eq(name, "workspace.append_note") {
        crate::text::concat3("Append to `", path, "` in your workspace?")
    } else {
        crate::text::concat3("Run `", name, "` in your workspace?")
    }
}

/// The tool a workspace write becomes: creating a note that exists, or
/// appending to one that does not, becomes a save.
pub open spec fn normalized_tool_name(name: Seq<char>, args: JsonV, note_exists: bool) -> Seq<char> {
    if (name == "workspace.create_note"@ || name == "workspace.append_note"@) && args.str_field(
        "path"@,
    ) is Some && ((name == "workspace.create_note"@ && note_exists) || (name
        == "workspace.append_note"@ && !note_exists)) {
        "workspace.save_note"@
    } else {
        name
    }
}

/// Turns a create of an existing note, or an append to a missing one, into a
/// save (which creates or appends as needed). `note_exists` tells whether the
/// note at the call's path exists.
pub fn normalize_workspace_tool(tool: ToolCall, note_exists: bool) -> (r: ToolCall)
    ensures
        r.name@ == normalized_tool_name(tool.name@, tool.args@, note_exists),
        r.args@ == tool.args@,
{
    let mut tool = tool;
    let is_create = crate::text::str_eq(tool.name.as_str(), "workspace.create_note");
    let is_append = crate::text::str_eq(tool.name.as_str(), "workspace.append_note");
    if !(is_create || is_append) {
        return tool;
    }
    if tool.args.get_str("path").is_none() {
        return tool;
    }
    if (is_create && note_exists) || (is_append && !note_exists) {
        tool.name = String::from_str("workspace.save_note");
    }
    tool
}

/// Whether a (lower-cased) command speaks of a note, a Markdown file, a to-do
/// list, tasks or ideas.
pub open spec fn mentions_note(l: Seq<char>) -> bool {
    ||| contains(l, "note"@)
    ||| contains(l, ".md"@)
    ||| contains(l, "markdown"@)
    ||| contains(l, "todo"@)
    ||| contains(l, "to do"@)
    ||| contains(l, "task"@)
    ||| contains(l, "tasks"@)
    ||| contains(l, "idea"@)
    ||| contains(l, "ideas"@)
}

/// Whether a (lower-cased) command asks to create, save, write, put or add.
pub open spec fn asks_write(l: Seq<char>) -> bool {
    ||| contains(l, "create"@)
    ||| contains(l, "save"@)
    ||| contains(l, "write"@)
    ||| contains(l, "put"@)
    ||| contains(l, "add"@)
}

fn contains_lit(v: &[char], t: &str) -> (r: bool)
    ensures
        r == contains(v@, t@),
{
    let w = chars_of(t);
    contains_chars(v, w.as_slice())
}

/// Whether a lower-cased command speaks of a workspace note.
pub fn mentions_workspace_note(lower_command: &str) -> (r: bool)
    ensures
        r == mentions_note(lower_command@),
{
    let v = chars_of(lower_command);
    let l = v.as_slice();
    contains_lit(l, "note") || contains_lit(l, ".md") || contains_lit(l, "markdown") || contains_lit(
        l,
        "todo",
    ) || contains_lit(l, "to do") || contains_lit(l, "task") || contains_lit(l, "tasks")
        || contains_lit(l, "idea") || contains_lit(l, "ideas")
}

fn asks_write_exec(l: &[char]) -> (r: bool)
    ensures
        r == asks_write(l@),
{
    contains_lit(l, "create") || contains_lit(l, "save") || contains_lit(l, "write") || contains_lit(
        l,
        "put",
    ) || contains_lit(l, "add")
}

/// A note name reduced to its ASCII letters and digits, lower-cased.
pub open spec fn note_key(value: Seq<char>) -> Seq<char> {
    lower(value.filter(|c: char| crate::text::is_alnum(c)))
}

proof fn lemma_filter_keeps_all(s: Seq<char>, pred: spec_fn(char) -> bool)
    requires
        forall|i: int| 0 <= i < s.len() ==> pred(#[trigger] s[i]),
    ensures
        s.filter(pred) == s,
    decreases s.len(),
{
    reveal(Seq::filter);
    if s.len() > 0 {
        lemma_filter_keeps_all(s.drop_last(), pred);
        assert(pred(s[s.len() - 1]));
        assert(s.drop_last().push(s.last()) =~= s);
    }
}

/// The key of a note name is its own key: keying a name twice changes
/// nothing, so names that agree up to case and punctuation share one key.
pub proof fn law_note_key_is_stable(value: Seq<char>)
    ensures
        note_key(note_key(value)) == note_key(value),
{
    let keep = |c: char| crate::text::is_alnum(c);
    let f = value.filter(keep);
    let k = note_key(value);
    assert(k == lower(f));
    assert forall|i: int| 0 <= i < f.len() implies crate::text::is_alnum(#[trigger] f[i]) by {
        value.lemma_filter_pred(keep, i);
    }
    assert forall|i: int| 0 <= i < k.len() implies crate::text::is_alnum(#[trigger] k[i])
        && crate::text::lower_char(k[i]) == k[i] by {
        let c = f[i];
        assert(k[i] == crate::text::lower_char(c));
        let u = c as u32;
        if 65 <= u <= 90 {
            assert(((u + 32) as char) as u32 == u + 32);
        }
    }
    lemma_filter_keeps_all(k, keep);
    assert(k.filter(keep) == k);
    assert(lower(k) =~= k);
}

/// Reduces a note name to its lower-cased ASCII letters and digits.
pub fn normalize_note_name(value: &str) -> (r: String)
    ensures
        r@ == note_key(value@),
{
    let v = chars_of(value);
    let r = note_key_chars(v.as_slice());
    string_of(r.as_slice())
}

fn note_key_chars(v: &[char]) -> (r: Vec<char>)
    ensures
        r@ == note_key(v@),
{
    let mut kept: Vec<char> = Vec::new();
    let n = v.len();
    for i in 0..n
        invariant
            n == v@.len(),
            kept@ == v@.take(i as int).filter(|c: char| crate::text::is_alnum(c)),
    {
        proof {
            assert(v@.take(i + 1) == v@.take(i as int).push(v@[i as int]));
            v@.take(i as int).lemma_filter_push(v@[i as int], |c: char| crate::text::is_alnum(c));
        }
        if crate::text::is_alnum_exec(v[i]) {
            kept.push(v[i]);
        }
    }
    assert(v@.take(n as int) == v@);
    lower_chars(kept.as_slice())
}

/// `s` with every trailing repetition of `suffix` removed (`trim_end_matches`).
pub open spec fn strip_suffixes(s: Seq<char>, suffix: Seq<char>) -> Seq<char>
    decreases s.len(),
{
    if suffix.len() > 0 && ends_with(s, suffix) {
        strip_suffixes(s.take(s.len() - suffix.len()), suffix)
    } else {
        s
    }
}

fn strip_suffixes_chars(v: &[char], suffix: &str) -> (r: Vec<char>)
    ensures
        r@ == strip_suffixes(v@, suffix@),
{
    let suf = chars_of(suffix);
    let mut cur: Vec<char> = slice_chars(v, 0, v.len());
    assert(v@.subrange(0, v@.len() as int) == v@);
    while suf.len() > 0 && ends_with_chars(cur.as_slice(), suf.as_slice())
        invariant
            suf@ == suffix@,
            strip_suffixes(v@, suffix@) == strip_suffixes(cur@, suffix@),
        decreases cur@.len(),
    {
        let k = cur.len() - suf.len();
        let next = slice_chars(cur.as_slice(), 0, k);
        assert(next@ == cur@.take(k as int));
        cur = next;
    }
    cur
}

/// The file name of a path (after its last `/`).
pub open spec fn file_name_part(path: Seq<char>) -> Seq<char> {
    split(path, CharClass::Slash).last()
}

/// A note path's key: its file name without `.markdown`, `.md`, `.text` and
/// `.txt` endings, reduced as `note_key` does.
pub open spec fn stem_key(path: Seq<char>) -> Seq<char> {
    let f = file_name_part(path);
    note_key(
        strip_suffixes(
            strip_suffixes(strip_suffixes(strip_suffixes(f, ".markdown"@), ".md"@), ".text"@),
            ".txt"@,
        ),
    )
}

/// The key of a note path: file name, extension-free, letters and digits only.
pub fn normalized_stem(path: &str) -> (r: String)
    ensures
        r@ == stem_key(path@),
{
    let v = chars_of(path);
    let r = stem_key_chars(v.as_slice());
    string_of(r.as_slice())
}

fn stem_key_chars(v: &[char]) -> (r: Vec<char>)
    ensures
        r@ == stem_key(v@),
{
    let parts = split_chars(v, CharClass::Slash);
    assert(views(parts@).len() == parts@.len());
    let last = parts.len() - 1;
    let f = &parts[last];
    assert(f@ == split(v@, CharClass::Slash).last());
    let a = strip_suffixes_chars(f.as_slice(), ".markdown");
    let b = strip_suffixes_chars(a.as_slice(), ".md");
    let c = strip_suffixes_chars(b.as_slice(), ".text");
    let d = strip_suffixes_chars(c.as_slice(), ".txt");
    note_key_chars(d.as_slice())
}


/// A Markdown file name made safe: its stem reduced to ASCII letters and
/// digits joined by `-`, then `.md`, or `note.md` when nothing is left. Any
/// other segment stays as it is.
pub open spec fn clean_segment(segment: Seq<char>) -> Seq<char> {
    if !ends_with(lower(segment), ".md"@) {
        segment
    } else {
        let stem = join(
            words(trim(segment.take(segment.len() - 3), CharClass::NotAlnum), CharClass::NotAlnum),
            "-"@,
        );
        if stem.len() == 0 {
            "note.md"@
        } else {
            stem + ".md"@
        }
    }
}

fn clean_segment_chars(segment: &[char]) -> (r: Vec<char>)
    ensures
        r@ == clean_segment(segment@),
{
    let l = lower_chars(segment);
    if !ends_with_chars(l.as_slice(), chars_of(".md").as_slice()) {
        return slice_chars(segment, 0, segment.len());
    }
    proof {
        reveal_strlit(".md");
    }
    let k = segment.len() - 3;
    let head = slice_chars(segment, 0, k);
    assert(head@ == segment@.take(segment@.len() - 3));
    let t = trim_chars(head.as_slice(), CharClass::NotAlnum);
    let ws = words_chars(t.as_slice(), CharClass::NotAlnum);
    let stem = join_chars(&ws, chars_of("-").as_slice());
    if stem.len() == 0 {
        chars_of("note.md")
    } else {
        let mut out = stem;
        append_chars(&mut out, chars_of(".md").as_slice());
        out
    }
}

/// Makes one path segment safe if it names a Markdown file.
pub fn clean_markdown_segment(segment: &str) -> (r: String)
    ensures
        r@ == clean_segment(segment@),
{
    let v = chars_of(segment);
    let r = clean_segment_chars(v.as_slice());
    string_of(r.as_slice())
}

/// `\` turned into `/`.
pub open spec fn forward_slashes(s: Seq<char>) -> Seq<char> {
    s.map_values(|c: char| if c == '\\' { '/' } else { c })
}

/// A Markdown path made safe: backslashes become slashes, each segment is
/// cleaned, empty segments are dropped, and the rest are joined by `/`.
pub open spec fn clean_path(path: Seq<char>) -> Seq<char> {
    join(
        split(forward_slashes(path), CharClass::Slash).map_values(|w: Seq<char>| clean_segment(w)).filter(
            |w: Seq<char>| w.len() > 0,
        ),
        "/"@,
    )
}

fn clean_path_chars(path: &[char]) -> (r: Vec<char>)
    ensures
        r@ == clean_path(path@),
{
    let mut fw: Vec<char> = Vec::new();
    let n = path.len();
    for i in 0..n
        invariant
            n == path@.len(),
            fw@ == forward_slashes(path@.take(i as int)),
    {
        let c = path[i];
        fw.push(if c == '\\' { '/' } else { c });
        assert(forward_slashes(path@.take(i + 1)) == forward_slashes(path@.take(i as int)).push(
            if path@[i as int] == '\\' { '/' } else { path@[i as int] },
        ));
    }
    assert(path@.take(n as int) == path@);
    let pieces = split_chars(fw.as_slice(), CharClass::Slash);
    let ghost p = views(pieces@);
    let ghost cleaned = p.map_values(|w: Seq<char>| clean_segment(w));
    let mut out: Vec<Vec<char>> = Vec::new();
    let m = pieces.len();
    for i in 0..m
        invariant
            m == pieces@.len(),
            p == views(pieces@),
            cleaned == p.map_values(|w: Seq<char>| clean_segment(w)),
            views(out@) == cleaned.take(i as int).filter(|w: Seq<char>| w.len() > 0),
    {
        let c = clean_segment_chars(pieces[i].as_slice());
        proof {
            assert(cleaned.take(i + 1) == cleaned.take(i as int).push(cleaned[i as int]));
            cleaned.take(i as int).lemma_filter_push(cleaned[i as int], |w: Seq<char>| w.len() > 0);
        }
        if c.len() > 0 {
            out.push(c);
            assert(views(out@) == views(out@).drop_last().push(c@));
        }
    }
    assert(cleaned.take(m as int) == cleaned);
    join_chars(&out, chars_of("/").as_slice())
}

/// Makes a Markdown path safe: forward slashes, clean segments, none empty.
pub fn clean_markdown_path(path: &str) -> (r: String)
    ensures
        r@ == clean_path(path@),
{
    let v = chars_of(path);
    let r = clean_path_chars(v.as_slice());
    string_of(r.as_slice())
}

/// The first word of a command that names a Markdown file, made safe.
pub open spec fn first_md_path(ws: Seq<Seq<char>>) -> Option<Seq<char>>
    decreases ws.len(),
{
    if ws.len() == 0 {
        None
    } else {
        let cleaned = trim(ws[0], CharClass::PathQuote);
        if ends_with(lower(cleaned), ".md"@) {
            Some(clean_path(cleaned))
        } else {
            first_md_path(ws.drop_first())
        }
    }
}

/// The Markdown path a command names: its first whitespace-separated word
/// that, without surrounding quotes and punctuation, ends in `.md`.
pub open spec fn named_md_path(command: Seq<char>) -> Option<Seq<char>> {
    first_md_path(words(command, CharClass::Whitespace))
}

fn named_md_path_chars(command: &[char]) -> (r: Option<Vec<char>>)
    ensures
        match named_md_path(command@) {
            Some(p) => r is Some && r.unwrap()@ == p,
            None => r is None,
        },
{
    let ws = words_chars(command, CharClass::Whitespace);
    let ghost w = views(ws@);
    let n = ws.len();
    let md = chars_of(".md");
    let mut i: usize = 0;
    assert(w.skip(0) == w);
    while i < n
        invariant
            n == ws@.len(),
            w == views(ws@),
            w == words(command@, CharClass::Whitespace),
            md@ == ".md"@,
            i <= n,
            first_md_path(w) == first_md_path(w.skip(i as int)),
        decreases n - i,
    {
        let cleaned = trim_chars(ws[i].as_slice(), CharClass::PathQuote);
        let lc = lower_chars(cleaned.as_slice());
        assert(w.skip(i as int)[0] == w[i as int]);
        if ends_with_chars(lc.as_slice(), md.as_slice()) {
            return Some(clean_path_chars(cleaned.as_slice()));
        }
        assert(w.skip(i as int).drop_first() == w.skip(i + 1));
        i = i + 1;
    }
    None
}

/// The Markdown path a command names, made safe, if it names one.
pub fn extract_markdown_path(command: &str) -> (r: Option<String>)
    ensures
        match named_md_path(command@) {
            Some(p) => r is Some && r.unwrap()@ == p,
            None => r is None,
        },
{
    let v = chars_of(command);
    match named_md_path_chars(v.as_slice()) {
        Some(p) => Some(string_of(p.as_slice())),
        None => None,
    }
}


/// The first file whose key equals (or, when `exact` is false, contains) `key`.
pub open spec fn first_with_key(files: Seq<Seq<char>>, key: Seq<char>, exact: bool) -> Option<
    Seq<char>,
>
    decreases files.len(),
{
    if files.len() == 0 {
        None
    } else if (if exact {
        stem_key(files[0]) == key
    } else {
        contains(stem_key(files[0]), key)
    }) {
        Some(files[0])
    } else {
        first_with_key(files.drop_first(), key, exact)
    }
}

/// The first alias, in order, that some file matches, and that file.
pub open spec fn alias_pass(files: Seq<Seq<char>>, aliases: Seq<Seq<char>>, exact: bool) -> Option<
    Seq<char>,
>
    decreases aliases.len(),
{
    if aliases.len() == 0 {
        None
    } else {
        match first_with_key(files, note_key(aliases[0]), exact) {
            Some(f) => Some(f),
            None => alias_pass(files, aliases.drop_first(), exact),
        }
    }
}

/// The existing note that best fits a list of aliases: an exact key match for
/// the earliest alias that has one, else a file whose key contains an alias.
pub open spec fn best_note(files: Seq<Seq<char>>, aliases: Seq<Seq<char>>) -> Option<Seq<char>> {
    match alias_pass(files, aliases, true) {
        Some(f) => Some(f),
        None => alias_pass(files, aliases, false),
    }
}

fn first_with_key_exec(files: &[String], key: &[char], exact: bool) -> (r: Option<String>)
    ensures
        match first_with_key(string_views(files@), key@, exact) {
            Some(f) => r is Some && r.unwrap()@ == f,
            None => r is None,
        },
{
    let ghost fs = string_views(files@);
    let n = files.len();
    let mut i: usize = 0;
    assert(fs.skip(0) == fs);
    while i < n
        invariant
            n == files@.len(),
            fs == string_views(files@),
            i <= n,
            first_with_key(fs, key@, exact) == first_with_key(fs.skip(i as int), key@, exact),
        decreases n - i,
    {
        let fv = chars_of(files[i].as_str());
        let k = stem_key_chars(fv.as_slice());
        let hit = if exact {
            eq_chars(k.as_slice(), key)
        } else {
            contains_chars(k.as_slice(), key)
        };
        assert(fs.skip(i as int)[0] == fs[i as int]);
        if hit {
            return Some(files[i].clone());
        }
        assert(fs.skip(i as int).drop_first() == fs.skip(i + 1));
        i = i + 1;
    }
    None
}

fn alias_pass_exec(files: &[String], aliases: &[&str], exact: bool) -> (r: Option<String>)
    ensures
        match alias_pass(string_views(files@), aliases@.map_values(|a: &str| a@), exact) {
            Some(f) => r is Some && r.unwrap()@ == f,
            None => r is None,
        },
{
    let ghost al = aliases@.map_values(|a: &str| a@);
    let ghost fs = string_views(files@);
    let n = aliases.len();
    let mut i: usize = 0;
    assert(al.skip(0) == al);
    while i < n
        invariant
            n == aliases@.len(),
            al == aliases@.map_values(|a: &str| a@),
            fs == string_views(files@),
            i <= n,
            alias_pass(fs, al, exact) == alias_pass(fs, al.skip(i as int), exact),
        decreases n - i,
    {
        let av = chars_of(aliases[i]);
        let key = note_key_chars(av.as_slice());
        assert(al.skip(i as int)[0] == al[i as int]);
        match first_with_key_exec(files, key.as_slice(), exact) {
            Some(f) => {
                return Some(f);
            },
            None => {},
        }
        assert(al.skip(i as int).drop_first() == al.skip(i + 1));
        i = i + 1;
    }
    None
}

/// The existing note that best fits the aliases, looking first for exact key
/// matches alias by alias, then for keys that contain an alias.
pub fn best_existing_note(files: &[String], aliases: &[&str]) -> (r: Option<String>)
    ensures
        match best_note(string_views(files@), aliases@.map_values(|a: &str| a@)) {
            Some(f) => r is Some && r.unwrap()@ == f,
            None => r is None,
        },
{
    match alias_pass_exec(files, aliases, true) {
        Some(f) => Some(f),
        None => alias_pass_exec(files, aliases, false),
    }
}

/// The best existing note for the aliases, or the default name.
pub open spec fn note_or(files: Option<Seq<Seq<char>>>, aliases: Seq<Seq<char>>, default: Seq<char>) -> Seq<
    char,
> {
    match files {
        Some(fs) => match best_note(fs, aliases) {
            Some(f) => f,
            None => default,
        },
        None => default,
    }
}

/// The note a command is about: the Markdown path it names; else, for a to-do
/// or task, the best of to-do/todo/tasks/task or `todo.md`; for an idea, the
/// best of ideas/idea/notes or `ideas.md`; for a note, the best of notes/note
/// or `notes.md`. `files` lists the workspace's text files, if they could be
/// listed.
pub open spec fn inferred_path(command: Seq<char>, files: Option<Seq<Seq<char>>>) -> Option<Seq<char>> {
    match named_md_path(command) {
        Some(p) => Some(p),
        None => {
            let l = lower(command);
            if contains(l, "todo"@) || contains(l, "to do"@) || contains(l, "task"@) {
                Some(note_or(files, seq!["to-do"@, "todo"@, "tasks"@, "task"@], "todo.md"@))
            } else if contains(l, "idea"@) {
                Some(note_or(files, seq!["ideas"@, "idea"@, "notes"@], "ideas.md"@))
            } else if contains(l, "note"@) || contains(l, "notes"@) {
                Some(note_or(files, seq!["notes"@, "note"@], "notes.md"@))
            } else {
                None
            }
        },
    }
}

proof fn lemma_first_with_key_in(files: Seq<Seq<char>>, key: Seq<char>, exact: bool)
    ensures
        first_with_key(files, key, exact) matches Some(f) ==> files.contains(f) && contains(stem_key(f), key),
    decreases files.len(),
{
    if files.len() > 0 {
        lemma_first_with_key_in(files.drop_first(), key, exact);
        if first_with_key(files, key, exact) == Some(files[0]) {
            assert(files[0] == files[0]);
        }
        let k = stem_key(files[0]);
        if exact && k == key {
            assert(k.subrange(0, key.len() as int) =~= key);
        }
        if let Some(f) = first_with_key(files.drop_first(), key, exact) {
            if first_with_key(files, key, exact) == Some(f) && f != files[0] {
                let j = choose|j: int| 0 <= j < files.drop_first().len() && files.drop_first()[j] == f;
                assert(files[j + 1] == f);
            }
        }
    }
}

proof fn lemma_alias_pass_in(files: Seq<Seq<char>>, aliases: Seq<Seq<char>>, exact: bool)
    ensures
        alias_pass(files, aliases, exact) matches Some(f) ==> files.contains(f) && exists|i: int|
            0 <= i < aliases.len() && contains(stem_key(f), #[trigger] note_key(aliases[i])),
    decreases aliases.len(),
{
    if aliases.len() > 0 {
        lemma_first_with_key_in(files, note_key(aliases[0]), exact);
        lemma_alias_pass_in(files, aliases.drop_first(), exact);
        if first_with_key(files, note_key(aliases[0]), exact) is None {
            if let Some(f) = alias_pass(files, aliases, exact) {
                let i = choose|i: int|
                    0 <= i < aliases.drop_first().len() && contains(stem_key(f), #[trigger] note_key(aliases.drop_first()[i]));
                assert(aliases[i + 1] == aliases.drop_first()[i]);
            }
        }
    }
}

/// The aliases a to-do note goes by.
pub open spec fn todo_aliases() -> Seq<Seq<char>> {
    seq!["to-do"@, "todo"@, "tasks"@, "task"@]
}

/// A command about a to-do or a task that names no Markdown file always gets
/// a note: an existing workspace file whose key holds one of the to-do
/// aliases (to-do, todo, tasks, task), or else `todo.md`, and `todo.md` when
/// the workspace files are not known.
pub proof fn law_task_commands_get_the_todo_note(command: Seq<char>, files: Option<Seq<Seq<char>>>)
    requires
        named_md_path(command) is None,
        contains(lower(command), "todo"@) || contains(lower(command), "to do"@) || contains(lower(command), "task"@),
    ensures
        inferred_path(command, files) matches Some(p) && {
            ||| p == "todo.md"@
            ||| files matches Some(fs) && fs.contains(p) && exists|i: int|
                0 <= i < todo_aliases().len() && contains(stem_key(p), #[trigger] note_key(todo_aliases()[i]))
        },
        files is None ==> inferred_path(command, files) == Some("todo.md"@),
{
    let a = todo_aliases();
    assert(a =~= seq!["to-do"@, "todo"@, "tasks"@, "task"@]);
    if let Some(fs) = files {
        lemma_alias_pass_in(fs, a, true);
        lemma_alias_pass_in(fs, a, false);
    }
}

/// The aliases an ideas note goes by.
pub open spec fn idea_aliases() -> Seq<Seq<char>> {
    seq!["ideas"@, "idea"@, "notes"@]
}

/// The aliases a general notes file goes by.
pub open spec fn notes_aliases() -> Seq<Seq<char>> {
    seq!["notes"@, "note"@]
}

/// `p` is the note found for these aliases: an existing file whose key holds
/// one of them, or else the default.
pub open spec fn picked_note(p: Seq<char>, files: Option<Seq<Seq<char>>>, aliases: Seq<Seq<char>>, default: Seq<char>) -> bool {
    ||| p == default
    ||| files matches Some(fs) && fs.contains(p) && exists|i: int|
        0 <= i < aliases.len() && contains(stem_key(p), #[trigger] note_key(aliases[i]))
}

proof fn lemma_note_or_picks(files: Option<Seq<Seq<char>>>, aliases: Seq<Seq<char>>, default: Seq<char>)
    ensures
        picked_note(note_or(files, aliases, default), files, aliases, default),
        files is None ==> note_or(files, aliases, default) == default,
{
    if let Some(fs) = files {
        lemma_alias_pass_in(fs, aliases, true);
        lemma_alias_pass_in(fs, aliases, false);
    }
}

/// A command about an idea (and no to-do or task) that names no Markdown
/// file gets the ideas note (an existing file for ideas/idea/notes, else
/// `ideas.md`); one about a note (and neither) gets the notes file (for
/// notes/note, else `notes.md`).
pub proof fn law_idea_and_note_commands_get_their_note(command: Seq<char>, files: Option<Seq<Seq<char>>>)
    requires
        named_md_path(command) is None,
        !contains(lower(command), "todo"@),
        !contains(lower(command), "to do"@),
        !contains(lower(command), "task"@),
    ensures
        contains(lower(command), "idea"@) ==> (inferred_path(command, files) matches Some(p) && picked_note(
            p,
            files,
            idea_aliases(),
            "ideas.md"@,
        ) && (files is None ==> p == "ideas.md"@)),
        !contains(lower(command), "idea"@) && contains(lower(command), "note"@) ==> (inferred_path(
            command,
            files,
        ) matches Some(p) && picked_note(p, files, notes_aliases(), "notes.md"@) && (files is None ==> p
            == "notes.md"@)),
{
    assert(idea_aliases() =~= seq!["ideas"@, "idea"@, "notes"@]);
    assert(notes_aliases() =~= seq!["notes"@, "note"@]);
    lemma_note_or_picks(files, idea_aliases(), "ideas.md"@);
    lemma_note_or_picks(files, notes_aliases(), "notes.md"@);
}

/// A command that asks to create, save, write, put or add and speaks of a
/// to-do, a task, an idea or a note always gets a note to write to.
pub proof fn law_note_writes_find_a_note(command: Seq<char>, files: Option<Seq<Seq<char>>>)
    requires
        contains(lower(command), "create"@) || contains(lower(command), "save"@) || contains(lower(command), "write"@)
            || contains(lower(command), "put"@) || contains(lower(command), "add"@),
        contains(lower(command), "todo"@) || contains(lower(command), "to do"@) || contains(lower(command), "task"@)
            || contains(lower(command), "idea"@) || contains(lower(command), "note"@),
    ensures
        note_write_path(command, files) is Some,
{
}

pub open spec fn opt_views(files: Option<&[String]>) -> Option<Seq<Seq<char>>> {
    match files {
        Some(f) => Some(string_views(f@)),
        None => None,
    }
}

fn note_or_exec(files: Option<&[String]>, aliases: &[&str], default: &str) -> (r: String)
    ensures
        r@ == note_or(opt_views(files), aliases@.map_values(|a: &str| a@), default@),
{
    match files {
        Some(fs) => match best_existing_note(fs, aliases) {
            Some(f) => f,
            None => String::from_str(default),
        },
        None => String::from_str(default),
    }
}

/// The workspace note a command is about, if it is about one.
pub fn infer_workspace_note_path(command: &str, files: Option<&[String]>) -> (r: Option<String>)
    ensures
        match inferred_path(command@, opt_views(files)) {
            Some(p) => r is Some && r.unwrap()@ == p,
            None => r is None,
        },
{
    match extract_markdown_path(command) {
        Some(p) => {
            return Some(p);
        },
        None => {},
    }
    let v = chars_of(command);
    let l = lower_chars(v.as_slice());
    let ls = l.as_slice();
    if contains_lit(ls, "todo") || contains_lit(ls, "to do") || contains_lit(ls, "task") {
        let aliases: [&str; 4] = ["to-do", "todo", "tasks", "task"];
        assert(aliases@.map_values(|a: &str| a@) == seq!["to-do"@, "todo"@, "tasks"@, "task"@]);
        Some(note_or_exec(files, &aliases, "todo.md"))
    } else if contains_lit(ls, "idea") {
        let aliases: [&str; 3] = ["ideas", "idea", "notes"];
        assert(aliases@.map_values(|a: &str| a@) == seq!["ideas"@, "idea"@, "notes"@]);
        Some(note_or_exec(files, &aliases, "ideas.md"))
    } else if contains_lit(ls, "note") || contains_lit(ls, "notes") {
        let aliases: [&str; 2] = ["notes", "note"];
        assert(aliases@.map_values(|a: &str| a@) == seq!["notes"@, "note"@]);
        Some(note_or_exec(files, &aliases, "notes.md"))
    } else {
        None
    }
}


/// The tool for a direct note write: a new note only when the user asked for a
/// new or separate note or file and none exists at the path; else a save.
pub open spec fn preferred_tool(note_exists: bool, l: Seq<char>) -> Seq<char> {
    let explicit_new = contains(l, "new note"@) || contains(l, "new file"@) || contains(
        l,
        "separate note"@,
    ) || contains(l, "separate file"@);
    if explicit_new && !note_exists {
        "workspace.create_note"@
    } else {
        "workspace.save_note"@
    }
}

/// Which write tool a direct note request uses. `note_exists` tells whether the
/// note at the chosen path exists.
pub fn preferred_note_write_tool(note_exists: bool, lower_command: &str) -> (r: &'static str)
    ensures
        r@ == preferred_tool(note_exists, lower_command@),
{
    let v = chars_of(lower_command);
    let l = v.as_slice();
    let explicit_new = contains_lit(l, "new note") || contains_lit(l, "new file") || contains_lit(
        l,
        "separate note",
    ) || contains_lit(l, "separate file");
    if explicit_new && !note_exists {
        "workspace.create_note"
    } else {
        "workspace.save_note"
    }
}

/// The JSON arguments of a note write.
pub open spec fn note_args(path: Seq<char>, content: Seq<char>) -> JsonV {
    JsonV::Object(seq![("path"@, JsonV::Str(path)), ("content"@, JsonV::Str(content))])
}

/// A note write call: the tool, the path, and the trimmed content.
pub fn note_write_call(tool: &str, path: &str, content: &str) -> (r: ToolCall)
    ensures
        r.name@ == tool@,
        r.args@ == note_args(path@, trim(content@, CharClass::Whitespace)),
{
    let body = crate::text::trim_str(content, CharClass::Whitespace);
    let args = Json::Object(vec![entry("path", jstr(path)), entry("content", Json::Str(body))]);
    proof {
        let es = match args@ {
            JsonV::Object(e) => e,
            _ => Seq::empty(),
        };
        assert(es =~= seq![("path"@, JsonV::Str(path@)), ("content"@, JsonV::Str(body@))]);
    }
    ToolCall { name: String::from_str(tool), args }
}

/// The note a command asks to write to, when it speaks of a note and asks to
/// create, save, write, put or add.
pub open spec fn note_write_path(command: Seq<char>, files: Option<Seq<Seq<char>>>) -> Option<Seq<char>> {
    let l = lower(command);
    if mentions_note(l) && asks_write(l) {
        inferred_path(command, files)
    } else {
        None
    }
}

fn note_write_path_exec(command: &str, files: Option<&[String]>) -> (r: Option<String>)
    ensures
        match note_write_path(command@, opt_views(files)) {
            Some(p) => r is Some && r.unwrap()@ == p,
            None => r is None,
        },
{
    let v = chars_of(command);
    let l = lower_chars(v.as_slice());
    let ls = string_of(l.as_slice());
    if !(mentions_workspace_note(ls.as_str()) && asks_write_exec(l.as_slice())) {
        return None;
    }
    infer_workspace_note_path(command, files)
}

/// Turns an "insert" answer into a note save when the command asked to write
/// a note: `workspace.save_note` with the inferred path and the trimmed answer.
pub fn coerce_workspace_note_write(command: &str, content: &str, files: Option<&[String]>) -> (r: Option<
    ToolCall,
>)
    ensures
        match note_write_path(command@, opt_views(files)) {
            Some(p) => r is Some && r.unwrap().name@ == "workspace.save_note"@ && r.unwrap().args@
                == note_args(p, trim(content@, CharClass::Whitespace)),
            None => r is None,
        },
{
    match note_write_path_exec(command, files) {
        Some(path) => Some(note_write_call("workspace.save_note", path.as_str(), content)),
        None => None,
    }
}

/// The note a direct write request goes to, when the workspace is enabled and
/// the command asks to write a note; its content is drafted next.
pub fn prepare_direct_workspace_note_write(
    workspace_enabled: bool,
    command: &str,
    files: Option<&[String]>,
) -> (r: Option<String>)
    ensures
        !workspace_enabled ==> r is None,
        workspace_enabled ==> match note_write_path(command@, opt_views(files)) {
            Some(p) => r is Some && r.unwrap()@ == p,
            None => r is None,
        },
{
    if !workspace_enabled {
        return None;
    }
    note_write_path_exec(command, files)
}

} // verus!
