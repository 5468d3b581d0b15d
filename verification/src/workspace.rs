use vstd::prelude::*;

use crate::config::WorkspaceConfig;
use crate::json::Json;
use crate::paths::{dirs_home, home_dir, join_path, EnvVars};
use crate::platform::{decimal, u64_to_decimal, TargetOs};
use crate::text::{
    chars_of, contains, contains_chars, join, join_chars, lines, lines_chars, lower, lower_chars,
    rfind_char, rfind_char_exec, slice_chars, starts_with, starts_with_str, str_eq, string_of, trim,
    trim_chars, trim_str, views, CharClass,
};
use crate::todoist::{required_arg, required_string};
use crate::tool_error::ToolError;
use vstd::utf8::{decode_utf8, encode_utf8};
use vstd::string::StringSliceAdditionalSpecFns;

verus! {

broadcast use vstd::utf8::group_utf8_lib;

/// Whether the Workspace Notes skill is on, has a folder, and that folder exists.
#[derive(Debug, Clone)]
pub struct WorkspaceStatus {
    pub enabled: bool,
    pub configured: bool,
    pub folder_path: Option<String>,
    pub exists: bool,
}

/// What a workspace tool reports: the tool, a one-line summary, and content.
#[derive(Debug, Clone)]
pub struct WorkspaceToolResult {
    pub tool: String,
    pub summary: String,
    pub content: String,
}

/// The configured folder, unless it is missing or blank.
pub open spec fn folder_of(config: WorkspaceConfig) -> Option<Seq<char>> {
    match config.folder_path {
        Some(p) => if trim(p@, CharClass::Whitespace).len() == 0 {
            None
        } else {
            Some(p@)
        },
        None => None,
    }
}

fn folder_exec(config: &WorkspaceConfig) -> (r: Option<&String>)
    ensures
        match folder_of(*config) {
            Some(p) => r is Some && r.unwrap()@ == p,
            None => r is None,
        },
{
    match &config.folder_path {
        Some(p) => {
            let t = trim_str(p.as_str(), CharClass::Whitespace);
            if t.as_str().unicode_len() == 0 {
                None
            } else {
                Some(p)
            }
        },
        None => None,
    }
}

/// A path with a leading `~/` put under the home folder.
pub open spec fn expanded(path: Seq<char>, os: TargetOs, env: EnvVars) -> Seq<char> {
    if starts_with(path, "~/"@) {
        join_path(os, home_dir(env), path.skip(2))
    } else {
        path
    }
}

/// Puts a path that starts with `~/` under the home folder.
pub fn expand_home(path: &str, os: TargetOs, env: &EnvVars) -> (r: String)
    ensures
        r@ == expanded(path@, os, *env),
{
    if starts_with_str(path, "~/") {
        proof {
            reveal_strlit("~/");
        }
        let v = chars_of(path);
        let rest = slice_chars(v.as_slice(), 2, v.len());
        let rs = string_of(rest.as_slice());
        let home = dirs_home(env);
        crate::paths::join(os, home.as_str(), rs.as_str())
    } else {
        String::from_str(path)
    }
}

/// The workspace folder to use, `~` expanded: refused when the skill is off or
/// no folder is set. Whether it exists is for the caller to see.
pub fn root_path(config: &WorkspaceConfig, os: TargetOs, env: &EnvVars) -> (r: Result<String, ToolError>)
    ensures
        !config.enabled ==> (r matches Err(ToolError::Disabled(w)) && w@ == "workspace"@),
        config.enabled && folder_of(*config) is None ==> (r matches Err(ToolError::NotConfigured(w))
            && w@ == "workspace folder path"@),
        config.enabled && folder_of(*config) is Some ==> (r is Ok && r.unwrap()@ == expanded(
            folder_of(*config).unwrap(),
            os,
            *env,
        )),
{
    if !config.enabled {
        return Err(ToolError::Disabled(String::from_str("workspace")));
    }
    match folder_exec(config) {
        Some(p) => Ok(expand_home(p.as_str(), os, env)),
        None => Err(ToolError::NotConfigured(String::from_str("workspace folder path"))),
    }
}

/// The skill's state. `root_exists` tells whether the folder `root_path`
/// gives exists as a directory.
pub fn status(config: &WorkspaceConfig, root_exists: bool) -> (r: WorkspaceStatus)
    ensures
        r.enabled == config.enabled,
        r.configured == (folder_of(*config) is Some),
        r.folder_path == config.folder_path,
        r.exists == (config.enabled && folder_of(*config) is Some && root_exists),
{
    let configured = folder_exec(config).is_some();
    WorkspaceStatus {
        enabled: config.enabled,
        configured,
        folder_path: match &config.folder_path {
            Some(p) => Some(p.clone()),
            None => None,
        },
        exists: config.enabled && configured && root_exists,
    }
}

/// How the skill describes itself to the agent.
pub open spec fn context_text(config: WorkspaceConfig, root_exists: bool) -> Seq<char> {
    if !config.enabled {
        "Workspace Notes skill is disabled."@
    } else if folder_of(config) is None {
        "Workspace Notes skill is enabled, but no folder path is configured."@
    } else if !root_exists {
        "Workspace Notes skill is enabled, but the folder does not exist: "@ + match config.folder_path {
            Some(p) => p@,
            None => Seq::empty(),
        }
    } else {
        "Workspace Notes skill is available. Tools: workspace.list_files, workspace.read_file, workspace.search_files, workspace.create_note, workspace.append_note. Writes require confirmation. Paths must be relative and stay inside the configured workspace."@
    }
}

/// How the skill describes itself to the agent: off, without a folder, with a
/// missing folder, or available with its tools.
pub fn context(config: &WorkspaceConfig, root_exists: bool) -> (r: String)
    ensures
        r@ == context_text(*config, root_exists),
{
    let st = status(config, root_exists);
    if !st.enabled {
        return String::from_str("Workspace Notes skill is disabled.");
    }
    if !st.configured {
        return String::from_str("Workspace Notes skill is enabled, but no folder path is configured.");
    }
    if !st.exists {
        let folder = match &st.folder_path {
            Some(p) => p.clone(),
            None => String::new(),
        };
        return crate::text::concat2(
            "Workspace Notes skill is enabled, but the folder does not exist: ",
            folder.as_str(),
        );
    }
    String::from_str(
        "Workspace Notes skill is available. Tools: workspace.list_files, workspace.read_file, workspace.search_files, workspace.create_note, workspace.append_note. Writes require confirmation. Paths must be relative and stay inside the configured workspace.",
    )
}

/// Every note write (save, create, append) asks for confirmation first.
pub open spec fn needs_confirmation(name: Seq<char>) -> bool {
    name == "workspace.save_note"@ || name == "workspace.create_note"@ || name == "workspace.append_note"@
}

/// Whether a workspace tool asks for confirmation before it runs.
pub fn requires_confirmation(name: &str) -> (r: bool)
    ensures
        r == needs_confirmation(name@),
{
    str_eq(name, "workspace.save_note") || str_eq(name, "workspace.create_note") || str_eq(
        name,
        "workspace.append_note",
    )
}

/// The workspace tools and the arguments each needs: a `path` to read; a
/// `query` to search; a `path` and `content` to save, create or append.
pub open spec fn args_ok(name: Seq<char>, args: crate::json::JsonV) -> bool {
    if name == "workspace.list_files"@ {
        true
    } else if name == "workspace.read_file"@ {
        required_arg(args, "path"@) is Some
    } else if name == "workspace.search_files"@ {
        required_arg(args, "query"@) is Some
    } else if name == "workspace.save_note"@ || name == "workspace.create_note"@ || name
        == "workspace.append_note"@ {
        required_arg(args, "path"@) is Some && required_arg(args, "content"@) is Some
    } else {
        false
    }
}

/// The workspace tools.
pub open spec fn known_tool(name: Seq<char>) -> bool {
    ||| name == "workspace.list_files"@
    ||| name == "workspace.read_file"@
    ||| name == "workspace.search_files"@
    ||| name == "workspace.save_note"@
    ||| name == "workspace.create_note"@
    ||| name == "workspace.append_note"@
}

/// The first argument a known workspace tool needs and lacks, if any.
pub open spec fn missing_key(name: Seq<char>, args: crate::json::JsonV) -> Option<Seq<char>> {
    if name == "workspace.read_file"@ && required_arg(args, "path"@) is None {
        Some("path"@)
    } else if name == "workspace.search_files"@ && required_arg(args, "query"@) is None {
        Some("query"@)
    } else if (name == "workspace.save_note"@ || name == "workspace.create_note"@ || name
        == "workspace.append_note"@) && required_arg(args, "path"@) is None {
        Some("path"@)
    } else if (name == "workspace.save_note"@ || name == "workspace.create_note"@ || name
        == "workspace.append_note"@) && required_arg(args, "content"@) is None {
        Some("content"@)
    } else {
        None
    }
}

/// Checks a workspace call's arguments; unknown tools are refused.
pub fn validate_tool_args(name: &str, args: &Json) -> (r: Result<(), ToolError>)
    ensures
        r is Ok <==> args_ok(name@, args@),
        known_tool(name@) ==> match missing_key(name@, args@) {
            None => r is Ok,
            Some(k) => (r matches Err(ToolError::MissingArgument(m)) && m@ == k),
        },
        !known_tool(name@) ==> (r matches Err(ToolError::UnknownTool(f, n)) && f@ == "workspace"@
            && n@ == name@),
{
    proof {
        reveal_strlit("workspace.list_files");
        reveal_strlit("workspace.read_file");
        reveal_strlit("workspace.search_files");
        reveal_strlit("workspace.save_note");
        reveal_strlit("workspace.create_note");
        reveal_strlit("workspace.append_note");
        let names = seq![
            "workspace.list_files"@,
            "workspace.read_file"@,
            "workspace.search_files"@,
            "workspace.save_note"@,
            "workspace.create_note"@,
            "workspace.append_note"@,
        ];
        assert(names[0][10] == 'l' && names[1][10] == 'r' && names[2][11] == 'e' && names[3][10] == 's'
            && names[3][11] == 'a' && names[4][10] == 'c' && names[5][10] == 'a');
        assert forall|i: int, j: int| 0 <= i < j < 6 implies names[i] != names[j] by {
            if names[i] == names[j] {
                assert(names[i][10] == names[j][10]);
                assert(names[i][11] == names[j][11]);
            }
        }
    }
    if str_eq(name, "workspace.list_files") {
        Ok(())
    } else if str_eq(name, "workspace.read_file") {
        match required_string(args, "path") {
            Ok(_) => Ok(()),
            Err(e) => Err(e),
        }
    } else if str_eq(name, "workspace.search_files") {
        match required_string(args, "query") {
            Ok(_) => Ok(()),
            Err(e) => Err(e),
        }
    } else if str_eq(name, "workspace.save_note") || str_eq(name, "workspace.create_note") || str_eq(
        name,
        "workspace.append_note",
    ) {
        match required_string(args, "path") {
            Ok(_) => {},
            Err(e) => {
                return Err(e);
            },
        }
        match required_string(args, "content") {
            Ok(_) => Ok(()),
            Err(e) => Err(e),
        }
    } else {
        Err(ToolError::UnknownTool(String::from_str("workspace"), String::from_str(name)))
    }
}

/// The extension of a file name (`Path::extension`): what follows its last
/// `.`, unless the only `.` opens the name or there is none.
pub open spec fn extension(name: Seq<char>) -> Option<Seq<char>> {
    match rfind_char(name, '.') {
        Some(k) => if k == 0 {
            None
        } else {
            Some(name.skip(k as int + 1))
        },
        None => None,
    }
}

/// Whether a file name is a Markdown or text file: `.md`, `.markdown`, `.txt`
/// or `.text`, in any ASCII case.
pub open spec fn text_name(name: Seq<char>) -> bool {
    match extension(name) {
        Some(e) => {
            let l = lower(e);
            l == "md"@ || l == "markdown"@ || l == "txt"@ || l == "text"@
        },
        None => false,
    }
}

/// Whether a file name is that of a Markdown or text file.
pub fn is_text_path(file_name: &str) -> (r: bool)
    ensures
        r == text_name(file_name@),
{
    let v = chars_of(file_name);
    match rfind_char_exec(v.as_slice(), '.') {
        Some(k) => {
            if k == 0 {
                return false;
            }
            let vl = v.len();
            assert(k < vl);
            let e = slice_chars(v.as_slice(), k + 1, vl);
            assert(e@ == v@.skip(k as int + 1));
            let l = lower_chars(e.as_slice());
            let ls = l.as_slice();
            crate::text::eq_chars(ls, chars_of("md").as_slice()) || crate::text::eq_chars(
                ls,
                chars_of("markdown").as_slice(),
            ) || crate::text::eq_chars(ls, chars_of("txt").as_slice()) || crate::text::eq_chars(
                ls,
                chars_of("text").as_slice(),
            )
        },
        None => false,
    }
}

/// Refuses names that are not Markdown or text files.
pub fn ensure_markdown_or_text_path(file_name: &str) -> (r: Result<(), ToolError>)
    ensures
        r is Ok <==> text_name(file_name@),
        r is Err ==> r matches Err(ToolError::NotTextFile),
{
    if is_text_path(file_name) {
        Ok(())
    } else {
        Err(ToolError::NotTextFile)
    }
}

/// A component of a relative path, as `Path::components` reads it.
#[derive(Debug, Clone, Copy, PartialEq, Eq, Structural)]
pub enum PathPart {
    Normal,
    CurDir,
    ParentDir,
    RootDir,
    Prefix,
}

/// Refuses a workspace path that is absolute or has a `..`, root or drive
/// component; `parts` are its components.
pub fn check_relative_path(is_absolute: bool, parts: &[PathPart]) -> (r: Result<(), ToolError>)
    ensures
        r is Ok <==> !is_absolute && forall|i: int|
            0 <= i < parts@.len() ==> parts@[i] == PathPart::Normal || parts@[i] == PathPart::CurDir,
        is_absolute ==> r matches Err(ToolError::NotRelative),
        !is_absolute && r is Err ==> r matches Err(ToolError::PathEscapes),
{
    if is_absolute {
        return Err(ToolError::NotRelative);
    }
    let n = parts.len();
    for i in 0..n
        invariant
            n == parts@.len(),
            !is_absolute,
            forall|j: int| 0 <= j < i ==> parts@[j] == PathPart::Normal || parts@[j] == PathPart::CurDir,
    {
        let p = parts[i];
        if p == PathPart::ParentDir || p == PathPart::RootDir || p == PathPart::Prefix {
            return Err(ToolError::PathEscapes);
        }
    }
    Ok(())
}

/// `content` cut to `limit` bytes with a truncation mark, when it is longer.
pub open spec fn truncated(content: Seq<char>, limit: nat) -> Seq<char> {
    if encode_utf8(content).len() > limit {
        decode_utf8(encode_utf8(content).take(limit as int)) + "\n...[truncated]"@
    } else {
        content
    }
}

/// Cuts text longer than `limit` bytes to `limit` bytes and marks it; the cut
/// must fall between characters.
pub fn truncate(content: String, limit: usize) -> (r: String)
    requires
        encode_utf8(content@).len() <= usize::MAX,
        encode_utf8(content@).len() > limit ==> vstd::utf8::is_char_boundary(
            encode_utf8(content@),
            limit as int,
        ),
    ensures
        r@ == truncated(content@, limit as nat),
{
    let cs = content.as_str();
    let n = cs.len();
    assert(cs@ == content@);
    assert(n == encode_utf8(content@).len());
    if n > limit {
        let (a, _b) = cs.split_at(limit);
        let mut r = String::from_str(a);
        r.append("\n...[truncated]");
        proof {
            assert(cs@ == content@);
            assert(cs.spec_bytes() == encode_utf8(content@));
            assert(a.spec_bytes() =~= encode_utf8(content@).take(limit as int));
            assert(a.spec_bytes() == encode_utf8(a@));
            vstd::utf8::encode_utf8_decode_utf8(a@);
            assert(decode_utf8(encode_utf8(a@)) == a@);
        }
        r
    } else {
        content
    }
}


/// How a match reads in search results: `path:line: text`, the line number
/// counted from 1 and the text trimmed.
pub open spec fn match_entry(rel: Seq<char>, idx: nat, line: Seq<char>) -> Seq<char> {
    rel + ":"@ + decimal(idx + 1) + ": "@ + trim(line, CharClass::Whitespace)
}

/// The matches of one file's lines, in order: lines whose lower-cased text
/// contains `needle`.
pub open spec fn file_matches(rel: Seq<char>, ls: Seq<Seq<char>>, needle: Seq<char>) -> Seq<Seq<char>>
    decreases ls.len(),
{
    if ls.len() == 0 {
        Seq::empty()
    } else {
        let pre = file_matches(rel, ls.drop_last(), needle);
        if contains(lower(ls.last()), needle) {
            pre.push(match_entry(rel, (ls.len() - 1) as nat, ls.last()))
        } else {
            pre
        }
    }
}

/// The matches of all files, file by file, each file's lines in order.
pub open spec fn all_matches(files: Seq<(Seq<char>, Seq<char>)>, needle: Seq<char>) -> Seq<Seq<char>>
    decreases files.len(),
{
    if files.len() == 0 {
        Seq::empty()
    } else {
        all_matches(files.drop_last(), needle) + file_matches(
            files.last().0,
            lines(files.last().1),
            needle,
        )
    }
}

/// The first 40 matches.
pub open spec fn search_hits(files: Seq<(Seq<char>, Seq<char>)>, query: Seq<char>) -> Seq<Seq<char>> {
    let all = all_matches(files, lower(query));
    if all.len() > 40 {
        all.take(40)
    } else {
        all
    }
}

pub open spec fn file_views(files: Seq<(String, String)>) -> Seq<(Seq<char>, Seq<char>)> {
    files.map_values(|f: (String, String)| (f.0@, f.1@))
}

fn file_matches_exec(rel: &String, content: &String, needle: &[char], out: &mut Vec<Vec<char>>)
    ensures
        views(final(out)@) == views(old(out)@) + file_matches(rel@, lines(content@), needle@),
{
    let cv = chars_of(content.as_str());
    let ls = lines_chars(cv.as_slice());
    let ghost lv = views(ls@);
    let rv = chars_of(rel.as_str());
    let n = ls.len();
    let ghost start = views(out@);
    for j in 0..n
        invariant
            n == ls@.len(),
            lv == views(ls@),
            lv == lines(content@),
            rv@ == rel@,
            views(out@) == start + file_matches(rel@, lv.take(j as int), needle@),
    {
        proof {
            assert(lv.take(j + 1).drop_last() == lv.take(j as int));
            assert(lv.take(j + 1).last() == lv[j as int]);
        }
        assert(ls@[j as int]@ == lv[j as int]);
        let l = lower_chars(ls[j].as_slice());
        let ghost pre = file_matches(rel@, lv.take(j as int), needle@);
        if contains_chars(l.as_slice(), needle) {
            let mut e = crate::text::slice_chars(rv.as_slice(), 0, rv.len());
            assert(rv@.subrange(0, rv@.len() as int) == rv@);
            crate::text::append_chars(&mut e, chars_of(":").as_slice());
            let num = u64_to_decimal((j + 1) as u64);
            crate::text::append_chars(&mut e, chars_of(num.as_str()).as_slice());
            crate::text::append_chars(&mut e, chars_of(": ").as_slice());
            let t = trim_chars(ls[j].as_slice(), CharClass::Whitespace);
            crate::text::append_chars(&mut e, t.as_slice());
            assert(e@ == match_entry(rel@, j as nat, lv[j as int]));
            out.push(e);
            assert(views(out@) == views(out@).drop_last().push(e@));
            assert(file_matches(rel@, lv.take(j + 1), needle@) == pre.push(e@));
            assert(start + pre.push(e@) == (start + pre).push(e@));
        } else {
            assert(file_matches(rel@, lv.take(j + 1), needle@) == pre);
        }
    }
    assert(lv.take(n as int) == lv);
}

/// The result of a search over the given files (relative path and content):
/// each line containing the query (ASCII case aside), as `path:line: text`,
/// the first 40 of them.
pub fn search_result(files: &[(String, String)], query: &str) -> (r: WorkspaceToolResult)
    ensures
        r.tool@ == "workspace.search_files"@,
        r.summary@ == "Found "@ + decimal(search_hits(file_views(files@), query@).len()) + " matches for \""@
            + query@ + "\"."@,
        r.content@ == (if search_hits(file_views(files@), query@).len() == 0 {
            "No matches found."@
        } else {
            join(search_hits(file_views(files@), query@), "\n"@)
        }),
{
    let qv = chars_of(query);
    let needle = lower_chars(qv.as_slice());
    let ghost fv = file_views(files@);
    let mut all: Vec<Vec<char>> = Vec::new();
    let n = files.len();
    for i in 0..n
        invariant
            n == files@.len(),
            fv == file_views(files@),
            needle@ == lower(query@),
            views(all@) == all_matches(fv.take(i as int), needle@),
    {
        proof {
            assert(fv.take(i + 1).drop_last() == fv.take(i as int));
            assert(fv.take(i + 1).last() == fv[i as int]);
        }
        file_matches_exec(&files[i].0, &files[i].1, needle.as_slice(), &mut all);
    }
    assert(fv.take(n as int) == fv);
    let mut hits: Vec<Vec<char>> = Vec::new();
    let m: usize = if all.len() > 40 {
        40
    } else {
        all.len()
    };
    let ghost av = views(all@);
    for k in 0..m
        invariant
            m <= all@.len(),
            av == views(all@),
            views(hits@) == av.take(k as int),
    {
        let c = crate::text::slice_chars(all[k].as_slice(), 0, all[k].len());
        assert(all@[k as int]@.subrange(0, all@[k as int]@.len() as int) == av[k as int]);
        hits.push(c);
        assert(views(hits@) == views(hits@).drop_last().push(c@));
        assert(av.take(k + 1) == av.take(k as int).push(av[k as int]));
    }
    assert(views(hits@) == search_hits(fv, query@));
    let count = u64_to_decimal(hits.len() as u64);
    let mut summary = String::from_str("Found ");
    summary.append(count.as_str());
    summary.append(" matches for \"");
    summary.append(query);
    summary.append("\".");
    let content = if hits.len() == 0 {
        String::from_str("No matches found.")
    } else {
        let j = join_chars(&hits, chars_of("\n").as_slice());
        string_of(j.as_slice())
    };
    WorkspaceToolResult { tool: String::from_str("workspace.search_files"), summary, content }
}

/// The result of listing the workspace's text files.
pub fn list_result(files: &[String]) -> (r: WorkspaceToolResult)
    ensures
        r.tool@ == "workspace.list_files"@,
        r.summary@ == "Found "@ + decimal(files@.len()) + " text files."@,
        r.content@ == (if files@.len() == 0 {
            "No Markdown or text files found."@
        } else {
            join(crate::text::string_views(files@), "\n"@)
        }),
{
    let mut summary = String::from_str("Found ");
    let count = u64_to_decimal(files.len() as u64);
    summary.append(count.as_str());
    summary.append(" text files.");
    let content = if files.len() == 0 {
        String::from_str("No Markdown or text files found.")
    } else {
        let mut parts: Vec<Vec<char>> = Vec::new();
        let n = files.len();
        for i in 0..n
            invariant
                n == files@.len(),
                views(parts@) == crate::text::string_views(files@).take(i as int),
        {
            let p = chars_of(files[i].as_str());
            parts.push(p);
            assert(views(parts@) == views(parts@).drop_last().push(p@));
            assert(crate::text::string_views(files@)[i as int] == files@[i as int]@);
            assert(crate::text::string_views(files@).take(i + 1) == crate::text::string_views(
                files@,
            ).take(i as int).push(files@[i as int]@));
        }
        assert(crate::text::string_views(files@).take(n as int) == crate::text::string_views(files@));
        let j = join_chars(&parts, chars_of("\n").as_slice());
        string_of(j.as_slice())
    };
    WorkspaceToolResult { tool: String::from_str("workspace.list_files"), summary, content }
}

/// The result of reading a note: its content, cut to 16000 bytes.
pub fn read_result(rel_path: &str, content: String) -> (r: WorkspaceToolResult)
    requires
        encode_utf8(content@).len() <= usize::MAX,
        encode_utf8(content@).len() > 16000 ==> vstd::utf8::is_char_boundary(
            encode_utf8(content@),
            16000,
        ),
    ensures
        r.tool@ == "workspace.read_file"@,
        r.summary@ == "Read "@ + rel_path@ + "."@,
        r.content@ == truncated(content@, 16000),
{
    WorkspaceToolResult {
        tool: String::from_str("workspace.read_file"),
        summary: crate::text::concat3("Read ", rel_path, "."),
        content: truncate(content, 16000),
    }
}

/// Whether a write appends: always for `append_note`, never for
/// `create_note`, and for `save_note` exactly when the note exists.
pub open spec fn write_appends(name: Seq<char>, exists: bool) -> bool {
    name == "workspace.append_note"@ || (name == "workspace.save_note"@ && exists)
}

/// Decides how a note write goes: `Ok(true)` to append, `Ok(false)` to create;
/// creating a note that exists is refused.
pub fn plan_write(name: &str, rel_path: &str, exists: bool) -> (r: Result<bool, ToolError>)
    ensures
        write_appends(name@, exists) ==> r == Ok::<bool, ToolError>(true),
        !write_appends(name@, exists) && !exists ==> r == Ok::<bool, ToolError>(false),
        !write_appends(name@, exists) && exists ==> (r matches Err(ToolError::FileExists(p)) && p@
            == rel_path@),
{
    let append = str_eq(name, "workspace.append_note") || (str_eq(name, "workspace.save_note")
        && exists);
    if append {
        Ok(true)
    } else if exists {
        Err(ToolError::FileExists(String::from_str(rel_path)))
    } else {
        Ok(false)
    }
}

/// The result of a write: appended to, or created.
pub fn write_result(rel_path: &str, append: bool) -> (r: WorkspaceToolResult)
    ensures
        r.tool@ == (if append {
            "workspace.append_note"@
        } else {
            "workspace.create_note"@
        }),
        r.summary@ == (if append {
            "Appended to "@ + rel_path@ + "."@
        } else {
            "Created "@ + rel_path@ + "."@
        }),
        r.content@ == Seq::<char>::empty(),
{
    if append {
        WorkspaceToolResult {
            tool: String::from_str("workspace.append_note"),
            summary: crate::text::concat3("Appended to ", rel_path, "."),
            content: String::new(),
        }
    } else {
        WorkspaceToolResult {
            tool: String::from_str("workspace.create_note"),
            summary: crate::text::concat3("Created ", rel_path, "."),
            content: String::new(),
        }
    }
}

} // verus!
