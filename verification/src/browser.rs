use vstd::prelude::*;

use crate::config::BrowserConfig;
use crate::json::{entry, jstr, Json, JsonV};
use crate::text::{lower, lower_str, starts_with, starts_with_str, str_eq, trim, trim_str, CharClass};
use crate::tool_error::ToolError;

verus! {

/// What the read-only browser reports: the tool, a summary, and page text.
#[derive(Debug, Clone)]
pub struct BrowserToolResult {
    pub tool: String,
    pub summary: String,
    pub content: String,
}

/// How the connector describes itself to the agent.
pub open spec fn context_text(config: BrowserConfig) -> Seq<char> {
    if !config.enabled {
        "Browser connector is disabled."@
    } else {
        "Browser connector is available in read-only mode. Tools: browser.open_url, browser.search_web, browser.extract_page_text. It can read public pages and search results, but it cannot click, type, log in, submit forms, or change websites."@
    }
}

/// How the connector describes itself: disabled, or read-only with its tools.
pub fn context(config: &BrowserConfig) -> (r: String)
    ensures
        r@ == context_text(*config),
{
    if !config.enabled {
        return String::from_str("Browser connector is disabled.");
    }
    String::from_str(
        "Browser connector is available in read-only mode. Tools: browser.open_url, browser.search_web, browser.extract_page_text. It can read public pages and search results, but it cannot click, type, log in, submit forms, or change websites.",
    )
}

/// The argument `key` trimmed, unless missing or blank.
pub open spec fn browser_arg(args: JsonV, key: Seq<char>) -> Option<Seq<char>> {
    match args.str_field(key) {
        Some(s) => if trim(s, CharClass::Whitespace).len() == 0 {
            None
        } else {
            Some(trim(s, CharClass::Whitespace))
        },
        None => None,
    }
}

/// The string argument `key`, trimmed; it must be present and not blank.
pub fn required_string(args: &Json, key: &str) -> (r: Result<String, ToolError>)
    ensures
        match browser_arg(args@, key@) {
            Some(s) => r is Ok && r.unwrap()@ == s,
            None => r matches Err(ToolError::MissingArgument(k)) && k@ == key@,
        },
{
    match args.get_str(key) {
        Some(s) => {
            let t = trim_str(s.as_str(), CharClass::Whitespace);
            if t.as_str().unicode_len() == 0 {
                Err(ToolError::MissingArgument(String::from_str(key)))
            } else {
                Ok(t)
            }
        },
        None => Err(ToolError::MissingArgument(String::from_str(key))),
    }
}

/// A URL the browser may open: `http://` or `https://`, ASCII case aside,
/// after trimming.
pub open spec fn url_ok(url: Seq<char>) -> bool {
    let l = lower(trim(url, CharClass::Whitespace));
    starts_with(l, "http://"@) || starts_with(l, "https://"@)
}

/// Accepts only web URLs.
pub fn validate_url(url: &str) -> (r: Result<(), ToolError>)
    ensures
        r is Ok <==> url_ok(url@),
        r is Err ==> r matches Err(ToolError::BadUrl),
{
    let t = trim_str(url, CharClass::Whitespace);
    let l = lower_str(t.as_str());
    if starts_with_str(l.as_str(), "http://") || starts_with_str(l.as_str(), "https://") {
        Ok(())
    } else {
        Err(ToolError::BadUrl)
    }
}

/// Whether a browser call's arguments are acceptable: a web `url` to open or
/// extract, a `query` to search.
pub open spec fn args_ok(name: Seq<char>, args: JsonV) -> bool {
    if name == "browser.open_url"@ || name == "browser.extract_page_text"@ {
        match browser_arg(args, "url"@) {
            Some(u) => url_ok(u),
            None => false,
        }
    } else if name == "browser.search_web"@ {
        browser_arg(args, "query"@) is Some
    } else {
        false
    }
}

/// Checks a browser call's arguments; unknown tools are refused.
pub fn validate_tool_args(name: &str, args: &Json) -> (r: Result<(), ToolError>)
    ensures
        r is Ok <==> args_ok(name@, args@),
        (name@ == "browser.open_url"@ || name@ == "browser.extract_page_text"@) ==> match browser_arg(args@, "url"@) {
            None => (r matches Err(ToolError::MissingArgument(k)) && k@ == "url"@),
            Some(u) => !url_ok(u) ==> (r matches Err(ToolError::BadUrl)),
        },
        name@ == "browser.search_web"@ && browser_arg(args@, "query"@) is None ==> (r matches Err(
            ToolError::MissingArgument(k),
        ) && k@ == "query"@),
        !(name@ == "browser.open_url"@ || name@ == "browser.extract_page_text"@ || name@
            == "browser.search_web"@) ==> (r matches Err(ToolError::UnknownTool(f, n)) && f@
            == "browser"@ && n@ == name@),
{
    proof {
        reveal_strlit("browser.open_url");
        reveal_strlit("browser.extract_page_text");
        reveal_strlit("browser.search_web");
        assert("browser.search_web"@.len() != "browser.open_url"@.len());
        assert("browser.search_web"@.len() != "browser.extract_page_text"@.len());
    }
    if str_eq(name, "browser.open_url") || str_eq(name, "browser.extract_page_text") {
        match required_string(args, "url") {
            Ok(u) => validate_url(u.as_str()),
            Err(e) => Err(e),
        }
    } else if str_eq(name, "browser.search_web") {
        match required_string(args, "query") {
            Ok(_) => Ok(()),
            Err(e) => Err(e),
        }
    } else {
        Err(ToolError::UnknownTool(String::from_str("browser"), String::from_str(name)))
    }
}

/// The browser only reads, so nothing it does asks for confirmation.
pub fn requires_confirmation(_name: &str) -> (r: bool)
    ensures
        !r,
{
    false
}

/// What the browser sidecar is sent: the tool and its arguments.
pub open spec fn payload_of(name: Seq<char>, args: JsonV) -> JsonV {
    JsonV::Object(seq![("tool"@, JsonV::Str(name)), ("args"@, args)])
}

/// The message sent to the browser sidecar for a call, after checking that the
/// connector is on and the arguments are acceptable.
pub fn execute_payload(config: &BrowserConfig, name: &str, args: &Json) -> (r: Result<Json, ToolError>)
    ensures
        !config.enabled ==> (r matches Err(ToolError::Disabled(w)) && w@ == "Browser connector"@),
        config.enabled && !args_ok(name@, args@) ==> r is Err,
        config.enabled && args_ok(name@, args@) ==> (r is Ok && r.unwrap()@ == payload_of(name@, args@)),
{
    if !config.enabled {
        return Err(ToolError::Disabled(String::from_str("Browser connector")));
    }
    match validate_tool_args(name, args) {
        Ok(()) => {},
        Err(e) => {
            return Err(e);
        },
    }
    let r = Json::Object(vec![entry("tool", jstr(name)), entry("args", args.copied())]);
    proof {
        let es = match r@ {
            JsonV::Object(e) => e,
            _ => Seq::empty(),
        };
        assert(es =~= seq![("tool"@, JsonV::Str(name@)), ("args"@, args@)]);
    }
    Ok(r)
}

/// Why the sidecar failed: its trimmed error output, and its trimmed standard
/// output when there is some.
pub open spec fn failure_text(stderr: Seq<char>, stdout: Seq<char>) -> Seq<char> {
    let out = trim(stdout, CharClass::Whitespace);
    "browser sidecar failed: "@ + trim(stderr, CharClass::Whitespace) + if out.len() == 0 {
        Seq::empty()
    } else {
        "; stdout: "@ + out
    }
}

/// The message for a failed sidecar run.
pub fn sidecar_failure_message(stderr: &str, stdout: &str) -> (r: String)
    ensures
        r@ == failure_text(stderr@, stdout@),
{
    let e = trim_str(stderr, CharClass::Whitespace);
    let o = trim_str(stdout, CharClass::Whitespace);
    let mut r = crate::text::concat2("browser sidecar failed: ", e.as_str());
    if o.as_str().unicode_len() > 0 {
        r.append("; stdout: ");
        r.append(o.as_str());
    }
    r
}

} // verus!
