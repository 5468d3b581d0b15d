use vstd::prelude::*;

verus! {

/// Why a tool call was refused or failed before it ran.
#[derive(Debug)]
pub enum ToolError {
    /// A required string argument is missing or blank.
    MissingArgument(String),
    /// The tool name is not one of the family's tools (the family, the name).
    UnknownTool(String, String),
    /// The named connector or skill is switched off.
    Disabled(String),
    /// A required setting (the named one) is missing.
    NotConfigured(String),
    /// A browser URL does not start with `http://` or `https://`.
    BadUrl,
    /// A workspace path is absolute.
    NotRelative,
    /// A workspace path leaves the workspace folder.
    PathEscapes,
    /// A workspace path names something other than a text file.
    NotTextFile,
    /// A note to be created already exists (its relative path).
    FileExists(String),
    /// The tool name belongs to no family of tools (the name).
    UnknownName(String),
}

impl ToolError {
    /// The message shown for the error.
    pub open spec fn describe(self) -> Seq<char> {
        match self {
            ToolError::MissingArgument(key) => "missing required string argument: "@ + key@,
            ToolError::UnknownTool(family, name) => "unknown "@ + family@ + " tool: "@ + name@,
            ToolError::Disabled(what) => what@ + " is disabled"@,
            ToolError::NotConfigured(what) => what@ + " is not configured"@,
            ToolError::BadUrl => "browser URL must start with http:// or https://"@,
            ToolError::NotRelative => "workspace paths must be relative"@,
            ToolError::PathEscapes => "workspace path escapes the configured folder"@,
            ToolError::NotTextFile => "workspace v1 only supports .md, .markdown, .txt, and .text files"@,
            ToolError::FileExists(rel) => "file already exists: "@ + rel@
                + ". Use append_note or choose another path."@,
            ToolError::UnknownName(name) => "unknown tool: "@ + name@,
        }
    }

    /// The message shown for the error.
    pub fn message(&self) -> (r: String)
        ensures
            r@ == self.describe(),
    {
        match self {
            ToolError::MissingArgument(key) => crate::text::concat2(
                "missing required string argument: ",
                key.as_str(),
            ),
            ToolError::UnknownTool(family, name) => {
                let mut s = String::from_str("unknown ");
                s.append(family.as_str());
                s.append(" tool: ");
                s.append(name.as_str());
                s
            },
            ToolError::Disabled(what) => crate::text::concat2(what.as_str(), " is disabled"),
            ToolError::NotConfigured(what) => crate::text::concat2(what.as_str(), " is not configured"),
            ToolError::BadUrl => String::from_str("browser URL must start with http:// or https://"),
            ToolError::NotRelative => String::from_str("workspace paths must be relative"),
            ToolError::PathEscapes => String::from_str("workspace path escapes the configured folder"),
            ToolError::NotTextFile => String::from_str(
                "workspace v1 only supports .md, .markdown, .txt, and .text files",
            ),
            ToolError::FileExists(rel) => crate::text::concat3(
                "file already exists: ",
                rel.as_str(),
                ". Use append_note or choose another path.",
            ),
            ToolError::UnknownName(name) => crate::text::concat2("unknown tool: ", name.as_str()),
        }
    }
}

} // verus!
