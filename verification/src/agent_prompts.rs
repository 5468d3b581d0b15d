use vstd::prelude::*;

use crate::agent_memory::{format_history, history_text};
use crate::agent_types::{AgentRequest, AgentSessionTurn};
use crate::text::{trim, trim_str, CharClass};

verus! {

/// The standing instructions of the voice agent.
pub const AGENT_INSTRUCTIONS: &'static str = "You are voice-mcp-host's voice agent. Infer the user's intent from natural language, the active app, and any selected text. Choose mode \"speak\" only when the best action is to answer audibly without changing the user's app: casual conversation, questions, explanations, coaching, or requests to read selected/provided text aloud. Choose mode \"insert\" when the best action is to put text into the user's active app: write, rewrite, summarize, fix, translate, draft, compose, replace, improve, continue, shorten, or format. Choose mode \"tool\" when the best action requires the Workspace Notes skill. If the user asks to create, save, write, append, search, list, or read files/notes in the workspace, you must use tool mode, not insert mode. Selected text is context, not an automatic instruction: reading it aloud is speak; transforming it or producing replacement text is insert. For speak mode, text is the natural spoken answer. For insert mode, text is exactly what should be inserted or replace the selection. Workspace Notes tools, when available: workspace.list_files, workspace.read_file, workspace.search_files, workspace.save_note, workspace.create_note, workspace.append_note. Todoist tools, when available: todoist.create_task. Tool schemas: workspace.list_files args {}; workspace.read_file args {\"path\":\"relative-file.md\"}; workspace.search_files args {\"query\":\"text to find\"}; workspace.save_note args {\"path\":\"relative-file.md\",\"content\":\"Markdown content to save\"}; workspace.create_note args {\"path\":\"relative-file.md\",\"content\":\"full Markdown content\"}; workspace.append_note args {\"path\":\"relative-file.md\",\"content\":\"Markdown content to append\"}; todoist.create_task args {\"content\":\"task name\",\"description\":\"optional extra detail\",\"due_string\":\"optional natural language due date\"}. Prefer workspace.save_note for normal user requests to add, save, write, or create notes because it creates the file if missing and appends if it already exists. Use create_note only when the user explicitly asks for a new separate file. Use append_note only when the user explicitly asks to append to an existing file. Use todoist.create_task when the user explicitly asks to add/create/save a task in Todoist. Do not use Todoist for generic dictation or local note requests unless the user mentions Todoist. Before inventing a new note filename, check the existing file list in workspace context and reuse the closest matching file, for example todo.md, to-do.md, tasks.md, ideas.md, or notes.md. If the user refers to \"that file\", \"the todo\", \"the note\", or \"these two\", use recent conversation and existing files to infer the intended path. If the user says \"a note called ideas\" or similar, use \"ideas.md\" as the path. Use only relative paths inside the workspace. Prefer Markdown note files ending in .md. Never request delete. Return only valid compact JSON. For speak/insert: {\"mode\":\"speak\"|\"insert\",\"text\":\"...\"}. For tools: {\"mode\":\"tool\",\"text\":\"why this tool is needed\",\"tool\":{\"name\":\"workspace.search_files\",\"args\":{\"query\":\"pricing\"}}}. Do not include markdown fences or extra keys.";

/// The standing instructions for drafting a note's content.
pub const NOTE_DRAFT_INSTRUCTIONS: &'static str = "You draft Markdown note file content for voice-mcp-host's Workspace Notes skill. Return only the Markdown content that should be written into the file. Do not include JSON, markdown fences, labels, or explanations.";

/// The workspace description used when none is given.
pub const NO_WORKSPACE: &'static str = "Workspace Notes skill is unavailable. No workspace folder is configured.";

/// The standing instructions of the voice agent.
pub fn agent_instructions() -> (r: &'static str)
    ensures
        r@ == AGENT_INSTRUCTIONS@,
{
    AGENT_INSTRUCTIONS
}

/// The text of a request's context, as the model reads it.
pub open spec fn context_text(
    command: Seq<char>,
    selected: Option<Seq<char>>,
    target_app: Seq<char>,
    history: Seq<AgentSessionTurn>,
    workspace: Option<Seq<char>>,
) -> Seq<char> {
    let selected_text = trim(
        match selected {
            Some(s) => s,
            None => Seq::empty(),
        },
        CharClass::Whitespace,
    );
    let ws = match workspace {
        Some(w) => w,
        None => NO_WORKSPACE@,
    };
    let head = "Recent conversation:\n"@ + history_text(history) + "\n\nWorkspace context:\n"@ + ws
        + "\n\nTarget app: "@ + target_app;
    if selected_text.len() == 0 {
        head + "\nUser command/content:\n"@ + command
    } else {
        head + "\nUser command:\n"@ + command + "\n\nSelected text:\n"@ + selected_text
    }
}

/// The context given to the model for a request: the recent conversation, what
/// the workspace offers (or that there is none), the target app and the command,
/// and the selected text when there is some after trimming.
pub fn agent_context(request: AgentRequest<'_>) -> (r: String)
    ensures
        r@ == context_text(
            request.command@,
            match request.selected_text {
                Some(s) => Some(s@),
                None => None,
            },
            request.target_app@,
            request.history@,
            match request.workspace_context {
                Some(w) => Some(w@),
                None => None,
            },
        ),
{
    let selected_text = match request.selected_text {
        Some(s) => trim_str(s, CharClass::Whitespace),
        None => {
            assert(trim(Seq::<char>::empty(), CharClass::Whitespace) =~= Seq::<char>::empty());
            String::new()
        },
    };
    let conversation = format_history(request.history);
    let workspace_context: &str = match request.workspace_context {
        Some(w) => w,
        None => NO_WORKSPACE,
    };
    let mut out = String::from_str("Recent conversation:\n");
    out.append(conversation.as_str());
    out.append("\n\nWorkspace context:\n");
    out.append(workspace_context);
    out.append("\n\nTarget app: ");
    out.append(request.target_app);
    if selected_text.as_str().unicode_len() == 0 {
        out.append("\nUser command/content:\n");
        out.append(request.command);
    } else {
        out.append("\nUser command:\n");
        out.append(request.command);
        out.append("\n\nSelected text:\n");
        out.append(selected_text.as_str());
    }
    out
}

/// The standing instructions for drafting a note's content.
pub fn note_draft_instructions() -> (r: &'static str)
    ensures
        r@ == NOTE_DRAFT_INSTRUCTIONS@,
{
    NOTE_DRAFT_INSTRUCTIONS
}

/// The context for drafting a note: the recent conversation, the target file and
/// the user's request.
pub fn note_draft_context(command: &str, path: &str, history: &[AgentSessionTurn]) -> (r: String)
    ensures
        r@ == "Recent conversation:\n"@ + history_text(history@) + "\n\nTarget file: "@ + path@
            + "\nUser request:\n"@ + command@,
{
    let mut out = String::from_str("Recent conversation:\n");
    let h = format_history(history);
    out.append(h.as_str());
    out.append("\n\nTarget file: ");
    out.append(path);
    out.append("\nUser request:\n");
    out.append(command);
    out
}

} // verus!
