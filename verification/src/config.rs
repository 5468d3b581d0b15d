use vstd::prelude::*;

use crate::platform::TargetOs;
use crate::paths::{dirs_home, home_dir, join, join_path, or_default, EnvVars};
use crate::text::{replace_all, replace_str};

verus! {

/// The whole settings file.
#[derive(Debug, Clone)]
pub struct Config {
    pub schema_version: u32,
    pub dictation: DictationConfig,
    pub audio: AudioConfig,
    pub asr: AsrConfig,
    pub agent: AgentConfig,
    pub insertion: InsertionConfig,
    pub privacy: PrivacyConfig,
    pub workspace: WorkspaceConfig,
    pub connectors: ConnectorsConfig,
}

/// The hotkey, the language, and how short and long a recording may be.
#[derive(Debug, Clone)]
pub struct DictationConfig {
    pub primary_hotkey: String,
    pub language: String,
    pub min_record_ms: u64,
    pub max_record_seconds: u64,
}

/// The input device (the system default when absent) and the sample rate.
#[derive(Debug, Clone)]
pub struct AudioConfig {
    pub input_device_id: Option<String>,
    pub samplerate: u32,
}

/// Which transcription backend runs, with which model and settings.
#[derive(Debug, Clone)]
pub struct AsrConfig {
    pub backend: String,
    pub model_name: String,
    pub faster_whisper_model_name: String,
    pub faster_whisper_device: String,
    pub faster_whisper_compute_type: String,
    pub faster_whisper_python_path: Option<String>,
    pub model_cache_dir: Option<String>,
}

/// The voice agent: whether it runs, its trigger word, provider, model, key,
/// endpoint, and how it answers.
#[derive(Debug, Clone)]
pub struct AgentConfig {
    pub enabled: bool,
    pub trigger_word: String,
    pub provider: String,
    pub model: String,
    pub api_key: Option<String>,
    pub base_url: String,
    pub auto_replace_selection: bool,
    pub speak_responses: bool,
    pub tts_model: String,
    pub tts_voice: String,
}

/// How pasting is timed, and whether text stays on the clipboard on failure.
#[derive(Debug, Clone)]
pub struct InsertionConfig {
    pub paste_delay_ms: u64,
    pub restore_delay_ms: u64,
    pub copy_to_clipboard_on_failure: bool,
}

/// Whether transcripts are written to the log.
#[derive(Debug, Clone)]
pub struct PrivacyConfig {
    pub verbose_transcript_logging: bool,
}

/// The Workspace Notes skill: whether it is on, and its folder.
#[derive(Debug, Clone)]
pub struct WorkspaceConfig {
    pub enabled: bool,
    pub folder_path: Option<String>,
}

/// The Todoist connector: whether it is on, and its API token.
#[derive(Debug, Clone)]
pub struct TodoistConfig {
    pub enabled: bool,
    pub api_token: Option<String>,
}

/// The read-only browser connector: whether it is on.
#[derive(Debug, Clone)]
pub struct BrowserConfig {
    pub enabled: bool,
}

/// The outside services the agent may use.
#[derive(Debug, Clone)]
pub struct ConnectorsConfig {
    pub todoist: TodoistConfig,
    pub browser: BrowserConfig,
}

pub fn default_agent_trigger_word() -> (r: String)
    ensures
        r@ == "agent"@,
{
    String::from_str("agent")
}

pub fn default_agent_provider() -> (r: String)
    ensures
        r@ == "openai"@,
{
    String::from_str("openai")
}

pub fn default_agent_model() -> (r: String)
    ensures
        r@ == "gpt-5.2"@,
{
    String::from_str("gpt-5.2")
}

pub fn default_agent_base_url() -> (r: String)
    ensures
        r@ == "https://api.openai.com/v1"@,
{
    String::from_str("https://api.openai.com/v1")
}

pub fn default_agent_auto_replace_selection() -> (r: bool)
    ensures
        r,
{
    true
}

pub fn default_agent_tts_model() -> (r: String)
    ensures
        r@ == "gpt-4o-mini-tts"@,
{
    String::from_str("gpt-4o-mini-tts")
}

pub fn default_agent_tts_voice() -> (r: String)
    ensures
        r@ == "coral"@,
{
    String::from_str("coral")
}

pub fn default_asr_backend() -> (r: String)
    ensures
        r@ == "whisper_cpp"@,
{
    String::from_str("whisper_cpp")
}

pub fn default_faster_whisper_model() -> (r: String)
    ensures
        r@ == "h2oai/faster-whisper-large-v3-turbo"@,
{
    String::from_str("h2oai/faster-whisper-large-v3-turbo")
}

/// CUDA on Windows, the CPU elsewhere.
pub fn default_faster_whisper_device(os: TargetOs) -> (r: String)
    ensures
        r@ == (if os == TargetOs::Windows {
            "cuda"@
        } else {
            "cpu"@
        }),
{
    if os == TargetOs::Windows {
        String::from_str("cuda")
    } else {
        String::from_str("cpu")
    }
}

/// `float16` on Windows, `int8` elsewhere.
pub fn default_faster_whisper_compute_type(os: TargetOs) -> (r: String)
    ensures
        r@ == (if os == TargetOs::Windows {
            "float16"@
        } else {
            "int8"@
        }),
{
    if os == TargetOs::Windows {
        String::from_str("float16")
    } else {
        String::from_str("int8")
    }
}

/// The agent's settings when the file has none: off, trigger word `agent`,
/// OpenAI `gpt-5.2` at the public endpoint, no key, replace the selection,
/// do not speak answers, `gpt-4o-mini-tts` with the voice `coral`.
pub open spec fn is_default_agent(a: AgentConfig) -> bool {
    &&& !a.enabled
    &&& a.trigger_word@ == "agent"@
    &&& a.provider@ == "openai"@
    &&& a.model@ == "gpt-5.2"@
    &&& a.api_key is None
    &&& a.base_url@ == "https://api.openai.com/v1"@
    &&& a.auto_replace_selection
    &&& !a.speak_responses
    &&& a.tts_model@ == "gpt-4o-mini-tts"@
    &&& a.tts_voice@ == "coral"@
}

pub fn default_agent_config() -> (r: AgentConfig)
    ensures
        is_default_agent(r),
{
    AgentConfig {
        enabled: false,
        trigger_word: default_agent_trigger_word(),
        provider: default_agent_provider(),
        model: default_agent_model(),
        api_key: None,
        base_url: default_agent_base_url(),
        auto_replace_selection: default_agent_auto_replace_selection(),
        speak_responses: false,
        tts_model: default_agent_tts_model(),
        tts_voice: default_agent_tts_voice(),
    }
}

/// The settings a new installation starts with.
pub open spec fn is_default_config(c: Config, os: TargetOs) -> bool {
    &&& c.schema_version == 1
    &&& c.dictation.primary_hotkey@ == (if os == TargetOs::Macos {
        "F5"@
    } else {
        "F3"@
    })
    &&& c.dictation.language@ == "en"@
    &&& c.dictation.min_record_ms == 300
    &&& c.dictation.max_record_seconds == 120
    &&& c.audio.input_device_id is None
    &&& c.audio.samplerate == 16000
    &&& c.asr.backend@ == "whisper_cpp"@
    &&& c.asr.model_name@ == "ggml-large-v3-turbo-q5_0.bin"@
    &&& c.asr.faster_whisper_model_name@ == "h2oai/faster-whisper-large-v3-turbo"@
    &&& c.asr.faster_whisper_device@ == (if os == TargetOs::Windows {
        "cuda"@
    } else {
        "cpu"@
    })
    &&& c.asr.faster_whisper_compute_type@ == (if os == TargetOs::Windows {
        "float16"@
    } else {
        "int8"@
    })
    &&& c.asr.faster_whisper_python_path is None
    &&& c.asr.model_cache_dir is None
    &&& is_default_agent(c.agent)
    &&& c.insertion.paste_delay_ms == 100
    &&& c.insertion.restore_delay_ms == 500
    &&& c.insertion.copy_to_clipboard_on_failure
    &&& !c.privacy.verbose_transcript_logging
    &&& !c.workspace.enabled
    &&& c.workspace.folder_path is None
    &&& !c.connectors.todoist.enabled
    &&& c.connectors.todoist.api_token is None
    &&& !c.connectors.browser.enabled
}

/// The settings a new installation starts with on the given system: hotkey
/// F5 on macOS and F3 elsewhere, English, 300 ms to 120 s recordings, the
/// default microphone at 16 kHz, whisper.cpp with the Large v3 Turbo Q5 model,
/// the agent off, paste after 100 ms and restore after 500 ms, no transcript
/// logging, and the workspace and connectors off.
pub fn default_config(os: TargetOs) -> (r: Config)
    ensures
        is_default_config(r, os),
{
    let hotkey = if os == TargetOs::Macos {
        "F5"
    } else {
        "F3"
    };
    Config {
        schema_version: 1,
        dictation: DictationConfig {
            primary_hotkey: String::from_str(hotkey),
            language: String::from_str("en"),
            min_record_ms: 300,
            max_record_seconds: 120,
        },
        audio: AudioConfig { input_device_id: None, samplerate: 16000 },
        asr: AsrConfig {
            backend: default_asr_backend(),
            model_name: String::from_str("ggml-large-v3-turbo-q5_0.bin"),
            faster_whisper_model_name: default_faster_whisper_model(),
            faster_whisper_device: default_faster_whisper_device(os),
            faster_whisper_compute_type: default_faster_whisper_compute_type(os),
            faster_whisper_python_path: None,
            model_cache_dir: None,
        },
        agent: default_agent_config(),
        insertion: InsertionConfig {
            paste_delay_ms: 100,
            restore_delay_ms: 500,
            copy_to_clipboard_on_failure: true,
        },
        privacy: PrivacyConfig { verbose_transcript_logging: false },
        workspace: WorkspaceConfig { enabled: false, folder_path: None },
        connectors: ConnectorsConfig {
            todoist: TodoistConfig { enabled: false, api_token: None },
            browser: BrowserConfig { enabled: false },
        },
    }
}


/// Where models are kept: the configured folder, with `%LOCALAPPDATA%` and `~`
/// expanded; else `%LOCALAPPDATA%\voice-mcp-host\models` on Windows and
/// `~/Library/Application Support/voice-mcp-host/models` on macOS.
pub open spec fn cache_dir_path(dir: Option<String>, os: TargetOs, env: EnvVars) -> Seq<char> {
    match dir {
        Some(d) => replace_all(
            replace_all(
                d@,
                "%LOCALAPPDATA%"@,
                match env.local_appdata {
                    Some(l) => l@,
                    None => Seq::empty(),
                },
            ),
            "~"@,
            home_dir(env),
        ),
        None => if os == TargetOs::Windows {
            join_path(
                os,
                join_path(
                    os,
                    match env.local_appdata {
                        Some(l) => l@,
                        None => "."@,
                    },
                    "voice-mcp-host"@,
                ),
                "models"@,
            )
        } else {
            join_path(
                os,
                join_path(
                    os,
                    join_path(os, join_path(os, home_dir(env), "Library"@), "Application Support"@),
                    "voice-mcp-host"@,
                ),
                "models"@,
            )
        },
    }
}

impl Config {
    /// The folder that holds the models and engines.
    pub fn model_cache_dir(&self, os: TargetOs, env: &EnvVars) -> (r: String)
        ensures
            r@ == cache_dir_path(self.asr.model_cache_dir, os, *env),
    {
        match &self.asr.model_cache_dir {
            Some(dir) => {
                proof {
                    reveal_strlit("%LOCALAPPDATA%");
                    reveal_strlit("~");
                }
                let local = match &env.local_appdata {
                    Some(l) => l.clone(),
                    None => String::new(),
                };
                let a = replace_str(dir.as_str(), "%LOCALAPPDATA%", local.as_str());
                let home = dirs_home(env);
                replace_str(a.as_str(), "~", home.as_str())
            },
            None => {
                if os == TargetOs::Windows {
                    let local = or_default(&env.local_appdata, ".");
                    let a = join(os, local.as_str(), "voice-mcp-host");
                    join(os, a.as_str(), "models")
                } else {
                    let home = dirs_home(env);
                    let a = join(os, home.as_str(), "Library");
                    let b = join(os, a.as_str(), "Application Support");
                    let c = join(os, b.as_str(), "voice-mcp-host");
                    join(os, c.as_str(), "models")
                }
            },
        }
    }
}

/// Where the settings file lives: `%APPDATA%\voice-mcp-host\config.json` on
/// Windows, `~/Library/Application Support/voice-mcp-host/config.json` on
/// macOS; nothing when the variable is not set.
pub open spec fn config_file_path(os: TargetOs, env: EnvVars) -> Option<Seq<char>> {
    if os == TargetOs::Windows {
        match env.appdata {
            Some(a) => Some(join_path(os, join_path(os, a@, "voice-mcp-host"@), "config.json"@)),
            None => None,
        }
    } else {
        match env.home {
            Some(h) => Some(
                join_path(
                    os,
                    join_path(
                        os,
                        join_path(os, join_path(os, h@, "Library"@), "Application Support"@),
                        "voice-mcp-host"@,
                    ),
                    "config.json"@,
                ),
            ),
            None => None,
        }
    }
}

/// The path of the settings file, if the variable it is under is set.
pub fn config_path(os: TargetOs, env: &EnvVars) -> (r: Option<String>)
    ensures
        match config_file_path(os, *env) {
            Some(p) => r is Some && r.unwrap()@ == p,
            None => r is None,
        },
{
    if os == TargetOs::Windows {
        match &env.appdata {
            Some(a) => {
                let x = join(os, a.as_str(), "voice-mcp-host");
                Some(join(os, x.as_str(), "config.json"))
            },
            None => None,
        }
    } else {
        match &env.home {
            Some(h) => {
                let a = join(os, h.as_str(), "Library");
                let b = join(os, a.as_str(), "Application Support");
                let c = join(os, b.as_str(), "voice-mcp-host");
                Some(join(os, c.as_str(), "config.json"))
            },
            None => None,
        }
    }
}

} // verus!
