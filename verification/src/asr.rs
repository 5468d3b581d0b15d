use vstd::prelude::*;

use crate::config::AsrConfig;
use crate::json::{Json, JsonV};
use crate::model_store::EngineKind;
use crate::paths::{join, join_path};
use crate::platform::TargetOs;
use crate::text::{
    chars_of, join as join_text, join_chars, lines, lines_chars, slice_chars, starts_with,
    starts_with_chars, str_eq, string_of, trim, trim_chars, trim_start, trim_start_chars, views,
    CharClass,
};

verus! {

/// Why transcription could not be set up or failed.
#[derive(Debug)]
pub enum AsrError {
    /// The model path has no parent folder.
    NoParent,
    /// No whisper-cli engine is installed; where it was expected.
    EngineMissing(String),
    /// The faster-whisper Python package is missing.
    NotInstalled,
    /// faster-whisper cannot use CUDA here.
    NoCuda,
    /// The compute type is not supported on the device: the compute type, the
    /// device, and the supported types joined by commas.
    UnsupportedCompute(String, String, String),
    /// The transcriber reported this failure.
    Transcription(String),
    /// Every engine failed, or there was none.
    NoEngine,
    /// Running the engine or the sidecar failed (the message says how).
    Failed(String),
}

impl AsrError {
    /// The message shown for the error.
    pub open spec fn describe(self) -> Seq<char> {
        match self {
            AsrError::NoParent => "model path has no parent directory"@,
            AsrError::EngineMissing(p) => "whisper-cli not found at "@ + p@
                + ". Use the settings panel to download the engine."@,
            AsrError::NotInstalled => "faster-whisper Python package is not installed"@,
            AsrError::NoCuda => "faster-whisper CUDA is not available. Switch device to CPU or install CUDA/cuDNN support"@,
            AsrError::UnsupportedCompute(c, d, s) => "faster-whisper compute type '"@ + c@ + "' is not supported on "@
                + d@ + ". Supported: "@ + s@,
            AsrError::Transcription(m) => m@,
            AsrError::NoEngine => "no whisper-cli engine available"@,
            AsrError::Failed(m) => m@,
        }
    }

    /// The message shown for the error.
    pub fn message(&self) -> (r: String)
        ensures
            r@ == self.describe(),
    {
        match self {
            AsrError::NoParent => String::from_str("model path has no parent directory"),
            AsrError::EngineMissing(p) => crate::text::concat3(
                "whisper-cli not found at ",
                p.as_str(),
                ". Use the settings panel to download the engine.",
            ),
            AsrError::NotInstalled => String::from_str("faster-whisper Python package is not installed"),
            AsrError::NoCuda => String::from_str(
                "faster-whisper CUDA is not available. Switch device to CPU or install CUDA/cuDNN support",
            ),
            AsrError::UnsupportedCompute(c, d, s) => {
                let mut m = crate::text::concat3("faster-whisper compute type '", c.as_str(), "' is not supported on ");
                m.append(d.as_str());
                m.append(". Supported: ");
                m.append(s.as_str());
                m
            },
            AsrError::Transcription(m) => m.clone(),
            AsrError::NoEngine => String::from_str("no whisper-cli engine available"),
            AsrError::Failed(m) => m.clone(),
        }
    }
}

/// The device faster-whisper runs on: `cpu` when asked for, else `cuda`.
pub open spec fn device_for(device: Seq<char>) -> Seq<char> {
    if device == "cpu"@ {
        "cpu"@
    } else {
        "cuda"@
    }
}

/// The device and compute type a configuration comes to.
pub open spec fn settings_of(cfg: AsrConfig) -> (Seq<char>, Seq<char>) {
    let d = device_for(cfg.faster_whisper_device@);
    (d, compute_type_for(d, cfg.faster_whisper_compute_type@))
}

/// The device faster-whisper runs on (see `device_for`).
pub fn normalize_faster_whisper_device(device: &str) -> (r: String)
    ensures
        r@ == device_for(device@),
{
    if str_eq(device, "cpu") {
        String::from_str("cpu")
    } else {
        String::from_str("cuda")
    }
}

/// The compute type used on a device: on `cpu`, `float32` or `int8` as asked,
/// else `int8`; elsewhere `float16`, `int8_float16` or `int8` as asked, else
/// `float16`.
pub open spec fn compute_type_for(device: Seq<char>, compute_type: Seq<char>) -> Seq<char> {
    if device == "cpu"@ {
        if compute_type == "float32"@ || compute_type == "int8"@ {
            compute_type
        } else {
            "int8"@
        }
    } else if compute_type == "float16"@ || compute_type == "int8_float16"@ || compute_type == "int8"@ {
        compute_type
    } else {
        "float16"@
    }
}

/// The settings never pair the CPU with a half-precision compute type: on
/// `cpu` the compute type is `float32` or `int8`, on any other device one of
/// `float16`, `int8_float16`, `int8`; and a compute type already chosen for a
/// device is kept as it is.
pub proof fn law_compute_type_fits_device(device: Seq<char>, compute_type: Seq<char>)
    ensures
        device == "cpu"@ ==> (compute_type_for(device, compute_type) == "float32"@
            || compute_type_for(device, compute_type) == "int8"@),
        device != "cpu"@ ==> (compute_type_for(device, compute_type) == "float16"@
            || compute_type_for(device, compute_type) == "int8_float16"@ || compute_type_for(
            device,
            compute_type,
        ) == "int8"@),
        compute_type_for(device, compute_type_for(device, compute_type)) == compute_type_for(
            device,
            compute_type,
        ),
{
}

/// The compute type used on a device (see `compute_type_for`).
pub fn normalize_faster_whisper_compute_type(device: &str, compute_type: &str) -> (r: String)
    ensures
        r@ == compute_type_for(device@, compute_type@),
{
    if str_eq(device, "cpu") {
        if str_eq(compute_type, "float32") || str_eq(compute_type, "int8") {
            String::from_str(compute_type)
        } else {
            String::from_str("int8")
        }
    } else if str_eq(compute_type, "float16") || str_eq(compute_type, "int8_float16") || str_eq(
        compute_type,
        "int8",
    ) {
        String::from_str(compute_type)
    } else {
        String::from_str("float16")
    }
}

/// The whisper-cli program's file name.
pub open spec fn cli_name(os: TargetOs) -> Seq<char> {
    if os == TargetOs::Windows {
        "whisper-cli.exe"@
    } else {
        "whisper-cli"@
    }
}

/// Where whisper-cli sits next to a model: in the model's folder
/// (`model_dir`, the model path's parent, if it has one).
pub fn engine_path_for(model_dir: Option<&str>, os: TargetOs) -> (r: Result<String, AsrError>)
    ensures
        model_dir is None ==> r matches Err(AsrError::NoParent),
        model_dir matches Some(d) ==> (r matches Ok(p) && p@ == join_path(os, d@, cli_name(os))),
{
    match model_dir {
        None => Err(AsrError::NoParent),
        Some(d) => {
            let name = match os {
                TargetOs::Windows => "whisper-cli.exe",
                TargetOs::Macos => "whisper-cli",
            };
            Ok(join(os, d, name))
        },
    }
}

/// A whisper.cpp transcriber: the model, and the engines to try in order,
/// each with its kind.
#[derive(Debug, Clone)]
pub struct WhisperCppTranscriber {
    pub model_path: String,
    pub engines: Vec<(EngineKind, String)>,
}

impl WhisperCppTranscriber {
    /// Sets up whisper.cpp for a model. `model_dir` is the model path's
    /// parent, if it has one, and `engines` are the engines found for it (see
    /// `engine_candidates`). Refused when there is no parent, or when no
    /// engine was found, naming where the engine was expected.
    pub fn load(model_path: &str, model_dir: Option<&str>, engines: Vec<(EngineKind, String)>, os: TargetOs) -> (r:
        Result<Self, AsrError>)
        ensures
            model_dir is None ==> r matches Err(AsrError::NoParent),
            model_dir matches Some(d) ==> (engines@.len() == 0 ==> (r matches Err(
                AsrError::EngineMissing(p),
            ) && p@ == join_path(os, d@, cli_name(os)))),
            model_dir is Some && engines@.len() > 0 ==> (r matches Ok(t) && t.model_path@ == model_path@
                && t.engines@ == engines@),
    {
        match model_dir {
            None => Err(AsrError::NoParent),
            Some(d) => {
                if engines.len() == 0 {
                    match engine_path_for(Some(d), os) {
                        Ok(p) => Err(AsrError::EngineMissing(p)),
                        Err(e) => Err(e),
                    }
                } else {
                    Ok(WhisperCppTranscriber { model_path: String::from_str(model_path), engines })
                }
            },
        }
    }

    /// What to try after `tried` engines failed, in order, the last one with
    /// `last_error`: the next engine, or, when none is left, that last error
    /// (`NoEngine` when there was none to try).
    pub fn next_attempt(&self, tried: usize, last_error: Option<String>) -> (r: Result<(EngineKind, String), AsrError>)
        requires
            tried <= self.engines@.len(),
        ensures
            tried < self.engines@.len() ==> (r matches Ok(e) && e.0 == self.engines@[tried as int].0 && e.1@
                == self.engines@[tried as int].1@),
            tried == self.engines@.len() ==> match last_error {
                Some(m) => (r matches Err(AsrError::Failed(x)) && x@ == m@),
                None => r matches Err(AsrError::NoEngine),
            },
    {
        if tried < self.engines.len() {
            let e = &self.engines[tried];
            Ok((e.0, e.1.clone()))
        } else {
            match last_error {
                Some(m) => Err(AsrError::Failed(m)),
                None => Err(AsrError::NoEngine),
            }
        }
    }
}

/// The Python to run faster-whisper with: the configured one unless blank;
/// else a bundled one found on disk; else `python` on Windows, `python3`
/// elsewhere.
pub fn python_exe(configured: Option<&str>, bundled: Option<String>, os: TargetOs) -> (r: String)
    ensures
        configured matches Some(c) ==> (trim(c@, CharClass::Whitespace).len() > 0 ==> r@ == c@),
        !(configured matches Some(c) && trim(c@, CharClass::Whitespace).len() > 0) ==> match bundled {
            Some(b) => r == b,
            None => r@ == (if os == TargetOs::Windows {
                "python"@
            } else {
                "python3"@
            }),
        },
{
    match configured {
        Some(c) => {
            let t = crate::text::trim_str(c, CharClass::Whitespace);
            if t.as_str().unicode_len() > 0 {
                return String::from_str(c);
            }
        },
        None => {},
    }
    match bundled {
        Some(b) => b,
        None => match os {
            TargetOs::Windows => String::from_str("python"),
            TargetOs::Macos => String::from_str("python3"),
        },
    }
}

fn join3(os: TargetOs, base: &str, a: &str, b: &str) -> (r: String)
    ensures
        r@ == join_path(os, join_path(os, base@, a@), b@),
{
    let x = join(os, base, a);
    join(os, x.as_str(), b)
}

/// Where a bundled Python may be, in order: three places next to the
/// program (when its folder is known), then on Windows one under
/// `LOCALAPPDATA` (when set) and the developer's virtual environment.
pub fn python_candidates(exe_dir: Option<&str>, local_appdata: Option<&str>, os: TargetOs) -> (r: Vec<String>)
    ensures
        crate::text::string_views(r@) == (match exe_dir {
            Some(d) => seq![
                join_path(os, join_path(os, join_path(os, d@, "bundled"@), "faster-whisper"@), "python.exe"@),
                join_path(os, join_path(os, d@, "faster-whisper"@), "python.exe"@),
                join_path(os, join_path(os, d@, "python"@), "python.exe"@),
            ],
            None => Seq::empty(),
        }) + (if os == TargetOs::Windows {
            (match local_appdata {
                Some(l) => seq![
                    join_path(
                        os,
                        join_path(os, join_path(os, l@, "voice-mcp-host"@), "faster-whisper"@),
                        "python.exe"@,
                    ),
                ],
                None => Seq::empty(),
            }) + seq!["C:\\HermesApps\\speaktype-tauri\\.venv-asr\\Scripts\\python.exe"@]
        } else {
            Seq::empty()
        }),
{
    let mut r: Vec<String> = Vec::new();
    match exe_dir {
        Some(d) => {
            let b = join(os, d, "bundled");
            r.push(join3(os, b.as_str(), "faster-whisper", "python.exe"));
            r.push(join3(os, d, "faster-whisper", "python.exe"));
            r.push(join3(os, d, "python", "python.exe"));
        },
        None => {},
    }
    let ghost first = crate::text::string_views(r@);
    if os == TargetOs::Windows {
        match local_appdata {
            Some(l) => {
                let v = join(os, l, "voice-mcp-host");
                r.push(join3(os, v.as_str(), "faster-whisper", "python.exe"));
            },
            None => {},
        }
        r.push(String::from_str("C:\\HermesApps\\speaktype-tauri\\.venv-asr\\Scripts\\python.exe"));
    }
    assert(crate::text::string_views(r@) =~= first + (if os == TargetOs::Windows {
        (match local_appdata {
            Some(l) => seq![
                join_path(
                    os,
                    join_path(os, join_path(os, l@, "voice-mcp-host"@), "faster-whisper"@),
                    "python.exe"@,
                ),
            ],
            None => Seq::empty(),
        }) + seq!["C:\\HermesApps\\speaktype-tauri\\.venv-asr\\Scripts\\python.exe"@]
    } else {
        Seq::empty()
    }));
    r
}

/// Which transcriber runs.
#[derive(Debug, Clone, Copy, PartialEq, Eq, Structural)]
pub enum BackendKind {
    WhisperCpp,
    FasterWhisper,
}

/// The backend a configuration selects: faster-whisper when named, else
/// whisper.cpp.
pub fn backend_kind(cfg: &AsrConfig) -> (r: BackendKind)
    ensures
        cfg.backend@ == "faster_whisper"@ <==> r == BackendKind::FasterWhisper,
{
    if str_eq(cfg.backend.as_str(), "faster_whisper") {
        BackendKind::FasterWhisper
    } else {
        BackendKind::WhisperCpp
    }
}

/// The arguments of the faster-whisper preflight check.
pub fn preflight_args(sidecar: &str, device: &str, compute_type: &str) -> (r: Vec<String>)
    ensures
        crate::text::string_views(r@) == seq![
            sidecar@,
            "--preflight"@,
            "--json"@,
            "--device"@,
            device@,
            "--compute-type"@,
            compute_type@,
        ],
{
    let r = vec![
        String::from_str(sidecar),
        String::from_str("--preflight"),
        String::from_str("--json"),
        String::from_str("--device"),
        String::from_str(device),
        String::from_str("--compute-type"),
        String::from_str(compute_type),
    ];
    assert(crate::text::string_views(r@) =~= seq![
        sidecar@,
        "--preflight"@,
        "--json"@,
        "--device"@,
        device@,
        "--compute-type"@,
        compute_type@,
    ]);
    r
}

/// A boolean field of an object.
pub open spec fn bool_field(v: JsonV, key: Seq<char>) -> Option<bool> {
    match v.field(key) {
        Some(JsonV::Bool(b)) => Some(b),
        _ => None,
    }
}

/// The strings among some JSON values, in order.
pub open spec fn strings_of(items: Seq<JsonV>) -> Seq<Seq<char>>
    decreases items.len(),
{
    if items.len() == 0 {
        Seq::empty()
    } else {
        let pre = strings_of(items.drop_last());
        match items.last() {
            JsonV::Str(s) => pre.push(s),
            _ => pre,
        }
    }
}

/// The compute types the preflight lists for the device (`cuda` or `cpu`).
pub open spec fn supported_types(result: JsonV, device: Seq<char>) -> Seq<Seq<char>> {
    let key = if device == "cuda"@ {
        "cuda_compute_types"@
    } else {
        "cpu_compute_types"@
    };
    match result.field(key) {
        Some(JsonV::Array(items)) => strings_of(items),
        _ => Seq::empty(),
    }
}

/// What the preflight reply says: its `result` (or the reply itself) must
/// report faster-whisper available, CUDA usable when the device is `cuda`,
/// and the compute type among the supported ones when it lists any.
pub open spec fn preflight_error(value: JsonV, device: Seq<char>, compute_type: Seq<char>) -> Option<int> {
    let result = match value.field("result"@) {
        Some(r) => r,
        None => value,
    };
    if bool_field(result, "faster_whisper_available"@) != Some(true) {
        Some(0)
    } else if device == "cuda"@ && bool_field(result, "cuda_ok"@) != Some(true) {
        Some(1)
    } else if supported_types(result, device).len() > 0 && !supported_types(result, device).contains(compute_type) {
        Some(2)
    } else {
        None
    }
}

fn bool_of(v: Option<&Json>) -> (r: Option<bool>)
    ensures
        r == match v {
            Some(j) => match j@ {
                JsonV::Bool(b) => Some(b),
                _ => None,
            },
            None => None,
        },
{
    match v {
        Some(Json::Bool(b)) => Some(*b),
        _ => None,
    }
}

fn string_items(v: Option<&Json>) -> (r: Vec<String>)
    ensures
        crate::text::string_views(r@) == match v {
            Some(j) => match j@ {
                JsonV::Array(items) => strings_of(items),
                _ => Seq::empty(),
            },
            None => Seq::empty(),
        },
{
    let mut r: Vec<String> = Vec::new();
    match v {
        Some(Json::Array(items)) => {
            let ghost its = match v.unwrap()@ {
                JsonV::Array(a) => a,
                _ => Seq::empty(),
            };
            let n = items.len();
            assert(its.len() == n);
            assert(forall|k: int| 0 <= k < n ==> #[trigger] its[k] == items@[k]@);
            for i in 0..n
                invariant
                    n == items@.len(),
                    its.len() == n,
                    forall|k: int| 0 <= k < n ==> #[trigger] its[k] == items@[k]@,
                    crate::text::string_views(r@) == strings_of(its.take(i as int)),
            {
                assert(its.take(i + 1).drop_last() == its.take(i as int));
                assert(its.take(i + 1).last() == items@[i as int]@);
                match &items[i] {
                    Json::Str(s) => {
                        r.push(s.clone());
                        assert(crate::text::string_views(r@) == crate::text::string_views(r@).drop_last().push(s@));
                    },
                    _ => {},
                }
            }
            assert(its.take(n as int) == its);
        },
        _ => {},
    }
    r
}

fn contains_string(items: &Vec<String>, s: &str) -> (r: bool)
    ensures
        r == crate::text::string_views(items@).contains(s@),
{
    let n = items.len();
    for i in 0..n
        invariant
            n == items@.len(),
            forall|j: int| 0 <= j < i ==> items@[j]@ != s@,
    {
        if str_eq(items[i].as_str(), s) {
            assert(crate::text::string_views(items@)[i as int] == s@);
            return true;
        }
    }
    assert forall|j: int| 0 <= j < crate::text::string_views(items@).len() implies crate::text::string_views(
        items@,
    )[j] != s@ by {
        assert(items@[j]@ != s@);
    }
    false
}

fn join_strings(items: &Vec<String>, sep: &str) -> (r: String)
    ensures
        r@ == join_text(crate::text::string_views(items@), sep@),
{
    let mut parts: Vec<Vec<char>> = Vec::new();
    let n = items.len();
    for i in 0..n
        invariant
            n == items@.len(),
            views(parts@) == crate::text::string_views(items@).take(i as int),
    {
        let c = chars_of(items[i].as_str());
        parts.push(c);
        assert(views(parts@) == views(parts@).drop_last().push(c@));
        assert(crate::text::string_views(items@).take(i + 1) == crate::text::string_views(items@).take(
            i as int,
        ).push(items@[i as int]@));
    }
    assert(crate::text::string_views(items@).take(n as int) == crate::text::string_views(items@));
    let sv = chars_of(sep);
    let j = join_chars(&parts, sv.as_slice());
    string_of(j.as_slice())
}

/// Reads the faster-whisper preflight reply (see `preflight_error`); the
/// unsupported compute type error lists the supported types.
pub fn check_preflight(value: &Json, device: &str, compute_type: &str) -> (r: Result<(), AsrError>)
    ensures
        preflight_error(value@, device@, compute_type@) is None ==> r is Ok,
        preflight_error(value@, device@, compute_type@) == Some(0int) ==> r matches Err(AsrError::NotInstalled),
        preflight_error(value@, device@, compute_type@) == Some(1int) ==> r matches Err(AsrError::NoCuda),
        preflight_error(value@, device@, compute_type@) == Some(2int) ==> (r matches Err(
            AsrError::UnsupportedCompute(c, d, s),
        ) && c@ == compute_type@ && d@ == device@ && s@ == join_text(
            supported_types(
                match value@.field("result"@) {
                    Some(x) => x,
                    None => value@,
                },
                device@,
            ),
            ", "@,
        )),
{
    let result: &Json = match value.get("result") {
        Some(x) => x,
        None => value,
    };
    if bool_of(result.get("faster_whisper_available")) != Some(true) {
        return Err(AsrError::NotInstalled);
    }
    let cuda = str_eq(device, "cuda");
    if cuda && bool_of(result.get("cuda_ok")) != Some(true) {
        return Err(AsrError::NoCuda);
    }
    let key = if cuda {
        "cuda_compute_types"
    } else {
        "cpu_compute_types"
    };
    let supported = string_items(result.get(key));
    if supported.len() > 0 && !contains_string(&supported, compute_type) {
        let list = join_strings(&supported, ", ");
        return Err(AsrError::UnsupportedCompute(String::from_str(compute_type), String::from_str(device), list));
    }
    Ok(())
}

/// The part of a preflight reply that is read: its `result`, or the reply
/// itself.
pub open spec fn report_of(value: JsonV) -> JsonV {
    match value.field("result"@) {
        Some(x) => x,
        None => value,
    }
}

proof fn lemma_strings_of_has(items: Seq<JsonV>, c: Seq<char>, i: int)
    requires
        0 <= i < items.len(),
        items[i] == JsonV::Str(c),
    ensures
        strings_of(items).contains(c),
    decreases items.len(),
{
    let pre = strings_of(items.drop_last());
    if i == items.len() - 1 {
        assert(strings_of(items) == pre.push(c));
        assert(strings_of(items)[pre.len() as int] == c);
    } else {
        lemma_strings_of_has(items.drop_last(), c, i);
        let j = choose|j: int| 0 <= j < pre.len() && pre[j] == c;
        assert(strings_of(items)[j] == c);
    }
}

proof fn lemma_strings_of_lacks(items: Seq<JsonV>, c: Seq<char>)
    requires
        forall|i: int| 0 <= i < items.len() ==> #[trigger] items[i] != JsonV::Str(c),
    ensures
        !strings_of(items).contains(c),
    decreases items.len(),
{
    if items.len() > 0 {
        lemma_strings_of_lacks(items.drop_last(), c);
        assert(items[items.len() - 1] != JsonV::Str(c));
        let pre = strings_of(items.drop_last());
        if strings_of(items).contains(c) {
            let j = choose|j: int| 0 <= j < strings_of(items).len() && strings_of(items)[j] == c;
            if j < pre.len() {
                assert(pre[j] == c);
            }
        }
    }
}

/// On a CUDA device the preflight is judged by the CUDA list: with
/// faster-whisper available and CUDA usable, a compute type that
/// `cuda_compute_types` lists is accepted, and one it leaves out (when it
/// lists some type) is refused as unsupported, whatever the CPU list says.
pub proof fn law_cuda_checks_cuda_types(value: JsonV, compute_type: Seq<char>, items: Seq<JsonV>)
    requires
        bool_field(report_of(value), "faster_whisper_available"@) == Some(true),
        bool_field(report_of(value), "cuda_ok"@) == Some(true),
        report_of(value).field("cuda_compute_types"@) == Some(JsonV::Array(items)),
    ensures
        (exists|i: int| 0 <= i < items.len() && items[i] == JsonV::Str(compute_type)) ==> preflight_error(
            value,
            "cuda"@,
            compute_type,
        ) is None,
        (forall|i: int| 0 <= i < items.len() ==> #[trigger] items[i] != JsonV::Str(compute_type)) && (exists|
            i: int,
            s: Seq<char>,
        | 0 <= i < items.len() && items[i] == JsonV::Str(s)) ==> preflight_error(value, "cuda"@, compute_type)
            == Some(2int),
{
    if exists|i: int| 0 <= i < items.len() && items[i] == JsonV::Str(compute_type) {
        let i = choose|i: int| 0 <= i < items.len() && items[i] == JsonV::Str(compute_type);
        lemma_strings_of_has(items, compute_type, i);
    }
    if (forall|i: int| 0 <= i < items.len() ==> #[trigger] items[i] != JsonV::Str(compute_type)) && (exists|
        i: int,
        s: Seq<char>,
    | 0 <= i < items.len() && items[i] == JsonV::Str(s)) {
        let (i, t) = choose|i: int, s: Seq<char>| 0 <= i < items.len() && items[i] == JsonV::Str(s);
        lemma_strings_of_has(items, t, i);
        lemma_strings_of_lacks(items, compute_type);
    }
}

/// On the CPU the preflight is judged by the CPU list: with faster-whisper
/// available, a compute type that `cpu_compute_types` lists is accepted,
/// whatever the CUDA list says.
pub proof fn law_cpu_checks_cpu_types(value: JsonV, compute_type: Seq<char>, items: Seq<JsonV>, i: int)
    requires
        bool_field(report_of(value), "faster_whisper_available"@) == Some(true),
        report_of(value).field("cpu_compute_types"@) == Some(JsonV::Array(items)),
        0 <= i < items.len(),
        items[i] == JsonV::Str(compute_type),
    ensures
        preflight_error(value, "cpu"@, compute_type) is None,
{
    reveal_strlit("cpu");
    reveal_strlit("cuda");
    assert("cpu"@ != "cuda"@) by {
        assert("cpu"@.len() != "cuda"@.len());
    }
    lemma_strings_of_has(items, compute_type, i);
}

/// A faster-whisper transcriber: the model, the device and compute type it
/// runs with, and the Python configured for it.
#[derive(Debug, Clone)]
pub struct FasterWhisperTranscriber {
    pub model_name: String,
    pub device: String,
    pub compute_type: String,
    pub python_path: Option<String>,
}

impl FasterWhisperTranscriber {
    /// Sets up faster-whisper from its configuration and the sidecar's
    /// preflight reply, which was asked for the device and compute type the
    /// configuration comes to (`settings_of`); refused as `check_preflight`
    /// says.
    pub fn load(cfg: &AsrConfig, preflight: &Json) -> (r: Result<Self, AsrError>)
        ensures
            preflight_error(preflight@, settings_of(*cfg).0, settings_of(*cfg).1) is None ==> (r matches Ok(
                t,
            ) && t.model_name@ == cfg.faster_whisper_model_name@ && t.device@ == settings_of(*cfg).0
                && t.compute_type@ == settings_of(*cfg).1 && t.python_path == cfg.faster_whisper_python_path),
            preflight_error(preflight@, settings_of(*cfg).0, settings_of(*cfg).1) == Some(0int) ==> r matches Err(
                AsrError::NotInstalled,
            ),
            preflight_error(preflight@, settings_of(*cfg).0, settings_of(*cfg).1) == Some(1int) ==> r matches Err(
                AsrError::NoCuda,
            ),
            preflight_error(preflight@, settings_of(*cfg).0, settings_of(*cfg).1) == Some(2int) ==> (r matches Err(
                AsrError::UnsupportedCompute(c, d, s),
            ) && c@ == settings_of(*cfg).1 && d@ == settings_of(*cfg).0 && s@ == join_text(
                supported_types(report_of(preflight@), settings_of(*cfg).0),
                ", "@,
            )),
    {
        let device = normalize_faster_whisper_device(cfg.faster_whisper_device.as_str());
        let compute_type = normalize_faster_whisper_compute_type(
            device.as_str(),
            cfg.faster_whisper_compute_type.as_str(),
        );
        match check_preflight(preflight, device.as_str(), compute_type.as_str()) {
            Err(e) => Err(e),
            Ok(()) => {
                let python_path = match &cfg.faster_whisper_python_path {
                    Some(p) => Some(p.clone()),
                    None => None,
                };
                Ok(FasterWhisperTranscriber {
                    model_name: cfg.faster_whisper_model_name.clone(),
                    device,
                    compute_type,
                    python_path,
                })
            },
        }
    }
}

/// What loading a transcriber learned from the machine: for whisper.cpp, the
/// model path's parent and the engines found for it; for faster-whisper, the
/// sidecar's preflight reply.
#[derive(Debug)]
pub enum LoadProbe {
    WhisperCpp(Option<String>, Vec<(EngineKind, String)>),
    FasterWhisper(Json),
}

/// The backend a transcriber runs.
#[derive(Debug, Clone)]
pub enum AsrBackend {
    WhisperCpp(WhisperCppTranscriber),
    FasterWhisper(FasterWhisperTranscriber),
}

/// The transcriber in use.
#[derive(Debug, Clone)]
pub struct Transcriber {
    pub backend: AsrBackend,
}

/// Whether what was probed is what the configuration's backend needs.
pub open spec fn probe_fits(cfg: AsrConfig, probe: LoadProbe) -> bool {
    match probe {
        LoadProbe::WhisperCpp(..) => cfg.backend@ != "faster_whisper"@,
        LoadProbe::FasterWhisper(_) => cfg.backend@ == "faster_whisper"@,
    }
}

impl Transcriber {
    /// Sets up the backend the configuration selects (`backend_kind`):
    /// whisper.cpp with the configured model from the cache folder, or
    /// faster-whisper. `probe` holds what was read from the machine for that
    /// backend.
    pub fn load(cfg: &AsrConfig, cache_dir: &str, os: TargetOs, probe: LoadProbe) -> (r: Result<Self, AsrError>)
        requires
            probe_fits(*cfg, probe),
        ensures
            r matches Ok(t) ==> (t.backend is FasterWhisper <==> cfg.backend@ == "faster_whisper"@),
            probe matches LoadProbe::WhisperCpp(dir, engines) ==> (dir is None ==> r matches Err(
                AsrError::NoParent,
            )),
            probe matches LoadProbe::WhisperCpp(dir, engines) ==> (dir matches Some(d) ==> (engines@.len() == 0
                ==> (r matches Err(AsrError::EngineMissing(p)) && p@ == join_path(os, d@, cli_name(os))))),
            probe matches LoadProbe::WhisperCpp(dir, engines) ==> (dir is Some && engines@.len() > 0 ==> (r matches Ok(
                t,
            ) && t.backend matches AsrBackend::WhisperCpp(w) && w.model_path@ == join_path(
                os,
                cache_dir@,
                cfg.model_name@,
            ) && w.engines@ == engines@)),
            probe matches LoadProbe::FasterWhisper(v) ==> (preflight_error(v@, settings_of(*cfg).0, settings_of(
                *cfg,
            ).1) is None ==> (r matches Ok(t) && t.backend matches AsrBackend::FasterWhisper(f)
                && f.model_name@ == cfg.faster_whisper_model_name@ && f.device@ == settings_of(*cfg).0
                && f.compute_type@ == settings_of(*cfg).1 && f.python_path == cfg.faster_whisper_python_path)),
            probe matches LoadProbe::FasterWhisper(v) ==> (preflight_error(v@, settings_of(*cfg).0, settings_of(
                *cfg,
            ).1) == Some(0int) ==> r matches Err(AsrError::NotInstalled)),
            probe matches LoadProbe::FasterWhisper(v) ==> (preflight_error(v@, settings_of(*cfg).0, settings_of(
                *cfg,
            ).1) == Some(1int) ==> r matches Err(AsrError::NoCuda)),
            probe matches LoadProbe::FasterWhisper(v) ==> (preflight_error(v@, settings_of(*cfg).0, settings_of(
                *cfg,
            ).1) == Some(2int) ==> (r matches Err(AsrError::UnsupportedCompute(cc, dd, s)) && cc@ == settings_of(
                *cfg,
            ).1 && dd@ == settings_of(*cfg).0 && s@ == join_text(
                supported_types(report_of(v@), settings_of(*cfg).0),
                ", "@,
            ))),
    {
        match probe {
            LoadProbe::FasterWhisper(v) => match FasterWhisperTranscriber::load(cfg, &v) {
                Ok(f) => Ok(Transcriber { backend: AsrBackend::FasterWhisper(f) }),
                Err(e) => Err(e),
            },
            LoadProbe::WhisperCpp(dir, engines) => {
                let path = crate::model_store::model_path(cache_dir, cfg.model_name.as_str(), os);
                let d: Option<&str> = match &dir {
                    Some(x) => Some(x.as_str()),
                    None => None,
                };
                match WhisperCppTranscriber::load(path.as_str(), d, engines, os) {
                    Ok(w) => Ok(Transcriber { backend: AsrBackend::WhisperCpp(w) }),
                    Err(e) => Err(e),
                }
            },
        }
    }
}

/// The arguments of a faster-whisper transcription.
pub fn transcribe_args(
    sidecar: &str,
    wav: &str,
    model: &str,
    device: &str,
    compute_type: &str,
    language: &str,
) -> (r: Vec<String>)
    ensures
        crate::text::string_views(r@) == seq![
            sidecar@,
            "--transcribe"@,
            wav@,
            "--json"@,
            "--model"@,
            model@,
            "--device"@,
            device@,
            "--compute-type"@,
            compute_type@,
            "--language"@,
            language@,
        ],
{
    let r = vec![
        String::from_str(sidecar),
        String::from_str("--transcribe"),
        String::from_str(wav),
        String::from_str("--json"),
        String::from_str("--model"),
        String::from_str(model),
        String::from_str("--device"),
        String::from_str(device),
        String::from_str("--compute-type"),
        String::from_str(compute_type),
        String::from_str("--language"),
        String::from_str(language),
    ];
    assert(crate::text::string_views(r@) =~= seq![
        sidecar@,
        "--transcribe"@,
        wav@,
        "--json"@,
        "--model"@,
        model@,
        "--device"@,
        device@,
        "--compute-type"@,
        compute_type@,
        "--language"@,
        language@,
    ]);
    r
}

/// What a faster-whisper reply gives: its `result.text` (empty when absent)
/// when `ok` is true; else its `error.message`, or a general failure.
pub open spec fn transcript_reply(value: JsonV) -> Result<Seq<char>, Seq<char>> {
    if bool_field(value, "ok"@) == Some(true) {
        Ok(
            match value.field("result"@) {
                Some(r) => match r.str_field("text"@) {
                    Some(t) => t,
                    None => Seq::empty(),
                },
                None => Seq::empty(),
            },
        )
    } else {
        Err(
            match value.field("error"@) {
                Some(e) => match e.str_field("message"@) {
                    Some(m) => m,
                    None => "faster-whisper transcription failed"@,
                },
                None => "faster-whisper transcription failed"@,
            },
        )
    }
}

/// Reads a faster-whisper reply (see `transcript_reply`).
pub fn transcript_of(value: &Json) -> (r: Result<String, AsrError>)
    ensures
        match transcript_reply(value@) {
            Ok(t) => r matches Ok(s) && s@ == t,
            Err(m) => r matches Err(AsrError::Transcription(s)) && s@ == m,
        },
{
    if bool_of(value.get("ok")) != Some(true) {
        let message: &str = match value.get("error") {
            Some(e) => match e.get_str("message") {
                Some(m) => m.as_str(),
                None => "faster-whisper transcription failed",
            },
            None => "faster-whisper transcription failed",
        };
        return Err(AsrError::Transcription(String::from_str(message)));
    }
    match value.get("result") {
        Some(res) => match res.get_str("text") {
            Some(t) => Ok(t.clone()),
            None => Ok(String::new()),
        },
        None => Ok(String::new()),
    }
}

/// The arguments of a whisper-cli run: model, audio file, language, and no
/// timestamps.
pub fn engine_args(model: &str, wav: &str, language: &str) -> (r: Vec<String>)
    ensures
        crate::text::string_views(r@) == seq!["-m"@, model@, "-f"@, wav@, "-l"@, language@, "-nt"@],
{
    let r = vec![
        String::from_str("-m"),
        String::from_str(model),
        String::from_str("-f"),
        String::from_str(wav),
        String::from_str("-l"),
        String::from_str(language),
        String::from_str("-nt"),
    ];
    assert(crate::text::string_views(r@) =~= seq!["-m"@, model@, "-f"@, wav@, "-l"@, language@, "-nt"@]);
    r
}

/// A line of whisper-cli output as the transcript keeps it: trimmed; blank
/// lines and `whisper_`/`ggml_` log lines dropped; a line opening with a
/// bracket token (`[_BEG_]`, `[BLANK_AUDIO]`) keeps only what follows the
/// token, and is dropped when nothing does.
pub open spec fn clean_line(l: Seq<char>) -> Option<Seq<char>> {
    let t = trim(l, CharClass::Whitespace);
    if t.len() == 0 {
        None
    } else if starts_with(t, "whisper_"@) || starts_with(t, "ggml_"@) {
        None
    } else if t[0] == '[' {
        let after = trim(
            trim_start(trim_start(t, CharClass::NotCloseBracket), CharClass::CloseBracket),
            CharClass::Whitespace,
        );
        if after.len() == 0 {
            None
        } else {
            Some(after)
        }
    } else {
        Some(t)
    }
}

/// The lines kept, cleaned, in order.
pub open spec fn kept_lines(ls: Seq<Seq<char>>) -> Seq<Seq<char>>
    decreases ls.len(),
{
    if ls.len() == 0 {
        Seq::empty()
    } else {
        let pre = kept_lines(ls.drop_last());
        match clean_line(ls.last()) {
            Some(c) => pre.push(c),
            None => pre,
        }
    }
}

/// The transcript in whisper-cli's output: from standard output, or from
/// standard error when standard output is blank; its kept lines joined by
/// spaces.
pub open spec fn whisper_transcript(stdout: Seq<char>, stderr: Seq<char>) -> Seq<char> {
    let source = if trim(stdout, CharClass::Whitespace).len() > 0 {
        stdout
    } else {
        stderr
    };
    join_text(kept_lines(lines(source)), " "@)
}

fn clean_line_exec(l: &[char]) -> (r: Option<Vec<char>>)
    ensures
        match clean_line(l@) {
            Some(c) => r is Some && r.unwrap()@ == c,
            None => r is None,
        },
{
    let t = trim_chars(l, CharClass::Whitespace);
    if t.len() == 0 {
        return None;
    }
    if starts_with_chars(t.as_slice(), chars_of("whisper_").as_slice()) || starts_with_chars(
        t.as_slice(),
        chars_of("ggml_").as_slice(),
    ) {
        return None;
    }
    if t[0] == '[' {
        let a = trim_start_chars(t.as_slice(), CharClass::NotCloseBracket);
        let b = trim_start_chars(a.as_slice(), CharClass::CloseBracket);
        let c = trim_chars(b.as_slice(), CharClass::Whitespace);
        if c.len() == 0 {
            None
        } else {
            Some(c)
        }
    } else {
        Some(t)
    }
}

/// The transcript in whisper-cli's output (see `whisper_transcript`).
pub fn whisper_text(stdout: &str, stderr: &str) -> (r: String)
    ensures
        r@ == whisper_transcript(stdout@, stderr@),
{
    let out = chars_of(stdout);
    let t = trim_chars(out.as_slice(), CharClass::Whitespace);
    let source = if t.len() > 0 {
        out
    } else {
        chars_of(stderr)
    };
    let ls = lines_chars(source.as_slice());
    let ghost all = views(ls@);
    let mut kept: Vec<Vec<char>> = Vec::new();
    let n = ls.len();
    for i in 0..n
        invariant
            n == ls@.len(),
            all == views(ls@),
            views(kept@) == kept_lines(all.take(i as int)),
    {
        assert(all.take(i + 1).drop_last() == all.take(i as int));
        assert(all.take(i + 1).last() == ls@[i as int]@);
        match clean_line_exec(ls[i].as_slice()) {
            Some(c) => {
                kept.push(c);
                assert(views(kept@) == views(kept@).drop_last().push(c@));
            },
            None => {},
        }
    }
    assert(all.take(n as int) == all);
    let sp = chars_of(" ");
    let j = join_chars(&kept, sp.as_slice());
    string_of(j.as_slice())
}

/// The temporary audio file a transcription writes: `vmh-<pid>.wav` for
/// whisper.cpp, `vmh-fw-<pid>.wav` for faster-whisper.
pub fn wav_file_name(pid: u32, faster_whisper: bool) -> (r: String)
    ensures
        r@ == (if faster_whisper {
            "vmh-fw-"@
        } else {
            "vmh-"@
        }) + crate::platform::decimal(pid as nat) + ".wav"@,
{
    let n = crate::platform::u64_to_decimal(pid as u64);
    let prefix = if faster_whisper {
        "vmh-fw-"
    } else {
        "vmh-"
    };
    crate::text::concat3(prefix, n.as_str(), ".wav")
}

/// Where the faster-whisper sidecar script may be, in order: next to the
/// program, then in the source tree.
pub fn sidecar_candidates(exe_dir: &str, manifest_dir: &str, os: TargetOs) -> (r: Vec<String>)
    ensures
        crate::text::string_views(r@) == seq![
            join_path(os, join_path(os, exe_dir@, "sidecars"@), "voice_mcp_asr_sidecar.py"@),
            join_path(os, join_path(os, manifest_dir@, "sidecars"@), "voice_mcp_asr_sidecar.py"@),
        ],
{
    let r = vec![
        join3(os, exe_dir, "sidecars", "voice_mcp_asr_sidecar.py"),
        join3(os, manifest_dir, "sidecars", "voice_mcp_asr_sidecar.py"),
    ];
    assert(crate::text::string_views(r@) =~= seq![
        join_path(os, join_path(os, exe_dir@, "sidecars"@), "voice_mcp_asr_sidecar.py"@),
        join_path(os, join_path(os, manifest_dir@, "sidecars"@), "voice_mcp_asr_sidecar.py"@),
    ]);
    r
}

} // verus!
