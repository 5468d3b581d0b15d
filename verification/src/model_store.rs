use vstd::prelude::*;

use sha2::Digest;

use crate::paths::{join, join_path, path_key, same_path};
use crate::platform::{hex_digits, TargetOs};
use crate::text::{
    chars_of, contains, contains_chars, ends_with, ends_with_str, lower, lower_chars, split,
    split_chars, str_eq, string_of, string_views, CharClass,
};

verus! {

/// Where the whisper.cpp models are downloaded from.
pub const HF_BASE: &'static str = "https://huggingface.co/ggerganov/whisper.cpp/resolve/main";

/// The CPU build of the whisper.cpp engine for Windows.
pub const CPU_ENGINE_URL: &'static str = "https://github.com/ggml-org/whisper.cpp/releases/download/v1.8.4/whisper-bin-x64.zip";

/// The CUDA build of the whisper.cpp engine for Windows.
pub const CUDA_ENGINE_URL: &'static str = "https://github.com/ggml-org/whisper.cpp/releases/download/v1.8.4/whisper-cublas-12.4.0-bin-x64.zip";

/// A known model: file name, display name, description, approximate size,
/// whether it is recommended, and its SHA-256 when known.
#[derive(Debug, Clone)]
pub struct ModelInfo {
    pub name: &'static str,
    pub display_name: &'static str,
    pub description: &'static str,
    pub size_bytes: u64,
    pub recommended: bool,
    pub sha256: Option<&'static str>,
}

/// The known models, in the order offered: file name, display name,
/// description, size, recommended. None has a SHA-256 recorded yet.
pub open spec fn model_table() -> Seq<(Seq<char>, Seq<char>, Seq<char>, u64, bool)> {
    seq![
        ("ggml-tiny.en.bin"@, "Tiny English"@, "Smallest English-only model. Fast, lowest accuracy."@, 77_704_715u64, false),
        ("ggml-base.en.bin"@, "Base English"@, "Good starter model for older CPUs. Fast, basic accuracy."@, 147_964_211u64, false),
        ("ggml-small.en.bin"@, "Small English"@, "Balanced English-only model. Better accuracy without a huge download."@, 487_601_967u64, false),
        ("ggml-medium.en.bin"@, "Medium English"@, "Strong English-only accuracy. Larger and slower than Small."@, 1_533_763_179u64, false),
        ("ggml-large-v3-turbo-q5_0.bin"@, "Large v3 Turbo Q5"@, "Recommended. Fast Turbo model with a smaller download and strong accuracy."@, 574_000_000u64, true),
        ("ggml-large-v3-turbo-q8_0.bin"@, "Large v3 Turbo Q8"@, "Higher-quality Turbo quantization. Bigger download than Q5."@, 874_000_000u64, false),
        ("ggml-large-v3-turbo.bin"@, "Large v3 Turbo"@, "Full Turbo model. Best Turbo quality, largest Turbo download."@, 1_620_000_000u64, false),
        ("ggml-large-v3-q5_0.bin"@, "Large v3 Q5"@, "High-accuracy non-Turbo model. Slower than Turbo."@, 1_180_000_000u64, false),
        ("ggml-large-v3.bin"@, "Large v3"@, "Full large model. Highest accuracy, slowest and biggest download."@, 3_100_000_000u64, false),
    ]
}

/// The offered models: nine, with distinct file names, and exactly one of
/// them recommended, the Large v3 Turbo Q5 model.
pub proof fn law_model_table_shape()
    ensures
        model_table().len() == 9,
        forall|i: int, j: int|
            0 <= i < j < model_table().len() ==> #[trigger] model_table()[i].0 != #[trigger] model_table()[j].0,
        forall|i: int| 0 <= i < model_table().len() ==> (#[trigger] model_table()[i].4 <==> i == 4),
        model_table()[4].0 == "ggml-large-v3-turbo-q5_0.bin"@,
{
    reveal_strlit("ggml-tiny.en.bin");
    reveal_strlit("ggml-base.en.bin");
    reveal_strlit("ggml-small.en.bin");
    reveal_strlit("ggml-medium.en.bin");
    reveal_strlit("ggml-large-v3-turbo-q5_0.bin");
    reveal_strlit("ggml-large-v3-turbo-q8_0.bin");
    reveal_strlit("ggml-large-v3-turbo.bin");
    reveal_strlit("ggml-large-v3-q5_0.bin");
    reveal_strlit("ggml-large-v3.bin");
    let t = model_table();
    assert forall|i: int, j: int| 0 <= i < j < t.len() implies #[trigger] t[i].0 != #[trigger] t[j].0 by {
        if t[i].0.len() == t[j].0.len() {
            if i < 4 {
                assert(t[i].0[5] != t[j].0[5]);
            } else {
                assert(t[i].0[21] != t[j].0[21]);
            }
        }
    }
}

/// The model is row `row` of the table.
pub open spec fn is_row(m: ModelInfo, row: (Seq<char>, Seq<char>, Seq<char>, u64, bool)) -> bool {
    m.name@ == row.0 && m.display_name@ == row.1 && m.description@ == row.2 && m.size_bytes == row.3
        && m.recommended == row.4 && m.sha256 is None
}

fn info(
    name: &'static str,
    display_name: &'static str,
    description: &'static str,
    size_bytes: u64,
    recommended: bool,
) -> (r: ModelInfo)
    ensures
        is_row(r, (name@, display_name@, description@, size_bytes, recommended)),
{
    ModelInfo { name, display_name, description, size_bytes, recommended, sha256: None }
}

/// The known models (see `model_table`).
pub fn models() -> (r: Vec<ModelInfo>)
    ensures
        r@.len() == model_table().len(),
        forall|i: int| 0 <= i < r@.len() ==> #[trigger] is_row(r@[i], model_table()[i]),
{
    let r = vec![
        info("ggml-tiny.en.bin", "Tiny English", "Smallest English-only model. Fast, lowest accuracy.", 77_704_715, false),
        info("ggml-base.en.bin", "Base English", "Good starter model for older CPUs. Fast, basic accuracy.", 147_964_211, false),
        info("ggml-small.en.bin", "Small English", "Balanced English-only model. Better accuracy without a huge download.", 487_601_967, false),
        info("ggml-medium.en.bin", "Medium English", "Strong English-only accuracy. Larger and slower than Small.", 1_533_763_179, false),
        info("ggml-large-v3-turbo-q5_0.bin", "Large v3 Turbo Q5", "Recommended. Fast Turbo model with a smaller download and strong accuracy.", 574_000_000, true),
        info("ggml-large-v3-turbo-q8_0.bin", "Large v3 Turbo Q8", "Higher-quality Turbo quantization. Bigger download than Q5.", 874_000_000, false),
        info("ggml-large-v3-turbo.bin", "Large v3 Turbo", "Full Turbo model. Best Turbo quality, largest Turbo download.", 1_620_000_000, false),
        info("ggml-large-v3-q5_0.bin", "Large v3 Q5", "High-accuracy non-Turbo model. Slower than Turbo.", 1_180_000_000, false),
        info("ggml-large-v3.bin", "Large v3", "Full large model. Highest accuracy, slowest and biggest download.", 3_100_000_000, false),
    ];
    assert forall|i: int| 0 <= i < r@.len() implies #[trigger] is_row(r@[i], model_table()[i]) by {
        assert(0 <= i < 9);
    }
    r
}

/// Where a model file lives: the cache folder joined with its name.
pub fn model_path(cache_dir: &str, name: &str, os: TargetOs) -> (r: String)
    ensures
        r@ == join_path(os, cache_dir@, name@),
{
    join(os, cache_dir, name)
}

/// Where each known model would live, in table order.
pub fn model_paths(cache_dir: &str, os: TargetOs) -> (r: Vec<String>)
    ensures
        r@.len() == model_table().len(),
        forall|i: int| 0 <= i < r@.len() ==> #[trigger] r@[i]@ == join_path(os, cache_dir@, model_table()[i].0),
{
    let ms = models();
    let mut r: Vec<String> = Vec::new();
    let n = ms.len();
    for i in 0..n
        invariant
            n == ms@.len() == model_table().len(),
            forall|k: int| 0 <= k < n ==> #[trigger] is_row(ms@[k], model_table()[k]),
            r@.len() == i,
            forall|k: int| 0 <= k < i ==> #[trigger] r@[k]@ == join_path(os, cache_dir@, model_table()[k].0),
    {
        assert(is_row(ms@[i as int], model_table()[i as int]));
        r.push(join(os, cache_dir, ms[i].name));
    }
    r
}

/// A model as the settings window lists it.
#[derive(Debug, Clone)]
pub struct AvailableModel {
    pub name: String,
    pub display_name: String,
    pub description: String,
    pub downloaded: bool,
    pub size_bytes: u64,
    pub recommended: bool,
}

/// The known models with whether each is downloaded (`downloaded[i]` tells
/// whether the file at `model_paths(..)[i]` exists).
pub fn list_models(downloaded: &[bool]) -> (r: Vec<AvailableModel>)
    requires
        downloaded@.len() == model_table().len(),
    ensures
        r@.len() == model_table().len(),
        forall|i: int|
            0 <= i < r@.len() ==> {
                let m = #[trigger] r@[i];
                let row = model_table()[i];
                &&& m.name@ == row.0
                &&& m.display_name@ == row.1
                &&& m.description@ == row.2
                &&& m.size_bytes == row.3
                &&& m.recommended == row.4
                &&& m.downloaded == downloaded@[i]
            },
{
    let ms = models();
    let mut r: Vec<AvailableModel> = Vec::new();
    let n = ms.len();
    for i in 0..n
        invariant
            n == ms@.len() == model_table().len() == downloaded@.len(),
            forall|k: int| 0 <= k < n ==> #[trigger] is_row(ms@[k], model_table()[k]),
            r@.len() == i,
            forall|k: int|
                0 <= k < i ==> {
                    let m = #[trigger] r@[k];
                    let row = model_table()[k];
                    &&& m.name@ == row.0
                    &&& m.display_name@ == row.1
                    &&& m.description@ == row.2
                    &&& m.size_bytes == row.3
                    &&& m.recommended == row.4
                    &&& m.downloaded == downloaded@[k]
                },
    {
        assert(is_row(ms@[i as int], model_table()[i as int]));
        let m = &ms[i];
        r.push(
            AvailableModel {
                name: String::from_str(m.name),
                display_name: String::from_str(m.display_name),
                description: String::from_str(m.description),
                downloaded: downloaded[i],
                size_bytes: m.size_bytes,
                recommended: m.recommended,
            },
        );
    }
    r
}

/// Why a download or an engine lookup failed.
#[derive(Debug)]
pub enum StoreError {
    /// The model (named) is not a known one.
    UnknownModel(String),
    /// The file's SHA-256 differs: the expected and the actual digest.
    Sha256Mismatch(String, String),
    /// No engine was bundled with the macOS build.
    NotBundled,
    /// The engine archive held no whisper-cli.
    BinaryNotInZip,
    /// A request or a file operation failed (the message says how).
    Failed(String),
}

impl StoreError {
    /// The message shown for the error.
    pub open spec fn describe(self) -> Seq<char> {
        match self {
            StoreError::UnknownModel(n) => "unknown model: "@ + n@,
            StoreError::Sha256Mismatch(e, a) => "SHA-256 mismatch: expected "@ + e@ + ", got "@ + a@,
            StoreError::NotBundled => "macOS whisper-cli engine was not bundled. Rebuild on macOS with cmake installed: brew install cmake && npm run tauri build"@,
            StoreError::BinaryNotInZip => "whisper-cli binary not found inside the downloaded zip"@,
            StoreError::Failed(m) => m@,
        }
    }

    /// The message shown for the error.
    pub fn message(&self) -> (r: String)
        ensures
            r@ == self.describe(),
    {
        match self {
            StoreError::UnknownModel(n) => crate::text::concat2("unknown model: ", n.as_str()),
            StoreError::Sha256Mismatch(e, a) => {
                let mut m = crate::text::concat3("SHA-256 mismatch: expected ", e.as_str(), ", got ");
                m.append(a.as_str());
                m
            },
            StoreError::NotBundled => String::from_str(
                "macOS whisper-cli engine was not bundled. Rebuild on macOS with cmake installed: brew install cmake && npm run tauri build",
            ),
            StoreError::BinaryNotInZip => String::from_str("whisper-cli binary not found inside the downloaded zip"),
            StoreError::Failed(m) => m.clone(),
        }
    }
}

/// How a model is downloaded: into a temporary file next to its place, from
/// the model host; its size when the server gives none, and its SHA-256 when
/// known.
#[derive(Debug, Clone)]
pub struct DownloadPlan {
    pub dest: String,
    pub tmp: String,
    pub url: String,
    pub size_bytes: u64,
    pub sha256: Option<&'static str>,
}

/// The plan for downloading a model; unknown models are refused.
pub fn download_plan(cache_dir: &str, model_name: &str, os: TargetOs) -> (r: Result<DownloadPlan, StoreError>)
    ensures
        !(exists|i: int| 0 <= i < model_table().len() && model_table()[i].0 == model_name@) ==> (r matches Err(
            StoreError::UnknownModel(n),
        ) && n@ == model_name@),
        (exists|i: int| 0 <= i < model_table().len() && model_table()[i].0 == model_name@) ==> (r matches Ok(p) && p.dest@
            == join_path(os, cache_dir@, model_name@) && p.tmp@ == join_path(os, cache_dir@, model_name@ + ".tmp"@)
            && p.url@ == HF_BASE@ + "/"@ + model_name@ && p.sha256 is None && exists|i: int|
            0 <= i < model_table().len() && model_table()[i].0 == model_name@ && model_table()[i].3 == p.size_bytes),
{
    let ms = models();
    let n = ms.len();
    let mut found: Option<usize> = None;
    for i in 0..n
        invariant
            n == ms@.len() == model_table().len(),
            forall|k: int| 0 <= k < n ==> #[trigger] is_row(ms@[k], model_table()[k]),
            found matches Some(k) ==> k < n && model_table()[k as int].0 == model_name@,
            found is None ==> forall|k: int| 0 <= k < i ==> model_table()[k].0 != model_name@,
    {
        if found.is_none() {
            assert(is_row(ms@[i as int], model_table()[i as int]));
            if str_eq(ms[i].name, model_name) {
                found = Some(i);
            }
        }
    }
    match found {
        None => Err(StoreError::UnknownModel(String::from_str(model_name))),
        Some(k) => {
            assert(is_row(ms@[k as int], model_table()[k as int]));
            let m = &ms[k];
            let tmp_name = crate::text::concat2(model_name, ".tmp");
            Ok(
                DownloadPlan {
                    dest: join(os, cache_dir, model_name),
                    tmp: join(os, cache_dir, tmp_name.as_str()),
                    url: crate::text::concat3(HF_BASE, "/", model_name),
                    size_bytes: m.size_bytes,
                    sha256: m.sha256,
                },
            )
        },
    }
}

/// The size a download's progress is measured against: the server's length,
/// else the known size.
pub fn progress_total(content_length: Option<u64>, fallback: u64) -> (r: u64)
    ensures
        r == match content_length {
            Some(n) => n,
            None => fallback,
        },
{
    match content_length {
        Some(n) => n,
        None => fallback,
    }
}

/// The SHA-256 digest of some bytes.
pub uninterp spec fn sha256_of(data: Seq<u8>) -> Seq<u8>;

/// `sha2::Sha256::digest`. Trusted: the result is `sha256_of` the data, 32
/// bytes long. The hash itself is not written out here.
#[verifier::external_body]
fn sha256_digest(data: &[u8]) -> (r: Vec<u8>)
    ensures
        r@ == sha256_of(data@),
        r@.len() == 32,
{
    sha2::Sha256::digest(data).to_vec()
}

/// Lower-case hexadecimal, two digits per byte, in order.
pub open spec fn hex_of(bytes: Seq<u8>) -> Seq<char>
    decreases bytes.len(),
{
    if bytes.len() == 0 {
        Seq::empty()
    } else {
        hex_of(bytes.drop_last()) + hex_digits(bytes.last() as nat, 2)
    }
}

/// `hex::encode`. Trusted: the result is each byte as two lower-case
/// hexadecimal digits, in order, as the crate documents.
#[verifier::external_body]
fn hex_encode(bytes: &[u8]) -> (r: String)
    ensures
        r@ == hex_of(bytes@),
{
    hex::encode(bytes)
}

/// The SHA-256 of some bytes in lower-case hexadecimal.
pub fn sha256_hex(data: &[u8]) -> (r: String)
    ensures
        r@ == hex_of(sha256_of(data@)),
        r@.len() == 64,
{
    let d = sha256_digest(data);
    proof {
        lemma_hex_len(d@);
    }
    hex_encode(d.as_slice())
}

proof fn lemma_hex_len(b: Seq<u8>)
    ensures
        hex_of(b).len() == 2 * b.len(),
    decreases b.len(),
{
    if b.len() > 0 {
        lemma_hex_len(b.drop_last());
        lemma_hex_digits_len(b.last() as nat, 2);
    }
}

proof fn lemma_hex_digits_len(n: nat, k: nat)
    ensures
        hex_digits(n, k).len() == k,
    decreases k,
{
    if k > 0 {
        lemma_hex_digits_len(n / 16, (k - 1) as nat);
    }
}

/// Checks downloaded bytes against the expected SHA-256 (lower-case hex).
pub fn verify_sha256(data: &[u8], expected: &str) -> (r: Result<(), StoreError>)
    ensures
        hex_of(sha256_of(data@)) == expected@ ==> r is Ok,
        hex_of(sha256_of(data@)) != expected@ ==> (r matches Err(StoreError::Sha256Mismatch(e, a)) && e@ == expected@
            && a@ == hex_of(sha256_of(data@))),
{
    let actual = sha256_hex(data);
    if str_eq(actual.as_str(), expected) {
        Ok(())
    } else {
        Err(StoreError::Sha256Mismatch(String::from_str(expected), actual))
    }
}

/// The kinds of whisper.cpp engine: the CPU and CUDA builds, the build
/// bundled on macOS, and an engine left in the cache folder by older versions.
#[derive(Debug, Clone, Copy, PartialEq, Eq, Structural)]
pub enum EngineKind {
    Cpu,
    Cuda,
    Macos,
    Legacy,
}

/// The label of an engine kind.
pub open spec fn kind_label(kind: EngineKind) -> Seq<char> {
    match kind {
        EngineKind::Cpu => "cpu"@,
        EngineKind::Cuda => "cuda"@,
        EngineKind::Macos => "metal"@,
        EngineKind::Legacy => "legacy"@,
    }
}

impl EngineKind {
    /// The label of an engine kind: `cpu`, `cuda`, `metal` or `legacy`.
    pub fn label(self) -> (r: &'static str)
        ensures
            r@ == kind_label(self),
    {
        match self {
            EngineKind::Cpu => "cpu",
            EngineKind::Cuda => "cuda",
            EngineKind::Macos => "metal",
            EngineKind::Legacy => "legacy",
        }
    }
}

/// The engine program's file name.
pub open spec fn engine_binary(os: TargetOs) -> Seq<char> {
    if os == TargetOs::Windows {
        "whisper-cli.exe"@
    } else {
        "whisper-cli"@
    }
}

/// The engine server program's file name.
pub open spec fn server_binary(os: TargetOs) -> Seq<char> {
    if os == TargetOs::Windows {
        "whisper-server.exe"@
    } else {
        "whisper-server"@
    }
}

/// The engine program's file name (see `engine_binary`).
pub fn engine_binary_name(os: TargetOs) -> (r: &'static str)
    ensures
        r@ == engine_binary(os),
{
    match os {
        TargetOs::Windows => "whisper-cli.exe",
        TargetOs::Macos => "whisper-cli",
    }
}

/// The engine server program's file name (see `server_binary`).
pub fn server_binary_name(os: TargetOs) -> (r: &'static str)
    ensures
        r@ == server_binary(os),
{
    match os {
        TargetOs::Windows => "whisper-server.exe",
        TargetOs::Macos => "whisper-server",
    }
}

/// The folder of an engine kind: `engines/<label>` in the cache folder.
pub open spec fn engine_dir(os: TargetOs, cache_dir: Seq<char>, kind: EngineKind) -> Seq<char> {
    join_path(os, join_path(os, cache_dir, "engines"@), kind_label(kind))
}

/// Where an engine kind's program lives: a legacy engine directly in the
/// cache folder, the others in their kind's folder.
pub open spec fn engine_path(os: TargetOs, cache_dir: Seq<char>, kind: EngineKind) -> Seq<char> {
    if kind == EngineKind::Legacy {
        join_path(os, cache_dir, engine_binary(os))
    } else {
        join_path(os, engine_dir(os, cache_dir, kind), engine_binary(os))
    }
}

/// The folder of an engine kind (see `engine_dir`).
pub fn engine_dir_for_kind(cache_dir: &str, kind: EngineKind, os: TargetOs) -> (r: String)
    ensures
        r@ == engine_dir(os, cache_dir@, kind),
{
    let e = join(os, cache_dir, "engines");
    join(os, e.as_str(), kind.label())
}

/// Where an engine kind's program lives (see `engine_path`).
pub fn engine_path_for_kind(cache_dir: &str, kind: EngineKind, os: TargetOs) -> (r: String)
    ensures
        r@ == engine_path(os, cache_dir@, kind),
{
    if kind == EngineKind::Legacy {
        return join(os, cache_dir, engine_binary_name(os));
    }
    let d = engine_dir_for_kind(cache_dir, kind, os);
    join(os, d.as_str(), engine_binary_name(os))
}

/// Where a downloadable engine kind comes from.
pub fn engine_url(kind: EngineKind) -> (r: &'static str)
    requires
        kind == EngineKind::Cpu || kind == EngineKind::Cuda,
    ensures
        kind == EngineKind::Cuda ==> r@ == CUDA_ENGINE_URL@,
        kind == EngineKind::Cpu ==> r@ == CPU_ENGINE_URL@,
{
    match kind {
        EngineKind::Cuda => CUDA_ENGINE_URL,
        _ => CPU_ENGINE_URL,
    }
}

/// The engine kind preferred: on Windows CUDA with an NVIDIA GPU, else CPU;
/// on macOS the bundled build.
pub open spec fn preferred_kind(os: TargetOs, gpu: bool) -> EngineKind {
    if os == TargetOs::Macos {
        EngineKind::Macos
    } else if gpu {
        EngineKind::Cuda
    } else {
        EngineKind::Cpu
    }
}

/// The engine kind preferred (see `preferred_kind`).
pub fn preferred_engine_kind(os: TargetOs, gpu: bool) -> (r: EngineKind)
    ensures
        r == preferred_kind(os, gpu),
{
    match os {
        TargetOs::Macos => EngineKind::Macos,
        TargetOs::Windows => if gpu {
            EngineKind::Cuda
        } else {
            EngineKind::Cpu
        },
    }
}

/// The engine kind used when the preferred one fails to download: CPU.
pub fn fallback_engine_kind() -> (r: EngineKind)
    ensures
        r == EngineKind::Cpu,
{
    EngineKind::Cpu
}

/// Whether a GPU is there to use: on Windows when `nvidia-smi` or WMIC finds
/// an NVIDIA GPU; always on macOS.
pub fn gpu_detected(os: TargetOs, nvidia_smi: bool, wmic: bool) -> (r: bool)
    ensures
        os == TargetOs::Macos ==> r,
        os == TargetOs::Windows ==> r == (nvidia_smi || wmic),
{
    match os {
        TargetOs::Macos => true,
        TargetOs::Windows => nvidia_smi || wmic,
    }
}

/// Whether `nvidia-smi -L` found a GPU: it succeeded and printed `GPU`.
pub fn nvidia_smi_detects_gpu(success: bool, stdout: &str) -> (r: bool)
    ensures
        r == (success && contains(stdout@, "GPU"@)),
{
    success && crate::text::contains_str(stdout, "GPU")
}

/// Whether WMIC's list of video controllers names NVIDIA (in any case).
pub fn wmic_detects_nvidia_gpu(success: bool, stdout: &str) -> (r: bool)
    ensures
        r == (success && contains(lower(stdout@), "nvidia"@)),
{
    if !success {
        return false;
    }
    let v = chars_of(stdout);
    let l = lower_chars(v.as_slice());
    contains_chars(l.as_slice(), chars_of("nvidia").as_slice())
}

/// The engine kinds looked for, in order: the preferred one, then on Windows
/// CPU after CUDA, then the legacy engine.
pub open spec fn candidate_kinds(os: TargetOs, gpu: bool) -> Seq<EngineKind> {
    let p = preferred_kind(os, gpu);
    if os == TargetOs::Windows && p == EngineKind::Cuda {
        seq![p, EngineKind::Cpu, EngineKind::Legacy]
    } else {
        seq![p, EngineKind::Legacy]
    }
}

/// The places an engine may be, in order: each candidate kind's path, then on
/// macOS the bundled programs (`bundled`).
pub open spec fn engine_places(cache_dir: Seq<char>, os: TargetOs, gpu: bool, bundled: Seq<Seq<char>>) -> Seq<
    (EngineKind, Seq<char>),
> {
    candidate_kinds(os, gpu).map_values(|k: EngineKind| (k, engine_path(os, cache_dir, k))) + if os
        == TargetOs::Macos {
        bundled.map_values(|b: Seq<char>| (EngineKind::Macos, b))
    } else {
        Seq::empty()
    }
}

/// A list of places viewed as plain values.
pub open spec fn place_views(v: Seq<(EngineKind, String)>) -> Seq<(EngineKind, Seq<char>)> {
    v.map_values(|p: (EngineKind, String)| (p.0, p.1@))
}

/// The places an engine may be (see `engine_places`).
pub fn engine_paths(cache_dir: &str, os: TargetOs, gpu: bool, bundled: &[String]) -> (r: Vec<(EngineKind, String)>)
    ensures
        place_views(r@) == engine_places(cache_dir@, os, gpu, string_views(bundled@)),
{
    let p = preferred_engine_kind(os, gpu);
    let mut kinds: Vec<EngineKind> = vec![p];
    if os == TargetOs::Windows && p == EngineKind::Cuda {
        kinds.push(EngineKind::Cpu);
    }
    kinds.push(EngineKind::Legacy);
    assert(kinds@ == candidate_kinds(os, gpu));
    let mut r: Vec<(EngineKind, String)> = Vec::new();
    let n = kinds.len();
    for i in 0..n
        invariant
            n == kinds@.len(),
            kinds@ == candidate_kinds(os, gpu),
            place_views(r@) == kinds@.take(i as int).map_values(|k: EngineKind| (k, engine_path(os, cache_dir@, k))),
    {
        let k = kinds[i];
        let path = engine_path_for_kind(cache_dir, k, os);
        r.push((k, path));
        assert(kinds@.take(i + 1) == kinds@.take(i as int).push(k));
        assert(kinds@.take(i + 1).map_values(|k: EngineKind| (k, engine_path(os, cache_dir@, k))) =~= kinds@.take(
            i as int,
        ).map_values(|k: EngineKind| (k, engine_path(os, cache_dir@, k))).push((k, engine_path(os, cache_dir@, k))));
        assert(place_views(r@) =~= place_views(r@).drop_last().push((k, path@)));
    }
    assert(kinds@.take(n as int) == kinds@);
    let ghost first = place_views(r@);
    if os == TargetOs::Macos {
        let m = bundled.len();
        for j in 0..m
            invariant
                m == bundled@.len(),
                place_views(r@) == first + string_views(bundled@).take(j as int).map_values(
                    |b: Seq<char>| (EngineKind::Macos, b),
                ),
        {
            let ghost prev = string_views(bundled@).take(j as int).map_values(|b: Seq<char>| (EngineKind::Macos, b));
            r.push((EngineKind::Macos, bundled[j].clone()));
            assert((first + prev).push((EngineKind::Macos, bundled@[j as int]@)) =~= first + prev.push(
                (EngineKind::Macos, bundled@[j as int]@),
            ));
            assert(string_views(bundled@).take(j + 1) == string_views(bundled@).take(j as int).push(bundled@[j as int]@));
            assert(string_views(bundled@).take(j + 1).map_values(|b: Seq<char>| (EngineKind::Macos, b))
                =~= string_views(bundled@).take(j as int).map_values(|b: Seq<char>| (EngineKind::Macos, b)).push(
                (EngineKind::Macos, bundled@[j as int]@),
            ));
            assert(place_views(r@) =~= place_views(r@).drop_last().push((EngineKind::Macos, bundled@[j as int]@)));
        }
        assert(string_views(bundled@).take(m as int) == string_views(bundled@));
    } else {
        assert(place_views(r@) =~= first + Seq::<(EngineKind, Seq<char>)>::empty());
    }
    r
}

/// The places that exist, each path once, in order (`exists[i]` tells
/// whether place `i` exists); two places are the same path when their
/// components are (see `path_key`), and the first is kept.
pub open spec fn existing_unique(os: TargetOs, places: Seq<(EngineKind, Seq<char>)>, exists: Seq<bool>) -> Seq<
    (EngineKind, Seq<char>),
>
    decreases places.len(),
{
    if places.len() == 0 {
        Seq::empty()
    } else {
        let pre = existing_unique(os, places.drop_last(), exists.take(places.len() - 1));
        let last = places.last();
        if exists[places.len() - 1] && !(exists|j: int| 0 <= j < pre.len() && path_key(os, pre[j].1) == path_key(os, last.1)) {
            pre.push(last)
        } else {
            pre
        }
    }
}

/// The engines found: the places that exist, without repeating a path.
pub fn select_existing(os: TargetOs, places: &[(EngineKind, String)], exists: &[bool]) -> (r: Vec<(EngineKind, String)>)
    requires
        exists@.len() == places@.len(),
    ensures
        place_views(r@) == existing_unique(os, place_views(places@), exists@),
{
    let ghost all = place_views(places@);
    let mut r: Vec<(EngineKind, String)> = Vec::new();
    let n = places.len();
    for i in 0..n
        invariant
            n == places@.len() == exists@.len(),
            all == place_views(places@),
            place_views(r@) == existing_unique(os, all.take(i as int), exists@.take(i as int)),
    {
        let ghost pre = place_views(r@);
        assert(all.take(i + 1).drop_last() == all.take(i as int));
        assert(exists@.take(i + 1).take(i as int) == exists@.take(i as int));
        assert(all.take(i + 1).last() == (places@[i as int].0, places@[i as int].1@));
        if exists[i] {
            let mut dup = false;
            let m = r.len();
            for j in 0..m
                invariant
                    m == r@.len(),
                    i < n,
                    n == places@.len(),
                    pre == place_views(r@),
                    dup == exists|k: int| 0 <= k < j && path_key(os, pre[k].1) == path_key(os, places@[i as int].1@),
            {
                assert(pre[j as int].1 == r@[j as int].1@);
                if same_path(os, r[j].1.as_str(), places[i].1.as_str()) {
                    dup = true;
                }
            }
            if !dup {
                r.push((places[i].0, places[i].1.clone()));
                assert(place_views(r@) =~= pre.push((places@[i as int].0, places@[i as int].1@)));
            }
        }
    }
    assert(all.take(n as int) == all);
    assert(exists@.take(n as int) == exists@);
    r
}

/// The state of the engines: whether a GPU was found, the preferred kind,
/// the kind in use (the first engine found) and whether there is one.
#[derive(Debug, Clone)]
pub struct EngineStatus {
    pub gpu_detected: bool,
    pub preferred_acceleration: String,
    pub active_acceleration: Option<String>,
    pub engine_downloaded: bool,
}

/// The state of the engines, given the engines found in order.
pub fn engine_status(os: TargetOs, gpu: bool, found: &[(EngineKind, String)]) -> (r: EngineStatus)
    ensures
        r.gpu_detected == gpu,
        r.preferred_acceleration@ == kind_label(preferred_kind(os, gpu)),
        found@.len() == 0 ==> r.active_acceleration is None && !r.engine_downloaded,
        found@.len() > 0 ==> (r.active_acceleration matches Some(a) && a@ == kind_label(found@[0].0)
            && r.engine_downloaded),
{
    let active = if found.len() > 0 {
        Some(String::from_str(found[0].0.label()))
    } else {
        None
    };
    EngineStatus {
        gpu_detected: gpu,
        preferred_acceleration: String::from_str(preferred_engine_kind(os, gpu).label()),
        engine_downloaded: active.is_some(),
        active_acceleration: active,
    }
}

/// The engine in use: the first one found.
pub fn active_engine(found: &[(EngineKind, String)]) -> (r: Option<(EngineKind, String)>)
    ensures
        found@.len() == 0 ==> r is None,
        found@.len() > 0 ==> (r matches Some(e) && e.0 == found@[0].0 && e.1@ == found@[0].1@),
{
    if found.len() > 0 {
        Some((found[0].0, found[0].1.clone()))
    } else {
        None
    }
}

/// `Path::with_file_name` for a path ending in a file name: everything up to
/// its last separator, then `name`.
pub open spec fn with_file_name(os: TargetOs, path: Seq<char>, name: Seq<char>) -> Seq<char> {
    let cls = if os == TargetOs::Windows {
        CharClass::AnySlash
    } else {
        CharClass::Slash
    };
    let last = split(path, cls).last();
    path.take(path.len() - last.len()) + name
}

fn with_file_name_exec(os: TargetOs, path: &str, name: &str) -> (r: String)
    ensures
        r@ == with_file_name(os, path@, name@),
{
    let cls = match os {
        TargetOs::Windows => CharClass::AnySlash,
        TargetOs::Macos => CharClass::Slash,
    };
    let v = chars_of(path);
    let parts = split_chars(v.as_slice(), cls);
    proof {
        crate::text::lemma_split_last_suffix(v@, cls);
    }
    assert(parts@.len() == split(v@, cls).len());
    let last_len = parts[parts.len() - 1].len();
    let keep = v.len() - last_len;
    let mut out = crate::text::slice_chars(v.as_slice(), 0, keep);
    let nv = chars_of(name);
    crate::text::append_chars(&mut out, nv.as_slice());
    string_of(out.as_slice())
}

/// Where the engine servers may be, in order: next to each engine found,
/// then on macOS the bundled servers (`bundled_servers`).
pub fn server_paths(found: &[(EngineKind, String)], os: TargetOs, bundled_servers: &[String]) -> (r: Vec<(EngineKind, String)>)
    ensures
        place_views(r@) == servers_beside(place_views(found@), os) + if os == TargetOs::Macos {
            string_views(bundled_servers@).map_values(|b: Seq<char>| (EngineKind::Macos, b))
        } else {
            Seq::empty()
        },
{
    let ghost f = place_views(found@);
    let mut r: Vec<(EngineKind, String)> = Vec::new();
    let n = found.len();
    for i in 0..n
        invariant
            n == found@.len(),
            f == place_views(found@),
            place_views(r@) == f.take(i as int).map_values(
                |p: (EngineKind, Seq<char>)| (p.0, with_file_name(os, p.1, server_binary(os))),
            ),
    {
        let s = with_file_name_exec(os, found[i].1.as_str(), server_binary_name(os));
        r.push((found[i].0, s));
        assert(f.take(i + 1) == f.take(i as int).push(f[i as int]));
        assert(f.take(i + 1).map_values(|p: (EngineKind, Seq<char>)| (p.0, with_file_name(os, p.1, server_binary(os))))
            =~= f.take(i as int).map_values(
            |p: (EngineKind, Seq<char>)| (p.0, with_file_name(os, p.1, server_binary(os))),
        ).push((f[i as int].0, with_file_name(os, f[i as int].1, server_binary(os)))));
        assert(place_views(r@) =~= place_views(r@).drop_last().push((found@[i as int].0, s@)));
    }
    assert(f.take(n as int) == f);
    let ghost first = place_views(r@);
    if os == TargetOs::Macos {
        let m = bundled_servers.len();
        for j in 0..m
            invariant
                m == bundled_servers@.len(),
                place_views(r@) == first + string_views(bundled_servers@).take(j as int).map_values(
                    |b: Seq<char>| (EngineKind::Macos, b),
                ),
        {
            let ghost prev = string_views(bundled_servers@).take(j as int).map_values(
                |b: Seq<char>| (EngineKind::Macos, b),
            );
            r.push((EngineKind::Macos, bundled_servers[j].clone()));
            assert((first + prev).push((EngineKind::Macos, bundled_servers@[j as int]@)) =~= first + prev.push(
                (EngineKind::Macos, bundled_servers@[j as int]@),
            ));
            assert(string_views(bundled_servers@).take(j + 1) == string_views(bundled_servers@).take(j as int).push(
                bundled_servers@[j as int]@,
            ));
            assert(string_views(bundled_servers@).take(j + 1).map_values(|b: Seq<char>| (EngineKind::Macos, b))
                =~= string_views(bundled_servers@).take(j as int).map_values(|b: Seq<char>| (EngineKind::Macos, b)).push(
                (EngineKind::Macos, bundled_servers@[j as int]@),
            ));
            assert(place_views(r@) =~= place_views(r@).drop_last().push((EngineKind::Macos, bundled_servers@[j as int]@)));
        }
        assert(string_views(bundled_servers@).take(m as int) == string_views(bundled_servers@));
    } else {
        assert(place_views(r@) =~= first + Seq::<(EngineKind, Seq<char>)>::empty());
    }
    r
}

/// Where the macOS build bundles a program (`whisper-cli` or
/// `whisper-server`), in order: in the app's resources and next to the
/// program (when its folder is known), then in the source tree.
pub open spec fn bundled_places(exe_dir: Option<Seq<char>>, manifest_dir: Seq<char>, program: Seq<char>) -> Seq<Seq<char>> {
    let os = TargetOs::Macos;
    (match exe_dir {
        Some(d) => seq![
            join_path(os, d, "../Resources/bundled/whisper-macos/"@ + program),
            join_path(os, d, "bundled/whisper-macos/"@ + program),
        ],
        None => Seq::empty(),
    }) + seq![join_path(os, join_path(os, join_path(os, manifest_dir, "bundled"@), "whisper-macos"@), program)]
}

/// Where the macOS build bundles a program (see `bundled_places`).
pub fn bundled_macos_candidates(exe_dir: Option<&str>, manifest_dir: &str, program: &str) -> (r: Vec<String>)
    ensures
        string_views(r@) == bundled_places(
            match exe_dir {
                Some(d) => Some(d@),
                None => None,
            },
            manifest_dir@,
            program@,
        ),
{
    let os = TargetOs::Macos;
    let mut r: Vec<String> = Vec::new();
    match exe_dir {
        Some(d) => {
            let a = crate::text::concat2("../Resources/bundled/whisper-macos/", program);
            r.push(join(os, d, a.as_str()));
            let b = crate::text::concat2("bundled/whisper-macos/", program);
            r.push(join(os, d, b.as_str()));
        },
        None => {},
    }
    let m1 = join(os, manifest_dir, "bundled");
    let m2 = join(os, m1.as_str(), "whisper-macos");
    r.push(join(os, m2.as_str(), program));
    assert(string_views(r@) =~= bundled_places(
        match exe_dir {
            Some(d) => Some(d@),
            None => None,
        },
        manifest_dir@,
        program@,
    ));
    r
}

/// The macOS engine: the first bundled program that exists; refused when none
/// was bundled.
pub fn macos_engine(bundled: &[String], exists: &[bool]) -> (r: Result<String, StoreError>)
    requires
        exists@.len() == bundled@.len(),
    ensures
        (exists|i: int| 0 <= i < exists@.len() && exists@[i]) ==> (r matches Ok(p) && exists|i: int|
            0 <= i < exists@.len() && exists@[i] && p@ == bundled@[i]@ && forall|j: int| 0 <= j < i ==> !exists@[j]),
        !(exists|i: int| 0 <= i < exists@.len() && exists@[i]) ==> r matches Err(StoreError::NotBundled),
{
    let n = bundled.len();
    for i in 0..n
        invariant
            n == bundled@.len() == exists@.len(),
            forall|j: int| 0 <= j < i ==> !exists@[j],
    {
        if exists[i] {
            return Ok(bundled[i].clone());
        }
    }
    Err(StoreError::NotBundled)
}

/// The engine kinds a Windows download tries, in order: CUDA then CPU when a
/// GPU was found, else CPU.
pub fn engine_download_order(gpu: bool) -> (r: Vec<EngineKind>)
    ensures
        gpu ==> r@ == seq![EngineKind::Cuda, EngineKind::Cpu],
        !gpu ==> r@ == seq![EngineKind::Cpu],
{
    let p = preferred_engine_kind(TargetOs::Windows, gpu);
    if p == EngineKind::Cuda {
        vec![EngineKind::Cuda, fallback_engine_kind()]
    } else {
        vec![fallback_engine_kind()]
    }
}

/// How an engine kind is downloaded: its folder, the temporary archive in it,
/// where its program ends up, where it comes from, and the name its progress
/// is reported under.
#[derive(Debug, Clone)]
pub struct EngineDownloadPlan {
    pub out_dir: String,
    pub zip_tmp: String,
    pub dest: String,
    pub url: String,
    pub progress_name: String,
}

/// The plan for downloading a Windows engine kind.
pub fn engine_download_plan(cache_dir: &str, kind: EngineKind, os: TargetOs) -> (r: EngineDownloadPlan)
    requires
        kind == EngineKind::Cpu || kind == EngineKind::Cuda,
    ensures
        r.out_dir@ == engine_dir(os, cache_dir@, kind),
        r.zip_tmp@ == join_path(os, engine_dir(os, cache_dir@, kind), "whisper-engine-"@ + kind_label(kind) + ".zip.tmp"@),
        r.dest@ == engine_path(os, cache_dir@, kind),
        kind == EngineKind::Cuda ==> r.url@ == CUDA_ENGINE_URL@,
        kind == EngineKind::Cpu ==> r.url@ == CPU_ENGINE_URL@,
        r.progress_name@ == "whisper-cli-"@ + kind_label(kind),
{
    let out_dir = engine_dir_for_kind(cache_dir, kind, os);
    let tmp_name = crate::text::concat3("whisper-engine-", kind.label(), ".zip.tmp");
    let zip_tmp = join(os, out_dir.as_str(), tmp_name.as_str());
    EngineDownloadPlan {
        zip_tmp,
        dest: engine_path_for_kind(cache_dir, kind, os),
        url: String::from_str(engine_url(kind)),
        progress_name: crate::text::concat2("whisper-cli-", kind.label()),
        out_dir,
    }
}

/// What an archive entry is extracted as: the program, the server, or a
/// library it needs, by the end of its name.
pub open spec fn entry_kind(name: Seq<char>) -> (bool, bool, bool) {
    (
        ends_with(name, "whisper-cli.exe"@) || ends_with(name, "whisper-cli"@),
        ends_with(name, "whisper-server.exe"@) || ends_with(name, "whisper-server"@),
        ends_with(name, ".dll"@) || ends_with(name, ".dylib"@),
    )
}

/// The last component of an archive entry's name.
pub open spec fn entry_file_name(os: TargetOs, name: Seq<char>) -> Seq<char> {
    split(
        name,
        if os == TargetOs::Windows {
            CharClass::AnySlash
        } else {
            CharClass::Slash
        },
    ).last()
}

/// How an archive entry is handled: extracted under its file name (and
/// whether it is the program itself) when it is the program, the server or a
/// library; else skipped.
pub fn entry_target(entry_name: &str, os: TargetOs) -> (r: Option<(String, bool)>)
    ensures
        ({
            let (cli, server, lib) = entry_kind(entry_name@);
            &&& !(cli || server || lib) ==> r is None
            &&& (cli || server || lib) ==> (r matches Some((f, is_cli)) && f@ == entry_file_name(os, entry_name@)
                && is_cli == cli)
        }),
{
    let is_cli = ends_with_str(entry_name, "whisper-cli.exe") || ends_with_str(entry_name, "whisper-cli");
    let is_server = ends_with_str(entry_name, "whisper-server.exe") || ends_with_str(entry_name, "whisper-server");
    let is_lib = ends_with_str(entry_name, ".dll") || ends_with_str(entry_name, ".dylib");
    if !(is_cli || is_server || is_lib) {
        return None;
    }
    let cls = match os {
        TargetOs::Windows => CharClass::AnySlash,
        TargetOs::Macos => CharClass::Slash,
    };
    let v = chars_of(entry_name);
    let parts = split_chars(v.as_slice(), cls);
    proof {
        crate::text::lemma_split_last_suffix(v@, cls);
    }
    assert(parts@.len() == split(v@, cls).len());
    let last = &parts[parts.len() - 1];
    Some((string_of(last.as_slice()), is_cli))
}

/// After extraction: the archive's entries (by name, in order) must include
/// the whisper-cli program; refused otherwise.
pub fn after_extract(entry_names: &[String]) -> (r: Result<(), StoreError>)
    ensures
        r is Ok <==> exists|i: int| 0 <= i < entry_names@.len() && entry_kind(#[trigger] entry_names@[i]@).0,
        r is Err ==> r matches Err(StoreError::BinaryNotInZip),
{
    let n = entry_names.len();
    for i in 0..n
        invariant
            n == entry_names@.len(),
            forall|k: int| 0 <= k < i ==> !entry_kind(#[trigger] entry_names@[k]@).0,
    {
        let name = entry_names[i].as_str();
        if ends_with_str(name, "whisper-cli.exe") || ends_with_str(name, "whisper-cli") {
            assert(entry_kind(entry_names@[i as int]@).0);
            return Ok(());
        }
    }
    Err(StoreError::BinaryNotInZip)
}

/// The engines found, in order: the places `engine_paths` lists that exist
/// (`exists[i]` tells whether place `i` does), each path once.
pub fn engine_candidates(
    cache_dir: &str,
    os: TargetOs,
    gpu: bool,
    bundled: &[String],
    exists: &[bool],
) -> (r: Vec<(EngineKind, String)>)
    requires
        exists@.len() == engine_places(cache_dir@, os, gpu, string_views(bundled@)).len(),
    ensures
        place_views(r@) == existing_unique(os, engine_places(cache_dir@, os, gpu, string_views(bundled@)), exists@),
{
    let places = engine_paths(cache_dir, os, gpu, bundled);
    assert(places@.len() == place_views(places@).len());
    select_existing(os, places.as_slice(), exists)
}

/// The engine servers found, in order: the places `server_paths` lists that
/// exist (`exists[i]` tells whether place `i` does), each path once.
pub fn server_candidates(
    found: &[(EngineKind, String)],
    os: TargetOs,
    bundled_servers: &[String],
    exists: &[bool],
) -> (r: Vec<(EngineKind, String)>)
    requires
        exists@.len() == found@.len() + (if os == TargetOs::Macos {
            bundled_servers@.len() as int
        } else {
            0int
        }),
    ensures
        place_views(r@) == existing_unique(
            os,
            servers_beside(place_views(found@), os) + if os == TargetOs::Macos {
                string_views(bundled_servers@).map_values(|b: Seq<char>| (EngineKind::Macos, b))
            } else {
                Seq::empty()
            },
            exists@,
        ),
{
    let places = server_paths(found, os, bundled_servers);
    assert(places@.len() == place_views(places@).len());
    select_existing(os, places.as_slice(), exists)
}

/// Whether an engine is installed: some engine was found.
pub fn is_engine_downloaded(found: &[(EngineKind, String)]) -> (r: bool)
    ensures
        r == (found@.len() > 0),
{
    found.len() > 0
}

/// Every engine found exists, and no path is listed twice: no two of them
/// are the same path.
pub proof fn law_candidates_exist_once(os: TargetOs, places: Seq<(EngineKind, Seq<char>)>, exists: Seq<bool>)
    requires
        exists.len() == places.len(),
    ensures
        forall|i: int| 0 <= i < existing_unique(os, places, exists).len() ==> exists|j: int|
            0 <= j < places.len() && exists[j] && places[j] == #[trigger] existing_unique(os, places, exists)[i],
        forall|i: int, k: int|
            0 <= i < k < existing_unique(os, places, exists).len() ==> path_key(
                os,
                #[trigger] existing_unique(os, places, exists)[i].1,
            ) != path_key(os, #[trigger] existing_unique(os, places, exists)[k].1),
    decreases places.len(),
{
    if places.len() > 0 {
        let n = places.len() - 1;
        law_candidates_exist_once(os, places.drop_last(), exists.take(n));
        let pre = existing_unique(os, places.drop_last(), exists.take(n));
        assert forall|i: int| 0 <= i < pre.len() implies exists|j: int|
            0 <= j < places.len() && exists[j] && places[j] == #[trigger] pre[i] by {
            let j = choose|j: int| 0 <= j < places.drop_last().len() && exists.take(n)[j] && places.drop_last()[j] == pre[i];
            assert(places[j] == pre[i]);
        }
    }
}

/// The places that exist, in order, repeats included.
pub open spec fn existing_places(places: Seq<(EngineKind, Seq<char>)>, exists: Seq<bool>) -> Seq<
    (EngineKind, Seq<char>),
>
    decreases places.len(),
{
    if places.len() == 0 {
        Seq::empty()
    } else {
        let pre = existing_places(places.drop_last(), exists.take(places.len() - 1));
        if exists[places.len() - 1] {
            pre.push(places.last())
        } else {
            pre
        }
    }
}

/// When no two places are the same path, keeping each path once changes
/// nothing: the engines found are just the places that exist, in order.
pub proof fn law_distinct_places_are_filtered(os: TargetOs, places: Seq<(EngineKind, Seq<char>)>, exists: Seq<bool>)
    requires
        exists.len() == places.len(),
        forall|i: int, j: int|
            0 <= i < j < places.len() ==> path_key(os, #[trigger] places[i].1) != path_key(os, #[trigger] places[j].1),
    ensures
        existing_unique(os, places, exists) == existing_places(places, exists),
    decreases places.len(),
{
    if places.len() > 0 {
        let n = places.len() - 1;
        let front = places.drop_last();
        law_distinct_places_are_filtered(os, front, exists.take(n));
        law_candidates_exist_once(os, front, exists.take(n));
        let pre = existing_unique(os, front, exists.take(n));
        if exists[n] {
            assert forall|j: int| 0 <= j < pre.len() implies path_key(os, pre[j].1) != path_key(os, places.last().1) by {
                let k = choose|k: int| 0 <= k < front.len() && exists.take(n)[k] && front[k] == #[trigger] pre[j];
                assert(front[k] == places[k]);
                assert(path_key(os, places[k].1) != path_key(os, places[n].1));
            }
        }
    }
}

/// The components an engine kind adds after the cache folder on Windows,
/// given the cache folder's unfinished last piece `open`.
pub open spec fn windows_engine_pieces(open: Seq<char>, kind: EngineKind) -> Seq<Seq<char>> {
    if kind == EngineKind::Legacy {
        seq![open + "whisper-cli.exe"@]
    } else {
        seq![open + "engines"@, kind_label(kind), "whisper-cli.exe"@]
    }
}

proof fn lemma_plain_split(t: Seq<char>)
    requires
        forall|i: int| 0 <= i < t.len() ==> t[i] != '/' && t[i] != '\\',
    ensures
        split(t, CharClass::AnySlash) == seq![t],
{
    assert forall|i: int| 0 <= i < t.len() implies !crate::text::in_class(CharClass::AnySlash, #[trigger] t[i]) by {}
    crate::text::lemma_split_fold_plain(t, CharClass::AnySlash);
}

proof fn lemma_split_after_word(w: Seq<char>, rest: Seq<char>)
    requires
        forall|i: int| 0 <= i < w.len() ==> w[i] != '/' && w[i] != '\\',
    ensures
        split(w.push('\\') + rest, CharClass::AnySlash) == seq![w] + split(rest, CharClass::AnySlash),
{
    let cls = CharClass::AnySlash;
    assert forall|i: int| 0 <= i < w.len() implies !crate::text::in_class(cls, #[trigger] w[i]) by {}
    crate::text::lemma_split_fold_plain(w, cls);
    let a = w.push('\\');
    assert(a.drop_last() =~= w);
    assert(crate::text::split_fold(a, cls) == (seq![w], Seq::<char>::empty()));
    crate::text::lemma_split_concat(a, rest, cls);
    crate::text::lemma_split_last_suffix(rest, cls);
    let sr = split(rest, cls);
    assert(Seq::<char>::empty() + sr[0] =~= sr[0]);
    assert(seq![sr[0]] + sr.skip(1) =~= sr);
    assert(seq![w] + seq![Seq::<char>::empty() + sr[0]] + sr.skip(1) =~= seq![w] + sr);
}

proof fn lemma_windows_engine_key(cache_dir: Seq<char>, kind: EngineKind)
    requires
        kind != EngineKind::Macos,
    ensures
        path_key(TargetOs::Windows, engine_path(TargetOs::Windows, cache_dir, kind)).2 == crate::text::split_fold(
            join_path(TargetOs::Windows, cache_dir, Seq::empty()),
            CharClass::AnySlash,
        ).0.filter(|w: Seq<char>| crate::paths::counts(w)) + windows_engine_pieces(
            crate::text::split_fold(join_path(TargetOs::Windows, cache_dir, Seq::empty()), CharClass::AnySlash).1,
            kind,
        ),
{
    reveal_strlit("whisper-cli.exe");
    reveal_strlit("engines");
    reveal_strlit("cpu");
    reveal_strlit("cuda");
    reveal_strlit(".");
    let os = TargetOs::Windows;
    let cls = CharClass::AnySlash;
    let wc = "whisper-cli.exe"@;
    let base = join_path(os, cache_dir, Seq::empty());
    let sb = crate::text::split_fold(base, cls);
    let pred = |w: Seq<char>| crate::paths::counts(w);
    lemma_plain_split(wc);
    let t = if kind == EngineKind::Legacy {
        wc
    } else {
        "engines"@.push('\\') + (kind_label(kind).push('\\') + wc)
    };
    let path = engine_path(os, cache_dir, kind);
    if kind == EngineKind::Legacy {
        assert(join_path(os, cache_dir, wc) =~= base + wc);
    } else {
        let e = join_path(os, cache_dir, "engines"@);
        assert(e =~= base + "engines"@);
        assert(e.last() == 's');
        let d = join_path(os, e, kind_label(kind));
        assert(d =~= (base + "engines"@).push('\\') + kind_label(kind));
        assert(d.last() == 'u' || d.last() == 'a');
        assert(join_path(os, d, wc) =~= d.push('\\') + wc);
        assert(path =~= base + t);
        lemma_split_after_word(kind_label(kind), wc);
        lemma_split_after_word("engines"@, kind_label(kind).push('\\') + wc);
        assert(split(t, cls) =~= seq!["engines"@, kind_label(kind), wc]);
    }
    assert(path == base + t);
    crate::text::lemma_split_concat(base, t, cls);
    let st = split(t, cls);
    let pieces = seq![sb.1 + st[0]] + st.skip(1);
    assert(pieces =~= windows_engine_pieces(sb.1, kind));
    assert(split(path, cls) =~= sb.0 + pieces);
    Seq::filter_distributes_over_add(sb.0, pieces, pred);
    reveal(Seq::filter);
    assert forall|i: int| 0 <= i < pieces.len() implies pred(#[trigger] pieces[i]) by {
        assert(pieces[i].len() >= 3);
    }
    assert(pieces.filter(pred) =~= pieces) by {
        let p0 = Seq::<Seq<char>>::empty();
        if kind == EngineKind::Legacy {
            assert(pieces =~= p0.push(pieces[0]));
            p0.lemma_filter_push(pieces[0], pred);
        } else {
            assert(pieces =~= p0.push(pieces[0]).push(pieces[1]).push(pieces[2]));
            p0.lemma_filter_push(pieces[0], pred);
            p0.push(pieces[0]).lemma_filter_push(pieces[1], pred);
            p0.push(pieces[0]).push(pieces[1]).lemma_filter_push(pieces[2], pred);
        }
    }
}

/// On Windows the engines found are exactly the candidate places that exist,
/// in order (preferred kind first): no two kinds share a path.
pub proof fn law_windows_candidates_are_filtered(cache_dir: Seq<char>, gpu: bool, bundled: Seq<Seq<char>>, exists: Seq<bool>)
    requires
        exists.len() == engine_places(cache_dir, TargetOs::Windows, gpu, bundled).len(),
    ensures
        existing_unique(TargetOs::Windows, engine_places(cache_dir, TargetOs::Windows, gpu, bundled), exists)
            == existing_places(engine_places(cache_dir, TargetOs::Windows, gpu, bundled), exists),
{
    reveal_strlit("cpu");
    reveal_strlit("cuda");
    let os = TargetOs::Windows;
    let places = engine_places(cache_dir, os, gpu, bundled);
    let kinds = candidate_kinds(os, gpu);
    assert(places =~= kinds.map_values(|k: EngineKind| (k, engine_path(os, cache_dir, k))));
    assert forall|i: int, j: int| 0 <= i < j < places.len() implies path_key(os, #[trigger] places[i].1) != path_key(
        os,
        #[trigger] places[j].1,
    ) by {
        lemma_windows_engine_key(cache_dir, kinds[i]);
        lemma_windows_engine_key(cache_dir, kinds[j]);
        let f = crate::text::split_fold(join_path(os, cache_dir, Seq::empty()), CharClass::AnySlash).0.filter(
            |w: Seq<char>| crate::paths::counts(w),
        );
        let o = crate::text::split_fold(join_path(os, cache_dir, Seq::empty()), CharClass::AnySlash).1;
        let ki = path_key(os, places[i].1).2;
        let kj = path_key(os, places[j].1).2;
        if kinds[i] == EngineKind::Legacy || kinds[j] == EngineKind::Legacy {
            assert(ki.len() != kj.len());
        } else {
            assert(ki[f.len() + 1int] == kind_label(kinds[i]));
            assert(kj[f.len() + 1int] == kind_label(kinds[j]));
            assert(kind_label(kinds[i]).len() != kind_label(kinds[j]).len());
        }
    }
    law_distinct_places_are_filtered(os, places, exists);
}

/// The server beside each engine found: the engine's path with the server's
/// file name.
pub open spec fn servers_beside(found: Seq<(EngineKind, Seq<char>)>, os: TargetOs) -> Seq<(EngineKind, Seq<char>)> {
    found.map_values(|p: (EngineKind, Seq<char>)| (p.0, with_file_name(os, p.1, server_binary(os))))
}

/// On Windows every engine server found is the server program: its path ends
/// with the server's file name (that each exists and none repeats is
/// `law_candidates_exist_once`).
pub proof fn law_windows_servers_are_servers(found: Seq<(EngineKind, Seq<char>)>, exists: Seq<bool>)
    requires
        exists.len() == found.len(),
    ensures
        forall|i: int|
            0 <= i < existing_unique(TargetOs::Windows, servers_beside(found, TargetOs::Windows), exists).len()
                ==> crate::text::ends_with(
                #[trigger] existing_unique(TargetOs::Windows, servers_beside(found, TargetOs::Windows), exists)[i].1,
                server_binary(TargetOs::Windows),
            ),
{
    let places = servers_beside(found, TargetOs::Windows);
    law_candidates_exist_once(TargetOs::Windows, places, exists);
    let r = existing_unique(TargetOs::Windows, places, exists);
    assert forall|i: int| 0 <= i < r.len() implies crate::text::ends_with(#[trigger] r[i].1, server_binary(TargetOs::Windows)) by {
        let j = choose|j: int| 0 <= j < places.len() && exists[j] && places[j] == #[trigger] r[i];
        let f = found[j].1;
        let last = split(f, CharClass::AnySlash).last();
        crate::text::lemma_split_last_suffix(f, CharClass::AnySlash);
        let w = f.take(f.len() - last.len()) + server_binary(TargetOs::Windows);
        assert(places[j].1 == w);
        assert(w.skip(w.len() - server_binary(TargetOs::Windows).len()) =~= server_binary(TargetOs::Windows));
    }
}

} // verus!
