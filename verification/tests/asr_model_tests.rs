use voice_mcp_host::asr::{
    backend_kind, check_preflight, engine_args, engine_path_for,
    normalize_faster_whisper_compute_type, normalize_faster_whisper_device, preflight_args,
    python_candidates, python_exe, sidecar_candidates, transcribe_args, transcript_of, wav_file_name,
    whisper_text, AsrBackend, AsrError, BackendKind, FasterWhisperTranscriber, LoadProbe, Transcriber,
    WhisperCppTranscriber,
};
use voice_mcp_host::config::default_config;
use voice_mcp_host::json::Json;
use voice_mcp_host::model_store::{
    active_engine, after_extract, bundled_macos_candidates, download_plan, engine_candidates,
    engine_dir_for_kind, engine_download_order, engine_download_plan, engine_path_for_kind, engine_paths,
    engine_status, engine_url, entry_target, gpu_detected, is_engine_downloaded, list_models, macos_engine,
    model_path, model_paths, models, nvidia_smi_detects_gpu, preferred_engine_kind, progress_total,
    select_existing, server_candidates, server_paths, sha256_hex, verify_sha256, wmic_detects_nvidia_gpu,
    EngineKind, StoreError, CPU_ENGINE_URL, CUDA_ENGINE_URL,
};
use voice_mcp_host::platform::TargetOs;

fn obj(pairs: Vec<(&str, Json)>) -> Json {
    Json::Object(pairs.into_iter().map(|(k, v)| (k.to_string(), v)).collect())
}

fn st(s: &str) -> Json {
    Json::Str(s.to_string())
}

#[test]
fn devices_and_compute_types() {
    assert_eq!(normalize_faster_whisper_device("cpu"), "cpu");
    assert_eq!(normalize_faster_whisper_device("gpu"), "cuda");
    assert_eq!(normalize_faster_whisper_compute_type("cpu", "float32"), "float32");
    assert_eq!(normalize_faster_whisper_compute_type("cpu", "float16"), "int8");
    assert_eq!(normalize_faster_whisper_compute_type("cuda", "int8_float16"), "int8_float16");
    assert_eq!(normalize_faster_whisper_compute_type("cuda", "float32"), "float16");
}

#[test]
fn engine_next_to_the_model() {
    assert_eq!(engine_path_for(Some("C:\\models"), TargetOs::Windows).unwrap(), "C:\\models\\whisper-cli.exe");
    assert_eq!(engine_path_for(Some("/m"), TargetOs::Macos).unwrap(), "/m/whisper-cli");
    assert_eq!(engine_path_for(None, TargetOs::Macos).unwrap_err().message(), "model path has no parent directory");
    let engines = vec![(EngineKind::Macos, "/m/whisper-cli".to_string())];
    let w = WhisperCppTranscriber::load("/m/model.bin", Some("/m"), engines.clone(), TargetOs::Macos).unwrap();
    assert_eq!(w.model_path, "/m/model.bin");
    assert_eq!(w.engines, engines);
    assert_eq!(
        WhisperCppTranscriber::load("model.bin", None, engines, TargetOs::Macos).unwrap_err().message(),
        "model path has no parent directory"
    );
    assert_eq!(
        WhisperCppTranscriber::load("/m/model.bin", Some("/m"), vec![], TargetOs::Macos).unwrap_err().message(),
        "whisper-cli not found at /m/whisper-cli. Use the settings panel to download the engine."
    );
}

#[test]
fn transcriber_follows_the_backend() {
    let mut cfg = default_config(TargetOs::Windows).asr;
    cfg.backend = "whisper_cpp".to_string();
    cfg.model_name = "ggml-base.bin".to_string();
    let engines = vec![(EngineKind::Cpu, "C:\\c\\engines\\cpu\\whisper-cli.exe".to_string())];
    let t = Transcriber::load(
        &cfg,
        "C:\\c",
        TargetOs::Windows,
        LoadProbe::WhisperCpp(Some("C:\\c".to_string()), engines.clone()),
    )
    .unwrap();
    match t.backend {
        AsrBackend::WhisperCpp(w) => {
            assert_eq!(w.model_path, "C:\\c\\ggml-base.bin");
            assert_eq!(w.engines, engines);
        }
        AsrBackend::FasterWhisper(_) => panic!("expected whisper.cpp"),
    }

    cfg.backend = "faster_whisper".to_string();
    cfg.faster_whisper_device = "cpu".to_string();
    cfg.faster_whisper_compute_type = "float16".to_string();
    cfg.faster_whisper_python_path = Some("py".to_string());
    let reply = obj(vec![("faster_whisper_available", Json::Bool(true))]);
    let t = Transcriber::load(&cfg, "C:\\c", TargetOs::Windows, LoadProbe::FasterWhisper(reply)).unwrap();
    match t.backend {
        AsrBackend::FasterWhisper(f) => {
            assert_eq!(f.model_name, cfg.faster_whisper_model_name);
            assert_eq!(f.device, "cpu");
            assert_eq!(f.compute_type, "int8");
            assert_eq!(f.python_path.as_deref(), Some("py"));
        }
        AsrBackend::WhisperCpp(_) => panic!("expected faster-whisper"),
    }
    let missing = obj(vec![("faster_whisper_available", Json::Bool(false))]);
    let e = Transcriber::load(&cfg, "C:\\c", TargetOs::Windows, LoadProbe::FasterWhisper(missing)).unwrap_err();
    assert_eq!(e.message(), "faster-whisper Python package is not installed");
    let cpu_only = obj(vec![("result", obj(vec![
        ("faster_whisper_available", Json::Bool(true)),
        ("cpu_compute_types", Json::Array(vec![st("float32")])),
    ]))]);
    let e = FasterWhisperTranscriber::load(&cfg, &cpu_only).unwrap_err();
    assert_eq!(e.message(), "faster-whisper compute type 'int8' is not supported on cpu. Supported: float32");
}

#[test]
fn python_choice() {
    assert_eq!(python_exe(Some(" /usr/bin/py "), None, TargetOs::Macos), " /usr/bin/py ");
    assert_eq!(python_exe(Some("  "), Some("bundled".into()), TargetOs::Macos), "bundled");
    assert_eq!(python_exe(None, None, TargetOs::Windows), "python");
    assert_eq!(python_exe(None, None, TargetOs::Macos), "python3");
    let c = python_candidates(Some("C:\\app"), Some("C:\\local"), TargetOs::Windows);
    assert_eq!(c.len(), 5);
    assert_eq!(c[0], "C:\\app\\bundled\\faster-whisper\\python.exe");
    assert_eq!(c[3], "C:\\local\\voice-mcp-host\\faster-whisper\\python.exe");
    assert_eq!(python_candidates(None, None, TargetOs::Macos).len(), 0);
    let s = sidecar_candidates("/app", "/src", TargetOs::Macos);
    assert_eq!(s, vec!["/app/sidecars/voice_mcp_asr_sidecar.py".to_string(), "/src/sidecars/voice_mcp_asr_sidecar.py".to_string()]);
}

#[test]
fn backend_selection() {
    let mut c = default_config(TargetOs::Macos);
    assert_eq!(backend_kind(&c.asr), BackendKind::WhisperCpp);
    c.asr.backend = "faster_whisper".into();
    assert_eq!(backend_kind(&c.asr), BackendKind::FasterWhisper);
}

#[test]
fn command_arguments() {
    assert_eq!(preflight_args("s.py", "cpu", "int8"), vec!["s.py", "--preflight", "--json", "--device", "cpu", "--compute-type", "int8"]);
    assert_eq!(engine_args("m.bin", "a.wav", "en"), vec!["-m", "m.bin", "-f", "a.wav", "-l", "en", "-nt"]);
    let t = transcribe_args("s.py", "a.wav", "tiny", "cpu", "int8", "en");
    assert_eq!(t.len(), 12);
    assert_eq!(t[1], "--transcribe");
    assert_eq!(t[11], "en");
    assert_eq!(wav_file_name(77, false), "vmh-77.wav");
    assert_eq!(wav_file_name(77, true), "vmh-fw-77.wav");
}

#[test]
fn preflight_replies() {
    let ok = obj(vec![("result", obj(vec![
        ("faster_whisper_available", Json::Bool(true)),
        ("cuda_ok", Json::Bool(false)),
        ("cpu_compute_types", Json::Array(vec![st("int8"), st("float32")])),
    ]))]);
    assert!(check_preflight(&ok, "cpu", "int8").is_ok());
    assert!(matches!(check_preflight(&ok, "cuda", "float16"), Err(AsrError::NoCuda)));
    assert_eq!(
        check_preflight(&ok, "cpu", "float16").unwrap_err().message(),
        "faster-whisper compute type 'float16' is not supported on cpu. Supported: int8, float32"
    );
    let missing = obj(vec![("faster_whisper_available", Json::Bool(false))]);
    assert!(matches!(check_preflight(&missing, "cpu", "int8"), Err(AsrError::NotInstalled)));
    let unlisted = obj(vec![("faster_whisper_available", Json::Bool(true))]);
    assert!(check_preflight(&unlisted, "cpu", "anything").is_ok());
}

#[test]
fn transcription_replies() {
    let ok = obj(vec![("ok", Json::Bool(true)), ("result", obj(vec![("text", st("hello"))]))]);
    assert_eq!(transcript_of(&ok).unwrap(), "hello");
    let empty = obj(vec![("ok", Json::Bool(true))]);
    assert_eq!(transcript_of(&empty).unwrap(), "");
    let bad = obj(vec![("ok", Json::Bool(false)), ("error", obj(vec![("message", st("model missing"))]))]);
    assert_eq!(transcript_of(&bad).unwrap_err().message(), "model missing");
    let bare = obj(vec![]);
    assert_eq!(transcript_of(&bare).unwrap_err().message(), "faster-whisper transcription failed");
}

#[test]
fn whisper_output_is_cleaned() {
    let out = "whisper_init: loading\n[_BEG_] Hello world\n\n[BLANK_AUDIO]\n  second line  \r\nggml_x: y\n";
    assert_eq!(whisper_text(out, "ignored"), "Hello world second line");
    assert_eq!(whisper_text("   \n", "from stderr\n"), "from stderr");
}

#[test]
fn asr_error_messages() {
    assert_eq!(AsrError::NotInstalled.message(), "faster-whisper Python package is not installed");
    assert_eq!(
        AsrError::NoCuda.message(),
        "faster-whisper CUDA is not available. Switch device to CPU or install CUDA/cuDNN support"
    );
    assert_eq!(AsrError::NoEngine.message(), "no whisper-cli engine available");
    assert_eq!(AsrError::Failed("f".into()).message(), "f");
}

#[test]
fn model_table() {
    let m = models();
    assert_eq!(m.len(), 9);
    assert_eq!(m[4].name, "ggml-large-v3-turbo-q5_0.bin");
    assert!(m[4].recommended);
    assert_eq!(m.iter().filter(|x| x.recommended).count(), 1);
    assert!(m.iter().all(|x| x.sha256.is_none()));
    let paths = model_paths("/cache", TargetOs::Macos);
    assert_eq!(paths[0], "/cache/ggml-tiny.en.bin");
    let listed = list_models(&[true, false, false, false, false, false, false, false, false]);
    assert!(listed[0].downloaded && !listed[1].downloaded);
    assert_eq!(listed[8].size_bytes, 3_100_000_000);
    assert_eq!(model_path("/c", "x.bin", TargetOs::Macos), "/c/x.bin");
}

#[test]
fn download_plans() {
    let p = download_plan("/c", "ggml-base.en.bin", TargetOs::Macos).unwrap();
    assert_eq!(p.dest, "/c/ggml-base.en.bin");
    assert_eq!(p.tmp, "/c/ggml-base.en.bin.tmp");
    assert_eq!(p.url, "https://huggingface.co/ggerganov/whisper.cpp/resolve/main/ggml-base.en.bin");
    assert_eq!(p.size_bytes, 147_964_211);
    assert_eq!(download_plan("/c", "nope.bin", TargetOs::Macos).unwrap_err().message(), "unknown model: nope.bin");
    assert_eq!(progress_total(Some(10), 5), 10);
    assert_eq!(progress_total(None, 5), 5);
}

#[test]
fn sha256_digests() {
    assert_eq!(sha256_hex(b"abc"), "ba7816bf8f01cfea414140de5dae2223b00361a396177a9cb410ff61f20015ad");
    assert!(verify_sha256(b"abc", "ba7816bf8f01cfea414140de5dae2223b00361a396177a9cb410ff61f20015ad").is_ok());
    match verify_sha256(b"abc", "00") {
        Err(StoreError::Sha256Mismatch(e, a)) => {
            assert_eq!(e, "00");
            assert_eq!(a.len(), 64);
        }
        other => panic!("unexpected {:?}", other),
    }
}

#[test]
fn engine_places_and_kinds() {
    assert_eq!(EngineKind::Macos.label(), "metal");
    assert_eq!(engine_dir_for_kind("/c", EngineKind::Cpu, TargetOs::Macos), "/c/engines/cpu");
    assert_eq!(engine_path_for_kind("C:\\c", EngineKind::Cuda, TargetOs::Windows), "C:\\c\\engines\\cuda\\whisper-cli.exe");
    assert_eq!(engine_path_for_kind("/c", EngineKind::Legacy, TargetOs::Macos), "/c/whisper-cli");
    assert_eq!(engine_url(EngineKind::Cuda), CUDA_ENGINE_URL);
    assert_eq!(engine_url(EngineKind::Cpu), CPU_ENGINE_URL);
    assert_eq!(preferred_engine_kind(TargetOs::Windows, true), EngineKind::Cuda);
    assert_eq!(preferred_engine_kind(TargetOs::Windows, false), EngineKind::Cpu);
    assert_eq!(preferred_engine_kind(TargetOs::Macos, false), EngineKind::Macos);
    assert!(gpu_detected(TargetOs::Macos, false, false));
    assert!(gpu_detected(TargetOs::Windows, false, true));
    assert!(nvidia_smi_detects_gpu(true, "GPU 0: RTX"));
    assert!(!nvidia_smi_detects_gpu(false, "GPU 0: RTX"));
    assert!(wmic_detects_nvidia_gpu(true, "Name\nNVIDIA GeForce"));
    assert!(!wmic_detects_nvidia_gpu(true, "Name\nIntel UHD"));
    assert_eq!(engine_download_order(true), vec![EngineKind::Cuda, EngineKind::Cpu]);
    assert_eq!(engine_download_order(false), vec![EngineKind::Cpu]);
}

#[test]
fn engines_found_once_in_order() {
    let places = engine_paths("C:\\c", TargetOs::Windows, true, &[]);
    assert_eq!(places.len(), 3);
    assert_eq!(places[0].0, EngineKind::Cuda);
    assert_eq!(places[1].0, EngineKind::Cpu);
    assert_eq!(places[2], (EngineKind::Legacy, "C:\\c\\whisper-cli.exe".to_string()));
    let found = engine_candidates("C:\\c", TargetOs::Windows, true, &[], &[false, true, true]);
    assert_eq!(found.len(), 2);
    assert_eq!(found[0].0, EngineKind::Cpu);
    let dup = vec![(EngineKind::Macos, "/a".to_string()), (EngineKind::Legacy, "/a".to_string())];
    assert_eq!(select_existing(TargetOs::Macos, &dup, &[true, true]).len(), 1);
    let same = vec![
        (EngineKind::Macos, "a//b".to_string()),
        (EngineKind::Legacy, "a/./b/".to_string()),
        (EngineKind::Cpu, "a/b".to_string()),
        (EngineKind::Cuda, "./a/b".to_string()),
    ];
    let kept = select_existing(TargetOs::Macos, &same, &[true, true, true, true]);
    assert_eq!(kept, vec![(EngineKind::Macos, "a//b".to_string()), (EngineKind::Cuda, "./a/b".to_string())]);
    let win = vec![(EngineKind::Cpu, "C:\\e\\x".to_string()), (EngineKind::Legacy, "C:/e/x".to_string())];
    assert_eq!(select_existing(TargetOs::Windows, &win, &[true, true]).len(), 1);
    assert_eq!(select_existing(TargetOs::Macos, &win, &[true, true]).len(), 2);
    let st = engine_status(TargetOs::Windows, true, &found);
    assert_eq!(st.preferred_acceleration, "cuda");
    assert_eq!(st.active_acceleration.as_deref(), Some("cpu"));
    assert!(st.engine_downloaded);
    assert!(is_engine_downloaded(&found));
    assert_eq!(active_engine(&found).unwrap().0, EngineKind::Cpu);
    let none = engine_status(TargetOs::Macos, true, &[]);
    assert!(none.active_acceleration.is_none() && !none.engine_downloaded);
    let servers = server_paths(&found, TargetOs::Windows, &[]);
    assert_eq!(servers[0].1, "C:\\c\\engines\\cpu\\whisper-server.exe");
    let s = server_candidates(&found, TargetOs::Windows, &[], &[true, false]);
    assert_eq!(s.len(), 1);
    let mac = engine_paths("/c", TargetOs::Macos, true, &["/b/whisper-cli".to_string()]);
    assert_eq!(mac.len(), 3);
    assert_eq!(mac[2], (EngineKind::Macos, "/b/whisper-cli".to_string()));
}

#[test]
fn macos_bundles() {
    let b = bundled_macos_candidates(Some("/App/MacOS"), "/src", "whisper-cli");
    assert_eq!(b, vec![
        "/App/MacOS/../Resources/bundled/whisper-macos/whisper-cli".to_string(),
        "/App/MacOS/bundled/whisper-macos/whisper-cli".to_string(),
        "/src/bundled/whisper-macos/whisper-cli".to_string(),
    ]);
    assert_eq!(macos_engine(&b, &[false, true, true]).unwrap(), "/App/MacOS/bundled/whisper-macos/whisper-cli");
    assert!(matches!(macos_engine(&b, &[false, false, false]), Err(StoreError::NotBundled)));
}

#[test]
fn engine_archive_entries() {
    let p = engine_download_plan("C:\\c", EngineKind::Cpu, TargetOs::Windows);
    assert_eq!(p.zip_tmp, "C:\\c\\engines\\cpu\\whisper-engine-cpu.zip.tmp");
    assert_eq!(p.progress_name, "whisper-cli-cpu");
    assert_eq!(entry_target("Release/whisper-cli.exe", TargetOs::Windows), Some(("whisper-cli.exe".to_string(), true)));
    assert_eq!(entry_target("Release/ggml.dll", TargetOs::Windows), Some(("ggml.dll".to_string(), false)));
    assert_eq!(entry_target("Release/README.md", TargetOs::Windows), None);
    let with_cli = vec!["Release/".to_string(), "Release/ggml.dll".to_string(), "Release/whisper-cli.exe".to_string()];
    assert!(after_extract(&with_cli).is_ok());
    let without = vec!["Release/whisper-server.exe".to_string(), "Release/ggml.dll".to_string()];
    assert_eq!(after_extract(&without).unwrap_err().message(), "whisper-cli binary not found inside the downloaded zip");
    assert!(after_extract(&[]).is_err());
}

#[test]
fn compute_type_settles_after_one_pass() {
    for device in ["cpu", "cuda"] {
        for ct in ["float16", "int8_float16", "int8", "float32", "bogus"] {
            let once = normalize_faster_whisper_compute_type(device, ct);
            assert_eq!(normalize_faster_whisper_compute_type(device, &once), once);
            if device == "cpu" {
                assert!(once == "float32" || once == "int8");
            }
        }
    }
}

#[test]
fn engines_are_tried_in_order_then_the_last_error() {
    let engines = vec![
        (EngineKind::Cuda, "/c/cuda/whisper-cli".to_string()),
        (EngineKind::Cpu, "/c/cpu/whisper-cli".to_string()),
    ];
    let w = WhisperCppTranscriber::load("/c/m.bin", Some("/c"), engines, TargetOs::Macos).unwrap();
    assert_eq!(w.next_attempt(0, None).unwrap(), (EngineKind::Cuda, "/c/cuda/whisper-cli".to_string()));
    assert_eq!(w.next_attempt(1, Some("boom".into())).unwrap(), (EngineKind::Cpu, "/c/cpu/whisper-cli".to_string()));
    assert_eq!(w.next_attempt(2, Some("cpu failed".into())).unwrap_err().message(), "cpu failed");
    let none = WhisperCppTranscriber { model_path: "/c/m.bin".into(), engines: vec![] };
    assert_eq!(none.next_attempt(0, None).unwrap_err().message(), "no whisper-cli engine available");
}
