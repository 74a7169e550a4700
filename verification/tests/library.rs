use reazonspeech_rs::audio::exceeds_duration_threshold;
use reazonspeech_rs::audio::pad_len;
use reazonspeech_rs::audio::prepare;
use reazonspeech_rs::cache::check_presence;
use reazonspeech_rs::cache::plan_resolution;
use reazonspeech_rs::cache::AssetPaths;
use reazonspeech_rs::cache::ResolveError;
use reazonspeech_rs::catalog::resolve;
use reazonspeech_rs::engine::build_config;
use reazonspeech_rs::engine::choose_provider;
use reazonspeech_rs::engine::default_provider;
use reazonspeech_rs::hub::validate_assets;
use reazonspeech_rs::ConfigError;
use reazonspeech_rs::Language;
use reazonspeech_rs::Precision;

#[test]
fn precision_parse_is_case_insensitive() {
    assert_eq!(Precision::from_str("fp32").unwrap(), Precision::Fp32);
    assert_eq!(Precision::from_str("FP32").unwrap(), Precision::Fp32);
    assert_eq!(Precision::from_str("Fp32").unwrap(), Precision::Fp32);
    assert_eq!(Precision::from_str("int8").unwrap(), Precision::Int8);
    assert_eq!(Precision::from_str("INT8-FP32").unwrap(), Precision::Int8Fp32);
    assert_eq!(Precision::from_str("Int8-Fp32").unwrap(), Precision::Int8Fp32);
}

#[test]
fn precision_parse_rejects_unknown_token() {
    let err = Precision::from_str("xyz").unwrap_err();
    match err {
        ConfigError::UnknownPrecision { token } => assert_eq!(token, "xyz"),
        _ => panic!("wrong error variant"),
    }
}

#[test]
fn language_parse_is_case_insensitive() {
    assert_eq!(Language::from_str("ja").unwrap(), Language::Ja);
    assert_eq!(Language::from_str("JA").unwrap(), Language::Ja);
    assert_eq!(Language::from_str("Ja-En").unwrap(), Language::JaEn);
    assert_eq!(Language::from_str("JA-EN-MLS-5K").unwrap(), Language::JaEnMls5k);
}

#[test]
fn language_parse_rejects_unknown_token() {
    let err = Language::from_str("en").unwrap_err();
    match err {
        ConfigError::UnknownLanguage { token } => assert_eq!(token, "en"),
        _ => panic!("wrong error variant"),
    }
}

#[test]
fn canonical_tokens_round_trip() {
    for p in [Precision::Fp32, Precision::Int8, Precision::Int8Fp32] {
        assert_eq!(Precision::from_str(p.as_str()).unwrap(), p);
    }
    for l in [Language::Ja, Language::JaEn, Language::JaEnMls5k] {
        assert_eq!(Language::from_str(l.as_str()).unwrap(), l);
    }
}

#[test]
fn defaults_are_ja_and_fp32() {
    assert_eq!(Precision::default(), Precision::Fp32);
    assert_eq!(Language::default(), Language::Ja);
}

#[test]
fn resolve_ja_fp32_names() {
    let (repo_id, files) = resolve(Language::Ja, Precision::Fp32);
    assert_eq!(repo_id, "reazon-research/reazonspeech-k2-v2");
    assert_eq!(files.encoder, "encoder-epoch-99-avg-1.onnx");
    assert_eq!(files.decoder, "decoder-epoch-99-avg-1.onnx");
    assert_eq!(files.joiner, "joiner-epoch-99-avg-1.onnx");
    assert_eq!(files.tokens, "tokens.txt");
}

#[test]
fn resolve_ja_en_mls_5k_int8_names() {
    let (repo_id, files) = resolve(Language::JaEnMls5k, Precision::Int8);
    assert_eq!(repo_id, "reazon-research/reazonspeech-k2-v2-ja-en-mls-5k-corrected");
    assert_eq!(files.encoder, "encoder-epoch-21-avg-1.int8.onnx");
    assert_eq!(files.decoder, "decoder-epoch-21-avg-1.int8.onnx");
    assert_eq!(files.joiner, "joiner-epoch-21-avg-1.int8.onnx");
    assert_eq!(files.tokens, "tokens.txt");
}

#[test]
fn resolve_int8_fp32_keeps_decoder_full_precision() {
    let (repo_id, files) = resolve(Language::JaEn, Precision::Int8Fp32);
    assert_eq!(repo_id, "reazon-research/reazonspeech-k2-v2-ja-en");
    assert_eq!(files.encoder, "encoder-epoch-35-avg-1.int8.onnx");
    assert_eq!(files.decoder, "decoder-epoch-35-avg-1.onnx");
    assert_eq!(files.joiner, "joiner-epoch-35-avg-1.int8.onnx");
    assert_eq!(files.tokens, "tokens.txt");
}

#[test]
fn precision_never_touches_repo_id_and_language_never_touches_suffix() {
    for l in [Language::Ja, Language::JaEn, Language::JaEnMls5k] {
        let (repo_fp32, files_fp32) = resolve(l, Precision::Fp32);
        let (repo_int8, files_int8) = resolve(l, Precision::Int8);
        let (repo_mixed, files_mixed) = resolve(l, Precision::Int8Fp32);
        assert_eq!(repo_fp32, repo_int8);
        assert_eq!(repo_fp32, repo_mixed);
        assert_eq!(files_fp32.tokens, files_int8.tokens);
        assert!(files_fp32.encoder.ends_with("-avg-1.onnx"));
        assert!(files_int8.encoder.ends_with("-avg-1.int8.onnx"));
        assert!(files_int8.decoder.ends_with("-avg-1.int8.onnx"));
        assert!(files_mixed.encoder.ends_with("-avg-1.int8.onnx"));
        assert!(files_mixed.decoder.ends_with("-avg-1.onnx"));
        assert!(files_mixed.joiner.ends_with("-avg-1.int8.onnx"));
    }
}

#[test]
fn pad_length_rounds_point_nine_seconds() {
    assert_eq!(pad_len(16000), 14400);
    assert_eq!(pad_len(44100), 39690);
    assert_eq!(pad_len(3), 3);
    assert_eq!(pad_len(1), 1);
    assert_eq!(pad_len(0), 0);
}

#[test]
fn prepare_empty_buffer_is_pure_silence() {
    let prepared = prepare(Vec::<f32>::new(), 0.0f32, 16000);
    assert_eq!(prepared.samples.len(), 28800);
    assert!(prepared.samples.iter().all(|s| *s == 0.0f32));
    assert_eq!(prepared.original_len, 0);
    assert_eq!(prepared.sample_rate, 16000);
    assert!(!prepared.long_audio_advisory);
    let duration = prepared.original_len as f32 / prepared.sample_rate as f32;
    assert_eq!(duration, 0.0f32);
}

#[test]
fn prepare_pads_both_sides_and_keeps_duration() {
    let n = 1600;
    let samples: Vec<f32> = (0..n).map(|i| (i as f32) / 100.0).collect();
    let prepared = prepare(samples.clone(), 0.0f32, 16000);
    assert_eq!(prepared.samples.len(), n + 28800);
    assert_eq!(prepared.original_len, n);
    assert!(prepared.samples[..14400].iter().all(|s| *s == 0.0f32));
    assert_eq!(&prepared.samples[14400..14400 + n], &samples[..]);
    assert!(prepared.samples[14400 + n..].iter().all(|s| *s == 0.0f32));
    let duration = prepared.original_len as f32 / prepared.sample_rate as f32;
    assert_eq!(duration, 0.1f32);
    assert!(!prepared.long_audio_advisory);
}

#[test]
fn advisory_triggers_past_thirty_seconds_at_any_rate() {
    for rate in [8000u32, 16000, 44100, 48000] {
        let over = (30.5 * rate as f32) as usize;
        let under = (29.9 * rate as f32) as usize;
        assert!(exceeds_duration_threshold(over, rate));
        assert!(!exceeds_duration_threshold(under, rate));
    }
    assert!(!exceeds_duration_threshold(30 * 16000, 16000));
    assert!(exceeds_duration_threshold(30 * 16000 + 1, 16000));
}

#[test]
fn long_buffer_sets_the_advisory_flag() {
    let n = (30.5 * 16000.0) as usize;
    let samples: Vec<f32> = vec![0.25f32; n];
    let prepared = prepare(samples, 0.0f32, 16000);
    assert!(prepared.long_audio_advisory);
    assert_eq!(prepared.samples.len(), n + 28800);
}

#[test]
fn plan_resolution_fast_path_needs_all_four() {
    let all = plan_resolution(
        Some("a/encoder.onnx".to_string()),
        Some("a/decoder.onnx".to_string()),
        Some("a/joiner.onnx".to_string()),
        Some("a/tokens.txt".to_string()),
    );
    let paths = all.expect("all four present must resolve");
    assert_eq!(paths.encoder, "a/encoder.onnx");
    assert_eq!(paths.decoder, "a/decoder.onnx");
    assert_eq!(paths.joiner, "a/joiner.onnx");
    assert_eq!(paths.tokens, "a/tokens.txt");

    let missing_one = plan_resolution(
        Some("a/encoder.onnx".to_string()),
        None,
        Some("a/joiner.onnx".to_string()),
        Some("a/tokens.txt".to_string()),
    );
    assert!(missing_one.is_none());
    let missing_all = plan_resolution(None, None, None, None);
    assert!(missing_all.is_none());
}

#[test]
fn check_presence_names_the_first_missing_path() {
    let paths = AssetPaths {
        encoder: "e".to_string(),
        decoder: "d".to_string(),
        joiner: "j".to_string(),
        tokens: "t".to_string(),
    };
    assert!(check_presence(&paths, true, true, true, true).is_ok());
    match check_presence(&paths, true, false, true, true).unwrap_err() {
        ResolveError::MissingFile { path } => assert_eq!(path, "d"),
        _ => panic!("wrong error variant"),
    }
    match check_presence(&paths, false, false, true, true).unwrap_err() {
        ResolveError::MissingFile { path } => assert_eq!(path, "e"),
        _ => panic!("wrong error variant"),
    }
    match check_presence(&paths, true, true, true, false).unwrap_err() {
        ResolveError::MissingFile { path } => assert_eq!(path, "t"),
        _ => panic!("wrong error variant"),
    }
}

#[test]
fn validate_assets_accepts_existing_paths() {
    // The filesystem root always exists, so these paths pass the probe.
    let paths = AssetPaths {
        encoder: "/".to_string(),
        decoder: "/".to_string(),
        joiner: "/".to_string(),
        tokens: "/".to_string(),
    };
    assert!(validate_assets(&paths).is_ok());
}

#[test]
fn validate_assets_names_the_first_absent_path() {
    let paths = AssetPaths {
        encoder: "/".to_string(),
        decoder: "/reazonspeech-test-absent/decoder-epoch-99-avg-1.onnx".to_string(),
        joiner: "/".to_string(),
        tokens: "/".to_string(),
    };
    match validate_assets(&paths).unwrap_err() {
        ResolveError::MissingFile { path } => {
            assert_eq!(path, "/reazonspeech-test-absent/decoder-epoch-99-avg-1.onnx")
        }
        _ => panic!("wrong error variant"),
    }
}

#[test]
fn provider_choice_prefers_explicit_request() {
    assert_eq!(default_provider(true), "coreml");
    assert_eq!(default_provider(false), "cpu");
    assert_eq!(choose_provider(Some("cuda".to_string()), true), "cuda");
    assert_eq!(choose_provider(None, true), "coreml");
    assert_eq!(choose_provider(None, false), "cpu");
}

#[test]
fn engine_config_carries_the_resolved_paths() {
    let paths = AssetPaths {
        encoder: "cache/encoder-epoch-99-avg-1.onnx".to_string(),
        decoder: "cache/decoder-epoch-99-avg-1.onnx".to_string(),
        joiner: "cache/joiner-epoch-99-avg-1.onnx".to_string(),
        tokens: "cache/tokens.txt".to_string(),
    };
    let config = build_config(&paths, "cpu".to_string());
    assert_eq!(config.encoder_path, paths.encoder);
    assert_eq!(config.decoder_path, paths.decoder);
    assert_eq!(config.joiner_path, paths.joiner);
    assert_eq!(config.tokens_path, paths.tokens);
    assert_eq!(config.thread_count_hint, 4);
    assert_eq!(config.execution_provider, "cpu");
    assert!(!config.debug_flag);
}
