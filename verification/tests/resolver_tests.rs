use hfmirror::error::MirrorError;
use hfmirror::repo::parse_repo_id;
use hfmirror::resolver::{authority_probe_url, build_config, probe_result, resolve_asset_url};

#[test]
fn resolves_gemma_asset_url() {
    let repo = parse_repo_id("google/gemma-2-2b-it").unwrap();
    let cfg = build_config(
        Some(String::from("https://hf-mirror.com/")),
        Some(String::from("https://hg.whl.moe/")),
        &repo,
    )
    .unwrap();
    let url = resolve_asset_url(&cfg, "model-00001.safetensors");
    assert_eq!(
        url,
        "https://hg.whl.moe/huggingface.co/google/gemma-2-2b-it/resolve/main/model-00001.safetensors"
    );
}

#[test]
fn defaults_used_when_bases_absent() {
    let repo = parse_repo_id("google/gemma-2-2b-it").unwrap();
    let cfg = build_config(None, None, &repo).unwrap();
    assert_eq!(
        cfg.canonical_repo_url,
        "https://hf-mirror.com/google/gemma-2-2b-it/"
    );
    assert_eq!(cfg.proxy_url, "https://hg.whl.moe/");
    assert_eq!(cfg.repo_path, "google/gemma-2-2b-it");
}

#[test]
fn trailing_separator_makes_no_difference() {
    let repo = parse_repo_id("google/gemma-2-2b-it").unwrap();
    let with_slash = build_config(
        Some(String::from("https://hf-mirror.com/")),
        Some(String::from("https://hg.whl.moe/")),
        &repo,
    )
    .unwrap();
    let without_slash = build_config(
        Some(String::from("https://hf-mirror.com")),
        Some(String::from("https://hg.whl.moe")),
        &repo,
    )
    .unwrap();
    assert_eq!(with_slash.canonical_repo_url, without_slash.canonical_repo_url);
    assert_eq!(with_slash.proxy_url, without_slash.proxy_url);
    assert_eq!(with_slash.repo_path, without_slash.repo_path);
    let a = resolve_asset_url(&with_slash, "x.bin");
    let b = resolve_asset_url(&without_slash, "x.bin");
    assert_eq!(a, b);
}

#[test]
fn resolution_is_deterministic() {
    let repo = parse_repo_id("google/gemma-2-2b-it").unwrap();
    let cfg = build_config(None, None, &repo).unwrap();
    let a = resolve_asset_url(&cfg, "weights.bin");
    let b = resolve_asset_url(&cfg, "weights.bin");
    assert_eq!(a, b);
}

#[test]
fn malformed_endpoint_is_invalid_configuration() {
    let repo = parse_repo_id("google/gemma-2-2b-it").unwrap();
    let r = build_config(Some(String::from("not a url")), None, &repo);
    assert_eq!(r.unwrap_err(), MirrorError::InvalidConfiguration);
}

#[test]
fn malformed_proxy_is_invalid_configuration() {
    let repo = parse_repo_id("google/gemma-2-2b-it").unwrap();
    let r = build_config(None, Some(String::from("not a url")), &repo);
    assert_eq!(r.unwrap_err(), MirrorError::InvalidConfiguration);
}

#[test]
fn probe_url_targets_upload_pack() {
    let repo = parse_repo_id("google/gemma-2-2b-it").unwrap();
    let cfg = build_config(None, None, &repo).unwrap();
    let probe = authority_probe_url(&cfg).unwrap();
    assert_eq!(
        probe,
        "https://hf-mirror.com/google/gemma-2-2b-it/info/refs?service=git-upload-pack"
    );
}

#[test]
fn parsing_normalizes_the_proxy_base() {
    // The parsed serialization, not the raw input, prefixes every fetch URL.
    let repo = parse_repo_id("google/gemma-2-2b-it").unwrap();
    let cfg = build_config(None, Some(String::from("https://HG.WHL.MOE")), &repo).unwrap();
    assert_eq!(cfg.proxy_url, "https://hg.whl.moe/");
    let cfg2 = build_config(
        Some(String::from("HTTPS://HF-MIRROR.COM:443")),
        None,
        &repo,
    )
    .unwrap();
    assert_eq!(
        cfg2.canonical_repo_url,
        "https://hf-mirror.com/google/gemma-2-2b-it/"
    );
}

#[test]
fn probe_statuses_are_judged_by_success_range() {
    assert!(probe_result(200).is_ok());
    assert!(probe_result(204).is_ok());
    assert!(probe_result(299).is_ok());
    assert_eq!(probe_result(199).unwrap_err(), MirrorError::AuthorityCheckFailed);
    assert_eq!(probe_result(300).unwrap_err(), MirrorError::AuthorityCheckFailed);
    assert_eq!(probe_result(404).unwrap_err(), MirrorError::AuthorityCheckFailed);
    assert_eq!(probe_result(301).unwrap_err(), MirrorError::AuthorityCheckFailed);
    assert_eq!(probe_result(500).unwrap_err(), MirrorError::AuthorityCheckFailed);
}

#[test]
fn error_messages_name_the_error() {
    assert_eq!(MirrorError::InvalidConfiguration.message(), "invalid configuration");
    assert_eq!(MirrorError::AuthorityCheckFailed.message(), "authority check failed");
    assert_eq!(MirrorError::TransferError.message(), "transfer error");
}
