use bettr::error::AppError;
use bettr::self_update::{
    archive_name, backup_name, check_archive_kinds, check_archive_listing, check_release_manifest,
    checksum_name, has_skill_name, main_archive_url, main_commit_revision, release_asset_url,
    release_manifest_fields, release_response, release_version,
    required_text, skill_root, target_triple, verify_checksum, version_from_output, UpdateResult,
};
use bettr::store::jsonl::sha256_hex;

fn input_message<T>(result: Result<T, AppError>) -> String {
    match result {
        Err(AppError::InvalidInput(message)) => message,
        _ => panic!("expected an invalid input error"),
    }
}

#[test]
fn release_targets_are_named_by_platform() {
    assert_eq!(target_triple("x86_64", "linux").unwrap(), "x86_64-unknown-linux-gnu");
    assert_eq!(target_triple("aarch64", "macos").unwrap(), "aarch64-apple-darwin");
    assert_eq!(
        input_message(target_triple("riscv64", "linux")),
        "self-update does not support riscv64-linux"
    );
}

#[test]
fn release_names_are_built_from_version_and_target() {
    assert_eq!(release_version("v1.2.3").unwrap(), "1.2.3");
    assert_eq!(release_version("1.2.3").unwrap(), "1.2.3");
    assert!(matches!(release_version("v"), Err(AppError::Internal(_))));
    let archive = archive_name("1.2.3", "x86_64-unknown-linux-gnu");
    assert_eq!(archive, "bettr-1.2.3-x86_64-unknown-linux-gnu.tar.gz");
    assert_eq!(checksum_name(&archive), "bettr-1.2.3-x86_64-unknown-linux-gnu.tar.gz.sha256");
    assert_eq!(
        main_archive_url("abc123"),
        "https://github.com/asonas/bettr/archive/abc123.tar.gz"
    );
    assert_eq!(backup_name("bettr"), ".bettr.bettr-self-update-backup");
}

#[test]
fn release_assets_are_found_by_name() {
    let assets = vec![
        (Some("a.tar.gz".to_owned()), Some("https://x/a".to_owned())),
        (Some("b.tar.gz".to_owned()), Some("https://x/b".to_owned())),
    ];
    assert_eq!(release_asset_url(&assets, "b.tar.gz").unwrap(), "https://x/b");
    assert!(matches!(
        release_asset_url(&assets, "c.tar.gz"),
        Err(AppError::NotFound(message))
            if message == "release asset c.tar.gz is not available for this platform"
    ));
    assert!(matches!(
        required_text(Some(String::new()), "sha", "main commit"),
        Err(AppError::Internal(message)) if message == "main commit response is missing sha"
    ));
    assert_eq!(required_text(Some("abc".to_owned()), "sha", "main commit").unwrap(), "abc");
}

#[test]
fn checksums_name_the_archive_and_match_its_digest() {
    let archive = b"archive bytes";
    let digest = sha256_hex(archive);
    let contents = format!("{digest}  *bettr.tar.gz\n");
    assert!(verify_checksum(&contents, "bettr.tar.gz", archive).is_ok());
    assert_eq!(
        input_message(verify_checksum(&contents, "other.tar.gz", archive)),
        "checksum file names a different archive"
    );
    assert_eq!(
        input_message(verify_checksum(&contents, "bettr.tar.gz", b"tampered")),
        "release archive checksum does not match"
    );
    assert_eq!(input_message(verify_checksum(" \n", "bettr.tar.gz", archive)), "checksum file is empty");
}

#[test]
fn the_bundled_version_and_manifest_must_match() {
    assert_eq!(version_from_output("bettr 1.2.3\n").unwrap(), "1.2.3");
    assert!(version_from_output("bettr").is_err());
    assert!(check_release_manifest(1, "1.2.3", "t", "abc", "1.2.3", "t").is_ok());
    assert_eq!(
        input_message(check_release_manifest(2, "1.2.3", "t", "abc", "1.2.3", "t")),
        "unsupported self-update manifest version 2"
    );
    assert_eq!(
        input_message(check_release_manifest(1, "1.2.3", "t", "", "1.2.3", "t")),
        "release manifest does not match the downloaded release"
    );
}

#[test]
fn archives_with_unsafe_paths_or_links_are_refused() {
    assert!(check_archive_listing("bettr/\nbettr/bin/bettr\n").is_ok());
    assert_eq!(
        input_message(check_archive_listing("bettr/\n../etc/passwd\n")),
        "release archive contains an unsafe path: ../etc/passwd"
    );
    assert!(check_archive_listing("/abs/path\n").is_err());
    assert!(check_archive_kinds("drwxr-xr-x 0 dir/\n-rw-r--r-- 1 dir/file\n").is_ok());
    assert_eq!(
        input_message(check_archive_kinds("lrwxrwxrwx 0 link -> /etc\n")),
        "release archive contains a non-regular entry"
    );
}

#[test]
fn managed_skills_are_recognised_by_their_header() {
    assert!(has_skill_name("---\nname: bettr\n---\n# Bettr\n", "bettr"));
    assert!(!has_skill_name("# Bettr\nname: bettr\n", "bettr"));
    assert!(!has_skill_name("---\nname: other\n---\n", "bettr"));
    assert!(!has_skill_name("---\n---\nname: bettr\n", "bettr"));
}

#[test]
fn skill_roots_come_from_the_environment_or_home() {
    assert_eq!(
        skill_root("CODEX_HOME", Some("/c".to_owned()), Some("/h".to_owned())).unwrap(),
        ("/c".to_owned(), false)
    );
    assert_eq!(
        skill_root("CODEX_HOME", None, Some("/h".to_owned())).unwrap(),
        ("/h".to_owned(), true)
    );
    assert_eq!(
        input_message(skill_root("CODEX_HOME", Some(String::new()), None)),
        "CODEX_HOME must not be empty"
    );
    assert_eq!(
        input_message(skill_root("CODEX_HOME", None, None)),
        "CODEX_HOME or HOME must be set"
    );
    assert_eq!(UpdateResult::Installed.as_str(), "installed");
}

fn internal_message<T>(result: Result<T, AppError>) -> String {
    match result {
        Err(AppError::Internal(message)) => message,
        _ => panic!("expected an internal error"),
    }
}

#[test]
fn a_release_response_gives_its_tag_and_assets() {
    let response = br#"{"tag_name":"v1.2.3","assets":[{"name":"a.tar.gz","browser_download_url":"https://x/a"},{"name":"b.tar.gz"},3]}"#;
    let (tag, assets) = release_response(response).unwrap();
    assert_eq!(tag, "v1.2.3");
    assert_eq!(
        assets,
        vec![
            (Some("a.tar.gz".to_owned()), Some("https://x/a".to_owned())),
            (Some("b.tar.gz".to_owned()), None),
            (None, None),
        ]
    );
    assert_eq!(release_asset_url(&assets, "a.tar.gz").unwrap(), "https://x/a");
    let (_, none) = release_response(br#"{"tag_name":"v1"}"#).unwrap();
    assert!(none.is_empty());
}

#[test]
fn a_release_response_must_be_an_object_with_a_tag() {
    assert_eq!(internal_message(release_response(b"not json")), "could not parse latest release response");
    assert_eq!(internal_message(release_response(b"[1]")), "latest release response is not a JSON object");
    assert_eq!(
        internal_message(release_response(br#"{"tag_name":""}"#)),
        "latest release response is missing tag_name"
    );
    assert_eq!(
        internal_message(release_response(br#"{"tag_name":7}"#)),
        "latest release response is missing tag_name"
    );
}

#[test]
fn a_main_commit_response_gives_its_revision() {
    assert_eq!(main_commit_revision(br#"{"sha":"abc123","x":1}"#).unwrap(), "abc123");
    assert_eq!(internal_message(main_commit_revision(b"{")), "could not parse main commit response");
    assert_eq!(internal_message(main_commit_revision(b"\"abc\"")), "main commit response is not a JSON object");
    assert_eq!(internal_message(main_commit_revision(b"{}")), "main commit response is missing sha");
}

#[test]
fn a_release_manifest_gives_its_four_fields() {
    let manifest = br#"{"format_version":1,"version":"1.2.3","target":"x86_64-unknown-linux-gnu","revision":"abc","extra":true}"#;
    assert_eq!(
        release_manifest_fields(manifest).unwrap(),
        (1, "1.2.3".to_owned(), "x86_64-unknown-linux-gnu".to_owned(), "abc".to_owned())
    );
    assert_eq!(
        release_manifest_fields(br#"[2,"v","t","r"]"#).unwrap(),
        (2, "v".to_owned(), "t".to_owned(), "r".to_owned())
    );
    for invalid in [
        &b"nope"[..],
        br#"{"version":"1","target":"t","revision":"r"}"#,
        br#"{"format_version":-1,"version":"1","target":"t","revision":"r"}"#,
        br#"{"format_version":4294967296,"version":"1","target":"t","revision":"r"}"#,
        br#"{"format_version":1.5,"version":"1","target":"t","revision":"r"}"#,
        br#"{"format_version":1,"version":null,"target":"t","revision":"r"}"#,
        br#"[1,"v","t"]"#,
        br#"[1,"v","t","r","s"]"#,
    ] {
        assert_eq!(input_message(release_manifest_fields(invalid)), "release manifest is invalid");
    }
    assert_eq!(
        release_manifest_fields(br#"{"format_version":4294967295,"version":"1","target":"t","revision":"r"}"#).unwrap().0,
        4294967295
    );
}
