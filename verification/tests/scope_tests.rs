//! Scope guessing, filename safety, path resolution and upload decisions.
use saucepan::files::{download_file, DownloadData, FileScope};
use saucepan::state::AppState;
use saucepan::text::{hex_encode, u64_to_string};
use saucepan::upload::{guess_scope_from_filename, sanitize_filename, upload};
use saucepan::upload::{UploadData, ValidationError};
use saucepan::user::{is_user_config_name, User};

fn state_with_alice() -> AppState {
    let alice = User::new(
        "alice".to_string(),
        None,
        vec!["alice_".to_string()],
        Some("$argon2id$unused".to_string()),
    );
    AppState::new_from_users(vec![alice])
}

#[test]
fn registered_prefix_routes_to_user_scope() {
    let state = state_with_alice();
    let (scope, owner) = guess_scope_from_filename("alice_report.pdf", &state.prefix_map);
    assert_eq!(scope, FileScope::User);
    assert_eq!(owner.expect("owner resolved").username(), "alice".to_string());
}

#[test]
fn filename_without_underscore_routes_to_common() {
    let state = state_with_alice();
    let (scope, owner) = guess_scope_from_filename("report.pdf", &state.prefix_map);
    assert_eq!(scope, FileScope::Common);
    assert!(owner.is_none());
}

#[test]
fn empty_prefix_routes_to_common() {
    let state = state_with_alice();
    let (scope, owner) = guess_scope_from_filename("_x.pdf", &state.prefix_map);
    assert_eq!(scope, FileScope::Common);
    assert!(owner.is_none());
}

#[test]
fn unregistered_prefix_routes_to_common() {
    let state = state_with_alice();
    let (scope, owner) = guess_scope_from_filename("bob_notes.txt", &state.prefix_map);
    assert_eq!(scope, FileScope::Common);
    assert!(owner.is_none());
}

#[test]
fn safe_filename_passes_unchanged() {
    assert_eq!(sanitize_filename("report.pdf"), Some("report.pdf".to_string()));
    assert_eq!(sanitize_filename("alice_a-1.txt"), Some("alice_a-1.txt".to_string()));
}

#[test]
fn traversal_and_separator_names_are_rejected() {
    assert_eq!(sanitize_filename("a..b"), None);
    assert_eq!(sanitize_filename(".."), None);
    assert_eq!(sanitize_filename("a/b"), None);
    assert_eq!(sanitize_filename("a\\b"), None);
    assert_eq!(sanitize_filename("a\0b"), None);
    assert_eq!(sanitize_filename(""), None);
}

#[test]
fn denylisted_punctuation_is_rejected() {
    for name in [
        "a<b", "a>b", "a|b", "a:b", "a(b", "a)b", "a&b", "a;b", "a#b", "a?b", "a*b", "a\tb",
    ] {
        assert_eq!(sanitize_filename(name), None, "{name} should be rejected");
    }
}

#[test]
fn unsafe_download_is_rejected_in_every_scope() {
    let user = User::new("alice".to_string(), None, vec![], None);
    for scope in [FileScope::Common, FileScope::User] {
        for name in ["../etc/passwd", "a/b", "a\0b"] {
            let form = DownloadData { filename: name.to_string(), scope };
            assert_eq!(
                download_file(&form, &user),
                Err(ValidationError::InvalidFilename)
            );
        }
    }
}

#[test]
fn download_resolves_paths_per_scope() {
    let user = User::new("alice".to_string(), None, vec![], None);
    let common = DownloadData { filename: "r.pdf".to_string(), scope: FileScope::Common };
    assert_eq!(
        download_file(&common, &user),
        Ok("storage/uploads/common/r.pdf".to_string())
    );
    let private = DownloadData { filename: "r.pdf".to_string(), scope: FileScope::User };
    assert_eq!(
        download_file(&private, &user),
        Ok("storage/uploads/user/alice/r.pdf".to_string())
    );
}

#[test]
fn scope_path_helpers_build_expected_paths() {
    assert_eq!(
        FileScope::get_path_to_common_folder(),
        "storage/uploads/common".to_string()
    );
    assert_eq!(
        FileScope::get_path_to_common_file("f.txt"),
        "storage/uploads/common/f.txt".to_string()
    );
    let user = User::new("alice".to_string(), None, vec![], None);
    assert_eq!(user.get_path_to_user_folder(), "storage/uploads/user/alice".to_string());
    assert_eq!(
        user.get_path_to_user_file("f.txt"),
        "storage/uploads/user/alice/f.txt".to_string()
    );
    assert_eq!(
        FileScope::Common.get_path_to_file("f.txt", None),
        "storage/uploads/common/f.txt".to_string()
    );
    assert_eq!(
        FileScope::User.get_path_to_file("f.txt", Some(&user)),
        "storage/uploads/user/alice/f.txt".to_string()
    );
}

#[test]
fn upload_without_filename_is_rejected() {
    let state = state_with_alice();
    let form = UploadData { filename: None };
    assert_eq!(upload(&form, &state, 1), Err(ValidationError::MissingFilename));
}

#[test]
fn upload_with_long_filename_is_rejected() {
    let state = state_with_alice();
    let form = UploadData { filename: Some("x".repeat(65)) };
    assert_eq!(upload(&form, &state, 1), Err(ValidationError::FilenameTooLong));
    let just_fits = UploadData { filename: Some("x".repeat(64)) };
    assert!(upload(&just_fits, &state, 1).is_ok());
}

#[test]
fn upload_with_unsafe_filename_is_rejected() {
    let state = state_with_alice();
    let form = UploadData { filename: Some("../../etc/passwd".to_string()) };
    assert_eq!(upload(&form, &state, 1), Err(ValidationError::InvalidFilename));
}

#[test]
fn upload_stores_under_guessed_scope_with_timestamp() {
    let state = state_with_alice();
    let private = UploadData { filename: Some("alice_report.pdf".to_string()) };
    assert_eq!(
        upload(&private, &state, 1234),
        Ok("storage/uploads/user/alice/1234-alice_report.pdf".to_string())
    );
    let shared = UploadData { filename: Some("report.pdf".to_string()) };
    assert_eq!(
        upload(&shared, &state, 1234),
        Ok("storage/uploads/common/1234-report.pdf".to_string())
    );
}

#[test]
fn later_prefix_registration_wins() {
    let first = User::new("alice".to_string(), None, vec!["shared_".to_string()], None);
    let second = User::new("bob".to_string(), None, vec!["shared_".to_string()], None);
    let state = AppState::new_from_users(vec![first, second]);
    let (scope, owner) = guess_scope_from_filename("shared_x", &state.prefix_map);
    assert_eq!(scope, FileScope::User);
    assert_eq!(owner.expect("owner resolved").username(), "bob".to_string());
}

#[test]
fn decimal_rendering_is_exact() {
    assert_eq!(u64_to_string(0), "0".to_string());
    assert_eq!(u64_to_string(7), "7".to_string());
    assert_eq!(u64_to_string(1234567890), "1234567890".to_string());
    assert_eq!(u64_to_string(u64::MAX), "18446744073709551615".to_string());
}

#[test]
fn hex_rendering_is_exact() {
    assert_eq!(hex_encode(&vec![]), "".to_string());
    assert_eq!(hex_encode(&vec![0x00, 0xff, 0x10, 0xab]), "00ff10ab".to_string());
}

#[test]
fn config_file_names_are_recognised() {
    assert!(is_user_config_name("alice.toml"));
    assert!(!is_user_config_name(".alice.toml"));
    assert!(!is_user_config_name("alice.json"));
    assert!(!is_user_config_name("toml"));
    assert!(!is_user_config_name(""));
}
