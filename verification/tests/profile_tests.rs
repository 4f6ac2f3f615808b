use speake_rs::paths::EnvDirs;
use speake_rs::text::text_less;
use speake_rs::profile::{
    new_profile_meta, profile_dir, profile_layout, profile_tensor_names, profile_meta_path, profile_tensors_path,
    prompt_requirements, sort_profile_names, validate_profile_name, ProfileMode,
    ProfileNameError,
};

fn env() -> EnvDirs {
    EnvDirs {
        home: Some("/home/u".to_string()),
        xdg_config_home: None,
        xdg_data_home: None,
        xdg_runtime_dir: None,
    }
}

#[test]
fn profile_names_are_checked() {
    assert!(validate_profile_name("sample_voice-2").is_ok());
    assert_eq!(validate_profile_name(""), Err(ProfileNameError::Empty));
    assert_eq!(validate_profile_name("../x"), Err(ProfileNameError::InvalidCharacters));
    assert_eq!(validate_profile_name("a b"), Err(ProfileNameError::InvalidCharacters));
    assert_eq!(ProfileNameError::Empty.message(), "profile name cannot be empty");
    assert_eq!(
        ProfileNameError::InvalidCharacters.message(),
        "profile name can only contain [A-Za-z0-9_-]"
    );
}

#[test]
fn profile_files_live_under_voices() {
    assert_eq!(profile_dir(&env(), "mine"), "/home/u/.local/share/speake-rs/voices/mine");
    assert_eq!(
        profile_meta_path(&env(), "mine"),
        "/home/u/.local/share/speake-rs/voices/mine/profile.json"
    );
    assert_eq!(
        profile_tensors_path(&env(), "mine"),
        "/home/u/.local/share/speake-rs/voices/mine/tensors.safetensors"
    );
}

#[test]
fn layout_of_new_profiles() {
    assert_eq!(profile_layout(true, Some(vec![1, 2])), (ProfileMode::Icl, Some(vec![1, 2])));
    assert_eq!(profile_layout(false, Some(vec![1])), (ProfileMode::Xvector, None));
    assert_eq!(profile_layout(true, None), (ProfileMode::Xvector, None));
    let meta = new_profile_meta("v".to_string(), ProfileMode::Icl, 42, Some(vec![3]));
    assert_eq!(meta.version, 1);
    assert_eq!(meta.created_at_unix, 42);
    assert_eq!(prompt_requirements(meta), (true, Some(vec![3])));
    let x = new_profile_meta("w".to_string(), ProfileMode::Xvector, 1, Some(vec![9]));
    assert_eq!(prompt_requirements(x), (false, None));
}

#[test]
fn names_sort_like_strings() {
    let names = vec![
        "zeta".to_string(),
        "Alpha".to_string(),
        "alpha".to_string(),
        "al".to_string(),
        "b_2".to_string(),
        "b-2".to_string(),
    ];
    let mut expected = names.clone();
    expected.sort();
    assert_eq!(sort_profile_names(names), expected);
    assert!(text_less("al", "alpha"));
    assert!(!text_less("alpha", "alpha"));
    assert!(text_less("B", "a"));
}

#[test]
fn tensors_stored_per_mode() {
    assert_eq!(profile_tensor_names(ProfileMode::Xvector), vec!["speaker_embedding".to_string()]);
    assert_eq!(
        profile_tensor_names(ProfileMode::Icl),
        vec!["speaker_embedding".to_string(), "ref_codes".to_string()]
    );
}
