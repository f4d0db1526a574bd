use baudacious::config::{deletable_name, profile_file_name, sanitize_name, DEFAULT_PROFILE};

#[test]
fn sanitize_name_rejects_path_traversal() {
    assert!(sanitize_name("../evil").is_err());
    assert!(sanitize_name("foo/bar").is_err());
    assert!(sanitize_name("foo\\bar").is_err());
    assert!(sanitize_name("").is_err());
    assert!(sanitize_name("  ").is_err());
}

#[test]
fn sanitize_name_accepts_valid_names() {
    assert_eq!(sanitize_name("Default").unwrap(), "Default");
    assert_eq!(sanitize_name("FT-991A Home").unwrap(), "FT-991A Home");
    assert_eq!(sanitize_name("my_config_2").unwrap(), "my_config_2");
}

#[test]
fn sanitize_name_rejects_special_characters() {
    assert!(sanitize_name("config<>").is_err());
    assert!(sanitize_name("config;drop").is_err());
    assert!(sanitize_name("config|pipe").is_err());
}

#[test]
fn sanitize_name_trims_white_space() {
    assert_eq!(sanitize_name("  Home  "), Ok("Home".to_string()));
    assert_eq!(sanitize_name("\t\nField Day\r\n"), Ok("Field Day".to_string()));
    assert_eq!(sanitize_name("\u{a0}\u{2003}x\u{3000}"), Ok("x".to_string()));
    assert_eq!(sanitize_name(" a  b "), Ok("a  b".to_string()));
}

#[test]
fn sanitize_name_gives_each_refusal_its_reason() {
    let empty = Err("Configuration name cannot be empty".to_string());
    let away = Err("Invalid configuration name".to_string());
    let chars = Err("Configuration name contains invalid characters".to_string());
    assert_eq!(sanitize_name(""), empty);
    assert_eq!(sanitize_name(" \t "), empty);
    assert_eq!(sanitize_name(".."), away);
    assert_eq!(sanitize_name("a..b"), away);
    assert_eq!(sanitize_name("a/b"), away);
    assert_eq!(sanitize_name("a\\b"), away);
    // A path separator decides before any other character does.
    assert_eq!(sanitize_name("<>/"), away);
    assert_eq!(sanitize_name("a.b"), chars);
    assert_eq!(sanitize_name("."), chars);
    assert_eq!(sanitize_name("a\tb"), chars);
    assert_eq!(sanitize_name("name!"), chars);
}

#[test]
fn sanitize_name_takes_letters_and_digits_of_any_script() {
    assert_eq!(sanitize_name("Zürich 2"), Ok("Zürich 2".to_string()));
    assert_eq!(sanitize_name("無線"), Ok("無線".to_string()));
    assert_eq!(sanitize_name("٣"), Ok("٣".to_string()));
}

#[test]
fn the_default_profile_cannot_be_deleted() {
    assert_eq!(DEFAULT_PROFILE, "Default");
    assert_eq!(
        deletable_name("Default"),
        Err("Cannot delete the Default configuration".to_string())
    );
    assert_eq!(
        deletable_name("  Default "),
        Err("Cannot delete the Default configuration".to_string())
    );
    assert_eq!(deletable_name("default"), Ok("default".to_string()));
    assert_eq!(deletable_name(" Field Day "), Ok("Field Day".to_string()));
    assert_eq!(deletable_name("../Default"), Err("Invalid configuration name".to_string()));
    assert_eq!(deletable_name(""), Err("Configuration name cannot be empty".to_string()));
}

#[test]
fn a_profile_is_kept_in_a_json_file_of_its_name() {
    assert_eq!(profile_file_name("Default"), "Default.json");
    assert_eq!(profile_file_name("FT-991A Home"), "FT-991A Home.json");
}
