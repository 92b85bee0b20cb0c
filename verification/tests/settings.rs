use gpsami::settings::{
    clone_text_opt, join, settings_dir, settings_dir_from, settings_dir_in, settings_file,
    settings_file_from, settings_file_in, Prefs,
};
use gpsami::text::same_text;

#[test]
fn join_puts_one_separator() {
    assert_eq!(join("/home/alice", ".gpsami"), "/home/alice/.gpsami");
    assert_eq!(join("/home/alice/", ".gpsami"), "/home/alice/.gpsami");
    assert_eq!(join("", ".gpsami"), ".gpsami");
    assert_eq!(join("/", "x"), "/x");
    assert_eq!(join("a", ""), "a/");
}

#[test]
fn join_agrees_with_the_standard_path() {
    for base in ["/home/alice", "/home/alice/", "", "/", "rel/dir", "/h\u{e9}"] {
        for name in [".gpsami", "gpsami.ini"] {
            let mut p = std::path::PathBuf::from(base);
            p.push(name);
            assert_eq!(join(base, name), p.to_str().unwrap());
        }
    }
}

#[test]
fn settings_paths() {
    assert_eq!(settings_dir_in("/home/alice"), "/home/alice/.gpsami");
    assert_eq!(settings_file_in("/home/alice"), "/home/alice/.gpsami/gpsami.ini");
    assert_eq!(settings_file_in("/root/"), "/root/.gpsami/gpsami.ini");
}

#[test]
fn settings_paths_of_a_home_that_may_be_unknown() {
    assert_eq!(
        settings_dir_from(Some("/home/alice".to_string())),
        Some("/home/alice/.gpsami".to_string())
    );
    assert_eq!(settings_dir_from(None), None);
    assert_eq!(
        settings_file_from(Some("/home/alice".to_string())),
        Some("/home/alice/.gpsami/gpsami.ini".to_string())
    );
    assert_eq!(settings_file_from(Some("".to_string())), Some(".gpsami/gpsami.ini".to_string()));
    assert_eq!(settings_file_from(None), None);
}

#[test]
fn settings_of_the_current_user() {
    match settings_dir() {
        Some(dir) => {
            assert!(dir.ends_with(".gpsami"));
            assert_eq!(settings_file(), Some(join(&dir, "gpsami.ini")));
        }
        None => assert_eq!(settings_file(), None),
    }
}

#[test]
fn prefs_start_empty_and_copy_whole() {
    let p = Prefs::new();
    assert_eq!(p, Prefs { model: None, port: None, output_dir: None });
    let q = Prefs {
        model: Some("m".to_string()),
        port: None,
        output_dir: Some("/tmp".to_string()),
    };
    assert_eq!(q.clone(), q);
    assert_eq!(clone_text_opt(&Some("x".to_string())), Some("x".to_string()));
    assert_eq!(clone_text_opt(&None), None);
}

#[test]
fn same_text_compares_characters() {
    assert!(same_text("abc", "abc"));
    assert!(same_text("", ""));
    assert!(!same_text("abc", "abd"));
    assert!(!same_text("abc", "ab"));
    assert!(!same_text("", "a"));
}
