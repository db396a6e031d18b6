use re_set_lib::utils::flags::{Flag, FlagProblem, Flags, PathKind};
use re_set_lib::utils::macros::ErrorLevel;
use re_set_lib::utils::variant::{Empty, TVariant, Variant};
use re_set_lib::{flag_problems, flatpak_fix, is_flag, parse_flags, values_end, PathNotFoundError};

#[test]
fn test_custom_config() {
    let command_flags = vec![
        String::from("binary name"),
        String::from("--config"),
        String::from("test.txt"),
    ];
    let kinds = vec![PathKind::Missing, PathKind::Missing, PathKind::File];
    let flags = parse_flags(command_flags, kinds);
    let string = "test.txt".to_string();
    let copy = Flags(vec![Flag::ConfigDir(string)]);
    assert!(!flags.0.is_empty());
    assert_eq!(flags.0.len(), copy.0.len());
    let impossible = String::from("impossible");
    let match_orig = match flags.0.first().unwrap() {
        Flag::ConfigDir(content) => content,
        _ => &impossible,
    };
    let match_copy = match copy.0.first().unwrap() {
        Flag::ConfigDir(content) => content,
        _ => &impossible,
    };
    assert_eq!(match_orig, match_copy);
}

#[test]
fn test_custom_config_non_existing() {
    let command_flags = vec![
        String::from("binary name"),
        String::from("--config"),
        String::from("test.txt"),
    ];
    let flags = parse_flags(command_flags, Vec::new());
    assert!(flags.0.is_empty());
}

#[test]
fn test_custom_flag() {
    let command_flags = vec![
        String::from("binary name"),
        String::from("--something"),
        String::from("test.txt"),
        String::from("test2.txt"),
        String::from("--other"),
        String::from("othervalue"),
    ];
    let flags = parse_flags(command_flags, Vec::new());
    let matched_name: &String;
    let matched_value: &Variant;
    let failed_string = String::from("failed");
    let failed_variant = Empty {}.into_variant();
    match flags.0.first().unwrap() {
        Flag::Other((name, value)) => {
            matched_name = name;
            matched_value = value;
        }
        _ => {
            matched_name = &failed_string;
            matched_value = &failed_variant;
        }
    }
    assert_eq!(flags.0.len(), 2);
    assert_eq!(matched_name, &String::from("--something"));
    assert_eq!(
        matched_value.to_value_cloned::<Vec<String>>().unwrap(),
        vec![String::from("test.txt"), String::from("test2.txt")]
            .into_variant()
            .to_value_cloned::<Vec<String>>()
            .unwrap()
    );
    match &flags.0[1] {
        Flag::Other((name, value)) => {
            assert_eq!(name, "--other");
            assert_eq!(value.to_value_cloned::<String>().unwrap(), "othervalue");
            assert!(value.to_value_cloned::<Vec<String>>().is_err());
        }
        _ => panic!("the second flag is an ordinary one"),
    }
}

#[test]
fn test_custom_error_flag() {
    let command_flags = vec![String::from("binary name"), String::from("notaflag")];
    let flags = parse_flags(command_flags, Vec::new());
    assert!(flags.0.is_empty());
}

#[test]
fn flag_without_values_is_empty() {
    let line = vec!["bin".to_string(), "-v".to_string(), "--quiet".to_string()];
    let flags = parse_flags(line, Vec::new());
    assert_eq!(flags.0.len(), 2);
    for flag in &flags.0 {
        match flag {
            Flag::Other((_, value)) => assert!(value.to_value::<Empty>().is_ok()),
            _ => panic!("neither flag names a path"),
        }
    }
}

#[test]
fn plugin_directory_flag_needs_a_directory() {
    let line = || vec!["bin".to_string(), "--plugins".to_string(), "dir".to_string()];
    let kinds = |kind| vec![PathKind::Missing, PathKind::Missing, kind];
    let flags = parse_flags(line(), kinds(PathKind::Directory));
    assert_eq!(flags.0.len(), 1);
    assert!(matches!(&flags.0[0], Flag::PluginDir(path) if path == "dir"));
    assert!(parse_flags(line(), kinds(PathKind::File)).0.is_empty());
    assert!(parse_flags(line(), kinds(PathKind::Missing)).0.is_empty());
    let config = vec!["bin".to_string(), "--config".to_string(), "dir".to_string()];
    assert!(parse_flags(config, kinds(PathKind::Directory)).0.is_empty());
    let short = vec!["bin".to_string(), "--plugins".to_string()];
    assert!(parse_flags(short, Vec::new()).0.is_empty());
}

#[test]
fn a_path_flag_takes_the_next_text_whatever_it_is() {
    let line = vec![
        "bin".to_string(),
        "--config".to_string(),
        "--verbose".to_string(),
        "-x".to_string(),
        "1".to_string(),
    ];
    let flags = parse_flags(line, Vec::new());
    assert_eq!(flags.0.len(), 1);
    assert!(matches!(&flags.0[0], Flag::Other((name, _)) if name == "-x"));
}

#[test]
fn what_counts_as_a_flag() {
    assert!(is_flag("-a"));
    assert!(is_flag("-abc"));
    assert!(is_flag("--a"));
    assert!(is_flag("--long-flag"));
    assert!(is_flag("-é"));
    assert!(!is_flag("-"));
    assert!(!is_flag("--"));
    assert!(!is_flag(""));
    assert!(!is_flag("a"));
    assert!(!is_flag("a-b"));
    assert!(is_flag("---"));
}

#[test]
fn flatpak_path_is_fixed() {
    assert_eq!(
        flatpak_fix("/home/me/.var/app/org.Xetibo.ReSet/config".to_string()),
        "/home/me/.config"
    );
    assert_eq!(flatpak_fix("/home/me/.config".to_string()), "/home/me/.config");
    assert_eq!(flatpak_fix("/var/app/other/config".to_string()), "/var/app/other/config");
    assert_eq!(flatpak_fix(String::new()), "");
    assert_eq!(
        flatpak_fix("var/app/org.Xetibo.ReSet/config/var/app/org.Xetibo.ReSet/config".to_string()),
        "config/config"
    );
}

#[test]
fn path_not_found_as_text() {
    assert_eq!(PathNotFoundError.to_string(), "File could not be found");
}

fn line(texts: &[&str]) -> Vec<String> {
    texts.iter().map(|text| text.to_string()).collect()
}

fn messages(texts: &[&str], kinds: Vec<PathKind>) -> Vec<String> {
    flag_problems(&line(texts), &kinds)
        .iter()
        .map(|problem| {
            assert_eq!(problem.level(), ErrorLevel::Critical);
            problem.message()
        })
        .collect()
}

#[test]
fn problems_of_a_command_line() {
    let none: Vec<String> = Vec::new();
    assert_eq!(messages(&["bin"], Vec::new()), none);
    assert_eq!(messages(&["bin", "--config"], Vec::new()), vec!["No file provided!"]);
    assert_eq!(messages(&["bin", "--plugins"], Vec::new()), vec!["No directory provided!"]);
    assert_eq!(
        messages(&["bin", "--config", "a"], Vec::new()),
        vec!["Provided path does not exist!"]
    );
    let kinds = |kind| vec![PathKind::Missing, PathKind::Missing, kind];
    assert_eq!(messages(&["bin", "--config", "a"], kinds(PathKind::File)), none);
    assert_eq!(
        messages(&["bin", "--config", "a"], kinds(PathKind::Directory)),
        vec!["Provided path is not a file!"]
    );
    assert_eq!(messages(&["bin", "--plugins", "a"], kinds(PathKind::Directory)), none);
    assert_eq!(
        messages(&["bin", "--plugins", "a"], kinds(PathKind::File)),
        vec!["Provided path is not a directory!"]
    );
    assert_eq!(
        messages(&["bin", "notaflag"], Vec::new()),
        vec!["Expected a flag, got a regular string instead: notaflag"]
    );
    assert_eq!(messages(&["bin", "--other", "a", "b", "-v"], Vec::new()), none);
}

#[test]
fn problems_come_in_the_order_of_the_texts() {
    let problems = flag_problems(
        &line(&["bin", "word", "--plugins", "p", "-x", "1", "2", "--config", "c", "--config"]),
        &vec![PathKind::Missing, PathKind::Missing, PathKind::Missing, PathKind::File],
    );
    assert_eq!(problems.len(), 4);
    assert!(matches!(&problems[0], FlagProblem::NotAFlag(text) if text == "word"));
    assert!(matches!(problems[1], FlagProblem::NotADirectory));
    assert!(matches!(problems[2], FlagProblem::MissingPath));
    assert!(matches!(problems[3], FlagProblem::NoFile));
}

#[test]
fn where_the_values_of_a_flag_end() {
    let texts = line(&["bin", "-x", "1", "2", "--y", "3"]);
    assert_eq!(values_end(&texts, 2), 4);
    assert_eq!(values_end(&texts, 4), 4);
    assert_eq!(values_end(&texts, 5), 6);
    assert_eq!(values_end(&texts, 6), 6);
    assert_eq!(values_end(&texts, 0), 1);
}
