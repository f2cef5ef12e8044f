use mnml_aws_codebuild::app::{App, TabKind};
use mnml_aws_codebuild::config::{
    config_path, default_kind, default_refresh, load, Config, ConfigError, ConfigFile, LoadError,
    Tab, HERE,
};
use mnml_aws_codebuild::report::report;
use mnml_aws_codebuild::text::{
    decimal_text, is_blank, is_white_space, prefix_text, same_text, signed_decimal_text,
};

fn text_of(table: &toml::Table, key: &str) -> Option<String> {
    table.get(key).map(|v| v.as_str().unwrap().to_string())
}

fn tab_of(table: &toml::Table) -> Tab {
    Tab {
        name: text_of(table, "name").unwrap(),
        kind: text_of(table, "kind").unwrap_or_else(default_kind),
        region: text_of(table, "region"),
        project: text_of(table, "project"),
        log_group: text_of(table, "log_group"),
        log_stream: text_of(table, "log_stream"),
    }
}

fn parse(text: &str) -> Config {
    let table: toml::Table = toml::from_str(text).unwrap();
    Config {
        region: text_of(&table, "region"),
        refresh_interval_secs: match table.get("refresh_interval_secs") {
            Some(v) => v.as_integer().unwrap() as u64,
            None => default_refresh(),
        },
        tabs: match table.get("tabs") {
            Some(v) => v.as_array().unwrap().iter().map(|t| tab_of(t.as_table().unwrap())).collect(),
            None => Vec::new(),
        },
    }
}

fn tab(name: &str, kind: &str, project: Option<&str>, log_group: Option<&str>) -> Tab {
    Tab {
        name: name.to_string(),
        kind: kind.to_string(),
        region: None,
        project: project.map(str::to_string),
        log_group: log_group.map(str::to_string),
        log_stream: None,
    }
}

fn config(tabs: Vec<Tab>) -> Config {
    Config { region: None, refresh_interval_secs: 60, tabs }
}

#[test]
fn example_parses_and_validates() {
    let cfg: Config = parse(Config::EXAMPLE);
    cfg.validate().unwrap();
}

#[test]
fn validate_rejects_builds_without_project() {
    let raw = r##"
[[tabs]]
name = "x"
"##;
    let cfg: Config = parse(raw);
    assert!(cfg.validate().is_err());
}

#[test]
fn validate_rejects_logs_without_log_group() {
    let raw = r##"
[[tabs]]
name = "x"
kind = "logs"
"##;
    let cfg: Config = parse(raw);
    let err = cfg.validate().unwrap_err();
    assert!(err.message().contains("log_group"));
}

#[test]
fn validate_rejects_unknown_kind() {
    let raw = r##"
[[tabs]]
name = "x"
kind = "garbage"
project = "p"
"##;
    let cfg: Config = parse(raw);
    let err = cfg.validate().unwrap_err();
    assert!(err.message().contains("builds"));
}

#[test]
fn validate_rejects_no_tabs() {
    let cfg: Config = parse("refresh_interval_secs = 30");
    assert!(cfg.validate().is_err());
}

#[test]
fn example_holds_what_it_says() {
    let cfg = parse(Config::EXAMPLE);
    assert_eq!(cfg.region, None);
    assert_eq!(cfg.refresh_interval_secs, 60);
    assert_eq!(cfg.tabs.len(), 2);
    assert_eq!(cfg.tabs[0].name, "my-app builds");
    assert_eq!(cfg.tabs[0].kind, "builds");
    assert_eq!(cfg.tabs[0].region, None);
    assert_eq!(cfg.tabs[0].project.as_deref(), Some("my-app"));
    assert_eq!(cfg.tabs[0].log_group, None);
    assert_eq!(cfg.tabs[0].log_stream, None);
    assert_eq!(cfg.tabs[1].name, "my-app logs");
    assert_eq!(cfg.tabs[1].kind, "logs");
    assert_eq!(cfg.tabs[1].region, None);
    assert_eq!(cfg.tabs[1].project, None);
    assert_eq!(cfg.tabs[1].log_group.as_deref(), Some("/aws/codebuild/my-app"));
    assert_eq!(cfg.tabs[1].log_stream, None);
}

#[test]
fn template_loads_on_the_next_run() {
    let written = match load("f", ConfigFile::Missing) {
        Err(e) => e.template().unwrap(),
        Ok(_) => panic!("there is no file"),
    };
    let cfg = load("f", ConfigFile::Parsed(parse(&written))).unwrap();
    assert_eq!((cfg.region, cfg.refresh_interval_secs, cfg.tabs.len()), (None, 60, 2));
    assert_eq!(cfg.tabs[0].project.as_deref(), Some("my-app"));
    assert_eq!(cfg.tabs[1].log_group.as_deref(), Some("/aws/codebuild/my-app"));
}

#[test]
fn each_error_has_its_sentence() {
    let none = config(vec![]).validate().unwrap_err();
    assert!(matches!(none, ConfigError::NoTabs));
    assert_eq!(none.message(), "config: at least one [[tabs]] entry required");

    let kind = config(vec![tab("ok", "builds", Some("p"), None), tab("x", "Builds", Some("p"), None)])
        .validate()
        .unwrap_err();
    assert_eq!(kind.message(), "tab #1 (x): kind must be `builds` or `logs`, got `Builds`");

    let project = config(vec![tab("x", "builds", None, Some("g"))]).validate().unwrap_err();
    assert_eq!(project.message(), "tab #0 (x): `project` is required for kind `builds`");

    let group = config(vec![tab("x", "logs", Some("p"), None)]).validate().unwrap_err();
    assert_eq!(group.message(), "tab #0 (x): `log_group` is required for kind `logs`");
}

#[test]
fn first_broken_tab_is_reported() {
    let cfg = config(vec![
        tab("a", "builds", Some("p"), None),
        tab("b", "logs", None, None),
        tab("c", "garbage", None, None),
    ]);
    match cfg.validate() {
        Err(ConfigError::MissingLogGroup { index, name }) => {
            assert_eq!(index, 1);
            assert_eq!(name, "b");
        }
        other => panic!("{:?}", other),
    }
}

#[test]
fn blank_fields_count_as_missing() {
    assert!(config(vec![tab("x", "builds", Some(" \t\n"), None)]).validate().is_err());
    assert!(config(vec![tab("x", "builds", Some("\u{3000}\u{a0}"), None)]).validate().is_err());
    assert!(config(vec![tab("x", "builds", Some(""), None)]).validate().is_err());
    assert!(config(vec![tab("x", "builds", Some(" p "), None)]).validate().is_ok());
    assert!(config(vec![tab("x", "logs", None, Some("  "))]).validate().is_err());
    assert!(config(vec![tab("x", "logs", None, Some("/g"))]).validate().is_ok());
}

#[test]
fn valid_config_opens() {
    let cfg = parse(Config::EXAMPLE);
    cfg.validate().unwrap();
    let (app, _) = App::new(cfg).unwrap();
    assert_eq!(app.tabs.len(), 2);
    assert_eq!(app.tabs[0].spec.kind, TabKind::Builds);
    assert_eq!(app.tabs[1].spec.kind, TabKind::Logs);
}

#[test]
fn missing_file_gets_the_template() {
    match load("/home/x/.config/f.toml", ConfigFile::Missing) {
        Err(e) => {
            assert!(matches!(e, LoadError::Template(_)));
            assert_eq!(
                e.message(),
                "wrote config template to /home/x/.config/f.toml — edit it then re-run"
            );
            assert_eq!(e.template().as_deref(), Some(Config::EXAMPLE));
        }
        Ok(_) => panic!("there is no file"),
    }
}

#[test]
fn found_file_is_checked() {
    let ok = load("f", ConfigFile::Parsed(parse(Config::EXAMPLE))).unwrap();
    assert_eq!(ok.tabs.len(), 2);
    let err = load("f", ConfigFile::Parsed(config(vec![]))).unwrap_err();
    assert!(matches!(err, LoadError::Invalid(ConfigError::NoTabs)));
    assert_eq!(err.message(), "config: at least one [[tabs]] entry required");
    assert_eq!(err.template(), None);
}

#[test]
fn config_lies_under_home() {
    let (base, names) = config_path(Some("/home/x"), HERE);
    assert_eq!(base, "/home/x");
    assert_eq!(names, vec![".config".to_string(), "mnml-aws-codebuild.toml".to_string()]);
    let (base, _) = config_path(None, HERE);
    assert_eq!(base, ".");
}

#[test]
fn report_lists_the_configuration() {
    let mut cfg = config(vec![tab("a \"b\"", "builds", Some("p\"q"), None)]);
    cfg.region = Some("us-east-1".to_string());
    cfg.refresh_interval_secs = 0;
    assert_eq!(
        report("/f.toml", &cfg),
        vec![
            "config: /f.toml".to_string(),
            "region: Some(\"us-east-1\")".to_string(),
            "refresh_interval_secs: 0".to_string(),
            "  tab 1 (a \"b\"): kind=builds project=Some(\"p\\\"q\") log_group=None log_stream=None"
                .to_string(),
            "(auth: defers to the `aws` CLI's own credential chain)".to_string(),
        ]
    );
}

#[test]
fn defaults() {
    assert_eq!(default_refresh(), 60);
    assert_eq!(default_kind(), "builds");
}

#[test]
fn white_space_is_that_of_the_standard_library() {
    for c in '\0'..=char::MAX {
        assert_eq!(is_white_space(c), c.is_whitespace(), "{:?}", c);
    }
}

#[test]
fn blank_is_empty_once_trimmed() {
    for s in ["", " ", "\u{2003}\u{2028}", " a ", "\u{200b}", "\u{feff}", "é", "\r\n"] {
        assert_eq!(is_blank(s), s.trim().is_empty(), "{:?}", s);
    }
}

#[test]
fn numbers_are_written_as_usual() {
    for n in [0u64, 1, 9, 10, 11, 99, 100, 12345, u64::MAX] {
        assert_eq!(decimal_text(n), n.to_string());
    }
    for n in [0i64, -1, 7, -10, 1000, i64::MAX, i64::MIN] {
        assert_eq!(signed_decimal_text(n), n.to_string());
    }
}

#[test]
fn prefixes_count_characters() {
    assert_eq!(prefix_text("abc", 2), "ab");
    assert_eq!(prefix_text("äöü", 2), "äö");
    assert_eq!(prefix_text("ab", 2), "ab");
    assert_eq!(prefix_text("", 2), "");
    assert!(same_text("äb", "äb"));
    assert!(!same_text("a", "ab"));
}
