use texlab_launcher::launch::initialize;
use texlab_launcher::launch::ConfigError;
use texlab_launcher::options::ConfigValue;

fn lsp_options(entries: Vec<(String, ConfigValue)>) -> Option<ConfigValue> {
    Some(ConfigValue::Obj(vec![("lsp".to_string(), ConfigValue::Obj(entries))]))
}

fn path_entry(path: &str) -> (String, ConfigValue) {
    ("serverPath".to_string(), ConfigValue::Str(path.to_string()))
}

#[test]
fn no_options_takes_default() {
    let d = initialize(None).unwrap();
    assert_eq!(d.server_uri_text, "urn:texlab");
    assert_eq!(d.server_uri.as_str(), "urn:texlab");
    assert!(d.server_args.is_empty());
    assert_eq!(d.raw_options, None);
}

#[test]
fn options_without_lsp_take_default() {
    let opts = Some(ConfigValue::Obj(vec![(
        "unrelated".to_string(),
        ConfigValue::Str("x".to_string()),
    )]));
    let d = initialize(opts).unwrap();
    assert_eq!(d.server_uri_text, "urn:texlab");
    assert!(d.server_args.is_empty());
}

#[test]
fn configured_path_is_encoded() {
    let d = initialize(lsp_options(vec![path_entry("/usr/bin/foo")])).unwrap();
    assert_eq!(d.server_uri_text, "urn:/usr/bin/foo");
    assert_eq!(d.server_uri.as_str(), "urn:/usr/bin/foo");
    assert!(d.server_args.is_empty());
}

#[test]
fn empty_path_takes_default() {
    let d = initialize(lsp_options(vec![path_entry("")])).unwrap();
    assert_eq!(d.server_uri_text, "urn:texlab");
}

#[test]
fn non_string_path_takes_default() {
    let d = initialize(lsp_options(vec![(
        "serverPath".to_string(),
        ConfigValue::Other,
    )]))
    .unwrap();
    assert_eq!(d.server_uri_text, "urn:texlab");
}

#[test]
fn mixed_args_keep_only_strings_in_order() {
    let args = ConfigValue::Arr(vec![
        ConfigValue::Str("--a".to_string()),
        ConfigValue::Other,
        ConfigValue::Str("--b".to_string()),
    ]);
    let d = initialize(lsp_options(vec![("serverArgs".to_string(), args)])).unwrap();
    assert_eq!(d.server_args, vec!["--a".to_string(), "--b".to_string()]);
    assert_eq!(d.server_uri_text, "urn:texlab");
}

#[test]
fn non_array_args_are_ignored() {
    let args = ConfigValue::Str("--alone".to_string());
    let d = initialize(lsp_options(vec![("serverArgs".to_string(), args)])).unwrap();
    assert!(d.server_args.is_empty());
}

#[test]
fn args_kept_with_configured_path() {
    let args = ConfigValue::Arr(vec![ConfigValue::Str("--log".to_string())]);
    let d = initialize(lsp_options(vec![
        ("serverArgs".to_string(), args),
        path_entry("/opt/texlab"),
    ]))
    .unwrap();
    assert_eq!(d.server_uri_text, "urn:/opt/texlab");
    assert_eq!(d.server_args, vec!["--log".to_string()]);
}

#[test]
fn selector_is_one_latex_filter_regardless_of_input() {
    for opts in [
        None,
        lsp_options(vec![path_entry("/usr/bin/foo")]),
        lsp_options(vec![]),
    ] {
        let d = initialize(opts).unwrap();
        assert_eq!(d.document_selector.len(), 1);
        let f = &d.document_selector[0];
        assert_eq!(f.language.as_deref(), Some("tex"));
        assert_eq!(f.pattern.as_deref(), Some("**/*.{tex,sty,cls,bib}"));
        assert_eq!(f.scheme, None);
    }
}

#[test]
fn unparsable_path_reports_config_error() {
    // '^' is forbidden in the host part of a URI, so `urn://^` is rejected.
    let r = initialize(lsp_options(vec![path_entry("//^")]));
    assert_eq!(
        r.err(),
        Some(ConfigError {
            attempted_uri: "urn://^".to_string()
        })
    );
}

#[test]
fn exactly_one_outcome_per_call() {
    let ok = initialize(lsp_options(vec![path_entry("/usr/bin/foo")]));
    assert!(ok.is_ok() != ok.is_err());
    let err = initialize(lsp_options(vec![path_entry("//^")]));
    assert!(err.is_err() != err.is_ok());
}

#[test]
fn raw_options_are_passed_through() {
    let d = initialize(lsp_options(vec![path_entry("/usr/bin/foo")])).unwrap();
    assert_eq!(d.raw_options, lsp_options(vec![path_entry("/usr/bin/foo")]));
}
