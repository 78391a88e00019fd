use maple_config::document::Node;
use maple_config::fields::{Fault, SchemaError};
use maple_config::loader::{load, load_document, load_parsed, load_text, DocumentSource, LoadError};
use maple_config::maps::StringMap;
use maple_config::paths::AbsPathBuf;
use maple_config::schema::{
    Config, CtagsPluginConfig, CursorWordConfig, GitPluginConfig, HighlightEngine, IgnoreConfig,
    LogConfig, MatcherConfig, PluginConfig, ProviderConfig, RenderStrategy, SyntaxPluginConfig,
};
use maple_config::syntax::{parse_document, render_document, SyntaxError};

fn read(text: &str) -> Result<Config, SchemaError> {
    Config::from_document(&parse_document(text).expect("the text is TOML"))
}

fn fault_of(text: &str) -> (Vec<String>, Fault) {
    let error = read(text).expect_err("the document breaks the schema");
    (error.path, error.fault)
}

fn path(keys: &[&str]) -> Vec<String> {
    keys.iter().map(|key| key.to_string()).collect()
}

#[test]
fn test_load_config() {
    let toml_content = r#"
          [log]
          max-level = "trace"
          log-file = "/tmp/clap.log"

          [matcher]
          tiebreak = "score,-begin,-end,-length"

          [plugin.cursorword]
          enable = true

          [provider.debounce]
          "*" = 200
          "files" = 100

          [global-ignore]
          ignore-file-path-pattern = ["test", "build"]

          # [provider.project-ignore."~/src/github.com/subspace/subspace"]
          # ignore-comments = true

          [provider.provider-ignores.dumb_jump]
          ignore-comments = true
"#;
    let user_config: Config = Config::from_document(
        &parse_document(toml_content).expect("Failed to deserialize config"),
    )
    .expect("Failed to deserialize config");

    let mut debounce = StringMap::new();
    debounce.insert("*".to_string(), 200);
    debounce.insert("files".to_string(), 100);
    let mut provider_ignores = StringMap::new();
    provider_ignores.insert(
        "dumb_jump".to_string(),
        IgnoreConfig {
            ignore_comments: true,
            ..Default::default()
        },
    );

    assert_eq!(
        user_config,
        Config {
            log: LogConfig {
                log_file: Some("/tmp/clap.log".to_string()),
                max_level: "trace".to_string(),
                ..Default::default()
            },
            matcher: MatcherConfig {
                tiebreak: "score,-begin,-end,-length".to_string()
            },
            plugin: PluginConfig {
                cursorword: CursorWordConfig {
                    enable: true,
                    ..Default::default()
                },
                ..Default::default()
            },
            provider: ProviderConfig {
                debounce,
                provider_ignores,
                ..Default::default()
            },
            global_ignore: IgnoreConfig {
                ignore_file_path_pattern: vec!["test".to_string(), "build".to_string()],
                ..Default::default()
            },
        }
    );
}

#[test]
fn test_config_deserialize() {
    let config = Config::default();
    config
        .to_toml_string()
        .expect("Deserialize config is okay");
}

#[test]
fn defaults_have_the_documented_values() {
    let config = Config::default();
    assert_eq!(config.log.log_file, None);
    assert_eq!(config.log.max_level, "debug");
    assert_eq!(config.log.log_target, "");
    assert_eq!(config.matcher.tiebreak, "score,-begin,-end,-length");
    assert!(!config.plugin.colorizer.enable);
    assert!(!config.plugin.cursorword.enable);
    assert!(!config.plugin.cursorword.ignore_comment_line);
    assert_eq!(config.plugin.cursorword.ignore_files, "*.toml,*.json,*.yml,*.log,tmp");
    assert!(!config.plugin.ctags.enable);
    assert_eq!(config.plugin.ctags.max_file_size, 4 * 1024 * 1024);
    assert!(config.plugin.git.enable);
    assert_eq!(config.plugin.git.blame_format_string, None);
    assert!(!config.plugin.linter.enable);
    assert!(!config.plugin.markdown.enable);
    assert_eq!(
        config.plugin.syntax.render_strategy,
        RenderStrategy::EntireBufferUpToLimit(256 * 1024)
    );
    assert!(!config.provider.share_input_history);
    assert_eq!(config.provider.max_display_size, None);
    assert_eq!(config.provider.preview_highlight_engine, HighlightEngine::Vim);
    assert_eq!(config.provider.sublime_syntax_color_scheme, None);
    assert!(config.provider.project_ignores.is_empty());
    assert!(config.provider.provider_ignores.is_empty());
    assert!(config.provider.debounce.is_empty());
    assert_eq!(
        config.global_ignore,
        IgnoreConfig {
            ignore_comments: false,
            git_tracked_only: false,
            ignore_file_name_pattern: vec![],
            ignore_file_path_pattern: vec![],
        }
    );
}

#[test]
fn absent_file_gives_defaults_without_error() {
    assert_eq!(load(DocumentSource::Absent), (Config::default(), None));
}

#[test]
fn empty_text_gives_defaults_without_error() {
    assert_eq!(load_text(""), (Config::default(), None));
    assert_eq!(load_text("\n  # nothing is set\n"), (Config::default(), None));
    assert_eq!(
        load(DocumentSource::Contents(String::new())),
        (Config::default(), None)
    );
}

#[test]
fn empty_document_gives_defaults_without_error() {
    assert_eq!(load_document(&Node::Table(vec![])), (Config::default(), None));
}

#[test]
fn empty_sections_give_defaults() {
    let text = "[log]\n[matcher]\n[plugin.git]\n[plugin.syntax]\n[provider.debounce]\n[global-ignore]\n";
    assert_eq!(load_text(text), (Config::default(), None));
}

#[test]
fn unreadable_file_gives_defaults_and_the_error() {
    let (config, error) = load(DocumentSource::Unreadable("permission denied".to_string()));
    assert_eq!(config, Config::default());
    assert_eq!(error, Some(LoadError::Io("permission denied".to_string())));
}

#[test]
fn malformed_text_gives_defaults_and_a_syntax_error() {
    let (config, error) = load_text("[log\nmax-level = ");
    assert_eq!(config, Config::default());
    match error {
        Some(LoadError::Syntax(SyntaxError { message, span })) => {
            assert!(!message.is_empty());
            assert!(span.is_some());
        }
        other => panic!("expected a syntax error, got {:?}", other),
    }
}

#[test]
fn syntax_error_is_handed_on_as_it_is() {
    let error = SyntaxError {
        message: "expected `=`".to_string(),
        span: Some((3, 4)),
    };
    let (config, reported) = load_parsed(Err(SyntaxError {
        message: "expected `=`".to_string(),
        span: Some((3, 4)),
    }));
    assert_eq!(config, Config::default());
    assert_eq!(reported, Some(LoadError::Syntax(error)));
}

#[test]
fn parsed_document_is_loaded() {
    let document = Node::Table(vec![(
        "log".to_string(),
        Node::Table(vec![("max-level".to_string(), Node::String("info".to_string()))]),
    )]);
    let (config, error) = load_parsed(Ok(document));
    assert_eq!(error, None);
    assert_eq!(config.log.max_level, "info");
    assert_eq!(config.matcher, MatcherConfig::default());
}

#[test]
fn unknown_key_at_the_root_gives_defaults_and_an_error() {
    let (config, error) = load_text("colour = \"red\"\n[log]\nmax-level = \"trace\"\n");
    assert_eq!(config, Config::default());
    assert_eq!(
        error,
        Some(LoadError::Schema(SchemaError {
            path: path(&["colour"]),
            fault: Fault::UnknownField,
        }))
    );
}

#[test]
fn unknown_key_in_any_table_is_rejected() {
    let cases: Vec<(&str, Vec<String>)> = vec![
        ("[log]\nlevel = \"trace\"\n", path(&["log", "level"])),
        ("[matcher]\ntie-break = \"score\"\n", path(&["matcher", "tie-break"])),
        ("[plugin.vista]\nenable = true\n", path(&["plugin", "vista"])),
        ("[plugin.colorizer]\non = true\n", path(&["plugin", "colorizer", "on"])),
        ("[plugin.cursorword]\nenabled = true\n", path(&["plugin", "cursorword", "enabled"])),
        ("[plugin.ctags]\nmax_file_size = 1\n", path(&["plugin", "ctags", "max_file_size"])),
        ("[plugin.git]\nblame = \"x\"\n", path(&["plugin", "git", "blame"])),
        ("[plugin.linter]\nlint = true\n", path(&["plugin", "linter", "lint"])),
        ("[plugin.markdown]\ntoc = true\n", path(&["plugin", "markdown", "toc"])),
        ("[plugin.syntax]\nstrategy = \"visual-lines\"\n", path(&["plugin", "syntax", "strategy"])),
        (
            "[plugin.syntax.render-strategy]\nstrategy = \"visual-lines\"\nlimit = 3\n",
            path(&["plugin", "syntax", "render-strategy", "limit"]),
        ),
        ("[provider]\nhistory = true\n", path(&["provider", "history"])),
        (
            "[provider.provider-ignores.grep]\nignore = true\n",
            path(&["provider", "provider-ignores", "grep", "ignore"]),
        ),
        (
            "[provider.project-ignores.\"/src\"]\nignore = true\n",
            path(&["provider", "project-ignores", "/src", "ignore"]),
        ),
        ("[global-ignore]\nignore-comment = true\n", path(&["global-ignore", "ignore-comment"])),
    ];
    for (text, place) in cases {
        let (config, error) = load_text(text);
        assert_eq!(config, Config::default(), "{}", text);
        assert_eq!(
            error,
            Some(LoadError::Schema(SchemaError {
                path: place,
                fault: Fault::UnknownField,
            })),
            "{}",
            text
        );
    }
}

#[test]
fn first_unknown_key_of_a_table_is_reported_before_a_faulty_value() {
    assert_eq!(
        fault_of("[log]\nmax-level = 3\nzeta = 1\nalpha = 2\n"),
        (path(&["log", "alpha"]), Fault::UnknownField)
    );
}

#[test]
fn value_of_the_wrong_kind_is_rejected() {
    assert_eq!(fault_of("log = 3\n"), (path(&["log"]), Fault::TypeMismatch));
    assert_eq!(
        fault_of("[log]\nmax-level = 3\n"),
        (path(&["log", "max-level"]), Fault::TypeMismatch)
    );
    assert_eq!(
        fault_of("[log]\nlog-file = false\n"),
        (path(&["log", "log-file"]), Fault::TypeMismatch)
    );
    assert_eq!(
        fault_of("[plugin.git]\nenable = \"yes\"\n"),
        (path(&["plugin", "git", "enable"]), Fault::TypeMismatch)
    );
    assert_eq!(
        fault_of("[plugin.ctags]\nmax-file-size = 1.5\n"),
        (path(&["plugin", "ctags", "max-file-size"]), Fault::TypeMismatch)
    );
    assert_eq!(
        fault_of("[plugin.ctags]\nmax-file-size = 1979-05-27\n"),
        (path(&["plugin", "ctags", "max-file-size"]), Fault::TypeMismatch)
    );
    assert_eq!(
        fault_of("[global-ignore]\nignore-file-name-pattern = \"test\"\n"),
        (path(&["global-ignore", "ignore-file-name-pattern"]), Fault::TypeMismatch)
    );
    assert_eq!(
        fault_of("[global-ignore]\nignore-file-path-pattern = [\"a\", 1]\n"),
        (path(&["global-ignore", "ignore-file-path-pattern"]), Fault::TypeMismatch)
    );
    assert_eq!(
        fault_of("[provider]\ndebounce = 200\n"),
        (path(&["provider", "debounce"]), Fault::TypeMismatch)
    );
    assert_eq!(
        fault_of("[provider.debounce]\nfiles = \"100\"\n"),
        (path(&["provider", "debounce", "files"]), Fault::TypeMismatch)
    );
    assert_eq!(
        fault_of("[provider]\npreview-highlight-engine = 1\n"),
        (path(&["provider", "preview-highlight-engine"]), Fault::TypeMismatch)
    );
    assert_eq!(
        fault_of("[plugin.syntax.render-strategy]\nstrategy = 1\n"),
        (path(&["plugin", "syntax", "render-strategy", "strategy"]), Fault::TypeMismatch)
    );
    assert_eq!(
        fault_of("[provider]\nprovider-ignores = [1]\n"),
        (path(&["provider", "provider-ignores"]), Fault::TypeMismatch)
    );
}

#[test]
fn document_that_is_no_table_is_rejected() {
    let error = Config::from_document(&Node::Integer(1)).expect_err("a number is no settings");
    assert_eq!(error, SchemaError { path: vec![], fault: Fault::TypeMismatch });
    let error = Config::from_document(&Node::Array(vec![])).expect_err("an array is no settings");
    assert_eq!(error, SchemaError { path: vec![], fault: Fault::TypeMismatch });
}

#[test]
fn number_out_of_range_is_rejected() {
    assert_eq!(
        fault_of("[plugin.ctags]\nmax-file-size = -1\n"),
        (path(&["plugin", "ctags", "max-file-size"]), Fault::OutOfRange)
    );
    assert_eq!(
        fault_of("[provider]\nmax-display-size = -10\n"),
        (path(&["provider", "max-display-size"]), Fault::OutOfRange)
    );
    assert_eq!(
        fault_of("[provider.debounce]\n\"*\" = -200\n"),
        (path(&["provider", "debounce", "*"]), Fault::OutOfRange)
    );
    assert_eq!(
        fault_of(
            "[plugin.syntax.render-strategy]\nstrategy = \"entire-buffer-up-to-limit\"\nfile-size-limit = -1\n"
        ),
        (
            path(&["plugin", "syntax", "render-strategy", "file-size-limit"]),
            Fault::OutOfRange
        )
    );
}

#[test]
fn largest_numbers_of_a_document_are_read() {
    let config = read("[plugin.ctags]\nmax-file-size = 9223372036854775807\n[provider.debounce]\ngrep = 0\n")
        .expect("the numbers fit");
    assert_eq!(config.plugin.ctags.max_file_size, 9223372036854775807);
    assert_eq!(config.provider.debounce.get("grep"), Some(&0));
}

#[test]
fn unknown_name_is_rejected() {
    assert_eq!(
        fault_of("[provider]\npreview-highlight-engine = \"emacs\"\n"),
        (path(&["provider", "preview-highlight-engine"]), Fault::UnknownVariant)
    );
    assert_eq!(
        fault_of("[provider]\npreview-highlight-engine = \"Vim\"\n"),
        (path(&["provider", "preview-highlight-engine"]), Fault::UnknownVariant)
    );
    assert_eq!(
        fault_of("[plugin.syntax.render-strategy]\nstrategy = \"everything\"\n"),
        (path(&["plugin", "syntax", "render-strategy", "strategy"]), Fault::UnknownVariant)
    );
}

#[test]
fn render_strategy_needs_its_name_and_its_limit() {
    assert_eq!(
        fault_of("[plugin.syntax.render-strategy]\n"),
        (path(&["plugin", "syntax", "render-strategy", "strategy"]), Fault::MissingField)
    );
    assert_eq!(
        fault_of("[plugin.syntax.render-strategy]\nfile-size-limit = 10\n"),
        (path(&["plugin", "syntax", "render-strategy", "strategy"]), Fault::MissingField)
    );
    assert_eq!(
        fault_of("[plugin.syntax.render-strategy]\nstrategy = \"entire-buffer-up-to-limit\"\n"),
        (path(&["plugin", "syntax", "render-strategy", "file-size-limit"]), Fault::MissingField)
    );
    assert_eq!(
        fault_of("[plugin.syntax.render-strategy]\nstrategy = \"visual-lines\"\nfile-size-limit = 10\n"),
        (path(&["plugin", "syntax", "render-strategy", "file-size-limit"]), Fault::UnknownField)
    );
}

#[test]
fn render_strategy_is_read_from_sibling_keys() {
    let config = read("[plugin.syntax.render-strategy]\nstrategy = \"visual-lines\"\n").expect("valid");
    assert_eq!(
        config.plugin.syntax,
        SyntaxPluginConfig { render_strategy: RenderStrategy::VisualLines }
    );
    let config = read(
        "[plugin.syntax.render-strategy]\nfile-size-limit = 1024\nstrategy = \"entire-buffer-up-to-limit\"\n",
    )
    .expect("valid");
    assert_eq!(
        config.plugin.syntax.render_strategy,
        RenderStrategy::EntireBufferUpToLimit(1024)
    );
    let config =
        read("plugin = { syntax = { render-strategy = { strategy = \"visual-lines\" } } }\n").expect("valid");
    assert_eq!(config.plugin.syntax.render_strategy, RenderStrategy::VisualLines);
}

#[test]
fn highlight_engines_are_read_by_name() {
    for (name, engine) in [
        ("sublime-syntax", HighlightEngine::SublimeSyntax),
        ("tree-sitter", HighlightEngine::TreeSitter),
        ("vim", HighlightEngine::Vim),
    ] {
        let config = read(&format!("[provider]\npreview-highlight-engine = \"{}\"\n", name)).expect("valid");
        assert_eq!(config.provider.preview_highlight_engine, engine);
    }
}

#[test]
fn project_ignores_are_keyed_by_absolute_paths() {
    let config = read("[provider.project-ignores.\"/home/me/src\"]\ngit-tracked-only = true\n").expect("valid");
    let project = AbsPathBuf::try_new("/home/me/src".to_string()).expect("absolute");
    assert_eq!(
        config.provider.project_ignores.get(&project),
        Some(&IgnoreConfig { git_tracked_only: true, ..Default::default() })
    );
    assert_eq!(config.provider.project_ignores.len(), 1);

    assert_eq!(
        fault_of("[provider.project-ignores.\"src/here\"]\ngit-tracked-only = true\n"),
        (path(&["provider", "project-ignores", "src/here"]), Fault::NotAbsolute)
    );
    assert_eq!(
        fault_of("[provider.project-ignores.\"~/src\"]\ngit-tracked-only = true\n"),
        (path(&["provider", "project-ignores", "~/src"]), Fault::NotAbsolute)
    );
    assert_eq!(
        fault_of("[provider.project-ignores.\"\"]\n"),
        (path(&["provider", "project-ignores", ""]), Fault::NotAbsolute)
    );
}

#[test]
fn fields_that_are_set_replace_their_defaults_one_by_one() {
    let config = read(
        "[plugin.ctags]\nenable = true\n[plugin.git]\nblame-format-string = \"(author) summary\"\n[provider]\nshare-input-history = true\nmax-display-size = 30\nsublime-syntax-color-scheme = \"Coldark-Dark\"\n",
    )
    .expect("valid");
    assert_eq!(
        config.plugin.ctags,
        CtagsPluginConfig { enable: true, max_file_size: 4194304 }
    );
    assert_eq!(
        config.plugin.git,
        GitPluginConfig { enable: true, blame_format_string: Some("(author) summary".to_string()) }
    );
    assert!(config.provider.share_input_history);
    assert_eq!(config.provider.max_display_size, Some(30));
    assert_eq!(
        config.provider.sublime_syntax_color_scheme,
        Some("Coldark-Dark".to_string())
    );
    assert_eq!(config.provider.preview_highlight_engine, HighlightEngine::Vim);
    assert_eq!(config.log, LogConfig::default());
}

#[test]
fn loading_twice_gives_the_same() {
    let text = "[provider.debounce]\nfiles = 100\n[log]\nlog-target = \"rpc=debug\"\n";
    assert_eq!(load_text(text), load_text(text));
    let broken = "[provider.debounce]\nfiles = true\n";
    assert_eq!(load_text(broken), load_text(broken));
}

fn busy_config() -> Config {
    let mut config = Config::default();
    config.log.log_file = Some("/var/log/clap.log".to_string());
    config.log.max_level = "trace".to_string();
    config.log.log_target = "maple_core::stdio_server=trace,rpc=debug".to_string();
    config.matcher.tiebreak = "-length, score".to_string();
    config.plugin.colorizer.enable = true;
    config.plugin.cursorword.ignore_comment_line = true;
    config.plugin.cursorword.ignore_files = "*.md".to_string();
    config.plugin.ctags.max_file_size = 1;
    config.plugin.git.enable = false;
    config.plugin.git.blame_format_string = Some("summary".to_string());
    config.plugin.linter.enable = true;
    config.plugin.markdown.enable = true;
    config.plugin.syntax.render_strategy = RenderStrategy::VisualLines;
    config.provider.share_input_history = true;
    config.provider.max_display_size = Some(42);
    config.provider.preview_highlight_engine = HighlightEngine::TreeSitter;
    config.provider.sublime_syntax_color_scheme = Some("Visual Studio Dark+".to_string());
    config.provider.debounce.insert("files".to_string(), 100);
    config.provider.debounce.insert("*".to_string(), 250);
    config.provider.provider_ignores.insert(
        "dumb_jump".to_string(),
        IgnoreConfig {
            ignore_comments: true,
            git_tracked_only: false,
            ignore_file_name_pattern: vec!["*_test.go".to_string()],
            ignore_file_path_pattern: vec!["vendor".to_string(), "a \"b\"".to_string()],
        },
    );
    config.provider.provider_ignores.insert("grep".to_string(), IgnoreConfig::default());
    config.provider.project_ignores.insert(
        AbsPathBuf::try_new("/home/me/project".to_string()).expect("absolute"),
        IgnoreConfig { git_tracked_only: true, ..Default::default() },
    );
    config.global_ignore.ignore_file_path_pattern = vec!["target".to_string()];
    config
}

#[test]
fn written_document_reads_back_as_the_settings() {
    for config in [Config::default(), busy_config()] {
        let document = config.to_document().expect("the numbers fit");
        assert_eq!(Config::from_document(&document), Ok(config));
    }
}

#[test]
fn written_text_loads_as_the_settings() {
    for config in [Config::default(), busy_config()] {
        let text = config.to_toml_string().expect("the settings can be written");
        assert_eq!(load_text(&text), (config, None));
    }
}

#[test]
fn loaded_text_written_and_loaded_again_is_the_same() {
    let text = "[provider.debounce]\nfiles = 100\n\"*\" = 200\n[plugin.syntax.render-strategy]\nstrategy = \"visual-lines\"\n[provider.project-ignores.\"/x\"]\nignore-comments = true\n";
    let (first, error) = load_text(text);
    assert_eq!(error, None);
    let again = first.to_toml_string().expect("what was read can be written");
    assert_eq!(load_text(&again), (first, None));
}

#[test]
fn default_document_lists_every_setting_that_is_set() {
    let document = Config::default().to_document().expect("the defaults fit");
    let sections: Vec<&str> = match &document {
        Node::Table(entries) => entries.iter().map(|(key, _)| key.as_str()).collect(),
        other => panic!("expected a table, got {:?}", other),
    };
    assert_eq!(sections, vec!["log", "matcher", "plugin", "provider", "global-ignore"]);
    assert_eq!(
        document.get("log"),
        Some(&Node::Table(vec![
            ("max-level".to_string(), Node::String("debug".to_string())),
            ("log-target".to_string(), Node::String(String::new())),
        ]))
    );
    let syntax = document.get("plugin").and_then(|plugin| plugin.get("syntax"));
    assert_eq!(
        syntax.and_then(|syntax| syntax.get("render-strategy")),
        Some(&Node::Table(vec![
            ("strategy".to_string(), Node::String("entire-buffer-up-to-limit".to_string())),
            ("file-size-limit".to_string(), Node::Integer(262144)),
        ]))
    );
}

#[test]
fn number_too_large_for_a_document_is_not_written() {
    let mut config = Config::default();
    config.plugin.ctags.max_file_size = u64::MAX;
    assert_eq!(config.to_document(), None);
    assert_eq!(config.to_toml_string(), None);

    let mut config = Config::default();
    config.provider.debounce.insert("files".to_string(), 9223372036854775808);
    assert_eq!(config.to_document(), None);

    let mut config = Config::default();
    config.provider.debounce.insert("files".to_string(), 9223372036854775807);
    assert!(config.to_document().is_some());
}

#[test]
fn parse_document_reads_tables_arrays_and_plain_values() {
    let document = parse_document(
        "name = \"x\"\ncount = -3\non = true\nratio = 0.5\nday = 1979-05-27\nlist = [1, \"a\"]\n[table]\nb = 1\na = 2\n",
    )
    .expect("the text is TOML");
    assert_eq!(document.get("name"), Some(&Node::String("x".to_string())));
    assert_eq!(document.get("count"), Some(&Node::Integer(-3)));
    assert_eq!(document.get("on"), Some(&Node::Boolean(true)));
    assert_eq!(document.get("ratio"), Some(&Node::Float));
    assert_eq!(document.get("day"), Some(&Node::Datetime));
    assert_eq!(
        document.get("list"),
        Some(&Node::Array(vec![Node::Integer(1), Node::String("a".to_string())]))
    );
    assert_eq!(
        document.get("table"),
        Some(&Node::Table(vec![
            ("a".to_string(), Node::Integer(2)),
            ("b".to_string(), Node::Integer(1)),
        ]))
    );
    assert_eq!(document.get("missing"), None);
}

#[test]
fn parse_document_reports_where_the_text_is_wrong() {
    let error = parse_document("a = 1\na = 2\n").expect_err("a key is set twice");
    assert!(!error.message.is_empty());
    let (start, end) = error.span.expect("the place is known");
    assert!(start <= end);
    assert!(end <= "a = 1\na = 2\n".len());
}

#[test]
fn render_document_writes_text_that_parses_to_the_document() {
    let document = Node::Table(vec![
        ("a".to_string(), Node::Integer(7)),
        (
            "b".to_string(),
            Node::Table(vec![("c".to_string(), Node::Array(vec![Node::Boolean(false)]))]),
        ),
    ]);
    let text = render_document(&document).expect("the document can be written");
    assert!(text.contains("a = 7"));
    assert_eq!(parse_document(&text), Ok(document));
}

#[test]
fn render_document_has_no_text_for_what_was_not_kept() {
    assert_eq!(render_document(&Node::Table(vec![("x".to_string(), Node::Float)])), None);
    assert_eq!(render_document(&Node::Table(vec![("x".to_string(), Node::Datetime)])), None);
    assert_eq!(render_document(&Node::Integer(1)), None);
}

#[test]
fn lookup_takes_the_first_entry_of_a_key() {
    let document = Node::Table(vec![
        ("a".to_string(), Node::Integer(1)),
        ("a".to_string(), Node::Integer(2)),
    ]);
    assert_eq!(document.get("a"), Some(&Node::Integer(1)));
    assert_eq!(document.unknown_key(&["a"]), None);
    assert_eq!(document.unknown_key(&["b"]), Some("a"));
    assert_eq!(Node::Integer(1).get("a"), None);
    assert_eq!(Node::Integer(1).unknown_key(&[]), None);
}
