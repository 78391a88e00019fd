//! From a document to settings.
//!
//! A table of the document may hold the keys of its settings and no others. A setting whose
//! key is missing takes its default. Of the faults of a table, a key that is no setting is
//! reported first, the first such key in the table's order; then the first faulty setting in
//! the order in which this file lists the settings.

use vstd::prelude::*;
use crate::document::{lemma_table_view, names_of, Doc, Node};
use crate::fields::{
    bool_field, fault_at, fault_here, known_keys_only, lookup_in, optional_string_field,
    optional_usize_field, read_bool_field, read_known_keys_only, read_optional_string_field,
    read_optional_usize_field, read_string_field, read_strings_field, read_u64, read_u64_field,
    read_usize, string_field, strings_field, u64_field, u64_of, under, usize_of, Fault, SchemaError,
    SchemaErrorView,
};
use crate::maps::{PathMap, StringMap};
use crate::paths::{is_absolute, AbsPathBuf};
use crate::schema::{
    ColorizerPluginConfig, Config, ConfigView, CtagsPluginConfig, CursorWordConfig,
    CursorWordConfigView, GitPluginConfig, GitPluginConfigView, HighlightEngine, IgnoreConfig,
    IgnoreConfigView, LinterPluginConfig, LogConfig, LogConfigView, MarkdownPluginConfig,
    MatcherConfig, MatcherConfigView, PluginConfig, PluginConfigView, ProviderConfig,
    ProviderConfigView, RenderStrategy, SyntaxPluginConfig, DEFAULT_MAX_FILE_SIZE,
};
use crate::text::same_text;

verus! {

/// The keys of the log settings.
pub open spec fn log_keys() -> Seq<Seq<char>> {
    seq!["log-file"@, "max-level"@, "log-target"@]
}

/// The log settings that `section` holds.
pub open spec fn log_of(section: Doc) -> Result<LogConfigView, SchemaErrorView> {
    match known_keys_only(section, log_keys()) {
        Err(error) => Err(error),
        Ok(_) => match optional_string_field(section, "log-file"@) {
            Err(error) => Err(error),
            Ok(log_file) => match string_field(section, "max-level"@, "debug"@) {
                Err(error) => Err(error),
                Ok(max_level) => match string_field(section, "log-target"@, ""@) {
                    Err(error) => Err(error),
                    Ok(log_target) => Ok(LogConfigView { log_file, max_level, log_target }),
                },
            },
        },
    }
}

/// Reads the log settings.
pub fn read_log(section: &Node) -> (read: Result<LogConfig, SchemaError>)
    ensures
        match read {
            Ok(log) => log_of(section@) == Ok::<LogConfigView, SchemaErrorView>(log@),
            Err(error) => log_of(section@) == Err::<LogConfigView, SchemaErrorView>(error@),
        },
{
    let known = ["log-file", "max-level", "log-target"];
    assert(names_of(known@) =~= log_keys());
    read_known_keys_only(section, &known)?;
    let log_file = read_optional_string_field(section, "log-file")?;
    let max_level = read_string_field(section, "max-level", "debug")?;
    let log_target = read_string_field(section, "log-target", "")?;
    Ok(LogConfig { log_file, max_level, log_target })
}

/// The keys of the matcher settings.
pub open spec fn matcher_keys() -> Seq<Seq<char>> {
    seq!["tiebreak"@]
}

/// The matcher settings that `section` holds.
pub open spec fn matcher_of(section: Doc) -> Result<MatcherConfigView, SchemaErrorView> {
    match known_keys_only(section, matcher_keys()) {
        Err(error) => Err(error),
        Ok(_) => match string_field(section, "tiebreak"@, "score,-begin,-end,-length"@) {
            Err(error) => Err(error),
            Ok(tiebreak) => Ok(MatcherConfigView { tiebreak }),
        },
    }
}

/// Reads the matcher settings.
pub fn read_matcher(section: &Node) -> (read: Result<MatcherConfig, SchemaError>)
    ensures
        match read {
            Ok(matcher) => matcher_of(section@) == Ok::<MatcherConfigView, SchemaErrorView>(
                matcher@,
            ),
            Err(error) => matcher_of(section@) == Err::<MatcherConfigView, SchemaErrorView>(
                error@,
            ),
        },
{
    let known = ["tiebreak"];
    assert(names_of(known@) =~= matcher_keys());
    read_known_keys_only(section, &known)?;
    let tiebreak = read_string_field(section, "tiebreak", "score,-begin,-end,-length")?;
    Ok(MatcherConfig { tiebreak })
}

/// The keys of the cursorword settings.
pub open spec fn cursorword_keys() -> Seq<Seq<char>> {
    seq!["enable"@, "ignore-comment-line"@, "ignore-files"@]
}

/// The cursorword settings that `section` holds.
pub open spec fn cursorword_of(section: Doc) -> Result<CursorWordConfigView, SchemaErrorView> {
    match known_keys_only(section, cursorword_keys()) {
        Err(error) => Err(error),
        Ok(_) => match bool_field(section, "enable"@, false) {
            Err(error) => Err(error),
            Ok(enable) => match bool_field(section, "ignore-comment-line"@, false) {
                Err(error) => Err(error),
                Ok(ignore_comment_line) => match string_field(
                    section,
                    "ignore-files"@,
                    "*.toml,*.json,*.yml,*.log,tmp"@,
                ) {
                    Err(error) => Err(error),
                    Ok(ignore_files) => Ok(
                        CursorWordConfigView { enable, ignore_comment_line, ignore_files },
                    ),
                },
            },
        },
    }
}

/// Reads the cursorword settings.
pub fn read_cursorword(section: &Node) -> (read: Result<CursorWordConfig, SchemaError>)
    ensures
        match read {
            Ok(cursorword) => cursorword_of(section@) == Ok::<
                CursorWordConfigView,
                SchemaErrorView,
            >(cursorword@),
            Err(error) => cursorword_of(section@) == Err::<CursorWordConfigView, SchemaErrorView>(
                error@,
            ),
        },
{
    let known = ["enable", "ignore-comment-line", "ignore-files"];
    assert(names_of(known@) =~= cursorword_keys());
    read_known_keys_only(section, &known)?;
    let enable = read_bool_field(section, "enable", false)?;
    let ignore_comment_line = read_bool_field(section, "ignore-comment-line", false)?;
    let ignore_files = read_string_field(section, "ignore-files", "*.toml,*.json,*.yml,*.log,tmp")?;
    Ok(CursorWordConfig { enable, ignore_comment_line, ignore_files })
}

/// The keys of a plugin that can only be switched on or off.
pub open spec fn switch_keys() -> Seq<Seq<char>> {
    seq!["enable"@]
}

/// Whether the plugin of `section`, which can only be switched on or off, is on.
pub open spec fn switch_of(section: Doc) -> Result<bool, SchemaErrorView> {
    match known_keys_only(section, switch_keys()) {
        Err(error) => Err(error),
        Ok(_) => bool_field(section, "enable"@, false),
    }
}

/// Reads the settings of a plugin that can only be switched on or off.
pub fn read_switch(section: &Node) -> (read: Result<bool, SchemaError>)
    ensures
        match read {
            Ok(enable) => switch_of(section@) == Ok::<bool, SchemaErrorView>(enable),
            Err(error) => switch_of(section@) == Err::<bool, SchemaErrorView>(error@),
        },
{
    let known = ["enable"];
    assert(names_of(known@) =~= switch_keys());
    read_known_keys_only(section, &known)?;
    read_bool_field(section, "enable", false)
}

/// The markdown settings that `section` holds.
pub open spec fn markdown_of(section: Doc) -> Result<MarkdownPluginConfig, SchemaErrorView> {
    match switch_of(section) {
        Err(error) => Err(error),
        Ok(enable) => Ok(MarkdownPluginConfig { enable }),
    }
}

/// Reads the markdown settings.
pub fn read_markdown(section: &Node) -> (read: Result<MarkdownPluginConfig, SchemaError>)
    ensures
        match read {
            Ok(markdown) => markdown_of(section@) == Ok::<MarkdownPluginConfig, SchemaErrorView>(
                markdown,
            ),
            Err(error) => markdown_of(section@) == Err::<MarkdownPluginConfig, SchemaErrorView>(
                error@,
            ),
        },
{
    let enable = read_switch(section)?;
    Ok(MarkdownPluginConfig { enable })
}

/// The colorizer settings that `section` holds.
pub open spec fn colorizer_of(section: Doc) -> Result<ColorizerPluginConfig, SchemaErrorView> {
    match switch_of(section) {
        Err(error) => Err(error),
        Ok(enable) => Ok(ColorizerPluginConfig { enable }),
    }
}

/// Reads the colorizer settings.
pub fn read_colorizer(section: &Node) -> (read: Result<ColorizerPluginConfig, SchemaError>)
    ensures
        match read {
            Ok(colorizer) => colorizer_of(section@) == Ok::<
                ColorizerPluginConfig,
                SchemaErrorView,
            >(colorizer),
            Err(error) => colorizer_of(section@) == Err::<ColorizerPluginConfig, SchemaErrorView>(
                error@,
            ),
        },
{
    let enable = read_switch(section)?;
    Ok(ColorizerPluginConfig { enable })
}

/// The linter settings that `section` holds.
pub open spec fn linter_of(section: Doc) -> Result<LinterPluginConfig, SchemaErrorView> {
    match switch_of(section) {
        Err(error) => Err(error),
        Ok(enable) => Ok(LinterPluginConfig { enable }),
    }
}

/// Reads the linter settings.
pub fn read_linter(section: &Node) -> (read: Result<LinterPluginConfig, SchemaError>)
    ensures
        match read {
            Ok(linter) => linter_of(section@) == Ok::<LinterPluginConfig, SchemaErrorView>(linter),
            Err(error) => linter_of(section@) == Err::<LinterPluginConfig, SchemaErrorView>(
                error@,
            ),
        },
{
    let enable = read_switch(section)?;
    Ok(LinterPluginConfig { enable })
}

/// The keys of the ctags settings.
pub open spec fn ctags_keys() -> Seq<Seq<char>> {
    seq!["enable"@, "max-file-size"@]
}

/// The ctags settings that `section` holds.
pub open spec fn ctags_of(section: Doc) -> Result<CtagsPluginConfig, SchemaErrorView> {
    match known_keys_only(section, ctags_keys()) {
        Err(error) => Err(error),
        Ok(_) => match bool_field(section, "enable"@, false) {
            Err(error) => Err(error),
            Ok(enable) => match u64_field(section, "max-file-size"@, DEFAULT_MAX_FILE_SIZE) {
                Err(error) => Err(error),
                Ok(max_file_size) => Ok(CtagsPluginConfig { enable, max_file_size }),
            },
        },
    }
}

/// Reads the ctags settings.
pub fn read_ctags(section: &Node) -> (read: Result<CtagsPluginConfig, SchemaError>)
    ensures
        match read {
            Ok(ctags) => ctags_of(section@) == Ok::<CtagsPluginConfig, SchemaErrorView>(ctags),
            Err(error) => ctags_of(section@) == Err::<CtagsPluginConfig, SchemaErrorView>(error@),
        },
{
    let known = ["enable", "max-file-size"];
    assert(names_of(known@) =~= ctags_keys());
    read_known_keys_only(section, &known)?;
    let enable = read_bool_field(section, "enable", false)?;
    let max_file_size = read_u64_field(section, "max-file-size", DEFAULT_MAX_FILE_SIZE)?;
    Ok(CtagsPluginConfig { enable, max_file_size })
}

/// The keys of the git settings.
pub open spec fn git_keys() -> Seq<Seq<char>> {
    seq!["enable"@, "blame-format-string"@]
}

/// The git settings that `section` holds.
pub open spec fn git_of(section: Doc) -> Result<GitPluginConfigView, SchemaErrorView> {
    match known_keys_only(section, git_keys()) {
        Err(error) => Err(error),
        Ok(_) => match bool_field(section, "enable"@, true) {
            Err(error) => Err(error),
            Ok(enable) => match optional_string_field(section, "blame-format-string"@) {
                Err(error) => Err(error),
                Ok(blame_format_string) => Ok(GitPluginConfigView { enable, blame_format_string }),
            },
        },
    }
}

/// Reads the git settings.
pub fn read_git(section: &Node) -> (read: Result<GitPluginConfig, SchemaError>)
    ensures
        match read {
            Ok(git) => git_of(section@) == Ok::<GitPluginConfigView, SchemaErrorView>(git@),
            Err(error) => git_of(section@) == Err::<GitPluginConfigView, SchemaErrorView>(error@),
        },
{
    let known = ["enable", "blame-format-string"];
    assert(names_of(known@) =~= git_keys());
    read_known_keys_only(section, &known)?;
    let enable = read_bool_field(section, "enable", true)?;
    let blame_format_string = read_optional_string_field(section, "blame-format-string")?;
    Ok(GitPluginConfig { enable, blame_format_string })
}

/// The keys of a render strategy.
pub open spec fn render_strategy_keys() -> Seq<Seq<char>> {
    seq!["strategy"@, "file-size-limit"@]
}

/// The render strategy that `section` holds.
///
/// The text under `strategy` names it. `entire-buffer-up-to-limit` needs its limit beside it,
/// under `file-size-limit`; `visual-lines` has no such key.
pub open spec fn render_strategy_of(section: Doc) -> Result<RenderStrategy, SchemaErrorView> {
    match known_keys_only(section, render_strategy_keys()) {
        Err(error) => Err(error),
        Ok(_) => match lookup_in(section, "strategy"@) {
            None => Err(fault_at("strategy"@, Fault::MissingField)),
            Some(Doc::String(name)) => if name == "visual-lines"@ {
                if lookup_in(section, "file-size-limit"@) is Some {
                    Err(fault_at("file-size-limit"@, Fault::UnknownField))
                } else {
                    Ok(RenderStrategy::VisualLines)
                }
            } else if name == "entire-buffer-up-to-limit"@ {
                match lookup_in(section, "file-size-limit"@) {
                    None => Err(fault_at("file-size-limit"@, Fault::MissingField)),
                    Some(limit) => match usize_of(limit) {
                        Err(error) => Err(error.within("file-size-limit"@)),
                        Ok(bytes) => Ok(RenderStrategy::EntireBufferUpToLimit(bytes)),
                    },
                }
            } else {
                Err(fault_at("strategy"@, Fault::UnknownVariant))
            },
            Some(_) => Err(fault_at("strategy"@, Fault::TypeMismatch)),
        },
    }
}

/// Reads a render strategy.
pub fn read_render_strategy(section: &Node) -> (read: Result<RenderStrategy, SchemaError>)
    ensures
        match read {
            Ok(strategy) => render_strategy_of(section@) == Ok::<RenderStrategy, SchemaErrorView>(
                strategy,
            ),
            Err(error) => render_strategy_of(section@) == Err::<RenderStrategy, SchemaErrorView>(
                error@,
            ),
        },
{
    let known = ["strategy", "file-size-limit"];
    assert(names_of(known@) =~= render_strategy_keys());
    read_known_keys_only(section, &known)?;
    match section.get("strategy") {
        None => Err(SchemaError::at("strategy", Fault::MissingField)),
        Some(Node::String(name)) => {
            if same_text(name.as_str(), "visual-lines") {
                match section.get("file-size-limit") {
                    Some(_) => Err(SchemaError::at("file-size-limit", Fault::UnknownField)),
                    None => Ok(RenderStrategy::VisualLines),
                }
            } else if same_text(name.as_str(), "entire-buffer-up-to-limit") {
                match section.get("file-size-limit") {
                    None => Err(SchemaError::at("file-size-limit", Fault::MissingField)),
                    Some(limit) => match read_usize(limit) {
                        Err(error) => Err(error.within("file-size-limit")),
                        Ok(bytes) => Ok(RenderStrategy::EntireBufferUpToLimit(bytes)),
                    },
                }
            } else {
                Err(SchemaError::at("strategy", Fault::UnknownVariant))
            }
        },
        Some(_) => Err(SchemaError::at("strategy", Fault::TypeMismatch)),
    }
}

/// The keys of the syntax settings.
pub open spec fn syntax_keys() -> Seq<Seq<char>> {
    seq!["render-strategy"@]
}

/// The syntax settings that `section` holds.
pub open spec fn syntax_of(section: Doc) -> Result<SyntaxPluginConfig, SchemaErrorView> {
    match known_keys_only(section, syntax_keys()) {
        Err(error) => Err(error),
        Ok(_) => match lookup_in(section, "render-strategy"@) {
            None => Ok(SyntaxPluginConfig::defaults()),
            Some(inner) => match render_strategy_of(inner) {
                Err(error) => Err(error.within("render-strategy"@)),
                Ok(render_strategy) => Ok(SyntaxPluginConfig { render_strategy }),
            },
        },
    }
}

/// Reads the syntax settings.
pub fn read_syntax(section: &Node) -> (read: Result<SyntaxPluginConfig, SchemaError>)
    ensures
        match read {
            Ok(syntax) => syntax_of(section@) == Ok::<SyntaxPluginConfig, SchemaErrorView>(syntax),
            Err(error) => syntax_of(section@) == Err::<SyntaxPluginConfig, SchemaErrorView>(
                error@,
            ),
        },
{
    let known = ["render-strategy"];
    assert(names_of(known@) =~= syntax_keys());
    read_known_keys_only(section, &known)?;
    match section.get("render-strategy") {
        None => Ok(SyntaxPluginConfig::default()),
        Some(inner) => match read_render_strategy(inner) {
            Err(error) => Err(error.within("render-strategy")),
            Ok(render_strategy) => Ok(SyntaxPluginConfig { render_strategy }),
        },
    }
}

/// The keys of ignore settings.
pub open spec fn ignore_keys() -> Seq<Seq<char>> {
    seq![
        "ignore-comments"@,
        "git-tracked-only"@,
        "ignore-file-name-pattern"@,
        "ignore-file-path-pattern"@,
    ]
}

/// The ignore settings that `section` holds.
pub open spec fn ignore_of(section: Doc) -> Result<IgnoreConfigView, SchemaErrorView> {
    match known_keys_only(section, ignore_keys()) {
        Err(error) => Err(error),
        Ok(_) => match bool_field(section, "ignore-comments"@, false) {
            Err(error) => Err(error),
            Ok(ignore_comments) => match bool_field(section, "git-tracked-only"@, false) {
                Err(error) => Err(error),
                Ok(git_tracked_only) => match strings_field(section, "ignore-file-name-pattern"@) {
                    Err(error) => Err(error),
                    Ok(ignore_file_name_pattern) => match strings_field(
                        section,
                        "ignore-file-path-pattern"@,
                    ) {
                        Err(error) => Err(error),
                        Ok(ignore_file_path_pattern) => Ok(
                            IgnoreConfigView {
                                ignore_comments,
                                git_tracked_only,
                                ignore_file_name_pattern,
                                ignore_file_path_pattern,
                            },
                        ),
                    },
                },
            },
        },
    }
}

/// Reads ignore settings.
pub fn read_ignore(section: &Node) -> (read: Result<IgnoreConfig, SchemaError>)
    ensures
        match read {
            Ok(ignore) => ignore_of(section@) == Ok::<IgnoreConfigView, SchemaErrorView>(ignore@),
            Err(error) => ignore_of(section@) == Err::<IgnoreConfigView, SchemaErrorView>(error@),
        },
{
    let known = [
        "ignore-comments",
        "git-tracked-only",
        "ignore-file-name-pattern",
        "ignore-file-path-pattern",
    ];
    assert(names_of(known@) =~= ignore_keys());
    read_known_keys_only(section, &known)?;
    let ignore_comments = read_bool_field(section, "ignore-comments", false)?;
    let git_tracked_only = read_bool_field(section, "git-tracked-only", false)?;
    let ignore_file_name_pattern = read_strings_field(section, "ignore-file-name-pattern")?;
    let ignore_file_path_pattern = read_strings_field(section, "ignore-file-path-pattern")?;
    Ok(
        IgnoreConfig {
            ignore_comments,
            git_tracked_only,
            ignore_file_name_pattern,
            ignore_file_path_pattern,
        },
    )
}

/// The highlight engine that `value` names.
pub open spec fn engine_of(value: Doc) -> Result<HighlightEngine, SchemaErrorView> {
    match value {
        Doc::String(name) => if name == "sublime-syntax"@ {
            Ok(HighlightEngine::SublimeSyntax)
        } else if name == "tree-sitter"@ {
            Ok(HighlightEngine::TreeSitter)
        } else if name == "vim"@ {
            Ok(HighlightEngine::Vim)
        } else {
            Err(fault_here(Fault::UnknownVariant))
        },
        _ => Err(fault_here(Fault::TypeMismatch)),
    }
}

/// Reads the name of a highlight engine.
pub fn read_engine(value: &Node) -> (read: Result<HighlightEngine, SchemaError>)
    ensures
        match read {
            Ok(engine) => engine_of(value@) == Ok::<HighlightEngine, SchemaErrorView>(engine),
            Err(error) => engine_of(value@) == Err::<HighlightEngine, SchemaErrorView>(error@),
        },
{
    match value {
        Node::String(name) => {
            if same_text(name.as_str(), "sublime-syntax") {
                Ok(HighlightEngine::SublimeSyntax)
            } else if same_text(name.as_str(), "tree-sitter") {
                Ok(HighlightEngine::TreeSitter)
            } else if same_text(name.as_str(), "vim") {
                Ok(HighlightEngine::Vim)
            } else {
                Err(SchemaError::here(Fault::UnknownVariant))
            }
        },
        _ => Err(SchemaError::here(Fault::TypeMismatch)),
    }
}

/// What the table under `key` holds, or `default` where the key is not there.
pub open spec fn section_field<T>(
    section: Doc,
    key: Seq<char>,
    inner_of: spec_fn(Doc) -> Result<T, SchemaErrorView>,
    default: T,
) -> Result<T, SchemaErrorView> {
    match lookup_in(section, key) {
        Some(inner) => under(key, inner_of(inner)),
        None => Ok(default),
    }
}

/// The keys of the plugin settings.
pub open spec fn plugin_keys() -> Seq<Seq<char>> {
    seq!["colorizer"@, "cursorword"@, "ctags"@, "git"@, "linter"@, "markdown"@, "syntax"@]
}

/// The plugin settings that `section` holds.
pub open spec fn plugin_of(section: Doc) -> Result<PluginConfigView, SchemaErrorView> {
    match known_keys_only(section, plugin_keys()) {
        Err(error) => Err(error),
        Ok(_) => match section_field(
            section,
            "colorizer"@,
            |inner: Doc| colorizer_of(inner),
            ColorizerPluginConfig::defaults(),
        ) {
            Err(error) => Err(error),
            Ok(colorizer) => match section_field(
                section,
                "cursorword"@,
                |inner: Doc| cursorword_of(inner),
                CursorWordConfigView::defaults(),
            ) {
                Err(error) => Err(error),
                Ok(cursorword) => match section_field(
                    section,
                    "ctags"@,
                    |inner: Doc| ctags_of(inner),
                    CtagsPluginConfig::defaults(),
                ) {
                    Err(error) => Err(error),
                    Ok(ctags) => match section_field(
                        section,
                        "git"@,
                        |inner: Doc| git_of(inner),
                        GitPluginConfigView::defaults(),
                    ) {
                        Err(error) => Err(error),
                        Ok(git) => match section_field(
                            section,
                            "linter"@,
                            |inner: Doc| linter_of(inner),
                            LinterPluginConfig::defaults(),
                        ) {
                            Err(error) => Err(error),
                            Ok(linter) => match section_field(
                                section,
                                "markdown"@,
                                |inner: Doc| markdown_of(inner),
                                MarkdownPluginConfig::defaults(),
                            ) {
                                Err(error) => Err(error),
                                Ok(markdown) => match section_field(
                                    section,
                                    "syntax"@,
                                    |inner: Doc| syntax_of(inner),
                                    SyntaxPluginConfig::defaults(),
                                ) {
                                    Err(error) => Err(error),
                                    Ok(syntax) => Ok(
                                        PluginConfigView {
                                            colorizer,
                                            cursorword,
                                            ctags,
                                            git,
                                            linter,
                                            markdown,
                                            syntax,
                                        },
                                    ),
                                },
                            },
                        },
                    },
                },
            },
        },
    }
}

/// Reads the plugin settings.
pub fn read_plugin(section: &Node) -> (read: Result<PluginConfig, SchemaError>)
    ensures
        match read {
            Ok(plugin) => plugin_of(section@) == Ok::<PluginConfigView, SchemaErrorView>(plugin@),
            Err(error) => plugin_of(section@) == Err::<PluginConfigView, SchemaErrorView>(error@),
        },
{
    let known = ["colorizer", "cursorword", "ctags", "git", "linter", "markdown", "syntax"];
    assert(names_of(known@) =~= plugin_keys());
    read_known_keys_only(section, &known)?;
    let colorizer = match section.get("colorizer") {
        None => ColorizerPluginConfig::default(),
        Some(inner) => match read_colorizer(inner) {
            Ok(colorizer) => colorizer,
            Err(error) => {
                return Err(error.within("colorizer"));
            },
        },
    };
    let cursorword = match section.get("cursorword") {
        None => CursorWordConfig::default(),
        Some(inner) => match read_cursorword(inner) {
            Ok(cursorword) => cursorword,
            Err(error) => {
                return Err(error.within("cursorword"));
            },
        },
    };
    let ctags = match section.get("ctags") {
        None => CtagsPluginConfig::default(),
        Some(inner) => match read_ctags(inner) {
            Ok(ctags) => ctags,
            Err(error) => {
                return Err(error.within("ctags"));
            },
        },
    };
    let git = match section.get("git") {
        None => GitPluginConfig::default(),
        Some(inner) => match read_git(inner) {
            Ok(git) => git,
            Err(error) => {
                return Err(error.within("git"));
            },
        },
    };
    let linter = match section.get("linter") {
        None => LinterPluginConfig::default(),
        Some(inner) => match read_linter(inner) {
            Ok(linter) => linter,
            Err(error) => {
                return Err(error.within("linter"));
            },
        },
    };
    let markdown = match section.get("markdown") {
        None => MarkdownPluginConfig::default(),
        Some(inner) => match read_markdown(inner) {
            Ok(markdown) => markdown,
            Err(error) => {
                return Err(error.within("markdown"));
            },
        },
    };
    let syntax = match section.get("syntax") {
        None => SyntaxPluginConfig::default(),
        Some(inner) => match read_syntax(inner) {
            Ok(syntax) => syntax,
            Err(error) => {
                return Err(error.within("syntax"));
            },
        },
    };
    Ok(PluginConfig { colorizer, cursorword, ctags, git, linter, markdown, syntax })
}

/// The map that the entries of a table stand for, each value read by `value_of`; with
/// `rooted`, each key must be an absolute path. Of the faults, that of the first faulty entry
/// is reported, of an entry its key before its value.
pub open spec fn map_entries<T>(
    entries: Seq<(Seq<char>, Doc)>,
    value_of: spec_fn(Doc) -> Result<T, SchemaErrorView>,
    rooted: bool,
) -> Result<Map<Seq<char>, T>, SchemaErrorView>
    decreases entries.len(),
{
    if entries.len() == 0 {
        Ok(Map::empty())
    } else {
        let (key, value) = entries.last();
        match map_entries(entries.drop_last(), value_of, rooted) {
            Err(error) => Err(error),
            Ok(front) => if rooted && !is_absolute(key) {
                Err(fault_at(key, Fault::NotAbsolute))
            } else {
                match value_of(value) {
                    Err(error) => Err(error.within(key)),
                    Ok(read) => Ok(front.insert(key, read)),
                }
            },
        }
    }
}

/// The map that `section` holds, each value read by `value_of`.
pub open spec fn map_of_section<T>(
    section: Doc,
    value_of: spec_fn(Doc) -> Result<T, SchemaErrorView>,
    rooted: bool,
) -> Result<Map<Seq<char>, T>, SchemaErrorView> {
    match section {
        Doc::Table(entries) => map_entries(entries, value_of, rooted),
        _ => Err(fault_here(Fault::TypeMismatch)),
    }
}

/// The delays by provider that `section` holds.
pub open spec fn debounce_of(section: Doc) -> Result<Map<Seq<char>, u64>, SchemaErrorView> {
    map_of_section(section, |value: Doc| u64_of(value), false)
}

/// The ignore settings by provider that `section` holds.
pub open spec fn provider_ignores_of(section: Doc) -> Result<
    Map<Seq<char>, IgnoreConfigView>,
    SchemaErrorView,
> {
    map_of_section(section, |value: Doc| ignore_of(value), false)
}

/// The ignore settings by project directory that `section` holds.
pub open spec fn project_ignores_of(section: Doc) -> Result<
    Map<Seq<char>, IgnoreConfigView>,
    SchemaErrorView,
> {
    map_of_section(section, |value: Doc| ignore_of(value), true)
}

/// Reads the delays by provider.
pub fn read_debounce(section: &Node) -> (read: Result<StringMap<u64>, SchemaError>)
    ensures
        match read {
            Ok(delays) => debounce_of(section@) == Ok::<Map<Seq<char>, u64>, SchemaErrorView>(
                delays@,
            ),
            Err(error) => debounce_of(section@) == Err::<Map<Seq<char>, u64>, SchemaErrorView>(
                error@,
            ),
        },
{
    match section {
        Node::Table(entries) => {
            proof {
                lemma_table_view(section);
            }
            let ghost all = section@->Table_0;
            let ghost value_of = |value: Doc| u64_of(value);
            let mut delays: StringMap<u64> = StringMap::new();
            let mut i: usize = 0;
            while i < entries.len()
                invariant
                    i <= entries@.len(),
                    section@ == Doc::Table(all),
                    all.len() == entries@.len(),
                    forall|j: int|
                        0 <= j < entries@.len() ==> (#[trigger] all[j]) == (
                            entries@[j].0@,
                            entries@[j].1@,
                        ),
                    value_of == |value: Doc| u64_of(value),
                    map_entries(all.take(i as int), value_of, false) == Ok::<
                        Map<Seq<char>, u64>,
                        SchemaErrorView,
                    >(delays@),
                decreases entries@.len() - i,
            {
                proof {
                    assert(all.take(i + 1).drop_last() =~= all.take(i as int));
                }
                match read_u64(&entries[i].1) {
                    Err(error) => {
                        proof {
                            lemma_map_entries_fails(all, i + 1, value_of, false);
                        }
                        return Err(error.within(entries[i].0.as_str()));
                    },
                    Ok(delay) => {
                        delays.insert(entries[i].0.clone(), delay);
                    },
                }
                i += 1;
            }
            proof {
                assert(all.take(i as int) =~= all);
            }
            Ok(delays)
        },
        _ => Err(SchemaError::here(Fault::TypeMismatch)),
    }
}

/// A fault among the first entries of a table is the fault of the whole table.
pub proof fn lemma_map_entries_fails<T>(
    entries: Seq<(Seq<char>, Doc)>,
    count: int,
    value_of: spec_fn(Doc) -> Result<T, SchemaErrorView>,
    rooted: bool,
)
    requires
        0 <= count <= entries.len(),
        map_entries(entries.take(count), value_of, rooted) is Err,
    ensures
        map_entries(entries, value_of, rooted) == map_entries(
            entries.take(count),
            value_of,
            rooted,
        ),
    decreases entries.len() - count,
{
    if count < entries.len() {
        assert(entries.take(count + 1).drop_last() =~= entries.take(count));
        lemma_map_entries_fails(entries, count + 1, value_of, rooted);
    } else {
        assert(entries.take(count) =~= entries);
    }
}

/// Reads the ignore settings by provider.
pub fn read_provider_ignores(section: &Node) -> (read: Result<
    StringMap<IgnoreConfig>,
    SchemaError,
>)
    ensures
        match read {
            Ok(ignores) => provider_ignores_of(section@) == Ok::<
                Map<Seq<char>, IgnoreConfigView>,
                SchemaErrorView,
            >(ignores@),
            Err(error) => provider_ignores_of(section@) == Err::<
                Map<Seq<char>, IgnoreConfigView>,
                SchemaErrorView,
            >(error@),
        },
{
    match section {
        Node::Table(entries) => {
            proof {
                lemma_table_view(section);
            }
            let ghost all = section@->Table_0;
            let ghost value_of = |value: Doc| ignore_of(value);
            let mut ignores: StringMap<IgnoreConfig> = StringMap::new();
            let mut i: usize = 0;
            while i < entries.len()
                invariant
                    i <= entries@.len(),
                    section@ == Doc::Table(all),
                    all.len() == entries@.len(),
                    forall|j: int|
                        0 <= j < entries@.len() ==> (#[trigger] all[j]) == (
                            entries@[j].0@,
                            entries@[j].1@,
                        ),
                    value_of == |value: Doc| ignore_of(value),
                    map_entries(all.take(i as int), value_of, false) == Ok::<
                        Map<Seq<char>, IgnoreConfigView>,
                        SchemaErrorView,
                    >(ignores@),
                decreases entries@.len() - i,
            {
                proof {
                    assert(all.take(i + 1).drop_last() =~= all.take(i as int));
                }
                match read_ignore(&entries[i].1) {
                    Err(error) => {
                        proof {
                            lemma_map_entries_fails(all, i + 1, value_of, false);
                        }
                        return Err(error.within(entries[i].0.as_str()));
                    },
                    Ok(ignore) => {
                        ignores.insert(entries[i].0.clone(), ignore);
                    },
                }
                i += 1;
            }
            proof {
                assert(all.take(i as int) =~= all);
            }
            Ok(ignores)
        },
        _ => Err(SchemaError::here(Fault::TypeMismatch)),
    }
}

/// Reads the ignore settings by project directory.
pub fn read_project_ignores(section: &Node) -> (read: Result<PathMap<IgnoreConfig>, SchemaError>)
    ensures
        match read {
            Ok(ignores) => project_ignores_of(section@) == Ok::<
                Map<Seq<char>, IgnoreConfigView>,
                SchemaErrorView,
            >(ignores@),
            Err(error) => project_ignores_of(section@) == Err::<
                Map<Seq<char>, IgnoreConfigView>,
                SchemaErrorView,
            >(error@),
        },
{
    match section {
        Node::Table(entries) => {
            proof {
                lemma_table_view(section);
            }
            let ghost all = section@->Table_0;
            let ghost value_of = |value: Doc| ignore_of(value);
            let mut ignores: PathMap<IgnoreConfig> = PathMap::new();
            let mut i: usize = 0;
            while i < entries.len()
                invariant
                    i <= entries@.len(),
                    section@ == Doc::Table(all),
                    all.len() == entries@.len(),
                    forall|j: int|
                        0 <= j < entries@.len() ==> (#[trigger] all[j]) == (
                            entries@[j].0@,
                            entries@[j].1@,
                        ),
                    value_of == |value: Doc| ignore_of(value),
                    map_entries(all.take(i as int), value_of, true) == Ok::<
                        Map<Seq<char>, IgnoreConfigView>,
                        SchemaErrorView,
                    >(ignores@),
                decreases entries@.len() - i,
            {
                proof {
                    assert(all.take(i + 1).drop_last() =~= all.take(i as int));
                }
                let path = match AbsPathBuf::try_new(entries[i].0.clone()) {
                    Err(_) => {
                        proof {
                            lemma_map_entries_fails(all, i + 1, value_of, true);
                        }
                        return Err(SchemaError::at(entries[i].0.as_str(), Fault::NotAbsolute));
                    },
                    Ok(path) => path,
                };
                match read_ignore(&entries[i].1) {
                    Err(error) => {
                        proof {
                            lemma_map_entries_fails(all, i + 1, value_of, true);
                        }
                        return Err(error.within(entries[i].0.as_str()));
                    },
                    Ok(ignore) => {
                        ignores.insert(path, ignore);
                    },
                }
                i += 1;
            }
            proof {
                assert(all.take(i as int) =~= all);
            }
            Ok(ignores)
        },
        _ => Err(SchemaError::here(Fault::TypeMismatch)),
    }
}

/// The keys of the provider settings.
pub open spec fn provider_keys() -> Seq<Seq<char>> {
    seq![
        "share-input-history"@,
        "max-display-size"@,
        "preview-highlight-engine"@,
        "sublime-syntax-color-scheme"@,
        "project-ignores"@,
        "provider-ignores"@,
        "debounce"@,
    ]
}

/// The provider settings that `section` holds.
pub open spec fn provider_of(section: Doc) -> Result<ProviderConfigView, SchemaErrorView> {
    match known_keys_only(section, provider_keys()) {
        Err(error) => Err(error),
        Ok(_) => match bool_field(section, "share-input-history"@, false) {
            Err(error) => Err(error),
            Ok(share_input_history) => match optional_usize_field(section, "max-display-size"@) {
                Err(error) => Err(error),
                Ok(max_display_size) => match section_field(
                    section,
                    "preview-highlight-engine"@,
                    |value: Doc| engine_of(value),
                    HighlightEngine::defaults(),
                ) {
                    Err(error) => Err(error),
                    Ok(preview_highlight_engine) => match optional_string_field(
                        section,
                        "sublime-syntax-color-scheme"@,
                    ) {
                        Err(error) => Err(error),
                        Ok(sublime_syntax_color_scheme) => match section_field(
                            section,
                            "project-ignores"@,
                            |inner: Doc| project_ignores_of(inner),
                            Map::empty(),
                        ) {
                            Err(error) => Err(error),
                            Ok(project_ignores) => match section_field(
                                section,
                                "provider-ignores"@,
                                |inner: Doc| provider_ignores_of(inner),
                                Map::empty(),
                            ) {
                                Err(error) => Err(error),
                                Ok(provider_ignores) => match section_field(
                                    section,
                                    "debounce"@,
                                    |inner: Doc| debounce_of(inner),
                                    Map::empty(),
                                ) {
                                    Err(error) => Err(error),
                                    Ok(debounce) => Ok(
                                        ProviderConfigView {
                                            share_input_history,
                                            max_display_size,
                                            preview_highlight_engine,
                                            sublime_syntax_color_scheme,
                                            project_ignores,
                                            provider_ignores,
                                            debounce,
                                        },
                                    ),
                                },
                            },
                        },
                    },
                },
            },
        },
    }
}

/// Reads the provider settings.
pub fn read_provider(section: &Node) -> (read: Result<ProviderConfig, SchemaError>)
    ensures
        match read {
            Ok(provider) => provider_of(section@) == Ok::<ProviderConfigView, SchemaErrorView>(
                provider@,
            ),
            Err(error) => provider_of(section@) == Err::<ProviderConfigView, SchemaErrorView>(
                error@,
            ),
        },
{
    let known = [
        "share-input-history",
        "max-display-size",
        "preview-highlight-engine",
        "sublime-syntax-color-scheme",
        "project-ignores",
        "provider-ignores",
        "debounce",
    ];
    assert(names_of(known@) =~= provider_keys());
    read_known_keys_only(section, &known)?;
    let share_input_history = read_bool_field(section, "share-input-history", false)?;
    let max_display_size = read_optional_usize_field(section, "max-display-size")?;
    let preview_highlight_engine = match section.get("preview-highlight-engine") {
        None => HighlightEngine::default(),
        Some(value) => match read_engine(value) {
            Ok(engine) => engine,
            Err(error) => {
                return Err(error.within("preview-highlight-engine"));
            },
        },
    };
    let sublime_syntax_color_scheme = read_optional_string_field(
        section,
        "sublime-syntax-color-scheme",
    )?;
    let project_ignores = match section.get("project-ignores") {
        None => PathMap::new(),
        Some(inner) => match read_project_ignores(inner) {
            Ok(ignores) => ignores,
            Err(error) => {
                return Err(error.within("project-ignores"));
            },
        },
    };
    let provider_ignores = match section.get("provider-ignores") {
        None => StringMap::new(),
        Some(inner) => match read_provider_ignores(inner) {
            Ok(ignores) => ignores,
            Err(error) => {
                return Err(error.within("provider-ignores"));
            },
        },
    };
    let debounce = match section.get("debounce") {
        None => StringMap::new(),
        Some(inner) => match read_debounce(inner) {
            Ok(delays) => delays,
            Err(error) => {
                return Err(error.within("debounce"));
            },
        },
    };
    Ok(
        ProviderConfig {
            share_input_history,
            max_display_size,
            preview_highlight_engine,
            sublime_syntax_color_scheme,
            project_ignores,
            provider_ignores,
            debounce,
        },
    )
}

/// The keys at the root of a document.
pub open spec fn config_keys() -> Seq<Seq<char>> {
    seq!["log"@, "matcher"@, "plugin"@, "provider"@, "global-ignore"@]
}

/// The settings that `document` holds.
pub open spec fn config_of(document: Doc) -> Result<ConfigView, SchemaErrorView> {
    match known_keys_only(document, config_keys()) {
        Err(error) => Err(error),
        Ok(_) => match section_field(
            document,
            "log"@,
            |inner: Doc| log_of(inner),
            LogConfigView::defaults(),
        ) {
            Err(error) => Err(error),
            Ok(log) => match section_field(
                document,
                "matcher"@,
                |inner: Doc| matcher_of(inner),
                MatcherConfigView::defaults(),
            ) {
                Err(error) => Err(error),
                Ok(matcher) => match section_field(
                    document,
                    "plugin"@,
                    |inner: Doc| plugin_of(inner),
                    PluginConfigView::defaults(),
                ) {
                    Err(error) => Err(error),
                    Ok(plugin) => match section_field(
                        document,
                        "provider"@,
                        |inner: Doc| provider_of(inner),
                        ProviderConfigView::defaults(),
                    ) {
                        Err(error) => Err(error),
                        Ok(provider) => match section_field(
                            document,
                            "global-ignore"@,
                            |inner: Doc| ignore_of(inner),
                            IgnoreConfigView::defaults(),
                        ) {
                            Err(error) => Err(error),
                            Ok(global_ignore) => Ok(
                                ConfigView { log, matcher, plugin, provider, global_ignore },
                            ),
                        },
                    },
                },
            },
        },
    }
}

impl Config {
    /// Reads the settings out of a document.
    ///
    /// The document is held to the schema: it fails as a whole on a key that is no setting
    /// and on a value of the wrong kind, at any depth. What it does not set is at its default.
    pub fn from_document(document: &Node) -> (read: Result<Config, SchemaError>)
        ensures
            match read {
                Ok(config) => config_of(document@) == Ok::<ConfigView, SchemaErrorView>(config@),
                Err(error) => config_of(document@) == Err::<ConfigView, SchemaErrorView>(error@),
            },
    {
        let known = ["log", "matcher", "plugin", "provider", "global-ignore"];
        assert(names_of(known@) =~= config_keys());
        read_known_keys_only(document, &known)?;
        let log = match document.get("log") {
            None => LogConfig::default(),
            Some(inner) => match read_log(inner) {
                Ok(log) => log,
                Err(error) => {
                    return Err(error.within("log"));
                },
            },
        };
        let matcher = match document.get("matcher") {
            None => MatcherConfig::default(),
            Some(inner) => match read_matcher(inner) {
                Ok(matcher) => matcher,
                Err(error) => {
                    return Err(error.within("matcher"));
                },
            },
        };
        let plugin = match document.get("plugin") {
            None => PluginConfig::default(),
            Some(inner) => match read_plugin(inner) {
                Ok(plugin) => plugin,
                Err(error) => {
                    return Err(error.within("plugin"));
                },
            },
        };
        let provider = match document.get("provider") {
            None => ProviderConfig::default(),
            Some(inner) => match read_provider(inner) {
                Ok(provider) => provider,
                Err(error) => {
                    return Err(error.within("provider"));
                },
            },
        };
        let global_ignore = match document.get("global-ignore") {
            None => IgnoreConfig::default(),
            Some(inner) => match read_ignore(inner) {
                Ok(ignore) => ignore,
                Err(error) => {
                    return Err(error.within("global-ignore"));
                },
            },
        };
        Ok(Config { log, matcher, plugin, provider, global_ignore })
    }
}

} // verus!
