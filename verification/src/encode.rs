//! From settings to a document.
//!
//! Every setting is written under its key, but for a setting that is optional and not set.
//! The entries of a map are written in dictionary order of their keys. Read back, the
//! document gives the settings it was written from.

use vstd::prelude::*;
use crate::decode::{
    config_keys, config_of, ctags_keys, ctags_of, cursorword_keys, cursorword_of,
    engine_of, git_keys, git_of, ignore_keys, ignore_of, log_keys, log_of, map_entries,
    matcher_keys, matcher_of, plugin_keys, plugin_of, provider_keys, provider_of,
    render_strategy_keys, render_strategy_of, switch_keys, switch_of,
    syntax_keys, syntax_of,
};
use crate::document::{lemma_all_known, lemma_lookup_finds, lemma_lookup_misses, Doc, Node};
use crate::fields::{all_strings, u64_of, SchemaErrorView};
use crate::maps::{keys_increase, lemma_map_of_entry, lemma_map_of_keys, map_of, StringMap};
use crate::paths::is_absolute;
use crate::schema::{
    Config, ConfigView, CtagsPluginConfig, CursorWordConfig, CursorWordConfigView,
    GitPluginConfig, GitPluginConfigView, HighlightEngine, IgnoreConfig, IgnoreConfigView,
    LogConfig, LogConfigView, MatcherConfig, MatcherConfigView, PluginConfig, PluginConfigView,
    ProviderConfig, ProviderConfigView, RenderStrategy, SyntaxPluginConfig,
};
use crate::syntax::{render_document, rendered_toml};
use crate::text::texts_of;

verus! {

/// The entry of an optional setting: none where the setting is not set.
pub open spec fn optional_entry(key: Seq<char>, value: Option<Doc>) -> Seq<(Seq<char>, Doc)> {
    match value {
        Some(written) => seq![(key, written)],
        None => Seq::empty(),
    }
}

/// The document of an optional text.
pub open spec fn optional_string_doc(text: Option<Seq<char>>) -> Option<Doc> {
    match text {
        Some(written) => Some(Doc::String(written)),
        None => None,
    }
}

/// The document of an optional number.
pub open spec fn optional_usize_doc(number: Option<usize>) -> Option<Doc> {
    match number {
        Some(written) => Some(Doc::Integer(written as int)),
        None => None,
    }
}

/// The document of a list of texts.
pub open spec fn strings_doc(texts: Seq<Seq<char>>) -> Doc {
    Doc::Array(Seq::new(texts.len(), |i: int| Doc::String(texts[i])))
}

/// The document of log settings.
pub open spec fn log_doc(log: LogConfigView) -> Doc {
    Doc::Table(
        optional_entry("log-file"@, optional_string_doc(log.log_file)) + seq![
            ("max-level"@, Doc::String(log.max_level)),
            ("log-target"@, Doc::String(log.log_target)),
        ],
    )
}

/// The document of log settings reads back as the settings.
pub proof fn lemma_log_round_trip(log: LogConfigView)
    ensures
        log_of(log_doc(log)) == Ok::<LogConfigView, SchemaErrorView>(log),
{
    let entries = log_doc(log)->Table_0;
    reveal_strlit("log-file");
    assert("log-file"@.len() == 8);
    reveal_strlit("max-level");
    assert("max-level"@.len() == 9);
    reveal_strlit("log-target");
    assert("log-target"@.len() == 10);
    assert(log_keys()[0] == "log-file"@);
    assert(log_keys()[1] == "max-level"@);
    assert(log_keys()[2] == "log-target"@);
    lemma_all_known(entries, log_keys());
    match log.log_file {
        Some(_) => {
            lemma_lookup_finds(entries, 0);
            lemma_lookup_finds(entries, 1);
            lemma_lookup_finds(entries, 2);
        },
        None => {
            lemma_lookup_misses(entries, "log-file"@);
            lemma_lookup_finds(entries, 0);
            lemma_lookup_finds(entries, 1);
        },
    }
}

/// The document of matcher settings.
pub open spec fn matcher_doc(matcher: MatcherConfigView) -> Doc {
    Doc::Table(seq![("tiebreak"@, Doc::String(matcher.tiebreak))])
}

/// The document of matcher settings reads back as the settings.
pub proof fn lemma_matcher_round_trip(matcher: MatcherConfigView)
    ensures
        matcher_of(matcher_doc(matcher)) == Ok::<MatcherConfigView, SchemaErrorView>(matcher),
{
    let entries = matcher_doc(matcher)->Table_0;
    assert(matcher_keys()[0] == "tiebreak"@);
    lemma_all_known(entries, matcher_keys());
    lemma_lookup_finds(entries, 0);
}

/// The document of cursorword settings.
pub open spec fn cursorword_doc(cursorword: CursorWordConfigView) -> Doc {
    Doc::Table(
        seq![
            ("enable"@, Doc::Boolean(cursorword.enable)),
            ("ignore-comment-line"@, Doc::Boolean(cursorword.ignore_comment_line)),
            ("ignore-files"@, Doc::String(cursorword.ignore_files)),
        ],
    )
}

/// The document of cursorword settings reads back as the settings.
pub proof fn lemma_cursorword_round_trip(cursorword: CursorWordConfigView)
    ensures
        cursorword_of(cursorword_doc(cursorword)) == Ok::<CursorWordConfigView, SchemaErrorView>(
            cursorword,
        ),
{
    let entries = cursorword_doc(cursorword)->Table_0;
    reveal_strlit("enable");
    assert("enable"@.len() == 6);
    reveal_strlit("ignore-comment-line");
    assert("ignore-comment-line"@.len() == 19);
    reveal_strlit("ignore-files");
    assert("ignore-files"@.len() == 12);
    assert(cursorword_keys()[0] == "enable"@);
    assert(cursorword_keys()[1] == "ignore-comment-line"@);
    assert(cursorword_keys()[2] == "ignore-files"@);
    lemma_all_known(entries, cursorword_keys());
    lemma_lookup_finds(entries, 0);
    lemma_lookup_finds(entries, 1);
    lemma_lookup_finds(entries, 2);
}

/// The document of a plugin that can only be switched on or off.
pub open spec fn switch_doc(enable: bool) -> Doc {
    Doc::Table(seq![("enable"@, Doc::Boolean(enable))])
}

/// The document of a switch reads back as the switch.
pub proof fn lemma_switch_round_trip(enable: bool)
    ensures
        switch_of(switch_doc(enable)) == Ok::<bool, SchemaErrorView>(enable),
{
    let entries = switch_doc(enable)->Table_0;
    assert(switch_keys()[0] == "enable"@);
    lemma_all_known(entries, switch_keys());
    lemma_lookup_finds(entries, 0);
}

/// The document of ctags settings.
pub open spec fn ctags_doc(ctags: CtagsPluginConfig) -> Doc {
    Doc::Table(
        seq![
            ("enable"@, Doc::Boolean(ctags.enable)),
            ("max-file-size"@, Doc::Integer(ctags.max_file_size as int)),
        ],
    )
}

/// The document of ctags settings reads back as the settings.
pub proof fn lemma_ctags_round_trip(ctags: CtagsPluginConfig)
    ensures
        ctags_of(ctags_doc(ctags)) == Ok::<CtagsPluginConfig, SchemaErrorView>(ctags),
{
    let entries = ctags_doc(ctags)->Table_0;
    reveal_strlit("enable");
    assert("enable"@.len() == 6);
    reveal_strlit("max-file-size");
    assert("max-file-size"@.len() == 13);
    assert(ctags_keys()[0] == "enable"@);
    assert(ctags_keys()[1] == "max-file-size"@);
    lemma_all_known(entries, ctags_keys());
    lemma_lookup_finds(entries, 0);
    lemma_lookup_finds(entries, 1);
}

/// The document of git settings.
pub open spec fn git_doc(git: GitPluginConfigView) -> Doc {
    Doc::Table(
        seq![("enable"@, Doc::Boolean(git.enable))] + optional_entry(
            "blame-format-string"@,
            optional_string_doc(git.blame_format_string),
        ),
    )
}

/// The document of git settings reads back as the settings.
pub proof fn lemma_git_round_trip(git: GitPluginConfigView)
    ensures
        git_of(git_doc(git)) == Ok::<GitPluginConfigView, SchemaErrorView>(git),
{
    let entries = git_doc(git)->Table_0;
    reveal_strlit("enable");
    assert("enable"@.len() == 6);
    reveal_strlit("blame-format-string");
    assert("blame-format-string"@.len() == 19);
    assert(git_keys()[0] == "enable"@);
    assert(git_keys()[1] == "blame-format-string"@);
    lemma_all_known(entries, git_keys());
    lemma_lookup_finds(entries, 0);
    match git.blame_format_string {
        Some(_) => {
            lemma_lookup_finds(entries, 1);
        },
        None => {
            lemma_lookup_misses(entries, "blame-format-string"@);
        },
    }
}

/// The document of a render strategy: its name under `strategy`, and beside it the limit
/// where it has one.
pub open spec fn render_strategy_doc(strategy: RenderStrategy) -> Doc {
    match strategy {
        RenderStrategy::VisualLines => Doc::Table(
            seq![("strategy"@, Doc::String("visual-lines"@))],
        ),
        RenderStrategy::EntireBufferUpToLimit(limit) => Doc::Table(
            seq![
                ("strategy"@, Doc::String("entire-buffer-up-to-limit"@)),
                ("file-size-limit"@, Doc::Integer(limit as int)),
            ],
        ),
    }
}

/// The document of a render strategy reads back as the strategy.
pub proof fn lemma_render_strategy_round_trip(strategy: RenderStrategy)
    ensures
        render_strategy_of(render_strategy_doc(strategy)) == Ok::<RenderStrategy, SchemaErrorView>(
            strategy,
        ),
{
    let entries = render_strategy_doc(strategy)->Table_0;
    reveal_strlit("strategy");
    assert("strategy"@.len() == 8);
    reveal_strlit("file-size-limit");
    assert("file-size-limit"@.len() == 15);
    reveal_strlit("visual-lines");
    assert("visual-lines"@.len() == 12);
    reveal_strlit("entire-buffer-up-to-limit");
    assert("entire-buffer-up-to-limit"@.len() == 25);
    assert(render_strategy_keys()[0] == "strategy"@);
    assert(render_strategy_keys()[1] == "file-size-limit"@);
    lemma_all_known(entries, render_strategy_keys());
    lemma_lookup_finds(entries, 0);
    match strategy {
        RenderStrategy::VisualLines => {
            lemma_lookup_misses(entries, "file-size-limit"@);
        },
        RenderStrategy::EntireBufferUpToLimit(_) => {
            lemma_lookup_finds(entries, 1);
        },
    }
}

/// The document of syntax settings.
pub open spec fn syntax_doc(syntax: SyntaxPluginConfig) -> Doc {
    Doc::Table(seq![("render-strategy"@, render_strategy_doc(syntax.render_strategy))])
}

/// The document of syntax settings reads back as the settings.
pub proof fn lemma_syntax_round_trip(syntax: SyntaxPluginConfig)
    ensures
        syntax_of(syntax_doc(syntax)) == Ok::<SyntaxPluginConfig, SchemaErrorView>(syntax),
{
    let entries = syntax_doc(syntax)->Table_0;
    assert(syntax_keys()[0] == "render-strategy"@);
    lemma_all_known(entries, syntax_keys());
    lemma_lookup_finds(entries, 0);
    lemma_render_strategy_round_trip(syntax.render_strategy);
}

/// The document of plugin settings.
pub open spec fn plugin_doc(plugin: PluginConfigView) -> Doc {
    Doc::Table(
        seq![
            ("colorizer"@, switch_doc(plugin.colorizer.enable)),
            ("cursorword"@, cursorword_doc(plugin.cursorword)),
            ("ctags"@, ctags_doc(plugin.ctags)),
            ("git"@, git_doc(plugin.git)),
            ("linter"@, switch_doc(plugin.linter.enable)),
            ("markdown"@, switch_doc(plugin.markdown.enable)),
            ("syntax"@, syntax_doc(plugin.syntax)),
        ],
    )
}

/// The document of plugin settings reads back as the settings.
pub proof fn lemma_plugin_round_trip(plugin: PluginConfigView)
    ensures
        plugin_of(plugin_doc(plugin)) == Ok::<PluginConfigView, SchemaErrorView>(plugin),
{
    let entries = plugin_doc(plugin)->Table_0;
    reveal_strlit("colorizer");
    assert("colorizer"@.len() == 9);
    reveal_strlit("cursorword");
    assert("cursorword"@.len() == 10);
    reveal_strlit("ctags");
    assert("ctags"@.len() == 5);
    reveal_strlit("git");
    assert("git"@.len() == 3);
    reveal_strlit("linter");
    assert("linter"@.len() == 6);
    reveal_strlit("markdown");
    assert("markdown"@.len() == 8);
    reveal_strlit("syntax");
    assert("syntax"@.len() == 6);
    assert("linter"@[0] != "syntax"@[0]);
    assert(plugin_keys()[0] == "colorizer"@);
    assert(plugin_keys()[1] == "cursorword"@);
    assert(plugin_keys()[2] == "ctags"@);
    assert(plugin_keys()[3] == "git"@);
    assert(plugin_keys()[4] == "linter"@);
    assert(plugin_keys()[5] == "markdown"@);
    assert(plugin_keys()[6] == "syntax"@);
    lemma_all_known(entries, plugin_keys());
    lemma_lookup_finds(entries, 0);
    lemma_lookup_finds(entries, 1);
    lemma_lookup_finds(entries, 2);
    lemma_lookup_finds(entries, 3);
    lemma_lookup_finds(entries, 4);
    lemma_lookup_finds(entries, 5);
    lemma_lookup_finds(entries, 6);
    lemma_switch_round_trip(plugin.colorizer.enable);
    lemma_cursorword_round_trip(plugin.cursorword);
    lemma_ctags_round_trip(plugin.ctags);
    lemma_git_round_trip(plugin.git);
    lemma_switch_round_trip(plugin.linter.enable);
    lemma_switch_round_trip(plugin.markdown.enable);
    lemma_syntax_round_trip(plugin.syntax);
}

/// The document of ignore settings.
pub open spec fn ignore_doc(ignore: IgnoreConfigView) -> Doc {
    Doc::Table(
        seq![
            ("ignore-comments"@, Doc::Boolean(ignore.ignore_comments)),
            ("git-tracked-only"@, Doc::Boolean(ignore.git_tracked_only)),
            ("ignore-file-name-pattern"@, strings_doc(ignore.ignore_file_name_pattern)),
            ("ignore-file-path-pattern"@, strings_doc(ignore.ignore_file_path_pattern)),
        ],
    )
}

/// The document of ignore settings reads back as the settings.
pub proof fn lemma_ignore_round_trip(ignore: IgnoreConfigView)
    ensures
        ignore_of(ignore_doc(ignore)) == Ok::<IgnoreConfigView, SchemaErrorView>(ignore),
{
    let entries = ignore_doc(ignore)->Table_0;
    reveal_strlit("ignore-comments");
    assert("ignore-comments"@.len() == 15);
    reveal_strlit("git-tracked-only");
    assert("git-tracked-only"@.len() == 16);
    reveal_strlit("ignore-file-name-pattern");
    assert("ignore-file-name-pattern"@.len() == 24);
    reveal_strlit("ignore-file-path-pattern");
    assert("ignore-file-path-pattern"@.len() == 24);
    assert("ignore-file-name-pattern"@[12] != "ignore-file-path-pattern"@[12]);
    assert(ignore_keys()[0] == "ignore-comments"@);
    assert(ignore_keys()[1] == "git-tracked-only"@);
    assert(ignore_keys()[2] == "ignore-file-name-pattern"@);
    assert(ignore_keys()[3] == "ignore-file-path-pattern"@);
    lemma_all_known(entries, ignore_keys());
    lemma_lookup_finds(entries, 0);
    lemma_lookup_finds(entries, 1);
    lemma_lookup_finds(entries, 2);
    lemma_lookup_finds(entries, 3);
    let names = ignore.ignore_file_name_pattern;
    let paths = ignore.ignore_file_path_pattern;
    assert(all_strings(strings_doc(names)->Array_0));
    assert(all_strings(strings_doc(paths)->Array_0));
    assert(Seq::new(names.len(), |i: int| strings_doc(names)->Array_0[i]->String_0) =~= names);
    assert(Seq::new(paths.len(), |i: int| strings_doc(paths)->Array_0[i]->String_0) =~= paths);
}

/// The document of a highlight engine: its name.
pub open spec fn engine_doc(engine: HighlightEngine) -> Doc {
    match engine {
        HighlightEngine::SublimeSyntax => Doc::String("sublime-syntax"@),
        HighlightEngine::TreeSitter => Doc::String("tree-sitter"@),
        HighlightEngine::Vim => Doc::String("vim"@),
    }
}

/// The document of a highlight engine reads back as the engine.
pub proof fn lemma_engine_round_trip(engine: HighlightEngine)
    ensures
        engine_of(engine_doc(engine)) == Ok::<HighlightEngine, SchemaErrorView>(engine),
{
    reveal_strlit("sublime-syntax");
    assert("sublime-syntax"@.len() == 14);
    reveal_strlit("tree-sitter");
    assert("tree-sitter"@.len() == 11);
    reveal_strlit("vim");
    assert("vim"@.len() == 3);
}

/// The table of ignore settings by key.
pub open spec fn ignores_doc(entries: Seq<(Seq<char>, IgnoreConfigView)>) -> Doc {
    Doc::Table(Seq::new(entries.len(), |i: int| (entries[i].0, ignore_doc(entries[i].1))))
}

/// The table of delays by provider.
pub open spec fn debounce_doc(entries: Seq<(Seq<char>, u64)>) -> Doc {
    Doc::Table(Seq::new(entries.len(), |i: int| (entries[i].0, Doc::Integer(entries[i].1 as int))))
}

/// A table whose entries each read back as the entry they were written from, reads back as
/// the map of those entries.
pub proof fn lemma_map_round_trip<T>(
    entries: Seq<(Seq<char>, T)>,
    table: Seq<(Seq<char>, Doc)>,
    value_of: spec_fn(Doc) -> Result<T, SchemaErrorView>,
    rooted: bool,
)
    requires
        table.len() == entries.len(),
        forall|i: int|
            0 <= i < entries.len() ==> (#[trigger] table[i]).0 == entries[i].0 && value_of(
                table[i].1,
            ) == Ok::<T, SchemaErrorView>(entries[i].1),
        rooted ==> forall|i: int| 0 <= i < entries.len() ==> is_absolute((#[trigger] entries[i]).0),
    ensures
        map_entries(table, value_of, rooted) == Ok::<Map<Seq<char>, T>, SchemaErrorView>(
            map_of(entries),
        ),
    decreases entries.len(),
{
    if entries.len() > 0 {
        let last = entries.len() - 1;
        assert(table[last].0 == entries[last].0);
        assert(rooted ==> is_absolute(entries[last].0));
        assert forall|i: int| 0 <= i < entries.drop_last().len() implies (
        #[trigger] table.drop_last()[i]).0 == entries.drop_last()[i].0 && value_of(
            table.drop_last()[i].1,
        ) == Ok::<T, SchemaErrorView>(entries.drop_last()[i].1) by {
            assert(table[i].0 == entries[i].0);
        }
        assert forall|i: int| 0 <= i < entries.drop_last().len() && rooted implies is_absolute(
            (#[trigger] entries.drop_last()[i]).0,
        ) by {
            assert(is_absolute(entries[i].0));
        }
        lemma_map_round_trip(entries.drop_last(), table.drop_last(), value_of, rooted);
    }
}

/// The document of provider settings, with the entries of its three maps in the order in
/// which they are written.
pub open spec fn provider_doc(
    provider: ProviderConfigView,
    projects: Seq<(Seq<char>, IgnoreConfigView)>,
    providers: Seq<(Seq<char>, IgnoreConfigView)>,
    delays: Seq<(Seq<char>, u64)>,
) -> Doc {
    Doc::Table(
        seq![("share-input-history"@, Doc::Boolean(provider.share_input_history))]
            + optional_entry("max-display-size"@, optional_usize_doc(provider.max_display_size))
            + seq![("preview-highlight-engine"@, engine_doc(provider.preview_highlight_engine))]
            + optional_entry(
            "sublime-syntax-color-scheme"@,
            optional_string_doc(provider.sublime_syntax_color_scheme),
        ) + seq![
            ("project-ignores"@, ignores_doc(projects)),
            ("provider-ignores"@, ignores_doc(providers)),
            ("debounce"@, debounce_doc(delays)),
        ],
    )
}

/// Whether `projects`, `providers` and `delays` are the entries of the three maps of
/// `provider`, in dictionary order, and every project is an absolute path.
pub open spec fn entries_of_provider(
    provider: ProviderConfigView,
    projects: Seq<(Seq<char>, IgnoreConfigView)>,
    providers: Seq<(Seq<char>, IgnoreConfigView)>,
    delays: Seq<(Seq<char>, u64)>,
) -> bool {
    &&& map_of(projects) == provider.project_ignores
    &&& map_of(providers) == provider.provider_ignores
    &&& map_of(delays) == provider.debounce
    &&& forall|i: int| 0 <= i < projects.len() ==> is_absolute((#[trigger] projects[i]).0)
}

/// The document of provider settings reads back as the settings.
pub proof fn lemma_provider_round_trip(
    provider: ProviderConfigView,
    projects: Seq<(Seq<char>, IgnoreConfigView)>,
    providers: Seq<(Seq<char>, IgnoreConfigView)>,
    delays: Seq<(Seq<char>, u64)>,
)
    requires
        entries_of_provider(provider, projects, providers, delays),
    ensures
        provider_of(provider_doc(provider, projects, providers, delays)) == Ok::<
            ProviderConfigView,
            SchemaErrorView,
        >(provider),
{
    let entries = provider_doc(provider, projects, providers, delays)->Table_0;
    reveal_strlit("share-input-history");
    assert("share-input-history"@.len() == 19);
    reveal_strlit("max-display-size");
    assert("max-display-size"@.len() == 16);
    reveal_strlit("preview-highlight-engine");
    assert("preview-highlight-engine"@.len() == 24);
    reveal_strlit("sublime-syntax-color-scheme");
    assert("sublime-syntax-color-scheme"@.len() == 27);
    reveal_strlit("project-ignores");
    assert("project-ignores"@.len() == 15);
    reveal_strlit("provider-ignores");
    assert("provider-ignores"@.len() == 16);
    reveal_strlit("debounce");
    assert("debounce"@.len() == 8);
    assert("max-display-size"@[0] != "provider-ignores"@[0]);
    assert(provider_keys()[0] == "share-input-history"@);
    assert(provider_keys()[1] == "max-display-size"@);
    assert(provider_keys()[2] == "preview-highlight-engine"@);
    assert(provider_keys()[3] == "sublime-syntax-color-scheme"@);
    assert(provider_keys()[4] == "project-ignores"@);
    assert(provider_keys()[5] == "provider-ignores"@);
    assert(provider_keys()[6] == "debounce"@);
    lemma_all_known(entries, provider_keys());
    let size = if provider.max_display_size is Some { 1int } else { 0int };
    let scheme = if provider.sublime_syntax_color_scheme is Some { 1int } else { 0int };
    lemma_lookup_finds(entries, 0);
    if provider.max_display_size is Some {
        lemma_lookup_finds(entries, 1);
    } else {
        lemma_lookup_misses(entries, "max-display-size"@);
    }
    lemma_lookup_finds(entries, 1 + size);
    if provider.sublime_syntax_color_scheme is Some {
        lemma_lookup_finds(entries, 2 + size);
    } else {
        lemma_lookup_misses(entries, "sublime-syntax-color-scheme"@);
    }
    lemma_lookup_finds(entries, 2 + size + scheme);
    lemma_lookup_finds(entries, 3 + size + scheme);
    lemma_lookup_finds(entries, 4 + size + scheme);
    lemma_engine_round_trip(provider.preview_highlight_engine);
    assert forall|i: int| 0 <= i < projects.len() implies ignore_of(
        #[trigger] ignores_doc(projects)->Table_0[i].1,
    ) == Ok::<IgnoreConfigView, SchemaErrorView>(projects[i].1) by {
        lemma_ignore_round_trip(projects[i].1);
    }
    assert forall|i: int| 0 <= i < providers.len() implies ignore_of(
        #[trigger] ignores_doc(providers)->Table_0[i].1,
    ) == Ok::<IgnoreConfigView, SchemaErrorView>(providers[i].1) by {
        lemma_ignore_round_trip(providers[i].1);
    }
    lemma_map_round_trip(
        projects,
        ignores_doc(projects)->Table_0,
        |value: Doc| ignore_of(value),
        true,
    );
    lemma_map_round_trip(
        providers,
        ignores_doc(providers)->Table_0,
        |value: Doc| ignore_of(value),
        false,
    );
    lemma_map_round_trip(delays, debounce_doc(delays)->Table_0, |value: Doc| u64_of(value), false);
}

/// The document of settings, with the entries of the three maps of the provider settings in
/// the order in which they are written.
pub open spec fn config_doc(
    config: ConfigView,
    projects: Seq<(Seq<char>, IgnoreConfigView)>,
    providers: Seq<(Seq<char>, IgnoreConfigView)>,
    delays: Seq<(Seq<char>, u64)>,
) -> Doc {
    Doc::Table(
        seq![
            ("log"@, log_doc(config.log)),
            ("matcher"@, matcher_doc(config.matcher)),
            ("plugin"@, plugin_doc(config.plugin)),
            ("provider"@, provider_doc(config.provider, projects, providers, delays)),
            ("global-ignore"@, ignore_doc(config.global_ignore)),
        ],
    )
}

/// Writing settings as a document and reading the document gives the settings back.
pub proof fn lemma_config_round_trip(
    config: ConfigView,
    projects: Seq<(Seq<char>, IgnoreConfigView)>,
    providers: Seq<(Seq<char>, IgnoreConfigView)>,
    delays: Seq<(Seq<char>, u64)>,
)
    requires
        entries_of_provider(config.provider, projects, providers, delays),
    ensures
        config_of(config_doc(config, projects, providers, delays)) == Ok::<
            ConfigView,
            SchemaErrorView,
        >(config),
{
    let entries = config_doc(config, projects, providers, delays)->Table_0;
    reveal_strlit("log");
    assert("log"@.len() == 3);
    reveal_strlit("matcher");
    assert("matcher"@.len() == 7);
    reveal_strlit("plugin");
    assert("plugin"@.len() == 6);
    reveal_strlit("provider");
    assert("provider"@.len() == 8);
    reveal_strlit("global-ignore");
    assert("global-ignore"@.len() == 13);
    assert(config_keys()[0] == "log"@);
    assert(config_keys()[1] == "matcher"@);
    assert(config_keys()[2] == "plugin"@);
    assert(config_keys()[3] == "provider"@);
    assert(config_keys()[4] == "global-ignore"@);
    lemma_all_known(entries, config_keys());
    lemma_lookup_finds(entries, 0);
    lemma_lookup_finds(entries, 1);
    lemma_lookup_finds(entries, 2);
    lemma_lookup_finds(entries, 3);
    lemma_lookup_finds(entries, 4);
    lemma_log_round_trip(config.log);
    lemma_matcher_round_trip(config.matcher);
    lemma_plugin_round_trip(config.plugin);
    lemma_provider_round_trip(config.provider, projects, providers, delays);
    lemma_ignore_round_trip(config.global_ignore);
}

/// The entries of a table, each key and value by its view.
pub open spec fn entries_view(entries: Seq<(String, Node)>) -> Seq<(Seq<char>, Doc)> {
    Seq::new(entries.len(), |i: int| (entries[i].0@, entries[i].1@))
}

/// The table of `entries`.
fn table_of(entries: Vec<(String, Node)>) -> (table: Node)
    ensures
        table@ == Doc::Table(entries_view(entries@)),
{
    let table = Node::Table(entries);
    assert(table@->Table_0 =~= entries_view(entries@));
    table
}

/// Adds the entry of `value` under `key` at the end of `entries`.
fn put(entries: &mut Vec<(String, Node)>, key: &str, value: Node)
    ensures
        entries_view(final(entries)@) == entries_view(old(entries)@).push((key@, value@)),
{
    entries.push((key.to_owned(), value));
    assert(entries_view(entries@) =~= entries_view(old(entries)@).push((key@, value@)));
}

/// Entries to fill.
fn no_entries() -> (entries: Vec<(String, Node)>)
    ensures
        entries_view(entries@) == Seq::<(Seq<char>, Doc)>::empty(),
{
    let entries: Vec<(String, Node)> = Vec::new();
    assert(entries_view(entries@) =~= Seq::<(Seq<char>, Doc)>::empty());
    entries
}

/// The node of a number, where one of 64 bits with a sign can hold it.
fn number_node(number: u64) -> (node: Option<Node>)
    ensures
        node is Some <==> number <= i64::MAX,
        node matches Some(written) ==> written@ == Doc::Integer(number as int),
{
    if number > i64::MAX as u64 {
        None
    } else {
        Some(Node::Integer(number as i64))
    }
}

/// The node of a list of texts.
fn strings_node(texts: &Vec<String>) -> (node: Node)
    ensures
        node@ == strings_doc(texts_of(texts@)),
{
    let mut items: Vec<Node> = Vec::new();
    let mut i: usize = 0;
    while i < texts.len()
        invariant
            i <= texts@.len(),
            items@.len() == i,
            forall|j: int| 0 <= j < i ==> (#[trigger] items@[j])@ == Doc::String(texts@[j]@),
        decreases texts@.len() - i,
    {
        items.push(Node::String(texts[i].clone()));
        i += 1;
    }
    let node = Node::Array(items);
    assert(node@->Array_0 =~= strings_doc(texts_of(texts@))->Array_0);
    node
}

/// Writes log settings.
pub fn write_log(log: &LogConfig) -> (written: Node)
    ensures
        written@ == log_doc(log@),
{
    let mut entries = no_entries();
    match &log.log_file {
        Some(file) => {
            put(&mut entries, "log-file", Node::String(file.clone()));
        },
        None => {},
    }
    put(&mut entries, "max-level", Node::String(log.max_level.clone()));
    put(&mut entries, "log-target", Node::String(log.log_target.clone()));
    assert(entries_view(entries@) =~= log_doc(log@)->Table_0);
    table_of(entries)
}

/// Writes matcher settings.
pub fn write_matcher(matcher: &MatcherConfig) -> (written: Node)
    ensures
        written@ == matcher_doc(matcher@),
{
    let mut entries = no_entries();
    put(&mut entries, "tiebreak", Node::String(matcher.tiebreak.clone()));
    assert(entries_view(entries@) =~= matcher_doc(matcher@)->Table_0);
    table_of(entries)
}

/// Writes cursorword settings.
pub fn write_cursorword(cursorword: &CursorWordConfig) -> (written: Node)
    ensures
        written@ == cursorword_doc(cursorword@),
{
    let mut entries = no_entries();
    put(&mut entries, "enable", Node::Boolean(cursorword.enable));
    put(&mut entries, "ignore-comment-line", Node::Boolean(cursorword.ignore_comment_line));
    put(&mut entries, "ignore-files", Node::String(cursorword.ignore_files.clone()));
    assert(entries_view(entries@) =~= cursorword_doc(cursorword@)->Table_0);
    table_of(entries)
}

/// Writes the settings of a plugin that can only be switched on or off.
pub fn write_switch(enable: bool) -> (written: Node)
    ensures
        written@ == switch_doc(enable),
{
    let mut entries = no_entries();
    put(&mut entries, "enable", Node::Boolean(enable));
    assert(entries_view(entries@) =~= switch_doc(enable)->Table_0);
    table_of(entries)
}

/// Writes ctags settings, where the size fits a number of a document.
pub fn write_ctags(ctags: &CtagsPluginConfig) -> (written: Option<Node>)
    ensures
        written is Some <==> ctags.max_file_size <= i64::MAX,
        written matches Some(table) ==> table@ == ctags_doc(*ctags),
{
    let size = number_node(ctags.max_file_size)?;
    let mut entries = no_entries();
    put(&mut entries, "enable", Node::Boolean(ctags.enable));
    put(&mut entries, "max-file-size", size);
    assert(entries_view(entries@) =~= ctags_doc(*ctags)->Table_0);
    Some(table_of(entries))
}

/// Writes git settings.
pub fn write_git(git: &GitPluginConfig) -> (written: Node)
    ensures
        written@ == git_doc(git@),
{
    let mut entries = no_entries();
    put(&mut entries, "enable", Node::Boolean(git.enable));
    match &git.blame_format_string {
        Some(format) => {
            put(&mut entries, "blame-format-string", Node::String(format.clone()));
        },
        None => {},
    }
    assert(entries_view(entries@) =~= git_doc(git@)->Table_0);
    table_of(entries)
}

/// Whether a document can hold the limit of `strategy`.
pub open spec fn strategy_fits(strategy: RenderStrategy) -> bool {
    strategy matches RenderStrategy::EntireBufferUpToLimit(limit) ==> limit <= i64::MAX
}

/// Writes a render strategy, where its limit fits a number of a document.
pub fn write_render_strategy(strategy: &RenderStrategy) -> (written: Option<Node>)
    ensures
        written is Some <==> strategy_fits(*strategy),
        written matches Some(table) ==> table@ == render_strategy_doc(*strategy),
{
    let mut entries = no_entries();
    match strategy {
        RenderStrategy::VisualLines => {
            put(&mut entries, "strategy", Node::String("visual-lines".to_owned()));
        },
        RenderStrategy::EntireBufferUpToLimit(limit) => {
            let bytes = number_node(*limit as u64)?;
            put(&mut entries, "strategy", Node::String("entire-buffer-up-to-limit".to_owned()));
            put(&mut entries, "file-size-limit", bytes);
        },
    }
    assert(entries_view(entries@) =~= render_strategy_doc(*strategy)->Table_0);
    Some(table_of(entries))
}

/// Writes syntax settings, where the limit of the strategy fits a number of a document.
pub fn write_syntax(syntax: &SyntaxPluginConfig) -> (written: Option<Node>)
    ensures
        written is Some <==> strategy_fits(syntax.render_strategy),
        written matches Some(table) ==> table@ == syntax_doc(*syntax),
{
    let strategy = write_render_strategy(&syntax.render_strategy)?;
    let mut entries = no_entries();
    put(&mut entries, "render-strategy", strategy);
    assert(entries_view(entries@) =~= syntax_doc(*syntax)->Table_0);
    Some(table_of(entries))
}

/// Writes plugin settings, where their numbers fit a document.
pub fn write_plugin(plugin: &PluginConfig) -> (written: Option<Node>)
    ensures
        written is Some <==> plugin.ctags.max_file_size <= i64::MAX && strategy_fits(
            plugin.syntax.render_strategy,
        ),
        written matches Some(table) ==> table@ == plugin_doc(plugin@),
{
    let ctags = write_ctags(&plugin.ctags)?;
    let syntax = write_syntax(&plugin.syntax)?;
    let mut entries = no_entries();
    put(&mut entries, "colorizer", write_switch(plugin.colorizer.enable));
    put(&mut entries, "cursorword", write_cursorword(&plugin.cursorword));
    put(&mut entries, "ctags", ctags);
    put(&mut entries, "git", write_git(&plugin.git));
    put(&mut entries, "linter", write_switch(plugin.linter.enable));
    put(&mut entries, "markdown", write_switch(plugin.markdown.enable));
    put(&mut entries, "syntax", syntax);
    assert(entries_view(entries@) =~= plugin_doc(plugin@)->Table_0);
    Some(table_of(entries))
}

/// Writes ignore settings.
pub fn write_ignore(ignore: &IgnoreConfig) -> (written: Node)
    ensures
        written@ == ignore_doc(ignore@),
{
    let mut entries = no_entries();
    put(&mut entries, "ignore-comments", Node::Boolean(ignore.ignore_comments));
    put(&mut entries, "git-tracked-only", Node::Boolean(ignore.git_tracked_only));
    put(&mut entries, "ignore-file-name-pattern", strings_node(&ignore.ignore_file_name_pattern));
    put(&mut entries, "ignore-file-path-pattern", strings_node(&ignore.ignore_file_path_pattern));
    assert(entries_view(entries@) =~= ignore_doc(ignore@)->Table_0);
    table_of(entries)
}

/// Writes the name of a highlight engine.
pub fn write_engine(engine: &HighlightEngine) -> (written: Node)
    ensures
        written@ == engine_doc(*engine),
{
    match engine {
        HighlightEngine::SublimeSyntax => Node::String("sublime-syntax".to_owned()),
        HighlightEngine::TreeSitter => Node::String("tree-sitter".to_owned()),
        HighlightEngine::Vim => Node::String("vim".to_owned()),
    }
}

/// Writes ignore settings by key, in dictionary order of the keys.
pub fn write_ignores(ignores: &StringMap<IgnoreConfig>) -> (written: Node)
    ensures
        written@ == ignores_doc(ignores.entries()),
        keys_increase(ignores.entries()),
{
    let count = ignores.len();
    let mut entries = no_entries();
    let mut i: usize = 0;
    while i < count
        invariant
            i <= count,
            count == ignores.entries().len(),
            keys_increase(ignores.entries()),
            entries_view(entries@).len() == i,
            forall|j: int|
                0 <= j < i ==> (#[trigger] entries_view(entries@)[j]) == (
                    ignores.entries()[j].0,
                    ignore_doc(ignores.entries()[j].1),
                ),
        decreases count - i,
    {
        put(&mut entries, ignores.key_at(i), write_ignore(ignores.value_at(i)));
        i += 1;
    }
    assert(entries_view(entries@) =~= ignores_doc(ignores.entries())->Table_0);
    table_of(entries)
}

/// Whether a document can hold every delay of `entries`.
pub open spec fn delays_fit(entries: Seq<(Seq<char>, u64)>) -> bool {
    forall|i: int| 0 <= i < entries.len() ==> (#[trigger] entries[i]).1 <= i64::MAX
}

/// Writes delays by provider, in dictionary order of the providers, where every delay fits a
/// number of a document.
pub fn write_debounce(delays: &StringMap<u64>) -> (written: Option<Node>)
    ensures
        written is Some <==> delays_fit(delays.entries()),
        written matches Some(table) ==> table@ == debounce_doc(delays.entries()),
        keys_increase(delays.entries()),
{
    let count = delays.len();
    let mut entries = no_entries();
    let mut i: usize = 0;
    while i < count
        invariant
            i <= count,
            count == delays.entries().len(),
            entries_view(entries@).len() == i,
            keys_increase(delays.entries()),
            forall|j: int| 0 <= j < i ==> (#[trigger] delays.entries()[j]).1 <= i64::MAX,
            forall|j: int|
                0 <= j < i ==> (#[trigger] entries_view(entries@)[j]) == (
                    delays.entries()[j].0,
                    Doc::Integer(delays.entries()[j].1 as int),
                ),
        decreases count - i,
    {
        let delay = match number_node(*delays.value_at(i)) {
            Some(delay) => delay,
            None => {
                assert(!(delays.entries()[i as int].1 <= i64::MAX));
                return None;
            },
        };
        put(&mut entries, delays.key_at(i), delay);
        i += 1;
    }
    assert(entries_view(entries@) =~= debounce_doc(delays.entries())->Table_0);
    Some(table_of(entries))
}

/// Whether a document can hold the numbers of `provider`.
pub open spec fn provider_fits(provider: ProviderConfigView) -> bool {
    &&& provider.max_display_size matches Some(size) ==> size <= i64::MAX
    &&& forall|name: Seq<char>| #[trigger]
        provider.debounce.contains_key(name) ==> provider.debounce[name] <= i64::MAX
}

/// A document can hold every delay of a map exactly when it can hold every delay of the map's
/// entries.
pub proof fn lemma_delays_fit(delays: Seq<(Seq<char>, u64)>)
    requires
        keys_increase(delays),
    ensures
        delays_fit(delays) <==> forall|name: Seq<char>| #[trigger]
            map_of(delays).contains_key(name) ==> map_of(delays)[name] <= i64::MAX,
{
    if delays_fit(delays) {
        assert forall|name: Seq<char>| #[trigger] map_of(delays).contains_key(name) implies map_of(
            delays,
        )[name] <= i64::MAX by {
            lemma_map_of_keys(delays, name);
            let i = choose|i: int| 0 <= i < delays.len() && (#[trigger] delays[i]).0 == name;
            lemma_map_of_entry(delays, i);
        }
    }
    if forall|name: Seq<char>| #[trigger]
        map_of(delays).contains_key(name) ==> map_of(delays)[name] <= i64::MAX {
        assert forall|i: int| 0 <= i < delays.len() implies (#[trigger] delays[i]).1
            <= i64::MAX by {
            lemma_map_of_entry(delays, i);
            assert(map_of(delays).contains_key(delays[i].0));
        }
    }
}

/// Writes provider settings, where their numbers fit a document.
pub fn write_provider(provider: &ProviderConfig) -> (written: Option<Node>)
    ensures
        written is Some <==> provider_fits(provider@),
        written matches Some(table) ==> table@ == provider_doc(
            provider@,
            provider.project_ignores.entries(),
            provider.provider_ignores.entries(),
            provider.debounce.entries(),
        ),
        written is Some ==> entries_of_provider(
            provider@,
            provider.project_ignores.entries(),
            provider.provider_ignores.entries(),
            provider.debounce.entries(),
        ),
{
    let debounce = write_debounce(&provider.debounce);
    proof {
        lemma_delays_fit(provider.debounce.entries());
        assert(provider@.debounce == map_of(provider.debounce.entries()));
    }
    let debounce = debounce?;
    let size = match provider.max_display_size {
        Some(size) => Some(number_node(size as u64)?),
        None => None,
    };
    let mut entries = no_entries();
    put(&mut entries, "share-input-history", Node::Boolean(provider.share_input_history));
    match size {
        Some(size) => {
            put(&mut entries, "max-display-size", size);
        },
        None => {},
    }
    put(&mut entries, "preview-highlight-engine", write_engine(&provider.preview_highlight_engine));
    match &provider.sublime_syntax_color_scheme {
        Some(scheme) => {
            put(&mut entries, "sublime-syntax-color-scheme", Node::String(scheme.clone()));
        },
        None => {},
    }
    put(&mut entries, "project-ignores", write_ignores(provider.project_ignores.as_string_map()));
    put(&mut entries, "provider-ignores", write_ignores(&provider.provider_ignores));
    put(&mut entries, "debounce", debounce);
    assert(entries_view(entries@) =~= provider_doc(
        provider@,
        provider.project_ignores.entries(),
        provider.provider_ignores.entries(),
        provider.debounce.entries(),
    )->Table_0);
    Some(table_of(entries))
}

/// Whether a document can hold `config`: each of its numbers fits 64 bits with a sign.
pub open spec fn writable(config: ConfigView) -> bool {
    &&& config.plugin.ctags.max_file_size <= i64::MAX
    &&& strategy_fits(config.plugin.syntax.render_strategy)
    &&& provider_fits(config.provider)
}

impl Config {
    /// Writes the settings as a document, where a document can hold them.
    ///
    /// The document reads back as these settings.
    pub fn to_document(&self) -> (written: Option<Node>)
        ensures
            written is Some <==> writable(self@),
            written matches Some(document) ==> document@ == config_doc(
                self@,
                self.provider.project_ignores.entries(),
                self.provider.provider_ignores.entries(),
                self.provider.debounce.entries(),
            ),
            written matches Some(document) ==> config_of(document@) == Ok::<
                ConfigView,
                SchemaErrorView,
            >(self@),
    {
        let plugin = write_plugin(&self.plugin)?;
        let provider = write_provider(&self.provider)?;
        let mut entries = no_entries();
        put(&mut entries, "log", write_log(&self.log));
        put(&mut entries, "matcher", write_matcher(&self.matcher));
        put(&mut entries, "plugin", plugin);
        put(&mut entries, "provider", provider);
        put(&mut entries, "global-ignore", write_ignore(&self.global_ignore));
        assert(entries_view(entries@) =~= config_doc(
            self@,
            self.provider.project_ignores.entries(),
            self.provider.provider_ignores.entries(),
            self.provider.debounce.entries(),
        )->Table_0);
        proof {
            lemma_config_round_trip(
                self@,
                self.provider.project_ignores.entries(),
                self.provider.provider_ignores.entries(),
                self.provider.debounce.entries(),
            );
        }
        Some(table_of(entries))
    }

    /// Writes the settings as TOML text, where a document can hold them and the text can be
    /// written.
    pub fn to_toml_string(&self) -> (written: Option<String>)
        ensures
            match written {
                Some(text) => writable(self@) && rendered_toml(
                    config_doc(
                        self@,
                        self.provider.project_ignores.entries(),
                        self.provider.provider_ignores.entries(),
                        self.provider.debounce.entries(),
                    ),
                ) == Some(text@),
                None => !writable(self@) || rendered_toml(
                    config_doc(
                        self@,
                        self.provider.project_ignores.entries(),
                        self.provider.provider_ignores.entries(),
                        self.provider.debounce.entries(),
                    ),
                ) is None,
            },
    {
        match self.to_document() {
            Some(document) => render_document(&document),
            None => None,
        }
    }
}

} // verus!
