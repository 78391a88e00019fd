//! The settings that a user can override, each with its default.
//!
//! A type of settings that holds texts or maps has a view: the same settings with texts as
//! sequences of characters and maps as mathematical maps. Contracts speak of the views. A
//! type that holds flags and numbers alone stands for itself.

use vstd::prelude::*;
use crate::maps::{PathMap, StringMap};
use crate::text::{text_of, texts_of};

verus! {

/// How results of equal rank are told apart.
#[derive(Debug, PartialEq, Eq)]
pub struct MatcherConfig {
    /// The sort criteria, separated by commas, the most important first.
    pub tiebreak: String,
}

/// The view of a [`MatcherConfig`].
pub struct MatcherConfigView {
    pub tiebreak: Seq<char>,
}

impl MatcherConfigView {
    /// The matcher settings of a user who set none.
    pub open spec fn defaults() -> MatcherConfigView {
        MatcherConfigView { tiebreak: "score,-begin,-end,-length"@ }
    }
}

impl View for MatcherConfig {
    type V = MatcherConfigView;

    open spec fn view(&self) -> MatcherConfigView {
        MatcherConfigView { tiebreak: self.tiebreak@ }
    }
}

impl Default for MatcherConfig {
    fn default() -> (made: Self)
        ensures
            made@ == MatcherConfigView::defaults(),
    {
        MatcherConfig { tiebreak: "score,-begin,-end,-length".to_owned() }
    }
}

/// Where and how much to log.
#[derive(Debug, PartialEq, Eq)]
pub struct LogConfig {
    /// The log file, as an absolute path.
    pub log_file: Option<String>,
    /// The most verbose level that is logged.
    pub max_level: String,
    /// A filter by target, such as `"maple_core::stdio_server=trace,rpc=debug"`.
    pub log_target: String,
}

/// The view of a [`LogConfig`].
pub struct LogConfigView {
    pub log_file: Option<Seq<char>>,
    pub max_level: Seq<char>,
    pub log_target: Seq<char>,
}

impl LogConfigView {
    /// The log settings of a user who set none.
    pub open spec fn defaults() -> LogConfigView {
        LogConfigView { log_file: None, max_level: "debug"@, log_target: ""@ }
    }
}

impl View for LogConfig {
    type V = LogConfigView;

    open spec fn view(&self) -> LogConfigView {
        LogConfigView {
            log_file: text_of(self.log_file),
            max_level: self.max_level@,
            log_target: self.log_target@,
        }
    }
}

impl Default for LogConfig {
    fn default() -> (made: Self)
        ensures
            made@ == LogConfigView::defaults(),
    {
        LogConfig { log_file: None, max_level: "debug".to_owned(), log_target: "".to_owned() }
    }
}

/// The cursorword plugin.
#[derive(Debug, PartialEq, Eq)]
pub struct CursorWordConfig {
    /// Whether the plugin runs.
    pub enable: bool,
    /// Whether comment lines are passed over.
    pub ignore_comment_line: bool,
    /// The plugin is off for files that match this pattern.
    pub ignore_files: String,
}

/// The view of a [`CursorWordConfig`].
pub struct CursorWordConfigView {
    pub enable: bool,
    pub ignore_comment_line: bool,
    pub ignore_files: Seq<char>,
}

impl CursorWordConfigView {
    /// The cursorword settings of a user who set none.
    pub open spec fn defaults() -> CursorWordConfigView {
        CursorWordConfigView {
            enable: false,
            ignore_comment_line: false,
            ignore_files: "*.toml,*.json,*.yml,*.log,tmp"@,
        }
    }
}

impl View for CursorWordConfig {
    type V = CursorWordConfigView;

    open spec fn view(&self) -> CursorWordConfigView {
        CursorWordConfigView {
            enable: self.enable,
            ignore_comment_line: self.ignore_comment_line,
            ignore_files: self.ignore_files@,
        }
    }
}

impl Default for CursorWordConfig {
    fn default() -> (made: Self)
        ensures
            made@ == CursorWordConfigView::defaults(),
    {
        CursorWordConfig {
            enable: false,
            ignore_comment_line: false,
            ignore_files: "*.toml,*.json,*.yml,*.log,tmp".to_owned(),
        }
    }
}

/// The markdown plugin.
#[derive(Debug, PartialEq, Eq)]
pub struct MarkdownPluginConfig {
    /// Whether the plugin runs.
    pub enable: bool,
}

impl MarkdownPluginConfig {
    /// The markdown settings of a user who set none.
    pub open spec fn defaults() -> MarkdownPluginConfig {
        MarkdownPluginConfig { enable: false }
    }
}

impl Default for MarkdownPluginConfig {
    fn default() -> (made: Self)
        ensures
            made == MarkdownPluginConfig::defaults(),
    {
        MarkdownPluginConfig { enable: false }
    }
}

/// The largest file, in bytes, that the ctags plugin handles by default: 4 MiB.
pub const DEFAULT_MAX_FILE_SIZE: u64 = 4194304;

/// The ctags plugin.
#[derive(Debug, PartialEq, Eq)]
pub struct CtagsPluginConfig {
    /// Whether the plugin runs.
    pub enable: bool,
    /// The plugin is off for files of more than this many bytes.
    pub max_file_size: u64,
}

impl CtagsPluginConfig {
    /// The ctags settings of a user who set none.
    pub open spec fn defaults() -> CtagsPluginConfig {
        CtagsPluginConfig { enable: false, max_file_size: DEFAULT_MAX_FILE_SIZE }
    }
}

impl Default for CtagsPluginConfig {
    fn default() -> (made: Self)
        ensures
            made == CtagsPluginConfig::defaults(),
            made.max_file_size == 4 * 1024 * 1024,
    {
        CtagsPluginConfig { enable: false, max_file_size: DEFAULT_MAX_FILE_SIZE }
    }
}

/// The git plugin.
#[derive(Debug, PartialEq, Eq)]
pub struct GitPluginConfig {
    /// Whether the plugin runs.
    pub enable: bool,
    /// The format of the blame line; `"(author time) summary"` where none is set.
    pub blame_format_string: Option<String>,
}

/// The view of a [`GitPluginConfig`].
pub struct GitPluginConfigView {
    pub enable: bool,
    pub blame_format_string: Option<Seq<char>>,
}

impl GitPluginConfigView {
    /// The git settings of a user who set none.
    pub open spec fn defaults() -> GitPluginConfigView {
        GitPluginConfigView { enable: true, blame_format_string: None }
    }
}

impl View for GitPluginConfig {
    type V = GitPluginConfigView;

    open spec fn view(&self) -> GitPluginConfigView {
        GitPluginConfigView {
            enable: self.enable,
            blame_format_string: text_of(self.blame_format_string),
        }
    }
}

impl Default for GitPluginConfig {
    fn default() -> (made: Self)
        ensures
            made@ == GitPluginConfigView::defaults(),
    {
        GitPluginConfig { enable: true, blame_format_string: None }
    }
}

/// The colorizer plugin.
#[derive(Debug, PartialEq, Eq)]
pub struct ColorizerPluginConfig {
    /// Whether the plugin runs.
    pub enable: bool,
}

impl ColorizerPluginConfig {
    /// The colorizer settings of a user who set none.
    pub open spec fn defaults() -> ColorizerPluginConfig {
        ColorizerPluginConfig { enable: false }
    }
}

impl Default for ColorizerPluginConfig {
    fn default() -> (made: Self)
        ensures
            made == ColorizerPluginConfig::defaults(),
    {
        ColorizerPluginConfig { enable: false }
    }
}

/// The linter plugin.
#[derive(Debug, PartialEq, Eq)]
pub struct LinterPluginConfig {
    /// Whether the plugin runs.
    pub enable: bool,
}

impl LinterPluginConfig {
    /// The linter settings of a user who set none.
    pub open spec fn defaults() -> LinterPluginConfig {
        LinterPluginConfig { enable: false }
    }
}

impl Default for LinterPluginConfig {
    fn default() -> (made: Self)
        ensures
            made == LinterPluginConfig::defaults(),
    {
        LinterPluginConfig { enable: false }
    }
}

/// The size, in bytes, up to which a whole buffer is highlighted by default: 256 KiB.
pub const DEFAULT_FILE_SIZE_LIMIT: usize = 262144;

/// How much of a buffer tree-sitter highlights.
#[derive(Debug, PartialEq, Eq)]
pub enum RenderStrategy {
    /// The visible lines only.
    VisualLines,
    /// The whole buffer, as long as it has no more than this many bytes.
    EntireBufferUpToLimit(usize),
}

impl RenderStrategy {
    /// The strategy of a user who set none.
    pub open spec fn defaults() -> RenderStrategy {
        RenderStrategy::EntireBufferUpToLimit(DEFAULT_FILE_SIZE_LIMIT)
    }
}

impl Default for RenderStrategy {
    fn default() -> (made: Self)
        ensures
            made == RenderStrategy::defaults(),
            made matches RenderStrategy::EntireBufferUpToLimit(limit) && limit == 256 * 1024,
    {
        RenderStrategy::EntireBufferUpToLimit(DEFAULT_FILE_SIZE_LIMIT)
    }
}

/// The syntax plugin.
#[derive(Debug, PartialEq, Eq)]
pub struct SyntaxPluginConfig {
    /// How much of a buffer tree-sitter highlights.
    pub render_strategy: RenderStrategy,
}

impl SyntaxPluginConfig {
    /// The syntax settings of a user who set none.
    pub open spec fn defaults() -> SyntaxPluginConfig {
        SyntaxPluginConfig { render_strategy: RenderStrategy::defaults() }
    }
}

impl Default for SyntaxPluginConfig {
    fn default() -> (made: Self)
        ensures
            made == SyntaxPluginConfig::defaults(),
    {
        SyntaxPluginConfig { render_strategy: RenderStrategy::default() }
    }
}

/// The settings of all plugins.
#[derive(Debug, PartialEq, Eq)]
pub struct PluginConfig {
    pub colorizer: ColorizerPluginConfig,
    pub cursorword: CursorWordConfig,
    pub ctags: CtagsPluginConfig,
    pub git: GitPluginConfig,
    pub linter: LinterPluginConfig,
    pub markdown: MarkdownPluginConfig,
    pub syntax: SyntaxPluginConfig,
}

/// The view of a [`PluginConfig`].
pub struct PluginConfigView {
    pub colorizer: ColorizerPluginConfig,
    pub cursorword: CursorWordConfigView,
    pub ctags: CtagsPluginConfig,
    pub git: GitPluginConfigView,
    pub linter: LinterPluginConfig,
    pub markdown: MarkdownPluginConfig,
    pub syntax: SyntaxPluginConfig,
}

impl PluginConfigView {
    /// The plugin settings of a user who set none.
    pub open spec fn defaults() -> PluginConfigView {
        PluginConfigView {
            colorizer: ColorizerPluginConfig::defaults(),
            cursorword: CursorWordConfigView::defaults(),
            ctags: CtagsPluginConfig::defaults(),
            git: GitPluginConfigView::defaults(),
            linter: LinterPluginConfig::defaults(),
            markdown: MarkdownPluginConfig::defaults(),
            syntax: SyntaxPluginConfig::defaults(),
        }
    }
}

impl View for PluginConfig {
    type V = PluginConfigView;

    open spec fn view(&self) -> PluginConfigView {
        PluginConfigView {
            colorizer: self.colorizer,
            cursorword: self.cursorword@,
            ctags: self.ctags,
            git: self.git@,
            linter: self.linter,
            markdown: self.markdown,
            syntax: self.syntax,
        }
    }
}

impl Default for PluginConfig {
    fn default() -> (made: Self)
        ensures
            made@ == PluginConfigView::defaults(),
    {
        PluginConfig {
            colorizer: ColorizerPluginConfig::default(),
            cursorword: CursorWordConfig::default(),
            ctags: CtagsPluginConfig::default(),
            git: GitPluginConfig::default(),
            linter: LinterPluginConfig::default(),
            markdown: MarkdownPluginConfig::default(),
            syntax: SyntaxPluginConfig::default(),
        }
    }
}

/// Which results a provider leaves out.
#[derive(Debug, PartialEq, Eq)]
pub struct IgnoreConfig {
    /// Whether comment lines are left out, where that applies.
    pub ignore_comments: bool,
    /// Whether, inside a git repository, only tracked files count.
    pub git_tracked_only: bool,
    /// Results from files whose name matches one of these patterns are left out.
    pub ignore_file_name_pattern: Vec<String>,
    /// Results from files whose path matches one of these patterns are left out.
    pub ignore_file_path_pattern: Vec<String>,
}

/// The view of an [`IgnoreConfig`].
pub struct IgnoreConfigView {
    pub ignore_comments: bool,
    pub git_tracked_only: bool,
    pub ignore_file_name_pattern: Seq<Seq<char>>,
    pub ignore_file_path_pattern: Seq<Seq<char>>,
}

impl IgnoreConfigView {
    /// The ignore settings of a user who set none: nothing is left out.
    pub open spec fn defaults() -> IgnoreConfigView {
        IgnoreConfigView {
            ignore_comments: false,
            git_tracked_only: false,
            ignore_file_name_pattern: Seq::empty(),
            ignore_file_path_pattern: Seq::empty(),
        }
    }
}

impl View for IgnoreConfig {
    type V = IgnoreConfigView;

    open spec fn view(&self) -> IgnoreConfigView {
        IgnoreConfigView {
            ignore_comments: self.ignore_comments,
            git_tracked_only: self.git_tracked_only,
            ignore_file_name_pattern: texts_of(self.ignore_file_name_pattern@),
            ignore_file_path_pattern: texts_of(self.ignore_file_path_pattern@),
        }
    }
}

impl Default for IgnoreConfig {
    fn default() -> (made: Self)
        ensures
            made@ == IgnoreConfigView::defaults(),
    {
        let made = IgnoreConfig {
            ignore_comments: false,
            git_tracked_only: false,
            ignore_file_name_pattern: Vec::new(),
            ignore_file_path_pattern: Vec::new(),
        };
        assert(made@.ignore_file_name_pattern =~= Seq::empty());
        assert(made@.ignore_file_path_pattern =~= Seq::empty());
        made
    }
}

/// The engine that highlights a provider's preview.
#[derive(Debug, PartialEq, Eq)]
pub enum HighlightEngine {
    SublimeSyntax,
    TreeSitter,
    Vim,
}

impl HighlightEngine {
    /// The engine of a user who set none.
    pub open spec fn defaults() -> HighlightEngine {
        HighlightEngine::Vim
    }
}

impl Default for HighlightEngine {
    fn default() -> (made: Self)
        ensures
            made == HighlightEngine::defaults(),
    {
        HighlightEngine::Vim
    }
}

/// The settings of the providers, the fuzzy pickers.
#[derive(Debug, PartialEq, Eq)]
pub struct ProviderConfig {
    /// Whether the providers share one input history.
    pub share_input_history: bool,
    /// The largest number of items shown in the results window.
    pub max_display_size: Option<usize>,
    /// The engine that highlights the preview.
    pub preview_highlight_engine: HighlightEngine,
    /// The colour scheme of the sublime-syntax engine.
    pub sublime_syntax_color_scheme: Option<String>,
    /// Ignore settings by project directory, an absolute path.
    pub project_ignores: PathMap<IgnoreConfig>,
    /// Ignore settings by provider. Those of the provider go before those of the project, and
    /// these before the global ones.
    pub provider_ignores: StringMap<IgnoreConfig>,
    /// The delay in milliseconds before a query is handled, by provider; `"*"` stands for
    /// every provider without an entry of its own. Where nothing is set, every provider waits
    /// 200 milliseconds. With a delay, input may be dropped when the user types fast.
    pub debounce: StringMap<u64>,
}

/// The view of a [`ProviderConfig`].
pub struct ProviderConfigView {
    pub share_input_history: bool,
    pub max_display_size: Option<usize>,
    pub preview_highlight_engine: HighlightEngine,
    pub sublime_syntax_color_scheme: Option<Seq<char>>,
    pub project_ignores: Map<Seq<char>, IgnoreConfigView>,
    pub provider_ignores: Map<Seq<char>, IgnoreConfigView>,
    pub debounce: Map<Seq<char>, u64>,
}

impl ProviderConfigView {
    /// The provider settings of a user who set none.
    pub open spec fn defaults() -> ProviderConfigView {
        ProviderConfigView {
            share_input_history: false,
            max_display_size: None,
            preview_highlight_engine: HighlightEngine::defaults(),
            sublime_syntax_color_scheme: None,
            project_ignores: Map::empty(),
            provider_ignores: Map::empty(),
            debounce: Map::empty(),
        }
    }
}

impl View for ProviderConfig {
    type V = ProviderConfigView;

    open spec fn view(&self) -> ProviderConfigView {
        ProviderConfigView {
            share_input_history: self.share_input_history,
            max_display_size: self.max_display_size,
            preview_highlight_engine: self.preview_highlight_engine,
            sublime_syntax_color_scheme: text_of(self.sublime_syntax_color_scheme),
            project_ignores: self.project_ignores@,
            provider_ignores: self.provider_ignores@,
            debounce: self.debounce@,
        }
    }
}

impl Default for ProviderConfig {
    fn default() -> (made: Self)
        ensures
            made@ == ProviderConfigView::defaults(),
    {
        ProviderConfig {
            share_input_history: false,
            max_display_size: None,
            preview_highlight_engine: HighlightEngine::default(),
            sublime_syntax_color_scheme: None,
            project_ignores: PathMap::new(),
            provider_ignores: StringMap::new(),
            debounce: StringMap::new(),
        }
    }
}

/// All settings.
#[derive(Debug, PartialEq, Eq)]
pub struct Config {
    /// Where and how much to log.
    pub log: LogConfig,
    /// How results of equal rank are told apart.
    pub matcher: MatcherConfig,
    /// The settings of the plugins.
    pub plugin: PluginConfig,
    /// The settings of the providers.
    pub provider: ProviderConfig,
    /// The ignore settings where neither the provider nor the project has its own.
    pub global_ignore: IgnoreConfig,
}

/// The view of a [`Config`].
pub struct ConfigView {
    pub log: LogConfigView,
    pub matcher: MatcherConfigView,
    pub plugin: PluginConfigView,
    pub provider: ProviderConfigView,
    pub global_ignore: IgnoreConfigView,
}

impl ConfigView {
    /// The settings of a user who set none.
    pub open spec fn defaults() -> ConfigView {
        ConfigView {
            log: LogConfigView::defaults(),
            matcher: MatcherConfigView::defaults(),
            plugin: PluginConfigView::defaults(),
            provider: ProviderConfigView::defaults(),
            global_ignore: IgnoreConfigView::defaults(),
        }
    }
}

impl View for Config {
    type V = ConfigView;

    open spec fn view(&self) -> ConfigView {
        ConfigView {
            log: self.log@,
            matcher: self.matcher@,
            plugin: self.plugin@,
            provider: self.provider@,
            global_ignore: self.global_ignore@,
        }
    }
}

impl Default for Config {
    fn default() -> (made: Self)
        ensures
            made@ == ConfigView::defaults(),
    {
        Config {
            log: LogConfig::default(),
            matcher: MatcherConfig::default(),
            plugin: PluginConfig::default(),
            provider: ProviderConfig::default(),
            global_ignore: IgnoreConfig::default(),
        }
    }
}

} // verus!
