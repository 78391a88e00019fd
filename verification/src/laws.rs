//! What holds of loading whatever the document: where nothing is set the defaults hold; one
//! key that is no setting, anywhere in the document, and the defaults are used whole; and the
//! projects of per-project settings are absolute paths.

use vstd::prelude::*;
use crate::decode::{
    config_keys, config_of, cursorword_keys, ctags_keys, git_keys, ignore_keys, ignore_of,
    log_keys, map_entries, matcher_keys, plugin_keys, provider_keys, render_strategy_keys,
    switch_keys, syntax_keys,
};
use crate::document::{first_unknown, Doc};
use crate::fields::{lookup_in, SchemaErrorView};
use crate::loader::{loaded, loaded_from_document, DocumentSourceView, LoadErrorView};
use crate::paths::is_absolute;
use crate::schema::ConfigView;

verus! {

/// Where there is no settings file, and where the document has no entry, the settings are
/// those of a user who set none, and no error is reported.
pub proof fn lemma_nothing_set_gives_defaults()
    ensures
        loaded(DocumentSourceView::Absent) == (ConfigView::defaults(), None::<LoadErrorView>),
        config_of(Doc::Table(Seq::empty())) == Ok::<ConfigView, SchemaErrorView>(
            ConfigView::defaults(),
        ),
        loaded_from_document(Doc::Table(Seq::empty())) == (
            ConfigView::defaults(),
            None::<LoadErrorView>,
        ),
{
}

/// Whether `section` is a table with a key that is not among `known`.
pub open spec fn strays(section: Doc, known: Seq<Seq<char>>) -> bool {
    section matches Doc::Table(entries) && first_unknown(entries, known) is Some
}

/// Whether the value under `key` in `section` is a table with a key that is not among `known`.
pub open spec fn strays_under(section: Doc, key: Seq<char>, known: Seq<Seq<char>>) -> bool {
    lookup_in(section, key) matches Some(inner) && strays(inner, known)
}

/// Whether one of the tables of ignore settings under `key` has a key that is no setting.
pub open spec fn ignores_stray_under(section: Doc, key: Seq<char>) -> bool {
    lookup_in(section, key) matches Some(Doc::Table(entries)) && exists|i: int|
        0 <= i < entries.len() && strays((#[trigger] entries[i]).1, ignore_keys())
}

/// Whether the plugin settings of `plugin` have a key that is no setting.
pub open spec fn plugin_has_stray_key(plugin: Doc) -> bool {
    ||| strays(plugin, plugin_keys())
    ||| strays_under(plugin, "colorizer"@, switch_keys())
    ||| strays_under(plugin, "cursorword"@, cursorword_keys())
    ||| strays_under(plugin, "ctags"@, ctags_keys())
    ||| strays_under(plugin, "git"@, git_keys())
    ||| strays_under(plugin, "linter"@, switch_keys())
    ||| strays_under(plugin, "markdown"@, switch_keys())
    ||| strays_under(plugin, "syntax"@, syntax_keys())
    ||| lookup_in(plugin, "syntax"@) matches Some(syntax) && strays_under(
        syntax,
        "render-strategy"@,
        render_strategy_keys(),
    )
}

/// Whether the provider settings of `provider` have a key that is no setting.
pub open spec fn provider_has_stray_key(provider: Doc) -> bool {
    ||| strays(provider, provider_keys())
    ||| ignores_stray_under(provider, "project-ignores"@)
    ||| ignores_stray_under(provider, "provider-ignores"@)
}

/// Whether `document` has, in one of the tables that hold settings, a key that is no setting.
pub open spec fn has_stray_key(document: Doc) -> bool {
    ||| strays(document, config_keys())
    ||| strays_under(document, "log"@, log_keys())
    ||| strays_under(document, "matcher"@, matcher_keys())
    ||| lookup_in(document, "plugin"@) matches Some(plugin) && plugin_has_stray_key(plugin)
    ||| lookup_in(document, "provider"@) matches Some(provider) && provider_has_stray_key(provider)
    ||| strays_under(document, "global-ignore"@, ignore_keys())
}

/// A table of ignore settings by key is refused where one of its entries has a key that is
/// no setting.
pub proof fn lemma_stray_entry_fails(entries: Seq<(Seq<char>, Doc)>, at: int, rooted: bool)
    requires
        0 <= at < entries.len(),
        strays(entries[at].1, ignore_keys()),
    ensures
        map_entries(entries, |value: Doc| ignore_of(value), rooted) is Err,
    decreases entries.len(),
{
    if at < entries.len() - 1 {
        lemma_stray_entry_fails(entries.drop_last(), at, rooted);
    }
}

/// A document with a key that is no setting, in any of its tables, is refused: loading it
/// gives the defaults and an error.
pub proof fn lemma_stray_key_is_rejected(document: Doc)
    requires
        has_stray_key(document),
    ensures
        config_of(document) is Err,
        loaded_from_document(document).0 == ConfigView::defaults(),
        loaded_from_document(document).1 is Some,
{
    if let Some(provider) = lookup_in(document, "provider"@) {
        if let Some(Doc::Table(entries)) = lookup_in(provider, "project-ignores"@) {
            if exists|i: int|
                0 <= i < entries.len() && strays((#[trigger] entries[i]).1, ignore_keys()) {
                let i = choose|i: int|
                    0 <= i < entries.len() && strays((#[trigger] entries[i]).1, ignore_keys());
                lemma_stray_entry_fails(entries, i, true);
            }
        }
        if let Some(Doc::Table(entries)) = lookup_in(provider, "provider-ignores"@) {
            if exists|i: int|
                0 <= i < entries.len() && strays((#[trigger] entries[i]).1, ignore_keys()) {
                let i = choose|i: int|
                    0 <= i < entries.len() && strays((#[trigger] entries[i]).1, ignore_keys());
                lemma_stray_entry_fails(entries, i, false);
            }
        }
    }
}

/// Every key of a map that was read with its keys held to absolute paths is one.
pub proof fn lemma_rooted_keys_are_absolute<T>(
    entries: Seq<(Seq<char>, Doc)>,
    value_of: spec_fn(Doc) -> Result<T, SchemaErrorView>,
    key: Seq<char>,
)
    requires
        map_entries(entries, value_of, true) is Ok,
        map_entries(entries, value_of, true)->Ok_0.contains_key(key),
    ensures
        is_absolute(key),
    decreases entries.len(),
{
    if entries.len() > 0 && key != entries.last().0 {
        lemma_rooted_keys_are_absolute(entries.drop_last(), value_of, key);
    }
}

/// In settings that a document holds, every project with ignore settings of its own is an
/// absolute path.
pub proof fn lemma_projects_are_absolute(document: Doc, project: Seq<char>)
    requires
        config_of(document) is Ok,
        config_of(document)->Ok_0.provider.project_ignores.contains_key(project),
    ensures
        is_absolute(project),
{
    let provider = lookup_in(document, "provider"@);
    if let Some(section) = provider {
        if let Some(Doc::Table(entries)) = lookup_in(section, "project-ignores"@) {
            lemma_rooted_keys_are_absolute(entries, |value: Doc| ignore_of(value), project);
        }
    }
}

} // verus!
