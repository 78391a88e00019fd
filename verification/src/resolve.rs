//! Settings that depend on who asks: the ignore settings of a provider in a project, and the
//! delay before a provider handles a query.
//!
//! Both are chosen whole from the first layer that has an entry; layers are never merged.

use vstd::prelude::*;
use crate::paths::AbsPathBuf;
use crate::schema::{Config, ConfigView, IgnoreConfig, IgnoreConfigView};

verus! {

/// The delay, in milliseconds, of a provider for which none is set.
pub const DEFAULT_DEBOUNCE: u64 = 200;

/// The key under which the delay of all other providers is set.
pub open spec fn wildcard() -> Seq<char> {
    "*"@
}

/// The ignore settings that hold for `provider` in `project`: those of the provider if it has
/// any, else those of the project if it has any, else the global ones.
pub open spec fn resolve_ignore(
    config: ConfigView,
    provider: Seq<char>,
    project: Seq<char>,
) -> IgnoreConfigView {
    if config.provider.provider_ignores.contains_key(provider) {
        config.provider.provider_ignores[provider]
    } else if config.provider.project_ignores.contains_key(project) {
        config.provider.project_ignores[project]
    } else {
        config.global_ignore
    }
}

/// The delay of `provider`: its own if it has one, else that of `"*"` if there is one, else
/// [`DEFAULT_DEBOUNCE`].
pub open spec fn resolve_debounce(config: ConfigView, provider: Seq<char>) -> u64 {
    if config.provider.debounce.contains_key(provider) {
        config.provider.debounce[provider]
    } else if config.provider.debounce.contains_key(wildcard()) {
        config.provider.debounce[wildcard()]
    } else {
        DEFAULT_DEBOUNCE
    }
}

impl Config {
    /// The ignore settings for a provider and a project directory.
    ///
    /// The provider's own settings win over the project's, and these over the global ones.
    pub fn ignore_config(
        &self,
        provider_id: &str,
        project_dir: &AbsPathBuf,
    ) -> (chosen: &IgnoreConfig)
        ensures
            chosen@ == resolve_ignore(self@, provider_id@, project_dir@),
    {
        match self.provider.provider_ignores.get(provider_id) {
            Some(of_provider) => of_provider,
            None => match self.provider.project_ignores.get(project_dir) {
                Some(of_project) => of_project,
                None => &self.global_ignore,
            },
        }
    }

    /// The delay in milliseconds before a provider handles a query.
    pub fn provider_debounce(&self, provider_id: &str) -> (delay: u64)
        ensures
            delay == resolve_debounce(self@, provider_id@),
    {
        match self.provider.debounce.get(provider_id) {
            Some(own) => *own,
            None => match self.provider.debounce.get("*") {
                Some(shared) => *shared,
                None => DEFAULT_DEBOUNCE,
            },
        }
    }
}

} // verus!
