//! The place where the settings of a process are kept once they are loaded.
//!
//! A holder is filled once and never again: whoever reads the settings reads the same ones for
//! as long as the process runs.

use vstd::prelude::*;
use crate::loader::{load, loaded, DocumentSource, LoadError};
use crate::schema::{Config, ConfigView};

verus! {

/// `std::path::PathBuf`, a path of the file system. Nothing is known of it here: a path is
/// only kept and handed back.
#[verifier::external_type_specification]
#[verifier::external_body]
pub struct ExPathBuf(std::path::PathBuf);

/// The settings of a process and the file they came from.
#[derive(Debug)]
struct Published {
    file: std::path::PathBuf,
    config: Config,
}

/// Holds the settings of a process, once they are loaded.
#[derive(Debug)]
pub struct ConfigHolder {
    published: Option<Published>,
}

/// The answer to an attempt to fill a holder that is filled already.
#[derive(Debug, PartialEq, Eq)]
pub struct AlreadyInitialized;

impl ConfigHolder {
    /// Whether the holder is filled.
    pub closed spec fn initialized(&self) -> bool {
        self.published is Some
    }

    /// The file of the settings that the holder is filled with.
    pub closed spec fn file(&self) -> std::path::PathBuf
        recommends
            self.initialized(),
    {
        self.published->0.file
    }

    /// The settings that the holder is filled with.
    pub closed spec fn settings(&self) -> ConfigView
        recommends
            self.initialized(),
    {
        self.published->0.config@
    }

    /// A holder that is not filled.
    pub fn new() -> (holder: ConfigHolder)
        ensures
            !holder.initialized(),
    {
        ConfigHolder { published: None }
    }

    /// Whether the holder is filled.
    pub fn is_initialized(&self) -> (filled: bool)
        ensures
            filled == self.initialized(),
    {
        self.published.is_some()
    }

    /// Fills the holder with `config`, loaded from `file`, unless it is filled already: then
    /// nothing changes and the attempt is refused.
    pub fn publish(&mut self, file: std::path::PathBuf, config: Config) -> (done: Result<
        (),
        AlreadyInitialized,
    >)
        ensures
            old(self).initialized() ==> done is Err && *final(self) == *old(self),
            !old(self).initialized() ==> done is Ok && final(self).initialized(),
            !old(self).initialized() ==> final(self).file() == file,
            !old(self).initialized() ==> final(self).settings() == config@,
    {
        if self.published.is_some() {
            Err(AlreadyInitialized)
        } else {
            self.published = Some(Published { file, config });
            Ok(())
        }
    }
}

/// Loads the settings from what was found at `config_file` and fills `holder` with them.
/// Hands back the error that was met while loading; the holder is filled either way.
///
/// This is called once, when the process starts.
pub fn load_config_on_startup(
    holder: &mut ConfigHolder,
    config_file: std::path::PathBuf,
    source: DocumentSource,
) -> (report: Option<LoadError>)
    requires
        !old(holder).initialized(),
    ensures
        final(holder).initialized(),
        final(holder).file() == config_file,
        final(holder).settings() == loaded(source@).0,
        match report {
            Some(error) => loaded(source@).1 == Some(error@),
            None => loaded(source@).1 is None,
        },
{
    let (config, report) = load(source);
    let _ = holder.publish(config_file, config);
    report
}

/// As [`load_config_on_startup`], for a holder of which the caller does not know whether it
/// is filled. A holder that is filled stays as it is: nothing is loaded and the attempt is
/// refused.
pub fn try_load_config_on_startup(
    holder: &mut ConfigHolder,
    config_file: std::path::PathBuf,
    source: DocumentSource,
) -> (done: Result<Option<LoadError>, AlreadyInitialized>)
    ensures
        old(holder).initialized() ==> done is Err && *final(holder) == *old(holder),
        !old(holder).initialized() ==> done is Ok && final(holder).initialized(),
        !old(holder).initialized() ==> final(holder).file() == config_file,
        !old(holder).initialized() ==> final(holder).settings() == loaded(source@).0,
        !old(holder).initialized() ==> match done {
            Ok(Some(error)) => loaded(source@).1 == Some(error@),
            Ok(None) => loaded(source@).1 is None,
            Err(_) => false,
        },
{
    if holder.is_initialized() {
        Err(AlreadyInitialized)
    } else {
        Ok(load_config_on_startup(holder, config_file, source))
    }
}

/// The settings of the process.
pub fn config(holder: &ConfigHolder) -> (settings: &Config)
    requires
        holder.initialized(),
    ensures
        settings@ == holder.settings(),
{
    match &holder.published {
        Some(published) => &published.config,
        None => vstd::pervasive::unreached(),
    }
}

/// The file that the settings of the process came from.
pub fn config_file(holder: &ConfigHolder) -> (file: &std::path::PathBuf)
    requires
        holder.initialized(),
    ensures
        *file == holder.file(),
{
    match &holder.published {
        Some(published) => &published.file,
        None => vstd::pervasive::unreached(),
    }
}

} // verus!
