//! Where the configuration file and its gitignore file are created when a
//! workspace is set up.

use crate::paths::{join, parent_of, path_from, path_joined, path_of, path_parent};
use std::path::PathBuf;
use vstd::prelude::*;

verus! {

/// The gitignore file that goes with a configuration file.
pub const DEFAULT_GITIGNORE_FILE_NAME: &'static str = ".vtcodegitignore";

/// Says where configuration files live by default.
pub trait ConfigDefaultsProvider {
    /// The candidate paths of the configuration file in the home
    /// directory, the preferred one first.
    fn home_config_paths(&self, config_file_name: &str) -> Vec<PathBuf>;
}

/// The gitignore path for a configuration file: next to it, or the bare
/// file name where the configuration path has no parent.
pub open spec fn gitignore_beside(config_path: PathBuf) -> PathBuf {
    match path_parent(config_path) {
        Some(parent) => path_joined(parent, DEFAULT_GITIGNORE_FILE_NAME@),
        None => path_of(DEFAULT_GITIGNORE_FILE_NAME@),
    }
}

/// The preferred gitignore path for a configuration file.
pub fn gitignore_path_for(config_path: &PathBuf) -> (r: PathBuf)
    ensures
        r == gitignore_beside(*config_path),
{
    match parent_of(config_path) {
        Some(parent) => join(&parent, DEFAULT_GITIGNORE_FILE_NAME),
        None => path_from(DEFAULT_GITIGNORE_FILE_NAME),
    }
}

/// The configuration path in the home directory: the first candidate, or
/// else the file in the fallback home directory.
pub open spec fn home_config_path(
    candidates: Seq<PathBuf>,
    fallback_home: Option<PathBuf>,
    config_file_name: Seq<char>,
) -> Option<PathBuf> {
    if candidates.len() > 0 {
        Some(candidates[0])
    } else {
        match fallback_home {
            Some(home) => Some(path_joined(home, config_file_name)),
            None => None,
        }
    }
}

/// The path behind an optional reference.
pub open spec fn owned(path: Option<&PathBuf>) -> Option<PathBuf> {
    match path {
        Some(home) => Some(*home),
        None => None,
    }
}

/// Picks the configuration path in the home directory from the candidates
/// of the defaults provider, falling back to the user's home directory.
pub fn choose_home_config_path(
    candidates: Vec<PathBuf>,
    fallback_home: Option<&PathBuf>,
    config_file_name: &str,
) -> (r: Option<PathBuf>)
    ensures
        r == home_config_path(candidates@, owned(fallback_home), config_file_name@),
{
    let mut candidates = candidates;
    if candidates.len() > 0 {
        Some(candidates.swap_remove(0))
    } else {
        match fallback_home {
            Some(home) => Some(join(home, config_file_name)),
            None => None,
        }
    }
}

/// The configuration path in the home directory: the provider's first
/// candidate, whatever it is, or else the file in the fallback home
/// directory; `None` only where the provider names no candidate and there
/// is no fallback.
pub fn select_home_config_path<P: ConfigDefaultsProvider>(
    defaults_provider: &P,
    config_file_name: &str,
    fallback_home: Option<&PathBuf>,
) -> (r: Option<PathBuf>)
    ensures
        fallback_home is Some ==> r is Some,
        exists|candidates: Seq<PathBuf>|
            r == #[trigger] home_config_path(candidates, owned(fallback_home), config_file_name@),
{
    let candidates = defaults_provider.home_config_paths(config_file_name);
    choose_home_config_path(candidates, fallback_home, config_file_name)
}

/// The bootstrap targets: the configuration file and the gitignore file.
/// With a home path they live in the home directory, else in the
/// workspace.
pub open spec fn bootstrap_targets(
    workspace: PathBuf,
    home_config: Option<PathBuf>,
    config_file_name: Seq<char>,
) -> (PathBuf, PathBuf) {
    match home_config {
        Some(config_path) => (config_path, gitignore_beside(config_path)),
        None => (
            path_joined(workspace, config_file_name),
            path_joined(workspace, DEFAULT_GITIGNORE_FILE_NAME@),
        ),
    }
}

/// Picks the bootstrap targets, given the configuration path in the home
/// directory if one is to be used.
pub fn choose_bootstrap_targets(
    workspace: &PathBuf,
    home_config: Option<PathBuf>,
    config_file_name: &str,
) -> (r: (PathBuf, PathBuf))
    ensures
        r == bootstrap_targets(*workspace, home_config, config_file_name@),
{
    match home_config {
        Some(config_path) => {
            let gitignore_path = gitignore_path_for(&config_path);
            (config_path, gitignore_path)
        },
        None => (join(workspace, config_file_name), join(workspace, DEFAULT_GITIGNORE_FILE_NAME)),
    }
}

/// Determines where the configuration and gitignore files are created when
/// a workspace is bootstrapped: in the home directory if that is asked for
/// and a home path can be had, else in the workspace.
pub fn determine_bootstrap_targets<P: ConfigDefaultsProvider>(
    workspace: &PathBuf,
    use_home_dir: bool,
    config_file_name: &str,
    defaults_provider: &P,
    fallback_home: Option<&PathBuf>,
) -> (r: (PathBuf, PathBuf))
    ensures
        !use_home_dir ==> r == bootstrap_targets(*workspace, None, config_file_name@),
        exists|home_config: Option<PathBuf>|
            r == #[trigger] bootstrap_targets(*workspace, home_config, config_file_name@),
{
    let selected = select_home_config_path(defaults_provider, config_file_name, fallback_home);
    let home_config = if use_home_dir {
        selected
    } else {
        None
    };
    choose_bootstrap_targets(workspace, home_config, config_file_name)
}

} // verus!
