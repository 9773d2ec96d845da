//! The simple store, which keeps only the workspaces, in
//! `~/.config/tillers/workspaces.toml`.

use vstd::prelude::*;
use crate::text;
use crate::config::persistence::{joined, config_dir_for, config_dir_under, join_path, home_dir, initial_workspaces, is_initial_workspace};
use crate::models::workspace::Workspace;

verus! {

/// Where the simple store keeps the workspaces.
#[derive(Debug, Clone)]
pub struct SimplePersistenceConfig {
    pub config_dir: String,
}

impl SimplePersistenceConfig {
    /// The store in `.config/tillers` under a home directory (or under the
    /// current directory when there is none).
    pub fn for_home(home: Option<String>) -> (c: Self)
        ensures
            c.config_dir@ == config_dir_for(home),
    {
        SimplePersistenceConfig { config_dir: config_dir_under(&home) }
    }
}

impl Default for SimplePersistenceConfig {
    /// The store in the user's home directory.
    fn default() -> (c: Self)
        ensures
            exists|home: Option<String>| c.config_dir@ == config_dir_for(home),
    {
        let home = home_dir();
        let ghost h = home;
        let c = Self::for_home(home);
        assert(c.config_dir@ == config_dir_for(h));
        c
    }
}

/// The simple store.
#[derive(Debug)]
pub struct SimpleConfigPersistence {
    pub config: SimplePersistenceConfig,
}

impl SimpleConfigPersistence {
    /// A store with the given configuration.
    pub fn new(config: SimplePersistenceConfig) -> (p: Self)
        ensures
            p.config == config,
    {
        SimpleConfigPersistence { config }
    }

    /// The path of the workspaces file.
    pub fn workspaces_file(&self) -> (p: String)
        ensures
            p@ == joined(self.config.config_dir@, "workspaces.toml"@),
    {
        join_path(self.config.config_dir.as_str(), "workspaces.toml")
    }

    /// The workspaces written when the file does not exist yet: the one
    /// default workspace.
    pub fn default_workspaces(&self) -> (v: Vec<Workspace>)
        ensures
            v.len() == 1,
            exists|id: u128, p: u128, c: i64, u: i64| #[trigger] is_initial_workspace(v@[0], id, p, c, u),
    {
        initial_workspaces()
    }
}

impl Default for SimpleConfigPersistence {
    /// The store in the user's home directory.
    fn default() -> (p: Self)
        ensures
            exists|home: Option<String>| p.config.config_dir@ == config_dir_for(home),
    {
        Self::new(SimplePersistenceConfig::default())
    }
}

} // verus!
