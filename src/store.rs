//! The policy store: the policy in force and the last one known to be good.
use vstd::prelude::*;
use crate::policy::{Config, ConfigError, valid_policy, is_default_policy, same_policy};

verus! {

/// A policy the store may hold: one that passed validation, or the built-in one.
pub open spec fn acceptable(c: Config) -> bool {
    valid_policy(c) || is_default_policy(c)
}

/// The (current, backup) pair after a reload attempt: a valid loaded policy
/// becomes current, and the old current becomes the backup if it had passed
/// validation (otherwise the loaded policy is its own backup, so the built-in
/// placeholder never returns once a file has loaded); any failure puts the
/// backup back in force.
pub open spec fn reload_policies(
    current: Config,
    backup: Config,
    loaded: Result<Config, ConfigError>,
) -> (Config, Config) {
    match loaded {
        Ok(c) => if valid_policy(c) {
            (c, if valid_policy(current) {
                current
            } else {
                c
            })
        } else {
            (backup, backup)
        },
        Err(_) => (backup, backup),
    }
}

/// How a reload attempt ends.
pub open spec fn reload_outcome(loaded: Result<Config, ConfigError>) -> ReloadOutcome {
    match loaded {
        Ok(c) => if valid_policy(c) {
            ReloadOutcome::Applied
        } else {
            ReloadOutcome::RolledBack(ConfigError::ValidationError)
        },
        Err(e) => ReloadOutcome::RolledBack(e),
    }
}

/// How a reload attempt ended.
#[derive(Debug, Clone, Copy, PartialEq, Eq, Structural)]
pub enum ReloadOutcome {
    /// The new policy is in force; the previous one became the backup.
    Applied,
    /// Loading failed with this error; the backup is in force again.
    RolledBack(ConfigError),
}

/// Holds the policy in force (`current`) and the last known good one (`backup`).
/// Only `reload` changes them, and each change replaces whole policies.
pub struct ConfigManager {
    current_config: Config,
    backup_config: Config,
}

impl ConfigManager {
    /// Both policies are ones that passed validation, or the built-in one;
    /// the backup is the built-in one only while it is also in force.
    pub open spec fn wf(&self) -> bool {
        &&& acceptable(self.current())
        &&& acceptable(self.backup())
        &&& !valid_policy(self.backup()) ==> is_default_policy(self.current())
    }

    /// The policy in force.
    pub closed spec fn current(&self) -> Config {
        self.current_config
    }

    /// The last known good policy.
    pub closed spec fn backup(&self) -> Config {
        self.backup_config
    }

    /// Starts from the result of the first load: a valid loaded policy is both
    /// current and backup; otherwise the built-in policy is.
    pub fn new(loaded: Result<Config, ConfigError>) -> (r: ConfigManager)
        ensures
            r.wf(),
            match loaded {
                Ok(c) => if valid_policy(c) {
                    same_policy(r.current(), c) && same_policy(r.backup(), c)
                } else {
                    is_default_policy(r.current()) && is_default_policy(r.backup())
                },
                Err(_) => is_default_policy(r.current()) && is_default_policy(r.backup()),
            },
    {
        let config = match loaded {
            Ok(c) => match c.validate() {
                Ok(()) => c,
                Err(_) => Config::default(),
            },
            Err(_) => Config::default(),
        };
        let backup = config.snapshot();
        ConfigManager { current_config: config, backup_config: backup }
    }

    /// A snapshot of the policy in force.
    pub fn get_config(&self) -> (r: Config)
        ensures
            same_policy(r, self.current()),
    {
        self.current_config.snapshot()
    }

    /// A snapshot of the last known good policy.
    pub fn get_backup(&self) -> (r: Config)
        ensures
            same_policy(r, self.backup()),
    {
        self.backup_config.snapshot()
    }

    /// Applies the result of reloading the persisted source. A valid policy
    /// becomes current and the previous current, if it had passed validation,
    /// becomes the backup (otherwise the new policy is); on any failure the
    /// backup is put back in force and is itself left as it was.
    pub fn reload(&mut self, loaded: Result<Config, ConfigError>) -> (r: ReloadOutcome)
        requires
            old(self).wf(),
        ensures
            final(self).wf(),
            loaded is Ok && valid_policy(loaded->Ok_0) ==> valid_policy(final(self).backup()),
            r == reload_outcome(loaded),
            same_policy(
                final(self).current(),
                reload_policies(old(self).current(), old(self).backup(), loaded).0,
            ),
            same_policy(
                final(self).backup(),
                reload_policies(old(self).current(), old(self).backup(), loaded).1,
            ),
    {
        let failure = match loaded {
            Ok(c) => match c.validate() {
                Ok(()) => {
                    self.backup_config = match self.current_config.validate() {
                        Ok(()) => self.current_config.snapshot(),
                        Err(_) => c.snapshot(),
                    };
                    self.current_config = c;
                    return ReloadOutcome::Applied;
                },
                Err(e) => e,
            },
            Err(e) => e,
        };
        self.current_config = self.backup_config.snapshot();
        ReloadOutcome::RolledBack(failure)
    }
}

} // verus!
