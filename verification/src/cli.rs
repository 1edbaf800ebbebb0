//! Command data for the configuration editing subcommands.
//!
//! These are plain data types; the surrounding program parses its command
//! line into them and hands them to [`crate::config`].

use vstd::prelude::*;

verus! {

/// A named credential source: the alias name together with the backend that
/// holds the key. The only backend at present is a remote secret store,
/// identified by a reference string.
#[derive(Clone, Debug)]
pub enum AliasKind {
    /// A secret-store entry containing the private key.
    SecretsManager { name: String, secret_arn: String },
}

impl AliasKind {
    /// The alias name under which this credential source is configured.
    pub open spec fn spec_name(&self) -> Seq<char> {
        match self {
            AliasKind::SecretsManager { name, .. } => name@,
        }
    }

    /// The backend reference this credential source resolves through.
    pub open spec fn spec_reference(&self) -> Seq<char> {
        match self {
            AliasKind::SecretsManager { secret_arn, .. } => secret_arn@,
        }
    }

    pub fn name(&self) -> (r: String)
        ensures
            r@ == self.spec_name(),
    {
        match self {
            AliasKind::SecretsManager { name, .. } => name.clone(),
        }
    }
}

/// A configuration editing command.
#[derive(Debug)]
#[allow(inconsistent_fields)]
pub enum SSHConfig {
    /// List the entries of one configuration section.
    List { section: ListConfigSection },
    /// Add a configuration entry.
    Add { section: SetConfigSection },
    /// Remove a configuration entry.
    Remove { section: RemoveConfigSection },
}

/// Which configuration section to list.
#[derive(Clone, Copy, Debug, PartialEq, Eq, Structural)]
pub enum ListConfigSection {
    /// The key aliases.
    Alias,
    /// The host profiles.
    Host,
}

/// What to add to the configuration.
#[derive(Debug)]
pub enum SetConfigSection {
    /// A new key alias.
    Alias { kind: AliasKind },
    /// A new host profile: its name, the key alias it connects with, the
    /// remote destination, and extra arguments for the interactive program.
    Host { name: String, alias: String, destination: String, args: Vec<String> },
}

/// What to remove from the configuration.
#[derive(Debug)]
pub enum RemoveConfigSection {
    /// A key alias, by name.
    Alias { alias_name: String },
    /// A host profile, by name.
    Host { name: String },
}

} // verus!
