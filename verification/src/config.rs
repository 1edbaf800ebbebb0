//! Configuration: named key aliases and named host profiles.
//!
//! A [`Config`] is a pair of association tables, one from alias name to
//! credential source and one from host-profile name to host profile. Each
//! table keeps its names unique and is specified through a finite map from
//! name to entry.

use vstd::prelude::*;

use crate::cli::{AliasKind, RemoveConfigSection, SetConfigSection};
use crate::errors::{ConfigError, SessionError};

verus! {

/// A credential source: which backend holds the key, and the reference the
/// backend resolves. The only backend at present is a remote secret store.
#[derive(Clone, Debug)]
pub enum KeyAliasConfig {
    /// A secret-store entry containing the private key.
    SecretsManager { secret_arn: String },
}

/// Specification view of a [`KeyAliasConfig`].
pub ghost enum KeyAliasSpec {
    SecretsManager { secret_arn: Seq<char> },
}

impl View for KeyAliasConfig {
    type V = KeyAliasSpec;

    open spec fn view(&self) -> KeyAliasSpec {
        match self {
            KeyAliasConfig::SecretsManager { secret_arn } => KeyAliasSpec::SecretsManager {
                secret_arn: secret_arn@,
            },
        }
    }
}

impl KeyAliasConfig {
    /// The backend reference to fetch the secret through.
    pub fn reference(&self) -> (r: &String)
        ensures
            self@ matches KeyAliasSpec::SecretsManager { secret_arn } && r@ == secret_arn,
    {
        match self {
            KeyAliasConfig::SecretsManager { secret_arn } => secret_arn,
        }
    }

    /// A copy with the same view.
    pub fn duplicate(&self) -> (c: KeyAliasConfig)
        ensures
            c@ == self@,
    {
        match self {
            KeyAliasConfig::SecretsManager { secret_arn } => KeyAliasConfig::SecretsManager {
                secret_arn: secret_arn.clone(),
            },
        }
    }
}

/// An element-for-element copy of a vector of strings.
fn clone_string_vec(v: &Vec<String>) -> (r: Vec<String>)
    ensures
        r@ == v@,
{
    let n = v.len();
    let mut r: Vec<String> = Vec::new();
    let mut i: usize = 0;
    while i < n
        invariant
            n == v@.len(),
            i <= n,
            r@ == v@.take(i as int),
        decreases n - i,
    {
        r.push(v[i].clone());
        proof {
            assert(v@.take(i + 1 as int) =~= v@.take(i as int).push(v@[i as int]));
        }
        i = i + 1;
    }
    proof {
        assert(v@.take(n as int) =~= v@);
    }
    r
}

impl From<AliasKind> for KeyAliasConfig {
    fn from(kind: AliasKind) -> Self {
        match kind {
            AliasKind::SecretsManager { secret_arn, .. } => KeyAliasConfig::SecretsManager {
                secret_arn,
            },
        }
    }
}

impl vstd::std_specs::convert::FromSpecImpl<AliasKind> for KeyAliasConfig {
    open spec fn obeys_from_spec() -> bool {
        true
    }

    open spec fn from_spec(kind: AliasKind) -> KeyAliasConfig {
        match kind {
            AliasKind::SecretsManager { secret_arn, .. } => KeyAliasConfig::SecretsManager {
                secret_arn,
            },
        }
    }
}

/// A host profile: the key alias to connect with, extra arguments for the
/// interactive program, and the remote destination.
#[derive(Clone, Debug)]
pub struct HostConfig {
    pub key_alias: String,
    pub args: Vec<String>,
    pub destination: String,
}

/// Specification view of a [`HostConfig`].
pub ghost struct HostSpec {
    pub key_alias: Seq<char>,
    pub args: Seq<Seq<char>>,
    pub destination: Seq<char>,
}

impl View for HostConfig {
    type V = HostSpec;

    open spec fn view(&self) -> HostSpec {
        HostSpec { key_alias: self.key_alias@, args: self.args.deep_view(), destination: self.destination@ }
    }
}

/// One key-alias table row: the alias name and its credential source.
#[derive(Clone, Debug)]
pub struct AliasEntry {
    pub name: String,
    pub alias: KeyAliasConfig,
}

/// One host table row: the profile name and its host profile.
#[derive(Clone, Debug)]
pub struct HostEntry {
    pub name: String,
    pub host: HostConfig,
}

/// The finite map described by a sequence of (name, entry) pairs; a later
/// pair with the same name would win, though well-formed tables keep names
/// unique.
pub open spec fn assoc_map<V>(entries: Seq<(Seq<char>, V)>) -> Map<Seq<char>, V>
    decreases entries.len(),
{
    if entries.len() == 0 {
        Map::empty()
    } else {
        assoc_map(entries.drop_last()).insert(entries.last().0, entries.last().1)
    }
}

/// The names of a sequence of (name, entry) pairs are pairwise distinct.
pub open spec fn keys_unique<V>(entries: Seq<(Seq<char>, V)>) -> bool {
    forall|i: int, j: int|
        0 <= i < j < entries.len() ==> (#[trigger] entries[i]).0 != (#[trigger] entries[j]).0
}

/// A name is in the map of a pair sequence exactly when some pair carries it.
pub proof fn lemma_assoc_map_domain<V>(entries: Seq<(Seq<char>, V)>, k: Seq<char>)
    ensures
        assoc_map(entries).contains_key(k) <==> exists|i: int|
            0 <= i < entries.len() && (#[trigger] entries[i]).0 == k,
    decreases entries.len(),
{
    if entries.len() > 0 {
        lemma_assoc_map_domain(entries.drop_last(), k);
        if assoc_map(entries).contains_key(k) {
            if entries.last().0 == k {
                assert(entries[entries.len() - 1].0 == k);
            } else {
                let i = choose|i: int|
                    0 <= i < entries.drop_last().len() && (#[trigger] entries.drop_last()[i]).0 == k;
                assert(entries[i].0 == k);
            }
        }
        if exists|i: int| 0 <= i < entries.len() && (#[trigger] entries[i]).0 == k {
            let i = choose|i: int| 0 <= i < entries.len() && (#[trigger] entries[i]).0 == k;
            if i < entries.len() - 1 {
                assert(entries.drop_last()[i].0 == k);
            }
        }
    }
}

/// With unique names, the map sends each pair's name to that pair's entry.
pub proof fn lemma_assoc_map_index<V>(entries: Seq<(Seq<char>, V)>, i: int)
    requires
        keys_unique(entries),
        0 <= i < entries.len(),
    ensures
        assoc_map(entries).contains_key(entries[i].0),
        assoc_map(entries)[entries[i].0] == entries[i].1,
    decreases entries.len(),
{
    if i == entries.len() - 1 {
    } else {
        assert(entries[i].0 != entries.last().0);
        assert(entries.drop_last()[i] == entries[i]);
        lemma_assoc_map_index(entries.drop_last(), i);
    }
}

/// Removing pair `i` from a unique-named sequence removes exactly its name
/// from the map.
pub proof fn lemma_assoc_map_remove<V>(entries: Seq<(Seq<char>, V)>, i: int)
    requires
        keys_unique(entries),
        0 <= i < entries.len(),
    ensures
        assoc_map(entries.remove(i)) =~= assoc_map(entries).remove(entries[i].0),
    decreases entries.len(),
{
    let k = entries[i].0;
    if i == entries.len() - 1 {
        assert(entries.remove(i) =~= entries.drop_last());
        lemma_assoc_map_domain(entries.drop_last(), k);
        assert(forall|j: int|
            0 <= j < entries.drop_last().len() ==> (#[trigger] entries.drop_last()[j]).0
                != k) by {
            assert(forall|j: int| 0 <= j < entries.len() - 1 ==> (#[trigger] entries[j]).0 != k);
        }
        assert(!assoc_map(entries.drop_last()).contains_key(k));
    } else {
        let shorter = entries.drop_last();
        assert(shorter[i] == entries[i]);
        lemma_assoc_map_remove(shorter, i);
        assert(entries.remove(i).drop_last() =~= shorter.remove(i));
        assert(entries.remove(i).last() == entries.last());
        assert(assoc_map(entries.remove(i)) == assoc_map(shorter.remove(i)).insert(
            entries.last().0,
            entries.last().1,
        ));
        assert(entries.last().0 != k);
    }
}

/// The table of key aliases. Kept with unique names; specified by
/// [`Config::alias_map`].
#[derive(Clone, Debug)]
pub struct Config {
    key_aliases: Vec<AliasEntry>,
    hosts: Vec<HostEntry>,
}

impl Config {
    /// The alias rows as (name, entry) specification pairs.
    pub closed spec fn alias_pairs(&self) -> Seq<(Seq<char>, KeyAliasSpec)> {
        self.key_aliases@.map_values(|e: AliasEntry| (e.name@, e.alias@))
    }

    /// The host rows as (name, entry) specification pairs.
    pub closed spec fn host_pairs(&self) -> Seq<(Seq<char>, HostSpec)> {
        self.hosts@.map_values(|e: HostEntry| (e.name@, e.host@))
    }

    /// The configured key aliases, as a map from alias name to credential
    /// source.
    pub open spec fn alias_map(&self) -> Map<Seq<char>, KeyAliasSpec> {
        assoc_map(self.alias_pairs())
    }

    /// The configured host profiles, as a map from profile name to profile.
    pub open spec fn host_map(&self) -> Map<Seq<char>, HostSpec> {
        assoc_map(self.host_pairs())
    }

    /// Well-formedness: both tables keep their names unique.
    pub open spec fn wf(&self) -> bool {
        keys_unique(self.alias_pairs()) && keys_unique(self.host_pairs())
    }

    /// Some configured host profile connects through the given alias.
    pub open spec fn alias_in_use(&self, alias: Seq<char>) -> bool {
        exists|h: Seq<char>|
            #[trigger] self.host_map().contains_key(h) && self.host_map()[h].key_alias == alias
    }

    /// An empty configuration.
    pub fn new() -> (c: Config)
        ensures
            c.wf(),
            c.alias_map() == Map::<Seq<char>, KeyAliasSpec>::empty(),
            c.host_map() == Map::<Seq<char>, HostSpec>::empty(),
    {
        Config { key_aliases: Vec::new(), hosts: Vec::new() }
    }

    /// The alias rows, for display and persistence.
    pub fn alias_entries(&self) -> (r: &Vec<AliasEntry>)
        ensures
            r@.map_values(|e: AliasEntry| (e.name@, e.alias@)) == self.alias_pairs(),
    {
        &self.key_aliases
    }

    /// The host rows, for display and persistence.
    pub fn host_entries(&self) -> (r: &Vec<HostEntry>)
        ensures
            r@.map_values(|e: HostEntry| (e.name@, e.host@)) == self.host_pairs(),
    {
        &self.hosts
    }

    fn find_alias_index(&self, name: &String) -> (r: Option<usize>)
        ensures
            match r {
                Some(i) => i < self.key_aliases@.len() && self.alias_pairs()[i as int].0 == name@,
                None => forall|i: int|
                    0 <= i < self.alias_pairs().len() ==> (#[trigger] self.alias_pairs()[i]).0
                        != name@,
            },
    {
        let n = self.key_aliases.len();
        let mut i: usize = 0;
        while i < n
            invariant
                n == self.key_aliases@.len(),
                i <= n,
                forall|j: int| 0 <= j < i ==> (#[trigger] self.alias_pairs()[j]).0 != name@,
            decreases n - i,
        {
            if self.key_aliases[i].name == *name {
                return Some(i);
            }
            i = i + 1;
        }
        None
    }

    fn find_host_index(&self, name: &String) -> (r: Option<usize>)
        ensures
            match r {
                Some(i) => i < self.hosts@.len() && self.host_pairs()[i as int].0 == name@,
                None => forall|i: int|
                    0 <= i < self.host_pairs().len() ==> (#[trigger] self.host_pairs()[i]).0
                        != name@,
            },
    {
        let n = self.hosts.len();
        let mut i: usize = 0;
        while i < n
            invariant
                n == self.hosts@.len(),
                i <= n,
                forall|j: int| 0 <= j < i ==> (#[trigger] self.host_pairs()[j]).0 != name@,
            decreases n - i,
        {
            if self.hosts[i].name == *name {
                return Some(i);
            }
            i = i + 1;
        }
        None
    }

    /// Whether an alias of this name is configured.
    pub fn contains_alias(&self, name: &String) -> (b: bool)
        ensures
            b == self.alias_map().contains_key(name@),
    {
        proof {
            lemma_assoc_map_domain(self.alias_pairs(), name@);
        }
        self.find_alias_index(name).is_some()
    }

    /// Whether a host profile of this name is configured.
    pub fn contains_host(&self, name: &String) -> (b: bool)
        ensures
            b == self.host_map().contains_key(name@),
    {
        proof {
            lemma_assoc_map_domain(self.host_pairs(), name@);
        }
        self.find_host_index(name).is_some()
    }

    /// Look a key alias up by name.
    pub fn get_alias(&self, name: &String) -> (r: Option<&KeyAliasConfig>)
        requires
            self.wf(),
        ensures
            r is Some <==> self.alias_map().contains_key(name@),
            r matches Some(a) ==> a@ == self.alias_map()[name@],
    {
        proof {
            lemma_assoc_map_domain(self.alias_pairs(), name@);
        }
        match self.find_alias_index(name) {
            Some(i) => {
                proof {
                    lemma_assoc_map_index(self.alias_pairs(), i as int);
                }
                Some(&self.key_aliases[i].alias)
            },
            None => None,
        }
    }

    /// Look a host profile up by name.
    pub fn get_host(&self, name: &String) -> (r: Option<&HostConfig>)
        requires
            self.wf(),
        ensures
            r is Some <==> self.host_map().contains_key(name@),
            r matches Some(h) ==> h@ == self.host_map()[name@],
    {
        proof {
            lemma_assoc_map_domain(self.host_pairs(), name@);
        }
        match self.find_host_index(name) {
            Some(i) => {
                proof {
                    lemma_assoc_map_index(self.host_pairs(), i as int);
                }
                Some(&self.hosts[i].host)
            },
            None => None,
        }
    }

    /// Add a key alias if the name is free; an existing entry is kept.
    /// Returns whether the alias was added.
    pub fn insert_alias(&mut self, name: String, alias: KeyAliasConfig) -> (added: bool)
        requires
            old(self).wf(),
        ensures
            final(self).wf(),
            added == !old(self).alias_map().contains_key(name@),
            final(self).alias_map() == if old(self).alias_map().contains_key(name@) {
                old(self).alias_map()
            } else {
                old(self).alias_map().insert(name@, alias@)
            },
            final(self).host_map() == old(self).host_map(),
    {
        proof {
            lemma_assoc_map_domain(self.alias_pairs(), name@);
        }
        match self.find_alias_index(&name) {
            Some(_) => false,
            None => {
                let ghost old_pairs = self.alias_pairs();
                self.key_aliases.push(AliasEntry { name, alias });
                proof {
                    assert(self.alias_pairs() =~= old_pairs.push((name@, alias@)));
                    assert(self.alias_pairs().drop_last() =~= old_pairs);
                    assert(self.alias_map() =~= assoc_map(old_pairs).insert(name@, alias@));
                }
                true
            },
        }
    }

    /// Add a host profile if the name is free; an existing entry is kept.
    /// Returns whether the profile was added.
    pub fn insert_host(&mut self, name: String, host: HostConfig) -> (added: bool)
        requires
            old(self).wf(),
        ensures
            final(self).wf(),
            added == !old(self).host_map().contains_key(name@),
            final(self).host_map() == if old(self).host_map().contains_key(name@) {
                old(self).host_map()
            } else {
                old(self).host_map().insert(name@, host@)
            },
            final(self).alias_map() == old(self).alias_map(),
    {
        proof {
            lemma_assoc_map_domain(self.host_pairs(), name@);
        }
        match self.find_host_index(&name) {
            Some(_) => false,
            None => {
                let ghost old_pairs = self.host_pairs();
                self.hosts.push(HostEntry { name, host });
                proof {
                    assert(self.host_pairs() =~= old_pairs.push((name@, host@)));
                    assert(self.host_pairs().drop_last() =~= old_pairs);
                    assert(self.host_map() =~= assoc_map(old_pairs).insert(name@, host@));
                }
                true
            },
        }
    }

    /// Remove the key alias of this name; absence leaves the table unchanged.
    /// Returns whether an entry was removed.
    pub fn remove_alias(&mut self, name: &String) -> (removed: bool)
        requires
            old(self).wf(),
        ensures
            final(self).wf(),
            removed == old(self).alias_map().contains_key(name@),
            final(self).alias_map() == old(self).alias_map().remove(name@),
            final(self).host_map() == old(self).host_map(),
    {
        proof {
            lemma_assoc_map_domain(self.alias_pairs(), name@);
        }
        match self.find_alias_index(name) {
            Some(i) => {
                let ghost old_pairs = self.alias_pairs();
                proof {
                    lemma_assoc_map_remove(old_pairs, i as int);
                    old_pairs.remove_ensures(i as int);
                }
                self.key_aliases.remove(i);
                proof {
                    assert(self.alias_pairs() =~= old_pairs.remove(i as int));
                    assert(keys_unique(old_pairs.remove(i as int)));
                    assert(self.alias_map() =~= assoc_map(old_pairs).remove(name@));
                }
                true
            },
            None => {
                proof {
                    assert(self.alias_map() =~= self.alias_map().remove(name@));
                }
                false
            },
        }
    }

    /// Remove the host profile of this name; absence leaves the table
    /// unchanged. Returns whether an entry was removed.
    pub fn remove_host(&mut self, name: &String) -> (removed: bool)
        requires
            old(self).wf(),
        ensures
            final(self).wf(),
            removed == old(self).host_map().contains_key(name@),
            final(self).host_map() == old(self).host_map().remove(name@),
            final(self).alias_map() == old(self).alias_map(),
    {
        proof {
            lemma_assoc_map_domain(self.host_pairs(), name@);
        }
        match self.find_host_index(name) {
            Some(i) => {
                let ghost old_pairs = self.host_pairs();
                proof {
                    lemma_assoc_map_remove(old_pairs, i as int);
                    old_pairs.remove_ensures(i as int);
                }
                self.hosts.remove(i);
                proof {
                    assert(self.host_pairs() =~= old_pairs.remove(i as int));
                    assert(keys_unique(old_pairs.remove(i as int)));
                    assert(self.host_map() =~= assoc_map(old_pairs).remove(name@));
                }
                true
            },
            None => {
                proof {
                    assert(self.host_map() =~= self.host_map().remove(name@));
                }
                false
            },
        }
    }

    /// `hosts` names exactly the host profiles that connect through the
    /// given alias: every listed name is such a host, and every such host
    /// is listed.
    pub open spec fn lists_hosts_using(&self, hosts: Seq<String>, alias: Seq<char>) -> bool {
        &&& forall|j: int|
            0 <= j < hosts.len() ==> #[trigger] self.host_map().contains_key(hosts[j]@)
                && self.host_map()[hosts[j]@].key_alias == alias
        &&& forall|h: Seq<char>|
            #[trigger] self.host_map().contains_key(h) && self.host_map()[h].key_alias == alias
                ==> exists|j: int| 0 <= j < hosts.len() && (#[trigger] hosts[j])@ == h
    }

    /// The names of the host profiles that connect through the given alias:
    /// every listed name is such a host, and every such host is listed.
    pub fn hosts_using_alias(&self, alias: &String) -> (v: Vec<String>)
        requires
            self.wf(),
        ensures
            v@.len() > 0 <==> self.alias_in_use(alias@),
            self.lists_hosts_using(v@, alias@),
    {
        let n = self.hosts.len();
        let mut v: Vec<String> = Vec::new();
        let mut i: usize = 0;
        while i < n
            invariant
                self.wf(),
                n == self.hosts@.len(),
                i <= n,
                forall|j: int|
                    0 <= j < v@.len() ==> #[trigger] self.host_map().contains_key(v@[j]@)
                        && self.host_map()[v@[j]@].key_alias == alias@,
                v@.len() > 0 <==> exists|j: int|
                    0 <= j < i && (#[trigger] self.host_pairs()[j]).1.key_alias == alias@,
                forall|k: int|
                    0 <= k < i && (#[trigger] self.host_pairs()[k]).1.key_alias == alias@
                        ==> exists|j: int|
                        0 <= j < v@.len() && (#[trigger] v@[j])@ == self.host_pairs()[k].0,
            decreases n - i,
        {
            if self.hosts[i].host.key_alias == *alias {
                let cloned_name = self.hosts[i].name.clone();
                proof {
                    lemma_assoc_map_index(self.host_pairs(), i as int);
                    assert(self.host_pairs()[i as int].1.key_alias == alias@);
                    assert(cloned_name@ == self.host_pairs()[i as int].0);
                }
                let ghost prev = v@;
                v.push(cloned_name);
                proof {
                    assert(v@.len() == prev.len() + 1);
                    assert(v@[prev.len() as int]@ == self.host_pairs()[i as int].0);
                    assert(forall|j: int| 0 <= j < prev.len() ==> v@[j] == prev[j]);
                }
            }
            i = i + 1;
        }
        proof {
            if v@.len() > 0 {
                assert(self.host_map().contains_key(v@[0]@) && self.host_map()[v@[0]@].key_alias
                    == alias@);
                assert(self.alias_in_use(alias@));
            }
            if self.alias_in_use(alias@) {
                let h = choose|h: Seq<char>|
                    #[trigger] self.host_map().contains_key(h) && self.host_map()[h].key_alias
                        == alias@;
                lemma_assoc_map_domain(self.host_pairs(), h);
                let j = choose|j: int|
                    0 <= j < self.host_pairs().len() && (#[trigger] self.host_pairs()[j]).0 == h;
                lemma_assoc_map_index(self.host_pairs(), j);
                assert(self.host_pairs()[j].1.key_alias == alias@);
            }
            assert forall|h: Seq<char>|
                #[trigger] self.host_map().contains_key(h) && self.host_map()[h].key_alias
                    == alias@ implies exists|j: int|
                0 <= j < v@.len() && (#[trigger] v@[j])@ == h by {
                lemma_assoc_map_domain(self.host_pairs(), h);
                let k = choose|k: int|
                    0 <= k < self.host_pairs().len() && (#[trigger] self.host_pairs()[k]).0 == h;
                lemma_assoc_map_index(self.host_pairs(), k);
                assert(self.host_pairs()[k].1.key_alias == alias@);
            }
        }
        v
    }
}

/// Apply an "add" editing command: a new key alias, or a new host profile
/// whose alias must already exist. An entry whose name is already taken is
/// kept as it is.
pub fn add_config(config: &mut Config, command: SetConfigSection) -> (r: Result<(), ConfigError>)
    requires
        old(config).wf(),
    ensures
        final(config).wf(),
        command matches SetConfigSection::Alias { kind } ==> {
            &&& r is Ok
            &&& final(config).alias_map() == if old(config).alias_map().contains_key(
                kind.spec_name(),
            ) {
                old(config).alias_map()
            } else {
                old(config).alias_map().insert(
                    kind.spec_name(),
                    KeyAliasSpec::SecretsManager { secret_arn: kind.spec_reference() },
                )
            }
            &&& final(config).host_map() == old(config).host_map()
        },
        command matches SetConfigSection::Host { name, alias, destination, args } ==> {
            &&& r is Ok <==> old(config).alias_map().contains_key(alias@)
            &&& !old(config).alias_map().contains_key(alias@) ==> r == Err::<(),
            ConfigError>(ConfigError::AliasNotFound) && *final(config) == *old(config)
            &&& old(config).alias_map().contains_key(alias@) ==> {
                &&& final(config).host_map() == if old(config).host_map().contains_key(name@) {
                    old(config).host_map()
                } else {
                    old(config).host_map().insert(
                        name@,
                        HostSpec {
                            key_alias: alias@,
                            args: args.deep_view(),
                            destination: destination@,
                        },
                    )
                }
                &&& final(config).alias_map() == old(config).alias_map()
            }
        },
{
    match command {
        SetConfigSection::Alias { kind } => {
            let name = kind.name();
            let alias_config = KeyAliasConfig::from(kind);
            config.insert_alias(name, alias_config);
            Ok(())
        },
        SetConfigSection::Host { name, alias, destination, args } => {
            if !config.contains_alias(&alias) {
                return Err(ConfigError::AliasNotFound);
            }
            let host = HostConfig { key_alias: alias, args, destination };
            config.insert_host(name, host);
            Ok(())
        },
    }
}

/// Apply a "remove" editing command. A key alias still referenced by host
/// profiles may not be removed; the error carries the referencing hosts.
pub fn remove_config(config: &mut Config, command: RemoveConfigSection) -> (r: Result<
    (),
    ConfigError,
>)
    requires
        old(config).wf(),
    ensures
        final(config).wf(),
        command matches RemoveConfigSection::Alias { alias_name } ==> {
            &&& !old(config).alias_map().contains_key(alias_name@) ==> r == Err::<(),
            ConfigError>(ConfigError::AliasNotFound) && *final(config) == *old(config)
            &&& old(config).alias_map().contains_key(alias_name@) && old(config).alias_in_use(
                alias_name@,
            ) ==> (r matches Err(ConfigError::AliasInUse { hosts }) && *final(config) == *old(
                config,
            ) && old(config).lists_hosts_using(hosts@, alias_name@))
            &&& old(config).alias_map().contains_key(alias_name@) && !old(config).alias_in_use(
                alias_name@,
            ) ==> {
                &&& r is Ok
                &&& final(config).alias_map() == old(config).alias_map().remove(alias_name@)
                &&& final(config).host_map() == old(config).host_map()
            }
        },
        command matches RemoveConfigSection::Host { name } ==> {
            &&& !old(config).host_map().contains_key(name@) ==> r == Err::<(),
            ConfigError>(ConfigError::HostNotFound) && *final(config) == *old(config)
            &&& old(config).host_map().contains_key(name@) ==> {
                &&& r is Ok
                &&& final(config).host_map() == old(config).host_map().remove(name@)
                &&& final(config).alias_map() == old(config).alias_map()
            }
        },
{
    match command {
        RemoveConfigSection::Alias { alias_name } => {
            if !config.contains_alias(&alias_name) {
                return Err(ConfigError::AliasNotFound);
            }
            let hosts = config.hosts_using_alias(&alias_name);
            if hosts.len() > 0 {
                return Err(ConfigError::AliasInUse { hosts });
            }
            config.remove_alias(&alias_name);
            Ok(())
        },
        RemoveConfigSection::Host { name } => {
            if !config.contains_host(&name) {
                return Err(ConfigError::HostNotFound);
            }
            config.remove_host(&name);
            Ok(())
        },
    }
}

/// What a connect request resolves to: the credential source to fetch the
/// key through, the remote destination when a host profile supplied one, and
/// the profile's extra arguments.
#[derive(Clone, Debug)]
pub struct ResolvedTarget {
    pub alias: KeyAliasConfig,
    pub destination: Option<String>,
    pub extra_args: Vec<String>,
}

/// Resolve a connect-by-alias request: the named key alias itself, with no
/// destination and no extra arguments.
pub fn resolve_alias(config: &Config, key_alias: &String) -> (r: Result<
    ResolvedTarget,
    SessionError,
>)
    requires
        config.wf(),
    ensures
        !config.alias_map().contains_key(key_alias@) ==> r == Err::<ResolvedTarget,
        SessionError>(SessionError::AliasNotFound),
        config.alias_map().contains_key(key_alias@) ==> (r matches Ok(t) && t.alias@
            == config.alias_map()[key_alias@] && t.destination is None && t.extra_args@.len() == 0),
{
    match config.get_alias(key_alias) {
        Some(alias) => Ok(
            ResolvedTarget { alias: alias.duplicate(), destination: None, extra_args: Vec::new() },
        ),
        None => Err(SessionError::AliasNotFound),
    }
}

/// Resolve a connect-by-host request: the profile's key alias, destination
/// and extra arguments. A missing profile and a profile whose alias has
/// since been deleted are distinct failures.
pub fn resolve_host(config: &Config, host: &String) -> (r: Result<ResolvedTarget, SessionError>)
    requires
        config.wf(),
    ensures
        !config.host_map().contains_key(host@) ==> r == Err::<ResolvedTarget,
        SessionError>(SessionError::HostNotFound),
        config.host_map().contains_key(host@) && !config.alias_map().contains_key(
            config.host_map()[host@].key_alias,
        ) ==> r == Err::<ResolvedTarget, SessionError>(SessionError::DanglingAliasReference),
        config.host_map().contains_key(host@) && config.alias_map().contains_key(
            config.host_map()[host@].key_alias,
        ) ==> (r matches Ok(t) && {
            &&& t.alias@ == config.alias_map()[config.host_map()[host@].key_alias]
            &&& t.destination matches Some(d) && d@ == config.host_map()[host@].destination
            &&& t.extra_args.deep_view() == config.host_map()[host@].args
        }),
{
    let host_config = match config.get_host(host) {
        Some(h) => h,
        None => {
            return Err(SessionError::HostNotFound);
        },
    };
    let alias = match config.get_alias(&host_config.key_alias) {
        Some(a) => a,
        None => {
            return Err(SessionError::DanglingAliasReference);
        },
    };
    let destination = host_config.destination.clone();
    let extra_args = clone_string_vec(&host_config.args);
    Ok(ResolvedTarget { alias: alias.duplicate(), destination: Some(destination), extra_args })
}

} // verus!
