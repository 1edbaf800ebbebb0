use smssh::cli::{AliasKind, RemoveConfigSection, SetConfigSection};
use smssh::config::{add_config, remove_config, resolve_alias, resolve_host, Config, HostConfig, KeyAliasConfig};
use smssh::errors::{ConfigError, SessionError};

fn alias_command(name: &str, arn: &str) -> SetConfigSection {
    SetConfigSection::Alias {
        kind: AliasKind::SecretsManager { name: name.to_string(), secret_arn: arn.to_string() },
    }
}

fn host_command(name: &str, alias: &str, destination: &str, args: Vec<String>) -> SetConfigSection {
    SetConfigSection::Host {
        name: name.to_string(),
        alias: alias.to_string(),
        destination: destination.to_string(),
        args,
    }
}

#[test]
fn empty_config_has_no_aliases() {
    let config = Config::new();
    let r = resolve_alias(&config, &"prod-key".to_string());
    assert_eq!(r.unwrap_err(), SessionError::AliasNotFound);
}

#[test]
fn alias_kind_reports_its_name() {
    let kind = AliasKind::SecretsManager {
        name: "prod-key".to_string(),
        secret_arn: "arn:store:prod".to_string(),
    };
    assert_eq!(kind.name(), "prod-key".to_string());
}

#[test]
fn added_alias_resolves() {
    let mut config = Config::new();
    add_config(&mut config, alias_command("prod-key", "arn:store:prod")).unwrap();
    let target = resolve_alias(&config, &"prod-key".to_string()).unwrap();
    match target.alias {
        KeyAliasConfig::SecretsManager { secret_arn } => {
            assert_eq!(secret_arn, "arn:store:prod".to_string());
        }
    }
    assert!(target.destination.is_none());
    assert!(target.extra_args.is_empty());
}

#[test]
fn existing_alias_entry_is_kept() {
    let mut config = Config::new();
    add_config(&mut config, alias_command("prod-key", "arn:store:first")).unwrap();
    add_config(&mut config, alias_command("prod-key", "arn:store:second")).unwrap();
    let target = resolve_alias(&config, &"prod-key".to_string()).unwrap();
    match target.alias {
        KeyAliasConfig::SecretsManager { secret_arn } => {
            assert_eq!(secret_arn, "arn:store:first".to_string());
        }
    }
}

#[test]
fn host_needs_existing_alias() {
    let mut config = Config::new();
    let r = add_config(&mut config, host_command("bastion", "missing", "user@host", vec![]));
    assert_eq!(r.unwrap_err(), ConfigError::AliasNotFound);
}

#[test]
fn added_host_resolves_with_destination_and_args() {
    let mut config = Config::new();
    add_config(&mut config, alias_command("prod-key", "arn:store:prod")).unwrap();
    add_config(
        &mut config,
        host_command("bastion", "prod-key", "user@bastion", vec!["-p".to_string(), "2222".to_string()]),
    )
    .unwrap();
    let target = resolve_host(&config, &"bastion".to_string()).unwrap();
    match target.alias {
        KeyAliasConfig::SecretsManager { secret_arn } => {
            assert_eq!(secret_arn, "arn:store:prod".to_string());
        }
    }
    assert_eq!(target.destination, Some("user@bastion".to_string()));
    assert_eq!(target.extra_args, vec!["-p".to_string(), "2222".to_string()]);
}

#[test]
fn missing_host_is_distinct_from_missing_alias() {
    let config = Config::new();
    let r = resolve_host(&config, &"bastion".to_string());
    assert_eq!(r.unwrap_err(), SessionError::HostNotFound);
}

#[test]
fn deleted_alias_yields_dangling_reference() {
    let mut config = Config::new();
    add_config(&mut config, alias_command("prod-key", "arn:store:prod")).unwrap();
    add_config(&mut config, host_command("bastion", "prod-key", "user@bastion", vec![])).unwrap();
    // Delete the alias out from under the host through the low-level table
    // operation, which performs no use check.
    assert!(config.remove_alias(&"prod-key".to_string()));
    let r = resolve_host(&config, &"bastion".to_string());
    assert_eq!(r.unwrap_err(), SessionError::DanglingAliasReference);
}

#[test]
fn host_referencing_never_configured_alias_dangles() {
    let mut config = Config::new();
    assert!(config.insert_host(
        "bastion".to_string(),
        HostConfig {
            key_alias: "missing".to_string(),
            args: vec![],
            destination: "user@bastion".to_string(),
        },
    ));
    let r = resolve_host(&config, &"bastion".to_string());
    assert_eq!(r.unwrap_err(), SessionError::DanglingAliasReference);
}

#[test]
fn used_alias_cannot_be_removed() {
    let mut config = Config::new();
    add_config(&mut config, alias_command("prod-key", "arn:store:prod")).unwrap();
    add_config(&mut config, host_command("bastion", "prod-key", "user@bastion", vec![])).unwrap();
    let r = remove_config(&mut config, RemoveConfigSection::Alias { alias_name: "prod-key".to_string() });
    match r.unwrap_err() {
        ConfigError::AliasInUse { hosts } => assert_eq!(hosts, vec!["bastion".to_string()]),
        other => panic!("unexpected error: {:?}", other),
    }
    // The alias is still there.
    assert!(resolve_alias(&config, &"prod-key".to_string()).is_ok());
}

#[test]
fn unused_alias_is_removed() {
    let mut config = Config::new();
    add_config(&mut config, alias_command("prod-key", "arn:store:prod")).unwrap();
    add_config(&mut config, host_command("bastion", "prod-key", "user@bastion", vec![])).unwrap();
    remove_config(&mut config, RemoveConfigSection::Host { name: "bastion".to_string() }).unwrap();
    remove_config(&mut config, RemoveConfigSection::Alias { alias_name: "prod-key".to_string() })
        .unwrap();
    let r = resolve_alias(&config, &"prod-key".to_string());
    assert_eq!(r.unwrap_err(), SessionError::AliasNotFound);
}

#[test]
fn removing_missing_entries_is_reported() {
    let mut config = Config::new();
    let r = remove_config(&mut config, RemoveConfigSection::Alias { alias_name: "nope".to_string() });
    assert_eq!(r.unwrap_err(), ConfigError::AliasNotFound);
    let r = remove_config(&mut config, RemoveConfigSection::Host { name: "nope".to_string() });
    assert_eq!(r.unwrap_err(), ConfigError::HostNotFound);
}

#[test]
fn entry_listings_follow_the_tables() {
    let mut config = Config::new();
    add_config(&mut config, alias_command("prod-key", "arn:store:prod")).unwrap();
    add_config(&mut config, host_command("bastion", "prod-key", "user@bastion", vec![])).unwrap();
    assert_eq!(config.alias_entries().len(), 1);
    assert_eq!(config.alias_entries()[0].name, "prod-key".to_string());
    assert_eq!(config.host_entries().len(), 1);
    assert_eq!(config.host_entries()[0].host.destination, "user@bastion".to_string());
}
