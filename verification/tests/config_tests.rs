use kawakaze_backend::config::{
    default_bridge_name, default_cache_path, default_container_cidr, default_database_path,
    default_nat_enabled, default_socket_path, default_timeout, is_valid_cidr, ApiConfig,
    ConfigError, KawakazeConfig, NetworkConfig, StorageConfig,
};

#[test]
fn test_default_values() {
    let config = KawakazeConfig::default();

    assert_eq!(config.zfs_pool, "zroot/kawakaze");
    assert_eq!(config.network.container_cidr, "10.11.0.0/16");
    assert_eq!(config.network.bridge_name, "kawakaze-bridge");
    assert_eq!(config.network.nat_enabled, true);
    assert_eq!(config.storage.database_path, "/var/db/kawakaze/kawakaze.db");
    assert_eq!(config.storage.socket_path, "/var/run/kawakaze.sock");
    assert_eq!(config.storage.cache_path, "/var/cache/kawakaze");
    assert_eq!(config.api.timeout, 30);
}

#[test]
fn test_network_config_default() {
    let config = NetworkConfig::default();

    assert_eq!(config.container_cidr, "10.11.0.0/16");
    assert_eq!(config.bridge_name, "kawakaze-bridge");
    assert_eq!(config.nat_enabled, true);
}

#[test]
fn test_storage_config_default() {
    let config = StorageConfig::default();

    assert_eq!(config.database_path, "/var/db/kawakaze/kawakaze.db");
    assert_eq!(config.socket_path, "/var/run/kawakaze.sock");
    assert_eq!(config.cache_path, "/var/cache/kawakaze");
}

#[test]
fn test_api_config_default() {
    let config = ApiConfig::default();

    assert_eq!(config.timeout, 30);
}

#[test]
fn test_validate_empty_zfs_pool() {
    let config = KawakazeConfig {
        zfs_pool: "".to_string(),
        ..Default::default()
    };

    let result = config.validate();
    assert!(matches!(result, Err(ConfigError::InvalidValue(_))));
}

#[test]
fn test_validate_invalid_cidr() {
    let config = KawakazeConfig {
        zfs_pool: "zroot/kawakaze".to_string(),
        network: NetworkConfig {
            container_cidr: "invalid-cidr".to_string(),
            ..Default::default()
        },
        ..Default::default()
    };

    let result = config.validate();
    assert!(matches!(result, Err(ConfigError::InvalidValue(_))));
}

#[test]
fn test_validate_empty_database_path() {
    let config = KawakazeConfig {
        zfs_pool: "zroot/kawakaze".to_string(),
        storage: StorageConfig {
            database_path: "".to_string(),
            ..Default::default()
        },
        ..Default::default()
    };

    let result = config.validate();
    assert!(matches!(result, Err(ConfigError::InvalidValue(_))));
}

#[test]
fn test_validate_zero_timeout() {
    let config = KawakazeConfig {
        zfs_pool: "zroot/kawakaze".to_string(),
        api: ApiConfig {
            timeout: 0,
        },
        ..Default::default()
    };

    let result = config.validate();
    assert!(matches!(result, Err(ConfigError::InvalidValue(_))));
}

#[test]
fn test_validate_excessive_timeout() {
    let config = KawakazeConfig {
        zfs_pool: "zroot/kawakaze".to_string(),
        api: ApiConfig {
            timeout: 4000,
        },
        ..Default::default()
    };

    let result = config.validate();
    assert!(matches!(result, Err(ConfigError::InvalidValue(_))));
}

#[test]
fn test_validate_valid_config() {
    let config = KawakazeConfig::default();
    assert!(config.validate().is_ok());
}

#[test]
fn test_is_valid_cidr() {
    assert!(is_valid_cidr("10.11.0.0/16"));
    assert!(is_valid_cidr("192.168.1.0/24"));
    assert!(is_valid_cidr("172.16.0.0/12"));
    assert!(!is_valid_cidr("invalid"));
    assert!(!is_valid_cidr("10.11.0.0"));
    assert!(!is_valid_cidr("/16"));
    assert!(!is_valid_cidr("10.11.0.0/invalid"));
}

#[test]
fn cidr_edges() {
    assert!(is_valid_cidr("0.0.0.0/0"));
    assert!(is_valid_cidr("255.255.255.255/255"));
    assert!(is_valid_cidr("10.11.0.0/+16"));
    assert!(!is_valid_cidr("10.11.0.0/256"));
    assert!(!is_valid_cidr("10.11.0.0/"));
    assert!(!is_valid_cidr("10.11.0.256/16"));
    assert!(!is_valid_cidr("10.11.0/16"));
    assert!(!is_valid_cidr("10.11.0.0.0/16"));
    assert!(!is_valid_cidr("10.011.0.0/16"));
    assert!(!is_valid_cidr("10.11.0.0/16/1"));
    assert!(!is_valid_cidr(" 10.11.0.0/16"));
}

#[test]
fn timeout_bounds() {
    for t in [1u64, 30, 3600] {
        let c = KawakazeConfig { api: ApiConfig { timeout: t }, ..Default::default() };
        assert!(c.validate().is_ok());
    }
    let c = KawakazeConfig { api: ApiConfig { timeout: 0 }, ..Default::default() };
    assert_eq!(c.validate(), Err(ConfigError::InvalidValue("API timeout cannot be zero".into())));
    let c = KawakazeConfig { api: ApiConfig { timeout: 3601 }, ..Default::default() };
    assert_eq!(
        c.validate(),
        Err(ConfigError::InvalidValue("API timeout cannot exceed 3600 seconds".into()))
    );
}

#[test]
fn validation_reports_the_first_problem() {
    let c = KawakazeConfig {
        zfs_pool: "".into(),
        api: ApiConfig { timeout: 0 },
        ..Default::default()
    };
    assert_eq!(c.validate(), Err(ConfigError::InvalidValue("ZFS pool name cannot be empty".into())));
    let c = KawakazeConfig {
        network: NetworkConfig { container_cidr: "nope".into(), ..Default::default() },
        ..Default::default()
    };
    assert_eq!(c.validate(), Err(ConfigError::InvalidValue("Invalid CIDR format: nope".into())));
    let c = KawakazeConfig {
        storage: StorageConfig { socket_path: "".into(), ..Default::default() },
        ..Default::default()
    };
    assert_eq!(c.validate(), Err(ConfigError::InvalidValue("Socket path cannot be empty".into())));
    let c = KawakazeConfig {
        storage: StorageConfig { cache_path: "".into(), ..Default::default() },
        ..Default::default()
    };
    assert_eq!(c.validate(), Err(ConfigError::InvalidValue("Cache path cannot be empty".into())));
}

#[test]
fn config_defaults_and_loading() {
    assert_eq!(default_container_cidr(), "10.11.0.0/16");
    assert_eq!(default_bridge_name(), "kawakaze-bridge");
    assert!(default_nat_enabled());
    assert_eq!(default_database_path(), "/var/db/kawakaze/kawakaze.db");
    assert_eq!(default_socket_path(), "/var/run/kawakaze.sock");
    assert_eq!(default_cache_path(), "/var/cache/kawakaze");
    assert_eq!(default_timeout(), 30);
    assert_eq!(KawakazeConfig::load(Err(ConfigError::NotFound)), Err(ConfigError::NotFound));
    assert_eq!(KawakazeConfig::load(Ok(KawakazeConfig::default())), Ok(KawakazeConfig::default()));
    let bad = KawakazeConfig { api: ApiConfig { timeout: 0 }, ..Default::default() };
    assert!(matches!(KawakazeConfig::load(Ok(bad)), Err(ConfigError::InvalidValue(_))));
    let (system, user) = KawakazeConfig::search_paths(Some("/home/me"));
    assert_eq!(system, "/etc/kawakaze/config.toml");
    assert_eq!(user, "/home/me/.config/kawakaze/config.toml");
    assert_eq!(KawakazeConfig::search_paths(None).1, "~/.config/kawakaze/config.toml");
    assert_eq!(ConfigError::NotFound.to_string(), "Config file not found");
    assert_eq!(ConfigError::Io("x".into()).to_string(), "IO error: x");
    assert_eq!(ConfigError::TomlParse("x".into()).to_string(), "TOML parsing error: x");
    assert_eq!(ConfigError::InvalidValue("x".into()).to_string(), "Invalid value: x");
}

#[test]
fn test_load_nonexistent_file() {
    // What reading "/nonexistent/path/config.toml" gives is that the file is not there.
    let result = KawakazeConfig::load(Err(ConfigError::NotFound));
    assert!(matches!(result, Err(ConfigError::NotFound)));
}

#[test]
fn loading_checks_what_was_read() {
    let mut config = KawakazeConfig::default();
    config.api.timeout = 3601;
    assert!(matches!(KawakazeConfig::load(Ok(config)), Err(ConfigError::InvalidValue(_))));
    let read = KawakazeConfig::load(Ok(KawakazeConfig::default())).unwrap();
    assert_eq!(read.zfs_pool, "zroot/kawakaze");
    let broken = KawakazeConfig::load(Err(ConfigError::TomlParse("expected `=`".into())));
    assert_eq!(broken.unwrap_err().to_string(), "TOML parsing error: expected `=`");
}

#[test]
fn ipv6_subnets() {
    let good = [
        "::1/64",
        "fd00::/8",
        "::/0",
        "::ffff:1.2.3.4/96",
        "::1.2.3.4/96",
        "2001:db8:0:0:0:0:0:1/128",
        "1:2:3:4:5:6:7:8/64",
        "1:2:3:4:5:6:1.2.3.4/64",
        "1:2:3:4:5::1.2.3.4/64",
        "1::8/1",
        "1:2:3:4:5:6:7::/64",
        "::2:3:4:5:6:7:8/64",
        "ABCD:ef01::/32",
        "0000:0000::0000/0",
        "1::/200",
    ];
    for text in good {
        assert!(is_valid_cidr(text), "{}", text);
    }
    let bad = [
        "1:2:3:4:5:6:7/64",
        "1:2:3:4:5:6:7:8:9/64",
        "1:2:3:4:5:6:7:8::/64",
        "::1:2:3:4:5:6:7:8/64",
        "1:2:3:4:5:6:7::8/64",
        "1:2:3:4:5:6::1.2.3.4/64",
        "1:2:3:4:5:6:7:1.2.3.4/64",
        "1:2:3:4:5:1.2.3.4/64",
        ":::/64",
        "1:::2/64",
        "1::2::3/64",
        "12345::/64",
        "g::/64",
        "1.2.3.4::/64",
        "::1.2.3.4:5/64",
        "::1.2.3/64",
        "::1.2.3.256/64",
        ":1/64",
        "1:/64",
        ":/64",
        "::1 /64",
        "::1/",
        "::1",
        "::1/256",
        "::1/-1",
        "[::1]/64",
        "::1%em0/64",
    ];
    for text in bad {
        assert!(!is_valid_cidr(text), "{}", text);
    }
}

#[test]
fn an_ipv6_subnet_passes_validation() {
    let mut config = KawakazeConfig::default();
    config.network.container_cidr = "fd00:11::/64".to_string();
    assert!(config.validate().is_ok());
    config.network.container_cidr = "fd00:11:/64".to_string();
    assert!(config.validate().is_err());
}
