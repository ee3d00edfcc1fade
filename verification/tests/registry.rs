//! Registry configuration, image references and mirrors.
use smolvm::registry::{
    extract_registry, rewrite_image_registry, Reference, RegistryConfig, RegistryEntry,
    SMOLMACHINES_REGISTRY,
};


#[test]
fn test_extract_registry_implicit_dockerhub() {
    assert_eq!(extract_registry("alpine"), "docker.io");
    assert_eq!(extract_registry("alpine:latest"), "docker.io");
    assert_eq!(extract_registry("library/alpine"), "docker.io");
    assert_eq!(extract_registry("myuser/myimage"), "docker.io");
}

#[test]
fn test_extract_registry_explicit() {
    assert_eq!(extract_registry("docker.io/library/alpine"), "docker.io");
    assert_eq!(extract_registry("ghcr.io/owner/repo"), "ghcr.io");
    assert_eq!(extract_registry("gcr.io/project/image"), "gcr.io");
    assert_eq!(
        extract_registry("registry.example.com/image"),
        "registry.example.com"
    );
    assert_eq!(extract_registry("localhost:5000/image"), "localhost:5000");
}

#[test]
fn test_rewrite_image_registry() {
    // Implicit docker.io
    assert_eq!(
        rewrite_image_registry("alpine", "mirror.example.com"),
        "mirror.example.com/library/alpine"
    );
    assert_eq!(
        rewrite_image_registry("myuser/myimage", "mirror.example.com"),
        "mirror.example.com/myuser/myimage"
    );

    // Explicit registry
    assert_eq!(
        rewrite_image_registry("docker.io/library/alpine", "mirror.example.com"),
        "mirror.example.com/library/alpine"
    );
    assert_eq!(
        rewrite_image_registry("ghcr.io/owner/repo", "mirror.example.com"),
        "mirror.example.com/owner/repo"
    );
}

#[test]
fn test_registry_config_default() {
    let config = RegistryConfig::default();
    assert!(config.registries.is_empty());
    assert_eq!(config.default_registry(), "docker.io");
}

#[test]
fn test_get_credentials_with_direct_password() {
    let mut config = RegistryConfig::default();
    config.registries.insert(
        "docker.io".to_string(),
        RegistryEntry {
            username: Some("testuser".to_string()),
            password: Some("testpass".to_string()),
            password_env: None,
            mirror: None,
        },
    );

    let creds = config.get_credentials("docker.io", None);
    assert!(creds.is_some());
    let creds = creds.unwrap();
    assert_eq!(creds.username, "testuser");
    assert_eq!(creds.password, "testpass");
}

#[test]
fn test_get_credentials_missing_username() {
    let mut config = RegistryConfig::default();
    config.registries.insert(
        "docker.io".to_string(),
        RegistryEntry {
            username: None,
            password: Some("testpass".to_string()),
            password_env: None,
            mirror: None,
        },
    );

    assert!(config.get_credentials("docker.io", None).is_none());
}

#[test]
fn test_get_credentials_missing_password() {
    let mut config = RegistryConfig::default();
    config.registries.insert(
        "docker.io".to_string(),
        RegistryEntry {
            username: Some("testuser".to_string()),
            password: None,
            password_env: None,
            mirror: None,
        },
    );

    assert!(config.get_credentials("docker.io", None).is_none());
}

#[test]
fn test_get_mirror() {
    let mut config = RegistryConfig::default();
    config.registries.insert(
        "docker.io".to_string(),
        RegistryEntry {
            username: None,
            password: None,
            password_env: None,
            mirror: Some("mirror.example.com".to_string()),
        },
    );

    assert_eq!(config.get_mirror("docker.io"), Some("mirror.example.com"));
    assert_eq!(config.get_mirror("ghcr.io"), None);
}

#[test]
fn test_get_credentials_with_env_password() {
    let mut config = RegistryConfig::default();
    config.registries.insert(
        "test.io".to_string(),
        RegistryEntry {
            username: Some("envuser".to_string()),
            password: None,
            password_env: Some("SMOLVM_TEST_TOKEN".to_string()),
            mirror: None,
        },
    );

    assert_eq!(config.password_variable("test.io"), Some("SMOLVM_TEST_TOKEN"));
    let creds = config.get_credentials("test.io", Some("env_password_123".to_string()));
    assert!(creds.is_some());
    let creds = creds.unwrap();
    assert_eq!(creds.username, "envuser");
    assert_eq!(creds.password, "env_password_123");
}

#[test]
fn test_get_credentials_env_var_not_set() {
    let mut config = RegistryConfig::default();
    config.registries.insert(
        "test.io".to_string(),
        RegistryEntry {
            username: Some("user".to_string()),
            password: None,
            password_env: Some("SMOLVM_NONEXISTENT_VAR".to_string()),
            mirror: None,
        },
    );

    // No credentials when the variable is not set
    assert!(config.get_credentials("test.io", None).is_none());
}

#[test]
fn test_has_registries() {
    let mut config = RegistryConfig::default();
    assert!(!config.has_registries());

    config
        .registries
        .insert("docker.io".to_string(), RegistryEntry::default());
    assert!(config.has_registries());
}

#[test]
fn test_extract_registry_edge_cases() {
    // Image with tag containing colon (version)
    assert_eq!(extract_registry("alpine:3.18.0"), "docker.io");

    // Image with digest
    assert_eq!(extract_registry("alpine@sha256:abc123"), "docker.io");

    // Registry with port and path
    assert_eq!(
        extract_registry("registry.example.com:5000/myorg/myimage:latest"),
        "registry.example.com:5000"
    );
}

#[test]
fn test_rewrite_image_registry_with_tag() {
    assert_eq!(
        rewrite_image_registry("alpine:3.18", "mirror.example.com"),
        "mirror.example.com/library/alpine:3.18"
    );

    assert_eq!(
        rewrite_image_registry("nginx:latest", "mirror.example.com"),
        "mirror.example.com/library/nginx:latest"
    );
}

#[test]
fn test_default_registry_custom() {
    let mut config = RegistryConfig::default();
    config.defaults.registry = Some("custom.registry.io".to_string());
    assert_eq!(config.default_registry(), "custom.registry.io");
}

// --- Reference parser tests ---

#[test]
fn test_reference_bare_name() {
    let r = Reference::parse("python-dev").unwrap();
    assert_eq!(r.registry, SMOLMACHINES_REGISTRY);
    assert_eq!(r.namespace, None);
    assert_eq!(r.name, "python-dev");
    assert_eq!(r.tag, None);
    assert_eq!(r.digest, None);
}

#[test]
fn test_reference_name_with_tag() {
    let r = Reference::parse("python-dev:latest").unwrap();
    assert_eq!(r.registry, SMOLMACHINES_REGISTRY);
    assert_eq!(r.namespace, None);
    assert_eq!(r.name, "python-dev");
    assert_eq!(r.tag, Some("latest".to_string()));
    assert_eq!(r.digest, None);
}

#[test]
fn test_reference_registry_and_name() {
    let r = Reference::parse("smolmachines.com/python-dev:latest").unwrap();
    assert_eq!(r.registry, "smolmachines.com");
    assert_eq!(r.namespace, None);
    assert_eq!(r.name, "python-dev");
    assert_eq!(r.tag, Some("latest".to_string()));
}

#[test]
fn test_reference_registry_namespace_name() {
    let r = Reference::parse("smolmachines.com/binsquare/custom:v1").unwrap();
    assert_eq!(r.registry, "smolmachines.com");
    assert_eq!(r.namespace, Some("binsquare".to_string()));
    assert_eq!(r.name, "custom");
    assert_eq!(r.tag, Some("v1".to_string()));
}

#[test]
fn test_reference_namespace_without_registry() {
    let r = Reference::parse("binsquare/custom:v1").unwrap();
    assert_eq!(r.registry, SMOLMACHINES_REGISTRY);
    assert_eq!(r.namespace, Some("binsquare".to_string()));
    assert_eq!(r.name, "custom");
    assert_eq!(r.tag, Some("v1".to_string()));
}

#[test]
fn test_reference_digest() {
    let digest = "sha256:abcdef0123456789abcdef0123456789abcdef0123456789abcdef0123456789";
    let input = format!("python-dev@{}", digest);
    let r = Reference::parse(&input).unwrap();
    assert_eq!(r.registry, SMOLMACHINES_REGISTRY);
    assert_eq!(r.name, "python-dev");
    assert_eq!(r.tag, None);
    assert_eq!(r.digest, Some(digest.to_string()));
}

#[test]
fn test_reference_registry_with_port() {
    let r = Reference::parse("localhost:5000/myimage:latest").unwrap();
    assert_eq!(r.registry, "localhost:5000");
    assert_eq!(r.namespace, None);
    assert_eq!(r.name, "myimage");
    assert_eq!(r.tag, Some("latest".to_string()));
}

#[test]
fn test_reference_display() {
    let r = Reference::parse("python-dev:latest").unwrap();
    assert_eq!(
        r.to_string(),
        format!("{}/python-dev:latest", SMOLMACHINES_REGISTRY)
    );

    let r = Reference::parse("python-dev").unwrap();
    // Bare name gets :latest in display
    assert_eq!(
        r.to_string(),
        format!("{}/python-dev:latest", SMOLMACHINES_REGISTRY)
    );
}

#[test]
fn test_reference_display_digest() {
    let digest = "sha256:abcdef0123456789abcdef0123456789abcdef0123456789abcdef0123456789";
    let input = format!("smolmachines.com/python-dev@{}", digest);
    let r = Reference::parse(&input).unwrap();
    assert_eq!(
        r.to_string(),
        format!("smolmachines.com/python-dev@{}", digest)
    );
}

#[test]
fn test_reference_error_empty() {
    let err = Reference::parse("").unwrap_err();
    assert_eq!(err.reason, "empty reference");
    assert!(Reference::parse("  ").is_err());
}

#[test]
fn test_reference_error_invalid_digest_algorithm() {
    let err = Reference::parse("python-dev@md5:abc123").unwrap_err();
    assert!(err.reason.contains("unsupported digest algorithm"));
}

#[test]
fn test_reference_error_digest_too_short() {
    let err = Reference::parse("python-dev@sha256:tooshort").unwrap_err();
    assert!(err.reason.contains("hex chars, expected 64"));
}

#[test]
fn test_reference_error_digest_non_hex() {
    // 64 chars but contains 'g' which is not hex
    let bad = format!(
        "python-dev@sha256:{}",
        "abcdef0123456789abcdef0123456789abcdef0123456789abcdef01234567g9"
    );
    let err = Reference::parse(&bad).unwrap_err();
    assert!(err.reason.contains("non-hex"));
}

#[test]
fn test_reference_error_empty_tag() {
    let err = Reference::parse("python-dev:").unwrap_err();
    assert_eq!(err.reason, "empty tag");
}

#[test]
fn test_reference_error_too_many_components() {
    let err = Reference::parse("a.com/b/c/d:latest").unwrap_err();
    assert!(err.reason.contains("too many path components"));
}

#[test]
fn variable_wins_over_stored_password() {
    let mut config = RegistryConfig::default();
    config.registries.insert(
        "ghcr.io".to_string(),
        RegistryEntry {
            username: Some("u".to_string()),
            password: Some("stored".to_string()),
            password_env: Some("TOKEN".to_string()),
            mirror: None,
        },
    );
    let auth = config
        .get_credentials("ghcr.io", Some("fresh".to_string()))
        .unwrap();
    assert_eq!(auth.password, "fresh");
    let auth = config.get_credentials("ghcr.io", None).unwrap();
    assert_eq!(auth.password, "stored");
    assert!(config.get_credentials("docker.io", None).is_none());
    assert_eq!(config.password_variable("docker.io"), None);
}

#[test]
fn reference_survives_being_shown() {
    for text in [
        "ghcr.io/owner/tool:v2",
        "localhost:5000/tool:latest",
        "smolmachines.com/a/b@sha256:abcdef0123456789abcdef0123456789abcdef0123456789abcdef0123456789",
    ] {
        let r = Reference::parse(text).unwrap();
        assert_eq!(r.to_string(), text);
        let again = Reference::parse(&r.to_string()).unwrap();
        assert_eq!(again.registry, r.registry);
        assert_eq!(again.namespace, r.namespace);
        assert_eq!(again.name, r.name);
        assert_eq!(again.tag, r.tag);
        assert_eq!(again.digest, r.digest);
    }
}

#[test]
fn reference_is_trimmed() {
    let r = Reference::parse("  python-dev:v1\u{2003}\n").unwrap();
    assert_eq!(r.name, "python-dev");
    assert_eq!(r.tag.as_deref(), Some("v1"));
    assert_eq!(r.repository(), "python-dev");
    assert_eq!(r.tag_or_digest(), "v1");
    assert_eq!(Reference::parse("x").unwrap().tag_or_latest(), "latest");
}

#[test]
fn reference_error_is_shown_with_its_input() {
    let err = Reference::parse("python-dev:").unwrap_err();
    assert_eq!(
        err.to_string(),
        "invalid reference 'python-dev:': empty tag"
    );
}

#[test]
fn rewriting_keeps_the_repository() {
    let image = rewrite_image_registry("ghcr.io/owner/repo:1", "mirror.example.com");
    assert_eq!(image, "mirror.example.com/owner/repo:1");
    assert_eq!(extract_registry(&image), "mirror.example.com");
}

#[test]
fn configuration_lies_below_the_home_directory() {
    assert_eq!(
        RegistryConfig::config_path(Some("/home/u".to_string())).unwrap(),
        "/home/u/.config/smolvm/registries.toml"
    );
    assert!(RegistryConfig::config_path(None).is_err());
}

#[test]
fn unusable_files_are_empty_configurations() {
    let mut config = RegistryConfig::default();
    config
        .registries
        .insert("docker.io".to_string(), RegistryEntry::default());
    assert!(RegistryConfig::load(Ok(Some(config))).has_registries());
    assert!(!RegistryConfig::load(Ok(None)).has_registries());
    assert!(!RegistryConfig::load(Err("bad syntax".to_string())).has_registries());
}
