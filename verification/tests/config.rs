use buddy::config::{
    config_from_table, load, Config, ConfigError, Dependency, DependencyEntry, Package,
};

fn names(parts: &[&str]) -> Vec<String> {
    parts.iter().map(|part| part.to_string()).collect()
}

fn text(value: &str) -> toml::Value {
    toml::Value::String(value.to_string())
}

fn table(entries: &[(&str, toml::Value)]) -> toml::Table {
    let mut table = toml::Table::new();
    for (key, value) in entries {
        table.insert(key.to_string(), value.clone());
    }
    table
}

fn package_section() -> toml::Value {
    toml::Value::Table(table(&[
        ("name", text("demo")),
        ("version", text("1.2.3")),
        ("edition", text("2023")),
    ]))
}

#[test]
fn missing_descriptor_gives_the_fallback_record() {
    let config = load(None).unwrap();
    assert_eq!(
        config,
        Config {
            package: Package {
                name: "default".to_string(),
                version: "0.1.0".to_string(),
                edition: "2021".to_string(),
            },
            dependencies: vec![],
        }
    );
    assert_eq!(Config::default(), config);
}

#[test]
fn descriptor_fields_are_loaded_as_written() {
    let content = "[package]\nname = \"demo\"\nversion = \"1.2.3\"\nedition = \"2023\"\n\n\
                   [dependencies]\nzlib = { name = \"z\", version = \"1.3\" }\n\
                   abseil = { name = \"absl\", version = \"2024\" }\n";
    let config = load(Some(content)).unwrap();
    assert_eq!(config.package.name, "demo");
    assert_eq!(config.package.version, "1.2.3");
    assert_eq!(config.package.edition, "2023");
    assert_eq!(
        config.dependencies,
        vec![
            DependencyEntry {
                key: "abseil".to_string(),
                dependency: Dependency { name: "absl".to_string(), version: "2024".to_string() },
            },
            DependencyEntry {
                key: "zlib".to_string(),
                dependency: Dependency { name: "z".to_string(), version: "1.3".to_string() },
            },
        ]
    );
}

#[test]
fn scaffolded_descriptor_loads() {
    let content = buddy::scaffold::descriptor("demo");
    let config = load(Some(content.as_str())).unwrap();
    assert_eq!(config.package.name, "demo");
    assert_eq!(config.package.version, "0.1.0");
    assert_eq!(config.package.edition, "2023");
    assert!(config.dependencies.is_empty());
}

#[test]
fn unknown_keys_are_passed_over() {
    let content = "title = \"x\"\n[package]\nname = \"a\"\nversion = \"b\"\nedition = \"c\"\n\
                   license = \"MIT\"\n[dependencies]\n[extra]\nflag = true\n";
    let config = load(Some(content)).unwrap();
    assert_eq!(config.package.name, "a");
    assert_eq!(config.package.version, "b");
    assert_eq!(config.package.edition, "c");
    assert!(config.dependencies.is_empty());
}

#[test]
fn malformed_text_is_a_syntax_error() {
    let content = "[package\nname = ";
    let expected = toml::from_str::<toml::Table>(content).unwrap_err().message().to_string();
    assert!(!expected.is_empty());
    assert_ne!(expected, content);
    assert_eq!(load(Some(content)), Err(ConfigError::Syntax { message: expected }));
}

#[test]
fn empty_text_lacks_the_package_section() {
    assert_eq!(load(Some("")), Err(ConfigError::Missing { path: names(&["package"]) }));
}

#[test]
fn package_that_is_no_table_is_mistyped() {
    assert_eq!(
        load(Some("package = \"demo\"\n[dependencies]\n")),
        Err(ConfigError::Mistyped { path: names(&["package"]) })
    );
}

#[test]
fn missing_package_fields_are_reported_in_order() {
    assert_eq!(
        load(Some("[package]\n[dependencies]\n")),
        Err(ConfigError::Missing { path: names(&["package", "name"]) })
    );
    assert_eq!(
        load(Some("[package]\nname = \"a\"\nedition = \"c\"\n[dependencies]\n")),
        Err(ConfigError::Missing { path: names(&["package", "version"]) })
    );
    assert_eq!(
        load(Some("[package]\nname = \"a\"\nversion = \"b\"\n[dependencies]\n")),
        Err(ConfigError::Missing { path: names(&["package", "edition"]) })
    );
}

#[test]
fn package_field_that_is_no_string_is_mistyped() {
    assert_eq!(
        load(Some("[package]\nname = \"a\"\nversion = 1\nedition = \"c\"\n[dependencies]\n")),
        Err(ConfigError::Mistyped { path: names(&["package", "version"]) })
    );
}

#[test]
fn missing_dependency_section_is_reported() {
    assert_eq!(
        load(Some("[package]\nname = \"a\"\nversion = \"b\"\nedition = \"c\"\n")),
        Err(ConfigError::Missing { path: names(&["dependencies"]) })
    );
}

#[test]
fn dependency_section_that_is_no_table_is_mistyped() {
    assert_eq!(
        load(Some(
            "dependencies = []\n[package]\nname = \"a\"\nversion = \"b\"\nedition = \"c\"\n"
        )),
        Err(ConfigError::Mistyped { path: names(&["dependencies"]) })
    );
}

#[test]
fn faulty_dependencies_are_reported_with_their_path() {
    let head = "[package]\nname = \"a\"\nversion = \"b\"\nedition = \"c\"\n[dependencies]\n";
    assert_eq!(
        load(Some(format!("{}zlib = \"1.3\"\n", head).as_str())),
        Err(ConfigError::Mistyped { path: names(&["dependencies", "zlib"]) })
    );
    assert_eq!(
        load(Some(format!("{}zlib = {{ version = \"1.3\" }}\n", head).as_str())),
        Err(ConfigError::Missing { path: names(&["dependencies", "zlib", "name"]) })
    );
    assert_eq!(
        load(Some(format!("{}zlib = {{ name = \"z\" }}\n", head).as_str())),
        Err(ConfigError::Missing { path: names(&["dependencies", "zlib", "version"]) })
    );
    assert_eq!(
        load(Some(format!("{}zlib = {{ name = \"z\", version = 13 }}\n", head).as_str())),
        Err(ConfigError::Mistyped { path: names(&["dependencies", "zlib", "version"]) })
    );
}

#[test]
fn first_faulty_dependency_is_the_one_reported() {
    let content = "[package]\nname = \"a\"\nversion = \"b\"\nedition = \"c\"\n[dependencies]\n\
                   zlib = 1\nfmt = { name = \"fmt\", version = \"10\" }\nabseil = 2\n";
    assert_eq!(
        load(Some(content)),
        Err(ConfigError::Mistyped { path: names(&["dependencies", "abseil"]) })
    );
}

#[test]
fn package_faults_come_before_dependency_faults() {
    let content = "[package]\nname = \"a\"\nversion = \"b\"\n[dependencies]\nzlib = 1\n";
    assert_eq!(
        load(Some(content)),
        Err(ConfigError::Missing { path: names(&["package", "edition"]) })
    );
}

#[test]
fn table_built_by_hand_is_read() {
    let dependency = toml::Value::Table(table(&[("name", text("z")), ("version", text("1.3"))]));
    let document = table(&[
        ("package", package_section()),
        ("dependencies", toml::Value::Table(table(&[("zlib", dependency)]))),
    ]);
    let config = config_from_table(&document).unwrap();
    assert_eq!(config.package.name, "demo");
    assert_eq!(config.package.version, "1.2.3");
    assert_eq!(config.package.edition, "2023");
    assert_eq!(config.dependencies.len(), 1);
    assert_eq!(config.dependencies[0].key, "zlib");
    assert_eq!(config.dependencies[0].dependency.name, "z");
    assert_eq!(config.dependencies[0].dependency.version, "1.3");
}

#[test]
fn table_built_by_hand_with_a_fault_is_refused() {
    let document = table(&[
        ("package", package_section()),
        ("dependencies", toml::Value::Table(table(&[("zlib", toml::Value::Integer(3))]))),
    ]);
    assert_eq!(
        config_from_table(&document),
        Err(ConfigError::Mistyped { path: names(&["dependencies", "zlib"]) })
    );
    assert_eq!(
        config_from_table(&toml::Table::new()),
        Err(ConfigError::Missing { path: names(&["package"]) })
    );
}

#[test]
fn dependency_keys_are_distinct_and_ordered() {
    let content = "[package]\nname = \"a\"\nversion = \"b\"\nedition = \"c\"\n[dependencies]\n\
                   c = { name = \"3\", version = \"3\" }\na = { name = \"1\", version = \"1\" }\n\
                   b = { name = \"2\", version = \"2\" }\n";
    let config = load(Some(content)).unwrap();
    let keys: Vec<&str> = config.dependencies.iter().map(|entry| entry.key.as_str()).collect();
    assert_eq!(keys, vec!["a", "b", "c"]);
}
