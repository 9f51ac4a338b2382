use daoyi_config::db_config::DbConfig;
use daoyi_config::error::ConfigError;
use daoyi_config::import::apply_local_outcome;
use daoyi_config::import::import_list;
use daoyi_config::import::parse_import_directive;
use daoyi_config::import::remote_descriptor_of;
use daoyi_config::import::resolve_config_tree;
use daoyi_config::import::ImportScheme;
use daoyi_config::import::SourceOutcome;
use daoyi_config::jwt_config::JwtConfig;
use daoyi_config::load::load_from_sources;
use daoyi_config::parse::load_value_from_str;
use daoyi_config::parse::load_value_from_toml_str;
use daoyi_config::placeholder::lookup_path;
use daoyi_config::rs_server_config::RsServerConfig;
use daoyi_config::spring::DyConfiguration;
use daoyi_config::spring::ServerConfig;
use daoyi_config::store::get;
use daoyi_config::store::ConfigStore;
use daoyi_config::value::ConfigValue;

fn s(x: &str) -> ConfigValue {
    ConfigValue::Str(x.to_string())
}

fn obj(entries: Vec<(&str, ConfigValue)>) -> ConfigValue {
    ConfigValue::Obj(entries.into_iter().map(|(k, v)| (k.to_string(), v)).collect())
}

fn imports(directives: Vec<&str>) -> ConfigValue {
    obj(vec![(
        "spring",
        obj(vec![(
            "config",
            obj(vec![(
                "import",
                ConfigValue::Arr(directives.into_iter().map(s).collect()),
            )]),
        )]),
    )])
}

fn docs(entries: Vec<(&str, ConfigValue)>) -> Vec<(String, ConfigValue)> {
    entries.into_iter().map(|(k, v)| (k.to_string(), v)).collect()
}

#[test]
fn directive_optional_classpath_parses() {
    let d = parse_import_directive("optional:classpath:extra.yaml").unwrap();
    assert!(d.optional);
    assert_eq!(d.scheme, ImportScheme::LocalFile);
    assert_eq!(d.locator, "extra.yaml");
}

#[test]
fn directive_remote_parses() {
    let d = parse_import_directive("nacos:shared.yaml").unwrap();
    assert!(!d.optional);
    assert_eq!(d.scheme, ImportScheme::Remote);
    assert_eq!(d.locator, "shared.yaml");
}

#[test]
fn directive_unknown_scheme_is_ignored() {
    assert!(parse_import_directive("http://example").is_none());
    assert!(parse_import_directive("file.yaml").is_none());
}

#[test]
fn import_list_keeps_only_strings() {
    let mut base = imports(vec!["classpath:a.yaml", "nacos:b"]);
    if let ConfigValue::Obj(spring) = &mut base {
        if let ConfigValue::Obj(cfg) = &mut spring[0].1 {
            if let ConfigValue::Obj(imp) = &mut cfg[0].1 {
                if let ConfigValue::Arr(items) = &mut imp[0].1 {
                    items.push(ConfigValue::Int(42));
                }
            }
        }
    }
    let list = import_list(&base);
    assert_eq!(list, vec!["classpath:a.yaml".to_string(), "nacos:b".to_string()]);
}

#[test]
fn import_list_absent_means_no_imports() {
    let base = obj(vec![("a", ConfigValue::Int(1))]);
    assert!(import_list(&base).is_empty());
}

#[test]
fn remote_descriptor_uses_defaults() {
    let root = obj(vec![(
        "spring",
        obj(vec![(
            "cloud",
            obj(vec![("nacos", obj(vec![("server-addr", s("127.0.0.1:8848"))]))]),
        )]),
    )]);
    let d = remote_descriptor_of(&root).unwrap();
    assert_eq!(d.server_addr, "127.0.0.1:8848");
    assert_eq!(d.namespace, "");
    assert_eq!(d.group, "DEFAULT_GROUP");
    assert_eq!(d.app_name, "daoyi-cloud-rs");
    assert!(d.username.is_none());
    assert!(d.password.is_none());
}

#[test]
fn remote_descriptor_reads_overrides() {
    let nacos = obj(vec![
        ("server-addr", s("10.0.0.1:8848")),
        ("username", s("user")),
        ("password", s("pw")),
        ("config", obj(vec![("namespace", s("cfg-ns")), ("group", s("G1"))])),
        ("discovery", obj(vec![("namespace", s("disc-ns"))])),
    ]);
    let root = obj(vec![
        (
            "spring",
            obj(vec![
                ("cloud", obj(vec![("nacos", nacos)])),
                ("application", obj(vec![("name", s("my-app"))])),
            ]),
        ),
    ]);
    let d = remote_descriptor_of(&root).unwrap();
    assert_eq!(d.namespace, "cfg-ns");
    assert_eq!(d.group, "G1");
    assert_eq!(d.app_name, "my-app");
    assert_eq!(d.username.as_deref(), Some("user"));
}

#[test]
fn remote_descriptor_discovery_namespace_fallback() {
    let nacos = obj(vec![
        ("server-addr", s("10.0.0.1:8848")),
        ("username", s("")),
        ("discovery", obj(vec![("namespace", s("disc-ns"))])),
    ]);
    let root = obj(vec![("spring", obj(vec![("cloud", obj(vec![("nacos", nacos)]))]))]);
    let d = remote_descriptor_of(&root).unwrap();
    assert_eq!(d.namespace, "disc-ns");
    assert!(d.username.is_none(), "an empty credential is dropped");
}

#[test]
fn remote_descriptor_missing_settings_is_connection_error() {
    let root = obj(vec![]);
    let e = remote_descriptor_of(&root).unwrap_err();
    assert!(matches!(e, ConfigError::MissingConnectionConfig(_)));
}

#[test]
fn remote_descriptor_missing_address_is_connection_error() {
    let root = obj(vec![(
        "spring",
        obj(vec![("cloud", obj(vec![("nacos", obj(vec![]))]))]),
    )]);
    let e = remote_descriptor_of(&root).unwrap_err();
    assert!(matches!(e, ConfigError::MissingConnectionConfig(_)));
}

#[test]
fn apply_local_outcome_merges_resolved_document() {
    let mut root = obj(vec![("app", obj(vec![("name", s("svc"))]))]);
    let doc = obj(vec![("banner", s("${app.name}!"))]);
    let merged = apply_local_outcome(&mut root, false, "extra.yaml", SourceOutcome::Loaded(doc))
        .unwrap();
    assert!(merged);
    assert_eq!(lookup_path(&root, "banner"), Some(&s("svc!")));
}

#[test]
fn two_pass_ordering_resolves_imported_values() {
    let mut base = imports(vec!["classpath:extra.yaml"]);
    if let ConfigValue::Obj(entries) = &mut base {
        entries.push(("name".to_string(), s("${app.name}-x")));
    }
    let locals = docs(vec![("extra.yaml", obj(vec![("app", obj(vec![("name", s("foo"))]))]))]);
    let out = resolve_config_tree(base, &locals, &Vec::new()).unwrap();
    assert_eq!(lookup_path(&out, "name"), Some(&s("foo-x")));
}

#[test]
fn optional_import_absence_never_aborts() {
    let base = imports(vec!["optional:classpath:missing.yaml"]);
    let out = load_from_sources(base, None, None, None, &Vec::new(), &Vec::new());
    assert!(out.is_ok(), "an optional absent import must still publish");
}

#[test]
fn required_import_absence_aborts() {
    let base = imports(vec!["classpath:missing.yaml"]);
    let out = load_from_sources(base, None, None, None, &Vec::new(), &Vec::new());
    match out.unwrap_err() {
        ConfigError::NotFound(m) => assert_eq!(m, "missing.yaml"),
        other => panic!("expected NotFound, got {:?}", other),
    }
}

#[test]
fn remote_import_without_server_addr_aborts_even_optional() {
    let base = imports(vec!["optional:nacos:shared.yaml"]);
    let out = resolve_config_tree(base, &Vec::new(), &Vec::new());
    assert!(matches!(
        out.unwrap_err(),
        ConfigError::MissingConnectionConfig(_)
    ));

    let base2 = imports(vec!["nacos:shared.yaml"]);
    let out2 = resolve_config_tree(base2, &Vec::new(), &Vec::new());
    assert!(matches!(
        out2.unwrap_err(),
        ConfigError::MissingConnectionConfig(_)
    ));
}

#[test]
fn remote_import_merges_when_connected() {
    let mut base = imports(vec!["nacos:shared.yaml"]);
    if let ConfigValue::Obj(entries) = &mut base {
        if let ConfigValue::Obj(spring) = &mut entries[0].1 {
            spring.push((
                "cloud".to_string(),
                obj(vec![("nacos", obj(vec![("server-addr", s("127.0.0.1:8848"))]))]),
            ));
        }
    }
    let remotes = docs(vec![("shared.yaml", obj(vec![("flag", ConfigValue::Bool(true))]))]);
    let out = resolve_config_tree(base, &Vec::new(), &remotes).unwrap();
    assert_eq!(lookup_path(&out, "flag"), Some(&ConfigValue::Bool(true)));
}

#[test]
fn optional_remote_document_absence_is_skipped() {
    let mut base = imports(vec!["optional:nacos:missing-doc"]);
    if let ConfigValue::Obj(entries) = &mut base {
        if let ConfigValue::Obj(spring) = &mut entries[0].1 {
            spring.push((
                "cloud".to_string(),
                obj(vec![("nacos", obj(vec![("server-addr", s("127.0.0.1:8848"))]))]),
            ));
        }
    }
    let out = resolve_config_tree(base, &Vec::new(), &Vec::new());
    assert!(out.is_ok());
}

#[test]
fn later_imports_see_earlier_merges() {
    let base = imports(vec!["classpath:first.yaml", "classpath:second.yaml"]);
    let locals = docs(vec![
        ("first.yaml", obj(vec![("svc", obj(vec![("host", s("h1"))]))])),
        ("second.yaml", obj(vec![("endpoint", s("${svc.host}:80"))])),
    ]);
    let out = resolve_config_tree(base, &locals, &Vec::new()).unwrap();
    assert_eq!(lookup_path(&out, "endpoint"), Some(&s("h1:80")));
}

#[test]
fn yaml_single_document_parses() {
    let v = load_value_from_str("a: 1\nb: x\n").unwrap();
    assert_eq!(
        v,
        obj(vec![("a", ConfigValue::Int(1)), ("b", s("x"))])
    );
}

#[test]
fn yaml_multi_document_payload_merges() {
    let v = load_value_from_str("a: 1\nshared: base\n---\nb: 2\nshared: over\n").unwrap();
    assert_eq!(
        v,
        obj(vec![
            ("a", ConfigValue::Int(1)),
            ("shared", s("over")),
            ("b", ConfigValue::Int(2)),
        ])
    );
}

#[test]
fn yaml_empty_payload_is_parse_error() {
    let e = load_value_from_str("").unwrap_err();
    assert!(matches!(e, ConfigError::Parse(_)));
}

#[test]
fn yaml_non_integer_number_becomes_text() {
    let v = load_value_from_str("f: 1.5\n").unwrap();
    assert_eq!(v, obj(vec![("f", s("1.5"))]));
}

#[test]
fn toml_document_parses() {
    let v = load_value_from_toml_str("port = 8080\nname = \"x\"\n").unwrap();
    assert_eq!(lookup_path(&v, "port"), Some(&ConfigValue::Int(8080)));
    assert_eq!(lookup_path(&v, "name"), Some(&s("x")));
}

#[test]
fn toml_bad_document_is_parse_error() {
    let e = load_value_from_toml_str("= 1").unwrap_err();
    assert!(matches!(e, ConfigError::Parse(_)));
}

#[test]
fn decode_reads_typed_fields() {
    let tree = obj(vec![
        (
            "spring",
            obj(vec![
                ("application", obj(vec![("name", s("svc"))])),
                ("profiles", obj(vec![("active", s("local"))])),
            ]),
        ),
        ("server", obj(vec![("port", ConfigValue::Int(8080))])),
        (
            "logging",
            obj(vec![("level", obj(vec![("root", s("info"))]))]),
        ),
    ]);
    let c = DyConfiguration::decode(&tree).unwrap();
    let spring = c.spring.unwrap();
    assert_eq!(spring.application.unwrap().name.as_deref(), Some("svc"));
    assert_eq!(spring.profiles.unwrap().active.as_deref(), Some("local"));
    assert_eq!(c.server.unwrap().port, Some(8080));
    let level = c.logging.unwrap().level.unwrap();
    assert_eq!(level, vec![("root".to_string(), "info".to_string())]);
}

#[test]
fn decode_port_out_of_range_is_decode_error() {
    let tree = obj(vec![("port", ConfigValue::Int(70000))]);
    let e = ServerConfig::decode(&tree).unwrap_err();
    assert!(matches!(e, ConfigError::Decode(_)));
}

#[test]
fn decode_jwt_requires_secret_and_expiry() {
    let ok = JwtConfig::decode(&obj(vec![
        ("secret", s("k")),
        ("expiry", ConfigValue::Int(3600)),
    ]))
    .unwrap();
    assert_eq!(ok.secret, "k");
    assert_eq!(ok.expiry, 3600);

    let e = JwtConfig::decode(&obj(vec![("expiry", ConfigValue::Int(1))])).unwrap_err();
    assert!(matches!(e, ConfigError::Decode(_)));
}

#[test]
fn rs_server_config_exposes_jwt() {
    let tree = obj(vec![(
        "jwt",
        obj(vec![("secret", s("k")), ("expiry", ConfigValue::Int(60))]),
    )]);
    let c = RsServerConfig::decode(&tree).unwrap();
    assert!(c.jwt.is_some());
    assert_eq!(c.get_jwt().secret, "k");
}

#[test]
fn db_url_falls_back_to_supplied_value_end_to_end() {
    let base = obj(vec![("db", obj(vec![("url", s(""))]))]);
    let out = resolve_config_tree(base, &Vec::new(), &Vec::new()).unwrap();
    let db_tree = lookup_path(&out, "db").unwrap();
    let db = DbConfig::decode(db_tree).unwrap();
    assert_eq!(db.url, "");
    let url = db.effective_url(Some("postgres://from-env".to_string()));
    assert_eq!(url, "postgres://from-env");

    let kept = DbConfig {
        url: "postgres://file".to_string(),
    };
    assert_eq!(
        kept.effective_url(Some("postgres://from-env".to_string())),
        "postgres://file"
    );
}

#[test]
fn store_publishes_exactly_once() {
    let mut store = ConfigStore::new();
    let first = DyConfiguration::decode(&obj(vec![(
        "server",
        obj(vec![("port", ConfigValue::Int(1))]),
    )]))
    .unwrap();
    let second = DyConfiguration::decode(&obj(vec![(
        "server",
        obj(vec![("port", ConfigValue::Int(2))]),
    )]))
    .unwrap();
    assert!(store.set(first));
    assert!(!store.set(second), "a second publication must fail loudly");
    assert_eq!(get(&store).server.as_ref().unwrap().port, Some(1));
}

#[test]
fn error_messages_carry_their_text() {
    let e = ConfigError::NotFound("extra.yaml".to_string());
    assert_eq!(e.message(), "extra.yaml");
}
