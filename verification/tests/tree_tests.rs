use daoyi_config::placeholder::lookup_path;
use daoyi_config::placeholder::replace_placeholders;
use daoyi_config::placeholder::resolve_of;
use daoyi_config::placeholder::resolve_placeholders;
use daoyi_config::profile::apply_profile;
use daoyi_config::profile::resolve_profile;
use daoyi_config::profile::set_of;
use daoyi_config::text::value_as_string;
use daoyi_config::value::merge_of;
use daoyi_config::value::merge_values;
use daoyi_config::value::ConfigValue;
use daoyi_config::default_false;
use daoyi_config::default_true;
use daoyi_config::Empty;

fn s(x: &str) -> ConfigValue {
    ConfigValue::Str(x.to_string())
}

fn obj(entries: Vec<(&str, ConfigValue)>) -> ConfigValue {
    ConfigValue::Obj(entries.into_iter().map(|(k, v)| (k.to_string(), v)).collect())
}

#[test]
fn merge_null_overlay_keeps_base() {
    let mut base = obj(vec![("a", ConfigValue::Int(1)), ("b", s("x"))]);
    let expected = obj(vec![("a", ConfigValue::Int(1)), ("b", s("x"))]);
    merge_values(&mut base, &ConfigValue::Null);
    assert_eq!(base, expected);
}

#[test]
fn merge_disjoint_objects_is_additive() {
    let base = obj(vec![("a", ConfigValue::Int(1))]);
    let overlay = obj(vec![("b", ConfigValue::Int(2))]);
    let merged = merge_of(&base, &overlay);
    assert_eq!(
        merged,
        obj(vec![("a", ConfigValue::Int(1)), ("b", ConfigValue::Int(2))])
    );
}

#[test]
fn merge_replaces_arrays_wholesale() {
    let base = ConfigValue::Arr(vec![ConfigValue::Int(1), ConfigValue::Int(2)]);
    let overlay = ConfigValue::Arr(vec![ConfigValue::Int(3)]);
    let merged = merge_of(&base, &overlay);
    assert_eq!(merged, ConfigValue::Arr(vec![ConfigValue::Int(3)]));
}

#[test]
fn merge_recurses_into_shared_keys() {
    let base = obj(vec![(
        "a",
        obj(vec![("x", ConfigValue::Int(1)), ("y", ConfigValue::Int(2))]),
    )]);
    let overlay = obj(vec![(
        "a",
        obj(vec![("y", ConfigValue::Int(3)), ("z", ConfigValue::Int(4))]),
    )]);
    let merged = merge_of(&base, &overlay);
    let expected = obj(vec![(
        "a",
        obj(vec![
            ("x", ConfigValue::Int(1)),
            ("y", ConfigValue::Int(3)),
            ("z", ConfigValue::Int(4)),
        ]),
    )]);
    assert_eq!(merged, expected);
}

#[test]
fn merge_null_never_erases_but_inserts_as_new_key() {
    let base = obj(vec![("a", ConfigValue::Int(1))]);
    let overlay = obj(vec![("a", ConfigValue::Null), ("b", ConfigValue::Null)]);
    let merged = merge_of(&base, &overlay);
    assert_eq!(
        merged,
        obj(vec![("a", ConfigValue::Int(1)), ("b", ConfigValue::Null)])
    );
}

#[test]
fn placeholder_substitutes_scalar() {
    let root = obj(vec![("app", obj(vec![("name", s("foo"))]))]);
    let out = replace_placeholders("${app.name}-x", &root);
    assert_eq!(out, "foo-x");
}

#[test]
fn placeholder_missing_key_round_trips() {
    let root = obj(vec![("app", obj(vec![("name", s("foo"))]))]);
    let out = replace_placeholders("${missing.key}", &root);
    assert_eq!(out, "${missing.key}");
}

#[test]
fn placeholder_renders_numbers_bools_null() {
    let root = obj(vec![
        ("n", ConfigValue::Int(-42)),
        ("b", ConfigValue::Bool(true)),
        ("z", ConfigValue::Null),
    ]);
    let out = replace_placeholders("${n}/${b}/${z}", &root);
    assert_eq!(out, "-42/true/");
}

#[test]
fn placeholder_unclosed_marker_is_kept() {
    let root = obj(vec![("x", ConfigValue::Int(1))]);
    let out = replace_placeholders("abc${x", &root);
    assert_eq!(out, "abc${x");
}

#[test]
fn placeholder_non_scalar_is_kept_verbatim() {
    let root = obj(vec![("a", obj(vec![("b", ConfigValue::Int(1))]))]);
    let out = replace_placeholders("${a}", &root);
    assert_eq!(out, "${a}");
}

#[test]
fn placeholder_resolution_idempotent_once_resolved() {
    let root = obj(vec![("app", obj(vec![("name", s("foo"))]))]);
    let once = replace_placeholders("${app.name}-x", &root);
    let twice = replace_placeholders(&once, &root);
    assert_eq!(once, twice);
}

#[test]
fn placeholder_no_nested_expansion_within_a_pass() {
    let root = obj(vec![("a", s("${b}")), ("b", s("x"))]);
    let out = replace_placeholders("${a}", &root);
    assert_eq!(out, "${b}");
}

#[test]
fn resolve_placeholders_rewrites_whole_tree() {
    let root = obj(vec![("app", obj(vec![("name", s("svc"))]))]);
    let mut tree = obj(vec![
        ("title", s("${app.name}!")),
        (
            "items",
            ConfigValue::Arr(vec![s("${app.name}"), ConfigValue::Int(1)]),
        ),
    ]);
    resolve_placeholders(&mut tree, &root);
    let expected = obj(vec![
        ("title", s("svc!")),
        ("items", ConfigValue::Arr(vec![s("svc"), ConfigValue::Int(1)])),
    ]);
    assert_eq!(tree, expected);
}

#[test]
fn resolve_of_leaves_scalars_alone() {
    let root = obj(vec![]);
    let out = resolve_of(&ConfigValue::Int(7), &root);
    assert_eq!(out, ConfigValue::Int(7));
}

#[test]
fn lookup_path_walks_objects() {
    let root = obj(vec![(
        "a",
        obj(vec![("b", obj(vec![("c", ConfigValue::Int(9))]))]),
    )]);
    assert_eq!(lookup_path(&root, "a.b.c"), Some(&ConfigValue::Int(9)));
    assert_eq!(lookup_path(&root, "a.b.d"), None);
}

#[test]
fn lookup_path_stops_at_non_object() {
    let root = obj(vec![("a", ConfigValue::Int(1))]);
    assert_eq!(lookup_path(&root, "a.b"), None);
}

#[test]
fn value_as_string_renders_scalars() {
    assert_eq!(value_as_string(&ConfigValue::Int(0)), Some("0".to_string()));
    assert_eq!(
        value_as_string(&ConfigValue::Int(12345)),
        Some("12345".to_string())
    );
    assert_eq!(value_as_string(&ConfigValue::Int(-7)), Some("-7".to_string()));
    assert_eq!(
        value_as_string(&ConfigValue::Int(i64::MIN)),
        Some("-9223372036854775808".to_string())
    );
    assert_eq!(
        value_as_string(&ConfigValue::Bool(false)),
        Some("false".to_string())
    );
    assert_eq!(value_as_string(&ConfigValue::Null), Some(String::new()));
    assert_eq!(value_as_string(&ConfigValue::Arr(vec![])), None);
}

#[test]
fn profile_precedence_explicit_wins() {
    assert_eq!(
        resolve_profile(
            Some("a".to_string()),
            Some("b".to_string()),
            Some("c".to_string())
        ),
        Some("a".to_string())
    );
    assert_eq!(
        resolve_profile(None, Some("b".to_string()), Some("c".to_string())),
        Some("b".to_string())
    );
    assert_eq!(
        resolve_profile(None, None, Some("c".to_string())),
        Some("c".to_string())
    );
    assert_eq!(resolve_profile(None, None, None), None);
}

#[test]
fn apply_profile_overrides_loaded_value() {
    let mut root = obj(vec![(
        "spring",
        obj(vec![("profiles", obj(vec![("active", s("file"))]))]),
    )]);
    apply_profile(&mut root, &Some("prod".to_string()));
    assert_eq!(
        lookup_path(&root, "spring.profiles.active"),
        Some(&s("prod"))
    );
}

#[test]
fn apply_profile_default_written_only_if_absent() {
    let mut root = obj(vec![]);
    apply_profile(&mut root, &None);
    assert_eq!(
        lookup_path(&root, "spring.profiles.active"),
        Some(&s("local"))
    );

    let mut kept = obj(vec![(
        "spring",
        obj(vec![("profiles", obj(vec![("active", s("file"))]))]),
    )]);
    apply_profile(&mut kept, &None);
    assert_eq!(
        lookup_path(&kept, "spring.profiles.active"),
        Some(&s("file"))
    );
}

#[test]
fn set_of_grows_missing_levels() {
    let root = obj(vec![]);
    let out = set_of(&root, "a.b", ConfigValue::Int(3));
    assert_eq!(
        lookup_path(&out, "a.b"),
        Some(&ConfigValue::Int(3))
    );
}

#[test]
fn boolean_defaults_and_empty_payload() {
    assert!(!default_false());
    assert!(default_true());
    let e = Empty {};
    let _copy = e;
    let _still = e;
}
