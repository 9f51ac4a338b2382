//! Profile selection: an explicit caller-supplied name wins, then the
//! primary environment value, then the legacy-named one; otherwise a
//! fixed default is written only where the tree has no profile yet.
//! Reading the environment is the caller's business; this module takes
//! the values as plain arguments.

use vstd::prelude::*;

use crate::placeholder::find_char_in;
use crate::placeholder::lemma_find_char;
use crate::placeholder::lookup_path;
use crate::placeholder::split_segments;
use crate::value::ConfigValue;
use crate::value::clone_entries;
use crate::value::lemma_obj_views;
use crate::value::lemma_obj_views_push;
use crate::value::lemma_obj_views_update;
use crate::value::lookup_segments;
use crate::value::obj_index_of;
use crate::value::obj_views;
use crate::value::set_path;
use crate::value::value_view;

verus! {

/// The value placed at a dotted path, existing objects on the path
/// descended into and anything else grown or replaced, as a fresh tree.
#[verifier::loop_isolation(false)]
pub fn set_of(value: &ConfigValue, path: &str, v: ConfigValue) -> (r: ConfigValue)
    ensures
        value_view(r) == set_path(value@, split_segments(path@), value_view(v)),
    decreases path@.len(),
{
    proof {
        lemma_find_char(path@, 0, '.');
    }
    let n = path.unicode_len();
    let d = find_char_in(path, 0, '.');
    let ghost segs = split_segments(path@);
    if d == n {
        proof {
            assert(segs =~= seq![path@]);
            assert(segs.subrange(1, 1) =~= Seq::<Seq<char>>::empty());
        }
        let key = path.to_owned();
        place_entry(value, key, v)
    } else {
        let head = path.substring_char(0, d);
        let tail = path.substring_char(d + 1, n);
        let key = head.to_owned();
        proof {
            assert(segs[0] == path@.subrange(0, d as int));
            assert(segs.subrange(1, segs.len() as int) =~= split_segments(
                path@.subrange(d + 1, n as int),
            ));
        }
        match value {
            ConfigValue::Obj(entries) => {
                proof {
                    lemma_obj_views(entries@);
                }
                match obj_index_of(entries, &key) {
                    Some(i) => {
                        let ghost es = obj_views(entries@);
                        let ghost kv = key@;
                        let child = set_of(&entries[i].1, tail, v);
                        let ghost chv = value_view(child);
                        let mut out = clone_entries(entries);
                        proof {
                            lemma_obj_views(out@);
                            assert(out@.len() == es.len() == entries@.len());
                        }
                        let ghost pre = out@;
                        out[i] = (key, child);
                        proof {
                            let ne = out@[i as int];
                            lemma_obj_views_update(pre, i as int, ne);
                            assert(obj_views(out@) =~= es.update(i as int, (kv, chv)));
                        }
                        ConfigValue::Obj(out)
                    },
                    None => {
                        let ghost kv = key@;
                        let child = set_of(&ConfigValue::Null, tail, v);
                        let ghost chv = value_view(child);
                        let mut out = clone_entries(entries);
                        let ghost pre = out@;
                        out.push((key, child));
                        proof {
                            lemma_obj_views_push(pre, out@[out@.len() - 1]);
                            assert(out@ == pre.push(out@[out@.len() - 1]));
                            assert(obj_views(out@) =~= obj_views(entries@).push((kv, chv)));
                        }
                        ConfigValue::Obj(out)
                    },
                }
            },
            _ => {
                let child = set_of(&ConfigValue::Null, tail, v);
                let mut out: Vec<(String, ConfigValue)> = Vec::new();
                out.push((key, child));
                proof {
                    lemma_obj_views(out@);
                    assert(obj_views(out@) =~= Seq::<(Seq<char>, crate::value::Tree)>::empty().push(
                        (segs[0], value_view(child)),
                    ));
                }
                ConfigValue::Obj(out)
            },
        }
    }
}

/// The value with one entry placed directly under it.
fn place_entry(value: &ConfigValue, key: String, v: ConfigValue) -> (r: ConfigValue)
    ensures
        value_view(r) == set_path(value@, seq![key@], value_view(v)),
{
    proof {
        reveal_with_fuel(set_path, 2);
        assert(seq![key@].subrange(1, 1) =~= Seq::<Seq<char>>::empty());
    }
    match value {
        ConfigValue::Obj(entries) => {
            proof {
                lemma_obj_views(entries@);
            }
            match obj_index_of(entries, &key) {
                Some(i) => {
                    let ghost es = obj_views(entries@);
                    let ghost vv = value_view(v);
                    let ghost kv = key@;
                    let mut out = clone_entries(entries);
                    proof {
                        lemma_obj_views(out@);
                        assert(out@.len() == es.len() == entries@.len());
                    }
                    let ghost pre = out@;
                    out[i] = (key, v);
                    proof {
                        let ne = out@[i as int];
                        lemma_obj_views_update(pre, i as int, ne);
                        assert(obj_views(out@) =~= es.update(i as int, (kv, vv)));
                    }
                    ConfigValue::Obj(out)
                },
                None => {
                    let ghost vv = value_view(v);
                    let ghost kv = key@;
                    let mut out = clone_entries(entries);
                    let ghost pre = out@;
                    out.push((key, v));
                    proof {
                        lemma_obj_views_push(pre, out@[out@.len() - 1]);
                        assert(obj_views(out@) =~= obj_views(entries@).push((kv, vv)));
                    }
                    ConfigValue::Obj(out)
                },
            }
        },
        _ => {
            let mut out: Vec<(String, ConfigValue)> = Vec::new();
            let ghost vv = value_view(v);
            let ghost kv = key@;
            out.push((key, v));
            proof {
                lemma_obj_views(out@);
                assert(obj_views(out@) =~= Seq::<(Seq<char>, crate::value::Tree)>::empty().push(
                    (kv, vv),
                ));
            }
            ConfigValue::Obj(out)
        },
    }
}

/// The active profile: an explicit name wins, then the primary
/// environment value, then the legacy-named one.
pub fn resolve_profile(
    explicit: Option<String>,
    primary_env: Option<String>,
    legacy_env: Option<String>,
) -> (r: Option<String>)
    ensures
        explicit is Some ==> r == explicit,
        explicit is None && primary_env is Some ==> r == primary_env,
        explicit is None && primary_env is None ==> r == legacy_env,
{
    if explicit.is_some() {
        explicit
    } else if primary_env.is_some() {
        primary_env
    } else {
        legacy_env
    }
}

/// Writes the resolved profile into the tree. A known profile always
/// wins over whatever a file loaded; with none known, the default
/// `local` is written only where the tree has no profile yet.
pub fn apply_profile(root: &mut ConfigValue, profile: &Option<String>)
    ensures
        match profile {
            Some(p) => value_view(*final (root)) == set_path(
                value_view(*old(root)),
                split_segments("spring.profiles.active"@),
                crate::value::Tree::Str(p@),
            ),
            None => {
                if lookup_segments(
                    value_view(*old(root)),
                    split_segments("spring.profiles.active"@),
                ) is None {
                    value_view(*final (root)) == set_path(
                        value_view(*old(root)),
                        split_segments("spring.profiles.active"@),
                        crate::value::Tree::Str("local"@),
                    )
                } else {
                    value_view(*final (root)) == value_view(*old(root))
                }
            },
        },
{
    match profile {
        Some(p) => {
            let set = set_of(root, "spring.profiles.active", ConfigValue::Str(p.clone()));
            *root = set;
        },
        None => {
            let missing = lookup_path(root, "spring.profiles.active").is_none();
            if missing {
                let set = set_of(
                    root,
                    "spring.profiles.active",
                    ConfigValue::Str("local".to_owned()),
                );
                *root = set;
            }
        },
    }
}

} // verus!
