//! Field readers for materialization: the merged tree is decoded field
//! by field into typed structures. A required field that is absent and
//! a value of the wrong shape are errors; unknown extra entries are
//! ignored.

use vstd::prelude::*;

use crate::error::ConfigError;
use crate::value::ConfigValue;
use crate::value::Tree;
use crate::value::obj_get;
use crate::value::tree_get;

verus! {

/// The subtree a nested field decodes from: a missing key and an
/// explicit null both mean the field is absent.
pub open spec fn opt_node(t: Tree, key: Seq<char>) -> Option<Tree> {
    match tree_get(t, key) {
        None => None,
        Some(Tree::Null) => None,
        Some(sub) => Some(sub),
    }
}

/// Whether an optional string field reads cleanly.
pub open spec fn opt_str_ok(t: Tree, key: Seq<char>) -> bool {
    match opt_node(t, key) {
        None => true,
        Some(Tree::Str(_)) => true,
        _ => false,
    }
}

/// What an optional string field reads to.
pub open spec fn opt_str_of(t: Tree, key: Seq<char>) -> Option<Seq<char>> {
    match opt_node(t, key) {
        Some(Tree::Str(s)) => Some(s),
        _ => None,
    }
}

/// Whether an option of strings matches a read.
pub open spec fn opt_str_matches(o: Option<String>, s: Option<Seq<char>>) -> bool {
    match o {
        Some(x) => s == Some(x@),
        None => s is None,
    }
}

/// Reads an optional string field.
pub fn read_opt_str(t: &ConfigValue, key: &str) -> (r: Result<Option<String>, ConfigError>)
    ensures
        r is Ok <==> opt_str_ok(t@, key@),
        r matches Ok(o) ==> opt_str_matches(o, opt_str_of(t@, key@)),
        r matches Err(e) ==> e@ is Decode,
{
    let k = key.to_owned();
    match obj_get(t, &k) {
        None => Ok(None),
        Some(c) => match c {
            ConfigValue::Null => Ok(None),
            ConfigValue::Str(s) => Ok(Some(s.clone())),
            _ => Err(ConfigError::Decode(k)),
        },
    }
}

/// Whether an optional boolean field reads cleanly.
pub open spec fn opt_bool_ok(t: Tree, key: Seq<char>) -> bool {
    match opt_node(t, key) {
        None => true,
        Some(Tree::Bool(_)) => true,
        _ => false,
    }
}

/// What an optional boolean field reads to.
pub open spec fn opt_bool_of(t: Tree, key: Seq<char>) -> Option<bool> {
    match opt_node(t, key) {
        Some(Tree::Bool(b)) => Some(b),
        _ => None,
    }
}

/// Reads an optional boolean field.
pub fn read_opt_bool(t: &ConfigValue, key: &str) -> (r: Result<Option<bool>, ConfigError>)
    ensures
        r is Ok <==> opt_bool_ok(t@, key@),
        r matches Ok(o) ==> o == opt_bool_of(t@, key@),
        r matches Err(e) ==> e@ is Decode,
{
    let k = key.to_owned();
    match obj_get(t, &k) {
        None => Ok(None),
        Some(c) => match c {
            ConfigValue::Null => Ok(None),
            ConfigValue::Bool(b) => Ok(Some(*b)),
            _ => Err(ConfigError::Decode(k)),
        },
    }
}

/// Whether an optional 16-bit port field reads cleanly: absent, or an
/// integer within the port range.
pub open spec fn opt_u16_ok(t: Tree, key: Seq<char>) -> bool {
    match opt_node(t, key) {
        None => true,
        Some(Tree::Int(n)) => 0 <= n <= u16::MAX as int,
        _ => false,
    }
}

/// What an optional 16-bit field reads to.
pub open spec fn opt_u16_of(t: Tree, key: Seq<char>) -> Option<int> {
    match opt_node(t, key) {
        Some(Tree::Int(n)) => Some(n),
        _ => None,
    }
}

/// Whether an option of ports matches a read.
pub open spec fn opt_u16_matches(o: Option<u16>, s: Option<int>) -> bool {
    match o {
        Some(x) => s == Some(x as int),
        None => s is None,
    }
}

/// Reads an optional 16-bit port field.
pub fn read_opt_u16(t: &ConfigValue, key: &str) -> (r: Result<Option<u16>, ConfigError>)
    ensures
        r is Ok <==> opt_u16_ok(t@, key@),
        r matches Ok(o) ==> opt_u16_matches(o, opt_u16_of(t@, key@)),
        r matches Err(e) ==> e@ is Decode,
{
    let k = key.to_owned();
    match obj_get(t, &k) {
        None => Ok(None),
        Some(c) => match c {
            ConfigValue::Null => Ok(None),
            ConfigValue::Int(n) => {
                if 0 <= *n && *n <= u16::MAX as i64 {
                    Ok(Some(*n as u16))
                } else {
                    Err(ConfigError::Decode(k))
                }
            },
            _ => Err(ConfigError::Decode(k)),
        },
    }
}

/// Whether a required string field reads cleanly.
pub open spec fn req_str_ok(t: Tree, key: Seq<char>) -> bool {
    opt_node(t, key) matches Some(Tree::Str(_))
}

/// What a required string field reads to; meaningful only when the
/// read is clean.
pub open spec fn req_str_of(t: Tree, key: Seq<char>) -> Seq<char> {
    match opt_node(t, key) {
        Some(Tree::Str(s)) => s,
        _ => Seq::empty(),
    }
}

/// Reads a required string field; its absence is an error.
pub fn read_req_str(t: &ConfigValue, key: &str) -> (r: Result<String, ConfigError>)
    ensures
        r is Ok <==> req_str_ok(t@, key@),
        r matches Ok(s) ==> s@ == req_str_of(t@, key@),
        r matches Err(e) ==> e@ is Decode,
{
    let k = key.to_owned();
    match obj_get(t, &k) {
        Some(c) => match c {
            ConfigValue::Str(s) => Ok(s.clone()),
            _ => Err(ConfigError::Decode(k)),
        },
        None => Err(ConfigError::Decode(k)),
    }
}

/// Whether a required 64-bit integer field reads cleanly.
pub open spec fn req_i64_ok(t: Tree, key: Seq<char>) -> bool {
    opt_node(t, key) matches Some(Tree::Int(_))
}

/// What a required 64-bit integer field reads to; meaningful only when
/// the read is clean.
pub open spec fn req_i64_of(t: Tree, key: Seq<char>) -> int {
    match opt_node(t, key) {
        Some(Tree::Int(n)) => n,
        _ => 0,
    }
}

/// Reads a required 64-bit integer field; its absence is an error.
pub fn read_req_i64(t: &ConfigValue, key: &str) -> (r: Result<i64, ConfigError>)
    ensures
        r is Ok <==> req_i64_ok(t@, key@),
        r matches Ok(n) ==> n as int == req_i64_of(t@, key@),
        r matches Err(e) ==> e@ is Decode,
{
    let k = key.to_owned();
    match obj_get(t, &k) {
        Some(c) => match c {
            ConfigValue::Int(n) => Ok(*n),
            _ => Err(ConfigError::Decode(k)),
        },
        None => Err(ConfigError::Decode(k)),
    }
}

/// Whether every element of an array is a string.
pub open spec fn all_str_items(items: Seq<Tree>) -> bool {
    forall|i: int| 0 <= i < items.len() ==> (#[trigger] items[i]) is Str
}

/// Whether an optional list-of-strings field reads cleanly.
pub open spec fn opt_str_list_ok(t: Tree, key: Seq<char>) -> bool {
    match opt_node(t, key) {
        None => true,
        Some(Tree::Arr(items)) => all_str_items(items),
        _ => false,
    }
}

/// Whether an option of string vectors matches the field.
pub open spec fn opt_str_list_matches(o: Option<Vec<String>>, t: Tree, key: Seq<char>) -> bool {
    match opt_node(t, key) {
        Some(Tree::Arr(items)) => o matches Some(v) && v.deep_view() == items.map_values(
            |x: Tree| x->Str_0,
        ),
        _ => o is None,
    }
}

/// Reads an optional list-of-strings field; an element that is not a
/// string is an error.
#[verifier::loop_isolation(false)]
pub fn read_opt_str_list(t: &ConfigValue, key: &str) -> (r: Result<
    Option<Vec<String>>,
    ConfigError,
>)
    ensures
        r is Ok <==> opt_str_list_ok(t@, key@),
        r matches Ok(o) ==> opt_str_list_matches(o, t@, key@),
        r matches Err(e) ==> e@ is Decode,
{
    let k = key.to_owned();
    match obj_get(t, &k) {
        None => Ok(None),
        Some(c) => match c {
            ConfigValue::Null => Ok(None),
            ConfigValue::Arr(items) => {
                let ghost views = crate::value::arr_views(items@);
                proof {
                    crate::value::lemma_arr_views(items@);
                }
                let mut out: Vec<String> = Vec::new();
                let mut i: usize = 0;
                while i < items.len()
                    invariant
                        i <= items.len(),
                        out@.len() == i,
                        forall|m: int| 0 <= m < i ==> (#[trigger] views[m]) is Str,
                        forall|m: int| 0 <= m < i ==> (#[trigger] out@[m])@ == views[m]->Str_0,
                    decreases items.len() - i,
                {
                    match &items[i] {
                        ConfigValue::Str(s) => {
                            out.push(s.clone());
                        },
                        _ => {
                            proof {
                                assert(views[i as int] == crate::value::value_view(
                                    items@[i as int],
                                ));
                                assert(!(views[i as int] is Str));
                            }
                            return Err(ConfigError::Decode(k));
                        },
                    }
                    i = i + 1;
                }
                proof {
                    assert(out.deep_view() =~= views.map_values(|x: Tree| x->Str_0));
                }
                Ok(Some(out))
            },
            _ => Err(ConfigError::Decode(k)),
        },
    }
}

/// Whether every entry value of an object is a string.
pub open spec fn all_str_values(entries: Seq<(Seq<char>, Tree)>) -> bool {
    forall|i: int| 0 <= i < entries.len() ==> (#[trigger] entries[i]).1 is Str
}

/// Whether an optional string-to-string table field reads cleanly.
pub open spec fn opt_str_table_ok(t: Tree, key: Seq<char>) -> bool {
    match opt_node(t, key) {
        None => true,
        Some(Tree::Obj(entries)) => all_str_values(entries),
        _ => false,
    }
}

/// Whether an option of key/value pair lists matches the field, in
/// entry order.
pub open spec fn opt_str_table_matches(
    o: Option<Vec<(String, String)>>,
    t: Tree,
    key: Seq<char>,
) -> bool {
    match opt_node(t, key) {
        Some(Tree::Obj(entries)) => o matches Some(v) && v.deep_view() == entries.map_values(
            |e: (Seq<char>, Tree)| (e.0, e.1->Str_0),
        ),
        _ => o is None,
    }
}

/// Reads an optional string-to-string table field, such as per-target
/// logging levels; a value that is not a string is an error.
#[verifier::loop_isolation(false)]
pub fn read_opt_str_table(t: &ConfigValue, key: &str) -> (r: Result<
    Option<Vec<(String, String)>>,
    ConfigError,
>)
    ensures
        r is Ok <==> opt_str_table_ok(t@, key@),
        r matches Ok(o) ==> opt_str_table_matches(o, t@, key@),
        r matches Err(e) ==> e@ is Decode,
{
    let k = key.to_owned();
    match obj_get(t, &k) {
        None => Ok(None),
        Some(c) => match c {
            ConfigValue::Null => Ok(None),
            ConfigValue::Obj(entries) => {
                let ghost views = crate::value::obj_views(entries@);
                proof {
                    crate::value::lemma_obj_views(entries@);
                }
                let mut out: Vec<(String, String)> = Vec::new();
                let mut i: usize = 0;
                while i < entries.len()
                    invariant
                        i <= entries.len(),
                        out@.len() == i,
                        forall|m: int| 0 <= m < i ==> (#[trigger] views[m]).1 is Str,
                        forall|m: int|
                            0 <= m < i ==> (#[trigger] out@[m]).0@ == views[m].0 && out@[m].1@
                                == views[m].1->Str_0,
                    decreases entries.len() - i,
                {
                    let name = entries[i].0.clone();
                    match &entries[i].1 {
                        ConfigValue::Str(s) => {
                            out.push((name, s.clone()));
                        },
                        _ => {
                            proof {
                                assert(views[i as int].1 == crate::value::value_view(
                                    entries@[i as int].1,
                                ));
                                assert(!(views[i as int].1 is Str));
                            }
                            return Err(ConfigError::Decode(k));
                        },
                    }
                    i = i + 1;
                }
                proof {
                    assert(out.deep_view() =~= views.map_values(
                        |e: (Seq<char>, Tree)| (e.0, e.1->Str_0),
                    ));
                }
                Ok(Some(out))
            },
            _ => Err(ConfigError::Decode(k)),
        },
    }
}

} // verus!
