//! The value tree: a dynamically shaped document model that every
//! configuration source is parsed into before merging.

use vstd::prelude::*;

verus! {

/// A configuration document: null, scalar, array, or object.
///
/// Objects are kept as ordered key/value entry lists; a parsed source
/// document has distinct keys within each object, and lookups take the
/// first entry with the key. Numbers are integers; a non-integer
/// numeric scalar read from a source is carried as its decimal text
/// instead, which merges and interpolates the same way.
#[derive(Debug, PartialEq, Eq)]
pub enum ConfigValue {
    Null,
    Bool(bool),
    Int(i64),
    Str(String),
    Arr(Vec<ConfigValue>),
    Obj(Vec<(String, ConfigValue)>),
}

/// The mathematical model of a [`ConfigValue`]: the same shape over
/// `int`, `Seq<char>` and `Seq`.
pub enum Tree {
    Null,
    Bool(bool),
    Int(int),
    Str(Seq<char>),
    Arr(Seq<Tree>),
    Obj(Seq<(Seq<char>, Tree)>),
}

/// The model of a value: every string becomes its character sequence.
pub open spec fn value_view(v: ConfigValue) -> Tree
    decreases v,
{
    match v {
        ConfigValue::Null => Tree::Null,
        ConfigValue::Bool(b) => Tree::Bool(b),
        ConfigValue::Int(n) => Tree::Int(n as int),
        ConfigValue::Str(s) => Tree::Str(s@),
        ConfigValue::Arr(items) => Tree::Arr(arr_views(items@)),
        ConfigValue::Obj(entries) => Tree::Obj(obj_views(entries@)),
    }
}

/// The models of the elements of an array, in order.
pub open spec fn arr_views(items: Seq<ConfigValue>) -> Seq<Tree>
    decreases items,
{
    if items.len() == 0 {
        Seq::empty()
    } else {
        seq![value_view(items[0])] + arr_views(items.subrange(1, items.len() as int))
    }
}

/// The models of the entries of an object, in order.
pub open spec fn obj_views(entries: Seq<(String, ConfigValue)>) -> Seq<(Seq<char>, Tree)>
    decreases entries,
{
    if entries.len() == 0 {
        Seq::empty()
    } else {
        seq![(entries[0].0@, value_view(entries[0].1))]
            + obj_views(entries.subrange(1, entries.len() as int))
    }
}

impl View for ConfigValue {
    type V = Tree;

    open spec fn view(&self) -> Tree {
        value_view(*self)
    }
}

/// The element models of an array, named one by one.
pub proof fn lemma_arr_views(items: Seq<ConfigValue>)
    ensures
        arr_views(items).len() == items.len(),
        forall|i: int|
            0 <= i < items.len() ==> arr_views(items)[i] == value_view(#[trigger] items[i]),
    decreases items.len(),
{
    if items.len() > 0 {
        let sub = items.subrange(1, items.len() as int);
        lemma_arr_views(sub);
        assert forall|i: int| 1 <= i < items.len() implies #[trigger] items[i] == sub[i - 1] by {}
    }
}

/// The entry models of an object, named one by one.
pub proof fn lemma_obj_views(entries: Seq<(String, ConfigValue)>)
    ensures
        obj_views(entries).len() == entries.len(),
        forall|i: int|
            0 <= i < entries.len() ==> #[trigger] obj_views(entries)[i] == (
            entries[i].0@,
            value_view(entries[i].1),
            ),
    decreases entries.len(),
{
    if entries.len() > 0 {
        let sub = entries.subrange(1, entries.len() as int);
        lemma_obj_views(sub);
        assert forall|i: int| 1 <= i < entries.len() implies #[trigger] entries[i] == sub[i - 1] by {}
    }
}

/// The position of the first entry with the given key, or -1.
pub open spec fn obj_key_index(entries: Seq<(Seq<char>, Tree)>, key: Seq<char>) -> int
    decreases entries.len(),
{
    if entries.len() == 0 {
        -1
    } else if entries[0].0 == key {
        0
    } else {
        let r = obj_key_index(entries.subrange(1, entries.len() as int), key);
        if r < 0 {
            -1
        } else {
            r + 1
        }
    }
}

/// The value at a key in an object's entries, if any entry carries it.
pub open spec fn obj_get_spec(entries: Seq<(Seq<char>, Tree)>, key: Seq<char>) -> Option<Tree> {
    let r = obj_key_index(entries, key);
    if r >= 0 {
        Some(entries[r].1)
    } else {
        None
    }
}

/// What [`obj_key_index`] finds: the first entry with the key, if any.
pub proof fn lemma_obj_key_index(entries: Seq<(Seq<char>, Tree)>, key: Seq<char>)
    ensures
        -1 <= obj_key_index(entries, key) < entries.len(),
        obj_key_index(entries, key) >= 0 ==> {
            &&& entries[obj_key_index(entries, key)].0 == key
            &&& forall|m: int|
                0 <= m < obj_key_index(entries, key) ==> (#[trigger] entries[m]).0 != key
        },
        obj_key_index(entries, key) == -1 ==> forall|m: int|
            0 <= m < entries.len() ==> (#[trigger] entries[m]).0 != key,
    decreases entries.len(),
{
    if entries.len() > 0 {
        let sub = entries.subrange(1, entries.len() as int);
        lemma_obj_key_index(sub, key);
        assert forall|m: int| 1 <= m < entries.len() implies #[trigger] entries[m] == sub[m - 1] by {}
    }
}

/// Updating one entry updates its model and nothing else.
pub proof fn lemma_obj_views_update(
    entries: Seq<(String, ConfigValue)>,
    i: int,
    e: (String, ConfigValue),
)
    requires
        0 <= i < entries.len(),
    ensures
        obj_views(entries.update(i, e)) == obj_views(entries).update(i, (e.0@, value_view(e.1))),
{
    lemma_obj_views(entries);
    lemma_obj_views(entries.update(i, e));
    assert(obj_views(entries.update(i, e)) =~= obj_views(entries).update(
        i,
        (e.0@, value_view(e.1)),
    ));
}

/// Appending one entry appends its model and nothing else.
pub proof fn lemma_obj_views_push(entries: Seq<(String, ConfigValue)>, e: (String, ConfigValue))
    ensures
        obj_views(entries.push(e)) == obj_views(entries).push((e.0@, value_view(e.1))),
{
    lemma_obj_views(entries);
    lemma_obj_views(entries.push(e));
    assert forall|k: int| 0 <= k < entries.len() + 1 implies obj_views(entries.push(e))[k]
        == obj_views(entries).push((e.0@, value_view(e.1)))[k] by {
        if k < entries.len() {
            assert(entries.push(e)[k] == entries[k]);
        } else {
            assert(entries.push(e)[k] == e);
        }
    }
    assert(obj_views(entries.push(e)) =~= obj_views(entries).push((e.0@, value_view(e.1))));
}

/// The merge of two trees. A null overlay changes nothing; two objects
/// merge entry by entry; any other pair is replaced by the overlay.
pub open spec fn merge_tree(base: Tree, overlay: Tree) -> Tree
    decreases overlay,
{
    if overlay == Tree::Null {
        base
    } else {
        match (base, overlay) {
            (Tree::Obj(bs), Tree::Obj(os)) => Tree::Obj(merge_entries(bs, os)),
            _ => overlay,
        }
    }
}

/// Folds the overlay's entries into the base's, left to right. An
/// overlay entry whose key the base holds merges into that entry, in
/// place; any other entry is appended.
pub open spec fn merge_entries(
    base: Seq<(Seq<char>, Tree)>,
    overlay: Seq<(Seq<char>, Tree)>,
) -> Seq<(Seq<char>, Tree)>
    decreases overlay,
{
    if overlay.len() == 0 {
        base
    } else {
        let key = overlay[0].0;
        let v = overlay[0].1;
        let i = obj_key_index(base, key);
        let stepped = if i >= 0 {
            base.update(i, (key, merge_tree(base[i].1, v)))
        } else {
            base.push((key, v))
        };
        merge_entries(stepped, overlay.subrange(1, overlay.len() as int))
    }
}

impl Clone for ConfigValue {
    /// A clone denotes the same tree.
    fn clone(&self) -> (r: ConfigValue)
        ensures
            r@ == self@,
    {
        clone_value(self)
    }
}

#[verifier::loop_isolation(false)]
fn clone_value(v: &ConfigValue) -> (r: ConfigValue)
    ensures
        value_view(r) == value_view(*v),
    decreases *v,
{
    match v {
        ConfigValue::Null => ConfigValue::Null,
        ConfigValue::Bool(b) => ConfigValue::Bool(*b),
        ConfigValue::Int(n) => ConfigValue::Int(*n),
        ConfigValue::Str(s) => ConfigValue::Str(s.clone()),
        ConfigValue::Arr(items) => {
            let mut out: Vec<ConfigValue> = Vec::new();
            let mut i: usize = 0;
            while i < items.len()
                invariant
                    i <= items.len(),
                    out@.len() == i,
                    forall|k: int|
                        0 <= k < i ==> value_view(#[trigger] out@[k]) == value_view(items@[k]),
                decreases items.len() - i,
            {
                out.push(clone_value(&items[i]));
                i = i + 1;
            }
            proof {
                lemma_arr_views(out@);
                lemma_arr_views(items@);
                assert forall|k: int| 0 <= k < items@.len() implies arr_views(out@)[k]
                    == arr_views(items@)[k] by {
                    assert(value_view(out@[k]) == value_view(items@[k]));
                }
                assert(arr_views(out@) =~= arr_views(items@));
            }
            ConfigValue::Arr(out)
        },
        ConfigValue::Obj(entries) => {
            let mut out: Vec<(String, ConfigValue)> = Vec::new();
            let mut i: usize = 0;
            while i < entries.len()
                invariant
                    i <= entries.len(),
                    out@.len() == i,
                    forall|k: int|
                        0 <= k < i ==> (#[trigger] out@[k]).0@ == entries@[k].0@ && value_view(
                            out@[k].1,
                        ) == value_view(entries@[k].1),
                decreases entries.len() - i,
            {
                let key = entries[i].0.clone();
                let val = clone_value(&entries[i].1);
                out.push((key, val));
                i = i + 1;
            }
            proof {
                lemma_obj_views(out@);
                lemma_obj_views(entries@);
                assert(obj_views(out@) =~= obj_views(entries@));
            }
            ConfigValue::Obj(out)
        },
    }
}

/// The position of the first entry with the given key, if any.
#[verifier::loop_isolation(false)]
pub fn obj_index_of(entries: &Vec<(String, ConfigValue)>, key: &String) -> (r: Option<usize>)
    ensures
        match r {
            Some(i) => i < entries@.len() && obj_key_index(obj_views(entries@), key@) == i as int,
            None => obj_key_index(obj_views(entries@), key@) == -1,
        },
{
    proof {
        lemma_obj_views(entries@);
        lemma_obj_key_index(obj_views(entries@), key@);
    }
    let mut i: usize = 0;
    while i < entries.len()
        invariant
            i <= entries.len(),
            obj_views(entries@).len() == entries@.len(),
            forall|m: int|
                0 <= m < entries@.len() ==> #[trigger] obj_views(entries@)[m] == (
                entries@[m].0@,
                value_view(entries@[m].1),
                ),
            forall|m: int| 0 <= m < i ==> (#[trigger] obj_views(entries@)[m]).0 != key@,
        decreases entries.len() - i,
    {
        if entries[i].0 == *key {
            proof {
                lemma_obj_key_index(obj_views(entries@), key@);
                assert(obj_views(entries@)[i as int].0 == key@);
            }
            return Some(i);
        }
        i = i + 1;
    }
    proof {
        lemma_obj_key_index(obj_views(entries@), key@);
    }
    None
}

/// The merge of two values, as a fresh tree.
#[verifier::loop_isolation(false)]
pub fn merge_of(base: &ConfigValue, overlay: &ConfigValue) -> (r: ConfigValue)
    ensures
        value_view(r) == merge_tree(value_view(*base), value_view(*overlay)),
    decreases *overlay,
{
    if matches!(overlay, ConfigValue::Null) {
        return clone_value(base);
    }
    match (base, overlay) {
        (ConfigValue::Obj(bs), ConfigValue::Obj(os)) => {
            let ghost b0 = obj_views(bs@);
            let ghost ov = obj_views(os@);
            proof {
                lemma_obj_views(os@);
            }
            let mut acc: Vec<(String, ConfigValue)> = clone_entries(bs);
            proof {
                assert(ov.subrange(0, ov.len() as int) =~= ov);
            }
            let mut i: usize = 0;
            while i < os.len()
                invariant
                    i <= os.len(),
                    ov.len() == os@.len(),
                    ov == obj_views(os@),
                    forall|m: int|
                        0 <= m < os@.len() ==> #[trigger] ov[m] == (
                        os@[m].0@,
                        value_view(os@[m].1),
                        ),
                    merge_entries(b0, ov) == merge_entries(
                        obj_views(acc@),
                        ov.subrange(i as int, ov.len() as int),
                    ),
                decreases os.len() - i,
            {
                let ghost acc_v = obj_views(acc@);
                let ghost rest = ov.subrange(i as int, ov.len() as int);
                proof {
                    assert(rest[0] == ov[i as int]);
                    assert(rest.subrange(1, rest.len() as int) =~= ov.subrange(
                        i + 1,
                        ov.len() as int,
                    ));
                }
                let key = os[i].0.clone();
                match obj_index_of(&acc, &key) {
                    Some(i0) => {
                        let merged = merge_of(&acc[i0].1, &os[i].1);
                        proof {
                            lemma_obj_views(acc@);
                        }
                        acc[i0] = (key, merged);
                        proof {
                            lemma_obj_views(acc@);
                            assert(obj_views(acc@) =~= acc_v.update(
                                i0 as int,
                                (os@[i as int].0@, merge_tree(acc_v[i0 as int].1, ov[i as int].1)),
                            ));
                        }
                    },
                    None => {
                        let val = clone_value(&os[i].1);
                        proof {
                            lemma_obj_views(acc@);
                        }
                        acc.push((key, val));
                        proof {
                            lemma_obj_views(acc@);
                            assert(obj_views(acc@) =~= acc_v.push(
                                (os@[i as int].0@, ov[i as int].1),
                            ));
                        }
                    },
                }
                i = i + 1;
            }
            proof {
                assert(ov.subrange(i as int, ov.len() as int) =~= Seq::<
                    (Seq<char>, Tree),
                >::empty());
            }
            ConfigValue::Obj(acc)
        },
        _ => clone_value(overlay),
    }
}

#[verifier::loop_isolation(false)]
pub(crate) fn clone_entries(entries: &Vec<(String, ConfigValue)>) -> (r: Vec<(String, ConfigValue)>)
    ensures
        obj_views(r@) == obj_views(entries@),
{
    let mut out: Vec<(String, ConfigValue)> = Vec::new();
    let mut i: usize = 0;
    while i < entries.len()
        invariant
            i <= entries.len(),
            out@.len() == i,
            forall|k: int|
                0 <= k < i ==> (#[trigger] out@[k]).0@ == entries@[k].0@ && value_view(out@[k].1)
                    == value_view(entries@[k].1),
        decreases entries.len() - i,
    {
        let key = entries[i].0.clone();
        let val = clone_value(&entries[i].1);
        out.push((key, val));
        i = i + 1;
    }
    proof {
        lemma_obj_views(out@);
        lemma_obj_views(entries@);
        assert(obj_views(out@) =~= obj_views(entries@));
    }
    out
}

/// Deep-merges the overlay into the base, in place.
pub fn merge_values(base: &mut ConfigValue, overlay: &ConfigValue)
    ensures
        value_view(*final(base)) == merge_tree(value_view(*old(base)), value_view(*overlay)),
{
    let merged = merge_of(base, overlay);
    *base = merged;
}

/// Walks one object level per path segment; a missing key or a
/// non-object step yields nothing.
pub open spec fn lookup_segments(t: Tree, segs: Seq<Seq<char>>) -> Option<Tree>
    decreases segs.len(),
{
    if segs.len() == 0 {
        Some(t)
    } else {
        match t {
            Tree::Obj(entries) => match obj_get_spec(entries, segs[0]) {
                Some(child) => lookup_segments(child, segs.subrange(1, segs.len() as int)),
                None => None,
            },
            _ => None,
        }
    }
}

/// The child of an object tree under a key; nothing on any other tree.
pub open spec fn tree_get(t: Tree, key: Seq<char>) -> Option<Tree> {
    match t {
        Tree::Obj(entries) => obj_get_spec(entries, key),
        _ => None,
    }
}

/// The tree with the value placed at the dotted path: existing objects
/// on the path are descended into, their other entries kept; a missing
/// key or a non-object step grows fresh object levels down to the
/// value.
pub open spec fn set_path(t: Tree, segs: Seq<Seq<char>>, v: Tree) -> Tree
    decreases segs.len(),
{
    if segs.len() == 0 {
        v
    } else {
        let entries = match t {
            Tree::Obj(es) => es,
            _ => Seq::empty(),
        };
        let i = obj_key_index(entries, segs[0]);
        let rest = segs.subrange(1, segs.len() as int);
        if i >= 0 {
            Tree::Obj(entries.update(i, (segs[0], set_path(entries[i].1, rest, v))))
        } else {
            Tree::Obj(entries.push((segs[0], set_path(Tree::Null, rest, v))))
        }
    }
}

/// The child of an object value under a key.
pub fn obj_get<'a>(v: &'a ConfigValue, key: &String) -> (r: Option<&'a ConfigValue>)
    ensures
        match r {
            Some(c) => v@ is Obj && obj_get_spec(v@->Obj_0, key@) == Some(c@),
            None => !(v@ is Obj) || obj_get_spec(v@->Obj_0, key@) is None,
        },
{
    match v {
        ConfigValue::Obj(entries) => {
            proof {
                lemma_obj_views(entries@);
            }
            match obj_index_of(entries, key) {
                Some(i) => Some(&entries[i].1),
                None => None,
            }
        },
        _ => None,
    }
}

/// Law: a null overlay never erases anything; the base is kept whole.
pub proof fn lemma_merge_null_overlay(base: Tree)
    ensures
        merge_tree(base, Tree::Null) == base,
{
}

/// Law: when neither side's pair is object-with-object and the overlay
/// is not null, the overlay replaces the base wholesale.
pub proof fn lemma_merge_replaces(base: Tree, overlay: Tree)
    requires
        overlay != Tree::Null,
        !(base is Obj && overlay is Obj),
    ensures
        merge_tree(base, overlay) == overlay,
{
}

proof fn lemma_merge_entries_disjoint(bs: Seq<(Seq<char>, Tree)>, os: Seq<(Seq<char>, Tree)>)
    requires
        forall|i: int, j: int|
            0 <= i < bs.len() && 0 <= j < os.len() ==> (#[trigger] bs[i]).0 != (
            #[trigger] os[j]).0,
        forall|i: int, j: int| 0 <= i < j < os.len() ==> os[i].0 != os[j].0,
    ensures
        merge_entries(bs, os) == bs + os,
    decreases os.len(),
{
    if os.len() == 0 {
        assert(bs + os =~= bs);
    } else {
        lemma_obj_key_index(bs, os[0].0);
        assert(obj_key_index(bs, os[0].0) == -1);
        let stepped = bs.push(os[0]);
        let rest = os.subrange(1, os.len() as int);
        lemma_merge_entries_disjoint(stepped, rest);
        assert(stepped + rest =~= bs + os);
    }
}

/// Law: merging objects whose key sets are disjoint keeps every entry
/// of both, the base's first.
pub proof fn lemma_merge_disjoint_objects(bs: Seq<(Seq<char>, Tree)>, os: Seq<(Seq<char>, Tree)>)
    requires
        forall|i: int, j: int|
            0 <= i < bs.len() && 0 <= j < os.len() ==> (#[trigger] bs[i]).0 != (
            #[trigger] os[j]).0,
        forall|i: int, j: int| 0 <= i < j < os.len() ==> os[i].0 != os[j].0,
    ensures
        merge_tree(Tree::Obj(bs), Tree::Obj(os)) == Tree::Obj(bs + os),
{
    lemma_merge_entries_disjoint(bs, os);
}

} // verus!
