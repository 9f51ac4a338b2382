//! Placeholder resolution: every string scalar in a tree is rewritten,
//! substituting `${dotted.path}` tokens by looking the path up in a
//! designated root tree. Tokens that cannot be resolved to a scalar are
//! kept verbatim, and no nested expansion happens within a pass.

use vstd::prelude::*;

use crate::text::scalar_string;
use crate::text::value_as_string;
use crate::value::ConfigValue;
use crate::value::Tree;
use crate::value::arr_views;
use crate::value::lemma_arr_views;
use crate::value::lemma_obj_views;
use crate::value::lookup_segments;
use crate::value::obj_get;
use crate::value::obj_views;
use crate::value::value_view;

verus! {

/// The position of the first occurrence of `c` at or after `i`, or the
/// length of the string when there is none.
pub open spec fn find_char(s: Seq<char>, i: int, c: char) -> int
    decreases s.len() - i,
    when 0 <= i <= s.len()
{
    if i >= s.len() {
        i
    } else if s[i] == c {
        i
    } else {
        find_char(s, i + 1, c)
    }
}

/// What [`find_char`] finds: the first occurrence, if any.
pub proof fn lemma_find_char(s: Seq<char>, i: int, c: char)
    requires
        0 <= i <= s.len(),
    ensures
        i <= find_char(s, i, c) <= s.len(),
        find_char(s, i, c) < s.len() ==> s[find_char(s, i, c)] == c,
        forall|m: int| i <= m < find_char(s, i, c) ==> s[m] != c,
    decreases s.len() - i,
{
    if i < s.len() && s[i] != c {
        lemma_find_char(s, i + 1, c);
    }
}

/// The segments of a dotted path: the text split at every dot.
pub open spec fn split_segments(s: Seq<char>) -> Seq<Seq<char>>
    decreases s.len(),
    via split_segments_dec
{
    let d = find_char(s, 0, '.');
    if d == s.len() {
        seq![s]
    } else {
        seq![s.subrange(0, d)] + split_segments(s.subrange(d + 1, s.len() as int))
    }
}

#[via_fn]
proof fn split_segments_dec(s: Seq<char>) {
    lemma_find_char(s, 0, '.');
}

/// What one `${...}` token resolves to: the rendered scalar at the
/// dotted path, or the whole token verbatim when the path is missing
/// or names an array or object.
pub open spec fn token_sub(key: Seq<char>, root: Tree) -> Seq<char> {
    match lookup_segments(root, split_segments(key)) {
        Some(t) => match scalar_string(t) {
            Some(txt) => txt,
            None => seq!['$', '{'] + key + seq!['}'],
        },
        None => seq!['$', '{'] + key + seq!['}'],
    }
}

/// The resolution of the suffix of `s` that starts at `i`: plain text
/// is copied; at each `${`, the text up to the next `}` is substituted
/// as a token; a `${` with no later `}` leaves the rest untouched.
pub open spec fn resolve_from(s: Seq<char>, i: int, root: Tree) -> Seq<char>
    decreases s.len() - i,
    when 0 <= i <= s.len()
    via resolve_from_dec
{
    if i >= s.len() {
        Seq::empty()
    } else if i + 1 < s.len() && s[i] == '$' && s[i + 1] == '{' {
        let j = find_char(s, i + 2, '}');
        if j == s.len() {
            s.subrange(i, s.len() as int)
        } else {
            token_sub(s.subrange(i + 2, j), root) + resolve_from(s, j + 1, root)
        }
    } else {
        seq![s[i]] + resolve_from(s, i + 1, root)
    }
}

#[via_fn]
proof fn resolve_from_dec(s: Seq<char>, i: int, root: Tree) {
    if 0 <= i && i + 1 < s.len() && s[i] == '$' && s[i + 1] == '{' {
        lemma_find_char(s, i + 2, '}');
    }
}

/// The resolution of a whole string.
pub open spec fn resolve_str(s: Seq<char>, root: Tree) -> Seq<char> {
    resolve_from(s, 0, root)
}

/// The resolution of every string scalar in a tree, depth first.
pub open spec fn resolve_tree(t: Tree, root: Tree) -> Tree
    decreases t,
{
    match t {
        Tree::Str(s) => Tree::Str(resolve_str(s, root)),
        Tree::Arr(items) => Tree::Arr(resolve_arr(items, root)),
        Tree::Obj(entries) => Tree::Obj(resolve_obj(entries, root)),
        _ => t,
    }
}

/// The resolution of each element of an array.
pub open spec fn resolve_arr(items: Seq<Tree>, root: Tree) -> Seq<Tree>
    decreases items,
{
    if items.len() == 0 {
        Seq::empty()
    } else {
        seq![resolve_tree(items[0], root)] + resolve_arr(
            items.subrange(1, items.len() as int),
            root,
        )
    }
}

/// The resolution of each entry value of an object; keys are kept.
pub open spec fn resolve_obj(entries: Seq<(Seq<char>, Tree)>, root: Tree) -> Seq<(Seq<char>, Tree)>
    decreases entries,
{
    if entries.len() == 0 {
        Seq::empty()
    } else {
        seq![(entries[0].0, resolve_tree(entries[0].1, root))] + resolve_obj(
            entries.subrange(1, entries.len() as int),
            root,
        )
    }
}

/// The element resolutions of an array, named one by one.
pub proof fn lemma_resolve_arr(items: Seq<Tree>, root: Tree)
    ensures
        resolve_arr(items, root).len() == items.len(),
        forall|i: int|
            0 <= i < items.len() ==> resolve_arr(items, root)[i] == resolve_tree(
                #[trigger] items[i],
                root,
            ),
    decreases items.len(),
{
    if items.len() > 0 {
        let sub = items.subrange(1, items.len() as int);
        lemma_resolve_arr(sub, root);
        assert forall|i: int| 1 <= i < items.len() implies #[trigger] items[i] == sub[i - 1] by {}
    }
}

/// The entry resolutions of an object, named one by one.
pub proof fn lemma_resolve_obj(entries: Seq<(Seq<char>, Tree)>, root: Tree)
    ensures
        resolve_obj(entries, root).len() == entries.len(),
        forall|i: int|
            0 <= i < entries.len() ==> #[trigger] resolve_obj(entries, root)[i] == (
            entries[i].0,
            resolve_tree(entries[i].1, root),
            ),
    decreases entries.len(),
{
    if entries.len() > 0 {
        let sub = entries.subrange(1, entries.len() as int);
        lemma_resolve_obj(sub, root);
        assert forall|i: int| 1 <= i < entries.len() implies #[trigger] entries[i] == sub[i - 1] by {}
    }
}

/// The position of the first occurrence of `c` at or after `from`, or
/// the string's length when there is none.
#[verifier::loop_isolation(false)]
pub fn find_char_in(s: &str, from: usize, c: char) -> (r: usize)
    requires
        from <= s@.len(),
    ensures
        r as int == find_char(s@, from as int, c),
{
    proof {
        lemma_find_char(s@, from as int, c);
    }
    let n = s.unicode_len();
    let mut i: usize = from;
    while i < n
        invariant
            from <= i <= n,
            forall|m: int| from <= m < i ==> s@[m] != c,
        decreases n - i,
    {
        if s.get_char(i) == c {
            return i;
        }
        i = i + 1;
    }
    n
}

/// The value at a dotted path under a root value, descending one
/// object level per segment; a missing key or a non-object step yields
/// nothing.
pub fn lookup_path<'a>(value: &'a ConfigValue, path: &str) -> (r: Option<&'a ConfigValue>)
    ensures
        match r {
            Some(c) => lookup_segments(value@, split_segments(path@)) == Some(c@),
            None => lookup_segments(value@, split_segments(path@)) is None,
        },
    decreases path@.len(),
{
    proof {
        lemma_find_char(path@, 0, '.');
    }
    let n = path.unicode_len();
    let d = find_char_in(path, 0, '.');
    if d == n {
        let key = path.to_owned();
        let got = obj_get(value, &key);
        proof {
            reveal_with_fuel(lookup_segments, 2);
            let segs = split_segments(path@);
            assert(segs =~= seq![path@]);
            assert(segs.subrange(1, 1) =~= Seq::<Seq<char>>::empty());
        }
        got
    } else {
        let head = path.substring_char(0, d);
        let tail = path.substring_char(d + 1, n);
        let key = head.to_owned();
        let ghost segs = split_segments(path@);
        proof {
            assert(segs[0] == path@.subrange(0, d as int));
            assert(segs.subrange(1, segs.len() as int) =~= split_segments(
                path@.subrange(d + 1, n as int),
            ));
        }
        match obj_get(value, &key) {
            Some(child) => lookup_path(child, tail),
            None => None,
        }
    }
}

/// Rewrites one string, substituting every `${dotted.path}` token by
/// the rendered scalar found in the root tree; tokens that do not
/// resolve stay verbatim, and a `${` with no closing `}` leaves the
/// rest of the string untouched.
#[verifier::loop_isolation(false)]
pub fn replace_placeholders(input: &str, root: &ConfigValue) -> (r: String)
    ensures
        r@ == resolve_str(input@, root@),
{
    let n = input.unicode_len();
    let mut out = String::new();
    let mut i: usize = 0;
    while i < n
        invariant
            i <= n,
            resolve_from(input@, 0, root@) == out@ + resolve_from(input@, i as int, root@),
        decreases n - i,
    {
        let ghost out0 = out@;
        if input.get_char(i) == '$' && i + 1 < n && input.get_char(i + 1) == '{' {
            let j = find_char_in(input, i + 2, '}');
            proof {
                lemma_find_char(input@, i + 2, '}');
            }
            if j == n {
                let rest = input.substring_char(i, n);
                out.append(rest);
                proof {
                    assert(out@ + resolve_from(input@, n as int, root@) =~= out0 + resolve_from(
                        input@,
                        i as int,
                        root@,
                    ));
                }
                i = n;
            } else {
                let key_str = input.substring_char(i + 2, j);
                let ghost key = input@.subrange(i + 2, j as int);
                let replacement: Option<String> = match lookup_path(root, key_str) {
                    Some(v) => value_as_string(v),
                    None => None,
                };
                match replacement {
                    Some(txt) => {
                        out.append(txt.as_str());
                        proof {
                            assert(txt@ == token_sub(key, root@));
                        }
                    },
                    None => {
                        let lit = input.substring_char(i, j + 1);
                        out.append(lit);
                        proof {
                            assert(input@.subrange(i as int, j + 1) =~= seq!['$', '{'] + key
                                + seq!['}']);
                            assert(lit@ == token_sub(key, root@));
                        }
                    },
                }
                proof {
                    assert(out@ + resolve_from(input@, j + 1, root@) =~= out0 + (token_sub(
                        key,
                        root@,
                    ) + resolve_from(input@, j + 1, root@)));
                }
                i = j + 1;
            }
        } else {
            let one = input.substring_char(i, i + 1);
            out.append(one);
            proof {
                assert(one@ =~= seq![input@[i as int]]);
                assert(out@ + resolve_from(input@, i + 1, root@) =~= out0 + (seq![input@[i as int]]
                    + resolve_from(input@, i + 1, root@)));
            }
            i = i + 1;
        }
    }
    proof {
        assert(out@ + resolve_from(input@, n as int, root@) =~= out@);
    }
    out
}

/// The tree with every string scalar rewritten against the root, as a
/// fresh value.
#[verifier::loop_isolation(false)]
pub fn resolve_of(value: &ConfigValue, root: &ConfigValue) -> (r: ConfigValue)
    ensures
        value_view(r) == resolve_tree(value@, root@),
    decreases *value,
{
    match value {
        ConfigValue::Null => ConfigValue::Null,
        ConfigValue::Bool(b) => ConfigValue::Bool(*b),
        ConfigValue::Int(n) => ConfigValue::Int(*n),
        ConfigValue::Str(s) => ConfigValue::Str(replace_placeholders(s.as_str(), root)),
        ConfigValue::Arr(items) => {
            let mut out: Vec<ConfigValue> = Vec::new();
            let mut i: usize = 0;
            while i < items.len()
                invariant
                    i <= items.len(),
                    out@.len() == i,
                    forall|k: int|
                        0 <= k < i ==> value_view(#[trigger] out@[k]) == resolve_tree(
                            value_view(items@[k]),
                            root@,
                        ),
                decreases items.len() - i,
            {
                out.push(resolve_of(&items[i], root));
                i = i + 1;
            }
            proof {
                lemma_arr_views(out@);
                lemma_arr_views(items@);
                lemma_resolve_arr(arr_views(items@), root@);
                assert forall|k: int| 0 <= k < items@.len() implies arr_views(out@)[k]
                    == resolve_arr(arr_views(items@), root@)[k] by {
                    assert(value_view(out@[k]) == resolve_tree(value_view(items@[k]), root@));
                }
                assert(arr_views(out@) =~= resolve_arr(arr_views(items@), root@));
            }
            ConfigValue::Arr(out)
        },
        ConfigValue::Obj(entries) => {
            let mut out: Vec<(String, ConfigValue)> = Vec::new();
            let mut i: usize = 0;
            while i < entries.len()
                invariant
                    i <= entries.len(),
                    out@.len() == i,
                    forall|k: int|
                        0 <= k < i ==> (#[trigger] out@[k]).0@ == entries@[k].0@ && value_view(
                            out@[k].1,
                        ) == resolve_tree(value_view(entries@[k].1), root@),
                decreases entries.len() - i,
            {
                let key = entries[i].0.clone();
                let val = resolve_of(&entries[i].1, root);
                out.push((key, val));
                i = i + 1;
            }
            proof {
                lemma_obj_views(out@);
                lemma_obj_views(entries@);
                lemma_resolve_obj(obj_views(entries@), root@);
                assert(obj_views(out@) =~= resolve_obj(obj_views(entries@), root@));
            }
            ConfigValue::Obj(out)
        },
    }
}

/// Rewrites every string scalar in the tree, in place, against the
/// given root.
pub fn resolve_placeholders(value: &mut ConfigValue, root: &ConfigValue)
    ensures
        value_view(*final (value)) == resolve_tree(value_view(*old(value)), value_view(*root)),
{
    let resolved = resolve_of(value, root);
    *value = resolved;
}

/// Whether the text holds a `${` marker anywhere.
pub open spec fn has_marker(s: Seq<char>) -> bool {
    exists|i: int| 0 <= i && i + 1 < s.len() && (#[trigger] s[i]) == '$' && s[i + 1] == '{'
}

/// Whether any string scalar in the tree holds a `${` marker.
pub open spec fn tree_has_marker(t: Tree) -> bool
    decreases t,
{
    match t {
        Tree::Str(s) => has_marker(s),
        Tree::Arr(items) => exists|i: int|
            0 <= i < items.len() && tree_has_marker(#[trigger] items[i]),
        Tree::Obj(entries) => exists|i: int|
            0 <= i < entries.len() && tree_has_marker(#[trigger] entries[i].1),
        _ => false,
    }
}

proof fn lemma_resolve_unmarked_from(s: Seq<char>, i: int, root: Tree)
    requires
        0 <= i <= s.len(),
        !has_marker(s),
    ensures
        resolve_from(s, i, root) == s.subrange(i, s.len() as int),
    decreases s.len() - i,
{
    if i < s.len() {
        assert(!(i + 1 < s.len() && s[i] == '$' && s[i + 1] == '{'));
        lemma_resolve_unmarked_from(s, i + 1, root);
        assert(seq![s[i]] + s.subrange(i + 1, s.len() as int) =~= s.subrange(i, s.len() as int));
    } else {
        assert(Seq::<char>::empty() =~= s.subrange(i, s.len() as int));
    }
}

/// Law: a string with no `${` marker is left untouched by resolution.
pub proof fn lemma_resolve_unmarked_str(s: Seq<char>, root: Tree)
    requires
        !has_marker(s),
    ensures
        resolve_str(s, root) == s,
{
    lemma_resolve_unmarked_from(s, 0, root);
    assert(s.subrange(0, s.len() as int) =~= s);
}

/// Law: a tree with no `${` marker in any string is left untouched by
/// resolution.
pub proof fn lemma_resolve_unmarked_tree(t: Tree, root: Tree)
    requires
        !tree_has_marker(t),
    ensures
        resolve_tree(t, root) == t,
    decreases t,
{
    match t {
        Tree::Str(s) => {
            lemma_resolve_unmarked_str(s, root);
        },
        Tree::Arr(items) => {
            lemma_resolve_arr(items, root);
            assert forall|i: int| 0 <= i < items.len() implies resolve_tree(
                #[trigger] items[i],
                root,
            ) == items[i] by {
                lemma_resolve_unmarked_tree(items[i], root);
            }
            assert(resolve_arr(items, root) =~= items);
        },
        Tree::Obj(entries) => {
            lemma_resolve_obj(entries, root);
            assert forall|i: int| 0 <= i < entries.len() implies (
            #[trigger] resolve_obj(entries, root)[i]) == entries[i] by {
                lemma_resolve_unmarked_tree(entries[i].1, root);
            }
            assert(resolve_obj(entries, root) =~= entries);
        },
        _ => {},
    }
}

/// Law: once a resolution pass leaves no `${` marker behind, running
/// the pass again with the same root changes nothing.
pub proof fn lemma_resolve_idempotent(t: Tree, root: Tree)
    requires
        !tree_has_marker(resolve_tree(t, root)),
    ensures
        resolve_tree(resolve_tree(t, root), root) == resolve_tree(t, root),
{
    lemma_resolve_unmarked_tree(resolve_tree(t, root), root);
}

/// Law: a token whose dotted path is missing from the root, or names a
/// value with no scalar text, round-trips through resolution verbatim.
pub proof fn lemma_unresolved_token_literal(key: Seq<char>, root: Tree)
    requires
        forall|m: int| 0 <= m < key.len() ==> key[m] != '}',
        match lookup_segments(root, split_segments(key)) {
            Some(t) => scalar_string(t) is None,
            None => true,
        },
    ensures
        resolve_str(seq!['$', '{'] + key + seq!['}'], root) == seq!['$', '{'] + key + seq!['}'],
{
    let token = seq!['$', '{'] + key + seq!['}'];
    let j = find_char(token, 2, '}');
    lemma_find_char(token, 2, '}');
    assert(token[key.len() as int + 2] == '}');
    assert forall|m: int| 2 <= m < key.len() as int + 2 implies token[m] != '}' by {
        assert(token[m] == key[m - 2]);
    }
    assert(j == key.len() as int + 2);
    assert(token.subrange(2, j) =~= key);
    assert(token_sub(key, root) == token);
    assert(resolve_from(token, j + 1, root) == Seq::<char>::empty());
    assert(resolve_from(token, 0, root) =~= token);
}

} // verus!
