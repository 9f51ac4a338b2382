//! Parsing of source documents. The parsing itself is done by outside
//! crates behind trusted wrappers; what a parse returns is named, and
//! everything after the parse — folding multi-document payloads, error
//! policy — is verified against those names.

use vstd::prelude::*;

use crate::error::ConfigError;
use crate::value::ConfigValue;
use crate::value::Tree;
use crate::value::arr_views;
use crate::value::lemma_arr_views;
use crate::value::merge_of;
use crate::value::merge_tree;
use crate::value::value_view;

verus! {

/// The trees the YAML documents of a text parse to, in order, one per
/// `---`-separated document; nothing when the text is not YAML. A
/// function of the text alone.
pub uninterp spec fn yaml_docs_of(s: Seq<char>) -> Option<Seq<Tree>>;

/// The tree a TOML text parses to; nothing when the text is not TOML.
/// A function of the text alone.
pub uninterp spec fn toml_doc_of(s: Seq<char>) -> Option<Tree>;

/// serde_json's document type, declared so that the conversion below
/// can take it; opaque to every contract.
#[verifier::external_type_specification]
#[verifier::external_body]
pub struct ExJsonValue(serde_json::Value);

/// Rebuilds one parsed document as the library's tree: the six shapes
/// map across one to one, except that a number with no 64-bit integer
/// value is carried as its decimal text. Relies on serde_json's Value
/// shape and on Number::as_i64 and Number::to_string. Shared by the two
/// parse wrappers below, and called nowhere else; it claims nothing of
/// its own, and its effect reaches contracts only through the named
/// results of those wrappers.
#[verifier::external_body]
fn value_of_json(v: serde_json::Value) -> (r: ConfigValue) {
    match v {
        serde_json::Value::Null => ConfigValue::Null,
        serde_json::Value::Bool(b) => ConfigValue::Bool(b),
        serde_json::Value::Number(n) => match n.as_i64() {
            Some(i) => ConfigValue::Int(i),
            None => ConfigValue::Str(n.to_string()),
        },
        serde_json::Value::String(s) => ConfigValue::Str(s),
        serde_json::Value::Array(a) => ConfigValue::Arr(a.into_iter().map(value_of_json).collect()),
        serde_json::Value::Object(m) => ConfigValue::Obj(
            m.into_iter().map(|(k, w)| (k, value_of_json(w))).collect(),
        ),
    }
}

/// Relies on serde_yaml's Deserializer over the `---`-separated
/// documents of the text, each document read as a serde_yaml::Value
/// and carried over to a serde_json::Value by serde_json::to_value;
/// the result is a function of the text alone, named [`yaml_docs_of`].
#[verifier::external_body]
fn parse_yaml_documents(content: &str) -> (r: Result<Vec<ConfigValue>, ConfigError>)
    ensures
        match r {
            Ok(docs) => yaml_docs_of(content@) == Some(arr_views(docs@)),
            Err(e) => yaml_docs_of(content@) is None && e@ is Parse,
        },
{
    let mut out = Vec::new();
    for doc in serde_yaml::Deserializer::from_str(content) {
        let y: serde_yaml::Value = match serde::Deserialize::deserialize(doc) {
            Ok(v) => v,
            Err(e) => return Err(ConfigError::Parse(e.to_string())),
        };
        match serde_json::to_value(y) {
            Ok(j) => out.push(value_of_json(j)),
            Err(e) => return Err(ConfigError::Parse(e.to_string())),
        }
    }
    Ok(out)
}

/// Relies on the config crate's Config builder over File::from_str
/// with the TOML format, deserialized to a serde_json::Value; the
/// result is a function of the text alone, named [`toml_doc_of`].
#[verifier::external_body]
fn parse_toml_document(content: &str) -> (r: Result<ConfigValue, ConfigError>)
    ensures
        match r {
            Ok(v) => toml_doc_of(content@) == Some(value_view(v)),
            Err(e) => toml_doc_of(content@) is None && e@ is Parse,
        },
{
    let source = config::File::from_str(content, config::FileFormat::Toml);
    let built = match config::Config::builder().add_source(source).build() {
        Ok(c) => c,
        Err(e) => return Err(ConfigError::Parse(e.to_string())),
    };
    match built.try_deserialize::<serde_json::Value>() {
        Ok(j) => Ok(value_of_json(j)),
        Err(e) => Err(ConfigError::Parse(e.to_string())),
    }
}

/// The documents folded into one tree, front to back: the first
/// non-null document starts the accumulator, every later one merges
/// into it.
pub open spec fn merge_docs(acc: Tree, docs: Seq<Tree>) -> Tree
    decreases docs,
{
    if docs.len() == 0 {
        acc
    } else {
        let next = if acc == Tree::Null {
            docs[0]
        } else {
            merge_tree(acc, docs[0])
        };
        merge_docs(next, docs.subrange(1, docs.len() as int))
    }
}

proof fn lemma_merge_docs_push(acc: Tree, docs: Seq<Tree>, x: Tree)
    ensures
        merge_docs(acc, docs.push(x)) == {
            let m = merge_docs(acc, docs);
            if m == Tree::Null {
                x
            } else {
                merge_tree(m, x)
            }
        },
    decreases docs.len(),
{
    if docs.len() == 0 {
        reveal_with_fuel(merge_docs, 3);
        assert(docs.push(x).subrange(1, 1) =~= Seq::<Tree>::empty());
        assert(docs.push(x)[0] == x);
    } else {
        let sub = docs.subrange(1, docs.len() as int);
        let next = if acc == Tree::Null {
            docs[0]
        } else {
            merge_tree(acc, docs[0])
        };
        lemma_merge_docs_push(next, sub, x);
        assert(docs.push(x).subrange(1, docs.len() as int + 1) =~= sub.push(x));
        assert(docs.push(x)[0] == docs[0]);
    }
}

/// Parses a YAML text that may carry several `---`-separated
/// documents and folds them into one tree; a text with no document, or
/// only null ones, is an error, as is unparseable text.
#[verifier::loop_isolation(false)]
pub fn load_value_from_str(content: &str) -> (r: Result<ConfigValue, ConfigError>)
    ensures
        match r {
            Ok(v) => yaml_docs_of(content@) matches Some(docs) && merge_docs(Tree::Null, docs)
                == v@ && v@ != Tree::Null,
            Err(e) => match yaml_docs_of(content@) {
                Some(docs) => merge_docs(Tree::Null, docs) == Tree::Null && e@ is Parse,
                None => e@ is Parse,
            },
        },
{
    let docs = match parse_yaml_documents(content) {
        Ok(docs) => docs,
        Err(e) => {
            return Err(e);
        },
    };
    let ghost views = arr_views(docs@);
    proof {
        lemma_arr_views(docs@);
        assert(views.subrange(0, 0) =~= Seq::<Tree>::empty());
    }
    let mut acc = ConfigValue::Null;
    let mut i: usize = 0;
    while i < docs.len()
        invariant
            i <= docs.len(),
            value_view(acc) == merge_docs(Tree::Null, views.subrange(0, i as int)),
        decreases docs.len() - i,
    {
        let ghost prefix = views.subrange(0, i as int);
        proof {
            lemma_merge_docs_push(Tree::Null, prefix, views[i as int]);
            assert(prefix.push(views[i as int]) =~= views.subrange(0, i as int + 1));
        }
        if matches!(acc, ConfigValue::Null) {
            acc = docs[i].clone();
        } else {
            let merged = merge_of(&acc, &docs[i]);
            acc = merged;
        }
        i = i + 1;
    }
    proof {
        assert(views.subrange(0, views.len() as int) =~= views);
    }
    if matches!(acc, ConfigValue::Null) {
        Err(ConfigError::Parse("empty yaml content from nacos".to_owned()))
    } else {
        Ok(acc)
    }
}

/// Parses one TOML text into a tree.
pub fn load_value_from_toml_str(content: &str) -> (r: Result<ConfigValue, ConfigError>)
    ensures
        match r {
            Ok(v) => toml_doc_of(content@) == Some(v@),
            Err(e) => toml_doc_of(content@) is None && e@ is Parse,
        },
{
    parse_toml_document(content)
}

} // verus!
