//! Declarative imports: the tree lists further documents to load and
//! merge, in order, each optionally tolerant of absence. A directive
//! reads `[optional:]classpath:<path>` for a local document or
//! `[optional:]nacos:<document-id>` for the remote source.

use vstd::prelude::*;

use crate::error::ConfigError;
use crate::error::ErrorView;
use crate::placeholder::lookup_path;
use crate::placeholder::resolve_of;
use crate::placeholder::resolve_tree;
use crate::placeholder::split_segments;
use crate::text::has_prefix;
use crate::text::str_has_prefix;
use crate::value::ConfigValue;
use crate::value::Tree;
use crate::value::arr_views;
use crate::value::lemma_arr_views;
use crate::value::lemma_obj_views;
use crate::value::lookup_segments;
use crate::value::merge_of;
use crate::value::obj_get;
use crate::value::merge_tree;
use crate::value::obj_get_spec;
use crate::value::obj_index_of;
use crate::value::obj_views;
use crate::value::tree_get;
use crate::value::value_view;

verus! {

/// Where an imported document comes from.
#[derive(Clone, Copy, PartialEq, Eq, Structural, Debug)]
pub enum ImportScheme {
    LocalFile,
    Remote,
}

/// One parsed import directive.
#[derive(Debug)]
pub struct ImportDirective {
    /// Absence of the document is tolerated.
    pub optional: bool,
    pub scheme: ImportScheme,
    /// A path relative to the resources root, or a remote document id.
    pub locator: String,
}

/// The parse of a directive string: the optional flag, the scheme, and
/// the locator; nothing when the scheme is not recognized.
pub open spec fn parse_directive_spec(s: Seq<char>) -> Option<(bool, ImportScheme, Seq<char>)> {
    let optional = has_prefix(s, "optional:"@);
    let body = if optional {
        s.subrange("optional:"@.len() as int, s.len() as int)
    } else {
        s
    };
    if has_prefix(body, "classpath:"@) {
        Some(
            (
                optional,
                ImportScheme::LocalFile,
                body.subrange("classpath:"@.len() as int, body.len() as int),
            ),
        )
    } else if has_prefix(body, "nacos:"@) {
        Some(
            (
                optional,
                ImportScheme::Remote,
                body.subrange("nacos:"@.len() as int, body.len() as int),
            ),
        )
    } else {
        None
    }
}

/// Parses one directive string; a directive with an unrecognized
/// scheme is ignored by the caller.
pub fn parse_import_directive(s: &str) -> (r: Option<ImportDirective>)
    ensures
        match r {
            Some(d) => parse_directive_spec(s@) == Some((d.optional, d.scheme, d.locator@)),
            None => parse_directive_spec(s@) is None,
        },
{
    proof {
        reveal_strlit("optional:");
        reveal_strlit("classpath:");
        reveal_strlit("nacos:");
    }
    let optional = str_has_prefix(s, "optional:");
    let n = s.unicode_len();
    let start: usize = if optional {
        9
    } else {
        0
    };
    let body = s.substring_char(start, n);
    proof {
        if !optional {
            assert(s@.subrange(0, n as int) =~= s@);
        }
    }
    let body_len = body.unicode_len();
    if str_has_prefix(body, "classpath:") {
        proof {
            reveal_strlit("classpath:");
        }
        let locator = body.substring_char(10, body_len);
        Some(
            ImportDirective {
                optional,
                scheme: ImportScheme::LocalFile,
                locator: locator.to_owned(),
            },
        )
    } else if str_has_prefix(body, "nacos:") {
        proof {
            reveal_strlit("nacos:");
        }
        let locator = body.substring_char(6, body_len);
        Some(ImportDirective { optional, scheme: ImportScheme::Remote, locator: locator.to_owned() })
    } else {
        None
    }
}

/// The string elements of an array of trees, in order; anything else
/// is passed over.
pub open spec fn str_items(items: Seq<Tree>) -> Seq<Seq<char>>
    decreases items,
{
    if items.len() == 0 {
        Seq::empty()
    } else {
        let rest = str_items(items.subrange(1, items.len() as int));
        match items[0] {
            Tree::Str(s) => seq![s] + rest,
            _ => rest,
        }
    }
}

proof fn lemma_str_items_push(items: Seq<Tree>, x: Tree)
    ensures
        str_items(items.push(x)) == str_items(items) + (match x {
            Tree::Str(s) => seq![s],
            _ => Seq::empty(),
        }),
    decreases items.len(),
{
    let tail = match x {
        Tree::Str(s) => seq![s],
        _ => Seq::<Seq<char>>::empty(),
    };
    if items.len() == 0 {
        reveal_with_fuel(str_items, 3);
        assert(items.push(x).subrange(1, 1) =~= Seq::<Tree>::empty());
        assert(items.push(x)[0] == x);
        assert(str_items(items.push(x)) =~= str_items(items) + tail);
    } else {
        let sub = items.subrange(1, items.len() as int);
        lemma_str_items_push(sub, x);
        assert(items.push(x).subrange(1, items.len() as int + 1) =~= sub.push(x));
        assert(items.push(x)[0] == items[0]);
        match items[0] {
            Tree::Str(s0) => {
                assert(str_items(items.push(x)) == seq![s0] + (str_items(sub) + tail));
                assert(str_items(items) == seq![s0] + str_items(sub));
                assert(seq![s0] + (str_items(sub) + tail) =~= (seq![s0] + str_items(sub)) + tail);
            },
            _ => {
                assert(str_items(items.push(x)) == str_items(sub) + tail);
                assert(str_items(items) == str_items(sub));
            },
        }
    }
}

/// The declared import directive strings of a tree: the string
/// elements of the array at `spring.config.import`, or none at all
/// when that path holds no array.
pub open spec fn imports_of(root: Tree) -> Seq<Seq<char>> {
    match lookup_segments(root, split_segments("spring.config.import"@)) {
        Some(Tree::Arr(items)) => str_items(items),
        _ => Seq::empty(),
    }
}

/// The declared import directive strings, in declaration order.
#[verifier::loop_isolation(false)]
pub fn import_list(root: &ConfigValue) -> (r: Vec<String>)
    ensures
        r.deep_view() == imports_of(root@),
{
    match lookup_path(root, "spring.config.import") {
        Some(v) => match v {
            ConfigValue::Arr(items) => {
                let ghost views = arr_views(items@);
                proof {
                    lemma_arr_views(items@);
                }
                let mut out: Vec<String> = Vec::new();
                let mut i: usize = 0;
                while i < items.len()
                    invariant
                        i <= items.len(),
                        out.deep_view() == str_items(views.subrange(0, i as int)),
                    decreases items.len() - i,
                {
                    let ghost prefix = views.subrange(0, i as int);
                    match &items[i] {
                        ConfigValue::Str(s) => {
                            out.push(s.clone());
                        },
                        _ => {
                        },
                    }
                    proof {
                        lemma_str_items_push(prefix, views[i as int]);
                        assert(prefix.push(views[i as int]) =~= views.subrange(0, i as int + 1));
                        assert(out.deep_view() =~= str_items(views.subrange(0, i as int + 1)));
                    }
                    i = i + 1;
                }
                proof {
                    assert(views.subrange(0, views.len() as int) =~= views);
                }
                out
            },
            _ => {
                let out: Vec<String> = Vec::new();
                proof {
                    assert(out.deep_view() =~= Seq::<Seq<char>>::empty());
                }
                out
            },
        },
        None => {
            let out: Vec<String> = Vec::new();
            proof {
                assert(out.deep_view() =~= Seq::<Seq<char>>::empty());
            }
            out
        },
    }
}

/// The string directly under a key of an object tree, if there is one.
pub open spec fn tree_get_str(t: Tree, key: Seq<char>) -> Option<Seq<char>> {
    match tree_get(t, key) {
        Some(Tree::Str(s)) => Some(s),
        _ => None,
    }
}

/// The string two object levels down, if there is one.
pub open spec fn two_level_str(t: Tree, k1: Seq<char>, k2: Seq<char>) -> Option<Seq<char>> {
    match tree_get(t, k1) {
        Some(c) => tree_get_str(c, k2),
        None => None,
    }
}

/// The remote source's settings subtree.
pub open spec fn nacos_node_of(root: Tree) -> Option<Tree> {
    lookup_segments(root, split_segments("spring.cloud.nacos"@))
}

/// Why remote connection settings cannot be derived from the tree, if
/// they cannot: the settings subtree is absent, or it names no server
/// address. Either is a hard error for a remote import, whatever its
/// `optional:` flag says.
pub open spec fn remote_conn_error(root: Tree) -> Option<Seq<char>> {
    match nacos_node_of(root) {
        None => Some("spring.cloud.nacos is required for nacos imports"@),
        Some(node) => match tree_get_str(node, "server-addr"@) {
            Some(_) => None,
            None => Some("spring.cloud.nacos.server-addr is missing"@),
        },
    }
}

/// The namespace: a config-specific override, falling back to the
/// discovery namespace, falling back to empty.
pub open spec fn namespace_of(node: Tree) -> Seq<char> {
    match two_level_str(node, "config"@, "namespace"@) {
        Some(s) => s,
        None => match two_level_str(node, "discovery"@, "namespace"@) {
            Some(s) => s,
            None => Seq::empty(),
        },
    }
}

/// The document group, with its conventional default.
pub open spec fn group_of(node: Tree) -> Seq<char> {
    match two_level_str(node, "config"@, "group"@) {
        Some(s) => s,
        None => "DEFAULT_GROUP"@,
    }
}

/// A credential: present only when non-empty.
pub open spec fn credential_of(node: Tree, key: Seq<char>) -> Option<Seq<char>> {
    match tree_get_str(node, key) {
        Some(s) => if s.len() > 0 {
            Some(s)
        } else {
            None
        },
        None => None,
    }
}

/// The application name announced to the remote source.
pub open spec fn app_name_of(root: Tree) -> Seq<char> {
    match lookup_segments(root, split_segments("spring.application.name"@)) {
        Some(Tree::Str(s)) => s,
        _ => "daoyi-cloud-rs"@,
    }
}

/// How a remote configuration document is addressed: server endpoint,
/// namespace, group, the caller's application name, and optional
/// credentials. The document id stands in the directive's locator.
#[derive(Clone, Debug)]
pub struct RemoteDescriptor {
    pub server_addr: String,
    pub namespace: String,
    pub group: String,
    pub app_name: String,
    pub username: Option<String>,
    pub password: Option<String>,
}

fn get_str(v: &ConfigValue, key: &str) -> (r: Option<String>)
    ensures
        match r {
            Some(s) => tree_get_str(v@, key@) == Some(s@),
            None => tree_get_str(v@, key@) is None,
        },
{
    let k = key.to_owned();
    match obj_get(v, &k) {
        Some(c) => match c {
            ConfigValue::Str(s) => Some(s.clone()),
            _ => None,
        },
        None => None,
    }
}

fn get_str2(v: &ConfigValue, k1: &str, k2: &str) -> (r: Option<String>)
    ensures
        match r {
            Some(s) => two_level_str(v@, k1@, k2@) == Some(s@),
            None => two_level_str(v@, k1@, k2@) is None,
        },
{
    let k = k1.to_owned();
    match obj_get(v, &k) {
        Some(c) => get_str(c, k2),
        None => None,
    }
}

/// Derives the remote source's settings from the tree as it stands at
/// the moment the import is processed. A missing settings subtree or a
/// missing server address aborts the load.
pub fn remote_descriptor_of(root: &ConfigValue) -> (r: Result<RemoteDescriptor, ConfigError>)
    ensures
        match r {
            Ok(d) => {
                &&& remote_conn_error(root@) is None
                &&& nacos_node_of(root@) matches Some(node) && {
                    &&& tree_get_str(node, "server-addr"@) == Some(d.server_addr@)
                    &&& d.namespace@ == namespace_of(node)
                    &&& d.group@ == group_of(node)
                    &&& match d.username {
                        Some(u) => credential_of(node, "username"@) == Some(u@),
                        None => credential_of(node, "username"@) is None,
                    }
                    &&& match d.password {
                        Some(p) => credential_of(node, "password"@) == Some(p@),
                        None => credential_of(node, "password"@) is None,
                    }
                }
                &&& d.app_name@ == app_name_of(root@)
            },
            Err(e) => remote_conn_error(root@) matches Some(msg) && e@
                == ErrorView::MissingConnectionConfig(msg),
        },
{
    let node = match lookup_path(root, "spring.cloud.nacos") {
        Some(n) => n,
        None => {
            return Err(
                ConfigError::MissingConnectionConfig(
                    "spring.cloud.nacos is required for nacos imports".to_owned(),
                ),
            );
        },
    };
    let server_addr = match get_str(node, "server-addr") {
        Some(s) => s,
        None => {
            return Err(
                ConfigError::MissingConnectionConfig(
                    "spring.cloud.nacos.server-addr is missing".to_owned(),
                ),
            );
        },
    };
    let namespace = match get_str2(node, "config", "namespace") {
        Some(s) => s,
        None => match get_str2(node, "discovery", "namespace") {
            Some(s) => s,
            None => String::new(),
        },
    };
    let group = match get_str2(node, "config", "group") {
        Some(s) => s,
        None => "DEFAULT_GROUP".to_owned(),
    };
    let username = match get_str(node, "username") {
        Some(s) => if s.unicode_len() > 0 {
            Some(s)
        } else {
            None
        },
        None => None,
    };
    let password = match get_str(node, "password") {
        Some(s) => if s.unicode_len() > 0 {
            Some(s)
        } else {
            None
        },
        None => None,
    };
    let app_name = match lookup_path(root, "spring.application.name") {
        Some(c) => match c {
            ConfigValue::Str(s) => s.clone(),
            _ => "daoyi-cloud-rs".to_owned(),
        },
        None => "daoyi-cloud-rs".to_owned(),
    };
    Ok(RemoteDescriptor { server_addr, namespace, group, app_name, username, password })
}

/// How one attempt to obtain an imported document ended.
pub enum SourceOutcome {
    /// The document was obtained and parsed.
    Loaded(ConfigValue),
    /// The document is absent.
    NotFound,
    /// Something else went wrong: transport, authentication, or parse.
    Failed(ConfigError),
}

/// The model of an outcome.
pub enum OutcomeView {
    Loaded(Tree),
    NotFound,
    Failed(ErrorView),
}

impl View for SourceOutcome {
    type V = OutcomeView;

    open spec fn view(&self) -> OutcomeView {
        match self {
            SourceOutcome::Loaded(t) => OutcomeView::Loaded(value_view(*t)),
            SourceOutcome::NotFound => OutcomeView::NotFound,
            SourceOutcome::Failed(e) => OutcomeView::Failed(e@),
        }
    }
}

/// What one local import does to the root: a loaded document is
/// resolved against the current root and merged in; an absent document
/// is skipped when optional and is `NotFound` otherwise; any other
/// failure aborts, optional or not.
pub open spec fn apply_local_spec(root: Tree, optional: bool, locator: Seq<char>, o: OutcomeView) -> Result<
    (Tree, bool),
    ErrorView,
> {
    match o {
        OutcomeView::Loaded(t) => Ok((merge_tree(root, resolve_tree(t, root)), true)),
        OutcomeView::NotFound => if optional {
            Ok((root, false))
        } else {
            Err(ErrorView::NotFound(locator))
        },
        OutcomeView::Failed(e) => Err(e),
    }
}

/// What one remote import does to the root: as a local import, except
/// that an optional directive also tolerates transport, authentication
/// and parse failures.
pub open spec fn apply_remote_spec(root: Tree, optional: bool, locator: Seq<char>, o: OutcomeView) -> Result<
    (Tree, bool),
    ErrorView,
> {
    match o {
        OutcomeView::Loaded(t) => Ok((merge_tree(root, resolve_tree(t, root)), true)),
        OutcomeView::NotFound => if optional {
            Ok((root, false))
        } else {
            Err(ErrorView::NotFound(locator))
        },
        OutcomeView::Failed(e) => if optional {
            Ok((root, false))
        } else {
            Err(e)
        },
    }
}

/// Folds one local import outcome into the root; yields whether a
/// document was merged.
pub fn apply_local_outcome(
    root: &mut ConfigValue,
    optional: bool,
    locator: &str,
    outcome: SourceOutcome,
) -> (r: Result<bool, ConfigError>)
    ensures
        match r {
            Ok(merged) => apply_local_spec(value_view(*old(root)), optional, locator@, outcome@)
                == Ok::<_, ErrorView>((value_view(*final (root)), merged)),
            Err(e) => apply_local_spec(value_view(*old(root)), optional, locator@, outcome@)
                == Err::<(Tree, bool), _>(e@) && value_view(*final (root)) == value_view(
                *old(root),
            ),
        },
{
    match outcome {
        SourceOutcome::Loaded(t) => {
            let resolved = resolve_of(&t, root);
            let merged = merge_of(root, &resolved);
            *root = merged;
            Ok(true)
        },
        SourceOutcome::NotFound => {
            if optional {
                Ok(false)
            } else {
                Err(ConfigError::NotFound(locator.to_owned()))
            }
        },
        SourceOutcome::Failed(e) => Err(e),
    }
}

/// Folds one remote import outcome into the root; yields whether a
/// document was merged.
pub fn apply_remote_outcome(
    root: &mut ConfigValue,
    optional: bool,
    locator: &str,
    outcome: SourceOutcome,
) -> (r: Result<bool, ConfigError>)
    ensures
        match r {
            Ok(merged) => apply_remote_spec(value_view(*old(root)), optional, locator@, outcome@)
                == Ok::<_, ErrorView>((value_view(*final (root)), merged)),
            Err(e) => apply_remote_spec(value_view(*old(root)), optional, locator@, outcome@)
                == Err::<(Tree, bool), _>(e@) && value_view(*final (root)) == value_view(
                *old(root),
            ),
        },
{
    match outcome {
        SourceOutcome::Loaded(t) => {
            let resolved = resolve_of(&t, root);
            let merged = merge_of(root, &resolved);
            *root = merged;
            Ok(true)
        },
        SourceOutcome::NotFound => {
            if optional {
                Ok(false)
            } else {
                Err(ConfigError::NotFound(locator.to_owned()))
            }
        },
        SourceOutcome::Failed(e) => {
            if optional {
                Ok(false)
            } else {
                Err(e)
            }
        },
    }
}

/// One directive's effect on the root, with every document source held
/// in memory: an unrecognized scheme is ignored; a local directive
/// takes its document from `locals` by locator; a remote directive
/// first demands connection settings, whatever its flag, then takes
/// its document from `remotes` by document id.
pub open spec fn import_step(
    root: Tree,
    directive: Seq<char>,
    locals: Seq<(Seq<char>, Tree)>,
    remotes: Seq<(Seq<char>, Tree)>,
) -> Result<Tree, ErrorView> {
    match parse_directive_spec(directive) {
        None => Ok(root),
        Some((optional, scheme, locator)) => {
            if scheme == ImportScheme::LocalFile {
                let o = match obj_get_spec(locals, locator) {
                    Some(t) => OutcomeView::Loaded(t),
                    None => OutcomeView::NotFound,
                };
                match apply_local_spec(root, optional, locator, o) {
                    Ok((r2, _)) => Ok(r2),
                    Err(e) => Err(e),
                }
            } else {
                match remote_conn_error(root) {
                    Some(msg) => Err(ErrorView::MissingConnectionConfig(msg)),
                    None => {
                        let o = match obj_get_spec(remotes, locator) {
                            Some(t) => OutcomeView::Loaded(t),
                            None => OutcomeView::NotFound,
                        };
                        match apply_remote_spec(root, optional, locator, o) {
                            Ok((r2, _)) => Ok(r2),
                            Err(e) => Err(e),
                        }
                    },
                }
            }
        },
    }
}

/// The directives' effects folded over the root, in declaration order;
/// the first aborting directive ends the fold.
pub open spec fn run_imports(
    root: Tree,
    directives: Seq<Seq<char>>,
    locals: Seq<(Seq<char>, Tree)>,
    remotes: Seq<(Seq<char>, Tree)>,
) -> Result<Tree, ErrorView>
    decreases directives.len(),
{
    if directives.len() == 0 {
        Ok(root)
    } else {
        match import_step(root, directives[0], locals, remotes) {
            Ok(r2) => run_imports(
                r2,
                directives.subrange(1, directives.len() as int),
                locals,
                remotes,
            ),
            Err(e) => Err(e),
        }
    }
}

/// The whole resolution of a base document against in-memory sources:
/// placeholders are resolved against the fresh document itself, the
/// declared imports are folded in, in order, and placeholders are
/// resolved again against the merged result, so that values imports
/// contributed reach every token.
pub open spec fn pipeline_spec(
    base: Tree,
    locals: Seq<(Seq<char>, Tree)>,
    remotes: Seq<(Seq<char>, Tree)>,
) -> Result<Tree, ErrorView> {
    let pass1 = resolve_tree(base, base);
    match run_imports(pass1, imports_of(pass1), locals, remotes) {
        Ok(merged) => Ok(resolve_tree(merged, merged)),
        Err(e) => Err(e),
    }
}

/// Law: an optional local import whose document is absent never aborts
/// the load; the directive is skipped and the root is kept whole.
pub proof fn lemma_optional_local_absent(
    root: Tree,
    directive: Seq<char>,
    locator: Seq<char>,
    locals: Seq<(Seq<char>, Tree)>,
    remotes: Seq<(Seq<char>, Tree)>,
)
    requires
        parse_directive_spec(directive) == Some((true, ImportScheme::LocalFile, locator)),
        obj_get_spec(locals, locator) is None,
    ensures
        import_step(root, directive, locals, remotes) == Ok::<Tree, ErrorView>(root),
{
}

/// Law: a required local import whose document is absent aborts the
/// load with `NotFound`, and nothing is published.
pub proof fn lemma_required_local_absent(
    root: Tree,
    directive: Seq<char>,
    locator: Seq<char>,
    locals: Seq<(Seq<char>, Tree)>,
    remotes: Seq<(Seq<char>, Tree)>,
)
    requires
        parse_directive_spec(directive) == Some((false, ImportScheme::LocalFile, locator)),
        obj_get_spec(locals, locator) is None,
    ensures
        import_step(root, directive, locals, remotes) == Err::<Tree, ErrorView>(
            ErrorView::NotFound(locator),
        ),
{
}

/// Law: a remote import attempted while the tree names no connection
/// settings aborts the load with `MissingConnectionConfig`, whatever
/// the directive's optional flag says.
pub proof fn lemma_remote_without_connection(
    root: Tree,
    directive: Seq<char>,
    optional: bool,
    locator: Seq<char>,
    msg: Seq<char>,
    locals: Seq<(Seq<char>, Tree)>,
    remotes: Seq<(Seq<char>, Tree)>,
)
    requires
        parse_directive_spec(directive) == Some((optional, ImportScheme::Remote, locator)),
        remote_conn_error(root) == Some(msg),
    ensures
        import_step(root, directive, locals, remotes) == Err::<Tree, ErrorView>(
            ErrorView::MissingConnectionConfig(msg),
        ),
{
}

/// Resolves a base document against in-memory sources: two placeholder
/// passes around the declared imports, which are folded in, in order.
/// `locals` holds local documents by name and `remotes` holds remote
/// documents by id; a locator absent from its map is an absent
/// document.
#[verifier::loop_isolation(false)]
pub fn resolve_config_tree(
    base: ConfigValue,
    locals: &Vec<(String, ConfigValue)>,
    remotes: &Vec<(String, ConfigValue)>,
) -> (r: Result<ConfigValue, ConfigError>)
    ensures
        match r {
            Ok(v) => pipeline_spec(base@, obj_views(locals@), obj_views(remotes@)) == Ok::<
                _,
                ErrorView,
            >(v@),
            Err(e) => pipeline_spec(base@, obj_views(locals@), obj_views(remotes@)) == Err::<
                Tree,
                _,
            >(e@),
        },
{
    let ghost lv = obj_views(locals@);
    let ghost rv = obj_views(remotes@);
    proof {
        lemma_obj_views(locals@);
        lemma_obj_views(remotes@);
    }
    let mut root = resolve_of(&base, &base);
    let ghost pass1 = value_view(root);
    let imports = import_list(&root);
    let ghost dirs = imports.deep_view();
    let n = imports.len();
    proof {
        assert(dirs.subrange(0, dirs.len() as int) =~= dirs);
    }
    let mut i: usize = 0;
    while i < n
        invariant
            i <= n,
            n == imports@.len(),
            dirs == imports.deep_view(),
            dirs.len() == n,
            run_imports(pass1, dirs, lv, rv) == run_imports(
                value_view(root),
                dirs.subrange(i as int, n as int),
                lv,
                rv,
            ),
        decreases n - i,
    {
        let ghost pre = value_view(root);
        let ghost sub = dirs.subrange(i as int, n as int);
        proof {
            assert(imports@[i as int].deep_view() == imports@[i as int]@);
            assert(sub[0] == dirs[i as int]);
            assert(sub.subrange(1, sub.len() as int) =~= dirs.subrange(i as int + 1, n as int));
        }
        match parse_import_directive(imports[i].as_str()) {
            None => {},
            Some(d) => {
                match d.scheme {
                    ImportScheme::LocalFile => {
                        let outcome = match obj_index_of(locals, &d.locator) {
                            Some(idx) => SourceOutcome::Loaded(locals[idx].1.clone()),
                            None => SourceOutcome::NotFound,
                        };
                        match apply_local_outcome(
                            &mut root,
                            d.optional,
                            d.locator.as_str(),
                            outcome,
                        ) {
                            Ok(_) => {},
                            Err(e) => {
                                proof {
                                    assert(run_imports(pre, sub, lv, rv) == Err::<Tree, ErrorView>(
                                        e@,
                                    ));
                                }
                                return Err(e);
                            },
                        }
                    },
                    ImportScheme::Remote => {
                        match remote_descriptor_of(&root) {
                            Err(e) => {
                                proof {
                                    assert(import_step(pre, dirs[i as int], lv, rv) == Err::<
                                        Tree,
                                        ErrorView,
                                    >(e@));
                                    assert(run_imports(pre, sub, lv, rv) == Err::<Tree, ErrorView>(
                                        e@,
                                    ));
                                }
                                return Err(e);
                            },
                            Ok(_descriptor) => {
                                let outcome = match obj_index_of(remotes, &d.locator) {
                                    Some(idx) => SourceOutcome::Loaded(remotes[idx].1.clone()),
                                    None => SourceOutcome::NotFound,
                                };
                                match apply_remote_outcome(
                                    &mut root,
                                    d.optional,
                                    d.locator.as_str(),
                                    outcome,
                                ) {
                                    Ok(_) => {},
                                    Err(e) => {
                                        proof {
                                            assert(run_imports(pre, sub, lv, rv) == Err::<
                                                Tree,
                                                ErrorView,
                                            >(e@));
                                        }
                                        return Err(e);
                                    },
                                }
                            },
                        }
                    },
                }
            },
        }
        proof {
            assert(import_step(pre, dirs[i as int], lv, rv) == Ok::<Tree, ErrorView>(
                value_view(root),
            ));
        }
        i = i + 1;
    }
    proof {
        assert(dirs.subrange(n as int, n as int) =~= Seq::<Seq<char>>::empty());
    }
    let out = resolve_of(&root, &root);
    Ok(out)
}

} // verus!
