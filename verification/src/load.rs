//! The whole load, from a parsed base document to the typed
//! configuration: profile selection, two placeholder passes around the
//! declared imports, and materialization. Every document arrives as a
//! value; reading files, environment variables and the network is the
//! caller's business.

use vstd::prelude::*;

use crate::error::ConfigError;
use crate::import::pipeline_spec;
use crate::import::resolve_config_tree;
use crate::placeholder::split_segments;
use crate::profile::apply_profile;
use crate::profile::resolve_profile;
use crate::spring::DyConfiguration;
use crate::value::ConfigValue;
use crate::value::Tree;
use crate::value::lookup_segments;
use crate::value::obj_views;
use crate::value::set_path;

verus! {

/// The profile that wins: an explicit name, else the primary
/// environment value, else the legacy-named one.
pub open spec fn profile_choice(
    explicit: Option<Seq<char>>,
    primary: Option<Seq<char>>,
    legacy: Option<Seq<char>>,
) -> Option<Seq<char>> {
    if explicit is Some {
        explicit
    } else if primary is Some {
        primary
    } else {
        legacy
    }
}

/// The base tree with the profile written in: a known profile always
/// wins; with none known, the default `local` is written only where
/// the tree has no profile yet.
pub open spec fn profiled_tree(base: Tree, profile: Option<Seq<char>>) -> Tree {
    match profile {
        Some(p) => set_path(base, split_segments("spring.profiles.active"@), Tree::Str(p)),
        None => {
            if lookup_segments(base, split_segments("spring.profiles.active"@)) is None {
                set_path(base, split_segments("spring.profiles.active"@), Tree::Str("local"@))
            } else {
                base
            }
        },
    }
}

/// Resolves the whole configuration from a parsed base document and
/// in-memory sources, and materializes it. Either every step succeeds
/// and one typed configuration comes out, or the first failing step's
/// error does; nothing partial is ever produced.
pub fn load_from_sources(
    base: ConfigValue,
    profile: Option<String>,
    primary_env: Option<String>,
    legacy_env: Option<String>,
    locals: &Vec<(String, ConfigValue)>,
    remotes: &Vec<(String, ConfigValue)>,
) -> (r: Result<DyConfiguration, ConfigError>)
    ensures
        ({
            let start = profiled_tree(
                base@,
                profile_choice(profile.deep_view(), primary_env.deep_view(), legacy_env.deep_view()),
            );
            let piped = pipeline_spec(start, obj_views(locals@), obj_views(remotes@));
            match r {
                Ok(c) => piped matches Ok(t) && DyConfiguration::decodable(t)
                    && DyConfiguration::decodes_to(t, c),
                Err(e) => match piped {
                    Ok(t) => !DyConfiguration::decodable(t) && e@ is Decode,
                    Err(ev) => e@ == ev,
                },
            }
        }),
{
    let chosen = resolve_profile(profile, primary_env, legacy_env);
    let mut root = base;
    apply_profile(&mut root, &chosen);
    let merged = match resolve_config_tree(root, locals, remotes) {
        Ok(t) => t,
        Err(e) => {
            return Err(e);
        },
    };
    DyConfiguration::decode(&merged)
}

} // verus!
