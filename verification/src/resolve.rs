//! The order in which the actor for a command is looked for.

use vstd::prelude::*;
use crate::cli::ActorSource;

verus! {

/// One place the actor is looked for.
#[derive(Debug, Clone, Copy, PartialEq, Eq, Structural)]
pub enum ActorLookup {
    /// The data directory given with `--data-dir`.
    DataDirFlag,
    /// The data directory named by the home environment variable.
    HomeEnv,
    /// The actor given with `--actor`.
    ActorFlag,
    /// The repository's default actor, when its configuration loads.
    RepoDefault,
    /// The first actor the repository lists.
    FirstListed,
    /// A new actor, made the repository's default.
    CreateNew,
}

/// The lookup the explicit options select, in order of precedence: the
/// data directory flag, then the home variable, then the actor flag.
pub fn explicit_lookup(data_dir_flag: bool, home_env: bool, actor_flag: bool) -> (r: Option<ActorLookup>)
    ensures
        r == (if data_dir_flag {
            Some(ActorLookup::DataDirFlag)
        } else if home_env {
            Some(ActorLookup::HomeEnv)
        } else if actor_flag {
            Some(ActorLookup::ActorFlag)
        } else {
            None
        }),
{
    if data_dir_flag {
        Some(ActorLookup::DataDirFlag)
    } else if home_env {
        Some(ActorLookup::HomeEnv)
    } else if actor_flag {
        Some(ActorLookup::ActorFlag)
    } else {
        None
    }
}

/// Without explicit options: the repository default when its actor loads,
/// else the first listed actor, else a new one.
pub fn fallback_lookup(default_loaded: bool, any_listed: bool) -> (r: ActorLookup)
    ensures
        r == (if default_loaded {
            ActorLookup::RepoDefault
        } else if any_listed {
            ActorLookup::FirstListed
        } else {
            ActorLookup::CreateNew
        }),
{
    if default_loaded {
        ActorLookup::RepoDefault
    } else if any_listed {
        ActorLookup::FirstListed
    } else {
        ActorLookup::CreateNew
    }
}

pub open spec fn spec_lookup_source(l: ActorLookup) -> ActorSource {
    match l {
        ActorLookup::DataDirFlag => ActorSource::DataDir,
        ActorLookup::HomeEnv => ActorSource::DataDir,
        ActorLookup::ActorFlag => ActorSource::Flag,
        ActorLookup::RepoDefault => ActorSource::RepoDefault,
        ActorLookup::FirstListed => ActorSource::Auto,
        ActorLookup::CreateNew => ActorSource::Auto,
    }
}

/// How a resolved context reports where its actor came from.
pub fn lookup_source(l: ActorLookup) -> (r: ActorSource)
    ensures
        r == spec_lookup_source(l),
{
    match l {
        ActorLookup::DataDirFlag => ActorSource::DataDir,
        ActorLookup::HomeEnv => ActorSource::DataDir,
        ActorLookup::ActorFlag => ActorSource::Flag,
        ActorLookup::RepoDefault => ActorSource::RepoDefault,
        ActorLookup::FirstListed => ActorSource::Auto,
        ActorLookup::CreateNew => ActorSource::Auto,
    }
}

/// The lookup the two steps settle on.
pub open spec fn spec_actor_lookup(
    data_dir_flag: bool,
    home_env: bool,
    actor_flag: bool,
    default_loaded: bool,
    any_listed: bool,
) -> ActorLookup {
    if data_dir_flag {
        ActorLookup::DataDirFlag
    } else if home_env {
        ActorLookup::HomeEnv
    } else if actor_flag {
        ActorLookup::ActorFlag
    } else if default_loaded {
        ActorLookup::RepoDefault
    } else if any_listed {
        ActorLookup::FirstListed
    } else {
        ActorLookup::CreateNew
    }
}

/// An explicit choice of actor is never overridden by the repository's
/// configuration, and a new actor is made only when nothing else exists.
pub proof fn lemma_explicit_actor_wins(
    data_dir_flag: bool,
    home_env: bool,
    actor_flag: bool,
    default_loaded: bool,
    any_listed: bool,
)
    ensures
        (data_dir_flag || home_env || actor_flag) ==> spec_lookup_source(
            spec_actor_lookup(data_dir_flag, home_env, actor_flag, default_loaded, any_listed),
        ) != ActorSource::RepoDefault && spec_lookup_source(
            spec_actor_lookup(data_dir_flag, home_env, actor_flag, default_loaded, any_listed),
        ) != ActorSource::Auto,
        spec_actor_lookup(data_dir_flag, home_env, actor_flag, default_loaded, any_listed)
            == ActorLookup::CreateNew <==> (!data_dir_flag && !home_env && !actor_flag
            && !default_loaded && !any_listed),
{
}

/// The reported source names where the actor was found: the repository
/// default exactly when the default actor was loaded, automatic exactly
/// when the actor was picked as the first listed one or newly created, the
/// data directory for either data-directory option, and the flag for
/// `--actor`.
pub proof fn lemma_lookup_source_names_origin(l: ActorLookup)
    ensures
        spec_lookup_source(l) == ActorSource::RepoDefault <==> l == ActorLookup::RepoDefault,
        spec_lookup_source(l) == ActorSource::Auto <==> (l == ActorLookup::FirstListed || l
            == ActorLookup::CreateNew),
        spec_lookup_source(l) == ActorSource::DataDir <==> (l == ActorLookup::DataDirFlag || l
            == ActorLookup::HomeEnv),
        spec_lookup_source(l) == ActorSource::Flag <==> l == ActorLookup::ActorFlag,
{
}

/// Over the whole resolution: with no explicit option, the actor is
/// reported as the repository default exactly when the default actor loads,
/// and as automatic otherwise, whether or not other actors are listed.
pub proof fn lemma_resolution_reports_source(
    data_dir_flag: bool,
    home_env: bool,
    actor_flag: bool,
    default_loaded: bool,
    any_listed: bool,
)
    ensures
        spec_lookup_source(
            spec_actor_lookup(data_dir_flag, home_env, actor_flag, default_loaded, any_listed),
        ) == (if data_dir_flag || home_env {
            ActorSource::DataDir
        } else if actor_flag {
            ActorSource::Flag
        } else if default_loaded {
            ActorSource::RepoDefault
        } else {
            ActorSource::Auto
        }),
{
}

} // verus!
