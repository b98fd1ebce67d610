//! The service configuration: a build-environment default merged with
//! whatever the process environment supplies. The caller reads the
//! environment and passes it in; the merge itself is verified.

use vstd::prelude::*;
use vstd::string::StringSliceAdditionalSpecFns;

verus! {

/// The remote endpoint configuration.
#[derive(Clone, Debug)]
pub struct SlippiConfig {
    pub graphql_url: Option<String>,
}

impl SlippiConfig {
    /// The development endpoint.
    pub fn development() -> (r: Self)
        ensures
            r.graphql_url matches Some(u) && u@ == (
            "https://gql-gateway-dev-dot-slippi.uc.r.appspot.com/graphql")@,
    {
        SlippiConfig {
            graphql_url: Some(
                ("https://gql-gateway-dev-dot-slippi.uc.r.appspot.com/graphql").to_owned(),
            ),
        }
    }

    /// The production endpoint.
    pub fn production() -> (r: Self)
        ensures
            r.graphql_url matches Some(u) && u@ == (
            "https://gql-gateway-dev-dot-slippi.uc.r.appspot.com/graphql")@,
    {
        SlippiConfig {
            graphql_url: Some(
                ("https://gql-gateway-dev-dot-slippi.uc.r.appspot.com/graphql").to_owned(),
            ),
        }
    }

    /// Merges two configurations; values in `other` take precedence.
    fn merge(self, other: Self) -> (r: Self)
        ensures
            other.graphql_url is Some ==> r.graphql_url == other.graphql_url,
            other.graphql_url is None ==> r.graphql_url == self.graphql_url,
    {
        SlippiConfig {
            graphql_url: match other.graphql_url {
                Some(u) => Some(u),
                None => self.graphql_url,
            },
        }
    }

    /// The configuration a named build environment selects.
    fn read_file_config(env: &str) -> (r: SlippiConfig)
        ensures
            r.graphql_url matches Some(u) && u@ == spec_env_graphql_url(env@),
    {
        if crate::strutil::str_eq(env, "production") {
            SlippiConfig::production()
        } else {
            SlippiConfig::development()
        }
    }

    /// The effective configuration: the build environment's values override
    /// the default drawn from the process environment, which the caller
    /// reads and passes in. Every build environment names an endpoint, so
    /// the environment's endpoint always wins and every call with the same
    /// build environment agrees on it.
    pub fn get(env: &str, env_graphql_url: Option<String>) -> (r: Self)
        ensures
            r.graphql_url matches Some(u) && u@ == spec_env_graphql_url(env@),
    {
        let default_config = SlippiConfig { graphql_url: env_graphql_url };
        default_config.merge(Self::read_file_config(env))
    }
}

/// The endpoint a build environment compiles in.
pub open spec fn spec_env_graphql_url(env: Seq<char>) -> Seq<char> {
    if env == ("production")@ {
        ("https://gql-gateway-dev-dot-slippi.uc.r.appspot.com/graphql")@
    } else {
        ("https://gql-gateway-dev-dot-slippi.uc.r.appspot.com/graphql")@
    }
}

} // verus!
