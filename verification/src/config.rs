use vstd::prelude::*;

use crate::strings::{opt_view, owned};
use vstd::string::{StrSliceExecFns, StringSliceAdditionalSpecFns};

verus! {

/// The address the server binds to when nothing else is configured.
pub open spec fn default_bind() -> Seq<char> {
    "127.0.0.1:8081"@
}

/// The control socket path used by `GraphqlConfig::default`, as bytes.
pub open spec fn default_control_socket_path() -> Seq<u8> {
    "/tmp/animus.sock".spec_bytes()
}

/// `s` is one of the spellings of `false` that ignore ASCII case.
pub open spec fn is_false_word(s: Seq<char>) -> bool {
    &&& s.len() == 5
    &&& (s[0] == 'f' || s[0] == 'F')
    &&& (s[1] == 'a' || s[1] == 'A')
    &&& (s[2] == 'l' || s[2] == 'L')
    &&& (s[3] == 's' || s[3] == 'S')
    &&& (s[4] == 'e' || s[4] == 'E')
}

/// What a value of `ANIMUS_GRAPHQL_PLAYGROUND` says: the playground is on
/// unless the value is `0` or `false` in any ASCII case.
pub open spec fn playground_flag_spec(s: Seq<char>) -> bool {
    !(s == seq!['0'] || is_false_word(s))
}

/// Runtime config for the GraphQL transport backend.
#[derive(Clone, Debug)]
pub struct GraphqlConfig {
    /// `host:port` to bind the server to.
    pub bind: String,
    /// Path to the daemon's control socket (unix) or pipe (windows), as the
    /// bytes of the platform's path.
    pub control_socket_path: Vec<u8>,
    /// Optional bearer token required on `/graphql` requests.
    pub auth_token: Option<String>,
    /// Enable the interactive GraphQL Playground on GET `/graphql`.
    pub playground_enabled: bool,
}

/// Why a configuration could not be assembled.
pub enum ConfigError {
    /// `ANIMUS_CONTROL_SOCKET` was not set.
    MissingControlSocket,
}

impl ConfigError {
    /// The text the error is reported with.
    pub fn message(&self) -> (r: String)
        ensures
            r@ == "ANIMUS_CONTROL_SOCKET env var is required"@,
    {
        owned("ANIMUS_CONTROL_SOCKET env var is required")
    }
}

/// The playground is enabled unless configured otherwise.
pub fn default_playground_enabled() -> (r: bool)
    ensures
        r,
{
    true
}

/// Decides whether a value of `ANIMUS_GRAPHQL_PLAYGROUND` enables the playground.
pub fn playground_flag(value: &str) -> (r: bool)
    ensures
        r == playground_flag_spec(value@),
{
    let n: usize = value.unicode_len();
    if n == 1 {
        let c: char = value.get_char(0);
        proof {
            if c == '0' {
                assert(value@ =~= seq!['0']);
            }
        }
        c != '0'
    } else if n == 5 {
        let c0: char = value.get_char(0);
        let c1: char = value.get_char(1);
        let c2: char = value.get_char(2);
        let c3: char = value.get_char(3);
        let c4: char = value.get_char(4);
        !((c0 == 'f' || c0 == 'F') && (c1 == 'a' || c1 == 'A') && (c2 == 'l' || c2 == 'L')
            && (c3 == 's' || c3 == 'S') && (c4 == 'e' || c4 == 'E'))
    } else {
        true
    }
}

impl Default for GraphqlConfig {
    /// The defaults used for standalone runs and tests.
    fn default() -> (r: GraphqlConfig)
        ensures
            r.bind@ == default_bind(),
            r.control_socket_path@ == default_control_socket_path(),
            r.auth_token is None,
            r.playground_enabled,
    {
        GraphqlConfig {
            bind: owned("127.0.0.1:8081"),
            control_socket_path: "/tmp/animus.sock".as_bytes_vec(),
            auth_token: None,
            playground_enabled: true,
        }
    }
}

impl GraphqlConfig {
    /// Assembles the configuration from the values of the environment
    /// variables `ANIMUS_TRANSPORT_BIND`, `ANIMUS_CONTROL_SOCKET` (as the
    /// bytes of its path), `ANIMUS_TRANSPORT_AUTH_TOKEN` and
    /// `ANIMUS_GRAPHQL_PLAYGROUND` (`None` where a variable is unset).
    pub fn from_env(
        bind: Option<String>,
        control_socket: Option<Vec<u8>>,
        auth_token: Option<String>,
        playground: Option<String>,
    ) -> (r: Result<GraphqlConfig, ConfigError>)
        ensures
            r is Err <==> control_socket is None,
            r matches Ok(cfg) ==> {
                &&& cfg.bind@ == (match bind {
                    Some(b) => b@,
                    None => default_bind(),
                })
                &&& cfg.control_socket_path@ == control_socket->Some_0@
                &&& opt_view(cfg.auth_token) == opt_view(auth_token)
                &&& cfg.playground_enabled == (match playground {
                    Some(p) => playground_flag_spec(p@),
                    None => true,
                })
            },
    {
        let bind = match bind {
            Some(b) => b,
            None => owned("127.0.0.1:8081"),
        };
        let control_socket_path = match control_socket {
            Some(p) => p,
            None => return Err(ConfigError::MissingControlSocket),
        };
        let playground_enabled = match &playground {
            Some(p) => playground_flag(p.as_str()),
            None => true,
        };
        Ok(GraphqlConfig { bind, control_socket_path, auth_token, playground_enabled })
    }

    /// The configuration a transport start request asks for: the requested
    /// bind address (or the default one), the daemon's control socket, the
    /// requested token, and the playground enabled.
    pub fn for_transport_start(
        bind: Option<String>,
        control_socket_path: Vec<u8>,
        auth_token: Option<String>,
    ) -> (r: GraphqlConfig)
        ensures
            r.bind@ == (match bind {
                Some(b) => b@,
                None => default_bind(),
            }),
            r.control_socket_path@ == control_socket_path@,
            opt_view(r.auth_token) == opt_view(auth_token),
            r.playground_enabled,
    {
        let bind = match bind {
            Some(b) => b,
            None => owned("127.0.0.1:8081"),
        };
        GraphqlConfig { bind, control_socket_path, auth_token, playground_enabled: true }
    }
}

} // verus!
