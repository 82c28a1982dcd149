//! The plugin manifest that the binary prints when asked with `--manifest`.

use vstd::prelude::*;

use crate::strings::owned;

verus! {

/// `arg` asks for the manifest.
pub open spec fn is_manifest_flag(arg: Seq<char>) -> bool {
    arg == "--manifest"@ || arg == "-m"@
}

/// Whether the command line asks for the manifest: some argument after the
/// program name is `--manifest` or `-m`.
pub fn manifest_requested(args: &Vec<String>) -> (r: bool)
    ensures
        r == exists|i: int| 1 <= i < args@.len() && is_manifest_flag(#[trigger] args@[i]@),
{
    let long = owned("--manifest");
    let short = owned("-m");
    let n: usize = args.len();
    let mut i: usize = 1;
    while i < n
        invariant
            1 <= i,
            n == args@.len(),
            long@ == "--manifest"@,
            short@ == "-m"@,
            forall|j: int| 1 <= j < i && j < n ==> !is_manifest_flag(#[trigger] args@[j]@),
        decreases n - i,
    {
        if args[i] == long || args[i] == short {
            assert(is_manifest_flag(args@[i as int]@));
            return true;
        }
        i = i + 1;
    }
    false
}

/// The capabilities a transport backend plugin declares.
pub open spec fn transport_capabilities() -> Seq<Seq<char>> {
    seq!["transport/start"@, "transport/shutdown"@, "transport/schema"@, "health/check"@]
}

/// The manifest of the plugin.
pub struct PluginManifest {
    pub name: String,
    pub version: String,
    pub plugin_kind: String,
    pub description: String,
    pub protocol_version: String,
    pub capabilities: Vec<String>,
    /// Environment variables the plugin requires.
    pub env_required: Vec<String>,
}

/// The manifest of a `transport_backend` plugin with the given package
/// name, version and description, speaking `protocol_version`: it declares
/// the transport capabilities and requires no environment variables.
pub fn plugin_manifest(
    name: String,
    version: String,
    description: String,
    protocol_version: String,
) -> (r: PluginManifest)
    ensures
        r.name@ == name@,
        r.version@ == version@,
        r.plugin_kind@ == "transport_backend"@,
        r.description@ == description@,
        r.protocol_version@ == protocol_version@,
        r.capabilities@.map_values(|c: String| c@) == transport_capabilities(),
        r.env_required@.len() == 0,
{
    let mut capabilities: Vec<String> = Vec::new();
    capabilities.push(owned("transport/start"));
    capabilities.push(owned("transport/shutdown"));
    capabilities.push(owned("transport/schema"));
    capabilities.push(owned("health/check"));
    assert(capabilities@.map_values(|c: String| c@) =~= transport_capabilities());
    PluginManifest {
        name,
        version,
        plugin_kind: owned("transport_backend"),
        description,
        protocol_version,
        capabilities,
        env_required: Vec::new(),
    }
}

} // verus!
