//! Decisions behind launching the context server: the environment derived
//! from the settings, whether the npm-distributed component needs an
//! install, and the command line itself.

use vstd::prelude::*;

verus! {

/// The context server's settings, as the host hands them over after
/// deserialization.
pub struct Settings {
    pub enable_production_credentials: bool,
}

/// The npm package that distributes the server component.
pub fn package_name() -> (r: &'static str)
    ensures
        r@ == "@azure/mcp"@,
{
    "@azure/mcp"
}

/// The view of a list of environment-variable pairs.
pub open spec fn pairs_view(v: Seq<(String, String)>) -> Seq<(Seq<char>, Seq<char>)> {
    v.map_values(|p: (String, String)| (p.0@, p.1@))
}

/// The environment the settings call for: the production-credentials
/// variable exactly when the setting enables it, nothing otherwise.
pub open spec fn env_for_settings_spec(s: Settings) -> Seq<(Seq<char>, Seq<char>)> {
    if s.enable_production_credentials {
        seq![("AZURE_MCP_PRODUCTION_CREDENTIALS"@, "true"@)]
    } else {
        Seq::empty()
    }
}

/// Assembles the environment variables the settings call for.
pub fn env_for_settings(s: &Settings) -> (r: Vec<(String, String)>)
    ensures
        pairs_view(r@) == env_for_settings_spec(*s),
{
    let mut r: Vec<(String, String)> = Vec::new();
    if s.enable_production_credentials {
        r.push(("AZURE_MCP_PRODUCTION_CREDENTIALS".to_owned(), "true".to_owned()));
    }
    proof {
        assert(pairs_view(r@) =~= env_for_settings_spec(*s));
    }
    r
}

/// Whether the npm-distributed component must be (re)installed: exactly
/// when no version is installed or the installed version differs from the
/// latest published one.
pub fn npm_install_needed(installed: &Option<String>, latest: &String) -> (r: bool)
    ensures
        r <==> match *installed {
            Some(v) => v@ != latest@,
            None => true,
        },
{
    match installed {
        Some(v) => !(*v == *latest),
        None => true,
    }
}

/// The command the host runs to start the context server: the resolved
/// artifact, fixed arguments, and the environment derived from the
/// settings.
pub struct ServerCommand {
    pub command: String,
    pub args: Vec<String>,
    pub env: Vec<(String, String)>,
}

/// The view of a list of argument strings.
pub open spec fn args_view(v: Seq<String>) -> Seq<Seq<char>> {
    v.map_values(|s: String| s@)
}

/// Assembles the start command for the resolved artifact: the artifact
/// path itself, the fixed `server start` arguments, and the given
/// environment, unchanged.
pub fn server_command(command: String, env: Vec<(String, String)>) -> (c: ServerCommand)
    ensures
        c.command@ == command@,
        args_view(c.args@) == seq!["server"@, "start"@],
        c.env == env,
{
    let mut args: Vec<String> = Vec::new();
    args.push("server".to_owned());
    args.push("start".to_owned());
    proof {
        assert(args_view(args@) =~= seq!["server"@, "start"@]);
    }
    ServerCommand { command, args, env }
}

} // verus!
