//! Configuration records consumed by the watch loop.
//!
//! `CommandConfig` describes the supervised command; `WatchConfig` describes
//! which filesystem changes warrant a restart. Both are built once by the
//! calling layer and stay immutable for the whole run.

use vstd::prelude::*;
use vstd::string::*;

verus! {

/// The command the supervisor spawns: program, arguments, optional working
/// directory, and environment overrides applied on top of the inherited
/// environment.
#[derive(Clone, Debug)]
pub struct CommandConfig {
    pub program: String,
    pub args: Vec<String>,
    pub cwd: Option<String>,
    pub env: Vec<(String, String)>,
}

/// What to watch and when a change counts: root paths (recursive), allowed
/// file extensions (no leading dot), ignore glob patterns, and the minimum
/// gap in milliseconds between two accepted restarts.
#[derive(Clone, Debug)]
pub struct WatchConfig {
    pub paths: Vec<String>,
    pub file_extensions: Vec<String>,
    pub ignore_patterns: Vec<String>,
    pub debounce_ms: u64,
}

/// A resolved pair of command and watch settings for one run.
#[derive(Clone, Debug)]
pub struct Config {
    pub command: CommandConfig,
    pub watch: WatchConfig,
}

/// What the watch daemon's server command must look like: current directory
/// as working directory, `NODE_ENV` and `PORT` injected, and the runtime
/// picked by the `bun` flag first, the project language second.
pub open spec fn spec_watch_server_command(
    language: Seq<char>,
    bun: bool,
    env: Seq<char>,
    port: Seq<char>,
    c: CommandConfig,
) -> bool {
    &&& c.cwd matches Some(d) && d@ == "."@
    &&& c.env@.len() == 2
    &&& c.env@[0].0@ == "NODE_ENV"@ && c.env@[0].1@ == env
    &&& c.env@[1].0@ == "PORT"@ && c.env@[1].1@ == port
    &&& if bun {
        &&& c.program@ == "bun"@
        &&& c.args@.len() == 2 && c.args@[0]@ == "run"@ && c.args@[1]@ == "./src/server.js"@
    } else if language == "ts"@ {
        &&& c.program@ == "ts-node"@
        &&& c.args@.len() == 1 && c.args@[0]@ == "./src/server.ts"@
    } else {
        &&& c.program@ == "node"@
        &&& c.args@.len() == 1 && c.args@[0]@ == "./src/server.js"@
    }
}

/// The command the watch daemon supervises: the Bun runtime when asked for,
/// otherwise `ts-node` for a TypeScript project and `node` for a JavaScript
/// one, with the environment and port handed to the server process.
pub fn watch_server_command(language: &str, bun: bool, env: &str, port: &str) -> (c: CommandConfig)
    ensures
        spec_watch_server_command(language@, bun, env@, port@, c),
{
    let mut args: Vec<String> = Vec::new();
    let program: String;
    if bun {
        program = String::from_str("bun");
        args.push(String::from_str("run"));
        args.push(String::from_str("./src/server.js"));
    } else if language.to_owned().eq(&String::from_str("ts")) {
        program = String::from_str("ts-node");
        args.push(String::from_str("./src/server.ts"));
    } else {
        program = String::from_str("node");
        args.push(String::from_str("./src/server.js"));
    }
    let mut env_pairs: Vec<(String, String)> = Vec::new();
    env_pairs.push((String::from_str("NODE_ENV"), env.to_owned()));
    env_pairs.push((String::from_str("PORT"), port.to_owned()));
    CommandConfig { program, args, cwd: Some(String::from_str(".")), env: env_pairs }
}

/// What the watch daemon's default watch settings must look like: the
/// project's source tree, the three source extensions, the stock ignore
/// list, and a half-second debounce window.
pub open spec fn spec_default_watch_config(w: WatchConfig) -> bool {
    &&& w.paths@.len() == 1 && w.paths@[0]@ == "./src"@
    &&& w.file_extensions@.len() == 3
    &&& w.file_extensions@[0]@ == "ts"@
    &&& w.file_extensions@[1]@ == "js"@
    &&& w.file_extensions@[2]@ == "json"@
    &&& w.ignore_patterns@.len() == 7
    &&& w.ignore_patterns@[0]@ == "**/node_modules/**"@
    &&& w.ignore_patterns@[1]@ == "**/.git/**"@
    &&& w.ignore_patterns@[2]@ == "**/.#*"@
    &&& w.ignore_patterns@[3]@ == "**/*~"@
    &&& w.ignore_patterns@[4]@ == "**/*.swp"@
    &&& w.ignore_patterns@[5]@ == "**/*.swx"@
    &&& w.ignore_patterns@[6]@ == "**/.DS_Store"@
    &&& w.debounce_ms == 500
}

/// The watch settings the daemon runs with: watch `./src` recursively for
/// TypeScript, JavaScript and JSON changes, ignore dependency, VCS and
/// editor-artifact paths, and debounce restarts by 500 ms.
pub fn default_watch_config() -> (w: WatchConfig)
    ensures
        spec_default_watch_config(w),
{
    let mut paths: Vec<String> = Vec::new();
    paths.push(String::from_str("./src"));
    let mut file_extensions: Vec<String> = Vec::new();
    file_extensions.push(String::from_str("ts"));
    file_extensions.push(String::from_str("js"));
    file_extensions.push(String::from_str("json"));
    let mut ignore_patterns: Vec<String> = Vec::new();
    ignore_patterns.push(String::from_str("**/node_modules/**"));
    ignore_patterns.push(String::from_str("**/.git/**"));
    ignore_patterns.push(String::from_str("**/.#*"));
    ignore_patterns.push(String::from_str("**/*~"));
    ignore_patterns.push(String::from_str("**/*.swp"));
    ignore_patterns.push(String::from_str("**/*.swx"));
    ignore_patterns.push(String::from_str("**/.DS_Store"));
    WatchConfig { paths, file_extensions, ignore_patterns, debounce_ms: 500 }
}

impl CommandConfig {
    /// A command with the given program and no arguments, working directory
    /// or environment overrides.
    pub fn new(program: &str) -> (c: Self)
        ensures
            c.program@ == program@,
            c.args@.len() == 0,
            c.cwd is None,
            c.env@.len() == 0,
    {
        CommandConfig {
            program: program.to_owned(),
            args: Vec::new(),
            cwd: None,
            env: Vec::new(),
        }
    }
}

} // verus!
