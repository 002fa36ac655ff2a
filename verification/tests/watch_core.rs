use dolph_cli::config::{
    default_watch_config, watch_server_command, CommandConfig, Config, WatchConfig,
};
use dolph_cli::debounce::RestartClock;
use dolph_cli::filter::{should_restart_for_event, EventKind, FsEvent};
use dolph_cli::orchestrator::{LoopAction, LoopInput, Orchestrator};
use dolph_cli::path_match::{extension_of, should_ignore};
use dolph_cli::supervisor::ServerProcess;

fn s(text: &str) -> String {
    String::from(text)
}

fn watch_config() -> WatchConfig {
    WatchConfig {
        paths: vec![s("./src")],
        file_extensions: vec![s("ts"), s("js"), s("json")],
        ignore_patterns: vec![s("**/node_modules/**"), s("**/.git/**"), s("**/*~")],
        debounce_ms: 500,
    }
}

fn config() -> Config {
    Config {
        command: CommandConfig {
            program: s("node"),
            args: vec![s("./src/server.js")],
            cwd: Some(s(".")),
            env: vec![(s("NODE_ENV"), s("development")), (s("PORT"), s("8080"))],
        },
        watch: watch_config(),
    }
}

fn modify_event(path: &str) -> FsEvent {
    FsEvent {
        kind: EventKind::Modify,
        paths: vec![s(path)],
    }
}

#[test]
fn ignore_list_matches_nested_node_modules() {
    let patterns = vec![s("**/node_modules/**")];
    assert!(should_ignore("project/node_modules/pkg/index.js", &patterns));
    assert!(!should_ignore("project/src/app.ts", &patterns));
}

#[test]
fn unparsable_pattern_never_matches() {
    let patterns = vec![s("["), s("**/*~")];
    assert!(!should_ignore("src/app.ts", &patterns));
    assert!(should_ignore("src/app.ts~", &patterns));
}

#[test]
fn empty_ignore_list_matches_nothing() {
    assert!(!should_ignore("src/app.ts", &Vec::new()));
}

#[test]
fn extension_of_plain_file() {
    assert_eq!(extension_of("src/app.ts"), Some(s("ts")));
    assert_eq!(extension_of("archive.tar.gz"), Some(s("gz")));
}

#[test]
fn extension_of_file_without_extension() {
    assert_eq!(extension_of("Makefile"), None);
    assert_eq!(extension_of("dir.d/file"), None);
}

#[test]
fn extension_of_hidden_and_trailing_dot_files() {
    assert_eq!(extension_of(".gitignore"), None);
    assert_eq!(extension_of("src/.env.local"), Some(s("local")));
    assert_eq!(extension_of("foo."), Some(s("")));
}

#[test]
fn qualifying_modify_event_restarts() {
    let cfg = watch_config();
    assert!(should_restart_for_event(&modify_event("src/app.ts"), &cfg));
}

#[test]
fn create_event_qualifies_too() {
    let cfg = watch_config();
    let event = FsEvent {
        kind: EventKind::Create,
        paths: vec![s("src/fresh.json")],
    };
    assert!(should_restart_for_event(&event, &cfg));
}

#[test]
fn non_create_modify_kinds_never_qualify() {
    let cfg = watch_config();
    for kind in [
        EventKind::Remove,
        EventKind::Rename,
        EventKind::Metadata,
        EventKind::Unknown,
    ] {
        let event = FsEvent {
            kind,
            paths: vec![s("src/app.ts")],
        };
        assert!(!should_restart_for_event(&event, &cfg));
    }
}

#[test]
fn ignored_path_never_qualifies_despite_allowed_extension() {
    let cfg = watch_config();
    let event = modify_event("project/node_modules/pkg/index.js");
    assert!(!should_restart_for_event(&event, &cfg));
}

#[test]
fn path_without_extension_never_qualifies() {
    let cfg = watch_config();
    assert!(!should_restart_for_event(&modify_event("src/Makefile"), &cfg));
}

#[test]
fn disallowed_extension_never_qualifies() {
    let cfg = watch_config();
    assert!(!should_restart_for_event(&modify_event("src/notes.txt"), &cfg));
}

#[test]
fn one_qualifying_path_among_many_is_enough() {
    let cfg = watch_config();
    let event = FsEvent {
        kind: EventKind::Modify,
        paths: vec![s("project/node_modules/pkg/index.js"), s("src/app.ts")],
    };
    assert!(should_restart_for_event(&event, &cfg));
}

#[test]
fn event_with_no_paths_does_not_qualify() {
    let cfg = watch_config();
    let event = FsEvent {
        kind: EventKind::Modify,
        paths: Vec::new(),
    };
    assert!(!should_restart_for_event(&event, &cfg));
}

#[test]
fn debouncer_accepts_first_then_enforces_gap() {
    let mut clock = RestartClock::new();
    assert!(clock.accept(0, 500));
    assert!(!clock.accept(200, 500));
    assert!(!clock.accept(499, 500));
    assert!(clock.accept(500, 500));
    assert!(!clock.accept(999, 500));
}

#[test]
fn debouncer_with_zero_window_always_accepts() {
    let mut clock = RestartClock::new();
    assert!(clock.accept(5, 0));
    assert!(clock.accept(5, 0));
    assert!(clock.accept(6, 0));
}

#[test]
fn debouncer_accepts_at_most_once_per_window() {
    let mut clock = RestartClock::new();
    let mut accepted = 0;
    for t in [0u64, 100, 200, 300, 499] {
        if clock.accept(t, 500) {
            accepted += 1;
        }
    }
    assert_eq!(accepted, 1);
}

#[test]
fn supervisor_tracks_at_most_one_child() {
    let mut server = ServerProcess::new();
    assert_eq!(server.current_child(), None);
    server.record_spawn(Some(1));
    assert_eq!(server.current_child(), Some(1));
    let handed_out = server.stop();
    assert_eq!(handed_out, Some(1));
    assert_eq!(server.current_child(), None);
    assert_eq!(server.stop(), None);
}

#[test]
fn supervisor_failed_spawn_leaves_no_child() {
    let mut server = ServerProcess::new();
    server.record_spawn(None);
    assert_eq!(server.current_child(), None);
}

#[test]
fn scenario_two_edits_inside_window_restart_once() {
    // debounce_ms = 500; qualifying edits of app.ts at t=0 and t=200:
    // exactly one restart, triggered by the first edit.
    let mut orch = Orchestrator::new(config());
    orch.record_spawn(Some(1));

    let act = orch.poll(true, &LoopInput::Event(modify_event("src/app.ts")), 0);
    assert!(matches!(act, LoopAction::Restart { stop_first: Some(1) }));
    orch.record_spawn(Some(2));

    let act = orch.poll(true, &LoopInput::Event(modify_event("src/app.ts")), 200);
    assert!(matches!(act, LoopAction::Continue));
    assert_eq!(orch.current_child(), Some(2));
}

#[test]
fn scenario_ignored_dependency_edit_never_restarts() {
    let mut orch = Orchestrator::new(config());
    orch.record_spawn(Some(1));
    let event = modify_event("project/node_modules/pkg/index.js");
    let act = orch.poll(true, &LoopInput::Event(event), 0);
    assert!(matches!(act, LoopAction::Continue));
    assert_eq!(orch.current_child(), Some(1));
}

#[test]
fn scenario_failed_spawn_is_not_fatal() {
    // The initial spawn fails (nonexistent program): no child is tracked,
    // nothing panics, and the loop keeps processing events; the next
    // qualifying event retries a fresh start.
    let mut orch = Orchestrator::new(config());
    orch.record_spawn(None);
    assert_eq!(orch.current_child(), None);

    let act = orch.poll(true, &LoopInput::Timeout, 100);
    assert!(matches!(act, LoopAction::Continue));

    let act = orch.poll(true, &LoopInput::Event(modify_event("src/app.ts")), 600);
    assert!(matches!(act, LoopAction::Restart { stop_first: None }));
    orch.record_spawn(Some(2));
    assert_eq!(orch.current_child(), Some(2));
}

#[test]
fn scenario_shutdown_stops_child_and_exits() {
    // Once the run flag is low the next poll hands the tracked child out
    // for its final stop and the machine is terminal; no restart follows.
    let mut orch = Orchestrator::new(config());
    orch.record_spawn(Some(1));

    let act = orch.poll(false, &LoopInput::Timeout, 50);
    assert!(matches!(act, LoopAction::Shutdown { stop: Some(1) }));
    assert!(orch.is_stopped());
    assert_eq!(orch.current_child(), None);
}

#[test]
fn source_errors_are_absorbed() {
    let mut orch = Orchestrator::new(config());
    orch.record_spawn(Some(1));
    let act = orch.poll(true, &LoopInput::SourceError, 10);
    assert!(matches!(act, LoopAction::Continue));
    assert_eq!(orch.current_child(), Some(1));
}

#[test]
fn watch_server_command_picks_runtime() {
    let c = watch_server_command("ts", false, "development", "8080");
    assert_eq!(c.program, s("ts-node"));
    assert_eq!(c.args, vec![s("./src/server.ts")]);
    assert_eq!(c.cwd, Some(s(".")));
    assert_eq!(
        c.env,
        vec![(s("NODE_ENV"), s("development")), (s("PORT"), s("8080"))]
    );

    let c = watch_server_command("js", false, "development", "8080");
    assert_eq!(c.program, s("node"));
    assert_eq!(c.args, vec![s("./src/server.js")]);

    let c = watch_server_command("ts", true, "production", "3000");
    assert_eq!(c.program, s("bun"));
    assert_eq!(c.args, vec![s("run"), s("./src/server.js")]);
    assert_eq!(c.env[0].1, s("production"));
    assert_eq!(c.env[1].1, s("3000"));
}

#[test]
fn default_watch_config_has_stock_settings() {
    let w = default_watch_config();
    assert_eq!(w.paths, vec![s("./src")]);
    assert_eq!(w.file_extensions, vec![s("ts"), s("js"), s("json")]);
    assert_eq!(w.debounce_ms, 500);
    assert_eq!(w.ignore_patterns.len(), 7);
    assert_eq!(w.ignore_patterns[0], s("**/node_modules/**"));
    assert_eq!(w.ignore_patterns[6], s("**/.DS_Store"));
}

#[test]
fn command_config_new_is_bare() {
    let c = CommandConfig::new("ts-node");
    assert_eq!(c.program, s("ts-node"));
    assert!(c.args.is_empty());
    assert!(c.cwd.is_none());
    assert!(c.env.is_empty());
}
