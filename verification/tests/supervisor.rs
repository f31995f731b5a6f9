use backend_supervisor::launcher::{launch_command, ProcessHandle};
use backend_supervisor::registry::ProcessRegistry;
use backend_supervisor::resolver::{resolve, DeploymentMode, PathError};
use backend_supervisor::shutdown::on_window_event;

fn components(parts: &[&str]) -> Vec<String> {
    parts.iter().map(|p| p.to_string()).collect()
}

#[test]
fn dev_resolution_matches_project_layout() {
    let exe = components(&["repo", "target", "debug", "app"]);
    let path = resolve(DeploymentMode::Development, &exe).unwrap();
    assert_eq!(path.segments, components(&["repo", "server", "app.cjs"]));
    assert_eq!(path.to_path_string(), "/repo/server/app.cjs");
}

#[test]
fn dev_resolution_keeps_deep_roots() {
    let exe = components(&["home", "dev", "proj", "target", "debug", "shell"]);
    let path = resolve(DeploymentMode::Development, &exe).unwrap();
    assert_eq!(path.to_path_string(), "/home/dev/proj/server/app.cjs");
}

#[test]
fn prod_resolution_matches_bundle_layout() {
    let exe = components(&["Applications", "App.app", "Contents", "MacOS", "app"]);
    let path = resolve(DeploymentMode::Production, &exe).unwrap();
    assert_eq!(
        path.to_path_string(),
        "/Applications/App.app/Contents/Resources/server/app.cjs"
    );
}

#[test]
fn dev_resolution_at_minimum_depth_roots_at_filesystem_root() {
    let exe = components(&["target", "debug", "app"]);
    let path = resolve(DeploymentMode::Development, &exe).unwrap();
    assert_eq!(path.to_path_string(), "/server/app.cjs");
}

#[test]
fn prod_resolution_at_minimum_depth_roots_at_filesystem_root() {
    let exe = components(&["MacOS", "app"]);
    let path = resolve(DeploymentMode::Production, &exe).unwrap();
    assert_eq!(path.to_path_string(), "/Resources/server/app.cjs");
}

#[test]
fn dev_resolution_too_shallow_is_unresolvable() {
    let exe = components(&["debug", "app"]);
    let result = resolve(DeploymentMode::Development, &exe);
    assert!(matches!(result, Err(PathError::Unresolvable)));
}

#[test]
fn prod_resolution_too_shallow_is_unresolvable() {
    let exe = components(&["app"]);
    let result = resolve(DeploymentMode::Production, &exe);
    assert!(matches!(result, Err(PathError::Unresolvable)));
}

#[test]
fn empty_executable_path_is_unresolvable_in_both_modes() {
    let exe: Vec<String> = Vec::new();
    assert!(matches!(
        resolve(DeploymentMode::Development, &exe),
        Err(PathError::Unresolvable)
    ));
    assert!(matches!(
        resolve(DeploymentMode::Production, &exe),
        Err(PathError::Unresolvable)
    ));
}

#[test]
fn launch_command_names_interpreter_and_rendered_path() {
    let exe = components(&["repo", "target", "debug", "app"]);
    let path = resolve(DeploymentMode::Development, &exe).unwrap();
    let cmd = launch_command(&path);
    assert_eq!(cmd.program, "node");
    assert_eq!(cmd.entry_arg, "/repo/server/app.cjs");
}

#[test]
fn fresh_registry_is_empty() {
    let mut registry: ProcessRegistry<ProcessHandle> = ProcessRegistry::new();
    assert!(registry.take().is_none());
}

#[test]
fn take_returns_stored_handle_exactly_once() {
    let mut registry: ProcessRegistry<ProcessHandle> = ProcessRegistry::new();
    registry.store(Some(ProcessHandle { pid: 4171 }));
    let first = registry.take();
    assert_eq!(first.map(|h| h.pid), Some(4171));
    assert!(registry.take().is_none());
    assert!(registry.take().is_none());
}

#[test]
fn take_after_storing_absence_returns_nothing() {
    let mut registry: ProcessRegistry<ProcessHandle> = ProcessRegistry::new();
    registry.store(None);
    assert!(registry.take().is_none());
    assert!(registry.take().is_none());
}

#[test]
fn shutdown_ignores_events_other_than_destroy() {
    let mut registry: ProcessRegistry<ProcessHandle> = ProcessRegistry::new();
    registry.store(Some(ProcessHandle { pid: 9 }));
    assert!(on_window_event(&mut registry, false).is_none());
    let taken = on_window_event(&mut registry, true);
    assert_eq!(taken.map(|h| h.pid), Some(9));
}

#[test]
fn failed_launch_makes_shutdown_a_noop() {
    let mut registry: ProcessRegistry<ProcessHandle> = ProcessRegistry::new();
    registry.store(None);
    assert!(on_window_event(&mut registry, true).is_none());
}

#[test]
fn duplicate_destroy_event_terminates_at_most_once() {
    let mut registry: ProcessRegistry<ProcessHandle> = ProcessRegistry::new();
    registry.store(Some(ProcessHandle { pid: 77 }));
    let mut terminate_signals: usize = 0;
    if on_window_event(&mut registry, true).is_some() {
        terminate_signals += 1;
    }
    if on_window_event(&mut registry, true).is_some() {
        terminate_signals += 1;
    }
    assert_eq!(terminate_signals, 1);
}
