use clovis_shell::launch::BackendCommand;
use clovis_shell::platform::{
    BuildProfile, Platform, CREATE_NO_WINDOW, DEVELOPMENT_PORT, EXECUTABLE_MODE, RESOURCE_FOLDER,
    SERVER_SCRIPT,
};

#[test]
fn constants_have_their_values() {
    assert_eq!(CREATE_NO_WINDOW, 0x0800_0000);
    assert_eq!(CREATE_NO_WINDOW, 134_217_728);
    assert_eq!(EXECUTABLE_MODE, 0o755);
    assert_eq!(EXECUTABLE_MODE, 493);
    assert_eq!(DEVELOPMENT_PORT, 3000);
    assert_eq!(RESOURCE_FOLDER, "resources");
    assert_eq!(SERVER_SCRIPT, "index.js");
}

#[test]
fn windows_hides_the_console_and_sets_no_mode() {
    let caps = Platform::Windows.capabilities();
    assert_eq!(caps.executable_name, "node.exe");
    assert_eq!(caps.creation_flags, Some(0x0800_0000));
    assert_eq!(caps.executable_mode, None);
}

#[test]
fn unix_sets_the_mode_and_has_no_flags() {
    let caps = Platform::Unix.capabilities();
    assert_eq!(caps.executable_name, "node");
    assert_eq!(caps.creation_flags, None);
    assert_eq!(caps.executable_mode, Some(0o755));
}

#[test]
fn debug_profile_uses_the_development_port() {
    assert_eq!(BuildProfile::Debug.port_choice(), Some(3000));
    assert!(!BuildProfile::Debug.starts_backend());
}

#[test]
fn release_profile_reserves_a_port_and_starts_the_backend() {
    assert_eq!(BuildProfile::Release.port_choice(), None);
    assert!(BuildProfile::Release.starts_backend());
}

#[test]
fn command_runs_program_on_script_with_port_in_environment() {
    let command = BackendCommand::new(
        String::from("/opt/clovis/resources/node"),
        String::from("/opt/clovis/resources/index.js"),
        53211,
        Platform::Unix,
    );
    assert_eq!(command.program, "/opt/clovis/resources/node");
    assert_eq!(command.script, "/opt/clovis/resources/index.js");
    assert_eq!(command.variable, "CLOVIS_BACKEND_PORT");
    assert_eq!(command.value, "53211");
    assert_eq!(command.creation_flags, None);
}

#[test]
fn command_on_windows_carries_the_creation_flag() {
    let command = BackendCommand::new("node.exe", "index.js", 8080, Platform::Windows);
    assert_eq!(command.program, "node.exe");
    assert_eq!(command.script, "index.js");
    assert_eq!(command.variable, "CLOVIS_BACKEND_PORT");
    assert_eq!(command.value, "8080");
    assert_eq!(command.creation_flags, Some(CREATE_NO_WINDOW));
}

#[test]
fn command_carries_paths_of_any_type() {
    let command = BackendCommand::new(vec![1u8, 2], vec![3u8], 1, Platform::Unix);
    assert_eq!(command.program, vec![1u8, 2]);
    assert_eq!(command.script, vec![3u8]);
    assert_eq!(command.value, "1");
}
