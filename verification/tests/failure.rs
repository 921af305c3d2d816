use clovis_shell::failure::{Disposition, Failure};

#[test]
fn startup_failures_abort() {
    assert_eq!(Failure::PortBind.disposition(), Disposition::AbortStartup);
    assert_eq!(Failure::PortReadback.disposition(), Disposition::AbortStartup);
    assert_eq!(Failure::ResourceDirectory.disposition(), Disposition::AbortStartup);
    assert_eq!(Failure::ExecutablePermissions.disposition(), Disposition::AbortStartup);
    assert_eq!(Failure::BackendSpawn.disposition(), Disposition::AbortStartup);
}

#[test]
fn teardown_failures_are_dropped() {
    assert_eq!(Failure::BackendKill.disposition(), Disposition::Discard);
    assert_eq!(Failure::BackendWait.disposition(), Disposition::Discard);
}

#[test]
fn reservation_failures_have_their_own_words() {
    assert_eq!(Failure::PortBind.message(), Some("failed to reserve backend port"));
    assert_eq!(
        Failure::PortReadback.message(),
        Some("failed to read reserved backend port")
    );
}

#[test]
fn setup_failures_share_the_words_of_a_failed_launch() {
    let words = Some("error while running tauri application");
    assert_eq!(Failure::ResourceDirectory.message(), words);
    assert_eq!(Failure::ExecutablePermissions.message(), words);
    assert_eq!(Failure::BackendSpawn.message(), words);
}

#[test]
fn dropped_failures_have_no_words() {
    assert_eq!(Failure::BackendKill.message(), None);
    assert_eq!(Failure::BackendWait.message(), None);
}

#[test]
fn words_exist_exactly_for_fatal_failures() {
    let all = [
        Failure::PortBind,
        Failure::PortReadback,
        Failure::ResourceDirectory,
        Failure::ExecutablePermissions,
        Failure::BackendSpawn,
        Failure::BackendKill,
        Failure::BackendWait,
    ];
    for failure in all {
        assert_eq!(
            failure.message().is_some(),
            failure.disposition() == Disposition::AbortStartup
        );
    }
}
