use mux_os::{
    choose_child_program, exit_watch_step, kill_and_wait, ChildProgram, ChildStatus, ExitAction,
    SpawnError,
};

#[test]
fn editor_is_preferred_over_visual() {
    let r = choose_child_program(
        Some(b"notes.txt".to_vec()),
        Some(b"/usr/bin/vim".to_vec()),
        Some(b"/usr/bin/emacs".to_vec()),
        Some(b"/bin/sh".to_vec()),
    );
    assert_eq!(
        r,
        Ok(ChildProgram::Editor {
            program: b"/usr/bin/vim".to_vec(),
            file: b"notes.txt".to_vec(),
        })
    );
}

#[test]
fn visual_is_the_fallback_editor() {
    let r = choose_child_program(
        Some(b"notes.txt".to_vec()),
        None,
        Some(b"/usr/bin/emacs".to_vec()),
        None,
    );
    assert_eq!(
        r,
        Ok(ChildProgram::Editor {
            program: b"/usr/bin/emacs".to_vec(),
            file: b"notes.txt".to_vec(),
        })
    );
}

#[test]
fn no_editor_fails_before_any_child_exists() {
    // A file to open with neither EDITOR nor VISUAL set fails even though a
    // shell is configured; the caller never reaches a fork.
    let r = choose_child_program(Some(b"notes.txt".to_vec()), None, None, Some(b"/bin/sh".to_vec()));
    assert_eq!(r, Err(SpawnError::NoEditor));
}

#[test]
fn shell_is_chosen_without_a_file() {
    let r = choose_child_program(None, Some(b"/usr/bin/vim".to_vec()), None, Some(b"/bin/zsh".to_vec()));
    assert_eq!(r, Ok(ChildProgram::Shell { program: b"/bin/zsh".to_vec() }));
}

#[test]
fn missing_shell_fails() {
    let r = choose_child_program(None, Some(b"/usr/bin/vim".to_vec()), None, None);
    assert_eq!(r, Err(SpawnError::NoShell));
}

#[test]
fn exit_watch_stops_on_exit() {
    assert_eq!(exit_watch_step(ChildStatus::Exited, false), ExitAction::Stop);
    assert_eq!(exit_watch_step(ChildStatus::Exited, true), ExitAction::Stop);
}

#[test]
fn exit_watch_kills_on_interrupt() {
    assert_eq!(
        exit_watch_step(ChildStatus::Running, true),
        ExitAction::KillChildThenStop
    );
}

#[test]
fn exit_watch_polls_while_running() {
    assert_eq!(
        exit_watch_step(ChildStatus::Running, false),
        ExitAction::SleepThenPoll
    );
}

#[test]
fn kill_of_missing_process_is_an_error() {
    // No process of this id exists, so the interrupt cannot be delivered and
    // the OS error is surfaced instead of being swallowed.
    let r = kill_and_wait(1_999_999_999);
    assert!(r.is_err());
}
