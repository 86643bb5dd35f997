use limux::pty::{
    choose_default_shell, exec_plan, pty_poll_start, pty_read_step, syscall_count, PollStart,
    PtyRead, ReadStep, PTY_READ_BUF_LEN,
};

#[test]
fn shell_preference_order() {
    assert_eq!(choose_default_shell(Some("/bin/zsh".into()), Some("/bin/bash".into())), "/bin/zsh");
    assert_eq!(choose_default_shell(Some("".into()), Some("/bin/bash".into())), "/bin/bash");
    assert_eq!(choose_default_shell(None, Some("/bin/fish".into())), "/bin/fish");
    assert_eq!(choose_default_shell(None, Some("".into())), "/bin/sh");
    assert_eq!(choose_default_shell(None, None), "/bin/sh");
}

#[test]
fn exec_plan_runs_a_login_shell() {
    let p = exec_plan("/bin/zsh", Some("/home/u"));
    assert_eq!(p.program, "/bin/zsh");
    assert_eq!(p.args, vec!["/bin/zsh".to_string(), "-l".to_string()]);
    assert_eq!(
        p.env,
        vec![
            ("TERM".to_string(), "xterm-256color".to_string()),
            ("COLORTERM".to_string(), "truecolor".to_string())
        ]
    );
    assert_eq!(p.working_dir, Some("/home/u".to_string()));
}

#[test]
fn nul_bytes_fall_back() {
    let p = exec_plan("/bin/z\0sh", Some("/ho\0me"));
    assert_eq!(p.program, "/bin/sh");
    assert_eq!(p.args[0], "/bin/sh");
    assert_eq!(p.working_dir, None);
    assert_eq!(exec_plan("sh", None).working_dir, None);
}

#[test]
fn syscall_results() {
    assert_eq!(syscall_count(-1), None);
    assert_eq!(syscall_count(0), Some(0));
    assert_eq!(syscall_count(42), Some(42));
}

#[test]
fn poll_decisions() {
    assert_eq!(pty_poll_start(true, true), PollStart::Closed);
    assert_eq!(pty_poll_start(false, false), PollStart::NoPty);
    assert_eq!(pty_poll_start(false, true), PollStart::Read);
    assert_eq!(pty_read_step(PtyRead::Bytes(0)), ReadStep::Refresh);
    assert_eq!(pty_read_step(PtyRead::Bytes(PTY_READ_BUF_LEN)), ReadStep::Feed(PTY_READ_BUF_LEN));
    assert_eq!(pty_read_step(PtyRead::WouldBlock), ReadStep::Refresh);
    assert_eq!(pty_read_step(PtyRead::Failed), ReadStep::Stop);
}
