//! PTY decisions: which shell runs and how it is started, what a system
//! call's return value means, and how the host drains the PTY.

use vstd::prelude::*;

use crate::strings::{is_infix_of, str_contains};

verus! {

// -------------------------------------------------------------------
// The shell
// -------------------------------------------------------------------

/// The user's shell: `$SHELL` where it is set and not empty, else the shell
/// of the user's password entry where it is readable and not empty, else
/// `/bin/sh`. `env_shell` is `None` where `$SHELL` is unset or not Unicode,
/// `passwd_shell` where there is no entry or its shell is not UTF-8.
pub fn choose_default_shell(env_shell: Option<String>, passwd_shell: Option<String>) -> (shell:
    String)
    ensures
        shell@ == (if env_shell matches Some(s) && s@.len() > 0 {
            env_shell->0@
        } else if passwd_shell matches Some(s) && s@.len() > 0 {
            passwd_shell->0@
        } else {
            "/bin/sh"@
        }),
        shell@.len() > 0,
{
    proof {
        reveal_strlit("/bin/sh");
    }
    if let Some(s) = env_shell {
        if s.as_str().unicode_len() > 0 {
            return s;
        }
    }
    if let Some(s) = passwd_shell {
        if s.as_str().unicode_len() > 0 {
            return s;
        }
    }
    String::from_str("/bin/sh")
}

/// `s` holds a NUL character, so that it cannot become a C string.
pub open spec fn has_nul(s: Seq<char>) -> bool {
    exists|i: int| 0 <= i < s.len() && s[i] == '\0'
}

fn contains_nul(s: &str) -> (b: bool)
    ensures
        b == has_nul(s@),
{
    let b = str_contains(s, "\0");
    proof {
        reveal_strlit("\0");
        if b {
            let i = choose|i: int|
                0 <= i && i + 1 <= s@.len() && #[trigger] s@.subrange(i, i + 1) == "\0"@;
            assert(s@.subrange(i, i + 1)[0] == s@[i]);
        }
        if has_nul(s@) {
            let i = choose|i: int| 0 <= i < s@.len() && s@[i] == '\0';
            assert(s@.subrange(i, i + 1) =~= "\0"@);
            assert(is_infix_of("\0"@, s@));
        }
    }
    b
}

/// How the child side of a new PTY starts the shell: it sets `TERM` and
/// `COLORTERM`, changes to `working_dir` where there is one, and executes
/// `program` (searched in `PATH`) with `args`.
pub struct ExecPlan {
    pub program: String,
    pub args: Vec<String>,
    pub env: Vec<(String, String)>,
    pub working_dir: Option<String>,
}

/// The exec plan for `shell` started in `working_dir`: the shell runs as a
/// login shell (`shell -l`), or `/bin/sh -l` where the shell's name holds a
/// NUL; `TERM` is `xterm-256color` and `COLORTERM` is `truecolor`; a working
/// directory that holds a NUL is skipped.
pub fn exec_plan(shell: &str, working_dir: Option<&str>) -> (plan: ExecPlan)
    ensures
        plan.program@ == (if has_nul(shell@) {
            "/bin/sh"@
        } else {
            shell@
        }),
        !has_nul(plan.program@),
        plan.args@.len() == 2,
        plan.args@[0]@ == plan.program@,
        plan.args@[1]@ == "-l"@,
        plan.env@.len() == 2,
        plan.env@[0].0@ == "TERM"@ && plan.env@[0].1@ == "xterm-256color"@,
        plan.env@[1].0@ == "COLORTERM"@ && plan.env@[1].1@ == "truecolor"@,
        plan.working_dir matches Some(w) ==> working_dir matches Some(d) && w@ == d@ && !has_nul(
            d@,
        ),
        plan.working_dir is None ==> (working_dir matches Some(d) ==> has_nul(d@)),
{
    proof {
        reveal_strlit("/bin/sh");
    }
    let program = if contains_nul(shell) {
        String::from_str("/bin/sh")
    } else {
        String::from_str(shell)
    };
    let mut args: Vec<String> = Vec::new();
    args.push(program.clone());
    args.push(String::from_str("-l"));
    let mut env: Vec<(String, String)> = Vec::new();
    env.push((String::from_str("TERM"), String::from_str("xterm-256color")));
    env.push((String::from_str("COLORTERM"), String::from_str("truecolor")));
    let wd = match working_dir {
        Some(d) => {
            if contains_nul(d) {
                None
            } else {
                Some(String::from_str(d))
            }
        },
        None => None,
    };
    ExecPlan { program, args, env, working_dir: wd }
}

// -------------------------------------------------------------------
// System call results
// -------------------------------------------------------------------

/// The byte count of a `read` or `write` that returned `ret`, or `None` for
/// a failed call (a negative return, whose cause is in `errno`).
pub fn syscall_count(ret: isize) -> (n: Option<usize>)
    ensures
        ret < 0 ==> n is None,
        ret >= 0 ==> n == Some(ret as usize),
{
    if ret < 0 {
        None
    } else {
        Some(ret as usize)
    }
}

// -------------------------------------------------------------------
// Draining the PTY
// -------------------------------------------------------------------

/// Size of the buffer the host reads the PTY into.
pub const PTY_READ_BUF_LEN: usize = 65536;

/// How a poll of the PTY begins: the child hung up (report the close and
/// stop polling), there is no PTY (stop polling), or read it.
#[derive(Clone, Copy, Debug, PartialEq, Eq, Structural)]
pub enum PollStart {
    Closed,
    NoPty,
    Read,
}

/// Begins a poll of the PTY.
pub fn pty_poll_start(hung_up: bool, has_pty: bool) -> (s: PollStart)
    ensures
        hung_up ==> s == PollStart::Closed,
        !hung_up && !has_pty ==> s == PollStart::NoPty,
        !hung_up && has_pty ==> s == PollStart::Read,
{
    if hung_up {
        PollStart::Closed
    } else if !has_pty {
        PollStart::NoPty
    } else {
        PollStart::Read
    }
}

/// The outcome of one non-blocking read of the PTY.
#[derive(Clone, Copy, Debug, PartialEq, Eq, Structural)]
pub enum PtyRead {
    Bytes(usize),
    WouldBlock,
    Failed,
}

/// What follows a read: feed the bytes read to the terminal and read again;
/// stop reading, refresh the render state, redraw and keep polling (end of
/// input, or nothing more to read now); or stop polling (the read failed).
#[derive(Clone, Copy, Debug, PartialEq, Eq, Structural)]
pub enum ReadStep {
    Feed(usize),
    Refresh,
    Stop,
}

/// Decides what follows a read of the PTY.
pub fn pty_read_step(r: PtyRead) -> (step: ReadStep)
    requires
        r matches PtyRead::Bytes(n) ==> n <= PTY_READ_BUF_LEN,
    ensures
        step == (match r {
            PtyRead::Bytes(n) => if n == 0 {
                ReadStep::Refresh
            } else {
                ReadStep::Feed(n)
            },
            PtyRead::WouldBlock => ReadStep::Refresh,
            PtyRead::Failed => ReadStep::Stop,
        }),
        step matches ReadStep::Feed(n) ==> 0 < n <= PTY_READ_BUF_LEN,
{
    match r {
        PtyRead::Bytes(0) => ReadStep::Refresh,
        PtyRead::Bytes(n) => ReadStep::Feed(n),
        PtyRead::WouldBlock => ReadStep::Refresh,
        PtyRead::Failed => ReadStep::Stop,
    }
}

/// A string holds a NUL exactly when one of its characters is U+0000; so
/// the exec plan runs the given shell unless its name holds one.
pub proof fn lemma_has_nul(s: Seq<char>)
    ensures
        has_nul(s) <==> exists|i: int| 0 <= i < s.len() && s[i] == '\0',
        !has_nul("/bin/sh"@),
        !has_nul(Seq::empty()),
        has_nul(seq!['\0']),
{
    reveal_strlit("/bin/sh");
    assert(seq!['\0'][0] == '\0');
}

} // verus!
