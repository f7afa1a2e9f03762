//! The state of the shell session that the prompt is drawn for.
use vstd::prelude::*;

use crate::context::git::{opt_as_str, opt_view, GitContext, GitView};
use crate::context::world::{world_location, WorldContext};
use crate::number::{parse_i32, parse_i32_str, parse_u64, parse_u8, parse_unsigned};
use crate::path::{parse_path, FsPath, PathView};

pub mod git;
pub mod head;
pub mod query;
pub mod root;
pub mod world;

verus! {

/// Represents a value that might not be available yet.
pub enum AsyncValue<T> {
    Ready(T),
    Pending,
}

/// `Ready` holding the value of `Some`, `Pending` for `None`.
pub open spec fn async_from_option<T>(opt: Option<T>) -> AsyncValue<T> {
    match opt {
        Some(v) => AsyncValue::Ready(v),
        None => AsyncValue::Pending,
    }
}

impl<T> From<Option<T>> for AsyncValue<T> {
    fn from(opt: Option<T>) -> (r: Self) {
        if let Some(value) = opt {
            AsyncValue::Ready(value)
        } else {
            AsyncValue::Pending
        }
    }
}

impl<T> vstd::std_specs::convert::FromSpecImpl<Option<T>> for AsyncValue<T> {
    open spec fn obeys_from_spec() -> bool {
        true
    }

    open spec fn from_spec(v: Option<T>) -> AsyncValue<T> {
        async_from_option(v)
    }
}

/// The mathematical model of a [`Context`].
pub struct ContextView {
    pub git: Option<GitView>,
    pub world: Option<(Seq<char>, Seq<char>)>,
    pub cwd: Option<PathView>,
    pub home_dir: Option<PathView>,
    pub ssh_connection: bool,
    pub exit_status: Option<u8>,
    pub vi_mode: Option<Seq<char>>,
}

/// Information about the current shell state.
pub struct Context {
    git: Option<GitContext>,
    world: Option<WorldContext>,
    cwd: Option<FsPath>,
    home_dir: Option<FsPath>,
    ssh_connection: bool,
    exit_status: Option<u8>,
    vi_mode: Option<String>,
}

impl View for Context {
    type V = ContextView;

    closed spec fn view(&self) -> ContextView {
        ContextView {
            git: match self.git {
                Some(g) => Some(g@),
                None => None,
            },
            world: match self.world {
                Some(w) => Some(w@),
                None => None,
            },
            cwd: match self.cwd {
                Some(p) => Some(p@),
                None => None,
            },
            home_dir: match self.home_dir {
                Some(p) => Some(p@),
                None => None,
            },
            ssh_connection: self.ssh_connection,
            exit_status: self.exit_status,
            vi_mode: opt_view(self.vi_mode),
        }
    }
}

/// The optional value of an environment variable that holds a number.
pub open spec fn parsed_u8(var: Option<String>) -> Option<u8> {
    match var {
        Some(s) => match parse_unsigned(s@, 255) {
            Some(v) => Some(v as u8),
            None => None,
        },
        None => None,
    }
}

/// The shell's process id that the text of `SHELL_PID` gives: kept only when
/// it parses as an `i32` and is positive.
pub open spec fn shell_pid_of(var: Option<Seq<char>>) -> Option<i32> {
    match var {
        Some(s) => match parse_i32(s) {
            Some(v) => if v > 0 {
                Some(v as i32)
            } else {
                None
            },
            None => None,
        },
        None => None,
    }
}

/// The command count that the text of `PS1_EXEC_NO` gives, when it parses as
/// a `u64`.
pub open spec fn exec_no_of(var: Option<Seq<char>>) -> Option<u64> {
    match var {
        Some(s) => match parse_unsigned(s, u64::MAX as nat) {
            Some(v) => Some(v as u64),
            None => None,
        },
        None => None,
    }
}

/// The Git context a session keeps: the one found, when its current
/// directory is known.
pub open spec fn session_git(cwd: Option<PathView>, git: Option<GitView>) -> Option<GitView> {
    match (cwd, git) {
        (Some(_), Some(g)) => Some(g),
        _ => None,
    }
}

/// The shell's process id from `SHELL_PID`: kept only when it parses as an
/// `i32` and is positive.
pub fn shell_pid_from_env(var: Option<String>) -> (r: Option<i32>)
    ensures
        r == shell_pid_of(opt_view(var)),
{
    match var {
        Some(s) => match parse_i32_str(s.as_str()) {
            Some(v) => if v > 0 {
                Some(v)
            } else {
                None
            },
            None => None,
        },
        None => None,
    }
}

/// The number of commands the shell has run, from `PS1_EXEC_NO`.
pub fn exec_no_from_env(var: Option<String>) -> (r: Option<u64>)
    ensures
        r == exec_no_of(opt_view(var)),
{
    match var {
        Some(s) => parse_u64(s.as_str()),
        None => None,
    }
}

impl Context {
    /// The state of a shell session: its current directory, the values of
    /// `HOME`, `SSH_CONNECTION`, `EXIT_STATUS` and `VI_MODE`, and the
    /// repository around the current directory (kept only when the current
    /// directory is known).
    pub fn new(
        cwd: Option<FsPath>,
        home: Option<String>,
        ssh_connection: Option<String>,
        exit_status: Option<String>,
        vi_mode: Option<String>,
        git: Option<GitContext>,
    ) -> (r: Self)
        ensures
            r@.cwd == match cwd {
                Some(p) => Some(p@),
                None => None::<PathView>,
            },
            r@.home_dir == match home {
                Some(h) => Some(parse_path(h@)),
                None => None::<PathView>,
            },
            r@.world == match (cwd, home) {
                (Some(c), Some(h)) => world_location(c@, parse_path(h@)),
                _ => None,
            },
            r@.ssh_connection == ssh_connection is Some,
            r@.exit_status == parsed_u8(exit_status),
            r@.vi_mode == opt_view(vi_mode),
            r@.git == session_git(
                match cwd {
                    Some(p) => Some(p@),
                    None => None,
                },
                match git {
                    Some(g) => Some(g@),
                    None => None,
                },
            ),
    {
        let home_dir = match &home {
            Some(h) => Some(FsPath::parse(h.as_str())),
            None => None,
        };
        let world = match (&cwd, &home_dir) {
            (Some(c), Some(h)) => WorldContext::new(c, h),
            _ => None,
        };
        let git = match &cwd {
            Some(_) => git,
            None => None,
        };
        let exit_status = match &exit_status {
            Some(s) => parse_u8(s.as_str()),
            None => None,
        };
        Context {
            git,
            world,
            cwd,
            home_dir,
            ssh_connection: ssh_connection.is_some(),
            exit_status,
            vi_mode,
        }
    }

    /// Information about the current directory's Git repository.
    pub fn git(&self) -> (r: Option<&GitContext>)
        ensures
            match r {
                Some(g) => self@.git == Some(g@),
                None => self@.git is None,
            },
    {
        self.git.as_ref()
    }

    /// Information about the current directory's World tree (if applicable).
    pub fn world(&self) -> (r: Option<&WorldContext>)
        ensures
            match r {
                Some(w) => self@.world == Some(w@),
                None => self@.world is None,
            },
    {
        self.world.as_ref()
    }

    /// The current working directory.
    pub fn cwd(&self) -> (r: Option<&FsPath>)
        ensures
            match r {
                Some(p) => self@.cwd == Some(p@),
                None => self@.cwd is None,
            },
    {
        self.cwd.as_ref()
    }

    /// The user's home directory.
    pub fn home_dir(&self) -> (r: Option<&FsPath>)
        ensures
            match r {
                Some(p) => self@.home_dir == Some(p@),
                None => self@.home_dir is None,
            },
    {
        self.home_dir.as_ref()
    }

    /// Whether the current session is an SSH connection.
    pub fn ssh_connection(&self) -> (r: bool)
        ensures
            r == self@.ssh_connection,
    {
        self.ssh_connection
    }

    /// The exit code status of the last command executed.
    pub fn exit_status(&self) -> (r: Option<u8>)
        ensures
            r == self@.exit_status,
    {
        self.exit_status
    }

    /// The current VI mode (e.g. "i" for insert mode).
    pub fn vi_mode(&self) -> (r: Option<&str>)
        ensures
            match r {
                Some(s) => self@.vi_mode == Some(s@),
                None => self@.vi_mode is None,
            },
    {
        opt_as_str(&self.vi_mode)
    }
}

} // verus!
