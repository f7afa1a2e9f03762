//! The shell integration: the script that a shell sources to use the prompt.
use vstd::prelude::*;
use vstd::string::*;

verus! {

/// The part of the zsh setup script before the path of the prompt program.
pub const ZSH_SETUP_HEAD: &'static str = "# rslprompt zsh setup\nset -o promptsubst\n\n# Track command execution count\n__ps1_exec_no=0\nfunction __ps1_exec_incr() {\n    __ps1_exec_no=$((__ps1_exec_no+1))\n}\nprecmd_functions+=(__ps1_exec_incr)\n\n# Enable async prompt updates via SIGALRM\nTRAPALRM() {\n    # Only reset when ZLE is active (i.e. not while commands are running).\n    if [[ -n \"$ZLE_STATE\" ]]; then\n        zle reset-prompt\n    fi\n}\n\nPROMPT='$(PS1_EXEC_NO=$__ps1_exec_no VI_MODE=$ZVM_MODE EXIT_STATUS=$? SHELL_PID=$$ ";

/// The zsh setup script for the prompt program at `exec_path`: it enables
/// prompt substitution, counts executed commands, redraws the prompt on
/// `SIGALRM`, and sets `PROMPT` to run the program with the shell's state.
pub open spec fn zsh_config_spec(exec_path: Seq<char>) -> Seq<char> {
    ZSH_SETUP_HEAD@ + exec_path + ")'"@
}

/// The name the program is run by when its own path is not known.
pub open spec fn exec_path_spec(current_exe: Option<Seq<char>>) -> Seq<char> {
    match current_exe {
        Some(p) => p,
        None => "rslprompt"@,
    }
}

/// Supported shell types for prompt configuration.
#[derive(Clone, Copy, PartialEq, Eq, Structural, Debug)]
pub enum Shell {
    Zsh,
}

impl Shell {
    /// Generate the initialization script for this shell type, given the path
    /// of the running program as UTF-8 text (`None` when it is not known).
    pub fn init_config(&self, current_exe: Option<String>) -> (r: String)
        ensures
            r@ == zsh_config_spec(exec_path_spec(crate::context::git::opt_view(current_exe))),
    {
        match self {
            Shell::Zsh => {
                let p = exec_path(current_exe);
                zsh_config(p.as_str())
            },
        }
    }
}

/// The path of the running program, or `rslprompt` when it is not known.
pub fn exec_path(current_exe: Option<String>) -> (r: String)
    ensures
        r@ == exec_path_spec(crate::context::git::opt_view(current_exe)),
{
    match current_exe {
        Some(p) => p,
        None => String::from_str("rslprompt"),
    }
}

/// The zsh setup script for the prompt program at `exec_path`.
pub fn zsh_config(exec_path: &str) -> (r: String)
    ensures
        r@ == zsh_config_spec(exec_path@),
{
    let mut s = String::from_str(ZSH_SETUP_HEAD);
    s.append(exec_path);
    s.append(")'");
    s
}

} // verus!
