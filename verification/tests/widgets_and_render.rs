use rslprompt::background::BackgroundData;
use rslprompt::context::git::{GitContext, GitOperations as Op};
use rslprompt::context::{exec_no_from_env, shell_pid_from_env, Context};
use rslprompt::formatting::Color;
use rslprompt::path::FsPath;
use rslprompt::renderer::render_widget;
use rslprompt::widgets::exit_status::ExitStatus;
use rslprompt::widgets::git_operations::GitOperations;
use rslprompt::widgets::git_ref::GitRef;
use rslprompt::widgets::git_stash::GitStash;
use rslprompt::widgets::git_sync::GitSync;
use rslprompt::widgets::head_ref::HeadRef;
use rslprompt::widgets::newline::Newline;
use rslprompt::widgets::path::Path;
use rslprompt::widgets::prompt::Prompt;
use rslprompt::widgets::stash::Stash;
use rslprompt::widgets::world_worktree::WorldWorktree;
use rslprompt::widgets::Widget;
use rslprompt::{default_widgets, render_prompt};

fn ctx(cwd: &str, home: Option<&str>, exit: Option<&str>, vi: Option<&str>, git: Option<GitContext>) -> Context {
    Context::new(
        Some(FsPath::parse(cwd)),
        home.map(|h| h.to_string()),
        None,
        exit.map(|e| e.to_string()),
        vi.map(|v| v.to_string()),
        git,
    )
}

fn git(head_ref: Option<&str>, sha: Option<&str>, remote: Option<&str>, stashes: usize, ops: Vec<Op>, dirty: Option<bool>) -> GitContext {
    GitContext::new(
        head_ref.map(|s| s.to_string()),
        sha.map(|s| s.to_string()),
        remote.map(|s| s.to_string()),
        stashes,
        ops,
        dirty.map(|d| BackgroundData { has_changes: Some(d) }),
    )
}

#[test]
fn context_reads_its_environment_values() {
    let c = Context::new(
        Some(FsPath::parse("/x")),
        Some("/home/u".to_string()),
        Some("1.2.3.4 5 6.7.8.9 22".to_string()),
        Some("300".to_string()),
        Some("n".to_string()),
        None,
    );
    assert!(c.ssh_connection());
    assert_eq!(c.exit_status(), None);
    assert_eq!(c.vi_mode(), Some("n"));
    assert_eq!(c.home_dir().unwrap().display(), "/home/u");
    assert_eq!(c.cwd().unwrap().display(), "/x");
    assert!(c.git().is_none());
    assert!(c.world().is_none());
    let c = ctx("/x", None, Some("7"), None, None);
    assert_eq!(c.exit_status(), Some(7));
    assert!(!c.ssh_connection());
    assert!(c.home_dir().is_none());
}

#[test]
fn environment_numbers() {
    assert_eq!(shell_pid_from_env(Some("123".to_string())), Some(123));
    assert_eq!(shell_pid_from_env(Some("0".to_string())), None);
    assert_eq!(shell_pid_from_env(Some("-4".to_string())), None);
    assert_eq!(shell_pid_from_env(Some("x".to_string())), None);
    assert_eq!(shell_pid_from_env(None), None);
    assert_eq!(exec_no_from_env(Some("18".to_string())), Some(18));
    assert_eq!(exec_no_from_env(Some("-1".to_string())), None);
}

#[test]
fn world_location() {
    let c = ctx("/home/u/world/trees/root/src/foo/bar", Some("/home/u"), None, None, None);
    let w = c.world().unwrap();
    assert_eq!(w.tree(), "root");
    assert_eq!(w.path(), "//foo/bar");
    assert_eq!(Path.content(&c).as_deref(), Some("//foo/bar"));
    assert_eq!(WorldWorktree.content(&c).as_deref(), Some("+root"));
    let c = ctx("/home/u/world/trees/root/src", Some("/home/u"), None, None, None);
    assert_eq!(c.world().unwrap().path(), "//");
    let c = ctx("/home/u/world/trees/root/lib", Some("/home/u"), None, None, None);
    assert!(c.world().is_none());
    let c = ctx("/home/u/world/trees/root", Some("/home/u"), None, None, None);
    assert!(c.world().is_none());
    assert_eq!(WorldWorktree.content(&c), None);
}

#[test]
fn path_widget() {
    let c = ctx("/home/u", Some("/home/u/"), None, None, None);
    assert_eq!(Path.content(&c).as_deref(), Some("~"));
    let c = ctx("/home/u/code/x", Some("/home/u"), None, None, None);
    assert_eq!(Path.content(&c).as_deref(), Some("~/code/x"));
    let c = ctx("/etc", Some("/home/u"), None, None, None);
    assert_eq!(Path.content(&c).as_deref(), Some("/etc"));
    let c = ctx("/home/user2", Some("/home/u"), None, None, None);
    assert_eq!(Path.content(&c).as_deref(), Some("/home/user2"));
    assert!(Path.color(&c) == Color::Blue);
    let ssh = Context::new(Some(FsPath::parse("/")), None, Some(String::new()), None, None, None);
    assert!(Path.color(&ssh) == Color::Green);
    let none = Context::new(None, None, None, None, None, None);
    assert_eq!(Path.content(&none), None);
}

#[test]
fn path_widget_with_unusual_home() {
    let c = ctx("/x", Some(""), None, None, None);
    assert_eq!(Path.content(&c).as_deref(), Some("~//x"));
    let c = ctx("/", Some(""), None, None, None);
    assert_eq!(Path.content(&c).as_deref(), Some("~//"));
    let c = ctx("/home/u", Some("/home/u/"), None, None, None);
    assert_eq!(Path.content(&c).as_deref(), Some("~"));
    let c = ctx("/home/u/src/x", Some("/home/u"), None, None, None);
    assert_eq!(Path.content(&c).as_deref(), Some("~/src/x"));
    let c = ctx("/home/uv", Some("/home/u"), None, None, None);
    assert_eq!(Path.content(&c).as_deref(), Some("/home/uv"));
    let c = ctx("/x", Some("./h"), None, None, None);
    assert_eq!(c.home_dir().unwrap().display(), "./h");
    assert_eq!(Path.content(&c).as_deref(), Some("/x"));
}

#[test]
fn exit_status_widget() {
    assert_eq!(ExitStatus.content(&ctx("/", None, Some("0"), None, None)), None);
    assert_eq!(ExitStatus.content(&ctx("/", None, Some("127"), None, None)).as_deref(), Some("127"));
    assert_eq!(ExitStatus.content(&ctx("/", None, None, None, None)), None);
    assert!(ExitStatus.color(&ctx("/", None, None, None, None)) == Color::Red);
}

#[test]
fn prompt_widget() {
    let c = ctx("/", None, Some("0"), Some("i"), None);
    assert_eq!(Prompt.content(&c).as_deref(), Some("❯"));
    assert!(Prompt.color(&c) == Color::Green);
    let c = ctx("/", None, Some("1"), Some("n"), None);
    assert_eq!(Prompt.content(&c).as_deref(), Some("❮"));
    assert!(Prompt.color(&c) == Color::Red);
    let c = ctx("/", None, None, None, None);
    assert_eq!(Prompt.content(&c).as_deref(), Some("❮"));
    assert!(Prompt.color(&c) == Color::Red);
}

#[test]
fn git_widgets() {
    let g = git(Some("main"), Some("0123456789"), Some("0123456789"), 12, vec![Op::Merge, Op::RebaseApply], Some(true));
    let c = ctx("/r", None, None, None, Some(g));
    assert_eq!(GitRef.content(&c).as_deref(), Some("main"));
    assert!(GitRef.color(&c) == Color::Magenta);
    assert_eq!(HeadRef.content(&c).as_deref(), Some("main"));
    assert_eq!(Stash.content(&c).as_deref(), Some("¹²"));
    assert_eq!(GitStash.content(&c).as_deref(), Some("¹²"));
    assert_eq!(GitOperations.content(&c).as_deref(), Some("ᴹᴿ"));
    assert_eq!(GitSync.content(&c), None);
    assert!(!GitOperations.allow_space_after());
    assert!(!Stash.space_before());

    let g = git(None, Some("0123456789"), Some("99"), 0, vec![], Some(false));
    let c = ctx("/r", None, None, None, Some(g));
    assert_eq!(GitRef.content(&c).as_deref(), Some("0123456"));
    assert!(GitRef.color(&c) == Color::Green);
    assert_eq!(HeadRef.content(&c).as_deref(), Some("0123456"));
    assert_eq!(Stash.content(&c), None);
    assert_eq!(GitOperations.content(&c), None);
    assert_eq!(GitSync.content(&c).as_deref(), Some("⇵"));

    let g = git(None, Some("abc"), None, 0, vec![], None);
    let c = ctx("/r", None, None, None, Some(g));
    assert_eq!(GitRef.content(&c).as_deref(), Some("abc"));
    assert_eq!(HeadRef.content(&c), None);
    assert!(GitRef.color(&c) == Color::Default);
    assert_eq!(GitSync.content(&c), None);

    let g = git(None, None, None, 0, vec![], None);
    let c = ctx("/r", None, None, None, Some(g));
    assert_eq!(GitRef.content(&c).as_deref(), Some("???"));
    assert_eq!(HeadRef.content(&c), None);

    let g = git(None, Some("abcde\u{e9}12"), None, 0, vec![], None);
    let c = ctx("/r", None, None, None, Some(g));
    assert_eq!(HeadRef.content(&c).as_deref(), Some("abcde\u{e9}"));
    let g = git(None, Some("abcdef\u{e9}1"), None, 0, vec![], None);
    let c = ctx("/r", None, None, None, Some(g));
    assert_eq!(HeadRef.content(&c), None);

    let g = git(Some("main"), None, None, 0, vec![], None);
    let c = Context::new(None, None, None, None, None, Some(g));
    assert!(c.git().is_none());
    assert_eq!(HeadRef.content(&c), None);

    let c = ctx("/r", None, None, None, None);
    assert_eq!(GitRef.content(&c), None);
    assert_eq!(GitSync.content(&c), None);
    assert_eq!(Stash.content(&c), None);
}

#[test]
fn newline_widget() {
    let c = ctx("/", None, None, None, None);
    assert_eq!(Newline.content(&c).as_deref(), Some("\n"));
    assert!(!Newline.space_before());
    assert!(!Newline.allow_space_after());
    assert!(Newline.color(&c) == Color::Default);
}

#[test]
fn render_one_widget() {
    let c = ctx("/", None, Some("3"), None, None);
    assert_eq!(render_widget(&ExitStatus, &c), "%{\x1b[31m%}3");
    assert_eq!(render_widget(&HeadRef, &c), "%{\x1b[0m%}");
}

#[test]
fn render_default_prompt() {
    let c = ctx("/home/u/proj", Some("/home/u"), Some("1"), Some("i"), None);
    let out = render_prompt(&default_widgets(), &c);
    let expected = [
        "%{\x1b[0m%}\n",
        "%{\x1b[34m%}~/proj",
        " %{\x1b[0m%}",
        "%{\x1b[37m%}",
        " %{\x1b[31m%}1",
        "%{\x1b[0m%}\n",
        "%{\x1b[31m%}❯",
        "\x1b[0m ",
    ]
    .join("");
    assert_eq!(out, expected);
}

#[test]
fn space_only_between_willing_neighbours() {
    let c = ctx("/", None, Some("2"), None, None);
    let ws: Vec<&dyn Widget> = vec![&Newline, &ExitStatus];
    assert_eq!(render_prompt(&ws, &c), "%{\x1b[0m%}\n%{\x1b[31m%}2\x1b[0m ");
    let ws: Vec<&dyn Widget> = vec![&ExitStatus, &ExitStatus];
    assert_eq!(render_prompt(&ws, &c), "%{\x1b[31m%}2 %{\x1b[31m%}2\x1b[0m ");
    let ws: Vec<&dyn Widget> = vec![&ExitStatus, &Stash];
    assert_eq!(render_prompt(&ws, &c), "%{\x1b[31m%}2%{\x1b[37m%}\x1b[0m ");
    let ws: Vec<&dyn Widget> = vec![];
    assert_eq!(render_prompt(&ws, &c), "\x1b[0m ");
}
