use rslprompt::background::{background_key, BackgroundData, CacheKey};
use rslprompt::git::{parse_git_head, GitInfo};
use rslprompt::shell::{exec_path, zsh_config, Shell};

#[test]
fn zsh_setup_script() {
    let s = zsh_config("/usr/bin/rslprompt");
    assert!(s.starts_with("# rslprompt zsh setup\nset -o promptsubst\n"));
    assert!(s.contains("if [[ -n \"$ZLE_STATE\" ]]; then"));
    assert!(s.contains("function __ps1_exec_incr() {\n"));
    assert!(s.ends_with(
        "PROMPT='$(PS1_EXEC_NO=$__ps1_exec_no VI_MODE=$ZVM_MODE EXIT_STATUS=$? SHELL_PID=$$ /usr/bin/rslprompt)'"
    ));
    assert_eq!(Shell::Zsh.init_config(Some("/usr/bin/rslprompt".to_string())), s);
    assert!(Shell::Zsh.init_config(None).ends_with("SHELL_PID=$$ rslprompt)'"));
    assert_eq!(exec_path(None), "rslprompt");
    assert_eq!(exec_path(Some("/x".to_string())), "/x");
}

#[test]
fn cache_file_names() {
    assert_eq!(CacheKey::new(42, 7).cache_file_name(), "rslprompt-async-42-7.json");
    assert_eq!(CacheKey::new(-3, 0).cache_file_name(), "rslprompt-async--3-0.json");
    assert_ne!(CacheKey::new(1, 23).cache_file_name(), CacheKey::new(12, 3).cache_file_name());
    let k = CacheKey::new(9, 10);
    assert_eq!(k.pid(), 9);
    assert_eq!(k.exec_no(), 10);
}

#[test]
fn background_fetch() {
    assert_eq!(BackgroundData::fetch(Some(b" M src/lib.rs\n".to_vec())).has_changes, Some(true));
    assert_eq!(BackgroundData::fetch(Some(Vec::new())).has_changes, Some(false));
    assert_eq!(BackgroundData::fetch(None).has_changes, None);
}

#[test]
fn head_file_parsing() {
    assert_eq!(parse_git_head("ref: refs/heads/main".to_string()).as_deref(), Some("main"));
    assert_eq!(parse_git_head("0123456789abcdef".to_string()).as_deref(), Some("0123456"));
    assert_eq!(parse_git_head("abc".to_string()), None);
    assert_eq!(parse_git_head("ééééx".to_string()), None);
}

#[test]
fn git_info_summary() {
    let info = GitInfo::new(true, Some("ref: refs/heads/dev\n".to_string()), Some("a\nb\n".to_string()));
    assert!(info.is_git_repo());
    assert_eq!(info.head(), Some("dev"));
    assert_eq!(info.num_stashes(), 2);
    let outside = GitInfo::new(false, Some("ref: refs/heads/dev\n".to_string()), None);
    assert!(!outside.is_git_repo());
    assert_eq!(outside.head(), None);
    assert_eq!(outside.num_stashes(), 0);
    let e = GitInfo::empty();
    assert!(!e.is_git_repo());
    let no_files = GitInfo::new(true, None, None);
    assert!(no_files.is_git_repo());
    assert_eq!(no_files.head(), None);
    assert_eq!(no_files.num_stashes(), 0);
}

#[test]
fn background_key_needs_pid_and_count() {
    let k = background_key(Some(5), Some(6)).unwrap();
    assert_eq!((k.pid(), k.exec_no()), (5, 6));
    assert!(background_key(None, Some(6)).is_none());
    assert!(background_key(Some(5), None).is_none());
}
