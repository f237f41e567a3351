use ttyplay::cmd::get_cmd;

#[test]
fn explicit_command_runs_through_sh() {
    let (prog, args) = get_cmd(Some(String::from("top -d 1")), Some(String::from("/bin/zsh")));
    assert_eq!(prog, "/bin/sh");
    assert_eq!(args.len(), 2);
    assert_eq!(args[0], "-c");
    assert_eq!(args[1], "exec top -d 1");
}

#[test]
fn default_is_the_user_shell() {
    let (prog, args) = get_cmd(None, Some(String::from("/bin/zsh")));
    assert_eq!(prog, "/bin/zsh");
    assert!(args.is_empty());
}

#[test]
fn fallback_shell_when_unset() {
    let (prog, args) = get_cmd(None, None);
    assert_eq!(prog, "/bin/sh");
    assert!(args.is_empty());
}
