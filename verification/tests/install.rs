use easy_proxy::config::PromptConfig;
use easy_proxy::install::{
    cmd_install, completion_script, default_config, ensure_config, ensure_zju_bin, install_line,
    replace_managed_block, update_zshrc, write_completion, zsh_block, Action, Shown,
    BLOCK_BEGIN, BLOCK_END,
};

#[test]
fn managed_block_replaces_only_marked_region() {
    let original = "before\n# >>> easy-proxy >>>\nold\n# <<< easy-proxy <<<\nafter\n";
    let block = "# >>> easy-proxy >>>\nnew\n# <<< easy-proxy <<<\n";
    assert_eq!(
        replace_managed_block(original, block),
        "before\n# >>> easy-proxy >>>\nnew\n# <<< easy-proxy <<<\nafter\n"
    );
}

#[test]
fn managed_block_appended_when_absent() {
    let original = "export PATH=/x\n";
    let block = "# >>> easy-proxy >>>\nx\n# <<< easy-proxy <<<\n";
    let out = replace_managed_block(original, block);
    assert!(out.starts_with("export PATH=/x\n"));
    assert!(out.contains(BLOCK_BEGIN));
}

#[test]
fn zsh_block_uses_absolute_exe_and_eval_for_env_commands() {
    let block = zsh_block("/usr/local/bin/easy-proxy");
    assert!(block.contains(r#"start|stop|restart|disconnect) eval "$(COLUMNS=${COLUMNS:-80} "/usr/local/bin/easy-proxy" "$@")" ;;"#));
    assert!(block.contains("ep() {"));
    assert!(block.contains(r#""/usr/local/bin/easy-proxy" port --connected >/dev/null 2>&1"#));
    assert!(block.contains(r#""/usr/local/bin/easy-proxy" status >&2"#));
    assert!(block.contains(r#"eval "$(COLUMNS=${COLUMNS:-80} "/usr/local/bin/easy-proxy" restart -f)" >&2 || exit"#));
}

#[test]
fn installing_twice_changes_nothing_more() {
    let exe = "/usr/local/bin/easy-proxy";
    let (first, once) = update_zshrc("export A=1\n", exe);
    assert_eq!(first, Action::Added);
    assert!(once.starts_with("export A=1\n"));
    let (second, twice) = update_zshrc(&once, exe);
    assert_eq!(second, Action::Updated);
    assert_eq!(twice, once);
    let (_, moved) = update_zshrc(&once, "/opt/easy-proxy");
    assert!(moved.starts_with("export A=1\n"));
    assert_eq!(moved.matches(BLOCK_BEGIN).count(), 1);
    assert_eq!(moved.matches(BLOCK_END).count(), 1);
    assert!(!moved.contains(exe));
}

#[test]
fn a_block_without_an_end() {
    let block = "# >>> easy-proxy >>>\nx\n# <<< easy-proxy <<<\n";
    let dangling = "# >>> easy-proxy >>>\nx\n";
    let out = replace_managed_block(dangling, block);
    assert!(out.starts_with(dangling));
    assert!(out.ends_with(block));
}

#[test]
fn what_is_installed() {
    assert!(ensure_zju_bin(None, 5));
    assert!(ensure_zju_bin(Some(4), 5));
    assert!(!ensure_zju_bin(Some(5), 5));
    assert_eq!(ensure_config(false), Action::Added);
    assert_eq!(ensure_config(true), Action::Kept);
    assert_eq!(write_completion(false), Action::Added);
    assert_eq!(write_completion(true), Action::Updated);
    assert!(completion_script().starts_with("#compdef easy-proxy"));
    assert!(completion_script().contains("'(-t --tun)'{-t,--tun}"));
    assert!(default_config().contains("mixed_port: 7899"));
}

#[test]
fn what_install_prints() {
    let p = PromptConfig::default();
    let paths = Shown {
        zshrc: "/home/u/.zshrc".to_string(),
        completion_link: "/home/u/_easy-proxy".to_string(),
        app_config: "/home/u/config.yaml".to_string(),
        zju_bin: "/home/u/zju-connect".to_string(),
    };
    let line = install_line(Action::Added, "x", "/y", &p);
    assert!(line.contains("/y"));
    let lines = cmd_install(&paths, Action::Added, Action::Updated, Action::Kept, &p);
    assert!(lines.iter().any(|l| l.contains("/home/u/.zshrc")));
    assert!(lines.iter().any(|l| l.contains(Action::Updated.label())));
}
