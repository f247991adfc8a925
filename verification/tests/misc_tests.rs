use std::collections::HashMap;

use gptsh::config::{default_model, default_true, Config, OpenAIConfig, Permissions, PlatformInfo};
use gptsh::session::initial_system_prompt;
use gptsh::text::{str_eq, str_starts_with, trim_str};
use gptsh::utils::{
    gate_step, get_cwd_short_form, is_root_user, repl_step, should_print_welcome, GateStep,
    KeyPress, ReplStep,
};

fn config_with_key(key: Option<&str>) -> Config {
    Config {
        openai: OpenAIConfig {
            api_key: key.map(String::from),
            model: default_model(),
        },
        permissions: Permissions::default(),
    }
}

#[test]
fn defaults_match_the_template() {
    assert_eq!(default_model(), "gpt-3.5-turbo");
    assert!(default_true());
    assert!(Permissions::default().bash);
}

#[test]
fn config_with_good_key_validates() {
    let c = config_with_key(Some("sk-abc123"));
    assert!(c.validate("/home/u/.config/gptsh/config.toml").is_ok());
}

#[test]
fn config_without_key_is_refused() {
    let c = config_with_key(None);
    let e = c.validate("/home/u/.config/gptsh/config.toml").unwrap_err();
    assert_eq!(e, "Please set your OpenAI API key in /home/u/.config/gptsh/config.toml");
}

#[test]
fn config_with_foreign_key_prefix_is_refused() {
    let c = config_with_key(Some("pk-123"));
    assert!(c.validate("p").is_err());
}

#[test]
fn platform_prompt_renders_the_three_facts() {
    let info = PlatformInfo {
        os: String::from("Ubuntu 22.04"),
        arch: String::from("x86_64"),
        user: String::from("alice"),
        env_vars: HashMap::new(),
    };
    assert_eq!(
        info.dump_as_prompt(),
        "Platform Information:\n    OS: Ubuntu 22.04\n    ARCH: x86_64\n    USER: alice\n"
    );
}

#[test]
fn system_prompt_ends_with_platform_block() {
    let info = PlatformInfo {
        os: String::from("o"),
        arch: String::from("a"),
        user: String::from("u"),
        env_vars: HashMap::new(),
    };
    let p = initial_system_prompt(&info);
    assert!(p.ends_with("Platform Information:\n    OS: o\n    ARCH: a\n    USER: u\n"));
    assert!(p.starts_with("You are now acting as a AI-powered terminal shell"));
}

#[test]
fn cwd_short_form_under_home() {
    assert_eq!(get_cwd_short_form("/home/u/projects/thing", "/home/u"), "~/p/thing");
    assert_eq!(get_cwd_short_form("/home/u", "/home/u"), "~");
}

#[test]
fn cwd_short_form_outside_home() {
    assert_eq!(get_cwd_short_form("/var/log/nginx", "/home/u"), "/v/l/nginx");
    assert_eq!(get_cwd_short_form("/", "/home/u"), "/");
}

#[test]
fn cwd_short_form_drops_empty_and_dot_segments() {
    assert_eq!(get_cwd_short_form("/a/./b//code", "/home/u"), "/a/b/code");
}

#[test]
fn repl_quits_on_end_of_input_and_exit() {
    assert!(matches!(repl_step(None), ReplStep::Quit));
    assert!(matches!(repl_step(Some(String::from(" exit "))), ReplStep::Quit));
}

#[test]
fn repl_ignores_blank_input() {
    assert!(matches!(repl_step(Some(String::from(""))), ReplStep::Ignore));
    assert!(matches!(repl_step(Some(String::from("   \t"))), ReplStep::Ignore));
}

#[test]
fn repl_runs_anything_else_as_typed() {
    match repl_step(Some(String::from("  list the files "))) {
        ReplStep::Run(p) => assert_eq!(p, "  list the files "),
        _ => panic!("a non-blank prompt runs"),
    }
}

#[test]
fn gate_reads_one_key() {
    assert_eq!(gate_step(KeyPress::Enter), GateStep::Accept);
    assert_eq!(gate_step(KeyPress::CtrlC), GateStep::Abort);
    assert_eq!(gate_step(KeyPress::Other), GateStep::KeepWaiting);
}

#[test]
fn banner_decisions() {
    assert!(should_print_welcome(true, true));
    assert!(!should_print_welcome(true, false));
    assert!(!should_print_welcome(false, true));
    assert!(is_root_user("root"));
    assert!(!is_root_user("alice"));
}

#[test]
fn text_helpers() {
    assert_eq!(trim_str("  a b \t\n"), "a b");
    assert_eq!(trim_str(""), "");
    assert_eq!(trim_str(" \r\n "), "");
    assert!(str_eq("abc", "abc"));
    assert!(!str_eq("abc", "abd"));
    assert!(!str_eq("abc", "ab"));
    assert!(str_starts_with("sk-123", "sk-"));
    assert!(!str_starts_with("sk", "sk-"));
}
