//! Tests of the pure computations: string helpers, environment handling,
//! shell-integration planning, parsing of the process listings, the
//! statistics sampler, settings, themes and the update-loop decisions.

use terminal_one::envs::build_command_env;
use terminal_one::envs::build_preserved_envs;
use terminal_one::envs::derive_proxy_env;
use terminal_one::envs::proxy_env_keys;
use terminal_one::envs::proxy_url;
use terminal_one::envs::user_zdot_dir;
use terminal_one::envs::working_dir_of;
use terminal_one::error::TermError;
use terminal_one::fsutil::batch_test_files;
use terminal_one::settings::AppSettings;
use terminal_one::settings::AutoUpdate;
use terminal_one::settings::FontSize;
use terminal_one::settings::Scrollback;
use terminal_one::settings::Settings;
use terminal_one::settings::TerminalSettings;
use terminal_one::shell::get_shell_path;
use terminal_one::shell::make_precommit_dir;
use terminal_one::shell::plan_install_script;
use terminal_one::shell::shell_copy_files;
use terminal_one::statparse::parse_pgrep_output;
use terminal_one::statparse::parse_ps_output;
use terminal_one::stats::ChildProcessStat;
use terminal_one::stats::StatResult;
use terminal_one::stats::StatResultBuilder;
use terminal_one::stats::StatSampler;
use terminal_one::strutil::contains_sub;
use terminal_one::strutil::escape_shell_path;
use terminal_one::strutil::path_join;
use terminal_one::strutil::u64_to_dec;
use terminal_one::theme::ThemeContext;
use terminal_one::theme::ThemeItem;
use terminal_one::theme::theme_json_content;
use terminal_one::updater::UpdateCheckOutcome;
use terminal_one::updater::build_user_agent;
use terminal_one::updater::update_wait_secs;
use terminal_one::messages::MenuItem;
use terminal_one::pump::ExitGate;
use terminal_one::registry::AppState;
use terminal_one::session::SpawnProfile;
use terminal_one::statparse::parse_centi_chars;
use terminal_one::statparse::parse_u32_chars;
use terminal_one::strutil::chars_of;
use std::sync::Arc;
use terminal_one::events::SessionEventHandler;
use terminal_one::messages::OpenContextMenuClickedMessage;
use terminal_one::messages::TermOptions;
use terminal_one::messages::options_equal;

#[test]
fn escape_shell_path_escapes_spaces() {
    assert_eq!(escape_shell_path("/Apps/My App/sh"), "/Apps/My\\ App/sh");
    assert_eq!(escape_shell_path("a b c"), "a\\ b\\ c");
}

#[test]
fn escape_shell_path_keeps_plain_paths() {
    assert_eq!(escape_shell_path("/usr/local/bin"), "/usr/local/bin");
    assert_eq!(escape_shell_path(""), "");
}

#[test]
fn path_join_inserts_separator() {
    assert_eq!(path_join("/a", "b"), "/a/b");
    assert_eq!(path_join("/a/", "b"), "/a/b");
    assert_eq!(path_join("", "b"), "b");
}

#[test]
fn contains_sub_finds_runs() {
    assert!(contains_sub("hello world", "lo wo"));
    assert!(contains_sub("abc", ""));
    assert!(!contains_sub("abc", "abcd"));
    assert!(!contains_sub("hello", "ole"));
}

#[test]
fn u64_to_dec_renders_decimal() {
    assert_eq!(u64_to_dec(0), "0");
    assert_eq!(u64_to_dec(42), "42");
    assert_eq!(u64_to_dec(1234567890), "1234567890");
    assert_eq!(u64_to_dec(u64::MAX), "18446744073709551615");
}

#[test]
fn proxy_keys_are_the_eight_variables() {
    let keys = proxy_env_keys();
    assert_eq!(
        keys,
        vec![
            "HTTP_PROXY",
            "http_proxy",
            "HTTPS_PROXY",
            "https_proxy",
            "NO_PROXY",
            "no_proxy",
            "ALL_PROXY",
            "all_proxy"
        ]
    );
}

#[test]
fn preserved_envs_pair_names_with_values() {
    let mut values: Vec<Option<String>> = Vec::new();
    values.push(Some("http://p:1".to_string()));
    for _ in 0..7 {
        values.push(None);
    }
    let envs = build_preserved_envs(&values);
    assert_eq!(envs.len(), 8);
    assert_eq!(envs[0].0, "HTTP_PROXY");
    assert_eq!(envs[0].1.as_deref(), Some("http://p:1"));
    assert_eq!(envs[7].0, "all_proxy");
    assert_eq!(envs[7].1, None);
}

#[test]
fn proxy_url_renders_host_and_port() {
    assert_eq!(proxy_url("proxy.local", 8080), "http://proxy.local:8080");
}

#[test]
fn derive_proxy_env_requires_enabled_flag() {
    assert_eq!(
        derive_proxy_env(Some(1), Some("h"), Some(3128)),
        Some("http://h:3128".to_string())
    );
    assert_eq!(derive_proxy_env(Some(0), Some("h"), Some(3128)), None);
    assert_eq!(derive_proxy_env(None, Some("h"), Some(3128)), None);
    assert_eq!(derive_proxy_env(Some(1), None, Some(3128)), None);
    assert_eq!(derive_proxy_env(Some(1), Some("h"), None), None);
}

#[test]
fn user_zdot_dir_prefers_env_then_home() {
    assert_eq!(user_zdot_dir(Some("/z".to_string()), Some("/home/u".to_string())), "/z");
    assert_eq!(user_zdot_dir(None, Some("/home/u".to_string())), "/home/u");
    assert_eq!(user_zdot_dir(None, None), "~");
}

#[test]
fn working_dir_falls_back_to_home() {
    assert_eq!(working_dir_of(Some("/tmp".to_string()), "/home/u".to_string()), "/tmp");
    assert_eq!(working_dir_of(None, "/home/u".to_string()), "/home/u");
}

#[test]
fn command_env_fixed_entries_then_preserved() {
    let preserved = vec![("HTTP_PROXY".to_string(), None::<String>)];
    let envs = build_command_env("0.1.0", "/data/Shell/zsh", "/home/u", &preserved);
    assert_eq!(envs.len(), 7);
    assert_eq!(envs[0], ("TERM_PROGRAM".to_string(), Some("Terminal_One.app".to_string())));
    assert_eq!(envs[1], ("TERM_PROGRAM_VERSION".to_string(), Some("0.1.0".to_string())));
    assert_eq!(envs[2], ("TERM".to_string(), Some("xterm-256color".to_string())));
    assert_eq!(envs[3], ("LANG".to_string(), Some("en_US.UTF-8".to_string())));
    assert_eq!(envs[4], ("ZDOTDIR".to_string(), Some("/data/Shell/zsh".to_string())));
    assert_eq!(envs[5], ("USER_ZDOTDIR".to_string(), Some("/home/u".to_string())));
    assert_eq!(envs[6], ("HTTP_PROXY".to_string(), None));
}

#[test]
fn shell_path_is_under_the_data_dir() {
    assert_eq!(get_shell_path("/data", false), "/data/Shell/zsh");
    assert_eq!(get_shell_path("/data", true), "/data/Shell/zsh_debug");
}

#[test]
fn shell_copy_files_lists_the_four_scripts() {
    let files = shell_copy_files();
    assert_eq!(
        files,
        vec![
            ("t1-rc.zsh", ".zshrc"),
            ("t1-profile.zsh", ".zprofile"),
            ("t1-env.zsh", ".zshenv"),
            ("t1-login.zsh", ".zlogin"),
        ]
    );
}

#[test]
fn precommit_path_is_the_hook_script() {
    assert_eq!(make_precommit_dir("/res/shell_integration"), "/res/shell_integration/t1.zsh");
}

#[test]
fn install_plan_prepends_marker() {
    let plan = plan_install_script("/res/si", "export PATH\n");
    assert!(!plan.already_installed);
    assert_eq!(plan.new_content, "\n# Terminal One\nsource /res/si/t1.zsh\nexport PATH\n");
}

#[test]
fn install_plan_escapes_spaces_in_marker() {
    let plan = plan_install_script("/my res", "");
    assert!(!plan.already_installed);
    assert_eq!(plan.new_content, "\n# Terminal One\nsource /my\\ res/t1.zsh\n");
}

#[test]
fn install_plan_is_idempotent() {
    let first = plan_install_script("/res/si", "export PATH\n");
    let second = plan_install_script("/res/si", &first.new_content);
    assert!(second.already_installed);
    assert_eq!(second.new_content, first.new_content);
}

#[test]
fn pgrep_output_parses_pid_and_name() {
    let parsed = parse_pgrep_output("123 sh\n456 bash\n");
    assert_eq!(
        parsed,
        vec![(123, "sh".to_string()), (456, "bash".to_string())]
    );
}

#[test]
fn pgrep_output_skips_bad_lines() {
    let parsed = parse_pgrep_output("oops\nx y\n789 zsh\n\n   \n");
    assert_eq!(parsed, vec![(789, "zsh".to_string())]);
}

#[test]
fn ps_output_parses_centi_percent() {
    let out = parse_ps_output(" %CPU %MEM\n 1.5  2.25\n");
    assert_eq!(out, (150, 225));
}

#[test]
fn ps_output_without_data_is_zero() {
    assert_eq!(parse_ps_output(""), (0, 0));
    assert_eq!(parse_ps_output("%CPU %MEM\n"), (0, 0));
    assert_eq!(parse_ps_output("%CPU %MEM\n whoops\n"), (0, 0));
}

#[test]
fn ps_output_truncates_to_two_fraction_digits() {
    assert_eq!(parse_ps_output("h\n0.999 10\n"), (99, 1000));
}

#[test]
fn sampler_without_pid_is_zero_valued() {
    let sampler = StatSampler::new(None);
    assert_eq!(sampler.next_pid(), None);
    assert!(sampler.is_done());
    let result = sampler.into_result();
    assert_eq!(result.total_children_count, 0);
    assert!(result.first_level_children_names.is_empty());
    assert_eq!(result.cpu_usage_centi, 0);
    assert_eq!(result.mem_usage_centi, 0);
}

#[test]
fn sampler_walks_and_aggregates() {
    let mut sampler = StatSampler::new(Some(1));
    assert_eq!(sampler.next_pid(), Some(1));
    let children = vec![
        ChildProcessStat { pid: 2, name: "a".to_string(), cpu_centi: 100, mem_centi: 50 },
        ChildProcessStat { pid: 3, name: "b".to_string(), cpu_centi: 25, mem_centi: 75 },
    ];
    sampler.feed_children(&children);
    // The two children are queued for expansion; drain them with no
    // grandchildren.
    assert_eq!(sampler.next_pid(), Some(3));
    sampler.feed_children(&Vec::new());
    assert_eq!(sampler.next_pid(), Some(2));
    sampler.feed_children(&Vec::new());
    assert!(sampler.is_done());
    let result = sampler.into_result();
    assert_eq!(result.total_children_count, 2);
    assert_eq!(result.first_level_children_names, vec!["a".to_string(), "b".to_string()]);
    assert_eq!(result.cpu_usage_centi, 125);
    assert_eq!(result.mem_usage_centi, 125);
}

#[test]
fn sampler_grandchildren_are_counted_not_named() {
    let mut sampler = StatSampler::new(Some(1));
    sampler.feed_children(&vec![ChildProcessStat {
        pid: 2,
        name: "child".to_string(),
        cpu_centi: 10,
        mem_centi: 10,
    }]);
    assert_eq!(sampler.next_pid(), Some(2));
    sampler.feed_children(&vec![ChildProcessStat {
        pid: 5,
        name: "grandchild".to_string(),
        cpu_centi: 5,
        mem_centi: 5,
    }]);
    assert_eq!(sampler.next_pid(), Some(5));
    sampler.feed_children(&Vec::new());
    assert!(sampler.is_done());
    let result = sampler.into_result();
    assert_eq!(result.total_children_count, 2);
    assert_eq!(result.first_level_children_names, vec!["child".to_string()]);
    assert_eq!(result.cpu_usage_centi, 15);
    assert_eq!(result.mem_usage_centi, 15);
}

#[test]
fn builder_carries_fields_through() {
    let result = StatResultBuilder::new().cpu_usage(150).mem_usage(250).build();
    assert_eq!(result.total_children_count, 0);
    assert!(result.first_level_children_names.is_empty());
    assert_eq!(result.cpu_usage_centi, 150);
    assert_eq!(result.mem_usage_centi, 250);
}

#[test]
fn stat_result_default_is_zeroed() {
    let result = StatResult::default();
    assert_eq!(result.total_children_count, 0);
    assert!(result.first_level_children_names.is_empty());
    assert_eq!(result.cpu_usage_centi, 0);
    assert_eq!(result.mem_usage_centi, 0);
}

#[test]
fn settings_defaults() {
    assert_eq!(FontSize::default().0, 15);
    assert_eq!(Scrollback::default().0, 1000);
    assert!(AutoUpdate::default().0);
    let s = Settings::default();
    assert_eq!(s.terminal.font_size.0, 15);
    assert_eq!(s.terminal.scrollback.0, 1000);
    assert!(s.app.auto_update.0);
    let t = TerminalSettings::default();
    assert_eq!(t.font_size.0, 15);
    let a = AppSettings::default();
    assert!(a.auto_update.0);
}

#[test]
fn theme_picked_from_first_toml_file() {
    let entries = vec![
        ("themes/dark/readme.md".to_string(), true),
        ("themes/dark/sub.toml".to_string(), false),
        ("themes/dark/dark.toml".to_string(), true),
        ("themes/dark/extra.toml".to_string(), true),
    ];
    let item = ThemeItem::load_from_file("dark", "themes/dark", &entries).unwrap();
    assert_eq!(item.name, "dark");
    assert_eq!(item.path, "themes/dark");
    assert_eq!(item.toml_file_path.as_deref(), Some("themes/dark/dark.toml"));
}

#[test]
fn theme_absent_without_toml_file() {
    let entries = vec![("themes/x/readme.md".to_string(), true)];
    assert!(ThemeItem::load_from_file("x", "themes/x", &entries).is_none());
}

#[test]
fn theme_context_collects_items() {
    let mut ctx = ThemeContext::new();
    assert!(ctx.is_empty());
    ctx.add(ThemeItem {
        name: "dark".to_string(),
        path: "p".to_string(),
        toml_file_path: Some("p/d.toml".to_string()),
    });
    assert!(!ctx.is_empty());
    assert_eq!(ctx.len(), 1);
    assert_eq!(ctx.index(0).name, "dark");
}

#[test]
fn theme_toml_becomes_json() {
    assert_eq!(theme_json_content("a = 1").unwrap(), "{\"a\":1}");
    assert_eq!(
        theme_json_content("[colors]\nbg = \"#000\"").unwrap(),
        "{\"colors\":{\"bg\":\"#000\"}}"
    );
}

#[test]
fn theme_bad_toml_is_an_error() {
    let err = theme_json_content("= nonsense").unwrap_err();
    assert!(matches!(err, TermError::TomlError(_)));
}

#[test]
fn batch_test_files_codes_each_probe() {
    let codes = batch_test_files(&vec![None, Some(true), Some(false)]);
    assert_eq!(codes, vec![0, 1, 2]);
}

#[test]
fn update_loop_decisions() {
    assert_eq!(update_wait_secs(UpdateCheckOutcome::UpdateFound), None);
    assert_eq!(update_wait_secs(UpdateCheckOutcome::UpToDate), Some(7200));
    assert_eq!(update_wait_secs(UpdateCheckOutcome::CheckFailed), Some(1800));
}

#[test]
fn user_agent_format() {
    assert_eq!(
        build_user_agent("0.1.0", "linux", "x86_64", "6.1"),
        "TerminalOne/0.1.0 (linux; x86_64; 6.1)"
    );
}

#[test]
fn options_equality_is_field_wise() {
    let a = TermOptions { path: "/tmp".to_string(), watch_dirs: true };
    let b = TermOptions { path: "/tmp".to_string(), watch_dirs: true };
    let c = TermOptions { path: "/tmp".to_string(), watch_dirs: false };
    assert!(options_equal(&a, &b));
    assert!(!options_equal(&a, &c));
}

#[test]
fn message_types_carry_fields() {
    let item = MenuItem { title: "Copy".to_string(), key: "copy".to_string() };
    assert_eq!(item.title, "Copy");
    let msg = OpenContextMenuClickedMessage { id: "m1".to_string(), key: "copy".to_string() };
    assert_eq!(msg.key, "copy");
    assert_eq!(msg.id, "m1");
}

#[test]
fn pid_parsing_matches_std_grammar() {
    assert_eq!(parse_u32_chars(&chars_of("+123")), Some(123));
    assert_eq!(parse_u32_chars(&chars_of("4294967295")), Some(u32::MAX));
    assert_eq!(parse_u32_chars(&chars_of("4294967296")), None);
    assert_eq!(parse_u32_chars(&chars_of("")), None);
    assert_eq!(parse_u32_chars(&chars_of("+")), None);
    assert_eq!(parse_u32_chars(&chars_of("12a")), None);
    assert_eq!(parse_u32_chars(&chars_of("-4")), None);
    assert_eq!(parse_u32_chars(&chars_of("007")), Some(7));
}

#[test]
fn centi_parsing_grammar() {
    assert_eq!(parse_centi_chars(&chars_of("5.")), Some(500));
    assert_eq!(parse_centi_chars(&chars_of("0.05")), Some(5));
    assert_eq!(parse_centi_chars(&chars_of("12")), Some(1200));
    assert_eq!(parse_centi_chars(&chars_of(".5")), None);
    assert_eq!(parse_centi_chars(&chars_of("1e3")), None);
    assert_eq!(parse_centi_chars(&chars_of("1.2.3")), None);
    assert_eq!(parse_centi_chars(&chars_of("-1.0")), None);
    assert_eq!(parse_centi_chars(&chars_of("")), None);
}

#[test]
fn exit_gate_grants_once() {
    let mut gate = ExitGate::new();
    assert!(gate.try_claim());
    assert!(!gate.try_claim());
    assert!(!gate.try_claim());
}

#[derive(Clone)]
struct NoopHandler(Arc<()>);

impl SessionEventHandler for NoopHandler {
    fn on_data(&self, _id: &str, _data: &[u8]) {}
    fn on_exit(&self, _id: &str, _exit_code: u32) {}
    fn on_fs_changed(&self, _id: &str, _paths: Vec<String>) {}
}

#[test]
fn registry_themes_lifecycle() {
    let mut app: AppState<NoopHandler> = AppState::new(
        SpawnProfile {
            program: "/bin/sh".to_string(),
            version: "0".to_string(),
            shell_dir: "/tmp".to_string(),
            user_shell_dir: "/tmp".to_string(),
        },
        "/tmp".to_string(),
        Settings::default(),
        build_preserved_envs(&vec![None, None, None, None, None, None, None, None]),
    );

    assert!(!app.has_terminal("nope"));
    assert!(matches!(app.get_a_theme_source(), Err(TermError::NoThemesFound)));
    assert!(matches!(app.load_themes(&Vec::new()), Err(TermError::NoThemesFound)));

    let items = vec![ThemeItem {
        name: "dark".to_string(),
        path: "p".to_string(),
        toml_file_path: Some("p/dark.toml".to_string()),
    }];
    app.load_themes(&items).expect("load themes");
    let (name, toml_path) = app.get_a_theme_source().expect("a theme");
    assert_eq!(name, "dark");
    assert_eq!(toml_path.as_deref(), Some("p/dark.toml"));
}
