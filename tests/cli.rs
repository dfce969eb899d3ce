use ferrum::cli::{CacheCommands, Commands};

fn run(script: &str) -> Commands {
    Commands::Run {
        script: script.to_string(),
        args: vec![],
        allow_read: false,
        allow_read_path: None,
        allow_write: false,
        allow_write_path: None,
        allow_net: false,
        allow_net_domain: None,
        allow_env: false,
        allow_env_var: None,
        allow_run: false,
        allow_run_command: None,
        allow_all: false,
        unsafe_no_permissions: false,
        import_map: None,
        inspect: false,
        inspect_port: 9229,
        enable_source_maps: false,
        check: false,
        eval: None,
        watch: false,
    }
}

// The command line `ferrum run script.js --allow-read --allow-net`, parsed.
#[test]
fn test_parse_run_command() {
    let mut command = run("script.js");
    if let Commands::Run { allow_read, allow_net, .. } = &mut command {
        *allow_read = true;
        *allow_net = true;
    }
    assert!(matches!(command, Commands::Run { .. }));
    assert_eq!(command.script_path(), Some("script.js"));
}

// `ferrum run script.js arg1 arg2`, parsed.
#[test]
fn test_parse_run_with_args() {
    let mut command = run("script.js");
    if let Commands::Run { args, .. } = &mut command {
        *args = vec!["arg1".to_string(), "arg2".to_string()];
    }
    let args = command.script_args().unwrap();
    assert_eq!(args, &["arg1", "arg2"]);
}

// `ferrum run script.js --allow-all`, parsed.
#[test]
fn test_parse_allow_all() {
    let mut command = run("script.js");
    if let Commands::Run { allow_all, .. } = &mut command {
        *allow_all = true;
    }
    let perms = command.permissions();
    assert!(perms.check_read("/any/path").is_ok());
    assert!(perms.check_write("/any/path").is_ok());
    assert!(perms.check_net("example.com").is_ok());
}

// `ferrum run script.js --allow-read-path /tmp,/home --allow-net-domain example.com`, parsed.
#[test]
fn test_parse_allow_specific() {
    let mut command = run("script.js");
    if let Commands::Run { allow_read_path, allow_net_domain, .. } = &mut command {
        *allow_read_path = Some(vec!["/tmp".to_string(), "/home".to_string()]);
        *allow_net_domain = Some(vec!["example.com".to_string()]);
    }
    let perms = command.permissions();
    assert!(perms.check_read("/tmp/file.txt").is_ok());
    assert!(perms.check_read("/etc/passwd").is_err());
    assert!(perms.check_net("example.com").is_ok());
    assert!(perms.check_net("other.com").is_err());
}

// `ferrum run script.js --inspect`, parsed (the port defaults to 9229).
#[test]
fn test_parse_inspect() {
    let mut command = run("script.js");
    if let Commands::Run { inspect, .. } = &mut command {
        *inspect = true;
    }
    assert_eq!(command.inspect_enabled(), Some(9229));
}

// `ferrum run script.js --inspect --inspect-port 3000`, parsed.
#[test]
fn test_parse_inspect_custom_port() {
    let mut command = run("script.js");
    if let Commands::Run { inspect, inspect_port, .. } = &mut command {
        *inspect = true;
        *inspect_port = 3000;
    }
    assert_eq!(command.inspect_enabled(), Some(3000));
}

// `ferrum run script.js` and `ferrum run script.js --allow-read --allow-net`, parsed.
#[test]
fn test_cli_parsing() {
    let command = run("script.js");
    assert_eq!(command.script_path(), Some("script.js"));

    let mut command = run("script.js");
    if let Commands::Run { allow_read, allow_net, .. } = &mut command {
        *allow_read = true;
        *allow_net = true;
    }
    let perms = command.permissions();
    assert!(perms.check_read("/any").is_ok());
    assert!(perms.check_net("example.com").is_ok());
    assert!(perms.check_write("/any").is_err());
}

#[test]
fn flag_wins_over_list_and_unsafe_grants_all() {
    let mut command = run("s.js");
    if let Commands::Run { allow_write, allow_write_path, .. } = &mut command {
        *allow_write = true;
        *allow_write_path = Some(vec!["/tmp".to_string()]);
    }
    assert!(command.permissions().check_write("/etc/x").is_ok());
    assert!(!command.permission_checks_disabled());

    let mut command = run("s.js");
    if let Commands::Run { unsafe_no_permissions, .. } = &mut command {
        *unsafe_no_permissions = true;
    }
    assert!(command.permission_checks_disabled());
    let perms = command.permissions();
    assert!(perms.check_run("rm").is_ok());
    assert!(perms.check_env("HOME").is_ok());
}

#[test]
fn other_commands_permissions() {
    let repl = Commands::Repl { allow_all: false, enable_source_maps: false };
    assert!(repl.permissions().check_read("/x").is_err());
    let test = Commands::Test {
        files: vec![],
        allow_all: false,
        filter: None,
        no_parallel: false,
        ignored: false,
    };
    let perms = test.permissions();
    assert!(perms.check_read("./tests/a.js").is_ok());
    assert!(perms.check_read("/etc/passwd").is_err());
    assert!(perms.check_net("example.com").is_err());
    let install = Commands::Install {
        name: "x".to_string(),
        args: vec!["a".to_string()],
        allow_all: false,
        force: false,
    };
    let perms = install.permissions();
    assert!(perms.check_net("example.com").is_ok());
    assert!(perms.check_read("/x").is_err());
    assert_eq!(install.script_args().unwrap(), &["a"]);
    let cache = Commands::Cache { subcommand: CacheCommands::Clear };
    assert!(cache.permissions().check_net("x").is_err());
    assert_eq!(cache.script_path(), None);
    assert!(!cache.watch_mode());
}

#[test]
fn paths_and_flags() {
    let check = Commands::Check { files: vec!["a.ts".to_string(), "b.ts".to_string()] };
    assert_eq!(check.script_path(), Some("a.ts"));
    let empty = Commands::Check { files: vec![] };
    assert_eq!(empty.script_path(), None);
    let info = Commands::Info { module: "m.js".to_string(), imports: false, json: false };
    assert_eq!(info.script_path(), Some("m.js"));
    let mut command = run("s.js");
    assert_eq!(command.inspect_enabled(), None);
    if let Commands::Run { watch, import_map, .. } = &mut command {
        *watch = true;
        *import_map = Some("map.json".to_string());
    }
    assert!(command.watch_mode());
    assert_eq!(command.import_map(), Some(&"map.json".to_string()));
}
