use ferrum::permissions::{
    EnvPermission, NetPermission, PermissionError, PermissionState, Permissions, ReadPermission,
    RunPermission, WritePermission,
};

#[test]
fn test_read_permission_denied_by_default() {
    let perm = ReadPermission::new();
    assert!(matches!(perm.check("/some/path"), Err(PermissionError::Denied(_))));
}

#[test]
fn test_read_permission_grant_all() {
    let mut perm = ReadPermission::new();
    perm.grant_all();
    assert!(perm.check("/any/path").is_ok());
}

#[test]
fn test_read_permission_grant_specific() {
    let mut perm = ReadPermission::new();
    perm.grant_paths(vec!["/tmp".to_string(), "/home/user".to_string()]);

    assert!(perm.check("/tmp/file.txt").is_ok());
    assert!(perm.check("/home/user/docs").is_ok());
    assert!(perm.check("/etc/passwd").is_err());
}

#[test]
fn test_write_permission_denied_by_default() {
    let perm = WritePermission::new();
    assert!(matches!(perm.check("/some/path"), Err(PermissionError::Denied(_))));
}

#[test]
fn test_net_permission_denied_by_default() {
    let perm = NetPermission::new();
    assert!(matches!(perm.check("example.com"), Err(PermissionError::Denied(_))));
}

#[test]
fn test_net_permission_grant_specific() {
    let mut perm = NetPermission::new();
    perm.grant_addresses(vec!["example.com".to_string(), "api.test.com".to_string()]);

    assert!(perm.check("example.com").is_ok());
    assert!(perm.check("api.test.com").is_ok());
    assert!(perm.check("other.com").is_err());
}

#[test]
fn test_env_permission_denied_by_default() {
    let perm = EnvPermission::new();
    assert!(matches!(perm.check("HOME"), Err(PermissionError::Denied(_))));
}

#[test]
fn test_run_permission_denied_by_default() {
    let perm = RunPermission::new();
    assert!(matches!(perm.check("ls"), Err(PermissionError::Denied(_))));
}

#[test]
fn test_permissions_allow_all() {
    let perms = Permissions::allow_all();
    assert!(perms.check_read("/any/path").is_ok());
    assert!(perms.check_write("/any/path").is_ok());
    assert!(perms.check_net("any.com").is_ok());
    assert!(perms.check_env("ANY_VAR").is_ok());
    assert!(perms.check_run("any-command").is_ok());
}

#[test]
fn test_permission_state_granted() {
    let state = PermissionState::Granted;
    assert!(state.is_granted(None));
    assert!(state.is_granted(Some("/any/path")));
}

#[test]
fn test_permission_state_denied() {
    let state = PermissionState::Denied;
    assert!(!state.is_granted(None));
    assert!(!state.is_granted(Some("/any/path")));
}

#[test]
fn test_permission_state_partial() {
    let paths = vec!["/tmp".to_string(), "/home".to_string()];

    let state = PermissionState::GrantedPartial { paths };
    assert!(state.is_granted(Some("/tmp/file.txt")));
    assert!(state.is_granted(Some("/home/user")));
    assert!(!state.is_granted(Some("/etc/passwd")));
}

#[test]
fn test_permissions_default_all_denied() {
    let perms = Permissions::default();
    assert!(perms.check_read("/any").is_err());
    assert!(perms.check_write("/any").is_err());
    assert!(perms.check_net("any.com").is_err());
    assert!(perms.check_env("ANY").is_err());
    assert!(perms.check_run("any").is_err());
}

#[test]
fn test_permission_checks() {
    let mut read_perm = ReadPermission::new();
    assert!(read_perm.check("/any/path").is_err());

    read_perm.grant_paths(vec!["/tmp".to_string()]);
    assert!(read_perm.check("/tmp/file.txt").is_ok());
    assert!(read_perm.check("/etc/passwd").is_err());

    let mut write_perm = WritePermission::new();
    assert!(write_perm.check("/any/path").is_err());

    write_perm.grant_all();
    assert!(write_perm.check("/any/path").is_ok());
}

#[test]
fn fresh_permissions_deny_every_category() {
    let perms = Permissions::default();
    for r in ["", "/", "/tmp", "example.com", "PATH", "ls"] {
        assert!(perms.check_read(r).is_err());
        assert!(perms.check_write(r).is_err());
        assert!(perms.check_net(r).is_err());
        assert!(perms.check_env(r).is_err());
        assert!(perms.check_run(r).is_err());
    }
}

#[test]
fn allow_all_grants_every_category() {
    let perms = Permissions::allow_all();
    for r in ["", "/", "/etc/shadow", "example.com", "PATH", "rm"] {
        assert!(perms.check_read(r).is_ok());
        assert!(perms.check_write(r).is_ok());
        assert!(perms.check_net(r).is_ok());
        assert!(perms.check_env(r).is_ok());
        assert!(perms.check_run(r).is_ok());
    }
}

#[test]
fn partial_grant_is_a_textual_prefix_test() {
    let mut perm = ReadPermission::new();
    perm.grant_paths(vec!["/tmp".to_string()]);
    assert!(perm.check("/tmp").is_ok());
    assert!(perm.check("/tmp/file.txt").is_ok());
    assert!(perm.check("/etc/passwd").is_err());
    // The prefix rule is not path-boundary safe.
    assert!(perm.check("/tmpfoo").is_ok());
    assert!(perm.check("/tm").is_err());
}

#[test]
fn empty_allow_list_grants_nothing() {
    let mut perm = EnvPermission::new();
    perm.grant_vars(vec![]);
    assert!(perm.check("HOME").is_err());
    assert!(perm.check("").is_err());
}

#[test]
fn empty_entry_grants_everything() {
    let mut perm = RunPermission::new();
    perm.grant_commands(vec!["".to_string()]);
    assert!(perm.check("anything").is_ok());
}

#[test]
fn denial_messages_name_the_resource() {
    let perms = Permissions::default();
    let expect = [
        (perms.check_read("/a"), "Requires read access to '/a'"),
        (perms.check_write("/b"), "Requires write access to '/b'"),
        (perms.check_net("c.com"), "Requires network access to 'c.com'"),
        (perms.check_env("D"), "Requires access to environment variable 'D'"),
        (perms.check_run("e"), "Requires permission to run 'e'"),
    ];
    for (result, message) in expect {
        match result {
            Err(PermissionError::Denied(m)) => assert_eq!(m, message),
            _ => panic!("expected a denial"),
        }
    }
}

#[test]
fn permission_error_text() {
    let e = PermissionError::Denied("x".to_string());
    assert_eq!(e.to_string(), "Permission denied: x");
    let e = PermissionError::InvalidPath("p".to_string());
    assert_eq!(e.to_string(), "Invalid permission path: p");
    let e = PermissionError::InvalidAddress("a".to_string());
    assert_eq!(e.to_string(), "Invalid net address: a");
}

#[test]
fn grant_overwrites_previous_state() {
    let mut perm = NetPermission::new();
    perm.grant_all();
    perm.grant_addresses(vec!["example.com".to_string()]);
    assert!(perm.check("other.com").is_err());
    assert!(matches!(perm.query(), PermissionState::GrantedPartial { .. }));
    perm.grant_all();
    assert!(matches!(perm.query(), PermissionState::Granted));
}

#[test]
fn prompt_pending_grants_nothing() {
    let state = PermissionState::PromptPending;
    assert!(!state.is_granted(None));
    assert!(!state.is_granted(Some("/tmp")));
    let partial = PermissionState::GrantedPartial { paths: vec!["/tmp".to_string()] };
    assert!(!partial.is_granted(None));
}
