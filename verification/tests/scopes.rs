use unraid_mcp::actions::{actions, required_scope, scope_satisfied, Scope, ADMIN_SCOPE, READ_SCOPE};

fn scopes(names: &[&str]) -> Vec<String> {
    names.iter().map(|s| s.to_string()).collect()
}

#[test]
fn catalogued_actions_require_their_scope() {
    assert_eq!(required_scope("array"), Some(Scope::Read));
    assert_eq!(required_scope("vm_start"), Some(Scope::Write));
    assert_eq!(required_scope("status"), Some(Scope::Read));
    assert_eq!(required_scope("help"), Some(Scope::Unscoped));
    assert_eq!(required_scope("doctor"), None);
    assert_eq!(required_scope(""), None);
}

#[test]
fn admin_satisfies_read_but_read_never_reaches_writes() {
    let read = scopes(&[READ_SCOPE]);
    let admin = scopes(&[ADMIN_SCOPE]);
    let none = scopes(&[]);
    assert!(scope_satisfied(Scope::Read, &read));
    assert!(!scope_satisfied(Scope::Write, &read));
    assert!(scope_satisfied(Scope::Read, &admin));
    assert!(scope_satisfied(Scope::Write, &admin));
    assert!(scope_satisfied(Scope::Unscoped, &none));
    assert!(!scope_satisfied(Scope::Read, &none));
    assert!(!scope_satisfied(Scope::Write, &scopes(&["unraid:write", "admin"])));
}

#[test]
fn read_token_reaches_exactly_the_non_mutating_actions() {
    let read = scopes(&["openid", READ_SCOPE]);
    for a in actions() {
        let reachable = scope_satisfied(required_scope(a.name).unwrap(), &read);
        assert_eq!(reachable, a.scope != Scope::Write, "{}", a.name);
    }
}
