use simple_chat::users::Users;

#[test]
fn register_new_username_returns_true() {
    let mut users = Users::new();
    assert!(users.register("alice"));
}

#[test]
fn register_duplicate_username_returns_false() {
    let mut users = Users::new();
    users.register("alice");
    assert!(!users.register("alice"));
}

#[test]
fn deregister_allows_reregistration() {
    let mut users = Users::new();
    users.register("alice");
    users.deregister("alice");
    assert!(users.register("alice"));
}

#[test]
fn names_are_independent() {
    let mut users = Users::new();
    assert!(users.register("alice"));
    assert!(users.register("bob"));
    assert!(users.register("Alice"));
    users.deregister("bob");
    assert!(users.contains("alice"));
    assert!(!users.contains("bob"));
    assert!(users.contains("Alice"));
    users.deregister("nobody");
    assert!(users.contains("alice"));
}

#[test]
fn register_then_deregister_leaves_registry_as_it_was() {
    let mut users = Users::new();
    users.register("alice");
    users.register("carol");
    users.deregister("carol");
    assert!(users.contains("alice"));
    assert!(!users.contains("carol"));
    assert!(!users.register("alice"));
}
