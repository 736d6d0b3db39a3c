use winrmpc::ui::app::servers::{opt_string, server_row, ServerEntry, ServerList};

fn entry(name: &str) -> ServerEntry {
    ServerEntry {
        name: name.to_string(),
        host: format!("{name}.local"),
        port: 6600,
        password: None,
        default_partition: None,
        snapcast_host: None,
        snapcast_port: None,
    }
}

fn names(l: &ServerList) -> Vec<&str> {
    l.servers.iter().map(|s| s.name.as_str()).collect()
}

#[test]
fn startup_uses_the_default_then_the_first_server() {
    assert_eq!(ServerList::new(vec![entry("a"), entry("b")], Some("b".to_string())).active, "b");
    assert_eq!(ServerList::new(vec![entry("a"), entry("b")], None).active, "a");
    assert_eq!(ServerList::new(vec![], None).active, "Default");
}

#[test]
fn adding_needs_a_new_name_and_a_host() {
    let mut l = ServerList::new(vec![entry("home")], None);
    assert!(!l.add_server(" home ", "h", "", ""));
    assert!(!l.add_server("  ", "h", "", ""));
    assert!(!l.add_server("den", "   ", "", ""));
    assert!(l.add_server(" den ", " den.local ", "abc", ""));
    let den = &l.servers[1];
    assert_eq!((den.name.as_str(), den.host.as_str(), den.port), ("den", "den.local", 6600));
    assert_eq!(den.password, None);
    assert!(l.add_server("attic", "a", " 6601 ", " secret"));
    assert_eq!(l.servers[2].port, 6601);
    assert_eq!(l.servers[2].password.as_deref(), Some(" secret"));
}

#[test]
fn the_last_server_cannot_be_removed() {
    let mut l = ServerList::new(vec![entry("home")], Some("home".to_string()));
    assert_eq!(l.remove_server("home"), None);
    assert_eq!(names(&l), vec!["home"]);
}

#[test]
fn removing_the_server_in_use_switches_to_the_first_left() {
    let mut l = ServerList::new(vec![entry("a"), entry("b"), entry("c")], Some("a".to_string()));
    assert_eq!(l.remove_server("a"), Some("b".to_string()));
    assert_eq!(names(&l), vec!["b", "c"]);
    assert_eq!(l.default_server.as_deref(), Some("b"));
    assert_eq!(l.remove_server("c"), None);
    assert_eq!(names(&l), vec!["b"]);
}

#[test]
fn renaming_follows_the_active_and_default_server() {
    let mut l = ServerList::new(vec![entry("a"), entry("b")], Some("a".to_string()));
    assert!(!l.rename_server("a", " b "), "taken by another server");
    assert!(!l.rename_server("a", "   "));
    assert!(l.rename_server("a", " a2 "));
    assert_eq!(names(&l), vec!["a2", "b"]);
    assert_eq!(l.active, "a2");
    assert_eq!(l.default_server.as_deref(), Some("a2"));
    assert!(l.rename_server("b", "b"), "keeping its own name is fine");
}

#[test]
fn the_default_and_the_active_server() {
    let mut l = ServerList::new(vec![entry("a"), entry("b")], None);
    assert!(l.set_default("b"));
    assert!(!l.set_default("a"));
    assert!(l.switch_to("b"));
    assert!(!l.switch_to("b"));
    assert_eq!(l.active, "b");
    assert!(l.contains("a") && !l.contains("z"));
}

#[test]
fn editing_the_server_in_use_reconnects_only_when_its_address_changes() {
    let mut l = ServerList::new(vec![entry("a"), entry("b")], None);
    assert!(!l.edit_server("a", "a.local", "6600", "", " snap ", "1705"), "same address");
    assert_eq!(l.servers[0].snapcast_host.as_deref(), Some("snap"));
    assert_eq!(l.servers[0].snapcast_port, Some(1705));
    assert!(l.edit_server("a", " new.local ", "bad", "", "", ""));
    assert_eq!(l.servers[0].host, "new.local");
    assert_eq!(l.servers[0].port, 6600, "an unreadable port keeps the old one");
    assert!(!l.edit_server("b", "x", "1", "", "", ""), "not the server in use");
    assert_eq!(l.servers[1].port, 1);
    assert!(!l.edit_server("a", "   ", "1", "", "", ""), "no host, nothing saved");
    assert_eq!(l.servers[0].port, 6600);
    assert!(l.edit_server("a", "new.local", "", "pw", "", ""), "a new password reconnects");
}

#[test]
fn blank_fields_are_unset() {
    assert_eq!(opt_string("  "), None);
    assert_eq!(opt_string(" x "), Some("x".to_string()));
    let l = ServerList::new(vec![entry("a"), entry("b")], Some("b".to_string()));
    let r = server_row(&l, 0, Some("a"), None);
    assert!(!r.active && !r.default && r.removable && r.renaming && !r.editing);
    let r = server_row(&l, 1, None, Some("b"));
    assert!(r.active && r.default && r.editing && !r.renaming);
}

#[test]
fn the_partition_to_restore_is_the_servers_own_first() {
    let mut l = ServerList::new(vec![entry("a"), entry("b")], Some("a".to_string()));
    assert_eq!(l.partition_to_restore(Some("legacy")), Some("legacy".to_string()));
    assert_eq!(l.partition_to_restore(None), None);
    l.set_partition("kitchen");
    assert_eq!(l.servers[0].default_partition.as_deref(), Some("kitchen"));
    assert_eq!(l.servers[1].default_partition, None);
    assert_eq!(l.partition_to_restore(Some("legacy")), Some("kitchen".to_string()));
}
