//! Saved connection and configuration file tests.

use oxideterm::config::{ConfigFile, SavedConnection};

#[test]
fn test_connection_display() {
    let conn = SavedConnection::new_password("Test", "example.com", 22, "user", "kc-123");
    assert_eq!(conn.display_string(), "user@example.com");

    let conn2 = SavedConnection::new_password("Test", "example.com", 2222, "user", "kc-123");
    assert_eq!(conn2.display_string(), "user@example.com:2222");
}

#[test]
fn test_config_file_operations() {
    let mut config = ConfigFile::default();

    let conn = SavedConnection::new_password("Test", "example.com", 22, "user", "kc-123");
    let id = conn.id.clone();

    config.add_connection(conn);
    assert_eq!(config.connections.len(), 1);

    config.mark_used(&id);
    assert_eq!(config.recent.len(), 1);
    assert_eq!(config.recent[0], id);

    let removed = config.remove_connection(&id);
    assert!(removed.is_some());
    assert_eq!(config.connections.len(), 0);
    assert_eq!(config.recent.len(), 0);
}

#[test]
fn search_matches_case_insensitively() {
    let mut config = ConfigFile::default();
    config.add_connection(SavedConnection::new_key(
        "Build Box",
        "BUILD.example.com",
        22,
        "root",
        "/home/me/.ssh/id",
    ));
    config.add_connection(SavedConnection::new_password(
        "web", "w1.example.com", 22, "deploy", "kc-9",
    ));

    let hits = config.search("build");
    assert_eq!(hits.len(), 1);
    assert_eq!(hits[0].name, "Build Box");

    let hits = config.search("DEPLOY");
    assert_eq!(hits.len(), 1);
    assert_eq!(hits[0].name, "web");

    assert!(config.search("nothing-here").is_empty());
}

#[test]
fn recent_list_caps_at_ten_and_moves_to_front() {
    let mut config = ConfigFile::default();
    let mut ids = Vec::new();
    for i in 0..12 {
        let conn = SavedConnection::new_password(
            &format!("c{}", i),
            "h.example.com",
            22,
            "u",
            "kc",
        );
        ids.push(conn.id.clone());
        config.add_connection(conn);
    }
    for id in &ids {
        config.mark_used(id);
    }
    assert_eq!(config.recent.len(), 10);
    assert_eq!(config.recent[0], ids[11]);
    // Re-marking an old id moves it to the front without duplication.
    config.mark_used(&ids[5]);
    assert_eq!(config.recent[0], ids[5]);
    assert_eq!(
        config.recent.iter().filter(|r| **r == ids[5]).count(),
        1
    );
}

#[test]
fn get_by_group_selects_ungrouped() {
    let mut config = ConfigFile::default();
    let mut a = SavedConnection::new_password("a", "h1", 22, "u", "kc");
    a.group = Some("work".to_string());
    config.add_connection(a);
    config.add_connection(SavedConnection::new_password("b", "h2", 22, "u", "kc"));

    assert_eq!(config.get_by_group(Some("work")).len(), 1);
    assert_eq!(config.get_by_group(None).len(), 1);
    assert_eq!(config.get_by_group(Some("play")).len(), 0);
}
