use ops_console::catalog::entries;
use ops_console::catalog::entries_in;
use ops_console::catalog::find_by_token;
use ops_console::command::CommandCategory;
use ops_console::command::CommandName;

#[test]
fn catalog_has_every_command_once() {
    let all = entries();
    let ids = CommandName::iter();
    assert_eq!(all.len(), 58);
    assert_eq!(ids.len(), 58);
    for (i, entry) in all.iter().enumerate() {
        assert_eq!(entry.id, ids[i]);
        assert_eq!(entry.id.index(), i);
    }
    for i in 0..ids.len() {
        for j in 0..ids.len() {
            if i != j {
                assert_ne!(ids[i], ids[j]);
            }
        }
    }
}

#[test]
fn category_and_description_are_total_and_nonempty() {
    for entry in entries() {
        assert!(!entry.token.is_empty());
        assert!(!entry.description.is_empty());
        assert_eq!(entry.category, entry.id.category());
        assert_eq!(entry.description, entry.id.description());
        assert_eq!(entry.token, entry.id.token());
        assert!(!entry.category.name().is_empty());
    }
}

#[test]
fn find_by_token_round_trips_every_entry() {
    for entry in entries() {
        let found = find_by_token(entry.token).expect("catalog token must resolve");
        assert_eq!(found.id, entry.id);
        assert_eq!(found.token, entry.token);
        assert_eq!(found.category, entry.category);
        assert_eq!(found.description, entry.description);
    }
}

#[test]
fn tokens_are_pairwise_unique() {
    let all = entries();
    for i in 0..all.len() {
        for j in 0..all.len() {
            if i != j {
                assert_ne!(all[i].token, all[j].token);
            }
        }
    }
}

#[test]
fn unknown_tokens_do_not_resolve() {
    assert!(find_by_token("bogus-token").is_none());
    assert!(find_by_token("").is_none());
    assert!(find_by_token("PS").is_none());
    assert!(find_by_token("ps ").is_none());
    assert!(find_by_token("systemctl").is_none());
}

#[test]
fn find_by_token_resolves_known_tokens() {
    assert_eq!(find_by_token("ps").unwrap().id, CommandName::Ps);
    assert_eq!(find_by_token("kill").unwrap().id, CommandName::KillGraceful);
    assert_eq!(find_by_token("kill9").unwrap().id, CommandName::KillForce);
    assert_eq!(find_by_token("journalctl-service").unwrap().id, CommandName::JournalctlService);
    assert_eq!(find_by_token("pacman-list").unwrap().id, CommandName::PacmanList);
}

#[test]
fn entries_in_returns_category_entries_in_catalog_order() {
    let networking = entries_in(CommandCategory::Networking);
    let tokens: Vec<&str> = networking.iter().map(|e| e.token).collect();
    assert_eq!(tokens, vec!["ip", "ping", "traceroute", "netstat", "nmap", "curl", "dig"]);
    for entry in &networking {
        assert_eq!(entry.category, CommandCategory::Networking);
    }

    let expected: Vec<&str> = entries()
        .iter()
        .filter(|e| e.category == CommandCategory::Networking)
        .map(|e| e.token)
        .collect();
    assert_eq!(tokens, expected);
}

#[test]
fn entries_in_partitions_the_catalog() {
    let categories = [
        CommandCategory::ProcessManagement,
        CommandCategory::ResourceMonitoring,
        CommandCategory::DiskAndStorage,
        CommandCategory::LogDiving,
        CommandCategory::Networking,
        CommandCategory::ServiceManagement,
        CommandCategory::Security,
        CommandCategory::PackageManagement,
    ];
    let mut total = 0;
    for category in categories {
        let group = entries_in(category);
        assert!(!group.is_empty());
        total += group.len();
    }
    assert_eq!(total, entries().len());
}

#[test]
fn category_labels() {
    assert_eq!(CommandCategory::ProcessManagement.name(), "Process Management");
    assert_eq!(CommandCategory::PackageManagement.name(), "Package Management");
    assert_eq!(CommandName::Ps.category().name(), "Process Management");
    assert_eq!(CommandName::Dig.category().name(), "Networking");
}
