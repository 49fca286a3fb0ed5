use ops_console::listing::get_command_categories;
use ops_console::listing::get_command_names;
use ops_console::validate::is_valid_ip;
use ops_console::validate::is_valid_url;

fn lookup<'a>(table: &'a [(&'a str, &'a str)], key: &str) -> Option<&'a str> {
    table.iter().find(|(k, _)| *k == key).map(|(_, v)| *v)
}

#[test]
fn command_names_table_contents() {
    let names = get_command_names();
    assert_eq!(names.len(), 64);
    assert_eq!(lookup(&names, "ps"), Some("Show running processes (classic flat listing)"));
    assert_eq!(lookup(&names, "kill9"), Some("Terminate like a gremlin on a rampage"));
    assert_eq!(lookup(&names, "status"), Some("Check service status"));
    assert_eq!(lookup(&names, "systemctl-status"), Some("Show system status"));
    assert_eq!(lookup(&names, "pacman-list"), Some("List installed packages (Arch)"));
    assert_eq!(lookup(&names, "bogus-token"), None);
}

#[test]
fn command_names_keys_are_unique() {
    let names = get_command_names();
    for i in 0..names.len() {
        for j in 0..names.len() {
            if i != j {
                assert_ne!(names[i].0, names[j].0);
            }
        }
    }
}

#[test]
fn command_categories_table_contents() {
    let categories = get_command_categories();
    assert_eq!(categories.len(), 64);
    assert_eq!(lookup(&categories, "ps"), Some("Process Mischief"));
    assert_eq!(lookup(&categories, "free"), Some("Resource Spying"));
    assert_eq!(lookup(&categories, "df"), Some("Disk and Storage Shenanigans"));
    assert_eq!(lookup(&categories, "dmesg"), Some("Log Diving"));
    assert_eq!(lookup(&categories, "nmap"), Some("Networking Ninja Tools"));
    assert_eq!(lookup(&categories, "start"), Some("Service Summoning / Banishing"));
    assert_eq!(lookup(&categories, "gpg-encrypt"), Some("Security Scans / Secrets Ops"));
    assert_eq!(lookup(&categories, "yay-install"), Some("Package Gremlin"));
    assert_eq!(lookup(&categories, "systemctl-list"), Some("Service Management"));
}

#[test]
fn both_tables_share_their_key_set() {
    let names = get_command_names();
    let categories = get_command_categories();
    for (key, _) in &names {
        assert!(lookup(&categories, key).is_some(), "no category for {}", key);
    }
    for (key, _) in &categories {
        assert!(lookup(&names, key).is_some(), "no description for {}", key);
    }
}

#[test]
fn valid_dotted_quads_are_accepted() {
    assert!(is_valid_ip("1.2.3.4"));
    assert!(is_valid_ip("0.0.0.0"));
    assert!(is_valid_ip("255.255.255.255"));
    assert!(is_valid_ip("192.168.0.1"));
    assert!(is_valid_ip("010.001.000.255"));
    assert!(is_valid_ip("+1.2.3.+4"));
}

#[test]
fn malformed_addresses_are_rejected() {
    assert!(!is_valid_ip(""));
    assert!(!is_valid_ip("1.2.3"));
    assert!(!is_valid_ip("1.2.3.4.5"));
    assert!(!is_valid_ip("256.1.1.1"));
    assert!(!is_valid_ip("1.2.3.999999999999999999999"));
    assert!(!is_valid_ip("1..3.4"));
    assert!(!is_valid_ip(".2.3.4"));
    assert!(!is_valid_ip("1.2.3."));
    assert!(!is_valid_ip("a.b.c.d"));
    assert!(!is_valid_ip("1.2.3.4 "));
    assert!(!is_valid_ip("-1.2.3.4"));
    assert!(!is_valid_ip("1.2.3.+"));
}

#[test]
fn url_scheme_check() {
    assert!(is_valid_url("http://example.test"));
    assert!(is_valid_url("https://example.test/path?q=1"));
    assert!(is_valid_url("http://"));
    assert!(!is_valid_url("ftp://example.test"));
    assert!(!is_valid_url("example.test"));
    assert!(!is_valid_url("httpx://example.test"));
    assert!(!is_valid_url("HTTPS://example.test"));
    assert!(!is_valid_url(""));
}
