//! Legacy display tables: token-keyed listings used by the text menu.
//!
//! These tables predate the catalog and keep their historical wording and
//! their own key set (they also list shorthand service tokens). They are
//! plain data: each function returns its table as key/value pairs in a
//! fixed order, pinned pair by pair by its contract.

use vstd::prelude::*;

verus! {

/// The pairs of `get_command_names`, in table order.
pub open spec fn spec_command_names() -> Seq<(Seq<char>, Seq<char>)> {
    seq![
        ("ps"@, "Show running processes (classic flat listing)"@),
        ("htop"@, "Interactive process viewer"@),
        ("kill"@, "Terminate a process gracefully"@),
        ("kill9"@, "Terminate like a gremlin on a rampage"@),
        ("pkill"@, "Kill processes by name"@),
        ("pgrep"@, "Find PIDs by name"@),
        ("free"@, "Human-readable memory stats"@),
        ("vmstat"@, "Memory + process + CPU stats"@),
        ("iostat"@, "CPU and disk I/O stats"@),
        ("mpstat"@, "Per-core CPU stats"@),
        ("sar"@, "Historical system stats"@),
        ("df"@, "Disk space usage (human readable)"@),
        ("du"@, "Folder sizes"@),
        ("ncdu"@, "Interactive disk usage explorer"@),
        ("lsblk"@, "Block devices"@),
        ("mount"@, "Show mounted filesystems"@),
        ("umount"@, "Unmount a device"@),
        ("journalctl"@, "System logs (errors)"@),
        ("journalctl-service"@, "Logs for specific services"@),
        ("dmesg"@, "Kernel ring buffer (boot messages, hardware)"@),
        ("tail-syslog"@, "Classic log watching"@),
        ("auth-log"@, "Security/auth events"@),
        ("ip"@, "Network interfaces and IPs"@),
        ("ping"@, "Basic connectivity testing"@),
        ("traceroute"@, "Network path tracing"@),
        ("netstat"@, "Open ports and connections"@),
        ("nmap"@, "Service scanning"@),
        ("curl"@, "HTTP/API testing"@),
        ("dig"@, "DNS record checking"@),
        ("start"@, "Start a service"@),
        ("stop"@, "Stop a service"@),
        ("restart"@, "Restart a service"@),
        ("enable"@, "Enable service at boot"@),
        ("disable"@, "Disable service at boot"@),
        ("status"@, "Check service status"@),
        ("chkrootkit"@, "Rootkit scanner"@),
        ("rkhunter"@, "Rootkit hunter"@),
        ("lynis"@, "System security audit"@),
        ("clamscan"@, "Virus scanner"@),
        ("fail2ban"@, "Show banned IPs"@),
        ("gpg-encrypt"@, "Encrypt file with GPG"@),
        ("gpg-decrypt"@, "Decrypt GPG file"@),
        ("openssl-encrypt"@, "Encrypt file with OpenSSL"@),
        ("openssl-decrypt"@, "Decrypt OpenSSL file"@),
        ("apt-install"@, "Install package with apt"@),
        ("apt-remove"@, "Remove package with apt"@),
        ("apt-update"@, "Update package lists with apt"@),
        ("pacman-install"@, "Install package with pacman"@),
        ("pacman-remove"@, "Remove package with pacman"@),
        ("pacman-update"@, "Update system with pacman"@),
        ("yay-install"@, "Install package with yay"@),
        ("which"@, "Find binary location"@),
        ("whereis"@, "Locate binary and related files"@),
        ("find-binary"@, "Search for binaries"@),
        ("locate-binary"@, "Quick binary search"@),
        ("dpkg-list"@, "List installed packages (Debian)"@),
        ("pacman-list"@, "List installed packages (Arch)"@),
        ("systemctl-start"@, "Start a service"@),
        ("systemctl-stop"@, "Stop a service"@),
        ("systemctl-restart"@, "Restart a service"@),
        ("systemctl-enable"@, "Enable a service at boot"@),
        ("systemctl-disable"@, "Disable a service at boot"@),
        ("systemctl-status"@, "Show system status"@),
        ("systemctl-list"@, "List all services"@),
    ]
}

/// The pairs of `get_command_categories`, in table order.
pub open spec fn spec_command_categories() -> Seq<(Seq<char>, Seq<char>)> {
    seq![
        ("ps"@, "Process Mischief"@),
        ("htop"@, "Process Mischief"@),
        ("kill"@, "Process Mischief"@),
        ("kill9"@, "Process Mischief"@),
        ("pkill"@, "Process Mischief"@),
        ("pgrep"@, "Process Mischief"@),
        ("free"@, "Resource Spying"@),
        ("vmstat"@, "Resource Spying"@),
        ("iostat"@, "Resource Spying"@),
        ("mpstat"@, "Resource Spying"@),
        ("sar"@, "Resource Spying"@),
        ("df"@, "Disk and Storage Shenanigans"@),
        ("du"@, "Disk and Storage Shenanigans"@),
        ("ncdu"@, "Disk and Storage Shenanigans"@),
        ("lsblk"@, "Disk and Storage Shenanigans"@),
        ("mount"@, "Disk and Storage Shenanigans"@),
        ("umount"@, "Disk and Storage Shenanigans"@),
        ("journalctl"@, "Log Diving"@),
        ("journalctl-service"@, "Log Diving"@),
        ("dmesg"@, "Log Diving"@),
        ("tail-syslog"@, "Log Diving"@),
        ("auth-log"@, "Log Diving"@),
        ("ip"@, "Networking Ninja Tools"@),
        ("ping"@, "Networking Ninja Tools"@),
        ("traceroute"@, "Networking Ninja Tools"@),
        ("netstat"@, "Networking Ninja Tools"@),
        ("nmap"@, "Networking Ninja Tools"@),
        ("curl"@, "Networking Ninja Tools"@),
        ("dig"@, "Networking Ninja Tools"@),
        ("start"@, "Service Summoning / Banishing"@),
        ("stop"@, "Service Summoning / Banishing"@),
        ("restart"@, "Service Summoning / Banishing"@),
        ("enable"@, "Service Summoning / Banishing"@),
        ("disable"@, "Service Summoning / Banishing"@),
        ("status"@, "Service Summoning / Banishing"@),
        ("chkrootkit"@, "Security Scans / Secrets Ops"@),
        ("rkhunter"@, "Security Scans / Secrets Ops"@),
        ("lynis"@, "Security Scans / Secrets Ops"@),
        ("clamscan"@, "Security Scans / Secrets Ops"@),
        ("fail2ban"@, "Security Scans / Secrets Ops"@),
        ("gpg-encrypt"@, "Security Scans / Secrets Ops"@),
        ("gpg-decrypt"@, "Security Scans / Secrets Ops"@),
        ("openssl-encrypt"@, "Security Scans / Secrets Ops"@),
        ("openssl-decrypt"@, "Security Scans / Secrets Ops"@),
        ("apt-install"@, "Package Gremlin"@),
        ("apt-remove"@, "Package Gremlin"@),
        ("apt-update"@, "Package Gremlin"@),
        ("pacman-install"@, "Package Gremlin"@),
        ("pacman-remove"@, "Package Gremlin"@),
        ("pacman-update"@, "Package Gremlin"@),
        ("yay-install"@, "Package Gremlin"@),
        ("which"@, "Package Gremlin"@),
        ("whereis"@, "Package Gremlin"@),
        ("find-binary"@, "Package Gremlin"@),
        ("locate-binary"@, "Package Gremlin"@),
        ("dpkg-list"@, "Package Gremlin"@),
        ("pacman-list"@, "Package Gremlin"@),
        ("systemctl-start"@, "Service Management"@),
        ("systemctl-stop"@, "Service Management"@),
        ("systemctl-restart"@, "Service Management"@),
        ("systemctl-enable"@, "Service Management"@),
        ("systemctl-disable"@, "Service Management"@),
        ("systemctl-status"@, "Service Management"@),
        ("systemctl-list"@, "Service Management"@),
    ]
}

/// The token-to-description display table.
#[verifier::rlimit(100)]
pub fn get_command_names() -> (listing: Vec<(&'static str, &'static str)>)
    ensures
        listing@.len() == spec_command_names().len(),
        forall|i: int|
            0 <= i < listing@.len() ==> (#[trigger] listing@[i]).0@ == spec_command_names()[i].0
                && listing@[i].1@ == spec_command_names()[i].1,
{
    let mut listing: Vec<(&'static str, &'static str)> = Vec::new();
    listing.push(("ps", "Show running processes (classic flat listing)"));
    listing.push(("htop", "Interactive process viewer"));
    listing.push(("kill", "Terminate a process gracefully"));
    listing.push(("kill9", "Terminate like a gremlin on a rampage"));
    listing.push(("pkill", "Kill processes by name"));
    listing.push(("pgrep", "Find PIDs by name"));
    listing.push(("free", "Human-readable memory stats"));
    listing.push(("vmstat", "Memory + process + CPU stats"));
    listing.push(("iostat", "CPU and disk I/O stats"));
    listing.push(("mpstat", "Per-core CPU stats"));
    listing.push(("sar", "Historical system stats"));
    listing.push(("df", "Disk space usage (human readable)"));
    listing.push(("du", "Folder sizes"));
    listing.push(("ncdu", "Interactive disk usage explorer"));
    listing.push(("lsblk", "Block devices"));
    listing.push(("mount", "Show mounted filesystems"));
    listing.push(("umount", "Unmount a device"));
    listing.push(("journalctl", "System logs (errors)"));
    listing.push(("journalctl-service", "Logs for specific services"));
    listing.push(("dmesg", "Kernel ring buffer (boot messages, hardware)"));
    listing.push(("tail-syslog", "Classic log watching"));
    listing.push(("auth-log", "Security/auth events"));
    listing.push(("ip", "Network interfaces and IPs"));
    listing.push(("ping", "Basic connectivity testing"));
    listing.push(("traceroute", "Network path tracing"));
    listing.push(("netstat", "Open ports and connections"));
    listing.push(("nmap", "Service scanning"));
    listing.push(("curl", "HTTP/API testing"));
    listing.push(("dig", "DNS record checking"));
    listing.push(("start", "Start a service"));
    listing.push(("stop", "Stop a service"));
    listing.push(("restart", "Restart a service"));
    listing.push(("enable", "Enable service at boot"));
    listing.push(("disable", "Disable service at boot"));
    listing.push(("status", "Check service status"));
    listing.push(("chkrootkit", "Rootkit scanner"));
    listing.push(("rkhunter", "Rootkit hunter"));
    listing.push(("lynis", "System security audit"));
    listing.push(("clamscan", "Virus scanner"));
    listing.push(("fail2ban", "Show banned IPs"));
    listing.push(("gpg-encrypt", "Encrypt file with GPG"));
    listing.push(("gpg-decrypt", "Decrypt GPG file"));
    listing.push(("openssl-encrypt", "Encrypt file with OpenSSL"));
    listing.push(("openssl-decrypt", "Decrypt OpenSSL file"));
    listing.push(("apt-install", "Install package with apt"));
    listing.push(("apt-remove", "Remove package with apt"));
    listing.push(("apt-update", "Update package lists with apt"));
    listing.push(("pacman-install", "Install package with pacman"));
    listing.push(("pacman-remove", "Remove package with pacman"));
    listing.push(("pacman-update", "Update system with pacman"));
    listing.push(("yay-install", "Install package with yay"));
    listing.push(("which", "Find binary location"));
    listing.push(("whereis", "Locate binary and related files"));
    listing.push(("find-binary", "Search for binaries"));
    listing.push(("locate-binary", "Quick binary search"));
    listing.push(("dpkg-list", "List installed packages (Debian)"));
    listing.push(("pacman-list", "List installed packages (Arch)"));
    listing.push(("systemctl-start", "Start a service"));
    listing.push(("systemctl-stop", "Stop a service"));
    listing.push(("systemctl-restart", "Restart a service"));
    listing.push(("systemctl-enable", "Enable a service at boot"));
    listing.push(("systemctl-disable", "Disable a service at boot"));
    listing.push(("systemctl-status", "Show system status"));
    listing.push(("systemctl-list", "List all services"));
    listing
}

/// The token-to-category display table.
#[verifier::rlimit(100)]
pub fn get_command_categories() -> (listing: Vec<(&'static str, &'static str)>)
    ensures
        listing@.len() == spec_command_categories().len(),
        forall|i: int|
            0 <= i < listing@.len() ==> (#[trigger] listing@[i]).0@
                == spec_command_categories()[i].0 && listing@[i].1@
                == spec_command_categories()[i].1,
{
    let mut listing: Vec<(&'static str, &'static str)> = Vec::new();
    listing.push(("ps", "Process Mischief"));
    listing.push(("htop", "Process Mischief"));
    listing.push(("kill", "Process Mischief"));
    listing.push(("kill9", "Process Mischief"));
    listing.push(("pkill", "Process Mischief"));
    listing.push(("pgrep", "Process Mischief"));
    listing.push(("free", "Resource Spying"));
    listing.push(("vmstat", "Resource Spying"));
    listing.push(("iostat", "Resource Spying"));
    listing.push(("mpstat", "Resource Spying"));
    listing.push(("sar", "Resource Spying"));
    listing.push(("df", "Disk and Storage Shenanigans"));
    listing.push(("du", "Disk and Storage Shenanigans"));
    listing.push(("ncdu", "Disk and Storage Shenanigans"));
    listing.push(("lsblk", "Disk and Storage Shenanigans"));
    listing.push(("mount", "Disk and Storage Shenanigans"));
    listing.push(("umount", "Disk and Storage Shenanigans"));
    listing.push(("journalctl", "Log Diving"));
    listing.push(("journalctl-service", "Log Diving"));
    listing.push(("dmesg", "Log Diving"));
    listing.push(("tail-syslog", "Log Diving"));
    listing.push(("auth-log", "Log Diving"));
    listing.push(("ip", "Networking Ninja Tools"));
    listing.push(("ping", "Networking Ninja Tools"));
    listing.push(("traceroute", "Networking Ninja Tools"));
    listing.push(("netstat", "Networking Ninja Tools"));
    listing.push(("nmap", "Networking Ninja Tools"));
    listing.push(("curl", "Networking Ninja Tools"));
    listing.push(("dig", "Networking Ninja Tools"));
    listing.push(("start", "Service Summoning / Banishing"));
    listing.push(("stop", "Service Summoning / Banishing"));
    listing.push(("restart", "Service Summoning / Banishing"));
    listing.push(("enable", "Service Summoning / Banishing"));
    listing.push(("disable", "Service Summoning / Banishing"));
    listing.push(("status", "Service Summoning / Banishing"));
    listing.push(("chkrootkit", "Security Scans / Secrets Ops"));
    listing.push(("rkhunter", "Security Scans / Secrets Ops"));
    listing.push(("lynis", "Security Scans / Secrets Ops"));
    listing.push(("clamscan", "Security Scans / Secrets Ops"));
    listing.push(("fail2ban", "Security Scans / Secrets Ops"));
    listing.push(("gpg-encrypt", "Security Scans / Secrets Ops"));
    listing.push(("gpg-decrypt", "Security Scans / Secrets Ops"));
    listing.push(("openssl-encrypt", "Security Scans / Secrets Ops"));
    listing.push(("openssl-decrypt", "Security Scans / Secrets Ops"));
    listing.push(("apt-install", "Package Gremlin"));
    listing.push(("apt-remove", "Package Gremlin"));
    listing.push(("apt-update", "Package Gremlin"));
    listing.push(("pacman-install", "Package Gremlin"));
    listing.push(("pacman-remove", "Package Gremlin"));
    listing.push(("pacman-update", "Package Gremlin"));
    listing.push(("yay-install", "Package Gremlin"));
    listing.push(("which", "Package Gremlin"));
    listing.push(("whereis", "Package Gremlin"));
    listing.push(("find-binary", "Package Gremlin"));
    listing.push(("locate-binary", "Package Gremlin"));
    listing.push(("dpkg-list", "Package Gremlin"));
    listing.push(("pacman-list", "Package Gremlin"));
    listing.push(("systemctl-start", "Service Management"));
    listing.push(("systemctl-stop", "Service Management"));
    listing.push(("systemctl-restart", "Service Management"));
    listing.push(("systemctl-enable", "Service Management"));
    listing.push(("systemctl-disable", "Service Management"));
    listing.push(("systemctl-status", "Service Management"));
    listing.push(("systemctl-list", "Service Management"));
    listing
}

} // verus!
