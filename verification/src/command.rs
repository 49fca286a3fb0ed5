//! The closed set of command identifiers and their grouping categories.
//!
//! `CommandName` is the catalog's identifier type: a fixed, enumerable set
//! known at build time. Each identifier has exactly one `CommandCategory`,
//! one canonical token and one description; those assignments are total
//! functions over the closed set, given here both as spec functions (the
//! model) and as executable methods proved against them.

use vstd::prelude::*;

verus! {

/// Grouping tag for related commands. Every `CommandName` belongs to
/// exactly one category.
#[derive(Clone, Copy, Debug, PartialEq, Eq, Structural)]
pub enum CommandCategory {
    ProcessManagement,
    ResourceMonitoring,
    DiskAndStorage,
    LogDiving,
    Networking,
    ServiceManagement,
    Security,
    PackageManagement,
}

/// Identifier for one supported operation. The set is closed: no identifier
/// is created or destroyed at runtime.
#[derive(Clone, Copy, Debug, PartialEq, Eq, Structural)]
pub enum CommandName {
    Ps,
    Htop,
    KillGraceful,
    KillForce,
    Pkill,
    Pgrep,
    Free,
    Vmstat,
    Iostat,
    Mpstat,
    Sar,
    Df,
    Du,
    Ncdu,
    Lsblk,
    Mount,
    Umount,
    JournalctlSystem,
    JournalctlService,
    Dmesg,
    TailSyslog,
    AuthLog,
    Ip,
    Ping,
    Traceroute,
    Netstat,
    Nmap,
    Curl,
    Dig,
    SystemctlStart,
    SystemctlStop,
    SystemctlRestart,
    SystemctlEnable,
    SystemctlDisable,
    SystemctlStatus,
    SystemctlList,
    Chkrootkit,
    Rkhunter,
    Lynis,
    Clamscan,
    Fail2ban,
    GpgEncrypt,
    GpgDecrypt,
    OpensslEncrypt,
    OpensslDecrypt,
    AptInstall,
    AptRemove,
    AptUpdate,
    PacmanInstall,
    PacmanRemove,
    PacmanUpdate,
    YayInstall,
    Which,
    Whereis,
    FindBinary,
    LocateBinary,
    DpkgList,
    PacmanList,
}

/// How many commands the catalog holds.
pub const COMMAND_COUNT: usize = 58;

/// Every command identifier, in catalog (declaration) order. This sequence
/// is the catalog's iteration order; `entries` in the catalog module follows
/// it.
pub open spec fn all_commands() -> Seq<CommandName> {
    seq![
        CommandName::Ps,
        CommandName::Htop,
        CommandName::KillGraceful,
        CommandName::KillForce,
        CommandName::Pkill,
        CommandName::Pgrep,
        CommandName::Free,
        CommandName::Vmstat,
        CommandName::Iostat,
        CommandName::Mpstat,
        CommandName::Sar,
        CommandName::Df,
        CommandName::Du,
        CommandName::Ncdu,
        CommandName::Lsblk,
        CommandName::Mount,
        CommandName::Umount,
        CommandName::JournalctlSystem,
        CommandName::JournalctlService,
        CommandName::Dmesg,
        CommandName::TailSyslog,
        CommandName::AuthLog,
        CommandName::Ip,
        CommandName::Ping,
        CommandName::Traceroute,
        CommandName::Netstat,
        CommandName::Nmap,
        CommandName::Curl,
        CommandName::Dig,
        CommandName::SystemctlStart,
        CommandName::SystemctlStop,
        CommandName::SystemctlRestart,
        CommandName::SystemctlEnable,
        CommandName::SystemctlDisable,
        CommandName::SystemctlStatus,
        CommandName::SystemctlList,
        CommandName::Chkrootkit,
        CommandName::Rkhunter,
        CommandName::Lynis,
        CommandName::Clamscan,
        CommandName::Fail2ban,
        CommandName::GpgEncrypt,
        CommandName::GpgDecrypt,
        CommandName::OpensslEncrypt,
        CommandName::OpensslDecrypt,
        CommandName::AptInstall,
        CommandName::AptRemove,
        CommandName::AptUpdate,
        CommandName::PacmanInstall,
        CommandName::PacmanRemove,
        CommandName::PacmanUpdate,
        CommandName::YayInstall,
        CommandName::Which,
        CommandName::Whereis,
        CommandName::FindBinary,
        CommandName::LocateBinary,
        CommandName::DpkgList,
        CommandName::PacmanList,
    ]
}

/// Position of a command in catalog order.
pub open spec fn id_index(id: CommandName) -> int {
    match id {
        CommandName::Ps => 0,
        CommandName::Htop => 1,
        CommandName::KillGraceful => 2,
        CommandName::KillForce => 3,
        CommandName::Pkill => 4,
        CommandName::Pgrep => 5,
        CommandName::Free => 6,
        CommandName::Vmstat => 7,
        CommandName::Iostat => 8,
        CommandName::Mpstat => 9,
        CommandName::Sar => 10,
        CommandName::Df => 11,
        CommandName::Du => 12,
        CommandName::Ncdu => 13,
        CommandName::Lsblk => 14,
        CommandName::Mount => 15,
        CommandName::Umount => 16,
        CommandName::JournalctlSystem => 17,
        CommandName::JournalctlService => 18,
        CommandName::Dmesg => 19,
        CommandName::TailSyslog => 20,
        CommandName::AuthLog => 21,
        CommandName::Ip => 22,
        CommandName::Ping => 23,
        CommandName::Traceroute => 24,
        CommandName::Netstat => 25,
        CommandName::Nmap => 26,
        CommandName::Curl => 27,
        CommandName::Dig => 28,
        CommandName::SystemctlStart => 29,
        CommandName::SystemctlStop => 30,
        CommandName::SystemctlRestart => 31,
        CommandName::SystemctlEnable => 32,
        CommandName::SystemctlDisable => 33,
        CommandName::SystemctlStatus => 34,
        CommandName::SystemctlList => 35,
        CommandName::Chkrootkit => 36,
        CommandName::Rkhunter => 37,
        CommandName::Lynis => 38,
        CommandName::Clamscan => 39,
        CommandName::Fail2ban => 40,
        CommandName::GpgEncrypt => 41,
        CommandName::GpgDecrypt => 42,
        CommandName::OpensslEncrypt => 43,
        CommandName::OpensslDecrypt => 44,
        CommandName::AptInstall => 45,
        CommandName::AptRemove => 46,
        CommandName::AptUpdate => 47,
        CommandName::PacmanInstall => 48,
        CommandName::PacmanRemove => 49,
        CommandName::PacmanUpdate => 50,
        CommandName::YayInstall => 51,
        CommandName::Which => 52,
        CommandName::Whereis => 53,
        CommandName::FindBinary => 54,
        CommandName::LocateBinary => 55,
        CommandName::DpkgList => 56,
        CommandName::PacmanList => 57,
    }
}

/// The category assigned to a command: total over the closed set.
pub open spec fn category_of(id: CommandName) -> CommandCategory {
    match id {
        CommandName::Ps
        | CommandName::Htop
        | CommandName::KillGraceful
        | CommandName::KillForce
        | CommandName::Pkill
        | CommandName::Pgrep => CommandCategory::ProcessManagement,
        CommandName::Free
        | CommandName::Vmstat
        | CommandName::Iostat
        | CommandName::Mpstat
        | CommandName::Sar => CommandCategory::ResourceMonitoring,
        CommandName::Df
        | CommandName::Du
        | CommandName::Ncdu
        | CommandName::Lsblk
        | CommandName::Mount
        | CommandName::Umount => CommandCategory::DiskAndStorage,
        CommandName::JournalctlSystem
        | CommandName::JournalctlService
        | CommandName::Dmesg
        | CommandName::TailSyslog
        | CommandName::AuthLog => CommandCategory::LogDiving,
        CommandName::Ip
        | CommandName::Ping
        | CommandName::Traceroute
        | CommandName::Netstat
        | CommandName::Nmap
        | CommandName::Curl
        | CommandName::Dig => CommandCategory::Networking,
        CommandName::SystemctlStart
        | CommandName::SystemctlStop
        | CommandName::SystemctlRestart
        | CommandName::SystemctlEnable
        | CommandName::SystemctlDisable
        | CommandName::SystemctlStatus
        | CommandName::SystemctlList => CommandCategory::ServiceManagement,
        CommandName::Chkrootkit
        | CommandName::Rkhunter
        | CommandName::Lynis
        | CommandName::Clamscan
        | CommandName::Fail2ban
        | CommandName::GpgEncrypt
        | CommandName::GpgDecrypt
        | CommandName::OpensslEncrypt
        | CommandName::OpensslDecrypt => CommandCategory::Security,
        CommandName::AptInstall
        | CommandName::AptRemove
        | CommandName::AptUpdate
        | CommandName::PacmanInstall
        | CommandName::PacmanRemove
        | CommandName::PacmanUpdate
        | CommandName::YayInstall
        | CommandName::Which
        | CommandName::Whereis
        | CommandName::FindBinary
        | CommandName::LocateBinary
        | CommandName::DpkgList
        | CommandName::PacmanList => CommandCategory::PackageManagement,
    }
}

/// The canonical token of a command: the operator-facing string that
/// selects it.
pub open spec fn token_of(id: CommandName) -> Seq<char> {
    match id {
        CommandName::Ps => "ps"@,
        CommandName::Htop => "htop"@,
        CommandName::KillGraceful => "kill"@,
        CommandName::KillForce => "kill9"@,
        CommandName::Pkill => "pkill"@,
        CommandName::Pgrep => "pgrep"@,
        CommandName::Free => "free"@,
        CommandName::Vmstat => "vmstat"@,
        CommandName::Iostat => "iostat"@,
        CommandName::Mpstat => "mpstat"@,
        CommandName::Sar => "sar"@,
        CommandName::Df => "df"@,
        CommandName::Du => "du"@,
        CommandName::Ncdu => "ncdu"@,
        CommandName::Lsblk => "lsblk"@,
        CommandName::Mount => "mount"@,
        CommandName::Umount => "umount"@,
        CommandName::JournalctlSystem => "journalctl"@,
        CommandName::JournalctlService => "journalctl-service"@,
        CommandName::Dmesg => "dmesg"@,
        CommandName::TailSyslog => "tail-syslog"@,
        CommandName::AuthLog => "auth-log"@,
        CommandName::Ip => "ip"@,
        CommandName::Ping => "ping"@,
        CommandName::Traceroute => "traceroute"@,
        CommandName::Netstat => "netstat"@,
        CommandName::Nmap => "nmap"@,
        CommandName::Curl => "curl"@,
        CommandName::Dig => "dig"@,
        CommandName::SystemctlStart => "systemctl-start"@,
        CommandName::SystemctlStop => "systemctl-stop"@,
        CommandName::SystemctlRestart => "systemctl-restart"@,
        CommandName::SystemctlEnable => "systemctl-enable"@,
        CommandName::SystemctlDisable => "systemctl-disable"@,
        CommandName::SystemctlStatus => "systemctl-status"@,
        CommandName::SystemctlList => "systemctl-list"@,
        CommandName::Chkrootkit => "chkrootkit"@,
        CommandName::Rkhunter => "rkhunter"@,
        CommandName::Lynis => "lynis"@,
        CommandName::Clamscan => "clamscan"@,
        CommandName::Fail2ban => "fail2ban"@,
        CommandName::GpgEncrypt => "gpg-encrypt"@,
        CommandName::GpgDecrypt => "gpg-decrypt"@,
        CommandName::OpensslEncrypt => "openssl-encrypt"@,
        CommandName::OpensslDecrypt => "openssl-decrypt"@,
        CommandName::AptInstall => "apt-install"@,
        CommandName::AptRemove => "apt-remove"@,
        CommandName::AptUpdate => "apt-update"@,
        CommandName::PacmanInstall => "pacman-install"@,
        CommandName::PacmanRemove => "pacman-remove"@,
        CommandName::PacmanUpdate => "pacman-update"@,
        CommandName::YayInstall => "yay-install"@,
        CommandName::Which => "which"@,
        CommandName::Whereis => "whereis"@,
        CommandName::FindBinary => "find-binary"@,
        CommandName::LocateBinary => "locate-binary"@,
        CommandName::DpkgList => "dpkg-list"@,
        CommandName::PacmanList => "pacman-list"@,
    }
}

/// The human-readable description of a command: total over the closed set.
pub open spec fn description_of(id: CommandName) -> Seq<char> {
    match id {
        CommandName::Ps => "Show running processes"@,
        CommandName::Htop => "Interactive process viewer"@,
        CommandName::KillGraceful => "Gracefully terminate a process"@,
        CommandName::KillForce => "Forcefully terminate a process"@,
        CommandName::Pkill => "Kill processes by name"@,
        CommandName::Pgrep => "Find processes by name"@,
        CommandName::Free => "Human-readable memory stats"@,
        CommandName::Vmstat => "Memory + process + CPU stats"@,
        CommandName::Iostat => "CPU and disk I/O stats"@,
        CommandName::Mpstat => "Per-core CPU stats"@,
        CommandName::Sar => "Historical system stats"@,
        CommandName::Df => "Disk space usage (human readable)"@,
        CommandName::Du => "Folder sizes"@,
        CommandName::Ncdu => "Interactive disk usage explorer"@,
        CommandName::Lsblk => "Block devices"@,
        CommandName::Mount => "Show mounted filesystems"@,
        CommandName::Umount => "Unmount a device"@,
        CommandName::JournalctlSystem => "System journal logs"@,
        CommandName::JournalctlService => "Service-specific logs"@,
        CommandName::Dmesg => "Kernel messages"@,
        CommandName::TailSyslog => "System log tail"@,
        CommandName::AuthLog => "Authentication logs"@,
        CommandName::Ip => "Show network interfaces"@,
        CommandName::Ping => "Test network connectivity"@,
        CommandName::Traceroute => "Trace network path"@,
        CommandName::Netstat => "Network statistics"@,
        CommandName::Nmap => "Network scanner"@,
        CommandName::Curl => "Transfer data from URLs"@,
        CommandName::Dig => "DNS lookup utility"@,
        CommandName::SystemctlStart => "Start a service"@,
        CommandName::SystemctlStop => "Stop a service"@,
        CommandName::SystemctlRestart => "Restart a service"@,
        CommandName::SystemctlEnable => "Enable a service"@,
        CommandName::SystemctlDisable => "Disable a service"@,
        CommandName::SystemctlStatus => "Check service status"@,
        CommandName::SystemctlList => "List all services"@,
        CommandName::Chkrootkit => "Check for rootkits"@,
        CommandName::Rkhunter => "Rootkit hunter"@,
        CommandName::Lynis => "Security auditing"@,
        CommandName::Clamscan => "Virus scanner"@,
        CommandName::Fail2ban => "Ban malicious IPs"@,
        CommandName::GpgEncrypt => "Encrypt with GPG"@,
        CommandName::GpgDecrypt => "Decrypt with GPG"@,
        CommandName::OpensslEncrypt => "Encrypt with OpenSSL"@,
        CommandName::OpensslDecrypt => "Decrypt with OpenSSL"@,
        CommandName::AptInstall => "Install Debian package"@,
        CommandName::AptRemove => "Remove Debian package"@,
        CommandName::AptUpdate => "Update Debian packages"@,
        CommandName::PacmanInstall => "Install Arch package"@,
        CommandName::PacmanRemove => "Remove Arch package"@,
        CommandName::PacmanUpdate => "Update Arch packages"@,
        CommandName::YayInstall => "Install AUR package"@,
        CommandName::Which => "Find binary location"@,
        CommandName::Whereis => "Locate binary and docs"@,
        CommandName::FindBinary => "Find binary in PATH"@,
        CommandName::LocateBinary => "Find binary in database"@,
        CommandName::DpkgList => "List Debian packages"@,
        CommandName::PacmanList => "List Arch packages"@,
    }
}

/// The display label of a category.
pub open spec fn category_label_of(category: CommandCategory) -> Seq<char> {
    match category {
        CommandCategory::ProcessManagement => "Process Management"@,
        CommandCategory::ResourceMonitoring => "Resource Monitoring"@,
        CommandCategory::DiskAndStorage => "Disk and Storage"@,
        CommandCategory::LogDiving => "Log Diving"@,
        CommandCategory::Networking => "Networking"@,
        CommandCategory::ServiceManagement => "Service Management"@,
        CommandCategory::Security => "Security"@,
        CommandCategory::PackageManagement => "Package Management"@,
    }
}

impl CommandCategory {
    /// Display label for the category heading of a menu.
    pub fn name(&self) -> (label: &'static str)
        ensures
            label@ == category_label_of(*self),
    {
        match self {
            CommandCategory::ProcessManagement => "Process Management",
            CommandCategory::ResourceMonitoring => "Resource Monitoring",
            CommandCategory::DiskAndStorage => "Disk and Storage",
            CommandCategory::LogDiving => "Log Diving",
            CommandCategory::Networking => "Networking",
            CommandCategory::ServiceManagement => "Service Management",
            CommandCategory::Security => "Security",
            CommandCategory::PackageManagement => "Package Management",
        }
    }
}

impl CommandName {
    /// All commands in catalog order, for rendering menus and for the
    /// startup self-check. Restartable: every call returns the same
    /// sequence.
    #[verifier::rlimit(100)]
    pub fn iter() -> (ids: Vec<CommandName>)
        ensures
            ids@ == all_commands(),
    {
        let mut ids: Vec<CommandName> = Vec::new();
        ids.push(CommandName::Ps);
        ids.push(CommandName::Htop);
        ids.push(CommandName::KillGraceful);
        ids.push(CommandName::KillForce);
        ids.push(CommandName::Pkill);
        ids.push(CommandName::Pgrep);
        ids.push(CommandName::Free);
        ids.push(CommandName::Vmstat);
        ids.push(CommandName::Iostat);
        ids.push(CommandName::Mpstat);
        ids.push(CommandName::Sar);
        ids.push(CommandName::Df);
        ids.push(CommandName::Du);
        ids.push(CommandName::Ncdu);
        ids.push(CommandName::Lsblk);
        ids.push(CommandName::Mount);
        ids.push(CommandName::Umount);
        ids.push(CommandName::JournalctlSystem);
        ids.push(CommandName::JournalctlService);
        ids.push(CommandName::Dmesg);
        ids.push(CommandName::TailSyslog);
        ids.push(CommandName::AuthLog);
        ids.push(CommandName::Ip);
        ids.push(CommandName::Ping);
        ids.push(CommandName::Traceroute);
        ids.push(CommandName::Netstat);
        ids.push(CommandName::Nmap);
        ids.push(CommandName::Curl);
        ids.push(CommandName::Dig);
        ids.push(CommandName::SystemctlStart);
        ids.push(CommandName::SystemctlStop);
        ids.push(CommandName::SystemctlRestart);
        ids.push(CommandName::SystemctlEnable);
        ids.push(CommandName::SystemctlDisable);
        ids.push(CommandName::SystemctlStatus);
        ids.push(CommandName::SystemctlList);
        ids.push(CommandName::Chkrootkit);
        ids.push(CommandName::Rkhunter);
        ids.push(CommandName::Lynis);
        ids.push(CommandName::Clamscan);
        ids.push(CommandName::Fail2ban);
        ids.push(CommandName::GpgEncrypt);
        ids.push(CommandName::GpgDecrypt);
        ids.push(CommandName::OpensslEncrypt);
        ids.push(CommandName::OpensslDecrypt);
        ids.push(CommandName::AptInstall);
        ids.push(CommandName::AptRemove);
        ids.push(CommandName::AptUpdate);
        ids.push(CommandName::PacmanInstall);
        ids.push(CommandName::PacmanRemove);
        ids.push(CommandName::PacmanUpdate);
        ids.push(CommandName::YayInstall);
        ids.push(CommandName::Which);
        ids.push(CommandName::Whereis);
        ids.push(CommandName::FindBinary);
        ids.push(CommandName::LocateBinary);
        ids.push(CommandName::DpkgList);
        ids.push(CommandName::PacmanList);
        assert(ids@ =~= all_commands());
        ids
    }

    /// Position of this command in catalog order.
    pub fn index(&self) -> (i: usize)
        ensures
            i == id_index(*self),
    {
        match self {
            CommandName::Ps => 0,
            CommandName::Htop => 1,
            CommandName::KillGraceful => 2,
            CommandName::KillForce => 3,
            CommandName::Pkill => 4,
            CommandName::Pgrep => 5,
            CommandName::Free => 6,
            CommandName::Vmstat => 7,
            CommandName::Iostat => 8,
            CommandName::Mpstat => 9,
            CommandName::Sar => 10,
            CommandName::Df => 11,
            CommandName::Du => 12,
            CommandName::Ncdu => 13,
            CommandName::Lsblk => 14,
            CommandName::Mount => 15,
            CommandName::Umount => 16,
            CommandName::JournalctlSystem => 17,
            CommandName::JournalctlService => 18,
            CommandName::Dmesg => 19,
            CommandName::TailSyslog => 20,
            CommandName::AuthLog => 21,
            CommandName::Ip => 22,
            CommandName::Ping => 23,
            CommandName::Traceroute => 24,
            CommandName::Netstat => 25,
            CommandName::Nmap => 26,
            CommandName::Curl => 27,
            CommandName::Dig => 28,
            CommandName::SystemctlStart => 29,
            CommandName::SystemctlStop => 30,
            CommandName::SystemctlRestart => 31,
            CommandName::SystemctlEnable => 32,
            CommandName::SystemctlDisable => 33,
            CommandName::SystemctlStatus => 34,
            CommandName::SystemctlList => 35,
            CommandName::Chkrootkit => 36,
            CommandName::Rkhunter => 37,
            CommandName::Lynis => 38,
            CommandName::Clamscan => 39,
            CommandName::Fail2ban => 40,
            CommandName::GpgEncrypt => 41,
            CommandName::GpgDecrypt => 42,
            CommandName::OpensslEncrypt => 43,
            CommandName::OpensslDecrypt => 44,
            CommandName::AptInstall => 45,
            CommandName::AptRemove => 46,
            CommandName::AptUpdate => 47,
            CommandName::PacmanInstall => 48,
            CommandName::PacmanRemove => 49,
            CommandName::PacmanUpdate => 50,
            CommandName::YayInstall => 51,
            CommandName::Which => 52,
            CommandName::Whereis => 53,
            CommandName::FindBinary => 54,
            CommandName::LocateBinary => 55,
            CommandName::DpkgList => 56,
            CommandName::PacmanList => 57,
        }
    }

    /// The category of this command.
    pub fn category(&self) -> (category: CommandCategory)
        ensures
            category == category_of(*self),
    {
        match self {
            CommandName::Ps
            | CommandName::Htop
            | CommandName::KillGraceful
            | CommandName::KillForce
            | CommandName::Pkill
            | CommandName::Pgrep => CommandCategory::ProcessManagement,
            CommandName::Free
            | CommandName::Vmstat
            | CommandName::Iostat
            | CommandName::Mpstat
            | CommandName::Sar => CommandCategory::ResourceMonitoring,
            CommandName::Df
            | CommandName::Du
            | CommandName::Ncdu
            | CommandName::Lsblk
            | CommandName::Mount
            | CommandName::Umount => CommandCategory::DiskAndStorage,
            CommandName::JournalctlSystem
            | CommandName::JournalctlService
            | CommandName::Dmesg
            | CommandName::TailSyslog
            | CommandName::AuthLog => CommandCategory::LogDiving,
            CommandName::Ip
            | CommandName::Ping
            | CommandName::Traceroute
            | CommandName::Netstat
            | CommandName::Nmap
            | CommandName::Curl
            | CommandName::Dig => CommandCategory::Networking,
            CommandName::SystemctlStart
            | CommandName::SystemctlStop
            | CommandName::SystemctlRestart
            | CommandName::SystemctlEnable
            | CommandName::SystemctlDisable
            | CommandName::SystemctlStatus
            | CommandName::SystemctlList => CommandCategory::ServiceManagement,
            CommandName::Chkrootkit
            | CommandName::Rkhunter
            | CommandName::Lynis
            | CommandName::Clamscan
            | CommandName::Fail2ban
            | CommandName::GpgEncrypt
            | CommandName::GpgDecrypt
            | CommandName::OpensslEncrypt
            | CommandName::OpensslDecrypt => CommandCategory::Security,
            CommandName::AptInstall
            | CommandName::AptRemove
            | CommandName::AptUpdate
            | CommandName::PacmanInstall
            | CommandName::PacmanRemove
            | CommandName::PacmanUpdate
            | CommandName::YayInstall
            | CommandName::Which
            | CommandName::Whereis
            | CommandName::FindBinary
            | CommandName::LocateBinary
            | CommandName::DpkgList
            | CommandName::PacmanList => CommandCategory::PackageManagement,
        }
    }

    /// The canonical token that selects this command.
    pub fn token(&self) -> (token: &'static str)
        ensures
            token@ == token_of(*self),
    {
        match self {
            CommandName::Ps => "ps",
            CommandName::Htop => "htop",
            CommandName::KillGraceful => "kill",
            CommandName::KillForce => "kill9",
            CommandName::Pkill => "pkill",
            CommandName::Pgrep => "pgrep",
            CommandName::Free => "free",
            CommandName::Vmstat => "vmstat",
            CommandName::Iostat => "iostat",
            CommandName::Mpstat => "mpstat",
            CommandName::Sar => "sar",
            CommandName::Df => "df",
            CommandName::Du => "du",
            CommandName::Ncdu => "ncdu",
            CommandName::Lsblk => "lsblk",
            CommandName::Mount => "mount",
            CommandName::Umount => "umount",
            CommandName::JournalctlSystem => "journalctl",
            CommandName::JournalctlService => "journalctl-service",
            CommandName::Dmesg => "dmesg",
            CommandName::TailSyslog => "tail-syslog",
            CommandName::AuthLog => "auth-log",
            CommandName::Ip => "ip",
            CommandName::Ping => "ping",
            CommandName::Traceroute => "traceroute",
            CommandName::Netstat => "netstat",
            CommandName::Nmap => "nmap",
            CommandName::Curl => "curl",
            CommandName::Dig => "dig",
            CommandName::SystemctlStart => "systemctl-start",
            CommandName::SystemctlStop => "systemctl-stop",
            CommandName::SystemctlRestart => "systemctl-restart",
            CommandName::SystemctlEnable => "systemctl-enable",
            CommandName::SystemctlDisable => "systemctl-disable",
            CommandName::SystemctlStatus => "systemctl-status",
            CommandName::SystemctlList => "systemctl-list",
            CommandName::Chkrootkit => "chkrootkit",
            CommandName::Rkhunter => "rkhunter",
            CommandName::Lynis => "lynis",
            CommandName::Clamscan => "clamscan",
            CommandName::Fail2ban => "fail2ban",
            CommandName::GpgEncrypt => "gpg-encrypt",
            CommandName::GpgDecrypt => "gpg-decrypt",
            CommandName::OpensslEncrypt => "openssl-encrypt",
            CommandName::OpensslDecrypt => "openssl-decrypt",
            CommandName::AptInstall => "apt-install",
            CommandName::AptRemove => "apt-remove",
            CommandName::AptUpdate => "apt-update",
            CommandName::PacmanInstall => "pacman-install",
            CommandName::PacmanRemove => "pacman-remove",
            CommandName::PacmanUpdate => "pacman-update",
            CommandName::YayInstall => "yay-install",
            CommandName::Which => "which",
            CommandName::Whereis => "whereis",
            CommandName::FindBinary => "find-binary",
            CommandName::LocateBinary => "locate-binary",
            CommandName::DpkgList => "dpkg-list",
            CommandName::PacmanList => "pacman-list",
        }
    }

    /// The description shown beside the token in menus.
    pub fn description(&self) -> (description: &'static str)
        ensures
            description@ == description_of(*self),
    {
        match self {
            CommandName::Ps => "Show running processes",
            CommandName::Htop => "Interactive process viewer",
            CommandName::KillGraceful => "Gracefully terminate a process",
            CommandName::KillForce => "Forcefully terminate a process",
            CommandName::Pkill => "Kill processes by name",
            CommandName::Pgrep => "Find processes by name",
            CommandName::Free => "Human-readable memory stats",
            CommandName::Vmstat => "Memory + process + CPU stats",
            CommandName::Iostat => "CPU and disk I/O stats",
            CommandName::Mpstat => "Per-core CPU stats",
            CommandName::Sar => "Historical system stats",
            CommandName::Df => "Disk space usage (human readable)",
            CommandName::Du => "Folder sizes",
            CommandName::Ncdu => "Interactive disk usage explorer",
            CommandName::Lsblk => "Block devices",
            CommandName::Mount => "Show mounted filesystems",
            CommandName::Umount => "Unmount a device",
            CommandName::JournalctlSystem => "System journal logs",
            CommandName::JournalctlService => "Service-specific logs",
            CommandName::Dmesg => "Kernel messages",
            CommandName::TailSyslog => "System log tail",
            CommandName::AuthLog => "Authentication logs",
            CommandName::Ip => "Show network interfaces",
            CommandName::Ping => "Test network connectivity",
            CommandName::Traceroute => "Trace network path",
            CommandName::Netstat => "Network statistics",
            CommandName::Nmap => "Network scanner",
            CommandName::Curl => "Transfer data from URLs",
            CommandName::Dig => "DNS lookup utility",
            CommandName::SystemctlStart => "Start a service",
            CommandName::SystemctlStop => "Stop a service",
            CommandName::SystemctlRestart => "Restart a service",
            CommandName::SystemctlEnable => "Enable a service",
            CommandName::SystemctlDisable => "Disable a service",
            CommandName::SystemctlStatus => "Check service status",
            CommandName::SystemctlList => "List all services",
            CommandName::Chkrootkit => "Check for rootkits",
            CommandName::Rkhunter => "Rootkit hunter",
            CommandName::Lynis => "Security auditing",
            CommandName::Clamscan => "Virus scanner",
            CommandName::Fail2ban => "Ban malicious IPs",
            CommandName::GpgEncrypt => "Encrypt with GPG",
            CommandName::GpgDecrypt => "Decrypt with GPG",
            CommandName::OpensslEncrypt => "Encrypt with OpenSSL",
            CommandName::OpensslDecrypt => "Decrypt with OpenSSL",
            CommandName::AptInstall => "Install Debian package",
            CommandName::AptRemove => "Remove Debian package",
            CommandName::AptUpdate => "Update Debian packages",
            CommandName::PacmanInstall => "Install Arch package",
            CommandName::PacmanRemove => "Remove Arch package",
            CommandName::PacmanUpdate => "Update Arch packages",
            CommandName::YayInstall => "Install AUR package",
            CommandName::Which => "Find binary location",
            CommandName::Whereis => "Locate binary and docs",
            CommandName::FindBinary => "Find binary in PATH",
            CommandName::LocateBinary => "Find binary in database",
            CommandName::DpkgList => "List Debian packages",
            CommandName::PacmanList => "List Arch packages",
        }
    }
}

/// Catalog order lists every command: each identifier stands at its index.
pub proof fn lemma_all_commands_complete(id: CommandName)
    ensures
        0 <= id_index(id) < all_commands().len(),
        all_commands()[id_index(id)] == id,
{
}

/// Catalog order lists every command exactly once.
pub proof fn lemma_all_commands_distinct(i: int, j: int)
    requires
        0 <= i < all_commands().len(),
        0 <= j < all_commands().len(),
        i != j,
    ensures
        all_commands()[i] != all_commands()[j],
{
    assert(id_index(all_commands()[i]) == i);
    assert(id_index(all_commands()[j]) == j);
}

} // verus!
