//! The command catalog: the closed table of entries and its lookups.
//!
//! An entry records a command identifier together with its canonical token,
//! its category and its description. `entries` produces the whole table in
//! catalog order; `find_by_token` resolves a token by exact, case-sensitive
//! match; `entries_in` filters the table by category, preserving order.

use vstd::prelude::*;

use crate::command::CommandCategory;
use crate::command::CommandName;
use crate::command::all_commands;
use crate::command::category_of;
use crate::command::description_of;
use crate::command::id_index;
use crate::command::lemma_all_commands_complete;
use crate::command::lemma_all_commands_distinct;
use crate::command::category_label_of;
use crate::command::token_of;
use crate::text::str_eq;

verus! {

/// Mathematical model of one catalog entry.
pub struct EntryModel {
    pub id: CommandName,
    pub token: Seq<char>,
    pub category: CommandCategory,
    pub description: Seq<char>,
}

/// The entry the catalog assigns to a command.
pub open spec fn model_of(id: CommandName) -> EntryModel {
    EntryModel {
        id: id,
        token: token_of(id),
        category: category_of(id),
        description: description_of(id),
    }
}

/// The whole catalog, in catalog order.
pub open spec fn spec_entries() -> Seq<EntryModel> {
    all_commands().map_values(|id: CommandName| model_of(id))
}

/// One immutable catalog record: a command identifier, its canonical
/// token, its category and its description.
#[derive(Clone, Copy, Debug)]
pub struct CatalogEntry {
    pub id: CommandName,
    pub token: &'static str,
    pub category: CommandCategory,
    pub description: &'static str,
}

impl View for CatalogEntry {
    type V = EntryModel;

    open spec fn view(&self) -> EntryModel {
        EntryModel {
            id: self.id,
            token: self.token@,
            category: self.category,
            description: self.description@,
        }
    }
}

/// The catalog entry of one command, as the catalog publishes it.
pub fn entry_for(id: CommandName) -> (entry: CatalogEntry)
    ensures
        entry@ == model_of(id),
        entry.id == id,
{
    CatalogEntry {
        id: id,
        token: id.token(),
        category: id.category(),
        description: id.description(),
    }
}

/// Ground facts about every canonical token literal: its length and each
/// of its characters. Token uniqueness is proved from these.
spec fn token_facts() -> bool {
    &&& "ps"@.len() == 2
    &&& "ps"@[0] == 'p'
    &&& "ps"@[1] == 's'
    &&& "htop"@.len() == 4
    &&& "htop"@[0] == 'h'
    &&& "htop"@[1] == 't'
    &&& "htop"@[2] == 'o'
    &&& "htop"@[3] == 'p'
    &&& "kill"@.len() == 4
    &&& "kill"@[0] == 'k'
    &&& "kill"@[1] == 'i'
    &&& "kill"@[2] == 'l'
    &&& "kill"@[3] == 'l'
    &&& "kill9"@.len() == 5
    &&& "kill9"@[0] == 'k'
    &&& "kill9"@[1] == 'i'
    &&& "kill9"@[2] == 'l'
    &&& "kill9"@[3] == 'l'
    &&& "kill9"@[4] == '9'
    &&& "pkill"@.len() == 5
    &&& "pkill"@[0] == 'p'
    &&& "pkill"@[1] == 'k'
    &&& "pkill"@[2] == 'i'
    &&& "pkill"@[3] == 'l'
    &&& "pkill"@[4] == 'l'
    &&& "pgrep"@.len() == 5
    &&& "pgrep"@[0] == 'p'
    &&& "pgrep"@[1] == 'g'
    &&& "pgrep"@[2] == 'r'
    &&& "pgrep"@[3] == 'e'
    &&& "pgrep"@[4] == 'p'
    &&& "free"@.len() == 4
    &&& "free"@[0] == 'f'
    &&& "free"@[1] == 'r'
    &&& "free"@[2] == 'e'
    &&& "free"@[3] == 'e'
    &&& "vmstat"@.len() == 6
    &&& "vmstat"@[0] == 'v'
    &&& "vmstat"@[1] == 'm'
    &&& "vmstat"@[2] == 's'
    &&& "vmstat"@[3] == 't'
    &&& "vmstat"@[4] == 'a'
    &&& "vmstat"@[5] == 't'
    &&& "iostat"@.len() == 6
    &&& "iostat"@[0] == 'i'
    &&& "iostat"@[1] == 'o'
    &&& "iostat"@[2] == 's'
    &&& "iostat"@[3] == 't'
    &&& "iostat"@[4] == 'a'
    &&& "iostat"@[5] == 't'
    &&& "mpstat"@.len() == 6
    &&& "mpstat"@[0] == 'm'
    &&& "mpstat"@[1] == 'p'
    &&& "mpstat"@[2] == 's'
    &&& "mpstat"@[3] == 't'
    &&& "mpstat"@[4] == 'a'
    &&& "mpstat"@[5] == 't'
    &&& "sar"@.len() == 3
    &&& "sar"@[0] == 's'
    &&& "sar"@[1] == 'a'
    &&& "sar"@[2] == 'r'
    &&& "df"@.len() == 2
    &&& "df"@[0] == 'd'
    &&& "df"@[1] == 'f'
    &&& "du"@.len() == 2
    &&& "du"@[0] == 'd'
    &&& "du"@[1] == 'u'
    &&& "ncdu"@.len() == 4
    &&& "ncdu"@[0] == 'n'
    &&& "ncdu"@[1] == 'c'
    &&& "ncdu"@[2] == 'd'
    &&& "ncdu"@[3] == 'u'
    &&& "lsblk"@.len() == 5
    &&& "lsblk"@[0] == 'l'
    &&& "lsblk"@[1] == 's'
    &&& "lsblk"@[2] == 'b'
    &&& "lsblk"@[3] == 'l'
    &&& "lsblk"@[4] == 'k'
    &&& "mount"@.len() == 5
    &&& "mount"@[0] == 'm'
    &&& "mount"@[1] == 'o'
    &&& "mount"@[2] == 'u'
    &&& "mount"@[3] == 'n'
    &&& "mount"@[4] == 't'
    &&& "umount"@.len() == 6
    &&& "umount"@[0] == 'u'
    &&& "umount"@[1] == 'm'
    &&& "umount"@[2] == 'o'
    &&& "umount"@[3] == 'u'
    &&& "umount"@[4] == 'n'
    &&& "umount"@[5] == 't'
    &&& "journalctl"@.len() == 10
    &&& "journalctl"@[0] == 'j'
    &&& "journalctl"@[1] == 'o'
    &&& "journalctl"@[2] == 'u'
    &&& "journalctl"@[3] == 'r'
    &&& "journalctl"@[4] == 'n'
    &&& "journalctl"@[5] == 'a'
    &&& "journalctl"@[6] == 'l'
    &&& "journalctl"@[7] == 'c'
    &&& "journalctl"@[8] == 't'
    &&& "journalctl"@[9] == 'l'
    &&& "journalctl-service"@.len() == 18
    &&& "journalctl-service"@[0] == 'j'
    &&& "journalctl-service"@[1] == 'o'
    &&& "journalctl-service"@[2] == 'u'
    &&& "journalctl-service"@[3] == 'r'
    &&& "journalctl-service"@[4] == 'n'
    &&& "journalctl-service"@[5] == 'a'
    &&& "journalctl-service"@[6] == 'l'
    &&& "journalctl-service"@[7] == 'c'
    &&& "journalctl-service"@[8] == 't'
    &&& "journalctl-service"@[9] == 'l'
    &&& "journalctl-service"@[10] == '-'
    &&& "journalctl-service"@[11] == 's'
    &&& "journalctl-service"@[12] == 'e'
    &&& "journalctl-service"@[13] == 'r'
    &&& "journalctl-service"@[14] == 'v'
    &&& "journalctl-service"@[15] == 'i'
    &&& "journalctl-service"@[16] == 'c'
    &&& "journalctl-service"@[17] == 'e'
    &&& "dmesg"@.len() == 5
    &&& "dmesg"@[0] == 'd'
    &&& "dmesg"@[1] == 'm'
    &&& "dmesg"@[2] == 'e'
    &&& "dmesg"@[3] == 's'
    &&& "dmesg"@[4] == 'g'
    &&& "tail-syslog"@.len() == 11
    &&& "tail-syslog"@[0] == 't'
    &&& "tail-syslog"@[1] == 'a'
    &&& "tail-syslog"@[2] == 'i'
    &&& "tail-syslog"@[3] == 'l'
    &&& "tail-syslog"@[4] == '-'
    &&& "tail-syslog"@[5] == 's'
    &&& "tail-syslog"@[6] == 'y'
    &&& "tail-syslog"@[7] == 's'
    &&& "tail-syslog"@[8] == 'l'
    &&& "tail-syslog"@[9] == 'o'
    &&& "tail-syslog"@[10] == 'g'
    &&& "auth-log"@.len() == 8
    &&& "auth-log"@[0] == 'a'
    &&& "auth-log"@[1] == 'u'
    &&& "auth-log"@[2] == 't'
    &&& "auth-log"@[3] == 'h'
    &&& "auth-log"@[4] == '-'
    &&& "auth-log"@[5] == 'l'
    &&& "auth-log"@[6] == 'o'
    &&& "auth-log"@[7] == 'g'
    &&& "ip"@.len() == 2
    &&& "ip"@[0] == 'i'
    &&& "ip"@[1] == 'p'
    &&& "ping"@.len() == 4
    &&& "ping"@[0] == 'p'
    &&& "ping"@[1] == 'i'
    &&& "ping"@[2] == 'n'
    &&& "ping"@[3] == 'g'
    &&& "traceroute"@.len() == 10
    &&& "traceroute"@[0] == 't'
    &&& "traceroute"@[1] == 'r'
    &&& "traceroute"@[2] == 'a'
    &&& "traceroute"@[3] == 'c'
    &&& "traceroute"@[4] == 'e'
    &&& "traceroute"@[5] == 'r'
    &&& "traceroute"@[6] == 'o'
    &&& "traceroute"@[7] == 'u'
    &&& "traceroute"@[8] == 't'
    &&& "traceroute"@[9] == 'e'
    &&& "netstat"@.len() == 7
    &&& "netstat"@[0] == 'n'
    &&& "netstat"@[1] == 'e'
    &&& "netstat"@[2] == 't'
    &&& "netstat"@[3] == 's'
    &&& "netstat"@[4] == 't'
    &&& "netstat"@[5] == 'a'
    &&& "netstat"@[6] == 't'
    &&& "nmap"@.len() == 4
    &&& "nmap"@[0] == 'n'
    &&& "nmap"@[1] == 'm'
    &&& "nmap"@[2] == 'a'
    &&& "nmap"@[3] == 'p'
    &&& "curl"@.len() == 4
    &&& "curl"@[0] == 'c'
    &&& "curl"@[1] == 'u'
    &&& "curl"@[2] == 'r'
    &&& "curl"@[3] == 'l'
    &&& "dig"@.len() == 3
    &&& "dig"@[0] == 'd'
    &&& "dig"@[1] == 'i'
    &&& "dig"@[2] == 'g'
    &&& "systemctl-start"@.len() == 15
    &&& "systemctl-start"@[0] == 's'
    &&& "systemctl-start"@[1] == 'y'
    &&& "systemctl-start"@[2] == 's'
    &&& "systemctl-start"@[3] == 't'
    &&& "systemctl-start"@[4] == 'e'
    &&& "systemctl-start"@[5] == 'm'
    &&& "systemctl-start"@[6] == 'c'
    &&& "systemctl-start"@[7] == 't'
    &&& "systemctl-start"@[8] == 'l'
    &&& "systemctl-start"@[9] == '-'
    &&& "systemctl-start"@[10] == 's'
    &&& "systemctl-start"@[11] == 't'
    &&& "systemctl-start"@[12] == 'a'
    &&& "systemctl-start"@[13] == 'r'
    &&& "systemctl-start"@[14] == 't'
    &&& "systemctl-stop"@.len() == 14
    &&& "systemctl-stop"@[0] == 's'
    &&& "systemctl-stop"@[1] == 'y'
    &&& "systemctl-stop"@[2] == 's'
    &&& "systemctl-stop"@[3] == 't'
    &&& "systemctl-stop"@[4] == 'e'
    &&& "systemctl-stop"@[5] == 'm'
    &&& "systemctl-stop"@[6] == 'c'
    &&& "systemctl-stop"@[7] == 't'
    &&& "systemctl-stop"@[8] == 'l'
    &&& "systemctl-stop"@[9] == '-'
    &&& "systemctl-stop"@[10] == 's'
    &&& "systemctl-stop"@[11] == 't'
    &&& "systemctl-stop"@[12] == 'o'
    &&& "systemctl-stop"@[13] == 'p'
    &&& "systemctl-restart"@.len() == 17
    &&& "systemctl-restart"@[0] == 's'
    &&& "systemctl-restart"@[1] == 'y'
    &&& "systemctl-restart"@[2] == 's'
    &&& "systemctl-restart"@[3] == 't'
    &&& "systemctl-restart"@[4] == 'e'
    &&& "systemctl-restart"@[5] == 'm'
    &&& "systemctl-restart"@[6] == 'c'
    &&& "systemctl-restart"@[7] == 't'
    &&& "systemctl-restart"@[8] == 'l'
    &&& "systemctl-restart"@[9] == '-'
    &&& "systemctl-restart"@[10] == 'r'
    &&& "systemctl-restart"@[11] == 'e'
    &&& "systemctl-restart"@[12] == 's'
    &&& "systemctl-restart"@[13] == 't'
    &&& "systemctl-restart"@[14] == 'a'
    &&& "systemctl-restart"@[15] == 'r'
    &&& "systemctl-restart"@[16] == 't'
    &&& "systemctl-enable"@.len() == 16
    &&& "systemctl-enable"@[0] == 's'
    &&& "systemctl-enable"@[1] == 'y'
    &&& "systemctl-enable"@[2] == 's'
    &&& "systemctl-enable"@[3] == 't'
    &&& "systemctl-enable"@[4] == 'e'
    &&& "systemctl-enable"@[5] == 'm'
    &&& "systemctl-enable"@[6] == 'c'
    &&& "systemctl-enable"@[7] == 't'
    &&& "systemctl-enable"@[8] == 'l'
    &&& "systemctl-enable"@[9] == '-'
    &&& "systemctl-enable"@[10] == 'e'
    &&& "systemctl-enable"@[11] == 'n'
    &&& "systemctl-enable"@[12] == 'a'
    &&& "systemctl-enable"@[13] == 'b'
    &&& "systemctl-enable"@[14] == 'l'
    &&& "systemctl-enable"@[15] == 'e'
    &&& "systemctl-disable"@.len() == 17
    &&& "systemctl-disable"@[0] == 's'
    &&& "systemctl-disable"@[1] == 'y'
    &&& "systemctl-disable"@[2] == 's'
    &&& "systemctl-disable"@[3] == 't'
    &&& "systemctl-disable"@[4] == 'e'
    &&& "systemctl-disable"@[5] == 'm'
    &&& "systemctl-disable"@[6] == 'c'
    &&& "systemctl-disable"@[7] == 't'
    &&& "systemctl-disable"@[8] == 'l'
    &&& "systemctl-disable"@[9] == '-'
    &&& "systemctl-disable"@[10] == 'd'
    &&& "systemctl-disable"@[11] == 'i'
    &&& "systemctl-disable"@[12] == 's'
    &&& "systemctl-disable"@[13] == 'a'
    &&& "systemctl-disable"@[14] == 'b'
    &&& "systemctl-disable"@[15] == 'l'
    &&& "systemctl-disable"@[16] == 'e'
    &&& "systemctl-status"@.len() == 16
    &&& "systemctl-status"@[0] == 's'
    &&& "systemctl-status"@[1] == 'y'
    &&& "systemctl-status"@[2] == 's'
    &&& "systemctl-status"@[3] == 't'
    &&& "systemctl-status"@[4] == 'e'
    &&& "systemctl-status"@[5] == 'm'
    &&& "systemctl-status"@[6] == 'c'
    &&& "systemctl-status"@[7] == 't'
    &&& "systemctl-status"@[8] == 'l'
    &&& "systemctl-status"@[9] == '-'
    &&& "systemctl-status"@[10] == 's'
    &&& "systemctl-status"@[11] == 't'
    &&& "systemctl-status"@[12] == 'a'
    &&& "systemctl-status"@[13] == 't'
    &&& "systemctl-status"@[14] == 'u'
    &&& "systemctl-status"@[15] == 's'
    &&& "systemctl-list"@.len() == 14
    &&& "systemctl-list"@[0] == 's'
    &&& "systemctl-list"@[1] == 'y'
    &&& "systemctl-list"@[2] == 's'
    &&& "systemctl-list"@[3] == 't'
    &&& "systemctl-list"@[4] == 'e'
    &&& "systemctl-list"@[5] == 'm'
    &&& "systemctl-list"@[6] == 'c'
    &&& "systemctl-list"@[7] == 't'
    &&& "systemctl-list"@[8] == 'l'
    &&& "systemctl-list"@[9] == '-'
    &&& "systemctl-list"@[10] == 'l'
    &&& "systemctl-list"@[11] == 'i'
    &&& "systemctl-list"@[12] == 's'
    &&& "systemctl-list"@[13] == 't'
    &&& "chkrootkit"@.len() == 10
    &&& "chkrootkit"@[0] == 'c'
    &&& "chkrootkit"@[1] == 'h'
    &&& "chkrootkit"@[2] == 'k'
    &&& "chkrootkit"@[3] == 'r'
    &&& "chkrootkit"@[4] == 'o'
    &&& "chkrootkit"@[5] == 'o'
    &&& "chkrootkit"@[6] == 't'
    &&& "chkrootkit"@[7] == 'k'
    &&& "chkrootkit"@[8] == 'i'
    &&& "chkrootkit"@[9] == 't'
    &&& "rkhunter"@.len() == 8
    &&& "rkhunter"@[0] == 'r'
    &&& "rkhunter"@[1] == 'k'
    &&& "rkhunter"@[2] == 'h'
    &&& "rkhunter"@[3] == 'u'
    &&& "rkhunter"@[4] == 'n'
    &&& "rkhunter"@[5] == 't'
    &&& "rkhunter"@[6] == 'e'
    &&& "rkhunter"@[7] == 'r'
    &&& "lynis"@.len() == 5
    &&& "lynis"@[0] == 'l'
    &&& "lynis"@[1] == 'y'
    &&& "lynis"@[2] == 'n'
    &&& "lynis"@[3] == 'i'
    &&& "lynis"@[4] == 's'
    &&& "clamscan"@.len() == 8
    &&& "clamscan"@[0] == 'c'
    &&& "clamscan"@[1] == 'l'
    &&& "clamscan"@[2] == 'a'
    &&& "clamscan"@[3] == 'm'
    &&& "clamscan"@[4] == 's'
    &&& "clamscan"@[5] == 'c'
    &&& "clamscan"@[6] == 'a'
    &&& "clamscan"@[7] == 'n'
    &&& "fail2ban"@.len() == 8
    &&& "fail2ban"@[0] == 'f'
    &&& "fail2ban"@[1] == 'a'
    &&& "fail2ban"@[2] == 'i'
    &&& "fail2ban"@[3] == 'l'
    &&& "fail2ban"@[4] == '2'
    &&& "fail2ban"@[5] == 'b'
    &&& "fail2ban"@[6] == 'a'
    &&& "fail2ban"@[7] == 'n'
    &&& "gpg-encrypt"@.len() == 11
    &&& "gpg-encrypt"@[0] == 'g'
    &&& "gpg-encrypt"@[1] == 'p'
    &&& "gpg-encrypt"@[2] == 'g'
    &&& "gpg-encrypt"@[3] == '-'
    &&& "gpg-encrypt"@[4] == 'e'
    &&& "gpg-encrypt"@[5] == 'n'
    &&& "gpg-encrypt"@[6] == 'c'
    &&& "gpg-encrypt"@[7] == 'r'
    &&& "gpg-encrypt"@[8] == 'y'
    &&& "gpg-encrypt"@[9] == 'p'
    &&& "gpg-encrypt"@[10] == 't'
    &&& "gpg-decrypt"@.len() == 11
    &&& "gpg-decrypt"@[0] == 'g'
    &&& "gpg-decrypt"@[1] == 'p'
    &&& "gpg-decrypt"@[2] == 'g'
    &&& "gpg-decrypt"@[3] == '-'
    &&& "gpg-decrypt"@[4] == 'd'
    &&& "gpg-decrypt"@[5] == 'e'
    &&& "gpg-decrypt"@[6] == 'c'
    &&& "gpg-decrypt"@[7] == 'r'
    &&& "gpg-decrypt"@[8] == 'y'
    &&& "gpg-decrypt"@[9] == 'p'
    &&& "gpg-decrypt"@[10] == 't'
    &&& "openssl-encrypt"@.len() == 15
    &&& "openssl-encrypt"@[0] == 'o'
    &&& "openssl-encrypt"@[1] == 'p'
    &&& "openssl-encrypt"@[2] == 'e'
    &&& "openssl-encrypt"@[3] == 'n'
    &&& "openssl-encrypt"@[4] == 's'
    &&& "openssl-encrypt"@[5] == 's'
    &&& "openssl-encrypt"@[6] == 'l'
    &&& "openssl-encrypt"@[7] == '-'
    &&& "openssl-encrypt"@[8] == 'e'
    &&& "openssl-encrypt"@[9] == 'n'
    &&& "openssl-encrypt"@[10] == 'c'
    &&& "openssl-encrypt"@[11] == 'r'
    &&& "openssl-encrypt"@[12] == 'y'
    &&& "openssl-encrypt"@[13] == 'p'
    &&& "openssl-encrypt"@[14] == 't'
    &&& "openssl-decrypt"@.len() == 15
    &&& "openssl-decrypt"@[0] == 'o'
    &&& "openssl-decrypt"@[1] == 'p'
    &&& "openssl-decrypt"@[2] == 'e'
    &&& "openssl-decrypt"@[3] == 'n'
    &&& "openssl-decrypt"@[4] == 's'
    &&& "openssl-decrypt"@[5] == 's'
    &&& "openssl-decrypt"@[6] == 'l'
    &&& "openssl-decrypt"@[7] == '-'
    &&& "openssl-decrypt"@[8] == 'd'
    &&& "openssl-decrypt"@[9] == 'e'
    &&& "openssl-decrypt"@[10] == 'c'
    &&& "openssl-decrypt"@[11] == 'r'
    &&& "openssl-decrypt"@[12] == 'y'
    &&& "openssl-decrypt"@[13] == 'p'
    &&& "openssl-decrypt"@[14] == 't'
    &&& "apt-install"@.len() == 11
    &&& "apt-install"@[0] == 'a'
    &&& "apt-install"@[1] == 'p'
    &&& "apt-install"@[2] == 't'
    &&& "apt-install"@[3] == '-'
    &&& "apt-install"@[4] == 'i'
    &&& "apt-install"@[5] == 'n'
    &&& "apt-install"@[6] == 's'
    &&& "apt-install"@[7] == 't'
    &&& "apt-install"@[8] == 'a'
    &&& "apt-install"@[9] == 'l'
    &&& "apt-install"@[10] == 'l'
    &&& "apt-remove"@.len() == 10
    &&& "apt-remove"@[0] == 'a'
    &&& "apt-remove"@[1] == 'p'
    &&& "apt-remove"@[2] == 't'
    &&& "apt-remove"@[3] == '-'
    &&& "apt-remove"@[4] == 'r'
    &&& "apt-remove"@[5] == 'e'
    &&& "apt-remove"@[6] == 'm'
    &&& "apt-remove"@[7] == 'o'
    &&& "apt-remove"@[8] == 'v'
    &&& "apt-remove"@[9] == 'e'
    &&& "apt-update"@.len() == 10
    &&& "apt-update"@[0] == 'a'
    &&& "apt-update"@[1] == 'p'
    &&& "apt-update"@[2] == 't'
    &&& "apt-update"@[3] == '-'
    &&& "apt-update"@[4] == 'u'
    &&& "apt-update"@[5] == 'p'
    &&& "apt-update"@[6] == 'd'
    &&& "apt-update"@[7] == 'a'
    &&& "apt-update"@[8] == 't'
    &&& "apt-update"@[9] == 'e'
    &&& "pacman-install"@.len() == 14
    &&& "pacman-install"@[0] == 'p'
    &&& "pacman-install"@[1] == 'a'
    &&& "pacman-install"@[2] == 'c'
    &&& "pacman-install"@[3] == 'm'
    &&& "pacman-install"@[4] == 'a'
    &&& "pacman-install"@[5] == 'n'
    &&& "pacman-install"@[6] == '-'
    &&& "pacman-install"@[7] == 'i'
    &&& "pacman-install"@[8] == 'n'
    &&& "pacman-install"@[9] == 's'
    &&& "pacman-install"@[10] == 't'
    &&& "pacman-install"@[11] == 'a'
    &&& "pacman-install"@[12] == 'l'
    &&& "pacman-install"@[13] == 'l'
    &&& "pacman-remove"@.len() == 13
    &&& "pacman-remove"@[0] == 'p'
    &&& "pacman-remove"@[1] == 'a'
    &&& "pacman-remove"@[2] == 'c'
    &&& "pacman-remove"@[3] == 'm'
    &&& "pacman-remove"@[4] == 'a'
    &&& "pacman-remove"@[5] == 'n'
    &&& "pacman-remove"@[6] == '-'
    &&& "pacman-remove"@[7] == 'r'
    &&& "pacman-remove"@[8] == 'e'
    &&& "pacman-remove"@[9] == 'm'
    &&& "pacman-remove"@[10] == 'o'
    &&& "pacman-remove"@[11] == 'v'
    &&& "pacman-remove"@[12] == 'e'
    &&& "pacman-update"@.len() == 13
    &&& "pacman-update"@[0] == 'p'
    &&& "pacman-update"@[1] == 'a'
    &&& "pacman-update"@[2] == 'c'
    &&& "pacman-update"@[3] == 'm'
    &&& "pacman-update"@[4] == 'a'
    &&& "pacman-update"@[5] == 'n'
    &&& "pacman-update"@[6] == '-'
    &&& "pacman-update"@[7] == 'u'
    &&& "pacman-update"@[8] == 'p'
    &&& "pacman-update"@[9] == 'd'
    &&& "pacman-update"@[10] == 'a'
    &&& "pacman-update"@[11] == 't'
    &&& "pacman-update"@[12] == 'e'
    &&& "yay-install"@.len() == 11
    &&& "yay-install"@[0] == 'y'
    &&& "yay-install"@[1] == 'a'
    &&& "yay-install"@[2] == 'y'
    &&& "yay-install"@[3] == '-'
    &&& "yay-install"@[4] == 'i'
    &&& "yay-install"@[5] == 'n'
    &&& "yay-install"@[6] == 's'
    &&& "yay-install"@[7] == 't'
    &&& "yay-install"@[8] == 'a'
    &&& "yay-install"@[9] == 'l'
    &&& "yay-install"@[10] == 'l'
    &&& "which"@.len() == 5
    &&& "which"@[0] == 'w'
    &&& "which"@[1] == 'h'
    &&& "which"@[2] == 'i'
    &&& "which"@[3] == 'c'
    &&& "which"@[4] == 'h'
    &&& "whereis"@.len() == 7
    &&& "whereis"@[0] == 'w'
    &&& "whereis"@[1] == 'h'
    &&& "whereis"@[2] == 'e'
    &&& "whereis"@[3] == 'r'
    &&& "whereis"@[4] == 'e'
    &&& "whereis"@[5] == 'i'
    &&& "whereis"@[6] == 's'
    &&& "find-binary"@.len() == 11
    &&& "find-binary"@[0] == 'f'
    &&& "find-binary"@[1] == 'i'
    &&& "find-binary"@[2] == 'n'
    &&& "find-binary"@[3] == 'd'
    &&& "find-binary"@[4] == '-'
    &&& "find-binary"@[5] == 'b'
    &&& "find-binary"@[6] == 'i'
    &&& "find-binary"@[7] == 'n'
    &&& "find-binary"@[8] == 'a'
    &&& "find-binary"@[9] == 'r'
    &&& "find-binary"@[10] == 'y'
    &&& "locate-binary"@.len() == 13
    &&& "locate-binary"@[0] == 'l'
    &&& "locate-binary"@[1] == 'o'
    &&& "locate-binary"@[2] == 'c'
    &&& "locate-binary"@[3] == 'a'
    &&& "locate-binary"@[4] == 't'
    &&& "locate-binary"@[5] == 'e'
    &&& "locate-binary"@[6] == '-'
    &&& "locate-binary"@[7] == 'b'
    &&& "locate-binary"@[8] == 'i'
    &&& "locate-binary"@[9] == 'n'
    &&& "locate-binary"@[10] == 'a'
    &&& "locate-binary"@[11] == 'r'
    &&& "locate-binary"@[12] == 'y'
    &&& "dpkg-list"@.len() == 9
    &&& "dpkg-list"@[0] == 'd'
    &&& "dpkg-list"@[1] == 'p'
    &&& "dpkg-list"@[2] == 'k'
    &&& "dpkg-list"@[3] == 'g'
    &&& "dpkg-list"@[4] == '-'
    &&& "dpkg-list"@[5] == 'l'
    &&& "dpkg-list"@[6] == 'i'
    &&& "dpkg-list"@[7] == 's'
    &&& "dpkg-list"@[8] == 't'
    &&& "pacman-list"@.len() == 11
    &&& "pacman-list"@[0] == 'p'
    &&& "pacman-list"@[1] == 'a'
    &&& "pacman-list"@[2] == 'c'
    &&& "pacman-list"@[3] == 'm'
    &&& "pacman-list"@[4] == 'a'
    &&& "pacman-list"@[5] == 'n'
    &&& "pacman-list"@[6] == '-'
    &&& "pacman-list"@[7] == 'l'
    &&& "pacman-list"@[8] == 'i'
    &&& "pacman-list"@[9] == 's'
    &&& "pacman-list"@[10] == 't'
}

proof fn lemma_token_facts()
    ensures
        token_facts(),
{
    reveal_strlit("ps");
    reveal_strlit("htop");
    reveal_strlit("kill");
    reveal_strlit("kill9");
    reveal_strlit("pkill");
    reveal_strlit("pgrep");
    reveal_strlit("free");
    reveal_strlit("vmstat");
    reveal_strlit("iostat");
    reveal_strlit("mpstat");
    reveal_strlit("sar");
    reveal_strlit("df");
    reveal_strlit("du");
    reveal_strlit("ncdu");
    reveal_strlit("lsblk");
    reveal_strlit("mount");
    reveal_strlit("umount");
    reveal_strlit("journalctl");
    reveal_strlit("journalctl-service");
    reveal_strlit("dmesg");
    reveal_strlit("tail-syslog");
    reveal_strlit("auth-log");
    reveal_strlit("ip");
    reveal_strlit("ping");
    reveal_strlit("traceroute");
    reveal_strlit("netstat");
    reveal_strlit("nmap");
    reveal_strlit("curl");
    reveal_strlit("dig");
    reveal_strlit("systemctl-start");
    reveal_strlit("systemctl-stop");
    reveal_strlit("systemctl-restart");
    reveal_strlit("systemctl-enable");
    reveal_strlit("systemctl-disable");
    reveal_strlit("systemctl-status");
    reveal_strlit("systemctl-list");
    reveal_strlit("chkrootkit");
    reveal_strlit("rkhunter");
    reveal_strlit("lynis");
    reveal_strlit("clamscan");
    reveal_strlit("fail2ban");
    reveal_strlit("gpg-encrypt");
    reveal_strlit("gpg-decrypt");
    reveal_strlit("openssl-encrypt");
    reveal_strlit("openssl-decrypt");
    reveal_strlit("apt-install");
    reveal_strlit("apt-remove");
    reveal_strlit("apt-update");
    reveal_strlit("pacman-install");
    reveal_strlit("pacman-remove");
    reveal_strlit("pacman-update");
    reveal_strlit("yay-install");
    reveal_strlit("which");
    reveal_strlit("whereis");
    reveal_strlit("find-binary");
    reveal_strlit("locate-binary");
    reveal_strlit("dpkg-list");
    reveal_strlit("pacman-list");
}

/// Tokens are pairwise unique: a token determines its command. This is the
/// catalog's central well-formedness fact; token lookup returns exactly one
/// entry because of it.
pub proof fn lemma_token_injective(id1: CommandName, id2: CommandName)
    ensures
        token_of(id1) == token_of(id2) ==> id1 == id2,
{
    lemma_token_facts();
}

/// The command a token resolves to: the unique identifier with that
/// canonical token, or nothing when no entry matches.
pub open spec fn spec_find(token: Seq<char>) -> Option<CommandName> {
    if exists|id: CommandName| token_of(id) == token {
        Some(choose|id: CommandName| token_of(id) == token)
    } else {
        None
    }
}

/// The views of a sequence of catalog entries.
pub open spec fn views_of(entries: Seq<CatalogEntry>) -> Seq<EntryModel> {
    entries.map_values(|entry: CatalogEntry| entry@)
}

/// Membership of an entry in one category, as a filter predicate.
pub open spec fn spec_category_pred(category: CommandCategory) -> spec_fn(EntryModel) -> bool {
    |m: EntryModel| m.category == category
}

/// The catalog entries of one category, in catalog order.
pub open spec fn spec_entries_in(category: CommandCategory) -> Seq<EntryModel> {
    spec_entries().filter(spec_category_pred(category))
}

/// The full catalog in its fixed iteration order. Restartable: every call
/// returns the same table.
pub fn entries() -> (entries: Vec<CatalogEntry>)
    ensures
        entries@.len() == spec_entries().len(),
        forall|i: int| 0 <= i < entries@.len() ==> #[trigger] entries@[i]@ == spec_entries()[i],
        views_of(entries@) == spec_entries(),
{
    let ids = CommandName::iter();
    let n: usize = ids.len();
    let mut entries: Vec<CatalogEntry> = Vec::new();
    let mut i: usize = 0;
    while i < n
        invariant
            n == ids@.len(),
            ids@ == all_commands(),
            i <= n,
            entries@.len() == i,
            forall|j: int| 0 <= j < i ==> #[trigger] entries@[j]@ == spec_entries()[j],
        decreases n - i,
    {
        entries.push(entry_for(ids[i]));
        i += 1;
    }
    proof {
        assert(views_of(entries@) =~= spec_entries());
    }
    entries
}

/// Exact, case-sensitive lookup of a canonical token. Returns the unique
/// entry whose token matches, and nothing for an unknown token.
pub fn find_by_token(token: &str) -> (found: Option<CatalogEntry>)
    ensures
        match found {
            Some(entry) => spec_find(token@) == Some(entry.id) && entry@ == model_of(entry.id),
            None => spec_find(token@) is None,
        },
{
    let ids = CommandName::iter();
    let n: usize = ids.len();
    let mut i: usize = 0;
    while i < n
        invariant
            n == ids@.len(),
            ids@ == all_commands(),
            i <= n,
            forall|j: int| 0 <= j < i ==> token_of(#[trigger] ids@[j]) != token@,
        decreases n - i,
    {
        let candidate = ids[i];
        if str_eq(candidate.token(), token) {
            proof {
                let picked = choose|id: CommandName| token_of(id) == token@;
                lemma_token_injective(picked, candidate);
            }
            return Some(entry_for(candidate));
        }
        i += 1;
    }
    proof {
        assert forall|id: CommandName| token_of(id) != token@ by {
            lemma_all_commands_complete(id);
            assert(token_of(all_commands()[id_index(id)]) != token@);
        }
    }
    None
}

/// The entries of one category, filtered out of the catalog with their
/// relative order kept.
pub fn entries_in(category: CommandCategory) -> (filtered: Vec<CatalogEntry>)
    ensures
        views_of(filtered@) == spec_entries_in(category),
{
    let all = entries();
    let n: usize = all.len();
    let mut filtered: Vec<CatalogEntry> = Vec::new();
    let mut i: usize = 0;
    while i < n
        invariant
            n == all@.len(),
            all@.len() == spec_entries().len(),
            forall|j: int| 0 <= j < all@.len() ==> #[trigger] all@[j]@ == spec_entries()[j],
            i <= n,
            views_of(filtered@) =~= spec_entries().take(i as int).filter(spec_category_pred(category)),
        decreases n - i,
    {
        let entry = all[i];
        proof {
            let pred = spec_category_pred(category);
            let prefix = spec_entries().take(i as int);
            let x = spec_entries()[i as int];
            assert(spec_entries().take(i as int + 1) =~= prefix.push(x));
            lemma_filter_push(prefix, x, pred);
            assert(x == entry@);
        }
        if entry.category == category {
            filtered.push(entry);
        }
        proof {
            assert(views_of(filtered@) =~= spec_entries().take(i as int + 1).filter(
                spec_category_pred(category),
            ));
        }
        i += 1;
    }
    proof {
        assert(spec_entries().take(spec_entries().len() as int) =~= spec_entries());
    }
    filtered
}

/// Filtering a sequence extended by one element keeps the filtered prefix
/// and appends the element exactly when it satisfies the predicate.
proof fn lemma_filter_push(s: Seq<EntryModel>, x: EntryModel, pred: spec_fn(EntryModel) -> bool)
    ensures
        s.push(x).filter(pred) == (if pred(x) {
            s.filter(pred).push(x)
        } else {
            s.filter(pred)
        }),
{
    reveal_with_fuel(Seq::<EntryModel>::filter, 2);
    assert(s.push(x).drop_last() =~= s);
    assert(s.push(x).last() == x);
}

/// Round trip: resolving the canonical token of any command finds exactly
/// that command.
pub proof fn lemma_find_round_trip(id: CommandName)
    ensures
        spec_find(token_of(id)) == Some(id),
{
    assert(token_of(id) == token_of(id));
    let picked = choose|c: CommandName| token_of(c) == token_of(id);
    lemma_token_injective(picked, id);
}

/// Ground facts about every description and category label: each is a
/// non-empty string.
spec fn description_facts() -> bool {
    &&& "Show running processes"@.len() == 22
    &&& "Interactive process viewer"@.len() == 26
    &&& "Gracefully terminate a process"@.len() == 30
    &&& "Forcefully terminate a process"@.len() == 30
    &&& "Kill processes by name"@.len() == 22
    &&& "Find processes by name"@.len() == 22
    &&& "Human-readable memory stats"@.len() == 27
    &&& "Memory + process + CPU stats"@.len() == 28
    &&& "CPU and disk I/O stats"@.len() == 22
    &&& "Per-core CPU stats"@.len() == 18
    &&& "Historical system stats"@.len() == 23
    &&& "Disk space usage (human readable)"@.len() == 33
    &&& "Folder sizes"@.len() == 12
    &&& "Interactive disk usage explorer"@.len() == 31
    &&& "Block devices"@.len() == 13
    &&& "Show mounted filesystems"@.len() == 24
    &&& "Unmount a device"@.len() == 16
    &&& "System journal logs"@.len() == 19
    &&& "Service-specific logs"@.len() == 21
    &&& "Kernel messages"@.len() == 15
    &&& "System log tail"@.len() == 15
    &&& "Authentication logs"@.len() == 19
    &&& "Show network interfaces"@.len() == 23
    &&& "Test network connectivity"@.len() == 25
    &&& "Trace network path"@.len() == 18
    &&& "Network statistics"@.len() == 18
    &&& "Network scanner"@.len() == 15
    &&& "Transfer data from URLs"@.len() == 23
    &&& "DNS lookup utility"@.len() == 18
    &&& "Start a service"@.len() == 15
    &&& "Stop a service"@.len() == 14
    &&& "Restart a service"@.len() == 17
    &&& "Enable a service"@.len() == 16
    &&& "Disable a service"@.len() == 17
    &&& "Check service status"@.len() == 20
    &&& "List all services"@.len() == 17
    &&& "Check for rootkits"@.len() == 18
    &&& "Rootkit hunter"@.len() == 14
    &&& "Security auditing"@.len() == 17
    &&& "Virus scanner"@.len() == 13
    &&& "Ban malicious IPs"@.len() == 17
    &&& "Encrypt with GPG"@.len() == 16
    &&& "Decrypt with GPG"@.len() == 16
    &&& "Encrypt with OpenSSL"@.len() == 20
    &&& "Decrypt with OpenSSL"@.len() == 20
    &&& "Install Debian package"@.len() == 22
    &&& "Remove Debian package"@.len() == 21
    &&& "Update Debian packages"@.len() == 22
    &&& "Install Arch package"@.len() == 20
    &&& "Remove Arch package"@.len() == 19
    &&& "Update Arch packages"@.len() == 20
    &&& "Install AUR package"@.len() == 19
    &&& "Find binary location"@.len() == 20
    &&& "Locate binary and docs"@.len() == 22
    &&& "Find binary in PATH"@.len() == 19
    &&& "Find binary in database"@.len() == 23
    &&& "List Debian packages"@.len() == 20
    &&& "List Arch packages"@.len() == 18
    &&& "Process Management"@.len() == 18
    &&& "Resource Monitoring"@.len() == 19
    &&& "Disk and Storage"@.len() == 16
    &&& "Log Diving"@.len() == 10
    &&& "Networking"@.len() == 10
    &&& "Service Management"@.len() == 18
    &&& "Security"@.len() == 8
    &&& "Package Management"@.len() == 18
}

proof fn lemma_description_facts()
    ensures
        description_facts(),
{
    reveal_strlit("Show running processes");
    reveal_strlit("Interactive process viewer");
    reveal_strlit("Gracefully terminate a process");
    reveal_strlit("Forcefully terminate a process");
    reveal_strlit("Kill processes by name");
    reveal_strlit("Find processes by name");
    reveal_strlit("Human-readable memory stats");
    reveal_strlit("Memory + process + CPU stats");
    reveal_strlit("CPU and disk I/O stats");
    reveal_strlit("Per-core CPU stats");
    reveal_strlit("Historical system stats");
    reveal_strlit("Disk space usage (human readable)");
    reveal_strlit("Folder sizes");
    reveal_strlit("Interactive disk usage explorer");
    reveal_strlit("Block devices");
    reveal_strlit("Show mounted filesystems");
    reveal_strlit("Unmount a device");
    reveal_strlit("System journal logs");
    reveal_strlit("Service-specific logs");
    reveal_strlit("Kernel messages");
    reveal_strlit("System log tail");
    reveal_strlit("Authentication logs");
    reveal_strlit("Show network interfaces");
    reveal_strlit("Test network connectivity");
    reveal_strlit("Trace network path");
    reveal_strlit("Network statistics");
    reveal_strlit("Network scanner");
    reveal_strlit("Transfer data from URLs");
    reveal_strlit("DNS lookup utility");
    reveal_strlit("Start a service");
    reveal_strlit("Stop a service");
    reveal_strlit("Restart a service");
    reveal_strlit("Enable a service");
    reveal_strlit("Disable a service");
    reveal_strlit("Check service status");
    reveal_strlit("List all services");
    reveal_strlit("Check for rootkits");
    reveal_strlit("Rootkit hunter");
    reveal_strlit("Security auditing");
    reveal_strlit("Virus scanner");
    reveal_strlit("Ban malicious IPs");
    reveal_strlit("Encrypt with GPG");
    reveal_strlit("Decrypt with GPG");
    reveal_strlit("Encrypt with OpenSSL");
    reveal_strlit("Decrypt with OpenSSL");
    reveal_strlit("Install Debian package");
    reveal_strlit("Remove Debian package");
    reveal_strlit("Update Debian packages");
    reveal_strlit("Install Arch package");
    reveal_strlit("Remove Arch package");
    reveal_strlit("Update Arch packages");
    reveal_strlit("Install AUR package");
    reveal_strlit("Find binary location");
    reveal_strlit("Locate binary and docs");
    reveal_strlit("Find binary in PATH");
    reveal_strlit("Find binary in database");
    reveal_strlit("List Debian packages");
    reveal_strlit("List Arch packages");
    reveal_strlit("Process Management");
    reveal_strlit("Resource Monitoring");
    reveal_strlit("Disk and Storage");
    reveal_strlit("Log Diving");
    reveal_strlit("Networking");
    reveal_strlit("Service Management");
    reveal_strlit("Security");
    reveal_strlit("Package Management");
}

/// The catalog is total and well formed for every command: its token,
/// description and category label are non-empty, and its entry stands in
/// the catalog at the command's index.
pub proof fn lemma_catalog_total(id: CommandName)
    ensures
        token_of(id).len() > 0,
        description_of(id).len() > 0,
        category_label_of(category_of(id)).len() > 0,
        spec_entries()[id_index(id)] == model_of(id),
        spec_entries().contains(model_of(id)),
{
    lemma_token_facts();
    lemma_description_facts();
    lemma_all_commands_complete(id);
    assert(spec_entries()[id_index(id)] == model_of(id));
}

/// No two distinct catalog entries share a token.
pub proof fn lemma_entry_tokens_unique(i: int, j: int)
    requires
        0 <= i < spec_entries().len(),
        0 <= j < spec_entries().len(),
        i != j,
    ensures
        spec_entries()[i].token != spec_entries()[j].token,
{
    lemma_all_commands_distinct(i, j);
    lemma_token_injective(all_commands()[i], all_commands()[j]);
}

} // verus!
