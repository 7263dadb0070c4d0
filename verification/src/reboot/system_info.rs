//! What the service tells of the machine it runs on, made from what the
//! management interface of the system reports.

use vstd::prelude::*;
use vstd::string::StringExecFns;
use crate::time::{clamp_i64, parse_rfc3339, rfc3339_seconds, Timestamp};
use crate::utils::text::{
    chars_of, contains_char, contains_text, has_substring, lowercase_text, string_of, to_lowercase,
};

verus! {

/// The machine.
#[derive(Debug, Clone)]
pub struct SystemInfo {
    pub computer_name: String,
    pub os_version: String,
    pub last_boot_time: Timestamp,
    /// Seconds since the last boot.
    pub uptime: i64,
    pub ip_address: Option<String>,
    pub domain: String,
    pub is_virtual_machine: bool,
    pub sccm_client_installed: bool,
    pub sccm_client_version: Option<String>,
}

/// Why a boot time could not be read.
#[derive(Debug, Clone, Copy, PartialEq, Eq, Structural)]
pub enum BootTimeError {
    /// The management interface reports no operating system.
    NotReported,
    /// The text has fewer than the fourteen characters of a date and a
    /// time.
    TooShort,
    /// The first fourteen characters are no date and time.
    NotATime,
}

/// The first fourteen characters of a boot time, `YYYYMMDDhhmmss`, written
/// as a date and time in UTC after RFC 3339.
pub open spec fn boot_time_text(s: Seq<char>) -> Seq<char> {
    s.subrange(0, 4) + seq!['-'] + s.subrange(4, 6) + seq!['-'] + s.subrange(6, 8) + seq!['T']
        + s.subrange(8, 10) + seq![':'] + s.subrange(10, 12) + seq![':'] + s.subrange(12, 14)
        + seq!['Z']
}

/// The boot time that a text of the form `YYYYMMDDhhmmss...` stands for.
pub open spec fn boot_time_of(s: Seq<char>) -> Result<Timestamp, BootTimeError> {
    if s.len() < 14 {
        Err(BootTimeError::TooShort)
    } else {
        match rfc3339_seconds(boot_time_text(s)) {
            Some(secs) => Ok(Timestamp { secs }),
            None => Err(BootTimeError::NotATime),
        }
    }
}

fn push_range(out: &mut String, chars: &Vec<char>, from: usize, to: usize)
    requires
        from <= to <= chars.len(),
    ensures
        final(out)@ == old(out)@ + chars@.subrange(from as int, to as int),
{
    let part = string_of(chars, from, to);
    out.append(part.as_str());
}

/// Reads a boot time as the management interface writes it, such as
/// `20230101000000.000000+000`: date and time come first, without
/// separators, and what follows them is not looked at.
pub fn parse_boot_time(text: &str) -> (time: Result<Timestamp, BootTimeError>)
    ensures
        time == boot_time_of(text@),
{
    let chars = chars_of(text);
    if chars.len() < 14 {
        return Err(BootTimeError::TooShort);
    }
    let mut iso = String::new();
    push_range(&mut iso, &chars, 0, 4);
    iso.push('-');
    push_range(&mut iso, &chars, 4, 6);
    iso.push('-');
    push_range(&mut iso, &chars, 6, 8);
    iso.push('T');
    push_range(&mut iso, &chars, 8, 10);
    iso.push(':');
    push_range(&mut iso, &chars, 10, 12);
    iso.push(':');
    push_range(&mut iso, &chars, 12, 14);
    iso.push('Z');
    proof {
        assert(iso@ =~= boot_time_text(text@));
    }
    match parse_rfc3339(iso.as_str()) {
        Some(secs) => Ok(Timestamp { secs }),
        None => Err(BootTimeError::NotATime),
    }
}

/// Whether the name of a model, in lower case, is that of a virtual
/// machine.
pub open spec fn is_virtual_model(model: Seq<char>) -> bool {
    has_substring(model, "virtual"@) || has_substring(model, "vmware"@) || has_substring(
        model,
        "hyper-v"@,
    )
}

/// Whether `model`, the name of a model in lower case, is that of a
/// virtual machine.
pub fn is_virtual_model_name(model: &str) -> (is_virtual: bool)
    ensures
        is_virtual == is_virtual_model(model@),
{
    contains_text(model, "virtual") || contains_text(model, "vmware") || contains_text(
        model,
        "hyper-v",
    )
}

/// Whether the machine of the model `model` is a virtual one.
pub fn is_virtual_machine(model: &str) -> (is_virtual: bool)
    ensures
        is_virtual == is_virtual_model(lowercase_text(model@)),
{
    let lower = to_lowercase(model);
    is_virtual_model_name(lower.as_str())
}

/// Whether `address` is the first address with a dot in it among those of
/// the adapters `adapters`, taken adapter by adapter; `None` where no
/// address has a dot.
pub open spec fn is_first_ipv4(adapters: Seq<Vec<String>>, address: Option<Seq<char>>) -> bool {
    match address {
        None => forall|a: int, i: int|
            0 <= a < adapters.len() && 0 <= i < adapters[a]@.len() ==> !(
            #[trigger] adapters[a]@[i])@.contains('.'),
        Some(found) => exists|a: int, i: int|
            {
                &&& 0 <= a < adapters.len()
                &&& 0 <= i < adapters[a]@.len()
                &&& (#[trigger] adapters[a]@[i])@ == found
                &&& found.contains('.')
                &&& forall|b: int, j: int|
                    0 <= b < adapters.len() && 0 <= j < adapters[b]@.len() && (b < a || (b == a
                        && j < i)) ==> !(#[trigger] adapters[b]@[j])@.contains('.')
            },
    }
}

/// The first IPv4 address among the addresses of the adapters.
pub fn first_ipv4(adapters: &Vec<Vec<String>>) -> (address: Option<String>)
    ensures
        is_first_ipv4(adapters@, address.deep_view()),
{
    let mut a: usize = 0;
    while a < adapters.len()
        invariant
            a <= adapters.len(),
            forall|b: int, j: int|
                0 <= b < a && 0 <= j < adapters@[b]@.len() ==> !(
                #[trigger] adapters@[b]@[j])@.contains('.'),
        decreases adapters.len() - a,
    {
        let addresses = &adapters[a];
        let mut i: usize = 0;
        while i < addresses.len()
            invariant
                a < adapters.len(),
                *addresses == adapters@[a as int],
                i <= addresses.len(),
                forall|b: int, j: int|
                    0 <= b < a && 0 <= j < adapters@[b]@.len() ==> !(
                    #[trigger] adapters@[b]@[j])@.contains('.'),
                forall|j: int| 0 <= j < i ==> !(#[trigger] addresses@[j])@.contains('.'),
            decreases addresses.len() - i,
        {
            if contains_char(addresses[i].as_str(), '.') {
                let found = addresses[i].clone();
                proof {
                    assert(adapters@[a as int]@[i as int]@ == found@);
                }
                return Some(found);
            }
            i += 1;
        }
        a += 1;
    }
    None
}

/// What the management interface reports of the machine; a property that
/// it does not report is `None`.
#[derive(Debug, Clone)]
pub struct SystemReport {
    pub computer_name: Option<String>,
    pub caption: Option<String>,
    pub domain: Option<String>,
    pub model: Option<String>,
    /// The time of the last boot, written `YYYYMMDDhhmmss...`.
    pub last_boot_up_time: Option<String>,
    /// The addresses of each adapter that has any.
    pub addresses: Vec<Vec<String>>,
    pub sccm_client_installed: bool,
    /// The version of the SCCM client, which is asked for only where the
    /// client is installed.
    pub sccm_client_version: Option<String>,
}

fn or_unknown(text: &Option<String>) -> (known: String)
    ensures
        known@ == or_unknown_text(*text),
{
    match text {
        Some(t) => t.clone(),
        None => "Unknown".to_owned(),
    }
}

/// The model that a report names, or the empty name.
pub open spec fn model_of(report: SystemReport) -> Seq<char> {
    match report.model {
        Some(m) => m@,
        None => Seq::empty(),
    }
}

/// The text `Unknown` in the place of a property that is not reported.
pub open spec fn or_unknown_text(text: Option<String>) -> Seq<char> {
    match text {
        Some(t) => t@,
        None => "Unknown"@,
    }
}

/// Whether `info` is what is told of the machine at the time `now`, the
/// last boot having been at `last_boot_time`: what the report leaves out is
/// `Unknown`, the uptime is the time since the last boot, the address is
/// the first IPv4 address, and the version of the SCCM client is told only
/// where the client is installed.
pub open spec fn is_described(
    report: SystemReport,
    last_boot_time: Timestamp,
    now: Timestamp,
    info: SystemInfo,
) -> bool {
    &&& info.computer_name@ == or_unknown_text(report.computer_name)
    &&& info.os_version@ == or_unknown_text(report.caption)
    &&& info.domain@ == or_unknown_text(report.domain)
    &&& info.last_boot_time == last_boot_time
    &&& info.uptime == clamp_i64(now.secs - last_boot_time.secs)
    &&& is_first_ipv4(report.addresses@, info.ip_address.deep_view())
    &&& info.is_virtual_machine == is_virtual_model(lowercase_text(model_of(report)))
    &&& info.sccm_client_installed == report.sccm_client_installed
    &&& info.sccm_client_version.deep_view() == if report.sccm_client_installed {
        report.sccm_client_version.deep_view()
    } else {
        None
    }
}

/// The time of the last boot as the report has it; nothing where the
/// report has none or one that cannot be read, and the host then asks for
/// the boot time by itself.
pub fn boot_time_in_report(report: &SystemReport) -> (time: Option<Timestamp>)
    ensures
        time == match report.last_boot_up_time {
            Some(text) => match boot_time_of(text@) {
                Ok(t) => Some(t),
                Err(_) => None,
            },
            None => None,
        },
{
    match &report.last_boot_up_time {
        Some(text) => match parse_boot_time(text.as_str()) {
            Ok(t) => Some(t),
            Err(_) => None,
        },
        None => None,
    }
}

/// Puts together what is told of the machine at the time `now`, the last
/// boot having been at `last_boot_time`.
pub fn describe_system(report: &SystemReport, last_boot_time: Timestamp, now: Timestamp) -> (info:
    SystemInfo)
    ensures
        is_described(*report, last_boot_time, now, info),
{
    let is_virtual = match &report.model {
        Some(m) => is_virtual_machine(m.as_str()),
        None => is_virtual_machine(""),
    };
    proof {
        if report.model is None {
            assert(""@ =~= Seq::<char>::empty()) by {
                reveal_strlit("");
            }
        }
    }
    let version = if report.sccm_client_installed {
        match &report.sccm_client_version {
            Some(v) => Some(v.clone()),
            None => None,
        }
    } else {
        None
    };
    SystemInfo {
        computer_name: or_unknown(&report.computer_name),
        os_version: or_unknown(&report.caption),
        last_boot_time,
        uptime: now.seconds_since(&last_boot_time),
        ip_address: first_ipv4(&report.addresses),
        domain: or_unknown(&report.domain),
        is_virtual_machine: is_virtual,
        sccm_client_installed: report.sccm_client_installed,
        sccm_client_version: version,
    }
}

} // verus!
