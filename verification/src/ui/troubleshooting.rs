//! The text of the troubleshooting report users copy into bug reports, and the
//! operating-system, CPU and GPU labels it is made of.
use crate::text::{is_blank, trim, trimmed};
use sysinfo::{Cpu, CpuRefreshKind, RefreshKind, System};
use vstd::prelude::*;

verus! {

/// The sysinfo handle on the machine's state.
#[verifier::external_type_specification]
#[verifier::external_body]
pub struct ExSystem(System);

/// One CPU as sysinfo reports it.
#[verifier::external_type_specification]
#[verifier::external_body]
pub struct ExCpu(Cpu);

/// The operating system's long name, as the machine reports it.
pub struct LongOsVersion(pub Option<String>);

/// The operating system's name, as the machine reports it.
pub struct OsName(pub Option<String>);

/// The operating system's version, as the machine reports it.
pub struct OsVersion(pub Option<String>);

/// Calls `System::long_os_version`, which reads the operating system's long
/// name from the machine; nothing is promised of what it returns.
#[verifier::external_body]
fn read_long_os_version() -> LongOsVersion {
    LongOsVersion(System::long_os_version())
}

/// Calls `System::name`, which reads the operating system's name from the
/// machine; nothing is promised of what it returns.
#[verifier::external_body]
fn read_os_name() -> OsName {
    OsName(System::name())
}

/// Calls `System::os_version`, which reads the operating system's version
/// from the machine; nothing is promised of what it returns.
#[verifier::external_body]
fn read_os_version() -> OsVersion {
    OsVersion(System::os_version())
}

/// Calls `System::new_with_specifics` with a refresh request for every CPU
/// detail (`RefreshKind::new().with_cpu(CpuRefreshKind::everything())`); the
/// details are read from the machine and nothing is promised of them.
#[verifier::external_body]
fn system_with_cpu_details() -> System {
    System::new_with_specifics(RefreshKind::new().with_cpu(CpuRefreshKind::everything()))
}

/// `System::cpus` lists the CPUs sysinfo found; nothing is promised of them.
pub assume_specification[ System::cpus ](system: &System) -> &[Cpu];

/// `Cpu::brand` gives the CPU's brand string as the machine reports it; nothing
/// is promised of it.
pub assume_specification[ Cpu::brand ](cpu: &Cpu) -> &str;

/// The value of an operating-system field that counts: present and not blank.
pub open spec fn meaningful(value: Option<String>) -> Option<Seq<char>> {
    match value {
        Some(v) => if is_blank(v@) { None } else { Some(v@) },
        None => None,
    }
}

/// The operating-system label: the long version when there is one; else the
/// name followed by the version; else the name alone; else `fallback_os`.
pub open spec fn os_label(
    long: Option<String>,
    name: Option<String>,
    version: Option<String>,
    fallback_os: Seq<char>,
) -> Seq<char> {
    match meaningful(long) {
        Some(l) => l,
        None => match (meaningful(name), meaningful(version)) {
            (Some(n), Some(v)) => n + " "@ + v,
            (Some(n), None) => n,
            (None, _) => fallback_os,
        },
    }
}

/// The CPU label: the trimmed brand, or `Unknown` when there is no CPU or its
/// brand is blank.
pub open spec fn cpu_label_text(brand: Option<Seq<char>>) -> Seq<char> {
    match brand {
        Some(b) => if trimmed(b).len() == 0 { "Unknown"@ } else { trimmed(b) },
        None => "Unknown"@,
    }
}

/// What the graphics stack reports of the GPU a window renders with.
pub struct GpuInfo {
    pub device_name: String,
    pub driver_name: String,
    pub driver_info: String,
    pub is_software_emulated: bool,
}

/// The GPU label: the trimmed device name (or `Unavailable`), the trimmed
/// driver name and driver information in parentheses where present, and
/// ` [software]` for a software renderer; `Unavailable` when nothing is known.
pub open spec fn gpu_label_text(specs: Option<GpuInfo>) -> Seq<char> {
    match specs {
        None => "Unavailable"@,
        Some(s) => {
            let device = trimmed(s.device_name@);
            let base = if device.len() == 0 { "Unavailable"@ } else { device };
            let driver_name = trimmed(s.driver_name@);
            let driver_info = trimmed(s.driver_info@);
            let with_driver = if driver_name.len() != 0 && driver_info.len() != 0 {
                base + " ("@ + driver_name + "; "@ + driver_info + ")"@
            } else if driver_name.len() != 0 {
                base + " ("@ + driver_name + ")"@
            } else if driver_info.len() != 0 {
                base + " ("@ + driver_info + ")"@
            } else {
                base
            };
            if s.is_software_emulated {
                with_driver + " [software]"@
            } else {
                with_driver
            }
        },
    }
}

/// The troubleshooting report: one line each for the version, architecture,
/// operating system, CPU and memory, and a GPU line when the GPU is known.
pub open spec fn report_text(
    version: Seq<char>,
    arch: Seq<char>,
    os: Seq<char>,
    cpu: Seq<char>,
    memory: Seq<char>,
    gpu: Option<Seq<char>>,
) -> Seq<char> {
    let head = "Hummingbird "@ + version + "\nArchitecture: "@ + arch + "\nOperating System: "@ + os
        + "\nCPU: "@ + cpu + "\nMemory: "@ + memory;
    match gpu {
        Some(g) => head + "\nGPU: "@ + g,
        None => head,
    }
}

fn meaningful_value(value: Option<String>) -> (r: Option<String>)
    ensures
        match r {
            Some(v) => meaningful(value) == Some(v@),
            None => meaningful(value) is None,
        },
{
    match value {
        Some(v) => {
            let t = trim(v.as_str());
            if t.as_str().is_empty() {
                None
            } else {
                Some(v)
            }
        },
        None => None,
    }
}

/// Picks the operating-system label from what the machine reported.
pub fn choose_operating_system_label(
    long: LongOsVersion,
    name: OsName,
    version: OsVersion,
    fallback_os: &str,
) -> (label: String)
    ensures
        label@ == os_label(long.0, name.0, version.0, fallback_os@),
        long.0 matches Some(l) ==> (!is_blank(l@) ==> label@ == l@),
        !(long.0 matches Some(l) && !is_blank(l@)) ==> ({
            let has_name = name.0 matches Some(n) && !is_blank(n@);
            let has_version = version.0 matches Some(v) && !is_blank(v@);
            &&& has_name && has_version ==> label@ == name.0->0@ + " "@ + version.0->0@
            &&& has_name && !has_version ==> label@ == name.0->0@
            &&& !has_name ==> label@ == fallback_os@
        }),
{
    let (long, name, version) = (long.0, name.0, version.0);
    if let Some(l) = meaningful_value(long) {
        return l;
    }
    let name = meaningful_value(name);
    let version = meaningful_value(version);
    match (name, version) {
        (Some(n), Some(v)) => {
            let mut out = n;
            out.append(" ");
            out.append(v.as_str());
            out
        },
        (Some(n), None) => n,
        (None, _) => String::from_str(fallback_os),
    }
}

/// The operating-system label of this machine; `fallback_os` stands in when
/// the machine names no operating system.
pub fn operating_system_label(fallback_os: &str) -> (label: String)
    ensures
        !is_blank(label@) || label@ == fallback_os@,
{
    let long = read_long_os_version();
    let name = read_os_name();
    let version = read_os_version();
    proof {
        if let (Some(n), Some(v)) = (meaningful(name.0), meaningful(version.0)) {
            crate::text::lemma_not_blank_prefix(n, " "@ + v);
            assert(n + " "@ + v == n + (" "@ + v));
        }
    }
    choose_operating_system_label(long, name, version, fallback_os)
}

/// The CPU label for a brand string, or for no CPU at all.
pub fn cpu_label_from_brand(brand: Option<&str>) -> (label: String)
    ensures
        label@ == cpu_label_text(
            match brand {
                Some(b) => Some(b@),
                None => None,
            },
        ),
        brand matches Some(b) ==> (!is_blank(b@) ==> label@ == trimmed(b@)),
        !(brand matches Some(b) && !is_blank(b@)) ==> label@ == "Unknown"@,
{
    match brand {
        Some(b) => {
            let t = trim(b);
            if t.as_str().is_empty() {
                String::from_str("Unknown")
            } else {
                t
            }
        },
        None => String::from_str("Unknown"),
    }
}

/// The label of this machine's first CPU.
pub fn cpu_label() -> (label: String)
    ensures
        label@ == "Unknown"@ || (label@.len() != 0 && trimmed(label@) == label@),
{
    let system = system_with_cpu_details();
    let brand = match system.cpus().first() {
        Some(cpu) => Some(cpu.brand()),
        None => None,
    };
    let label = cpu_label_from_brand(brand);
    proof {
        if let Some(b) = brand {
            crate::text::lemma_trimmed_idempotent(b@);
        }
    }
    label
}

/// The GPU label for what the graphics stack reported.
pub fn gpu_label(specs: Option<GpuInfo>) -> (label: String)
    ensures
        label@ == gpu_label_text(specs),
        specs matches Some(s) && s.is_software_emulated ==> label@.len() >= " [software]"@.len()
            && label@.subrange(label@.len() - " [software]"@.len(), label@.len() as int)
            == " [software]"@,
{
    let specs = match specs {
        Some(s) => s,
        None => {
            return String::from_str("Unavailable");
        },
    };
    let mut gpu = trim(specs.device_name.as_str());
    if gpu.as_str().is_empty() {
        gpu = String::from_str("Unavailable");
    }
    let driver_name = trim(specs.driver_name.as_str());
    let driver_info = trim(specs.driver_info.as_str());
    if !driver_name.as_str().is_empty() && !driver_info.as_str().is_empty() {
        gpu.append(" (");
        gpu.append(driver_name.as_str());
        gpu.append("; ");
        gpu.append(driver_info.as_str());
        gpu.append(")");
    } else if !driver_name.as_str().is_empty() {
        gpu.append(" (");
        gpu.append(driver_name.as_str());
        gpu.append(")");
    } else if !driver_info.as_str().is_empty() {
        gpu.append(" (");
        gpu.append(driver_info.as_str());
        gpu.append(")");
    }
    let ghost unmarked = gpu@;
    if specs.is_software_emulated {
        gpu.append(" [software]");
        proof {
            assert(gpu@.subrange(gpu@.len() - " [software]"@.len(), gpu@.len() as int) =~= " [software]"@);
        }
    }
    gpu
}

/// Writes the troubleshooting report from its parts.
pub fn troubleshooting_report(
    version: &str,
    arch: &str,
    os: &str,
    cpu: &str,
    memory: &str,
    gpu: Option<&str>,
) -> (report: String)
    ensures
        report@ == report_text(
            version@,
            arch@,
            os@,
            cpu@,
            memory@,
            match gpu {
                Some(g) => Some(g@),
                None => None,
            },
        ),
        gpu is None ==> report@ == "Hummingbird "@ + version@ + "\nArchitecture: "@ + arch@
            + "\nOperating System: "@ + os@ + "\nCPU: "@ + cpu@ + "\nMemory: "@ + memory@,
        gpu matches Some(g) ==> report@ == "Hummingbird "@ + version@ + "\nArchitecture: "@ + arch@
            + "\nOperating System: "@ + os@ + "\nCPU: "@ + cpu@ + "\nMemory: "@ + memory@
            + "\nGPU: "@ + g@,
{
    let mut info = String::from_str("Hummingbird ");
    info.append(version);
    info.append("\nArchitecture: ");
    info.append(arch);
    info.append("\nOperating System: ");
    info.append(os);
    info.append("\nCPU: ");
    info.append(cpu);
    info.append("\nMemory: ");
    info.append(memory);
    if let Some(g) = gpu {
        info.append("\nGPU: ");
        info.append(g);
    }
    info
}

/// The software marker depends on nothing but the software flag: the label of
/// a software renderer is the label the same GPU would have as a hardware one,
/// followed by ` [software]`, whatever its device name and driver details.
pub proof fn lemma_software_marker_appended(
    device_name: String,
    driver_name: String,
    driver_info: String,
)
    ensures
        gpu_label_text(
            Some(
                GpuInfo {
                    device_name: device_name,
                    driver_name: driver_name,
                    driver_info: driver_info,
                    is_software_emulated: true,
                },
            ),
        ) == gpu_label_text(
            Some(
                GpuInfo {
                    device_name: device_name,
                    driver_name: driver_name,
                    driver_info: driver_info,
                    is_software_emulated: false,
                },
            ),
        ) + " [software]"@,
{
}

/// Driver details appear, in parentheses after the device part, exactly when
/// the driver name or the driver information is not blank; with both, they are
/// separated by `; `.
pub proof fn lemma_driver_details(device_name: String, driver_name: String, driver_info: String)
    ensures
        ({
            let device = trimmed(device_name@);
            let base = if device.len() == 0 { "Unavailable"@ } else { device };
            let hardware = gpu_label_text(
                Some(
                    GpuInfo {
                        device_name: device_name,
                        driver_name: driver_name,
                        driver_info: driver_info,
                        is_software_emulated: false,
                    },
                ),
            );
            let n = trimmed(driver_name@);
            let i = trimmed(driver_info@);
            &&& (n.len() == 0 && i.len() == 0) ==> hardware == base
            &&& (n.len() != 0 && i.len() != 0) ==> hardware == base + " ("@ + n + "; "@ + i + ")"@
            &&& (n.len() != 0 && i.len() == 0) ==> hardware == base + " ("@ + n + ")"@
            &&& (n.len() == 0 && i.len() != 0) ==> hardware == base + " ("@ + i + ")"@
        }),
{
}

} // verus!
