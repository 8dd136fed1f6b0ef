use hummingbird::text::{decimal_string, is_whitespace, trim};
use hummingbird::ui::troubleshooting::{
    choose_operating_system_label, cpu_label, cpu_label_from_brand, gpu_label,
    operating_system_label, troubleshooting_report, GpuInfo, LongOsVersion, OsName, OsVersion,
};

#[test]
fn trim_removes_unicode_white_space_at_both_ends() {
    assert_eq!(trim("  a b \t"), "a b");
    assert_eq!(trim("\u{3000}x\u{85}"), "x");
    assert_eq!(trim(" \n "), "");
    assert_eq!(trim(""), "");
    assert_eq!(trim("abc"), "abc");
    assert_eq!(trim("\u{200B}x"), "\u{200B}x");
}

#[test]
fn trim_matches_std_trim() {
    for s in ["  héllo  ", "\u{2028}\u{2029}a\u{a0}", "\t\r\n", "mid  dle", "\u{1680}z"] {
        assert_eq!(trim(s), s.trim());
    }
}

#[test]
fn trim_is_idempotent() {
    let once = trim("\t  Intel(R) Core(TM) i7  ");
    assert_eq!(trim(&once), once);
}

#[test]
fn whitespace_matches_std() {
    for c in ['\t', ' ', '\u{85}', '\u{a0}', '\u{2000}', '\u{200a}', '\u{200b}', 'a', '\u{3000}', '\u{feff}'] {
        assert_eq!(is_whitespace(c), c.is_whitespace(), "{:?}", c);
    }
}

#[test]
fn decimal_writes_integers_like_display() {
    assert_eq!(decimal_string(0), "0");
    assert_eq!(decimal_string(7), "7");
    assert_eq!(decimal_string(42), "42");
    assert_eq!(decimal_string(-42), "-42");
    assert_eq!(decimal_string(1000), "1000");
    assert_eq!(decimal_string(i64::MIN), i64::MIN.to_string());
    assert_eq!(decimal_string(i64::MAX), i64::MAX.to_string());
}

fn s(v: &str) -> Option<String> {
    Some(v.to_string())
}

fn os(long: Option<String>, name: Option<String>, version: Option<String>, fallback: &str) -> String {
    choose_operating_system_label(LongOsVersion(long), OsName(name), OsVersion(version), fallback)
}

#[test]
fn os_label_prefers_the_long_version() {
    assert_eq!(
        os(s("Linux (Fedora 40)"), s("Fedora"), s("40"), "linux"),
        "Linux (Fedora 40)"
    );
}

#[test]
fn os_label_combines_name_and_version() {
    assert_eq!(os(s("  "), s("Fedora"), s("40"), "linux"), "Fedora 40");
    assert_eq!(os(None, s("Fedora"), None, "linux"), "Fedora");
    assert_eq!(os(None, s("Fedora"), s(" "), "linux"), "Fedora");
}

#[test]
fn os_label_falls_back_without_a_name() {
    assert_eq!(os(None, None, s("40"), "linux"), "linux");
    assert_eq!(os(None, s("\t"), None, "macos"), "macos");
}

#[test]
fn os_label_of_this_machine_is_not_blank() {
    let label = operating_system_label("linux");
    assert!(!label.trim().is_empty());
}

#[test]
fn cpu_label_trims_the_brand() {
    assert_eq!(cpu_label_from_brand(Some("  AMD Ryzen 7 ")), "AMD Ryzen 7");
    assert_eq!(cpu_label_from_brand(Some("   ")), "Unknown");
    assert_eq!(cpu_label_from_brand(None), "Unknown");
}

#[test]
fn cpu_label_of_this_machine_is_trimmed() {
    let label = cpu_label();
    assert_eq!(label.trim(), label);
    assert!(!label.is_empty());
}

fn gpu(device: &str, driver: &str, info: &str, software: bool) -> Option<GpuInfo> {
    Some(GpuInfo {
        device_name: device.to_string(),
        driver_name: driver.to_string(),
        driver_info: info.to_string(),
        is_software_emulated: software,
    })
}

#[test]
fn gpu_label_lists_driver_details() {
    assert_eq!(gpu_label(gpu(" Radeon ", "radv", "Mesa 24", false)), "Radeon (radv; Mesa 24)");
    assert_eq!(gpu_label(gpu("Radeon", "radv", " ", false)), "Radeon (radv)");
    assert_eq!(gpu_label(gpu("Radeon", "", "Mesa 24", false)), "Radeon (Mesa 24)");
    assert_eq!(gpu_label(gpu("Radeon", "", "", false)), "Radeon");
}

#[test]
fn gpu_label_marks_software_and_missing_devices() {
    assert_eq!(gpu_label(gpu("llvmpipe", "", "", true)), "llvmpipe [software]");
    assert_eq!(gpu_label(gpu("  ", "", "", false)), "Unavailable");
    assert_eq!(gpu_label(None), "Unavailable");
}

#[test]
fn report_has_one_line_per_part() {
    let report = troubleshooting_report("1.2.0", "x86_64", "Fedora 40", "AMD Ryzen 7", "16 GiB", Some("Radeon"));
    assert_eq!(
        report,
        "Hummingbird 1.2.0\nArchitecture: x86_64\nOperating System: Fedora 40\nCPU: AMD Ryzen 7\nMemory: 16 GiB\nGPU: Radeon"
    );
    let without_gpu = troubleshooting_report("1.2.0", "aarch64", "macOS 14", "Apple M2", "8 GiB", None);
    assert_eq!(
        without_gpu,
        "Hummingbird 1.2.0\nArchitecture: aarch64\nOperating System: macOS 14\nCPU: Apple M2\nMemory: 8 GiB"
    );
}
