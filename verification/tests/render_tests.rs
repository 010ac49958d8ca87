use ru_fetch::conf::{Config, MemType, Time};
use ru_fetch::parse::ParseError;
use ru_fetch::render::{
    render_colors, render_cpu, render_de, render_disks, render_header, render_kernel,
    render_memory, render_os, render_parse_warning, render_report, render_swap, render_temps,
    render_uptime,
};
use ru_fetch::snapshot::{Disk, Sensor, Snapshot};

const ESC: char = '\u{1b}';

fn sample_snapshot() -> Snapshot {
    Snapshot {
        host_name: Some(String::from("box")),
        os_version: Some(String::from("Ubuntu 22.04")),
        kernel_version: Some(String::from("6.1.0")),
        desktop_environment: Some(String::from("gnome")),
        uptime_seconds: 3600,
        cpu_brand: String::from("TestCPU"),
        cpu_count: 8,
        memory_used: 1_000_000_000,
        memory_total: 2_000_000_000,
        swap_used: 500_000_000,
        swap_total: 1_000_000_000,
        disks: vec![Disk {
            name: String::from("sda"),
            total_bytes: 3 * 1024 * 1024 * 1024,
            available_bytes: 1024 * 1024 * 1024,
        }],
        sensors: vec![Sensor {
            label: String::from("cpu"),
            temperature: String::from("45.5"),
        }],
    }
}

fn bold(code: u32, text: &str) -> String {
    format!("{ESC}[1;3{code}m{text}{ESC}[0m")
}

#[test]
fn uptime_hour_conversion() {
    let mut c = Config::default();
    c.uptime_type = Time::Hour;
    let s = sample_snapshot();
    let expected = format!("{} 1.00 hour(s)\n", bold(4, "Uptime: "));
    assert_eq!(render_uptime(&c, &s), Some(expected));
}

#[test]
fn uptime_minute_conversion() {
    let c = Config::default();
    let s = sample_snapshot();
    let expected = format!("{} 60.00 min(s)\n", bold(4, "Uptime:"));
    assert_eq!(render_uptime(&c, &s), Some(expected));
}

#[test]
fn uptime_second_conversion() {
    let mut c = Config::default();
    c.uptime_type = Time::Second;
    let s = sample_snapshot();
    let expected = format!("{} 3600.00 sec(s)\n", bold(4, "Uptime: "));
    assert_eq!(render_uptime(&c, &s), Some(expected));
}

#[test]
fn uptime_rounds_to_hundredths() {
    let c = Config::default();
    let mut s = sample_snapshot();
    s.uptime_seconds = 59;
    let expected = format!("{} 0.98 min(s)\n", bold(4, "Uptime:"));
    assert_eq!(render_uptime(&c, &s), Some(expected));
    s.uptime_seconds = 90;
    let expected = format!("{} 1.50 min(s)\n", bold(4, "Uptime:"));
    assert_eq!(render_uptime(&c, &s), Some(expected));
}

#[test]
fn uptime_gated_off() {
    let mut c = Config::default();
    c.show_uptime = false;
    assert_eq!(render_uptime(&c, &sample_snapshot()), None);
}

#[test]
fn memory_gb_conversion() {
    let c = Config::default();
    let s = sample_snapshot();
    let expected = format!("{} 1.00 GB / 2.00 GB\n", bold(4, "Memory:"));
    assert_eq!(render_memory(&c, &s), Some(expected));
}

#[test]
fn memory_mb_conversion() {
    let mut c = Config::default();
    c.memory_type = MemType::MB;
    let s = sample_snapshot();
    let expected = format!("{} 1000.00 MB / 2000.00 MB\n", bold(4, "Memory:"));
    assert_eq!(render_memory(&c, &s), Some(expected));
}

#[test]
fn memory_kb_conversion() {
    let mut c = Config::default();
    c.memory_type = MemType::KB;
    let s = sample_snapshot();
    let expected = format!("{} 1000000.00 KB / 2000000.00 KB\n", bold(4, "Memory:"));
    assert_eq!(render_memory(&c, &s), Some(expected));
}

#[test]
fn swap_reuses_the_memory_unit() {
    let c = Config::default();
    let s = sample_snapshot();
    let expected = format!("{} 0.50 GB / 1.00 GB\n", bold(4, "Swap:"));
    assert_eq!(render_swap(&c, &s), Some(expected));
}

#[test]
fn cpu_with_cores_appends_count() {
    let c = Config::default();
    let s = sample_snapshot();
    let expected = format!("{} TestCPU (8)\n", bold(4, "CPU:"));
    assert_eq!(render_cpu(&c, &s), Some(expected));
}

#[test]
fn core_count_gating() {
    let mut c = Config::default();
    c.show_cores = false;
    let mut s = sample_snapshot();
    let first = render_cpu(&c, &s).unwrap();
    s.cpu_count = 123456;
    let second = render_cpu(&c, &s).unwrap();
    assert_eq!(first, second);
    assert!(!first.contains('('));
    let expected = format!("{} TestCPU\n", bold(4, "CPU:"));
    assert_eq!(first, expected);
}

#[test]
fn header_lines() {
    let c = Config::default();
    let s = sample_snapshot();
    let expected = format!(
        "{}@{}\n{}\n{} box\n",
        bold(4, "alice"),
        bold(4, "box"),
        "-".repeat(30),
        bold(4, "Host:")
    );
    assert_eq!(render_header(&c, &s, "alice"), Some(expected));
}

#[test]
fn header_skipped_without_hostname() {
    let c = Config::default();
    let mut s = sample_snapshot();
    s.host_name = None;
    assert_eq!(render_header(&c, &s, "alice"), None);
}

#[test]
fn os_kernel_and_de_lines() {
    let c = Config::default();
    let s = sample_snapshot();
    assert_eq!(
        render_os(&c, &s),
        Some(format!("{} Ubuntu 22.04\n", bold(4, "OS:")))
    );
    assert_eq!(
        render_kernel(&c, &s),
        Some(format!("{} 6.1.0\n", bold(4, "Kernel Version:")))
    );
    assert_eq!(render_de(&c, &s), Some(format!("{} gnome\n", bold(4, "DE:"))));
}

#[test]
fn absent_facts_suppress_their_sections() {
    let c = Config::default();
    let mut s = sample_snapshot();
    s.os_version = None;
    s.kernel_version = None;
    s.desktop_environment = None;
    assert_eq!(render_os(&c, &s), None);
    assert_eq!(render_kernel(&c, &s), None);
    assert_eq!(render_de(&c, &s), None);
}

#[test]
fn disk_line_in_gibibytes() {
    let c = Config::default();
    let s = sample_snapshot();
    let expected = format!(
        "{}: {} (2.00 GB / 3.00 GB)\n",
        bold(4, "Disk"),
        bold(3, "sda")
    );
    assert_eq!(render_disks(&c, &s), Some(expected));
}

#[test]
fn no_disks_produce_no_lines() {
    let c = Config::default();
    let mut s = sample_snapshot();
    s.disks = Vec::new();
    assert_eq!(render_disks(&c, &s), None);
    let report = render_report(&c, &s, "alice");
    assert!(!report.contains("Disk"));
}

#[test]
fn temperature_section_layout() {
    let mut c = Config::default();
    c.show_temperature = true;
    let s = sample_snapshot();
    let expected = format!(
        "\n{}\n{}\n{}: 45.5\u{b0}C\n\n",
        format!("{ESC}[1;31mTemperature{ESC}[0m"),
        format!("{ESC}[1;31m{}{ESC}[0m", "-".repeat(20)),
        bold(4, "cpu")
    );
    assert_eq!(render_temps(&c, &s), Some(expected));
}

#[test]
fn temperature_off_by_default() {
    let c = Config::default();
    assert_eq!(render_temps(&c, &sample_snapshot()), None);
}

#[test]
fn no_sensors_still_print_header_and_rule() {
    let mut c = Config::default();
    c.show_temperature = true;
    let mut s = sample_snapshot();
    s.sensors = Vec::new();
    let expected = format!(
        "\n{ESC}[1;31mTemperature{ESC}[0m\n{ESC}[1;31m{}{ESC}[0m\n\n",
        "-".repeat(20)
    );
    assert_eq!(render_temps(&c, &s), Some(expected));
}

fn block(code: u32, width: usize) -> String {
    format!("{ESC}[4{code};3{code}m{}{ESC}[0m", " ".repeat(width))
}

#[test]
fn swatch_geometry() {
    let mut c = Config::default();
    c.colors_height = 2;
    c.colors_width = 3;
    let out = render_colors(&c).unwrap();
    let lines: Vec<&str> = out.split_terminator('\n').collect();
    assert_eq!(lines.len(), 4);
    let row_a = format!("{}{}{}{}", block(1, 7), block(2, 7), block(4, 7), block(3, 7));
    let row_b = format!("{}{}{}{}", block(0, 7), block(7, 7), block(5, 7), block(6, 7));
    assert_eq!(lines[0], row_a);
    assert_eq!(lines[1], row_a);
    assert_eq!(lines[2], row_b);
    assert_eq!(lines[3], row_b);
}

#[test]
fn swatch_zero_height_prints_nothing() {
    let mut c = Config::default();
    c.colors_height = 0;
    assert_eq!(render_colors(&c), None);
}

#[test]
fn swatch_zero_width_keeps_one_column() {
    let mut c = Config::default();
    c.colors_height = 1;
    c.colors_width = 0;
    let out = render_colors(&c).unwrap();
    let lines: Vec<&str> = out.split_terminator('\n').collect();
    assert_eq!(lines.len(), 2);
    assert_eq!(
        lines[0],
        format!("{}{}{}{}", block(1, 1), block(2, 1), block(4, 1), block(3, 1))
    );
}

#[test]
fn report_concatenates_sections_in_order() {
    let c = Config::default();
    let s = sample_snapshot();
    let report = render_report(&c, &s, "alice");
    let mut expected = String::new();
    for part in [
        render_header(&c, &s, "alice"),
        render_os(&c, &s),
        render_de(&c, &s),
        render_uptime(&c, &s),
        render_kernel(&c, &s),
        render_disks(&c, &s),
        render_cpu(&c, &s),
        render_memory(&c, &s),
        render_swap(&c, &s),
        render_temps(&c, &s),
        render_colors(&c),
    ] {
        if let Some(t) = part {
            expected.push_str(&t);
        }
    }
    assert_eq!(report, expected);
}

#[test]
fn parse_warning_text() {
    let e = ParseError::Syntax { line: 1 };
    let expected = format!(
        "{}\n{} {}\n",
        format!("{ESC}[1;31mError in config, falling back to default config.{ESC}[0m"),
        format!("{ESC}[1;31msyntax error at line 1{ESC}[0m"),
        bold(4, "(line, column may differ from actual)")
    );
    assert_eq!(render_parse_warning(&e), expected);
}
