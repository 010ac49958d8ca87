//! Rendering of the report. Each section is a pure function from the
//! configuration and the snapshot to an optional block of styled text:
//! `None` whenever the section is toggled off or its underlying datum is
//! absent — nothing is ever replaced by a placeholder. The full report is
//! the concatenation of the sections in a fixed order.

use vstd::prelude::*;
use vstd::string::StringExecFns;
use crate::conf::{Config, MemType, Time};
use crate::numfmt::{dec_string, spec_dec_digits, spec_two_decimals, two_decimals};
use crate::paint::{Hue, paint_block, paint_bold, spec_block_painted, spec_bold_painted};
use crate::parse::ParseError;
use crate::snapshot::{Disk, Sensor, Snapshot};

verus! {

/// The text a section contributes to the report: nothing when suppressed.
pub open spec fn spec_opt_text(o: Option<Seq<char>>) -> Seq<char> {
    match o {
        None => Seq::<char>::empty(),
        Some(t) => t,
    }
}

/// The view of an optional rendered section.
pub open spec fn opt_view(r: Option<String>) -> Option<Seq<char>> {
    match r {
        None => None,
        Some(s) => Some(s@),
    }
}

/// `n` hyphens, the separator rule under headers.
pub open spec fn spec_dashes(n: int) -> Seq<char> {
    Seq::new(n as nat, |i: int| '-')
}

/// `n` blanks, the body of one color block.
pub open spec fn spec_spaces(n: int) -> Seq<char> {
    Seq::new(n as nat, |i: int| ' ')
}

fn dashes(n: u64) -> (r: String)
    ensures
        r@ == spec_dashes(n as int),
{
    let mut out = String::new();
    let mut i: u64 = 0;
    while i < n
        invariant
            i <= n,
            out@ =~= spec_dashes(i as int),
        decreases n - i,
    {
        out.append("-");
        i = i + 1;
        proof {
            reveal_strlit("-");
            assert(out@ =~= spec_dashes(i as int));
        }
    }
    out
}

fn spaces(n: u64) -> (r: String)
    ensures
        r@ == spec_spaces(n as int),
{
    let mut out = String::new();
    let mut i: u64 = 0;
    while i < n
        invariant
            i <= n,
            out@ =~= spec_spaces(i as int),
        decreases n - i,
    {
        out.append(" ");
        i = i + 1;
        proof {
            reveal_strlit(" ");
            assert(out@ =~= spec_spaces(i as int));
        }
    }
    out
}

/// A bold blue label, a space, the raw text, and a newline: the shape of
/// most report lines.
pub open spec fn spec_labeled_line(label: Seq<char>, text: Seq<char>) -> Seq<char> {
    spec_bold_painted(Hue::Blue, label) + (" ")@ + text + ("\n")@
}

fn labeled_line(label: &str, text: &str) -> (r: String)
    ensures
        r@ == spec_labeled_line(label@, text@),
{
    let mut out = paint_bold(Hue::Blue, label);
    out.append(" ");
    out.append(text);
    out.append("\n");
    proof {
        assert(out@ =~= spec_labeled_line(label@, text@));
    }
    out
}

// ---------------------------------------------------------------------------
// Identity header.
// ---------------------------------------------------------------------------

/// `user@host`, a 30-column rule, and the labeled hostname line. Skipped
/// entirely — rule included — when the snapshot has no hostname.
pub open spec fn spec_render_header(c: Config, s: Snapshot, user: Seq<char>) -> Option<Seq<char>> {
    if !c.show_hostname {
        None
    } else {
        match s.host_name {
            None => None,
            Some(h) => Some(
                spec_bold_painted(Hue::Blue, user) + ("@")@ + spec_bold_painted(Hue::Blue, h@) + (
                "\n")@ + spec_dashes(30) + ("\n")@ + spec_labeled_line(("Host:")@, h@),
            ),
        }
    }
}

pub fn render_header(c: &Config, s: &Snapshot, user: &str) -> (r: Option<String>)
    ensures
        opt_view(r) == spec_render_header(*c, *s, user@),
{
    if !c.show_hostname {
        return None;
    }
    match &s.host_name {
        None => None,
        Some(h) => {
            let mut out = paint_bold(Hue::Blue, user);
            out.append("@");
            let painted_host = paint_bold(Hue::Blue, h.as_str());
            out.append(painted_host.as_str());
            out.append("\n");
            let rule = dashes(30);
            out.append(rule.as_str());
            out.append("\n");
            let host_line = labeled_line("Host:", h.as_str());
            out.append(host_line.as_str());
            proof {
                assert(out@ =~= spec_opt_text(spec_render_header(*c, *s, user@)));
            }
            Some(out)
        },
    }
}

// ---------------------------------------------------------------------------
// Single-line sections over optional snapshot strings.
// ---------------------------------------------------------------------------

/// The long OS version string, when the host reports one.
pub open spec fn spec_render_os(c: Config, s: Snapshot) -> Option<Seq<char>> {
    if !c.show_os {
        None
    } else {
        match s.os_version {
            None => None,
            Some(o) => Some(spec_labeled_line(("OS:")@, o@)),
        }
    }
}

pub fn render_os(c: &Config, s: &Snapshot) -> (r: Option<String>)
    ensures
        opt_view(r) == spec_render_os(*c, *s),
{
    if !c.show_os {
        return None;
    }
    match &s.os_version {
        None => None,
        Some(o) => Some(labeled_line("OS:", o.as_str())),
    }
}

/// The desktop environment, when the platform supplies an indicator.
pub open spec fn spec_render_de(c: Config, s: Snapshot) -> Option<Seq<char>> {
    if !c.show_de {
        None
    } else {
        match s.desktop_environment {
            None => None,
            Some(d) => Some(spec_labeled_line(("DE:")@, d@)),
        }
    }
}

pub fn render_de(c: &Config, s: &Snapshot) -> (r: Option<String>)
    ensures
        opt_view(r) == spec_render_de(*c, *s),
{
    if !c.show_de {
        return None;
    }
    match &s.desktop_environment {
        None => None,
        Some(d) => Some(labeled_line("DE:", d.as_str())),
    }
}

/// The raw kernel version string, when the host reports one.
pub open spec fn spec_render_kernel(c: Config, s: Snapshot) -> Option<Seq<char>> {
    if !c.show_kernel_version {
        None
    } else {
        match s.kernel_version {
            None => None,
            Some(k) => Some(spec_labeled_line(("Kernel Version:")@, k@)),
        }
    }
}

pub fn render_kernel(c: &Config, s: &Snapshot) -> (r: Option<String>)
    ensures
        opt_view(r) == spec_render_kernel(*c, *s),
{
    if !c.show_kernel_version {
        return None;
    }
    match &s.kernel_version {
        None => None,
        Some(k) => Some(labeled_line("Kernel Version:", k.as_str())),
    }
}

// ---------------------------------------------------------------------------
// Uptime.
// ---------------------------------------------------------------------------

/// Uptime converted per the configured unit — seconds as given, minutes as
/// seconds/60, hours as seconds/3600 — always with two decimal digits.
pub open spec fn spec_render_uptime(c: Config, s: Snapshot) -> Option<Seq<char>> {
    if !c.show_uptime {
        None
    } else {
        match c.uptime_type {
            Time::Second => Some(
                spec_bold_painted(Hue::Blue, ("Uptime: ")@) + (" ")@ + spec_two_decimals(
                    s.uptime_seconds as int,
                    1,
                ) + (" sec(s)\n")@,
            ),
            Time::Minute => Some(
                spec_bold_painted(Hue::Blue, ("Uptime:")@) + (" ")@ + spec_two_decimals(
                    s.uptime_seconds as int,
                    60,
                ) + (" min(s)\n")@,
            ),
            Time::Hour => Some(
                spec_bold_painted(Hue::Blue, ("Uptime: ")@) + (" ")@ + spec_two_decimals(
                    s.uptime_seconds as int,
                    3600,
                ) + (" hour(s)\n")@,
            ),
        }
    }
}

pub fn render_uptime(c: &Config, s: &Snapshot) -> (r: Option<String>)
    ensures
        opt_view(r) == spec_render_uptime(*c, *s),
{
    if !c.show_uptime {
        return None;
    }
    match c.uptime_type {
        Time::Second => {
            let mut out = paint_bold(Hue::Blue, "Uptime: ");
            out.append(" ");
            let num = two_decimals(s.uptime_seconds, 1);
            out.append(num.as_str());
            out.append(" sec(s)\n");
            proof {
                assert(out@ =~= spec_opt_text(spec_render_uptime(*c, *s)));
            }
            Some(out)
        },
        Time::Minute => {
            let mut out = paint_bold(Hue::Blue, "Uptime:");
            out.append(" ");
            let num = two_decimals(s.uptime_seconds, 60);
            out.append(num.as_str());
            out.append(" min(s)\n");
            proof {
                assert(out@ =~= spec_opt_text(spec_render_uptime(*c, *s)));
            }
            Some(out)
        },
        Time::Hour => {
            let mut out = paint_bold(Hue::Blue, "Uptime: ");
            out.append(" ");
            let num = two_decimals(s.uptime_seconds, 3600);
            out.append(num.as_str());
            out.append(" hour(s)\n");
            proof {
                assert(out@ =~= spec_opt_text(spec_render_uptime(*c, *s)));
            }
            Some(out)
        },
    }
}

// ---------------------------------------------------------------------------
// Disks.
// ---------------------------------------------------------------------------

/// One disk line: name, used space and total space in GiB, two decimals.
pub open spec fn spec_disk_line(d: Disk) -> Seq<char> {
    spec_bold_painted(Hue::Blue, ("Disk")@) + (": ")@ + spec_bold_painted(Hue::Yellow, d.name@) + (
    " (")@ + spec_two_decimals(d.total_bytes - d.available_bytes, 1073741824) + (" GB / ")@
        + spec_two_decimals(d.total_bytes as int, 1073741824) + (" GB)\n")@
}

/// The disk lines in the snapshot's own order.
pub open spec fn spec_disk_lines(ds: Seq<Disk>) -> Seq<char>
    decreases ds.len(),
{
    if ds.len() == 0 {
        Seq::<char>::empty()
    } else {
        spec_disk_lines(ds.drop_last()) + spec_disk_line(ds.last())
    }
}

/// One line per disk; nothing at all — no placeholder — when the snapshot
/// has no disks.
pub open spec fn spec_render_disks(c: Config, s: Snapshot) -> Option<Seq<char>> {
    if !c.show_disks {
        None
    } else if s.disks@.len() == 0 {
        None
    } else {
        Some(spec_disk_lines(s.disks@))
    }
}

fn disk_line(d: &Disk) -> (r: String)
    requires
        d.wf(),
    ensures
        r@ == spec_disk_line(*d),
{
    let mut out = paint_bold(Hue::Blue, "Disk");
    out.append(": ");
    let name = paint_bold(Hue::Yellow, d.name.as_str());
    out.append(name.as_str());
    out.append(" (");
    let used = two_decimals(d.total_bytes - d.available_bytes, 1073741824);
    out.append(used.as_str());
    out.append(" GB / ");
    let total = two_decimals(d.total_bytes, 1073741824);
    out.append(total.as_str());
    out.append(" GB)\n");
    proof {
        assert(out@ =~= spec_disk_line(*d));
    }
    out
}

pub fn render_disks(c: &Config, s: &Snapshot) -> (r: Option<String>)
    requires
        s.wf(),
    ensures
        opt_view(r) == spec_render_disks(*c, *s),
{
    if !c.show_disks {
        return None;
    }
    if s.disks.len() == 0 {
        return None;
    }
    let mut out = String::new();
    let mut i: usize = 0;
    while i < s.disks.len()
        invariant
            i <= s.disks@.len(),
            s.wf(),
            out@ == spec_disk_lines(s.disks@.take(i as int)),
        decreases s.disks@.len() - i,
    {
        proof {
            assert(s.disks@[i as int].wf());
            assert(s.disks@.take(i as int + 1).drop_last() =~= s.disks@.take(i as int));
            assert(s.disks@.take(i as int + 1).last() == s.disks@[i as int]);
        }
        let line = disk_line(&s.disks[i]);
        out.append(line.as_str());
        i = i + 1;
    }
    proof {
        assert(s.disks@.take(s.disks@.len() as int) =~= s.disks@);
    }
    Some(out)
}

// ---------------------------------------------------------------------------
// CPU.
// ---------------------------------------------------------------------------

/// The CPU brand string, with the logical core count in parentheses when
/// `show_cores` is also set; the count never appears without the brand.
pub open spec fn spec_render_cpu(c: Config, s: Snapshot) -> Option<Seq<char>> {
    if !c.show_cpu {
        None
    } else {
        Some(
            spec_bold_painted(Hue::Blue, ("CPU:")@) + (" ")@ + s.cpu_brand@ + (if c.show_cores {
                (" (")@ + spec_dec_digits(s.cpu_count as int) + (")")@
            } else {
                Seq::<char>::empty()
            }) + ("\n")@,
        )
    }
}

pub fn render_cpu(c: &Config, s: &Snapshot) -> (r: Option<String>)
    ensures
        opt_view(r) == spec_render_cpu(*c, *s),
{
    if !c.show_cpu {
        return None;
    }
    let mut out = paint_bold(Hue::Blue, "CPU:");
    out.append(" ");
    out.append(s.cpu_brand.as_str());
    if c.show_cores {
        out.append(" (");
        let count = dec_string(s.cpu_count as u128);
        out.append(count.as_str());
        out.append(")");
    }
    out.append("\n");
    proof {
        assert(out@ =~= spec_opt_text(spec_render_cpu(*c, *s)));
    }
    Some(out)
}

// ---------------------------------------------------------------------------
// Memory and swap.
// ---------------------------------------------------------------------------

/// The divisor the configured memory unit applies to a byte count.
pub open spec fn spec_mem_divisor(mt: MemType) -> int {
    match mt {
        MemType::KB => 1000,
        MemType::MB => 1000000,
        MemType::GB => 1000000000,
    }
}

/// The configured memory unit's name.
pub open spec fn spec_mem_unit(mt: MemType) -> Seq<char> {
    match mt {
        MemType::KB => ("KB")@,
        MemType::MB => ("MB")@,
        MemType::GB => ("GB")@,
    }
}

/// `{label} {used} {unit} / {total} {unit}` with two decimal digits.
pub open spec fn spec_mem_line(label: Seq<char>, used: u64, total: u64, mt: MemType) -> Seq<char> {
    spec_bold_painted(Hue::Blue, label) + (" ")@ + spec_two_decimals(
        used as int,
        spec_mem_divisor(mt),
    ) + (" ")@ + spec_mem_unit(mt) + (" / ")@ + spec_two_decimals(
        total as int,
        spec_mem_divisor(mt),
    ) + (" ")@ + spec_mem_unit(mt) + ("\n")@
}

fn mem_unit(mt: MemType) -> (r: &'static str)
    ensures
        r@ == spec_mem_unit(mt),
{
    match mt {
        MemType::KB => "KB",
        MemType::MB => "MB",
        MemType::GB => "GB",
    }
}

fn mem_line(label: &str, used: u64, total: u64, mt: MemType) -> (r: String)
    ensures
        r@ == spec_mem_line(label@, used, total, mt),
{
    let divisor: u64 = match mt {
        MemType::KB => 1000,
        MemType::MB => 1000000,
        MemType::GB => 1000000000,
    };
    let unit = mem_unit(mt);
    let mut out = paint_bold(Hue::Blue, label);
    out.append(" ");
    let used_str = two_decimals(used, divisor);
    out.append(used_str.as_str());
    out.append(" ");
    out.append(unit);
    out.append(" / ");
    let total_str = two_decimals(total, divisor);
    out.append(total_str.as_str());
    out.append(" ");
    out.append(unit);
    out.append("\n");
    proof {
        assert(out@ =~= spec_mem_line(label@, used, total, mt));
    }
    out
}

/// Memory usage in the configured unit.
pub open spec fn spec_render_memory(c: Config, s: Snapshot) -> Option<Seq<char>> {
    if !c.show_memory {
        None
    } else {
        Some(spec_mem_line(("Memory:")@, s.memory_used, s.memory_total, c.memory_type))
    }
}

pub fn render_memory(c: &Config, s: &Snapshot) -> (r: Option<String>)
    ensures
        opt_view(r) == spec_render_memory(*c, *s),
{
    if !c.show_memory {
        return None;
    }
    Some(mem_line("Memory:", s.memory_used, s.memory_total, c.memory_type))
}

/// Swap usage; it reuses the memory unit selector — there is no
/// independent swap unit.
pub open spec fn spec_render_swap(c: Config, s: Snapshot) -> Option<Seq<char>> {
    if !c.show_swap {
        None
    } else {
        Some(spec_mem_line(("Swap:")@, s.swap_used, s.swap_total, c.memory_type))
    }
}

pub fn render_swap(c: &Config, s: &Snapshot) -> (r: Option<String>)
    ensures
        opt_view(r) == spec_render_swap(*c, *s),
{
    if !c.show_swap {
        return None;
    }
    Some(mem_line("Swap:", s.swap_used, s.swap_total, c.memory_type))
}

// ---------------------------------------------------------------------------
// Temperatures.
// ---------------------------------------------------------------------------

/// One sensor line, at the snapshot's raw precision.
pub open spec fn spec_sensor_line(x: Sensor) -> Seq<char> {
    spec_bold_painted(Hue::Blue, x.label@) + (": ")@ + x.temperature@ + ("\u{b0}C\n")@
}

pub open spec fn spec_sensor_lines(xs: Seq<Sensor>) -> Seq<char>
    decreases xs.len(),
{
    if xs.len() == 0 {
        Seq::<char>::empty()
    } else {
        spec_sensor_lines(xs.drop_last()) + spec_sensor_line(xs.last())
    }
}

/// A blank line, a red header and rule, one line per sensor, and a trailing
/// blank line. With no sensors only the header and rule print.
pub open spec fn spec_render_temps(c: Config, s: Snapshot) -> Option<Seq<char>> {
    if !c.show_temperature {
        None
    } else {
        Some(
            ("\n")@ + spec_bold_painted(Hue::Red, ("Temperature")@) + ("\n")@ + spec_bold_painted(
                Hue::Red,
                spec_dashes(20),
            ) + ("\n")@ + spec_sensor_lines(s.sensors@) + ("\n")@,
        )
    }
}

fn sensor_line(x: &Sensor) -> (r: String)
    ensures
        r@ == spec_sensor_line(*x),
{
    let mut out = paint_bold(Hue::Blue, x.label.as_str());
    out.append(": ");
    out.append(x.temperature.as_str());
    out.append("\u{b0}C\n");
    proof {
        assert(out@ =~= spec_sensor_line(*x));
    }
    out
}

pub fn render_temps(c: &Config, s: &Snapshot) -> (r: Option<String>)
    ensures
        opt_view(r) == spec_render_temps(*c, *s),
{
    if !c.show_temperature {
        return None;
    }
    let mut out = String::from_str("\n");
    let header = paint_bold(Hue::Red, "Temperature");
    out.append(header.as_str());
    out.append("\n");
    let rule_text = dashes(20);
    let rule = paint_bold(Hue::Red, rule_text.as_str());
    out.append(rule.as_str());
    out.append("\n");
    let ghost prefix = out@;
    let mut i: usize = 0;
    while i < s.sensors.len()
        invariant
            i <= s.sensors@.len(),
            out@ == prefix + spec_sensor_lines(s.sensors@.take(i as int)),
        decreases s.sensors@.len() - i,
    {
        proof {
            assert(s.sensors@.take(i as int + 1).drop_last() =~= s.sensors@.take(i as int));
            assert(s.sensors@.take(i as int + 1).last() == s.sensors@[i as int]);
        }
        let line = sensor_line(&s.sensors[i]);
        out.append(line.as_str());
        proof {
            assert(out@ =~= prefix + spec_sensor_lines(s.sensors@.take(i as int + 1)));
        }
        i = i + 1;
    }
    out.append("\n");
    proof {
        assert(s.sensors@.take(s.sensors@.len() as int) =~= s.sensors@);
        assert(out@ =~= spec_opt_text(spec_render_temps(*c, *s)));
    }
    Some(out)
}

// ---------------------------------------------------------------------------
// Color swatches.
// ---------------------------------------------------------------------------

/// One solid block: `2*colors_width + 1` blank columns filled with hue `h`.
pub open spec fn spec_block(h: Hue, w: u32) -> Seq<char> {
    spec_block_painted(h, spec_spaces(2 * w + 1))
}

/// The first swatch row: red, green, blue, yellow.
pub open spec fn spec_color_row_a(w: u32) -> Seq<char> {
    spec_block(Hue::Red, w) + spec_block(Hue::Green, w) + spec_block(Hue::Blue, w) + spec_block(
        Hue::Yellow,
        w,
    ) + ("\n")@
}

/// The second swatch row: black, white, magenta, cyan.
pub open spec fn spec_color_row_b(w: u32) -> Seq<char> {
    spec_block(Hue::Black, w) + spec_block(Hue::White, w) + spec_block(Hue::Purple, w)
        + spec_block(Hue::Cyan, w) + ("\n")@
}

/// `row` repeated `n` times.
pub open spec fn spec_repeated(row: Seq<char>, n: int) -> Seq<char>
    decreases n,
{
    if n <= 0 {
        Seq::<char>::empty()
    } else {
        row + spec_repeated(row, n - 1)
    }
}

proof fn lemma_repeated_snoc(row: Seq<char>, n: int)
    requires
        n >= 0,
    ensures
        spec_repeated(row, n + 1) == spec_repeated(row, n) + row,
    decreases n,
{
    if n == 0 {
        assert(spec_repeated(row, 1) =~= spec_repeated(row, 0) + row);
    } else {
        lemma_repeated_snoc(row, n - 1);
        assert(spec_repeated(row, n + 1) =~= spec_repeated(row, n) + row);
    }
}

proof fn lemma_repeated_len(row: Seq<char>, n: int)
    requires
        n >= 0,
    ensures
        spec_repeated(row, n).len() == n * row.len(),
    decreases n,
{
    if n == 0 {
    } else {
        lemma_repeated_len(row, n - 1);
        assert((n - 1) * row.len() + row.len() == n * row.len()) by (nonlinear_arith);
    }
}

/// Both swatch rows, each repeated `colors_height` times; nothing at all
/// when the section is off or the height is zero.
pub open spec fn spec_render_colors(c: Config) -> Option<Seq<char>> {
    if !c.show_colors || c.colors_height == 0 {
        None
    } else {
        Some(
            spec_repeated(spec_color_row_a(c.colors_width), c.colors_height as int)
                + spec_repeated(spec_color_row_b(c.colors_width), c.colors_height as int),
        )
    }
}

pub fn render_colors(c: &Config) -> (r: Option<String>)
    ensures
        opt_view(r) == spec_render_colors(*c),
{
    if !c.show_colors {
        return None;
    }
    if c.colors_height == 0 {
        return None;
    }
    let width: u64 = 2 * (c.colors_width as u64) + 1;
    let blanks = spaces(width);
    let mut row_a = paint_block(Hue::Red, blanks.as_str());
    let block_green = paint_block(Hue::Green, blanks.as_str());
    row_a.append(block_green.as_str());
    let block_blue = paint_block(Hue::Blue, blanks.as_str());
    row_a.append(block_blue.as_str());
    let block_yellow = paint_block(Hue::Yellow, blanks.as_str());
    row_a.append(block_yellow.as_str());
    row_a.append("\n");
    let mut row_b = paint_block(Hue::Black, blanks.as_str());
    let block_white = paint_block(Hue::White, blanks.as_str());
    row_b.append(block_white.as_str());
    let block_purple = paint_block(Hue::Purple, blanks.as_str());
    row_b.append(block_purple.as_str());
    let block_cyan = paint_block(Hue::Cyan, blanks.as_str());
    row_b.append(block_cyan.as_str());
    row_b.append("\n");
    proof {
        assert(row_a@ =~= spec_color_row_a(c.colors_width));
        assert(row_b@ =~= spec_color_row_b(c.colors_width));
    }
    let mut out = String::new();
    let h = c.colors_height;
    let mut i: u32 = 0;
    while i < h
        invariant
            i <= h,
            row_a@ == spec_color_row_a(c.colors_width),
            out@ == spec_repeated(row_a@, i as int),
        decreases h - i,
    {
        proof {
            lemma_repeated_snoc(row_a@, i as int);
        }
        out.append(row_a.as_str());
        i = i + 1;
    }
    let mut j: u32 = 0;
    while j < h
        invariant
            j <= h,
            row_a@ == spec_color_row_a(c.colors_width),
            row_b@ == spec_color_row_b(c.colors_width),
            out@ == spec_repeated(row_a@, h as int) + spec_repeated(row_b@, j as int),
        decreases h - j,
    {
        proof {
            lemma_repeated_snoc(row_b@, j as int);
            assert((spec_repeated(row_a@, h as int) + spec_repeated(row_b@, j as int)) + row_b@
                =~= spec_repeated(row_a@, h as int) + spec_repeated(row_b@, j as int + 1));
        }
        out.append(row_b.as_str());
        j = j + 1;
    }
    Some(out)
}

// ---------------------------------------------------------------------------
// The parse warning and the full report.
// ---------------------------------------------------------------------------

/// The two warning lines printed when a present, readable document had to
/// be rejected: the fixed fallback notice, then the parse error with the
/// caveat that its position information may be approximate.
pub open spec fn spec_parse_warning(e: ParseError) -> Seq<char> {
    spec_bold_painted(Hue::Red, ("Error in config, falling back to default config.")@) + ("\n")@
        + spec_bold_painted(Hue::Red, e.spec_message()) + (" ")@ + spec_bold_painted(
        Hue::Blue,
        ("(line, column may differ from actual)")@,
    ) + ("\n")@
}

pub fn render_parse_warning(e: &ParseError) -> (r: String)
    ensures
        r@ == spec_parse_warning(*e),
{
    let mut out = paint_bold(Hue::Red, "Error in config, falling back to default config.");
    out.append("\n");
    let msg = e.message();
    let painted_msg = paint_bold(Hue::Red, msg.as_str());
    out.append(painted_msg.as_str());
    out.append(" ");
    let caveat = paint_bold(Hue::Blue, "(line, column may differ from actual)");
    out.append(caveat.as_str());
    out.append("\n");
    proof {
        assert(out@ =~= spec_parse_warning(*e));
    }
    out
}

/// The whole report: every section in the fixed order, suppressed sections
/// contributing nothing.
pub open spec fn spec_report(c: Config, s: Snapshot, user: Seq<char>) -> Seq<char> {
    spec_opt_text(spec_render_header(c, s, user)) + spec_opt_text(spec_render_os(c, s))
        + spec_opt_text(spec_render_de(c, s)) + spec_opt_text(spec_render_uptime(c, s))
        + spec_opt_text(spec_render_kernel(c, s)) + spec_opt_text(spec_render_disks(c, s))
        + spec_opt_text(spec_render_cpu(c, s)) + spec_opt_text(spec_render_memory(c, s))
        + spec_opt_text(spec_render_swap(c, s)) + spec_opt_text(spec_render_temps(c, s))
        + spec_opt_text(spec_render_colors(c))
}

fn append_section(out: &mut String, sec: Option<String>)
    ensures
        final (out)@ == old(out)@ + spec_opt_text(opt_view(sec)),
{
    match sec {
        Some(t) => out.append(t.as_str()),
        None => {
            proof {
                assert(old(out)@ + Seq::<char>::empty() =~= old(out)@);
            }
        },
    }
}

/// Renders the full report from a resolved configuration, a snapshot and
/// the current user's name, in the fixed section order.
pub fn render_report(c: &Config, s: &Snapshot, user: &str) -> (r: String)
    requires
        s.wf(),
    ensures
        r@ == spec_report(*c, *s, user@),
{
    let mut out = String::new();
    append_section(&mut out, render_header(c, s, user));
    append_section(&mut out, render_os(c, s));
    append_section(&mut out, render_de(c, s));
    append_section(&mut out, render_uptime(c, s));
    append_section(&mut out, render_kernel(c, s));
    append_section(&mut out, render_disks(c, s));
    append_section(&mut out, render_cpu(c, s));
    append_section(&mut out, render_memory(c, s));
    append_section(&mut out, render_swap(c, s));
    append_section(&mut out, render_temps(c, s));
    append_section(&mut out, render_colors(c));
    proof {
        assert(out@ =~= spec_report(*c, *s, user@));
    }
    out
}

// ---------------------------------------------------------------------------
// Laws of rendering.
// ---------------------------------------------------------------------------

/// Core-count gating: with `show_cores` off, the CPU section never carries
/// a parenthetical core count — it depends on the brand string alone,
/// whatever core count the snapshot holds.
pub proof fn lemma_core_count_gating(c: Config, s1: Snapshot, s2: Snapshot)
    requires
        !c.show_cores,
        s1.cpu_brand@ == s2.cpu_brand@,
    ensures
        spec_render_cpu(c, s1) == spec_render_cpu(c, s2),
{
}

/// Absence suppression: a snapshot with no disks yields no disk section at
/// all — zero lines and no placeholder text — even with `show_disks` on.
pub proof fn lemma_absence_suppression(c: Config, s: Snapshot)
    requires
        s.disks@.len() == 0,
    ensures
        spec_render_disks(c, s) is None,
{
}

/// Color swatch geometry: the swatch is the first row repeated
/// `colors_height` times followed by the second row repeated as many times;
/// each row is exactly four blocks and a newline; each block paints exactly
/// `2*colors_width + 1` blank columns inside a fixed 12-character frame of
/// styling codes.
pub proof fn lemma_color_swatch_geometry(c: Config)
    requires
        c.show_colors,
        c.colors_height > 0,
    ensures
        spec_render_colors(c) == Some(
            spec_repeated(spec_color_row_a(c.colors_width), c.colors_height as int)
                + spec_repeated(spec_color_row_b(c.colors_width), c.colors_height as int),
        ),
        spec_repeated(spec_color_row_a(c.colors_width), c.colors_height as int).len()
            == c.colors_height * spec_color_row_a(c.colors_width).len(),
        spec_repeated(spec_color_row_b(c.colors_width), c.colors_height as int).len()
            == c.colors_height * spec_color_row_b(c.colors_width).len(),
        spec_color_row_a(c.colors_width).len() == 4 * (12 + (2 * c.colors_width + 1)) + 1,
        spec_color_row_b(c.colors_width).len() == 4 * (12 + (2 * c.colors_width + 1)) + 1,
        forall|h: Hue|
            (#[trigger] spec_block(h, c.colors_width)).len() == 12 + (2 * c.colors_width + 1),
{
    lemma_repeated_len(spec_color_row_a(c.colors_width), c.colors_height as int);
    lemma_repeated_len(spec_color_row_b(c.colors_width), c.colors_height as int);
    assert forall|h: Hue|
        (#[trigger] spec_block(h, c.colors_width)).len() == 12 + (2 * c.colors_width + 1) by {
        assert(spec_spaces(2 * c.colors_width + 1).len() == 2 * c.colors_width + 1);
    }
    reveal_strlit("\n");
}

} // verus!
