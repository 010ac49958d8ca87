//! Resolution of the configuration document.
//!
//! The document is a flat sequence of `key = value` lines: booleans for the
//! section toggles, non-negative integers for the swatch layout, and quoted
//! unit names for the uptime and memory units. Every field is mandatory and
//! may appear once: a document missing a field, repeating one, or giving a
//! value of the wrong shape is rejected as a whole and never merged with
//! defaults. `resolve` turns a file-lookup outcome into a usable `Config`,
//! falling back to the compiled-in default on any failure.

use vstd::prelude::*;
use vstd::string::StringExecFns;
use vstd::string::StringSliceAdditionalSpecFns;
use crate::conf::{Config, MemType, Time, spec_default_config};
use crate::numfmt::{dec_string, spec_dec_digits};

verus! {

/// One of the sixteen required fields of the configuration schema.
#[derive(Clone, Copy, PartialEq, Eq, Structural, Debug)]
pub enum ConfigKey {
    ShowOs,
    ShowHostname,
    ShowUptime,
    ShowKernelVersion,
    ShowMemory,
    ShowSwap,
    ShowDe,
    ShowColors,
    ShowCpu,
    ShowCores,
    ShowDisks,
    ShowTemperature,
    ColorsHeight,
    ColorsWidth,
    UptimeType,
    MemoryType,
}

/// Why a present, readable document was rejected.
#[derive(Clone, Copy, PartialEq, Eq, Structural, Debug)]
pub enum ParseError {
    /// A line is not blank, not a comment, and not a well-formed
    /// `key = value` binding.
    Syntax { line: u64 },
    /// A known key was bound to a value of the wrong shape, an integer out
    /// of range, or an unknown unit name.
    WrongType { key: ConfigKey, line: u64 },
    /// A known key was bound twice.
    DuplicateKey { key: ConfigKey, line: u64 },
    /// A required field never appeared.
    MissingField { key: ConfigKey },
}

impl ConfigKey {
    /// The field's name as it appears in the document.
    pub open spec fn spec_name(self) -> Seq<char> {
        match self {
            ConfigKey::ShowOs => ("show_os")@,
            ConfigKey::ShowHostname => ("show_hostname")@,
            ConfigKey::ShowUptime => ("show_uptime")@,
            ConfigKey::ShowKernelVersion => ("show_kernel_version")@,
            ConfigKey::ShowMemory => ("show_memory")@,
            ConfigKey::ShowSwap => ("show_swap")@,
            ConfigKey::ShowDe => ("show_de")@,
            ConfigKey::ShowColors => ("show_colors")@,
            ConfigKey::ShowCpu => ("show_cpu")@,
            ConfigKey::ShowCores => ("show_cores")@,
            ConfigKey::ShowDisks => ("show_disks")@,
            ConfigKey::ShowTemperature => ("show_temperature")@,
            ConfigKey::ColorsHeight => ("colors_height")@,
            ConfigKey::ColorsWidth => ("colors_width")@,
            ConfigKey::UptimeType => ("uptime_type")@,
            ConfigKey::MemoryType => ("memory_type")@,
        }
    }

    /// The field's name as it appears in the document.
    pub fn name(self) -> (r: &'static str)
        ensures
            r@ == self.spec_name(),
    {
        match self {
            ConfigKey::ShowOs => "show_os",
            ConfigKey::ShowHostname => "show_hostname",
            ConfigKey::ShowUptime => "show_uptime",
            ConfigKey::ShowKernelVersion => "show_kernel_version",
            ConfigKey::ShowMemory => "show_memory",
            ConfigKey::ShowSwap => "show_swap",
            ConfigKey::ShowDe => "show_de",
            ConfigKey::ShowColors => "show_colors",
            ConfigKey::ShowCpu => "show_cpu",
            ConfigKey::ShowCores => "show_cores",
            ConfigKey::ShowDisks => "show_disks",
            ConfigKey::ShowTemperature => "show_temperature",
            ConfigKey::ColorsHeight => "colors_height",
            ConfigKey::ColorsWidth => "colors_width",
            ConfigKey::UptimeType => "uptime_type",
            ConfigKey::MemoryType => "memory_type",
        }
    }
}

impl ParseError {
    /// The human-readable description of the error.
    pub open spec fn spec_message(self) -> Seq<char> {
        match self {
            ParseError::Syntax { line } => ("syntax error at line ")@ + spec_dec_digits(
                line as int,
            ),
            ParseError::WrongType { key, line } => ("wrong type for `")@ + key.spec_name() + (
            "` at line ")@ + spec_dec_digits(line as int),
            ParseError::DuplicateKey { key, line } => ("duplicate key `")@ + key.spec_name() + (
            "` at line ")@ + spec_dec_digits(line as int),
            ParseError::MissingField { key } => ("missing field `")@ + key.spec_name() + ("`")@,
        }
    }

    /// The human-readable description of the error.
    pub fn message(&self) -> (r: String)
        ensures
            r@ == self.spec_message(),
    {
        match self {
            ParseError::Syntax { line } => {
                let mut s = String::from_str("syntax error at line ");
                s.append(dec_string(*line as u128).as_str());
                s
            },
            ParseError::WrongType { key, line } => {
                let mut s = String::from_str("wrong type for `");
                s.append(key.name());
                s.append("` at line ");
                s.append(dec_string(*line as u128).as_str());
                s
            },
            ParseError::DuplicateKey { key, line } => {
                let mut s = String::from_str("duplicate key `");
                s.append(key.name());
                s.append("` at line ");
                s.append(dec_string(*line as u128).as_str());
                s
            },
            ParseError::MissingField { key } => {
                let mut s = String::from_str("missing field `");
                s.append(key.name());
                s.append("`");
                s
            },
        }
    }
}

/// Which required fields a prefix of the document has bound so far.
#[derive(Clone, Copy, PartialEq, Eq, Structural, Debug)]
pub struct FieldsSeen {
    pub show_os: bool,
    pub show_hostname: bool,
    pub show_uptime: bool,
    pub show_kernel_version: bool,
    pub show_memory: bool,
    pub show_swap: bool,
    pub show_de: bool,
    pub show_colors: bool,
    pub show_cpu: bool,
    pub show_cores: bool,
    pub show_disks: bool,
    pub show_temperature: bool,
    pub colors_height: bool,
    pub colors_width: bool,
    pub uptime_type: bool,
    pub memory_type: bool,
}

/// The state before any line has been read: no field bound yet.
pub open spec fn spec_no_fields_seen() -> FieldsSeen {
    FieldsSeen {
        show_os: false,
        show_hostname: false,
        show_uptime: false,
        show_kernel_version: false,
        show_memory: false,
        show_swap: false,
        show_de: false,
        show_colors: false,
        show_cpu: false,
        show_cores: false,
        show_disks: false,
        show_temperature: false,
        colors_height: false,
        colors_width: false,
        uptime_type: false,
        memory_type: false,
    }
}

impl FieldsSeen {
    /// Every required field has been bound.
    pub open spec fn all_seen(self) -> bool {
        self.show_os && self.show_hostname && self.show_uptime && self.show_kernel_version
            && self.show_memory && self.show_swap && self.show_de && self.show_colors
            && self.show_cpu && self.show_cores && self.show_disks && self.show_temperature
            && self.colors_height && self.colors_width && self.uptime_type && self.memory_type
    }

    pub open spec fn spec_get(self, k: ConfigKey) -> bool {
        match k {
            ConfigKey::ShowOs => self.show_os,
            ConfigKey::ShowHostname => self.show_hostname,
            ConfigKey::ShowUptime => self.show_uptime,
            ConfigKey::ShowKernelVersion => self.show_kernel_version,
            ConfigKey::ShowMemory => self.show_memory,
            ConfigKey::ShowSwap => self.show_swap,
            ConfigKey::ShowDe => self.show_de,
            ConfigKey::ShowColors => self.show_colors,
            ConfigKey::ShowCpu => self.show_cpu,
            ConfigKey::ShowCores => self.show_cores,
            ConfigKey::ShowDisks => self.show_disks,
            ConfigKey::ShowTemperature => self.show_temperature,
            ConfigKey::ColorsHeight => self.colors_height,
            ConfigKey::ColorsWidth => self.colors_width,
            ConfigKey::UptimeType => self.uptime_type,
            ConfigKey::MemoryType => self.memory_type,
        }
    }

    pub open spec fn spec_set(self, k: ConfigKey) -> FieldsSeen {
        match k {
            ConfigKey::ShowOs => FieldsSeen { show_os: true, ..self },
            ConfigKey::ShowHostname => FieldsSeen { show_hostname: true, ..self },
            ConfigKey::ShowUptime => FieldsSeen { show_uptime: true, ..self },
            ConfigKey::ShowKernelVersion => FieldsSeen { show_kernel_version: true, ..self },
            ConfigKey::ShowMemory => FieldsSeen { show_memory: true, ..self },
            ConfigKey::ShowSwap => FieldsSeen { show_swap: true, ..self },
            ConfigKey::ShowDe => FieldsSeen { show_de: true, ..self },
            ConfigKey::ShowColors => FieldsSeen { show_colors: true, ..self },
            ConfigKey::ShowCpu => FieldsSeen { show_cpu: true, ..self },
            ConfigKey::ShowCores => FieldsSeen { show_cores: true, ..self },
            ConfigKey::ShowDisks => FieldsSeen { show_disks: true, ..self },
            ConfigKey::ShowTemperature => FieldsSeen { show_temperature: true, ..self },
            ConfigKey::ColorsHeight => FieldsSeen { colors_height: true, ..self },
            ConfigKey::ColorsWidth => FieldsSeen { colors_width: true, ..self },
            ConfigKey::UptimeType => FieldsSeen { uptime_type: true, ..self },
            ConfigKey::MemoryType => FieldsSeen { memory_type: true, ..self },
        }
    }

    /// The first field, in schema order, that is still missing.
    pub open spec fn spec_first_missing(self) -> ConfigKey {
        if !self.show_os {
            ConfigKey::ShowOs
        } else if !self.show_hostname {
            ConfigKey::ShowHostname
        } else if !self.show_uptime {
            ConfigKey::ShowUptime
        } else if !self.show_kernel_version {
            ConfigKey::ShowKernelVersion
        } else if !self.show_memory {
            ConfigKey::ShowMemory
        } else if !self.show_swap {
            ConfigKey::ShowSwap
        } else if !self.show_de {
            ConfigKey::ShowDe
        } else if !self.show_colors {
            ConfigKey::ShowColors
        } else if !self.show_cpu {
            ConfigKey::ShowCpu
        } else if !self.show_cores {
            ConfigKey::ShowCores
        } else if !self.show_disks {
            ConfigKey::ShowDisks
        } else if !self.show_temperature {
            ConfigKey::ShowTemperature
        } else if !self.colors_height {
            ConfigKey::ColorsHeight
        } else if !self.colors_width {
            ConfigKey::ColorsWidth
        } else if !self.uptime_type {
            ConfigKey::UptimeType
        } else {
            ConfigKey::MemoryType
        }
    }

    fn none_seen() -> (r: FieldsSeen)
        ensures
            r == spec_no_fields_seen(),
    {
        FieldsSeen {
            show_os: false,
            show_hostname: false,
            show_uptime: false,
            show_kernel_version: false,
            show_memory: false,
            show_swap: false,
            show_de: false,
            show_colors: false,
            show_cpu: false,
            show_cores: false,
            show_disks: false,
            show_temperature: false,
            colors_height: false,
            colors_width: false,
            uptime_type: false,
            memory_type: false,
        }
    }

    fn get(self, k: ConfigKey) -> (r: bool)
        ensures
            r == self.spec_get(k),
    {
        match k {
            ConfigKey::ShowOs => self.show_os,
            ConfigKey::ShowHostname => self.show_hostname,
            ConfigKey::ShowUptime => self.show_uptime,
            ConfigKey::ShowKernelVersion => self.show_kernel_version,
            ConfigKey::ShowMemory => self.show_memory,
            ConfigKey::ShowSwap => self.show_swap,
            ConfigKey::ShowDe => self.show_de,
            ConfigKey::ShowColors => self.show_colors,
            ConfigKey::ShowCpu => self.show_cpu,
            ConfigKey::ShowCores => self.show_cores,
            ConfigKey::ShowDisks => self.show_disks,
            ConfigKey::ShowTemperature => self.show_temperature,
            ConfigKey::ColorsHeight => self.colors_height,
            ConfigKey::ColorsWidth => self.colors_width,
            ConfigKey::UptimeType => self.uptime_type,
            ConfigKey::MemoryType => self.memory_type,
        }
    }

    fn set(self, k: ConfigKey) -> (r: FieldsSeen)
        ensures
            r == self.spec_set(k),
    {
        match k {
            ConfigKey::ShowOs => FieldsSeen { show_os: true, ..self },
            ConfigKey::ShowHostname => FieldsSeen { show_hostname: true, ..self },
            ConfigKey::ShowUptime => FieldsSeen { show_uptime: true, ..self },
            ConfigKey::ShowKernelVersion => FieldsSeen { show_kernel_version: true, ..self },
            ConfigKey::ShowMemory => FieldsSeen { show_memory: true, ..self },
            ConfigKey::ShowSwap => FieldsSeen { show_swap: true, ..self },
            ConfigKey::ShowDe => FieldsSeen { show_de: true, ..self },
            ConfigKey::ShowColors => FieldsSeen { show_colors: true, ..self },
            ConfigKey::ShowCpu => FieldsSeen { show_cpu: true, ..self },
            ConfigKey::ShowCores => FieldsSeen { show_cores: true, ..self },
            ConfigKey::ShowDisks => FieldsSeen { show_disks: true, ..self },
            ConfigKey::ShowTemperature => FieldsSeen { show_temperature: true, ..self },
            ConfigKey::ColorsHeight => FieldsSeen { colors_height: true, ..self },
            ConfigKey::ColorsWidth => FieldsSeen { colors_width: true, ..self },
            ConfigKey::UptimeType => FieldsSeen { uptime_type: true, ..self },
            ConfigKey::MemoryType => FieldsSeen { memory_type: true, ..self },
        }
    }

    fn first_missing(self) -> (r: ConfigKey)
        ensures
            r == self.spec_first_missing(),
    {
        if !self.show_os {
            ConfigKey::ShowOs
        } else if !self.show_hostname {
            ConfigKey::ShowHostname
        } else if !self.show_uptime {
            ConfigKey::ShowUptime
        } else if !self.show_kernel_version {
            ConfigKey::ShowKernelVersion
        } else if !self.show_memory {
            ConfigKey::ShowMemory
        } else if !self.show_swap {
            ConfigKey::ShowSwap
        } else if !self.show_de {
            ConfigKey::ShowDe
        } else if !self.show_colors {
            ConfigKey::ShowColors
        } else if !self.show_cpu {
            ConfigKey::ShowCpu
        } else if !self.show_cores {
            ConfigKey::ShowCores
        } else if !self.show_disks {
            ConfigKey::ShowDisks
        } else if !self.show_temperature {
            ConfigKey::ShowTemperature
        } else if !self.colors_height {
            ConfigKey::ColorsHeight
        } else if !self.colors_width {
            ConfigKey::ColorsWidth
        } else if !self.uptime_type {
            ConfigKey::UptimeType
        } else {
            ConfigKey::MemoryType
        }
    }
}

// ---------------------------------------------------------------------------
// Lexical helpers over byte sequences.
// ---------------------------------------------------------------------------

/// Space, tab or carriage return.
pub open spec fn spec_is_ws(b: u8) -> bool {
    b == 32 || b == 9 || b == 13
}

/// An ASCII decimal digit.
pub open spec fn spec_is_digit(b: u8) -> bool {
    48 <= b && b <= 57
}

/// `s` with leading whitespace removed.
pub open spec fn spec_trim_front(s: Seq<u8>) -> Seq<u8>
    decreases s.len(),
{
    if s.len() > 0 && spec_is_ws(s[0]) {
        spec_trim_front(s.drop_first())
    } else {
        s
    }
}

/// `s` with trailing whitespace removed.
pub open spec fn spec_trim_back(s: Seq<u8>) -> Seq<u8>
    decreases s.len(),
{
    if s.len() > 0 && spec_is_ws(s[s.len() - 1]) {
        spec_trim_back(s.drop_last())
    } else {
        s
    }
}

/// `s` with whitespace removed at both ends.
pub open spec fn spec_trimmed(s: Seq<u8>) -> Seq<u8> {
    spec_trim_back(spec_trim_front(s))
}

/// The distance from the start of `s` to the first occurrence of `stop`,
/// or the length of `s` if it never occurs.
pub open spec fn spec_scan_len(s: Seq<u8>, stop: u8) -> nat
    decreases s.len(),
{
    if s.len() == 0 {
        0
    } else if s[0] == stop {
        0
    } else {
        1 + spec_scan_len(s.drop_first(), stop)
    }
}

proof fn lemma_scan_len_bound(s: Seq<u8>, stop: u8)
    ensures
        spec_scan_len(s, stop) <= s.len(),
    decreases s.len(),
{
    if s.len() > 0 && s[0] != stop {
        lemma_scan_len_bound(s.drop_first(), stop);
    }
}

proof fn lemma_scan_len_at(s: Seq<u8>, stop: u8, m: int)
    requires
        0 <= m <= s.len(),
        forall|k: int| 0 <= k < m ==> s[k] != stop,
        m == s.len() || s[m] == stop,
    ensures
        spec_scan_len(s, stop) == m,
    decreases m,
{
    if m == 0 {
    } else {
        assert(s[0] != stop);
        assert forall|k: int| 0 <= k < m - 1 implies s.drop_first()[k] != stop by {
            assert(s.drop_first()[k] == s[k + 1]);
        }
        lemma_scan_len_at(s.drop_first(), stop, m - 1);
    }
}

fn is_ws(b: u8) -> (r: bool)
    ensures
        r == spec_is_ws(b),
{
    b == 32 || b == 9 || b == 13
}

/// The byte range of `v` that remains after trimming whitespace.
fn trim_slice<'a>(v: &'a [u8]) -> (r: &'a [u8])
    ensures
        r@ == spec_trimmed(v@),
{
    proof {
        assert(v@.skip(0) =~= v@);
    }
    let mut lo: usize = 0;
    while lo < v.len() && is_ws(v[lo])
        invariant
            lo <= v@.len(),
            spec_trim_front(v@) == spec_trim_front(v@.skip(lo as int)),
        decreases v@.len() - lo,
    {
        proof {
            assert(v@.skip(lo as int).drop_first() =~= v@.skip(lo as int + 1));
        }
        lo = lo + 1;
    }
    proof {
        assert(spec_trim_front(v@) == v@.skip(lo as int));
        assert(v@.skip(lo as int) =~= v@.subrange(lo as int, v@.len() as int));
    }
    let mut hi: usize = v.len();
    while hi > lo && is_ws(v[hi - 1])
        invariant
            lo <= hi <= v@.len(),
            spec_trim_front(v@) == v@.skip(lo as int),
            spec_trim_back(v@.skip(lo as int)) == spec_trim_back(
                v@.subrange(lo as int, hi as int),
            ),
        decreases hi,
    {
        proof {
            assert(v@.subrange(lo as int, hi as int).drop_last() =~= v@.subrange(
                lo as int,
                hi as int - 1,
            ));
        }
        hi = hi - 1;
    }
    proof {
        assert(spec_trim_back(v@.subrange(lo as int, hi as int)) == v@.subrange(
            lo as int,
            hi as int,
        ));
    }
    &v[lo..hi]
}

/// The position of the first `stop` byte at or after `from`, or the length
/// of `v` if there is none.
fn scan_for(v: &[u8], from: usize, stop: u8) -> (j: usize)
    requires
        from <= v@.len(),
    ensures
        from <= j <= v@.len(),
        j - from == spec_scan_len(v@.skip(from as int), stop),
{
    let mut j = from;
    while j < v.len() && v[j] != stop
        invariant
            from <= j <= v@.len(),
            forall|k: int| from <= k < j ==> v@[k] != stop,
        decreases v@.len() - j,
    {
        j = j + 1;
    }
    proof {
        let s = v@.skip(from as int);
        assert forall|k: int| 0 <= k < j - from implies s[k] != stop by {
            assert(s[k] == v@[k + from]);
        }
        lemma_scan_len_at(s, stop, j - from);
    }
    j
}

/// Byte-for-byte equality of two slices.
fn bytes_eq(a: &[u8], b: &[u8]) -> (r: bool)
    ensures
        r == (a@ == b@),
{
    if a.len() != b.len() {
        return false;
    }
    let mut i: usize = 0;
    while i < a.len()
        invariant
            i <= a@.len(),
            a@.len() == b@.len(),
            forall|k: int| 0 <= k < i ==> a@[k] == b@[k],
        decreases a@.len() - i,
    {
        if a[i] != b[i] {
            return false;
        }
        i = i + 1;
    }
    proof {
        assert(a@ =~= b@);
    }
    true
}

// ---------------------------------------------------------------------------
// Values.
// ---------------------------------------------------------------------------

/// The mathematical shape of a value: a boolean literal, an unbounded
/// non-negative integer, or the body of a quoted string.
pub enum SpecVal {
    VBool(bool),
    VInt(int),
    VStr(Seq<u8>),
}

/// The numeric value of a run of decimal digits.
pub open spec fn spec_digits_val(s: Seq<u8>) -> int
    decreases s.len(),
{
    if s.len() == 0 {
        0
    } else {
        spec_digits_val(s.drop_last()) * 10 + (s.last() - 48)
    }
}

pub open spec fn spec_all_digits(s: Seq<u8>) -> bool {
    forall|k: int| 0 <= k < s.len() ==> spec_is_digit(s[k])
}

/// The bytes strictly between the quotes contain no quote and no backslash.
pub open spec fn spec_plain_string_body(s: Seq<u8>) -> bool {
    forall|k: int| 1 <= k < s.len() - 1 ==> s[k] != 34 && s[k] != 92
}

/// The shape of a trimmed value: `true` or `false`, a run of digits, or a
/// plain double-quoted string. Anything else is a syntax error.
pub open spec fn spec_classify(v: Seq<u8>) -> Option<SpecVal> {
    if v == "true".spec_bytes() {
        Some(SpecVal::VBool(true))
    } else if v == "false".spec_bytes() {
        Some(SpecVal::VBool(false))
    } else if v.len() > 0 && spec_all_digits(v) {
        Some(SpecVal::VInt(spec_digits_val(v)))
    } else if v.len() >= 2 && v[0] == 34 && v[v.len() - 1] == 34 && spec_plain_string_body(v) {
        Some(SpecVal::VStr(v.subrange(1, v.len() - 1)))
    } else {
        None
    }
}

proof fn lemma_digits_val_nonneg(s: Seq<u8>)
    requires
        spec_all_digits(s),
    ensures
        spec_digits_val(s) >= 0,
    decreases s.len(),
{
    if s.len() > 0 {
        assert forall|k: int| 0 <= k < s.drop_last().len() implies spec_is_digit(
            s.drop_last()[k],
        ) by {
            assert(s.drop_last()[k] == s[k]);
        }
        lemma_digits_val_nonneg(s.drop_last());
        assert(spec_is_digit(s[s.len() - 1]));
    }
}

fn all_digits(v: &[u8]) -> (r: bool)
    ensures
        r == spec_all_digits(v@),
{
    let mut i: usize = 0;
    while i < v.len()
        invariant
            i <= v@.len(),
            forall|k: int| 0 <= k < i ==> spec_is_digit(v@[k]),
        decreases v@.len() - i,
    {
        let b = v[i];
        if b < 48 || b > 57 {
            proof {
                assert(!spec_is_digit(v@[i as int]));
            }
            return false;
        }
        i = i + 1;
    }
    true
}

fn plain_string_body(v: &[u8]) -> (r: bool)
    requires
        v@.len() >= 2,
    ensures
        r == spec_plain_string_body(v@),
{
    let mut i: usize = 1;
    while i < v.len() - 1
        invariant
            1 <= i <= v@.len(),
            v@.len() >= 2,
            forall|k: int| 1 <= k < i ==> v@[k] != 34 && v@[k] != 92,
        decreases v@.len() - i,
    {
        let b = v[i];
        if b == 34 || b == 92 {
            return false;
        }
        i = i + 1;
    }
    true
}

/// The numeric value of a digit run, if it fits the layout fields' range.
fn digits_to_u32(v: &[u8]) -> (r: Option<u32>)
    requires
        spec_all_digits(v@),
    ensures
        match r {
            Some(n) => n as int == spec_digits_val(v@) && spec_digits_val(v@) <= u32::MAX,
            None => spec_digits_val(v@) > u32::MAX,
        },
{
    let mut acc: u64 = 0;
    let mut i: usize = 0;
    while i < v.len()
        invariant
            i <= v@.len(),
            spec_all_digits(v@),
            acc <= 42949672959,
            spec_digits_val(v@.take(i as int)) <= u32::MAX ==> acc as int == spec_digits_val(
                v@.take(i as int),
            ),
            spec_digits_val(v@.take(i as int)) > u32::MAX ==> acc > u32::MAX,
        decreases v@.len() - i,
    {
        let d = v[i];
        proof {
            assert(spec_is_digit(v@[i as int]));
            assert(v@.take(i as int + 1).drop_last() =~= v@.take(i as int));
            assert(v@.take(i as int + 1).last() == v@[i as int]);
            assert forall|k: int| 0 <= k < v@.take(i as int).len() implies spec_is_digit(
                v@.take(i as int)[k],
            ) by {
                assert(v@.take(i as int)[k] == v@[k]);
            }
            lemma_digits_val_nonneg(v@.take(i as int));
        }
        if acc <= 0xffff_ffff {
            acc = acc * 10 + ((d - 48) as u64);
        }
        i = i + 1;
    }
    proof {
        assert(v@.take(v@.len() as int) =~= v@);
    }
    if acc <= 0xffff_ffff {
        Some(acc as u32)
    } else {
        None
    }
}

/// The shape of a value as the executable parser sees it; an integer above
/// the layout fields' range is kept abstract, since every key rejects it.
enum RawVal<'a> {
    RBool(bool),
    RInt(u32),
    RBigInt,
    RStr(&'a [u8]),
    RBad,
}

fn classify<'a>(v: &'a [u8]) -> (r: RawVal<'a>)
    ensures
        match r {
            RawVal::RBool(b) => spec_classify(v@) == Some(SpecVal::VBool(b)),
            RawVal::RInt(n) => spec_classify(v@) == Some(SpecVal::VInt(n as int)),
            RawVal::RBigInt => spec_classify(v@) matches Some(SpecVal::VInt(m)) && m > u32::MAX,
            RawVal::RStr(w) => spec_classify(v@) == Some(SpecVal::VStr(w@)),
            RawVal::RBad => spec_classify(v@) is None,
        },
{
    if bytes_eq(v, "true".as_bytes()) {
        RawVal::RBool(true)
    } else if bytes_eq(v, "false".as_bytes()) {
        RawVal::RBool(false)
    } else if v.len() > 0 && all_digits(v) {
        match digits_to_u32(v) {
            Some(n) => RawVal::RInt(n),
            None => RawVal::RBigInt,
        }
    } else if v.len() >= 2 && v[0] == 34 && v[v.len() - 1] == 34 && plain_string_body(v) {
        RawVal::RStr(&v[1..v.len() - 1])
    } else {
        RawVal::RBad
    }
}

// ---------------------------------------------------------------------------
// Keys and updates.
// ---------------------------------------------------------------------------

/// The key a trimmed identifier denotes, if any; unknown keys are ignored.
pub open spec fn spec_key_of(k: Seq<u8>) -> Option<ConfigKey> {
    if k == "show_os".spec_bytes() {
        Some(ConfigKey::ShowOs)
    } else if k == "show_hostname".spec_bytes() {
        Some(ConfigKey::ShowHostname)
    } else if k == "show_uptime".spec_bytes() {
        Some(ConfigKey::ShowUptime)
    } else if k == "show_kernel_version".spec_bytes() {
        Some(ConfigKey::ShowKernelVersion)
    } else if k == "show_memory".spec_bytes() {
        Some(ConfigKey::ShowMemory)
    } else if k == "show_swap".spec_bytes() {
        Some(ConfigKey::ShowSwap)
    } else if k == "show_de".spec_bytes() {
        Some(ConfigKey::ShowDe)
    } else if k == "show_colors".spec_bytes() {
        Some(ConfigKey::ShowColors)
    } else if k == "show_cpu".spec_bytes() {
        Some(ConfigKey::ShowCpu)
    } else if k == "show_cores".spec_bytes() {
        Some(ConfigKey::ShowCores)
    } else if k == "show_disks".spec_bytes() {
        Some(ConfigKey::ShowDisks)
    } else if k == "show_temperature".spec_bytes() {
        Some(ConfigKey::ShowTemperature)
    } else if k == "colors_height".spec_bytes() {
        Some(ConfigKey::ColorsHeight)
    } else if k == "colors_width".spec_bytes() {
        Some(ConfigKey::ColorsWidth)
    } else if k == "uptime_type".spec_bytes() {
        Some(ConfigKey::UptimeType)
    } else if k == "memory_type".spec_bytes() {
        Some(ConfigKey::MemoryType)
    } else {
        None
    }
}

fn key_of(k: &[u8]) -> (r: Option<ConfigKey>)
    ensures
        r == spec_key_of(k@),
{
    if bytes_eq(k, "show_os".as_bytes()) {
        Some(ConfigKey::ShowOs)
    } else if bytes_eq(k, "show_hostname".as_bytes()) {
        Some(ConfigKey::ShowHostname)
    } else if bytes_eq(k, "show_uptime".as_bytes()) {
        Some(ConfigKey::ShowUptime)
    } else if bytes_eq(k, "show_kernel_version".as_bytes()) {
        Some(ConfigKey::ShowKernelVersion)
    } else if bytes_eq(k, "show_memory".as_bytes()) {
        Some(ConfigKey::ShowMemory)
    } else if bytes_eq(k, "show_swap".as_bytes()) {
        Some(ConfigKey::ShowSwap)
    } else if bytes_eq(k, "show_de".as_bytes()) {
        Some(ConfigKey::ShowDe)
    } else if bytes_eq(k, "show_colors".as_bytes()) {
        Some(ConfigKey::ShowColors)
    } else if bytes_eq(k, "show_cpu".as_bytes()) {
        Some(ConfigKey::ShowCpu)
    } else if bytes_eq(k, "show_cores".as_bytes()) {
        Some(ConfigKey::ShowCores)
    } else if bytes_eq(k, "show_disks".as_bytes()) {
        Some(ConfigKey::ShowDisks)
    } else if bytes_eq(k, "show_temperature".as_bytes()) {
        Some(ConfigKey::ShowTemperature)
    } else if bytes_eq(k, "colors_height".as_bytes()) {
        Some(ConfigKey::ColorsHeight)
    } else if bytes_eq(k, "colors_width".as_bytes()) {
        Some(ConfigKey::ColorsWidth)
    } else if bytes_eq(k, "uptime_type".as_bytes()) {
        Some(ConfigKey::UptimeType)
    } else if bytes_eq(k, "memory_type".as_bytes()) {
        Some(ConfigKey::MemoryType)
    } else {
        None
    }
}

/// The configuration that results from binding `k` to `v`, or `None` when
/// the value's shape does not fit the key.
pub open spec fn spec_apply(cfg: Config, k: ConfigKey, v: SpecVal) -> Option<Config> {
    match k {
        ConfigKey::ShowOs => match v {
            SpecVal::VBool(b) => Some(Config { show_os: b, ..cfg }),
            _ => None,
        },
        ConfigKey::ShowHostname => match v {
            SpecVal::VBool(b) => Some(Config { show_hostname: b, ..cfg }),
            _ => None,
        },
        ConfigKey::ShowUptime => match v {
            SpecVal::VBool(b) => Some(Config { show_uptime: b, ..cfg }),
            _ => None,
        },
        ConfigKey::ShowKernelVersion => match v {
            SpecVal::VBool(b) => Some(Config { show_kernel_version: b, ..cfg }),
            _ => None,
        },
        ConfigKey::ShowMemory => match v {
            SpecVal::VBool(b) => Some(Config { show_memory: b, ..cfg }),
            _ => None,
        },
        ConfigKey::ShowSwap => match v {
            SpecVal::VBool(b) => Some(Config { show_swap: b, ..cfg }),
            _ => None,
        },
        ConfigKey::ShowDe => match v {
            SpecVal::VBool(b) => Some(Config { show_de: b, ..cfg }),
            _ => None,
        },
        ConfigKey::ShowColors => match v {
            SpecVal::VBool(b) => Some(Config { show_colors: b, ..cfg }),
            _ => None,
        },
        ConfigKey::ShowCpu => match v {
            SpecVal::VBool(b) => Some(Config { show_cpu: b, ..cfg }),
            _ => None,
        },
        ConfigKey::ShowCores => match v {
            SpecVal::VBool(b) => Some(Config { show_cores: b, ..cfg }),
            _ => None,
        },
        ConfigKey::ShowDisks => match v {
            SpecVal::VBool(b) => Some(Config { show_disks: b, ..cfg }),
            _ => None,
        },
        ConfigKey::ShowTemperature => match v {
            SpecVal::VBool(b) => Some(Config { show_temperature: b, ..cfg }),
            _ => None,
        },
        ConfigKey::ColorsHeight => match v {
            SpecVal::VInt(n) => if 0 <= n <= u32::MAX {
                Some(Config { colors_height: n as u32, ..cfg })
            } else {
                None
            },
            _ => None,
        },
        ConfigKey::ColorsWidth => match v {
            SpecVal::VInt(n) => if 0 <= n <= u32::MAX {
                Some(Config { colors_width: n as u32, ..cfg })
            } else {
                None
            },
            _ => None,
        },
        ConfigKey::UptimeType => match v {
            SpecVal::VStr(s) => if s == "Second".spec_bytes() {
                Some(Config { uptime_type: Time::Second, ..cfg })
            } else if s == "Minute".spec_bytes() {
                Some(Config { uptime_type: Time::Minute, ..cfg })
            } else if s == "Hour".spec_bytes() {
                Some(Config { uptime_type: Time::Hour, ..cfg })
            } else {
                None
            },
            _ => None,
        },
        ConfigKey::MemoryType => match v {
            SpecVal::VStr(s) => if s == "KB".spec_bytes() {
                Some(Config { memory_type: MemType::KB, ..cfg })
            } else if s == "MB".spec_bytes() {
                Some(Config { memory_type: MemType::MB, ..cfg })
            } else if s == "GB".spec_bytes() {
                Some(Config { memory_type: MemType::GB, ..cfg })
            } else {
                None
            },
            _ => None,
        },
    }
}

#[verifier::rlimit(100)]
fn apply_raw(cfg: Config, k: ConfigKey, rv: &RawVal<'_>) -> (r: Option<Config>)
    ensures
        match *rv {
            RawVal::RBool(b) => r == spec_apply(cfg, k, SpecVal::VBool(b)),
            RawVal::RInt(n) => r == spec_apply(cfg, k, SpecVal::VInt(n as int)),
            RawVal::RBigInt => forall|m: int|
                m > u32::MAX ==> r == spec_apply(cfg, k, SpecVal::VInt(m)),
            RawVal::RStr(w) => r == spec_apply(cfg, k, SpecVal::VStr(w@)),
            RawVal::RBad => true,
        },
{
    match k {
        ConfigKey::ShowOs => match rv {
            RawVal::RBool(b) => Some(Config { show_os: *b, ..cfg }),
            _ => None,
        },
        ConfigKey::ShowHostname => match rv {
            RawVal::RBool(b) => Some(Config { show_hostname: *b, ..cfg }),
            _ => None,
        },
        ConfigKey::ShowUptime => match rv {
            RawVal::RBool(b) => Some(Config { show_uptime: *b, ..cfg }),
            _ => None,
        },
        ConfigKey::ShowKernelVersion => match rv {
            RawVal::RBool(b) => Some(Config { show_kernel_version: *b, ..cfg }),
            _ => None,
        },
        ConfigKey::ShowMemory => match rv {
            RawVal::RBool(b) => Some(Config { show_memory: *b, ..cfg }),
            _ => None,
        },
        ConfigKey::ShowSwap => match rv {
            RawVal::RBool(b) => Some(Config { show_swap: *b, ..cfg }),
            _ => None,
        },
        ConfigKey::ShowDe => match rv {
            RawVal::RBool(b) => Some(Config { show_de: *b, ..cfg }),
            _ => None,
        },
        ConfigKey::ShowColors => match rv {
            RawVal::RBool(b) => Some(Config { show_colors: *b, ..cfg }),
            _ => None,
        },
        ConfigKey::ShowCpu => match rv {
            RawVal::RBool(b) => Some(Config { show_cpu: *b, ..cfg }),
            _ => None,
        },
        ConfigKey::ShowCores => match rv {
            RawVal::RBool(b) => Some(Config { show_cores: *b, ..cfg }),
            _ => None,
        },
        ConfigKey::ShowDisks => match rv {
            RawVal::RBool(b) => Some(Config { show_disks: *b, ..cfg }),
            _ => None,
        },
        ConfigKey::ShowTemperature => match rv {
            RawVal::RBool(b) => Some(Config { show_temperature: *b, ..cfg }),
            _ => None,
        },
        ConfigKey::ColorsHeight => match rv {
            RawVal::RInt(n) => Some(Config { colors_height: *n, ..cfg }),
            _ => None,
        },
        ConfigKey::ColorsWidth => match rv {
            RawVal::RInt(n) => Some(Config { colors_width: *n, ..cfg }),
            _ => None,
        },
        ConfigKey::UptimeType => match rv {
            RawVal::RStr(w) => {
                if bytes_eq(w, "Second".as_bytes()) {
                    Some(Config { uptime_type: Time::Second, ..cfg })
                } else if bytes_eq(w, "Minute".as_bytes()) {
                    Some(Config { uptime_type: Time::Minute, ..cfg })
                } else if bytes_eq(w, "Hour".as_bytes()) {
                    Some(Config { uptime_type: Time::Hour, ..cfg })
                } else {
                    None
                }
            },
            _ => None,
        },
        ConfigKey::MemoryType => match rv {
            RawVal::RStr(w) => {
                if bytes_eq(w, "KB".as_bytes()) {
                    Some(Config { memory_type: MemType::KB, ..cfg })
                } else if bytes_eq(w, "MB".as_bytes()) {
                    Some(Config { memory_type: MemType::MB, ..cfg })
                } else if bytes_eq(w, "GB".as_bytes()) {
                    Some(Config { memory_type: MemType::GB, ..cfg })
                } else {
                    None
                }
            },
            _ => None,
        },
    }
}

// ---------------------------------------------------------------------------
// Lines and documents.
// ---------------------------------------------------------------------------

/// The effect of one line on the parse state. A blank line or a `#` comment
/// changes nothing; a `key = value` binding updates the configuration; any
/// other shape is an error.
pub open spec fn spec_parse_line(line: Seq<u8>, lineno: u64, cfg: Config, seen: FieldsSeen) -> Result<
    (Config, FieldsSeen),
    ParseError,
> {
    let t = spec_trimmed(line);
    if t.len() == 0 || t[0] == 35 {
        Ok((cfg, seen))
    } else {
        let e = spec_scan_len(t, 61) as int;
        if e == t.len() {
            Err(ParseError::Syntax { line: lineno })
        } else {
            let key = spec_trimmed(t.take(e));
            let val = spec_trimmed(t.skip(e + 1));
            if key.len() == 0 {
                Err(ParseError::Syntax { line: lineno })
            } else {
                match spec_classify(val) {
                    None => Err(ParseError::Syntax { line: lineno }),
                    Some(sv) => match spec_key_of(key) {
                        None => Ok((cfg, seen)),
                        Some(k) => if seen.spec_get(k) {
                            Err(ParseError::DuplicateKey { key: k, line: lineno })
                        } else {
                            match spec_apply(cfg, k, sv) {
                                None => Err(ParseError::WrongType { key: k, line: lineno }),
                                Some(c2) => Ok((c2, seen.spec_set(k))),
                            }
                        },
                    },
                }
            }
        }
    }
}

fn parse_line(line: &[u8], lineno: u64, cfg: Config, seen: FieldsSeen) -> (r: Result<
    (Config, FieldsSeen),
    ParseError,
>)
    ensures
        r == spec_parse_line(line@, lineno, cfg, seen),
{
    let t = trim_slice(line);
    if t.len() == 0 {
        return Ok((cfg, seen));
    }
    if t[0] == 35 {
        return Ok((cfg, seen));
    }
    let e = scan_for(t, 0, 61);
    proof {
        assert(t@.skip(0) =~= t@);
    }
    if e == t.len() {
        return Err(ParseError::Syntax { line: lineno });
    }
    let key = trim_slice(&t[0..e]);
    let val = trim_slice(&t[e + 1..t.len()]);
    proof {
        assert(t@.subrange(0, e as int) =~= t@.take(e as int));
        assert(t@.subrange(e as int + 1, t@.len() as int) =~= t@.skip(e as int + 1));
    }
    if key.len() == 0 {
        return Err(ParseError::Syntax { line: lineno });
    }
    let rv = classify(val);
    if let RawVal::RBad = rv {
        return Err(ParseError::Syntax { line: lineno });
    }
    match key_of(key) {
        None => Ok((cfg, seen)),
        Some(k) => {
            if seen.get(k) {
                Err(ParseError::DuplicateKey { key: k, line: lineno })
            } else {
                match apply_raw(cfg, k, &rv) {
                    None => Err(ParseError::WrongType { key: k, line: lineno }),
                    Some(c2) => Ok((c2, seen.set(k))),
                }
            }
        },
    }
}

/// The line counter, saturating rather than wrapping.
pub open spec fn spec_line_next(l: u64) -> u64 {
    if l < u64::MAX {
        (l + 1) as u64
    } else {
        l
    }
}

/// The verdict once the whole document has been read: a configuration if
/// every required field was bound, otherwise the first missing field.
pub open spec fn spec_finish(cfg: Config, seen: FieldsSeen) -> Result<Config, ParseError> {
    if seen.all_seen() {
        Ok(cfg)
    } else {
        Err(ParseError::MissingField { key: seen.spec_first_missing() })
    }
}

/// The parse of the remaining document `s`, given the state accumulated
/// from the lines already read.
pub open spec fn spec_parse_rest(s: Seq<u8>, cfg: Config, seen: FieldsSeen, lineno: u64) -> Result<
    Config,
    ParseError,
>
    decreases s.len(),
    via spec_parse_rest_decreases
{
    if s.len() == 0 {
        spec_finish(cfg, seen)
    } else {
        let n = spec_scan_len(s, 10) as int;
        match spec_parse_line(s.take(n), lineno, cfg, seen) {
            Err(e) => Err(e),
            Ok(p) => if n == s.len() {
                spec_finish(p.0, p.1)
            } else {
                spec_parse_rest(s.skip(n + 1), p.0, p.1, spec_line_next(lineno))
            },
        }
    }
}

#[via_fn]
proof fn spec_parse_rest_decreases(s: Seq<u8>, cfg: Config, seen: FieldsSeen, lineno: u64) {
    if s.len() > 0 {
        lemma_scan_len_bound(s, 10);
    }
}

/// The all-or-nothing parse of a whole document.
pub open spec fn spec_parse_config(s: Seq<u8>) -> Result<Config, ParseError> {
    spec_parse_rest(s, spec_default_config(), spec_no_fields_seen(), 1)
}

fn finish(cfg: Config, seen: FieldsSeen) -> (r: Result<Config, ParseError>)
    ensures
        r == spec_finish(cfg, seen),
{
    if seen.show_os && seen.show_hostname && seen.show_uptime && seen.show_kernel_version
        && seen.show_memory && seen.show_swap && seen.show_de && seen.show_colors && seen.show_cpu
        && seen.show_cores && seen.show_disks && seen.show_temperature && seen.colors_height
        && seen.colors_width && seen.uptime_type && seen.memory_type {
        Ok(cfg)
    } else {
        Err(ParseError::MissingField { key: seen.first_missing() })
    }
}

/// Parses a configuration document. Exactly the documents that bind every
/// required field once, with values of the right shape, are accepted;
/// nothing is taken from the defaults.
pub fn parse_config(s: &[u8]) -> (r: Result<Config, ParseError>)
    ensures
        r == spec_parse_config(s@),
{
    let mut cfg = Config::default();
    let mut seen = FieldsSeen::none_seen();
    let mut lineno: u64 = 1;
    let mut i: usize = 0;
    proof {
        assert(s@.skip(0) =~= s@);
    }
    loop
        invariant
            i <= s@.len(),
            spec_parse_config(s@) == spec_parse_rest(s@.skip(i as int), cfg, seen, lineno),
        decreases s@.len() - i,
    {
        if i >= s.len() {
            proof {
                assert(s@.skip(i as int) =~= Seq::<u8>::empty());
            }
            return finish(cfg, seen);
        }
        let j = scan_for(s, i, 10);
        let line = &s[i..j];
        proof {
            assert(s@.subrange(i as int, j as int) =~= s@.skip(i as int).take(j - i));
        }
        match parse_line(line, lineno, cfg, seen) {
            Err(e) => {
                return Err(e);
            },
            Ok(p) => {
                cfg = p.0;
                seen = p.1;
            },
        }
        if j == s.len() {
            return finish(cfg, seen);
        }
        proof {
            assert(s@.skip(i as int).skip(j - i + 1) =~= s@.skip(j as int + 1));
        }
        i = j + 1;
        lineno = if lineno < u64::MAX {
            lineno + 1
        } else {
            lineno
        };
    }
}

// ---------------------------------------------------------------------------
// Resolution with fallback.
// ---------------------------------------------------------------------------

/// The outcome of looking for the configuration file on disk.
#[derive(Clone, Debug, PartialEq)]
pub enum ConfigSource {
    /// No file exists at the expected path.
    Missing,
    /// A file exists but could not be opened or read as text.
    Unreadable,
    /// The file's contents.
    Contents(Vec<u8>),
}

/// A resolved configuration, together with the parse error to report to the
/// user when a present, readable document had to be rejected.
#[derive(Clone, Debug, PartialEq)]
pub struct Resolution {
    pub config: Config,
    pub warning: Option<ParseError>,
}

/// The three-tier fallback: an absent or unreadable file silently yields the
/// default configuration; a malformed document yields the default with a
/// warning; a valid document is taken as a whole.
pub open spec fn spec_resolve(src: ConfigSource) -> Resolution {
    match src {
        ConfigSource::Missing => Resolution { config: spec_default_config(), warning: None },
        ConfigSource::Unreadable => Resolution { config: spec_default_config(), warning: None },
        ConfigSource::Contents(v) => match spec_parse_config(v@) {
            Ok(c) => Resolution { config: c, warning: None },
            Err(e) => Resolution { config: spec_default_config(), warning: Some(e) },
        },
    }
}

/// Produces exactly one usable configuration, never failing: any problem
/// with the file falls back to the compiled-in default.
pub fn resolve(src: &ConfigSource) -> (r: Resolution)
    ensures
        r == spec_resolve(*src),
{
    match src {
        ConfigSource::Missing => Resolution { config: Config::default(), warning: None },
        ConfigSource::Unreadable => Resolution { config: Config::default(), warning: None },
        ConfigSource::Contents(v) => match parse_config(v.as_slice()) {
            Ok(c) => Resolution { config: c, warning: None },
            Err(e) => Resolution { config: Config::default(), warning: Some(e) },
        },
    }
}

// ---------------------------------------------------------------------------
// Laws of resolution.
// ---------------------------------------------------------------------------

/// Fallback completeness: whenever the configuration file is absent or
/// cannot be read, resolution yields exactly the compiled-in default
/// configuration, field for field, and no warning.
pub proof fn lemma_fallback_completeness(src: ConfigSource)
    requires
        src is Missing || src is Unreadable,
    ensures
        spec_resolve(src).config == spec_default_config(),
        spec_resolve(src).warning is None,
{
}

/// Partial-document rejection: any document the parser rejects — in
/// particular one that binds only a subset of the required fields — is
/// treated exactly like a malformed one: the default configuration is
/// returned whole and the parse error is reported, never a field-by-field
/// merge.
pub proof fn lemma_partial_document_rejected(v: Vec<u8>, e: ParseError)
    requires
        spec_parse_config(v@) == Err::<Config, ParseError>(e),
    ensures
        spec_resolve(ConfigSource::Contents(v)) == (Resolution {
            config: spec_default_config(),
            warning: Some(e),
        }),
{
}

/// Idempotence: resolution is a pure function of the lookup outcome, so
/// resolving twice from the same unchanged file contents yields identical
/// configurations.
pub proof fn lemma_resolution_idempotent(a: ConfigSource, b: ConfigSource)
    requires
        a == b,
    ensures
        spec_resolve(a) == spec_resolve(b),
{
}

} // verus!
