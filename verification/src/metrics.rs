//! Measurements of an evaluation run and their tab-separated report.

use vstd::prelude::*;

use crate::config::EvalConfig;
use crate::lines::{
    joined_lines, joined_lines_add, joined_single, line_fits, lines_from, lines_of_joined, next_line, text_lines,
};
use crate::text::{decimal, digit_char, is_digit, parse_u64, push_decimal, u64_of_text};

verus! {

#[derive(Debug, Clone, Copy, PartialEq, Eq, Structural)]
pub enum TransportKind {
    Quinn,
    IrohDirect,
    IrohRelay,
    IrohRelayThenDirect,
}

pub open spec fn transport_name(t: TransportKind) -> Seq<char> {
    match t {
        TransportKind::Quinn => "quinn"@,
        TransportKind::IrohDirect => "iroh_direct"@,
        TransportKind::IrohRelay => "iroh_relay"@,
        TransportKind::IrohRelayThenDirect => "iroh_relay_then_direct"@,
    }
}

impl TransportKind {
    pub fn as_str(self) -> (r: &'static str)
        ensures
            r@ == transport_name(self),
    {
        match self {
            TransportKind::Quinn => "quinn",
            TransportKind::IrohDirect => "iroh_direct",
            TransportKind::IrohRelay => "iroh_relay",
            TransportKind::IrohRelayThenDirect => "iroh_relay_then_direct",
        }
    }
}

#[derive(Debug, Clone, Copy, PartialEq, Eq, Structural)]
pub enum MetricKind {
    ProtectedConnectMicros,
    SessionAuthMicros,
    ControlRttMicros,
    BulkBytesPerSecond,
    RelayUpgradeMicros,
    ShutdownMicros,
}

pub open spec fn metric_name(m: MetricKind) -> Seq<char> {
    match m {
        MetricKind::ProtectedConnectMicros => "protected_connect_us"@,
        MetricKind::SessionAuthMicros => "session_auth_us"@,
        MetricKind::ControlRttMicros => "control_rtt_us"@,
        MetricKind::BulkBytesPerSecond => "bulk_bytes_per_second"@,
        MetricKind::RelayUpgradeMicros => "relay_upgrade_us"@,
        MetricKind::ShutdownMicros => "shutdown_us"@,
    }
}

impl MetricKind {
    pub fn as_str(self) -> (r: &'static str)
        ensures
            r@ == metric_name(self),
    {
        match self {
            MetricKind::ProtectedConnectMicros => "protected_connect_us",
            MetricKind::SessionAuthMicros => "session_auth_us",
            MetricKind::ControlRttMicros => "control_rtt_us",
            MetricKind::BulkBytesPerSecond => "bulk_bytes_per_second",
            MetricKind::RelayUpgradeMicros => "relay_upgrade_us",
            MetricKind::ShutdownMicros => "shutdown_us",
        }
    }
}

/// One sample of one metric on one transport.
#[derive(Debug, Clone, Copy, PartialEq, Eq, Structural)]
pub struct Measurement {
    transport: TransportKind,
    metric: MetricKind,
    sample: usize,
    value: u128,
}

impl View for Measurement {
    type V = (TransportKind, MetricKind, usize, u128);

    closed spec fn view(&self) -> (TransportKind, MetricKind, usize, u128) {
        (self.transport, self.metric, self.sample, self.value)
    }
}

impl Measurement {
    pub fn new(transport: TransportKind, metric: MetricKind, sample: usize, value: u128) -> (r:
        Self)
        ensures
            r@ == (transport, metric, sample, value),
    {
        Measurement { transport, metric, sample, value }
    }

    pub fn metric(self) -> (r: MetricKind)
        ensures
            r == self@.1,
    {
        self.metric
    }

    pub fn transport(self) -> (r: TransportKind)
        ensures
            r == self@.0,
    {
        self.transport
    }
}

/// The throughput of moving `bytes` in `elapsed_nanos` nanoseconds, in whole bytes per
/// second; an elapsed time of zero counts as one nanosecond.
pub open spec fn throughput(bytes: nat, elapsed_nanos: nat) -> nat {
    let nanos = if elapsed_nanos == 0 {
        1
    } else {
        elapsed_nanos
    };
    (bytes * 1_000_000_000) / nanos
}

/// Bytes per second of a transfer of `bytes` that took `elapsed_nanos` nanoseconds.
pub fn bytes_per_second(bytes: usize, elapsed_nanos: u128) -> (r: u128)
    ensures
        r == throughput(bytes as nat, elapsed_nanos as nat),
{
    let nanos: u128 = if elapsed_nanos == 0 {
        1
    } else {
        elapsed_nanos
    };
    assert(bytes * 1_000_000_000 <= u128::MAX) by (nonlinear_arith)
        requires
            bytes <= u64::MAX,
    ;
    (bytes as u128 * 1_000_000_000) / nanos
}

/// White space as `char::is_whitespace` knows it: the Unicode `White_Space` characters.
pub open spec fn is_white(c: char) -> bool {
    ||| c == '\t' || c == '\n' || c == '\u{0B}' || c == '\u{0C}' || c == '\r' || c == ' '
    ||| c == '\u{85}' || c == '\u{A0}' || c == '\u{1680}'
    ||| '\u{2000}' <= c && c <= '\u{200A}'
    ||| c == '\u{2028}' || c == '\u{2029}' || c == '\u{202F}' || c == '\u{205F}' || c == '\u{3000}'
}

fn is_white_char(c: char) -> (r: bool)
    ensures
        r == is_white(c),
{
    c == '\t' || c == '\n' || c == '\u{0B}' || c == '\u{0C}' || c == '\r' || c == ' ' || c
        == '\u{85}' || c == '\u{A0}' || c == '\u{1680}' || ('\u{2000}' <= c && c <= '\u{200A}')
        || c == '\u{2028}' || c == '\u{2029}' || c == '\u{202F}' || c == '\u{205F}' || c
        == '\u{3000}'
}

/// The first position at or after `pos` whose character is white space (`white`) or is not
/// (`!white`), or the length of `s` when there is none.
pub open spec fn first_where(s: Seq<char>, pos: nat, white: bool) -> nat
    decreases s.len() - pos,
{
    if pos >= s.len() {
        s.len()
    } else if is_white(s[pos as int]) == white {
        pos
    } else {
        first_where(s, pos + 1, white)
    }
}

proof fn first_where_bounds(s: Seq<char>, pos: nat, white: bool)
    requires
        pos <= s.len(),
    ensures
        pos <= first_where(s, pos, white) <= s.len(),
    decreases s.len() - pos,
{
    if pos < s.len() && is_white(s[pos as int]) != white {
        first_where_bounds(s, pos + 1, white);
    }
}

/// The first word of a text, as `split_whitespace().next()` gives it.
pub open spec fn first_word(s: Seq<char>) -> Option<Seq<char>> {
    let start = first_where(s, 0, false);
    if start >= s.len() {
        None
    } else {
        Some(s.subrange(start as int, first_where(s, start, true) as int))
    }
}

/// What follows `prefix` on the first line that starts with it.
pub open spec fn after_first_prefixed(lines: Seq<Seq<char>>, prefix: Seq<char>) -> Option<
    Seq<char>,
>
    decreases lines.len(),
{
    if lines.len() == 0 {
        None
    } else if lines[0].len() >= prefix.len() && lines[0].subrange(0, prefix.len() as int)
        == prefix {
        Some(lines[0].subrange(prefix.len() as int, lines[0].len() as int))
    } else {
        after_first_prefixed(lines.drop_first(), prefix)
    }
}

/// The resident set size, in KiB, that a `/proc/<pid>/status` text reports: the first word
/// after `VmRSS:` on the first line that starts with it, read as a `u64`.
pub open spec fn rss_kib_of_status(status: Seq<char>) -> Option<u64> {
    match after_first_prefixed(text_lines(status), "VmRSS:"@) {
        None => None,
        Some(rest) => match first_word(rest) {
            None => None,
            Some(word) => u64_of_text(word),
        },
    }
}

fn first_word_of(s: &str) -> (r: Option<&str>)
    ensures
        match r {
            Some(w) => first_word(s@) == Some(w@),
            None => first_word(s@) is None,
        },
{
    let n = s.unicode_len();
    let mut start: usize = 0;
    while start < n
        invariant
            n == s@.len(),
            start <= n,
            first_where(s@, 0, false) == first_where(s@, start as nat, false),
        ensures
            start <= n,
            first_where(s@, 0, false) == start,
        decreases n - start,
    {
        if !is_white_char(s.get_char(start)) {
            break;
        }
        start = start + 1;
    }
    if start == n {
        return None;
    }
    let mut end: usize = start;
    while end < n
        invariant
            n == s@.len(),
            start <= end <= n,
            first_where(s@, start as nat, true) == first_where(s@, end as nat, true),
        ensures
            start <= end <= n,
            first_where(s@, start as nat, true) == end,
        decreases n - end,
    {
        if is_white_char(s.get_char(end)) {
            break;
        }
        end = end + 1;
    }
    Some(s.substring_char(start, end))
}

/// Reads the resident set size, in KiB, from the text of `/proc/<pid>/status`.
pub fn rss_kib_from_status(status: &str) -> (r: Option<u64>)
    ensures
        r == rss_kib_of_status(status@),
{
    let n = status.unicode_len();
    let prefix = "VmRSS:";
    proof {
        reveal_strlit("VmRSS:");
    }
    let mut pos: usize = 0;
    loop
        invariant
            n == status@.len(),
            pos <= n,
            prefix@ == "VmRSS:"@,
            prefix@.len() == 6,
            after_first_prefixed(text_lines(status@), prefix@) == after_first_prefixed(
                lines_from(status@, pos as nat),
                prefix@,
            ),
        decreases n - pos,
    {
        let (line, next) = next_line(status, n, pos);
        match line {
            None => {
                return None;
            },
            Some(l) => {
                let ghost rest = lines_from(status@, next as nat);
                assert((seq![l@] + rest).drop_first() =~= rest);
                let len = l.unicode_len();
                if len >= 6 && crate::text::str_eq(l.substring_char(0, 6), prefix) {
                    let after = l.substring_char(6, len);
                    return match first_word_of(after) {
                        Some(word) => parse_u64(word),
                        None => None,
                    };
                }
                assert(after_first_prefixed(seq![l@] + rest, prefix@) == after_first_prefixed(
                    rest,
                    prefix@,
                ));
                pos = next;
            },
        }
    }
}

/// Resident memory and open descriptors of the process, where they could be observed.
#[derive(Debug, Clone, Copy, PartialEq, Eq, Default)]
pub struct ResourceObservations {
    pub rss_kib: Option<u64>,
    pub fd_count: Option<usize>,
}

#[derive(Debug, Clone, Copy, PartialEq, Eq)]
struct RunMetadata {
    samples: usize,
    payload_bytes: usize,
    resources: ResourceObservations,
}

/// The run limits and resource observations a report's header records.
pub struct RunMetadataView {
    pub samples: usize,
    pub payload_bytes: usize,
    pub rss_kib: Option<u64>,
    pub fd_count: Option<usize>,
}

pub struct ReportView {
    pub metadata: Option<RunMetadataView>,
    pub measurements: Seq<Measurement>,
}

/// The measurements of a run, with the run's header when the report is for a run.
#[derive(Debug, Clone, PartialEq, Eq)]
pub struct Report {
    metadata: Option<RunMetadata>,
    measurements: Vec<Measurement>,
}

impl View for Report {
    type V = ReportView;

    closed spec fn view(&self) -> ReportView {
        ReportView {
            metadata: match self.metadata {
                Some(m) => Some(
                    RunMetadataView {
                        samples: m.samples,
                        payload_bytes: m.payload_bytes,
                        rss_kib: m.resources.rss_kib,
                        fd_count: m.resources.fd_count,
                    },
                ),
                None => None,
            },
            measurements: self.measurements@,
        }
    }
}

/// One `# name=value` header line.
pub open spec fn header_line(name: Seq<char>, value: Seq<char>) -> Seq<char> {
    "# "@ + name + "="@ + value + "\n"@
}

/// A header line for an observation that may be missing, written `-` when it is.
pub open spec fn optional_header(name: Seq<char>, value: Option<nat>) -> Seq<char> {
    header_line(
        name,
        match value {
            Some(v) => decimal(v),
            None => "-"@,
        },
    )
}

/// The reproducibility header of a run report.
pub open spec fn run_header(meta: RunMetadataView, os: Seq<char>, arch: Seq<char>) -> Seq<char> {
    header_line("os"@, os) + header_line("arch"@, arch) + header_line("rust"@, "1.98.1"@)
        + header_line("samples"@, decimal(meta.samples as nat)) + header_line(
        "payload_bytes"@,
        decimal(meta.payload_bytes as nat),
    ) + header_line("quinn"@, "0.11.11"@) + header_line("iroh"@, "1.2.0"@) + optional_header(
        "rss_kib"@,
        match meta.rss_kib {
            Some(v) => Some(v as nat),
            None => None,
        },
    ) + optional_header(
        "fd_count"@,
        match meta.fd_count {
            Some(v) => Some(v as nat),
            None => None,
        },
    )
}

/// One tab-separated row: transport, metric, sample and value.
pub open spec fn measurement_row(m: Measurement) -> Seq<char> {
    transport_name(m@.0) + "\t"@ + metric_name(m@.1) + "\t"@ + decimal(m@.2 as nat) + "\t"@
        + decimal(m@.3 as nat) + "\n"@
}

pub open spec fn measurement_rows(ms: Seq<Measurement>) -> Seq<char>
    decreases ms.len(),
{
    if ms.len() == 0 {
        Seq::empty()
    } else {
        measurement_rows(ms.drop_last()) + measurement_row(ms.last())
    }
}

/// The whole report: the header when there is one, the column names, and one row per
/// measurement in order.
pub open spec fn report_text(r: ReportView, os: Seq<char>, arch: Seq<char>) -> Seq<char> {
    let header = match r.metadata {
        Some(meta) => run_header(meta, os, arch),
        None => Seq::empty(),
    };
    header + "transport\tmetric\tsample\tvalue\n"@ + measurement_rows(r.measurements)
}

fn push_measurement_row(output: &mut String, m: Measurement)
    ensures
        final(output)@ == old(output)@ + measurement_row(m),
{
    output.append(m.transport.as_str());
    output.append("\t");
    output.append(m.metric.as_str());
    output.append("\t");
    push_decimal(output, m.sample as u128);
    output.append("\t");
    push_decimal(output, m.value);
    output.append("\n");
    assert(output@ =~= old(output)@ + measurement_row(m));
}

fn push_header_line(output: &mut String, name: &str, value: &str)
    ensures
        final(output)@ == old(output)@ + header_line(name@, value@),
{
    output.append("# ");
    output.append(name);
    output.append("=");
    output.append(value);
    output.append("\n");
}

fn push_number_header(output: &mut String, name: &str, value: u128)
    ensures
        final(output)@ == old(output)@ + header_line(name@, decimal(value as nat)),
{
    output.append("# ");
    output.append(name);
    output.append("=");
    push_decimal(output, value);
    output.append("\n");
}

fn push_optional_header(output: &mut String, name: &str, value: Option<u128>)
    ensures
        final(output)@ == old(output)@ + optional_header(
            name@,
            match value {
                Some(v) => Some(v as nat),
                None => None,
            },
        ),
{
    output.append("# ");
    output.append(name);
    output.append("=");
    match value {
        Some(v) => push_decimal(output, v),
        None => output.append("-"),
    }
    output.append("\n");
}

impl Report {
    pub fn new(measurements: Vec<Measurement>) -> (r: Self)
        ensures
            r@.metadata is None,
            r@.measurements == measurements@,
    {
        Report { metadata: None, measurements }
    }

    /// A report for a run with the given limits; its resources are not observed yet.
    pub fn for_run(config: EvalConfig, measurements: Vec<Measurement>) -> (r: Self)
        ensures
            r@.metadata == Some(
                RunMetadataView {
                    samples: config@.0,
                    payload_bytes: config@.1,
                    rss_kib: None,
                    fd_count: None,
                },
            ),
            r@.measurements == measurements@,
    {
        Report {
            metadata: Some(
                RunMetadata {
                    samples: config.samples(),
                    payload_bytes: config.bulk_payload_bytes(),
                    resources: ResourceObservations { rss_kib: None, fd_count: None },
                },
            ),
            measurements,
        }
    }

    pub fn contains(&self, metric: MetricKind) -> (r: bool)
        ensures
            r == exists|i: int|
                0 <= i < self@.measurements.len() && (#[trigger] self@.measurements[i])@.1
                    == metric,
    {
        let mut i: usize = 0;
        while i < self.measurements.len()
            invariant
                i <= self.measurements@.len(),
                forall|j: int| 0 <= j < i ==> (#[trigger] self.measurements@[j])@.1 != metric,
            decreases self.measurements@.len() - i,
        {
            if self.measurements[i].metric() == metric {
                return true;
            }
            i = i + 1;
        }
        false
    }

    pub fn contains_transport(&self, transport: TransportKind) -> (r: bool)
        ensures
            r == exists|i: int|
                0 <= i < self@.measurements.len() && (#[trigger] self@.measurements[i])@.0
                    == transport,
    {
        let mut i: usize = 0;
        while i < self.measurements.len()
            invariant
                i <= self.measurements@.len(),
                forall|j: int| 0 <= j < i ==> (#[trigger] self.measurements@[j])@.0 != transport,
            decreases self.measurements@.len() - i,
        {
            if self.measurements[i].transport() == transport {
                return true;
            }
            i = i + 1;
        }
        false
    }

    /// Adds measurements after the ones already recorded.
    pub fn extend(&mut self, measurements: Vec<Measurement>)
        ensures
            final(self)@.metadata == old(self)@.metadata,
            final(self)@.measurements == old(self)@.measurements + measurements@,
    {
        let mut more = measurements;
        self.measurements.append(&mut more);
    }

    /// Moves another report's measurements after this one's; this report's header stays.
    pub fn append(&mut self, other: Self)
        ensures
            final(self)@.metadata == old(self)@.metadata,
            final(self)@.measurements == old(self)@.measurements + other@.measurements,
    {
        let mut other = other;
        self.measurements.append(&mut other.measurements);
    }

    /// Records the resources observed at the end of a run; a report without a header stays
    /// as it is.
    pub fn record_resources(&mut self, observations: ResourceObservations)
        ensures
            final(self)@.measurements == old(self)@.measurements,
            final(self)@.metadata == match old(self)@.metadata {
                Some(m) => Some(
                    RunMetadataView {
                        rss_kib: observations.rss_kib,
                        fd_count: observations.fd_count,
                        ..m
                    },
                ),
                None => None,
            },
    {
        match self.metadata {
            Some(metadata) => {
                self.metadata = Some(RunMetadata { resources: observations, ..metadata });
            },
            None => {},
        }
    }

    /// The tab-separated report, with the header naming the given operating system and
    /// architecture.
    pub fn to_tsv(&self, os: &str, arch: &str) -> (r: String)
        ensures
            r@ == report_text(self@, os@, arch@),
    {
        let mut output = String::new();
        match self.metadata {
            Some(metadata) => {
                push_header_line(&mut output, "os", os);
                push_header_line(&mut output, "arch", arch);
                push_header_line(&mut output, "rust", "1.98.1");
                push_number_header(&mut output, "samples", metadata.samples as u128);
                push_number_header(&mut output, "payload_bytes", metadata.payload_bytes as u128);
                push_header_line(&mut output, "quinn", "0.11.11");
                push_header_line(&mut output, "iroh", "1.2.0");
                let rss = match metadata.resources.rss_kib {
                    Some(v) => Some(v as u128),
                    None => None,
                };
                push_optional_header(&mut output, "rss_kib", rss);
                let fd = match metadata.resources.fd_count {
                    Some(v) => Some(v as u128),
                    None => None,
                };
                push_optional_header(&mut output, "fd_count", fd);
                assert(output@ =~= run_header(self@.metadata.unwrap(), os@, arch@));
            },
            None => {},
        }
        let ghost header = output@;
        output.append("transport\tmetric\tsample\tvalue\n");
        let mut i: usize = 0;
        while i < self.measurements.len()
            invariant
                i <= self.measurements@.len(),
                output@ == header + "transport\tmetric\tsample\tvalue\n"@ + measurement_rows(
                    self.measurements@.take(i as int),
                ),
            decreases self.measurements@.len() - i,
        {
            let m = self.measurements[i];
            push_measurement_row(&mut output, m);
            proof {
                let t = self.measurements@.take(i + 1);
                assert(t.drop_last() =~= self.measurements@.take(i as int));
                assert(t.last() == m);
            }
            i = i + 1;
        }
        assert(self.measurements@.take(i as int) =~= self.measurements@);
        output
    }
}

/// One measurement's line of the report, without its line break.
pub open spec fn measurement_line(m: Measurement) -> Seq<char> {
    transport_name(m@.0) + "\t"@ + metric_name(m@.1) + "\t"@ + decimal(m@.2 as nat) + "\t"@
        + decimal(m@.3 as nat)
}

/// The line that names the report's columns.
pub open spec fn column_line() -> Seq<char> {
    "transport\tmetric\tsample\tvalue"@
}

pub open spec fn starts_with_hash(line: Seq<char>) -> bool {
    line.len() > 0 && line[0] == '#'
}

/// The lines of a report of measurements alone: the column names, then one line per
/// measurement, in order.
pub open spec fn plain_report_lines(ms: Seq<Measurement>) -> Seq<Seq<char>> {
    seq![column_line()] + ms.map_values(|m: Measurement| measurement_line(m))
}

/// A header line without its line break.
pub open spec fn header_text(name: Seq<char>, value: Seq<char>) -> Seq<char> {
    "# "@ + name + "="@ + value
}

pub open spec fn optional_text(value: Option<nat>) -> Seq<char> {
    match value {
        Some(v) => decimal(v),
        None => "-"@,
    }
}

/// The header lines of a run's report, in order.
pub open spec fn run_header_lines(meta: RunMetadataView, os: Seq<char>, arch: Seq<char>) -> Seq<
    Seq<char>,
> {
    seq![
        header_text("os"@, os),
        header_text("arch"@, arch),
        header_text("rust"@, "1.98.1"@),
        header_text("samples"@, decimal(meta.samples as nat)),
        header_text("payload_bytes"@, decimal(meta.payload_bytes as nat)),
        header_text("quinn"@, "0.11.11"@),
        header_text("iroh"@, "1.2.0"@),
        header_text(
            "rss_kib"@,
            optional_text(
                match meta.rss_kib {
                    Some(v) => Some(v as nat),
                    None => None,
                },
            ),
        ),
        header_text(
            "fd_count"@,
            optional_text(
                match meta.fd_count {
                    Some(v) => Some(v as nat),
                    None => None,
                },
            ),
        ),
    ]
}

pub open spec fn no_line_break(s: Seq<char>) -> bool {
    forall|i: int| 0 <= i < s.len() ==> s[i] != '\n'
}

proof fn no_line_break_add(a: Seq<char>, b: Seq<char>)
    requires
        no_line_break(a),
        no_line_break(b),
    ensures
        no_line_break(a + b),
{
    assert forall|i: int| 0 <= i < (a + b).len() implies (a + b)[i] != '\n' by {
        if i >= a.len() {
            assert((a + b)[i] == b[i - a.len()]);
        }
    }
}

proof fn decimal_digits(n: nat)
    ensures
        decimal(n).len() > 0,
        forall|i: int| 0 <= i < decimal(n).len() ==> is_digit(#[trigger] decimal(n)[i]),
    decreases n,
{
    assert(is_digit(digit_char(n % 10)));
    if n >= 10 {
        decimal_digits(n / 10);
        assert forall|i: int| 0 <= i < decimal(n).len() implies is_digit(
            #[trigger] decimal(n)[i],
        ) by {
            if i < decimal(n / 10).len() {
                assert(decimal(n)[i] == decimal(n / 10)[i]);
            }
        }
    }
}

proof fn names_have_no_line_break(t: TransportKind, k: MetricKind)
    ensures
        no_line_break(transport_name(t)),
        no_line_break(metric_name(k)),
        transport_name(t).len() > 0,
        transport_name(t)[0] == 'q' || transport_name(t)[0] == 'i',
{
    reveal_strlit("quinn");
    reveal_strlit("iroh_direct");
    reveal_strlit("iroh_relay");
    reveal_strlit("iroh_relay_then_direct");
    reveal_strlit("protected_connect_us");
    reveal_strlit("session_auth_us");
    reveal_strlit("control_rtt_us");
    reveal_strlit("bulk_bytes_per_second");
    reveal_strlit("relay_upgrade_us");
    reveal_strlit("shutdown_us");
}

proof fn measurement_line_fits(m: Measurement)
    ensures
        line_fits(measurement_line(m)),
        !starts_with_hash(measurement_line(m)),
        measurement_row(m) == measurement_line(m) + seq!['\n'],
{
    reveal_strlit("\t");
    reveal_strlit("\n");
    names_have_no_line_break(m@.0, m@.1);
    decimal_digits(m@.2 as nat);
    decimal_digits(m@.3 as nat);
    let t = transport_name(m@.0);
    let a = decimal(m@.2 as nat);
    let b = decimal(m@.3 as nat);
    assert(no_line_break(a));
    assert(no_line_break(b));
    assert(no_line_break("\t"@));
    no_line_break_add(t, "\t"@);
    no_line_break_add(t + "\t"@, metric_name(m@.1));
    no_line_break_add(t + "\t"@ + metric_name(m@.1), "\t"@);
    no_line_break_add(t + "\t"@ + metric_name(m@.1) + "\t"@, a);
    no_line_break_add(t + "\t"@ + metric_name(m@.1) + "\t"@ + a, "\t"@);
    no_line_break_add(t + "\t"@ + metric_name(m@.1) + "\t"@ + a + "\t"@, b);
    assert(measurement_line(m).last() == b.last());
    assert(is_digit(b[b.len() - 1]));
    assert(measurement_line(m)[0] == t[0]);
    assert(measurement_row(m) =~= measurement_line(m) + seq!['\n']);
}

proof fn rows_are_joined_lines(ms: Seq<Measurement>)
    ensures
        measurement_rows(ms) == joined_lines(ms.map_values(|m: Measurement| measurement_line(m))),
    decreases ms.len(),
{
    let f = |m: Measurement| measurement_line(m);
    if ms.len() == 0 {
        assert(ms.map_values(f) =~= Seq::<Seq<char>>::empty());
    } else {
        rows_are_joined_lines(ms.drop_last());
        measurement_line_fits(ms.last());
        assert(ms.map_values(f) =~= ms.drop_last().map_values(f) + seq![measurement_line(ms.last())]);
        joined_lines_add(ms.drop_last().map_values(f), seq![measurement_line(ms.last())]);
        joined_single(measurement_line(ms.last()));
    }
}

proof fn plain_lines_fit(ms: Seq<Measurement>)
    ensures
        forall|i: int|
            0 <= i < plain_report_lines(ms).len() ==> line_fits(#[trigger] plain_report_lines(ms)[i])
                && !starts_with_hash(plain_report_lines(ms)[i]),
{
    reveal_strlit("transport\tmetric\tsample\tvalue");
    assert forall|i: int| 0 <= i < plain_report_lines(ms).len() implies line_fits(
        #[trigger] plain_report_lines(ms)[i],
    ) && !starts_with_hash(plain_report_lines(ms)[i]) by {
        if i > 0 {
            measurement_line_fits(ms[i - 1]);
        }
    }
}

proof fn plain_text_is_joined(ms: Seq<Measurement>)
    ensures
        "transport\tmetric\tsample\tvalue\n"@ + measurement_rows(ms) == joined_lines(
            plain_report_lines(ms),
        ),
{
    reveal_strlit("transport\tmetric\tsample\tvalue\n");
    reveal_strlit("transport\tmetric\tsample\tvalue");
    rows_are_joined_lines(ms);
    let rows = ms.map_values(|m: Measurement| measurement_line(m));
    joined_lines_add(seq![column_line()], rows);
    joined_single(column_line());
    assert(column_line() + seq!['\n'] =~= "transport\tmetric\tsample\tvalue\n"@);
}

/// The report of measurements alone (a report made by `Report::new`) reads, line by line, as
/// the column names and then one line per measurement, in order and with none left out; no
/// line of it starts with `#`.
pub proof fn report_without_run_lines(ms: Seq<Measurement>, os: Seq<char>, arch: Seq<char>)
    ensures
        text_lines(report_text(ReportView { metadata: None, measurements: ms }, os, arch))
            == plain_report_lines(ms),
        plain_report_lines(ms).len() == ms.len() + 1,
        plain_report_lines(ms)[0] == column_line(),
        forall|i: int|
            0 <= i < ms.len() ==> plain_report_lines(ms)[i + 1] == measurement_line(
                #[trigger] ms[i],
            ),
        forall|i: int|
            0 <= i < plain_report_lines(ms).len() ==> !starts_with_hash(
                #[trigger] plain_report_lines(ms)[i],
            ),
{
    plain_text_is_joined(ms);
    plain_lines_fit(ms);
    let text = report_text(ReportView { metadata: None, measurements: ms }, os, arch);
    assert(text =~= "transport\tmetric\tsample\tvalue\n"@ + measurement_rows(ms));
    lines_of_joined(plain_report_lines(ms));
}

proof fn joined_push(a: Seq<Seq<char>>, x: Seq<char>)
    ensures
        joined_lines(a.push(x)) == joined_lines(a) + x + seq!['\n'],
{
    assert(a.push(x) =~= a + seq![x]);
    joined_lines_add(a, seq![x]);
    joined_single(x);
    assert(joined_lines(a) + (x + seq!['\n']) =~= joined_lines(a) + x + seq!['\n']);
}

proof fn header_line_is_text(name: Seq<char>, value: Seq<char>)
    ensures
        header_line(name, value) == header_text(name, value) + seq!['\n'],
        starts_with_hash(header_text(name, value)),
{
    reveal_strlit("\n");
    reveal_strlit("# ");
    assert(header_line(name, value) =~= header_text(name, value) + seq!['\n']);
}

#[verifier::rlimit(40)]
proof fn header_is_joined(meta: RunMetadataView, os: Seq<char>, arch: Seq<char>)
    ensures
        run_header(meta, os, arch) == joined_lines(run_header_lines(meta, os, arch)),
        forall|i: int|
            0 <= i < run_header_lines(meta, os, arch).len() ==> starts_with_hash(
                #[trigger] run_header_lines(meta, os, arch)[i],
            ),
{
    let h = run_header_lines(meta, os, arch);
    let rss = match meta.rss_kib {
        Some(v) => Some(v as nat),
        None => None,
    };
    let fd = match meta.fd_count {
        Some(v) => Some(v as nat),
        None => None,
    };
    let e = Seq::<Seq<char>>::empty();
    let l1 = e.push(h[0]);
    let l2 = l1.push(h[1]);
    let l3 = l2.push(h[2]);
    let l4 = l3.push(h[3]);
    let l5 = l4.push(h[4]);
    let l6 = l5.push(h[5]);
    let l7 = l6.push(h[6]);
    let l8 = l7.push(h[7]);
    let l9 = l8.push(h[8]);
    assert(l9 =~= h);
    let hl0 = header_line("os"@, os);
    let hl1 = header_line("arch"@, arch);
    let hl2 = header_line("rust"@, "1.98.1"@);
    let hl3 = header_line("samples"@, decimal(meta.samples as nat));
    let hl4 = header_line("payload_bytes"@, decimal(meta.payload_bytes as nat));
    let hl5 = header_line("quinn"@, "0.11.11"@);
    let hl6 = header_line("iroh"@, "1.2.0"@);
    let hl7 = header_line("rss_kib"@, optional_text(rss));
    let hl8 = header_line("fd_count"@, optional_text(fd));
    header_line_is_text("os"@, os);
    header_line_is_text("arch"@, arch);
    header_line_is_text("rust"@, "1.98.1"@);
    header_line_is_text("samples"@, decimal(meta.samples as nat));
    header_line_is_text("payload_bytes"@, decimal(meta.payload_bytes as nat));
    header_line_is_text("quinn"@, "0.11.11"@);
    header_line_is_text("iroh"@, "1.2.0"@);
    header_line_is_text("rss_kib"@, optional_text(rss));
    header_line_is_text("fd_count"@, optional_text(fd));
    assert(joined_lines(e) == Seq::<char>::empty());
    joined_push(e, h[0]);
    assert(joined_lines(l1) =~= hl0);
    joined_push(l1, h[1]);
    assert(joined_lines(l2) =~= hl0 + hl1);
    joined_push(l2, h[2]);
    assert(joined_lines(l3) =~= hl0 + hl1 + hl2);
    joined_push(l3, h[3]);
    assert(joined_lines(l4) =~= hl0 + hl1 + hl2 + hl3);
    joined_push(l4, h[4]);
    assert(joined_lines(l5) =~= hl0 + hl1 + hl2 + hl3 + hl4);
    joined_push(l5, h[5]);
    assert(joined_lines(l6) =~= hl0 + hl1 + hl2 + hl3 + hl4 + hl5);
    joined_push(l6, h[6]);
    assert(joined_lines(l7) =~= hl0 + hl1 + hl2 + hl3 + hl4 + hl5 + hl6);
    joined_push(l7, h[7]);
    assert(joined_lines(l8) =~= hl0 + hl1 + hl2 + hl3 + hl4 + hl5 + hl6 + hl7);
    joined_push(l8, h[8]);
    assert(joined_lines(l9) =~= hl0 + hl1 + hl2 + hl3 + hl4 + hl5 + hl6 + hl7 + hl8);
    assert(optional_header("rss_kib"@, rss) == hl7);
    assert(optional_header("fd_count"@, fd) == hl8);
    assert(run_header(meta, os, arch) == hl0 + hl1 + hl2 + hl3 + hl4 + hl5 + hl6 + hl7 + hl8);
}

/// A run's report (a report made by `Report::for_run`) reads, line by line, as the run's
/// header lines, each starting with `#`, followed by exactly the lines of the report of the
/// same measurements alone; so its lines that do not start with `#` are those of that report.
/// This holds whenever the operating system and architecture named in the header are
/// single lines.
pub proof fn run_report_lines(
    meta: RunMetadataView,
    ms: Seq<Measurement>,
    os: Seq<char>,
    arch: Seq<char>,
)
    requires
        line_fits(os),
        line_fits(arch),
    ensures
        text_lines(report_text(ReportView { metadata: Some(meta), measurements: ms }, os, arch))
            == run_header_lines(meta, os, arch) + text_lines(
            report_text(ReportView { metadata: None, measurements: ms }, os, arch),
        ),
        forall|i: int|
            0 <= i < run_header_lines(meta, os, arch).len() ==> starts_with_hash(
                #[trigger] run_header_lines(meta, os, arch)[i],
            ),
        text_lines(report_text(ReportView { metadata: Some(meta), measurements: ms }, os, arch)).filter(
            |l: Seq<char>| !starts_with_hash(l),
        ) == text_lines(report_text(ReportView { metadata: None, measurements: ms }, os, arch)),
{
    let h = run_header_lines(meta, os, arch);
    let p = plain_report_lines(ms);
    header_is_joined(meta, os, arch);
    plain_text_is_joined(ms);
    report_without_run_lines(ms, os, arch);
    header_lines_fit(meta, os, arch);
    plain_lines_fit(ms);
    joined_lines_add(h, p);
    let text = report_text(ReportView { metadata: Some(meta), measurements: ms }, os, arch);
    assert(text =~= joined_lines(h + p));
    assert forall|i: int| 0 <= i < (h + p).len() implies line_fits(#[trigger] (h + p)[i]) by {
        if i >= h.len() {
            assert((h + p)[i] == p[i - h.len()]);
            assert(line_fits(p[i - h.len()]));
        } else {
            assert((h + p)[i] == h[i]);
            assert(line_fits(h[i]));
        }
    }
    lines_of_joined(h + p);
    let keep = |l: Seq<char>| !starts_with_hash(l);
    Seq::<Seq<char>>::filter_distributes_over_add(h, p, keep);
    filter_none(h, keep);
    filter_all(p, keep);
    assert(Seq::<Seq<char>>::empty() + p =~= p);
}

proof fn header_text_fits(name: Seq<char>, value: Seq<char>)
    requires
        no_line_break(name),
        line_fits(value),
    ensures
        line_fits(header_text(name, value)),
{
    reveal_strlit("# ");
    reveal_strlit("=");
    assert(no_line_break("# "@));
    assert(no_line_break("="@));
    assert(no_line_break(value));
    no_line_break_add("# "@, name);
    no_line_break_add("# "@ + name, "="@);
    no_line_break_add("# "@ + name + "="@, value);
    if value.len() > 0 {
        assert(header_text(name, value).last() == value.last());
    } else {
        assert(header_text(name, value).last() == '=');
    }
}

proof fn decimal_fits(n: nat)
    ensures
        line_fits(decimal(n)),
{
    decimal_digits(n);
    assert(is_digit(decimal(n)[decimal(n).len() - 1]));
}

proof fn header_words_fit()
    ensures
        no_line_break("os"@),
        no_line_break("arch"@),
        no_line_break("rust"@),
        no_line_break("samples"@),
        no_line_break("payload_bytes"@),
        no_line_break("quinn"@),
        no_line_break("iroh"@),
        no_line_break("rss_kib"@),
        no_line_break("fd_count"@),
        line_fits("1.98.1"@),
        line_fits("0.11.11"@),
        line_fits("1.2.0"@),
        line_fits("-"@),
{
    reveal_strlit("os");
    reveal_strlit("arch");
    reveal_strlit("rust");
    reveal_strlit("samples");
    reveal_strlit("payload_bytes");
    reveal_strlit("quinn");
    reveal_strlit("iroh");
    reveal_strlit("rss_kib");
    reveal_strlit("fd_count");
    reveal_strlit("1.98.1");
    reveal_strlit("0.11.11");
    reveal_strlit("1.2.0");
    reveal_strlit("-");
}

proof fn optional_text_fits(value: Option<nat>)
    ensures
        line_fits(optional_text(value)),
{
    header_words_fit();
    match value {
        Some(v) => decimal_fits(v),
        None => {},
    }
}

proof fn header_lines_fit(meta: RunMetadataView, os: Seq<char>, arch: Seq<char>)
    requires
        line_fits(os),
        line_fits(arch),
    ensures
        forall|i: int|
            0 <= i < run_header_lines(meta, os, arch).len() ==> line_fits(
                #[trigger] run_header_lines(meta, os, arch)[i],
            ),
{
    let rss = match meta.rss_kib {
        Some(v) => Some(v as nat),
        None => None,
    };
    let fd = match meta.fd_count {
        Some(v) => Some(v as nat),
        None => None,
    };
    header_words_fit();
    decimal_fits(meta.samples as nat);
    decimal_fits(meta.payload_bytes as nat);
    optional_text_fits(rss);
    optional_text_fits(fd);
    header_text_fits("os"@, os);
    header_text_fits("arch"@, arch);
    header_text_fits("rust"@, "1.98.1"@);
    header_text_fits("samples"@, decimal(meta.samples as nat));
    header_text_fits("payload_bytes"@, decimal(meta.payload_bytes as nat));
    header_text_fits("quinn"@, "0.11.11"@);
    header_text_fits("iroh"@, "1.2.0"@);
    header_text_fits("rss_kib"@, optional_text(rss));
    header_text_fits("fd_count"@, optional_text(fd));
}

proof fn filter_none(s: Seq<Seq<char>>, keep: spec_fn(Seq<char>) -> bool)
    requires
        forall|i: int| 0 <= i < s.len() ==> !keep(#[trigger] s[i]),
    ensures
        s.filter(keep) == Seq::<Seq<char>>::empty(),
    decreases s.len(),
{
    reveal(Seq::filter);
    if s.len() > 0 {
        assert forall|i: int| 0 <= i < s.drop_last().len() implies !keep(
            #[trigger] s.drop_last()[i],
        ) by {
            assert(s.drop_last()[i] == s[i]);
        }
        filter_none(s.drop_last(), keep);
        assert(!keep(s[s.len() - 1]));
    }
}

proof fn filter_all(s: Seq<Seq<char>>, keep: spec_fn(Seq<char>) -> bool)
    requires
        forall|i: int| 0 <= i < s.len() ==> keep(#[trigger] s[i]),
    ensures
        s.filter(keep) == s,
    decreases s.len(),
{
    reveal(Seq::filter);
    if s.len() > 0 {
        assert forall|i: int| 0 <= i < s.drop_last().len() implies keep(
            #[trigger] s.drop_last()[i],
        ) by {
            assert(s.drop_last()[i] == s[i]);
        }
        filter_all(s.drop_last(), keep);
        assert(keep(s[s.len() - 1]));
        assert(s.drop_last().push(s.last()) =~= s);
    }
}

/// Each metric is written under its own name, which no other metric shares; the bulk
/// throughput is `bulk_bytes_per_second`.
pub proof fn metric_names_are_distinct(a: MetricKind, b: MetricKind)
    ensures
        metric_name(a) == metric_name(b) ==> a == b,
        metric_name(MetricKind::BulkBytesPerSecond) == "bulk_bytes_per_second"@,
{
    reveal_strlit("protected_connect_us");
    reveal_strlit("session_auth_us");
    reveal_strlit("control_rtt_us");
    reveal_strlit("bulk_bytes_per_second");
    reveal_strlit("relay_upgrade_us");
    reveal_strlit("shutdown_us");
    if metric_name(a) == metric_name(b) && a != b {
        let x = metric_name(a);
        let y = metric_name(b);
        assert(x.len() == y.len());
        assert(x[0] == y[0]);
        assert(x[1] == y[1]);
        assert(x[2] == y[2]);
    }
}

/// Each transport is written under its own name, which no other transport shares.
pub proof fn transport_names_are_distinct(a: TransportKind, b: TransportKind)
    ensures
        transport_name(a) == transport_name(b) ==> a == b,
{
    reveal_strlit("quinn");
    reveal_strlit("iroh_direct");
    reveal_strlit("iroh_relay");
    reveal_strlit("iroh_relay_then_direct");
    if transport_name(a) == transport_name(b) && a != b {
        let x = transport_name(a);
        let y = transport_name(b);
        assert(x.len() == y.len());
        assert(x[0] == y[0]);
        assert(x[5] == y[5]);
    }
}

} // verus!
