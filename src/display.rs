use vstd::prelude::*;

use crate::metrics::{CpuRecord, CpuView, MetricsSnapshot, SnapshotView};

verus! {

/// What `{:?}` writes for a string: the text in double quotes, with escapes.
pub uninterp spec fn debug_quoted(s: Seq<char>) -> Seq<char>;

/// Relies on std's `Debug` for `str`: the quoted form depends on the text alone.
#[verifier::external_body]
fn quoted(s: &str) -> (r: String)
    ensures
        r@ == debug_quoted(s@),
{
    format!("{:?}", s)
}

pub open spec fn digit_char(d: nat) -> char {
    if d == 0 {
        '0'
    } else if d == 1 {
        '1'
    } else if d == 2 {
        '2'
    } else if d == 3 {
        '3'
    } else if d == 4 {
        '4'
    } else if d == 5 {
        '5'
    } else if d == 6 {
        '6'
    } else if d == 7 {
        '7'
    } else if d == 8 {
        '8'
    } else {
        '9'
    }
}

/// The decimal digits of `n`, most significant first, with no leading zero.
pub open spec fn decimal(n: nat) -> Seq<char>
    decreases n,
{
    if n < 10 {
        seq![digit_char(n)]
    } else {
        decimal(n / 10).push(digit_char(n % 10))
    }
}

fn digit_str(d: u64) -> (r: &'static str)
    requires
        d < 10,
    ensures
        r@ == seq![digit_char(d as nat)],
{
    if d == 0 {
        proof { reveal_strlit("0"); }
        "0"
    } else if d == 1 {
        proof { reveal_strlit("1"); }
        "1"
    } else if d == 2 {
        proof { reveal_strlit("2"); }
        "2"
    } else if d == 3 {
        proof { reveal_strlit("3"); }
        "3"
    } else if d == 4 {
        proof { reveal_strlit("4"); }
        "4"
    } else if d == 5 {
        proof { reveal_strlit("5"); }
        "5"
    } else if d == 6 {
        proof { reveal_strlit("6"); }
        "6"
    } else if d == 7 {
        proof { reveal_strlit("7"); }
        "7"
    } else if d == 8 {
        proof { reveal_strlit("8"); }
        "8"
    } else {
        proof { reveal_strlit("9"); }
        "9"
    }
}

/// Appends the decimal form of `n` to `out`.
pub fn append_decimal(out: &mut String, n: u64)
    ensures
        final(out)@ == old(out)@ + decimal(n as nat),
    decreases n,
{
    if n >= 10 {
        append_decimal(out, n / 10);
    }
    out.append(digit_str(n % 10));
    assert(final(out)@ =~= old(out)@ + decimal(n as nat));
}

/// A line that gives a byte count: `label`, the count in decimal, then " bytes".
pub open spec fn bytes_line(label: Seq<char>, n: nat) -> Seq<char> {
    label + decimal(n) + " bytes"@
}

/// The text shown for an optional host field: the field, or "Unknown" when absent.
pub open spec fn or_unknown(o: Option<Seq<char>>) -> Seq<char> {
    match o {
        Some(t) => t,
        None => "Unknown"@,
    }
}

/// The line of one processor, from the quoted forms of its text fields.
pub open spec fn cpu_line_of_quoted(
    name_q: Seq<char>,
    frequency: nat,
    brand_q: Seq<char>,
    vendor_q: Seq<char>,
) -> Seq<char> {
    "cpu "@ + name_q + ", "@ + decimal(frequency) + " , "@ + brand_q + ", "@ + vendor_q + "  "@
}

pub open spec fn cpu_line_spec(c: CpuView) -> Seq<char> {
    cpu_line_of_quoted(
        debug_quoted(c.name),
        c.frequency,
        debug_quoted(c.brand),
        debug_quoted(c.vendor_id),
    )
}

/// The nine lines of scalar metrics, in their fixed order.
pub open spec fn scalar_lines(s: SnapshotView) -> Seq<Seq<char>> {
    seq![
        bytes_line("total memory: "@, s.total_memory),
        bytes_line("used memory : "@, s.used_memory),
        bytes_line("total swap  : "@, s.total_swap),
        bytes_line("used swap   : "@, s.used_swap),
        "System name:             "@ + debug_quoted(or_unknown(s.os_name)),
        "System kernel version:   "@ + debug_quoted(or_unknown(s.kernel_version)),
        "System OS version:       "@ + debug_quoted(or_unknown(s.os_version)),
        "System host name:        "@ + debug_quoted(or_unknown(s.host_name)),
        "Number of CPUs: "@ + decimal(s.cpus.len()),
    ]
}

/// Everything the metrics list shows for a snapshot: the scalar lines, then one
/// line per processor in the host's order.
pub open spec fn display_lines_spec(s: SnapshotView) -> Seq<Seq<char>> {
    scalar_lines(s) + s.cpus.map_values(|c: CpuView| cpu_line_spec(c))
}

pub open spec fn lines_view(v: Seq<String>) -> Seq<Seq<char>> {
    v.map_values(|l: String| l@)
}

fn bytes_text(label: &str, n: u64) -> (r: String)
    ensures
        r@ == bytes_line(label@, n as nat),
{
    let mut s = String::from_str(label);
    append_decimal(&mut s, n);
    s.append(" bytes");
    s
}

/// A labelled line from the already quoted text of a host field.
pub fn labelled_line(label: &str, quoted_text: &str) -> (r: String)
    ensures
        r@ == label@ + quoted_text@,
{
    let s = String::from_str(label);
    s.concat(quoted_text)
}

fn field_line(label: &str, field: &Option<String>) -> (r: String)
    ensures
        r@ == label@ + debug_quoted(or_unknown(crate::metrics::text_view(*field))),
{
    let q = match field {
        Some(t) => quoted(t.as_str()),
        None => quoted("Unknown"),
    };
    labelled_line(label, q.as_str())
}

/// The line of one processor, from the quoted forms of its text fields.
pub fn cpu_line_from_quoted(name_q: &str, frequency: u64, brand_q: &str, vendor_q: &str) -> (r:
    String)
    ensures
        r@ == cpu_line_of_quoted(name_q@, frequency as nat, brand_q@, vendor_q@),
{
    let mut s = String::from_str("cpu ");
    s.append(name_q);
    s.append(", ");
    append_decimal(&mut s, frequency);
    s.append(" , ");
    s.append(brand_q);
    s.append(", ");
    s.append(vendor_q);
    s.append("  ");
    assert(s@ =~= cpu_line_of_quoted(name_q@, frequency as nat, brand_q@, vendor_q@));
    s
}

/// The line of one processor.
pub fn cpu_line(cpu: &CpuRecord) -> (r: String)
    ensures
        r@ == cpu_line_spec(cpu@),
{
    let name_q = quoted(cpu.name.as_str());
    let brand_q = quoted(cpu.brand.as_str());
    let vendor_q = quoted(cpu.vendor_id.as_str());
    cpu_line_from_quoted(name_q.as_str(), cpu.frequency, brand_q.as_str(), vendor_q.as_str())
}

/// Builds the lines of the metrics list for one tick: nine scalar lines, then one
/// line per processor, in the host's order.
pub fn display_lines(snap: &MetricsSnapshot) -> (r: Vec<String>)
    ensures
        r@.len() == 9 + snap.cpus@.len(),
        lines_view(r@) == display_lines_spec(snap@),
{
    let mut out: Vec<String> = Vec::new();
    out.push(bytes_text("total memory: ", snap.total_memory));
    out.push(bytes_text("used memory : ", snap.used_memory));
    out.push(bytes_text("total swap  : ", snap.total_swap));
    out.push(bytes_text("used swap   : ", snap.used_swap));
    out.push(field_line("System name:             ", &snap.os_name));
    out.push(field_line("System kernel version:   ", &snap.kernel_version));
    out.push(field_line("System OS version:       ", &snap.os_version));
    out.push(field_line("System host name:        ", &snap.host_name));
    let mut count = String::from_str("Number of CPUs: ");
    append_decimal(&mut count, snap.cpus.len() as u64);
    out.push(count);
    assert(lines_view(out@) =~= scalar_lines(snap@));
    let n = snap.cpus.len();
    let mut i: usize = 0;
    while i < n
        invariant
            n == snap.cpus@.len(),
            i <= n,
            out@.len() == 9 + i,
            lines_view(out@) =~= scalar_lines(snap@) + snap@.cpus.subrange(0, i as int).map_values(
                |c: CpuView| cpu_line_spec(c),
            ),
        decreases n - i,
    {
        let line = cpu_line(&snap.cpus[i]);
        let ghost before = out@;
        out.push(line);
        proof {
            let f = |c: CpuView| cpu_line_spec(c);
            let done = snap@.cpus.subrange(0, i as int);
            let next = snap@.cpus.subrange(0, i + 1);
            assert(next =~= done.push(snap@.cpus[i as int]));
            assert(next.map_values(f) =~= done.map_values(f).push(f(snap@.cpus[i as int])));
            assert(lines_view(out@) =~= lines_view(before).push(line@));
        }
        i = i + 1;
    }
    assert(snap@.cpus.subrange(0, n as int) =~= snap@.cpus);
    out
}

/// Refreshing a snapshot whose contents did not change gives the same lines.
pub proof fn lemma_lines_depend_on_contents(a: MetricsSnapshot, b: MetricsSnapshot)
    requires
        a@ == b@,
    ensures
        display_lines_spec(a@) == display_lines_spec(b@),
{
}

} // verus!
