//! The text renderer: one method per segment kind, each appending that
//! segment's rendering to a caller-supplied byte buffer.
//!
//! Every method's output is pinned down byte for byte by a spec function.
//! A single configuration flag, `verbose`, chosen at construction, decides
//! whether each record starts with the segment's offset/length prefix and
//! whether table contents are dumped in full.

use vstd::prelude::*;
use vstd::string::*;
use vstd::utf8::valid_utf8;

use crate::emit::push_byte_token;
use crate::emit::push_dec;
use crate::emit::push_dec2;
use crate::emit::push_hex;
use crate::emit::push_str_bytes;
use crate::emit::spec_byte_token;
use crate::emit::spec_dec;
use crate::emit::spec_dec2;
use crate::emit::spec_hex;
use crate::segment::App0Jfif;
use crate::segment::Dac;
use crate::segment::DacParam;
use crate::segment::Dht;
use crate::segment::Dqt;
use crate::segment::Frame;
use crate::segment::FrameComponent;
use crate::segment::Rst;
use crate::segment::Scan;
use crate::segment::ScanComponent;
use crate::segment::Segment;
use crate::segment::SegmentKind;
use crate::utf8check::is_valid_utf8;
use vstd::utf8::encode_utf8;
use vstd::utf8::is_ascii_chars;
use vstd::utf8::is_ascii_chars_encode_utf8;

verus! {

/// The offset/length prefix `0x<pos>/0x<len>: `, present exactly when
/// `verbose` is set.
pub open spec fn spec_prefix(verbose: bool, position: nat, length: nat) -> Seq<u8> {
    if verbose {
        "0x".spec_bytes() + spec_hex(position) + "/0x".spec_bytes() + spec_hex(length)
            + ": ".spec_bytes()
    } else {
        Seq::<u8>::empty()
    }
}

/// The rendering of an SOI segment.
pub open spec fn spec_soi(verbose: bool, position: nat, length: nat) -> Seq<u8> {
    spec_prefix(verbose, position, length) + "SOI\n".spec_bytes()
}

/// The rendering of an EOI segment.
pub open spec fn spec_eoi(verbose: bool, position: nat, length: nat) -> Seq<u8> {
    spec_prefix(verbose, position, length) + "EOI\n".spec_bytes()
}

/// The rendering of a DRI segment.
pub open spec fn spec_dri(verbose: bool, position: nat, length: nat, restart: u16) -> Seq<u8> {
    spec_prefix(verbose, position, length) + "DRI: ".spec_bytes() + spec_dec(restart as nat)
        + "\n".spec_bytes()
}

/// The rendering of a restart marker: its index and the byte count of its
/// opaque data.
pub open spec fn spec_rst(verbose: bool, position: nat, length: nat, nr: u8, data: Seq<u8>) -> Seq<
    u8,
> {
    spec_prefix(verbose, position, length) + "RST(".spec_bytes() + spec_dec(nr as nat)
        + "): Data: ".spec_bytes() + spec_dec(data.len()) + " bytes\n".spec_bytes()
}

/// The rendering of an unknown marker: its raw marker byte and the byte
/// count of its payload.
pub open spec fn spec_unknown(
    verbose: bool,
    position: nat,
    length: nat,
    marker: u8,
    data: Seq<u8>,
) -> Seq<u8> {
    spec_prefix(verbose, position, length) + "Unknown(0x".spec_bytes() + spec_hex(marker as nat)
        + "): Length ".spec_bytes() + spec_dec(data.len()) + "\n".spec_bytes()
}

/// The display tokens of the byte sequence `data`, one token per byte.
pub open spec fn spec_byte_tokens(data: Seq<u8>) -> Seq<u8>
    decreases data.len(),
{
    if data.len() == 0 {
        Seq::<u8>::empty()
    } else {
        spec_byte_tokens(data.drop_last()) + spec_byte_token(data.last())
    }
}

/// The dump of an app payload: the display tokens of at most its first
/// twenty bytes, with no mark when the rest is dropped.
pub open spec fn spec_app_dump(data: Seq<u8>) -> Seq<u8> {
    if data.len() <= 20 {
        spec_byte_tokens(data)
    } else {
        spec_byte_tokens(data.take(20))
    }
}

/// The rendering of a generic APPn segment.
pub open spec fn spec_app(
    verbose: bool,
    position: nat,
    length: nat,
    nr: u8,
    data: Seq<u8>,
) -> Seq<u8> {
    spec_prefix(verbose, position, length) + "App(0x".spec_bytes() + spec_hex(nr as nat)
        + "):".spec_bytes() + spec_app_dump(data) + "\n".spec_bytes()
}

/// The name of a density unit: a total mapping with a fallback for every
/// value outside the three defined ones.
pub open spec fn spec_unit_name(unit: u8) -> Seq<u8> {
    if unit == 0 {
        "pixel".spec_bytes()
    } else if unit == 1 {
        "dots per inch".spec_bytes()
    } else if unit == 2 {
        "dots per cm".spec_bytes()
    } else {
        "Unknown unit: ".spec_bytes() + spec_dec(unit as nat)
    }
}

/// The version line of a JFIF record: `major.minor`, the minor number
/// zero-padded to two digits.
pub open spec fn spec_jfif_version_line(major: u8, minor: u8) -> Seq<u8> {
    "  Version: ".spec_bytes() + spec_dec(major as nat) + ".".spec_bytes() + spec_dec2(
        minor as nat,
    ) + "\n".spec_bytes()
}

/// The density line of a JFIF record, with the unit name resolved.
pub open spec fn spec_jfif_density_line(x_density: u16, y_density: u16, unit: u8) -> Seq<u8> {
    "  Density: ".spec_bytes() + spec_dec(x_density as nat) + "x".spec_bytes() + spec_dec(
        y_density as nat,
    ) + " ".spec_bytes() + spec_unit_name(unit) + "\n".spec_bytes()
}

/// The thumbnail line of a JFIF record.
pub open spec fn spec_jfif_thumbnail_line(x_thumbnail: u8, y_thumbnail: u8) -> Seq<u8> {
    "  Thumbnail: ".spec_bytes() + spec_dec(x_thumbnail as nat) + "x".spec_bytes() + spec_dec(
        y_thumbnail as nat,
    ) + "\n".spec_bytes()
}

/// The rendering of an APP0/JFIF segment: header, version, density and
/// thumbnail lines.
pub open spec fn spec_jfif(verbose: bool, position: nat, length: nat, jfif: App0Jfif) -> Seq<u8> {
    spec_prefix(verbose, position, length) + "App(0x0): JFIF\n".spec_bytes()
        + spec_jfif_version_line(jfif.major, jfif.minor) + spec_jfif_density_line(
        jfif.x_density,
        jfif.y_density,
        jfif.unit,
    ) + spec_jfif_thumbnail_line(jfif.x_thumbnail, jfif.y_thumbnail)
}

/// The body of a comment record: the payload itself when it is valid text,
/// otherwise a diagnostic with the payload's exact byte length.
pub open spec fn spec_comment_body(data: Seq<u8>) -> Seq<u8> {
    if valid_utf8(data) {
        "Comment: ".spec_bytes() + data + "\n".spec_bytes()
    } else {
        "Comment: BAD STRING WITH LENGTH ".spec_bytes() + spec_dec(data.len())
            + "\n".spec_bytes()
    }
}

/// The rendering of a comment segment.
pub open spec fn spec_comment(verbose: bool, position: nat, length: nat, data: Seq<u8>) -> Seq<u8> {
    spec_prefix(verbose, position, length) + spec_comment_body(data)
}

/// One value in a verbose quantization-table dump: a row break before every
/// eighth value, right-justification to a field width of three, the value,
/// then `, `.
pub open spec fn spec_dqt_value(i: int, v: u16) -> Seq<u8> {
    (if i % 8 == 0 {
        "\n    ".spec_bytes()
    } else {
        Seq::<u8>::empty()
    }) + (if v < 10 {
        " ".spec_bytes()
    } else {
        Seq::<u8>::empty()
    }) + (if v < 100 {
        " ".spec_bytes()
    } else {
        Seq::<u8>::empty()
    }) + spec_dec(v as nat) + ", ".spec_bytes()
}

/// The verbose dump of a quantization table's values, in rows of eight.
pub open spec fn spec_dqt_values(vs: Seq<u16>) -> Seq<u8>
    decreases vs.len(),
{
    if vs.len() == 0 {
        Seq::<u8>::empty()
    } else {
        spec_dqt_values(vs.drop_last()) + spec_dqt_value(vs.len() - 1, vs.last())
    }
}

/// The record of one quantization table: its summary line, and its values
/// when verbose.
pub open spec fn spec_dqt_table(verbose: bool, t: Dqt) -> Seq<u8> {
    "  ".spec_bytes() + spec_dec(t.dest as nat) + ": Precision ".spec_bytes() + spec_dec(
        t.precision as nat,
    ) + (if verbose {
        spec_dqt_values(t.values@)
    } else {
        Seq::<u8>::empty()
    }) + "\n".spec_bytes()
}

/// The records of a DQT segment's tables, in order.
pub open spec fn spec_dqt_tables(verbose: bool, ts: Seq<Dqt>) -> Seq<u8>
    decreases ts.len(),
{
    if ts.len() == 0 {
        Seq::<u8>::empty()
    } else {
        spec_dqt_tables(verbose, ts.drop_last()) + spec_dqt_table(verbose, ts.last())
    }
}

/// The rendering of a DQT segment.
pub open spec fn spec_dqt(verbose: bool, position: nat, length: nat, ts: Seq<Dqt>) -> Seq<u8> {
    spec_prefix(verbose, position, length) + "DQT:\n".spec_bytes() + spec_dqt_tables(verbose, ts)
}

/// One code length in a verbose Huffman-table dump, comma-separated from its
/// predecessor.
pub open spec fn spec_dht_length(i: int, v: u8) -> Seq<u8> {
    (if i > 0 {
        ", ".spec_bytes()
    } else {
        Seq::<u8>::empty()
    }) + spec_dec(v as nat)
}

/// The comma-separated list of a Huffman table's code lengths.
pub open spec fn spec_dht_lengths(vs: Seq<u8>) -> Seq<u8>
    decreases vs.len(),
{
    if vs.len() == 0 {
        Seq::<u8>::empty()
    } else {
        spec_dht_lengths(vs.drop_last()) + spec_dht_length(vs.len() - 1, vs.last())
    }
}

/// The record of one Huffman table: its summary line, and its code lengths
/// when verbose.
pub open spec fn spec_dht_table(verbose: bool, t: Dht) -> Seq<u8> {
    "  Table ".spec_bytes() + spec_dec(t.dest as nat) + ": Class ".spec_bytes() + spec_dec(
        t.class as nat,
    ) + "\n".spec_bytes() + (if verbose {
        "    Code lengths: ".spec_bytes() + spec_dht_lengths(t.code_lengths@) + "\n".spec_bytes()
    } else {
        Seq::<u8>::empty()
    })
}

/// The records of a DHT segment's tables, in order.
pub open spec fn spec_dht_tables(verbose: bool, ts: Seq<Dht>) -> Seq<u8>
    decreases ts.len(),
{
    if ts.len() == 0 {
        Seq::<u8>::empty()
    } else {
        spec_dht_tables(verbose, ts.drop_last()) + spec_dht_table(verbose, ts.last())
    }
}

/// The rendering of a DHT segment.
pub open spec fn spec_dht(verbose: bool, position: nat, length: nat, ts: Seq<Dht>) -> Seq<u8> {
    spec_prefix(verbose, position, length) + "DHT:\n".spec_bytes() + spec_dht_tables(verbose, ts)
}

/// The line for one arithmetic-conditioning parameter.
pub open spec fn spec_dac_param(p: DacParam) -> Seq<u8> {
    "  Class: ".spec_bytes() + spec_dec(p.class as nat) + "   Dest: ".spec_bytes() + spec_dec(
        p.dest as nat,
    ) + "    Value: ".spec_bytes() + spec_dec(p.value as nat) + "\n".spec_bytes()
}

/// The lines of a DAC segment's parameters, in order.
pub open spec fn spec_dac_params(ps: Seq<DacParam>) -> Seq<u8>
    decreases ps.len(),
{
    if ps.len() == 0 {
        Seq::<u8>::empty()
    } else {
        spec_dac_params(ps.drop_last()) + spec_dac_param(ps.last())
    }
}

/// The rendering of a DAC segment.
pub open spec fn spec_dac(verbose: bool, position: nat, length: nat, ps: Seq<DacParam>) -> Seq<u8> {
    spec_prefix(verbose, position, length) + "DAC:\n".spec_bytes() + spec_dac_params(ps)
}

/// The header line of a frame record, carrying the parser-derived SOF name.
pub open spec fn spec_frame_name_line(name: Seq<char>) -> Seq<u8> {
    "Frame: ".spec_bytes() + encode_utf8(name) + "\n".spec_bytes()
}

/// The precision and dimension lines of a frame record.
pub open spec fn spec_frame_info_lines(precision: u8, dimension_x: u16, dimension_y: u16) -> Seq<
    u8,
> {
    "  Precision: ".spec_bytes() + spec_dec(precision as nat) + "\n".spec_bytes()
        + "  Dimension: ".spec_bytes() + spec_dec(dimension_x as nat) + "x".spec_bytes()
        + spec_dec(dimension_y as nat) + "\n".spec_bytes()
}

/// The line for one frame component: its id, sampling factors and
/// quantization-table id.
pub open spec fn spec_frame_component(c: FrameComponent) -> Seq<u8> {
    "  Component(".spec_bytes() + spec_dec(c.id as nat) + "): Sampling ".spec_bytes() + spec_dec(
        c.horizontal_sampling_factor as nat,
    ) + "x".spec_bytes() + spec_dec(c.vertical_sampling_factor as nat)
        + " Quantization: ".spec_bytes() + spec_dec(c.quantization_table as nat)
        + "\n".spec_bytes()
}

/// The lines of a frame's components, in order.
pub open spec fn spec_frame_components(cs: Seq<FrameComponent>) -> Seq<u8>
    decreases cs.len(),
{
    if cs.len() == 0 {
        Seq::<u8>::empty()
    } else {
        spec_frame_components(cs.drop_last()) + spec_frame_component(cs.last())
    }
}

/// The rendering of a frame header (SOF) segment.
pub open spec fn spec_frame(verbose: bool, position: nat, length: nat, frame: Frame) -> Seq<u8> {
    spec_prefix(verbose, position, length) + spec_frame_name_line(frame.sof_name@)
        + spec_frame_info_lines(frame.precision, frame.dimension_x, frame.dimension_y)
        + spec_frame_components(frame.components@)
}

/// The line for one scan component. Both the DC and the AC column show the
/// component's `dc_table` id; the `ac_table` field is not displayed.
pub open spec fn spec_scan_component(c: ScanComponent) -> Seq<u8> {
    "  Component: ".spec_bytes() + spec_dec(c.id as nat) + " DC:".spec_bytes() + spec_dec(
        c.dc_table as nat,
    ) + " AC:".spec_bytes() + spec_dec(c.dc_table as nat) + "\n".spec_bytes()
}

/// The lines of a scan's components, in order.
pub open spec fn spec_scan_components(cs: Seq<ScanComponent>) -> Seq<u8>
    decreases cs.len(),
{
    if cs.len() == 0 {
        Seq::<u8>::empty()
    } else {
        spec_scan_components(cs.drop_last()) + spec_scan_component(cs.last())
    }
}

/// The spectral-selection line of a scan record.
pub open spec fn spec_scan_selection_line(start: u8, end: u8) -> Seq<u8> {
    "  Selection: ".spec_bytes() + spec_dec(start as nat) + " to ".spec_bytes() + spec_dec(
        end as nat,
    ) + "\n".spec_bytes()
}

/// The successive-approximation line of a scan record.
pub open spec fn spec_scan_approximation_line(low: u8, high: u8) -> Seq<u8> {
    "  Approximation: ".spec_bytes() + spec_dec(low as nat) + " to ".spec_bytes() + spec_dec(
        high as nat,
    ) + "\n".spec_bytes()
}

/// The line reporting the byte count of the opaque scan data.
pub open spec fn spec_scan_data_line(count: nat) -> Seq<u8> {
    "  Data: ".spec_bytes() + spec_dec(count) + " bytes\n".spec_bytes()
}

/// The rendering of a scan header (SOS) segment.
pub open spec fn spec_scan(verbose: bool, position: nat, length: nat, scan: Scan) -> Seq<u8> {
    spec_prefix(verbose, position, length) + "Scan: \n".spec_bytes() + spec_scan_components(
        scan.components@,
    ) + spec_scan_selection_line(scan.selection_start, scan.selection_end)
        + spec_scan_approximation_line(scan.approximation_low, scan.approximation_high)
        + spec_scan_data_line(scan.data@.len())
}

/// Appends the header line of a frame record.
fn push_frame_name_line(out: &mut Vec<u8>, name: &str)
    ensures
        final (out)@ == old(out)@ + spec_frame_name_line(name@),
{
    push_str_bytes(out, "Frame: ");
    push_str_bytes(out, name);
    push_str_bytes(out, "\n");
    proof {
        assert(out@ =~= old(out)@ + spec_frame_name_line(name@));
    }
}

/// Appends the precision and dimension lines of a frame record.
fn push_frame_info_lines(out: &mut Vec<u8>, precision: u8, dimension_x: u16, dimension_y: u16)
    ensures
        final (out)@ == old(out)@ + spec_frame_info_lines(precision, dimension_x, dimension_y),
{
    push_str_bytes(out, "  Precision: ");
    push_dec(out, precision as u64);
    push_str_bytes(out, "\n");
    push_str_bytes(out, "  Dimension: ");
    push_dec(out, dimension_x as u64);
    push_str_bytes(out, "x");
    push_dec(out, dimension_y as u64);
    push_str_bytes(out, "\n");
    proof {
        assert(out@ =~= old(out)@ + spec_frame_info_lines(precision, dimension_x, dimension_y));
    }
}

/// Appends the line for one scan component.
fn push_scan_component(out: &mut Vec<u8>, c: &ScanComponent)
    ensures
        final (out)@ == old(out)@ + spec_scan_component(*c),
{
    push_str_bytes(out, "  Component: ");
    push_dec(out, c.id as u64);
    push_str_bytes(out, " DC:");
    push_dec(out, c.dc_table as u64);
    push_str_bytes(out, " AC:");
    push_dec(out, c.dc_table as u64);
    push_str_bytes(out, "\n");
    proof {
        assert(out@ =~= old(out)@ + spec_scan_component(*c));
    }
}

/// Appends the selection line of a scan record.
fn push_scan_selection_line(out: &mut Vec<u8>, start: u8, end: u8)
    ensures
        final (out)@ == old(out)@ + spec_scan_selection_line(start, end),
{
    push_str_bytes(out, "  Selection: ");
    push_dec(out, start as u64);
    push_str_bytes(out, " to ");
    push_dec(out, end as u64);
    push_str_bytes(out, "\n");
    proof {
        assert(out@ =~= old(out)@ + spec_scan_selection_line(start, end));
    }
}

/// Appends the approximation line of a scan record.
fn push_scan_approximation_line(out: &mut Vec<u8>, low: u8, high: u8)
    ensures
        final (out)@ == old(out)@ + spec_scan_approximation_line(low, high),
{
    push_str_bytes(out, "  Approximation: ");
    push_dec(out, low as u64);
    push_str_bytes(out, " to ");
    push_dec(out, high as u64);
    push_str_bytes(out, "\n");
    proof {
        assert(out@ =~= old(out)@ + spec_scan_approximation_line(low, high));
    }
}

/// Appends the data-count line of a scan record.
fn push_scan_data_line(out: &mut Vec<u8>, count: usize)
    ensures
        final (out)@ == old(out)@ + spec_scan_data_line(count as nat),
{
    push_str_bytes(out, "  Data: ");
    push_dec(out, count as u64);
    push_str_bytes(out, " bytes\n");
    proof {
        assert(out@ =~= old(out)@ + spec_scan_data_line(count as nat));
    }
}

/// Appends the line for one arithmetic-conditioning parameter.
fn push_dac_param(out: &mut Vec<u8>, p: &DacParam)
    ensures
        final (out)@ == old(out)@ + spec_dac_param(*p),
{
    push_str_bytes(out, "  Class: ");
    push_dec(out, p.class as u64);
    push_str_bytes(out, "   Dest: ");
    push_dec(out, p.dest as u64);
    push_str_bytes(out, "    Value: ");
    push_dec(out, p.value as u64);
    push_str_bytes(out, "\n");
    proof {
        assert(out@ =~= old(out)@ + spec_dac_param(*p));
    }
}

/// Appends the line for one frame component.
fn push_frame_component(out: &mut Vec<u8>, c: &FrameComponent)
    ensures
        final (out)@ == old(out)@ + spec_frame_component(*c),
{
    push_str_bytes(out, "  Component(");
    push_dec(out, c.id as u64);
    push_str_bytes(out, "): Sampling ");
    push_dec(out, c.horizontal_sampling_factor as u64);
    push_str_bytes(out, "x");
    push_dec(out, c.vertical_sampling_factor as u64);
    push_str_bytes(out, " Quantization: ");
    push_dec(out, c.quantization_table as u64);
    push_str_bytes(out, "\n");
    proof {
        assert(out@ =~= old(out)@ + spec_frame_component(*c));
    }
}

/// The rendering of one decoded segment, resolved by its kind.
pub open spec fn spec_segment(verbose: bool, s: Segment) -> Seq<u8> {
    match s.kind {
        SegmentKind::Soi => spec_soi(verbose, s.position as nat, s.length as nat),
        SegmentKind::Eoi => spec_eoi(verbose, s.position as nat, s.length as nat),
        SegmentKind::App { nr, data } => spec_app(
            verbose,
            s.position as nat,
            s.length as nat,
            nr,
            data@,
        ),
        SegmentKind::Jfif(jfif) => spec_jfif(verbose, s.position as nat, s.length as nat, jfif),
        SegmentKind::QuantTables(tables) => spec_dqt(
            verbose,
            s.position as nat,
            s.length as nat,
            tables@,
        ),
        SegmentKind::HuffmanTables(tables) => spec_dht(
            verbose,
            s.position as nat,
            s.length as nat,
            tables@,
        ),
        SegmentKind::ArithmeticConditioning(dac) => spec_dac(
            verbose,
            s.position as nat,
            s.length as nat,
            dac.params@,
        ),
        SegmentKind::Frame(frame) => spec_frame(
            verbose,
            s.position as nat,
            s.length as nat,
            frame,
        ),
        SegmentKind::Scan(scan) => spec_scan(verbose, s.position as nat, s.length as nat, scan),
        SegmentKind::RestartInterval(restart) => spec_dri(
            verbose,
            s.position as nat,
            s.length as nat,
            restart,
        ),
        SegmentKind::RestartMarker(rst) => spec_rst(
            verbose,
            s.position as nat,
            s.length as nat,
            rst.nr,
            rst.data@,
        ),
        SegmentKind::Comment(data) => spec_comment(
            verbose,
            s.position as nat,
            s.length as nat,
            data@,
        ),
        SegmentKind::Unknown { marker, data } => spec_unknown(
            verbose,
            s.position as nat,
            s.length as nat,
            marker,
            data@,
        ),
    }
}

/// Appends the record of one quantization table.
#[verifier::rlimit(30)]
fn push_dqt_table(out: &mut Vec<u8>, verbose: bool, table: &Dqt)
    ensures
        final (out)@ == old(out)@ + spec_dqt_table(verbose, *table),
{
    push_str_bytes(out, "  ");
    push_dec(out, table.dest as u64);
    push_str_bytes(out, ": Precision ");
    push_dec(out, table.precision as u64);
    if verbose {
        let ghost vbase = out@;
        let mut j: usize = 0;
        while j < table.values.len()
            invariant
                j <= table.values@.len(),
                out@ == vbase + spec_dqt_values(table.values@.take(j as int)),
            decreases table.values@.len() - j,
        {
            if j % 8 == 0 {
                push_str_bytes(out, "\n    ");
            }
            let v = table.values[j];
            if v < 10 {
                push_str_bytes(out, " ");
            }
            if v < 100 {
                push_str_bytes(out, " ");
            }
            push_dec(out, v as u64);
            push_str_bytes(out, ", ");
            proof {
                assert(table.values@.take(j + 1).drop_last() =~= table.values@.take(j as int));
                assert(out@ =~= vbase + spec_dqt_values(table.values@.take(j + 1)));
            }
            j = j + 1;
        }
        proof {
            assert(table.values@.take(table.values@.len() as int) =~= table.values@);
        }
    }
    push_str_bytes(out, "\n");
    proof {
        assert(out@ =~= old(out)@ + spec_dqt_table(verbose, *table));
    }
}

/// Appends the record of one Huffman table.
#[verifier::rlimit(30)]
fn push_dht_table(out: &mut Vec<u8>, verbose: bool, table: &Dht)
    ensures
        final (out)@ == old(out)@ + spec_dht_table(verbose, *table),
{
    push_str_bytes(out, "  Table ");
    push_dec(out, table.dest as u64);
    push_str_bytes(out, ": Class ");
    push_dec(out, table.class as u64);
    push_str_bytes(out, "\n");
    if verbose {
        push_str_bytes(out, "    Code lengths: ");
        let ghost vbase = out@;
        let mut j: usize = 0;
        while j < table.code_lengths.len()
            invariant
                j <= table.code_lengths@.len(),
                out@ == vbase + spec_dht_lengths(table.code_lengths@.take(j as int)),
            decreases table.code_lengths@.len() - j,
        {
            if j > 0 {
                push_str_bytes(out, ", ");
            }
            push_dec(out, table.code_lengths[j] as u64);
            proof {
                assert(table.code_lengths@.take(j + 1).drop_last() =~= table.code_lengths@.take(
                    j as int,
                ));
                assert(out@ =~= vbase + spec_dht_lengths(table.code_lengths@.take(j + 1)));
            }
            j = j + 1;
        }
        proof {
            assert(table.code_lengths@.take(table.code_lengths@.len() as int)
                =~= table.code_lengths@);
        }
        push_str_bytes(out, "\n");
    }
    proof {
        assert(out@ =~= old(out)@ + spec_dht_table(verbose, *table));
    }
}

/// Appends the version line of a JFIF record.
fn push_jfif_version(out: &mut Vec<u8>, major: u8, minor: u8)
    ensures
        final (out)@ == old(out)@ + spec_jfif_version_line(major, minor),
{
    push_str_bytes(out, "  Version: ");
    push_dec(out, major as u64);
    push_str_bytes(out, ".");
    push_dec2(out, minor as u64);
    push_str_bytes(out, "\n");
    proof {
        assert(out@ =~= old(out)@ + spec_jfif_version_line(major, minor));
    }
}

/// Appends the density line of a JFIF record.
fn push_jfif_density(out: &mut Vec<u8>, x_density: u16, y_density: u16, unit: u8)
    ensures
        final (out)@ == old(out)@ + spec_jfif_density_line(x_density, y_density, unit),
{
    push_str_bytes(out, "  Density: ");
    push_dec(out, x_density as u64);
    push_str_bytes(out, "x");
    push_dec(out, y_density as u64);
    push_str_bytes(out, " ");
    if unit == 0 {
        push_str_bytes(out, "pixel");
    } else if unit == 1 {
        push_str_bytes(out, "dots per inch");
    } else if unit == 2 {
        push_str_bytes(out, "dots per cm");
    } else {
        push_str_bytes(out, "Unknown unit: ");
        push_dec(out, unit as u64);
    }
    push_str_bytes(out, "\n");
    proof {
        assert(out@ =~= old(out)@ + spec_jfif_density_line(x_density, y_density, unit));
    }
}

/// Appends the thumbnail line of a JFIF record.
fn push_jfif_thumbnail(out: &mut Vec<u8>, x_thumbnail: u8, y_thumbnail: u8)
    ensures
        final (out)@ == old(out)@ + spec_jfif_thumbnail_line(x_thumbnail, y_thumbnail),
{
    push_str_bytes(out, "  Thumbnail: ");
    push_dec(out, x_thumbnail as u64);
    push_str_bytes(out, "x");
    push_dec(out, y_thumbnail as u64);
    push_str_bytes(out, "\n");
    proof {
        assert(out@ =~= old(out)@ + spec_jfif_thumbnail_line(x_thumbnail, y_thumbnail));
    }
}

/// Renders every segment kind as plain text appended to a byte buffer.
pub struct TextFormat {
    /// When true, every record starts with the segment's offset/length
    /// prefix, and table contents are dumped in full.
    pub verbose: bool,
}

impl TextFormat {
    /// Creates a renderer with the given verbosity, fixed thereafter.
    pub fn new(verbose: bool) -> (t: TextFormat)
        ensures
            t.verbose == verbose,
    {
        TextFormat { verbose }
    }

    /// Appends the offset/length prefix when this renderer is verbose.
    fn push_prefix(&self, position: usize, length: usize, out: &mut Vec<u8>)
        ensures
            final (out)@ == old(out)@ + spec_prefix(self.verbose, position as nat, length as nat),
    {
        if self.verbose {
            push_str_bytes(out, "0x");
            push_hex(out, position as u64);
            push_str_bytes(out, "/0x");
            push_hex(out, length as u64);
            push_str_bytes(out, ": ");
            proof {
                assert(out@ =~= old(out)@ + spec_prefix(
                    self.verbose,
                    position as nat,
                    length as nat,
                ));
            }
        }
    }

    /// Renders a begin-of-image segment.
    pub fn handle_soi(&self, position: usize, length: usize, out: &mut Vec<u8>)
        ensures
            final (out)@ == old(out)@ + spec_soi(self.verbose, position as nat, length as nat),
    {
        self.push_prefix(position, length, out);
        push_str_bytes(out, "SOI\n");
        proof {
            assert(out@ =~= old(out)@ + spec_soi(self.verbose, position as nat, length as nat));
        }
    }

    /// Renders an end-of-image segment.
    pub fn handle_eoi(&self, position: usize, length: usize, out: &mut Vec<u8>)
        ensures
            final (out)@ == old(out)@ + spec_eoi(self.verbose, position as nat, length as nat),
    {
        self.push_prefix(position, length, out);
        push_str_bytes(out, "EOI\n");
        proof {
            assert(out@ =~= old(out)@ + spec_eoi(self.verbose, position as nat, length as nat));
        }
    }

    /// Renders a restart-interval segment.
    pub fn handle_dri(&self, position: usize, length: usize, restart: u16, out: &mut Vec<u8>)
        ensures
            final (out)@ == old(out)@ + spec_dri(
                self.verbose,
                position as nat,
                length as nat,
                restart,
            ),
    {
        self.push_prefix(position, length, out);
        push_str_bytes(out, "DRI: ");
        push_dec(out, restart as u64);
        push_str_bytes(out, "\n");
        proof {
            assert(out@ =~= old(out)@ + spec_dri(
                self.verbose,
                position as nat,
                length as nat,
                restart,
            ));
        }
    }

    /// Renders a restart marker with the byte count of its opaque data.
    pub fn handle_rst(&self, position: usize, length: usize, restart: &Rst, out: &mut Vec<u8>)
        ensures
            final (out)@ == old(out)@ + spec_rst(
                self.verbose,
                position as nat,
                length as nat,
                restart.nr,
                restart.data@,
            ),
    {
        self.push_prefix(position, length, out);
        push_str_bytes(out, "RST(");
        push_dec(out, restart.nr as u64);
        push_str_bytes(out, "): Data: ");
        push_dec(out, restart.data.len() as u64);
        push_str_bytes(out, " bytes\n");
        proof {
            assert(out@ =~= old(out)@ + spec_rst(
                self.verbose,
                position as nat,
                length as nat,
                restart.nr,
                restart.data@,
            ));
        }
    }

    /// Renders an unknown marker with the byte count of its payload.
    pub fn handle_unknown(
        &self,
        position: usize,
        length: usize,
        marker: u8,
        data: &[u8],
        out: &mut Vec<u8>,
    )
        ensures
            final (out)@ == old(out)@ + spec_unknown(
                self.verbose,
                position as nat,
                length as nat,
                marker,
                data@,
            ),
    {
        self.push_prefix(position, length, out);
        push_str_bytes(out, "Unknown(0x");
        push_hex(out, marker as u64);
        push_str_bytes(out, "): Length ");
        push_dec(out, data.len() as u64);
        push_str_bytes(out, "\n");
        proof {
            assert(out@ =~= old(out)@ + spec_unknown(
                self.verbose,
                position as nat,
                length as nat,
                marker,
                data@,
            ));
        }
    }

    /// Renders a comment segment, as text when the payload is valid UTF-8
    /// and as a diagnostic with its byte length otherwise.
    pub fn handle_comment(&self, position: usize, length: usize, data: &[u8], out: &mut Vec<u8>)
        ensures
            final (out)@ == old(out)@ + spec_comment(
                self.verbose,
                position as nat,
                length as nat,
                data@,
            ),
    {
        self.push_prefix(position, length, out);
        if is_valid_utf8(data) {
            push_str_bytes(out, "Comment: ");
            crate::emit::push_bytes(out, data);
            push_str_bytes(out, "\n");
        } else {
            push_str_bytes(out, "Comment: BAD STRING WITH LENGTH ");
            push_dec(out, data.len() as u64);
            push_str_bytes(out, "\n");
        }
        proof {
            assert(out@ =~= old(out)@ + spec_comment(
                self.verbose,
                position as nat,
                length as nat,
                data@,
            ));
        }
    }

    /// Renders a generic APPn segment: its number and the display tokens of
    /// at most the first twenty payload bytes.
    pub fn handle_app(
        &self,
        position: usize,
        length: usize,
        nr: u8,
        data: &[u8],
        out: &mut Vec<u8>,
    )
        ensures
            final (out)@ == old(out)@ + spec_app(
                self.verbose,
                position as nat,
                length as nat,
                nr,
                data@,
            ),
    {
        self.push_prefix(position, length, out);
        push_str_bytes(out, "App(0x");
        push_hex(out, nr as u64);
        push_str_bytes(out, "):");
        let ghost mid = out@;
        let end: usize = if data.len() <= 20 {
            data.len()
        } else {
            20
        };
        let mut j: usize = 0;
        while j < end
            invariant
                j <= end,
                end <= data@.len(),
                out@ == mid + spec_byte_tokens(data@.take(j as int)),
            decreases end - j,
        {
            push_byte_token(out, data[j]);
            proof {
                assert(data@.take(j + 1).drop_last() =~= data@.take(j as int));
                assert(out@ =~= mid + spec_byte_tokens(data@.take(j + 1)));
            }
            j = j + 1;
        }
        proof {
            if data@.len() <= 20 {
                assert(data@.take(end as int) =~= data@);
            }
            assert(out@ =~= mid + spec_app_dump(data@));
        }
        push_str_bytes(out, "\n");
        proof {
            assert(out@ =~= old(out)@ + spec_app(
                self.verbose,
                position as nat,
                length as nat,
                nr,
                data@,
            ));
        }
    }

    /// Renders an APP0/JFIF segment: header, version, density with its unit
    /// name, and thumbnail dimensions.
    pub fn handle_app0_jfif(
        &self,
        position: usize,
        length: usize,
        jfif: &App0Jfif,
        out: &mut Vec<u8>,
    )
        ensures
            final (out)@ == old(out)@ + spec_jfif(
                self.verbose,
                position as nat,
                length as nat,
                *jfif,
            ),
    {
        self.push_prefix(position, length, out);
        push_str_bytes(out, "App(0x0): JFIF\n");
        push_jfif_version(out, jfif.major, jfif.minor);
        push_jfif_density(out, jfif.x_density, jfif.y_density, jfif.unit);
        push_jfif_thumbnail(out, jfif.x_thumbnail, jfif.y_thumbnail);
        proof {
            assert(out@ =~= old(out)@ + spec_jfif(
                self.verbose,
                position as nat,
                length as nat,
                *jfif,
            ));
        }
    }

    /// Renders a DQT segment: one summary line per table, and each table's
    /// values in rows of eight when verbose.
    pub fn handle_dqt(&self, position: usize, length: usize, tables: &[Dqt], out: &mut Vec<u8>)
        ensures
            final (out)@ == old(out)@ + spec_dqt(
                self.verbose,
                position as nat,
                length as nat,
                tables@,
            ),
    {
        self.push_prefix(position, length, out);
        push_str_bytes(out, "DQT:\n");
        let ghost head = out@;
        let mut t: usize = 0;
        while t < tables.len()
            invariant
                t <= tables@.len(),
                out@ == head + spec_dqt_tables(self.verbose, tables@.take(t as int)),
            decreases tables@.len() - t,
        {
            push_dqt_table(out, self.verbose, &tables[t]);
            proof {
                assert(tables@.take(t + 1).drop_last() =~= tables@.take(t as int));
                assert(out@ =~= head + spec_dqt_tables(self.verbose, tables@.take(t + 1)));
            }
            t = t + 1;
        }
        proof {
            assert(tables@.take(tables@.len() as int) =~= tables@);
            assert(out@ =~= old(out)@ + spec_dqt(
                self.verbose,
                position as nat,
                length as nat,
                tables@,
            ));
        }
    }

    /// Renders a DHT segment: one summary line per table, and each table's
    /// code lengths when verbose.
    pub fn handle_dht(&self, position: usize, length: usize, tables: &[Dht], out: &mut Vec<u8>)
        ensures
            final (out)@ == old(out)@ + spec_dht(
                self.verbose,
                position as nat,
                length as nat,
                tables@,
            ),
    {
        self.push_prefix(position, length, out);
        push_str_bytes(out, "DHT:\n");
        let ghost head = out@;
        let mut t: usize = 0;
        while t < tables.len()
            invariant
                t <= tables@.len(),
                out@ == head + spec_dht_tables(self.verbose, tables@.take(t as int)),
            decreases tables@.len() - t,
        {
            push_dht_table(out, self.verbose, &tables[t]);
            proof {
                assert(tables@.take(t + 1).drop_last() =~= tables@.take(t as int));
                assert(out@ =~= head + spec_dht_tables(self.verbose, tables@.take(t + 1)));
            }
            t = t + 1;
        }
        proof {
            assert(tables@.take(tables@.len() as int) =~= tables@);
            assert(out@ =~= old(out)@ + spec_dht(
                self.verbose,
                position as nat,
                length as nat,
                tables@,
            ));
        }
    }

    /// Renders a DAC segment: one line per conditioning parameter.
    pub fn handle_dac(&self, position: usize, length: usize, dac: &Dac, out: &mut Vec<u8>)
        ensures
            final (out)@ == old(out)@ + spec_dac(
                self.verbose,
                position as nat,
                length as nat,
                dac.params@,
            ),
    {
        self.push_prefix(position, length, out);
        push_str_bytes(out, "DAC:\n");
        let ghost head = out@;
        let mut p: usize = 0;
        while p < dac.params.len()
            invariant
                p <= dac.params@.len(),
                out@ == head + spec_dac_params(dac.params@.take(p as int)),
            decreases dac.params@.len() - p,
        {
            push_dac_param(out, &dac.params[p]);
            proof {
                assert(dac.params@.take(p + 1).drop_last() =~= dac.params@.take(p as int));
                assert(out@ =~= head + spec_dac_params(dac.params@.take(p + 1)));
            }
            p = p + 1;
        }
        proof {
            assert(dac.params@.take(dac.params@.len() as int) =~= dac.params@);
            assert(out@ =~= old(out)@ + spec_dac(
                self.verbose,
                position as nat,
                length as nat,
                dac.params@,
            ));
        }
    }

    /// Renders a frame header: the SOF name, precision and dimensions, and
    /// one line per component.
    pub fn handle_frame(&self, position: usize, length: usize, frame: &Frame, out: &mut Vec<u8>)
        ensures
            final (out)@ == old(out)@ + spec_frame(
                self.verbose,
                position as nat,
                length as nat,
                *frame,
            ),
    {
        self.push_prefix(position, length, out);
        push_frame_name_line(out, frame.sof_name.as_str());
        push_frame_info_lines(out, frame.precision, frame.dimension_x, frame.dimension_y);
        let ghost head = out@;
        let mut c: usize = 0;
        while c < frame.components.len()
            invariant
                c <= frame.components@.len(),
                out@ == head + spec_frame_components(frame.components@.take(c as int)),
            decreases frame.components@.len() - c,
        {
            push_frame_component(out, &frame.components[c]);
            proof {
                assert(frame.components@.take(c + 1).drop_last() =~= frame.components@.take(
                    c as int,
                ));
                assert(out@ =~= head + spec_frame_components(frame.components@.take(c + 1)));
            }
            c = c + 1;
        }
        proof {
            assert(frame.components@.take(frame.components@.len() as int)
                =~= frame.components@);
            assert(out@ =~= old(out)@ + spec_frame(
                self.verbose,
                position as nat,
                length as nat,
                *frame,
            ));
        }
    }

    /// Renders a scan header: one line per component, the selection and
    /// approximation ranges, and the byte count of the scan data.
    pub fn handle_scan(&self, position: usize, length: usize, scan: &Scan, out: &mut Vec<u8>)
        ensures
            final (out)@ == old(out)@ + spec_scan(
                self.verbose,
                position as nat,
                length as nat,
                *scan,
            ),
    {
        self.push_prefix(position, length, out);
        push_str_bytes(out, "Scan: \n");
        let ghost head = out@;
        let mut c: usize = 0;
        while c < scan.components.len()
            invariant
                c <= scan.components@.len(),
                out@ == head + spec_scan_components(scan.components@.take(c as int)),
            decreases scan.components@.len() - c,
        {
            push_scan_component(out, &scan.components[c]);
            proof {
                assert(scan.components@.take(c + 1).drop_last() =~= scan.components@.take(
                    c as int,
                ));
                assert(out@ =~= head + spec_scan_components(scan.components@.take(c + 1)));
            }
            c = c + 1;
        }
        proof {
            assert(scan.components@.take(scan.components@.len() as int) =~= scan.components@);
        }
        push_scan_selection_line(out, scan.selection_start, scan.selection_end);
        push_scan_approximation_line(out, scan.approximation_low, scan.approximation_high);
        push_scan_data_line(out, scan.data.len());
        proof {
            assert(out@ =~= old(out)@ + spec_scan(
                self.verbose,
                position as nat,
                length as nat,
                *scan,
            ));
        }
    }

    /// Renders one decoded segment, dispatching exhaustively on its kind.
    pub fn handle_segment(&self, seg: &Segment, out: &mut Vec<u8>)
        ensures
            final (out)@ == old(out)@ + spec_segment(self.verbose, *seg),
    {
        match &seg.kind {
            SegmentKind::Soi => self.handle_soi(seg.position, seg.length, out),
            SegmentKind::Eoi => self.handle_eoi(seg.position, seg.length, out),
            SegmentKind::App { nr, data } => self.handle_app(
                seg.position,
                seg.length,
                *nr,
                data.as_slice(),
                out,
            ),
            SegmentKind::Jfif(jfif) => self.handle_app0_jfif(seg.position, seg.length, jfif, out),
            SegmentKind::QuantTables(tables) => self.handle_dqt(
                seg.position,
                seg.length,
                tables.as_slice(),
                out,
            ),
            SegmentKind::HuffmanTables(tables) => self.handle_dht(
                seg.position,
                seg.length,
                tables.as_slice(),
                out,
            ),
            SegmentKind::ArithmeticConditioning(dac) => self.handle_dac(
                seg.position,
                seg.length,
                dac,
                out,
            ),
            SegmentKind::Frame(frame) => self.handle_frame(seg.position, seg.length, frame, out),
            SegmentKind::Scan(scan) => self.handle_scan(seg.position, seg.length, scan, out),
            SegmentKind::RestartInterval(restart) => self.handle_dri(
                seg.position,
                seg.length,
                *restart,
                out,
            ),
            SegmentKind::RestartMarker(rst) => self.handle_rst(seg.position, seg.length, rst, out),
            SegmentKind::Comment(data) => self.handle_comment(
                seg.position,
                seg.length,
                data.as_slice(),
                out,
            ),
            SegmentKind::Unknown { marker, data } => self.handle_unknown(
                seg.position,
                seg.length,
                *marker,
                data.as_slice(),
                out,
            ),
        }
    }
}

/// Law: the offset/length prefix is present in a record exactly when the
/// renderer is verbose — it is the fixed form `0x<pos>/0x<len>: ` when
/// verbose and empty otherwise, for every segment kind, since every
/// rendering spec above starts with `spec_prefix`.
pub proof fn lemma_prefix_iff_verbose(verbose: bool, position: nat, length: nat)
    ensures
        spec_prefix(false, position, length) == Seq::<u8>::empty(),
        spec_prefix(true, position, length) == "0x".spec_bytes() + spec_hex(position)
            + "/0x".spec_bytes() + spec_hex(length) + ": ".spec_bytes(),
        spec_prefix(verbose, position, length).len() > 0 <==> verbose,
{
    if verbose {
        reveal_strlit("0x");
        assert(is_ascii_chars("0x"@));
        is_ascii_chars_encode_utf8("0x"@);
    }
}

/// Law: the density-unit mapping is total and exhaustive — `pixel` exactly
/// for 0, `dots per inch` exactly for 1, `dots per cm` exactly for 2, and
/// `Unknown unit: <value>` for every other value.
pub proof fn lemma_unit_name_total(v: u8)
    ensures
        spec_unit_name(v) == "pixel".spec_bytes() <==> v == 0,
        spec_unit_name(v) == "dots per inch".spec_bytes() <==> v == 1,
        spec_unit_name(v) == "dots per cm".spec_bytes() <==> v == 2,
        v >= 3 ==> spec_unit_name(v) == "Unknown unit: ".spec_bytes() + spec_dec(v as nat),
{
    reveal_strlit("pixel");
    reveal_strlit("dots per inch");
    reveal_strlit("dots per cm");
    reveal_strlit("Unknown unit: ");
    assert(is_ascii_chars("pixel"@));
    assert(is_ascii_chars("dots per inch"@));
    assert(is_ascii_chars("dots per cm"@));
    assert(is_ascii_chars("Unknown unit: "@));
    is_ascii_chars_encode_utf8("pixel"@);
    is_ascii_chars_encode_utf8("dots per inch"@);
    is_ascii_chars_encode_utf8("dots per cm"@);
    is_ascii_chars_encode_utf8("Unknown unit: "@);
    crate::emit::lemma_dec_len(v as nat);
}

/// The display tokens of a byte sequence take at least one and at most six
/// output bytes per payload byte.
pub proof fn lemma_byte_tokens_len(data: Seq<u8>)
    ensures
        data.len() <= spec_byte_tokens(data).len() <= 6 * data.len(),
    decreases data.len(),
{
    if data.len() > 0 {
        lemma_byte_tokens_len(data.drop_last());
        crate::emit::lemma_byte_token_shape(data.last());
    }
}

/// Law: an app dump renders one token per payload byte up to the twentieth
/// and is unaffected by every byte past the twentieth; nothing marks the
/// truncation, and the dump never exceeds twenty tokens' worth of output.
pub proof fn lemma_app_dump_truncation(data: Seq<u8>)
    ensures
        data.len() <= 20 ==> spec_app_dump(data) == spec_byte_tokens(data),
        data.len() > 20 ==> spec_app_dump(data) == spec_byte_tokens(data.take(20)),
        spec_app_dump(data) == spec_app_dump(
            if data.len() <= 20 {
                data
            } else {
                data.take(20)
            },
        ),
        spec_app_dump(data).len() <= 120,
{
    if data.len() > 20 {
        assert(data.take(20).take(20) =~= data.take(20));
        lemma_byte_tokens_len(data.take(20));
    } else {
        lemma_byte_tokens_len(data);
    }
}

/// Law: the prefix rule is uniform across every segment kind — whatever the
/// kind, the rendering starts with `spec_prefix(verbose, position, length)`,
/// and that prefix is non-empty exactly when the renderer is verbose.
pub proof fn lemma_segment_prefix_uniform(verbose: bool, s: Segment)
    ensures
        spec_segment(verbose, s).take(
            spec_prefix(verbose, s.position as nat, s.length as nat).len() as int,
        ) == spec_prefix(verbose, s.position as nat, s.length as nat),
        spec_prefix(verbose, s.position as nat, s.length as nat).len() > 0 <==> verbose,
{
    lemma_prefix_iff_verbose(verbose, s.position as nat, s.length as nat);
    let p = spec_prefix(verbose, s.position as nat, s.length as nat);
    match s.kind {
        SegmentKind::Soi => {
            assert(spec_segment(verbose, s).take(p.len() as int) =~= p);
        },
        SegmentKind::Eoi => {
            assert(spec_segment(verbose, s).take(p.len() as int) =~= p);
        },
        SegmentKind::App { .. } => {
            assert(spec_segment(verbose, s).take(p.len() as int) =~= p);
        },
        SegmentKind::Jfif(..) => {
            assert(spec_segment(verbose, s).take(p.len() as int) =~= p);
        },
        SegmentKind::QuantTables(..) => {
            assert(spec_segment(verbose, s).take(p.len() as int) =~= p);
        },
        SegmentKind::HuffmanTables(..) => {
            assert(spec_segment(verbose, s).take(p.len() as int) =~= p);
        },
        SegmentKind::ArithmeticConditioning(..) => {
            assert(spec_segment(verbose, s).take(p.len() as int) =~= p);
        },
        SegmentKind::Frame(..) => {
            assert(spec_segment(verbose, s).take(p.len() as int) =~= p);
        },
        SegmentKind::Scan(..) => {
            assert(spec_segment(verbose, s).take(p.len() as int) =~= p);
        },
        SegmentKind::RestartInterval(..) => {
            assert(spec_segment(verbose, s).take(p.len() as int) =~= p);
        },
        SegmentKind::RestartMarker(..) => {
            assert(spec_segment(verbose, s).take(p.len() as int) =~= p);
        },
        SegmentKind::Comment(..) => {
            assert(spec_segment(verbose, s).take(p.len() as int) =~= p);
        },
        SegmentKind::Unknown { .. } => {
            assert(spec_segment(verbose, s).take(p.len() as int) =~= p);
        },
    }
}

/// Law: a comment payload that is valid text round-trips verbatim after the
/// `Comment: ` prefix, and an invalid payload is reported with exactly its
/// byte length.
pub proof fn lemma_comment_roundtrip(data: Seq<u8>)
    ensures
        valid_utf8(data) ==> spec_comment_body(data) == "Comment: ".spec_bytes() + data
            + "\n".spec_bytes(),
        valid_utf8(data) ==> spec_comment_body(data).subrange(
            9,
            spec_comment_body(data).len() - 1,
        ) == data,
        !valid_utf8(data) ==> spec_comment_body(data)
            == "Comment: BAD STRING WITH LENGTH ".spec_bytes() + spec_dec(data.len())
            + "\n".spec_bytes(),
{
    if valid_utf8(data) {
        reveal_strlit("Comment: ");
        reveal_strlit("\n");
        assert(is_ascii_chars("Comment: "@));
        assert(is_ascii_chars("\n"@));
        is_ascii_chars_encode_utf8("Comment: "@);
        is_ascii_chars_encode_utf8("\n"@);
        assert(spec_comment_body(data).subrange(9, spec_comment_body(data).len() - 1) =~= data);
    }
}

} // verus!
