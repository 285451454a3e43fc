//! The segment data model: read-only snapshots of one decoded JPEG/JFIF
//! segment each, built by an external parser and passed by reference into
//! exactly one renderer call.
//!
//! Only the fields the renderer reads are held here; image sample data and
//! raw application payloads stay opaque byte sequences whose length alone is
//! reported.

use vstd::prelude::*;

verus! {

/// The payload of an APP0/JFIF segment: version, pixel density and thumbnail
/// dimensions.
pub struct App0Jfif {
    pub major: u8,
    pub minor: u8,
    /// Density unit: 0 for none (pixel aspect ratio), 1 for dots per inch,
    /// 2 for dots per cm; anything else is rendered as unknown.
    pub unit: u8,
    pub x_density: u16,
    pub y_density: u16,
    pub x_thumbnail: u8,
    pub y_thumbnail: u8,
}

/// One quantization table from a DQT segment.
pub struct Dqt {
    pub dest: u8,
    pub precision: u8,
    pub values: Vec<u16>,
}

/// One Huffman table from a DHT segment.
pub struct Dht {
    pub dest: u8,
    pub class: u8,
    pub code_lengths: Vec<u8>,
}

/// One conditioning parameter from a DAC segment.
pub struct DacParam {
    pub class: u8,
    pub dest: u8,
    pub value: u8,
}

/// The payload of an arithmetic-coding conditioning (DAC) segment.
pub struct Dac {
    pub params: Vec<DacParam>,
}

/// One component declaration from a frame header.
pub struct FrameComponent {
    pub id: u8,
    pub horizontal_sampling_factor: u8,
    pub vertical_sampling_factor: u8,
    pub quantization_table: u8,
}

/// The payload of a frame header (SOF) segment. `sof_name` is the name the
/// parser derives for the SOF variant it saw.
pub struct Frame {
    pub sof_name: String,
    pub precision: u8,
    pub dimension_x: u16,
    pub dimension_y: u16,
    pub components: Vec<FrameComponent>,
}

/// One component selector from a scan header.
pub struct ScanComponent {
    pub id: u8,
    pub dc_table: u8,
    pub ac_table: u8,
}

/// The payload of a scan header (SOS) segment, with the entropy-coded scan
/// data kept opaque.
pub struct Scan {
    pub components: Vec<ScanComponent>,
    pub selection_start: u8,
    pub selection_end: u8,
    pub approximation_low: u8,
    pub approximation_high: u8,
    pub data: Vec<u8>,
}

/// The payload of a restart marker, with its opaque data.
pub struct Rst {
    pub nr: u8,
    pub data: Vec<u8>,
}

/// The payload of one decoded segment, as a closed set of variants: adding
/// a segment kind forces every exhaustive match over it to be revisited.
pub enum SegmentKind {
    Soi,
    Eoi,
    App { nr: u8, data: Vec<u8> },
    Jfif(App0Jfif),
    QuantTables(Vec<Dqt>),
    HuffmanTables(Vec<Dht>),
    ArithmeticConditioning(Dac),
    Frame(Frame),
    Scan(Scan),
    RestartInterval(u16),
    RestartMarker(Rst),
    Comment(Vec<u8>),
    Unknown { marker: u8, data: Vec<u8> },
}

/// One decoded segment: the common framing every segment carries, and its
/// kind-specific payload.
pub struct Segment {
    /// Byte offset of the segment's marker in the container.
    pub position: usize,
    /// The segment's encoded length field; a parser-assigned nominal value
    /// for markerless segments.
    pub length: usize,
    pub kind: SegmentKind,
}

} // verus!
