//! Property-flavored checks on concrete values: the byte-token mapping, the
//! comment round trip, the twenty-token cap, the unit mapping, and the
//! prefix rule across every segment kind.

use jfifdump::segment::{App0Jfif, Dac, DacParam, Dht, Dqt, Frame, FrameComponent, Rst, Scan,
                        ScanComponent, Segment, SegmentKind};
use jfifdump::text::TextFormat;

fn rendered(out: Vec<u8>) -> String {
    String::from_utf8(out).expect("rendered text should be UTF-8")
}

/// Renders one byte through an app dump and returns its token text.
fn byte_token(v: u8) -> String {
    let f = TextFormat::new(false);
    let mut out: Vec<u8> = Vec::new();
    f.handle_app(0, 0, 0, &[v], &mut out);
    let s = rendered(out);
    let body = s.strip_prefix("App(0x0):").expect("app header");
    body.strip_suffix('\n').expect("newline").to_string()
}

#[test]
fn byte_tokens_for_every_byte_value() {
    for b in 0u8..=255 {
        let tok = byte_token(b);
        if (0x20..=0x7E).contains(&b) {
            assert_eq!(tok.len(), 1);
            assert_eq!(tok.as_bytes()[0], b);
        } else {
            assert_eq!(tok.len(), 6, "byte {b:#04X} gave {tok:?}");
            assert_eq!(&tok[..4], "\\x0x");
            let expected = format!("{:02X}", b);
            assert_eq!(&tok[4..], expected);
        }
        // The mapping depends on the byte alone: a second rendering agrees.
        assert_eq!(tok, byte_token(b));
    }
}

#[test]
fn app_dump_renders_at_most_twenty_tokens() {
    let f = TextFormat::new(false);
    for (len, expect_tokens) in [(19usize, 19usize), (20, 20), (25, 20)] {
        let payload = vec![b'A'; len];
        let mut out: Vec<u8> = Vec::new();
        f.handle_app(0, 0, 2, &payload, &mut out);
        let s = rendered(out);
        let body = s.strip_prefix("App(0x2):").unwrap().strip_suffix('\n').unwrap();
        assert_eq!(body.len(), expect_tokens);
        assert!(body.bytes().all(|b| b == b'A'));
    }
}

#[test]
fn app_dump_ignores_bytes_past_the_twentieth() {
    let f = TextFormat::new(false);
    let mut short = vec![b'x'; 20];
    let mut long = vec![b'x'; 20];
    long.extend_from_slice(&[0x00, 0xFF, b'y']);
    let mut out_short: Vec<u8> = Vec::new();
    let mut out_long: Vec<u8> = Vec::new();
    f.handle_app(0, 0, 3, &short, &mut out_short);
    f.handle_app(0, 0, 3, &long, &mut out_long);
    assert_eq!(out_short, out_long);
    short.pop();
    assert_eq!(short.len(), 19);
    let mut out_19: Vec<u8> = Vec::new();
    f.handle_app(0, 0, 3, &short, &mut out_19);
    assert_ne!(out_19, out_long);
}

#[test]
fn comment_round_trips_valid_payloads() {
    let f = TextFormat::new(false);
    for text in ["", "a", "hello world", "caf\u{e9} \u{2603} \u{1F600}"] {
        let mut out: Vec<u8> = Vec::new();
        f.handle_comment(0, 0, text.as_bytes(), &mut out);
        assert_eq!(rendered(out), format!("Comment: {text}\n"));
    }
}

#[test]
fn comment_reports_exact_length_of_invalid_payloads() {
    let f = TextFormat::new(false);
    let bad: [&[u8]; 4] = [
        &[0x80],                    // lone continuation byte
        &[0xC0, 0xAF],              // overlong two-byte form
        &[0xED, 0xA0, 0x80],        // surrogate range
        &[b'o', b'k', 0xF5, 0x80],  // leading byte past U+10FFFF
    ];
    for data in bad {
        let mut out: Vec<u8> = Vec::new();
        f.handle_comment(0, 0, data, &mut out);
        assert_eq!(
            rendered(out),
            format!("Comment: BAD STRING WITH LENGTH {}\n", data.len())
        );
    }
}

#[test]
fn comment_accepts_boundary_utf8_sequences() {
    let f = TextFormat::new(false);
    // Smallest and largest scalar of each encoded width.
    let good: [&[u8]; 6] = [
        &[0x7F],
        &[0xC2, 0x80],
        &[0xDF, 0xBF],
        &[0xE0, 0xA0, 0x80],
        &[0xED, 0x9F, 0xBF],
        &[0xF4, 0x8F, 0xBF, 0xBF],
    ];
    for data in good {
        let mut out: Vec<u8> = Vec::new();
        f.handle_comment(0, 0, data, &mut out);
        let s = rendered(out);
        assert!(s.starts_with("Comment: "), "{data:?} gave {s:?}");
        assert!(!s.contains("BAD STRING"), "{data:?} gave {s:?}");
    }
}

#[test]
fn unit_names_are_total_over_unit_values() {
    let f = TextFormat::new(false);
    for unit in 0u8..=255 {
        let jfif = App0Jfif {
            major: 1,
            minor: 0,
            unit,
            x_density: 1,
            y_density: 1,
            x_thumbnail: 0,
            y_thumbnail: 0,
        };
        let mut out: Vec<u8> = Vec::new();
        f.handle_app0_jfif(0, 0, &jfif, &mut out);
        let s = rendered(out);
        let expected = match unit {
            0 => String::from("pixel"),
            1 => String::from("dots per inch"),
            2 => String::from("dots per cm"),
            v => format!("Unknown unit: {v}"),
        };
        assert!(
            s.contains(&format!("  Density: 1x1 {expected}\n")),
            "unit {unit} gave {s:?}"
        );
    }
}

/// Renders one segment of each kind and returns the outputs.
fn render_all_kinds(verbose: bool, position: usize, length: usize) -> Vec<Vec<u8>> {
    let f = TextFormat::new(verbose);
    let jfif = App0Jfif {
        major: 1,
        minor: 1,
        unit: 0,
        x_density: 1,
        y_density: 1,
        x_thumbnail: 0,
        y_thumbnail: 0,
    };
    let dqt = [Dqt { dest: 0, precision: 0, values: vec![1] }];
    let dht = [Dht { dest: 0, class: 0, code_lengths: vec![1] }];
    let dac = Dac { params: vec![DacParam { class: 0, dest: 0, value: 0 }] };
    let frame = Frame {
        sof_name: String::from("Progressive DCT"),
        precision: 8,
        dimension_x: 1,
        dimension_y: 1,
        components: vec![FrameComponent {
            id: 1,
            horizontal_sampling_factor: 1,
            vertical_sampling_factor: 1,
            quantization_table: 0,
        }],
    };
    let scan = Scan {
        components: vec![ScanComponent { id: 1, dc_table: 0, ac_table: 0 }],
        selection_start: 0,
        selection_end: 0,
        approximation_low: 0,
        approximation_high: 0,
        data: vec![],
    };
    let rst = Rst { nr: 0, data: vec![] };
    let mut outs: Vec<Vec<u8>> = Vec::new();
    let mut out: Vec<u8> = Vec::new();
    f.handle_soi(position, length, &mut out);
    outs.push(out);
    let mut out: Vec<u8> = Vec::new();
    f.handle_eoi(position, length, &mut out);
    outs.push(out);
    let mut out: Vec<u8> = Vec::new();
    f.handle_app(position, length, 5, &[b'a'], &mut out);
    outs.push(out);
    let mut out: Vec<u8> = Vec::new();
    f.handle_app0_jfif(position, length, &jfif, &mut out);
    outs.push(out);
    let mut out: Vec<u8> = Vec::new();
    f.handle_dqt(position, length, &dqt, &mut out);
    outs.push(out);
    let mut out: Vec<u8> = Vec::new();
    f.handle_dht(position, length, &dht, &mut out);
    outs.push(out);
    let mut out: Vec<u8> = Vec::new();
    f.handle_dac(position, length, &dac, &mut out);
    outs.push(out);
    let mut out: Vec<u8> = Vec::new();
    f.handle_frame(position, length, &frame, &mut out);
    outs.push(out);
    let mut out: Vec<u8> = Vec::new();
    f.handle_scan(position, length, &scan, &mut out);
    outs.push(out);
    let mut out: Vec<u8> = Vec::new();
    f.handle_dri(position, length, 1, &mut out);
    outs.push(out);
    let mut out: Vec<u8> = Vec::new();
    f.handle_rst(position, length, &rst, &mut out);
    outs.push(out);
    let mut out: Vec<u8> = Vec::new();
    f.handle_comment(position, length, b"c", &mut out);
    outs.push(out);
    let mut out: Vec<u8> = Vec::new();
    f.handle_unknown(position, length, 0xE9, &[], &mut out);
    outs.push(out);
    outs
}

#[test]
fn prefix_present_iff_verbose_for_every_kind() {
    let position = 0x1F4;
    let length = 0x2E;
    let prefix = "0x1F4/0x2E: ";
    let with = render_all_kinds(true, position, length);
    let without = render_all_kinds(false, position, length);
    assert_eq!(with.len(), 13);
    assert_eq!(without.len(), 13);
    for (kind, (v, p)) in with.iter().zip(without.iter()).enumerate() {
        let v = String::from_utf8(v.clone()).unwrap();
        let p = String::from_utf8(p.clone()).unwrap();
        assert!(v.starts_with(prefix), "verbose output {v:?} lacks prefix");
        assert!(!p.contains(prefix), "plain output {p:?} holds prefix");
        // Beyond the prefix, verbosity only adds the table dumps of the DQT
        // and DHT records (kinds 4 and 5 here); every other record is the
        // plain one behind the prefix.
        if kind != 4 && kind != 5 {
            assert_eq!(v.strip_prefix(prefix).unwrap(), p);
        }
    }
}

#[test]
fn segment_dispatch_matches_direct_calls() {
    let f = TextFormat::new(true);
    let cases = vec![
        (SegmentKind::Soi, "0x8/0x2: SOI\n".to_string()),
        (SegmentKind::RestartInterval(7), "0x8/0x2: DRI: 7\n".to_string()),
        (
            SegmentKind::App { nr: 4, data: vec![b'h', b'i'] },
            "0x8/0x2: App(0x4):hi\n".to_string(),
        ),
        (
            SegmentKind::Comment(vec![0xFF]),
            "0x8/0x2: Comment: BAD STRING WITH LENGTH 1\n".to_string(),
        ),
        (
            SegmentKind::Unknown { marker: 0xE7, data: vec![0, 0, 0] },
            "0x8/0x2: Unknown(0xE7): Length 3\n".to_string(),
        ),
    ];
    for (kind, expected) in cases {
        let seg = Segment { position: 8, length: 2, kind };
        let mut out: Vec<u8> = Vec::new();
        f.handle_segment(&seg, &mut out);
        assert_eq!(rendered(out), expected);
    }
}

#[test]
fn version_minor_is_zero_padded_to_two_digits() {
    let f = TextFormat::new(false);
    for (minor, shown) in [(0u8, "00"), (2, "02"), (10, "10"), (255, "255")] {
        let jfif = App0Jfif {
            major: 250,
            minor,
            unit: 0,
            x_density: 1,
            y_density: 1,
            x_thumbnail: 0,
            y_thumbnail: 0,
        };
        let mut out: Vec<u8> = Vec::new();
        f.handle_app0_jfif(0, 0, &jfif, &mut out);
        assert!(rendered(out).contains(&format!("  Version: 250.{shown}\n")));
    }
}

#[test]
fn hexadecimal_prefix_uses_uppercase_without_padding() {
    let f = TextFormat::new(true);
    let mut out: Vec<u8> = Vec::new();
    f.handle_soi(0xDEADBEEF, 0x0, &mut out);
    assert_eq!(rendered(out), "0xDEADBEEF/0x0: SOI\n");
}
