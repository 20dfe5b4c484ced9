use tab_core::chunk::{to_string, utf8_text, InputChunk, OutputChunk};

fn chunk(index: u64, data: &[u8]) -> OutputChunk {
    OutputChunk {
        index,
        data: data.to_vec(),
    }
}

#[test]
fn output_chunk_bounds() {
    let chunk = chunk(10, &[1, 2, 3]);
    assert_eq!(chunk.len(), 3);
    assert_eq!(chunk.start(), 10);
    assert_eq!(chunk.end(), 13);
    assert!(chunk.contains(10));
    assert!(chunk.contains(12));
    assert!(!chunk.contains(13));
    assert!(!chunk.contains(9));
    assert!(chunk.is_before(13));
    assert!(chunk.is_before(14));
    assert!(!chunk.is_before(12));
}

#[test]
fn empty_chunk_contains_nothing() {
    let chunk = chunk(4, &[]);
    assert_eq!(chunk.len(), 0);
    assert_eq!(chunk.start(), 4);
    assert_eq!(chunk.end(), 4);
    assert!(!chunk.contains(4));
    assert!(chunk.is_before(4));
    assert!(!chunk.is_before(3));
}

#[test]
fn end_saturates() {
    let chunk = chunk(u64::MAX - 1, &[1, 2, 3]);
    assert_eq!(chunk.end(), u64::MAX);
    assert!(chunk.contains(u64::MAX - 1));
    assert!(!chunk.contains(u64::MAX));
}

#[test]
fn truncate_before_start_is_a_no_op() {
    let mut c = chunk(10, &[1, 2, 3]);
    c.truncate_before(10);
    assert_eq!(c, chunk(10, &[1, 2, 3]));
    c.truncate_before(0);
    assert_eq!(c, chunk(10, &[1, 2, 3]));
}

#[test]
fn truncate_inside_keeps_the_suffix() {
    let mut c = chunk(10, &[1, 2, 3]);
    c.truncate_before(11);
    assert_eq!(c, chunk(11, &[2, 3]));
    assert_eq!(c.start(), 11);
    assert_eq!(c.end(), 13);
    c.truncate_before(12);
    assert_eq!(c, chunk(12, &[3]));
    assert_eq!(c.end(), 13);
}

#[test]
fn truncate_at_or_after_end_empties() {
    let mut c = chunk(10, &[1, 2, 3]);
    c.truncate_before(13);
    assert_eq!(c, chunk(10, &[]));
    let mut d = chunk(10, &[1, 2, 3]);
    d.truncate_before(500);
    assert_eq!(d.len(), 0);
    assert_eq!(d.start(), 10);
}

#[test]
fn truncate_law_on_a_grid() {
    for start in 0u64..4 {
        for len in 0usize..4 {
            for k in 0u64..9 {
                let data: Vec<u8> = (0..len as u8).collect();
                let before = chunk(start, &data);
                let mut after = chunk(start, &data);
                after.truncate_before(k);
                if k >= before.end() {
                    assert_eq!(after.len(), 0);
                } else {
                    assert_eq!(after.start(), start.max(k.min(before.end())));
                    assert_eq!(after.end(), before.end());
                    let cut = (after.start() - start) as usize;
                    assert_eq!(after.data, data[cut..].to_vec());
                }
            }
        }
    }
}

#[test]
fn truncate_in_a_saturated_chunk() {
    let mut c = chunk(u64::MAX - 1, &[1, 2, 3]);
    c.truncate_before(u64::MAX);
    assert_eq!(c, chunk(u64::MAX - 1, &[]));
    let mut d = chunk(u64::MAX, &[1, 2]);
    d.truncate_before(u64::MAX);
    assert_eq!(d, chunk(u64::MAX, &[1, 2]));
}

#[test]
fn clone_is_equal() {
    let c = chunk(3, &[9, 8, 7]);
    assert_eq!(c.clone(), c);
    let input = InputChunk { data: vec![1, 2] };
    assert_eq!(input.clone(), input);
}

#[test]
fn input_chunk_len() {
    let chunk = InputChunk { data: vec![7, 8] };
    assert_eq!(chunk.len(), 2);
    assert_eq!(InputChunk { data: vec![] }.len(), 0);
}

#[test]
fn plain_text_is_shown_as_it_is() {
    assert_eq!(to_string(b"foo"), "foo");
    assert_eq!(chunk(0, b"foo").to_string(), "foo");
    assert_eq!(InputChunk { data: b"foo".to_vec() }.to_string(), "foo");
}

#[test]
fn text_with_spaces_is_quoted() {
    assert_eq!(to_string(b"String with spaces"), "'String with spaces'");
    assert_eq!(
        chunk(7, b"String with spaces").to_string(),
        "'String with spaces'"
    );
    assert_eq!(
        InputChunk {
            data: b"ls -la".to_vec()
        }
        .to_string(),
        "'ls -la'"
    );
}

#[test]
fn control_characters_are_escaped() {
    assert_eq!(to_string(b"\"new\nline\""), "\"\\\"new\\nline\\\"\"");
    assert_eq!(to_string(b"a\tb"), "\"a\\tb\"");
}

#[test]
fn bytes_that_are_not_utf8_are_shown_escaped() {
    assert_eq!(to_string(&[0x61, 0xff]), "\"a\\\\xff\"");
    assert_eq!(to_string(&[0xff, 0xfe]), "\"\\\\xff\\\\xfe\"");
    assert_eq!(chunk(0, &[b'a', 0x80]).to_string(), "\"a\\\\x80\"");
    assert_eq!(
        InputChunk {
            data: vec![0x00, 0xc3]
        }
        .to_string(),
        "\"\\u{0}\\\\xc3\""
    );
}

#[test]
fn different_invalid_chunks_are_shown_differently() {
    assert_ne!(to_string(&[0xff]), to_string(&[0xfe]));
    assert_ne!(to_string(&[0x61, 0xff]), to_string(&[0x62, 0xff]));
    assert_ne!(to_string(&[0xff]), to_string(&[]));
}

#[test]
fn nothing_shows_as_nothing() {
    assert_eq!(to_string(&[]), "");
}

#[test]
fn valid_utf8_is_read_as_text() {
    assert_eq!(utf8_text(b"plain"), "plain");
    assert_eq!(utf8_text("\u{6771}\u{65b9}".as_bytes()), "\u{6771}\u{65b9}");
    assert_eq!(utf8_text(&[0xe6, 0x9d, 0xb1]), "\u{6771}");
    assert_eq!(utf8_text(&[]), "");
}

#[test]
fn bytes_that_begin_no_scalar_are_escaped() {
    assert_eq!(utf8_text(&[0xff]), "\\xff");
    assert_eq!(utf8_text(&[0x0a, 0x80, 0x09]), "\n\\x80\t");
    assert_eq!(utf8_text(&[b'a', 0xff, b'b']), "a\\xffb");
    // a scalar cut short
    assert_eq!(utf8_text(&[0xe6, 0x9d]), "\\xe6\\x9d");
    assert_eq!(utf8_text(&[0xe6, 0x9d, b'z']), "\\xe6\\x9dz");
    // an encoding that is longer than it has to be
    assert_eq!(utf8_text(&[0xc0, 0x80]), "\\xc0\\x80");
    // a surrogate
    assert_eq!(utf8_text(&[0xed, 0xa0, 0x80]), "\\xed\\xa0\\x80");
    // beyond the last scalar
    assert_eq!(utf8_text(&[0xf4, 0x90, 0x80, 0x80]), "\\xf4\\x90\\x80\\x80");
    assert_eq!(utf8_text(&[0xf8, 0x0f]), "\\xf8\u{f}");
}

#[test]
fn valid_scalars_are_kept_between_escapes() {
    let mut data = "\u{6771}".as_bytes().to_vec();
    data.push(0xff);
    data.extend_from_slice("\u{1f600}\u{e9}".as_bytes());
    data.push(0x9d);
    assert_eq!(utf8_text(&data), "\u{6771}\\xff\u{1f600}\u{e9}\\x9d");
}

#[test]
fn every_single_byte_reads_as_itself_or_its_escape() {
    for byte in 0u8..=255 {
        let text = utf8_text(&[byte]);
        if byte < 0x80 {
            assert_eq!(text, (byte as char).to_string());
        } else {
            assert_eq!(text, format!("\\x{:02x}", byte));
        }
    }
}

#[test]
fn reading_agrees_with_the_standard_decoder_on_valid_text() {
    for text in ["", "plain", "\u{6771}\u{65b9} x", "a\u{7ff}\u{800}\u{ffff}\u{10000}\u{10ffff}"] {
        assert_eq!(utf8_text(text.as_bytes()), text);
    }
}
