use videohub::hub::{Error, Hub, PreludeReader, MAX_PRELUDE_BYTES};
use videohub::model::{Configuration, Label};
use videohub::DEFAULT_DEVICE_PORT;

#[test]
fn sentinel_split_across_reads() {
    let mut reader = PreludeReader::new();
    let first = b"PROTOCOL PREAMBLE:\nVersion: 2.3\n\nINPUT LABELS:\n0 Cam\n\nEND PRE";
    assert_eq!(reader.feed(first), Ok(false));
    assert!(!reader.is_complete());
    assert_eq!(reader.feed(b"LUDE:\n\n"), Ok(true));
    assert!(reader.is_complete());
    let h = reader.finish().unwrap();
    assert_eq!(h.protocol_preamble.version, "2.3");
    assert_eq!(h.input_labels, vec![Label(0, "Cam".to_string())]);
}

#[test]
fn sentinel_in_one_read() {
    let mut reader = PreludeReader::new();
    assert_eq!(
        reader.feed(b"CONFIGURATION:\nTake Mode: true\n\nEND PRELUDE:\n\n"),
        Ok(true)
    );
    let h = reader.finish().unwrap();
    assert_eq!(h.configuration, Configuration { take_mode: true });
}

#[test]
fn byte_by_byte_reads() {
    let mut reader = PreludeReader::new();
    let text = b"CONFIGURATION:\nTake Mode: true\n\nEND PRELUDE:\n\n";
    let mut done_at = None;
    for (i, b) in text.iter().enumerate() {
        if reader.feed(&[*b]).unwrap() {
            done_at = Some(i);
            break;
        }
    }
    // "END PRELUDE" is complete once its last 'E' is in.
    assert_eq!(done_at, Some(text.len() - 4));
}

#[test]
fn closed_connection_before_sentinel() {
    let mut reader = PreludeReader::new();
    assert_eq!(reader.feed(b"PROTOCOL PREAMBLE:\n"), Ok(false));
    assert_eq!(reader.feed(b""), Err(Error::Connection));
}

#[test]
fn oversized_dump_is_refused() {
    let mut reader = PreludeReader::new();
    let chunk = vec![b'x'; MAX_PRELUDE_BYTES];
    assert_eq!(reader.feed(&chunk), Ok(false));
    assert_eq!(reader.feed(b"END PRELUDE:\n\n"), Err(Error::Connection));
}

#[test]
fn invalid_utf8_is_a_connection_error() {
    let mut reader = PreludeReader::new();
    assert_eq!(reader.feed(&[0xff, 0xfe]), Ok(false));
    assert_eq!(reader.feed(b"END PRELUDE:\n\n"), Ok(true));
    assert_eq!(reader.finish(), Err(Error::Connection));
}

#[test]
fn decode_failure_is_wrapped() {
    let mut reader = PreludeReader::new();
    assert_eq!(reader.feed(b"VIDEO OUTPUT LOCKS:\n3 X\n\nEND PRELUDE:\n\n"), Ok(true));
    assert!(matches!(reader.finish(), Err(Error::Decode(_))));
}

#[test]
fn non_ascii_text_survives() {
    let mut reader = PreludeReader::new();
    let text = "INPUT LABELS:\n0 Caméra ü\n\nEND PRELUDE:\n\n";
    let bytes = text.as_bytes();
    // split inside the two-byte 'é'
    let cut = text.find('é').unwrap() + 1;
    assert_eq!(reader.feed(&bytes[..cut]), Ok(false));
    assert_eq!(reader.feed(&bytes[cut..]), Ok(true));
    let h = reader.finish().unwrap();
    assert_eq!(h.input_labels, vec![Label(0, "Caméra ü".to_string())]);
}

#[test]
fn hub_address() {
    let hub = Hub::new([10, 0, 0, 1], DEFAULT_DEVICE_PORT);
    assert_eq!(hub.ip, [10, 0, 0, 1]);
    assert_eq!(hub.port, 9990);
}
