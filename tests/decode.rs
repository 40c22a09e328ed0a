use videohub::de::{from_str, parse_string, parse_unsigned, parse_unsigned_list, Deserializer};
use videohub::error::Error;
use videohub::model::{
    BlockKind, Configuration, DeviceInfo, DevicePresent, EndPrelude, HubInfo, Label, LockStatus,
    OutputLock, ProtocolPreamble, Route,
};

fn sample_hub_info() -> HubInfo {
    HubInfo {
        protocol_preamble: ProtocolPreamble {
            version: "2.3".to_string(),
        },
        device_info: DeviceInfo {
            device_present: DevicePresent::Present,
            model_name: "Some model name".to_string(),
            friendly_name: "Bar".to_string(),
            unique_id: "XXXX".to_string(),
            nb_video_inputs: 40,
            nb_video_processing_units: 2,
            nb_video_outputs: 40,
            nb_video_monitoring_outputs: 1,
            nb_serial_ports: 0,
        },
        input_labels: vec![Label(2, "Bar 2".to_string()), Label(3, "Foo 3".to_string())],
        output_labels: vec![Label(2, "Bar 2".to_string()), Label(3, "Foo 3".to_string())],
        video_output_locks: vec![
            OutputLock(2, LockStatus::Locked),
            OutputLock(3, LockStatus::Unlocked),
            OutputLock(39, LockStatus::Owned),
            OutputLock(0, LockStatus::ForceUnlock),
        ],
        video_output_routing: vec![
            Route(39, 1),
            Route(15, 13),
            Route(12, 6),
            Route(3, 28),
            Route(97, 45),
        ],
        configuration: Configuration { take_mode: true },
        end_prelude: EndPrelude,
    }
}

const SAMPLE_DUMP: &str = "PROTOCOL PREAMBLE:\n\
                       Version: 2.3\n\
                       \n\
                       VIDEOHUB DEVICE:\n\
                       Device present: true\n\
                       Model name: Some model name\n\
                       Friendly name: Bar\n\
                       Unique ID: XXXX\n\
                       Video inputs: 40\n\
                       Video processing units: 2\n\
                       Video outputs: 40\n\
                       Video monitoring outputs: 1\n\
                       Serial ports: 0\n\
                       \n\
                       INPUT LABELS:\n\
                       2 Bar 2\n\
                       3 Foo 3\n\
                       \n\
                       OUTPUT LABELS:\n\
                       2 Bar 2\n\
                       3 Foo 3\n\
                       \n\
                       VIDEO OUTPUT LOCKS:\n\
                       2 L\n\
                       3 U\n\
                       39 O\n\
                       0 F\n\
                       \n\
                       VIDEO OUTPUT ROUTING:\n\
                       39 1\n\
                       15 13\n\
                       12 6\n\
                       3 28\n\
                       97 45\n\
                       \n\
                       CONFIGURATION:\n\
                       Take Mode: true\n\
                       \n\
                       END PRELUDE:\n\
                       \n";

#[test]
fn test_numbers() {
    assert_eq!(parse_unsigned("42").unwrap(), 42);
    assert_eq!(parse_unsigned("196").unwrap(), 196);
}

#[test]
fn test_strings() {
    assert_eq!(parse_string("Foo"), "Foo".to_string());
    assert_eq!(parse_string("Foo\n"), "Foo".to_string());
    assert_eq!(parse_string("Foo:"), "Foo".to_string());
}

#[test]
fn test_seq() {
    let expected = vec![1_usize, 2, 3];
    let s = "1\n2\n3\n\n";
    let result = parse_unsigned_list(s, '\n').unwrap();
    assert_eq!(result, expected);
}

#[test]
fn test_tuple() {
    let expected = vec![1_usize, 2, 3, 5];
    let s = "1 2 3 5";
    let result = parse_unsigned_list(s, ' ').unwrap();
    assert_eq!(result, expected);
}

#[test]
fn test_struct_tuple() {
    let expected = Label(2, "Bar 2".to_string());
    let s = "2 Bar 2";
    let (index, text) = Deserializer::index_and_value(BlockKind::InputLabels, s).unwrap();
    assert_eq!(Label(index, text), expected);
}

#[test]
fn de_test_protocol_preamble() {
    let expected = ProtocolPreamble {
        version: "2.3".to_string(),
    };
    let s = "Version: 2.3\n\n";
    let result = Deserializer::deserialize_protocol_preamble(s).unwrap();
    assert_eq!(result, expected);
}

#[test]
fn de_test_device_info() {
    let expected = DeviceInfo {
        device_present: DevicePresent::Present,
        model_name: "Some model name".to_string(),
        friendly_name: "Bar".to_string(),
        unique_id: "XXXX".to_string(),
        nb_video_inputs: 40,
        nb_video_processing_units: 2,
        nb_video_outputs: 40,
        nb_video_monitoring_outputs: 1,
        nb_serial_ports: 0,
    };

    let s = "Device present: true\n\
                   Model name: Some model name\n\
                   Friendly name: Bar\n\
                   Unique ID: XXXX\n\
                   Video inputs: 40\n\
                   Video processing units: 2\n\
                   Video outputs: 40\n\
                   Video monitoring outputs: 1\n\
                   Serial ports: 0\n\n";
    let result = Deserializer::deserialize_device_info(s).unwrap();
    assert_eq!(result, expected);
}

#[test]
fn test_labels() {
    let expected = vec![Label(2, "Bar 2".to_string()), Label(3, "Foo 3".to_string())];
    let s = "2 Bar 2\n3 Foo 3\n\n";
    let result = Deserializer::deserialize_labels(s, 2).unwrap();
    assert_eq!(result, expected);
}

#[test]
fn de_test_output_locks() {
    let expected = vec![
        OutputLock(2, LockStatus::Locked),
        OutputLock(3, LockStatus::Unlocked),
        OutputLock(39, LockStatus::Owned),
        OutputLock(0, LockStatus::ForceUnlock),
    ];
    let s = "2 L\n3 U\n39 O\n0 F\n\n";
    let result = Deserializer::deserialize_output_locks(s, 4).unwrap();
    assert_eq!(result, expected);
}

#[test]
fn test_output_routings() {
    let expected = vec![
        Route(39, 1),
        Route(15, 13),
        Route(12, 6),
        Route(3, 28),
        Route(97, 45),
    ];
    let s = "39 1\n15 13\n12 6\n3 28\n97 45\n\n";
    let result = Deserializer::deserialize_output_routing(s, 5).unwrap();
    assert_eq!(result, expected);
}

#[test]
fn de_test_configuration() {
    let expected = Configuration { take_mode: true };
    let s = "Take Mode: true\n\n";
    let result = Deserializer::deserialize_configuration(s).unwrap();
    assert_eq!(result, expected);
}

#[test]
fn de_test_end_prelude() {
    let expected = EndPrelude;
    let s = "\n";
    let result = Deserializer::deserialize_end_prelude(s).unwrap();
    assert_eq!(result, expected);
}

#[test]
fn test_hub_info() {
    let result = from_str(SAMPLE_DUMP).unwrap();
    assert_eq!(result, sample_hub_info());
}

#[test]
fn test_deserialize_device_info() {
    let block = "\
        Device present: true\n\
        Model name: Smart Videohub 12G 40x40\n\
        Friendly name: SDI Router G-A - Smart Videohub 12G 40 x 40\n\
        Unique ID: XXXXXX\n\
        Video inputs: 40\n\
        Video processing units: 0\n\
        Video outputs: 40\n\
        Video monitoring outputs: 0\n\
        Serial ports: 0\n\
        ";
    let expected = DeviceInfo {
        device_present: DevicePresent::Present,
        model_name: "Smart Videohub 12G 40x40".to_string(),
        friendly_name: "SDI Router G-A - Smart Videohub 12G 40 x 40".to_string(),
        unique_id: "XXXXXX".to_string(),
        nb_video_inputs: 40,
        nb_video_processing_units: 0,
        nb_video_outputs: 40,
        nb_video_monitoring_outputs: 0,
        nb_serial_ports: 0,
    };

    let device_info = Deserializer::deserialize_device_info(block).unwrap();

    assert!(device_info == expected)
}

// Wire indices are 0-based and stay so in the model.
#[test]
fn test_deserialize_labels() {
    let block = "\
        0 from_RTR_B\n\
        1 BNC Patch RD1-C - 2\n\
        2 BNC Patch RD1-C - 3\n\
        ";
    let expected = vec![
        Label(0, "from_RTR_B".to_string()),
        Label(1, "BNC Patch RD1-C - 2".to_string()),
        Label(2, "BNC Patch RD1-C - 3".to_string()),
    ];

    let input_labels = Deserializer::deserialize_labels(block, 3).unwrap();
    assert!(input_labels == expected);
}

#[test]
fn test_deserialize_output_locks() {
    let block = "\
        0 U\n\
        1 O\n\
        2 F\n\
        3 L\n\
        ";
    let expected = vec![
        OutputLock(0, LockStatus::Unlocked),
        OutputLock(1, LockStatus::Owned),
        OutputLock(2, LockStatus::ForceUnlock),
        OutputLock(3, LockStatus::Locked),
    ];
    let input_labels = Deserializer::deserialize_output_locks(block, 4).unwrap();
    assert!(input_labels == expected);
}

#[test]
fn test_deserialize_output_routing() {
    let block = "\
                        0 39\n\
                        1 1\n\
                        6 3\n\
                        0 14\n\
                        14 15\n\
                        31 19\n\
                        32 39\n\
                        ";
    let expected = vec![
        Route(0, 39),
        Route(1, 1),
        Route(6, 3),
        Route(0, 14),
        Route(14, 15),
        Route(31, 19),
        Route(32, 39),
    ];
    let actual = Deserializer::deserialize_output_routing(block, 7).unwrap();
    assert!(actual == expected);
}

#[test]
fn test_deserialize_configuration() {
    let block = "\
        Take Mode: true\n\
        ";
    let expected = Configuration { take_mode: true };

    let acutal = Deserializer::deserialize_configuration(block).unwrap();
    assert!(acutal == expected);
}

#[test]
fn decoding_twice_gives_equal_values() {
    let mut de = Deserializer::new();
    let first = de.deserialize(SAMPLE_DUMP).unwrap();
    let second = de.deserialize(SAMPLE_DUMP).unwrap();
    assert_eq!(first, second);
    assert_eq!(from_str(SAMPLE_DUMP).unwrap(), first);
}

#[test]
fn reused_decoder_forgets_the_previous_dump() {
    let mut de = Deserializer::new();
    de.deserialize(SAMPLE_DUMP).unwrap();
    let later = de.deserialize("CONFIGURATION:\nTake Mode: false\n\nEND PRELUDE:\n\n").unwrap();
    assert_eq!(later.configuration, Configuration { take_mode: false });
    assert!(later.input_labels.is_empty());
    assert_eq!(later.protocol_preamble.version, "");
}

#[test]
fn empty_sequence_block_gives_empty_list() {
    let dump = "INPUT LABELS:\n\nVIDEO OUTPUT LOCKS:\n\nVIDEO OUTPUT ROUTING:\n\nEND PRELUDE:\n\n";
    let h = from_str(dump).unwrap();
    assert!(h.input_labels.is_empty());
    assert!(h.video_output_locks.is_empty());
    assert!(h.video_output_routing.is_empty());
    assert_eq!(Deserializer::deserialize_labels("\n", 0).unwrap(), vec![]);
}

#[test]
fn empty_block_replaces_an_earlier_one() {
    let dump = "INPUT LABELS:\n0 A\n\nINPUT LABELS:\n\n";
    let h = from_str(dump).unwrap();
    assert!(h.input_labels.is_empty());
}

#[test]
fn invalid_lock_code_is_rejected() {
    let r = from_str("VIDEO OUTPUT LOCKS:\n3 X\n\n");
    assert_eq!(
        r,
        Err(Error::InvalidEnumCode {
            block: BlockKind::VideoOutputLocks,
            line: "3 X".to_string()
        })
    );
    assert!(matches!(
        Deserializer::deserialize_output_locks("3 X\n", 1),
        Err(Error::InvalidEnumCode { .. })
    ));
}

#[test]
fn input_labels_scenario() {
    let h = from_str("INPUT LABELS:\n2 Bar 2\n3 Foo 3\n\n").unwrap();
    assert_eq!(
        h.input_labels,
        vec![Label(2, "Bar 2".to_string()), Label(3, "Foo 3".to_string())]
    );
}

#[test]
fn label_text_is_kept_verbatim() {
    let labels = Deserializer::deserialize_labels("7  two spaces: and colon \n", 1).unwrap();
    assert_eq!(labels, vec![Label(7, " two spaces: and colon ".to_string())]);
}

#[test]
fn key_value_split_at_first_colon() {
    let d = Deserializer::deserialize_device_info("Model name:   A: B\nSome future key: 3\n").unwrap();
    assert_eq!(d.model_name, "A: B");
}

#[test]
fn malformed_key_value_line() {
    assert_eq!(
        Deserializer::deserialize_protocol_preamble("Version 2.3\n"),
        Err(Error::MalformedLine {
            block: BlockKind::ProtocolPreamble,
            line: "Version 2.3".to_string()
        })
    );
}

#[test]
fn bad_index_is_an_integer_error() {
    assert_eq!(
        Deserializer::deserialize_labels("x Foo\n", 1),
        Err(Error::IntegerParse {
            block: BlockKind::InputLabels,
            line: "x Foo".to_string()
        })
    );
    assert!(matches!(
        Deserializer::deserialize_output_routing("3 y\n", 1),
        Err(Error::IntegerParse { .. })
    ));
    assert!(matches!(
        Deserializer::deserialize_device_info("Video inputs: forty\n"),
        Err(Error::IntegerParse { .. })
    ));
}

#[test]
fn index_without_value() {
    assert_eq!(
        Deserializer::deserialize_labels("3\n", 1),
        Err(Error::UnexpectedEndOfInput {
            block: BlockKind::InputLabels,
            line: "3".to_string()
        })
    );
}

#[test]
fn unknown_header_is_rejected() {
    assert_eq!(
        from_str("ALARM STATUS:\n0 ok\n\n"),
        Err(Error::UnknownBlockHeader {
            line: "ALARM STATUS:".to_string()
        })
    );
}

#[test]
fn invalid_literals_are_enum_errors() {
    assert!(matches!(
        Deserializer::deserialize_configuration("Take Mode: yes\n"),
        Err(Error::InvalidEnumCode { .. })
    ));
    assert!(matches!(
        Deserializer::deserialize_device_info("Device present: maybe\n"),
        Err(Error::InvalidEnumCode { .. })
    ));
    let d = Deserializer::deserialize_device_info("Device present: needs_update\n").unwrap();
    assert_eq!(d.device_present, DevicePresent::NeedUpdate);
}

#[test]
fn decoding_stops_at_the_sentinel() {
    let h = from_str("END PRELUDE:\n\nNOT A HEADER\n").unwrap();
    assert_eq!(h.configuration, Configuration { take_mode: false });
}

#[test]
fn numbers_that_overflow_are_rejected() {
    assert_eq!(parse_unsigned("18446744073709551615"), Some(usize::MAX));
    assert_eq!(parse_unsigned("18446744073709551616"), None);
    assert_eq!(parse_unsigned(""), None);
    assert_eq!(parse_unsigned("+5"), None);
}
