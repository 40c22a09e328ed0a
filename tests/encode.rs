use videohub::de::{from_str, Deserializer};
use videohub::model::{
    BlockType, Configuration, DeviceInfo, DevicePresent, EndPrelude, Label, LockStatus, OutputLock,
    ProtocolPreamble, Route,
};
use videohub::ser::{to_string, Serializer};
use videohub::wire::lock_str;

#[test]
fn ser_test_protocol_preamble() {
    let preamble = BlockType::ProtocolPreamble(ProtocolPreamble {
        version: "2.3".to_string(),
    });
    assert_eq!(&to_string(&preamble), "PROTOCOL PREAMBLE:\nVersion: 2.3\n\n");
}

#[test]
fn ser_test_device_info() {
    let device_info = BlockType::DeviceInfo(DeviceInfo {
        device_present: DevicePresent::Present,
        model_name: "Foo".to_string(),
        friendly_name: "Bar".to_string(),
        unique_id: "XXXX".to_string(),
        nb_video_inputs: 40,
        nb_video_processing_units: 2,
        nb_video_outputs: 40,
        nb_video_monitoring_outputs: 1,
        nb_serial_ports: 0,
    });
    let result = to_string(&device_info);
    let expected = "VIDEOHUB DEVICE:\n\
                          Device present: true\n\
                          Model name: Foo\n\
                          Friendly name: Bar\n\
                          Unique ID: XXXX\n\
                          Video inputs: 40\n\
                          Video processing units: 2\n\
                          Video outputs: 40\n\
                          Video monitoring outputs: 1\n\
                          Serial ports: 0\n\n";
    assert_eq!(result, expected);
}

#[test]
fn test_input_labels() {
    let labels = BlockType::InputLabels(vec![
        Label(2, "Bar 2".to_string()),
        Label(3, "Foo 3".to_string()),
    ]);
    let result = to_string(&labels);
    assert_eq!(&result, "INPUT LABELS:\n2 Bar 2\n3 Foo 3\n\n");
}

#[test]
fn test_output_labels() {
    let labels = BlockType::OutputLabels(vec![
        Label(2, "Bar 2".to_string()),
        Label(3, "Foo 3".to_string()),
    ]);
    let result = to_string(&labels);
    assert_eq!(&result, "OUTPUT LABELS:\n2 Bar 2\n3 Foo 3\n\n");
}

#[test]
fn ser_test_output_locks() {
    let labels = BlockType::VideoOutputLocks(vec![
        OutputLock(30, LockStatus::Locked),
        OutputLock(24, LockStatus::Unlocked),
    ]);
    let result = to_string(&labels);
    assert_eq!(&result, "VIDEO OUTPUT LOCKS:\n30 L\n24 U\n\n");
}

#[test]
fn test_output_routing() {
    let labels = BlockType::VideoOutputRouting(vec![Route(0, 5), Route(36, 6), Route(13, 13)]);
    let result = to_string(&labels);
    assert_eq!(&result, "VIDEO OUTPUT ROUTING:\n0 5\n36 6\n13 13\n\n");
}

#[test]
fn ser_test_configuration() {
    let config_true = BlockType::Configuration(Configuration { take_mode: true });
    assert_eq!(&to_string(&config_true), "CONFIGURATION:\nTake Mode: true\n\n");
}

#[test]
fn ser_test_end_prelude() {
    let end = BlockType::EndPrelude(EndPrelude);
    assert_eq!(&to_string(&end), "END PRELUDE:\n\n");
}

#[test]
fn test_enum() {
    let result = lock_str(LockStatus::Unlocked);
    assert_eq!(result, "U");
}

#[test]
fn routing_scenario() {
    let block = BlockType::VideoOutputRouting(vec![Route(0, 5), Route(36, 6)]);
    assert_eq!(to_string(&block), "VIDEO OUTPUT ROUTING:\n0 5\n36 6\n\n");
}

#[test]
fn configuration_scenario_both_ways() {
    let c = Deserializer::deserialize_configuration("Take Mode: true\n\n").unwrap();
    assert_eq!(c, Configuration { take_mode: true });
    assert_eq!(
        to_string(&BlockType::Configuration(c)),
        "CONFIGURATION:\nTake Mode: true\n\n"
    );
    assert_eq!(
        to_string(&BlockType::Configuration(Configuration { take_mode: false })),
        "CONFIGURATION:\nTake Mode: false\n\n"
    );
}

#[test]
fn encoder_keeps_order_and_duplicates() {
    let block = BlockType::VideoOutputLocks(vec![
        OutputLock(5, LockStatus::Owned),
        OutputLock(1, LockStatus::ForceUnlock),
        OutputLock(5, LockStatus::Owned),
    ]);
    assert_eq!(to_string(&block), "VIDEO OUTPUT LOCKS:\n5 O\n1 F\n5 O\n\n");
}

#[test]
fn empty_list_encodes_to_header_and_blank_line() {
    assert_eq!(to_string(&BlockType::InputLabels(vec![])), "INPUT LABELS:\n\n");
}

#[test]
fn large_numbers_and_needs_update() {
    let block = BlockType::DeviceInfo(DeviceInfo {
        device_present: DevicePresent::NeedUpdate,
        model_name: String::new(),
        friendly_name: "x".to_string(),
        unique_id: "y".to_string(),
        nb_video_inputs: 1234567890,
        nb_video_processing_units: 10,
        nb_video_outputs: 100,
        nb_video_monitoring_outputs: 9,
        nb_serial_ports: 1,
    });
    let text = to_string(&block);
    assert!(text.contains("Device present: needs_update\n"));
    assert!(text.contains("Video inputs: 1234567890\n"));
    assert!(text.contains("Video processing units: 10\n"));
    assert!(text.contains("Model name: \n"));
}

#[test]
fn serializer_appends_blocks() {
    let mut ser = Serializer::new();
    ser.serialize_block(&BlockType::Configuration(Configuration { take_mode: true }));
    ser.serialize_block(&BlockType::EndPrelude(EndPrelude));
    assert_eq!(
        ser.into_output(),
        "CONFIGURATION:\nTake Mode: true\n\nEND PRELUDE:\n\n"
    );
}

fn round_trip(block: &BlockType) -> videohub::model::HubInfo {
    let text = format!("{}END PRELUDE:\n\n", to_string(block));
    from_str(&text).unwrap()
}

#[test]
fn every_block_round_trips() {
    let p = ProtocolPreamble {
        version: "2.3".to_string(),
    };
    assert_eq!(round_trip(&BlockType::ProtocolPreamble(p.clone())).protocol_preamble, p);
    let d = DeviceInfo {
        device_present: DevicePresent::Present,
        model_name: "Smart Videohub 12G 40x40".to_string(),
        friendly_name: "Router: A".to_string(),
        unique_id: "7C2E0D0BF1BE".to_string(),
        nb_video_inputs: 40,
        nb_video_processing_units: 0,
        nb_video_outputs: 40,
        nb_video_monitoring_outputs: 0,
        nb_serial_ports: 0,
    };
    assert_eq!(round_trip(&BlockType::DeviceInfo(d.clone())).device_info, d);
    let ls = vec![Label(0, "Cam 1".to_string()), Label(39, " spaced ".to_string())];
    assert_eq!(round_trip(&BlockType::InputLabels(ls.clone())).input_labels, ls);
    assert_eq!(round_trip(&BlockType::OutputLabels(ls.clone())).output_labels, ls);
    let locks = vec![OutputLock(3, LockStatus::Locked), OutputLock(0, LockStatus::Unlocked)];
    assert_eq!(round_trip(&BlockType::VideoOutputLocks(locks.clone())).video_output_locks, locks);
    let routes = vec![Route(0, 5), Route(36, 6), Route(0, 7)];
    assert_eq!(
        round_trip(&BlockType::VideoOutputRouting(routes.clone())).video_output_routing,
        routes
    );
    let c = Configuration { take_mode: true };
    assert_eq!(round_trip(&BlockType::Configuration(c)).configuration, c);
    assert!(from_str(&to_string(&BlockType::EndPrelude(EndPrelude))).is_ok());
}
