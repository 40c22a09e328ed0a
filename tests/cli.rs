use videohub::api::{example_device_info, example_input_ports, example_output_ports};
use videohub::cli_args::{Error, IndexAndIndex, IndexAndStr};

#[test]
fn index_and_str() {
    let a = IndexAndStr::parse("1=my new label").unwrap();
    assert_eq!(a.index, 1);
    assert_eq!(a.value, "my new label");
    let b = IndexAndStr::parse("2=a=b").unwrap();
    assert_eq!(b.value, "a=b");
    let c = IndexAndStr::parse("7").unwrap();
    assert_eq!((c.index, c.value.as_str()), (7, ""));
    assert_eq!(IndexAndStr::parse("x=foo"), Err(Error::ParseIntError));
}

#[test]
fn index_and_index() {
    assert_eq!(IndexAndIndex::parse("15=40"), Ok(IndexAndIndex { a: 15, b: 40 }));
    assert_eq!(IndexAndIndex::parse("15=40=3"), Ok(IndexAndIndex { a: 15, b: 40 }));
    assert_eq!(IndexAndIndex::parse("15"), Err(Error::ParseIntError));
    assert_eq!(IndexAndIndex::parse("15=x"), Err(Error::ParseIntError));
}

#[test]
fn api_examples() {
    assert!(example_device_info().contains("\"nb_video_inputs\": 40"));
    assert!(example_input_ports().contains("X16 Multiviewer - Out 2"));
    assert!(example_output_ports().contains("\"source_port\": 16"));
}
