//! Sample JSON documents of the HTTP interface, as shown in its
//! documentation.
use vstd::prelude::*;

verus! {

pub fn example_device_info() -> (r: &'static str)
    ensures
        r@ == "{\n    \"device_present\": \"present\",\n    \"model_name\": \"Smart Videohub 12G 40x40\",\n    \"friendly_name\": \"SDI Router G-B - Smart Videohub 12G 40 x 40\",\n    \"unique_id\": \"7C2E0D0BF1BE\",\n    \"nb_video_inputs\": 40,\n    \"nb_video_processing_units\": 0,\n    \"nb_video_outputs\": 40,\n    \"nb_video_monitoring_outputs\": 0,\n    \"nb_serial_ports\": 0\n  }"@,
{
    "{\n    \"device_present\": \"present\",\n    \"model_name\": \"Smart Videohub 12G 40x40\",\n    \"friendly_name\": \"SDI Router G-B - Smart Videohub 12G 40 x 40\",\n    \"unique_id\": \"7C2E0D0BF1BE\",\n    \"nb_video_inputs\": 40,\n    \"nb_video_processing_units\": 0,\n    \"nb_video_outputs\": 40,\n    \"nb_video_monitoring_outputs\": 0,\n    \"nb_serial_ports\": 0\n  }"
}

pub fn example_input_ports() -> (r: &'static str)
    ensures
        r@ == "{\n    \"port_number\": 0,\n    \"port_name\": \"X16 Multiviewer - Out 2\"\n  }"@,
{
    "{\n    \"port_number\": 0,\n    \"port_name\": \"X16 Multiviewer - Out 2\"\n  }"
}

pub fn example_output_ports() -> (r: &'static str)
    ensures
        r@ == "{\n    \"port_number\": 0,\n    \"port_name\": \"out_to_sebas_box6\",\n    \"port_state\": \"unlocked\",\n    \"source_port\": 16\n  }"@,
{
    "{\n    \"port_number\": 0,\n    \"port_name\": \"out_to_sebas_box6\",\n    \"port_state\": \"unlocked\",\n    \"source_port\": 16\n  }"
}

} // verus!
