//! The state a Videohub device reports, block by block, and the blocks a
//! client can send back to it.
use vstd::prelude::*;

verus! {

/// The eight blocks of the protocol, without their contents.
#[derive(Clone, Copy, Debug, PartialEq, Eq, Structural)]
pub enum BlockKind {
    ProtocolPreamble,
    DeviceInfo,
    InputLabels,
    OutputLabels,
    VideoOutputLocks,
    VideoOutputRouting,
    Configuration,
    EndPrelude,
}

/// First block of a session: the protocol version, kept as the device wrote it.
#[derive(Clone, Debug, PartialEq, Eq)]
pub struct ProtocolPreamble {
    pub version: String,
}

impl View for ProtocolPreamble {
    type V = Seq<char>;

    open spec fn view(&self) -> Seq<char> {
        self.version@
    }
}

/// Wire codes `true`, `false` and `needs_update`.
#[derive(Clone, Copy, Debug, PartialEq, Eq, Structural)]
pub enum DevicePresent {
    Present,
    NotPresent,
    NeedUpdate,
}

/// The `VIDEOHUB DEVICE` block.
#[derive(Clone, Debug, PartialEq, Eq)]
pub struct DeviceInfo {
    pub device_present: DevicePresent,
    pub model_name: String,
    pub friendly_name: String,
    pub unique_id: String,
    pub nb_video_inputs: usize,
    pub nb_video_processing_units: usize,
    pub nb_video_outputs: usize,
    pub nb_video_monitoring_outputs: usize,
    pub nb_serial_ports: usize,
}

/// `DeviceInfo` with its strings seen as character sequences.
pub struct DeviceInfoView {
    pub device_present: DevicePresent,
    pub model_name: Seq<char>,
    pub friendly_name: Seq<char>,
    pub unique_id: Seq<char>,
    pub nb_video_inputs: usize,
    pub nb_video_processing_units: usize,
    pub nb_video_outputs: usize,
    pub nb_video_monitoring_outputs: usize,
    pub nb_serial_ports: usize,
}

impl View for DeviceInfo {
    type V = DeviceInfoView;

    open spec fn view(&self) -> DeviceInfoView {
        DeviceInfoView {
            device_present: self.device_present,
            model_name: self.model_name@,
            friendly_name: self.friendly_name@,
            unique_id: self.unique_id@,
            nb_video_inputs: self.nb_video_inputs,
            nb_video_processing_units: self.nb_video_processing_units,
            nb_video_outputs: self.nb_video_outputs,
            nb_video_monitoring_outputs: self.nb_video_monitoring_outputs,
            nb_serial_ports: self.nb_serial_ports,
        }
    }
}

/// What a device reports before its `VIDEOHUB DEVICE` block has been read.
pub open spec fn empty_device_info() -> DeviceInfoView {
    DeviceInfoView {
        device_present: DevicePresent::NotPresent,
        model_name: Seq::empty(),
        friendly_name: Seq::empty(),
        unique_id: Seq::empty(),
        nb_video_inputs: 0,
        nb_video_processing_units: 0,
        nb_video_outputs: 0,
        nb_video_monitoring_outputs: 0,
        nb_serial_ports: 0,
    }
}

impl DeviceInfo {
    pub fn empty() -> (r: DeviceInfo)
        ensures
            r@ == empty_device_info(),
    {
        DeviceInfo {
            device_present: DevicePresent::NotPresent,
            model_name: String::new(),
            friendly_name: String::new(),
            unique_id: String::new(),
            nb_video_inputs: 0,
            nb_video_processing_units: 0,
            nb_video_outputs: 0,
            nb_video_monitoring_outputs: 0,
            nb_serial_ports: 0,
        }
    }
}

/// A port label: 0-based wire index and text.
#[derive(Clone, Debug, PartialEq, Eq)]
pub struct Label(pub usize, pub String);

impl View for Label {
    type V = (usize, Seq<char>);

    open spec fn view(&self) -> (usize, Seq<char>) {
        (self.0, self.1@)
    }
}

pub open spec fn labels_view(v: Seq<Label>) -> Seq<(usize, Seq<char>)> {
    v.map_values(|l: Label| l@)
}

/// Wire codes `F`, `L`, `O` and `U`.
#[derive(Clone, Copy, Debug, PartialEq, Eq, Structural)]
pub enum LockStatus {
    ForceUnlock,
    Locked,
    Owned,
    Unlocked,
}

/// Lock state of an output: 0-based output index and status.
#[derive(Clone, Copy, Debug, PartialEq, Eq, Structural)]
pub struct OutputLock(pub usize, pub LockStatus);

/// A crosspoint: 0-based destination (output) and source (input).
#[derive(Clone, Copy, Debug, PartialEq, Eq, Structural)]
pub struct Route(pub usize, pub usize);

/// The `CONFIGURATION` block.
#[derive(Clone, Copy, Debug, PartialEq, Eq, Structural)]
pub struct Configuration {
    pub take_mode: bool,
}

/// The `END PRELUDE` sentinel; it carries nothing.
#[derive(Clone, Copy, Debug, PartialEq, Eq, Structural)]
pub struct EndPrelude;

/// Everything a device reports in the dump it sends on connect.
#[derive(Clone, Debug, PartialEq, Eq)]
pub struct HubInfo {
    pub protocol_preamble: ProtocolPreamble,
    pub device_info: DeviceInfo,
    pub input_labels: Vec<Label>,
    pub output_labels: Vec<Label>,
    pub video_output_locks: Vec<OutputLock>,
    pub video_output_routing: Vec<Route>,
    pub configuration: Configuration,
    pub end_prelude: EndPrelude,
}

pub struct HubInfoView {
    pub version: Seq<char>,
    pub device_info: DeviceInfoView,
    pub input_labels: Seq<(usize, Seq<char>)>,
    pub output_labels: Seq<(usize, Seq<char>)>,
    pub video_output_locks: Seq<OutputLock>,
    pub video_output_routing: Seq<Route>,
    pub configuration: Configuration,
}

impl View for HubInfo {
    type V = HubInfoView;

    open spec fn view(&self) -> HubInfoView {
        HubInfoView {
            version: self.protocol_preamble@,
            device_info: self.device_info@,
            input_labels: labels_view(self.input_labels@),
            output_labels: labels_view(self.output_labels@),
            video_output_locks: self.video_output_locks@,
            video_output_routing: self.video_output_routing@,
            configuration: self.configuration,
        }
    }
}

/// The state before any block has been read: empty strings and lists, zero
/// counts, device not present, take mode off.
pub open spec fn empty_hub() -> HubInfoView {
    HubInfoView {
        version: Seq::empty(),
        device_info: empty_device_info(),
        input_labels: Seq::empty(),
        output_labels: Seq::empty(),
        video_output_locks: Seq::empty(),
        video_output_routing: Seq::empty(),
        configuration: Configuration { take_mode: false },
    }
}

impl HubInfo {
    pub fn empty() -> (r: HubInfo)
        ensures
            r@ == empty_hub(),
    {
        let r = HubInfo {
            protocol_preamble: ProtocolPreamble { version: String::new() },
            device_info: DeviceInfo::empty(),
            input_labels: Vec::new(),
            output_labels: Vec::new(),
            video_output_locks: Vec::new(),
            video_output_routing: Vec::new(),
            configuration: Configuration { take_mode: false },
            end_prelude: EndPrelude,
        };
        assert(labels_view(r.input_labels@) =~= Seq::empty());
        assert(labels_view(r.output_labels@) =~= Seq::empty());
        r
    }
}

/// One block to send to a device.
#[derive(Clone, Debug, PartialEq, Eq)]
pub enum BlockType {
    ProtocolPreamble(ProtocolPreamble),
    DeviceInfo(DeviceInfo),
    InputLabels(Vec<Label>),
    OutputLabels(Vec<Label>),
    VideoOutputLocks(Vec<OutputLock>),
    VideoOutputRouting(Vec<Route>),
    Configuration(Configuration),
    EndPrelude(EndPrelude),
}

pub enum BlockView {
    ProtocolPreamble(Seq<char>),
    DeviceInfo(DeviceInfoView),
    InputLabels(Seq<(usize, Seq<char>)>),
    OutputLabels(Seq<(usize, Seq<char>)>),
    VideoOutputLocks(Seq<OutputLock>),
    VideoOutputRouting(Seq<Route>),
    Configuration(Configuration),
    EndPrelude,
}

impl View for BlockType {
    type V = BlockView;

    open spec fn view(&self) -> BlockView {
        match self {
            BlockType::ProtocolPreamble(p) => BlockView::ProtocolPreamble(p@),
            BlockType::DeviceInfo(d) => BlockView::DeviceInfo(d@),
            BlockType::InputLabels(l) => BlockView::InputLabels(labels_view(l@)),
            BlockType::OutputLabels(l) => BlockView::OutputLabels(labels_view(l@)),
            BlockType::VideoOutputLocks(l) => BlockView::VideoOutputLocks(l@),
            BlockType::VideoOutputRouting(r) => BlockView::VideoOutputRouting(r@),
            BlockType::Configuration(c) => BlockView::Configuration(*c),
            BlockType::EndPrelude(_) => BlockView::EndPrelude,
        }
    }
}

pub open spec fn block_kind(b: BlockView) -> BlockKind {
    match b {
        BlockView::ProtocolPreamble(_) => BlockKind::ProtocolPreamble,
        BlockView::DeviceInfo(_) => BlockKind::DeviceInfo,
        BlockView::InputLabels(_) => BlockKind::InputLabels,
        BlockView::OutputLabels(_) => BlockKind::OutputLabels,
        BlockView::VideoOutputLocks(_) => BlockKind::VideoOutputLocks,
        BlockView::VideoOutputRouting(_) => BlockKind::VideoOutputRouting,
        BlockView::Configuration(_) => BlockKind::Configuration,
        BlockView::EndPrelude => BlockKind::EndPrelude,
    }
}

impl BlockType {
    /// Which block this is.
    pub fn kind(&self) -> (r: BlockKind)
        ensures
            r == block_kind(self@),
    {
        match self {
            BlockType::ProtocolPreamble(_) => BlockKind::ProtocolPreamble,
            BlockType::DeviceInfo(_) => BlockKind::DeviceInfo,
            BlockType::InputLabels(_) => BlockKind::InputLabels,
            BlockType::OutputLabels(_) => BlockKind::OutputLabels,
            BlockType::VideoOutputLocks(_) => BlockKind::VideoOutputLocks,
            BlockType::VideoOutputRouting(_) => BlockKind::VideoOutputRouting,
            BlockType::Configuration(_) => BlockKind::Configuration,
            BlockType::EndPrelude(_) => BlockKind::EndPrelude,
        }
    }
}

} // verus!
