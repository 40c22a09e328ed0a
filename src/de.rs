//! Decoding a dump, or a single block, into the model.
//!
//! A dump is read line by line (lines end at `'\n'`). Between blocks, empty
//! lines are skipped and any other line must start with one of the block
//! headers. The lines after a header, up to the first empty line, are the
//! body of that block. Decoding stops after the `END PRELUDE:` header, or at
//! the end of the text.
use crate::error::{view_result, Error, ErrorView};
use crate::model::{
    empty_device_info, empty_hub, labels_view, BlockKind, Configuration, DeviceInfo, DeviceInfoView,
    EndPrelude, HubInfo, HubInfoView, Label, OutputLock, ProtocolPreamble, Route,
};
use crate::text::{
    chars_of, find_char, find_char_in, find_space, find_space_in, parse_decimal, parse_decimal_in,
    range_eq, range_starts_with, skip_spaces_in, starts_with, string_of_range, trim_start,
};
use crate::wire::{
    bool_code, device_present_code, header_str, header_text, lock_code, parse_bool_in,
    parse_device_present, parse_lock_status,
};
use vstd::prelude::*;

verus! {

/// Where the decoder stands between two lines.
#[derive(Clone, Copy, Debug, PartialEq, Eq, Structural)]
pub enum Mode {
    /// Outside any block: the next non-empty line is a header.
    Between,
    /// Inside the body of a block of a dump.
    Body(BlockKind),
    /// Inside the body of a block read on its own: its end ends decoding.
    Single(BlockKind),
    /// Past the sentinel, or past the end of a block read on its own.
    Done,
}

/// The kind of block whose header `line` starts with, if any.
pub open spec fn header_kind(line: Seq<char>) -> Option<BlockKind> {
    if starts_with(line, header_text(BlockKind::ProtocolPreamble)) {
        Some(BlockKind::ProtocolPreamble)
    } else if starts_with(line, header_text(BlockKind::DeviceInfo)) {
        Some(BlockKind::DeviceInfo)
    } else if starts_with(line, header_text(BlockKind::InputLabels)) {
        Some(BlockKind::InputLabels)
    } else if starts_with(line, header_text(BlockKind::OutputLabels)) {
        Some(BlockKind::OutputLabels)
    } else if starts_with(line, header_text(BlockKind::VideoOutputLocks)) {
        Some(BlockKind::VideoOutputLocks)
    } else if starts_with(line, header_text(BlockKind::VideoOutputRouting)) {
        Some(BlockKind::VideoOutputRouting)
    } else if starts_with(line, header_text(BlockKind::Configuration)) {
        Some(BlockKind::Configuration)
    } else if starts_with(line, header_text(BlockKind::EndPrelude)) {
        Some(BlockKind::EndPrelude)
    } else {
        None
    }
}

/// A key/value line split at its first `:`; the value loses its leading
/// whitespace.
pub open spec fn key_value(line: Seq<char>) -> Option<(Seq<char>, Seq<char>)> {
    let c = find_char(line, 0, ':');
    if c >= line.len() {
        None
    } else {
        Some((line.subrange(0, c), trim_start(line.subrange(c + 1, line.len() as int))))
    }
}

/// An indexed line: a decimal index up to the first whitespace, one
/// whitespace character, then the value up to the end of the line.
pub open spec fn index_value(k: BlockKind, line: Seq<char>) -> Result<(usize, Seq<char>), ErrorView> {
    let w = find_space(line, 0);
    match parse_decimal(line.subrange(0, w)) {
        None => Err(ErrorView::IntegerParse { block: k, line }),
        Some(i) => if w >= line.len() {
            Err(ErrorView::UnexpectedEndOfInput { block: k, line })
        } else {
            Ok((i, line.subrange(w + 1, line.len() as int)))
        },
    }
}

pub open spec fn numeric_field(d: DeviceInfoView, key: Seq<char>, n: usize) -> DeviceInfoView {
    if key == "Video inputs"@ {
        DeviceInfoView { nb_video_inputs: n, ..d }
    } else if key == "Video processing units"@ {
        DeviceInfoView { nb_video_processing_units: n, ..d }
    } else if key == "Video outputs"@ {
        DeviceInfoView { nb_video_outputs: n, ..d }
    } else if key == "Video monitoring outputs"@ {
        DeviceInfoView { nb_video_monitoring_outputs: n, ..d }
    } else {
        DeviceInfoView { nb_serial_ports: n, ..d }
    }
}

pub open spec fn is_numeric_key(key: Seq<char>) -> bool {
    key == "Video inputs"@ || key == "Video processing units"@ || key == "Video outputs"@ || key
        == "Video monitoring outputs"@ || key == "Serial ports"@
}

/// One `key: value` line of the `VIDEOHUB DEVICE` block applied to `d`.
pub open spec fn device_field(d: DeviceInfoView, key: Seq<char>, val: Seq<char>, line: Seq<char>) -> Result<
    DeviceInfoView,
    ErrorView,
> {
    if key == "Device present"@ {
        match device_present_code(val) {
            Some(p) => Ok(DeviceInfoView { device_present: p, ..d }),
            None => Err(ErrorView::InvalidEnumCode { block: BlockKind::DeviceInfo, line }),
        }
    } else if key == "Model name"@ {
        Ok(DeviceInfoView { model_name: val, ..d })
    } else if key == "Friendly name"@ {
        Ok(DeviceInfoView { friendly_name: val, ..d })
    } else if key == "Unique ID"@ {
        Ok(DeviceInfoView { unique_id: val, ..d })
    } else if is_numeric_key(key) {
        match parse_decimal(val) {
            Some(n) => Ok(numeric_field(d, key, n)),
            None => Err(ErrorView::IntegerParse { block: BlockKind::DeviceInfo, line }),
        }
    } else {
        Ok(d)
    }
}

/// One `key: value` line of a key/value block applied to `h`; unknown keys
/// change nothing.
pub open spec fn key_value_field(
    k: BlockKind,
    key: Seq<char>,
    val: Seq<char>,
    line: Seq<char>,
    h: HubInfoView,
) -> Result<HubInfoView, ErrorView> {
    match k {
        BlockKind::ProtocolPreamble => if key == "Version"@ {
            Ok(HubInfoView { version: val, ..h })
        } else {
            Ok(h)
        },
        BlockKind::DeviceInfo => match device_field(h.device_info, key, val, line) {
            Ok(d) => Ok(HubInfoView { device_info: d, ..h }),
            Err(e) => Err(e),
        },
        BlockKind::Configuration => if key == "Take Mode"@ {
            match bool_code(val) {
                Some(b) => Ok(HubInfoView { configuration: Configuration { take_mode: b }, ..h }),
                None => Err(ErrorView::InvalidEnumCode { block: k, line }),
            }
        } else {
            Ok(h)
        },
        _ => Ok(h),
    }
}

pub open spec fn is_key_value_block(k: BlockKind) -> bool {
    k == BlockKind::ProtocolPreamble || k == BlockKind::DeviceInfo || k == BlockKind::Configuration
}

/// One non-empty body line of a block of kind `k` applied to `h`.
pub open spec fn body_line(k: BlockKind, line: Seq<char>, h: HubInfoView) -> Result<HubInfoView, ErrorView> {
    if is_key_value_block(k) {
        match key_value(line) {
            None => Err(ErrorView::MalformedLine { block: k, line }),
            Some((key, val)) => key_value_field(k, key, val, line, h),
        }
    } else if k == BlockKind::EndPrelude {
        Ok(h)
    } else {
        match index_value(k, line) {
            Err(e) => Err(e),
            Ok((i, v)) => match k {
                BlockKind::InputLabels => Ok(
                    HubInfoView { input_labels: h.input_labels.push((i, v)), ..h },
                ),
                BlockKind::OutputLabels => Ok(
                    HubInfoView { output_labels: h.output_labels.push((i, v)), ..h },
                ),
                BlockKind::VideoOutputLocks => match lock_code(v) {
                    Some(st) => Ok(
                        HubInfoView {
                            video_output_locks: h.video_output_locks.push(OutputLock(i, st)),
                            ..h
                        },
                    ),
                    None => Err(ErrorView::InvalidEnumCode { block: k, line }),
                },
                _ => match parse_decimal(v) {
                    Some(src) => Ok(
                        HubInfoView {
                            video_output_routing: h.video_output_routing.push(Route(i, src)),
                            ..h
                        },
                    ),
                    None => Err(ErrorView::IntegerParse { block: k, line }),
                },
            },
        }
    }
}

/// `h` with the section that a block of kind `k` fills set back to empty:
/// each block replaces what an earlier block of its kind reported.
pub open spec fn start_block(h: HubInfoView, k: BlockKind) -> HubInfoView {
    match k {
        BlockKind::ProtocolPreamble => HubInfoView { version: Seq::empty(), ..h },
        BlockKind::DeviceInfo => HubInfoView { device_info: empty_device_info(), ..h },
        BlockKind::InputLabels => HubInfoView { input_labels: Seq::empty(), ..h },
        BlockKind::OutputLabels => HubInfoView { output_labels: Seq::empty(), ..h },
        BlockKind::VideoOutputLocks => HubInfoView { video_output_locks: Seq::empty(), ..h },
        BlockKind::VideoOutputRouting => HubInfoView { video_output_routing: Seq::empty(), ..h },
        BlockKind::Configuration => HubInfoView {
            configuration: Configuration { take_mode: false },
            ..h
        },
        BlockKind::EndPrelude => h,
    }
}

/// What one line does to the decoder.
pub open spec fn step(mode: Mode, line: Seq<char>, h: HubInfoView) -> Result<(Mode, HubInfoView), ErrorView> {
    match mode {
        Mode::Between => if line.len() == 0 {
            Ok((Mode::Between, h))
        } else {
            match header_kind(line) {
                None => Err(ErrorView::UnknownBlockHeader { line }),
                Some(k) => if k == BlockKind::EndPrelude {
                    Ok((Mode::Done, h))
                } else {
                    Ok((Mode::Body(k), start_block(h, k)))
                },
            }
        },
        Mode::Body(k) => if line.len() == 0 {
            Ok((Mode::Between, h))
        } else {
            match body_line(k, line, h) {
                Ok(h2) => Ok((Mode::Body(k), h2)),
                Err(e) => Err(e),
            }
        },
        Mode::Single(k) => if line.len() == 0 {
            Ok((Mode::Done, h))
        } else {
            match body_line(k, line, h) {
                Ok(h2) => Ok((Mode::Single(k), h2)),
                Err(e) => Err(e),
            }
        },
        Mode::Done => Ok((Mode::Done, h)),
    }
}

/// Decoding `s` from character `i`, where the current line began at `start`.
pub open spec fn run(s: Seq<char>, i: int, start: int, mode: Mode, h: HubInfoView) -> Result<
    HubInfoView,
    ErrorView,
>
    decreases s.len() - i,
{
    if mode == Mode::Done {
        Ok(h)
    } else if i >= s.len() {
        if start < s.len() {
            match step(mode, s.subrange(start, s.len() as int), h) {
                Ok((_, h2)) => Ok(h2),
                Err(e) => Err(e),
            }
        } else {
            Ok(h)
        }
    } else if s[i] == '\n' {
        match step(mode, s.subrange(start, i), h) {
            Ok((m2, h2)) => run(s, i + 1, i + 1, m2, h2),
            Err(e) => Err(e),
        }
    } else {
        run(s, i + 1, start, mode, h)
    }
}

/// What decoding the dump `s` gives.
pub open spec fn decode_text(s: Seq<char>) -> Result<HubInfoView, ErrorView> {
    run(s, 0, 0, Mode::Between, empty_hub())
}

/// What decoding `s` as the body of one block of kind `k` gives; the body
/// ends at the first empty line.
pub open spec fn decode_block(k: BlockKind, s: Seq<char>) -> Result<HubInfoView, ErrorView> {
    run(s, 0, 0, Mode::Single(k), empty_hub())
}

/// Accumulates a `HubInfo` line by line; only a completed decode hands it out.
pub struct Deserializer {
    hub_infos: HubInfo,
    mode: Mode,
}

impl Deserializer {
    pub fn new() -> Self {
        Deserializer { hub_infos: HubInfo::empty(), mode: Mode::Between }
    }

    /// Decodes a whole dump. The result depends on `s` alone, not on what
    /// this decoder read before.
    pub fn deserialize(&mut self, s: &str) -> (r: Result<HubInfo, Error>)
        ensures
            view_result(r) == decode_text(s@),
    {
        self.hub_infos = HubInfo::empty();
        self.mode = Mode::Between;
        let chars = chars_of(s);
        match self.run_chars(&chars) {
            Ok(()) => {
                let mut out = HubInfo::empty();
                std::mem::swap(&mut out, &mut self.hub_infos);
                Ok(out)
            },
            Err(e) => Err(e),
        }
    }

    /// Decodes `block` as the body of one block of kind `k`, starting from `h`.
    fn decode_single(k: BlockKind, block: &str, h: HubInfo) -> (r: Result<HubInfo, Error>)
        ensures
            view_result(r) == run(block@, 0, 0, Mode::Single(k), h@),
    {
        let mut de = Deserializer { hub_infos: h, mode: Mode::Single(k) };
        let chars = chars_of(block);
        match de.run_chars(&chars) {
            Ok(()) => Ok(de.hub_infos),
            Err(e) => Err(e),
        }
    }

    /// Decodes the body of a `PROTOCOL PREAMBLE` block.
    pub fn deserialize_protocol_preamble(block: &str) -> (r: Result<ProtocolPreamble, Error>)
        ensures
            match decode_block(BlockKind::ProtocolPreamble, block@) {
                Ok(h) => r is Ok && r->Ok_0@ == h.version,
                Err(e) => r is Err && r->Err_0@ == e,
            },
    {
        match Self::decode_single(BlockKind::ProtocolPreamble, block, HubInfo::empty()) {
            Ok(h) => Ok(h.protocol_preamble),
            Err(e) => Err(e),
        }
    }

    /// Decodes the body of a `VIDEOHUB DEVICE` block.
    pub fn deserialize_device_info(block: &str) -> (r: Result<DeviceInfo, Error>)
        ensures
            match decode_block(BlockKind::DeviceInfo, block@) {
                Ok(h) => r is Ok && r->Ok_0@ == h.device_info,
                Err(e) => r is Err && r->Err_0@ == e,
            },
    {
        match Self::decode_single(BlockKind::DeviceInfo, block, HubInfo::empty()) {
            Ok(h) => Ok(h.device_info),
            Err(e) => Err(e),
        }
    }

    /// Decodes the body of an `INPUT LABELS` or `OUTPUT LABELS` block.
    /// `expected_size` only reserves room: the lines decide the length.
    pub fn deserialize_labels(block: &str, expected_size: usize) -> (r: Result<Vec<Label>, Error>)
        ensures
            match decode_block(BlockKind::InputLabels, block@) {
                Ok(h) => r is Ok && labels_view(r->Ok_0@) == h.input_labels,
                Err(e) => r is Err && r->Err_0@ == e,
            },
    {
        let mut h = HubInfo::empty();
        h.input_labels = Vec::with_capacity(expected_size);
        assert(labels_view(h.input_labels@) =~= Seq::empty());
        match Self::decode_single(BlockKind::InputLabels, block, h) {
            Ok(h) => Ok(h.input_labels),
            Err(e) => Err(e),
        }
    }

    /// Decodes the body of a `VIDEO OUTPUT LOCKS` block.
    /// `expected_size` only reserves room: the lines decide the length.
    pub fn deserialize_output_locks(block: &str, expected_size: usize) -> (r: Result<
        Vec<OutputLock>,
        Error,
    >)
        ensures
            match decode_block(BlockKind::VideoOutputLocks, block@) {
                Ok(h) => r is Ok && r->Ok_0@ == h.video_output_locks,
                Err(e) => r is Err && r->Err_0@ == e,
            },
    {
        let mut h = HubInfo::empty();
        h.video_output_locks = Vec::with_capacity(expected_size);
        match Self::decode_single(BlockKind::VideoOutputLocks, block, h) {
            Ok(h) => Ok(h.video_output_locks),
            Err(e) => Err(e),
        }
    }

    /// Decodes the body of a `VIDEO OUTPUT ROUTING` block.
    /// `expected_size` only reserves room: the lines decide the length.
    pub fn deserialize_output_routing(block: &str, expected_size: usize) -> (r: Result<
        Vec<Route>,
        Error,
    >)
        ensures
            match decode_block(BlockKind::VideoOutputRouting, block@) {
                Ok(h) => r is Ok && r->Ok_0@ == h.video_output_routing,
                Err(e) => r is Err && r->Err_0@ == e,
            },
    {
        let mut h = HubInfo::empty();
        h.video_output_routing = Vec::with_capacity(expected_size);
        match Self::decode_single(BlockKind::VideoOutputRouting, block, h) {
            Ok(h) => Ok(h.video_output_routing),
            Err(e) => Err(e),
        }
    }

    /// Decodes the body of a `CONFIGURATION` block.
    pub fn deserialize_configuration(block: &str) -> (r: Result<Configuration, Error>)
        ensures
            match decode_block(BlockKind::Configuration, block@) {
                Ok(h) => r is Ok && r->Ok_0 == h.configuration,
                Err(e) => r is Err && r->Err_0@ == e,
            },
    {
        match Self::decode_single(BlockKind::Configuration, block, HubInfo::empty()) {
            Ok(h) => Ok(h.configuration),
            Err(e) => Err(e),
        }
    }

    /// Decodes the body of an `END PRELUDE` block, which carries nothing.
    pub fn deserialize_end_prelude(block: &str) -> (r: Result<EndPrelude, Error>)
        ensures
            match decode_block(BlockKind::EndPrelude, block@) {
                Ok(_) => r is Ok,
                Err(e) => r is Err && r->Err_0@ == e,
            },
    {
        match Self::decode_single(BlockKind::EndPrelude, block, HubInfo::empty()) {
            Ok(h) => Ok(h.end_prelude),
            Err(e) => Err(e),
        }
    }

    /// Splits one indexed line, such as `2 Bar 2`, into its index and its
    /// value.
    pub fn index_and_value(k: BlockKind, line: &str) -> (r: Result<(usize, String), Error>)
        ensures
            match index_value(k, line@) {
                Ok((i, v)) => r is Ok && r->Ok_0.0 == i && r->Ok_0.1@ == v,
                Err(e) => r is Err && r->Err_0@ == e,
            },
    {
        let chars = chars_of(line);
        assert(chars@.subrange(0, chars@.len() as int) =~= chars@);
        match Self::get_index_and_value_from_line(k, &chars, 0, chars.len()) {
            Ok((i, v)) => Ok((i, string_of_range(&chars, v, chars.len()))),
            Err(e) => Err(e),
        }
    }

    /// Decodes every line of `s`, from the current state.
    fn run_chars(&mut self, s: &Vec<char>) -> (r: Result<(), Error>)
        ensures
            match run(s@, 0, 0, old(self).mode, old(self).hub_infos@) {
                Ok(h) => r is Ok && final(self).hub_infos@ == h,
                Err(e) => r is Err && r->Err_0@ == e,
            },
    {
        let ghost goal = run(s@, 0, 0, self.mode, self.hub_infos@);
        let mut start: usize = 0;
        let mut i: usize = 0;
        while i < s.len()
            invariant
                start <= i <= s.len(),
                goal == run(s@, 0, 0, old(self).mode, old(self).hub_infos@),
                goal == run(s@, i as int, start as int, self.mode, self.hub_infos@),
            decreases s.len() - i,
        {
            if self.mode == Mode::Done {
                return Ok(());
            }
            if s[i] == '\n' {
                match self.feed_line(s, start, i) {
                    Ok(()) => {},
                    Err(e) => {
                        return Err(e);
                    },
                }
                start = i + 1;
            }
            i = i + 1;
        }
        if self.mode != Mode::Done && start < s.len() {
            match self.feed_line(s, start, s.len()) {
                Ok(()) => {},
                Err(e) => {
                    return Err(e);
                },
            }
        }
        Ok(())
    }

    /// Applies the line `s[a..e]`.
    fn feed_line(&mut self, s: &Vec<char>, a: usize, e: usize) -> (r: Result<(), Error>)
        requires
            a <= e <= s.len(),
        ensures
            match step(old(self).mode, s@.subrange(a as int, e as int), old(self).hub_infos@) {
                Ok((m, h)) => r is Ok && final(self).mode == m && final(self).hub_infos@ == h,
                Err(er) => r is Err && r->Err_0@ == er,
            },
    {
        match self.mode {
            Mode::Between => {
                if a == e {
                    return Ok(());
                }
                match Self::get_block_type(s, a, e) {
                    None => Err(Error::UnknownBlockHeader { line: string_of_range(s, a, e) }),
                    Some(k) => {
                        if k == BlockKind::EndPrelude {
                            self.mode = Mode::Done;
                        } else {
                            self.start_block(k);
                            self.mode = Mode::Body(k);
                        }
                        Ok(())
                    },
                }
            },
            Mode::Body(k) => {
                if a == e {
                    self.mode = Mode::Between;
                    return Ok(());
                }
                self.deserialize_block(k, s, a, e)
            },
            Mode::Single(k) => {
                if a == e {
                    self.mode = Mode::Done;
                    return Ok(());
                }
                self.deserialize_block(k, s, a, e)
            },
            Mode::Done => Ok(()),
        }
    }

    /// The block whose header the line `s[a..e]` starts with.
    fn get_block_type(s: &Vec<char>, a: usize, e: usize) -> (r: Option<BlockKind>)
        requires
            a <= e <= s.len(),
        ensures
            r == header_kind(s@.subrange(a as int, e as int)),
    {
        if range_starts_with(s, a, e, header_str(BlockKind::ProtocolPreamble)) {
            Some(BlockKind::ProtocolPreamble)
        } else if range_starts_with(s, a, e, header_str(BlockKind::DeviceInfo)) {
            Some(BlockKind::DeviceInfo)
        } else if range_starts_with(s, a, e, header_str(BlockKind::InputLabels)) {
            Some(BlockKind::InputLabels)
        } else if range_starts_with(s, a, e, header_str(BlockKind::OutputLabels)) {
            Some(BlockKind::OutputLabels)
        } else if range_starts_with(s, a, e, header_str(BlockKind::VideoOutputLocks)) {
            Some(BlockKind::VideoOutputLocks)
        } else if range_starts_with(s, a, e, header_str(BlockKind::VideoOutputRouting)) {
            Some(BlockKind::VideoOutputRouting)
        } else if range_starts_with(s, a, e, header_str(BlockKind::Configuration)) {
            Some(BlockKind::Configuration)
        } else if range_starts_with(s, a, e, header_str(BlockKind::EndPrelude)) {
            Some(BlockKind::EndPrelude)
        } else {
            None
        }
    }

    /// Empties the section that a block of kind `k` fills.
    fn start_block(&mut self, k: BlockKind)
        ensures
            final(self).mode == old(self).mode,
            final(self).hub_infos@ == start_block(old(self).hub_infos@, k),
    {
        match k {
            BlockKind::ProtocolPreamble => {
                self.hub_infos.protocol_preamble = ProtocolPreamble { version: String::new() };
            },
            BlockKind::DeviceInfo => {
                self.hub_infos.device_info = DeviceInfo::empty();
            },
            BlockKind::InputLabels => {
                self.hub_infos.input_labels = Vec::new();
                assert(labels_view(self.hub_infos.input_labels@) =~= Seq::empty());
            },
            BlockKind::OutputLabels => {
                self.hub_infos.output_labels = Vec::new();
                assert(labels_view(self.hub_infos.output_labels@) =~= Seq::empty());
            },
            BlockKind::VideoOutputLocks => {
                self.hub_infos.video_output_locks = Vec::new();
            },
            BlockKind::VideoOutputRouting => {
                self.hub_infos.video_output_routing = Vec::new();
            },
            BlockKind::Configuration => {
                self.hub_infos.configuration = Configuration { take_mode: false };
            },
            BlockKind::EndPrelude => {},
        }
    }

    /// Applies the non-empty body line `s[a..e]` of a block of kind `k`.
    fn deserialize_block(&mut self, k: BlockKind, s: &Vec<char>, a: usize, e: usize) -> (r: Result<
        (),
        Error,
    >)
        requires
            a < e <= s.len(),
        ensures
            final(self).mode == old(self).mode,
            match body_line(k, s@.subrange(a as int, e as int), old(self).hub_infos@) {
                Ok(h) => r is Ok && final(self).hub_infos@ == h,
                Err(er) => r is Err && r->Err_0@ == er,
            },
    {
        let ghost line = s@.subrange(a as int, e as int);
        match k {
            BlockKind::ProtocolPreamble | BlockKind::DeviceInfo | BlockKind::Configuration => {
                match Self::get_key_and_value_from_line(k, s, a, e) {
                    Err(er) => Err(er),
                    Ok((colon, v)) => self.deserialize_field(k, s, a, colon, v, e),
                }
            },
            BlockKind::EndPrelude => Ok(()),
            _ => {
                match Self::get_index_and_value_from_line(k, s, a, e) {
                    Err(er) => Err(er),
                    Ok((index, v)) => {
                        let ghost val = s@.subrange(v as int, e as int);
                        assert(line.subrange(find_space(line, 0) + 1, line.len() as int) =~= val);
                        match k {
                            BlockKind::InputLabels => {
                                let ghost old_labels = self.hub_infos.input_labels@;
                                self.hub_infos.input_labels.push(
                                    Label(index, string_of_range(s, v, e)),
                                );
                                assert(labels_view(self.hub_infos.input_labels@) =~= labels_view(
                                    old_labels,
                                ).push((index, val)));
                                Ok(())
                            },
                            BlockKind::OutputLabels => {
                                let ghost old_labels = self.hub_infos.output_labels@;
                                self.hub_infos.output_labels.push(
                                    Label(index, string_of_range(s, v, e)),
                                );
                                assert(labels_view(self.hub_infos.output_labels@) =~= labels_view(
                                    old_labels,
                                ).push((index, val)));
                                Ok(())
                            },
                            BlockKind::VideoOutputLocks => {
                                match parse_lock_status(s, v, e) {
                                    Some(st) => {
                                        self.hub_infos.video_output_locks.push(
                                            OutputLock(index, st),
                                        );
                                        Ok(())
                                    },
                                    None => Err(
                                        Error::InvalidEnumCode {
                                            block: k,
                                            line: string_of_range(s, a, e),
                                        },
                                    ),
                                }
                            },
                            _ => {
                                match parse_decimal_in(s, v, e) {
                                    Some(src) => {
                                        self.hub_infos.video_output_routing.push(
                                            Route(index, src),
                                        );
                                        Ok(())
                                    },
                                    None => Err(
                                        Error::IntegerParse {
                                            block: k,
                                            line: string_of_range(s, a, e),
                                        },
                                    ),
                                }
                            },
                        }
                    },
                }
            },
        }
    }

    /// Splits the key/value line `s[a..e]`: returns the position of its first
    /// `:` and the position where its value starts, past leading whitespace.
    fn get_key_and_value_from_line(k: BlockKind, s: &Vec<char>, a: usize, e: usize) -> (r: Result<
        (usize, usize),
        Error,
    >)
        requires
            a <= e <= s.len(),
        ensures
            match key_value(s@.subrange(a as int, e as int)) {
                None => r is Err && r->Err_0@ == (ErrorView::MalformedLine {
                    block: k,
                    line: s@.subrange(a as int, e as int),
                }),
                Some((key, val)) => r is Ok && a <= r->Ok_0.0 < r->Ok_0.1 <= e + 1 && r->Ok_0.1
                    <= e && key == s@.subrange(a as int, r->Ok_0.0 as int) && val == s@.subrange(
                    r->Ok_0.1 as int,
                    e as int,
                ),
            },
    {
        let ghost line = s@.subrange(a as int, e as int);
        let colon = find_char_in(s, a, e, ':');
        if colon == e {
            return Err(Error::MalformedLine { block: k, line: string_of_range(s, a, e) });
        }
        let v = skip_spaces_in(s, colon + 1, e);
        proof {
            let rest = line.subrange(colon - a + 1, line.len() as int);
            assert(rest =~= s@.subrange(colon + 1, e as int));
            assert(trim_start(rest) =~= s@.subrange(v as int, e as int));
            assert(line.subrange(0, colon - a) =~= s@.subrange(a as int, colon as int));
        }
        Ok((colon, v))
    }

    /// Splits the indexed line `s[a..e]`: returns its index and the position
    /// where its value starts.
    fn get_index_and_value_from_line(k: BlockKind, s: &Vec<char>, a: usize, e: usize) -> (r: Result<
        (usize, usize),
        Error,
    >)
        requires
            a <= e <= s.len(),
        ensures
            match index_value(k, s@.subrange(a as int, e as int)) {
                Err(er) => r is Err && r->Err_0@ == er,
                Ok((i, val)) => r is Ok && r->Ok_0.0 == i && a < r->Ok_0.1 <= e && r->Ok_0.1 - 1 - a
                    == find_space(s@.subrange(a as int, e as int), 0) && val == s@.subrange(
                    r->Ok_0.1 as int,
                    e as int,
                ),
            },
    {
        let ghost line = s@.subrange(a as int, e as int);
        let w = find_space_in(s, a, e);
        assert(line.subrange(0, w - a) =~= s@.subrange(a as int, w as int));
        match parse_decimal_in(s, a, w) {
            None => Err(Error::IntegerParse { block: k, line: string_of_range(s, a, e) }),
            Some(index) => {
                if w == e {
                    return Err(
                        Error::UnexpectedEndOfInput { block: k, line: string_of_range(s, a, e) },
                    );
                }
                assert(line.subrange(w - a + 1, line.len() as int) =~= s@.subrange(
                    w + 1,
                    e as int,
                ));
                Ok((index, w + 1))
            },
        }
    }

    /// Applies the field `s[a..colon]` with value `s[v..e]` of a key/value
    /// block of kind `k`.
    fn deserialize_field(
        &mut self,
        k: BlockKind,
        s: &Vec<char>,
        a: usize,
        colon: usize,
        v: usize,
        e: usize,
    ) -> (r: Result<(), Error>)
        requires
            a <= colon < v <= e + 1,
            v <= e <= s.len(),
            is_key_value_block(k),
        ensures
            final(self).mode == old(self).mode,
            match key_value_field(
                k,
                s@.subrange(a as int, colon as int),
                s@.subrange(v as int, e as int),
                s@.subrange(a as int, e as int),
                old(self).hub_infos@,
            ) {
                Ok(h) => r is Ok && final(self).hub_infos@ == h,
                Err(er) => r is Err && r->Err_0@ == er,
            },
    {
        match k {
            BlockKind::ProtocolPreamble => {
                if range_eq(s, a, colon, "Version") {
                    self.hub_infos.protocol_preamble.version = string_of_range(s, v, e);
                }
                Ok(())
            },
            BlockKind::Configuration => {
                if range_eq(s, a, colon, "Take Mode") {
                    match parse_bool_in(s, v, e) {
                        Some(b) => {
                            self.hub_infos.configuration = Configuration { take_mode: b };
                            Ok(())
                        },
                        None => Err(
                            Error::InvalidEnumCode { block: k, line: string_of_range(s, a, e) },
                        ),
                    }
                } else {
                    Ok(())
                }
            },
            _ => Self::deserialize_device_field(&mut self.hub_infos.device_info, s, a, colon, v, e),
        }
    }

    /// Applies one field of the `VIDEOHUB DEVICE` block.
    fn deserialize_device_field(
        d: &mut DeviceInfo,
        s: &Vec<char>,
        a: usize,
        colon: usize,
        v: usize,
        e: usize,
    ) -> (r: Result<(), Error>)
        requires
            a <= colon < v <= e + 1,
            v <= e <= s.len(),
        ensures
            match device_field(
                old(d)@,
                s@.subrange(a as int, colon as int),
                s@.subrange(v as int, e as int),
                s@.subrange(a as int, e as int),
            ) {
                Ok(dv) => r is Ok && final(d)@ == dv,
                Err(er) => r is Err && r->Err_0@ == er,
            },
    {
        if range_eq(s, a, colon, "Device present") {
            match parse_device_present(s, v, e) {
                Some(p) => {
                    d.device_present = p;
                    Ok(())
                },
                None => Err(
                    Error::InvalidEnumCode {
                        block: BlockKind::DeviceInfo,
                        line: string_of_range(s, a, e),
                    },
                ),
            }
        } else if range_eq(s, a, colon, "Model name") {
            d.model_name = string_of_range(s, v, e);
            Ok(())
        } else if range_eq(s, a, colon, "Friendly name") {
            d.friendly_name = string_of_range(s, v, e);
            Ok(())
        } else if range_eq(s, a, colon, "Unique ID") {
            d.unique_id = string_of_range(s, v, e);
            Ok(())
        } else {
            let inputs = range_eq(s, a, colon, "Video inputs");
            let units = range_eq(s, a, colon, "Video processing units");
            let outputs = range_eq(s, a, colon, "Video outputs");
            let monitoring = range_eq(s, a, colon, "Video monitoring outputs");
            let serial = range_eq(s, a, colon, "Serial ports");
            if !(inputs || units || outputs || monitoring || serial) {
                return Ok(());
            }
            match parse_decimal_in(s, v, e) {
                None => Err(
                    Error::IntegerParse {
                        block: BlockKind::DeviceInfo,
                        line: string_of_range(s, a, e),
                    },
                ),
                Some(n) => {
                    if inputs {
                        d.nb_video_inputs = n;
                    } else if units {
                        d.nb_video_processing_units = n;
                    } else if outputs {
                        d.nb_video_outputs = n;
                    } else if monitoring {
                        d.nb_video_monitoring_outputs = n;
                    } else {
                        d.nb_serial_ports = n;
                    }
                    Ok(())
                },
            }
        }
    }
}

/// Decodes a whole dump.
pub fn from_str(s: &str) -> (r: Result<HubInfo, Error>)
    ensures
        view_result(r) == decode_text(s@),
{
    let mut de = Deserializer::new();
    de.deserialize(s)
}

/// The number written in `text`: a non-empty run of decimal digits that fits
/// in `usize`.
pub fn parse_unsigned(text: &str) -> (r: Option<usize>)
    ensures
        r == parse_decimal(text@),
{
    let chars = chars_of(text);
    assert(chars@.subrange(0, chars@.len() as int) =~= chars@);
    parse_decimal_in(&chars, 0, chars.len())
}

/// The boolean written in `text`: `true` or `false`.
pub fn parse_bool(text: &str) -> (r: Option<bool>)
    ensures
        r == bool_code(text@),
{
    let chars = chars_of(text);
    assert(chars@.subrange(0, chars@.len() as int) =~= chars@);
    parse_bool_in(&chars, 0, chars.len())
}

/// The end of the first word of `s`: its first `:` or `'\n'`, or its length.
pub open spec fn word_end(s: Seq<char>) -> int {
    let c = find_char(s, 0, ':');
    let n = find_char(s, 0, '\n');
    if c < n {
        c
    } else {
        n
    }
}

/// The text of `text` up to its first `:` or `'\n'`.
pub fn parse_string(text: &str) -> (r: String)
    ensures
        r@ == text@.subrange(0, word_end(text@)),
{
    let chars = chars_of(text);
    assert(chars@.subrange(0, chars@.len() as int) =~= chars@);
    let c = find_char_in(&chars, 0, chars.len(), ':');
    let n = find_char_in(&chars, 0, chars.len(), '\n');
    let end = if c < n {
        c
    } else {
        n
    };
    string_of_range(&chars, 0, end)
}

/// Numbers separated by `sep`, read from `i` where the current field began at
/// `start`. An empty field ends the list; a field that is not a number
/// fails it.
pub open spec fn number_list(s: Seq<char>, i: int, start: int, sep: char, acc: Seq<usize>) -> Option<
    Seq<usize>,
>
    decreases s.len() - i,
{
    if i >= s.len() {
        if start < s.len() {
            match parse_decimal(s.subrange(start, s.len() as int)) {
                Some(n) => Some(acc.push(n)),
                None => None,
            }
        } else {
            Some(acc)
        }
    } else if s[i] == sep {
        if i == start {
            Some(acc)
        } else {
            match parse_decimal(s.subrange(start, i)) {
                Some(n) => number_list(s, i + 1, i + 1, sep, acc.push(n)),
                None => None,
            }
        }
    } else {
        number_list(s, i + 1, start, sep, acc)
    }
}

/// Reads numbers separated by `sep`: `'\n'` for a newline-separated sequence
/// (which a blank line ends), `' '` for a space-separated tuple.
pub fn parse_unsigned_list(text: &str, sep: char) -> (r: Option<Vec<usize>>)
    ensures
        match number_list(text@, 0, 0, sep, Seq::empty()) {
            Some(ns) => r is Some && r->Some_0@ == ns,
            None => r is None,
        },
{
    let s = chars_of(text);
    let ghost goal = number_list(s@, 0, 0, sep, Seq::empty());
    let mut out: Vec<usize> = Vec::new();
    let mut start: usize = 0;
    let mut i: usize = 0;
    while i < s.len()
        invariant
            start <= i <= s.len(),
            s@ == text@,
            goal == number_list(s@, 0, 0, sep, Seq::empty()),
            goal == number_list(s@, i as int, start as int, sep, out@),
        decreases s.len() - i,
    {
        if s[i] == sep {
            if i == start {
                return Some(out);
            }
            match parse_decimal_in(&s, start, i) {
                Some(n) => {
                    out.push(n);
                },
                None => {
                    return None;
                },
            }
            start = i + 1;
        }
        i = i + 1;
    }
    if start < s.len() {
        match parse_decimal_in(&s, start, s.len()) {
            Some(n) => {
                out.push(n);
            },
            None => {
                return None;
            },
        }
    }
    Some(out)
}

} // verus!
