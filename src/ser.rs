//! Encoding one block as the text a device accepts.
use crate::model::{
    block_kind, labels_view, BlockType, BlockView, DeviceInfo, DeviceInfoView, Label, OutputLock,
    Route,
};
use crate::text::{chars_of, decimal, push_char, push_decimal, push_range};
use crate::wire::{
    bool_str, bool_text, device_present_str, device_present_text, header_str, header_text,
    lock_str, lock_text,
};
use vstd::prelude::*;

verus! {

/// `key: value` and a line end.
pub open spec fn field_line(key: Seq<char>, val: Seq<char>) -> Seq<char> {
    key + seq![':', ' '] + val + seq!['\n']
}

/// `index value` and a line end.
pub open spec fn index_line(i: usize, val: Seq<char>) -> Seq<char> {
    decimal(i as nat) + seq![' '] + val + seq!['\n']
}

pub open spec fn labels_text(ls: Seq<(usize, Seq<char>)>) -> Seq<char>
    decreases ls.len(),
{
    if ls.len() == 0 {
        Seq::empty()
    } else {
        labels_text(ls.drop_last()) + index_line(ls.last().0, ls.last().1)
    }
}

pub open spec fn locks_text(ls: Seq<OutputLock>) -> Seq<char>
    decreases ls.len(),
{
    if ls.len() == 0 {
        Seq::empty()
    } else {
        locks_text(ls.drop_last()) + index_line(ls.last().0, lock_text(ls.last().1))
    }
}

pub open spec fn routes_text(rs: Seq<Route>) -> Seq<char>
    decreases rs.len(),
{
    if rs.len() == 0 {
        Seq::empty()
    } else {
        routes_text(rs.drop_last()) + index_line(rs.last().0, decimal(rs.last().1 as nat))
    }
}

pub open spec fn device_info_text(d: DeviceInfoView) -> Seq<char> {
    field_line("Device present"@, device_present_text(d.device_present)) + field_line(
        "Model name"@,
        d.model_name,
    ) + field_line("Friendly name"@, d.friendly_name) + field_line("Unique ID"@, d.unique_id)
        + field_line("Video inputs"@, decimal(d.nb_video_inputs as nat)) + field_line(
        "Video processing units"@,
        decimal(d.nb_video_processing_units as nat),
    ) + field_line("Video outputs"@, decimal(d.nb_video_outputs as nat)) + field_line(
        "Video monitoring outputs"@,
        decimal(d.nb_video_monitoring_outputs as nat),
    ) + field_line("Serial ports"@, decimal(d.nb_serial_ports as nat))
}

/// The lines between the header of a block and its closing blank line.
pub open spec fn body_text(b: BlockView) -> Seq<char> {
    match b {
        BlockView::ProtocolPreamble(v) => field_line("Version"@, v),
        BlockView::DeviceInfo(d) => device_info_text(d),
        BlockView::InputLabels(ls) => labels_text(ls),
        BlockView::OutputLabels(ls) => labels_text(ls),
        BlockView::VideoOutputLocks(ls) => locks_text(ls),
        BlockView::VideoOutputRouting(rs) => routes_text(rs),
        BlockView::Configuration(c) => field_line("Take Mode"@, bool_text(c.take_mode)),
        BlockView::EndPrelude => Seq::empty(),
    }
}

/// The wire text of one block: header line, body, blank line.
pub open spec fn encode_block(b: BlockView) -> Seq<char> {
    header_text(block_kind(b)) + seq!['\n'] + body_text(b) + seq!['\n']
}

/// Builds the text of outgoing blocks.
pub struct Serializer {
    output: String,
}

impl View for Serializer {
    type V = Seq<char>;

    closed spec fn view(&self) -> Seq<char> {
        self.output@
    }
}

impl Serializer {
    pub fn new() -> (r: Self)
        ensures
            r@ == Seq::<char>::empty(),
    {
        Serializer { output: String::new() }
    }

    /// The text written so far.
    pub fn into_output(self) -> (r: String)
        ensures
            r@ == self@,
    {
        self.output
    }

    pub fn serialize_str(&mut self, v: &str)
        ensures
            final(self)@ == old(self)@ + v@,
    {
        let cs = chars_of(v);
        assert(cs@.subrange(0, cs@.len() as int) =~= cs@);
        push_range(&mut self.output, &cs, 0, cs.len());
    }

    pub fn serialize_usize(&mut self, v: usize)
        ensures
            final(self)@ == old(self)@ + decimal(v as nat),
    {
        push_decimal(&mut self.output, v);
    }

    pub fn serialize_bool(&mut self, v: bool)
        ensures
            final(self)@ == old(self)@ + bool_text(v),
    {
        self.serialize_str(bool_str(v));
    }

    fn serialize_char(&mut self, c: char)
        ensures
            final(self)@ == old(self)@.push(c),
    {
        push_char(&mut self.output, c);
    }

    fn end_line(&mut self)
        ensures
            final(self)@ == old(self)@ + seq!['\n'],
    {
        self.serialize_char('\n');
        assert(old(self)@.push('\n') =~= old(self)@ + seq!['\n']);
    }

    /// Writes `key: ` ahead of a value.
    fn serialize_key(&mut self, key: &str)
        ensures
            final(self)@ == old(self)@ + key@ + seq![':', ' '],
    {
        self.serialize_str(key);
        let ghost mid = self@;
        self.serialize_char(':');
        self.serialize_char(' ');
        assert(mid.push(':').push(' ') =~= mid + seq![':', ' ']);
    }

    /// Writes the line `key: value`.
    pub fn serialize_field(&mut self, key: &str, value: &str)
        ensures
            final(self)@ == old(self)@ + field_line(key@, value@),
    {
        self.serialize_key(key);
        self.serialize_str(value);
        self.end_line();
        assert(old(self)@ + key@ + seq![':', ' '] + value@ + seq!['\n'] =~= old(self)@ + field_line(
            key@,
            value@,
        ));
    }

    /// Writes the line `key: n`.
    pub fn serialize_numeric_field(&mut self, key: &str, n: usize)
        ensures
            final(self)@ == old(self)@ + field_line(key@, decimal(n as nat)),
    {
        self.serialize_key(key);
        self.serialize_usize(n);
        self.end_line();
        assert(old(self)@ + key@ + seq![':', ' '] + decimal(n as nat) + seq!['\n'] =~= old(self)@
            + field_line(key@, decimal(n as nat)));
    }

    /// Writes the line `index value`.
    fn serialize_index_line(&mut self, index: usize, value: &str)
        ensures
            final(self)@ == old(self)@ + index_line(index, value@),
    {
        let ghost start = self@;
        self.serialize_usize(index);
        self.serialize_char(' ');
        self.serialize_str(value);
        self.end_line();
        assert(start + decimal(index as nat) + seq![' '] + value@ + seq!['\n'] =~= start + index_line(
            index,
            value@,
        ));
        assert((start + decimal(index as nat)).push(' ') =~= start + decimal(index as nat) + seq![' ']);
    }

    pub fn serialize_device_info(&mut self, d: &DeviceInfo)
        ensures
            final(self)@ == old(self)@ + device_info_text(d@),
    {
        let ghost start = self@;
        self.serialize_field("Device present", device_present_str(d.device_present));
        self.serialize_field("Model name", d.model_name.as_str());
        self.serialize_field("Friendly name", d.friendly_name.as_str());
        self.serialize_field("Unique ID", d.unique_id.as_str());
        self.serialize_numeric_field("Video inputs", d.nb_video_inputs);
        self.serialize_numeric_field("Video processing units", d.nb_video_processing_units);
        self.serialize_numeric_field("Video outputs", d.nb_video_outputs);
        self.serialize_numeric_field("Video monitoring outputs", d.nb_video_monitoring_outputs);
        self.serialize_numeric_field("Serial ports", d.nb_serial_ports);
        assert(self@ =~= start + device_info_text(d@));
    }

    /// Writes one line per label, in the order given.
    pub fn serialize_labels(&mut self, labels: &Vec<Label>)
        ensures
            final(self)@ == old(self)@ + labels_text(labels_view(labels@)),
    {
        let ghost start = self@;
        let mut i: usize = 0;
        while i < labels.len()
            invariant
                0 <= i <= labels.len(),
                self@ == start + labels_text(labels_view(labels@.subrange(0, i as int))),
            decreases labels.len() - i,
        {
            self.serialize_index_line(labels[i].0, labels[i].1.as_str());
            let ghost ls = labels_view(labels@.subrange(0, i + 1));
            assert(ls.drop_last() =~= labels_view(labels@.subrange(0, i as int)));
            assert(ls.last() == labels@[i as int]@);
            assert(self@ =~= start + labels_text(ls));
            i = i + 1;
        }
        assert(labels@.subrange(0, labels.len() as int) =~= labels@);
    }

    /// Writes one line per lock, in the order given.
    pub fn serialize_output_locks(&mut self, locks: &Vec<OutputLock>)
        ensures
            final(self)@ == old(self)@ + locks_text(locks@),
    {
        let ghost start = self@;
        let mut i: usize = 0;
        while i < locks.len()
            invariant
                0 <= i <= locks.len(),
                self@ == start + locks_text(locks@.subrange(0, i as int)),
            decreases locks.len() - i,
        {
            let lock = locks[i];
            self.serialize_index_line(lock.0, lock_str(lock.1));
            let ghost ls = locks@.subrange(0, i + 1);
            assert(ls.drop_last() =~= locks@.subrange(0, i as int));
            assert(self@ =~= start + locks_text(ls));
            i = i + 1;
        }
        assert(locks@.subrange(0, locks.len() as int) =~= locks@);
    }

    /// Writes one line per route, destination first, in the order given.
    pub fn serialize_video_output_routes(&mut self, routes: &Vec<Route>)
        ensures
            final(self)@ == old(self)@ + routes_text(routes@),
    {
        let ghost start = self@;
        let mut i: usize = 0;
        while i < routes.len()
            invariant
                0 <= i <= routes.len(),
                self@ == start + routes_text(routes@.subrange(0, i as int)),
            decreases routes.len() - i,
        {
            let route = routes[i];
            let ghost before = self@;
            self.serialize_usize(route.0);
            self.serialize_char(' ');
            self.serialize_usize(route.1);
            self.end_line();
            let ghost rs = routes@.subrange(0, i + 1);
            assert(rs.drop_last() =~= routes@.subrange(0, i as int));
            assert((before + decimal(route.0 as nat)).push(' ') =~= before + decimal(route.0 as nat)
                + seq![' ']);
            assert(self@ =~= start + routes_text(rs));
            i = i + 1;
        }
        assert(routes@.subrange(0, routes.len() as int) =~= routes@);
    }

    /// Writes `block`: its header line, its body, and the blank line that
    /// closes it.
    pub fn serialize_block(&mut self, block: &BlockType)
        ensures
            final(self)@ == old(self)@ + encode_block(block@),
    {
        let ghost start = self@;
        self.serialize_str(header_str(block.kind()));
        self.end_line();
        let ghost mid = self@;
        match block {
            BlockType::ProtocolPreamble(p) => {
                self.serialize_field("Version", p.version.as_str());
            },
            BlockType::DeviceInfo(d) => {
                self.serialize_device_info(d);
            },
            BlockType::InputLabels(ls) => {
                self.serialize_labels(ls);
            },
            BlockType::OutputLabels(ls) => {
                self.serialize_labels(ls);
            },
            BlockType::VideoOutputLocks(ls) => {
                self.serialize_output_locks(ls);
            },
            BlockType::VideoOutputRouting(rs) => {
                self.serialize_video_output_routes(rs);
            },
            BlockType::Configuration(c) => {
                self.serialize_key("Take Mode");
                self.serialize_bool(c.take_mode);
                self.end_line();
                assert(self@ =~= mid + field_line("Take Mode"@, bool_text(c.take_mode)));
            },
            BlockType::EndPrelude(_) => {},
        }
        assert(self@ =~= mid + body_text(block@));
        self.end_line();
        assert(self@ =~= start + encode_block(block@));
    }
}

/// The wire text of `block`.
pub fn to_string(block: &BlockType) -> (r: String)
    ensures
        r@ == encode_block(block@),
{
    let mut ser = Serializer::new();
    ser.serialize_block(block);
    ser.into_output()
}

} // verus!
