//! What the decoder and the encoder promise of each other: a block the
//! encoder writes decodes back to the value it was written from, wherever it
//! stands in a dump.
use crate::de::{
    body_line, decode_text, device_field, header_kind, index_value, key_value, key_value_field,
    numeric_field, run, start_block, step, Mode,
};
use crate::model::{
    block_kind, empty_hub, BlockKind, BlockView, Configuration, DeviceInfoView, DevicePresent, HubInfoView,
    LockStatus, OutputLock, Route,
};
use crate::ser::{
    body_text, device_info_text, encode_block, field_line, index_line, labels_text,
    locks_text, routes_text,
};
use crate::text::{
    decimal, find_char, find_space, is_space, lemma_parse_decimal, parse_decimal, skip_spaces,
    starts_with, trim_start,
};
use crate::wire::{
    bool_code, bool_text, device_present_code, device_present_text, header_text, lock_code,
    lock_text,
};
use vstd::prelude::*;

verus! {

/// Text that can stand in a line: it holds no line end.
pub open spec fn text_ok(v: Seq<char>) -> bool {
    forall|j: int| 0 <= j < v.len() ==> v[j] != '\n'
}

/// A value of a `key: value` line that reads back unchanged: a line's text
/// that does not start with whitespace (the decoder drops it).
pub open spec fn value_ok(v: Seq<char>) -> bool {
    text_ok(v) && (v.len() > 0 ==> !is_space(v[0]))
}

/// Decoding from the start of a line that `'\n'` ends at `e` is decoding that
/// line, then going on after it.
proof fn lemma_run_line(
    s: Seq<char>,
    i: int,
    start: int,
    e: int,
    m: Mode,
    h: HubInfoView,
)
    requires
        0 <= start <= i <= e < s.len(),
        s[e] == '\n',
        forall|j: int| i <= j < e ==> s[j] != '\n',
        m != Mode::Done,
    ensures
        run(s, i, start, m, h) == match step(m, s.subrange(start, e), h) {
            Ok((m2, h2)) => run(s, e + 1, e + 1, m2, h2),
            Err(x) => Err(x),
        },
    decreases e - i,
{
    if i < e {
        lemma_run_line(s, i + 1, start, e, m, h);
    }
}

/// The same, for a line given by its text.
proof fn lemma_line(s: Seq<char>, p: int, line: Seq<char>, m: Mode, h: HubInfoView)
    requires
        0 <= p,
        p + line.len() + 1 <= s.len(),
        s.subrange(p, p + line.len() + 1) == line.push('\n'),
        text_ok(line),
        m != Mode::Done,
    ensures
        run(s, p, p, m, h) == match step(m, line, h) {
            Ok((m2, h2)) => run(s, p + line.len() + 1, p + line.len() + 1, m2, h2),
            Err(x) => Err(x),
        },
{
    let e = p + line.len();
    assert(s[e] == s.subrange(p, p + line.len() + 1)[line.len() as int]);
    assert forall|j: int| p <= j < e implies s[j] != '\n' by {
        assert(s[j] == s.subrange(p, p + line.len() + 1)[j - p]);
    }
    assert(s.subrange(p, e) =~= line) by {
        assert forall|j: int| 0 <= j < line.len() implies s.subrange(p, e)[j] == line[j] by {
            assert(s.subrange(p, e)[j] == s.subrange(p, p + line.len() + 1)[j]);
        }
    }
    lemma_run_line(s, p, p, e, m, h);
}

proof fn lemma_find_char_at(s: Seq<char>, i: int, n: int, c: char)
    requires
        0 <= i <= n < s.len(),
        s[n] == c,
        forall|j: int| i <= j < n ==> s[j] != c,
    ensures
        find_char(s, i, c) == n,
    decreases n - i,
{
    if i < n {
        lemma_find_char_at(s, i + 1, n, c);
    }
}

proof fn lemma_find_space_at(s: Seq<char>, i: int, n: int)
    requires
        0 <= i <= n < s.len(),
        is_space(s[n]),
        forall|j: int| i <= j < n ==> !is_space(s[j]),
    ensures
        find_space(s, i) == n,
    decreases n - i,
{
    if i < n {
        lemma_find_space_at(s, i + 1, n);
    }
}

/// `key: value` splits back into the key and the value.
proof fn lemma_key_value(key: Seq<char>, v: Seq<char>)
    requires
        forall|j: int| 0 <= j < key.len() ==> key[j] != ':',
        value_ok(v),
    ensures
        key_value(key + seq![':', ' '] + v) == Some((key, v)),
{
    let line = key + seq![':', ' '] + v;
    let n = key.len() as int;
    assert forall|j: int| 0 <= j < n implies line[j] != ':' by {
        assert(line[j] == key[j]);
    }
    lemma_find_char_at(line, 0, n, ':');
    assert(line.subrange(0, n) =~= key);
    let rest = line.subrange(n + 1, line.len() as int);
    assert(rest =~= seq![' '] + v);
    if v.len() > 0 {
        assert(rest[1] == v[0]);
    }
    assert(skip_spaces(rest, 0) == 1) by {
        assert(skip_spaces(rest, 0) == skip_spaces(rest, 1));
    }
    assert(trim_start(rest) =~= v);
}

/// `index value` splits back into the index and the value.
proof fn lemma_index_value(k: BlockKind, i: usize, v: Seq<char>)
    ensures
        index_value(k, decimal(i as nat) + seq![' '] + v) == Ok::<(usize, Seq<char>), crate::error::ErrorView>((i, v)),
{
    let d = decimal(i as nat);
    let line = d + seq![' '] + v;
    lemma_parse_decimal(i);
    assert forall|j: int| 0 <= j < d.len() implies !is_space(line[j]) by {
        assert(line[j] == d[j]);
    }
    lemma_find_space_at(line, 0, d.len() as int);
    assert(line.subrange(0, d.len() as int) =~= d);
    assert(line.subrange((d.len() + 1) as int, line.len() as int) =~= v);
}

proof fn lemma_differ_at(line: Seq<char>, p: Seq<char>, j: int)
    requires
        0 <= j < p.len(),
        j < line.len(),
        line[j] != p[j],
    ensures
        !starts_with(line, p),
{
    if starts_with(line, p) {
        assert(line.subrange(0, p.len() as int)[j] == p[j]);
    }
}

proof fn lemma_reveal_headers()
    ensures
        header_text(BlockKind::ProtocolPreamble) == seq![
            'P', 'R', 'O', 'T', 'O', 'C', 'O', 'L', ' ', 'P', 'R', 'E', 'A', 'M', 'B', 'L', 'E', ':'
        ],
        header_text(BlockKind::DeviceInfo) == seq![
            'V', 'I', 'D', 'E', 'O', 'H', 'U', 'B', ' ', 'D', 'E', 'V', 'I', 'C', 'E', ':'
        ],
        header_text(BlockKind::InputLabels) == seq![
            'I', 'N', 'P', 'U', 'T', ' ', 'L', 'A', 'B', 'E', 'L', 'S', ':'
        ],
        header_text(BlockKind::OutputLabels) == seq![
            'O', 'U', 'T', 'P', 'U', 'T', ' ', 'L', 'A', 'B', 'E', 'L', 'S', ':'
        ],
        header_text(BlockKind::VideoOutputLocks) == seq![
            'V', 'I', 'D', 'E', 'O', ' ', 'O', 'U', 'T', 'P', 'U', 'T', ' ', 'L', 'O', 'C', 'K', 'S', ':'
        ],
        header_text(BlockKind::VideoOutputRouting) == seq![
            'V', 'I', 'D', 'E', 'O', ' ', 'O', 'U', 'T', 'P', 'U', 'T', ' ', 'R', 'O', 'U', 'T', 'I', 'N', 'G', ':'
        ],
        header_text(BlockKind::Configuration) == seq![
            'C', 'O', 'N', 'F', 'I', 'G', 'U', 'R', 'A', 'T', 'I', 'O', 'N', ':'
        ],
        header_text(BlockKind::EndPrelude) == seq![
            'E', 'N', 'D', ' ', 'P', 'R', 'E', 'L', 'U', 'D', 'E', ':'
        ],
{
    reveal_strlit("PROTOCOL PREAMBLE:");
    reveal_strlit("VIDEOHUB DEVICE:");
    reveal_strlit("INPUT LABELS:");
    reveal_strlit("OUTPUT LABELS:");
    reveal_strlit("VIDEO OUTPUT LOCKS:");
    reveal_strlit("VIDEO OUTPUT ROUTING:");
    reveal_strlit("CONFIGURATION:");
    reveal_strlit("END PRELUDE:");
    assert(header_text(BlockKind::ProtocolPreamble) =~= seq![
        'P', 'R', 'O', 'T', 'O', 'C', 'O', 'L', ' ', 'P', 'R', 'E', 'A', 'M', 'B', 'L', 'E', ':'
    ]);
    assert(header_text(BlockKind::DeviceInfo) =~= seq![
        'V', 'I', 'D', 'E', 'O', 'H', 'U', 'B', ' ', 'D', 'E', 'V', 'I', 'C', 'E', ':'
    ]);
    assert(header_text(BlockKind::InputLabels) =~= seq![
        'I', 'N', 'P', 'U', 'T', ' ', 'L', 'A', 'B', 'E', 'L', 'S', ':'
    ]);
    assert(header_text(BlockKind::OutputLabels) =~= seq![
        'O', 'U', 'T', 'P', 'U', 'T', ' ', 'L', 'A', 'B', 'E', 'L', 'S', ':'
    ]);
    assert(header_text(BlockKind::VideoOutputLocks) =~= seq![
        'V', 'I', 'D', 'E', 'O', ' ', 'O', 'U', 'T', 'P', 'U', 'T', ' ', 'L', 'O', 'C', 'K', 'S', ':'
    ]);
    assert(header_text(BlockKind::VideoOutputRouting) =~= seq![
        'V', 'I', 'D', 'E', 'O', ' ', 'O', 'U', 'T', 'P', 'U', 'T', ' ', 'R', 'O', 'U', 'T', 'I', 'N', 'G', ':'
    ]);
    assert(header_text(BlockKind::Configuration) =~= seq![
        'C', 'O', 'N', 'F', 'I', 'G', 'U', 'R', 'A', 'T', 'I', 'O', 'N', ':'
    ]);
    assert(header_text(BlockKind::EndPrelude) =~= seq![
        'E', 'N', 'D', ' ', 'P', 'R', 'E', 'L', 'U', 'D', 'E', ':'
    ]);
}

/// Each header line is recognised as the header of its own block, and holds
/// no line end.
proof fn lemma_header_kind(k: BlockKind)
    ensures
        header_kind(header_text(k)) == Some(k),
        text_ok(header_text(k)),
        header_text(k).len() > 0,
{
    lemma_reveal_headers();
    let t = header_text(k);
    assert(starts_with(t, t)) by {
        assert(t.subrange(0, t.len() as int) =~= t);
    }
    let pp = header_text(BlockKind::ProtocolPreamble);
    let di = header_text(BlockKind::DeviceInfo);
    let il = header_text(BlockKind::InputLabels);
    let ol = header_text(BlockKind::OutputLabels);
    let lk = header_text(BlockKind::VideoOutputLocks);
    let rt = header_text(BlockKind::VideoOutputRouting);
    let cf = header_text(BlockKind::Configuration);
    if k != BlockKind::ProtocolPreamble {
        lemma_differ_at(t, pp, 0);
    }
    if k != BlockKind::ProtocolPreamble && k != BlockKind::DeviceInfo {
        if k == BlockKind::VideoOutputLocks || k == BlockKind::VideoOutputRouting {
            lemma_differ_at(t, di, 5);
        } else {
            lemma_differ_at(t, di, 0);
        }
    }
    if k == BlockKind::OutputLabels || k == BlockKind::VideoOutputLocks || k
        == BlockKind::VideoOutputRouting || k == BlockKind::Configuration || k
        == BlockKind::EndPrelude {
        lemma_differ_at(t, il, 0);
    }
    if k == BlockKind::VideoOutputLocks || k == BlockKind::VideoOutputRouting || k
        == BlockKind::Configuration || k == BlockKind::EndPrelude {
        lemma_differ_at(t, ol, 0);
    }
    if k == BlockKind::VideoOutputRouting {
        lemma_differ_at(t, lk, 13);
    }
    if k == BlockKind::Configuration || k == BlockKind::EndPrelude {
        lemma_differ_at(t, lk, 0);
        lemma_differ_at(t, rt, 0);
    }
    if k == BlockKind::EndPrelude {
        lemma_differ_at(t, cf, 0);
    }
    assert(text_ok(t)) by {
        assert forall|j: int| 0 <= j < t.len() implies t[j] != '\n' by {
            match k {
                BlockKind::ProtocolPreamble => {},
                _ => {},
            }
        }
    }
}

/// Reading `a + b` at `p` is reading `a` at `p`, then `b` right after it.
proof fn lemma_split(s: Seq<char>, p: int, a: Seq<char>, b: Seq<char>)
    requires
        0 <= p,
        p + a.len() + b.len() <= s.len(),
        s.subrange(p, p + a.len() + b.len()) == a + b,
    ensures
        s.subrange(p, p + a.len()) == a,
        s.subrange(p + a.len(), p + a.len() + b.len()) == b,
{
    let ab = s.subrange(p, p + a.len() + b.len());
    assert(s.subrange(p, p + a.len()) =~= a) by {
        assert forall|j: int| 0 <= j < a.len() implies s.subrange(p, p + a.len())[j] == a[j] by {
            assert(ab[j] == (a + b)[j]);
        }
    }
    assert(s.subrange(p + a.len(), p + a.len() + b.len()) =~= b) by {
        assert forall|j: int| 0 <= j < b.len() implies s.subrange(
            p + a.len(),
            p + a.len() + b.len(),
        )[j] == b[j] by {
            assert(ab[a.len() + j] == (a + b)[a.len() + j]);
        }
    }
}

proof fn lemma_decimal_text_ok(n: usize)
    ensures
        text_ok(decimal(n as nat)),
{
    lemma_parse_decimal(n);
}

/// An indexed line of a block body, read at `p`.
proof fn lemma_index_line(s: Seq<char>, p: int, k: BlockKind, i: usize, v: Seq<char>, h: HubInfoView)
    requires
        0 <= p,
        p + index_line(i, v).len() <= s.len(),
        s.subrange(p, p + index_line(i, v).len()) == index_line(i, v),
        text_ok(v),
        k != BlockKind::ProtocolPreamble,
        k != BlockKind::DeviceInfo,
        k != BlockKind::Configuration,
        k != BlockKind::EndPrelude,
    ensures
        run(s, p, p, Mode::Body(k), h) == match body_line(k, decimal(i as nat) + seq![' '] + v, h) {
            Ok(h2) => run(
                s,
                p + index_line(i, v).len(),
                p + index_line(i, v).len(),
                Mode::Body(k),
                h2,
            ),
            Err(x) => Err(x),
        },
        index_value(k, decimal(i as nat) + seq![' '] + v) == Ok::<(usize, Seq<char>), crate::error::ErrorView>((i, v)),
{
    let line = decimal(i as nat) + seq![' '] + v;
    lemma_index_value(k, i, v);
    lemma_decimal_text_ok(i);
    assert(text_ok(line)) by {
        assert forall|j: int| 0 <= j < line.len() implies line[j] != '\n' by {
            if j < decimal(i as nat).len() {
                assert(line[j] == decimal(i as nat)[j]);
            } else if j > decimal(i as nat).len() {
                assert(line[j] == v[j - decimal(i as nat).len() - 1]);
            }
        }
    }
    assert(index_line(i, v) =~= line.push('\n'));
    lemma_line(s, p, line, Mode::Body(k), h);
}

pub open spec fn add_labels(h: HubInfoView, k: BlockKind, ls: Seq<(usize, Seq<char>)>) -> HubInfoView {
    if k == BlockKind::InputLabels {
        HubInfoView { input_labels: h.input_labels + ls, ..h }
    } else {
        HubInfoView { output_labels: h.output_labels + ls, ..h }
    }
}

pub open spec fn labels_ok(ls: Seq<(usize, Seq<char>)>) -> bool {
    forall|j: int| 0 <= j < ls.len() ==> text_ok(#[trigger] ls[j].1)
}

proof fn lemma_labels_body(s: Seq<char>, p: int, k: BlockKind, ls: Seq<(usize, Seq<char>)>, h: HubInfoView)
    requires
        k == BlockKind::InputLabels || k == BlockKind::OutputLabels,
        labels_ok(ls),
        0 <= p,
        p + labels_text(ls).len() <= s.len(),
        s.subrange(p, p + labels_text(ls).len()) == labels_text(ls),
    ensures
        run(s, p, p, Mode::Body(k), h) == run(
            s,
            p + labels_text(ls).len(),
            p + labels_text(ls).len(),
            Mode::Body(k),
            add_labels(h, k, ls),
        ),
    decreases ls.len(),
{
    if ls.len() == 0 {
        assert(h.input_labels + ls =~= h.input_labels);
        assert(h.output_labels + ls =~= h.output_labels);
    } else {
        let front = ls.drop_last();
        let (i, v) = ls.last();
        let t = labels_text(front);
        lemma_split(s, p, t, index_line(i, v));
        assert(labels_ok(front)) by {
            assert forall|j: int| 0 <= j < front.len() implies text_ok(#[trigger] front[j].1) by {
                assert(front[j] == ls[j]);
            }
        }
        assert(text_ok(v)) by {
            assert(ls[ls.len() - 1] == ls.last());
        }
        lemma_labels_body(s, p, k, front, h);
        let h1 = add_labels(h, k, front);
        lemma_index_line(s, p + t.len(), k, i, v, h1);
        if k == BlockKind::InputLabels {
            assert(h1.input_labels.push((i, v)) =~= h.input_labels + ls);
        } else {
            assert(h1.output_labels.push((i, v)) =~= h.output_labels + ls);
        }
    }
}

proof fn lemma_lock_code(st: LockStatus)
    ensures
        lock_code(lock_text(st)) == Some(st),
        text_ok(lock_text(st)),
{
    reveal_strlit("F");
    reveal_strlit("L");
    reveal_strlit("O");
    reveal_strlit("U");
    assert("F"@ =~= seq!['F']);
    assert("L"@ =~= seq!['L']);
    assert("O"@ =~= seq!['O']);
    assert("U"@ =~= seq!['U']);
    assert("F"@[0] != "L"@[0]);
    assert("F"@[0] != "O"@[0]);
    assert("F"@[0] != "U"@[0]);
    assert("L"@[0] != "O"@[0]);
    assert("L"@[0] != "U"@[0]);
    assert("O"@[0] != "U"@[0]);
}

proof fn lemma_locks_body(s: Seq<char>, p: int, ls: Seq<OutputLock>, h: HubInfoView)
    requires
        0 <= p,
        p + locks_text(ls).len() <= s.len(),
        s.subrange(p, p + locks_text(ls).len()) == locks_text(ls),
    ensures
        run(s, p, p, Mode::Body(BlockKind::VideoOutputLocks), h) == run(
            s,
            p + locks_text(ls).len(),
            p + locks_text(ls).len(),
            Mode::Body(BlockKind::VideoOutputLocks),
            HubInfoView { video_output_locks: h.video_output_locks + ls, ..h },
        ),
    decreases ls.len(),
{
    if ls.len() == 0 {
        assert(h.video_output_locks + ls =~= h.video_output_locks);
    } else {
        let front = ls.drop_last();
        let OutputLock(i, st) = ls.last();
        let t = locks_text(front);
        lemma_split(s, p, t, index_line(i, lock_text(st)));
        lemma_locks_body(s, p, front, h);
        let h1 = HubInfoView { video_output_locks: h.video_output_locks + front, ..h };
        lemma_lock_code(st);
        lemma_index_line(s, p + t.len(), BlockKind::VideoOutputLocks, i, lock_text(st), h1);
        assert(h1.video_output_locks.push(OutputLock(i, st)) =~= h.video_output_locks + ls);
    }
}

proof fn lemma_routes_body(s: Seq<char>, p: int, rs: Seq<Route>, h: HubInfoView)
    requires
        0 <= p,
        p + routes_text(rs).len() <= s.len(),
        s.subrange(p, p + routes_text(rs).len()) == routes_text(rs),
    ensures
        run(s, p, p, Mode::Body(BlockKind::VideoOutputRouting), h) == run(
            s,
            p + routes_text(rs).len(),
            p + routes_text(rs).len(),
            Mode::Body(BlockKind::VideoOutputRouting),
            HubInfoView { video_output_routing: h.video_output_routing + rs, ..h },
        ),
    decreases rs.len(),
{
    if rs.len() == 0 {
        assert(h.video_output_routing + rs =~= h.video_output_routing);
    } else {
        let front = rs.drop_last();
        let Route(i, src) = rs.last();
        let t = routes_text(front);
        lemma_split(s, p, t, index_line(i, decimal(src as nat)));
        lemma_routes_body(s, p, front, h);
        let h1 = HubInfoView { video_output_routing: h.video_output_routing + front, ..h };
        lemma_parse_decimal(src);
        lemma_decimal_text_ok(src);
        lemma_index_line(
            s,
            p + t.len(),
            BlockKind::VideoOutputRouting,
            i,
            decimal(src as nat),
            h1,
        );
        assert(h1.video_output_routing.push(Route(i, src)) =~= h.video_output_routing + rs);
    }
}

/// A key that reads back: it holds neither `:` nor a line end.
pub open spec fn key_ok(key: Seq<char>) -> bool {
    forall|j: int| 0 <= j < key.len() ==> key[j] != ':' && key[j] != '\n'
}

proof fn lemma_keys()
    ensures
        key_ok("Version"@),
        key_ok("Take Mode"@),
        key_ok("Device present"@),
        key_ok("Model name"@),
        key_ok("Friendly name"@),
        key_ok("Unique ID"@),
        key_ok("Video inputs"@),
        key_ok("Video processing units"@),
        key_ok("Video outputs"@),
        key_ok("Video monitoring outputs"@),
        key_ok("Serial ports"@),
        "Device present"@.len() == 14,
        "Model name"@.len() == 10,
        "Friendly name"@.len() == 13,
        "Unique ID"@.len() == 9,
        "Video inputs"@.len() == 12,
        "Video processing units"@.len() == 22,
        "Video outputs"@.len() == 13,
        "Video monitoring outputs"@.len() == 24,
        "Serial ports"@.len() == 12,
        "Friendly name"@ != "Video outputs"@,
        "Video inputs"@ != "Serial ports"@,
{
    reveal_strlit("Version");
    reveal_strlit("Take Mode");
    reveal_strlit("Device present");
    reveal_strlit("Model name");
    reveal_strlit("Friendly name");
    reveal_strlit("Unique ID");
    reveal_strlit("Video inputs");
    reveal_strlit("Video processing units");
    reveal_strlit("Video outputs");
    reveal_strlit("Video monitoring outputs");
    reveal_strlit("Serial ports");
    assert("Version"@ =~= seq!['V', 'e', 'r', 's', 'i', 'o', 'n']);
    assert("Take Mode"@ =~= seq!['T', 'a', 'k', 'e', ' ', 'M', 'o', 'd', 'e']);
    assert("Device present"@ =~= seq![
        'D', 'e', 'v', 'i', 'c', 'e', ' ', 'p', 'r', 'e', 's', 'e', 'n', 't'
    ]);
    assert("Model name"@ =~= seq!['M', 'o', 'd', 'e', 'l', ' ', 'n', 'a', 'm', 'e']);
    assert("Friendly name"@ =~= seq![
        'F', 'r', 'i', 'e', 'n', 'd', 'l', 'y', ' ', 'n', 'a', 'm', 'e'
    ]);
    assert("Unique ID"@ =~= seq!['U', 'n', 'i', 'q', 'u', 'e', ' ', 'I', 'D']);
    assert("Video inputs"@ =~= seq!['V', 'i', 'd', 'e', 'o', ' ', 'i', 'n', 'p', 'u', 't', 's']);
    assert("Video processing units"@ =~= seq![
        'V', 'i', 'd', 'e', 'o', ' ', 'p', 'r', 'o', 'c', 'e', 's', 's', 'i', 'n', 'g', ' ', 'u',
        'n', 'i', 't', 's'
    ]);
    assert("Video outputs"@ =~= seq![
        'V', 'i', 'd', 'e', 'o', ' ', 'o', 'u', 't', 'p', 'u', 't', 's'
    ]);
    assert("Video monitoring outputs"@ =~= seq![
        'V', 'i', 'd', 'e', 'o', ' ', 'm', 'o', 'n', 'i', 't', 'o', 'r', 'i', 'n', 'g', ' ', 'o',
        'u', 't', 'p', 'u', 't', 's'
    ]);
    assert("Serial ports"@ =~= seq!['S', 'e', 'r', 'i', 'a', 'l', ' ', 'p', 'o', 'r', 't', 's']);
    assert("Friendly name"@[0] != "Video outputs"@[0]);
    assert("Video inputs"@[0] != "Serial ports"@[0]);
}

proof fn lemma_literals()
    ensures
        forall|p: DevicePresent| device_present_code(#[trigger] device_present_text(p)) == Some(p),
        forall|p: DevicePresent| value_ok(#[trigger] device_present_text(p)),
        forall|b: bool| bool_code(#[trigger] bool_text(b)) == Some(b),
        forall|b: bool| value_ok(#[trigger] bool_text(b)),
{
    reveal_strlit("true");
    reveal_strlit("false");
    reveal_strlit("needs_update");
    assert("true"@ =~= seq!['t', 'r', 'u', 'e']);
    assert("false"@ =~= seq!['f', 'a', 'l', 's', 'e']);
    assert("needs_update"@ =~= seq![
        'n', 'e', 'e', 'd', 's', '_', 'u', 'p', 'd', 'a', 't', 'e'
    ]);
}

/// A `key: value` line of a block body, read at `p`.
proof fn lemma_field(s: Seq<char>, p: int, k: BlockKind, key: Seq<char>, v: Seq<char>, h: HubInfoView)
    requires
        0 <= p,
        p + field_line(key, v).len() <= s.len(),
        s.subrange(p, p + field_line(key, v).len()) == field_line(key, v),
        key_ok(key),
        value_ok(v),
        k == BlockKind::ProtocolPreamble || k == BlockKind::DeviceInfo || k == BlockKind::Configuration,
    ensures
        run(s, p, p, Mode::Body(k), h) == match key_value_field(k, key, v, key + seq![':', ' '] + v, h) {
            Ok(h2) => run(
                s,
                p + field_line(key, v).len(),
                p + field_line(key, v).len(),
                Mode::Body(k),
                h2,
            ),
            Err(x) => Err(x),
        },
{
    let line = key + seq![':', ' '] + v;
    assert forall|j: int| 0 <= j < key.len() implies key[j] != ':' by {}
    lemma_key_value(key, v);
    assert(text_ok(line)) by {
        assert forall|j: int| 0 <= j < line.len() implies line[j] != '\n' by {
            if j < key.len() {
                assert(line[j] == key[j]);
            } else if j >= key.len() + 2 {
                assert(line[j] == v[j - key.len() - 2]);
            }
        }
    }
    assert(field_line(key, v) =~= line.push('\n'));
    lemma_line(s, p, line, Mode::Body(k), h);
}

pub open spec fn device_ok(d: DeviceInfoView) -> bool {
    value_ok(d.model_name) && value_ok(d.friendly_name) && value_ok(d.unique_id)
}

pub open spec fn with_device(h: HubInfoView, d: DeviceInfoView) -> HubInfoView {
    HubInfoView { device_info: d, ..h }
}

proof fn lemma_device_body(s: Seq<char>, p: int, d: DeviceInfoView, h: HubInfoView)
    requires
        device_ok(d),
        0 <= p,
        p + device_info_text(d).len() <= s.len(),
        s.subrange(p, p + device_info_text(d).len()) == device_info_text(d),
    ensures
        run(s, p, p, Mode::Body(BlockKind::DeviceInfo), h) == run(
            s,
            p + device_info_text(d).len(),
            p + device_info_text(d).len(),
            Mode::Body(BlockKind::DeviceInfo),
            with_device(h, d),
        ),
{
    lemma_keys();
    lemma_literals();
    lemma_parse_decimal(d.nb_video_inputs);
    lemma_parse_decimal(d.nb_video_processing_units);
    lemma_parse_decimal(d.nb_video_outputs);
    lemma_parse_decimal(d.nb_video_monitoring_outputs);
    lemma_parse_decimal(d.nb_serial_ports);
    lemma_decimal_text_ok(d.nb_video_inputs);
    lemma_decimal_text_ok(d.nb_video_processing_units);
    lemma_decimal_text_ok(d.nb_video_outputs);
    lemma_decimal_text_ok(d.nb_video_monitoring_outputs);
    lemma_decimal_text_ok(d.nb_serial_ports);
    let k = BlockKind::DeviceInfo;
    let f1 = field_line("Device present"@, device_present_text(d.device_present));
    let f2 = field_line("Model name"@, d.model_name);
    let f3 = field_line("Friendly name"@, d.friendly_name);
    let f4 = field_line("Unique ID"@, d.unique_id);
    let f5 = field_line("Video inputs"@, decimal(d.nb_video_inputs as nat));
    let f6 = field_line("Video processing units"@, decimal(d.nb_video_processing_units as nat));
    let f7 = field_line("Video outputs"@, decimal(d.nb_video_outputs as nat));
    let f8 = field_line("Video monitoring outputs"@, decimal(d.nb_video_monitoring_outputs as nat));
    let f9 = field_line("Serial ports"@, decimal(d.nb_serial_ports as nat));
    let a1 = f1;
    let a2 = a1 + f2;
    let a3 = a2 + f3;
    let a4 = a3 + f4;
    let a5 = a4 + f5;
    let a6 = a5 + f6;
    let a7 = a6 + f7;
    let a8 = a7 + f8;
    let a9 = a8 + f9;
    assert(a9 == device_info_text(d));
    lemma_split(s, p, a8, f9);
    lemma_split(s, p, a7, f8);
    lemma_split(s, p, a6, f7);
    lemma_split(s, p, a5, f6);
    lemma_split(s, p, a4, f5);
    lemma_split(s, p, a3, f4);
    lemma_split(s, p, a2, f3);
    lemma_split(s, p, a1, f2);
    let d0 = h.device_info;
    let d1 = DeviceInfoView { device_present: d.device_present, ..d0 };
    let d2 = DeviceInfoView { model_name: d.model_name, ..d1 };
    let d3 = DeviceInfoView { friendly_name: d.friendly_name, ..d2 };
    let d4 = DeviceInfoView { unique_id: d.unique_id, ..d3 };
    let d5 = DeviceInfoView { nb_video_inputs: d.nb_video_inputs, ..d4 };
    let d6 = DeviceInfoView { nb_video_processing_units: d.nb_video_processing_units, ..d5 };
    let d7 = DeviceInfoView { nb_video_outputs: d.nb_video_outputs, ..d6 };
    let d8 = DeviceInfoView { nb_video_monitoring_outputs: d.nb_video_monitoring_outputs, ..d7 };
    let d9 = DeviceInfoView { nb_serial_ports: d.nb_serial_ports, ..d8 };
    lemma_field(s, p, k, "Device present"@, device_present_text(d.device_present), h);
    lemma_field(s, p + a1.len(), k, "Model name"@, d.model_name, with_device(h, d1));
    lemma_field(s, p + a2.len(), k, "Friendly name"@, d.friendly_name, with_device(h, d2));
    lemma_field(s, p + a3.len(), k, "Unique ID"@, d.unique_id, with_device(h, d3));
    lemma_field(
        s,
        p + a4.len(),
        k,
        "Video inputs"@,
        decimal(d.nb_video_inputs as nat),
        with_device(h, d4),
    );
    lemma_field(
        s,
        p + a5.len(),
        k,
        "Video processing units"@,
        decimal(d.nb_video_processing_units as nat),
        with_device(h, d5),
    );
    lemma_field(
        s,
        p + a6.len(),
        k,
        "Video outputs"@,
        decimal(d.nb_video_outputs as nat),
        with_device(h, d6),
    );
    lemma_field(
        s,
        p + a7.len(),
        k,
        "Video monitoring outputs"@,
        decimal(d.nb_video_monitoring_outputs as nat),
        with_device(h, d7),
    );
    lemma_field(
        s,
        p + a8.len(),
        k,
        "Serial ports"@,
        decimal(d.nb_serial_ports as nat),
        with_device(h, d8),
    );
    assert(h == with_device(h, d0));
    assert(d9 == d);
}

/// `h` once block `b` has been read: the section of that block holds what
/// the block carries, the rest of `h` is untouched.
pub open spec fn with_block(h: HubInfoView, b: BlockView) -> HubInfoView {
    match b {
        BlockView::ProtocolPreamble(v) => HubInfoView { version: v, ..h },
        BlockView::DeviceInfo(d) => HubInfoView { device_info: d, ..h },
        BlockView::InputLabels(ls) => HubInfoView { input_labels: ls, ..h },
        BlockView::OutputLabels(ls) => HubInfoView { output_labels: ls, ..h },
        BlockView::VideoOutputLocks(ls) => HubInfoView { video_output_locks: ls, ..h },
        BlockView::VideoOutputRouting(rs) => HubInfoView { video_output_routing: rs, ..h },
        BlockView::Configuration(c) => HubInfoView { configuration: c, ..h },
        BlockView::EndPrelude => h,
    }
}

/// A block whose text reads back: no string holds a line end, and the
/// strings of key/value blocks do not start with whitespace.
pub open spec fn block_ok(b: BlockView) -> bool {
    match b {
        BlockView::ProtocolPreamble(v) => value_ok(v),
        BlockView::DeviceInfo(d) => device_ok(d),
        BlockView::InputLabels(ls) => labels_ok(ls),
        BlockView::OutputLabels(ls) => labels_ok(ls),
        _ => true,
    }
}

/// Wherever the encoder's text of a block stands between two blocks of a
/// dump, decoding it sets the section of that block to what the block
/// carries, and decoding goes on right after it.
pub proof fn lemma_block_round_trip(s: Seq<char>, p: int, b: BlockView, h: HubInfoView)
    requires
        block_ok(b),
        block_kind(b) != BlockKind::EndPrelude,
        0 <= p,
        p + encode_block(b).len() <= s.len(),
        s.subrange(p, p + encode_block(b).len()) == encode_block(b),
    ensures
        run(s, p, p, Mode::Between, h) == run(
            s,
            p + encode_block(b).len(),
            p + encode_block(b).len(),
            Mode::Between,
            with_block(h, b),
        ),
{
    let k = block_kind(b);
    let head = header_text(k);
    let body = body_text(b);
    let nl = seq!['\n'];
    lemma_split(s, p, head + nl + body, nl);
    lemma_split(s, p, head + nl, body);
    lemma_header_kind(k);
    assert(head + nl =~= head.push('\n'));
    lemma_line(s, p, head, Mode::Between, h);
    let q1 = p + head.len() + 1;
    let h1 = start_block(h, k);
    let q2 = q1 + body.len();
    let h2 = with_block(h, b);
    lemma_keys();
    lemma_literals();
    match b {
        BlockView::ProtocolPreamble(v) => {
            lemma_field(s, q1, k, "Version"@, v, h1);
        },
        BlockView::DeviceInfo(d) => {
            lemma_device_body(s, q1, d, h1);
        },
        BlockView::InputLabels(ls) => {
            lemma_labels_body(s, q1, k, ls, h1);
            assert(h1.input_labels + ls =~= ls);
        },
        BlockView::OutputLabels(ls) => {
            lemma_labels_body(s, q1, k, ls, h1);
            assert(h1.output_labels + ls =~= ls);
        },
        BlockView::VideoOutputLocks(ls) => {
            lemma_locks_body(s, q1, ls, h1);
            assert(h1.video_output_locks + ls =~= ls);
        },
        BlockView::VideoOutputRouting(rs) => {
            lemma_routes_body(s, q1, rs, h1);
            assert(h1.video_output_routing + rs =~= rs);
        },
        BlockView::Configuration(c) => {
            lemma_field(s, q1, k, "Take Mode"@, bool_text(c.take_mode), h1);
        },
        BlockView::EndPrelude => {},
    }
    assert(run(s, q1, q1, Mode::Body(k), h1) == run(s, q2, q2, Mode::Body(k), h2));
    assert(Seq::<char>::empty().push('\n') =~= nl);
    lemma_line(s, q2, Seq::empty(), Mode::Body(k), h2);
}

/// The dump that carries block `b` alone, closed by the sentinel block.
pub open spec fn full_dump(b: BlockView) -> Seq<char> {
    if block_kind(b) == BlockKind::EndPrelude {
        encode_block(b)
    } else {
        encode_block(b) + encode_block(BlockView::EndPrelude)
    }
}

/// Round trip: the dump made of the encoder's text of any block, then the
/// sentinel, decodes to the empty state with that block's section holding
/// what the block carries.
pub proof fn lemma_round_trip(b: BlockView)
    requires
        block_ok(b),
    ensures
        decode_text(full_dump(b)) == Ok::<HubInfoView, crate::error::ErrorView>(with_block(empty_hub(), b)),
{
    let s = full_dump(b);
    let end = header_text(BlockKind::EndPrelude);
    lemma_header_kind(BlockKind::EndPrelude);
    assert(encode_block(BlockView::EndPrelude) =~= end.push('\n') + seq!['\n']);
    if block_kind(b) == BlockKind::EndPrelude {
        assert(s.subrange(0, (end.len() + 1) as int) =~= end.push('\n'));
        lemma_line(s, 0, end, Mode::Between, empty_hub());
    } else {
        let n = encode_block(b).len() as int;
        assert(s.subrange(0, n) =~= encode_block(b));
        lemma_block_round_trip(s, 0, b, empty_hub());
        assert(s.subrange(n, n + end.len() + 1) =~= end.push('\n'));
        lemma_line(s, n, end, Mode::Between, with_block(empty_hub(), b));
    }
}

/// A sequence block whose header is followed at once by a blank line
/// empties its section, and decoding goes on after the blank line.
pub proof fn lemma_empty_sequence_block(s: Seq<char>, p: int, k: BlockKind, h: HubInfoView)
    requires
        k == BlockKind::InputLabels || k == BlockKind::OutputLabels || k
            == BlockKind::VideoOutputLocks || k == BlockKind::VideoOutputRouting,
        0 <= p,
        p + header_text(k).len() + 2 <= s.len(),
        s.subrange(p, p + header_text(k).len() + 2) == header_text(k) + seq!['\n', '\n'],
    ensures
        run(s, p, p, Mode::Between, h) == run(
            s,
            p + header_text(k).len() + 2,
            p + header_text(k).len() + 2,
            Mode::Between,
            start_block(h, k),
        ),
{
    let b = if k == BlockKind::InputLabels {
        BlockView::InputLabels(Seq::empty())
    } else if k == BlockKind::OutputLabels {
        BlockView::OutputLabels(Seq::empty())
    } else if k == BlockKind::VideoOutputLocks {
        BlockView::VideoOutputLocks(Seq::empty())
    } else {
        BlockView::VideoOutputRouting(Seq::empty())
    };
    assert(encode_block(b) =~= header_text(k) + seq!['\n', '\n']);
    lemma_block_round_trip(s, p, b, h);
}

/// Decoding is a function of the text: two decodings of the same dump give
/// equal results, whatever a decoder read before (`Deserializer::deserialize`
/// and `from_str` both return `decode_text` of their input).
pub proof fn lemma_decode_twice(
    s: Seq<char>,
    first: Result<HubInfoView, crate::error::ErrorView>,
    second: Result<HubInfoView, crate::error::ErrorView>,
)
    requires
        first == decode_text(s),
        second == decode_text(s),
    ensures
        first == second,
{
}

} // verus!
