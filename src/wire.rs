//! The fixed vocabulary of the wire format: block headers, field keys and
//! the codes of enumerations and booleans.
use crate::model::{BlockKind, DevicePresent, LockStatus};
use crate::text::range_eq;
use vstd::prelude::*;

verus! {

pub open spec fn header_text(k: BlockKind) -> Seq<char> {
    match k {
        BlockKind::ProtocolPreamble => "PROTOCOL PREAMBLE:"@,
        BlockKind::DeviceInfo => "VIDEOHUB DEVICE:"@,
        BlockKind::InputLabels => "INPUT LABELS:"@,
        BlockKind::OutputLabels => "OUTPUT LABELS:"@,
        BlockKind::VideoOutputLocks => "VIDEO OUTPUT LOCKS:"@,
        BlockKind::VideoOutputRouting => "VIDEO OUTPUT ROUTING:"@,
        BlockKind::Configuration => "CONFIGURATION:"@,
        BlockKind::EndPrelude => "END PRELUDE:"@,
    }
}

/// The header line that opens a block of kind `k`.
pub fn header_str(k: BlockKind) -> (r: &'static str)
    ensures
        r@ == header_text(k),
{
    match k {
        BlockKind::ProtocolPreamble => "PROTOCOL PREAMBLE:",
        BlockKind::DeviceInfo => "VIDEOHUB DEVICE:",
        BlockKind::InputLabels => "INPUT LABELS:",
        BlockKind::OutputLabels => "OUTPUT LABELS:",
        BlockKind::VideoOutputLocks => "VIDEO OUTPUT LOCKS:",
        BlockKind::VideoOutputRouting => "VIDEO OUTPUT ROUTING:",
        BlockKind::Configuration => "CONFIGURATION:",
        BlockKind::EndPrelude => "END PRELUDE:",
    }
}

pub open spec fn lock_text(s: LockStatus) -> Seq<char> {
    match s {
        LockStatus::ForceUnlock => "F"@,
        LockStatus::Locked => "L"@,
        LockStatus::Owned => "O"@,
        LockStatus::Unlocked => "U"@,
    }
}

/// The one-letter wire code of a lock status.
pub fn lock_str(s: LockStatus) -> (r: &'static str)
    ensures
        r@ == lock_text(s),
{
    match s {
        LockStatus::ForceUnlock => "F",
        LockStatus::Locked => "L",
        LockStatus::Owned => "O",
        LockStatus::Unlocked => "U",
    }
}

pub open spec fn lock_code(v: Seq<char>) -> Option<LockStatus> {
    if v == "F"@ {
        Some(LockStatus::ForceUnlock)
    } else if v == "L"@ {
        Some(LockStatus::Locked)
    } else if v == "O"@ {
        Some(LockStatus::Owned)
    } else if v == "U"@ {
        Some(LockStatus::Unlocked)
    } else {
        None
    }
}

/// The lock status whose code is written in `s[a..b]`.
pub fn parse_lock_status(s: &Vec<char>, a: usize, b: usize) -> (r: Option<LockStatus>)
    requires
        a <= b <= s.len(),
    ensures
        r == lock_code(s@.subrange(a as int, b as int)),
{
    if range_eq(s, a, b, "F") {
        Some(LockStatus::ForceUnlock)
    } else if range_eq(s, a, b, "L") {
        Some(LockStatus::Locked)
    } else if range_eq(s, a, b, "O") {
        Some(LockStatus::Owned)
    } else if range_eq(s, a, b, "U") {
        Some(LockStatus::Unlocked)
    } else {
        None
    }
}

pub open spec fn device_present_text(d: DevicePresent) -> Seq<char> {
    match d {
        DevicePresent::Present => "true"@,
        DevicePresent::NotPresent => "false"@,
        DevicePresent::NeedUpdate => "needs_update"@,
    }
}

/// The wire literal of a device-present state.
pub fn device_present_str(d: DevicePresent) -> (r: &'static str)
    ensures
        r@ == device_present_text(d),
{
    match d {
        DevicePresent::Present => "true",
        DevicePresent::NotPresent => "false",
        DevicePresent::NeedUpdate => "needs_update",
    }
}

pub open spec fn device_present_code(v: Seq<char>) -> Option<DevicePresent> {
    if v == "true"@ {
        Some(DevicePresent::Present)
    } else if v == "false"@ {
        Some(DevicePresent::NotPresent)
    } else if v == "needs_update"@ {
        Some(DevicePresent::NeedUpdate)
    } else {
        None
    }
}

/// The device-present state whose literal is written in `s[a..b]`.
pub fn parse_device_present(s: &Vec<char>, a: usize, b: usize) -> (r: Option<DevicePresent>)
    requires
        a <= b <= s.len(),
    ensures
        r == device_present_code(s@.subrange(a as int, b as int)),
{
    if range_eq(s, a, b, "true") {
        Some(DevicePresent::Present)
    } else if range_eq(s, a, b, "false") {
        Some(DevicePresent::NotPresent)
    } else if range_eq(s, a, b, "needs_update") {
        Some(DevicePresent::NeedUpdate)
    } else {
        None
    }
}

pub open spec fn bool_text(b: bool) -> Seq<char> {
    if b {
        "true"@
    } else {
        "false"@
    }
}

/// The wire literal of a boolean.
pub fn bool_str(b: bool) -> (r: &'static str)
    ensures
        r@ == bool_text(b),
{
    if b {
        "true"
    } else {
        "false"
    }
}

pub open spec fn bool_code(v: Seq<char>) -> Option<bool> {
    if v == "true"@ {
        Some(true)
    } else if v == "false"@ {
        Some(false)
    } else {
        None
    }
}

/// The boolean whose literal is written in `s[a..b]`.
pub fn parse_bool_in(s: &Vec<char>, a: usize, b: usize) -> (r: Option<bool>)
    requires
        a <= b <= s.len(),
    ensures
        r == bool_code(s@.subrange(a as int, b as int)),
{
    if range_eq(s, a, b, "true") {
        Some(true)
    } else if range_eq(s, a, b, "false") {
        Some(false)
    } else {
        None
    }
}

} // verus!
