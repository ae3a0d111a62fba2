//! Finding the auxiliary-key interface among the host's raw devices,
//! preparing it, and decoding what was read from it.
//!
//! Reading directories, files and the device stays outside; the texts and
//! bytes that were read come here to be judged.

use crate::events::{decode, parse_report, report, Event};
use crate::text::{
    chars_of, contains_text, has_prefix, holds_text, lines_of, lines_text, pieces, skip_leading,
    split_on, split_text, starts_with, without_leading,
};
use vstd::prelude::*;
use vstd::string::StringExecFns;

verus! {

/// The upper-case character of a hexadecimal digit.
pub open spec fn hex_digit(d: int) -> char
    recommends
        0 <= d <= 15,
{
    if d == 0 {
        '0'
    } else if d == 1 {
        '1'
    } else if d == 2 {
        '2'
    } else if d == 3 {
        '3'
    } else if d == 4 {
        '4'
    } else if d == 5 {
        '5'
    } else if d == 6 {
        '6'
    } else if d == 7 {
        '7'
    } else if d == 8 {
        '8'
    } else if d == 9 {
        '9'
    } else if d == 10 {
        'A'
    } else if d == 11 {
        'B'
    } else if d == 12 {
        'C'
    } else if d == 13 {
        'D'
    } else if d == 14 {
        'E'
    } else {
        'F'
    }
}

/// A 16-bit number in four upper-case hexadecimal digits.
pub open spec fn hex4_text(n: u16) -> Seq<char> {
    seq![
        hex_digit(n as int / 4096),
        hex_digit((n as int / 256) % 16),
        hex_digit((n as int / 16) % 16),
        hex_digit(n as int % 16),
    ]
}

/// The hexadecimal digits.
pub const HEX_DIGITS: [char; 16] = [
    '0', '1', '2', '3', '4', '5', '6', '7', '8', '9', 'A', 'B', 'C', 'D', 'E', 'F',
];

/// Gives the upper-case character of a hexadecimal digit.
fn hex_char(d: u16) -> (c: char)
    requires
        d < 16,
    ensures
        c == hex_digit(d as int),
{
    HEX_DIGITS[d as usize]
}

/// Writes a 16-bit number in four upper-case hexadecimal digits.
pub fn hex4(n: u16) -> (digits: Vec<char>)
    ensures
        digits@ == hex4_text(n),
{
    let mut digits: Vec<char> = Vec::new();
    let d3: u16 = n / 4096;
    let d2: u16 = (n / 256) % 16;
    let d1: u16 = (n / 16) % 16;
    let d0: u16 = n % 16;
    digits.push(hex_char(d3));
    digits.push(hex_char(d2));
    digits.push(hex_char(d1));
    digits.push(hex_char(d0));
    assert(digits@ =~= hex4_text(n));
    digits
}

/// Whether a line of a device's identity record names the device with
/// these identifiers. Such a line reads `HID_ID=` and three fields with
/// colons between them: the bus, the vendor and the product, the last two
/// in upper-case hexadecimal digits after zeros in groups of four.
pub open spec fn names_device(line: Seq<char>, vendor: u16, product: u16) -> bool {
    let fields = split_text(line, ':');
    has_prefix(line, "HID_ID="@) && fields.len() >= 3 && without_leading(fields[1], "0000"@)
        == hex4_text(vendor) && without_leading(fields[2], "0000"@) == hex4_text(product)
}

/// Whether some line of an identity record names the device.
pub open spec fn record_names_device(record: Seq<char>, vendor: u16, product: u16) -> bool {
    exists|i: int|
        0 <= i < lines_text(record).len() && names_device(
            #[trigger] lines_text(record)[i],
            vendor,
            product,
        )
}

/// Tells whether the field holds the identifier, leading groups of zeros
/// aside.
fn field_is(field: &[char], id: u16) -> (yes: bool)
    ensures
        yes == (without_leading(field@, "0000"@) == hex4_text(id)),
{
    let zeros = chars_of("0000");
    let skipped = skip_leading(field, zeros.as_slice());
    let rest = vstd::slice::slice_subrange(field, skipped, field.len());
    assert(rest@ =~= field@.skip(skipped as int));
    let want = hex4(id);
    if rest.len() != want.len() {
        return false;
    }
    let same = starts_with(rest, want.as_slice());
    assert(rest@.take(want@.len() as int) =~= rest@);
    same
}

/// Tells whether a line of an identity record names the device with these
/// identifiers.
pub fn line_names_device(line: &[char], vendor: u16, product: u16) -> (yes: bool)
    ensures
        yes == names_device(line@, vendor, product),
{
    let prefix = chars_of("HID_ID=");
    if !starts_with(line, prefix.as_slice()) {
        return false;
    }
    let fields = split_on(line, ':');
    if fields.len() < 3 {
        return false;
    }
    assert(pieces(fields@)[1] == fields@[1]@);
    assert(pieces(fields@)[2] == fields@[2]@);
    field_is(fields[1].as_slice(), vendor) && field_is(fields[2].as_slice(), product)
}

/// Tells whether an identity record names the device with these
/// identifiers.
pub fn uevent_names_device(uevent: &str, vendor: u16, product: u16) -> (yes: bool)
    ensures
        yes == record_names_device(uevent@, vendor, product),
{
    let text = chars_of(uevent);
    let lines = lines_of(text.as_slice());
    let mut i: usize = 0;
    while i < lines.len()
        invariant
            i <= lines@.len(),
            pieces(lines@) == lines_text(uevent@),
            forall|k: int|
                0 <= k < i ==> !names_device(#[trigger] lines_text(uevent@)[k], vendor, product),
        decreases lines@.len() - i,
    {
        assert(pieces(lines@)[i as int] == lines@[i as int]@);
        if line_names_device(lines[i].as_slice(), vendor, product) {
            return true;
        }
        i += 1;
    }
    assert(pieces(lines@).len() == lines@.len());
    false
}

/// Whether a device's resolved path is that of the auxiliary-key
/// interface: it holds the marker of interface 1, `:1.1/`.
pub open spec fn is_gkeys_path(path: Seq<char>) -> bool {
    holds_text(path, ":1.1/"@)
}

/// Tells whether a device's resolved path is that of the auxiliary-key
/// interface.
pub fn is_gkeys_interface(real_path: &str) -> (yes: bool)
    ensures
        yes == is_gkeys_path(real_path@),
{
    let path = chars_of(real_path);
    let marker = chars_of(":1.1/");
    contains_text(path.as_slice(), marker.as_slice())
}

/// Writes the path of the device node of the raw device `name`.
pub fn device_node(name: &str) -> (path: String)
    ensures
        path@ == "/dev/"@ + name@,
{
    let mut path = "/dev/".to_owned();
    path.append(name);
    path
}

/// Decodes what a read of `n` bytes left in `buf`: the event that the
/// bytes carry, or `None` if nothing was read or the bytes carry none.
pub fn decode_read(buf: &[u8; 20], n: usize) -> (event: Option<Event>)
    requires
        n <= 20,
    ensures
        event == (if n > 0 {
            decode(buf@.take(n as int))
        } else {
            None
        }),
{
    if n > 0 {
        let data = vstd::slice::slice_subrange(buf.as_slice(), 0, n);
        assert(data@ =~= buf@.take(n as int));
        parse_report(data)
    } else {
        None
    }
}

/// The feature that holds the profiles stored on the device.
pub const FEATURE_ONBOARD_PROFILES: u16 = 0x8100;

/// The feature that reports the key group.
pub const FEATURE_GKEYS: u16 = 0x8010;

/// How long to wait for the reply to a question, in milliseconds.
pub const QUERY_PAUSE_MS: u64 = 50;

/// How long to wait after a command, in milliseconds.
pub const COMMAND_PAUSE_MS: u64 = 20;

/// The two things to set up before the key group reports to the host.
#[derive(Debug, Clone, Copy, PartialEq, Eq)]
pub enum InitStage {
    /// Switch the profiles stored on the device off.
    OnboardProfiles,
    /// Wake the key group.
    GKeys,
}

/// A report to write and how long to wait after it.
#[derive(Debug, Clone, Copy, PartialEq, Eq)]
pub struct InitStep {
    pub command: [u8; 20],
    pub pause_ms: u64,
}

/// The feature that a stage deals with.
pub open spec fn stage_feature(stage: InitStage) -> u16 {
    match stage {
        InitStage::OnboardProfiles => FEATURE_ONBOARD_PROFILES,
        InitStage::GKeys => FEATURE_GKEYS,
    }
}

/// The question for the index under which the device keeps a feature.
pub open spec fn feature_query_report(feature: u16) -> Seq<u8> {
    report(seq![0x11u8, 0xffu8, 0x00u8, 0x00u8, (feature / 256) as u8, (feature % 256) as u8])
}

/// The index in a reply to that question; 0 says that the device lacks
/// the feature.
pub open spec fn feature_index(reply: Seq<u8>) -> u8 {
    reply[4]
}

/// The command of a stage for the feature at `index`: for the stored
/// profiles, the mode in which none of them is active; for the key group,
/// the question for its size.
pub open spec fn stage_command_report(stage: InitStage, index: u8) -> Seq<u8> {
    match stage {
        InitStage::OnboardProfiles => report(seq![0x11u8, 0xffu8, index, 0x10u8, 0x02u8]),
        InitStage::GKeys => report(seq![0x11u8, 0xffu8, index]),
    }
}

/// Begins a stage: the question for the feature's index, and the wait for
/// the reply.
pub fn init_query(stage: InitStage) -> (step: InitStep)
    ensures
        step.command@ == feature_query_report(stage_feature(stage)),
        step.pause_ms == QUERY_PAUSE_MS,
{
    let feature: u16 = match stage {
        InitStage::OnboardProfiles => FEATURE_ONBOARD_PROFILES,
        InitStage::GKeys => FEATURE_GKEYS,
    };
    let mut command = [0u8; 20];
    command[0] = 0x11;
    command[1] = 0xff;
    command[4] = (feature / 256) as u8;
    command[5] = (feature % 256) as u8;
    assert(command@ =~= feature_query_report(feature));
    InitStep { command, pause_ms: QUERY_PAUSE_MS }
}

/// Ends a stage: given the buffer that the reply was read into, the
/// command to send, or `None` if the device lacks the feature.
pub fn init_followup(stage: InitStage, reply: &[u8; 20]) -> (step: Option<InitStep>)
    ensures
        match step {
            Some(s) => feature_index(reply@) != 0 && s.command@ == stage_command_report(
                stage,
                feature_index(reply@),
            ) && s.pause_ms == COMMAND_PAUSE_MS,
            None => feature_index(reply@) == 0,
        },
{
    let index = reply[4];
    if index == 0 {
        return None;
    }
    let mut command = [0u8; 20];
    command[0] = 0x11;
    command[1] = 0xff;
    command[2] = index;
    match stage {
        InitStage::OnboardProfiles => {
            command[3] = 0x10;
            command[4] = 0x02;
        },
        InitStage::GKeys => {},
    }
    assert(command@ =~= stage_command_report(stage, index));
    Some(InitStep { command, pause_ms: COMMAND_PAUSE_MS })
}

} // verus!
