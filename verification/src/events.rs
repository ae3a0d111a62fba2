//! Reports of the auxiliary-key interface: decoding input reports into events
//! and encoding indicator and colour commands.

use vstd::prelude::*;

verus! {

/// An input event of the auxiliary keys.
#[derive(Debug, Clone, Copy, PartialEq, Eq)]
pub enum Event {
    /// A key of the key group was pressed (1 to 5).
    GKey(u8),
    /// The key group was released.
    GKeyRelease,
    /// A profile key was pressed (1 to 3).
    MKey(u8),
    /// The profile key was released.
    MKeyRelease,
    /// The record key was pressed.
    MRKey,
    /// The record key was released.
    MRKeyRelease,
}

/// Identity and geometry of a supported keyboard.
pub struct KeyboardDef {
    pub name: &'static str,
    pub vendor_id: u16,
    pub product_id: u16,
    pub interface: u8,
    pub num_gkeys: u8,
    pub num_mkeys: u8,
}

/// Vendor identifier of the supported keyboard.
pub const G815_VENDOR_ID: u16 = 0x046d;

/// Product identifier of the supported keyboard.
pub const G815_PRODUCT_ID: u16 = 0xc33f;

/// The one supported keyboard.
pub fn g815() -> (def: KeyboardDef)
    ensures
        def.name@ == "Logitech G815"@,
        def.vendor_id == G815_VENDOR_ID,
        def.product_id == G815_PRODUCT_ID,
        def.interface == 1,
        def.num_gkeys == GKEY_COUNT,
        def.num_mkeys == MKEY_COUNT,
{
    KeyboardDef {
        name: "Logitech G815",
        vendor_id: G815_VENDOR_ID,
        product_id: G815_PRODUCT_ID,
        interface: 1,
        num_gkeys: GKEY_COUNT,
        num_mkeys: MKEY_COUNT,
    }
}

/// Length of every report, in bytes.
pub const REPORT_LEN: usize = 20;

/// Shortest report that can carry an event.
pub const MIN_EVENT_LEN: usize = 5;

/// First byte of every report.
pub const PREFIX_0: u8 = 0x11;

/// Second byte of every report.
pub const PREFIX_1: u8 = 0xff;

/// Number of keys in the key group.
pub const GKEY_COUNT: u8 = 5;

/// Number of profile keys.
pub const MKEY_COUNT: u8 = 3;

/// Report family of the key group.
pub const FAMILY_GKEY: u8 = 0x0a;
/// Report family of the profile keys and the profile indicator.
pub const FAMILY_MKEY: u8 = 0x0b;
/// Report family of the record key and the record indicator.
pub const FAMILY_MR: u8 = 0x0c;
/// Report family of the colour subsystem.
pub const FAMILY_COLOR: u8 = 0x10;

/// Sub-function of the colour subsystem that makes colour writes visible.
pub const COMMIT: u8 = 0x7f;

/// The mask in which only the bit of member `index` is set; members count from 1.
pub open spec fn member_mask(index: u8) -> u8 {
    1u8 << ((index - 1) as u8)
}

/// The member that `mask` selects among the first `count`: the one whose bit,
/// and no other, is set. `None` for an empty mask, for several bits and for a
/// bit beyond `count`.
pub open spec fn selected_member(mask: u8, count: u8) -> Option<u8> {
    if exists|i: u8| 1 <= i <= count && member_mask(i) == mask {
        Some(choose|i: u8| 1 <= i <= count && member_mask(i) == mask)
    } else {
        None
    }
}

/// What a report of the key-group family with this mask means.
pub open spec fn gkey_event(mask: u8) -> Option<Event> {
    if mask == 0 {
        Some(Event::GKeyRelease)
    } else {
        match selected_member(mask, GKEY_COUNT) {
            Some(i) => Some(Event::GKey(i)),
            None => None,
        }
    }
}

/// What a report of the profile-key family with this mask means.
pub open spec fn mkey_event(mask: u8) -> Option<Event> {
    if mask == 0 {
        Some(Event::MKeyRelease)
    } else {
        match selected_member(mask, MKEY_COUNT) {
            Some(i) => Some(Event::MKey(i)),
            None => None,
        }
    }
}

/// What a report of the record-key family with this mask means.
pub open spec fn mr_event(mask: u8) -> Option<Event> {
    if mask == 0 {
        Some(Event::MRKeyRelease)
    } else if mask == 1 {
        Some(Event::MRKey)
    } else {
        None
    }
}

/// The event that a report carries, if any.
pub open spec fn decode(data: Seq<u8>) -> Option<Event> {
    if data.len() < MIN_EVENT_LEN || data[0] != PREFIX_0 || data[1] != PREFIX_1 {
        None
    } else if data[2] == FAMILY_GKEY {
        gkey_event(data[4])
    } else if data[2] == FAMILY_MKEY {
        mkey_event(data[4])
    } else if data[2] == FAMILY_MR {
        mr_event(data[4])
    } else {
        None
    }
}

/// The masks of members 1 to 8 are the powers of two, and no two members
/// share a mask.
pub proof fn member_masks()
    ensures
        member_mask(1) == 0x01,
        member_mask(2) == 0x02,
        member_mask(3) == 0x04,
        member_mask(4) == 0x08,
        member_mask(5) == 0x10,
        member_mask(6) == 0x20,
        member_mask(7) == 0x40,
        member_mask(8) == 0x80,
        forall|i: u8, j: u8|
            1 <= i <= 8 && 1 <= j <= 8 && #[trigger] member_mask(i) == #[trigger] member_mask(j)
                ==> i == j,
{
    assert(1u8 << 0u8 == 0x01) by (bit_vector);
    assert(1u8 << 1u8 == 0x02) by (bit_vector);
    assert(1u8 << 2u8 == 0x04) by (bit_vector);
    assert(1u8 << 3u8 == 0x08) by (bit_vector);
    assert(1u8 << 4u8 == 0x10) by (bit_vector);
    assert(1u8 << 5u8 == 0x20) by (bit_vector);
    assert(1u8 << 6u8 == 0x40) by (bit_vector);
    assert(1u8 << 7u8 == 0x80) by (bit_vector);
}

/// Which member a mask selects, written out: the masks 1, 2, 4, ... select
/// members 1, 2, 3, ... up to `count`, and no other mask selects any.
pub proof fn selected_member_table(mask: u8, count: u8)
    requires
        count <= 8,
    ensures
        selected_member(mask, count) == (if mask == 0x01 && count >= 1 {
            Some(1u8)
        } else if mask == 0x02 && count >= 2 {
            Some(2u8)
        } else if mask == 0x04 && count >= 3 {
            Some(3u8)
        } else if mask == 0x08 && count >= 4 {
            Some(4u8)
        } else if mask == 0x10 && count >= 5 {
            Some(5u8)
        } else if mask == 0x20 && count >= 6 {
            Some(6u8)
        } else if mask == 0x40 && count >= 7 {
            Some(7u8)
        } else if mask == 0x80 && count >= 8 {
            Some(8u8)
        } else {
            None
        }),
{
    member_masks();
    if exists|i: u8| 1 <= i <= count && member_mask(i) == mask {
        let i = choose|i: u8| 1 <= i <= count && member_mask(i) == mask;
        assert(1 <= i <= 8);
    } else {
        assert(!(1 <= 1u8 <= count && member_mask(1) == mask));
        assert(!(1 <= 2u8 <= count && member_mask(2) == mask));
        assert(!(1 <= 3u8 <= count && member_mask(3) == mask));
        assert(!(1 <= 4u8 <= count && member_mask(4) == mask));
        assert(!(1 <= 5u8 <= count && member_mask(5) == mask));
        assert(!(1 <= 6u8 <= count && member_mask(6) == mask));
        assert(!(1 <= 7u8 <= count && member_mask(7) == mask));
        assert(!(1 <= 8u8 <= count && member_mask(8) == mask));
    }
}

/// Decodes a report into the event it carries.
///
/// A report that is too short, lacks the vendor prefix, belongs to another
/// family or carries a mask with no meaning yields `None`; nothing is an error.
pub fn parse_report(data: &[u8]) -> (event: Option<Event>)
    ensures
        event == decode(data@),
{
    if data.len() < MIN_EVENT_LEN {
        return None;
    }
    if data[0] != PREFIX_0 || data[1] != PREFIX_1 {
        return None;
    }
    let mask: u8 = data[4];
    proof {
        selected_member_table(mask, 5);
        selected_member_table(mask, 3);
    }
    match data[2] {
        FAMILY_GKEY => match mask {
            0x01 => Some(Event::GKey(1)),
            0x02 => Some(Event::GKey(2)),
            0x04 => Some(Event::GKey(3)),
            0x08 => Some(Event::GKey(4)),
            0x10 => Some(Event::GKey(5)),
            0x00 => Some(Event::GKeyRelease),
            _ => None,
        },
        FAMILY_MKEY => match mask {
            0x01 => Some(Event::MKey(1)),
            0x02 => Some(Event::MKey(2)),
            0x04 => Some(Event::MKey(3)),
            0x00 => Some(Event::MKeyRelease),
            _ => None,
        },
        FAMILY_MR => match mask {
            0x01 => Some(Event::MRKey),
            0x00 => Some(Event::MRKeyRelease),
            _ => None,
        },
        _ => None,
    }
}

/// The report that starts with `head` and is zero from there to its end.
pub open spec fn report(head: Seq<u8>) -> Seq<u8>
    recommends
        head.len() <= 20,
{
    Seq::new(REPORT_LEN as nat, |i: int| if i < head.len() { head[i] } else { 0u8 })
}

/// The profile a profile-indicator command lights: profile 0 counts as
/// profile 1.
pub open spec fn indicated_profile(profile: u8) -> u8 {
    if profile == 0 {
        1
    } else {
        profile
    }
}

/// The command that lights the indicator of one profile and puts out the others.
pub open spec fn profile_led_report(profile: u8) -> Seq<u8> {
    report(seq![0x11u8, 0xffu8, 0x0bu8, 0x1cu8, member_mask(indicated_profile(profile))])
}

/// The command that switches the record indicator.
pub open spec fn mr_led_report(on: bool) -> Seq<u8> {
    report(seq![0x11u8, 0xffu8, 0x0cu8, 0x0cu8, if on { 1u8 } else { 0u8 }])
}

/// The colour address of a key of the key group; it saturates at the top of
/// the address space.
pub open spec fn gkey_address(gkey: u8) -> u8 {
    if gkey + 0xb3 > 0xff {
        0xffu8
    } else {
        (gkey + 0xb3) as u8
    }
}

/// The command that colours one key of the key group.
pub open spec fn gkey_led_report(gkey: u8, r: u8, g: u8, b: u8) -> Seq<u8> {
    report(seq![0x11u8, 0xffu8, 0x10u8, 0x6cu8, r, g, b, gkey_address(gkey), 0xffu8])
}

/// The command that colours the five keys of the key group alike.
pub open spec fn all_gkeys_led_report(r: u8, g: u8, b: u8) -> Seq<u8> {
    report(
        seq![
            0x11u8,
            0xffu8,
            0x10u8,
            0x6cu8,
            r,
            g,
            b,
            gkey_address(1),
            gkey_address(2),
            gkey_address(3),
            gkey_address(4),
            gkey_address(5),
            0xffu8,
        ],
    )
}

/// The command that makes colour writes visible.
pub open spec fn led_commit_report() -> Seq<u8> {
    report(seq![0x11u8, 0xffu8, 0x10u8, 0x7fu8])
}

/// The four commands that switch the keyboard to direct colour control.
pub open spec fn direct_mode_init_reports() -> Seq<Seq<u8>> {
    seq![
        report(seq![0x11u8, 0xffu8, 0x08u8, 0x3eu8]),
        report(seq![0x11u8, 0xffu8, 0x08u8, 0x1eu8]),
        report(seq![0x11u8, 0xffu8, 0x0fu8, 0x1eu8]).update(0x10, 0x01u8),
        report(seq![0x11u8, 0xffu8, 0x0fu8, 0x1eu8, 0x01u8]),
    ]
}

/// The per-key frame that colours the key at one address.
pub open spec fn key_color_report(address: u8, r: u8, g: u8, b: u8) -> Seq<u8> {
    report(seq![0x11u8, 0xffu8, 0x10u8, 0x1fu8, address, r, g, b])
}

/// Builds the command that lights the indicator of `profile` (1 to 3).
///
/// The mask has one bit, so no profile beyond 8 has a command.
pub fn led_command(profile: u8) -> (cmd: [u8; 20])
    requires
        profile <= 8,
    ensures
        cmd@ == profile_led_report(profile),
{
    let mut cmd = [0u8; 20];
    cmd[0] = 0x11;
    cmd[1] = 0xff;
    cmd[2] = 0x0b;
    cmd[3] = 0x1c;
    cmd[4] = 1u8 << profile.saturating_sub(1);
    assert(cmd@ =~= profile_led_report(profile));
    cmd
}

/// Builds the command that switches the record indicator on or off.
pub fn mr_led_command(on: bool) -> (cmd: [u8; 20])
    ensures
        cmd@ == mr_led_report(on),
{
    let mut cmd = [0u8; 20];
    cmd[0] = 0x11;
    cmd[1] = 0xff;
    cmd[2] = 0x0c;
    cmd[3] = 0x0c;
    cmd[4] = if on { 0x01 } else { 0x00 };
    assert(cmd@ =~= mr_led_report(on));
    cmd
}

/// Builds the command that colours key `gkey` of the key group.
pub fn gkey_led_command(gkey: u8, r: u8, g: u8, b: u8) -> (cmd: [u8; 20])
    ensures
        cmd@ == gkey_led_report(gkey, r, g, b),
{
    let mut cmd = [0u8; 20];
    cmd[0] = 0x11;
    cmd[1] = 0xff;
    cmd[2] = 0x10;
    cmd[3] = 0x6c;
    cmd[4] = r;
    cmd[5] = g;
    cmd[6] = b;
    cmd[7] = gkey.saturating_add(0xb3);
    cmd[8] = 0xff;
    assert(cmd@ =~= gkey_led_report(gkey, r, g, b));
    cmd
}

/// Builds the command that colours all five keys of the key group alike.
pub fn all_gkeys_led_command(r: u8, g: u8, b: u8) -> (cmd: [u8; 20])
    ensures
        cmd@ == all_gkeys_led_report(r, g, b),
{
    let mut cmd = [0u8; 20];
    cmd[0] = 0x11;
    cmd[1] = 0xff;
    cmd[2] = 0x10;
    cmd[3] = 0x6c;
    cmd[4] = r;
    cmd[5] = g;
    cmd[6] = b;
    cmd[7] = 0xb4;
    cmd[8] = 0xb5;
    cmd[9] = 0xb6;
    cmd[10] = 0xb7;
    cmd[11] = 0xb8;
    cmd[12] = 0xff;
    assert(cmd@ =~= all_gkeys_led_report(r, g, b));
    cmd
}

/// Builds the command that makes earlier colour writes visible.
pub fn led_commit_command() -> (cmd: [u8; 20])
    ensures
        cmd@ == led_commit_report(),
{
    let mut cmd = [0u8; 20];
    cmd[0] = 0x11;
    cmd[1] = 0xff;
    cmd[2] = 0x10;
    cmd[3] = 0x7f;
    assert(cmd@ =~= led_commit_report());
    cmd
}

/// Builds the four commands that must go out, in this order, before the
/// first per-key frame.
pub fn direct_mode_init_commands() -> (cmds: [[u8; 20]; 4])
    ensures
        cmds@.len() == 4,
        forall|i: int| 0 <= i < 4 ==> (#[trigger] cmds@[i])@ == direct_mode_init_reports()[i],
{
    let mut cmd1 = [0u8; 20];
    cmd1[0] = 0x11;
    cmd1[1] = 0xff;
    cmd1[2] = 0x08;
    cmd1[3] = 0x3e;

    let mut cmd2 = [0u8; 20];
    cmd2[0] = 0x11;
    cmd2[1] = 0xff;
    cmd2[2] = 0x08;
    cmd2[3] = 0x1e;

    let mut cmd3 = [0u8; 20];
    cmd3[0] = 0x11;
    cmd3[1] = 0xff;
    cmd3[2] = 0x0f;
    cmd3[3] = 0x1e;
    cmd3[0x10] = 0x01;

    let mut cmd4 = [0u8; 20];
    cmd4[0] = 0x11;
    cmd4[1] = 0xff;
    cmd4[2] = 0x0f;
    cmd4[3] = 0x1e;
    cmd4[4] = 0x01;

    assert(cmd1@ =~= direct_mode_init_reports()[0]);
    assert(cmd2@ =~= direct_mode_init_reports()[1]);
    assert(cmd3@ =~= direct_mode_init_reports()[2]);
    assert(cmd4@ =~= direct_mode_init_reports()[3]);
    [cmd1, cmd2, cmd3, cmd4]
}

/// The groups of keys that share one rule for their colour address.
pub enum KeyZone {
    /// Letters, digits and the other keys of the main block.
    Standard,
    /// The eight modifier keys.
    Modifier,
    /// The keys of the key group.
    GKey,
    /// The logo.
    Logo,
}

/// The colour address of the key with number `base` in its zone.
pub open spec fn key_address(zone: KeyZone, base: u8) -> int {
    match zone {
        KeyZone::Standard => base - 0x03,
        KeyZone::Modifier => base - 0x78,
        KeyZone::GKey => base + 0xb3,
        KeyZone::Logo => base + 0xd1,
    }
}

/// The addresses of the keys numbered `first` to `last` of one zone, in order.
pub open spec fn zone_addresses(zone: KeyZone, first: u8, last: u8) -> Seq<u8>
    recommends
        first <= last,
{
    Seq::new((last - first + 1) as nat, |i: int| key_address(zone, (first + i) as u8) as u8)
}

/// The address of every key with a light, in the order in which a fill
/// colours them: the main block, the modifiers, the media keys, the lighting
/// key, the logo and the key group.
pub open spec fn all_key_addresses() -> Seq<u8> {
    zone_addresses(KeyZone::Standard, 0x04, 0x65) + zone_addresses(KeyZone::Modifier, 0xe0, 0xe7)
        + zone_addresses(KeyZone::Standard, 0x9b, 0x9e) + zone_addresses(
        KeyZone::Standard,
        0x99,
        0x99,
    ) + zone_addresses(KeyZone::Logo, 0x01, 0x01) + zone_addresses(KeyZone::GKey, 1, 5)
}

/// Number of keys with a light.
pub const KEY_COUNT: usize = 117;

/// The address of every key with a light.
pub const G815_ALL_KEYS: [u8; 117] = [
    0x01, 0x02, 0x03, 0x04, 0x05, 0x06, 0x07, 0x08, 0x09, 0x0A, 0x0B, 0x0C, 0x0D, 0x0E, 0x0F, 0x10,
    0x11, 0x12, 0x13, 0x14, 0x15, 0x16, 0x17, 0x18, 0x19, 0x1A, 0x1B, 0x1C, 0x1D, 0x1E, 0x1F, 0x20,
    0x21, 0x22, 0x23, 0x24, 0x25, 0x26, 0x27, 0x28, 0x29, 0x2A, 0x2B, 0x2C, 0x2D, 0x2E, 0x2F, 0x30,
    0x31, 0x32, 0x33, 0x34, 0x35, 0x36, 0x37, 0x38, 0x39, 0x3A, 0x3B, 0x3C, 0x3D, 0x3E, 0x3F, 0x40,
    0x41, 0x42, 0x43, 0x44, 0x45, 0x46, 0x47, 0x48, 0x49, 0x4A, 0x4B, 0x4C, 0x4D, 0x4E, 0x4F, 0x50,
    0x51, 0x52, 0x53, 0x54, 0x55, 0x56, 0x57, 0x58, 0x59, 0x5A, 0x5B, 0x5C, 0x5D, 0x5E, 0x5F, 0x60,
    0x61, 0x62, 0x68, 0x69, 0x6A, 0x6B, 0x6C, 0x6D, 0x6E, 0x6F, 0x98, 0x99, 0x9A, 0x9B, 0x96, 0xD2,
    0xB4, 0xB5, 0xB6, 0xB7, 0xB8,
];

/// The table holds the addresses that the zones' rules give.
pub proof fn key_table_matches_zones()
    ensures
        G815_ALL_KEYS@ == all_key_addresses(),
{
    assert(G815_ALL_KEYS@ =~= all_key_addresses());
}

/// The bytes of each report of a list.
pub open spec fn reports_of(cmds: Seq<[u8; 20]>) -> Seq<Seq<u8>> {
    cmds.map_values(|c: [u8; 20]| c@)
}

/// The frames that colour every key alike, one frame per key.
pub open spec fn full_keyboard_color_reports(r: u8, g: u8, b: u8) -> Seq<Seq<u8>> {
    all_key_addresses().map_values(|a: u8| key_color_report(a, r, g, b))
}

/// Builds the per-key frame that colours the key at `address`.
pub fn key_color_command(address: u8, r: u8, g: u8, b: u8) -> (cmd: [u8; 20])
    ensures
        cmd@ == key_color_report(address, r, g, b),
{
    let mut cmd = [0u8; 20];
    cmd[0] = 0x11;
    cmd[1] = 0xff;
    cmd[2] = 0x10;
    cmd[3] = 0x1f;
    cmd[4] = address;
    cmd[5] = r;
    cmd[6] = g;
    cmd[7] = b;
    assert(cmd@ =~= key_color_report(address, r, g, b));
    cmd
}

/// Builds the frames that set every key to one colour.
///
/// They take effect after the initialisation commands have gone out before
/// them and a commit after them.
pub fn full_keyboard_color_commands(r: u8, g: u8, b: u8) -> (cmds: Vec<[u8; 20]>)
    ensures
        reports_of(cmds@) == full_keyboard_color_reports(r, g, b),
        cmds@.len() == KEY_COUNT,
{
    let mut cmds: Vec<[u8; 20]> = Vec::new();
    let mut i: usize = 0;
    proof {
        key_table_matches_zones();
    }
    while i < KEY_COUNT
        invariant
            i <= KEY_COUNT,
            cmds@.len() == i,
            G815_ALL_KEYS@ == all_key_addresses(),
            forall|k: int|
                0 <= k < i ==> (#[trigger] cmds@[k])@ == key_color_report(
                    all_key_addresses()[k],
                    r,
                    g,
                    b,
                ),
        decreases KEY_COUNT - i,
    {
        cmds.push(key_color_command(G815_ALL_KEYS[i], r, g, b));
        i += 1;
    }
    assert(reports_of(cmds@) =~= full_keyboard_color_reports(r, g, b));
    cmds
}

/// A report of the key-group family with one of the masks 1, 2, 4, 8, 16 is a
/// press of key 1, 2, 3, 4, 5; with mask 0 it is the release; with any other
/// mask it is no event.
pub proof fn key_group_decoding(data: Seq<u8>)
    requires
        data.len() >= 5,
        data[0] == 0x11,
        data[1] == 0xff,
        data[2] == 0x0a,
    ensures
        data[4] == 0x01 ==> decode(data) == Some(Event::GKey(1)),
        data[4] == 0x02 ==> decode(data) == Some(Event::GKey(2)),
        data[4] == 0x04 ==> decode(data) == Some(Event::GKey(3)),
        data[4] == 0x08 ==> decode(data) == Some(Event::GKey(4)),
        data[4] == 0x10 ==> decode(data) == Some(Event::GKey(5)),
        data[4] == 0x00 ==> decode(data) == Some(Event::GKeyRelease),
        data[4] != 0x01 && data[4] != 0x02 && data[4] != 0x04 && data[4] != 0x08 && data[4] != 0x10
            && data[4] != 0x00 ==> decode(data) is None,
{
    selected_member_table(data[4], 5);
}

/// A report of the profile-key family with one of the masks 1, 2, 4 is a
/// press of profile key 1, 2, 3; with mask 0 it is the release; with any
/// other mask it is no event.
pub proof fn profile_key_decoding(data: Seq<u8>)
    requires
        data.len() >= 5,
        data[0] == 0x11,
        data[1] == 0xff,
        data[2] == 0x0b,
    ensures
        data[4] == 0x01 ==> decode(data) == Some(Event::MKey(1)),
        data[4] == 0x02 ==> decode(data) == Some(Event::MKey(2)),
        data[4] == 0x04 ==> decode(data) == Some(Event::MKey(3)),
        data[4] == 0x00 ==> decode(data) == Some(Event::MKeyRelease),
        data[4] != 0x01 && data[4] != 0x02 && data[4] != 0x04 && data[4] != 0x00 ==> decode(data)
            is None,
{
    selected_member_table(data[4], 3);
}

/// A decoded press names a key that exists: 1 to 5 in the key group, 1 to 3
/// among the profile keys.
pub proof fn decoded_index_in_range(data: Seq<u8>)
    ensures
        decode(data) matches Some(Event::GKey(n)) ==> 1 <= n <= 5,
        decode(data) matches Some(Event::MKey(n)) ==> 1 <= n <= 3,
{
    if data.len() >= 5 {
        selected_member_table(data[4], 5);
        selected_member_table(data[4], 3);
    }
}

/// Indicator commands read back as input: a device that echoes the command
/// for the indicator of profile `n` reports a press of profile key `n`, and
/// an echo of the record-indicator command reports the record key, pressed
/// for "on" and released for "off". Colour commands read back as no event.
pub proof fn indicator_commands_echo_as_events(n: u8, on: bool, r: u8, g: u8, b: u8, gkey: u8)
    requires
        1 <= n <= 3,
    ensures
        decode(profile_led_report(n)) == Some(Event::MKey(n)),
        decode(mr_led_report(on)) == Some(if on { Event::MRKey } else { Event::MRKeyRelease }),
        decode(gkey_led_report(gkey, r, g, b)) is None,
        decode(all_gkeys_led_report(r, g, b)) is None,
        decode(led_commit_report()) is None,
        decode(key_color_report(gkey, r, g, b)) is None,
{
    member_masks();
    selected_member_table(member_mask(n), 3);
}

} // verus!
