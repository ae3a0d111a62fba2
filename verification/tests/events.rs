use gkeys::events::{
    all_gkeys_led_command, direct_mode_init_commands, full_keyboard_color_commands, g815,
    gkey_led_command, key_color_command, led_command, led_commit_command, mr_led_command,
    parse_report, Event, G815_ALL_KEYS, KEY_COUNT,
};

fn report(head: &[u8]) -> [u8; 20] {
    let mut r = [0u8; 20];
    r[..head.len()].copy_from_slice(head);
    r
}

#[test]
fn test_parse_gkeys() {
    let g1 = [0x11, 0xff, 0x0a, 0x00, 0x01, 0, 0, 0, 0, 0, 0, 0, 0, 0, 0, 0, 0, 0, 0, 0];
    assert_eq!(parse_report(&g1), Some(Event::GKey(1)));

    let g5 = [0x11, 0xff, 0x0a, 0x00, 0x10, 0, 0, 0, 0, 0, 0, 0, 0, 0, 0, 0, 0, 0, 0, 0];
    assert_eq!(parse_report(&g5), Some(Event::GKey(5)));

    let release = [0x11, 0xff, 0x0a, 0x00, 0x00, 0, 0, 0, 0, 0, 0, 0, 0, 0, 0, 0, 0, 0, 0, 0];
    assert_eq!(parse_report(&release), Some(Event::GKeyRelease));
}

#[test]
fn test_parse_mkeys() {
    let m1 = [0x11, 0xff, 0x0b, 0x00, 0x01, 0, 0, 0, 0, 0, 0, 0, 0, 0, 0, 0, 0, 0, 0, 0];
    assert_eq!(parse_report(&m1), Some(Event::MKey(1)));

    let m3 = [0x11, 0xff, 0x0b, 0x00, 0x04, 0, 0, 0, 0, 0, 0, 0, 0, 0, 0, 0, 0, 0, 0, 0];
    assert_eq!(parse_report(&m3), Some(Event::MKey(3)));
}

#[test]
fn test_parse_mr() {
    let mr = [0x11, 0xff, 0x0c, 0x00, 0x01, 0, 0, 0, 0, 0, 0, 0, 0, 0, 0, 0, 0, 0, 0, 0];
    assert_eq!(parse_report(&mr), Some(Event::MRKey));
}

#[test]
fn key_group_masks_decode_one_by_one() {
    for mask in 0u8..=255 {
        let expected = match mask {
            0x00 => Some(Event::GKeyRelease),
            0x01 => Some(Event::GKey(1)),
            0x02 => Some(Event::GKey(2)),
            0x04 => Some(Event::GKey(3)),
            0x08 => Some(Event::GKey(4)),
            0x10 => Some(Event::GKey(5)),
            _ => None,
        };
        assert_eq!(parse_report(&report(&[0x11, 0xff, 0x0a, 0x00, mask])), expected);
    }
}

#[test]
fn profile_key_masks_decode_one_by_one() {
    for mask in 0u8..=255 {
        let expected = match mask {
            0x00 => Some(Event::MKeyRelease),
            0x01 => Some(Event::MKey(1)),
            0x02 => Some(Event::MKey(2)),
            0x04 => Some(Event::MKey(3)),
            _ => None,
        };
        assert_eq!(parse_report(&report(&[0x11, 0xff, 0x0b, 0x00, mask])), expected);
    }
}

#[test]
fn record_key_masks_decode_one_by_one() {
    for mask in 0u8..=255 {
        let expected = match mask {
            0x00 => Some(Event::MRKeyRelease),
            0x01 => Some(Event::MRKey),
            _ => None,
        };
        assert_eq!(parse_report(&report(&[0x11, 0xff, 0x0c, 0x00, mask])), expected);
    }
}

#[test]
fn multi_bit_mask_is_no_event() {
    assert_eq!(parse_report(&report(&[0x11, 0xff, 0x0a, 0x00, 0x03])), None);
    assert_eq!(parse_report(&report(&[0x11, 0xff, 0x0a, 0x00, 0x20])), None);
    assert_eq!(parse_report(&report(&[0x11, 0xff, 0x0b, 0x00, 0x08])), None);
}

#[test]
fn short_report_is_no_event() {
    assert_eq!(parse_report(&[]), None);
    assert_eq!(parse_report(&[0x11, 0xff, 0x0a, 0x00]), None);
    assert_eq!(parse_report(&[0x11, 0xff, 0x0a, 0x00, 0x01]), Some(Event::GKey(1)));
}

#[test]
fn wrong_prefix_is_no_event() {
    assert_eq!(parse_report(&report(&[0x10, 0xff, 0x0a, 0x00, 0x01])), None);
    assert_eq!(parse_report(&report(&[0x11, 0xfe, 0x0a, 0x00, 0x01])), None);
}

#[test]
fn unknown_family_is_no_event() {
    for family in 0u8..=255 {
        if family == 0x0a || family == 0x0b || family == 0x0c {
            continue;
        }
        assert_eq!(parse_report(&report(&[0x11, 0xff, family, 0x00, 0x01])), None);
    }
}

#[test]
fn sub_function_byte_is_not_looked_at() {
    assert_eq!(parse_report(&report(&[0x11, 0xff, 0x0a, 0x77, 0x02])), Some(Event::GKey(2)));
}

#[test]
fn profile_indicator_command_bytes() {
    assert_eq!(led_command(1), report(&[0x11, 0xff, 0x0b, 0x1c, 0x01]));
    assert_eq!(led_command(2), report(&[0x11, 0xff, 0x0b, 0x1c, 0x02]));
    assert_eq!(led_command(3), report(&[0x11, 0xff, 0x0b, 0x1c, 0x04]));
    assert_eq!(led_command(0), report(&[0x11, 0xff, 0x0b, 0x1c, 0x01]));
    assert_eq!(led_command(8), report(&[0x11, 0xff, 0x0b, 0x1c, 0x80]));
}

#[test]
fn record_indicator_command_bytes() {
    assert_eq!(mr_led_command(true), report(&[0x11, 0xff, 0x0c, 0x0c, 0x01]));
    assert_eq!(mr_led_command(false), report(&[0x11, 0xff, 0x0c, 0x0c, 0x00]));
}

#[test]
fn key_group_colour_command_bytes() {
    assert_eq!(
        gkey_led_command(1, 255, 0, 0),
        report(&[0x11, 0xff, 0x10, 0x6c, 255, 0, 0, 0xb4, 0xff])
    );
    assert_eq!(
        gkey_led_command(5, 1, 2, 3),
        report(&[0x11, 0xff, 0x10, 0x6c, 1, 2, 3, 0xb8, 0xff])
    );
    assert_eq!(
        gkey_led_command(200, 1, 2, 3),
        report(&[0x11, 0xff, 0x10, 0x6c, 1, 2, 3, 0xff, 0xff])
    );
}

#[test]
fn all_key_group_colour_command_bytes() {
    assert_eq!(
        all_gkeys_led_command(10, 20, 30),
        report(&[0x11, 0xff, 0x10, 0x6c, 10, 20, 30, 0xb4, 0xb5, 0xb6, 0xb7, 0xb8, 0xff])
    );
}

#[test]
fn commit_command_bytes() {
    assert_eq!(led_commit_command(), report(&[0x11, 0xff, 0x10, 0x7f]));
}

#[test]
fn direct_mode_init_is_four_commands() {
    let cmds = direct_mode_init_commands();
    assert_eq!(cmds[0], report(&[0x11, 0xff, 0x08, 0x3e]));
    assert_eq!(cmds[1], report(&[0x11, 0xff, 0x08, 0x1e]));
    let mut third = report(&[0x11, 0xff, 0x0f, 0x1e]);
    third[0x10] = 0x01;
    assert_eq!(cmds[2], third);
    assert_eq!(cmds[3], report(&[0x11, 0xff, 0x0f, 0x1e, 0x01]));
}

#[test]
fn key_frame_bytes() {
    assert_eq!(key_color_command(0xd2, 9, 8, 7), report(&[0x11, 0xff, 0x10, 0x1f, 0xd2, 9, 8, 7]));
}

#[test]
fn full_keyboard_fill_has_one_frame_per_key() {
    let cmds = full_keyboard_color_commands(1, 2, 3);
    assert_eq!(cmds.len(), 117);
    assert_eq!(cmds.len(), KEY_COUNT);
    for (i, cmd) in cmds.iter().enumerate() {
        assert_eq!(*cmd, report(&[0x11, 0xff, 0x10, 0x1f, G815_ALL_KEYS[i], 1, 2, 3]));
    }
    assert_eq!(cmds[0][4], 0x01);
    assert_eq!(cmds[116][4], 0xb8);
}

#[test]
fn key_addresses_follow_the_zone_offsets() {
    // letters and digits: usage - 3
    assert_eq!(G815_ALL_KEYS[0], 0x04 - 0x03);
    assert_eq!(G815_ALL_KEYS[97], 0x65 - 0x03);
    // modifiers: usage - 0x78
    assert_eq!(G815_ALL_KEYS[98], 0xe0 - 0x78);
    assert_eq!(G815_ALL_KEYS[105], 0xe7 - 0x78);
    // media keys and the lighting key
    assert_eq!(G815_ALL_KEYS[106], 0x9b - 0x03);
    assert_eq!(G815_ALL_KEYS[110], 0x99 - 0x03);
    // logo: 1 + 0xd1
    assert_eq!(G815_ALL_KEYS[111], 0x01 + 0xd1);
    // key group: n + 0xb3
    assert_eq!(G815_ALL_KEYS[112], 1 + 0xb3);
    assert_eq!(G815_ALL_KEYS[116], 5 + 0xb3);
}

#[test]
fn indicator_commands_read_back_as_key_events() {
    assert_eq!(parse_report(&led_command(1)), Some(Event::MKey(1)));
    assert_eq!(parse_report(&led_command(2)), Some(Event::MKey(2)));
    assert_eq!(parse_report(&led_command(3)), Some(Event::MKey(3)));
    assert_eq!(parse_report(&mr_led_command(true)), Some(Event::MRKey));
    assert_eq!(parse_report(&mr_led_command(false)), Some(Event::MRKeyRelease));
    assert_eq!(parse_report(&led_commit_command()), None);
    assert_eq!(parse_report(&all_gkeys_led_command(1, 2, 3)), None);
}

#[test]
fn keyboard_definition() {
    let def = g815();
    assert_eq!(def.name, "Logitech G815");
    assert_eq!(def.vendor_id, 0x046d);
    assert_eq!(def.product_id, 0xc33f);
    assert_eq!(def.interface, 1);
    assert_eq!(def.num_gkeys, 5);
    assert_eq!(def.num_mkeys, 3);
}
