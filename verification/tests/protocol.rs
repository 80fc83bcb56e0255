use verdantgolem::net::{handle_debug_sample_subscription, PermissionLvl};
use verdantgolem::protocol::codec::{
    read_bool, read_i16_be, read_i64_be, read_var_int, write_bool, write_i16_be, write_i64_be,
    write_var_int, ReadingError, VarInt,
};
use verdantgolem::protocol::packets::{
    CBundleDelimiter, SDebugSubscriptionRequest, SPlayPingRequest, SPlayerLoaded,
    SRecipeBookSeenRecipe, SSetHeldItem, SSetPlayerGround,
};

#[test]
fn var_ints_use_seven_bit_groups() {
    let cases: [(i32, &[u8]); 6] = [
        (0, &[0x00]),
        (1, &[0x01]),
        (127, &[0x7f]),
        (128, &[0x80, 0x01]),
        (2147483647, &[0xff, 0xff, 0xff, 0xff, 0x07]),
        (-1, &[0xff, 0xff, 0xff, 0xff, 0x0f]),
    ];
    for (value, bytes) in cases {
        let mut out = Vec::new();
        write_var_int(&mut out, VarInt(value));
        assert_eq!(out, bytes);
        assert_eq!(read_var_int(&out), Ok((VarInt(value), bytes.len())));
    }
    assert_eq!(read_var_int(&[0x80]), Err(ReadingError::Incomplete));
    assert_eq!(read_var_int(&[0x80, 0x80, 0x80, 0x80, 0x80, 0x01]), Err(ReadingError::TooLarge));
    assert_eq!(read_var_int(&[0x05, 0x99]), Ok((VarInt(5), 1)));
}

#[test]
fn big_endian_fields_round_trip() {
    let mut out = Vec::new();
    write_i64_be(&mut out, -2);
    assert_eq!(out, vec![0xff, 0xff, 0xff, 0xff, 0xff, 0xff, 0xff, 0xfe]);
    assert_eq!(read_i64_be(&out), Ok(-2));
    let mut out = Vec::new();
    write_i16_be(&mut out, 0x1234);
    assert_eq!(out, vec![0x12, 0x34]);
    assert_eq!(read_i16_be(&out), Ok(0x1234));
    assert_eq!(read_i16_be(&[0x80, 0x00]), Ok(i16::MIN));
    assert_eq!(read_i16_be(&[0x80]), Err(ReadingError::Incomplete));
    let mut out = Vec::new();
    write_bool(&mut out, true);
    assert_eq!(out, vec![1]);
    assert_eq!(read_bool(&[2]), Ok(true));
    assert_eq!(read_bool(&[0]), Ok(false));
    assert_eq!(read_bool(&[]), Err(ReadingError::Incomplete));
}

#[test]
fn packets_read_back_what_they_write() {
    let held = SSetHeldItem { slot: 4 };
    let mut out = Vec::new();
    held.write_packet_data(&mut out);
    assert_eq!(SSetHeldItem::read(&out), Ok((held, 2)));

    let ping = SPlayPingRequest { payload: 123456789 };
    let mut out = Vec::new();
    ping.write_packet_data(&mut out);
    assert_eq!(SPlayPingRequest::read(&out), Ok((ping, 8)));

    let ground = SSetPlayerGround { on_ground: true };
    let mut out = Vec::new();
    ground.write_packet_data(&mut out);
    assert_eq!(SSetPlayerGround::read(&out), Ok((ground, 1)));

    let seen = SRecipeBookSeenRecipe { recipe_display_id: VarInt(300) };
    let mut out = Vec::new();
    seen.write_packet_data(&mut out);
    assert_eq!(out, vec![0xac, 0x02]);
    assert_eq!(SRecipeBookSeenRecipe::read(&out), Ok((seen, 2)));

    let mut out = Vec::new();
    CBundleDelimiter.write_packet_data(&mut out);
    SPlayerLoaded.write_packet_data(&mut out);
    assert!(out.is_empty());
    assert_eq!(SPlayerLoaded::read(&[1, 2]), Ok((SPlayerLoaded, 0)));
}

#[test]
fn debug_samples_need_level_two() {
    let request = SDebugSubscriptionRequest { sample_type: VarInt(SDebugSubscriptionRequest::TICK_TIME) };
    let mut subscribed = false;
    handle_debug_sample_subscription(PermissionLvl::One, &request, &mut subscribed);
    assert!(!subscribed);
    handle_debug_sample_subscription(PermissionLvl::Two, &request, &mut subscribed);
    assert!(subscribed);
    let other = SDebugSubscriptionRequest { sample_type: VarInt(1) };
    let mut again = false;
    handle_debug_sample_subscription(PermissionLvl::Four, &other, &mut again);
    assert!(!again);
}
