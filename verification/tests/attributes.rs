use netlink_packet_utils::nla::DefaultNla;
use taprio_codec::{
    buffer_len, checked_list_buffer_len, emit, emit_list, list_buffer_len, parse_list, Attribute,
    EncodeFailure, Field,
    TaprioScheduleEntry, TaprioScheduleEntryItem, TaprioTcEntry, TcPriomap, TcQdiscTaprioOption,
};

fn written<A: Attribute>(attribute: &A) -> Vec<u8> {
    let mut buffer = vec![0xaa; buffer_len(attribute)];
    emit(attribute, &mut buffer);
    buffer
}

fn value_of<A: Attribute>(attribute: &A) -> Vec<u8> {
    let mut buffer = vec![0xaa; attribute.value_len()];
    attribute.emit_value(&mut buffer);
    buffer
}

#[test]
fn fp_from_char_accepts_e_and_p() {
    assert_eq!(TaprioTcEntry::fp_from_char('E'), Ok(TaprioTcEntry::Fp(1)));
    assert_eq!(TaprioTcEntry::fp_from_char('P'), Ok(TaprioTcEntry::Fp(2)));
    assert_eq!(value_of(&TaprioTcEntry::fp_from_char('E').unwrap()), vec![1, 0, 0, 0]);
    assert_eq!(value_of(&TaprioTcEntry::fp_from_char('P').unwrap()), vec![2, 0, 0, 0]);
}

#[test]
fn fp_from_char_rejects_every_other_character() {
    for c in ['e', 'p', 'S', 'F', '0', '1', ' ', '\0', 'é'] {
        assert_eq!(TaprioTcEntry::fp_from_char(c), Err(EncodeFailure::InvalidFp(c)));
    }
}

#[test]
fn cmd_from_char_accepts_s() {
    let cmd = TaprioScheduleEntryItem::cmd_from_char('S').unwrap();
    assert_eq!(cmd, TaprioScheduleEntryItem::Cmd(0));
    assert_eq!(value_of(&cmd), vec![0]);
}

#[test]
fn cmd_from_char_rejects_every_other_character() {
    for c in ['s', 'E', 'P', 'H', 'R', '0', ' '] {
        assert_eq!(
            TaprioScheduleEntryItem::cmd_from_char(c),
            Err(EncodeFailure::InvalidCmd(c))
        );
    }
}

#[test]
fn tc_entry_kinds() {
    assert_eq!(TaprioTcEntry::Index(7).kind(), 1);
    assert_eq!(TaprioTcEntry::MaxSdu(7).kind(), 2);
    assert_eq!(TaprioTcEntry::Fp(7).kind(), 3);
    assert_eq!(TaprioTcEntry::Other(DefaultNla::new(0x4009, vec![])).kind(), 0x4009);
}

#[test]
fn schedule_kinds() {
    assert_eq!(TaprioScheduleEntry::Entry(vec![]).kind(), 1);
    assert_eq!(TaprioScheduleEntryItem::Cmd(0).kind(), 2);
    assert_eq!(TaprioScheduleEntryItem::GateMask(0).kind(), 3);
    assert_eq!(TaprioScheduleEntryItem::Interval(0).kind(), 4);
    assert_eq!(TaprioScheduleEntry::Other(DefaultNla::new(77, vec![1])).kind(), 77);
    assert_eq!(TaprioScheduleEntryItem::Other(DefaultNla::new(78, vec![1])).kind(), 78);
}

#[test]
fn option_kinds() {
    assert_eq!(TcQdiscTaprioOption::Priomap(TcPriomap::default()).kind(), 1);
    assert_eq!(TcQdiscTaprioOption::Schedule(vec![]).kind(), 0x8002);
    assert_eq!(TcQdiscTaprioOption::Basetime(0).kind(), 3);
    assert_eq!(TcQdiscTaprioOption::ClockId(0).kind(), 5);
    assert_eq!(TcQdiscTaprioOption::Cycletime(0).kind(), 8);
    assert_eq!(TcQdiscTaprioOption::CycletimeExtension(0).kind(), 9);
    assert_eq!(TcQdiscTaprioOption::Flags(0).kind(), 10);
    assert_eq!(TcQdiscTaprioOption::TxtimeDelay(0).kind(), 11);
    assert_eq!(TcQdiscTaprioOption::Tc(vec![]).kind(), 0x800c);
    assert_eq!(TcQdiscTaprioOption::Other(DefaultNla::new(0x8040, vec![])).kind(), 0x8040);
}

#[test]
fn value_lengths() {
    assert_eq!(TaprioTcEntry::Index(1).value_len(), 4);
    assert_eq!(TaprioTcEntry::Other(DefaultNla::new(9, vec![1, 2, 3])).value_len(), 3);
    assert_eq!(TaprioScheduleEntryItem::Cmd(0).value_len(), 1);
    assert_eq!(TaprioScheduleEntryItem::GateMask(1).value_len(), 4);
    assert_eq!(TaprioScheduleEntryItem::Interval(1).value_len(), 4);
    assert_eq!(TcQdiscTaprioOption::ClockId(1).value_len(), 4);
    assert_eq!(TcQdiscTaprioOption::Flags(1).value_len(), 4);
    assert_eq!(TcQdiscTaprioOption::TxtimeDelay(1).value_len(), 4);
    assert_eq!(TcQdiscTaprioOption::Basetime(1).value_len(), 8);
    assert_eq!(TcQdiscTaprioOption::Cycletime(1).value_len(), 8);
    assert_eq!(TcQdiscTaprioOption::CycletimeExtension(1).value_len(), 8);
    assert_eq!(TcQdiscTaprioOption::Priomap(TcPriomap::default()).value_len(), 82);
    assert_eq!(TcQdiscTaprioOption::Tc(vec![]).value_len(), 0);
    assert_eq!(
        TcQdiscTaprioOption::Tc(vec![TaprioTcEntry::Index(0), TaprioTcEntry::Fp(1)]).value_len(),
        16
    );
    assert_eq!(
        TaprioScheduleEntry::Entry(vec![
            TaprioScheduleEntryItem::Cmd(0),
            TaprioScheduleEntryItem::GateMask(1),
            TaprioScheduleEntryItem::Interval(2),
        ])
        .value_len(),
        24
    );
}

#[test]
fn every_attribute_takes_header_and_value_rounded_up_to_four() {
    assert_eq!(buffer_len(&TaprioScheduleEntryItem::Cmd(0)), 8);
    assert_eq!(buffer_len(&TaprioScheduleEntryItem::Interval(0)), 8);
    assert_eq!(buffer_len(&TcQdiscTaprioOption::Basetime(0)), 12);
    assert_eq!(buffer_len(&TcQdiscTaprioOption::Priomap(TcPriomap::default())), 88);
    for n in 0..=9usize {
        let other = TaprioTcEntry::Other(DefaultNla::new(200, vec![7; n]));
        assert_eq!(buffer_len(&other), (4 + n + 3) / 4 * 4);
        assert_eq!(written(&other).len(), (4 + n + 3) / 4 * 4);
    }
}

#[test]
fn the_command_is_one_byte_and_three_of_padding() {
    let bytes = written(&TaprioScheduleEntryItem::Cmd(0x5a));
    assert_eq!(bytes, vec![0x05, 0x00, 0x02, 0x00, 0x5a, 0x00, 0x00, 0x00]);
}

#[test]
fn numbers_are_written_in_the_byte_order_of_the_machine() {
    let n: u32 = 0x0102_0304;
    let mut expected = vec![0x08, 0x00, 0x05, 0x00];
    expected.extend_from_slice(&n.to_ne_bytes());
    assert_eq!(written(&TcQdiscTaprioOption::ClockId(n)), expected);

    let t: i64 = -0x0102_0304_0506_0708;
    let mut expected = vec![0x0c, 0x00, 0x03, 0x00];
    expected.extend_from_slice(&t.to_ne_bytes());
    assert_eq!(written(&TcQdiscTaprioOption::Basetime(t)), expected);
}

#[test]
fn scalars_have_exact_bytes() {
    assert_eq!(
        written(&TcQdiscTaprioOption::TxtimeDelay(500000)),
        vec![0x08, 0x00, 0x0b, 0x00, 0x20, 0xa1, 0x07, 0x00]
    );
    assert_eq!(
        written(&TcQdiscTaprioOption::Cycletime(-2)),
        vec![0x0c, 0x00, 0x08, 0x00, 0xfe, 0xff, 0xff, 0xff, 0xff, 0xff, 0xff, 0xff]
    );
    assert_eq!(
        written(&TaprioTcEntry::MaxSdu(300)),
        vec![0x08, 0x00, 0x02, 0x00, 0x2c, 0x01, 0x00, 0x00]
    );
}

#[test]
fn scalars_are_read_back() {
    assert_eq!(
        TcQdiscTaprioOption::parse(5, &[0x0b, 0, 0, 0]),
        Ok(TcQdiscTaprioOption::ClockId(11))
    );
    assert_eq!(
        TcQdiscTaprioOption::parse(10, &[0x01, 0, 0, 0x80]),
        Ok(TcQdiscTaprioOption::Flags(0x8000_0001))
    );
    assert_eq!(
        TcQdiscTaprioOption::parse(3, &[0x00, 0xca, 0x9a, 0x3b, 0, 0, 0, 0]),
        Ok(TcQdiscTaprioOption::Basetime(1_000_000_000))
    );
    assert_eq!(
        TcQdiscTaprioOption::parse(9, &[0x9c, 0xff, 0xff, 0xff, 0xff, 0xff, 0xff, 0xff]),
        Ok(TcQdiscTaprioOption::CycletimeExtension(-100))
    );
    assert_eq!(TaprioTcEntry::parse(3, &[2, 0, 0, 0]), Ok(TaprioTcEntry::Fp(2)));
    assert_eq!(
        TaprioTcEntry::parse(3, &[9, 0, 0, 0]),
        Ok(TaprioTcEntry::Fp(9)),
        "reading does not judge the number"
    );
    assert_eq!(
        TaprioScheduleEntryItem::parse(2, &[0x07]),
        Ok(TaprioScheduleEntryItem::Cmd(7))
    );
    assert_eq!(
        TaprioScheduleEntryItem::parse(4, &[0xe0, 0x93, 0x04, 0x00]),
        Ok(TaprioScheduleEntryItem::Interval(300000))
    );
}

#[test]
fn round_trip_of_every_variant() {
    let options = vec![
        TcQdiscTaprioOption::ClockId(u32::MAX),
        TcQdiscTaprioOption::Flags(2),
        TcQdiscTaprioOption::Priomap(TcPriomap::from_parts(
            16,
            [0, 1, 2, 3, 4, 5, 6, 7, 8, 9, 10, 11, 12, 13, 14, 15],
            1,
            [0xffff, 1, 2, 3, 4, 5, 6, 7, 8, 9, 10, 11, 12, 13, 14, 0x0100],
            [0x1234, 0, 0, 0, 0, 0, 0, 0, 0, 0, 0, 0, 0, 0, 0, 0xabcd],
        )),
        TcQdiscTaprioOption::TxtimeDelay(0),
        TcQdiscTaprioOption::Basetime(i64::MIN),
        TcQdiscTaprioOption::Cycletime(i64::MAX),
        TcQdiscTaprioOption::CycletimeExtension(-1),
        TcQdiscTaprioOption::Tc(vec![]),
        TcQdiscTaprioOption::Tc(vec![
            TaprioTcEntry::Fp(2),
            TaprioTcEntry::Index(3),
            TaprioTcEntry::Index(3),
            TaprioTcEntry::Other(DefaultNla::new(9, vec![1, 2, 3, 4, 5])),
            TaprioTcEntry::MaxSdu(1500),
        ]),
        TcQdiscTaprioOption::Schedule(vec![
            TaprioScheduleEntry::Entry(vec![]),
            TaprioScheduleEntry::Other(DefaultNla::new(0x8002, vec![9; 7])),
            TaprioScheduleEntry::Entry(vec![
                TaprioScheduleEntryItem::Interval(5),
                TaprioScheduleEntryItem::Cmd(0),
                TaprioScheduleEntryItem::Other(DefaultNla::new(1, vec![])),
                TaprioScheduleEntryItem::GateMask(0xff),
            ]),
        ]),
        TcQdiscTaprioOption::Other(DefaultNla::new(4, vec![0xde, 0xad])),
    ];
    let mut buffer = vec![0x55; list_buffer_len(options.as_slice())];
    emit_list(options.as_slice(), &mut buffer);
    assert_eq!(buffer.len() % 4, 0);
    assert_eq!(parse_list::<TcQdiscTaprioOption>(&buffer, Field::Options), Ok(options));
}

#[test]
fn an_unknown_kind_is_kept_and_written_back_unchanged() {
    let bytes: Vec<u8> = vec![
        0x07, 0x00, // length 7
        0x64, 0x00, // kind 100
        0x01, 0x02, 0x03, // value
        0x00, // padding
        0x04, 0x00, // length 4
        0x07, 0xc0, // kind 7 with both flags
        0x0c, 0x00, // length 12
        0x0d, 0x80, // kind 13, nested
        0x08, 0x00, 0x01, 0x00, 0x2a, 0x00, 0x00, 0x00, // what would be an index
    ];
    let expected = vec![
        TcQdiscTaprioOption::Other(DefaultNla::new(100, vec![1, 2, 3])),
        TcQdiscTaprioOption::Other(DefaultNla::new(0xc007, vec![])),
        TcQdiscTaprioOption::Other(DefaultNla::new(
            0x800d,
            vec![0x08, 0x00, 0x01, 0x00, 0x2a, 0x00, 0x00, 0x00],
        )),
    ];
    let parsed = parse_list::<TcQdiscTaprioOption>(&bytes, Field::Options).unwrap();
    assert_eq!(parsed, expected);
    let mut buffer = vec![0xff; list_buffer_len(parsed.as_slice())];
    emit_list(parsed.as_slice(), &mut buffer);
    assert_eq!(buffer, bytes);
}

#[test]
fn kinds_are_scoped_to_their_list() {
    // The same code names the priority map among the options, the index in
    // a traffic class and an entry in the schedule, and nothing in an entry.
    let value = [0x2a, 0, 0, 0];
    assert_eq!(TaprioTcEntry::parse(1, &value), Ok(TaprioTcEntry::Index(42)));
    assert_eq!(
        TaprioScheduleEntryItem::parse(1, &value),
        Ok(TaprioScheduleEntryItem::Other(DefaultNla::new(1, value.to_vec())))
    );
    assert_eq!(
        TaprioScheduleEntry::parse(4, &value),
        Ok(TaprioScheduleEntry::Other(DefaultNla::new(4, value.to_vec())))
    );
    assert_eq!(
        TaprioTcEntry::parse(4, &value),
        Ok(TaprioTcEntry::Other(DefaultNla::new(4, value.to_vec())))
    );
    assert_eq!(
        TcQdiscTaprioOption::parse(4, &value),
        Ok(TcQdiscTaprioOption::Other(DefaultNla::new(4, value.to_vec())))
    );
    assert_eq!(
        TcQdiscTaprioOption::parse(13, &value),
        Ok(TcQdiscTaprioOption::Other(DefaultNla::new(13, value.to_vec())))
    );
}

#[test]
fn the_nested_flag_does_not_change_which_attribute_a_kind_names() {
    assert_eq!(
        TcQdiscTaprioOption::parse(0x8005, &[1, 0, 0, 0]),
        Ok(TcQdiscTaprioOption::ClockId(1))
    );
    assert_eq!(
        TcQdiscTaprioOption::parse(12, &[8, 0, 1, 0, 5, 0, 0, 0]),
        Ok(TcQdiscTaprioOption::Tc(vec![TaprioTcEntry::Index(5)]))
    );
    assert_eq!(
        TcQdiscTaprioOption::parse(0x800c, &[8, 0, 1, 0, 5, 0, 0, 0]),
        Ok(TcQdiscTaprioOption::Tc(vec![TaprioTcEntry::Index(5)]))
    );
    assert_eq!(
        TaprioScheduleEntry::parse(0x8001, &[5, 0, 2, 0, 0, 0, 0, 0]),
        Ok(TaprioScheduleEntry::Entry(vec![TaprioScheduleEntryItem::Cmd(0)]))
    );
}

#[test]
fn every_other_bit_of_a_kind_tells_attributes_apart() {
    let value = [1, 0, 0, 0];
    assert_eq!(
        TcQdiscTaprioOption::parse(0x4005, &value),
        Ok(TcQdiscTaprioOption::Other(DefaultNla::new(0x4005, value.to_vec())))
    );
    assert_eq!(TcQdiscTaprioOption::parse(0x4005, &value).unwrap().kind(), 0x4005);
    assert_eq!(
        TcQdiscTaprioOption::parse(0xc00a, &value),
        Ok(TcQdiscTaprioOption::Other(DefaultNla::new(0xc00a, value.to_vec())))
    );
    assert_eq!(
        TaprioTcEntry::parse(0x4001, &value),
        Ok(TaprioTcEntry::Other(DefaultNla::new(0x4001, value.to_vec())))
    );
    assert_eq!(
        TaprioScheduleEntry::parse(0x4001, &value),
        Ok(TaprioScheduleEntry::Other(DefaultNla::new(0x4001, value.to_vec())))
    );
    assert_eq!(
        TaprioScheduleEntryItem::parse(0x4003, &value),
        Ok(TaprioScheduleEntryItem::Other(DefaultNla::new(0x4003, value.to_vec())))
    );
    // A record under such a kind is written back as it came.
    let bytes = [0x08, 0x00, 0x05, 0x40, 0x01, 0x00, 0x00, 0x00];
    let parsed = parse_list::<TcQdiscTaprioOption>(&bytes, Field::Options).unwrap();
    let mut buffer = vec![0xff; 8];
    emit_list(parsed.as_slice(), &mut buffer);
    assert_eq!(buffer, bytes);
}

#[test]
fn the_length_of_a_value_is_counted_whatever_its_size() {
    let large = TaprioTcEntry::Other(DefaultNla::new(9, vec![0; 0x12345]));
    assert!(!large.is_encodable());
    assert_eq!(large.checked_value_len(), Some(0x12345));
    assert_eq!(TaprioTcEntry::Index(1).checked_value_len(), Some(4));
    assert_eq!(TaprioScheduleEntryItem::Cmd(0).checked_value_len(), Some(1));
    assert_eq!(
        TcQdiscTaprioOption::Tc(vec![large.clone(), TaprioTcEntry::Fp(1)]).checked_value_len(),
        Some(0x12345 + 3 + 4 + 8)
    );
    assert_eq!(
        TcQdiscTaprioOption::Priomap(TcPriomap::default()).checked_value_len(),
        Some(82)
    );
    assert_eq!(
        TaprioScheduleEntry::Entry(vec![
            TaprioScheduleEntryItem::Cmd(0),
            TaprioScheduleEntryItem::Other(DefaultNla::new(9, vec![0; 0x10001])),
        ])
        .checked_value_len(),
        Some(8 + 4 + 0x10004)
    );
    assert_eq!(checked_list_buffer_len(&[large, TaprioTcEntry::Index(0)]), Some(0x12354));
}

#[test]
fn a_schedule_keeps_the_order_of_its_entries() {
    let schedule = TcQdiscTaprioOption::Schedule(vec![
        TaprioScheduleEntry::Entry(vec![TaprioScheduleEntryItem::Interval(3)]),
        TaprioScheduleEntry::Entry(vec![TaprioScheduleEntryItem::Interval(1)]),
        TaprioScheduleEntry::Entry(vec![TaprioScheduleEntryItem::Interval(2)]),
        TaprioScheduleEntry::Entry(vec![TaprioScheduleEntryItem::Interval(1)]),
    ]);
    let bytes = written(&schedule);
    assert_eq!(&bytes[..4], &[0x34, 0x00, 0x02, 0x80]);
    assert_eq!(TcQdiscTaprioOption::parse(0x8002, &bytes[4..]), Ok(schedule));
}

#[test]
fn what_fits_a_header_can_be_written() {
    assert!(TaprioTcEntry::Index(0).is_encodable());
    assert!(TaprioTcEntry::Other(DefaultNla::new(9, vec![0; 0xfffb])).is_encodable());
    assert!(!TaprioTcEntry::Other(DefaultNla::new(9, vec![0; 0xfffc])).is_encodable());
    assert!(!TaprioScheduleEntryItem::Other(DefaultNla::new(9, vec![0; 0x10000])).is_encodable());
    assert!(TcQdiscTaprioOption::Priomap(TcPriomap::default()).is_encodable());

    let largest = TaprioTcEntry::Other(DefaultNla::new(9, vec![0; 0xfff4]));
    assert_eq!(buffer_len(&largest), 0xfff8);
    assert!(TcQdiscTaprioOption::Tc(vec![largest.clone()]).is_encodable());
    assert!(!TcQdiscTaprioOption::Tc(vec![largest.clone(), TaprioTcEntry::Index(0)]).is_encodable());
    assert!(!TcQdiscTaprioOption::Tc(vec![
        TaprioTcEntry::Index(0),
        TaprioTcEntry::Other(DefaultNla::new(9, vec![0; 0xfffc])),
    ])
    .is_encodable());

    let nested = TaprioScheduleEntry::Entry(vec![TaprioScheduleEntryItem::Other(
        DefaultNla::new(9, vec![0; 0xfff0]),
    )]);
    assert!(nested.is_encodable());
    assert!(!TcQdiscTaprioOption::Schedule(vec![nested.clone(), nested]).is_encodable());
}

#[test]
fn the_largest_value_is_written_with_its_length() {
    let largest = TaprioTcEntry::Other(DefaultNla::new(9, vec![3; 0xfffb]));
    let bytes = written(&largest);
    assert_eq!(bytes.len(), 0x10000);
    assert_eq!(&bytes[..4], &[0xff, 0xff, 0x09, 0x00]);
    assert_eq!(bytes[0xffff], 0);
    assert_eq!(parse_list::<TaprioTcEntry>(&bytes, Field::Tc), Ok(vec![largest]));
}
