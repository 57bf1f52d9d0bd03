use font_codegen::tables::head::{Fixed, Head, LongDateTime};

fn sample() -> Vec<u8> {
    let mut data = Vec::new();
    data.extend_from_slice(&1u16.to_be_bytes()); // major_version
    data.extend_from_slice(&0u16.to_be_bytes()); // minor_version
    data.extend_from_slice(&0x0002_8000i32.to_be_bytes()); // font_revision 2.5
    data.extend_from_slice(&0xDEAD_BEEFu32.to_be_bytes()); // checksum_adjustment
    data.extend_from_slice(&0x5F0F_3CF5u32.to_be_bytes()); // magic_number
    data.extend_from_slice(&0x000Bu16.to_be_bytes()); // flags
    data.extend_from_slice(&2048u16.to_be_bytes()); // units_per_em
    data.extend_from_slice(&3_562_553_439i64.to_be_bytes()); // created
    data.extend_from_slice(&(-1i64).to_be_bytes()); // modified
    data.extend_from_slice(&(-1361i16).to_be_bytes()); // x_min
    data.extend_from_slice(&(-555i16).to_be_bytes()); // y_min
    data.extend_from_slice(&4096i16.to_be_bytes()); // x_max
    data.extend_from_slice(&2163i16.to_be_bytes()); // y_max
    data.extend_from_slice(&0u16.to_be_bytes()); // mac_style
    data.extend_from_slice(&9u16.to_be_bytes()); // lowest_rec_ppem
    data.extend_from_slice(&2i16.to_be_bytes()); // font_direction_hint
    data.extend_from_slice(&1i16.to_be_bytes()); // index_to_loc_format
    data.extend_from_slice(&0i16.to_be_bytes()); // glyph_data_format
    assert_eq!(data.len(), 54);
    data
}

#[test]
fn units_per_em_is_the_u16_at_offset_18() {
    let data = sample();
    let head = Head::read(&data).unwrap();
    assert_eq!(head.units_per_em(), 2048);
    assert_eq!(head.units_per_em(), u16::from_be_bytes([data[18], data[19]]));
    let read = font_types::BigEndian::<u16>::from_slice(&data[18..20]).unwrap().get();
    assert_eq!(head.units_per_em(), read);
}

#[test]
fn head_round_trip_gives_the_bytes_back() {
    let data = sample();
    let head = Head::read(&data).unwrap();
    assert_eq!(head.write(), data);
    let mut longer = data.clone();
    longer.extend_from_slice(&[1, 2, 3]);
    assert_eq!(Head::read(&longer).unwrap().write(), data);
}

#[test]
fn head_getters_decode_every_field() {
    let head = Head::read(&sample()).unwrap();
    assert_eq!(head.major_version(), 1);
    assert_eq!(head.minor_version(), 0);
    assert_eq!(head.font_revision(), Fixed::from_bits(0x0002_8000));
    assert_eq!(head.checksum_adjustment(), 0xDEAD_BEEF);
    assert_eq!(head.magic_number(), 0x5F0F_3CF5);
    assert_eq!(head.flags(), 0x000B);
    assert_eq!(head.created(), LongDateTime::new(3_562_553_439));
    assert_eq!(head.modified(), LongDateTime::new(-1));
    assert_eq!(head.x_min(), -1361);
    assert_eq!(head.y_min(), -555);
    assert_eq!(head.x_max(), 4096);
    assert_eq!(head.y_max(), 2163);
    assert_eq!(head.mac_style(), 0);
    assert_eq!(head.lowest_rec_ppem(), 9);
    assert_eq!(head.font_direction_hint(), 2);
    assert_eq!(head.index_to_loc_format(), 1);
    assert_eq!(head.glyph_data_format(), 0);
}

#[test]
fn head_signed_fields_agree_with_the_runtime_types() {
    let head = Head::read(&sample()).unwrap();
    let fixed = font_types::Fixed::from_bits(head.font_revision().to_bits());
    assert_eq!(fixed.to_bits(), 0x0002_8000);
    let created = font_types::LongDateTime::new(head.created().as_secs());
    assert_eq!(created.as_secs(), 3_562_553_439);
}

#[test]
fn short_head_is_not_read() {
    let mut data = sample();
    data.pop();
    assert!(Head::read(&data).is_none());
    assert!(Head::read(&[]).is_none());
}
