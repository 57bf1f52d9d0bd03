use font_codegen::font_data::ReadError;
use font_codegen::tables::os2::Os2;

/// An OS/2 table of the given version, with every field that the
/// version has, and recognisable values in some of them.
fn sample_of_version(version: u16) -> Vec<u8> {
    let len = match version {
        0 => 78,
        1 => 86,
        2..=4 => 96,
        _ => 100,
    };
    let mut data = vec![0u8; len];
    data[0..2].copy_from_slice(&version.to_be_bytes());
    data[2..4].copy_from_slice(&(-500i16).to_be_bytes());
    data[4..6].copy_from_slice(&400u16.to_be_bytes());
    if version >= 1 {
        data[78..82].copy_from_slice(&0x2000_0197u32.to_be_bytes());
    }
    if version >= 2 {
        data[86..88].copy_from_slice(&1082i16.to_be_bytes());
        data[88..90].copy_from_slice(&1456i16.to_be_bytes());
    }
    if version >= 5 {
        data[96..98].copy_from_slice(&180u16.to_be_bytes());
    }
    data
}

fn sample() -> Os2 {
    Os2::read(&sample_of_version(4)).unwrap()
}

#[test]
fn read_sample() {
    let table = sample();
    assert_eq!(table.version(), 4);
}

#[test]
fn fields_of_every_version_are_read() {
    let table = sample();
    assert_eq!(table.x_avg_char_width(), -500);
    assert_eq!(table.us_weight_class(), 400);
}

#[test]
fn versioned_fields_are_absent_before_their_version() {
    let table = Os2::read(&sample_of_version(1)).unwrap();
    assert_eq!(table.version(), 1);
    assert_eq!(table.ul_code_page_range_1(), Some(0x2000_0197));
    assert_eq!(table.sx_height(), None);
    assert_eq!(table.s_cap_height(), None);
    assert_eq!(table.us_lower_optical_point_size(), None);
}

#[test]
fn versioned_fields_are_present_from_their_version_on() {
    let table = Os2::read(&sample_of_version(2)).unwrap();
    assert_eq!(table.sx_height(), Some(1082));
    assert_eq!(table.s_cap_height(), Some(1456));
    assert_eq!(table.us_lower_optical_point_size(), None);
    let table = Os2::read(&sample_of_version(5)).unwrap();
    assert_eq!(table.sx_height(), Some(1082));
    assert_eq!(table.us_lower_optical_point_size(), Some(180));
}

#[test]
fn version_zero_has_no_later_field() {
    let table = Os2::read(&sample_of_version(0)).unwrap();
    assert_eq!(table.version(), 0);
    assert_eq!(table.ul_code_page_range_1(), None);
}

#[test]
fn short_data_is_out_of_bounds() {
    assert_eq!(Os2::read(&[0]).unwrap_err(), ReadError::OutOfBounds);
    let mut data = sample_of_version(2);
    data.truncate(95);
    assert_eq!(Os2::read(&data).unwrap_err(), ReadError::OutOfBounds);
    let mut data = sample_of_version(5);
    data.truncate(96);
    assert_eq!(Os2::read(&data).unwrap_err(), ReadError::OutOfBounds);
}
