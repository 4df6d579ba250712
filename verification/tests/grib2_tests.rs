use hrrr_render::grib2::error::Grib2Error;
use hrrr_render::grib2::packing::{
    apply_bitmap, extract_bits, read_signed_bytes, sign_magnitude_16, try_unpack_data_codes,
    Jpeg2000Packing, SimplePacking, UnpackedCodes,
};
use hrrr_render::grib2::sections::IndicatorSection;
use hrrr_render::grib2::tables::{lookup_parameter, surface_type_name};
use hrrr_render::grib2::{parse_messages, try_parse_messages, Grib2Message};

fn be32(v: u32) -> [u8; 4] {
    v.to_be_bytes()
}

/// A complete GRIB2 message holding a 2x2 Lambert grid of 2 m temperature,
/// simple-packed with 8 bits per value and no bitmap.
fn sample_message(values: [u8; 4]) -> Vec<u8> {
    let mut sec1 = Vec::new();
    sec1.extend_from_slice(&be32(21));
    sec1.push(1);
    sec1.extend_from_slice(&7u16.to_be_bytes());
    sec1.extend_from_slice(&0u16.to_be_bytes());
    sec1.extend_from_slice(&[2, 1, 1]);
    sec1.extend_from_slice(&2024u16.to_be_bytes());
    sec1.extend_from_slice(&[3, 15, 12, 0, 0, 0, 1]);
    assert_eq!(sec1.len(), 21);

    let mut lambert = vec![0u8; 67];
    lambert[16..20].copy_from_slice(&be32(2));
    lambert[20..24].copy_from_slice(&be32(2));
    lambert[24..28].copy_from_slice(&21138123i32.to_be_bytes());
    lambert[28..32].copy_from_slice(&237280472i32.to_be_bytes());
    lambert[41..45].copy_from_slice(&be32(3000000));
    lambert[45..49].copy_from_slice(&be32(3000000));
    lambert[50] = 64;
    lambert[51..55].copy_from_slice(&38500000i32.to_be_bytes());
    let mut sec3 = Vec::new();
    sec3.extend_from_slice(&be32(14 + 67));
    sec3.push(3);
    sec3.push(0);
    sec3.extend_from_slice(&be32(4));
    sec3.extend_from_slice(&[0, 0]);
    sec3.extend_from_slice(&30u16.to_be_bytes());
    sec3.extend_from_slice(&lambert);

    let mut sec4 = Vec::new();
    sec4.extend_from_slice(&be32(34));
    sec4.push(4);
    sec4.extend_from_slice(&0u16.to_be_bytes());
    sec4.extend_from_slice(&0u16.to_be_bytes());
    sec4.extend_from_slice(&[0, 0, 2, 0, 0]);
    sec4.extend_from_slice(&0u16.to_be_bytes());
    sec4.extend_from_slice(&[0, 1]);
    sec4.extend_from_slice(&be32(6));
    sec4.extend_from_slice(&[103, 0]);
    sec4.extend_from_slice(&be32(2));
    sec4.extend_from_slice(&[255, 0, 0, 0, 0, 0]);
    assert_eq!(sec4.len(), 34);

    let mut sec5 = Vec::new();
    sec5.extend_from_slice(&be32(21));
    sec5.push(5);
    sec5.extend_from_slice(&be32(4));
    sec5.extend_from_slice(&0u16.to_be_bytes());
    sec5.extend_from_slice(&250.0f32.to_bits().to_be_bytes());
    sec5.extend_from_slice(&0u16.to_be_bytes());
    sec5.extend_from_slice(&0x8001u16.to_be_bytes());
    sec5.extend_from_slice(&[8, 0]);

    let sec6 = vec![0, 0, 0, 6, 6, 255];
    let mut sec7 = Vec::new();
    sec7.extend_from_slice(&be32(9));
    sec7.push(7);
    sec7.extend_from_slice(&values);

    let body: Vec<u8> = [sec1, sec3, sec4, sec5, sec6, sec7].concat();
    let total = 16 + body.len() as u64 + 4;
    let mut msg = b"GRIB".to_vec();
    msg.extend_from_slice(&[0, 0, 0, 2]);
    msg.extend_from_slice(&total.to_be_bytes());
    msg.extend_from_slice(&body);
    msg.extend_from_slice(b"7777");
    msg
}

#[test]
fn test_extract_bits() {
    let data = [0b10110100, 0b11001010];
    assert_eq!(extract_bits(&data, 0, 4), 0b1011);
    assert_eq!(extract_bits(&data, 4, 4), 0b0100);
    assert_eq!(extract_bits(&data, 0, 8), 0b10110100);
    assert_eq!(extract_bits(&data, 8, 8), 0b11001010);
    assert_eq!(extract_bits(&data, 4, 8), 0b01001100);
}

#[test]
fn test_simple_unpack_zero_bits() {
    let sp = SimplePacking {
        reference_value_bits: 42.0f32.to_bits(),
        binary_scale_factor: 0,
        decimal_scale_factor: 0,
        num_bits: 0,
        original_type: 0,
    };
    let codes = sp.unpack_codes(&[], 10);
    let values: Vec<f64> = match codes {
        UnpackedCodes::Reference { count } => vec![f32::from_bits(sp.reference_value_bits) as f64; count],
        UnpackedCodes::Scaled { .. } => panic!("zero-width values carry no codes"),
    };
    assert_eq!(values.len(), 10);
    assert_eq!(values[0], 42.0);
}

#[test]
fn extract_bits_past_the_end_reads_zeros() {
    let data = [0xFFu8];
    assert_eq!(extract_bits(&data, 4, 8), 0b1111_0000);
    assert_eq!(extract_bits(&data, 8, 8), 0);
    assert_eq!(extract_bits(&data, 0, 0), 0);
}

#[test]
fn extract_bits_concatenates() {
    let data = [0xA5u8, 0x3C, 0x0F];
    let whole = extract_bits(&data, 3, 13);
    let hi = extract_bits(&data, 3, 5);
    let lo = extract_bits(&data, 8, 8);
    assert_eq!(whole, (hi << 8) | lo);
}

#[test]
fn extract_bits_keeps_the_low_32_bits_of_wide_fields() {
    let data = [0xFFu8; 8];
    assert_eq!(extract_bits(&data, 0, 40), 0xFFFF_FFFF);
}

#[test]
fn sign_magnitude_uses_the_top_bit_as_sign() {
    assert_eq!(sign_magnitude_16(0x0005), 5);
    assert_eq!(sign_magnitude_16(0x8005), -5);
    assert_eq!(sign_magnitude_16(0x8000), 0);
    assert_eq!(sign_magnitude_16(0x7FFF), 32767);
    assert_eq!(sign_magnitude_16(0xFFFF), -32767);
}

#[test]
fn read_signed_bytes_is_sign_magnitude() {
    assert_eq!(read_signed_bytes(&[0x81, 0x00], 0, 2), -256);
    assert_eq!(read_signed_bytes(&[0x01, 0x00], 0, 2), 256);
    assert_eq!(read_signed_bytes(&[0x00, 0x80], 1, 1), 0);
    assert_eq!(read_signed_bytes(&[0x05], 0, 2), 0);
}

#[test]
fn bitmap_inserts_missing_values() {
    let data = [1.0f64, 2.0, 3.0];
    // Bits 1,0,1,1,0 and then past the end of the data.
    let out = apply_bitmap(&data, &[0b1011_0110], 6, f64::NAN);
    assert_eq!(out.len(), 6);
    assert_eq!(out[0], 1.0);
    assert!(out[1].is_nan());
    assert_eq!(out[2], 2.0);
    assert_eq!(out[3], 3.0);
    assert!(out[4].is_nan());
    assert!(out[5].is_nan());
    let full = apply_bitmap(&[7u8, 8, 9], &[0xFF], 3, 0);
    assert_eq!(full, vec![7, 8, 9]);
    let past_bitmap = apply_bitmap(&[7u8], &[], 2, 0);
    assert_eq!(past_bitmap, vec![0, 0]);
}

#[test]
fn message_parses_into_its_sections() {
    let bytes = sample_message([10, 20, 30, 40]);
    let msg = Grib2Message::try_parse(&bytes).unwrap().unwrap();
    assert_eq!(msg.indicator.total_length, bytes.len() as u64);
    assert_eq!(msg.identification.year, 2024);
    assert_eq!(msg.grid_definition.num_data_points, 4);
    assert_eq!(msg.parameter_id(), (0, 0, 0));
    assert_eq!(msg.product_definition.first_surface_type, 103);
    assert_eq!(msg.data_representation.template_number, 0);
    assert!(msg.bitmap.bitmap.is_none());
    assert_eq!(msg.data.raw_data, vec![10, 20, 30, 40]);
    let grid = msg.lambert_grid().unwrap();
    assert_eq!((grid.nx, grid.ny), (2, 2));
    assert_eq!(grid.la1, 21138123);
    assert_eq!(grid.latin1, 38500000);
    assert_eq!(grid.scan_mode, 64);
}

#[test]
fn message_codes_unpack() {
    let bytes = sample_message([10, 20, 30, 40]);
    let msg = Grib2Message::parse(&bytes).unwrap();
    let field = try_unpack_data_codes(
        msg.data_representation.template_number,
        &msg.data_representation.template_data,
        &msg.data.raw_data,
        msg.grid_definition.num_data_points as usize,
    )
    .unwrap()
    .unwrap();
    assert_eq!(f32::from_bits(field.reference_value_bits), 250.0);
    assert_eq!(field.binary_scale_factor, 0);
    assert_eq!(field.decimal_scale_factor, -1);
    match field.codes {
        UnpackedCodes::Scaled { codes } => assert_eq!(codes, vec![10, 20, 30, 40]),
        UnpackedCodes::Reference { .. } => panic!("8-bit values carry codes"),
    }
}

#[test]
fn unsupported_template_is_an_error() {
    let r = try_unpack_data_codes(41, &[], &[], 4);
    assert!(matches!(r, Some(Err(Grib2Error::UnsupportedDataTemplate { template: 41 }))));
}

#[test]
fn several_messages_are_found_in_order() {
    let mut buf = vec![0u8, 1, 2];
    buf.extend(sample_message([1, 2, 3, 4]));
    buf.extend_from_slice(b"junk");
    buf.extend(sample_message([5, 6, 7, 8]));
    let msgs = parse_messages(&buf).unwrap();
    assert_eq!(msgs.len(), 2);
    assert_eq!(msgs[0].data.raw_data, vec![1, 2, 3, 4]);
    assert_eq!(msgs[1].data.raw_data, vec![5, 6, 7, 8]);
    assert_eq!(try_parse_messages(&[0u8; 40]).unwrap().unwrap().len(), 0);
}

#[test]
fn bad_indicators_are_reported() {
    let mut bytes = sample_message([0, 0, 0, 0]);
    bytes[7] = 1;
    assert_eq!(
        Grib2Message::try_parse(&bytes).unwrap().unwrap_err(),
        Grib2Error::UnsupportedEdition { edition: 1 }
    );
    bytes[0] = b'X';
    assert_eq!(
        IndicatorSection::parse(&bytes).unwrap_err(),
        Grib2Error::NotGrib { magic: u32::from_be_bytes(*b"XRIB") }
    );
    assert_eq!(Grib2Message::try_parse(&bytes[..10]).unwrap().unwrap_err(), Grib2Error::MessageTooShort);
    assert_eq!(IndicatorSection::parse(&bytes[..10]).unwrap_err(), Grib2Error::IndicatorTooShort);
}

#[test]
fn wrong_section_number_is_reported() {
    let mut bytes = sample_message([0, 0, 0, 0]);
    bytes[16 + 4] = 9;
    assert_eq!(
        Grib2Message::try_parse(&bytes).unwrap().unwrap_err(),
        Grib2Error::WrongSection { expected: 1, found: 9 }
    );
}

#[test]
fn parameter_and_surface_tables() {
    let p = lookup_parameter(0, 0, 0).unwrap();
    assert_eq!(p.abbrev, "TMP");
    assert!(lookup_parameter(1, 0, 0).is_none());
    assert_eq!(surface_type_name(1), "Ground or Water Surface");
}

/// Template 5.3 parameters: one group of 8-bit values, group references of
/// 8 bits, one-byte spatial differencing descriptors.
fn complex_template(order: u8, last_group_length: u32) -> Vec<u8> {
    let mut td = Vec::new();
    td.extend_from_slice(&0.0f32.to_bits().to_be_bytes());
    td.extend_from_slice(&0u16.to_be_bytes());
    td.extend_from_slice(&0u16.to_be_bytes());
    td.extend_from_slice(&[8, 0, 1, 0]);
    td.extend_from_slice(&0u32.to_be_bytes());
    td.extend_from_slice(&0u32.to_be_bytes());
    td.extend_from_slice(&1u32.to_be_bytes());
    td.extend_from_slice(&[8, 0]);
    td.extend_from_slice(&0u32.to_be_bytes());
    td.push(0);
    td.extend_from_slice(&last_group_length.to_be_bytes());
    td.push(0);
    td.extend_from_slice(&[order, 1]);
    td
}

#[test]
fn complex_packing_undoes_first_order_differences() {
    let td = complex_template(1, 4);
    // First value 100, minimum -3, group reference 2, values 1 3 0 5.
    let raw = [0x64, 0x83, 0x02, 1, 3, 0, 5];
    let field = try_unpack_data_codes(3, &td, &raw, 4).unwrap().unwrap();
    match field.codes {
        UnpackedCodes::Scaled { codes } => assert_eq!(codes, vec![100, 100, 102, 101]),
        UnpackedCodes::Reference { .. } => panic!("one group carries codes"),
    }
}

#[test]
fn complex_packing_undoes_second_order_differences() {
    let td = complex_template(2, 3);
    // First values 100 and 110, minimum 0, group reference 0, values 1 2 3.
    let raw = [0x64, 0x6E, 0x80, 0x00, 1, 2, 3];
    let field = try_unpack_data_codes(3, &td, &raw, 5).unwrap().unwrap();
    match field.codes {
        UnpackedCodes::Scaled { codes } => assert_eq!(codes, vec![100, 110, 121, 134, 150]),
        UnpackedCodes::Reference { .. } => panic!("one group carries codes"),
    }
}

#[test]
fn complex_packing_without_differencing_adds_group_references() {
    let mut td = complex_template(0, 3);
    td.truncate(td.len() - 2);
    // Group reference 10, values 1 2 3.
    let raw = [10, 1, 2, 3];
    let field = try_unpack_data_codes(2, &td, &raw, 3).unwrap().unwrap();
    match field.codes {
        UnpackedCodes::Scaled { codes } => assert_eq!(codes, vec![11, 12, 13]),
        UnpackedCodes::Reference { .. } => panic!("one group carries codes"),
    }
}

#[test]
fn jpeg2000_scale_factors_are_sign_magnitude() {
    let data = [0x00, 0x00, 0x00, 0x00, 0x80, 0x01, 0x80, 0x02, 0x08, 0x00, 0x00, 0x00];
    let p = Jpeg2000Packing::parse(&data).unwrap();
    assert_eq!(f32::from_bits(p.reference_value_bits), 0.0);
    assert_eq!(p.binary_scale_factor, -1);
    assert_eq!(p.decimal_scale_factor, -2);
    assert_eq!(p.num_bits, 8);
    assert_eq!(Jpeg2000Packing::parse(&data[..11]).unwrap_err(), Grib2Error::UnexpectedEof);
}

#[test]
fn junk_before_a_message_is_skipped() {
    let msg = sample_message([9, 8, 7, 6]);
    let plain = parse_messages(&msg).unwrap();
    let mut buf = b"GRI junk without the magic".to_vec();
    buf.extend(msg.iter());
    let with_junk = parse_messages(&buf).unwrap();
    assert_eq!(plain.len(), 1);
    assert_eq!(with_junk.len(), 1);
    assert_eq!(plain[0].data.raw_data, with_junk[0].data.raw_data);
    assert_eq!(plain[0].parameter_id(), with_junk[0].parameter_id());
    assert_eq!(plain[0].parameter_id(), (msg[6], msg[16 + 21 + 81 + 9], msg[16 + 21 + 81 + 10]));
}
