use hrrr_render::composite::is_composite;
use hrrr_render::fields::{
    conversion_for, field_groups, field_names, fields_in_group, lookup_field, UnitConversion,
};
use hrrr_render::render::canvas::{draw_number, draw_title, encode_png, flatten_pixels};
use hrrr_render::render::color::{
    background_color, border_color, color_table_for, has_height_contours, text_color, ColorTable,
};
use hrrr_render::render::glyphs::{char_glyph, label_pixels};

#[test]
fn lookup_finds_the_table_entry() {
    let f = lookup_field("temp2m").unwrap();
    assert_eq!(f.idx_name, "TMP");
    assert_eq!(f.level, "2 m above ground");
    assert_eq!(f.value_range_hundredths, (-4000, 12000));
    assert!(f.kelvin_to_fahrenheit);
    assert_eq!(f.group, "Surface");
    let r = lookup_field("ref").unwrap();
    assert_eq!((r.discipline, r.category, r.number), (0, 16, 196));
    assert!(lookup_field("nope").is_none());
    assert!(lookup_field("").is_none());
}

#[test]
fn every_listed_name_is_found() {
    let names = field_names();
    assert!(!names.is_empty());
    for n in &names {
        assert_eq!(lookup_field(n).unwrap().name, *n);
    }
}

#[test]
fn groups_are_listed_once_in_first_appearance_order() {
    let groups = field_groups();
    assert_eq!(groups[0], "Surface");
    assert_eq!(groups[1], "Radar");
    for (i, g) in groups.iter().enumerate() {
        assert!(!groups[..i].contains(g));
        assert!(!fields_in_group(g).is_empty());
    }
    let mut total = 0;
    for g in &groups {
        let members = fields_in_group(g);
        assert!(members.iter().all(|f| f.group == *g));
        total += members.len();
    }
    assert_eq!(total, field_names().len());
    assert!(fields_in_group("No Such Group").is_empty());
}

#[test]
fn unit_conversions_by_name() {
    assert_eq!(conversion_for("temp2m"), UnitConversion::KelvinToFahrenheit);
    assert_eq!(conversion_for("t850"), UnitConversion::KelvinToCelsius);
    assert_eq!(conversion_for("wind250"), UnitConversion::AbsoluteMetresPerSecondToKnots);
    assert_eq!(conversion_for("vis"), UnitConversion::MetresToMiles);
    assert_eq!(conversion_for("h500"), UnitConversion::GeopotentialMetresToDecametres);
    assert_eq!(conversion_for("cape"), UnitConversion::Unchanged);
}

#[test]
fn composites_are_named() {
    for n in ["stp", "scp", "ship", "shr01", "shr06", "ebs"] {
        assert!(is_composite(n));
    }
    assert!(!is_composite("temp2m"));
    assert!(!is_composite("STP"));
}

#[test]
fn colour_constants_and_tables() {
    assert_eq!(background_color(), [20, 20, 30, 255]);
    assert_eq!(border_color(), [80, 80, 80, 255]);
    assert_eq!(text_color(), [220, 220, 220, 255]);
    assert_eq!(color_table_for("ref"), ColorTable::Reflectivity);
    assert_eq!(color_table_for("dewp2m"), ColorTable::Dewpoint);
    assert_eq!(color_table_for("unknown"), ColorTable::Temperature);
    assert!(has_height_contours("h500"));
    assert!(!has_height_contours("h700"));
}

#[test]
fn title_band_averages_the_top_rows() {
    let w = 3u32;
    let mut px = vec![[100u8, 200, 50, 7]; (w * 25) as usize];
    let field = lookup_field("temp2m").unwrap();
    draw_title(&mut px, w, &field);
    for i in 0..(20 * w as usize) {
        assert_eq!(px[i], [55, 105, 35, 255]);
    }
    for i in (20 * w as usize)..px.len() {
        assert_eq!(px[i], [100, 200, 50, 7]);
    }
    // A buffer shorter than the band is covered in whole rows only.
    let mut small = vec![[0u8, 0, 0, 0]; 7];
    draw_title(&mut small, 3, &field);
    assert_eq!(small[5], [5, 5, 10, 255]);
    assert_eq!(small[6], [0, 0, 0, 0]);
}

#[test]
fn number_mark_is_a_clipped_block() {
    let (w, h) = (6u32, 4u32);
    let mut px = vec![[0u8; 4]; (w * h) as usize];
    draw_number(&mut px, w, h, 3, 0, [9, 9, 9, 9]);
    // Block centred on (5, 0): columns 4..=5 (6 is outside), rows 0..=1.
    let painted: Vec<usize> = (0..px.len()).filter(|&i| px[i] == [9, 9, 9, 9]).collect();
    assert_eq!(painted, vec![4, 5, 10, 11]);
}

#[test]
fn flatten_and_encode() {
    let pixels = vec![[1u8, 2, 3, 4], [5, 6, 7, 8]];
    assert_eq!(flatten_pixels(&pixels), vec![1, 2, 3, 4, 5, 6, 7, 8]);
    let png = encode_png(&pixels, 2, 1).unwrap();
    assert_eq!(&png[..8], &[137, 80, 78, 71, 13, 10, 26, 10]);
    assert!(png.len() > 8 + pixels.len());
    assert!(encode_png(&pixels, 0, 1).is_err());
    assert!(encode_png(&pixels, 3, 1).is_err());
}

#[test]
fn glyphs_ignore_case() {
    assert_eq!(char_glyph('a'), char_glyph('A'));
    assert_eq!(char_glyph('-').unwrap()[3], 0b11111);
    assert!(char_glyph('#').is_none());
    assert!(char_glyph('\u{e9}').is_none());
}

#[test]
fn label_pixels_follow_the_glyphs() {
    // '-' is a single row of five pixels at glyph row 3.
    assert_eq!(label_pixels(20, 20, 1, 1, "-"), vec![(1, 4), (2, 4), (3, 4), (4, 4), (5, 4)]);
    // The second character starts six pixels to the right; unknown
    // characters leave a gap; pixels outside the image are skipped.
    assert_eq!(label_pixels(9, 20, 0, 0, "#-"), vec![(6, 3), (7, 3), (8, 3)]);
    assert_eq!(label_pixels(20, 3, 0, 0, "-"), vec![]);
    let dot = label_pixels(20, 20, -2, 0, ".");
    assert_eq!(dot, vec![(0, 6)]);
}

#[test]
fn readme_fields_are_listed() {
    let names = field_names();
    for n in ["temp2m", "dewp2m", "wind10m", "ref", "cape", "vis", "precip", "h500"] {
        assert!(names.contains(&n), "{}", n);
    }
    let cape = lookup_field("cape").unwrap();
    assert_eq!(cape.idx_name, "CAPE");
    assert_eq!(cape.level, "surface");
    assert_eq!(cape.group, "Severe");
    assert_eq!(color_table_for("cape"), ColorTable::Cape);
}

#[test]
fn field_names_are_distinct_and_not_composites() {
    let names = field_names();
    for (i, n) in names.iter().enumerate() {
        assert!(!names[..i].contains(n));
        assert!(!is_composite(n));
        let f = lookup_field(n).unwrap();
        assert_eq!(f.kelvin_to_fahrenheit, conversion_for(n) == UnitConversion::KelvinToFahrenheit);
    }
}

#[test]
fn glyph_rows_have_five_pixels() {
    for c in ['a', 'Z', '0', '9', ' ', '.', '-', '\''] {
        let g = char_glyph(c).unwrap();
        assert!(g.iter().all(|&row| row < 32));
        assert_eq!(char_glyph(c), char_glyph(c.to_ascii_uppercase()));
    }
}
