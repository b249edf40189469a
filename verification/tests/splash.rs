use deltabeer_tui::splash::{
    centered_origin, converted_lines, select_variant_for_roll, CellColor, Glyph, Splash,
    SplashImage, SplashVariant,
};

fn variants() -> Vec<SplashVariant> {
    vec![
        SplashVariant { name: "default", image: SplashImage::blank(1, 1), weight: 90 },
        SplashVariant { name: "mario", image: SplashImage::blank(1, 1), weight: 10 },
    ]
}

#[test]
fn weighted_roll_selects_expected_variant() {
    let variants = variants();

    assert_eq!(select_variant_for_roll(&variants, 0), 0);
    assert_eq!(select_variant_for_roll(&variants, 89), 0);
    assert_eq!(select_variant_for_roll(&variants, 90), 1);
    assert_eq!(select_variant_for_roll(&variants, 99), 1);
}

#[test]
fn zero_weight_variants_are_skipped() {
    let variants = vec![
        SplashVariant { name: "default", image: SplashImage::blank(1, 1), weight: 100 },
        SplashVariant { name: "disabled", image: SplashImage::blank(1, 1), weight: 0 },
    ];

    assert_eq!(select_variant_for_roll(&variants, 99), 0);
}

#[test]
fn rolls_past_the_total_select_the_last_weighted_variant() {
    let variants = vec![
        SplashVariant { name: "a", image: SplashImage::blank(1, 1), weight: 3 },
        SplashVariant { name: "b", image: SplashImage::blank(1, 1), weight: 2 },
        SplashVariant { name: "c", image: SplashImage::blank(1, 1), weight: 0 },
    ];
    assert_eq!(select_variant_for_roll(&variants, 5), 1);
    assert_eq!(select_variant_for_roll(&variants, 4000), 1);
}

#[test]
fn each_variant_is_selected_by_as_many_rolls_as_its_weight() {
    let variants = variants();
    let mut counts = [0u32; 2];
    for roll in 0..100 {
        counts[select_variant_for_roll(&variants, roll)] += 1;
    }
    assert_eq!(counts, [90, 10]);
}

#[test]
fn splash_refuses_empty_and_weightless_variants() {
    let err = Splash::from_variants(Vec::new()).err().unwrap();
    assert_eq!(err, "embedded splash configuration contains no variants");
    let weightless = vec![SplashVariant { name: "x", image: SplashImage::blank(1, 1), weight: 0 }];
    let err = Splash::from_variants(weightless).err().unwrap();
    assert_eq!(err, "embedded splash configuration has no selectable weight");
    let overflowing = vec![
        SplashVariant { name: "x", image: SplashImage::blank(1, 1), weight: u32::MAX },
        SplashVariant { name: "y", image: SplashImage::blank(1, 1), weight: 1 },
    ];
    let err = Splash::from_variants(overflowing).err().unwrap();
    assert_eq!(err, "embedded splash configuration has no selectable weight");
}

#[test]
fn undecodable_pictures_are_reported() {
    let err = Splash::new(b"not an image", b"not an image").err().unwrap();
    assert_eq!(err, "failed to decode embedded default splash logo");
}

#[test]
fn idle_rolls_a_weighted_variant_and_next_cycles() {
    let variants = vec![
        SplashVariant { name: "only", image: SplashImage::blank(1, 1), weight: 5 },
        SplashVariant { name: "never", image: SplashImage::blank(1, 1), weight: 0 },
    ];
    let mut splash = Splash::from_variants(variants).unwrap();
    assert_eq!(splash.weight_sum(), 5);
    for _ in 0..20 {
        splash.begin_idle();
        assert_eq!(splash.selected_name(), "only");
    }
    splash.next_variant();
    assert_eq!(splash.selected_name(), "never");
    splash.next_variant();
    assert_eq!(splash.selected_name(), "only");
    splash.begin_idle_with_roll(4);
    assert_eq!(splash.selected_name(), "only");
}

fn picture(width: u32, height: u32, pixels: &[[u8; 4]]) -> SplashImage {
    let mut image = SplashImage::blank(width, height);
    image.rgba = pixels.iter().flatten().copied().collect();
    image
}

#[test]
fn two_pixels_make_one_half_block_cell() {
    let red = [200, 10, 20, 255];
    let blue = [1, 2, 250, 255];
    let clear = [9, 9, 9, 0];
    let cases = [
        (clear, clear, Glyph::Blank, None, None),
        (red, clear, Glyph::UpperHalf, Some(CellColor::Rgb(200, 10, 20)), Some(CellColor::Reset)),
        (clear, blue, Glyph::LowerHalf, Some(CellColor::Rgb(1, 2, 250)), Some(CellColor::Reset)),
        (red, blue, Glyph::UpperHalf, Some(CellColor::Rgb(200, 10, 20)), Some(CellColor::Rgb(1, 2, 250))),
    ];
    for (top, bottom, glyph, fg, bg) in cases {
        let image = picture(1, 2, &[top, bottom]);
        let lines = converted_lines(&image, 1, 1);
        assert_eq!(lines.len(), 1);
        assert_eq!(lines[0].len(), 1);
        assert_eq!(lines[0][0].glyph, glyph);
        assert_eq!(lines[0][0].fg, fg);
        assert_eq!(lines[0][0].bg, bg);
    }
}

#[test]
fn half_opaque_pixels_show() {
    let image = picture(1, 2, &[[5, 6, 7, 128], [5, 6, 7, 127]]);
    let lines = converted_lines(&image, 1, 1);
    assert_eq!(lines[0][0].glyph, Glyph::UpperHalf);
}

#[test]
fn pictures_are_scaled_to_the_cells() {
    let image = picture(2, 2, &[[1, 1, 1, 255], [0, 0, 0, 0], [0, 0, 0, 0], [2, 2, 2, 255]]);
    let lines = converted_lines(&image, 2, 1);
    assert_eq!(lines.len(), 1);
    assert_eq!(lines[0][0].glyph, Glyph::UpperHalf);
    assert_eq!(lines[0][0].fg, Some(CellColor::Rgb(1, 1, 1)));
    assert_eq!(lines[0][1].glyph, Glyph::LowerHalf);
    assert_eq!(lines[0][1].fg, Some(CellColor::Rgb(2, 2, 2)));
    let bigger = converted_lines(&image, 4, 2);
    assert_eq!(bigger.len(), 2);
    assert!(bigger.iter().all(|line| line.len() == 4));
}

#[test]
fn rendering_is_kept_for_the_same_size() {
    let image = picture(1, 2, &[[1, 2, 3, 255], [4, 5, 6, 255]]);
    let variants = vec![SplashVariant { name: "one", image, weight: 1 }];
    let mut splash = Splash::from_variants(variants).unwrap();
    let first = splash.render(3, 2);
    assert_eq!(first.len(), 2);
    assert!(first.iter().all(|line| line.len() == 3));
    let second = splash.render(3, 2);
    assert_eq!(first, second);
    assert!(splash.render(0, 5).is_empty());
}

#[test]
fn pictures_are_centred() {
    assert_eq!(centered_origin(0, 80, 40), 20);
    assert_eq!(centered_origin(3, 10, 7), 4);
    assert_eq!(centered_origin(0, 10, 10), 0);
}

fn png(width: u32, height: u32) -> Vec<u8> {
    let mut picture = image::RgbaImage::new(width, height);
    picture.put_pixel(0, 0, image::Rgba([10, 20, 30, 255]));
    let mut bytes = std::io::Cursor::new(Vec::new());
    image::DynamicImage::ImageRgba8(picture)
        .write_to(&mut bytes, image::ImageFormat::Png)
        .unwrap();
    bytes.into_inner()
}

#[test]
fn embedded_pictures_are_decoded() {
    let logo = png(3, 2);
    let mario = png(5, 4);
    let mut splash = Splash::new(&logo, &mario).unwrap();
    assert_eq!(splash.selected_name(), "default");
    assert_eq!(splash.shown_size(), (3, 2));
    assert_eq!(splash.weight_sum(), 100);
    splash.next_variant();
    assert_eq!(splash.selected_name(), "mario");
    assert_eq!(splash.shown_size(), (5, 4));
    let err = Splash::new(&logo, b"broken").err().unwrap();
    assert_eq!(err, "failed to decode embedded Mario splash image");
}

#[test]
fn upscaling_repeats_the_corner_pixels() {
    let image = picture(2, 2, &[[1, 1, 1, 255], [0, 0, 0, 0], [0, 0, 0, 0], [2, 2, 2, 255]]);
    let lines = converted_lines(&image, 4, 2);
    assert_eq!(lines[0][0].glyph, Glyph::UpperHalf);
    assert_eq!(lines[0][0].fg, Some(CellColor::Rgb(1, 1, 1)));
    assert_eq!(lines[0][0].bg, Some(CellColor::Rgb(1, 1, 1)));
    assert_eq!(lines[1][3].glyph, Glyph::UpperHalf);
    assert_eq!(lines[1][3].fg, Some(CellColor::Rgb(2, 2, 2)));
    assert_eq!(lines[1][3].bg, Some(CellColor::Rgb(2, 2, 2)));
}

#[test]
fn idle_rolls_favour_the_heavy_variant() {
    let variants = vec![
        SplashVariant { name: "heavy", image: SplashImage::blank(1, 1), weight: 100_000 },
        SplashVariant { name: "light", image: SplashImage::blank(1, 1), weight: 1 },
        SplashVariant { name: "off", image: SplashImage::blank(1, 1), weight: 0 },
    ];
    let mut splash = Splash::from_variants(variants).unwrap();
    let mut heavy = 0;
    for _ in 0..20 {
        splash.begin_idle();
        assert_ne!(splash.selected_name(), "off");
        if splash.selected_name() == "heavy" {
            heavy += 1;
        }
    }
    assert!(heavy > 0);
}
