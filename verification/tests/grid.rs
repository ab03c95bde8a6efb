use wsprrs_web::models::grid::{find_band, grid_to_latlon, wspr_bands, GridCenter};

fn lat(c: &GridCenter) -> f64 {
    c.lat_48ths as f64 / 48.0
}

fn lon(c: &GridCenter) -> f64 {
    c.lon_48ths as f64 / 48.0
}

#[test]
fn grid_fn20_center() {
    let ll = grid_to_latlon("FN20").expect("FN20 is valid");
    // FN20: lon base = -180 + 5*20 + 2*2 + 1 = -75°, lat base = -90 + 13*10 + 0*1 + 0.5 = 40.5°
    assert!((lon(&ll) - (-75.0)).abs() < 0.001, "lon={}", lon(&ll));
    assert!((lat(&ll) - 40.5).abs() < 0.001, "lat={}", lat(&ll));
}

#[test]
fn grid_fn20eg_six_char() {
    let ll = grid_to_latlon("FN20eg").expect("FN20eg is valid");
    // Should be more precise than the 4-char version
    assert!((lon(&ll) - (-75.0)).abs() < 1.0);
    assert!((lat(&ll) - 40.5).abs() < 1.0);
}

#[test]
fn grid_case_insensitive() {
    let upper = grid_to_latlon("FN20EG").expect("upper");
    let lower = grid_to_latlon("fn20eg").expect("lower");
    assert!((lat(&upper) - lat(&lower)).abs() < 1e-10);
    assert!((lon(&upper) - lon(&lower)).abs() < 1e-10);
}

#[test]
fn grid_empty_returns_none() {
    assert!(grid_to_latlon("").is_none());
    assert!(grid_to_latlon("FN").is_none());
}

#[test]
fn grid_out_of_range_returns_none() {
    // 'S' is out of range for field characters (A-R = 0-17)
    assert!(grid_to_latlon("SN20").is_none());
}

#[test]
fn find_band_20m() {
    let b = find_band(14_095_800).expect("should match 20m");
    assert_eq!(b.name, "20m");
}

#[test]
fn find_band_out_of_tolerance() {
    // 100 MHz is not a WSPR band
    assert!(find_band(100_000_000).is_none());
}

#[test]
fn grid_fn20eg_exact_center() {
    // FN20eg: subsquare e (4) / g (6): lon -76 + 4*5' + 2.5' , lat 40 + 6*2.5' + 1.25'
    let ll = grid_to_latlon("FN20eg").unwrap();
    assert_eq!(ll.lon_48ths, -76 * 48 + 4 * 4 + 2);
    assert_eq!(ll.lat_48ths, 40 * 48 + 2 * 6 + 1);
    assert!((lat(&ll) - 40.271).abs() < 0.01);
    assert!((lon(&ll) - (-75.625)).abs() < 0.01);
}

#[test]
fn grid_corners() {
    let sw = grid_to_latlon("AA00").unwrap();
    assert_eq!((sw.lat_48ths, sw.lon_48ths), (-90 * 48 + 24, -180 * 48 + 48));
    let ne = grid_to_latlon("RR99xx").unwrap();
    assert_eq!((ne.lat_48ths, ne.lon_48ths), (90 * 48 - 1, 180 * 48 - 2));
}

#[test]
fn grid_bad_subsquare_and_digits() {
    assert!(grid_to_latlon("FN20zz").is_none());
    assert!(grid_to_latlon("FNA0").is_none());
    assert!(grid_to_latlon("FN2").is_none());
    // Only 4- and 6-character locators are accepted.
    assert!(grid_to_latlon("FN20e").is_none());
    assert!(grid_to_latlon("FN20eg12").is_none());
    assert!(grid_to_latlon("FN20eg1").is_none());
    // A non-ASCII fifth character makes the upper-cased text 6 bytes long.
    assert!(grid_to_latlon("FN20é").is_none());
}

#[test]
fn grid_shrinking_uppercase_is_none() {
    // U+017F LATIN SMALL LETTER LONG S upper-cases to 'S' (2 bytes -> 1 byte).
    assert!(grid_to_latlon("\u{17f}\u{17f}").is_none());
    // U+0131 dotless i upper-cases to 'I' (2 bytes -> 1 byte).
    assert!(grid_to_latlon("\u{131}\u{131}").is_none());
}

#[test]
fn subsquare_lies_inside_its_square() {
    let square = grid_to_latlon("FN20").unwrap();
    for sub in ["FN20aa", "FN20xx", "FN20ax", "FN20xa", "FN20eg"] {
        let c = grid_to_latlon(sub).unwrap();
        assert!((c.lon_48ths - square.lon_48ths).abs() < 48, "{sub}");
        assert!((c.lat_48ths - square.lat_48ths).abs() < 24, "{sub}");
    }
}

#[test]
fn band_colours_are_distinct() {
    let bands = wspr_bands();
    for i in 0..bands.len() {
        for j in 0..i {
            assert_ne!(bands[i].color, bands[j].color, "bands {i} and {j}");
        }
    }
}

#[test]
fn band_table_names_and_colors() {
    let bands = wspr_bands();
    assert_eq!(bands.len(), 17);
    let names: Vec<&str> = bands.iter().map(|b| b.name.as_str()).collect();
    assert_eq!(
        names,
        vec![
            "2200m", "630m", "160m", "80m", "60m", "40m", "30m", "20m", "17m", "15m", "12m",
            "10m", "6m", "4m", "2m", "70cm", "23cm"
        ]
    );
    let colors: Vec<&str> = bands.iter().map(|b| b.color.as_str()).collect();
    assert_eq!(
        colors,
        vec![
            "#FF8C1A", "#1AFFCF", "#FF1AEC", "#A9FF1A", "#1A66FF", "#FF1A23", "#1AFF53",
            "#961AFF", "#FFD91A", "#1AE2FF", "#FF1A9F", "#5CFF1A", "#1A1AFF", "#FF5D1A",
            "#1AFFA0", "#E31AFF", "#D8FF1A"
        ]
    );
    assert_eq!(bands[7].dial_hz, 14_095_600);
}

#[test]
fn band_colors_match_float_hsl() {
    // The exact colours agree with the floating-point HSL conversion.
    fn hsl_float(h: f64, s: f64, l: f64) -> String {
        let c = (1.0 - (2.0 * l - 1.0_f64).abs()) * s;
        let hs = h / 60.0;
        let x = c * (1.0 - (hs % 2.0 - 1.0).abs());
        let m = l - c / 2.0;
        let (r1, g1, b1) = match hs as u32 {
            0 => (c, x, 0.0),
            1 => (x, c, 0.0),
            2 => (0.0, c, x),
            3 => (0.0, x, c),
            4 => (x, 0.0, c),
            _ => (c, 0.0, x),
        };
        let r = ((r1 + m) * 255.0).round() as u8;
        let g = ((g1 + m) * 255.0).round() as u8;
        let b = ((b1 + m) * 255.0).round() as u8;
        format!("#{r:02X}{g:02X}{b:02X}")
    }
    for (i, band) in wspr_bands().iter().enumerate() {
        let hue = (i as f64 * 137.507_764_050_187_35 + 30.0) % 360.0;
        assert_eq!(band.color, hsl_float(hue, 1.0, 0.55), "band {i}");
    }
}

#[test]
fn find_band_tolerance_edges() {
    assert_eq!(find_band(14_095_600 + 9_999).unwrap().name, "20m");
    assert!(find_band(14_095_600 + 10_000).is_none());
    assert_eq!(find_band(136_000 - 9_999).unwrap().name, "2200m");
    assert!(find_band(0).is_none());
    assert_eq!(find_band(1_296_500_000).unwrap().color, "#D8FF1A");
}
