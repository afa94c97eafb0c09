use chalkak::ocr_region::{clamp_ocr_region, pack_rgb_pixels};
use chalkak::ocr::{
    join_recognized_lines, ocr_language_for_locale, parse_ocr_language, resolve_ocr_language,
    select_model_dir, user_model_dir, OcrError, OcrLanguage, DETECTION_MODEL_FILENAME,
    SYSTEM_MODEL_DIR,
};

#[test]
fn parse_ocr_language_accepts_known_values() {
    assert_eq!(parse_ocr_language("korean"), Some(OcrLanguage::Korean));
    assert_eq!(parse_ocr_language("ko"), Some(OcrLanguage::Korean));
    assert_eq!(parse_ocr_language("en"), Some(OcrLanguage::English));
    assert_eq!(parse_ocr_language("English"), Some(OcrLanguage::English));
    assert_eq!(parse_ocr_language("chinese"), Some(OcrLanguage::Chinese));
    assert_eq!(parse_ocr_language("zh"), Some(OcrLanguage::Chinese));
    assert_eq!(parse_ocr_language("KOREAN"), Some(OcrLanguage::Korean));
}

#[test]
fn parse_ocr_language_returns_none_for_unknown() {
    assert_eq!(parse_ocr_language("klingon"), None);
    assert_eq!(parse_ocr_language(""), None);
}

#[test]
fn detect_system_ocr_language_uses_lang_env() {
    assert_eq!(ocr_language_for_locale("ko_KR.UTF-8"), OcrLanguage::Korean);
    assert_eq!(ocr_language_for_locale("en_US.UTF-8"), OcrLanguage::English);
    assert_eq!(ocr_language_for_locale("zh_CN.UTF-8"), OcrLanguage::Chinese);
}

#[test]
fn resolve_ocr_language_prefers_config_over_system() {
    assert_eq!(resolve_ocr_language(Some("korean"), "en_US.UTF-8"), OcrLanguage::Korean);
    assert_eq!(resolve_ocr_language(None, "en_US.UTF-8"), OcrLanguage::English);
}

#[test]
fn locale_codes_map_to_script_models() {
    assert_eq!(ocr_language_for_locale("uk_UA.UTF-8"), OcrLanguage::Cyrillic);
    assert_eq!(ocr_language_for_locale("mr_IN"), OcrLanguage::Devanagari);
    assert_eq!(ocr_language_for_locale("C"), OcrLanguage::English);
    assert_eq!(ocr_language_for_locale(""), OcrLanguage::English);
    assert_eq!(ocr_language_for_locale("th"), OcrLanguage::Thai);
    assert_eq!(resolve_ocr_language(Some("klingon"), "el_GR"), OcrLanguage::Greek);
}

#[test]
fn every_language_round_trips_through_its_config_name() {
    for lang in [
        OcrLanguage::Korean,
        OcrLanguage::English,
        OcrLanguage::Chinese,
        OcrLanguage::Latin,
        OcrLanguage::Cyrillic,
        OcrLanguage::Arabic,
        OcrLanguage::Thai,
        OcrLanguage::Greek,
        OcrLanguage::Devanagari,
        OcrLanguage::Tamil,
        OcrLanguage::Telugu,
    ] {
        assert_eq!(parse_ocr_language(lang.as_str()), Some(lang));
        assert!(lang.rec_model_filename().ends_with(".mnn"));
        assert!(lang.keys_filename().starts_with("ppocr_keys_"));
        assert!(!lang.display_name().is_empty());
    }
    assert_eq!(OcrLanguage::Chinese.rec_model_filename(), "PP-OCRv5_mobile_rec.mnn");
    assert_eq!(OcrLanguage::Korean.keys_filename(), "ppocr_keys_korean.txt");
    assert_eq!(DETECTION_MODEL_FILENAME, "PP-OCRv5_mobile_det.mnn");
}

#[test]
fn recognized_lines_join_top_to_bottom_keeping_ties_in_order() {
    let lines = vec![
        (30, "third".to_string()),
        (10, "first".to_string()),
        (30, "fourth".to_string()),
        (20, "second".to_string()),
    ];
    assert_eq!(join_recognized_lines(&lines), "first\nsecond\nthird\nfourth");
    assert_eq!(join_recognized_lines(&Vec::new()), "");
    assert_eq!(join_recognized_lines(&vec![(-4, "solo".to_string())]), "solo");
}

#[test]
fn pixbuf_region_rejects_zero_size() {
    let result = clamp_ocr_region(0, 0, 0, 10, 10, 10);
    assert!(matches!(result, Err(OcrError::InvalidRegion { .. })));
}

#[test]
fn clamp_ocr_region_cuts_to_image() {
    assert_eq!(clamp_ocr_region(-5, 2, 8, 20, 10, 10).ok(), Some((0, 2, 8, 8)));
    assert_eq!(clamp_ocr_region(4, 4, 100, 100, 10, 10).ok(), Some((4, 4, 6, 6)));
    match clamp_ocr_region(12, 0, 5, 5, 10, 10) {
        Err(OcrError::InvalidRegion { message }) => {
            assert_eq!(message, "region outside image bounds")
        }
        _ => panic!("region off the image should be refused"),
    }
    match clamp_ocr_region(0, 0, 3, 0, 10, 10) {
        Err(OcrError::InvalidRegion { message }) => assert_eq!(message, "zero-size region"),
        _ => panic!("empty region should be refused"),
    }
}

#[test]
fn pack_rgb_pixels_drops_alpha_and_row_padding() {
    // Two rows of two RGBA pixels, each row padded to ten bytes.
    let pixels: Vec<u8> = vec![
        1, 2, 3, 255, 4, 5, 6, 255, 0, 0, //
        7, 8, 9, 255, 10, 11, 12, 255, 0, 0,
    ];
    assert_eq!(
        pack_rgb_pixels(&pixels, 10, 4, 2, 2),
        vec![1, 2, 3, 4, 5, 6, 7, 8, 9, 10, 11, 12]
    );
    let rgb: Vec<u8> = vec![9, 8, 7, 6, 5, 4];
    assert_eq!(pack_rgb_pixels(&rgb, 6, 3, 2, 1), rgb);
    assert!(pack_rgb_pixels(&rgb, 6, 3, 0, 1).is_empty());
}

#[test]
fn user_model_dir_prefers_xdg_data_home_then_home() {
    assert_eq!(
        user_model_dir(Some("/data"), Some("/home/u")).as_deref(),
        Some("/data/chalkak/models")
    );
    assert_eq!(
        user_model_dir(Some("/data/"), None).as_deref(),
        Some("/data/chalkak/models")
    );
    assert_eq!(
        user_model_dir(Some(""), Some("/home/u")).as_deref(),
        Some("/home/u/.local/share/chalkak/models")
    );
    assert_eq!(user_model_dir(None, None), None);
}

#[test]
fn select_model_dir_returns_none_when_no_dirs_exist() {
    assert_eq!(select_model_dir(Some("/data/chalkak/models".to_string()), false, false), None);
    assert_eq!(select_model_dir(None, false, false), None);
}

#[test]
fn select_model_dir_prefers_user_dir_over_system() {
    assert_eq!(
        select_model_dir(Some("/data/chalkak/models".to_string()), true, true).as_deref(),
        Some("/data/chalkak/models")
    );
    assert_eq!(
        select_model_dir(Some("/data/chalkak/models".to_string()), false, true).as_deref(),
        Some(SYSTEM_MODEL_DIR)
    );
    assert_eq!(SYSTEM_MODEL_DIR, "/usr/share/chalkak/models");
}
