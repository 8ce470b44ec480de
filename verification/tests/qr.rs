use oat::qr::{
    display_qr_in_terminal, ends_with, generate_qr_code, parse_qr_args, save_qr_as_png, scale_for,
    svg_filename, QrOutput, QrRequest,
};

fn args(parts: &[&str]) -> Vec<String> {
    parts.iter().map(|p| p.to_string()).collect()
}

fn request(text: &str, save: Option<&str>, size: &str) -> Option<QrRequest> {
    Some(QrRequest {
        text: text.to_string(),
        save_file: save.map(|s| s.to_string()),
        size: size.to_string(),
    })
}

#[test]
fn no_arguments_no_request() {
    assert_eq!(parse_qr_args(&args(&[])), None);
}

#[test]
fn plain_arguments_are_the_text() {
    assert_eq!(parse_qr_args(&args(&["hello"])), request("hello", None, "medium"));
    assert_eq!(
        parse_qr_args(&args(&["https://example.org", "and", "more"])),
        request("https://example.org and more", None, "medium")
    );
}

#[test]
fn flags_take_the_argument_behind_them() {
    assert_eq!(
        parse_qr_args(&args(&["hello", "--save", "code.png", "--size", "small"])),
        request("hello", Some("code.png"), "small")
    );
    assert_eq!(
        parse_qr_args(&args(&["--size", "large", "hello", "world"])),
        request("hello world", None, "large")
    );
    assert_eq!(
        parse_qr_args(&args(&["a", "--save", "one", "b", "--save", "two"])),
        request("a b", Some("two"), "medium")
    );
}

#[test]
fn flag_at_the_end_has_no_value() {
    assert_eq!(parse_qr_args(&args(&["hello", "--save"])), request("hello", None, "medium"));
    assert_eq!(parse_qr_args(&args(&["--size"])), request("", None, "medium"));
}

#[test]
fn flag_behind_a_flag_is_a_value_and_hides_its_neighbour() {
    // `--size` is the file to save to; `small` stands behind a flag and is no text
    assert_eq!(
        parse_qr_args(&args(&["--save", "--size", "small", "x"])),
        request("x", Some("--size"), "medium")
    );
}

#[test]
fn scale_by_size() {
    assert_eq!(scale_for("small"), 4);
    assert_eq!(scale_for("medium"), 8);
    assert_eq!(scale_for("large"), 12);
    assert_eq!(scale_for("huge"), 8);
    assert_eq!(scale_for(""), 8);
    assert_eq!(scale_for("Small"), 8);
}

#[test]
fn suffixes() {
    assert!(ends_with("code.png", ".png"));
    assert!(ends_with(".png", ".png"));
    assert!(ends_with("x", ""));
    assert!(ends_with("", ""));
    assert!(!ends_with("png", ".png"));
    assert!(!ends_with("code.png.bak", ".png"));
    assert!(!ends_with("code.PNG", ".png"));
    assert!(ends_with("é.svg", ".svg"));
    for (text, suffix) in [("abc", "bc"), ("abc", "ab"), ("a", "aa"), ("漢字", "字")] {
        assert_eq!(ends_with(text, suffix), text.ends_with(suffix));
    }
}

#[test]
fn saved_codes_are_named_svg() {
    assert_eq!(svg_filename("code.png"), "code.svg");
    assert_eq!(svg_filename("code.svg"), "code.svg");
    assert_eq!(svg_filename("code"), "code.svg");
    assert_eq!(svg_filename("code.jpg"), "code.jpg.svg");
    assert_eq!(svg_filename("a.png.b.png"), "a.svg.b.svg");
    assert_eq!(svg_filename("a.png.txt"), "a.png.txt.svg");
    assert_eq!(svg_filename(""), ".svg");
}

#[test]
fn code_is_saved_as_svg() {
    let code = qrcode::QrCode::with_error_correction_level("hello", qrcode::EcLevel::M).unwrap();
    let saved = save_qr_as_png(&code, "out.png", "small");
    assert_eq!(saved.filename, "out.svg");
    assert!(saved.contents.contains("<svg"));
    let expected = code
        .render()
        .min_dimensions(84, 84)
        .dark_color(qrcode::render::svg::Color("black"))
        .light_color(qrcode::render::svg::Color("white"))
        .build();
    assert_eq!(saved.contents, expected);
    let large = save_qr_as_png(&code, "out", "large");
    assert_eq!(large.filename, "out.svg");
    assert_ne!(large.contents, saved.contents);
}

#[test]
fn code_is_shown_in_the_terminal() {
    let code = qrcode::QrCode::with_error_correction_level("hello", qrcode::EcLevel::M).unwrap();
    let small = display_qr_in_terminal(&code, "small");
    assert!(!small.tip);
    let medium = display_qr_in_terminal(&code, "medium");
    assert!(medium.tip);
    assert_ne!(small.picture, medium.picture);
    assert_eq!(medium.picture, code.render::<char>().quiet_zone(false).module_dimensions(2, 1).build());
    assert_eq!(medium.picture.lines().count(), 21);
    assert!(display_qr_in_terminal(&code, "whatever").tip);
}

#[test]
fn request_is_carried_out() {
    match generate_qr_code("hello", None, "medium") {
        Ok(QrOutput::Shown(shown)) => assert!(shown.tip && !shown.picture.is_empty()),
        other => panic!("unexpected: {:?}", other),
    }
    match generate_qr_code("hello", Some("q.png".to_string()), "medium") {
        Ok(QrOutput::Saved(saved)) => {
            assert_eq!(saved.filename, "q.svg");
            assert!(saved.contents.contains("<svg"));
        }
        other => panic!("unexpected: {:?}", other),
    }
}

#[test]
fn text_that_is_too_long_is_reported() {
    let long = "x".repeat(10_000);
    match generate_qr_code(&long, None, "small") {
        Err(words) => assert_eq!(words, "data too long"),
        other => panic!("unexpected: {:?}", other),
    }
}
