use qr_contact::validator::white_space;
use qr_contact::{
    encode, image_outcome, init, name_valid, phone_valid, phone_verdict, render_image, update,
    validate, vcard, EncodeError, Model, Msg, Verdict,
};

fn form(name: &str, telephone: &str) -> Model {
    let mut m = init(String::from("2024-05-01T10:00:00+01:00"));
    update(Msg::NameChanged(String::from(name)), &mut m);
    update(Msg::TelephoneChanged(String::from(telephone)), &mut m);
    m
}

fn expected_svg(m: &Model) -> String {
    let text = vcard(&m.name, &m.telephone, &m.date);
    qrcodegen::QrCode::encode_text(&text, qrcodegen::QrCodeEcc::Medium)
        .unwrap()
        .to_svg_string(4)
}

#[test]
fn short_name_gives_no_image() {
    let m = form("Jo", "020 7946 0958");
    let v = validate(&m);
    assert!(!v.name_valid);
    assert!(v.phone_valid);
    assert_eq!(render_image(&m), Ok(None));
}

#[test]
fn bad_telephone_gives_no_image() {
    let m = form("Jo Smith", "abc");
    let v = validate(&m);
    assert!(v.name_valid);
    assert!(!v.phone_valid);
    assert_eq!(render_image(&m), Ok(None));
}

#[test]
fn valid_form_gives_image_of_its_card() {
    let m = form("Jo Smith", "020 7946 0958");
    assert_eq!(validate(&m), Verdict { name_valid: true, phone_valid: true });
    let text = vcard(&m.name, &m.telephone, &m.date);
    assert!(text.contains("\nFN;CHARSET=UTF-8:Jo Smith\n"));
    assert!(text.contains("\nTEL;TYPE=HOME,VOICE:020 7946 0958\n"));
    let img = render_image(&m).unwrap().unwrap();
    assert!(img.starts_with("<?xml"));
    assert_eq!(img, expected_svg(&m));
}

#[test]
fn padded_name_is_valid() {
    assert!(name_valid("  Jo Smith  "));
}

#[test]
fn invalid_telephone_edit_removes_image() {
    let mut m = form("Jo Smith", "020 7946 0958");
    assert!(matches!(render_image(&m), Ok(Some(_))));
    update(Msg::TelephoneChanged(String::from("020 79")), &mut m);
    assert_eq!(render_image(&m), Ok(None));
    update(Msg::TelephoneChanged(String::from("020 7946 0958")), &mut m);
    assert!(matches!(render_image(&m), Ok(Some(_))));
    update(Msg::NameChanged(String::from("Jo")), &mut m);
    assert_eq!(render_image(&m), Ok(None));
}

#[test]
fn names_of_five_or_fewer_characters_fail() {
    for s in ["", "a b", "     ", "Jo Sm", "é é é"] {
        assert!(!name_valid(s), "{:?}", s);
    }
}

#[test]
fn length_counts_characters_not_bytes() {
    // five characters, ten bytes
    assert!(!name_valid("é é é"));
    assert!(name_valid("é é éé"));
}

#[test]
fn long_names_need_an_interior_space() {
    assert!(!name_valid("JoSmith"));
    assert!(!name_valid("   JoSmith   "));
    assert!(!name_valid("\tJoSmith "));
    assert!(!name_valid("Jo\tSmith"));
    assert!(name_valid("Jo Smith"));
    assert!(name_valid("Jo  Smith"));
    assert!(name_valid("\u{3000}Jo Smith\u{3000}"));
    assert!(name_valid("A B C D E"));
}

#[test]
fn white_space_set() {
    for c in ['\t', '\n', '\r', ' ', '\u{85}', '\u{a0}', '\u{2003}', '\u{3000}'] {
        assert!(white_space(c));
        assert_eq!(white_space(c), c.is_whitespace());
    }
    for c in ['a', '0', '_', '\u{200b}'] {
        assert!(!white_space(c));
        assert_eq!(white_space(c), c.is_whitespace());
    }
}

#[test]
fn telephone_rule() {
    assert!(phone_valid("020 7946 0958"));
    assert!(phone_valid("020 7946 0958"));
    assert!(!phone_valid(""));
    assert!(!phone_valid("abc"));
    assert!(!phone_valid("020 79"));
}

#[test]
fn telephone_verdict_from_parse() {
    assert!(!phone_verdict(None));
    assert!(!phone_verdict(Some(false)));
    assert!(phone_verdict(Some(true)));
}

#[test]
fn card_text_is_exact() {
    let text = vcard("Jo Smith", "020 7946 0958", "2024-05-01");
    assert_eq!(
        text,
        "BEGIN:VCARD\nVERSION:3.0\nFN;CHARSET=UTF-8:Jo Smith\nTEL;TYPE=HOME,VOICE:020 7946 0958\nREV:2024-05-01\nEND:VCARD"
    );
    assert_eq!(text, vcard("Jo Smith", "020 7946 0958", "2024-05-01"));
}

#[test]
fn card_text_of_empty_fields() {
    assert_eq!(
        vcard("", "", ""),
        "BEGIN:VCARD\nVERSION:3.0\nFN;CHARSET=UTF-8:\nTEL;TYPE=HOME,VOICE:\nREV:\nEND:VCARD"
    );
}

#[test]
fn init_and_update_touch_one_field() {
    let mut m = init(String::from("stamp"));
    assert_eq!(m.name, "");
    assert_eq!(m.telephone, "");
    assert_eq!(m.date, "stamp");
    update(Msg::NameChanged(String::from("  x ")), &mut m);
    assert_eq!(m.name, "  x ");
    assert_eq!(m.telephone, "");
    assert_eq!(m.date, "stamp");
    update(Msg::TelephoneChanged(String::from("123")), &mut m);
    assert_eq!(m.name, "  x ");
    assert_eq!(m.telephone, "123");
    assert_eq!(m.date, "stamp");
}

#[test]
fn encode_follows_the_given_verdict() {
    let m = form("Jo", "abc");
    let shut = Verdict { name_valid: true, phone_valid: false };
    assert_eq!(encode(&m, shut), Ok(None));
    let open = Verdict { name_valid: true, phone_valid: true };
    assert_eq!(encode(&m, open), Ok(Some(expected_svg(&m))));
}

#[test]
fn too_long_record_is_a_capacity_error() {
    let long = "x".repeat(3000);
    let m = form(&format!("Jo {}", long), "020 7946 0958");
    assert!(validate(&m).name_valid);
    assert_eq!(render_image(&m), Err(EncodeError::CapacityExceeded));
}

#[test]
fn outcome_of_encoding() {
    assert_eq!(image_outcome(None), Err(EncodeError::CapacityExceeded));
    assert_eq!(image_outcome(Some(String::from("<svg/>"))), Ok(String::from("<svg/>")));
}

#[test]
fn rendering_twice_gives_the_same_image() {
    let m = form("Jo Smith", "020 7946 0958");
    assert_eq!(render_image(&m), render_image(&m));
}
