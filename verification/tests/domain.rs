use admission_webhook::domain::error::Error;
use admission_webhook::domain::{DogeConfig, DogeStatus, MutatingConfig};
use admission_webhook::error::fmt_source;

const ALL: [DogeStatus; 6] = [
    DogeStatus::Normal,
    DogeStatus::Crying,
    DogeStatus::Raged,
    DogeStatus::Buffed,
    DogeStatus::Parrot,
    DogeStatus::Kachitoritai,
];

#[test]
fn status_names() {
    let names: Vec<&str> = ALL.iter().map(|s| s.as_str()).collect();
    assert_eq!(names, vec!["Normal", "Crying", "Raged", "Buffed", "Parrot", "Kachitoritai"]);
}

#[test]
fn status_display_is_its_name() {
    for s in ALL {
        assert_eq!(s.to_string(), s.as_str());
    }
}

#[test]
fn status_default_is_normal() {
    assert_eq!(DogeStatus::default(), DogeStatus::Normal);
}

#[test]
fn status_parse_lower_case() {
    assert_eq!(DogeStatus::parse("normal").unwrap(), DogeStatus::Normal);
    assert_eq!(DogeStatus::parse("kachitoritai").unwrap(), DogeStatus::Kachitoritai);
}

#[test]
fn status_parse_any_case() {
    assert_eq!(DogeStatus::parse("NORMAL").unwrap(), DogeStatus::Normal);
    assert_eq!(DogeStatus::parse("CrYiNg").unwrap(), DogeStatus::Crying);
    assert_eq!(DogeStatus::parse("Raged").unwrap(), DogeStatus::Raged);
    assert_eq!(DogeStatus::parse("BUFFED").unwrap(), DogeStatus::Buffed);
    assert_eq!(DogeStatus::parse("pArRoT").unwrap(), DogeStatus::Parrot);
}

#[test]
fn status_parse_unicode_lowercasing() {
    // KELVIN SIGN lower-cases to an ASCII `k`.
    assert_eq!(DogeStatus::parse("\u{212A}achitoritai").unwrap(), DogeStatus::Kachitoritai);
}

#[test]
fn status_round_trips_through_its_name() {
    for s in ALL {
        assert_eq!(DogeStatus::parse(s.as_str()).unwrap(), s);
        assert_eq!(DogeStatus::parse(&s.to_string().to_uppercase()).unwrap(), s);
    }
}

#[test]
fn status_from_str_trait() {
    let s: DogeStatus = "parrot".parse().unwrap();
    assert_eq!(s, DogeStatus::Parrot);
}

#[test]
fn status_parse_error_keeps_value() {
    match DogeStatus::parse("Sleepy") {
        Err(Error::InvalidDogeStatus { value }) => assert_eq!(value, "Sleepy"),
        Ok(s) => panic!("parsed {:?}", s),
    }
    assert!(DogeStatus::parse("").is_err());
    assert!(DogeStatus::parse("normal ").is_err());
}

#[test]
fn status_parse_error_message() {
    let err = DogeStatus::parse("Sleepy").unwrap_err();
    assert_eq!(
        err.to_string(),
        "Invalid doge status: Sleepy, available values are [Normal, Crying, Raged, Buffed, \
         Parrot, Kachitoritai]"
    );
}

#[test]
fn status_from_lowercased_is_case_sensitive() {
    assert_eq!(DogeStatus::from_lowercased("raged", "RAGED").unwrap(), DogeStatus::Raged);
    match DogeStatus::from_lowercased("Raged", "Raged") {
        Err(Error::InvalidDogeStatus { value }) => assert_eq!(value, "Raged"),
        Ok(s) => panic!("parsed {:?}", s),
    }
    match DogeStatus::from_lowercased("nope", "NOPE") {
        Err(Error::InvalidDogeStatus { value }) => assert_eq!(value, "NOPE"),
        Ok(s) => panic!("parsed {:?}", s),
    }
}

#[test]
fn status_order_follows_declaration() {
    assert!(DogeStatus::Normal < DogeStatus::Crying);
    assert!(DogeStatus::Parrot < DogeStatus::Kachitoritai);
}

#[test]
fn config_clone_keeps_values() {
    let config = MutatingConfig {
        default_doge: DogeConfig {
            default_image: "doge/doge:doge".to_string(),
            default_number: 87,
            default_status: DogeStatus::Buffed,
        },
    };
    let copy = config.clone();
    assert_eq!(copy.default_doge.default_image, "doge/doge:doge");
    assert_eq!(copy.default_doge.default_number, 87);
    assert_eq!(copy.default_doge.default_status, DogeStatus::Buffed);
}

#[test]
fn source_line() {
    assert_eq!(fmt_source("disk full"), "\nCaused by: disk full");
    assert_eq!(fmt_source(""), "\nCaused by: ");
}
