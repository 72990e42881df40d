//! The property codec: percentages, numbers and colours.

use homieflow::convert::{
    cap, color_absolute_to_property_value, percentage_to_property_value,
    property_value_to_color, property_value_to_number, property_value_to_percentage,
};
use homieflow::decimal::Decimal;
use homieflow::ghome::{Color, ColorAbsolute, ColorValue, CommandColor, Hsv};
use homieflow::homie::{Datatype, Property};

fn property(id: &str, name: &str, datatype: Datatype, format: Option<&str>, value: &str) -> Property {
    Property {
        id: id.to_string(),
        name: Some(name.to_string()),
        datatype: Some(datatype),
        settable: true,
        retained: true,
        unit: None,
        format: format.map(|f| f.to_string()),
        value: Some(value.to_string()),
    }
}

#[test]
fn homie_percentage_integer() {
    let property = property("brightness", "Brightness", Datatype::Integer, Some("10:20"), "13");
    assert_eq!(property_value_to_percentage(&property), Some(30));
    assert_eq!(percentage_to_property_value(&property, 70), Some("17".to_string()));
}

#[test]
fn homie_percentage_float() {
    let property = property("brightness", "Brightness", Datatype::Float, Some("1.0:2.0"), "1.3");
    assert_eq!(property_value_to_percentage(&property), Some(30));
    assert_eq!(percentage_to_property_value(&property, 70), Some("1.7".to_string()));
}

#[test]
fn homie_number_integer() {
    let property = property("number", "Number", Datatype::Integer, None, "42");
    assert_eq!(property_value_to_number(&property), Some(Decimal::new(42, 0)));
}

#[test]
fn homie_number_float() {
    let property = property("number", "Number", Datatype::Float, None, "42.2");
    assert_eq!(property_value_to_number(&property), Some(Decimal::new(422, 1)));
}

#[test]
fn homie_color_rgb() {
    let property = property("color", "Colour", Datatype::Color, Some("rgb"), "17,34,51");
    assert_eq!(property_value_to_color(&property), Some(Color::SpectrumRgb(0x112233)));
    assert_eq!(
        color_absolute_to_property_value(
            &property,
            &ColorAbsolute {
                color: CommandColor {
                    name: None,
                    value: ColorValue::Rgb { spectrum_rgb: 0x445566 },
                },
            },
        ),
        Some("68,85,102".to_string())
    );
}

#[test]
fn homie_color_hsv() {
    let property = property("color", "Colour", Datatype::Color, Some("hsv"), "280,50,60");
    let color = property_value_to_color(&property).unwrap();
    assert_eq!(
        color,
        Color::SpectrumHsv { hue: 280, saturation_pct: 50, value_pct: 60 }
    );
    match color {
        Color::SpectrumHsv { hue, saturation_pct, value_pct } => {
            assert_eq!(hue as f64, 280.0);
            assert_eq!(saturation_pct as f64 / 100.0, 0.5);
            assert_eq!(value_pct as f64 / 100.0, 0.6);
        }
        _ => unreachable!(),
    }
    assert_eq!(
        color_absolute_to_property_value(
            &property,
            &ColorAbsolute {
                color: CommandColor {
                    name: None,
                    value: ColorValue::Hsv {
                        spectrum_hsv: Hsv { hue: 290, saturation_pct: 20, value_pct: 30 },
                    },
                },
            },
        ),
        Some("290,20,30".to_string())
    );
}

#[test]
fn percentage_clamps_out_of_range_values() {
    let below = property("brightness", "Brightness", Datatype::Integer, Some("10:20"), "3");
    assert_eq!(property_value_to_percentage(&below), Some(0));
    let above = property("brightness", "Brightness", Datatype::Integer, Some("10:20"), "99");
    assert_eq!(property_value_to_percentage(&above), Some(100));
}

#[test]
fn percentage_round_trip_stays_within_one_unit() {
    for v in 10..=20i64 {
        let property = property(
            "brightness",
            "Brightness",
            Datatype::Integer,
            Some("10:20"),
            &v.to_string(),
        );
        let pct = property_value_to_percentage(&property).unwrap();
        let back: i64 = percentage_to_property_value(&property, pct).unwrap().parse().unwrap();
        assert!(back <= v);
        assert!(v - back <= (20 - 10 + 99) / 100);
    }
}

#[test]
fn percentage_rejects_degenerate_and_malformed_ranges() {
    let degenerate = property("brightness", "Brightness", Datatype::Integer, Some("5:5"), "5");
    assert_eq!(property_value_to_percentage(&degenerate), None);
    let malformed = property("brightness", "Brightness", Datatype::Integer, Some("10-20"), "13");
    assert_eq!(property_value_to_percentage(&malformed), None);
    let missing = property("brightness", "Brightness", Datatype::Integer, None, "13");
    assert_eq!(property_value_to_percentage(&missing), None);
}

#[test]
fn conversions_reject_wrong_datatypes() {
    let text = property("brightness", "Brightness", Datatype::Str, Some("10:20"), "13");
    assert_eq!(property_value_to_percentage(&text), None);
    assert_eq!(property_value_to_number(&text), None);
    assert_eq!(property_value_to_color(&text), None);
    let hsv_for_rgb = property("color", "Colour", Datatype::Color, Some("rgb"), "17,34,51");
    assert_eq!(
        color_absolute_to_property_value(
            &hsv_for_rgb,
            &ColorAbsolute {
                color: CommandColor {
                    name: None,
                    value: ColorValue::Hsv {
                        spectrum_hsv: Hsv { hue: 290, saturation_pct: 20, value_pct: 30 },
                    },
                },
            },
        ),
        None
    );
}

#[test]
fn color_parsing_rejects_malformed_values() {
    let two_fields = property("color", "Colour", Datatype::Color, Some("rgb"), "17,34");
    assert_eq!(property_value_to_color(&two_fields), None);
    let out_of_range = property("color", "Colour", Datatype::Color, Some("rgb"), "17,34,256");
    assert_eq!(property_value_to_color(&out_of_range), None);
    let bad_hue = property("color", "Colour", Datatype::Color, Some("hsv"), "361,50,60");
    assert_eq!(property_value_to_color(&bad_hue), None);
    let unknown_space = property("color", "Colour", Datatype::Color, Some("xyz"), "1,2,3");
    assert_eq!(property_value_to_color(&unknown_space), None);
}

#[test]
fn decimal_parse_accepts_plain_forms_only() {
    assert_eq!(Decimal::parse("1."), Some(Decimal::new(1, 0)));
    assert_eq!(Decimal::parse(".5"), Some(Decimal::new(5, 1)));
    assert_eq!(Decimal::parse("+1.50"), Some(Decimal::new(15, 1)));
    assert_eq!(Decimal::parse("-0.5"), Some(Decimal::new(-5, 1)));
    assert_eq!(Decimal::parse("007"), Some(Decimal::new(7, 0)));
    assert_eq!(Decimal::parse(""), None);
    assert_eq!(Decimal::parse("."), None);
    assert_eq!(Decimal::parse("1.2.3"), None);
    assert_eq!(Decimal::parse("abc"), None);
    assert_eq!(Decimal::parse("123456789012345678"), None);
}

#[test]
fn cap_clamps_to_bounds() {
    assert_eq!(cap(-5, 0, 100), 0);
    assert_eq!(cap(150, 0, 100), 100);
    assert_eq!(cap(42, 0, 100), 42);
}
