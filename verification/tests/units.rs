use carbon::number::{key_of, Number};
use carbon::text::equal_but_for_case;
use carbon::units::{ApiError, DeclaredUnit, Gwp, GwpUnits, Unit};

#[test]
fn gwp_parses_value_and_unit() {
    let g = Gwp::from_str("12.5 KgCO2e").unwrap();
    assert_eq!(f64::from_bits(g.value.bits()), 12.5);
    assert_eq!(g.value.text(), "12.5");
    assert_eq!(g.unit, GwpUnits::KgCO2e);
}

#[test]
fn gwp_unit_spellings_are_aliases() {
    for text in ["12.5 kgCo2e", "12.5 kgCO2e", "12.5 KgCO2e", "12.5 KGCO2E", "12.5 kgco2e"] {
        let g = Gwp::from_str(text).unwrap();
        assert_eq!(f64::from_bits(g.value.bits()), 12.5);
        assert_eq!(g.unit, GwpUnits::KgCO2e);
    }
}

#[test]
fn gwp_without_space_is_an_error() {
    assert_eq!(Gwp::from_str("garbage").unwrap_err(), ApiError::GwpError);
    assert_eq!(Gwp::from_str("").unwrap_err(), ApiError::GwpError);
}

#[test]
fn gwp_without_number_is_an_error() {
    assert_eq!(Gwp::from_str("much KgCO2e").unwrap_err(), ApiError::GwpError);
    assert_eq!(Gwp::from_str(" KgCO2e").unwrap_err(), ApiError::GwpError);
}

#[test]
fn gwp_with_unknown_unit_is_unknown() {
    let g = Gwp::from_str("3 tons").unwrap();
    assert_eq!(g.unit, GwpUnits::Unknown);
    assert_eq!(f64::from_bits(g.value.bits()), 3.0);
    let h = Gwp::from_str("3 kg CO2e").unwrap();
    assert_eq!(h.unit, GwpUnits::Unknown);
}

#[test]
fn gwp_as_str_and_default() {
    let g = Gwp::from_str("12.5 kgCo2e").unwrap();
    assert_eq!(g.as_str(), "12.5 KgCO2e");
    let d = Gwp::default();
    assert_eq!(d.value.bits(), 0);
    assert_eq!(d.unit, GwpUnits::KgCO2e);
    assert_eq!(d.as_str(), "0 KgCO2e");
    assert_eq!(Gwp::unknown().as_str(), "0 Unknown");
}

#[test]
fn gwp_units_from_str_never_fails() {
    assert_eq!(GwpUnits::from_str("KgCO2e"), Ok(GwpUnits::KgCO2e));
    assert_eq!(GwpUnits::from_str("kgCO2e"), Ok(GwpUnits::KgCO2e));
    assert_eq!(GwpUnits::from_str("kgCo2e"), Ok(GwpUnits::KgCO2e));
    assert_eq!(GwpUnits::from_str("KGCO2E"), Ok(GwpUnits::KgCO2e));
    assert_eq!(GwpUnits::from_str("kgco2e"), Ok(GwpUnits::KgCO2e));
    assert_eq!(GwpUnits::from_str("kGcO2E"), Ok(GwpUnits::KgCO2e));
    assert_eq!(GwpUnits::from_str("kgco2"), Ok(GwpUnits::Unknown));
    assert_eq!(GwpUnits::from_str("kgco2ee"), Ok(GwpUnits::Unknown));
    assert_eq!(GwpUnits::from_str("kgco3e"), Ok(GwpUnits::Unknown));
    assert_eq!(GwpUnits::from_str("kg co2e"), Ok(GwpUnits::Unknown));
    assert_eq!(GwpUnits::from_str("\u{212A}gco2e"), Ok(GwpUnits::Unknown));
    assert_eq!(GwpUnits::from_str(""), Ok(GwpUnits::Unknown));
    assert_eq!(GwpUnits::from_str(GwpUnits::Unknown.name()), Ok(GwpUnits::Unknown));
    assert_eq!(GwpUnits::from_str(GwpUnits::KgCO2e.name()), Ok(GwpUnits::KgCO2e));
}

#[test]
fn declared_units_read_back_their_names() {
    for u in [Unit::Kg, Unit::M, Unit::M2, Unit::M3, Unit::Unknown] {
        assert_eq!(Unit::from_str(u.name()), Ok(u));
    }
    assert_eq!(Unit::from_str("kg"), Ok(Unit::Kg));
    assert_eq!(Unit::from_str("m3"), Ok(Unit::M3));
    assert_eq!(Unit::from_str("furlong"), Ok(Unit::Unknown));
    let d = DeclaredUnit::from_str("1.5 kg").unwrap();
    assert_eq!(f64::from_bits(d.value.bits()), 1.5);
    assert_eq!(d.unit, Unit::Kg);
    assert!(DeclaredUnit::from_str("kg").is_none());
    let one = DeclaredUnit::one();
    assert_eq!(f64::from_bits(one.value.bits()), 1.0);
    assert_eq!(one.unit, Unit::Unknown);
}

#[test]
fn error_messages() {
    assert_eq!(ApiError::RequestError.message(), "Request failed");
    assert_eq!(ApiError::CacheError.message(), "Could not read cache");
    assert_eq!(ApiError::Deserialize.message(), "Could not deserialize");
    assert_eq!(
        ApiError::EmptyArray.message(),
        "Request succeded but the material list is empty"
    );
    assert_eq!(ApiError::GwpError.message(), "Wrong GWP format");
}

#[test]
fn numbers_hold_the_bits_of_the_double() {
    assert_eq!(Number::zero().bits(), 0.0f64.to_bits());
    assert_eq!(Number::one().bits(), 1.0f64.to_bits());
    assert_eq!(Number::parse("0").unwrap().bits(), 0);
    assert_eq!(Number::parse("1").unwrap().bits(), 1.0f64.to_bits());
    assert_eq!(Number::parse("-2.25").unwrap().bits(), (-2.25f64).to_bits());
    assert_eq!(Number::parse("1e3").unwrap().bits(), 1000.0f64.to_bits());
    assert!(Number::parse("").is_none());
    assert!(Number::parse("12,5").is_none());
    assert!(Number::parse("abc").is_none());
    let n = Number::parse("7.5").unwrap();
    assert_eq!(n.text(), "7.5");
    assert_eq!(n.duplicate().bits(), n.bits());
    assert!(n.is_non_negative());
    assert!(!Number::parse("-7.5").unwrap().is_non_negative());
}

#[test]
fn total_order_of_numbers_is_that_of_doubles() {
    let texts = ["-inf", "-10", "-0.5", "-0", "0", "0.5", "2", "10", "inf", "NaN"];
    let values: Vec<Number> = texts.iter().map(|t| Number::parse(t).unwrap()).collect();
    for i in 0..values.len() {
        for j in 0..values.len() {
            let a = f64::from_bits(values[i].bits());
            let b = f64::from_bits(values[j].bits());
            let expected = a.total_cmp(&b) != std::cmp::Ordering::Greater;
            assert_eq!(values[i].total_le(&values[j]), expected);
            assert_eq!(key_of(values[i].bits()) <= key_of(values[j].bits()), expected);
        }
    }
}

#[test]
fn texts_equal_but_for_case() {
    assert!(equal_but_for_case("", ""));
    assert!(equal_but_for_case("AbC", "aBc"));
    assert!(equal_but_for_case("a1_Z", "A1_z"));
    assert!(!equal_but_for_case("abc", "abd"));
    assert!(!equal_but_for_case("abc", "ab"));
    assert!(!equal_but_for_case("@", "`"));
    assert!(!equal_but_for_case("[", "{"));
    assert!(!equal_but_for_case("É", "é"));
}
