use startgg::structs::GGPhaseGroup;
use startgg::{GGTournament, GGID};

#[test]
fn text_constructor_parses_integers() {
    assert!("123".parse::<GGID>() == Ok(GGID::Int(123)));
    assert!("abc".parse::<GGID>() == Ok(GGID::String("abc".to_string())));
    assert!(GGID::parse("-42") == GGID::Int(-42));
    assert!(GGID::parse("+42") == GGID::Int(42));
    assert!(GGID::parse("007") == GGID::Int(7));
    assert!(GGID::parse("") == GGID::String(String::new()));
    assert!(GGID::parse("-") == GGID::String("-".to_string()));
    assert!(GGID::parse("12a") == GGID::String("12a".to_string()));
    assert!(GGID::parse(" 12") == GGID::String(" 12".to_string()));
    assert!(GGID::parse("9223372036854775807") == GGID::Int(i64::MAX));
    assert!(GGID::parse("-9223372036854775808") == GGID::Int(i64::MIN));
    assert!(GGID::parse("9223372036854775808") == GGID::String("9223372036854775808".to_string()));
}

#[test]
fn text_constructor_never_fails() {
    for s in ["", "x", "1.5", "1e3", "--1", "é"] {
        assert!(s.parse::<GGID>().is_ok());
    }
}

#[test]
fn equality_compares_variant_and_value() {
    assert!(GGID::Int(5) == GGID::Int(5));
    assert!(GGID::Int(5) != GGID::Int(6));
    assert!(GGID::String("5".to_string()) != GGID::Int(5));
    assert!(GGID::String("a".to_string()) == GGID::String("a".to_string()));
}

#[test]
fn quoted_numeral_stays_text() {
    let id = GGID::String("123".to_string());
    assert!(id != GGID::Int(123));
    let mut g = GGPhaseGroup::default();
    g.id = Some(id);
    assert!(g.id() == GGID::String("123".to_string()));
}

#[test]
fn integer_identifier_read_back() {
    let mut t = GGTournament::default();
    t.id = Some(GGID::Int(12345));
    assert!(t.id() == GGID::Int(12345));
    assert!(t.clone().id() == GGID::Int(12345));
}
