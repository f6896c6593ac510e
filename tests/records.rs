use startgg::structs::{
    GGAddress, GGEvent, GGImage, GGPageInfo, GGPhaseGroup, GGRaceMatchConfig, GGRound,
    GGStationsConnection, GGStations, GGTournamentConnection,
};
use startgg::{GGData, GGTimestamp, GGTournament, GGID};

#[test]
fn unset_fields_give_zero_values() {
    let a = GGAddress::default();
    assert_eq!(a.city(), "");
    assert_eq!(a.country_id(), 0);
    let s = GGStations::default();
    assert!(!s.enabled());
    assert!(s.updated_at() == GGTimestamp { seconds: 0 });
    let t = GGTournament::default();
    assert!(t.id() == GGID::Int(0));
    assert!(t.events().is_empty());
    assert_eq!(t.owner().name(), "");
}

#[test]
fn set_fields_are_returned() {
    let mut a = GGAddress::default();
    a.city = Some("Oakland".to_string());
    a.state_id = Some(5);
    assert_eq!(a.city(), "Oakland");
    assert_eq!(a.state_id(), 5);
    let mut r = GGRound::default();
    r.start_at = Some(1_700_000_000);
    r.best_of = Some(3);
    assert_eq!(r.start_at().seconds, 1_700_000_000);
    assert_eq!(r.best_of(), 3);
    let mut m = GGRaceMatchConfig::default();
    m.verification_methods = Some(vec![1, 2, 3]);
    assert_eq!(m.verification_methods(), vec![1, 2, 3]);
}

#[test]
fn nested_records_and_lists_are_copied() {
    let mut e = GGEvent::default();
    e.name = Some("Melee Singles".to_string());
    let mut img = GGImage::default();
    img.url = Some("https://example.com/x.png".to_string());
    let mut t = GGTournament::default();
    t.events = Some(vec![e.clone(), e]);
    t.images = Some(vec![img]);
    assert_eq!(t.events().len(), 2);
    assert_eq!(t.events()[1].name(), "Melee Singles");
    assert_eq!(t.images()[0].url(), "https://example.com/x.png");
    let mut p = GGPageInfo::default();
    p.total = Some(42);
    let mut c = GGStationsConnection::default();
    c.page_info = Some(Box::new(p));
    assert_eq!(c.page_info().total(), 42);
}

#[test]
fn connections_flatten_to_lists() {
    let mut t = GGTournament::default();
    t.name = Some("A".to_string());
    let mut conn = GGTournamentConnection::default();
    conn.nodes = vec![t];
    let mut d = GGData::default();
    d.tournaments = Some(Box::new(conn));
    assert_eq!(d.tournaments().len(), 1);
    assert_eq!(d.tournaments()[0].name(), "A");
    assert!(GGData::default().tournaments().is_empty());
}

#[test]
fn phase_group_identifier_may_be_text() {
    let mut g = GGPhaseGroup::default();
    g.id = Some(GGID::String("preview_123".to_string()));
    assert!(g.id() == GGID::String("preview_123".to_string()));
}
