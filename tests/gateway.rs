use startgg::gateway::{
    build_request, build_request_with_timeout, classify_failure, entrant_info_query,
    events_from_tournament_query, join_messages, resolve_outcome, server_messages, starts_with,
    tournament_info_query, DEFAULT_TIMEOUT_SECS, ENDPOINT, NO_DATA_MESSAGE, TOURNAMENT_INFO_QUERY,
    ENTRANT_INFO_QUERY,
};
use startgg::{GGData, GGError, GGResponse, GGTournament, QueryOutcome, Vars, GGID};

fn genesis_data() -> GGData {
    let mut t = GGTournament::default();
    t.id = Some(GGID::Int(12345));
    t.name = Some("Genesis 9".to_string());
    t.slug = Some("genesis-9".to_string());
    let mut d = GGData::default();
    d.tournament = Some(Box::new(t));
    d
}

#[test]
fn tournament_data_comes_through() {
    let q = tournament_info_query("genesis-9");
    assert_eq!(q.vars.slug, "genesis-9");
    assert_eq!(q.vars.page, 1);
    assert_eq!(q.vars.per_page, 100);
    assert!(q.vars.id == GGID::Int(0));
    assert_eq!(q.document, TOURNAMENT_INFO_QUERY);
    let r = resolve_outcome(QueryOutcome::Answered(Some(GGResponse::Data(genesis_data()))));
    let data = r.unwrap();
    let t = data.tournament();
    assert_eq!(t.name(), "Genesis 9");
    assert!(t.id() == GGID::Int(12345));
    assert_eq!(t.slug(), "genesis-9");
}

#[test]
fn error_list_becomes_remote_error() {
    let message = "Look at json field for more details";
    let rendered = "\nGQLClient Error: Look at json field for more details\nMessage: invalid slug\n";
    let e = classify_failure(message, rendered, true);
    assert!(e == GGError::Remote("invalid slug".to_string()));
    let r = resolve_outcome(QueryOutcome::Failed {
        message: message.to_string(),
        rendered: rendered.to_string(),
        has_error_list: true,
    });
    assert!(r.unwrap_err() == GGError::Remote("invalid slug".to_string()));
}

#[test]
fn several_server_messages_are_joined() {
    let rendered = "\nGQLClient Error: x\nMessage: first\nMessage: second\n";
    let msgs = server_messages(rendered);
    assert_eq!(msgs, vec!["first".to_string(), "second".to_string()]);
    assert_eq!(join_messages(&msgs), "first; second");
    assert!(classify_failure("x", rendered, true) == GGError::Remote("first; second".to_string()));
}

#[test]
fn non_success_status_is_decode_error() {
    let e = classify_failure("The response is [500]", "\nGQLClient Error: The response is [500]\n", true);
    assert!(e == GGError::Decode("The response is [500]".to_string()));
}

#[test]
fn unparsable_body_is_decode_error() {
    let m = "Failed to parse response: invalid type: sequence. The response body is: []";
    assert!(classify_failure(m, m, false) == GGError::Decode(m.to_string()));
}

#[test]
fn other_failures_are_transport_errors() {
    let m = "error sending request for url (https://api.start.gg/gql/alpha)";
    assert!(classify_failure(m, m, false) == GGError::Transport(m.to_string()));
}

#[test]
fn null_data_is_decode_error() {
    let r = resolve_outcome(QueryOutcome::Answered(None));
    assert!(r.unwrap_err() == GGError::Decode(NO_DATA_MESSAGE.to_string()));
}

#[test]
fn error_envelope_becomes_remote_error() {
    let r = GGResponse::Error("not found".to_string()).into_data();
    assert!(r.unwrap_err() == GGError::Remote("not found".to_string()));
    let r = resolve_outcome(QueryOutcome::Answered(Some(GGResponse::Error("not found".to_string()))));
    assert!(r.unwrap_err() == GGError::Remote("not found".to_string()));
}

#[test]
fn data_envelope_unwraps() {
    let d = GGResponse::Data(genesis_data()).into_data().unwrap();
    assert_eq!(d.tournament().name(), "Genesis 9");
}

#[test]
fn missing_tournament_is_reported() {
    let d = GGData::default();
    assert!(d.require_tournament().unwrap_err() == GGError::MissingField("tournament".to_string()));
    assert_eq!(d.tournament().name(), "");
    assert_eq!(genesis_data().require_tournament().unwrap().name(), "Genesis 9");
}

#[test]
fn request_carries_bearer_token_and_timeout() {
    let vars = Vars { id: GGID::Int(3), slug: String::new(), page: 1, per_page: 100 };
    let r = build_request("SECRET-REDACTED", "query { x }", vars);
    assert_eq!(r.authorization, "Bearer SECRET-REDACTED");
    assert_eq!(r.endpoint, ENDPOINT);
    assert_eq!(r.endpoint, "https://api.start.gg/gql/alpha");
    assert_eq!(r.timeout_secs, DEFAULT_TIMEOUT_SECS);
    assert_eq!(r.timeout_secs, 60);
    assert_eq!(r.query, "query { x }");
    assert!(r.variables.id == GGID::Int(3));
    let vars = Vars { id: GGID::Int(3), slug: String::new(), page: 1, per_page: 100 };
    assert_eq!(build_request_with_timeout("t", "q", vars, 5).timeout_secs, 5);
}

#[test]
fn id_queries_send_empty_slug() {
    let q = events_from_tournament_query(GGID::String("abc".to_string()));
    assert!(q.vars.id == GGID::String("abc".to_string()));
    assert_eq!(q.vars.slug, "");
    assert_eq!((q.vars.page, q.vars.per_page), (1, 100));
    assert_eq!(entrant_info_query(GGID::Int(9)).document, ENTRANT_INFO_QUERY);
}

#[test]
fn prefix_test() {
    assert!(starts_with("Message: x", "Message: "));
    assert!(!starts_with("Messag", "Message: "));
    assert!(starts_with("abc", ""));
}
