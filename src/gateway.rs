//! The query gateway's decisions: the request that one query sends, the fixed
//! query documents with their variables, and how the outcome of the HTTP
//! exchange becomes a result.
//!
//! The exchange itself (one POST of `{query, variables}` to the endpoint,
//! with the authorization header and timeout given here) is performed by the
//! caller; each query is a single independent round trip, with no retry,
//! batching or deduplication.

use vstd::prelude::*;

use crate::enums::{GGID, GGResponse, IdValue};
use crate::error::{ErrorValue, GGError};
use crate::structs::query::GGData;
use crate::text::push_char;

verus! {

/// The GraphQL endpoint of the start.gg API.
pub const ENDPOINT: &'static str = "https://api.start.gg/gql/alpha";

/// The timeout of one query, in seconds, unless the caller gives another.
pub const DEFAULT_TIMEOUT_SECS: u64 = 60;

/// Variables for a query.
///
/// Every field is sent with every query; the server ignores the variables
/// that the query document does not declare.
#[derive(Debug)]
pub struct Vars {
    pub id: GGID,
    pub slug: String,
    pub page: u32,
    pub per_page: u32,
}

impl Clone for Vars {
    fn clone(&self) -> (r: Vars)
        ensures
            r == *self,
    {
        Vars { id: self.id.clone(), slug: self.slug.clone(), page: self.page, per_page: self.per_page }
    }
}

/// What one query sends: where, with which headers and timeout, and what.
#[derive(Debug)]
pub struct GGRequest {
    pub endpoint: String,
    /// The value of the `authorization` header.
    pub authorization: String,
    pub timeout_secs: u64,
    pub query: String,
    pub variables: Vars,
}

/// The value of the `authorization` header for a bearer token.
pub open spec fn bearer(token: Seq<char>) -> Seq<char> {
    "Bearer "@ + token
}

/// Builds the request of one query, with the default timeout.
pub fn build_request(token: &str, query: &str, vars: Vars) -> (r: GGRequest)
    ensures
        r.endpoint@ == ENDPOINT@,
        r.authorization@ == bearer(token@),
        r.timeout_secs == DEFAULT_TIMEOUT_SECS,
        r.query@ == query@,
        r.variables == vars,
{
    build_request_with_timeout(token, query, vars, DEFAULT_TIMEOUT_SECS)
}

/// Builds the request of one query, with the given timeout in seconds.
pub fn build_request_with_timeout(token: &str, query: &str, vars: Vars, timeout_secs: u64) -> (r:
    GGRequest)
    ensures
        r.endpoint@ == ENDPOINT@,
        r.authorization@ == bearer(token@),
        r.timeout_secs == timeout_secs,
        r.query@ == query@,
        r.variables == vars,
{
    let mut authorization = "Bearer ".to_string();
    authorization.append(token);
    GGRequest {
        endpoint: ENDPOINT.to_string(),
        authorization,
        timeout_secs,
        query: query.to_string(),
        variables: vars,
    }
}

/// Query document: basic tournament information: id, name, slug, short slug and start time, with its events, their phases and the phase groups of each phase.
pub const TOURNAMENT_INFO_QUERY: &'static str = r#"
    query GetTournamentInfo($slug: String!) {
        tournament(slug: $slug) {
            id
            name
            slug
            shortSlug
            startAt
            events {
                id
                name
                phases {
                    id
                    name
                    phaseGroups(query: { page: 1, perPage: 100 }) {
                        nodes {
                            id
                            displayIdentifier
                        }
                    }
                }
                slug
            }
        }
    }
    "#;

/// Query document: the events of a tournament.
pub const EVENTS_FROM_TOURNAMENT_QUERY: &'static str = r#"
    query GetEvents($id: ID!) {
        tournament(id: $id) {
            id
            events {
                id
                name
                slug
            }
        }
    }
    "#;

/// Query document: the phases of an event.
pub const PHASES_FROM_EVENT_QUERY: &'static str = r#"
    query GetPhases($id: ID!) {
        event(id: $id) {
            phases {
                id
                name
            }
        }
    }
    "#;

/// Query document: the phase groups of a phase.
pub const PHASE_GROUPS_FROM_PHASE_QUERY: &'static str = r#"
    query GetPhaseGroups($id: ID!) {
        phase(id: $id) {
            phaseGroups(query: { page: 1, perPage: 100 }) {
                nodes {
                    id
                    displayIdentifier
                }
            }
        }
    }
    "#;

/// Query document: the sets of a phase group, with their round text and entrants.
pub const SETS_FROM_PHASE_GROUP_QUERY: &'static str = r#"
    query PhaseGroupSets($id: ID!){
        phaseGroup(id: $id){
            sets(page: 1, perPage: 100, sortType: STANDARD) {
                nodes {
                    id
                    fullRoundText
                    identifier
                    slots {
                        entrant {
                            id
                            name
                        }
                    }
                }
            }
        }
    }
    "#;

/// Query document: one set, with its entrants, their participants and the scores.
pub const ENTRANTS_FROM_SET_QUERY: &'static str = r#"
    query SetEntrants($id: ID!){
        set(id: $id){
            id
            event {
                name
            }
            fullRoundText
            identifier
            slots {
                standing {
                    stats {
                        score {
                            label
                            value
                        }
                    }
                }
                entrant {
                    id
                    name
                    participants {
                        id
                        gamerTag
                        user {
                            discriminator
                            name
                        }
                    }
                }
            }
        }
    }
    "#;

/// Query document: one entrant, with the tag and discriminator of each participant.
pub const ENTRANT_INFO_QUERY: &'static str = r#"
    query EntrantInfo($id: ID!) {
        entrant(id: $id) {
            id
            name
            participants {
                id
                gamerTag
                user {
                    discriminator
                    name
                }
            }
        }
    }
    "#;

/// A query document with the variables to send beside it.
#[derive(Debug)]
pub struct GGQuery {
    pub document: String,
    pub vars: Vars,
}

/// The page and page size that every query sends.
pub open spec fn first_page(vars: Vars) -> bool {
    vars.page == 1 && vars.per_page == 100
}

/// A query keyed by a slug; the identifier sent beside it is the integer zero.
pub fn query_by_slug(document: &str, slug: &str) -> (r: GGQuery)
    ensures
        r.document@ == document@,
        r.vars.slug@ == slug@,
        r.vars.id@ == IdValue::Int(0),
        first_page(r.vars),
{
    GGQuery {
        document: document.to_string(),
        vars: Vars { id: GGID::Int(0), slug: slug.to_string(), page: 1, per_page: 100 },
    }
}

/// A query keyed by an identifier; the slug sent beside it is empty.
pub fn query_by_id(document: &str, id: GGID) -> (r: GGQuery)
    ensures
        r.document@ == document@,
        r.vars.id == id,
        r.vars.slug@.len() == 0,
        first_page(r.vars),
{
    GGQuery {
        document: document.to_string(),
        vars: Vars { id, slug: String::new(), page: 1, per_page: 100 },
    }
}

/// The query for basic tournament information: id, name, slug, short slug and start time, with its events, their phases and the phase groups of each phase.
pub fn tournament_info_query(slug: &str) -> (r: GGQuery)
    ensures
        r.document@ == TOURNAMENT_INFO_QUERY@,
        r.vars.slug@ == slug@,
        r.vars.id@ == IdValue::Int(0),
        first_page(r.vars),
{
    query_by_slug(TOURNAMENT_INFO_QUERY, slug)
}

/// The query for the events of a tournament.
pub fn events_from_tournament_query(id: GGID) -> (r: GGQuery)
    ensures
        r.document@ == EVENTS_FROM_TOURNAMENT_QUERY@,
        r.vars.id == id,
        r.vars.slug@.len() == 0,
        first_page(r.vars),
{
    query_by_id(EVENTS_FROM_TOURNAMENT_QUERY, id)
}

/// The query for the phases of an event.
pub fn phases_from_event_query(id: GGID) -> (r: GGQuery)
    ensures
        r.document@ == PHASES_FROM_EVENT_QUERY@,
        r.vars.id == id,
        r.vars.slug@.len() == 0,
        first_page(r.vars),
{
    query_by_id(PHASES_FROM_EVENT_QUERY, id)
}

/// The query for the phase groups of a phase.
pub fn phase_groups_from_phase_query(id: GGID) -> (r: GGQuery)
    ensures
        r.document@ == PHASE_GROUPS_FROM_PHASE_QUERY@,
        r.vars.id == id,
        r.vars.slug@.len() == 0,
        first_page(r.vars),
{
    query_by_id(PHASE_GROUPS_FROM_PHASE_QUERY, id)
}

/// The query for the sets of a phase group, with their round text and entrants.
pub fn sets_from_phase_group_query(id: GGID) -> (r: GGQuery)
    ensures
        r.document@ == SETS_FROM_PHASE_GROUP_QUERY@,
        r.vars.id == id,
        r.vars.slug@.len() == 0,
        first_page(r.vars),
{
    query_by_id(SETS_FROM_PHASE_GROUP_QUERY, id)
}

/// The query for one set, with its entrants, their participants and the scores.
pub fn entrants_from_set_query(id: GGID) -> (r: GGQuery)
    ensures
        r.document@ == ENTRANTS_FROM_SET_QUERY@,
        r.vars.id == id,
        r.vars.slug@.len() == 0,
        first_page(r.vars),
{
    query_by_id(ENTRANTS_FROM_SET_QUERY, id)
}

/// The query for one entrant, with the tag and discriminator of each participant.
pub fn entrant_info_query(id: GGID) -> (r: GGQuery)
    ensures
        r.document@ == ENTRANT_INFO_QUERY@,
        r.vars.id == id,
        r.vars.slug@.len() == 0,
        first_page(r.vars),
{
    query_by_id(ENTRANT_INFO_QUERY, id)
}

/// Whether `s` begins with `p`.
pub open spec fn has_prefix(s: Seq<char>, p: Seq<char>) -> bool {
    p.len() <= s.len() && s.subrange(0, p.len() as int) == p
}

/// The lines of a text, split at each `\n`; a text without one is one line.
pub open spec fn split_lines(s: Seq<char>) -> Seq<Seq<char>>
    decreases s.len(),
{
    if s.len() == 0 {
        seq![Seq::empty()]
    } else {
        let ls = split_lines(s.drop_last());
        if s.last() == '\n' {
            ls.push(Seq::empty())
        } else {
            ls.update(ls.len() - 1, ls.last().push(s.last()))
        }
    }
}

/// The server's messages among rendered lines: each line that begins with
/// the message marker, without the marker, in order.
pub open spec fn messages_of(lines: Seq<Seq<char>>) -> Seq<Seq<char>>
    decreases lines.len(),
{
    if lines.len() == 0 {
        Seq::empty()
    } else {
        let rest = messages_of(lines.drop_last());
        if has_prefix(lines.last(), MESSAGE_MARKER@) {
            rest.push(lines.last().subrange(MESSAGE_MARKER@.len() as int, lines.last().len() as int))
        } else {
            rest
        }
    }
}

/// Messages joined into one text, separated by `; `.
pub open spec fn joined(msgs: Seq<Seq<char>>) -> Seq<char>
    decreases msgs.len(),
{
    if msgs.len() == 0 {
        Seq::empty()
    } else if msgs.len() == 1 {
        msgs[0]
    } else {
        joined(msgs.drop_last()) + seq![';', ' '] + msgs.last()
    }
}

/// How the GraphQL client begins the message of a response with a
/// non-success status.
pub const STATUS_FAILURE_PREFIX: &'static str = "The response is [";

/// How the GraphQL client begins the message of a body it could not decode.
pub const PARSE_FAILURE_PREFIX: &'static str = "Failed to parse response";

/// How the GraphQL client's rendering of a failure begins each line that
/// carries one of the server's error messages.
pub const MESSAGE_MARKER: &'static str = "Message: ";

/// The error that a failure reported by the GraphQL client stands for.
///
/// `message` is the client's own message, `rendered` its full rendering, and
/// `has_error_list` tells whether the server sent a list of errors. A
/// non-success status, or a body that could not be decoded, is a decode
/// error; a list of errors from the server is a remote error carrying the
/// server's messages; anything else kept the exchange from completing.
///
/// The client keeps the server's messages private and shows them only in its
/// rendering, one `Message: ` line each; so a server message that itself
/// spans several lines is carried only up to its first line break.
pub open spec fn failure_of(message: Seq<char>, rendered: Seq<char>, has_error_list: bool) -> ErrorValue {
    if has_error_list {
        if has_prefix(message, STATUS_FAILURE_PREFIX@) {
            ErrorValue::Decode(message)
        } else {
            ErrorValue::Remote(joined(messages_of(split_lines(rendered))))
        }
    } else if has_prefix(message, PARSE_FAILURE_PREFIX@) {
        ErrorValue::Decode(message)
    } else {
        ErrorValue::Transport(message)
    }
}

/// A response body that could not be decoded (an array or `null` where the
/// data shape was expected, or anything malformed) is a decode error, never
/// data and never a remote error.
pub proof fn lemma_unparsable_body_is_decode_error(message: Seq<char>, rendered: Seq<char>)
    requires
        has_prefix(message, PARSE_FAILURE_PREFIX@),
    ensures
        failure_of(message, rendered, false) == ErrorValue::Decode(message),
{
}

/// Whether `s` begins with `p`.
pub fn starts_with(s: &str, p: &str) -> (r: bool)
    ensures
        r == has_prefix(s@, p@),
{
    let n = s.unicode_len();
    let m = p.unicode_len();
    if m > n {
        return false;
    }
    let mut i: usize = 0;
    while i < m
        invariant
            m <= n,
            n == s@.len(),
            m == p@.len(),
            i <= m,
            s@.subrange(0, i as int) == p@.subrange(0, i as int),
        decreases m - i,
    {
        if s.get_char(i) != p.get_char(i) {
            proof {
                assert(s@.subrange(0, m as int)[i as int] != p@[i as int]);
            }
            return false;
        }
        proof {
            assert(s@.subrange(0, i + 1) =~= s@.subrange(0, i as int).push(s@[i as int]));
            assert(p@.subrange(0, i + 1) =~= p@.subrange(0, i as int).push(p@[i as int]));
        }
        i = i + 1;
    }
    proof {
        assert(p@.subrange(0, m as int) =~= p@);
    }
    true
}

/// The server's messages in the client's rendering of a failure.
pub fn server_messages(rendered: &str) -> (r: Vec<String>)
    ensures
        r@.map_values(|m: String| m@) == messages_of(split_lines(rendered@)),
{
    let n = rendered.unicode_len();
    let mut out: Vec<String> = Vec::new();
    let mut line = String::new();
    let mut i: usize = 0;
    proof {
        assert(rendered@.subrange(0, 0) =~= Seq::<char>::empty());
    }
    while i < n
        invariant
            i <= n,
            n == rendered@.len(),
            split_lines(rendered@.subrange(0, i as int)).len() >= 1,
            line@ == split_lines(rendered@.subrange(0, i as int)).last(),
            out@.map_values(|m: String| m@) == messages_of(
                split_lines(rendered@.subrange(0, i as int)).drop_last(),
            ),
        decreases n - i,
    {
        let c = rendered.get_char(i);
        let ghost before = split_lines(rendered@.subrange(0, i as int));
        proof {
            assert(rendered@.subrange(0, i + 1).drop_last() =~= rendered@.subrange(0, i as int));
        }
        if c == '\n' {
            proof {
                assert(split_lines(rendered@.subrange(0, i + 1)) == before.push(Seq::empty()));
                assert(before.push(Seq::empty()).drop_last() =~= before);
                assert(before.drop_last().push(before.last()) =~= before);
            }
            push_message(&mut out, &line);
            line = String::new();
        } else {
            proof {
                let after = split_lines(rendered@.subrange(0, i + 1));
                assert(after == before.update(before.len() - 1, before.last().push(c)));
                assert(after.drop_last() =~= before.drop_last());
            }
            push_char(&mut line, c);
        }
        i = i + 1;
    }
    proof {
        let all = split_lines(rendered@.subrange(0, n as int));
        assert(rendered@.subrange(0, n as int) =~= rendered@);
        assert(all.drop_last().push(all.last()) =~= all);
    }
    push_message(&mut out, &line);
    out
}

/// Adds the message that one rendered line carries, if any.
fn push_message(out: &mut Vec<String>, line: &String)
    ensures
        final(out)@.map_values(|m: String| m@) == if has_prefix(line@, MESSAGE_MARKER@) {
            old(out)@.map_values(|m: String| m@).push(
                line@.subrange(MESSAGE_MARKER@.len() as int, line@.len() as int),
            )
        } else {
            old(out)@.map_values(|m: String| m@)
        },
{
    if starts_with(line.as_str(), MESSAGE_MARKER) {
        let skip = MESSAGE_MARKER.unicode_len();
        let msg = line.as_str().substring_char(skip, line.as_str().unicode_len()).to_string();
        out.push(msg);
        proof {
            assert(final(out)@.map_values(|m: String| m@) =~= old(out)@.map_values(|m: String| m@).push(msg@));
        }
    }
}

/// The messages joined into one text, separated by `; `.
pub fn join_messages(msgs: &Vec<String>) -> (r: String)
    ensures
        r@ == joined(msgs@.map_values(|m: String| m@)),
{
    let ghost all = msgs@.map_values(|m: String| m@);
    let mut r = String::new();
    let mut i: usize = 0;
    while i < msgs.len()
        invariant
            i <= msgs@.len(),
            all == msgs@.map_values(|m: String| m@),
            r@ == joined(all.subrange(0, i as int)),
        decreases msgs@.len() - i,
    {
        proof {
            assert(all.subrange(0, i + 1).drop_last() =~= all.subrange(0, i as int));
        }
        if i > 0 {
            push_char(&mut r, ';');
            push_char(&mut r, ' ');
        }
        r.append(msgs[i].as_str());
        proof {
            if i == 0 {
                assert(r@ =~= all.subrange(0, 1)[0]);
            } else {
                assert(r@ =~= joined(all.subrange(0, i as int)) + seq![';', ' '] + all[i as int]);
            }
        }
        i = i + 1;
    }
    proof {
        assert(all.subrange(0, msgs@.len() as int) =~= all);
    }
    r
}

/// The error that a failure reported by the GraphQL client stands for (see
/// `failure_of`).
pub fn classify_failure(message: &str, rendered: &str, has_error_list: bool) -> (r: GGError)
    ensures
        r@ == failure_of(message@, rendered@, has_error_list),
{
    if has_error_list {
        if starts_with(message, STATUS_FAILURE_PREFIX) {
            GGError::Decode(message.to_string())
        } else {
            let msgs = server_messages(rendered);
            GGError::Remote(join_messages(&msgs))
        }
    } else if starts_with(message, PARSE_FAILURE_PREFIX) {
        GGError::Decode(message.to_string())
    } else {
        GGError::Transport(message.to_string())
    }
}

/// What became of one HTTP exchange, as the GraphQL client reports it.
#[derive(Debug)]
pub enum QueryOutcome {
    /// The client reported a failure: its message, its full rendering, and
    /// whether the server sent a list of errors.
    Failed { message: String, rendered: String, has_error_list: bool },
    /// The exchange succeeded; the decoded data, or `None` where the
    /// response's data was null or absent.
    Answered(Option<GGResponse>),
}

/// The text of the decode error for a response without data.
pub const NO_DATA_MESSAGE: &'static str = "the response holds no data";

/// Turns the outcome of one exchange into the query's result: the data, or
/// the error that the outcome stands for.
pub fn resolve_outcome(outcome: QueryOutcome) -> (r: Result<GGData, GGError>)
    ensures
        match outcome {
            QueryOutcome::Failed { message, rendered, has_error_list } => r is Err && r->Err_0@
                == failure_of(message@, rendered@, has_error_list),
            QueryOutcome::Answered(None) => r is Err && r->Err_0@ == ErrorValue::Decode(
                NO_DATA_MESSAGE@,
            ),
            QueryOutcome::Answered(Some(GGResponse::Data(d))) => r == Ok::<GGData, GGError>(d),
            QueryOutcome::Answered(Some(GGResponse::Error(m))) => r is Err && r->Err_0@
                == ErrorValue::Remote(m@),
        },
{
    match outcome {
        QueryOutcome::Failed { message, rendered, has_error_list } => Err(
            classify_failure(message.as_str(), rendered.as_str(), has_error_list),
        ),
        QueryOutcome::Answered(None) => Err(GGError::Decode(NO_DATA_MESSAGE.to_string())),
        QueryOutcome::Answered(Some(response)) => response.into_data(),
    }
}

} // verus!
