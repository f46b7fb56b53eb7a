//! What the local resolver does with a DNS query: answer it as blocked, forward it, or hand
//! it back when it asks nothing.
use vstd::prelude::*;

use crate::blocking::blocklist::{spec_matches, BlocklistBundle};
use crate::policy::rules::{spec_should_block, RuleEntry};
use crate::text::{chars_of, string_from_chars, strip_trailing, strip_trailing_chars, to_lowercase, unicode_lowercase, views};

verus! {

/// Whether the blocklist blocks `domain`.
pub fn should_block(domain: &str, blocklist: &BlocklistBundle) -> (b: bool)
    ensures
        b == spec_matches(views(blocklist.domains@), domain@),
{
    blocklist.matches(domain)
}

/// What to do with a query.
#[derive(Debug, Clone, Copy, PartialEq, Eq, Structural)]
pub enum QueryDecision {
    /// It asks no question: the payload goes back as it came.
    Echo,
    /// Its name is blocked: the answer is "no such domain".
    Block,
    /// Anything else goes to the upstream resolver.
    Forward,
}

/// The name a query asks about, as it is checked: without trailing dots, lowercased.
pub open spec fn question_domain(name: Seq<char>) -> Seq<char> {
    unicode_lowercase(strip_trailing(name, '.'))
}

pub open spec fn spec_decide_query(first_question: Option<Seq<char>>, domains: Seq<Seq<char>>) -> QueryDecision {
    match first_question {
        None => QueryDecision::Echo,
        Some(name) => if spec_matches(domains, question_domain(name)) {
            QueryDecision::Block
        } else {
            QueryDecision::Forward
        },
    }
}

/// The decision for a query whose first question names `first_question` (none when it asks
/// nothing).
pub fn decide_query(first_question: Option<&str>, blocklist: &BlocklistBundle) -> (r: QueryDecision)
    ensures
        r == spec_decide_query(match first_question { Some(n) => Some(n@), None => None }, views(blocklist.domains@)),
{
    match first_question {
        None => QueryDecision::Echo,
        Some(name) => {
            let v = chars_of(name);
            let stripped = strip_trailing_chars(&v, '.');
            let text = string_from_chars(&stripped);
            let domain = to_lowercase(text.as_str());
            if should_block(domain.as_str(), blocklist) {
                QueryDecision::Block
            } else {
                QueryDecision::Forward
            }
        },
    }
}

/// What `hickory_proto::op::Message::from_vec` reads from a payload, reduced to its first
/// question: its name and its record type as a number; `None` when the payload is not a DNS
/// message, `Some(None)` when it asks nothing.
pub uninterp spec fn dns_first_question_typed(payload: Seq<u8>) -> Option<Option<(Seq<char>, u16)>>;

/// Decodes a DNS message with `hickory_proto::op::Message::from_vec` and takes its first
/// question (`queries.first()`): its name with `Name::to_utf8` and its record type with
/// `Query::query_type`, as the number `u16::from(RecordType)` gives. The decoder depends on the
/// bytes alone; its result is named.
#[verifier::external_body]
fn first_question_typed(payload: &[u8]) -> (r: Option<Option<(String, u16)>>)
    ensures
        match dns_first_question_typed(payload@) {
            None => r is None,
            Some(None) => r == Some(None::<(String, u16)>),
            Some(Some((n, t))) => r matches Some(Some((s, u))) && s@ == n && u == t,
        },
{
    hickory_proto::op::Message::from_vec(payload)
        .ok()
        .map(|m| m.queries.first().map(|q| (q.name().to_utf8(), u16::from(q.query_type()))))
}

/// The name a first question asks about, if there is one.
pub open spec fn question_name(q: Option<(Seq<char>, u16)>) -> Option<Seq<char>> {
    match q {
        Some((n, _)) => Some(n),
        None => None,
    }
}

/// What to do with a query payload: `None` when it is not a DNS message (the query fails),
/// otherwise the decision for its first question.
pub fn handle_query_decision(payload: &[u8], blocklist: &BlocklistBundle) -> (r: Option<QueryDecision>)
    ensures
        match dns_first_question_typed(payload@) {
            None => r is None,
            Some(q) => r == Some(spec_decide_query(question_name(q), views(blocklist.domains@))),
        },
{
    match first_question_typed(payload) {
        None => None,
        Some(None) => Some(QueryDecision::Echo),
        Some(Some((name, _))) => Some(decide_query(Some(name.as_str()), blocklist)),
    }
}

/// The response code of the reply to a blocked query: NXDOMAIN, "no such domain" (RFC 1035).
pub const NXDOMAIN: u16 = 3;

/// What `hickory_proto` builds and encodes as the reply to `query` carrying `response_code`,
/// with the recursion-available flag as given: `None` when `query` is not a DNS message or
/// the reply does not encode.
pub uninterp spec fn dns_error_reply(query: Seq<u8>, response_code: u16, recursion_available: bool) -> Option<Seq<u8>>;

/// Decodes `query` with `Message::from_vec`, builds `Message::error_msg` with the query's id,
/// operation code and `response_code`, copies the query's recursion-desired flag and its
/// questions (`Message::add_queries`), sets recursion-available as given, and encodes the
/// reply with `Message::to_vec`. Claimed: the result depends on the arguments alone, so it is
/// named; nothing is said of the bytes themselves.
#[verifier::external_body]
fn error_reply(query: &[u8], response_code: u16, recursion_available: bool) -> (r: Option<Vec<u8>>)
    ensures
        match dns_error_reply(query@, response_code, recursion_available) {
            None => r is None,
            Some(bytes) => r matches Some(v) && v@ == bytes,
        },
{
    let message = hickory_proto::op::Message::from_vec(query).ok()?;
    let mut reply = hickory_proto::op::Message::error_msg(message.metadata.id, message.metadata.op_code, response_code.into());
    reply.metadata.recursion_desired = message.metadata.recursion_desired;
    reply.metadata.recursion_available = recursion_available;
    reply.add_queries(message.queries);
    reply.to_vec().ok()
}

/// The reply to a blocked query: "no such domain", recursion available, answering the query's
/// own questions; `None` when it cannot be built.
pub fn blocked_response(payload: &[u8]) -> (r: Option<Vec<u8>>)
    ensures
        match dns_error_reply(payload@, NXDOMAIN, true) {
            None => r is None,
            Some(bytes) => r matches Some(v) && v@ == bytes,
        },
{
    error_reply(payload, NXDOMAIN, true)
}

/// What the resolver does with a query payload.
#[derive(Debug, Clone, PartialEq, Eq)]
pub enum QueryReply {
    /// Send these bytes back.
    Reply(Vec<u8>),
    /// Send the query to the upstream resolver and its answer back.
    Forward,
    /// The query fails: it is not a DNS message, or its reply could not be built.
    Invalid,
}

/// The reply that a decision gives for `payload`: the payload itself when it asks nothing,
/// the "no such domain" reply when blocked (a failure when that cannot be built), forwarding
/// otherwise.
pub open spec fn spec_reply_for(payload: Seq<u8>, decision: QueryDecision, r: QueryReply) -> bool {
    match decision {
        QueryDecision::Echo => r matches QueryReply::Reply(v) && v@ == payload,
        QueryDecision::Forward => r == QueryReply::Forward,
        QueryDecision::Block => match dns_error_reply(payload, NXDOMAIN, true) {
            None => r == QueryReply::Invalid,
            Some(bytes) => r matches QueryReply::Reply(v) && v@ == bytes,
        },
    }
}

fn reply_for(payload: &[u8], decision: QueryDecision) -> (r: QueryReply)
    ensures
        spec_reply_for(payload@, decision, r),
{
    match decision {
        QueryDecision::Echo => QueryReply::Reply(vstd::slice::slice_to_vec(payload)),
        QueryDecision::Forward => QueryReply::Forward,
        QueryDecision::Block => match blocked_response(payload) {
            Some(bytes) => QueryReply::Reply(bytes),
            None => QueryReply::Invalid,
        },
    }
}

/// Answers a query: a payload that asks nothing goes back unchanged, a blocked name gets the
/// "no such domain" reply, anything else is forwarded; a payload that is not a DNS message,
/// or whose reply cannot be built, fails.
pub fn handle_query(payload: &[u8], blocklist: &BlocklistBundle) -> (r: QueryReply)
    ensures
        match dns_first_question_typed(payload@) {
            None => r == QueryReply::Invalid,
            Some(q) => spec_reply_for(payload@, spec_decide_query(question_name(q), views(blocklist.domains@)), r),
        },
{
    match handle_query_decision(payload, blocklist) {
        None => QueryReply::Invalid,
        Some(decision) => reply_for(payload, decision),
    }
}

/// The upstream resolver that queries which are not blocked go to.
pub const DEFAULT_UPSTREAM: &'static str = "1.1.1.1:53";

/// The record type of an address query (`A`, RFC 1035).
pub const RECORD_TYPE_A: u16 = 1;

/// What the rule engine decides for a query whose first question is `q`: it goes back when it
/// asks nothing; an address query for a name that the rules block is blocked; anything else
/// is forwarded.
pub open spec fn spec_decide_rule_query(q: Option<(Seq<char>, u16)>, built_in: Seq<RuleEntry>, allow_rules: Seq<RuleEntry>) -> QueryDecision {
    match q {
        None => QueryDecision::Echo,
        Some((name, record_type)) => if record_type == RECORD_TYPE_A && spec_should_block(
            question_domain(name),
            built_in,
            allow_rules,
        ) {
            QueryDecision::Block
        } else {
            QueryDecision::Forward
        },
    }
}

/// The rule engine's decision for a query whose first question has the name and record type
/// given (none when it asks nothing): only address queries are blocked, and only for names
/// that an enabled built-in rule covers and no enabled allow rule does, checked without
/// trailing dots and lowercased.
pub fn decide_rule_query(first_question: Option<(&str, u16)>, built_in: &[RuleEntry], allow_rules: &[RuleEntry]) -> (r: QueryDecision)
    ensures
        r == spec_decide_rule_query(
            match first_question {
                Some((n, t)) => Some((n@, t)),
                None => None,
            },
            built_in@,
            allow_rules@,
        ),
{
    match first_question {
        None => QueryDecision::Echo,
        Some((name, record_type)) => {
            if record_type != RECORD_TYPE_A {
                return QueryDecision::Forward;
            }
            let v = chars_of(name);
            let stripped = strip_trailing_chars(&v, '.');
            let text = string_from_chars(&stripped);
            let domain = to_lowercase(text.as_str());
            if crate::policy::rules::should_block(domain.as_str(), built_in, allow_rules) {
                QueryDecision::Block
            } else {
                QueryDecision::Forward
            }
        },
    }
}

/// Answers a query by the rule engine: a payload that asks nothing goes back unchanged, an
/// address query for a name that the built-in rules block and no allow rule covers gets the
/// "no such domain" reply, anything else is forwarded; a payload that is not a DNS message,
/// or whose reply cannot be built, fails.
pub fn handle_rule_query(payload: &[u8], built_in: &[RuleEntry], allow_rules: &[RuleEntry]) -> (r: QueryReply)
    ensures
        match dns_first_question_typed(payload@) {
            None => r == QueryReply::Invalid,
            Some(q) => spec_reply_for(payload@, spec_decide_rule_query(q, built_in@, allow_rules@), r),
        },
{
    match first_question_typed(payload) {
        None => QueryReply::Invalid,
        Some(None) => reply_for(payload, decide_rule_query(None, built_in, allow_rules)),
        Some(Some((name, record_type))) => {
            let decision = decide_rule_query(Some((name.as_str(), record_type)), built_in, allow_rules);
            reply_for(payload, decision)
        },
    }
}

} // verus!
