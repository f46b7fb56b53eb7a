use hickory_proto::op::{Message, MessageType, OpCode, Query, ResponseCode};
use hickory_proto::rr::{Name, RecordType};
use sentinel::blocking::blocklist::BlocklistBundle;
use sentinel::blocking::resolver::{
    blocked_response, decide_query, decide_rule_query, handle_query, handle_query_decision, handle_rule_query, should_block,
    QueryDecision, QueryReply, DEFAULT_UPSTREAM, NXDOMAIN, RECORD_TYPE_A,
};
use sentinel::policy::rules::{built_in_rules, RuleEntry};
use sentinel::clock::Timestamp;

fn bundle() -> BlocklistBundle {
    BlocklistBundle::parse("zemanta.com\nrubiconproject.com\n", Timestamp { secs: 0, nanos: 0 }, "t".to_string()).unwrap()
}

fn query_for(name: &str) -> Vec<u8> {
    let mut message = Message::new(7, MessageType::Query, OpCode::Query);
    message.add_query(Query::query(Name::from_ascii(name).unwrap(), RecordType::A));
    message.to_vec().unwrap()
}

#[test]
fn blocked_names_are_answered_locally() {
    let b = bundle();
    assert_eq!(handle_query_decision(&query_for("pixel.Zemanta.com."), &b), Some(QueryDecision::Block));
    assert_eq!(handle_query_decision(&query_for("example.org."), &b), Some(QueryDecision::Forward));
}

#[test]
fn queries_without_questions_go_back_and_garbage_fails() {
    let b = bundle();
    let empty = Message::new(9, MessageType::Query, OpCode::Query).to_vec().unwrap();
    assert_eq!(handle_query_decision(&empty, &b), Some(QueryDecision::Echo));
    assert_eq!(handle_query_decision(&[1, 2, 3], &b), None);
}

#[test]
fn decisions_on_names() {
    let b = bundle();
    assert_eq!(decide_query(None, &b), QueryDecision::Echo);
    assert_eq!(decide_query(Some("ads.RUBICONPROJECT.com."), &b), QueryDecision::Block);
    assert_eq!(decide_query(Some("rubiconproject.org"), &b), QueryDecision::Forward);
    assert!(should_block("zemanta.com", &b));
    assert!(!should_block("zemanta.co", &b));
}

#[test]
fn blocked_queries_get_a_no_such_domain_reply_for_the_same_question() {
    let b = bundle();
    let query = query_for("pixel.zemanta.com.");
    let reply = match handle_query(&query, &b) {
        QueryReply::Reply(bytes) => bytes,
        other => panic!("expected a reply, got {other:?}"),
    };
    let message = Message::from_vec(&reply).unwrap();
    assert_eq!(message.metadata.id, 7);
    assert_eq!(message.metadata.message_type, MessageType::Response);
    assert_eq!(message.metadata.response_code, ResponseCode::NXDomain);
    assert!(message.metadata.recursion_available);
    assert_eq!(message.queries.len(), 1);
    assert_eq!(message.queries[0].name().to_utf8(), "pixel.zemanta.com.");
    assert_eq!(blocked_response(&query), Some(reply));
}

#[test]
fn other_queries_are_forwarded_echoed_or_refused() {
    let b = bundle();
    assert_eq!(handle_query(&query_for("example.org."), &b), QueryReply::Forward);
    let empty = Message::new(9, MessageType::Query, OpCode::Query).to_vec().unwrap();
    assert_eq!(handle_query(&empty, &b), QueryReply::Reply(empty.clone()));
    assert_eq!(handle_query(&[1, 2, 3], &b), QueryReply::Invalid);
    assert_eq!(blocked_response(&[1, 2, 3]), None);
    assert_eq!(NXDOMAIN, 3);
}

fn typed_query(name: &str, record_type: RecordType) -> Vec<u8> {
    let mut message = Message::new(11, MessageType::Query, OpCode::Query);
    message.add_query(Query::query(Name::from_ascii(name).unwrap(), record_type));
    message.to_vec().unwrap()
}

#[test]
fn the_rule_engine_blocks_address_queries_for_built_in_domains() {
    let built_in = built_in_rules();
    let query = typed_query("stats.DoubleClick.net.", RecordType::A);
    match handle_rule_query(&query, &built_in, &[]) {
        QueryReply::Reply(bytes) => {
            let reply = Message::from_vec(&bytes).unwrap();
            assert_eq!(reply.metadata.response_code, ResponseCode::NXDomain);
            assert_eq!(reply.metadata.id, 11);
        }
        other => panic!("expected a reply, got {other:?}"),
    }
    assert_eq!(handle_rule_query(&typed_query("doubleclick.net.", RecordType::AAAA), &built_in, &[]), QueryReply::Forward);
    assert_eq!(handle_rule_query(&typed_query("example.org.", RecordType::A), &built_in, &[]), QueryReply::Forward);
    let allow = vec![RuleEntry::allow("doubleclick.net").unwrap()];
    assert_eq!(handle_rule_query(&query, &built_in, &allow), QueryReply::Forward);
    assert_eq!(handle_rule_query(&[1, 2, 3], &built_in, &[]), QueryReply::Invalid);
    let empty = Message::new(9, MessageType::Query, OpCode::Query).to_vec().unwrap();
    assert_eq!(handle_rule_query(&empty, &built_in, &[]), QueryReply::Reply(empty.clone()));
}

#[test]
fn rule_decisions_on_names_and_types() {
    let built_in = built_in_rules();
    assert_eq!(decide_rule_query(None, &built_in, &[]), QueryDecision::Echo);
    assert_eq!(decide_rule_query(Some(("ads.taboola.com.", RECORD_TYPE_A)), &built_in, &[]), QueryDecision::Block);
    assert_eq!(decide_rule_query(Some(("ads.taboola.com.", 28)), &built_in, &[]), QueryDecision::Forward);
    assert_eq!(decide_rule_query(Some(("taboola.co", RECORD_TYPE_A)), &built_in, &[]), QueryDecision::Forward);
}

#[test]
fn queries_that_are_not_blocked_go_to_the_default_upstream() {
    assert_eq!(DEFAULT_UPSTREAM, "1.1.1.1:53");
}
