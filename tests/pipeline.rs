use new_pools::{
    extract, handle_from_field, request_from_quoted, subscription_handle, subscription_request,
    Action, Address, Commitment, Deduplicator, ExtractError, Instruction, LogNotification,
    ResolveError, Step, SubscriptionError, TransactionRecord, Watcher,
};

fn addr(tag: u8) -> Address {
    Address::new([tag; 32])
}

fn accounts(count: u8, base: u8) -> Vec<Address> {
    (0..count).map(|i| addr(base + i)).collect()
}

fn notification(sig: &str) -> LogNotification {
    LogNotification { signature: sig.to_string(), logs: vec!["Program log: init".to_string()] }
}

const WATCHED: u8 = 200;
const OTHER: u8 = 201;

#[test]
fn one_instruction_twelve_accounts_gives_one_pair() {
    let record = TransactionRecord::new(vec![Instruction::new(addr(WATCHED), accounts(12, 0))]);
    let pairs = extract(&record, &addr(WATCHED)).unwrap();
    assert_eq!(pairs.len(), 1);
    assert_eq!(pairs[0].token0, addr(8));
    assert_eq!(pairs[0].token1, addr(9));
}

#[test]
fn duplicate_signature_resolved_once() {
    let mut w = Watcher::new(addr(WATCHED));
    match w.on_notification(&notification("SIG1")) {
        Action::Resolve(sig) => assert_eq!(sig, "SIG1"),
        Action::Drop => panic!("first delivery must be resolved"),
    }
    assert!(matches!(w.on_notification(&notification("SIG1")), Action::Drop));
}

#[test]
fn not_found_is_skipped_and_loop_goes_on() {
    let mut w = Watcher::new(addr(WATCHED));
    assert!(matches!(w.on_notification(&notification("SIG2")), Action::Resolve(_)));
    let step = w.on_resolved(Err(ResolveError::NotFound));
    assert!(matches!(step, Step::SkipNotIndexed));
    assert!(step.continues());
    assert!(matches!(w.on_notification(&notification("SIG3")), Action::Resolve(_)));
}

#[test]
fn two_qualifying_instructions_in_order() {
    let record = TransactionRecord::new(vec![
        Instruction::new(addr(WATCHED), accounts(10, 0)),
        Instruction::new(addr(OTHER), accounts(3, 50)),
        Instruction::new(addr(WATCHED), accounts(11, 100)),
    ]);
    let pairs = extract(&record, &addr(WATCHED)).unwrap();
    assert_eq!(pairs.len(), 2);
    assert_eq!(pairs[0].token0, addr(8));
    assert_eq!(pairs[0].token1, addr(9));
    assert_eq!(pairs[1].token0, addr(108));
    assert_eq!(pairs[1].token1, addr(109));
}

#[test]
fn extract_nine_accounts_is_malformed() {
    let record = TransactionRecord::new(vec![
        Instruction::new(addr(WATCHED), accounts(12, 0)),
        Instruction::new(addr(WATCHED), accounts(9, 20)),
    ]);
    assert_eq!(extract(&record, &addr(WATCHED)), Err(ExtractError::MalformedInstruction));
}

#[test]
fn extract_short_foreign_instruction_is_ignored() {
    let record = TransactionRecord::new(vec![Instruction::new(addr(OTHER), accounts(2, 0))]);
    assert_eq!(extract(&record, &addr(WATCHED)), Ok(vec![]));
}

#[test]
fn extract_empty_record_gives_no_pairs() {
    let record = TransactionRecord::new(vec![]);
    assert_eq!(extract(&record, &addr(WATCHED)), Ok(vec![]));
}

#[test]
fn extract_twice_gives_same_output() {
    let record = TransactionRecord::new(vec![
        Instruction::new(addr(WATCHED), accounts(10, 30)),
        Instruction::new(addr(WATCHED), accounts(10, 60)),
    ]);
    let first = extract(&record, &addr(WATCHED));
    let second = extract(&record, &addr(WATCHED));
    assert_eq!(first, second);
    assert_eq!(first.unwrap().len(), 2);
}

#[test]
fn dedup_first_sighting_only_with_interleaving() {
    let mut d = Deduplicator::new();
    let a = "A".to_string();
    let b = "B".to_string();
    assert!(d.observe(&a));
    assert!(d.observe(&b));
    assert!(!d.observe(&a));
    assert!(d.has_seen(&b));
    assert!(!d.observe(&b));
    assert!(!d.observe(&a));
    assert!(!d.has_seen(&"C".to_string()));
}

#[test]
fn malformed_transaction_is_skipped() {
    let w = Watcher::new(addr(WATCHED));
    let record = TransactionRecord::new(vec![Instruction::new(addr(WATCHED), accounts(9, 0))]);
    let step = w.on_resolved(Ok(record));
    assert!(matches!(step, Step::SkipMalformed));
    assert!(step.continues());
}

#[test]
fn resolved_transaction_is_reported() {
    let w = Watcher::new(addr(WATCHED));
    assert_eq!(w.program(), addr(WATCHED));
    let record = TransactionRecord::new(vec![Instruction::new(addr(WATCHED), accounts(10, 1))]);
    match w.on_resolved(Ok(record)) {
        Step::Report(pairs) => {
            assert_eq!(pairs.len(), 1);
            assert_eq!(pairs[0].token0, addr(9));
            assert_eq!(pairs[0].token1, addr(10));
        }
        _ => panic!("expected a report"),
    }
}

#[test]
fn transport_failure_stops_the_loop() {
    let w = Watcher::new(addr(WATCHED));
    let step = w.on_resolved(Err(ResolveError::Transport));
    assert!(matches!(step, Step::TransportFailure));
    assert!(!step.continues());
}

#[test]
fn address_comparison_is_bytewise() {
    let mut bytes = [7u8; 32];
    let a = Address::new(bytes);
    bytes[31] = 8;
    let b = Address::new(bytes);
    assert!(a.same_as(&a));
    assert!(!a.same_as(&b));
}

#[test]
fn commitment_names() {
    assert_eq!(Commitment::Processed.as_str(), "processed");
    assert_eq!(Commitment::Confirmed.as_str(), "confirmed");
    assert_eq!(Commitment::Finalized.as_str(), "finalized");
}

#[test]
fn subscription_request_text() {
    let r = subscription_request(&Address::new([0u8; 32]), Commitment::Finalized).unwrap();
    assert_eq!(
        r,
        "{\"jsonrpc\":\"2.0\",\"method\":\"solana_subscribeLogs\",\"params\":{\"filter\":{\"mentions\":\"11111111111111111111111111111111\"},\"commitment\":\"finalized\"},\"id\":1}"
    );
}

#[test]
fn request_from_quoted_builds_or_fails() {
    assert_eq!(request_from_quoted(None, Commitment::Confirmed), Err(SubscriptionError::Serialization));
    let r = request_from_quoted(Some("\"P\"".to_string()), Commitment::Processed).unwrap();
    assert_eq!(
        r,
        "{\"jsonrpc\":\"2.0\",\"method\":\"solana_subscribeLogs\",\"params\":{\"filter\":{\"mentions\":\"P\"},\"commitment\":\"processed\"},\"id\":1}"
    );
}

#[test]
fn subscription_handle_read_from_result() {
    assert_eq!(subscription_handle(Some("{\"jsonrpc\":\"2.0\",\"result\":42,\"id\":1}")), Ok(42));
}

#[test]
fn subscription_handle_missing_field() {
    assert_eq!(
        subscription_handle(Some("{\"jsonrpc\":\"2.0\",\"id\":1}")),
        Err(SubscriptionError::MissingHandle)
    );
    assert_eq!(subscription_handle(Some("{\"result\":\"x\"}")), Err(SubscriptionError::MissingHandle));
    assert_eq!(subscription_handle(Some("not json")), Err(SubscriptionError::MissingHandle));
}

#[test]
fn subscription_handle_channel_closed() {
    assert_eq!(subscription_handle(None), Err(SubscriptionError::ChannelClosed));
}

#[test]
fn handle_from_field_cases() {
    assert_eq!(handle_from_field(Some(7)), Ok(7));
    assert_eq!(handle_from_field(None), Err(SubscriptionError::MissingHandle));
}
