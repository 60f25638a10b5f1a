use aggregator_service::credentials::{ClientId, Credentials, CredentialsTable, Token};
use aggregator_service::service::{
    training_outcome, AggregationPoll, ApiEffect, Request, RpcEffect, RpcRequest, ServiceState,
};
use aggregator_service::wakeup::{Readiness, Stage};
use bytes::Bytes;

fn creds(id: u128, token: u128) -> Credentials {
    Credentials::new(ClientId(id), Token(token))
}

fn select(s: &mut ServiceState<u32>, id: u128, token: u128) {
    let effect = s.dispatch_rpc(RpcRequest::Select(ClientId(id), Token(token), "ack"));
    assert!(matches!(effect, RpcEffect::Acknowledge("ack")));
}

fn aggregate(s: &mut ServiceState<u32>, tracker: u32) {
    let effect = s.dispatch_rpc(RpcRequest::Aggregate("done"));
    assert!(matches!(effect, RpcEffect::StartAggregation("done")));
    s.begin_aggregation(tracker);
}

fn download_allowed(s: &ServiceState<u32>, id: u128, token: u128) -> bool {
    match s.dispatch_request(Request::Download(creds(id, token), 99u8)) {
        ApiEffect::SendGlobalWeights(slot) => {
            assert_eq!(slot, 99u8);
            true
        }
        ApiEffect::Rejected => false,
        ApiEffect::AddWeights(..) => panic!("a download never reaches the aggregator"),
    }
}

fn upload(s: &ServiceState<u32>, id: u128, token: u128, w: &Bytes) -> Option<(ClientId, Bytes)> {
    match s.dispatch_request::<u8>(Request::Upload(creds(id, token), w.clone())) {
        ApiEffect::AddWeights(who, weights) => Some((who, weights)),
        ApiEffect::Rejected => None,
        ApiEffect::SendGlobalWeights(_) => panic!("an upload is never answered with weights"),
    }
}

#[test]
fn table_starts_empty_and_admits_selected_clients() {
    let mut t = CredentialsTable::new();
    assert!(!t.is_authorized(&creds(1, 10)));
    t.select(ClientId(1), Token(10));
    assert!(t.is_authorized(&creds(1, 10)));
    assert!(!t.is_authorized(&creds(1, 11)));
    assert!(!t.is_authorized(&creds(2, 10)));
}

#[test]
fn reselect_replaces_the_token() {
    let mut t = CredentialsTable::new();
    t.select(ClientId(1), Token(10));
    t.select(ClientId(1), Token(20));
    assert!(!t.is_authorized(&creds(1, 10)));
    assert!(t.is_authorized(&creds(1, 20)));
    t.select(ClientId(1), Token(20));
    assert!(t.is_authorized(&creds(1, 20)));
}

#[test]
fn clear_forgets_every_client() {
    let mut t = CredentialsTable::new();
    t.select(ClientId(1), Token(10));
    t.select(ClientId(2), Token(20));
    t.clear();
    assert!(!t.is_authorized(&creds(1, 10)));
    assert!(!t.is_authorized(&creds(2, 20)));
}

#[test]
fn largest_ids_and_tokens_are_matched_exactly() {
    let mut t = CredentialsTable::new();
    t.select(ClientId(u128::MAX), Token(u128::MAX));
    assert!(t.is_authorized(&creds(u128::MAX, u128::MAX)));
    assert!(!t.is_authorized(&creds(u128::MAX, u128::MAX - 1)));
    assert!(!t.is_authorized(&creds(0, u128::MAX)));
}

#[test]
fn new_service_serves_empty_weights_and_is_idle() {
    let s: ServiceState<u32> = ServiceState::new();
    assert_eq!(s.global_weights().len(), 0);
    assert!(s.global_weights().is_empty());
    assert!(!s.is_aggregating());
    assert!(!s.is_authorized(&creds(1, 1)));
}

#[test]
fn happy_path() {
    let mut s: ServiceState<u32> = ServiceState::new();
    select(&mut s, 1, 10);
    assert!(download_allowed(&s, 1, 10));
    assert_eq!(s.global_weights(), &Bytes::new());

    let w1 = Bytes::from_static(b"local weights");
    let (who, weights) = upload(&s, 1, 10, &w1).expect("accepted upload");
    assert_eq!(who, ClientId(1));
    assert_eq!(weights, w1);

    aggregate(&mut s, 7);
    assert!(s.is_aggregating());
    let tracker = s.take_aggregation().expect("one aggregation in flight");
    assert_eq!(tracker, 7);
    let g1 = Bytes::from_static(b"global weights");
    assert_eq!(s.settle_aggregation(tracker, AggregationPoll::Published(g1.clone())), Some(7));
    assert!(!s.is_aggregating());

    assert!(!download_allowed(&s, 1, 10));
    select(&mut s, 1, 11);
    assert!(download_allowed(&s, 1, 11));
    assert_eq!(s.global_weights(), &g1);
}

#[test]
fn wrong_token_is_rejected() {
    let mut s: ServiceState<u32> = ServiceState::new();
    select(&mut s, 1, 10);
    assert!(!download_allowed(&s, 1, 20));
    assert!(upload(&s, 1, 20, &Bytes::from_static(b"w")).is_none());
    assert!(!download_allowed(&s, 2, 10));
    assert!(upload(&s, 2, 10, &Bytes::from_static(b"w")).is_none());
}

#[test]
fn stale_upload_is_rejected() {
    let mut s: ServiceState<u32> = ServiceState::new();
    select(&mut s, 1, 10);
    aggregate(&mut s, 1);
    assert!(upload(&s, 1, 10, &Bytes::from_static(b"w")).is_none());
    assert!(!download_allowed(&s, 1, 10));
}

#[test]
fn failed_aggregation_keeps_the_weights() {
    let mut s: ServiceState<u32> = ServiceState::new();
    let g0 = Bytes::from_static(b"round zero");
    aggregate(&mut s, 1);
    let t = s.take_aggregation().unwrap();
    assert_eq!(s.settle_aggregation(t, AggregationPoll::Published(g0.clone())), Some(1));

    select(&mut s, 1, 10);
    assert!(upload(&s, 1, 10, &Bytes::from_static(b"w")).is_some());
    aggregate(&mut s, 2);
    let t = s.take_aggregation().unwrap();
    assert_eq!(s.settle_aggregation(t, AggregationPoll::Failed), None);
    assert!(!s.is_aggregating());
    assert_eq!(s.global_weights(), &g0);
}

#[test]
fn pending_aggregation_is_kept() {
    let mut s: ServiceState<u32> = ServiceState::new();
    aggregate(&mut s, 3);
    let t = s.take_aggregation().unwrap();
    assert!(!s.is_aggregating());
    assert_eq!(s.settle_aggregation(t, AggregationPoll::Pending), None);
    assert!(s.is_aggregating());
    assert_eq!(s.global_weights().len(), 0);
    assert_eq!(s.take_aggregation(), Some(3));
}

#[test]
fn second_aggregate_replaces_the_first() {
    let mut s: ServiceState<u32> = ServiceState::new();
    assert_eq!(s.begin_aggregation(1), None);
    assert_eq!(s.begin_aggregation(2), Some(1));
    assert_eq!(s.take_aggregation(), Some(2));
    assert_eq!(s.take_aggregation(), None);
}

#[test]
fn out_of_order_control() {
    let mut s: ServiceState<u32> = ServiceState::new();
    select(&mut s, 1, 10);
    aggregate(&mut s, 1);
    select(&mut s, 2, 20);
    assert!(upload(&s, 1, 10, &Bytes::from_static(b"w")).is_none());
    assert!(s.is_authorized(&creds(2, 20)));
    assert!(upload(&s, 2, 20, &Bytes::from_static(b"w")).is_some());
}

#[test]
fn outcome_reports_whether_weights_were_added() {
    let ok: Result<(), String> = Ok(());
    let err: Result<(), String> = Err("invalid weights".to_string());
    assert_eq!(training_outcome(ClientId(5), &ok), (ClientId(5), true));
    assert_eq!(training_outcome(ClientId(6), &err), (ClientId(6), false));
}

#[test]
fn coordinator_disconnect_finishes_the_service() {
    assert_eq!(Stage::start().advance(Readiness::Closed), Stage::Finished);
    assert_eq!(Stage::Data.advance(Readiness::Closed), Stage::Finished);
    assert!(Stage::Finished.is_final());
}

#[test]
fn commands_are_drained_before_requests() {
    let mut stage = Stage::start();
    let polls = [
        Readiness::Item,
        Readiness::Item,
        Readiness::Pending,
        Readiness::Item,
        Readiness::Pending,
        Readiness::Pending,
    ];
    let mut seen = Vec::new();
    for p in polls {
        seen.push(stage);
        stage = stage.advance(p);
    }
    assert_eq!(
        seen,
        vec![
            Stage::Control,
            Stage::Control,
            Stage::Control,
            Stage::Data,
            Stage::Data,
            Stage::Aggregation
        ]
    );
    assert_eq!(stage, Stage::Idle);
    assert!(stage.is_final());
    assert!(!Stage::Aggregation.is_final());
    assert_eq!(Stage::Idle.advance(Readiness::Item), Stage::Idle);
}
