use wish_assist::engine::{Action, Api115ClientSingle, Event, Phase};
use wish_assist::fleet::{Api115Client, FleetPhase};
use wish_assist::gateway::{is_business_success, AssistPayload, ListingItem, Outcome, Reply};

fn ok<T>(data: T) -> Reply<T> {
    Reply::Envelope { state: 1, code: 0, message: "ok".to_string(), data }
}

fn rejected<T>(data: T, message: &str) -> Reply<T> {
    Reply::Envelope { state: 0, code: 1001, message: message.to_string(), data }
}

fn item(code: &str, aid_num: i32) -> ListingItem {
    ListingItem { code: code.to_string(), aid_num }
}

fn assist_payload(id: &str) -> AssistPayload {
    AssistPayload::Recognized { aid_id: Some(id.to_string()) }
}

fn engine() -> Api115ClientSingle {
    Api115ClientSingle::new("wish-c".to_string(), "aid-c".to_string(), 0)
}

/// Runs the engine to the listing request.
fn to_discovery(e: &mut Api115ClientSingle) {
    assert_eq!(
        e.process_single_account(Event::Ready),
        Action::CreateWish { credential: "wish-c".to_string() }
    );
    let a = e.process_single_account(Event::Wished(rejected(String::new(), "already wished")));
    assert_eq!(a, Action::ListPending { credential: "wish-c".to_string() });
}

#[test]
fn business_success_needs_state_one_and_code_zero() {
    assert!(is_business_success(1, 0));
    assert!(!is_business_success(1, 1));
    assert!(!is_business_success(0, 0));
    assert!(!is_business_success(2, 0));
}

#[test]
fn wish_success_waits_sixty_then_discovers() {
    let mut e = engine();
    e.process_single_account(Event::Ready);
    let a = e.process_single_account(Event::Wished(ok("W1".to_string())));
    assert_eq!(a, Action::Wait(60));
    assert_eq!(e.phase, Phase::AwaitingModeration);
    let a = e.process_single_account(Event::Ready);
    assert_eq!(a, Action::ListPending { credential: "wish-c".to_string() });
    assert_eq!(e.phase, Phase::Discovering);
}

#[test]
fn wish_rejection_goes_straight_to_discovery() {
    let mut e = engine();
    to_discovery(&mut e);
    assert_eq!(e.phase, Phase::Discovering);
}

#[test]
fn wish_transport_failure_goes_straight_to_discovery() {
    let mut e = engine();
    e.process_single_account(Event::Ready);
    let a = e.process_single_account(Event::Wished(Reply::TransportFailed("timeout".to_string())));
    assert_eq!(a, Action::ListPending { credential: "wish-c".to_string() });
    let mut e = engine();
    e.process_single_account(Event::Ready);
    let a = e.process_single_account(Event::Wished(Reply::DecodeFailed("bad json".to_string())));
    assert_eq!(a, Action::ListPending { credential: "wish-c".to_string() });
}

#[test]
fn pending_set_keeps_only_unassisted() {
    let r = Api115ClientSingle::get_pending_wishes(ok(vec![item("X1", 0), item("X2", 2)]));
    assert_eq!(r, Outcome::Succeeded(vec!["X1".to_string()]));
}

#[test]
fn pending_set_collapses_duplicates() {
    let r = Api115ClientSingle::get_pending_wishes(ok(vec![
        item("A", 0),
        item("B", 0),
        item("A", 0),
        item("C", 5),
    ]));
    assert_eq!(r, Outcome::Succeeded(vec!["A".to_string(), "B".to_string()]));
}

#[test]
fn pending_set_of_empty_listing_is_empty() {
    let r = Api115ClientSingle::get_pending_wishes(ok(Vec::new()));
    assert_eq!(r, Outcome::Succeeded(Vec::new()));
}

#[test]
fn listing_failures_are_reported() {
    let r = Api115ClientSingle::get_pending_wishes(rejected(vec![item("A", 0)], "no"));
    assert_eq!(r, Outcome::Rejected("no".to_string()));
    let r = Api115ClientSingle::get_pending_wishes(Reply::TransportFailed("down".to_string()));
    assert_eq!(r, Outcome::TransportFailed("down".to_string()));
    let r = Api115ClientSingle::get_pending_wishes(Reply::DecodeFailed("junk".to_string()));
    assert_eq!(r, Outcome::DecodeFailed("junk".to_string()));
}

#[test]
fn wish_reply_outcomes() {
    assert_eq!(
        Api115ClientSingle::make_wish(ok("W1".to_string())),
        Outcome::Succeeded("W1".to_string())
    );
    assert_eq!(
        Api115ClientSingle::make_wish(rejected(String::new(), "today already")),
        Outcome::Rejected("today already".to_string())
    );
}

#[test]
fn code_reply_outcomes() {
    assert_eq!(
        Api115ClientSingle::get_desire_code(ok("C9".to_string())),
        Outcome::Succeeded("C9".to_string())
    );
    assert_eq!(Api115ClientSingle::get_desire_code(ok(String::new())), Outcome::MissingField);
    assert_eq!(
        Api115ClientSingle::get_desire_code(rejected("C9".to_string(), "gone")),
        Outcome::Rejected("gone".to_string())
    );
}

#[test]
fn assist_reply_outcomes() {
    assert_eq!(
        Api115ClientSingle::aid_desire(ok(assist_payload("A77"))),
        Outcome::Succeeded("A77".to_string())
    );
    assert_eq!(Api115ClientSingle::aid_desire(ok(assist_payload(""))), Outcome::MissingField);
    assert_eq!(
        Api115ClientSingle::aid_desire(ok(AssistPayload::Recognized { aid_id: None })),
        Outcome::MissingField
    );
    assert_eq!(Api115ClientSingle::aid_desire(ok(AssistPayload::Unrecognized)), Outcome::MissingField);
    assert_eq!(
        Api115ClientSingle::aid_desire(rejected(assist_payload("A77"), "limit")),
        Outcome::Rejected("limit".to_string())
    );
    assert_eq!(
        Api115ClientSingle::aid_desire(Reply::TransportFailed("reset".to_string())),
        Outcome::TransportFailed("reset".to_string())
    );
}

#[test]
fn adopt_reply_outcomes() {
    assert_eq!(Api115ClientSingle::adopt_aid(ok(())), Outcome::Succeeded(()));
    assert_eq!(Api115ClientSingle::adopt_aid(rejected((), "nope")), Outcome::Rejected("nope".to_string()));
}

#[test]
fn empty_code_skips_to_inter_wish_delay() {
    let mut e = engine();
    to_discovery(&mut e);
    let a = e.process_single_account(Event::Listed(ok(vec![item("X1", 0)])));
    assert_eq!(a, Action::ResolveCode { credential: "aid-c".to_string(), wish_id: "X1".to_string() });
    let a = e.process_single_account(Event::Resolved(ok(String::new())));
    assert_eq!(a, Action::Wait(60));
    assert_eq!(e.phase, Phase::InterWish { at: 0 });
    let a = e.process_single_account(Event::Ready);
    assert_eq!(a, Action::Finished);
    assert!(e.is_done());
    assert!(e.adopted.is_empty());
}

#[test]
fn failed_wish_moves_on_to_next_pending_wish() {
    let mut e = engine();
    to_discovery(&mut e);
    e.process_single_account(Event::Listed(ok(vec![item("X1", 0), item("X3", 0)])));
    e.process_single_account(Event::Resolved(Reply::TransportFailed("t".to_string())));
    let a = e.process_single_account(Event::Ready);
    assert_eq!(a, Action::ResolveCode { credential: "aid-c".to_string(), wish_id: "X3".to_string() });
}

#[test]
fn successful_assist_is_adopted_after_ten_and_three() {
    let mut e = engine();
    to_discovery(&mut e);
    e.process_single_account(Event::Listed(ok(vec![item("X1", 0)])));
    let a = e.process_single_account(Event::Resolved(ok("CODE1".to_string())));
    assert_eq!(a, Action::SubmitAssist { credential: "aid-c".to_string(), code: "CODE1".to_string() });
    let a = e.process_single_account(Event::Assisted(ok(assist_payload("A77"))));
    assert_eq!(a, Action::Wait(10));
    let a = e.process_single_account(Event::Ready);
    assert_eq!(a, Action::Wait(3));
    let a = e.process_single_account(Event::Ready);
    assert_eq!(
        a,
        Action::AdoptAssist {
            credential: "wish-c".to_string(),
            wish_id: "X1".to_string(),
            assist_id: "A77".to_string(),
        }
    );
    let a = e.process_single_account(Event::Adopted(ok(())));
    assert_eq!(a, Action::Wait(60));
    assert_eq!(e.adopted, vec!["X1".to_string()]);
    assert_eq!(e.process_single_account(Event::Ready), Action::Finished);
}

#[test]
fn assist_without_id_is_never_adopted() {
    let mut e = engine();
    to_discovery(&mut e);
    e.process_single_account(Event::Listed(ok(vec![item("X1", 0)])));
    e.process_single_account(Event::Resolved(ok("CODE1".to_string())));
    let a = e.process_single_account(Event::Assisted(ok(AssistPayload::Recognized { aid_id: None })));
    assert_eq!(a, Action::Wait(60));
    assert_eq!(e.process_single_account(Event::Ready), Action::Finished);
    assert!(e.adopted.is_empty());
}

#[test]
fn rejected_adoption_is_not_recorded() {
    let mut e = engine();
    to_discovery(&mut e);
    e.process_single_account(Event::Listed(ok(vec![item("X1", 0)])));
    e.process_single_account(Event::Resolved(ok("CODE1".to_string())));
    e.process_single_account(Event::Assisted(ok(assist_payload("A1"))));
    e.process_single_account(Event::Ready);
    e.process_single_account(Event::Ready);
    let a = e.process_single_account(Event::Adopted(rejected((), "expired")));
    assert_eq!(a, Action::Wait(60));
    assert!(e.adopted.is_empty());
}

#[test]
fn accepts_only_the_answer_to_the_last_request() {
    let mut e = engine();
    assert!(e.accepts(&Event::Ready));
    assert!(!e.accepts(&Event::Adopted(ok(()))));
    e.process_single_account(Event::Ready);
    assert!(e.accepts(&Event::Wished(ok("W".to_string()))));
    assert!(!e.accepts(&Event::Ready));
}

#[test]
fn fleet_of_two_runs_in_order_with_cooldown() {
    let mut f = Api115Client::new(vec!["w1".to_string(), "w2".to_string()], "aid".to_string());
    assert_eq!(f.process_all_accounts(Event::Ready), Action::CreateWish { credential: "w1".to_string() });
    assert_eq!(
        f.process_all_accounts(Event::Wished(ok("W1".to_string()))),
        Action::Wait(60)
    );
    assert_eq!(
        f.process_all_accounts(Event::Ready),
        Action::ListPending { credential: "w1".to_string() }
    );
    // account 1 has nothing pending: it ends, and the pause follows
    assert_eq!(f.process_all_accounts(Event::Listed(ok(Vec::new()))), Action::Wait(30));
    assert_eq!(f.phase, FleetPhase::Cooldown);
    assert_eq!(f.completed, vec![0]);
    assert_eq!(f.current_account(), 0);
    // account 2 starts only after the pause
    assert_eq!(f.process_all_accounts(Event::Ready), Action::CreateWish { credential: "w2".to_string() });
    assert_eq!(f.current_account(), 1);
    // its wish fails in transport, and it still goes on to discovery
    assert_eq!(
        f.process_all_accounts(Event::Wished(Reply::TransportFailed("refused".to_string()))),
        Action::ListPending { credential: "w2".to_string() }
    );
    assert_eq!(f.process_all_accounts(Event::Listed(ok(vec![item("Q", 1)]))), Action::Finished);
    assert!(f.is_finished());
    assert_eq!(f.completed, vec![0, 1]);
    assert_eq!(f.process_all_accounts(Event::Ready), Action::Finished);
}

#[test]
fn fleet_failure_of_first_account_does_not_stop_second() {
    let mut f = Api115Client::new(vec!["w1".to_string(), "w2".to_string()], "aid".to_string());
    f.process_all_accounts(Event::Ready);
    f.process_all_accounts(Event::Wished(Reply::TransportFailed("x".to_string())));
    assert_eq!(
        f.process_all_accounts(Event::Listed(Reply::TransportFailed("y".to_string()))),
        Action::Wait(30)
    );
    assert_eq!(f.process_all_accounts(Event::Ready), Action::CreateWish { credential: "w2".to_string() });
}

#[test]
fn fleet_last_account_gets_no_cooldown() {
    let mut f = Api115Client::new(vec!["only".to_string()], "aid".to_string());
    f.process_all_accounts(Event::Ready);
    f.process_all_accounts(Event::Wished(rejected(String::new(), "no")));
    assert_eq!(f.process_all_accounts(Event::Listed(ok(Vec::new()))), Action::Finished);
    assert!(f.is_finished());
}

#[test]
fn fleet_without_accounts_is_finished() {
    let mut f = Api115Client::new(Vec::new(), "aid".to_string());
    assert!(f.is_finished());
    assert_eq!(f.process_all_accounts(Event::Ready), Action::Finished);
    assert!(f.completed.is_empty());
}

#[test]
fn fleet_uses_shared_assist_credential() {
    let mut f = Api115Client::new(vec!["w1".to_string()], "shared".to_string());
    f.process_all_accounts(Event::Ready);
    f.process_all_accounts(Event::Wished(rejected(String::new(), "no")));
    assert_eq!(
        f.process_all_accounts(Event::Listed(ok(vec![item("Z", 0)]))),
        Action::ResolveCode { credential: "shared".to_string(), wish_id: "Z".to_string() }
    );
}
