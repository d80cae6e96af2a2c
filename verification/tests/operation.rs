use ezstripe::helper::{prepare, ClientError};
use ezstripe::operation::{EntryPoint, Method, Operation, FORM_URLENCODED};
use ezstripe::resource::Resource;

const BASE: &str = "https://api.stripe.com/v1/things";

fn s(value: &str) -> String {
    value.to_string()
}

fn all_operations() -> Vec<Operation> {
    vec![
        Operation::Create(s("a=1")),
        Operation::Retrieve(s("id_1")),
        Operation::Update(s("id_1"), s("a=1")),
        Operation::List(s("limit=3")),
        Operation::Cancel(s("id_1")),
        Operation::Reverse(s("id_1"), s("a=1")),
        Operation::Confirm(s("id_1"), s("a=1")),
        Operation::Capture(s("id_1")),
        Operation::Close(s("id_1")),
    ]
}

#[test]
fn addresses_follow_the_operation() {
    assert_eq!(Operation::Create(s("a=1")).url(BASE), BASE);
    assert_eq!(Operation::List(s("")).url(BASE), BASE);
    assert_eq!(Operation::Retrieve(s("id_1")).url(BASE), "https://api.stripe.com/v1/things/id_1");
    assert_eq!(Operation::Update(s("id_1"), s("a=1")).url(BASE), "https://api.stripe.com/v1/things/id_1");
    assert_eq!(Operation::Cancel(s("id_1")).url(BASE), "https://api.stripe.com/v1/things/id_1");
    assert_eq!(Operation::Reverse(s("id_1"), s("")).url(BASE), "https://api.stripe.com/v1/things/id_1");
    assert_eq!(Operation::Confirm(s("id_1"), s("")).url(BASE), "https://api.stripe.com/v1/things/id_1/confirm");
    assert_eq!(Operation::Capture(s("id_1")).url(BASE), "https://api.stripe.com/v1/things/id_1/capture");
    assert_eq!(Operation::Close(s("id_1")).url(BASE), "https://api.stripe.com/v1/things/id_1/close");
}

#[test]
fn only_retrieve_and_list_are_get() {
    for operation in all_operations() {
        let expected = match operation {
            Operation::Retrieve(_) | Operation::List(_) => Method::Get,
            _ => Method::Post,
        };
        assert_eq!(operation.method(), expected, "{:?}", operation);
    }
}

#[test]
fn empty_payload_is_no_body() {
    assert_eq!(Operation::Create(s("")).body(), None);
    assert_eq!(Operation::Update(s("id_1"), s("")).body(), None);
    assert_eq!(Operation::List(s("")).body(), None);
    assert_eq!(Operation::Reverse(s("id_1"), s("")).body(), None);
    assert_eq!(Operation::Confirm(s("id_1"), s("")).body(), None);
}

#[test]
fn payload_that_is_not_empty_is_the_body() {
    assert_eq!(Operation::Create(s("amount=2000;currency=eur;")).body(), Some(s("amount=2000;currency=eur;")));
    assert_eq!(Operation::Update(s("id_1"), s("a=1")).body(), Some(s("a=1")));
    assert_eq!(Operation::List(s("limit=3")).body(), Some(s("limit=3")));
    assert_eq!(Operation::Reverse(s("id_1"), s("a=1")).body(), Some(s("a=1")));
    assert_eq!(Operation::Confirm(s("id_1"), s("a=1")).body(), Some(s("a=1")));
    assert_eq!(Operation::Create(s(" ")).body(), Some(s(" ")));
}

#[test]
fn operations_without_payload_have_no_body() {
    assert_eq!(Operation::Retrieve(s("id_1")).body(), None);
    assert_eq!(Operation::Cancel(s("id_1")).body(), None);
    assert_eq!(Operation::Capture(s("id_1")).body(), None);
    assert_eq!(Operation::Close(s("id_1")).body(), None);
}

#[test]
fn list_with_an_empty_query_is_a_bare_get() {
    let request = Operation::List(s("")).materialize(BASE, "sk_test");
    assert_eq!(request.method, Method::Get);
    assert_eq!(request.url, BASE);
    assert_eq!(request.body, None);
    assert_eq!(request.username, "sk_test");
    assert_eq!(request.content_type, "application/x-www-form-urlencoded");
}

#[test]
fn list_with_a_query_carries_it() {
    let request = Operation::List(s("limit=3")).materialize(BASE, "sk_test");
    assert_eq!(request.method, Method::Get);
    assert_eq!(request.url, BASE);
    assert_eq!(request.body, Some(s("limit=3")));
}

#[test]
fn content_type_is_always_set() {
    assert_eq!(FORM_URLENCODED, "application/x-www-form-urlencoded");
    for operation in all_operations() {
        let request = operation.materialize(BASE, "sk_test");
        assert_eq!(request.content_type, FORM_URLENCODED);
        assert_eq!(request.username, "sk_test");
        assert_eq!(request.method, operation.method());
        assert_eq!(request.url, operation.url(BASE));
        assert_eq!(request.body, operation.body());
    }
}

#[test]
fn same_operation_gives_the_same_request() {
    let a = Operation::Confirm(s("pi_1"), s("x=1")).materialize(BASE, "key");
    let b = Operation::Confirm(s("pi_1"), s("x=1")).materialize(BASE, "key");
    assert_eq!(format!("{:?}", a), format!("{:?}", b));
}

#[test]
fn entry_points_serve_what_fits_them() {
    for operation in all_operations() {
        let (send, get, list) = match operation {
            Operation::Retrieve(_) => (false, true, false),
            Operation::List(_) => (false, false, true),
            _ => (true, false, false),
        };
        assert_eq!(operation.served_by(EntryPoint::Send), send, "{:?}", operation);
        assert_eq!(operation.served_by(EntryPoint::Get), get, "{:?}", operation);
        assert_eq!(operation.served_by(EntryPoint::GetList), list, "{:?}", operation);
    }
}

#[test]
fn single_object_call_on_a_list_is_refused() {
    let refused = prepare(EntryPoint::Get, &Operation::List(s("limit=3")), BASE, "key");
    assert!(matches!(refused, Err(ClientError::Incompatible)));
    let refused = prepare(EntryPoint::Send, &Operation::List(s("limit=3")), BASE, "key");
    assert!(matches!(refused, Err(ClientError::Incompatible)));
    let refused = prepare(EntryPoint::Send, &Operation::Retrieve(s("id")), BASE, "key");
    assert!(matches!(refused, Err(ClientError::Incompatible)));
    let refused = prepare(EntryPoint::GetList, &Operation::Retrieve(s("id")), BASE, "key");
    assert!(matches!(refused, Err(ClientError::Incompatible)));
    let refused = prepare(EntryPoint::Get, &Operation::Create(s("a=1")), BASE, "key");
    assert!(matches!(refused, Err(ClientError::Incompatible)));
}

#[test]
fn fitting_call_is_prepared() {
    let request = prepare(EntryPoint::Send, &Operation::Capture(s("pi_1")), BASE, "key").unwrap();
    assert_eq!(request.method, Method::Post);
    assert_eq!(request.url, "https://api.stripe.com/v1/things/pi_1/capture");
    assert_eq!(request.body, None);
    let request = prepare(EntryPoint::Get, &Operation::Retrieve(s("pi_1")), BASE, "key").unwrap();
    assert_eq!(request.method, Method::Get);
    assert_eq!(request.url, "https://api.stripe.com/v1/things/pi_1");
    let request = prepare(EntryPoint::GetList, &Operation::List(s("")), BASE, "key").unwrap();
    assert_eq!(request.method, Method::Get);
    assert_eq!(request.body, None);
}

#[test]
fn resources_live_at_their_addresses() {
    assert_eq!(Resource::BalanceTransaction.base_url(), "https://api.stripe.com/v1/balance_transactions");
    assert_eq!(Resource::Dispute.base_url(), "https://api.stripe.com/v1/disputes");
    assert_eq!(Resource::Mandate.base_url(), "https://api.stripe.com/v1/mandates");
    assert_eq!(Resource::PaymentIntent.base_url(), "https://api.stripe.com/v1/payment_intents");
    assert_eq!(Resource::Payout.base_url(), "https://api.stripe.com/v1/payouts");
    assert_eq!(Resource::Refund.base_url(), "https://api.stripe.com/v1/refunds");
}

#[test]
fn resources_know_their_operations() {
    let known = |resource: Resource| -> Vec<bool> {
        all_operations().iter().map(|operation| resource.supports(operation)).collect()
    };
    // create, retrieve, update, list, cancel, reverse, confirm, capture, close
    assert_eq!(known(Resource::BalanceTransaction), [false, true, false, true, false, false, false, false, false]);
    assert_eq!(known(Resource::Dispute), [false, true, true, true, false, false, false, false, true]);
    assert_eq!(known(Resource::Mandate), [false, true, false, false, false, false, false, false, false]);
    assert_eq!(known(Resource::PaymentIntent), [true, true, true, true, true, false, true, true, false]);
    assert_eq!(known(Resource::Payout), [true, true, true, true, true, true, false, false, false]);
    assert_eq!(known(Resource::Refund), [true, true, true, true, true, true, false, false, false]);
}

#[test]
fn resource_refuses_what_it_does_not_know() {
    let refused = Resource::Payout.request(EntryPoint::Send, &Operation::Close(s("po_1")), "key");
    assert!(matches!(refused, Err(ClientError::Incompatible)));
    let refused = Resource::Mandate.request(EntryPoint::GetList, &Operation::List(s("")), "key");
    assert!(matches!(refused, Err(ClientError::Incompatible)));
    let refused = Resource::Dispute.request(EntryPoint::Get, &Operation::Close(s("dp_1")), "key");
    assert!(matches!(refused, Err(ClientError::Incompatible)));
    let request = Resource::Dispute.request(EntryPoint::Send, &Operation::Close(s("dp_1")), "key").unwrap();
    assert_eq!(request.method, Method::Post);
    assert_eq!(request.url, "https://api.stripe.com/v1/disputes/dp_1/close");
    assert_eq!(request.username, "key");
}
