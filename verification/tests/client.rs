use ezstripe::helper::ClientError;
use ezstripe::operation::{Method, Operation};
use ezstripe::{balance_transaction, dispute, payment_intent, payout, refund, Client};

fn s(value: &str) -> String {
    value.to_string()
}

#[test]
fn client_keeps_its_key() {
    let client = Client::new("sk_test_1");
    assert_eq!(client.secret_key, "sk_test_1");
    assert_eq!(client.retrieve_balance().secret_key, "sk_test_1");
    assert_eq!(client.create_payout(s("amount=1")).secret_key, "sk_test_1");
}

#[test]
fn clients_do_not_share_their_keys() {
    let a = Client::new("sk_a");
    let b = Client::new("sk_b");
    assert_eq!(a.list_refund(s("")).get().unwrap().username, "sk_a");
    assert_eq!(b.list_refund(s("")).get().unwrap().username, "sk_b");
}

#[test]
fn balance_is_a_bare_get() {
    let request = Client::new("key").retrieve_balance().get();
    assert_eq!(request.method, Method::Get);
    assert_eq!(request.url, "https://api.stripe.com/v1/balance");
    assert_eq!(request.username, "key");
    assert_eq!(request.content_type, "application/x-www-form-urlencoded");
    assert_eq!(request.body, None);
}

#[test]
fn mandate_is_retrieved_by_its_id() {
    let info = Client::new("key").retrieve_mandate(s("mandate_1"));
    assert_eq!(info.id, "mandate_1");
    let request = info.get();
    assert_eq!(request.method, Method::Get);
    assert_eq!(request.url, "https://api.stripe.com/v1/mandates/mandate_1");
    assert_eq!(request.body, None);
}

#[test]
fn payment_intent_requests() {
    let client = Client::new("key");
    let request = client.create_payment_intent(s("amount=1500;currency=eur;")).send().unwrap();
    assert_eq!(request.method, Method::Post);
    assert_eq!(request.url, "https://api.stripe.com/v1/payment_intents");
    assert_eq!(request.body, Some(s("amount=1500;currency=eur;")));

    let request = client.retrieve_payment_intent(s("pi_1")).get().unwrap();
    assert_eq!(request.method, Method::Get);
    assert_eq!(request.url, "https://api.stripe.com/v1/payment_intents/pi_1");
    assert_eq!(request.body, None);

    let request = client.confirm_payment_intent(s("pi_1"), None).send().unwrap();
    assert_eq!(request.url, "https://api.stripe.com/v1/payment_intents/pi_1/confirm");
    assert_eq!(request.body, None);
    let request = client.confirm_payment_intent(s("pi_1"), Some(s("a=1"))).send().unwrap();
    assert_eq!(request.body, Some(s("a=1")));

    let request = client.cancel_payment_intent(s("pi_1")).send().unwrap();
    assert_eq!(request.method, Method::Post);
    assert_eq!(request.url, "https://api.stripe.com/v1/payment_intents/pi_1");
    assert_eq!(request.body, None);

    let request = client.update_payment_intent(s("pi_1"), s("metadata[order_id]=2;")).send().unwrap();
    assert_eq!(request.url, "https://api.stripe.com/v1/payment_intents/pi_1");
    assert_eq!(request.body, Some(s("metadata[order_id]=2;")));

    let request = client.capture_payment_intent(s("pi_1")).send().unwrap();
    assert_eq!(request.url, "https://api.stripe.com/v1/payment_intents/pi_1/capture");

    let request = client.list_payment_intent(s("limit=3;")).get_list().unwrap();
    assert_eq!(request.method, Method::Get);
    assert_eq!(request.url, "https://api.stripe.com/v1/payment_intents");
    assert_eq!(request.body, Some(s("limit=3;")));
}

#[test]
fn entry_point_that_does_not_fit_is_refused() {
    let client = Client::new("key");
    assert!(matches!(client.retrieve_payment_intent(s("pi_1")).send(), Err(ClientError::Incompatible)));
    assert!(matches!(client.list_payment_intent(s("")).send(), Err(ClientError::Incompatible)));
    assert!(matches!(client.list_payment_intent(s("")).get(), Err(ClientError::Incompatible)));
    assert!(matches!(client.create_payment_intent(s("")).get(), Err(ClientError::Incompatible)));
    assert!(matches!(client.retrieve_payment_intent(s("pi_1")).get_list(), Err(ClientError::Incompatible)));
    assert!(matches!(client.create_payout(s("")).get_list(), Err(ClientError::Incompatible)));
    assert!(matches!(client.retrieve_dispute(s("dp_1")).send(), Err(ClientError::Incompatible)));
    assert!(matches!(client.list_balance_transaction(s("")).get(), Err(ClientError::Incompatible)));
    assert!(matches!(client.retrieve_balance_transaction(s("txn_1")).get_list(), Err(ClientError::Incompatible)));
    assert!(matches!(client.create_refund(s("")).get(), Err(ClientError::Incompatible)));
    assert!(matches!(client.retrieve_refund(s("re_1")).send(), Err(ClientError::Incompatible)));
}

#[test]
fn payout_requests() {
    let client = Client::new("key");
    let request = client.create_payout(s("amount=1500;")).send().unwrap();
    assert_eq!(request.url, "https://api.stripe.com/v1/payouts");
    assert_eq!(request.method, Method::Post);
    let request = client.retrieve_payout(s("po_1")).get().unwrap();
    assert_eq!(request.url, "https://api.stripe.com/v1/payouts/po_1");
    let request = client.update_payout(s("po_1"), s("a=1")).send().unwrap();
    assert_eq!(request.url, "https://api.stripe.com/v1/payouts/po_1");
    assert_eq!(request.body, Some(s("a=1")));
    let request = client.list_payout(s("")).get_list().unwrap();
    assert_eq!(request.url, "https://api.stripe.com/v1/payouts");
    assert_eq!(request.body, None);
    let request = client.cancel_payout(s("po_1")).send().unwrap();
    assert_eq!(request.url, "https://api.stripe.com/v1/payouts/po_1");
    assert_eq!(request.body, None);
    let request = client.reverse_payout(s("po_1"), None).send().unwrap();
    assert_eq!(request.url, "https://api.stripe.com/v1/payouts/po_1");
    assert_eq!(request.body, None);
    let request = client.reverse_payout(s("po_1"), Some(s("a=1"))).send().unwrap();
    assert_eq!(request.body, Some(s("a=1")));
}

#[test]
fn dispute_requests() {
    let client = Client::new("key");
    let request = client.retrieve_dispute(s("dp_1")).get().unwrap();
    assert_eq!(request.url, "https://api.stripe.com/v1/disputes/dp_1");
    let request = client.update_dispute(s("dp_1"), s("a=1")).send().unwrap();
    assert_eq!(request.url, "https://api.stripe.com/v1/disputes/dp_1");
    assert_eq!(request.method, Method::Post);
    let request = client.close_dispute(s("dp_1")).send().unwrap();
    assert_eq!(request.url, "https://api.stripe.com/v1/disputes/dp_1/close");
    assert_eq!(request.body, None);
    let request = client.list_dispute(s("limit=3;")).get_list().unwrap();
    assert_eq!(request.url, "https://api.stripe.com/v1/disputes");
    assert_eq!(request.method, Method::Get);
}

#[test]
fn refund_requests() {
    let client = Client::new("key");
    let request = client.create_refund(s("charge=ch_1")).send().unwrap();
    assert_eq!(request.url, "https://api.stripe.com/v1/refunds");
    assert_eq!(request.body, Some(s("charge=ch_1")));
    let request = client.retrieve_refund(s("re_1")).get().unwrap();
    assert_eq!(request.url, "https://api.stripe.com/v1/refunds/re_1");
    assert_eq!(request.method, Method::Get);
    let request = client.list_refund(s("limit=3;")).get().unwrap();
    assert_eq!(request.url, "https://api.stripe.com/v1/refunds");
    assert_eq!(request.method, Method::Get);
    let request = client.update_refund(s("re_1"), s("a=1")).send().unwrap();
    assert_eq!(request.url, "https://api.stripe.com/v1/refunds/re_1");
    let request = client.cancel_refund(s("re_1")).send().unwrap();
    assert_eq!(request.url, "https://api.stripe.com/v1/refunds/re_1");
    let request = client.reverse_refund(s("re_1"), Some(s("a=1"))).send().unwrap();
    assert_eq!(request.body, Some(s("a=1")));
}

#[test]
fn balance_transaction_requests() {
    let client = Client::new("key");
    let request = client.retrieve_balance_transaction(s("txn_1")).get().unwrap();
    assert_eq!(request.url, "https://api.stripe.com/v1/balance_transactions/txn_1");
    let request = client.list_balance_transaction(s("")).get_list().unwrap();
    assert_eq!(request.url, "https://api.stripe.com/v1/balance_transactions");
    assert_eq!(request.body, None);
}

#[test]
fn request_kinds_give_their_address_and_body() {
    assert_eq!(payout::Types::CANCEL(s("po_1"))._get_url(), "https://api.stripe.com/v1/payouts/po_1");
    assert_eq!(payout::Types::CANCEL(s("po_1"))._get_body(), None);
    assert_eq!(payout::Types::CREATE(s(""))._get_body(), None);
    assert_eq!(payout::Types::CREATE(s("a=1"))._get_body(), Some(s("a=1")));
    assert_eq!(dispute::Types::CLOSE(s("dp_1"))._get_url(), "https://api.stripe.com/v1/disputes/dp_1/close");
    assert_eq!(dispute::Types::LIST(s("limit=1"))._get_body(), Some(s("limit=1")));
    assert_eq!(refund::Types::LIST(s(""))._get_url(), "https://api.stripe.com/v1/refunds");
    assert_eq!(refund::Types::REVERSE(s("re_1"), s(""))._get_body(), None);
    assert_eq!(payment_intent::Types::CONFIRM(s("pi_1"), s(""))._get_url(), "https://api.stripe.com/v1/payment_intents/pi_1/confirm");
    assert_eq!(balance_transaction::Types::RETRIEVE(s("txn_1"))._get_body(), None);
    assert_eq!(balance_transaction::Types::LIST(s("limit=1"))._get_url(), "https://api.stripe.com/v1/balance_transactions");
}

#[test]
fn request_kinds_stand_for_operations() {
    assert!(matches!(payout::Types::REVERSE(s("po_1"), s("a=1")).operation(), Operation::Reverse(id, body) if id == "po_1" && body == "a=1"));
    assert!(matches!(dispute::Types::CLOSE(s("dp_1")).operation(), Operation::Close(id) if id == "dp_1"));
    assert!(matches!(payment_intent::Types::CAPTURE(s("pi_1")).operation(), Operation::Capture(id) if id == "pi_1"));
    assert!(matches!(refund::Types::CREATE(s("a=1")).operation(), Operation::Create(body) if body == "a=1"));
    assert!(matches!(balance_transaction::Types::LIST(s("q")).operation(), Operation::List(query) if query == "q"));
}

#[test]
fn get_and_send_requests_of_a_kind() {
    let request = payout::Types::CREATE(s("a=1")).create_send_request("key").unwrap();
    assert_eq!(request.method, Method::Post);
    assert!(matches!(payout::Types::CREATE(s("a=1")).create_get_request("key"), Err(ClientError::Incompatible)));
    let request = payout::Types::LIST(s("")).create_get_request("key").unwrap();
    assert_eq!(request.method, Method::Get);
    assert!(matches!(payout::Types::LIST(s("")).create_send_request("key"), Err(ClientError::Incompatible)));
    let request = dispute::Types::RETRIEVE(s("dp_1")).create_get_request("key").unwrap();
    assert_eq!(request.url, "https://api.stripe.com/v1/disputes/dp_1");
    let request = balance_transaction::Types::RETRIEVE(s("txn_1")).create_get_request("key").unwrap();
    assert_eq!(request.username, "key");
}

#[test]
fn first_entry_points_of_payment_intents() {
    let request = payment_intent::create::Info { body: s("amount=1") }.go("key");
    assert_eq!(request.method, Method::Post);
    assert_eq!(request.url, "https://api.stripe.com/v1/payment_intents");
    assert_eq!(request.body, Some(s("amount=1")));
    let request = payment_intent::retrieve::Info { id: s("pi_1") }.send("key");
    assert_eq!(request.method, Method::Get);
    assert_eq!(request.url, "https://api.stripe.com/v1/payment_intents/pi_1");
    let request = payment_intent::cancel::Info { id: s("pi_1") }.send("key");
    assert_eq!(request.method, Method::Post);
    assert_eq!(request.url, "https://api.stripe.com/v1/payment_intents/pi_1");
    assert_eq!(request.body, None);
}
