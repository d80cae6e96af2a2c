//! The client: the secret key, and a request for every call that the
//! API offers.

use vstd::prelude::*;

verus! {

/// Use `Client::new("SECRET_KEY")` to create a new `Client`.
///
/// Tip: Store this client in a lifetime variable to reuse it.
#[derive(Debug)]
pub struct Client {
    /// The Stripe API uses API keys to authenticate requests.
    /// You can view and manage your API keys in the [Stripe Dashboard](https://stripe.com/login?redirect=/account/apikeys).
    pub secret_key: String,
}

impl Client {
    /// Create a new `Client`.
    pub fn new(secret_key: &str) -> (client: Self)
        ensures
            client.secret_key@ == secret_key@,
    {
        Client { secret_key: secret_key.to_owned() }
    }

    /// The payload that an optional body stands for: an absent body is
    /// an empty one.
    pub open spec fn spec_payload(body: Option<String>) -> Seq<char> {
        match body {
            Some(text) => text@,
            None => Seq::empty(),
        }
    }

    fn payload(body: Option<String>) -> (text: String)
        ensures
            text@ == Client::spec_payload(body),
    {
        match body {
            Some(text) => text,
            None => String::new(),
        }
    }

    /// A request for the balance of the account.
    pub fn retrieve_balance(&self) -> (info: crate::balance::Info)
        ensures
            info.secret_key@ == self.secret_key@,
    {
        crate::balance::Info { secret_key: self.secret_key.clone() }
    }

    /// # Arguments
    ///
    /// * `id` - The unique ID of this mandate
    pub fn retrieve_mandate(&self, id: String) -> (info: crate::mandate::Info)
        ensures
            info.id == id,
            info.secret_key@ == self.secret_key@,
    {
        crate::mandate::Info { id, secret_key: self.secret_key.clone() }
    }

    /// # Arguments
    ///
    /// * `id` - The unique ID you received when you created it
    pub fn retrieve_balance_transaction(&self, id: String) -> (info: crate::balance_transaction::Info)
        ensures
            info.kind == crate::balance_transaction::Types::RETRIEVE(id),
            info.secret_key@ == self.secret_key@,
    {
        crate::balance_transaction::Info {
            kind: crate::balance_transaction::Types::RETRIEVE(id),
            secret_key: self.secret_key.clone(),
        }
    }

    /// # Arguments
    ///
    /// * `body` - The content that provides details for Stripe, e.g. B. Currency
    pub fn list_balance_transaction(&self, body: String) -> (info: crate::balance_transaction::Info)
        ensures
            info.kind == crate::balance_transaction::Types::LIST(body),
            info.secret_key@ == self.secret_key@,
    {
        crate::balance_transaction::Info {
            kind: crate::balance_transaction::Types::LIST(body),
            secret_key: self.secret_key.clone(),
        }
    }

    /// # Arguments
    ///
    /// * `id` - The unique ID you received when you created it
    pub fn retrieve_dispute(&self, id: String) -> (info: crate::dispute::Info)
        ensures
            info.kind == crate::dispute::Types::RETRIEVE(id),
            info.secret_key@ == self.secret_key@,
    {
        crate::dispute::Info {
            kind: crate::dispute::Types::RETRIEVE(id),
            secret_key: self.secret_key.clone(),
        }
    }

    /// # Arguments
    ///
    /// * `id` - The unique ID you received when you created it
    /// * `body` - The content that provides details for Stripe, e.g. B. Currency
    pub fn update_dispute(&self, id: String, body: String) -> (info: crate::dispute::Info)
        ensures
            info.kind == crate::dispute::Types::UPDATE(id, body),
            info.secret_key@ == self.secret_key@,
    {
        crate::dispute::Info {
            kind: crate::dispute::Types::UPDATE(id, body),
            secret_key: self.secret_key.clone(),
        }
    }

    /// # Arguments
    ///
    /// * `id` - The unique ID you received when you created it
    pub fn close_dispute(&self, id: String) -> (info: crate::dispute::Info)
        ensures
            info.kind == crate::dispute::Types::CLOSE(id),
            info.secret_key@ == self.secret_key@,
    {
        crate::dispute::Info {
            kind: crate::dispute::Types::CLOSE(id),
            secret_key: self.secret_key.clone(),
        }
    }

    /// # Arguments
    ///
    /// * `body` - The content that provides details for Stripe, e.g. B. Currency
    pub fn list_dispute(&self, body: String) -> (info: crate::dispute::Info)
        ensures
            info.kind == crate::dispute::Types::LIST(body),
            info.secret_key@ == self.secret_key@,
    {
        crate::dispute::Info {
            kind: crate::dispute::Types::LIST(body),
            secret_key: self.secret_key.clone(),
        }
    }

    /// # Arguments
    ///
    /// * `body` - The content that provides details for Stripe, e.g. B. Currency
    pub fn create_payment_intent(&self, body: String) -> (info: crate::payment_intent::Info)
        ensures
            info.kind == crate::payment_intent::Types::CREATE(body),
            info.secret_key@ == self.secret_key@,
    {
        crate::payment_intent::Info {
            kind: crate::payment_intent::Types::CREATE(body),
            secret_key: self.secret_key.clone(),
        }
    }

    /// # Arguments
    ///
    /// * `id` - The unique ID you received when you created it
    pub fn retrieve_payment_intent(&self, id: String) -> (info: crate::payment_intent::Info)
        ensures
            info.kind == crate::payment_intent::Types::RETRIEVE(id),
            info.secret_key@ == self.secret_key@,
    {
        crate::payment_intent::Info {
            kind: crate::payment_intent::Types::RETRIEVE(id),
            secret_key: self.secret_key.clone(),
        }
    }

    /// # Arguments
    ///
    /// * `id` - The unique ID you received when you created it
    /// * `body` - The content that provides details for Stripe, e.g. B. Currency
    pub fn confirm_payment_intent(&self, id: String, body: Option<String>) -> (info: crate::payment_intent::Info)
        ensures
            info.kind matches crate::payment_intent::Types::CONFIRM(to, payload) && to == id && payload@
                == Client::spec_payload(body),
            info.secret_key@ == self.secret_key@,
    {
        crate::payment_intent::Info {
            kind: crate::payment_intent::Types::CONFIRM(id, Client::payload(body)),
            secret_key: self.secret_key.clone(),
        }
    }

    /// # Arguments
    ///
    /// * `id` - The unique ID you received when you created it
    pub fn cancel_payment_intent(&self, id: String) -> (info: crate::payment_intent::Info)
        ensures
            info.kind == crate::payment_intent::Types::CANCEL(id),
            info.secret_key@ == self.secret_key@,
    {
        crate::payment_intent::Info {
            kind: crate::payment_intent::Types::CANCEL(id),
            secret_key: self.secret_key.clone(),
        }
    }

    /// # Arguments
    ///
    /// * `id` - The unique ID you received when you created it
    /// * `body` - The content that provides details for Stripe, e.g. B. Currency
    pub fn update_payment_intent(&self, id: String, body: String) -> (info: crate::payment_intent::Info)
        ensures
            info.kind == crate::payment_intent::Types::UPDATE(id, body),
            info.secret_key@ == self.secret_key@,
    {
        crate::payment_intent::Info {
            kind: crate::payment_intent::Types::UPDATE(id, body),
            secret_key: self.secret_key.clone(),
        }
    }

    /// # Arguments
    ///
    /// * `id` - The unique ID you received when you created it
    pub fn capture_payment_intent(&self, id: String) -> (info: crate::payment_intent::Info)
        ensures
            info.kind == crate::payment_intent::Types::CAPTURE(id),
            info.secret_key@ == self.secret_key@,
    {
        crate::payment_intent::Info {
            kind: crate::payment_intent::Types::CAPTURE(id),
            secret_key: self.secret_key.clone(),
        }
    }

    /// # Arguments
    ///
    /// * `body` - The content that provides details for Stripe, e.g. B. Currency
    pub fn list_payment_intent(&self, body: String) -> (info: crate::payment_intent::Info)
        ensures
            info.kind == crate::payment_intent::Types::LIST(body),
            info.secret_key@ == self.secret_key@,
    {
        crate::payment_intent::Info {
            kind: crate::payment_intent::Types::LIST(body),
            secret_key: self.secret_key.clone(),
        }
    }

    /// # Arguments
    ///
    /// * `body` - The content that provides details for Stripe, e.g. B. Currency
    pub fn create_payout(&self, body: String) -> (info: crate::payout::Info)
        ensures
            info.kind == crate::payout::Types::CREATE(body),
            info.secret_key@ == self.secret_key@,
    {
        crate::payout::Info {
            kind: crate::payout::Types::CREATE(body),
            secret_key: self.secret_key.clone(),
        }
    }

    /// # Arguments
    ///
    /// * `id` - The unique ID you received when you created it
    pub fn retrieve_payout(&self, id: String) -> (info: crate::payout::Info)
        ensures
            info.kind == crate::payout::Types::RETRIEVE(id),
            info.secret_key@ == self.secret_key@,
    {
        crate::payout::Info {
            kind: crate::payout::Types::RETRIEVE(id),
            secret_key: self.secret_key.clone(),
        }
    }

    /// # Arguments
    ///
    /// * `id` - The unique ID you received when you created it
    /// * `body` - The content that provides details for Stripe, e.g. B. Currency
    pub fn update_payout(&self, id: String, body: String) -> (info: crate::payout::Info)
        ensures
            info.kind == crate::payout::Types::UPDATE(id, body),
            info.secret_key@ == self.secret_key@,
    {
        crate::payout::Info {
            kind: crate::payout::Types::UPDATE(id, body),
            secret_key: self.secret_key.clone(),
        }
    }

    /// # Arguments
    ///
    /// * `body` - The content that provides details for Stripe, e.g. B. Currency
    pub fn list_payout(&self, body: String) -> (info: crate::payout::Info)
        ensures
            info.kind == crate::payout::Types::LIST(body),
            info.secret_key@ == self.secret_key@,
    {
        crate::payout::Info {
            kind: crate::payout::Types::LIST(body),
            secret_key: self.secret_key.clone(),
        }
    }

    /// # Arguments
    ///
    /// * `id` - The unique ID you received when you created it
    pub fn cancel_payout(&self, id: String) -> (info: crate::payout::Info)
        ensures
            info.kind == crate::payout::Types::CANCEL(id),
            info.secret_key@ == self.secret_key@,
    {
        crate::payout::Info {
            kind: crate::payout::Types::CANCEL(id),
            secret_key: self.secret_key.clone(),
        }
    }

    /// # Arguments
    ///
    /// * `id` - The unique ID you received when you created it
    /// * `body` - The content that provides details for Stripe, e.g. B. Currency
    pub fn reverse_payout(&self, id: String, body: Option<String>) -> (info: crate::payout::Info)
        ensures
            info.kind matches crate::payout::Types::REVERSE(to, payload) && to == id && payload@
                == Client::spec_payload(body),
            info.secret_key@ == self.secret_key@,
    {
        crate::payout::Info {
            kind: crate::payout::Types::REVERSE(id, Client::payload(body)),
            secret_key: self.secret_key.clone(),
        }
    }

    /// # Arguments
    ///
    /// * `body` - The content that provides details for Stripe, e.g. B. Currency
    pub fn create_refund(&self, body: String) -> (info: crate::refund::Info)
        ensures
            info.kind == crate::refund::Types::CREATE(body),
            info.secret_key@ == self.secret_key@,
    {
        crate::refund::Info {
            kind: crate::refund::Types::CREATE(body),
            secret_key: self.secret_key.clone(),
        }
    }

    /// # Arguments
    ///
    /// * `id` - The unique ID you received when you created it
    pub fn retrieve_refund(&self, id: String) -> (info: crate::refund::Info)
        ensures
            info.kind == crate::refund::Types::RETRIEVE(id),
            info.secret_key@ == self.secret_key@,
    {
        crate::refund::Info {
            kind: crate::refund::Types::RETRIEVE(id),
            secret_key: self.secret_key.clone(),
        }
    }

    /// # Arguments
    ///
    /// * `id` - The unique ID you received when you created it
    /// * `body` - The content that provides details for Stripe, e.g. B. Currency
    pub fn update_refund(&self, id: String, body: String) -> (info: crate::refund::Info)
        ensures
            info.kind == crate::refund::Types::UPDATE(id, body),
            info.secret_key@ == self.secret_key@,
    {
        crate::refund::Info {
            kind: crate::refund::Types::UPDATE(id, body),
            secret_key: self.secret_key.clone(),
        }
    }

    /// # Arguments
    ///
    /// * `body` - The content that provides details for Stripe, e.g. B. Currency
    pub fn list_refund(&self, body: String) -> (info: crate::refund::Info)
        ensures
            info.kind == crate::refund::Types::LIST(body),
            info.secret_key@ == self.secret_key@,
    {
        crate::refund::Info {
            kind: crate::refund::Types::LIST(body),
            secret_key: self.secret_key.clone(),
        }
    }

    /// # Arguments
    ///
    /// * `id` - The unique ID you received when you created it
    pub fn cancel_refund(&self, id: String) -> (info: crate::refund::Info)
        ensures
            info.kind == crate::refund::Types::CANCEL(id),
            info.secret_key@ == self.secret_key@,
    {
        crate::refund::Info {
            kind: crate::refund::Types::CANCEL(id),
            secret_key: self.secret_key.clone(),
        }
    }

    /// # Arguments
    ///
    /// * `id` - The unique ID you received when you created it
    /// * `body` - The content that provides details for Stripe, e.g. B. Currency
    pub fn reverse_refund(&self, id: String, body: Option<String>) -> (info: crate::refund::Info)
        ensures
            info.kind matches crate::refund::Types::REVERSE(to, payload) && to == id && payload@
                == Client::spec_payload(body),
            info.secret_key@ == self.secret_key@,
    {
        crate::refund::Info {
            kind: crate::refund::Types::REVERSE(id, Client::payload(body)),
            secret_key: self.secret_key.clone(),
        }
    }
}

} // verus!
