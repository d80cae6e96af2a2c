use ezstripe::error::{Codes, HTTPCodes, Types};

const WIRE_STRINGS: [&str; 141] = [
    "account_country_invalid_address",
    "account_error_country_change_requires_additional_steps",
    "account_information_mismatch",
    "account_invalid",
    "account_number_invalid",
    "acss_debit_session_incomplete",
    "alipay_upgrade_required",
    "amount_too_large",
    "amount_too_small",
    "api_key_expired",
    "authentication_required",
    "balance_insufficient",
    "bank_account_bad_routing_numbers",
    "bank_account_declined",
    "bank_account_exists",
    "bank_account_restricted",
    "bank_account_unusable",
    "bank_account_unverified",
    "bank_account_verification_failed",
    "billing_invalid_mandate",
    "bitcoin_upgrade_required",
    "card_decline_rate_limit_exceeded",
    "card_declined",
    "cardholder_phone_number_required",
    "charge_already_captured",
    "charge_already_refunded",
    "charge_disputed",
    "charge_exceeds_source_limit",
    "charge_expired_for_capture",
    "charge_invalid_parameter",
    "clearing_code_unsupported",
    "country_code_invalid",
    "country_unsupported",
    "coupon_expired",
    "customer_max_payment_methods",
    "customer_max_subscriptions",
    "debit_not_authorized",
    "email_invalid",
    "expired_card",
    "idempotency_key_in_use",
    "incorrect_address",
    "incorrect_cvc",
    "incorrect_number",
    "incorrect_zip",
    "instant_payouts_config_disabled",
    "instant_payouts_currency_disabled",
    "instant_payouts_limit_exceeded",
    "instant_payouts_unsupported",
    "insufficient_funds",
    "intent_invalid_state",
    "intent_verification_method_missing",
    "invalid_card_type",
    "invalid_characters",
    "invalid_charge_amount",
    "invalid_cvc",
    "invalid_expiry_month",
    "invalid_expiry_year",
    "invalid_number",
    "invalid_source_usage",
    "invoice_no_customer_line_items",
    "invoice_no_payment_method_types",
    "invoice_no_subscription_line_items",
    "invoice_not_editable",
    "invoice_on_behalf_of_not_editable",
    "invoice_payment_intent_requires_action",
    "invoice_upcoming_none",
    "livemode_mismatch",
    "lock_timeout",
    "missing",
    "no_account",
    "not_allowed_on_standard_account",
    "out_of_inventory",
    "ownership_declaration_not_allowed",
    "parameter_invalid_empty",
    "parameter_invalid_integer",
    "parameter_invalid_string_blank",
    "parameter_invalid_string_empty",
    "parameter_missing",
    "paremeter_unknown",
    "parameters_exclusive",
    "payment_intent_action_required",
    "payment_intent_authentication_required",
    "payment_intent_incompatible_payment_method",
    "payment_intent_invalid_parameter",
    "payment_intent_konbini_rejected_confirmation_number",
    "payment_intent_mandate_invalid",
    "payment_intent_payment_attempt_expired",
    "payment_intent_payment_attempt_failed",
    "payment_intent_unexpected_state",
    "payment_method_bank_account_already_verified",
    "payment_method_bank_account_blocked",
    "payment_method_billing_details_address_missing",
    "payment_method_currency_mismatch",
    "payment_method_customer_decline",
    "payment_method_invalid_parameter",
    "payment_method_invalid_parameter_testmode",
    "payment_method_microdeposit_failed",
    "payment_method_microdeposit_verification_amounts_invalid",
    "payment_method_microdeposit_verification_amounts_mismatch",
    "payment_method_microdeposit_verification_attempts_exceeded",
    "payment_method_microdeposit_verification_descriptor_code_mismatch",
    "payment_method_microdeposit_verification_timeout",
    "payment_method_provider_decline",
    "payment_method_provider_timeout",
    "payment_method_unactivated",
    "payment_method_unexpected_state",
    "payment_method_unsupported_type",
    "payouts_not_allowed",
    "platform_account_required",
    "platform_api_key_expired",
    "postal_code_invalid",
    "processing_error",
    "product_inactive",
    "rate_limit",
    "refer_to_customer",
    "refund_disputed_payment",
    "resource_already_exists",
    "resource_missing",
    "return_intent_already_processed",
    "routing_number_invalid",
    "secret_key_required",
    "sepa_unsupported_account",
    "setup_attempt_failed",
    "setup_intent_authentication_failure",
    "setup_intent_invalid_parameter",
    "setup_intent_setup_attempt_expired",
    "setup_intent_unexpected_state",
    "shipping_calculation_failed",
    "sku_inactive",
    "state_unsupported",
    "status_transition_invalid",
    "tax_id_invalid",
    "taxes_calculation_failed",
    "terminal_location_country_unsupported",
    "testmode_charges_only",
    "tls_version_unsupported",
    "token_already_used",
    "token_in_use",
    "transfer_source_balance_parameters_mismatch",
    "transfers_not_allowed",
    "url_invalid",
];

#[test]
fn every_known_code_round_trips() {
    for wire in WIRE_STRINGS {
        let code = Codes::from_str(wire);
        assert_ne!(code, Codes::Unrecognized, "{}", wire);
        assert_eq!(code.original_str(), wire);
    }
}

#[test]
fn known_codes_are_told_apart() {
    for (i, a) in WIRE_STRINGS.iter().enumerate() {
        for b in WIRE_STRINGS.iter().skip(i + 1) {
            assert_ne!(Codes::from_str(a), Codes::from_str(b), "{} and {}", a, b);
        }
    }
}

#[test]
fn known_code_is_read_and_written() {
    assert_eq!(Codes::from_str("card_declined"), Codes::CardDeclined);
    assert_eq!(Codes::CardDeclined.original_str(), "card_declined");
    assert_eq!(Codes::from_str("insufficient_funds"), Codes::InsufficientFunds);
    assert_eq!(Codes::from_str("resource_missing"), Codes::ResourceMissing);
    assert_eq!(Codes::from_str("account_country_invalid_address"), Codes::AccountCountryInvalidAddress);
    assert_eq!(Codes::from_str("url_invalid"), Codes::UrlInvalid);
    assert_eq!(Codes::UrlInvalid.original_str(), "url_invalid");
}

#[test]
fn unknown_code_is_the_fallback() {
    assert_eq!(Codes::from_str("no_such_code"), Codes::Unrecognized);
    assert_eq!(Codes::from_str(""), Codes::Unrecognized);
    assert_eq!(Codes::from_str("CARD_DECLINED"), Codes::Unrecognized);
    assert_eq!(Codes::from_str("card_declined "), Codes::Unrecognized);
    assert_eq!(Codes::from_str("card_decline"), Codes::Unrecognized);
    assert_eq!(Codes::from_str("d\u{e9}clin\u{e9}"), Codes::Unrecognized);
    assert_eq!(Codes::Unrecognized.original_str(), "");
}

#[test]
fn error_types_round_trip() {
    assert_eq!(Types::from_str("api_error"), Types::API);
    assert_eq!(Types::from_str("card_error"), Types::Card);
    assert_eq!(Types::from_str("idempotency_error"), Types::Idempotency);
    assert_eq!(Types::from_str("invalid_request_error"), Types::InvalidRequest);
    for wire in ["api_error", "card_error", "idempotency_error", "invalid_request_error"] {
        assert_eq!(Types::from_str(wire).original_str(), wire);
    }
}

#[test]
fn unknown_error_type_is_the_fallback() {
    assert_eq!(Types::from_str("no_such_type"), Types::Unrecognized);
    assert_eq!(Types::from_str(""), Types::Unrecognized);
    assert_eq!(Types::from_str("card_declined"), Types::Unrecognized);
    assert_eq!(Types::Unrecognized.original_str(), "");
}

#[test]
fn documented_statuses_have_their_class() {
    assert_eq!(HTTPCodes::from_status(200), HTTPCodes::Success);
    assert_eq!(HTTPCodes::from_status(400), HTTPCodes::BadRequest);
    assert_eq!(HTTPCodes::from_status(401), HTTPCodes::Unauthorized);
    assert_eq!(HTTPCodes::from_status(402), HTTPCodes::RequestFailed);
    assert_eq!(HTTPCodes::from_status(403), HTTPCodes::Forbidden);
    assert_eq!(HTTPCodes::from_status(404), HTTPCodes::NotFound);
    assert_eq!(HTTPCodes::from_status(409), HTTPCodes::Conflict);
    assert_eq!(HTTPCodes::from_status(429), HTTPCodes::TooManyRequests);
    for status in [500, 502, 503, 504] {
        assert_eq!(HTTPCodes::from_status(status), HTTPCodes::ServerError(status));
    }
}

#[test]
fn other_statuses_are_kept_by_the_fallback() {
    assert_eq!(HTTPCodes::from_status(418), HTTPCodes::Unrecognized(418));
    assert_eq!(HTTPCodes::from_status(0), HTTPCodes::Unrecognized(0));
    assert_eq!(HTTPCodes::from_status(201), HTTPCodes::Unrecognized(201));
    assert_eq!(HTTPCodes::from_status(501), HTTPCodes::Unrecognized(501));
    assert_eq!(HTTPCodes::from_status(65535), HTTPCodes::Unrecognized(65535));
}

#[test]
fn every_status_keeps_its_number() {
    for status in 0..=u16::MAX {
        let class = HTTPCodes::from_status(status);
        assert_eq!(class.original_u16(), status);
        assert_eq!(HTTPCodes::from_status(class.original_u16()), class);
    }
}

#[test]
fn each_class_stands_for_its_status() {
    assert_eq!(HTTPCodes::Success.original_u16(), 200);
    assert_eq!(HTTPCodes::BadRequest.original_u16(), 400);
    assert_eq!(HTTPCodes::Unauthorized.original_u16(), 401);
    assert_eq!(HTTPCodes::RequestFailed.original_u16(), 402);
    assert_eq!(HTTPCodes::Forbidden.original_u16(), 403);
    assert_eq!(HTTPCodes::NotFound.original_u16(), 404);
    assert_eq!(HTTPCodes::Conflict.original_u16(), 409);
    assert_eq!(HTTPCodes::TooManyRequests.original_u16(), 429);
    assert_eq!(HTTPCodes::ServerError(503).original_u16(), 503);
    assert_eq!(HTTPCodes::Unrecognized(307).original_u16(), 307);
}
