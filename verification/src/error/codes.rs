//! Wire strings of the error codes, one constant per code.
//!
//! [Official Stripe error code list](https://stripe.com/docs/error-codes)

use vstd::prelude::*;

verus! {

pub const ACCOUNT_COUNTRY_INVALID_ADDRESS: &'static str = "account_country_invalid_address";

pub const ACCOUNT_ERROR_COUNTRY_CHANGE_REQUIRES_ADDITIONAL_STEPS: &'static str = "account_error_country_change_requires_additional_steps";

pub const ACCOUNT_INFORMATION_MISMATCH: &'static str = "account_information_mismatch";

pub const ACCOUNT_INVALID: &'static str = "account_invalid";

pub const ACCOUNT_NUMBER_INVALID: &'static str = "account_number_invalid";

pub const ACSS_DEBIT_SESSION_INCOMPLETE: &'static str = "acss_debit_session_incomplete";

pub const ALIPAY_UPGRADE_REQUIRED: &'static str = "alipay_upgrade_required";

pub const AMOUNT_TOO_LARGE: &'static str = "amount_too_large";

pub const AMOUNT_TOO_SMALL: &'static str = "amount_too_small";

pub const API_KEY_EXPIRED: &'static str = "api_key_expired";

pub const AUTHENTICATION_REQUIRED: &'static str = "authentication_required";

pub const BALANCE_INSUFFICIENT: &'static str = "balance_insufficient";

pub const BANK_ACCOUNT_BAD_ROUTING_NUMBERS: &'static str = "bank_account_bad_routing_numbers";

pub const BANK_ACCOUNT_DECLINED: &'static str = "bank_account_declined";

pub const BANK_ACCOUNT_EXISTS: &'static str = "bank_account_exists";

pub const BANK_ACCOUNT_RESTRICTED: &'static str = "bank_account_restricted";

pub const BANK_ACCOUNT_UNUSABLE: &'static str = "bank_account_unusable";

pub const BANK_ACCOUNT_UNVERIFIED: &'static str = "bank_account_unverified";

pub const BANK_ACCOUNT_VERIFICATION_FAILED: &'static str = "bank_account_verification_failed";

pub const BILLING_INVALID_MANDATE: &'static str = "billing_invalid_mandate";

pub const BITCOIN_UPGRADE_REQUIRED: &'static str = "bitcoin_upgrade_required";

pub const CARD_DECLINE_RATE_LIMIT_EXCEEDED: &'static str = "card_decline_rate_limit_exceeded";

pub const CARD_DECLINED: &'static str = "card_declined";

pub const CARDHOLDER_PHONE_NUMBER_REQUIRED: &'static str = "cardholder_phone_number_required";

pub const CHARGE_ALREADY_CAPTURED: &'static str = "charge_already_captured";

pub const CHARGE_ALREADY_REFUNDED: &'static str = "charge_already_refunded";

pub const CHARGE_DISPUTED: &'static str = "charge_disputed";

pub const CHARGE_EXCEEDS_SOURCE_LIMIT: &'static str = "charge_exceeds_source_limit";

pub const CHARGE_EXPIRED_FOR_CAPTURE: &'static str = "charge_expired_for_capture";

pub const CHARGE_INVALID_PARAMTER: &'static str = "charge_invalid_parameter";

pub const CLEARING_CODE_UNSUPPORTED: &'static str = "clearing_code_unsupported";

pub const COUNTRY_CODE_INVALID: &'static str = "country_code_invalid";

pub const COUNTRY_UNSUPPORTED: &'static str = "country_unsupported";

pub const COUPON_EXPIRED: &'static str = "coupon_expired";

pub const CUSTOMER_MAX_PAYMENT_METHODS: &'static str = "customer_max_payment_methods";

pub const CUSTOMER_MAX_SUBSCRIPTIONS: &'static str = "customer_max_subscriptions";

pub const DEBIT_NOT_AUTHORIZED: &'static str = "debit_not_authorized";

pub const EMAIL_INVALID: &'static str = "email_invalid";

pub const EXPIRED_CARD: &'static str = "expired_card";

pub const IDEMPOTENCY_KEY_IN_USE: &'static str = "idempotency_key_in_use";

pub const INCORRECT_ADDRESS: &'static str = "incorrect_address";

pub const INCORRECT_CVC: &'static str = "incorrect_cvc";

pub const INCORRECT_NUMBER: &'static str = "incorrect_number";

pub const INCORRECT_ZIP: &'static str = "incorrect_zip";

pub const INSTANT_PAYOUTS_CONFIG_DISABLED: &'static str = "instant_payouts_config_disabled";

pub const INSTANT_PAYOUTS_CURRENCY_DISABLED: &'static str = "instant_payouts_currency_disabled";

pub const INSTANT_PAYOUTS_LIMIT_EXCEEDED: &'static str = "instant_payouts_limit_exceeded";

pub const INSTANT_PAYOUTS_UNSUPPORTED: &'static str = "instant_payouts_unsupported";

pub const INSUFFICIENT_FUNDS: &'static str = "insufficient_funds";

pub const INTENT_INVALID_STATE: &'static str = "intent_invalid_state";

pub const INTENT_VERIFICATION_METHOD_MISSING: &'static str = "intent_verification_method_missing";

pub const INVALID_CARD_TYPE: &'static str = "invalid_card_type";

pub const INVALID_CHARACTERS: &'static str = "invalid_characters";

pub const INVALID_CHARGE_AMOUNT: &'static str = "invalid_charge_amount";

pub const INVALID_CVC: &'static str = "invalid_cvc";

pub const INVALID_EXPIRY_MONTH: &'static str = "invalid_expiry_month";

pub const INVALID_EXPIRY_YEAR: &'static str = "invalid_expiry_year";

pub const INVALID_NUMBER: &'static str = "invalid_number";

pub const INVALID_SOURCE_USAGE: &'static str = "invalid_source_usage";

pub const INVOICE_NO_CUSTOMER_LINE_ITEMS: &'static str = "invoice_no_customer_line_items";

pub const INVOICE_NO_PAYMENT_METHOD_TYPES: &'static str = "invoice_no_payment_method_types";

pub const INVOICE_NO_SUBSCRIPTION_LINE_ITEMS: &'static str = "invoice_no_subscription_line_items";

pub const INVOICE_NOT_EDITABLE: &'static str = "invoice_not_editable";

pub const INVOICE_ON_BEHALF_OF_NOT_EDITABLE: &'static str = "invoice_on_behalf_of_not_editable";

pub const INVOICE_PAYMENT_INTENT_REQUIRES_ACTION: &'static str = "invoice_payment_intent_requires_action";

pub const INVOICE_UPCOMING_NONE: &'static str = "invoice_upcoming_none";

pub const LIVEMODE_MISMATCH: &'static str = "livemode_mismatch";

pub const LOCK_TIMEOUT: &'static str = "lock_timeout";

pub const MISSING: &'static str = "missing";

pub const NO_ACCOUNT: &'static str = "no_account";

pub const NOT_ALLOWED_ON_STANDARD_ACCOUNT: &'static str = "not_allowed_on_standard_account";

pub const OUT_OF_INVENTORY: &'static str = "out_of_inventory";

pub const OWNERSHIP_DECLARATION_NOT_ALLOWED: &'static str = "ownership_declaration_not_allowed";

pub const PARAMETER_INVALID_EMPTY: &'static str = "parameter_invalid_empty";

pub const PARAMETER_INVALID_INTEGER: &'static str = "parameter_invalid_integer";

pub const PARAMETER_INVALID_STRING_BLANK: &'static str = "parameter_invalid_string_blank";

pub const PARAMETER_INVALID_STRING_EMPTY: &'static str = "parameter_invalid_string_empty";

pub const PARAMETER_MISSING: &'static str = "parameter_missing";

pub const PARAMETER_UNKNOWN: &'static str = "paremeter_unknown";

pub const PARAMETERS_EXCLUSIVE: &'static str = "parameters_exclusive";

pub const PAYMENT_INTENT_ACTION_REQUIRED: &'static str = "payment_intent_action_required";

pub const PAYMENT_INTENT_AUTHENTICATION_FAILURE: &'static str = "payment_intent_authentication_required";

pub const PAYMENT_INTENT_INCOMPATIBLE_PAYMENT_METHOD: &'static str = "payment_intent_incompatible_payment_method";

pub const PAYMENT_INTENT_INVALID_PARAMETER: &'static str = "payment_intent_invalid_parameter";

pub const PAYMENT_INTENT_KONBINI_REJECTED_CONFIRMATION_NUMBER: &'static str = "payment_intent_konbini_rejected_confirmation_number";

pub const PAYMENT_INTENT_MANDATE_INVALID: &'static str = "payment_intent_mandate_invalid";

pub const PAYMENT_INTENT_PAYMENT_ATTEMPT_EXPIRED: &'static str = "payment_intent_payment_attempt_expired";

pub const PAYMENT_INTENT_PAYMENT_ATTEMPT_FAILED: &'static str = "payment_intent_payment_attempt_failed";

pub const PAYMENT_INTENT_UNEXPECTED_STATE: &'static str = "payment_intent_unexpected_state";

pub const PAYMENT_METHOD_BANK_ACCOUNT_ALREADY_VERIFIED: &'static str = "payment_method_bank_account_already_verified";

pub const PAYMENT_METHOD_BANK_ACCOUNT_BLOCKED: &'static str = "payment_method_bank_account_blocked";

pub const PAYMENT_METHOD_BILLING_DETAILS_ADDRESS_MISSING: &'static str = "payment_method_billing_details_address_missing";

pub const PAYMENT_METHOD_CURRENCY_MISMATCH: &'static str = "payment_method_currency_mismatch";

pub const PAYMENT_METHOD_CUSTOMER_DECLINE: &'static str = "payment_method_customer_decline";

pub const PAYMENT_METHOD_INVALID_PARAMETER: &'static str = "payment_method_invalid_parameter";

pub const PAYMENT_METHOD_INVALID_PARAMETER_TESTMODE: &'static str = "payment_method_invalid_parameter_testmode";

pub const PAYMENT_METHOD_MICRODEPOSIT_FAILED: &'static str = "payment_method_microdeposit_failed";

pub const PAYMENT_METHOD_MICRODEPOSIT_VERIFICATION_AMOUNTS_INVALID: &'static str = "payment_method_microdeposit_verification_amounts_invalid";

pub const PAYMENT_METHOD_MICRODEPOSIT_VERIFICATION_AMOUNTS_MISMATCH: &'static str = "payment_method_microdeposit_verification_amounts_mismatch";

pub const PAYMENT_METHOD_MICRODEPOSIT_VERIFICATION_ATTEMPTS_EXCEEDED: &'static str = "payment_method_microdeposit_verification_attempts_exceeded";

pub const PAYMENT_METHOD_MICRODEPOSIT_VERIFICATION_DESCRIPTOR_CODE_MISMATCH: &'static str = "payment_method_microdeposit_verification_descriptor_code_mismatch";

pub const PAYMENT_METHOD_MICRODEPOSIT_VERIFICATION_TIMEOUT: &'static str = "payment_method_microdeposit_verification_timeout";

pub const PAYMENT_METHOD_PROVIDER_DECLINE: &'static str = "payment_method_provider_decline";

pub const PAYMENT_METHOD_PROVIDER_TIMEOUT: &'static str = "payment_method_provider_timeout";

pub const PAYMENT_METHOD_UNACTIVATED: &'static str = "payment_method_unactivated";

pub const PAYMENT_METHOD_UNEXPECTED_STATE: &'static str = "payment_method_unexpected_state";

pub const PAYMENT_METHOD_UNSUPPORTED_TYPE: &'static str = "payment_method_unsupported_type";

pub const PAYOUTS_NOT_ALLOWED: &'static str = "payouts_not_allowed";

pub const PLATFORM_ACCOUNT_REQUIRED: &'static str = "platform_account_required";

pub const PLATFORM_API_KEY_EXPIRED: &'static str = "platform_api_key_expired";

pub const POSTAL_CODE_INVALID: &'static str = "postal_code_invalid";

pub const PROCESSING_ERROR: &'static str = "processing_error";

pub const PRODUCT_INACTIVE: &'static str = "product_inactive";

pub const RATE_LIMIT: &'static str = "rate_limit";

pub const REFER_TO_CUSTOMER: &'static str = "refer_to_customer";

pub const REFUND_DISPUTED_PAYMENT: &'static str = "refund_disputed_payment";

pub const RESOURCE_ALREADY_EXISTS: &'static str = "resource_already_exists";

pub const RESOURCE_MISSING: &'static str = "resource_missing";

pub const RETURN_INTENT_ALREADY_PROCESSED: &'static str = "return_intent_already_processed";

pub const ROUTING_NUMBER_INVALID: &'static str = "routing_number_invalid";

pub const SECRET_KEY_REQUIRED: &'static str = "secret_key_required";

pub const SEPA_UNSUPPORTED_ACCOUNT: &'static str = "sepa_unsupported_account";

pub const SETUP_ATTEMPT_FAILED: &'static str = "setup_attempt_failed";

pub const SETUP_INTENT_AUTHENTICATION_FAILURE: &'static str = "setup_intent_authentication_failure";

pub const SETUP_INTENT_INVALID_PARAMETER: &'static str = "setup_intent_invalid_parameter";

pub const SETUP_INTENT_SETUP_ATTEMPT_EXPIRED: &'static str = "setup_intent_setup_attempt_expired";

pub const SETUP_INTENT_UNEXPECTED_STATE: &'static str = "setup_intent_unexpected_state";

pub const SHIPPING_CALCULATION_FAILED: &'static str = "shipping_calculation_failed";

pub const SKU_INACTIVE: &'static str = "sku_inactive";

pub const STATE_UNSUPPORTED: &'static str = "state_unsupported";

pub const STATUS_TRANSITION_INVALID: &'static str = "status_transition_invalid";

pub const TAX_ID_INVALID: &'static str = "tax_id_invalid";

pub const TAXES_CALCULATION_FAILED: &'static str = "taxes_calculation_failed";

pub const TERMINAL_LOCATION_COUNTRY_UNSUPPORTED: &'static str = "terminal_location_country_unsupported";

pub const TESTMODE_CHARGES_ONLY: &'static str = "testmode_charges_only";

pub const TLS_VERSION_UNSUPPORTED: &'static str = "tls_version_unsupported";

pub const TOKEN_ALREADY_USED: &'static str = "token_already_used";

pub const TOKEN_IN_USE: &'static str = "token_in_use";

pub const TRANSFER_SOURCE_BALANCE_PARAMETERS_MISMATCH: &'static str = "transfer_source_balance_parameters_mismatch";

pub const TRANSFERS_NOT_ALLOWED: &'static str = "transfers_not_allowed";

pub const URL_INVALID: &'static str = "url_invalid";

} // verus!
