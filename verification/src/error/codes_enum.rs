//! The error codes and their two-way mapping to the wire strings.

use vstd::prelude::*;
use crate::text::str_eq;
use super::codes;

verus! {

/// All available error codes from 01/08/2023
///
/// [Official Stripe error code list](https://stripe.com/docs/error-codes)
#[derive(Clone, Copy, Debug, PartialEq, Eq, Structural)]
pub enum Codes {
    /// The code was absent, or is one this client does not know.
    Unrecognized,
    AccountCountryInvalidAddress,
    AccountErrorCountryChangeRequiresAdditionalSteps,
    AccountInformationMismatch,
    AccountInvalid,
    AccountNumberInvalid,
    AcssDebitSessionIncomplete,
    AlipayUpgradeRequired,
    AmountTooLarge,
    AmountTooSmall,
    ApiKeyExpired,
    AuthenticationRequired,
    BalanceInsufficient,
    BankAccountBadRoutingNumbers,
    BankAccountDeclined,
    BankAccountExists,
    BankAccountRestricted,
    BankAccountUnusable,
    BankAccountUnverified,
    BankAccountVerificationFailed,
    BillingInvalidMandate,
    BitcoinUpgradeRequired,
    CardDeclineRateLimitExceeded,
    CardDeclined,
    CardholderPhoneNumberRequired,
    ChargeAlreadyCaptured,
    ChargeAlreadyRefunded,
    ChargeDisputed,
    ChargeExceedsSourceLimit,
    ChargeExpiredForCapture,
    ChargeInvalidParamter,
    ClearingCodeUnsupported,
    CountryCodeInvalid,
    CountryUnsupported,
    CouponExpired,
    CustomerMaxPaymentMethods,
    CustomerMaxSubscriptions,
    DebitNotAuthorized,
    EmailInvalid,
    ExpiredCard,
    IdempotencyKeyInUse,
    IncorrectAddress,
    IncorrectCVC,
    IncorrectNumber,
    IncorrectZip,
    InstantPayoutsConfigDisabled,
    InstantPayoutsCurrencyDisabled,
    InstantPayoutsLimitExceeded,
    InstantPayoutsUnsupported,
    InsufficientFunds,
    IntentInvalidState,
    IntentVerificationMethodMissing,
    InvalidCardType,
    InvalidCharacters,
    InvalidChargeAmount,
    InvalidCVC,
    InvalidExpiryMonth,
    InvalidExpiryYear,
    InvalidNumber,
    InvalidSourceUsage,
    InvoiceNoCustomerLineItems,
    InvoiceNoPaymentMethodTypes,
    InvoiceNoSubscriptionLineItems,
    InvoiceNotEditable,
    InvoiceOnBehalfOfNotEditable,
    InvoicePaymentIntentRequiresAction,
    InvoiceUpcomingNone,
    LivemodeMismatch,
    LockTimeout,
    Missing,
    NoAccount,
    NotAllowedOnStandardAccount,
    OutOfInventory,
    OwnershipDeclarationNotAllowed,
    ParameterInvalidEmpty,
    ParameterInvalidInteger,
    ParameterInvalidStringBlank,
    ParameterInvalidStringEmpty,
    ParameterMissing,
    ParameterUnknown,
    ParametersExclusive,
    PaymentIntentActionRequired,
    PaymentIntentAuthenticationFailure,
    PaymentIntentIncompatiblePaymentMethod,
    PaymentIntentInvalidParameter,
    PaymentIntentKonbiniRejectedConfirmationNumber,
    PaymentIntentMandateInvalid,
    PaymentIntentPaymentAttemptExpired,
    PaymentIntentPaymentAttemptFailed,
    PaymentIntentUnexpectedState,
    PaymentMethodBankAccountAlreadyVerified,
    PaymentMethodBankAccountBlocked,
    PaymentMethodBillingDetailsAddressMissing,
    PaymentMethodCurrencyMismatch,
    PaymentMethodCustomerDecline,
    PaymentMethodInvalidParameter,
    PaymentMethodInvalidParameterTestmode,
    PaymentMethodMicrodepositFailed,
    PaymentMethodMicrodepositVerificationAmountsInvalid,
    PaymentMethodMicrodepositVerificationAmountsMismatch,
    PaymentMethodMicrodepositVerificationAttemptsExceeded,
    PaymentMethodMicrodepositVerificationDescriptorCodeMismatch,
    PaymentMethodMicrodepositVerificationTimeout,
    PaymentMethodProviderDecline,
    PaymentMethodProviderTimeout,
    PaymentMethodUnactivated,
    PaymentMethodUnexpectedState,
    PaymentMethodUnsupportedType,
    PayoutsNotAllowed,
    PlatformAccountRequired,
    PlatformApiKeyExpired,
    PostalCodeInvalid,
    ProcessingError,
    ProductInactive,
    RateLimit,
    ReferToCustomer,
    RefundDisputedPayment,
    ResourceAlreadyExists,
    ResourceMissing,
    ReturnIntentAlreadyProcessed,
    RoutingNumberInvalid,
    SecretKeyRequired,
    SepaUnsupportedAccount,
    SetupAttemptFailed,
    SetupIntentAuthenticationFailure,
    SetupIntentInvalidParameter,
    SetupIntentSetupAttemptExpired,
    SetupIntentUnexpectedState,
    ShippingCalculationFailed,
    SkuInactive,
    StateUnsupported,
    StatusTransitionInvalid,
    TaxIdInvalid,
    TaxesCalculationFailed,
    TerminalLocationCountryUnsupported,
    TestmodeChargesOnly,
    TlsVersionUnsupported,
    TokenAlreadyUsed,
    TokenInUse,
    TransferSourceBalanceParametersMismatch,
    TransfersNotAllowed,
    UrlInvalid,
}

impl Codes {
    /// Whether this is one of the codes of the table, and not the fallback.
    pub open spec fn is_listed(self) -> bool {
        !(self is Unrecognized)
    }

    /// The wire string of each code; the fallback has the empty string.
    pub open spec fn wire(self) -> Seq<char> {
        match self {
            Codes::AccountCountryInvalidAddress => codes::ACCOUNT_COUNTRY_INVALID_ADDRESS@,
            Codes::AccountErrorCountryChangeRequiresAdditionalSteps => codes::ACCOUNT_ERROR_COUNTRY_CHANGE_REQUIRES_ADDITIONAL_STEPS@,
            Codes::AccountInformationMismatch => codes::ACCOUNT_INFORMATION_MISMATCH@,
            Codes::AccountInvalid => codes::ACCOUNT_INVALID@,
            Codes::AccountNumberInvalid => codes::ACCOUNT_NUMBER_INVALID@,
            Codes::AcssDebitSessionIncomplete => codes::ACSS_DEBIT_SESSION_INCOMPLETE@,
            Codes::AlipayUpgradeRequired => codes::ALIPAY_UPGRADE_REQUIRED@,
            Codes::AmountTooLarge => codes::AMOUNT_TOO_LARGE@,
            Codes::AmountTooSmall => codes::AMOUNT_TOO_SMALL@,
            Codes::ApiKeyExpired => codes::API_KEY_EXPIRED@,
            Codes::AuthenticationRequired => codes::AUTHENTICATION_REQUIRED@,
            Codes::BalanceInsufficient => codes::BALANCE_INSUFFICIENT@,
            Codes::BankAccountBadRoutingNumbers => codes::BANK_ACCOUNT_BAD_ROUTING_NUMBERS@,
            Codes::BankAccountDeclined => codes::BANK_ACCOUNT_DECLINED@,
            Codes::BankAccountExists => codes::BANK_ACCOUNT_EXISTS@,
            Codes::BankAccountRestricted => codes::BANK_ACCOUNT_RESTRICTED@,
            Codes::BankAccountUnusable => codes::BANK_ACCOUNT_UNUSABLE@,
            Codes::BankAccountUnverified => codes::BANK_ACCOUNT_UNVERIFIED@,
            Codes::BankAccountVerificationFailed => codes::BANK_ACCOUNT_VERIFICATION_FAILED@,
            Codes::BillingInvalidMandate => codes::BILLING_INVALID_MANDATE@,
            Codes::BitcoinUpgradeRequired => codes::BITCOIN_UPGRADE_REQUIRED@,
            Codes::CardDeclineRateLimitExceeded => codes::CARD_DECLINE_RATE_LIMIT_EXCEEDED@,
            Codes::CardDeclined => codes::CARD_DECLINED@,
            Codes::CardholderPhoneNumberRequired => codes::CARDHOLDER_PHONE_NUMBER_REQUIRED@,
            Codes::ChargeAlreadyCaptured => codes::CHARGE_ALREADY_CAPTURED@,
            Codes::ChargeAlreadyRefunded => codes::CHARGE_ALREADY_REFUNDED@,
            Codes::ChargeDisputed => codes::CHARGE_DISPUTED@,
            Codes::ChargeExceedsSourceLimit => codes::CHARGE_EXCEEDS_SOURCE_LIMIT@,
            Codes::ChargeExpiredForCapture => codes::CHARGE_EXPIRED_FOR_CAPTURE@,
            Codes::ChargeInvalidParamter => codes::CHARGE_INVALID_PARAMTER@,
            Codes::ClearingCodeUnsupported => codes::CLEARING_CODE_UNSUPPORTED@,
            Codes::CountryCodeInvalid => codes::COUNTRY_CODE_INVALID@,
            Codes::CountryUnsupported => codes::COUNTRY_UNSUPPORTED@,
            Codes::CouponExpired => codes::COUPON_EXPIRED@,
            Codes::CustomerMaxPaymentMethods => codes::CUSTOMER_MAX_PAYMENT_METHODS@,
            Codes::CustomerMaxSubscriptions => codes::CUSTOMER_MAX_SUBSCRIPTIONS@,
            Codes::DebitNotAuthorized => codes::DEBIT_NOT_AUTHORIZED@,
            Codes::EmailInvalid => codes::EMAIL_INVALID@,
            Codes::ExpiredCard => codes::EXPIRED_CARD@,
            Codes::IdempotencyKeyInUse => codes::IDEMPOTENCY_KEY_IN_USE@,
            Codes::IncorrectAddress => codes::INCORRECT_ADDRESS@,
            Codes::IncorrectCVC => codes::INCORRECT_CVC@,
            Codes::IncorrectNumber => codes::INCORRECT_NUMBER@,
            Codes::IncorrectZip => codes::INCORRECT_ZIP@,
            Codes::InstantPayoutsConfigDisabled => codes::INSTANT_PAYOUTS_CONFIG_DISABLED@,
            Codes::InstantPayoutsCurrencyDisabled => codes::INSTANT_PAYOUTS_CURRENCY_DISABLED@,
            Codes::InstantPayoutsLimitExceeded => codes::INSTANT_PAYOUTS_LIMIT_EXCEEDED@,
            Codes::InstantPayoutsUnsupported => codes::INSTANT_PAYOUTS_UNSUPPORTED@,
            Codes::InsufficientFunds => codes::INSUFFICIENT_FUNDS@,
            Codes::IntentInvalidState => codes::INTENT_INVALID_STATE@,
            Codes::IntentVerificationMethodMissing => codes::INTENT_VERIFICATION_METHOD_MISSING@,
            Codes::InvalidCardType => codes::INVALID_CARD_TYPE@,
            Codes::InvalidCharacters => codes::INVALID_CHARACTERS@,
            Codes::InvalidChargeAmount => codes::INVALID_CHARGE_AMOUNT@,
            Codes::InvalidCVC => codes::INVALID_CVC@,
            Codes::InvalidExpiryMonth => codes::INVALID_EXPIRY_MONTH@,
            Codes::InvalidExpiryYear => codes::INVALID_EXPIRY_YEAR@,
            Codes::InvalidNumber => codes::INVALID_NUMBER@,
            Codes::InvalidSourceUsage => codes::INVALID_SOURCE_USAGE@,
            Codes::InvoiceNoCustomerLineItems => codes::INVOICE_NO_CUSTOMER_LINE_ITEMS@,
            Codes::InvoiceNoPaymentMethodTypes => codes::INVOICE_NO_PAYMENT_METHOD_TYPES@,
            Codes::InvoiceNoSubscriptionLineItems => codes::INVOICE_NO_SUBSCRIPTION_LINE_ITEMS@,
            Codes::InvoiceNotEditable => codes::INVOICE_NOT_EDITABLE@,
            Codes::InvoiceOnBehalfOfNotEditable => codes::INVOICE_ON_BEHALF_OF_NOT_EDITABLE@,
            Codes::InvoicePaymentIntentRequiresAction => codes::INVOICE_PAYMENT_INTENT_REQUIRES_ACTION@,
            Codes::InvoiceUpcomingNone => codes::INVOICE_UPCOMING_NONE@,
            Codes::LivemodeMismatch => codes::LIVEMODE_MISMATCH@,
            Codes::LockTimeout => codes::LOCK_TIMEOUT@,
            Codes::Missing => codes::MISSING@,
            Codes::NoAccount => codes::NO_ACCOUNT@,
            Codes::NotAllowedOnStandardAccount => codes::NOT_ALLOWED_ON_STANDARD_ACCOUNT@,
            Codes::OutOfInventory => codes::OUT_OF_INVENTORY@,
            Codes::OwnershipDeclarationNotAllowed => codes::OWNERSHIP_DECLARATION_NOT_ALLOWED@,
            Codes::ParameterInvalidEmpty => codes::PARAMETER_INVALID_EMPTY@,
            Codes::ParameterInvalidInteger => codes::PARAMETER_INVALID_INTEGER@,
            Codes::ParameterInvalidStringBlank => codes::PARAMETER_INVALID_STRING_BLANK@,
            Codes::ParameterInvalidStringEmpty => codes::PARAMETER_INVALID_STRING_EMPTY@,
            Codes::ParameterMissing => codes::PARAMETER_MISSING@,
            Codes::ParameterUnknown => codes::PARAMETER_UNKNOWN@,
            Codes::ParametersExclusive => codes::PARAMETERS_EXCLUSIVE@,
            Codes::PaymentIntentActionRequired => codes::PAYMENT_INTENT_ACTION_REQUIRED@,
            Codes::PaymentIntentAuthenticationFailure => codes::PAYMENT_INTENT_AUTHENTICATION_FAILURE@,
            Codes::PaymentIntentIncompatiblePaymentMethod => codes::PAYMENT_INTENT_INCOMPATIBLE_PAYMENT_METHOD@,
            Codes::PaymentIntentInvalidParameter => codes::PAYMENT_INTENT_INVALID_PARAMETER@,
            Codes::PaymentIntentKonbiniRejectedConfirmationNumber => codes::PAYMENT_INTENT_KONBINI_REJECTED_CONFIRMATION_NUMBER@,
            Codes::PaymentIntentMandateInvalid => codes::PAYMENT_INTENT_MANDATE_INVALID@,
            Codes::PaymentIntentPaymentAttemptExpired => codes::PAYMENT_INTENT_PAYMENT_ATTEMPT_EXPIRED@,
            Codes::PaymentIntentPaymentAttemptFailed => codes::PAYMENT_INTENT_PAYMENT_ATTEMPT_FAILED@,
            Codes::PaymentIntentUnexpectedState => codes::PAYMENT_INTENT_UNEXPECTED_STATE@,
            Codes::PaymentMethodBankAccountAlreadyVerified => codes::PAYMENT_METHOD_BANK_ACCOUNT_ALREADY_VERIFIED@,
            Codes::PaymentMethodBankAccountBlocked => codes::PAYMENT_METHOD_BANK_ACCOUNT_BLOCKED@,
            Codes::PaymentMethodBillingDetailsAddressMissing => codes::PAYMENT_METHOD_BILLING_DETAILS_ADDRESS_MISSING@,
            Codes::PaymentMethodCurrencyMismatch => codes::PAYMENT_METHOD_CURRENCY_MISMATCH@,
            Codes::PaymentMethodCustomerDecline => codes::PAYMENT_METHOD_CUSTOMER_DECLINE@,
            Codes::PaymentMethodInvalidParameter => codes::PAYMENT_METHOD_INVALID_PARAMETER@,
            Codes::PaymentMethodInvalidParameterTestmode => codes::PAYMENT_METHOD_INVALID_PARAMETER_TESTMODE@,
            Codes::PaymentMethodMicrodepositFailed => codes::PAYMENT_METHOD_MICRODEPOSIT_FAILED@,
            Codes::PaymentMethodMicrodepositVerificationAmountsInvalid => codes::PAYMENT_METHOD_MICRODEPOSIT_VERIFICATION_AMOUNTS_INVALID@,
            Codes::PaymentMethodMicrodepositVerificationAmountsMismatch => codes::PAYMENT_METHOD_MICRODEPOSIT_VERIFICATION_AMOUNTS_MISMATCH@,
            Codes::PaymentMethodMicrodepositVerificationAttemptsExceeded => codes::PAYMENT_METHOD_MICRODEPOSIT_VERIFICATION_ATTEMPTS_EXCEEDED@,
            Codes::PaymentMethodMicrodepositVerificationDescriptorCodeMismatch => codes::PAYMENT_METHOD_MICRODEPOSIT_VERIFICATION_DESCRIPTOR_CODE_MISMATCH@,
            Codes::PaymentMethodMicrodepositVerificationTimeout => codes::PAYMENT_METHOD_MICRODEPOSIT_VERIFICATION_TIMEOUT@,
            Codes::PaymentMethodProviderDecline => codes::PAYMENT_METHOD_PROVIDER_DECLINE@,
            Codes::PaymentMethodProviderTimeout => codes::PAYMENT_METHOD_PROVIDER_TIMEOUT@,
            Codes::PaymentMethodUnactivated => codes::PAYMENT_METHOD_UNACTIVATED@,
            Codes::PaymentMethodUnexpectedState => codes::PAYMENT_METHOD_UNEXPECTED_STATE@,
            Codes::PaymentMethodUnsupportedType => codes::PAYMENT_METHOD_UNSUPPORTED_TYPE@,
            Codes::PayoutsNotAllowed => codes::PAYOUTS_NOT_ALLOWED@,
            Codes::PlatformAccountRequired => codes::PLATFORM_ACCOUNT_REQUIRED@,
            Codes::PlatformApiKeyExpired => codes::PLATFORM_API_KEY_EXPIRED@,
            Codes::PostalCodeInvalid => codes::POSTAL_CODE_INVALID@,
            Codes::ProcessingError => codes::PROCESSING_ERROR@,
            Codes::ProductInactive => codes::PRODUCT_INACTIVE@,
            Codes::RateLimit => codes::RATE_LIMIT@,
            Codes::ReferToCustomer => codes::REFER_TO_CUSTOMER@,
            Codes::RefundDisputedPayment => codes::REFUND_DISPUTED_PAYMENT@,
            Codes::ResourceAlreadyExists => codes::RESOURCE_ALREADY_EXISTS@,
            Codes::ResourceMissing => codes::RESOURCE_MISSING@,
            Codes::ReturnIntentAlreadyProcessed => codes::RETURN_INTENT_ALREADY_PROCESSED@,
            Codes::RoutingNumberInvalid => codes::ROUTING_NUMBER_INVALID@,
            Codes::SecretKeyRequired => codes::SECRET_KEY_REQUIRED@,
            Codes::SepaUnsupportedAccount => codes::SEPA_UNSUPPORTED_ACCOUNT@,
            Codes::SetupAttemptFailed => codes::SETUP_ATTEMPT_FAILED@,
            Codes::SetupIntentAuthenticationFailure => codes::SETUP_INTENT_AUTHENTICATION_FAILURE@,
            Codes::SetupIntentInvalidParameter => codes::SETUP_INTENT_INVALID_PARAMETER@,
            Codes::SetupIntentSetupAttemptExpired => codes::SETUP_INTENT_SETUP_ATTEMPT_EXPIRED@,
            Codes::SetupIntentUnexpectedState => codes::SETUP_INTENT_UNEXPECTED_STATE@,
            Codes::ShippingCalculationFailed => codes::SHIPPING_CALCULATION_FAILED@,
            Codes::SkuInactive => codes::SKU_INACTIVE@,
            Codes::StateUnsupported => codes::STATE_UNSUPPORTED@,
            Codes::StatusTransitionInvalid => codes::STATUS_TRANSITION_INVALID@,
            Codes::TaxIdInvalid => codes::TAX_ID_INVALID@,
            Codes::TaxesCalculationFailed => codes::TAXES_CALCULATION_FAILED@,
            Codes::TerminalLocationCountryUnsupported => codes::TERMINAL_LOCATION_COUNTRY_UNSUPPORTED@,
            Codes::TestmodeChargesOnly => codes::TESTMODE_CHARGES_ONLY@,
            Codes::TlsVersionUnsupported => codes::TLS_VERSION_UNSUPPORTED@,
            Codes::TokenAlreadyUsed => codes::TOKEN_ALREADY_USED@,
            Codes::TokenInUse => codes::TOKEN_IN_USE@,
            Codes::TransferSourceBalanceParametersMismatch => codes::TRANSFER_SOURCE_BALANCE_PARAMETERS_MISMATCH@,
            Codes::TransfersNotAllowed => codes::TRANSFERS_NOT_ALLOWED@,
            Codes::UrlInvalid => codes::URL_INVALID@,
            Codes::Unrecognized => ""@,
        }
    }

    /// Whether a string is the wire string of a listed code.
    pub open spec fn in_table(s: Seq<char>) -> bool {
        exists|c: Codes| c.is_listed() && #[trigger] c.wire() == s
    }

    /// The code that a wire string stands for: the listed code with that
    /// wire string where there is one, the fallback for every other string.
    pub open spec fn from_wire(s: Seq<char>) -> Codes {
        if Codes::in_table(s) {
            choose|c: Codes| c.is_listed() && #[trigger] c.wire() == s
        } else {
            Codes::Unrecognized
        }
    }

    /// Get the correct enumeration by `input`.
    ///
    /// # Arguments
    ///
    /// * `input` - The "code" value from Stripe's response
    pub fn from_str(input: &str) -> (code: Codes)
        ensures
            code == Codes::from_wire(input@),
    {
        let code = if str_eq(input, codes::ACCOUNT_COUNTRY_INVALID_ADDRESS) {
            Codes::AccountCountryInvalidAddress
        } else if str_eq(input, codes::ACCOUNT_ERROR_COUNTRY_CHANGE_REQUIRES_ADDITIONAL_STEPS) {
            Codes::AccountErrorCountryChangeRequiresAdditionalSteps
        } else if str_eq(input, codes::ACCOUNT_INFORMATION_MISMATCH) {
            Codes::AccountInformationMismatch
        } else if str_eq(input, codes::ACCOUNT_INVALID) {
            Codes::AccountInvalid
        } else if str_eq(input, codes::ACCOUNT_NUMBER_INVALID) {
            Codes::AccountNumberInvalid
        } else if str_eq(input, codes::ACSS_DEBIT_SESSION_INCOMPLETE) {
            Codes::AcssDebitSessionIncomplete
        } else if str_eq(input, codes::ALIPAY_UPGRADE_REQUIRED) {
            Codes::AlipayUpgradeRequired
        } else if str_eq(input, codes::AMOUNT_TOO_LARGE) {
            Codes::AmountTooLarge
        } else if str_eq(input, codes::AMOUNT_TOO_SMALL) {
            Codes::AmountTooSmall
        } else if str_eq(input, codes::API_KEY_EXPIRED) {
            Codes::ApiKeyExpired
        } else if str_eq(input, codes::AUTHENTICATION_REQUIRED) {
            Codes::AuthenticationRequired
        } else if str_eq(input, codes::BALANCE_INSUFFICIENT) {
            Codes::BalanceInsufficient
        } else if str_eq(input, codes::BANK_ACCOUNT_BAD_ROUTING_NUMBERS) {
            Codes::BankAccountBadRoutingNumbers
        } else if str_eq(input, codes::BANK_ACCOUNT_DECLINED) {
            Codes::BankAccountDeclined
        } else if str_eq(input, codes::BANK_ACCOUNT_EXISTS) {
            Codes::BankAccountExists
        } else if str_eq(input, codes::BANK_ACCOUNT_RESTRICTED) {
            Codes::BankAccountRestricted
        } else if str_eq(input, codes::BANK_ACCOUNT_UNUSABLE) {
            Codes::BankAccountUnusable
        } else if str_eq(input, codes::BANK_ACCOUNT_UNVERIFIED) {
            Codes::BankAccountUnverified
        } else if str_eq(input, codes::BANK_ACCOUNT_VERIFICATION_FAILED) {
            Codes::BankAccountVerificationFailed
        } else if str_eq(input, codes::BILLING_INVALID_MANDATE) {
            Codes::BillingInvalidMandate
        } else if str_eq(input, codes::BITCOIN_UPGRADE_REQUIRED) {
            Codes::BitcoinUpgradeRequired
        } else if str_eq(input, codes::CARD_DECLINE_RATE_LIMIT_EXCEEDED) {
            Codes::CardDeclineRateLimitExceeded
        } else if str_eq(input, codes::CARD_DECLINED) {
            Codes::CardDeclined
        } else if str_eq(input, codes::CARDHOLDER_PHONE_NUMBER_REQUIRED) {
            Codes::CardholderPhoneNumberRequired
        } else if str_eq(input, codes::CHARGE_ALREADY_CAPTURED) {
            Codes::ChargeAlreadyCaptured
        } else if str_eq(input, codes::CHARGE_ALREADY_REFUNDED) {
            Codes::ChargeAlreadyRefunded
        } else if str_eq(input, codes::CHARGE_DISPUTED) {
            Codes::ChargeDisputed
        } else if str_eq(input, codes::CHARGE_EXCEEDS_SOURCE_LIMIT) {
            Codes::ChargeExceedsSourceLimit
        } else if str_eq(input, codes::CHARGE_EXPIRED_FOR_CAPTURE) {
            Codes::ChargeExpiredForCapture
        } else if str_eq(input, codes::CHARGE_INVALID_PARAMTER) {
            Codes::ChargeInvalidParamter
        } else if str_eq(input, codes::CLEARING_CODE_UNSUPPORTED) {
            Codes::ClearingCodeUnsupported
        } else if str_eq(input, codes::COUNTRY_CODE_INVALID) {
            Codes::CountryCodeInvalid
        } else if str_eq(input, codes::COUNTRY_UNSUPPORTED) {
            Codes::CountryUnsupported
        } else if str_eq(input, codes::COUPON_EXPIRED) {
            Codes::CouponExpired
        } else if str_eq(input, codes::CUSTOMER_MAX_PAYMENT_METHODS) {
            Codes::CustomerMaxPaymentMethods
        } else if str_eq(input, codes::CUSTOMER_MAX_SUBSCRIPTIONS) {
            Codes::CustomerMaxSubscriptions
        } else if str_eq(input, codes::DEBIT_NOT_AUTHORIZED) {
            Codes::DebitNotAuthorized
        } else if str_eq(input, codes::EMAIL_INVALID) {
            Codes::EmailInvalid
        } else if str_eq(input, codes::EXPIRED_CARD) {
            Codes::ExpiredCard
        } else if str_eq(input, codes::IDEMPOTENCY_KEY_IN_USE) {
            Codes::IdempotencyKeyInUse
        } else if str_eq(input, codes::INCORRECT_ADDRESS) {
            Codes::IncorrectAddress
        } else if str_eq(input, codes::INCORRECT_CVC) {
            Codes::IncorrectCVC
        } else if str_eq(input, codes::INCORRECT_NUMBER) {
            Codes::IncorrectNumber
        } else if str_eq(input, codes::INCORRECT_ZIP) {
            Codes::IncorrectZip
        } else if str_eq(input, codes::INSTANT_PAYOUTS_CONFIG_DISABLED) {
            Codes::InstantPayoutsConfigDisabled
        } else if str_eq(input, codes::INSTANT_PAYOUTS_CURRENCY_DISABLED) {
            Codes::InstantPayoutsCurrencyDisabled
        } else if str_eq(input, codes::INSTANT_PAYOUTS_LIMIT_EXCEEDED) {
            Codes::InstantPayoutsLimitExceeded
        } else if str_eq(input, codes::INSTANT_PAYOUTS_UNSUPPORTED) {
            Codes::InstantPayoutsUnsupported
        } else if str_eq(input, codes::INSUFFICIENT_FUNDS) {
            Codes::InsufficientFunds
        } else if str_eq(input, codes::INTENT_INVALID_STATE) {
            Codes::IntentInvalidState
        } else if str_eq(input, codes::INTENT_VERIFICATION_METHOD_MISSING) {
            Codes::IntentVerificationMethodMissing
        } else if str_eq(input, codes::INVALID_CARD_TYPE) {
            Codes::InvalidCardType
        } else if str_eq(input, codes::INVALID_CHARACTERS) {
            Codes::InvalidCharacters
        } else if str_eq(input, codes::INVALID_CHARGE_AMOUNT) {
            Codes::InvalidChargeAmount
        } else if str_eq(input, codes::INVALID_CVC) {
            Codes::InvalidCVC
        } else if str_eq(input, codes::INVALID_EXPIRY_MONTH) {
            Codes::InvalidExpiryMonth
        } else if str_eq(input, codes::INVALID_EXPIRY_YEAR) {
            Codes::InvalidExpiryYear
        } else if str_eq(input, codes::INVALID_NUMBER) {
            Codes::InvalidNumber
        } else if str_eq(input, codes::INVALID_SOURCE_USAGE) {
            Codes::InvalidSourceUsage
        } else if str_eq(input, codes::INVOICE_NO_CUSTOMER_LINE_ITEMS) {
            Codes::InvoiceNoCustomerLineItems
        } else if str_eq(input, codes::INVOICE_NO_PAYMENT_METHOD_TYPES) {
            Codes::InvoiceNoPaymentMethodTypes
        } else if str_eq(input, codes::INVOICE_NO_SUBSCRIPTION_LINE_ITEMS) {
            Codes::InvoiceNoSubscriptionLineItems
        } else if str_eq(input, codes::INVOICE_NOT_EDITABLE) {
            Codes::InvoiceNotEditable
        } else if str_eq(input, codes::INVOICE_ON_BEHALF_OF_NOT_EDITABLE) {
            Codes::InvoiceOnBehalfOfNotEditable
        } else if str_eq(input, codes::INVOICE_PAYMENT_INTENT_REQUIRES_ACTION) {
            Codes::InvoicePaymentIntentRequiresAction
        } else if str_eq(input, codes::INVOICE_UPCOMING_NONE) {
            Codes::InvoiceUpcomingNone
        } else if str_eq(input, codes::LIVEMODE_MISMATCH) {
            Codes::LivemodeMismatch
        } else if str_eq(input, codes::LOCK_TIMEOUT) {
            Codes::LockTimeout
        } else if str_eq(input, codes::MISSING) {
            Codes::Missing
        } else if str_eq(input, codes::NO_ACCOUNT) {
            Codes::NoAccount
        } else if str_eq(input, codes::NOT_ALLOWED_ON_STANDARD_ACCOUNT) {
            Codes::NotAllowedOnStandardAccount
        } else if str_eq(input, codes::OUT_OF_INVENTORY) {
            Codes::OutOfInventory
        } else if str_eq(input, codes::OWNERSHIP_DECLARATION_NOT_ALLOWED) {
            Codes::OwnershipDeclarationNotAllowed
        } else if str_eq(input, codes::PARAMETER_INVALID_EMPTY) {
            Codes::ParameterInvalidEmpty
        } else if str_eq(input, codes::PARAMETER_INVALID_INTEGER) {
            Codes::ParameterInvalidInteger
        } else if str_eq(input, codes::PARAMETER_INVALID_STRING_BLANK) {
            Codes::ParameterInvalidStringBlank
        } else if str_eq(input, codes::PARAMETER_INVALID_STRING_EMPTY) {
            Codes::ParameterInvalidStringEmpty
        } else if str_eq(input, codes::PARAMETER_MISSING) {
            Codes::ParameterMissing
        } else if str_eq(input, codes::PARAMETER_UNKNOWN) {
            Codes::ParameterUnknown
        } else if str_eq(input, codes::PARAMETERS_EXCLUSIVE) {
            Codes::ParametersExclusive
        } else if str_eq(input, codes::PAYMENT_INTENT_ACTION_REQUIRED) {
            Codes::PaymentIntentActionRequired
        } else if str_eq(input, codes::PAYMENT_INTENT_AUTHENTICATION_FAILURE) {
            Codes::PaymentIntentAuthenticationFailure
        } else if str_eq(input, codes::PAYMENT_INTENT_INCOMPATIBLE_PAYMENT_METHOD) {
            Codes::PaymentIntentIncompatiblePaymentMethod
        } else if str_eq(input, codes::PAYMENT_INTENT_INVALID_PARAMETER) {
            Codes::PaymentIntentInvalidParameter
        } else if str_eq(input, codes::PAYMENT_INTENT_KONBINI_REJECTED_CONFIRMATION_NUMBER) {
            Codes::PaymentIntentKonbiniRejectedConfirmationNumber
        } else if str_eq(input, codes::PAYMENT_INTENT_MANDATE_INVALID) {
            Codes::PaymentIntentMandateInvalid
        } else if str_eq(input, codes::PAYMENT_INTENT_PAYMENT_ATTEMPT_EXPIRED) {
            Codes::PaymentIntentPaymentAttemptExpired
        } else if str_eq(input, codes::PAYMENT_INTENT_PAYMENT_ATTEMPT_FAILED) {
            Codes::PaymentIntentPaymentAttemptFailed
        } else if str_eq(input, codes::PAYMENT_INTENT_UNEXPECTED_STATE) {
            Codes::PaymentIntentUnexpectedState
        } else if str_eq(input, codes::PAYMENT_METHOD_BANK_ACCOUNT_ALREADY_VERIFIED) {
            Codes::PaymentMethodBankAccountAlreadyVerified
        } else if str_eq(input, codes::PAYMENT_METHOD_BANK_ACCOUNT_BLOCKED) {
            Codes::PaymentMethodBankAccountBlocked
        } else if str_eq(input, codes::PAYMENT_METHOD_BILLING_DETAILS_ADDRESS_MISSING) {
            Codes::PaymentMethodBillingDetailsAddressMissing
        } else if str_eq(input, codes::PAYMENT_METHOD_CURRENCY_MISMATCH) {
            Codes::PaymentMethodCurrencyMismatch
        } else if str_eq(input, codes::PAYMENT_METHOD_CUSTOMER_DECLINE) {
            Codes::PaymentMethodCustomerDecline
        } else if str_eq(input, codes::PAYMENT_METHOD_INVALID_PARAMETER) {
            Codes::PaymentMethodInvalidParameter
        } else if str_eq(input, codes::PAYMENT_METHOD_INVALID_PARAMETER_TESTMODE) {
            Codes::PaymentMethodInvalidParameterTestmode
        } else if str_eq(input, codes::PAYMENT_METHOD_MICRODEPOSIT_FAILED) {
            Codes::PaymentMethodMicrodepositFailed
        } else if str_eq(input, codes::PAYMENT_METHOD_MICRODEPOSIT_VERIFICATION_AMOUNTS_INVALID) {
            Codes::PaymentMethodMicrodepositVerificationAmountsInvalid
        } else if str_eq(input, codes::PAYMENT_METHOD_MICRODEPOSIT_VERIFICATION_AMOUNTS_MISMATCH) {
            Codes::PaymentMethodMicrodepositVerificationAmountsMismatch
        } else if str_eq(input, codes::PAYMENT_METHOD_MICRODEPOSIT_VERIFICATION_ATTEMPTS_EXCEEDED) {
            Codes::PaymentMethodMicrodepositVerificationAttemptsExceeded
        } else if str_eq(input, codes::PAYMENT_METHOD_MICRODEPOSIT_VERIFICATION_DESCRIPTOR_CODE_MISMATCH) {
            Codes::PaymentMethodMicrodepositVerificationDescriptorCodeMismatch
        } else if str_eq(input, codes::PAYMENT_METHOD_MICRODEPOSIT_VERIFICATION_TIMEOUT) {
            Codes::PaymentMethodMicrodepositVerificationTimeout
        } else if str_eq(input, codes::PAYMENT_METHOD_PROVIDER_DECLINE) {
            Codes::PaymentMethodProviderDecline
        } else if str_eq(input, codes::PAYMENT_METHOD_PROVIDER_TIMEOUT) {
            Codes::PaymentMethodProviderTimeout
        } else if str_eq(input, codes::PAYMENT_METHOD_UNACTIVATED) {
            Codes::PaymentMethodUnactivated
        } else if str_eq(input, codes::PAYMENT_METHOD_UNEXPECTED_STATE) {
            Codes::PaymentMethodUnexpectedState
        } else if str_eq(input, codes::PAYMENT_METHOD_UNSUPPORTED_TYPE) {
            Codes::PaymentMethodUnsupportedType
        } else if str_eq(input, codes::PAYOUTS_NOT_ALLOWED) {
            Codes::PayoutsNotAllowed
        } else if str_eq(input, codes::PLATFORM_ACCOUNT_REQUIRED) {
            Codes::PlatformAccountRequired
        } else if str_eq(input, codes::PLATFORM_API_KEY_EXPIRED) {
            Codes::PlatformApiKeyExpired
        } else if str_eq(input, codes::POSTAL_CODE_INVALID) {
            Codes::PostalCodeInvalid
        } else if str_eq(input, codes::PROCESSING_ERROR) {
            Codes::ProcessingError
        } else if str_eq(input, codes::PRODUCT_INACTIVE) {
            Codes::ProductInactive
        } else if str_eq(input, codes::RATE_LIMIT) {
            Codes::RateLimit
        } else if str_eq(input, codes::REFER_TO_CUSTOMER) {
            Codes::ReferToCustomer
        } else if str_eq(input, codes::REFUND_DISPUTED_PAYMENT) {
            Codes::RefundDisputedPayment
        } else if str_eq(input, codes::RESOURCE_ALREADY_EXISTS) {
            Codes::ResourceAlreadyExists
        } else if str_eq(input, codes::RESOURCE_MISSING) {
            Codes::ResourceMissing
        } else if str_eq(input, codes::RETURN_INTENT_ALREADY_PROCESSED) {
            Codes::ReturnIntentAlreadyProcessed
        } else if str_eq(input, codes::ROUTING_NUMBER_INVALID) {
            Codes::RoutingNumberInvalid
        } else if str_eq(input, codes::SECRET_KEY_REQUIRED) {
            Codes::SecretKeyRequired
        } else if str_eq(input, codes::SEPA_UNSUPPORTED_ACCOUNT) {
            Codes::SepaUnsupportedAccount
        } else if str_eq(input, codes::SETUP_ATTEMPT_FAILED) {
            Codes::SetupAttemptFailed
        } else if str_eq(input, codes::SETUP_INTENT_AUTHENTICATION_FAILURE) {
            Codes::SetupIntentAuthenticationFailure
        } else if str_eq(input, codes::SETUP_INTENT_INVALID_PARAMETER) {
            Codes::SetupIntentInvalidParameter
        } else if str_eq(input, codes::SETUP_INTENT_SETUP_ATTEMPT_EXPIRED) {
            Codes::SetupIntentSetupAttemptExpired
        } else if str_eq(input, codes::SETUP_INTENT_UNEXPECTED_STATE) {
            Codes::SetupIntentUnexpectedState
        } else if str_eq(input, codes::SHIPPING_CALCULATION_FAILED) {
            Codes::ShippingCalculationFailed
        } else if str_eq(input, codes::SKU_INACTIVE) {
            Codes::SkuInactive
        } else if str_eq(input, codes::STATE_UNSUPPORTED) {
            Codes::StateUnsupported
        } else if str_eq(input, codes::STATUS_TRANSITION_INVALID) {
            Codes::StatusTransitionInvalid
        } else if str_eq(input, codes::TAX_ID_INVALID) {
            Codes::TaxIdInvalid
        } else if str_eq(input, codes::TAXES_CALCULATION_FAILED) {
            Codes::TaxesCalculationFailed
        } else if str_eq(input, codes::TERMINAL_LOCATION_COUNTRY_UNSUPPORTED) {
            Codes::TerminalLocationCountryUnsupported
        } else if str_eq(input, codes::TESTMODE_CHARGES_ONLY) {
            Codes::TestmodeChargesOnly
        } else if str_eq(input, codes::TLS_VERSION_UNSUPPORTED) {
            Codes::TlsVersionUnsupported
        } else if str_eq(input, codes::TOKEN_ALREADY_USED) {
            Codes::TokenAlreadyUsed
        } else if str_eq(input, codes::TOKEN_IN_USE) {
            Codes::TokenInUse
        } else if str_eq(input, codes::TRANSFER_SOURCE_BALANCE_PARAMETERS_MISMATCH) {
            Codes::TransferSourceBalanceParametersMismatch
        } else if str_eq(input, codes::TRANSFERS_NOT_ALLOWED) {
            Codes::TransfersNotAllowed
        } else if str_eq(input, codes::URL_INVALID) {
            Codes::UrlInvalid
        } else {
            Codes::Unrecognized
        };
        proof {
            if code.is_listed() {
                Codes::lemma_wire_injective(code, Codes::from_wire(input@));
            }
        }
        code
    }

    /// Returns the original value.
    pub fn original_str(&self) -> (s: &'static str)
        ensures
            s@ == self.wire(),
    {
        match self {
            Codes::AccountCountryInvalidAddress => codes::ACCOUNT_COUNTRY_INVALID_ADDRESS,
            Codes::AccountErrorCountryChangeRequiresAdditionalSteps => codes::ACCOUNT_ERROR_COUNTRY_CHANGE_REQUIRES_ADDITIONAL_STEPS,
            Codes::AccountInformationMismatch => codes::ACCOUNT_INFORMATION_MISMATCH,
            Codes::AccountInvalid => codes::ACCOUNT_INVALID,
            Codes::AccountNumberInvalid => codes::ACCOUNT_NUMBER_INVALID,
            Codes::AcssDebitSessionIncomplete => codes::ACSS_DEBIT_SESSION_INCOMPLETE,
            Codes::AlipayUpgradeRequired => codes::ALIPAY_UPGRADE_REQUIRED,
            Codes::AmountTooLarge => codes::AMOUNT_TOO_LARGE,
            Codes::AmountTooSmall => codes::AMOUNT_TOO_SMALL,
            Codes::ApiKeyExpired => codes::API_KEY_EXPIRED,
            Codes::AuthenticationRequired => codes::AUTHENTICATION_REQUIRED,
            Codes::BalanceInsufficient => codes::BALANCE_INSUFFICIENT,
            Codes::BankAccountBadRoutingNumbers => codes::BANK_ACCOUNT_BAD_ROUTING_NUMBERS,
            Codes::BankAccountDeclined => codes::BANK_ACCOUNT_DECLINED,
            Codes::BankAccountExists => codes::BANK_ACCOUNT_EXISTS,
            Codes::BankAccountRestricted => codes::BANK_ACCOUNT_RESTRICTED,
            Codes::BankAccountUnusable => codes::BANK_ACCOUNT_UNUSABLE,
            Codes::BankAccountUnverified => codes::BANK_ACCOUNT_UNVERIFIED,
            Codes::BankAccountVerificationFailed => codes::BANK_ACCOUNT_VERIFICATION_FAILED,
            Codes::BillingInvalidMandate => codes::BILLING_INVALID_MANDATE,
            Codes::BitcoinUpgradeRequired => codes::BITCOIN_UPGRADE_REQUIRED,
            Codes::CardDeclineRateLimitExceeded => codes::CARD_DECLINE_RATE_LIMIT_EXCEEDED,
            Codes::CardDeclined => codes::CARD_DECLINED,
            Codes::CardholderPhoneNumberRequired => codes::CARDHOLDER_PHONE_NUMBER_REQUIRED,
            Codes::ChargeAlreadyCaptured => codes::CHARGE_ALREADY_CAPTURED,
            Codes::ChargeAlreadyRefunded => codes::CHARGE_ALREADY_REFUNDED,
            Codes::ChargeDisputed => codes::CHARGE_DISPUTED,
            Codes::ChargeExceedsSourceLimit => codes::CHARGE_EXCEEDS_SOURCE_LIMIT,
            Codes::ChargeExpiredForCapture => codes::CHARGE_EXPIRED_FOR_CAPTURE,
            Codes::ChargeInvalidParamter => codes::CHARGE_INVALID_PARAMTER,
            Codes::ClearingCodeUnsupported => codes::CLEARING_CODE_UNSUPPORTED,
            Codes::CountryCodeInvalid => codes::COUNTRY_CODE_INVALID,
            Codes::CountryUnsupported => codes::COUNTRY_UNSUPPORTED,
            Codes::CouponExpired => codes::COUPON_EXPIRED,
            Codes::CustomerMaxPaymentMethods => codes::CUSTOMER_MAX_PAYMENT_METHODS,
            Codes::CustomerMaxSubscriptions => codes::CUSTOMER_MAX_SUBSCRIPTIONS,
            Codes::DebitNotAuthorized => codes::DEBIT_NOT_AUTHORIZED,
            Codes::EmailInvalid => codes::EMAIL_INVALID,
            Codes::ExpiredCard => codes::EXPIRED_CARD,
            Codes::IdempotencyKeyInUse => codes::IDEMPOTENCY_KEY_IN_USE,
            Codes::IncorrectAddress => codes::INCORRECT_ADDRESS,
            Codes::IncorrectCVC => codes::INCORRECT_CVC,
            Codes::IncorrectNumber => codes::INCORRECT_NUMBER,
            Codes::IncorrectZip => codes::INCORRECT_ZIP,
            Codes::InstantPayoutsConfigDisabled => codes::INSTANT_PAYOUTS_CONFIG_DISABLED,
            Codes::InstantPayoutsCurrencyDisabled => codes::INSTANT_PAYOUTS_CURRENCY_DISABLED,
            Codes::InstantPayoutsLimitExceeded => codes::INSTANT_PAYOUTS_LIMIT_EXCEEDED,
            Codes::InstantPayoutsUnsupported => codes::INSTANT_PAYOUTS_UNSUPPORTED,
            Codes::InsufficientFunds => codes::INSUFFICIENT_FUNDS,
            Codes::IntentInvalidState => codes::INTENT_INVALID_STATE,
            Codes::IntentVerificationMethodMissing => codes::INTENT_VERIFICATION_METHOD_MISSING,
            Codes::InvalidCardType => codes::INVALID_CARD_TYPE,
            Codes::InvalidCharacters => codes::INVALID_CHARACTERS,
            Codes::InvalidChargeAmount => codes::INVALID_CHARGE_AMOUNT,
            Codes::InvalidCVC => codes::INVALID_CVC,
            Codes::InvalidExpiryMonth => codes::INVALID_EXPIRY_MONTH,
            Codes::InvalidExpiryYear => codes::INVALID_EXPIRY_YEAR,
            Codes::InvalidNumber => codes::INVALID_NUMBER,
            Codes::InvalidSourceUsage => codes::INVALID_SOURCE_USAGE,
            Codes::InvoiceNoCustomerLineItems => codes::INVOICE_NO_CUSTOMER_LINE_ITEMS,
            Codes::InvoiceNoPaymentMethodTypes => codes::INVOICE_NO_PAYMENT_METHOD_TYPES,
            Codes::InvoiceNoSubscriptionLineItems => codes::INVOICE_NO_SUBSCRIPTION_LINE_ITEMS,
            Codes::InvoiceNotEditable => codes::INVOICE_NOT_EDITABLE,
            Codes::InvoiceOnBehalfOfNotEditable => codes::INVOICE_ON_BEHALF_OF_NOT_EDITABLE,
            Codes::InvoicePaymentIntentRequiresAction => codes::INVOICE_PAYMENT_INTENT_REQUIRES_ACTION,
            Codes::InvoiceUpcomingNone => codes::INVOICE_UPCOMING_NONE,
            Codes::LivemodeMismatch => codes::LIVEMODE_MISMATCH,
            Codes::LockTimeout => codes::LOCK_TIMEOUT,
            Codes::Missing => codes::MISSING,
            Codes::NoAccount => codes::NO_ACCOUNT,
            Codes::NotAllowedOnStandardAccount => codes::NOT_ALLOWED_ON_STANDARD_ACCOUNT,
            Codes::OutOfInventory => codes::OUT_OF_INVENTORY,
            Codes::OwnershipDeclarationNotAllowed => codes::OWNERSHIP_DECLARATION_NOT_ALLOWED,
            Codes::ParameterInvalidEmpty => codes::PARAMETER_INVALID_EMPTY,
            Codes::ParameterInvalidInteger => codes::PARAMETER_INVALID_INTEGER,
            Codes::ParameterInvalidStringBlank => codes::PARAMETER_INVALID_STRING_BLANK,
            Codes::ParameterInvalidStringEmpty => codes::PARAMETER_INVALID_STRING_EMPTY,
            Codes::ParameterMissing => codes::PARAMETER_MISSING,
            Codes::ParameterUnknown => codes::PARAMETER_UNKNOWN,
            Codes::ParametersExclusive => codes::PARAMETERS_EXCLUSIVE,
            Codes::PaymentIntentActionRequired => codes::PAYMENT_INTENT_ACTION_REQUIRED,
            Codes::PaymentIntentAuthenticationFailure => codes::PAYMENT_INTENT_AUTHENTICATION_FAILURE,
            Codes::PaymentIntentIncompatiblePaymentMethod => codes::PAYMENT_INTENT_INCOMPATIBLE_PAYMENT_METHOD,
            Codes::PaymentIntentInvalidParameter => codes::PAYMENT_INTENT_INVALID_PARAMETER,
            Codes::PaymentIntentKonbiniRejectedConfirmationNumber => codes::PAYMENT_INTENT_KONBINI_REJECTED_CONFIRMATION_NUMBER,
            Codes::PaymentIntentMandateInvalid => codes::PAYMENT_INTENT_MANDATE_INVALID,
            Codes::PaymentIntentPaymentAttemptExpired => codes::PAYMENT_INTENT_PAYMENT_ATTEMPT_EXPIRED,
            Codes::PaymentIntentPaymentAttemptFailed => codes::PAYMENT_INTENT_PAYMENT_ATTEMPT_FAILED,
            Codes::PaymentIntentUnexpectedState => codes::PAYMENT_INTENT_UNEXPECTED_STATE,
            Codes::PaymentMethodBankAccountAlreadyVerified => codes::PAYMENT_METHOD_BANK_ACCOUNT_ALREADY_VERIFIED,
            Codes::PaymentMethodBankAccountBlocked => codes::PAYMENT_METHOD_BANK_ACCOUNT_BLOCKED,
            Codes::PaymentMethodBillingDetailsAddressMissing => codes::PAYMENT_METHOD_BILLING_DETAILS_ADDRESS_MISSING,
            Codes::PaymentMethodCurrencyMismatch => codes::PAYMENT_METHOD_CURRENCY_MISMATCH,
            Codes::PaymentMethodCustomerDecline => codes::PAYMENT_METHOD_CUSTOMER_DECLINE,
            Codes::PaymentMethodInvalidParameter => codes::PAYMENT_METHOD_INVALID_PARAMETER,
            Codes::PaymentMethodInvalidParameterTestmode => codes::PAYMENT_METHOD_INVALID_PARAMETER_TESTMODE,
            Codes::PaymentMethodMicrodepositFailed => codes::PAYMENT_METHOD_MICRODEPOSIT_FAILED,
            Codes::PaymentMethodMicrodepositVerificationAmountsInvalid => codes::PAYMENT_METHOD_MICRODEPOSIT_VERIFICATION_AMOUNTS_INVALID,
            Codes::PaymentMethodMicrodepositVerificationAmountsMismatch => codes::PAYMENT_METHOD_MICRODEPOSIT_VERIFICATION_AMOUNTS_MISMATCH,
            Codes::PaymentMethodMicrodepositVerificationAttemptsExceeded => codes::PAYMENT_METHOD_MICRODEPOSIT_VERIFICATION_ATTEMPTS_EXCEEDED,
            Codes::PaymentMethodMicrodepositVerificationDescriptorCodeMismatch => codes::PAYMENT_METHOD_MICRODEPOSIT_VERIFICATION_DESCRIPTOR_CODE_MISMATCH,
            Codes::PaymentMethodMicrodepositVerificationTimeout => codes::PAYMENT_METHOD_MICRODEPOSIT_VERIFICATION_TIMEOUT,
            Codes::PaymentMethodProviderDecline => codes::PAYMENT_METHOD_PROVIDER_DECLINE,
            Codes::PaymentMethodProviderTimeout => codes::PAYMENT_METHOD_PROVIDER_TIMEOUT,
            Codes::PaymentMethodUnactivated => codes::PAYMENT_METHOD_UNACTIVATED,
            Codes::PaymentMethodUnexpectedState => codes::PAYMENT_METHOD_UNEXPECTED_STATE,
            Codes::PaymentMethodUnsupportedType => codes::PAYMENT_METHOD_UNSUPPORTED_TYPE,
            Codes::PayoutsNotAllowed => codes::PAYOUTS_NOT_ALLOWED,
            Codes::PlatformAccountRequired => codes::PLATFORM_ACCOUNT_REQUIRED,
            Codes::PlatformApiKeyExpired => codes::PLATFORM_API_KEY_EXPIRED,
            Codes::PostalCodeInvalid => codes::POSTAL_CODE_INVALID,
            Codes::ProcessingError => codes::PROCESSING_ERROR,
            Codes::ProductInactive => codes::PRODUCT_INACTIVE,
            Codes::RateLimit => codes::RATE_LIMIT,
            Codes::ReferToCustomer => codes::REFER_TO_CUSTOMER,
            Codes::RefundDisputedPayment => codes::REFUND_DISPUTED_PAYMENT,
            Codes::ResourceAlreadyExists => codes::RESOURCE_ALREADY_EXISTS,
            Codes::ResourceMissing => codes::RESOURCE_MISSING,
            Codes::ReturnIntentAlreadyProcessed => codes::RETURN_INTENT_ALREADY_PROCESSED,
            Codes::RoutingNumberInvalid => codes::ROUTING_NUMBER_INVALID,
            Codes::SecretKeyRequired => codes::SECRET_KEY_REQUIRED,
            Codes::SepaUnsupportedAccount => codes::SEPA_UNSUPPORTED_ACCOUNT,
            Codes::SetupAttemptFailed => codes::SETUP_ATTEMPT_FAILED,
            Codes::SetupIntentAuthenticationFailure => codes::SETUP_INTENT_AUTHENTICATION_FAILURE,
            Codes::SetupIntentInvalidParameter => codes::SETUP_INTENT_INVALID_PARAMETER,
            Codes::SetupIntentSetupAttemptExpired => codes::SETUP_INTENT_SETUP_ATTEMPT_EXPIRED,
            Codes::SetupIntentUnexpectedState => codes::SETUP_INTENT_UNEXPECTED_STATE,
            Codes::ShippingCalculationFailed => codes::SHIPPING_CALCULATION_FAILED,
            Codes::SkuInactive => codes::SKU_INACTIVE,
            Codes::StateUnsupported => codes::STATE_UNSUPPORTED,
            Codes::StatusTransitionInvalid => codes::STATUS_TRANSITION_INVALID,
            Codes::TaxIdInvalid => codes::TAX_ID_INVALID,
            Codes::TaxesCalculationFailed => codes::TAXES_CALCULATION_FAILED,
            Codes::TerminalLocationCountryUnsupported => codes::TERMINAL_LOCATION_COUNTRY_UNSUPPORTED,
            Codes::TestmodeChargesOnly => codes::TESTMODE_CHARGES_ONLY,
            Codes::TlsVersionUnsupported => codes::TLS_VERSION_UNSUPPORTED,
            Codes::TokenAlreadyUsed => codes::TOKEN_ALREADY_USED,
            Codes::TokenInUse => codes::TOKEN_IN_USE,
            Codes::TransferSourceBalanceParametersMismatch => codes::TRANSFER_SOURCE_BALANCE_PARAMETERS_MISMATCH,
            Codes::TransfersNotAllowed => codes::TRANSFERS_NOT_ALLOWED,
            Codes::UrlInvalid => codes::URL_INVALID,
            Codes::Unrecognized => "",
        }
    }

    /// No two codes share a wire string, and only the fallback has the
    /// empty one.
    pub proof fn lemma_wire_injective(a: Codes, b: Codes)
        requires
            a.wire() == b.wire(),
        ensures
            a == b,
    {
        reveal_strlit("");
        reveal_strlit("account_country_invalid_address");
        reveal_strlit("account_error_country_change_requires_additional_steps");
        reveal_strlit("account_information_mismatch");
        reveal_strlit("account_invalid");
        reveal_strlit("account_number_invalid");
        reveal_strlit("acss_debit_session_incomplete");
        reveal_strlit("alipay_upgrade_required");
        reveal_strlit("amount_too_large");
        reveal_strlit("amount_too_small");
        reveal_strlit("api_key_expired");
        reveal_strlit("authentication_required");
        reveal_strlit("balance_insufficient");
        reveal_strlit("bank_account_bad_routing_numbers");
        reveal_strlit("bank_account_declined");
        reveal_strlit("bank_account_exists");
        reveal_strlit("bank_account_restricted");
        reveal_strlit("bank_account_unusable");
        reveal_strlit("bank_account_unverified");
        reveal_strlit("bank_account_verification_failed");
        reveal_strlit("billing_invalid_mandate");
        reveal_strlit("bitcoin_upgrade_required");
        reveal_strlit("card_decline_rate_limit_exceeded");
        reveal_strlit("card_declined");
        reveal_strlit("cardholder_phone_number_required");
        reveal_strlit("charge_already_captured");
        reveal_strlit("charge_already_refunded");
        reveal_strlit("charge_disputed");
        reveal_strlit("charge_exceeds_source_limit");
        reveal_strlit("charge_expired_for_capture");
        reveal_strlit("charge_invalid_parameter");
        reveal_strlit("clearing_code_unsupported");
        reveal_strlit("country_code_invalid");
        reveal_strlit("country_unsupported");
        reveal_strlit("coupon_expired");
        reveal_strlit("customer_max_payment_methods");
        reveal_strlit("customer_max_subscriptions");
        reveal_strlit("debit_not_authorized");
        reveal_strlit("email_invalid");
        reveal_strlit("expired_card");
        reveal_strlit("idempotency_key_in_use");
        reveal_strlit("incorrect_address");
        reveal_strlit("incorrect_cvc");
        reveal_strlit("incorrect_number");
        reveal_strlit("incorrect_zip");
        reveal_strlit("instant_payouts_config_disabled");
        reveal_strlit("instant_payouts_currency_disabled");
        reveal_strlit("instant_payouts_limit_exceeded");
        reveal_strlit("instant_payouts_unsupported");
        reveal_strlit("insufficient_funds");
        reveal_strlit("intent_invalid_state");
        reveal_strlit("intent_verification_method_missing");
        reveal_strlit("invalid_card_type");
        reveal_strlit("invalid_characters");
        reveal_strlit("invalid_charge_amount");
        reveal_strlit("invalid_cvc");
        reveal_strlit("invalid_expiry_month");
        reveal_strlit("invalid_expiry_year");
        reveal_strlit("invalid_number");
        reveal_strlit("invalid_source_usage");
        reveal_strlit("invoice_no_customer_line_items");
        reveal_strlit("invoice_no_payment_method_types");
        reveal_strlit("invoice_no_subscription_line_items");
        reveal_strlit("invoice_not_editable");
        reveal_strlit("invoice_on_behalf_of_not_editable");
        reveal_strlit("invoice_payment_intent_requires_action");
        reveal_strlit("invoice_upcoming_none");
        reveal_strlit("livemode_mismatch");
        reveal_strlit("lock_timeout");
        reveal_strlit("missing");
        reveal_strlit("no_account");
        reveal_strlit("not_allowed_on_standard_account");
        reveal_strlit("out_of_inventory");
        reveal_strlit("ownership_declaration_not_allowed");
        reveal_strlit("parameter_invalid_empty");
        reveal_strlit("parameter_invalid_integer");
        reveal_strlit("parameter_invalid_string_blank");
        reveal_strlit("parameter_invalid_string_empty");
        reveal_strlit("parameter_missing");
        reveal_strlit("paremeter_unknown");
        reveal_strlit("parameters_exclusive");
        reveal_strlit("payment_intent_action_required");
        reveal_strlit("payment_intent_authentication_required");
        reveal_strlit("payment_intent_incompatible_payment_method");
        reveal_strlit("payment_intent_invalid_parameter");
        reveal_strlit("payment_intent_konbini_rejected_confirmation_number");
        reveal_strlit("payment_intent_mandate_invalid");
        reveal_strlit("payment_intent_payment_attempt_expired");
        reveal_strlit("payment_intent_payment_attempt_failed");
        reveal_strlit("payment_intent_unexpected_state");
        reveal_strlit("payment_method_bank_account_already_verified");
        reveal_strlit("payment_method_bank_account_blocked");
        reveal_strlit("payment_method_billing_details_address_missing");
        reveal_strlit("payment_method_currency_mismatch");
        reveal_strlit("payment_method_customer_decline");
        reveal_strlit("payment_method_invalid_parameter");
        reveal_strlit("payment_method_invalid_parameter_testmode");
        reveal_strlit("payment_method_microdeposit_failed");
        reveal_strlit("payment_method_microdeposit_verification_amounts_invalid");
        reveal_strlit("payment_method_microdeposit_verification_amounts_mismatch");
        reveal_strlit("payment_method_microdeposit_verification_attempts_exceeded");
        reveal_strlit("payment_method_microdeposit_verification_descriptor_code_mismatch");
        reveal_strlit("payment_method_microdeposit_verification_timeout");
        reveal_strlit("payment_method_provider_decline");
        reveal_strlit("payment_method_provider_timeout");
        reveal_strlit("payment_method_unactivated");
        reveal_strlit("payment_method_unexpected_state");
        reveal_strlit("payment_method_unsupported_type");
        reveal_strlit("payouts_not_allowed");
        reveal_strlit("platform_account_required");
        reveal_strlit("platform_api_key_expired");
        reveal_strlit("postal_code_invalid");
        reveal_strlit("processing_error");
        reveal_strlit("product_inactive");
        reveal_strlit("rate_limit");
        reveal_strlit("refer_to_customer");
        reveal_strlit("refund_disputed_payment");
        reveal_strlit("resource_already_exists");
        reveal_strlit("resource_missing");
        reveal_strlit("return_intent_already_processed");
        reveal_strlit("routing_number_invalid");
        reveal_strlit("secret_key_required");
        reveal_strlit("sepa_unsupported_account");
        reveal_strlit("setup_attempt_failed");
        reveal_strlit("setup_intent_authentication_failure");
        reveal_strlit("setup_intent_invalid_parameter");
        reveal_strlit("setup_intent_setup_attempt_expired");
        reveal_strlit("setup_intent_unexpected_state");
        reveal_strlit("shipping_calculation_failed");
        reveal_strlit("sku_inactive");
        reveal_strlit("state_unsupported");
        reveal_strlit("status_transition_invalid");
        reveal_strlit("tax_id_invalid");
        reveal_strlit("taxes_calculation_failed");
        reveal_strlit("terminal_location_country_unsupported");
        reveal_strlit("testmode_charges_only");
        reveal_strlit("tls_version_unsupported");
        reveal_strlit("token_already_used");
        reveal_strlit("token_in_use");
        reveal_strlit("transfer_source_balance_parameters_mismatch");
        reveal_strlit("transfers_not_allowed");
        reveal_strlit("url_invalid");
        assert(Codes::signature(a.wire()) == Codes::signature(b.wire()));
    }

    /// The length of a string and its characters at four places: between
    /// them they tell the wire strings of the table apart.
    spec fn signature(s: Seq<char>) -> (nat, Option<char>, Option<char>, Option<char>, Option<char>) {
        (s.len(), Codes::at(s, 4), Codes::at(s, 11), Codes::at(s, 15), Codes::at(s, 25))
    }

    spec fn at(s: Seq<char>, i: int) -> Option<char> {
        if 0 <= i < s.len() {
            Some(s[i])
        } else {
            None
        }
    }

    /// A wire string of the table is read as a listed code, never as the
    /// fallback, and that code is written as the same string.
    pub proof fn lemma_known_round_trip(s: Seq<char>)
        requires
            Codes::in_table(s),
        ensures
            Codes::from_wire(s).is_listed(),
            Codes::from_wire(s).wire() == s,
    {
    }

    /// A string that is not in the table is read as the fallback.
    pub proof fn lemma_unknown_is_fallback(s: Seq<char>)
        requires
            !Codes::in_table(s),
        ensures
            Codes::from_wire(s) == Codes::Unrecognized,
    {
    }

    /// Reading a code's wire string gives the code back; this holds of
    /// the fallback and its empty string too.
    pub proof fn lemma_from_wire_inverts_wire(c: Codes)
        ensures
            Codes::from_wire(c.wire()) == c,
    {
        if Codes::in_table(c.wire()) {
            Codes::lemma_wire_injective(Codes::from_wire(c.wire()), c);
        }
    }
}

} // verus!
