//! The input record shapes the engine consumes: serviceable-location
//! census rows and billing-subscription export rows, with the billing
//! export's accompanying vocabulary.
//!
//! Collaborators parse files and API responses into these plain records
//! before handing them to the engine. Floating-point fields (latitude,
//! longitude, exchange rate) and list-valued addon fields stay with the
//! collaborators' own representations.

use vstd::prelude::*;

verus! {

/// Copies an optional string, preserving the value exactly.
pub fn clone_opt_string(o: &Option<String>) -> (r: Option<String>)
    ensures
        r == *o,
{
    match o {
        Some(s) => Some(s.clone()),
        None => None,
    }
}

/// One serviceable location from the regulatory census extract.
///
/// `block_geoid` is the 11-to-15-character census block digit string; it
/// may still carry embedded quotes and commas from export artifacts.
#[derive(Debug, PartialEq, Eq)]
pub struct FccRecord {
    pub location_id: String,
    pub address_primary: Option<String>,
    pub city: Option<String>,
    pub state: Option<String>,
    pub zip: Option<u32>,
    pub block_geoid: String,
}

impl Clone for FccRecord {
    fn clone(&self) -> (r: Self)
        ensures
            r == *self,
    {
        FccRecord {
            location_id: self.location_id.clone(),
            address_primary: clone_opt_string(&self.address_primary),
            city: clone_opt_string(&self.city),
            state: clone_opt_string(&self.state),
            zip: self.zip,
            block_geoid: self.block_geoid.clone(),
        }
    }
}

impl FccRecord {
    /// Builds a record from the fields the engine reads; locality fields
    /// not supplied stay absent.
    pub fn new(location_id: String, address_primary: Option<String>, city: Option<String>, block_geoid: String) -> (r: FccRecord)
        ensures
            r == (FccRecord {
                location_id,
                address_primary,
                city,
                state: None::<String>,
                zip: None::<u32>,
                block_geoid,
            }),
    {
        FccRecord { location_id, address_primary, city, state: None, zip: None, block_geoid }
    }
}

/// The billing export's object-kind discriminator.
#[derive(Clone, Copy, PartialEq, Eq, Debug)]
pub enum SubscriptionObject {
    EventBasedAddon,
    ChargedEventBasedAddon,
    Coupon,
    Subscription,
    BillingAddress,
    PaymentMethod,
    Card,
}

/// The billing events an addon can be charged on.
#[derive(Clone, Copy, PartialEq, Eq, Debug)]
pub enum SubscriptionEvent {
    SubscriptionActivation,
    PlanActivation,
    ContractTermination,
    SubscriptionCreation,
}

/// An addon charged when a subscription event fires.
#[derive(Debug, PartialEq, Eq)]
pub struct EventBasedAddon {
    pub id: String,
    pub quantity: u32,
    pub unit_price: u32,
    pub on_event: SubscriptionEvent,
    pub charge_once: bool,
    pub object: SubscriptionObject,
}

impl Clone for EventBasedAddon {
    fn clone(&self) -> (r: Self)
        ensures
            r == *self,
    {
        EventBasedAddon {
            id: self.id.clone(),
            quantity: self.quantity,
            unit_price: self.unit_price,
            on_event: self.on_event,
            charge_once: self.charge_once,
            object: self.object,
        }
    }
}

/// An addon that has already been charged.
#[derive(Debug, PartialEq, Eq)]
pub struct ChargedEventBasedAddon {
    pub id: String,
    pub last_charged_at: u64,
    pub object: SubscriptionObject,
}

impl Clone for ChargedEventBasedAddon {
    fn clone(&self) -> (r: Self)
        ensures
            r == *self,
    {
        ChargedEventBasedAddon {
            id: self.id.clone(),
            last_charged_at: self.last_charged_at,
            object: self.object,
        }
    }
}

/// A coupon applied to a subscription.
#[derive(Debug, PartialEq, Eq)]
pub struct Coupon {
    pub coupon_id: String,
    pub applied_count: u8,
    pub object: SubscriptionObject,
}

impl Clone for Coupon {
    fn clone(&self) -> (r: Self)
        ensures
            r == *self,
    {
        Coupon {
            coupon_id: self.coupon_id.clone(),
            applied_count: self.applied_count,
            object: self.object,
        }
    }
}

/// A customer's billing address.
#[derive(Debug, PartialEq, Eq)]
pub struct BillingAddress {
    pub first_name: Option<String>,
    pub last_name: Option<String>,
    pub email: Option<String>,
    pub phone: Option<String>,
    pub line1: Option<String>,
    pub city: Option<String>,
    pub state_code: Option<String>,
    pub state: Option<String>,
    pub country: Option<String>,
    pub zip: Option<String>,
    pub validation_status: Option<String>,
    pub object: SubscriptionObject,
}

impl Clone for BillingAddress {
    fn clone(&self) -> (r: Self)
        ensures
            r == *self,
    {
        BillingAddress {
            first_name: clone_opt_string(&self.first_name),
            last_name: clone_opt_string(&self.last_name),
            email: clone_opt_string(&self.email),
            phone: clone_opt_string(&self.phone),
            line1: clone_opt_string(&self.line1),
            city: clone_opt_string(&self.city),
            state_code: clone_opt_string(&self.state_code),
            state: clone_opt_string(&self.state),
            country: clone_opt_string(&self.country),
            zip: clone_opt_string(&self.zip),
            validation_status: clone_opt_string(&self.validation_status),
            object: self.object,
        }
    }
}

/// An address with every field absent.
pub open spec fn spec_empty_billing_address() -> BillingAddress {
    BillingAddress {
        first_name: None,
        last_name: None,
        email: None,
        phone: None,
        line1: None,
        city: None,
        state_code: None,
        state: None,
        country: None,
        zip: None,
        validation_status: None,
        object: SubscriptionObject::BillingAddress,
    }
}

impl BillingAddress {
    /// An address with every field absent.
    pub fn empty() -> (r: BillingAddress)
        ensures
            r == spec_empty_billing_address(),
    {
        BillingAddress {
            first_name: None,
            last_name: None,
            email: None,
            phone: None,
            line1: None,
            city: None,
            state_code: None,
            state: None,
            country: None,
            zip: None,
            validation_status: None,
            object: SubscriptionObject::BillingAddress,
        }
    }
}

/// A customer's payment method.
#[derive(Debug, PartialEq, Eq)]
pub struct PaymentMethod {
    pub object: SubscriptionObject,
    pub kind: Option<String>,
    pub reference_id: Option<String>,
    pub gateway: Option<String>,
    pub gateway_account_id: Option<String>,
    pub status: Option<String>,
}

impl Clone for PaymentMethod {
    fn clone(&self) -> (r: Self)
        ensures
            r == *self,
    {
        PaymentMethod {
            object: self.object,
            kind: clone_opt_string(&self.kind),
            reference_id: clone_opt_string(&self.reference_id),
            gateway: clone_opt_string(&self.gateway),
            gateway_account_id: clone_opt_string(&self.gateway_account_id),
            status: clone_opt_string(&self.status),
        }
    }
}

/// A payment card on file.
#[derive(Debug, PartialEq, Eq)]
pub struct Card {
    pub status: Option<String>,
    pub gateway: Option<String>,
    pub gateway_account_id: String,
    pub first_name: Option<String>,
    pub last_name: Option<String>,
    pub iin: Option<String>,
    pub last4: Option<String>,
    pub card_type: Option<String>,
    pub funding_type: Option<String>,
    pub expiry_month: Option<u8>,
    pub expiry_year: Option<u32>,
    pub created_at: Option<u64>,
    pub updated_at: Option<u64>,
    pub resource_version: Option<u64>,
    pub object: SubscriptionObject,
    pub masked_number: Option<String>,
    pub customer_id: Option<String>,
    pub payment_source_id: Option<String>,
}

impl Clone for Card {
    fn clone(&self) -> (r: Self)
        ensures
            r == *self,
    {
        Card {
            status: clone_opt_string(&self.status),
            gateway: clone_opt_string(&self.gateway),
            gateway_account_id: self.gateway_account_id.clone(),
            first_name: clone_opt_string(&self.first_name),
            last_name: clone_opt_string(&self.last_name),
            iin: clone_opt_string(&self.iin),
            last4: clone_opt_string(&self.last4),
            card_type: clone_opt_string(&self.card_type),
            funding_type: clone_opt_string(&self.funding_type),
            expiry_month: self.expiry_month,
            expiry_year: self.expiry_year,
            created_at: self.created_at,
            updated_at: self.updated_at,
            resource_version: self.resource_version,
            object: self.object,
            masked_number: clone_opt_string(&self.masked_number),
            customer_id: clone_opt_string(&self.customer_id),
            payment_source_id: clone_opt_string(&self.payment_source_id),
        }
    }
}

/// The subscription half of one billing export item. The engine reads
/// `plan_id`; the rest is carried for the collaborators.
#[derive(Debug, PartialEq, Eq)]
pub struct Subscription {
    pub id: Option<String>,
    pub plan_id: Option<String>,
    pub plan_quantity: Option<u8>,
    pub plan_unit_price: Option<u32>,
    pub billing_period: Option<u8>,
    pub billing_period_unit: Option<String>,
    pub customer_id: Option<String>,
    pub plan_amount: Option<u32>,
    pub plan_free_quantity: Option<u32>,
    pub status: Option<String>,
    pub current_term_start: Option<u64>,
    pub current_term_end: Option<u64>,
    pub next_billing_at: Option<u64>,
    pub created_at: Option<u64>,
    pub started_at: Option<u64>,
    pub activated_at: Option<u64>,
    pub updated_at: Option<u64>,
    pub has_scheduled_changed: Option<bool>,
    pub channel: Option<String>,
    pub resource_version: Option<u64>,
    pub deleted: Option<bool>,
    pub object: SubscriptionObject,
    pub coupon: Option<String>,
    pub currency_code: Option<String>,
    pub due_invoices_count: Option<u8>,
    pub mrr: Option<u32>,
    pub base_currency_code: Option<String>,
    pub has_scheduled_advance_invoices: Option<bool>,
}

impl Clone for Subscription {
    fn clone(&self) -> (r: Self)
        ensures
            r == *self,
    {
        Subscription {
            id: clone_opt_string(&self.id),
            plan_id: clone_opt_string(&self.plan_id),
            plan_quantity: self.plan_quantity,
            plan_unit_price: self.plan_unit_price,
            billing_period: self.billing_period,
            billing_period_unit: clone_opt_string(&self.billing_period_unit),
            customer_id: clone_opt_string(&self.customer_id),
            plan_amount: self.plan_amount,
            plan_free_quantity: self.plan_free_quantity,
            status: clone_opt_string(&self.status),
            current_term_start: self.current_term_start,
            current_term_end: self.current_term_end,
            next_billing_at: self.next_billing_at,
            created_at: self.created_at,
            started_at: self.started_at,
            activated_at: self.activated_at,
            updated_at: self.updated_at,
            has_scheduled_changed: self.has_scheduled_changed,
            channel: clone_opt_string(&self.channel),
            resource_version: self.resource_version,
            deleted: self.deleted,
            object: self.object,
            coupon: clone_opt_string(&self.coupon),
            currency_code: clone_opt_string(&self.currency_code),
            due_invoices_count: self.due_invoices_count,
            mrr: self.mrr,
            base_currency_code: clone_opt_string(&self.base_currency_code),
            has_scheduled_advance_invoices: self.has_scheduled_advance_invoices,
        }
    }
}

/// A subscription with only its kind set.
pub open spec fn spec_empty_subscription() -> Subscription {
    Subscription {
        id: None,
        plan_id: None,
        plan_quantity: None,
        plan_unit_price: None,
        billing_period: None,
        billing_period_unit: None,
        customer_id: None,
        plan_amount: None,
        plan_free_quantity: None,
        status: None,
        current_term_start: None,
        current_term_end: None,
        next_billing_at: None,
        created_at: None,
        started_at: None,
        activated_at: None,
        updated_at: None,
        has_scheduled_changed: None,
        channel: None,
        resource_version: None,
        deleted: None,
        object: SubscriptionObject::Subscription,
        coupon: None,
        currency_code: None,
        due_invoices_count: None,
        mrr: None,
        base_currency_code: None,
        has_scheduled_advance_invoices: None,
    }
}

impl Subscription {
    /// A subscription carrying only a plan code.
    pub fn with_plan(plan_id: Option<String>) -> (r: Subscription)
        ensures
            r == (Subscription { plan_id, ..spec_empty_subscription() }),
    {
        Subscription {
            id: None,
            plan_id,
            plan_quantity: None,
            plan_unit_price: None,
            billing_period: None,
            billing_period_unit: None,
            customer_id: None,
            plan_amount: None,
            plan_free_quantity: None,
            status: None,
            current_term_start: None,
            current_term_end: None,
            next_billing_at: None,
            created_at: None,
            started_at: None,
            activated_at: None,
            updated_at: None,
            has_scheduled_changed: None,
            channel: None,
            resource_version: None,
            deleted: None,
            object: SubscriptionObject::Subscription,
            coupon: None,
            currency_code: None,
            due_invoices_count: None,
            mrr: None,
            base_currency_code: None,
            has_scheduled_advance_invoices: None,
        }
    }
}

/// The customer half of one billing export item. The engine reads the
/// `cf_residentialbusiness`, `cf_service_address` and
/// `cf_service_city_st_zip` custom fields; the rest is carried for the
/// collaborators.
#[derive(Debug, PartialEq, Eq)]
pub struct Customer {
    pub id: Option<String>,
    pub first_name: Option<String>,
    pub last_name: Option<String>,
    pub email: Option<String>,
    pub phone: Option<String>,
    pub auto_collection: Option<String>,
    pub net_term_days: Option<u8>,
    pub allow_direct_debit: Option<bool>,
    pub created_at: Option<u64>,
    pub taxability: Option<String>,
    pub updated_at: Option<u64>,
    pub locale: Option<String>,
    pub pii_cleared: Option<String>,
    pub channel: Option<String>,
    pub resource_version: Option<u64>,
    pub deleted: Option<bool>,
    pub object: Option<String>,
    pub billing_address: BillingAddress,
    pub card_status: Option<String>,
    pub promotional_credits: Option<u32>,
    pub refundable_credits: Option<u32>,
    pub excess_payments: Option<u32>,
    pub unbilled_charges: Option<u32>,
    pub preferred_currency_code: Option<String>,
    pub primary_payment_source_id: Option<String>,
    pub payment_method: Option<PaymentMethod>,
    pub cf_residentialbusiness: Option<String>,
    pub cf_service_address: Option<String>,
    pub cf_service_city_st_zip: Option<String>,
    pub cf_census_block_no: Option<String>,
    pub cf_paper_billing: Option<String>,
    pub cf_acp: Option<String>,
    pub consolidated_invoicing: Option<bool>,
}

impl Clone for Customer {
    fn clone(&self) -> (r: Self)
        ensures
            r == *self,
    {
        Customer {
            id: clone_opt_string(&self.id),
            first_name: clone_opt_string(&self.first_name),
            last_name: clone_opt_string(&self.last_name),
            email: clone_opt_string(&self.email),
            phone: clone_opt_string(&self.phone),
            auto_collection: clone_opt_string(&self.auto_collection),
            net_term_days: self.net_term_days,
            allow_direct_debit: self.allow_direct_debit,
            created_at: self.created_at,
            taxability: clone_opt_string(&self.taxability),
            updated_at: self.updated_at,
            locale: clone_opt_string(&self.locale),
            pii_cleared: clone_opt_string(&self.pii_cleared),
            channel: clone_opt_string(&self.channel),
            resource_version: self.resource_version,
            deleted: self.deleted,
            object: clone_opt_string(&self.object),
            billing_address: self.billing_address.clone(),
            card_status: clone_opt_string(&self.card_status),
            promotional_credits: self.promotional_credits,
            refundable_credits: self.refundable_credits,
            excess_payments: self.excess_payments,
            unbilled_charges: self.unbilled_charges,
            preferred_currency_code: clone_opt_string(&self.preferred_currency_code),
            primary_payment_source_id: clone_opt_string(&self.primary_payment_source_id),
            payment_method: match &self.payment_method {
                Some(pm) => Some(pm.clone()),
                None => None,
            },
            cf_residentialbusiness: clone_opt_string(&self.cf_residentialbusiness),
            cf_service_address: clone_opt_string(&self.cf_service_address),
            cf_service_city_st_zip: clone_opt_string(&self.cf_service_city_st_zip),
            cf_census_block_no: clone_opt_string(&self.cf_census_block_no),
            cf_paper_billing: clone_opt_string(&self.cf_paper_billing),
            cf_acp: clone_opt_string(&self.cf_acp),
            consolidated_invoicing: self.consolidated_invoicing,
        }
    }
}

/// A customer with every field absent and an empty billing address.
pub open spec fn spec_empty_customer() -> Customer {
    Customer {
        id: None,
        first_name: None,
        last_name: None,
        email: None,
        phone: None,
        auto_collection: None,
        net_term_days: None,
        allow_direct_debit: None,
        created_at: None,
        taxability: None,
        updated_at: None,
        locale: None,
        pii_cleared: None,
        channel: None,
        resource_version: None,
        deleted: None,
        object: None,
        billing_address: spec_empty_billing_address(),
        card_status: None,
        promotional_credits: None,
        refundable_credits: None,
        excess_payments: None,
        unbilled_charges: None,
        preferred_currency_code: None,
        primary_payment_source_id: None,
        payment_method: None,
        cf_residentialbusiness: None,
        cf_service_address: None,
        cf_service_city_st_zip: None,
        cf_census_block_no: None,
        cf_paper_billing: None,
        cf_acp: None,
        consolidated_invoicing: None,
    }
}

impl Customer {
    /// A customer carrying only the custom service fields the engine
    /// reads.
    pub fn with_service_fields(
        cf_residentialbusiness: Option<String>,
        cf_service_address: Option<String>,
        cf_service_city_st_zip: Option<String>,
        cf_census_block_no: Option<String>,
    ) -> (r: Customer)
        ensures
            r == (Customer {
                cf_residentialbusiness,
                cf_service_address,
                cf_service_city_st_zip,
                cf_census_block_no,
                ..spec_empty_customer()
            }),
    {
        Customer {
            id: None,
            first_name: None,
            last_name: None,
            email: None,
            phone: None,
            auto_collection: None,
            net_term_days: None,
            allow_direct_debit: None,
            created_at: None,
            taxability: None,
            updated_at: None,
            locale: None,
            pii_cleared: None,
            channel: None,
            resource_version: None,
            deleted: None,
            object: None,
            billing_address: BillingAddress::empty(),
            card_status: None,
            promotional_credits: None,
            refundable_credits: None,
            excess_payments: None,
            unbilled_charges: None,
            preferred_currency_code: None,
            primary_payment_source_id: None,
            payment_method: None,
            cf_residentialbusiness,
            cf_service_address,
            cf_service_city_st_zip,
            cf_census_block_no,
            cf_paper_billing: None,
            cf_acp: None,
            consolidated_invoicing: None,
        }
    }
}

/// One item of the billing system's subscription export.
#[derive(Debug, PartialEq, Eq)]
pub struct SubscriptionApiItem {
    pub subscription: Subscription,
    pub customer: Customer,
    pub card: Option<Card>,
}

impl Clone for SubscriptionApiItem {
    fn clone(&self) -> (r: Self)
        ensures
            r == *self,
    {
        SubscriptionApiItem {
            subscription: self.subscription.clone(),
            customer: self.customer.clone(),
            card: match &self.card {
                Some(c) => Some(c.clone()),
                None => None,
            },
        }
    }
}

impl SubscriptionApiItem {
    /// Builds an export item from the fields the engine reads.
    pub fn new(plan_id: Option<String>, cf_service_address: Option<String>, cf_service_city_st_zip: Option<String>, cf_residentialbusiness: Option<String>) -> (r: SubscriptionApiItem)
        ensures
            r.subscription == (Subscription { plan_id, ..spec_empty_subscription() }),
            r.customer == (Customer {
                cf_residentialbusiness,
                cf_service_address,
                cf_service_city_st_zip,
                cf_census_block_no: None::<String>,
                ..spec_empty_customer()
            }),
            r.card is None,
    {
        SubscriptionApiItem {
            subscription: Subscription::with_plan(plan_id),
            customer: Customer::with_service_fields(
                cf_residentialbusiness,
                cf_service_address,
                cf_service_city_st_zip,
                None,
            ),
            card: None,
        }
    }
}

} // verus!
