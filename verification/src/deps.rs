//! What the activities work against: a database with two idempotency tables,
//! and a payment gateway.
//!
//! Both are stand-ins that keep their state in memory, so that the pipeline
//! runs without any service around it. Dependencies belong to the activities
//! and never to a workflow, which is replayed and has to stay deterministic.

use vstd::prelude::*;
use vstd::string::*;

use crate::table::KeyTable;
use crate::text::{contains, cut, join, to_decimal};

verus! {

/// Where the database is when nothing configures it.
pub const DEFAULT_DATABASE_URL: &'static str = "postgres://localhost/orders";

/// The payment gateway's key when nothing configures it.
pub const DEFAULT_PAYMENTS_API_KEY: &'static str = "test-key";

/// Everything the activities need, built once when the process starts.
pub struct Deps {
    pub db: Database,
    pub payments: PaymentGateway,
}

/// The state of everything the activities need.
#[verifier::ext_equal]
pub struct DepsView {
    pub db: DatabaseView,
    pub payments: GatewayView,
}

impl View for Deps {
    type V = DepsView;

    open spec fn view(&self) -> DepsView {
        DepsView { db: self.db@, payments: self.payments@ }
    }
}

impl Deps {
    /// The invariant of the dependencies: that of the database.
    pub open spec fn wf(&self) -> bool {
        self.db.wf()
    }

    /// Connects to the configured database and gateway. Each argument is what
    /// the environment configures, `None` where it configures nothing.
    pub fn from_env(database_url: Option<String>, payments_api_key: Option<String>) -> (deps: Self)
        ensures
            deps.wf(),
            deps.db@ == empty_database(configured_or(database_url, DEFAULT_DATABASE_URL@)),
            deps.payments@ == fresh_gateway(
                configured_or(payments_api_key, DEFAULT_PAYMENTS_API_KEY@),
            ),
    {
        let url = or_default(database_url, DEFAULT_DATABASE_URL);
        let db = Database::connect(url.as_str());
        let payments = PaymentGateway::new(or_default(payments_api_key, DEFAULT_PAYMENTS_API_KEY));
        Deps { db, payments }
    }
}

/// What is configured, or `default` where nothing is.
pub open spec fn configured_or(configured: Option<String>, default: Seq<char>) -> Seq<char> {
    match configured {
        Some(value) => value@,
        None => default,
    }
}

/// What is configured, or `default` where nothing is.
pub fn or_default(configured: Option<String>, default: &str) -> (value: String)
    ensures
        value@ == configured_or(configured, default@),
{
    match configured {
        Some(value) => value,
        None => default.to_string(),
    }
}

// ---------------------------------------------------------------------------
// Database
// ---------------------------------------------------------------------------

/// Where the database is and what it holds.
#[verifier::ext_equal]
pub struct DatabaseView {
    /// Where the database is.
    pub url: Seq<char>,
    /// Idempotency key to charge id.
    pub charges: Map<Seq<char>, Seq<char>>,
    /// Idempotency key to reservation id.
    pub reservations: Map<Seq<char>, Seq<char>>,
}

/// A database at `url` that holds nothing.
pub open spec fn empty_database(url: Seq<char>) -> DatabaseView {
    DatabaseView { url, charges: Map::empty(), reservations: Map::empty() }
}

/// Two tables, each with a unique idempotency key.
pub struct Database {
    url: String,
    charges: KeyTable,
    reservations: KeyTable,
}

impl View for Database {
    type V = DatabaseView;

    closed spec fn view(&self) -> DatabaseView {
        DatabaseView {
            url: self.url@,
            charges: self.charges@,
            reservations: self.reservations@,
        }
    }
}

impl Database {
    /// The database's invariant: the keys of each table are unique.
    pub closed spec fn wf(&self) -> bool {
        self.charges.wf() && self.reservations.wf()
    }

    /// Connects to the database at `url`, which starts out empty.
    pub fn connect(url: &str) -> (db: Self)
        ensures
            db.wf(),
            db@ == empty_database(url@),
    {
        Database {
            url: url.to_string(),
            charges: KeyTable::new(),
            reservations: KeyTable::new(),
        }
    }

    /// Records a charge under `key`, unless one is recorded there already, and
    /// returns the one that is recorded there afterwards.
    pub fn upsert_charge(&mut self, key: &str, charge_id: &str) -> (stored: String)
        requires
            old(self).wf(),
        ensures
            final(self).wf(),
            final(self)@ == (DatabaseView {
                charges: crate::table::with_default(old(self)@.charges, key@, charge_id@),
                ..old(self)@
            }),
            stored@ == final(self)@.charges[key@],
    {
        self.charges.get_or_insert(key, charge_id)
    }

    /// The charge recorded under `key`.
    pub fn find_charge(&self, key: &str) -> (charge_id: Option<String>)
        requires
            self.wf(),
        ensures
            match charge_id {
                Some(id) => self@.charges.contains_key(key@) && id@ == self@.charges[key@],
                None => !self@.charges.contains_key(key@),
            },
    {
        self.charges.get(key)
    }

    /// Records a reservation under `key`, unless one is recorded there already,
    /// and returns the one that is recorded there afterwards.
    pub fn upsert_reservation(&mut self, key: &str, reservation_id: &str) -> (stored: String)
        requires
            old(self).wf(),
        ensures
            final(self).wf(),
            final(self)@ == (DatabaseView {
                reservations: crate::table::with_default(
                    old(self)@.reservations,
                    key@,
                    reservation_id@,
                ),
                ..old(self)@
            }),
            stored@ == final(self)@.reservations[key@],
    {
        self.reservations.get_or_insert(key, reservation_id)
    }

    /// Deletes a reservation under whatever key it is recorded.
    pub fn delete_reservation(&mut self, reservation_id: &str)
        requires
            old(self).wf(),
        ensures
            final(self).wf(),
            final(self)@ == (DatabaseView {
                reservations: crate::table::without_value(
                    old(self)@.reservations,
                    reservation_id@,
                ),
                ..old(self)@
            }),
    {
        self.reservations.remove_value(reservation_id)
    }
}

// ---------------------------------------------------------------------------
// Payment gateway
// ---------------------------------------------------------------------------

/// Why a charge failed.
#[derive(Debug)]
pub enum PaymentError {
    /// Permanent: the card is bad, and trying again will never help.
    Declined(String),
    /// Transient: the gateway was out of reach, and trying again is right.
    Unavailable(String),
}

/// A payment error with its reason as characters.
#[verifier::ext_equal]
pub enum PaymentErrorView {
    Declined(Seq<char>),
    Unavailable(Seq<char>),
}

impl View for PaymentError {
    type V = PaymentErrorView;

    open spec fn view(&self) -> PaymentErrorView {
        match self {
            PaymentError::Declined(reason) => PaymentErrorView::Declined(reason@),
            PaymentError::Unavailable(reason) => PaymentErrorView::Unavailable(reason@),
        }
    }
}

impl PaymentErrorView {
    /// What a person is told.
    pub open spec fn message(self) -> Seq<char> {
        match self {
            PaymentErrorView::Declined(reason) => "card declined: "@ + reason,
            PaymentErrorView::Unavailable(reason) => "payment gateway unavailable: "@ + reason,
        }
    }
}

impl PaymentError {
    /// What a person is told.
    pub fn message(&self) -> (text: String)
        ensures
            text@ == self@.message(),
    {
        match self {
            PaymentError::Declined(reason) => join("card declined: ", reason.as_str()),
            PaymentError::Unavailable(reason) => join(
                "payment gateway unavailable: ",
                reason.as_str(),
            ),
        }
    }
}

/// The outcome of a charge with its texts as characters.
pub open spec fn charge_result_view(result: Result<String, PaymentError>) -> Result<
    Seq<char>,
    PaymentErrorView,
> {
    match result {
        Ok(id) => Ok(id@),
        Err(error) => Err(error@),
    }
}

/// The state of the gateway.
#[verifier::ext_equal]
pub struct GatewayView {
    pub api_key: Seq<char>,
    /// Charges of flaky orders so far.
    pub attempts: u32,
    /// Charges so far.
    pub calls: u32,
}

/// A gateway that nothing has called yet.
pub open spec fn fresh_gateway(api_key: Seq<char>) -> GatewayView {
    GatewayView { api_key, attempts: 0, calls: 0 }
}

/// The next value of a counter, which starts over after the largest one.
pub open spec fn counted(n: u32) -> u32 {
    if n == u32::MAX {
        0
    } else {
        (n + 1) as u32
    }
}

/// How many flaky charges fail before the first that succeeds.
pub const FLAKY_FAILURES: u32 = 2;

/// How many bytes of the idempotency key a charge id takes over.
pub const KEY_PREFIX_BYTES: usize = 8;

/// Whether the card of this order is declined.
pub open spec fn is_declined(order_id: Seq<char>) -> bool {
    crate::text::occurs_in("decline"@, order_id)
}

/// Whether charging this order meets an unreliable gateway.
pub open spec fn is_flaky(order_id: Seq<char>) -> bool {
    crate::text::occurs_in("flaky"@, order_id)
}

/// The id of a charge of `amount_cents` under `key`.
pub open spec fn charge_id_for(amount_cents: u64, key: Seq<char>) -> Seq<char> {
    "ch_"@ + crate::text::decimal(amount_cents as nat) + "_"@ + crate::text::byte_prefix(
        key,
        KEY_PREFIX_BYTES as nat,
    )
}

impl GatewayView {
    /// Whether the next charge of this order is granted.
    pub open spec fn grants(self, order_id: Seq<char>) -> bool {
        !is_declined(order_id) && (!is_flaky(order_id) || self.attempts >= FLAKY_FAILURES)
    }

    /// Why the next charge of this order is refused, if it is.
    pub open spec fn refusal(self, order_id: Seq<char>) -> Option<PaymentErrorView> {
        if is_declined(order_id) {
            Some(PaymentErrorView::Declined("insufficient funds"@))
        } else if is_flaky(order_id) && self.attempts < FLAKY_FAILURES {
            Some(
                PaymentErrorView::Unavailable(
                    "timeout (call "@ + crate::text::decimal(self.attempts as nat) + ")"@,
                ),
            )
        } else {
            None
        }
    }

    /// What charging an order answers.
    pub open spec fn charge_result(
        self,
        order_id: Seq<char>,
        amount_cents: u64,
        key: Seq<char>,
    ) -> Result<Seq<char>, PaymentErrorView> {
        match self.refusal(order_id) {
            Some(error) => Err(error),
            None => Ok(charge_id_for(amount_cents, key)),
        }
    }

    /// The gateway after it was asked to charge an order.
    pub open spec fn after_charge(self, order_id: Seq<char>) -> GatewayView {
        GatewayView {
            calls: counted(self.calls),
            attempts: if !is_declined(order_id) && is_flaky(order_id) {
                counted(self.attempts)
            } else {
                self.attempts
            },
            ..self
        }
    }
}

/// Stand-in for a client of a payment provider.
pub struct PaymentGateway {
    api_key: String,
    /// Only here to play an unreliable provider.
    attempts: u32,
    /// Counts every charge that reached the gateway.
    calls: u32,
}

impl View for PaymentGateway {
    type V = GatewayView;

    closed spec fn view(&self) -> GatewayView {
        GatewayView { api_key: self.api_key@, attempts: self.attempts, calls: self.calls }
    }
}

impl PaymentGateway {
    /// A gateway that nothing has called yet.
    pub fn new(api_key: String) -> (gateway: Self)
        ensures
            gateway@ == fresh_gateway(api_key@),
    {
        PaymentGateway { api_key, attempts: 0, calls: 0 }
    }

    /// How many charges reached the gateway.
    pub fn call_count(&self) -> (count: u32)
        ensures
            count == self@.calls,
    {
        self.calls
    }

    /// Whether the gateway grants the next charge of this order.
    pub fn grants(&self, order_id: &str) -> (granted: bool)
        ensures
            granted == self@.grants(order_id@),
    {
        !contains(order_id, "decline") && (!contains(order_id, "flaky") || self.attempts
            >= FLAKY_FAILURES)
    }

    /// Takes in a charge, before it is given an id: counts it, and refuses the
    /// declined and the flaky.
    pub fn take_in(&mut self, order_id: &str) -> (result: Result<(), PaymentError>)
        ensures
            match result {
                Ok(()) => old(self)@.refusal(order_id@) is None,
                Err(error) => old(self)@.refusal(order_id@) == Some(error@),
            },
            final(self)@ == old(self)@.after_charge(order_id@),
    {
        self.calls = self.calls.wrapping_add(1);

        if contains(order_id, "decline") {
            return Err(PaymentError::Declined("insufficient funds".to_string()));
        }
        if contains(order_id, "flaky") {
            let n: u32 = self.attempts;
            self.attempts = n.wrapping_add(1);
            if n < FLAKY_FAILURES {
                let call = join("timeout (call ", to_decimal(n as u64).as_str());
                return Err(PaymentError::Unavailable(join(call.as_str(), ")")));
            }
        }
        Ok(())
    }

    /// Charges a card.
    ///
    /// `idempotency_key` goes along to the provider, which is the outermost
    /// guard against charging twice. A successful charge takes its first bytes
    /// into the charge id, so there the cut has to fall between two characters.
    pub fn charge(
        &mut self,
        order_id: &str,
        amount_cents: u64,
        idempotency_key: &str,
    ) -> (result: Result<String, PaymentError>)
        requires
            old(self)@.grants(order_id@) ==> crate::text::can_cut(
                idempotency_key@,
                KEY_PREFIX_BYTES as nat,
            ),
        ensures
            charge_result_view(result) == old(self)@.charge_result(
                order_id@,
                amount_cents,
                idempotency_key@,
            ),
            final(self)@ == old(self)@.after_charge(order_id@),
    {
        match self.take_in(order_id) {
            Err(error) => Err(error),
            Ok(()) => {
                let amount = join("ch_", to_decimal(amount_cents).as_str());
                let head = join(amount.as_str(), "_");
                Ok(join(head.as_str(), cut(idempotency_key, KEY_PREFIX_BYTES).as_str()))
            },
        }
    }

    /// Gives a charge back, which the provider always grants.
    pub fn refund(&self, _charge_id: &str) -> (result: Result<(), PaymentError>)
        ensures
            result == Ok::<(), PaymentError>(()),
    {
        Ok(())
    }
}

} // verus!
