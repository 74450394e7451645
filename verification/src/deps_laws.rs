//! What holds of the database and the payment gateway, in terms of the texts
//! that go into them and come out of them.

use vstd::prelude::*;
use vstd::utf8::*;

use crate::deps::{
    GatewayView, PaymentErrorView, DEFAULT_DATABASE_URL, DEFAULT_PAYMENTS_API_KEY, KEY_PREFIX_BYTES,
};

verus! {

// ---------------------------------------------------------------------------
// Configuration
// ---------------------------------------------------------------------------

/// What is configured is taken as it is, whatever it is. Only where nothing is
/// configured, the default stands in, and those of the services are these.
pub proof fn a_configured_value_is_taken_as_it_is(value: String, default: Seq<char>)
    ensures
        crate::deps::configured_or(Some(value), default) == value@,
        crate::deps::configured_or(None, default) == default,
        DEFAULT_DATABASE_URL@ == "postgres://localhost/orders"@,
        DEFAULT_PAYMENTS_API_KEY@ == "test-key"@,
{
}

/// A database starts out where it was asked for, without a charge or a
/// reservation under any key.
pub proof fn a_database_starts_out_empty(url: Seq<char>, key: Seq<char>)
    ensures
        crate::deps::empty_database(url).url == url,
        !crate::deps::empty_database(url).charges.contains_key(key),
        !crate::deps::empty_database(url).reservations.contains_key(key),
{
}

/// A gateway starts out with the key it was given, and with nothing counted.
pub proof fn a_gateway_starts_out_unused(api_key: Seq<char>)
    ensures
        crate::deps::fresh_gateway(api_key).api_key == api_key,
        crate::deps::fresh_gateway(api_key).calls == 0,
        crate::deps::fresh_gateway(api_key).attempts == 0,
{
}

// ---------------------------------------------------------------------------
// Tables
// ---------------------------------------------------------------------------

/// After a write under `key`, there is something under it: what was there
/// before, or else what was written. Under any other key there is what was
/// there before.
pub proof fn a_write_touches_one_key(
    table: Map<Seq<char>, Seq<char>>,
    key: Seq<char>,
    value: Seq<char>,
    any: Seq<char>,
)
    ensures
        ({
            let after = crate::table::with_default(table, key, value);
            &&& after.contains_key(any) <==> table.contains_key(any) || any == key
            &&& table.contains_key(any) ==> after[any] == table[any]
            &&& !table.contains_key(key) ==> after[key] == value
        }),
{
}

/// After a value was deleted, there is under any key what was there before,
/// unless that was the value.
pub proof fn a_deletion_touches_one_value(
    table: Map<Seq<char>, Seq<char>>,
    value: Seq<char>,
    any: Seq<char>,
)
    ensures
        ({
            let after = crate::table::without_value(table, value);
            &&& after.contains_key(any) <==> table.contains_key(any) && table[any] != value
            &&& after.contains_key(any) ==> after[any] == table[any]
        }),
{
}

// ---------------------------------------------------------------------------
// Charges
// ---------------------------------------------------------------------------

/// A card is declined exactly if the order id holds the text "decline".
pub proof fn a_card_is_declined_by_the_order_id(order_id: Seq<char>)
    ensures
        crate::deps::is_declined(order_id) <==> exists|i: int|
            0 <= i <= order_id.len() - 7 && #[trigger] order_id.subrange(i, i + 7) == "decline"@,
{
    reveal_strlit("decline");
    if crate::deps::is_declined(order_id) {
        let at = choose|at: int| crate::text::occurs_at("decline"@, order_id, at);
        assert(order_id.subrange(at, at + 7) == "decline"@);
    }
    if exists|i: int|
        0 <= i <= order_id.len() - 7 && #[trigger] order_id.subrange(i, i + 7) == "decline"@ {
        let i = choose|i: int|
            0 <= i <= order_id.len() - 7 && #[trigger] order_id.subrange(i, i + 7) == "decline"@;
        assert(crate::text::occurs_at("decline"@, order_id, i));
    }
}

/// The gateway is flaky for exactly the orders whose id holds the text "flaky".
pub proof fn a_gateway_is_flaky_by_the_order_id(order_id: Seq<char>)
    ensures
        crate::deps::is_flaky(order_id) <==> exists|i: int|
            0 <= i <= order_id.len() - 5 && #[trigger] order_id.subrange(i, i + 5) == "flaky"@,
{
    reveal_strlit("flaky");
    if crate::deps::is_flaky(order_id) {
        let at = choose|at: int| crate::text::occurs_at("flaky"@, order_id, at);
        assert(order_id.subrange(at, at + 5) == "flaky"@);
    }
    if exists|i: int|
        0 <= i <= order_id.len() - 5 && #[trigger] order_id.subrange(i, i + 5) == "flaky"@ {
        let i = choose|i: int|
            0 <= i <= order_id.len() - 5 && #[trigger] order_id.subrange(i, i + 5) == "flaky"@;
        assert(crate::text::occurs_at("flaky"@, order_id, i));
    }
}

/// The outcome of a charge is settled by the order id and by how many flaky
/// charges there were. With "decline" in the id the card is declined, for want
/// of funds. With "flaky" in it the first two charges time out, and say which
/// of the two they are. Any other charge is granted, and so is a flaky one from
/// the third on.
pub proof fn a_charge_is_settled_by_the_order_id(
    gateway: GatewayView,
    order_id: Seq<char>,
    amount_cents: u64,
    key: Seq<char>,
)
    ensures
        ({
            let declined = exists|i: int|
                0 <= i <= order_id.len() - 7 && #[trigger] order_id.subrange(i, i + 7)
                    == "decline"@;
            let flaky = exists|i: int|
                0 <= i <= order_id.len() - 5 && #[trigger] order_id.subrange(i, i + 5) == "flaky"@;
            let result = gateway.charge_result(order_id, amount_cents, key);
            &&& declined ==> result == Err::<Seq<char>, PaymentErrorView>(
                PaymentErrorView::Declined("insufficient funds"@),
            )
            &&& !declined && flaky && gateway.attempts == 0 ==> (result matches Err(error)
                && error matches PaymentErrorView::Unavailable(reason)
                && reason == "timeout (call 0)"@)
            &&& !declined && flaky && gateway.attempts == 1 ==> (result matches Err(error)
                && error matches PaymentErrorView::Unavailable(reason)
                && reason == "timeout (call 1)"@)
            &&& result is Ok <==> !declined && !(flaky && gateway.attempts < 2)
            &&& gateway.grants(order_id) <==> !declined && !(flaky && gateway.attempts < 2)
            &&& match gateway.refusal(order_id) {
                Some(error) => result == Err::<Seq<char>, PaymentErrorView>(error),
                None => result is Ok,
            }
        }),
{
    a_card_is_declined_by_the_order_id(order_id);
    a_gateway_is_flaky_by_the_order_id(order_id);
    reveal_strlit("timeout (call ");
    reveal_strlit(")");
    reveal_strlit("timeout (call 0)");
    reveal_strlit("timeout (call 1)");
    assert("timeout (call "@ + crate::text::decimal(0) + ")"@ =~= "timeout (call 0)"@);
    assert("timeout (call "@ + crate::text::decimal(1) + ")"@ =~= "timeout (call 1)"@);
}

/// Every charge adds one to the calls, and one to the attempts exactly if the
/// order id holds "flaky" and not "decline". A counter that is full starts over.
/// Nothing else of the gateway changes.
pub proof fn a_charge_is_counted_by_the_order_id(gateway: GatewayView, order_id: Seq<char>)
    ensures
        ({
            let declined = exists|i: int|
                0 <= i <= order_id.len() - 7 && #[trigger] order_id.subrange(i, i + 7)
                    == "decline"@;
            let flaky = exists|i: int|
                0 <= i <= order_id.len() - 5 && #[trigger] order_id.subrange(i, i + 5) == "flaky"@;
            let after = gateway.after_charge(order_id);
            &&& after.api_key == gateway.api_key
            &&& gateway.calls < u32::MAX ==> after.calls == gateway.calls + 1
            &&& gateway.calls == u32::MAX ==> after.calls == 0
            &&& declined || !flaky ==> after.attempts == gateway.attempts
            &&& !declined && flaky && gateway.attempts < u32::MAX ==> after.attempts
                == gateway.attempts + 1
            &&& !declined && flaky && gateway.attempts == u32::MAX ==> after.attempts == 0
        }),
{
    a_card_is_declined_by_the_order_id(order_id);
    a_gateway_is_flaky_by_the_order_id(order_id);
}

/// The id of a granted charge is "ch_", the amount in decimal, "_", and the
/// first characters of the key: as many as take up eight bytes, or all of them
/// where there are fewer.
pub proof fn a_charge_id_holds_the_amount_and_the_head_of_the_key(
    gateway: GatewayView,
    order_id: Seq<char>,
    amount_cents: u64,
    key: Seq<char>,
)
    requires
        gateway.grants(order_id),
        crate::text::can_cut(key, KEY_PREFIX_BYTES as nat),
    ensures
        gateway.charge_result(order_id, amount_cents, key) matches Ok(id)
            && exists|digits: Seq<char>, taken: int|
            {
                &&& 0 <= taken <= key.len()
                &&& crate::text_laws::frames(
                    id,
                    "ch_"@,
                    digits,
                    "_"@ + #[trigger] key.take(taken),
                )
                &&& #[trigger] crate::text_laws::number_of(digits) == amount_cents
                &&& digits.len() > 0
                &&& forall|i: int| 0 <= i < digits.len() ==> '0' <= #[trigger] digits[i] <= '9'
                &&& digits[0] == '0' ==> amount_cents == 0 && digits.len() == 1
                &&& encode_utf8(key.take(taken)).len() == crate::text_laws::shorter(
                    8,
                    encode_utf8(key).len(),
                )
            },
{
    let digits = crate::text::decimal(amount_cents as nat);
    let prefix = crate::text::byte_prefix(key, KEY_PREFIX_BYTES as nat);
    let taken = prefix.len() as int;
    let id = crate::deps::charge_id_for(amount_cents, key);
    crate::text_laws::a_numeral_reads_back(amount_cents as nat);
    crate::text_laws::a_prefix_is_made_of_the_first_characters(key, KEY_PREFIX_BYTES as nat);
    assert(key.take(taken) == prefix);
    assert(crate::text_laws::frames(id, "ch_"@, digits, "_"@ + key.take(taken)));
    assert(crate::text_laws::number_of(digits) == amount_cents);
}

// ---------------------------------------------------------------------------
// Messages
// ---------------------------------------------------------------------------

/// A person is told what kind of failure it was, and the whole reason.
pub proof fn a_payment_error_tells_the_whole_reason(reason: Seq<char>)
    ensures
        crate::text_laws::frames(
            PaymentErrorView::Declined(reason).message(),
            "card declined: "@,
            reason,
            Seq::empty(),
        ),
        crate::text_laws::frames(
            PaymentErrorView::Unavailable(reason).message(),
            "payment gateway unavailable: "@,
            reason,
            Seq::empty(),
        ),
{
}

} // verus!
