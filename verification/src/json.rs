//! The JSON values that the capability reads or passes through.
use vstd::prelude::*;

verus! {

/// A JSON value, carried through the library as it is.
#[verifier::external_type_specification]
#[verifier::external_body]
pub struct ExJsonValue(serde_json::Value);

/// What a JSON value holds under `key`: `None` when it is not an object
/// with a member of that name, `Some(Some(n))` when the member is a number
/// that fits an `i64`, `Some(None)` for any other member.
pub uninterp spec fn json_integer_member(payload: serde_json::Value, key: Seq<char>) -> Option<Option<i64>>;

/// The quantity delta of a stock adjustment, from what the payload holds
/// under `quantityDelta` and under `quantity_delta`: `None` for a key that
/// is absent, `Some(None)` for a member that is not an integer. The
/// camel-case member wins whenever it is present, even when it is not an
/// integer; the delta is zero when no integer is found.
pub open spec fn resolved_quantity_delta(camel_case: Option<Option<i64>>, snake_case: Option<Option<i64>>) -> i64 {
    match camel_case {
        Some(Some(delta)) => delta,
        Some(None) => 0,
        None => match snake_case {
            Some(Some(delta)) => delta,
            _ => 0,
        },
    }
}

/// How the delta of an adjustment follows from the members found: an
/// integer `quantityDelta` is the delta, whatever its sign; a
/// `quantityDelta` that is not an integer gives 0; without a
/// `quantityDelta`, an integer `quantity_delta` is the delta; with neither,
/// the delta is 0.
pub proof fn lemma_quantity_delta_resolution(camel_case: Option<Option<i64>>, snake_case: Option<Option<i64>>)
    ensures
        camel_case matches Some(Some(d)) ==> resolved_quantity_delta(camel_case, snake_case) == d,
        camel_case == Some(None::<i64>) ==> resolved_quantity_delta(camel_case, snake_case) == 0,
        camel_case is None ==> (snake_case matches Some(Some(d)) ==> resolved_quantity_delta(
            camel_case,
            snake_case,
        ) == d),
        camel_case is None && (snake_case is None || snake_case == Some(None::<i64>)) ==> resolved_quantity_delta(
            camel_case,
            snake_case,
        ) == 0,
{
}

/// The quantity delta of a stock adjustment from the members found.
pub fn resolve_quantity_delta(camel_case: Option<Option<i64>>, snake_case: Option<Option<i64>>) -> (d: i64)
    ensures
        d == resolved_quantity_delta(camel_case, snake_case),
        camel_case matches Some(Some(delta)) ==> d == delta,
        camel_case == Some(None::<i64>) ==> d == 0,
        camel_case is None ==> (snake_case matches Some(Some(delta)) ==> d == delta),
        camel_case is None && (snake_case is None || snake_case == Some(None::<i64>)) ==> d == 0,
{
    match camel_case {
        Some(found) => match found {
            Some(delta) => delta,
            None => 0,
        },
        None => match snake_case {
            Some(Some(delta)) => delta,
            _ => 0,
        },
    }
}

/// `serde_json::Value::get` with a string key, then `Value::as_i64` on the
/// member found: what the payload holds under `key`, which depends on the
/// payload and the key alone.
#[verifier::external_body]
fn integer_member(payload: &serde_json::Value, key: &str) -> (r: Option<Option<i64>>)
    ensures
        r == json_integer_member(*payload, key@),
{
    payload.get(key).map(serde_json::Value::as_i64)
}

/// The quantity delta of a merchant stock adjustment payload: the
/// resolution of what it holds under `quantityDelta` and `quantity_delta`.
pub fn merchant_adjustment_quantity_delta(payload: &serde_json::Value) -> (d: i64)
    ensures
        d == resolved_quantity_delta(
            json_integer_member(*payload, "quantityDelta"@),
            json_integer_member(*payload, "quantity_delta"@),
        ),
        json_integer_member(*payload, "quantityDelta"@) matches Some(Some(delta)) ==> d == delta,
        json_integer_member(*payload, "quantityDelta"@) == Some(None::<i64>) ==> d == 0,
        json_integer_member(*payload, "quantityDelta"@) is None ==> (json_integer_member(
            *payload,
            "quantity_delta"@,
        ) matches Some(Some(delta)) ==> d == delta),
        json_integer_member(*payload, "quantityDelta"@) is None && (json_integer_member(*payload, "quantity_delta"@)
            is None || json_integer_member(*payload, "quantity_delta"@) == Some(None::<i64>)) ==> d == 0,
{
    let camel_case = integer_member(payload, "quantityDelta");
    let snake_case = integer_member(payload, "quantity_delta");
    proof {
        lemma_quantity_delta_resolution(camel_case, snake_case);
    }
    resolve_quantity_delta(camel_case, snake_case)
}

} // verus!
