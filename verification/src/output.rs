//! The success line reported for a resolved TTL ledger: the bare number,
//! or a labeled message, as the request asked.

use vstd::prelude::*;

verus! {

/// The decimal text of a 32-bit value, as std formats it. A function of
/// the value alone.
pub uninterp spec fn decimal_of(n: u32) -> Seq<char>;

/// Relies on `u32`'s `Display` implementation: the value's decimal
/// digits, nothing else.
#[verifier::external_body]
fn u32_decimal(n: u32) -> (r: String)
    ensures
        r@ == decimal_of(n),
{
    format!("{n}")
}

/// The line to report for a resolved TTL ledger: the bare number when
/// only the number was asked for, else the labeled message
/// `New ttl ledger: <value>`.
pub fn ttl_line(ttl_ledger: u32, ttl_ledger_only: bool) -> (r: String)
    ensures
        ttl_ledger_only ==> r@ == decimal_of(ttl_ledger),
        !ttl_ledger_only ==> r@ == "New ttl ledger: "@ + decimal_of(ttl_ledger),
{
    let number = u32_decimal(ttl_ledger);
    if ttl_ledger_only {
        number
    } else {
        let label = String::from_str("New ttl ledger: ");
        label.concat(number.as_str())
    }
}

} // verus!
