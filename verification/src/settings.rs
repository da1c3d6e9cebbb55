//! Reading the admin list out of configuration values.

use vstd::prelude::*;
use config::{ConfigError, Value};
use crate::admin::{first_malformed, AdminPolicy, MalformedAdmin};

verus! {

/// A value of the `config` crate: a number, a text, a list and so on,
/// together with where it was read from.
#[verifier::external_type_specification]
#[verifier::external_body]
pub struct ExValue(Value);

/// The error of the `config` crate.
#[verifier::external_type_specification]
#[verifier::external_body]
pub struct ExConfigError(ConfigError);

/// What `Value::into_uint` makes of `entry`: the number it returns, or
/// `None` where it refuses the value. The conversion looks at the value
/// alone, so the same value always reads the same.
pub uninterp spec fn entry_uint(entry: Value) -> Option<u64>;

/// What `Value::into_uint` makes of each entry of a configured list, in
/// order.
pub open spec fn entries_read(values: Seq<Value>) -> Seq<Option<u64>> {
    values.map_values(|entry: Value| entry_uint(entry))
}

/// Calls `Value::into_uint` on a copy of `entry`. The contract gives the
/// call's result its name and claims nothing about which values are
/// accepted.
#[verifier::external_body]
fn entry_into_uint(entry: &Value) -> (id: Result<u64, ConfigError>)
    ensures
        match id {
            Ok(value) => entry_uint(*entry) == Some(value),
            Err(_) => entry_uint(*entry) is None,
        },
{
    entry.clone().into_uint()
}

/// Reads each configured entry as a user identity; `None` where the entry
/// cannot be read as one.
pub fn admin_entries(values: &Vec<Value>) -> (entries: Vec<Option<u64>>)
    ensures
        entries@ == entries_read(values@),
{
    let mut entries: Vec<Option<u64>> = Vec::new();
    let mut i: usize = 0;
    assert(entries@ =~= entries_read(values@.subrange(0, 0)));
    while i < values.len()
        invariant
            i <= values.len(),
            entries@ == entries_read(values@.subrange(0, i as int)),
        decreases values.len() - i,
    {
        let entry = match entry_into_uint(&values[i]) {
            Ok(id) => Some(id),
            Err(_) => None,
        };
        entries.push(entry);
        assert(values@.subrange(0, i + 1) =~= values@.subrange(0, i as int).push(
            values@[i as int],
        ));
        assert(entries@ =~= entries_read(values@.subrange(0, i + 1)));
        i += 1;
    }
    assert(values@.subrange(0, i as int) =~= values@);
    entries
}

/// The admin policy that a configured list stands for: the identities
/// that its entries read as, in order. The list is refused as a whole if
/// one of its entries is no user identity; the error names the first such
/// entry.
pub fn admins_from_config(values: &Vec<Value>) -> (policy: Result<AdminPolicy, MalformedAdmin>)
    ensures
        match policy {
            Ok(policy) => first_malformed(entries_read(values@)) == values@.len() && policy@
                == entries_read(values@).map_values(|entry: Option<u64>| entry->0),
            Err(error) => error.index == first_malformed(entries_read(values@)) && error.index
                < values@.len(),
        },
{
    let entries = admin_entries(values);
    AdminPolicy::from_entries(&entries)
}

} // verus!
