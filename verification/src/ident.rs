//! Correlation identifiers: one fresh, collision-resistant token per
//! request, linking a published envelope to its eventual result record.

use vstd::prelude::*;

verus! {

/// True of the lowercase hexadecimal digit characters.
pub open spec fn is_lower_hex_digit(c: char) -> bool {
    (48 <= c as u32 && c as u32 <= 57) || (97 <= c as u32 && c as u32 <= 102)
}

/// Relies on `uuid::Uuid::new_v4` and `Uuid::simple`: a fresh random
/// version-4 UUID, rendered by the simple format as exactly 32 lowercase
/// hexadecimal digits with no separators. The value itself is random, so
/// nothing beyond its shape is promised.
#[verifier::external_body]
fn uuid_v4_simple() -> (r: String)
    ensures
        r@.len() == 32,
        forall|i: int| 0 <= i < 32 ==> is_lower_hex_digit(#[trigger] r@[i]),
{
    uuid::Uuid::new_v4().simple().to_string()
}

/// A fresh correlation identifier: 32 lowercase hexadecimal digits drawn
/// from a 128-bit random value, so a repeat across any realistic request
/// volume is cryptographically negligible.
pub fn new_correlation_id() -> (r: String)
    ensures
        r@.len() == 32,
        forall|i: int| 0 <= i < 32 ==> is_lower_hex_digit(#[trigger] r@[i]),
{
    uuid_v4_simple()
}

} // verus!
