//! Identifiers of migrations.

use vstd::prelude::*;

verus! {

/// `c` is a decimal digit or one of the letters `a` to `f`.
pub open spec fn is_lower_hex(c: char) -> bool {
    ('0' <= c && c <= '9') || ('a' <= c && c <= 'f')
}

/// `id` has the form of a random identifier: thirty-six characters, hyphens
/// after the eighth, twelfth, sixteenth and twentieth of its thirty-two
/// lower-case hexadecimal digits, the thirteenth digit `4`, and the
/// seventeenth one of `8`, `9`, `a`, `b`.
pub open spec fn is_migration_id(id: Seq<char>) -> bool {
    &&& id.len() == 36
    &&& forall|i: int|
        0 <= i < 36 ==> if i == 8 || i == 13 || i == 18 || i == 23 {
            #[trigger] id[i] == '-'
        } else {
            is_lower_hex(id[i])
        }
    &&& id[14] == '4'
    &&& (id[19] == '8' || id[19] == '9' || id[19] == 'a' || id[19] == 'b')
}

/// A fresh identifier for a migration.
///
/// Calls `uuid::Uuid::new_v4` and formats what it returns with the type's
/// `Display`. The contract claims what holds of every version 4 identifier in
/// that format, the hyphenated lower-case one: its length, the places of its
/// hyphens, its version digit and the range of its variant digit. Which
/// identifier comes back is left open. The outside function panics where the
/// operating system gives it no random bytes.
#[verifier::external_body]
pub(crate) fn new_migration_id() -> (id: String)
    ensures
        is_migration_id(id@),
{
    uuid::Uuid::new_v4().to_string()
}

} // verus!
