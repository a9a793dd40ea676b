//! Account identities. The library never looks inside a key: it stores the
//! keys it is handed and hands them back in records, transfer requests and
//! events.

use vstd::prelude::*;

verus! {

/// `anchor_lang::prelude::Pubkey`, the 32-byte account address. Declared
/// opaque: nothing is claimed about its contents.
#[verifier::external_type_specification]
#[verifier::external_body]
pub struct ExPubkey(anchor_lang::prelude::Pubkey);

/// `Clone::clone` on `Pubkey`. The key is plain `Copy` data and its `Clone`
/// is derived, so the clone is the key itself.
pub assume_specification[ <anchor_lang::prelude::Pubkey as Clone>::clone ](
    key: &anchor_lang::prelude::Pubkey,
) -> (copy: anchor_lang::prelude::Pubkey)
    ensures
        copy == *key,
;

} // verus!
