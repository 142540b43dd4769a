//! The assets that relayers may submit prices for.
use crate::types::{padded, Symbol};
use vstd::prelude::*;

verus! {

/// The symbol that a text of three letters names, as it is stored.
pub open spec fn code(a: u8, b: u8, c: u8) -> Seq<u8> {
    padded(seq![a, b, c])
}

/// Whether an asset is on the approved list: `NGN`, `KES` and `GHS`.
pub open spec fn is_approved(asset: Symbol) -> bool {
    ||| asset@ == code(0x4e, 0x47, 0x4e)  // NGN
    ||| asset@ == code(0x4b, 0x45, 0x53)  // KES
    ||| asset@ == code(0x47, 0x48, 0x53)  // GHS
}

/// Tells whether a symbol is named by three given letters.
fn has_code(asset: &Symbol, a: u8, b: u8, c: u8) -> (matching: bool)
    ensures
        matching == (asset@ == code(a, b, c)),
{
    if asset.name[0] != a || asset.name[1] != b || asset.name[2] != c {
        assert(asset@[0] != code(a, b, c)[0] || asset@[1] != code(a, b, c)[1] || asset@[2]
            != code(a, b, c)[2]);
        return false;
    }
    let mut i: usize = 3;
    while i < 32
        invariant
            3 <= i <= 32,
            asset@[0] == a,
            asset@[1] == b,
            asset@[2] == c,
            forall|j: int| 3 <= j < i ==> #[trigger] asset@[j] == 0,
        decreases 32 - i,
    {
        if asset.name[i] != 0 {
            assert(asset@[i as int] != code(a, b, c)[i as int]);
            return false;
        }
        i += 1;
    }
    assert(asset@ =~= code(a, b, c));
    true
}

/// Tells whether an asset is on the approved list.
pub fn is_approved_asset_symbol(asset: Symbol) -> (approved: bool)
    ensures
        approved == is_approved(asset),
{
    has_code(&asset, 0x4e, 0x47, 0x4e) || has_code(&asset, 0x4b, 0x45, 0x53) || has_code(
        &asset,
        0x47,
        0x48,
        0x53,
    )
}

} // verus!
