//! Who signs a batch: the signer alone where it also pays the fee, the signer
//! and the fee payer otherwise.

use vstd::prelude::*;

verus! {

/// Whether two keys hold the same bytes.
pub fn same_key(a: &[u8; 32], b: &[u8; 32]) -> (same: bool)
    ensures
        same == (a@ == b@),
{
    let mut i: usize = 0;
    while i < 32
        invariant
            i <= 32,
            forall|j: int| 0 <= j < i ==> a@[j] == b@[j],
        decreases 32 - i,
    {
        if a[i] != b[i] {
            return false;
        }
        i = i + 1;
    }
    assert(a@ =~= b@);
    true
}

/// The keys that must sign a batch, in the order of their signatures: one key
/// where the signer pays the fee itself, else the signer and then the fee
/// payer.
pub fn signing_keys(signer: [u8; 32], fee_payer: [u8; 32]) -> (keys: Vec<[u8; 32]>)
    ensures
        signer@ == fee_payer@ ==> keys@ == seq![signer],
        signer@ != fee_payer@ ==> keys@ == seq![signer, fee_payer],
{
    let mut keys: Vec<[u8; 32]> = Vec::new();
    let alone = same_key(&signer, &fee_payer);
    keys.push(signer);
    if !alone {
        keys.push(fee_payer);
    }
    proof {
        if alone {
            assert(keys@ =~= seq![signer]);
        } else {
            assert(keys@ =~= seq![signer, fee_payer]);
        }
    }
    keys
}

} // verus!
