use vstd::prelude::*;

verus! {

/// The pool's configured identity seed: an eight-byte module tag,
/// fixed at configuration time. It is the only input of the
/// pool-account derivation.
#[derive(Clone, Copy, Debug, PartialEq, Eq)]
pub struct PalletId {
    pub bytes: [u8; 8],
}

/// A ledger account identifier: 32 bytes, opaque to the engine beyond
/// being a transfer counterparty.
#[derive(Clone, Debug, PartialEq, Eq)]
pub struct AccountId {
    pub bytes: Vec<u8>,
}

/// The fixed tag that marks an account as a module's custody account:
/// the ASCII bytes of "modl".
pub open spec fn account_id_prefix() -> Seq<u8> {
    seq![109u8, 111u8, 100u8, 108u8]
}

/// The custody account derived from a module seed: the module tag,
/// then the seed, padded with zeros to the 32-byte account width. A
/// pure function of the seed — no randomness and no mutable state.
pub open spec fn spec_account_id_bytes(seed: Seq<u8>) -> Seq<u8> {
    account_id_prefix() + seed + Seq::new(20, |i: int| 0u8)
}

impl PalletId {
    /// Derives the custody account this seed addresses. Deterministic:
    /// the result is pinned, byte for byte, to the derivation above.
    pub fn derive_account_id(&self) -> (r: AccountId)
        ensures
            r.bytes@ == spec_account_id_bytes(self.bytes@),
            r.bytes@.len() == 32,
    {
        let mut bytes: Vec<u8> = Vec::new();
        bytes.push(109);
        bytes.push(111);
        bytes.push(100);
        bytes.push(108);
        assert(bytes@ =~= account_id_prefix());
        let mut i: usize = 0;
        while i < 8
            invariant
                i <= 8,
                bytes@ == account_id_prefix() + self.bytes@.take(i as int),
            decreases 8 - i,
        {
            bytes.push(self.bytes[i]);
            assert(bytes@ =~= account_id_prefix() + self.bytes@.take(i + 1));
            i = i + 1;
        }
        assert(self.bytes@.take(8) =~= self.bytes@);
        let mut j: usize = 0;
        while j < 20
            invariant
                j <= 20,
                bytes@ == account_id_prefix() + self.bytes@ + Seq::new(j as nat, |k: int| 0u8),
            decreases 20 - j,
        {
            bytes.push(0);
            assert(bytes@ =~= account_id_prefix() + self.bytes@ + Seq::new(
                (j + 1) as nat,
                |k: int| 0u8,
            ));
            j = j + 1;
        }
        AccountId { bytes }
    }
}

} // verus!
