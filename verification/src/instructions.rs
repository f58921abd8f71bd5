use vstd::prelude::*;

verus! {

/// A single requested value transfer: the amount to move. The source and
/// destination are not part of the payload; they are supplied positionally
/// through the account list.
#[derive(Clone, Copy, Debug, PartialEq, Eq, Structural)]
pub struct Transfer {
    pub amount: u64,
}

/// The payload of a fungible-token transfer batch.
#[derive(Clone, Debug, PartialEq, Eq)]
pub struct TransferInstructionData {
    pub transfers: Vec<Transfer>,
}

/// The payload of a native-asset transfer batch.
#[derive(Clone, Debug, PartialEq, Eq)]
pub struct NativeSolTransferData {
    pub transfers: Vec<Transfer>,
}

/// The decoded instruction: a tagged union selecting which downstream
/// primitive the batch is addressed to.
#[derive(Clone, Debug, PartialEq, Eq)]
pub enum InstructionType {
    TokenTransfer(TransferInstructionData),
    NativeSolTransfer(NativeSolTransferData),
}

/// The sequence of requested amounts carried by a sequence of transfers.
pub open spec fn amounts_of(transfers: Seq<Transfer>) -> Seq<u64> {
    transfers.map_values(|t: Transfer| t.amount)
}

/// Law: a batch is pinned by its amounts. Two transfer sequences that carry
/// the same amounts in the same order are the same sequence, so a decoder
/// that fixes the amounts has fixed the whole decoded payload.
pub proof fn lemma_amounts_pin_transfers(a: Seq<Transfer>, b: Seq<Transfer>)
    requires
        amounts_of(a) == amounts_of(b),
    ensures
        a == b,
{
    assert(amounts_of(a).len() == a.len());
    assert(amounts_of(b).len() == b.len());
    assert(a.len() == b.len());
    assert forall|i: int| 0 <= i < a.len() implies a[i] == b[i] by {
        assert(0 <= i < b.len());
        assert(amounts_of(a)[i] == a[i].amount);
        assert(amounts_of(b)[i] == b[i].amount);
        assert(a[i] == (Transfer { amount: a[i].amount }));
        assert(b[i] == (Transfer { amount: b[i].amount }));
    }
    assert(a =~= b);
}

impl InstructionType {
    /// The wire discriminant of this variant.
    pub open spec fn tag(self) -> u8 {
        match self {
            InstructionType::TokenTransfer(_) => 0u8,
            InstructionType::NativeSolTransfer(_) => 1u8,
        }
    }

    /// The requested amounts, in batch order.
    pub open spec fn amounts(self) -> Seq<u64> {
        match self {
            InstructionType::TokenTransfer(d) => amounts_of(d.transfers@),
            InstructionType::NativeSolTransfer(d) => amounts_of(d.transfers@),
        }
    }
}

} // verus!
