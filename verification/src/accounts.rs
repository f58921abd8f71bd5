use vstd::prelude::*;

verus! {

/// An account handle as this processor sees it: the identity key of the
/// resource, whether its holder signed the invocation, and whether the
/// runtime handed it over writable. The processor reads these attributes and
/// never mutates the account itself.
#[derive(Clone, Copy, Debug, PartialEq, Eq)]
pub struct AccountHandle {
    pub key: [u8; 32],
    pub is_signer: bool,
    pub is_writable: bool,
}

/// The well-known identity of the fungible-token program
/// (base58 `TokenkegQfeZyiNwAJbNbGKPFXCWuBvf9Ss623VQ5DA`).
pub open spec fn token_program_id_bytes() -> Seq<u8> {
    seq![
        6u8, 221u8, 246u8, 225u8, 215u8, 101u8, 161u8, 147u8, 217u8, 203u8, 225u8, 70u8, 206u8,
        235u8, 121u8, 172u8, 28u8, 180u8, 133u8, 237u8, 95u8, 91u8, 55u8, 145u8, 58u8, 140u8,
        245u8, 133u8, 126u8, 255u8, 0u8, 169u8,
    ]
}

/// The well-known identity of the native-transfer (system) program: the
/// all-zero key (base58 `11111111111111111111111111111111`).
pub open spec fn native_program_id_bytes() -> Seq<u8> {
    Seq::new(32, |i: int| 0u8)
}

/// The token program identity as a concrete key.
pub fn token_program_id() -> (r: [u8; 32])
    ensures
        r@ == token_program_id_bytes(),
{
    let r: [u8; 32] = [
        6, 221, 246, 225, 215, 101, 161, 147, 217, 203, 225, 70, 206, 235, 121, 172, 28, 180, 133,
        237, 95, 91, 55, 145, 58, 140, 245, 133, 126, 255, 0, 169,
    ];
    proof {
        assert(r@ =~= token_program_id_bytes());
    }
    r
}

/// The native-transfer program identity as a concrete key.
pub fn native_program_id() -> (r: [u8; 32])
    ensures
        r@ == native_program_id_bytes(),
{
    let r: [u8; 32] = [0u8; 32];
    proof {
        assert(r@ =~= native_program_id_bytes());
    }
    r
}

/// Whether two identity keys are the same key.
pub fn keys_equal(a: &[u8; 32], b: &[u8; 32]) -> (r: bool)
    ensures
        r == (a@ == b@),
{
    let mut i: usize = 0;
    while i < 32
        invariant
            i <= 32,
            forall|j: int| 0 <= j < i ==> a@[j] == b@[j],
        decreases 32 - i,
    {
        if a[i] != b[i] {
            proof {
                assert(a@[i as int] != b@[i as int]);
            }
            return false;
        }
        i = i + 1;
    }
    proof {
        assert(a@ =~= b@);
    }
    true
}

} // verus!
