use vstd::prelude::*;

verus! {

/// Bytes at the start of a login file that carry no information.
pub const UNUSED_BUFFER_LENGTH: usize = 4;

/// Length of the raw key blob stored after the unused bytes.
pub const LOGIN_KEY_LENGTH: usize = 20;

/// Length of the cipher key, one AES block.
pub const AES_BLOCK_SIZE: usize = 16;

/// The 16-byte key folded from a 20-byte blob: byte `j` of the key is the
/// XOR of every blob byte whose index is `j` modulo 16.
pub open spec fn folded_key(blob: Seq<u8>) -> Seq<u8> {
    Seq::new(16, |j: int| if j < 4 { blob[j] ^ blob[j + 16] } else { blob[j] })
}

proof fn lemma_xor_zero(x: u8)
    ensures
        x ^ 0u8 == x,
        0u8 ^ x == x,
{
    assert(x ^ 0u8 == x && 0u8 ^ x == x) by (bit_vector);
}

/// Folds the raw key blob of a login file into the AES-128 key by cyclic XOR.
pub fn read_key(key_buffer: &[u8; 20]) -> (r: [u8; 16])
    ensures
        r@ == folded_key(key_buffer@),
{
    let mut rkey: [u8; 16] = [0; 16];
    let mut i: usize = 0;
    proof {
        lemma_xor_zero(0u8);
        assert forall|j: int| 0 <= j < 16 implies #[trigger] rkey@[j] == 0u8 ^ 0u8 by {}
    }
    while i < LOGIN_KEY_LENGTH
        invariant
            i <= 20,
            forall|j: int|
                0 <= j < 16 ==> #[trigger] rkey@[j] == (if j < i { key_buffer@[j] } else { 0u8 }) ^ (
                if j + 16 < i {
                    key_buffer@[j + 16]
                } else {
                    0u8
                }),
        decreases 20 - i,
    {
        let k = i % AES_BLOCK_SIZE;
        proof {
            lemma_xor_zero(0u8);
            lemma_xor_zero(key_buffer@[i as int]);
            lemma_xor_zero(key_buffer@[k as int]);
        }
        let ghost before = rkey@;
        rkey[k] = rkey[k] ^ key_buffer[i];
        assert(rkey@ == before.update(k as int, before[k as int] ^ key_buffer@[i as int]));
        i = i + 1;
    }
    proof {
        assert forall|j: int| 0 <= j < 16 implies #[trigger] rkey@[j] == folded_key(key_buffer@)[j] by {
            lemma_xor_zero(key_buffer@[j]);
        }
    }
    assert(rkey@ =~= folded_key(key_buffer@));
    rkey
}

} // verus!
