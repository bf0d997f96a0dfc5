//! The repeating-key XOR transform.

use vstd::prelude::*;

use super::{is_involution, transformed, Transform};

verus! {

/// `data` with the key laid over it again and again and XOR-ed in. An empty
/// key leaves the payload as it is.
pub open spec fn xor_bytes(key: Seq<u8>, data: Seq<u8>) -> Seq<u8> {
    if key.len() == 0 {
        data
    } else {
        Seq::new(data.len(), |i: int| data[i] ^ key[i % (key.len() as int)])
    }
}

/// XORs a payload with a repeating key.
pub struct Xor {
    key: Vec<u8>,
}

impl Xor {
    /// The key of this transform.
    pub closed spec fn key(&self) -> Seq<u8> {
        self.key@
    }

    /// The transform that XORs with `key`.
    pub fn with_key(key: Vec<u8>) -> (xor: Self)
        ensures
            xor.key() == key@,
    {
        Self { key }
    }
}

impl Transform for Xor {
    open spec fn modelled(&self) -> bool {
        true
    }

    open spec fn byte_at(&self, data: Seq<u8>, i: int) -> u8 {
        xor_bytes(self.key(), data)[i]
    }

    fn transform(&self, data: &mut [u8])
        ensures
            final(data)@ == xor_bytes(self.key(), old(data)@),
    {
        let key_len: usize = self.key.len();
        let len: usize = data.len();
        if key_len == 0 {
            assert(data@ =~= xor_bytes(self.key(), data@));
            return ;
        }
        let mut i: usize = 0;
        while i < len
            invariant
                key_len == self.key@.len(),
                key_len > 0,
                len == data@.len(),
                data@.len() == old(data)@.len(),
                i <= len,
                forall|j: int|
                    0 <= j < i ==> data@[j] == old(data)@[j] ^ self.key@[j % (key_len as int)],
                forall|j: int| i <= j < len ==> data@[j] == old(data)@[j],
            decreases len - i,
        {
            data[i] = data[i] ^ self.key[i % key_len];
            i = i + 1;
        }
        assert(data@ =~= xor_bytes(self.key(), old(data)@));
    }
}

/// What `Xor` makes of a payload is `xor_bytes` under its key.
pub proof fn lemma_xor_transformed(xor: &Xor, data: Seq<u8>)
    ensures
        transformed(xor, data) == xor_bytes(xor.key(), data),
{
    assert(transformed(xor, data) =~= xor_bytes(xor.key(), data));
}

/// XOR is an involution: under one key, applying it twice gives the payload
/// back.
pub proof fn lemma_xor_involution(key: Seq<u8>, data: Seq<u8>)
    ensures
        xor_bytes(key, xor_bytes(key, data)) == data,
{
    if key.len() > 0 {
        assert forall|i: int| 0 <= i < data.len() implies xor_bytes(key, xor_bytes(key, data))[i]
            == data[i] by {
            let d = data[i];
            let k = key[i % (key.len() as int)];
            assert((d ^ k) ^ k == d) by (bit_vector);
        }
    }
    assert(xor_bytes(key, xor_bytes(key, data)) =~= data);
}

/// `Xor` is an involution, whatever its key.
pub proof fn lemma_xor_is_involution(xor: &Xor)
    ensures
        is_involution(xor),
{
    assert forall|data: Seq<u8>| #[trigger] transformed(xor, transformed(xor, data)) == data by {
        lemma_xor_transformed(xor, data);
        lemma_xor_transformed(xor, xor_bytes(xor.key(), data));
        lemma_xor_involution(xor.key(), data);
    }
}

/// An empty key makes XOR a no-op on every payload.
pub proof fn lemma_xor_empty_key(data: Seq<u8>)
    ensures
        xor_bytes(Seq::<u8>::empty(), data) == data,
{
}

/// XOR makes an empty payload of an empty payload, whatever the key.
pub proof fn lemma_xor_empty_payload(key: Seq<u8>)
    ensures
        xor_bytes(key, Seq::<u8>::empty()) == Seq::<u8>::empty(),
{
    assert(xor_bytes(key, Seq::<u8>::empty()) =~= Seq::<u8>::empty());
}

} // verus!
