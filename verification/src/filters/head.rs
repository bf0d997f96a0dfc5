//! Restricts a transform to the first bytes of a payload.

use vstd::prelude::*;

use super::{is_involution, transformed, Transform};

verus! {

/// How many bytes of a payload of `len` bytes a head of `n` bytes covers.
pub open spec fn head_reach(n: usize, len: nat) -> int {
    if n as int <= len as int {
        n as int
    } else {
        len as int
    }
}

/// Applies `parent` to the first `n` bytes of a payload and leaves the rest
/// alone. A payload shorter than `n` is transformed whole.
pub struct Head<T: Transform> {
    parent: T,
    n: usize,
}

impl<T: Transform> Head<T> {
    /// The transform applied to the head.
    pub closed spec fn parent(&self) -> T {
        self.parent
    }

    /// The number of leading bytes that the transform is applied to.
    pub closed spec fn n(&self) -> usize {
        self.n
    }

    /// The transform that applies `parent` to the first `n` bytes.
    pub fn new(parent: T, n: usize) -> (head: Self)
        ensures
            head.parent() == parent,
            head.n() == n,
    {
        Self { parent, n }
    }
}

impl<T: Transform> Transform for Head<T> {
    open spec fn modelled(&self) -> bool {
        self.parent().modelled()
    }

    open spec fn byte_at(&self, data: Seq<u8>, i: int) -> u8 {
        let k = head_reach(self.n(), data.len());
        if i < k {
            self.parent().byte_at(data.take(k), i)
        } else {
            data[i]
        }
    }

    fn transform(&self, data: &mut [u8])
        ensures
            final(data)@.skip(head_reach(self.n(), old(data)@.len())) == old(data)@.skip(
                head_reach(self.n(), old(data)@.len()),
            ),
            self.modelled() ==> final(data)@ == transformed(
                &self.parent(),
                old(data)@.take(head_reach(self.n(), old(data)@.len())),
            ) + old(data)@.skip(head_reach(self.n(), old(data)@.len())),
    {
        let len: usize = data.len();
        let k: usize = if self.n <= len {
            self.n
        } else {
            len
        };
        let ghost before = data@;
        let (head, tail) = data.split_at_mut(k);
        let ghost tail_before = tail@;
        self.parent.transform(head);
        proof {
            let after = head@ + tail_before;
            assert(after.skip(k as int) =~= before.skip(k as int));
            if self.modelled() {
                assert(after =~= transformed(&self.parent(), before.take(k as int)) + before.skip(
                    k as int,
                ));
            }
        }
    }
}

/// Head is pointwise: what it makes of a payload is the parent's image of
/// the head that is there, followed by the rest of the payload unchanged.
pub proof fn lemma_head_transformed<T: Transform>(head: &Head<T>, data: Seq<u8>)
    ensures
        transformed(head, data) == transformed(
            &head.parent(),
            data.take(head_reach(head.n(), data.len())),
        ) + data.skip(head_reach(head.n(), data.len())),
{
    let k = head_reach(head.n(), data.len());
    assert(transformed(head, data) =~= transformed(&head.parent(), data.take(k)) + data.skip(k));
}

/// A head of no bytes is a no-op, whatever the parent does. Of a parent
/// that publishes nothing the same holds of the buffer itself: `transform`
/// leaves all that lies behind the head as it was.
pub proof fn lemma_head_zero<T: Transform>(head: &Head<T>, data: Seq<u8>)
    requires
        head.n() == 0,
    ensures
        transformed(head, data) == data,
{
    assert(transformed(head, data) =~= data);
}

/// A head that is longer than the payload transforms the whole payload, as
/// the parent alone would.
pub proof fn lemma_head_covers_short_payload<T: Transform>(head: &Head<T>, data: Seq<u8>)
    requires
        head.n() >= data.len(),
    ensures
        transformed(head, data) == transformed(&head.parent(), data),
{
    assert(data.take(data.len() as int) =~= data);
    assert(transformed(head, data) =~= transformed(&head.parent(), data));
}

/// The head of an involution is an involution.
pub proof fn lemma_head_involution<T: Transform>(head: &Head<T>)
    requires
        is_involution(&head.parent()),
    ensures
        is_involution(head),
{
    assert forall|data: Seq<u8>| #[trigger]
        transformed(head, transformed(head, data)) == data by {
        let k = head_reach(head.n(), data.len());
        let once = transformed(head, data);
        let inner_once = transformed(&head.parent(), data.take(k));
        lemma_head_transformed(head, data);
        lemma_head_transformed(head, once);
        assert(once.take(k) =~= inner_once);
        assert(once.skip(k) =~= data.skip(k));
        assert(transformed(&head.parent(), inner_once) == data.take(k));
        assert(data.take(k) + data.skip(k) =~= data);
    }
}

} // verus!
