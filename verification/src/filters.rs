//! Reversible in-place transforms of a datagram payload.

use vstd::prelude::*;
use vstd::utf8::encode_utf8;

use crate::config::FilterOptions;

pub mod head;
pub mod key;
pub mod xor;

pub use head::Head;
pub use xor::Xor;

use head::{head_reach, lemma_head_involution, lemma_head_transformed};
use key::{base64_standard_decoding, decode_standard};
use xor::{lemma_xor_is_involution, lemma_xor_transformed, xor_bytes};

verus! {

/// An in-place mutation of a datagram payload.
///
/// A transform never fails and never changes the length of the buffer. One
/// that is written under the verifier also publishes, through `byte_at`, the
/// byte it leaves at every index, and sets `modelled` to say so.
pub trait Transform {
    /// Whether `byte_at` describes what `transform` does. An implementation
    /// that leaves this `false` promises the unchanged length and no more.
    open spec fn modelled(&self) -> bool {
        false
    }

    /// The byte that `transform` leaves at index `i` of a buffer that held
    /// `data`. It means something for `0 <= i < data.len()`, and only where
    /// `modelled` holds.
    open spec fn byte_at(&self, data: Seq<u8>, i: int) -> u8 {
        data[i]
    }

    /// Mutates `data` in place.
    fn transform(&self, data: &mut [u8])
        ensures
            final(data)@.len() == old(data)@.len(),
            self.modelled() ==> forall|i: int|
                0 <= i < old(data)@.len() ==> #[trigger] final(data)@[i] == self.byte_at(
                    old(data)@,
                    i,
                ),
    ;
}

/// What a transform makes of a whole payload, as far as it publishes what
/// it does: where `modelled` does not hold of `t`, this says nothing of
/// `t`.
pub open spec fn transformed<T: Transform + ?Sized>(t: &T, data: Seq<u8>) -> Seq<u8> {
    Seq::new(data.len(), |i: int| t.byte_at(data, i))
}

/// Whether applying `t` twice gives every payload back. Only a transform
/// that publishes what it does can be known to be one.
pub open spec fn is_involution<T: Transform + ?Sized>(t: &T) -> bool {
    &&& t.modelled()
    &&& forall|data: Seq<u8>| #[trigger] transformed(t, transformed(t, data)) == data
}

/// A boxed transform behaves as the transform in the box.
impl<T: Transform + ?Sized> Transform for Box<T> {
    open spec fn modelled(&self) -> bool {
        (**self).modelled()
    }

    open spec fn byte_at(&self, data: Seq<u8>, i: int) -> u8 {
        (**self).byte_at(data, i)
    }

    fn transform(&self, data: &mut [u8]) {
        (**self).transform(data)
    }
}

/// A transform keeps the length of every payload, so that of the empty one.
pub proof fn lemma_transformed_len<T: Transform + ?Sized>(t: &T, data: Seq<u8>)
    ensures
        transformed(t, data).len() == data.len(),
        data.len() == 0 ==> transformed(t, data) == data,
{
    if data.len() == 0 {
        assert(transformed(t, data) =~= data);
    }
}

/// The transform that a configuration asks for: XOR with a key, over whole
/// datagrams or over their first bytes only.
pub enum Filter {
    Xor(Xor),
    Head(Head<Xor>),
}

/// Why a configuration names no transform.
#[derive(Debug)]
pub enum FilterError {
    /// The key is not base64.
    InvalidKey(base64::DecodeError),
}

impl Filter {
    /// The key that is XOR-ed in.
    pub open spec fn key(&self) -> Seq<u8> {
        match self {
            Filter::Xor(xor) => xor.key(),
            Filter::Head(head) => head.parent().key(),
        }
    }

    /// The number of leading bytes that are transformed, or `None` for all
    /// bytes.
    pub open spec fn head_len(&self) -> Option<usize> {
        match self {
            Filter::Xor(_) => None,
            Filter::Head(head) => Some(head.n()),
        }
    }
}

impl Transform for Filter {
    open spec fn modelled(&self) -> bool {
        true
    }

    open spec fn byte_at(&self, data: Seq<u8>, i: int) -> u8 {
        match self {
            Filter::Xor(xor) => xor.byte_at(data, i),
            Filter::Head(head) => head.byte_at(data, i),
        }
    }

    fn transform(&self, data: &mut [u8])
        ensures
            final(data)@ == filtered(self.key(), self.head_len(), old(data)@),
    {
        match self {
            Filter::Xor(xor) => xor.transform(data),
            Filter::Head(head) => {
                proof {
                    lemma_xor_transformed(
                        &head.parent(),
                        data@.take(head_reach(head.n(), data@.len())),
                    );
                }
                head.transform(data)
            },
        }
    }
}

/// What the configured transform makes of a payload: the key XOR-ed over
/// all of it, or over its first `head_len` bytes as far as they are there.
pub open spec fn filtered(key: Seq<u8>, head_len: Option<usize>, data: Seq<u8>) -> Seq<u8> {
    match head_len {
        None => xor_bytes(key, data),
        Some(n) => xor_bytes(key, data.take(head_reach(n, data.len()))) + data.skip(
            head_reach(n, data.len()),
        ),
    }
}

/// What `Filter` makes of a payload is `filtered` under its key and head
/// length.
pub proof fn lemma_filter_transformed(filter: &Filter, data: Seq<u8>)
    ensures
        transformed(filter, data) == filtered(filter.key(), filter.head_len(), data),
{
    match filter {
        Filter::Xor(xor) => {
            lemma_xor_transformed(xor, data);
            assert(transformed(filter, data) =~= transformed(xor, data));
        },
        Filter::Head(head) => {
            lemma_head_transformed(head, data);
            lemma_xor_transformed(
                &head.parent(),
                data.take(head_reach(head.n(), data.len())),
            );
            assert(transformed(filter, data) =~= transformed(head, data));
        },
    }
}

/// The configured transform is an involution: the same proxy at the other
/// end of a tunnel gives every payload back.
pub proof fn lemma_filter_involution(filter: &Filter)
    ensures
        is_involution(filter),
{
    assert forall|data: Seq<u8>| #[trigger]
        transformed(filter, transformed(filter, data)) == data by {
        match filter {
            Filter::Xor(xor) => {
                lemma_xor_is_involution(xor);
                assert(transformed(filter, data) =~= transformed(xor, data));
                assert(transformed(filter, transformed(xor, data)) =~= transformed(
                    xor,
                    transformed(xor, data),
                ));
            },
            Filter::Head(head) => {
                lemma_xor_is_involution(&head.parent());
                lemma_head_involution(head);
                assert(transformed(filter, data) =~= transformed(head, data));
                assert(transformed(filter, transformed(head, data)) =~= transformed(
                    head,
                    transformed(head, data),
                ));
            },
        }
    }
}

/// The transform with the key `key`, over the first `head_len` bytes of each
/// datagram where a length is given and over whole datagrams where none is.
pub fn build_filter(key: Vec<u8>, head_len: Option<usize>) -> (filter: Filter)
    ensures
        filter.key() == key@,
        filter.head_len() == head_len,
{
    let xor = Xor::with_key(key);
    match head_len {
        Some(n) => Filter::Head(Head::new(xor, n)),
        None => Filter::Xor(xor),
    }
}

/// Makes the transform that `config` asks for.
///
/// The key is the base64 decoding of the bytes of `xor_key`; a key that
/// does not decode is the one error. An empty key is a key.
pub fn make_filter(config: &FilterOptions) -> (made: Result<Filter, FilterError>)
    ensures
        match base64_standard_decoding(encode_utf8(config.xor_key@)) {
            Some(key) => made is Ok && made->Ok_0.key() == key && made->Ok_0.head_len()
                == config.head_len,
            None => made is Err,
        },
{
    match decode_standard(config.xor_key.as_str().as_bytes()) {
        Ok(key) => Ok(build_filter(key, config.head_len)),
        Err(error) => Err(FilterError::InvalidKey(error)),
    }
}

} // verus!
