//! Properties that relate several operations of the codec and the pool.

use vstd::prelude::*;
use crate::object_type::MAX_OBJECT_TYPE;
use crate::objects::Object;
use crate::pool::ObjectPool;
use crate::wire::Wire;

verus! {

/// Round trip. `decode_object` returns only an object whose record is a
/// prefix of the input, and `encode_object` writes exactly that record, so
/// encoding what was decoded reproduces the bytes consumed. Conversely, if
/// the input starts with the record of a well-formed object `o`, whatever
/// object the decoder returns there has the same handle, kind and record as
/// `o`: decoding what was encoded gives `o` back, consuming its record exactly.
pub proof fn lemma_round_trip(o: Object, decoded: Object, data: Seq<u8>)
    requires
        o.wf(),
        decoded.wf(),
        o.encoding().is_prefix_of(data),
        decoded.encoding().is_prefix_of(data),
    ensures
        decoded.encoding() == o.encoding(),
        decoded.id_spec() == o.id_spec(),
        decoded.kind() == o.kind(),
{
    let k1 = data.subrange(o.encoding().len() as int, data.len() as int);
    let k2 = data.subrange(decoded.encoding().len() as int, data.len() as int);
    o.lemma_encoding_append(k1);
    decoded.lemma_encoding_append(k2);
    assert(o.encoding() + k1 =~= data);
    assert(decoded.encoding() + k2 =~= data);
    Object::lemma_encode_injective(o, decoded, k1, k2);
}

/// Truncation. A proper prefix of a well-formed object's record does not
/// start with the record of any well-formed object, and its type byte, when
/// present, names a kind; so decoding it fails with `DataEmpty` and never
/// yields a value.
pub proof fn lemma_truncated_record(o: Object, j: int)
    requires
        o.wf(),
        0 <= j < o.encoding().len(),
    ensures
        forall|p: Object| p.wf() ==> !(#[trigger] p.encoding()).is_prefix_of(o.encoding().take(j)),
        j >= 3 ==> o.encoding()[2] <= MAX_OBJECT_TYPE,
{
    let t = o.encoding();
    assert forall|p: Object| p.wf() implies !(#[trigger] p.encoding()).is_prefix_of(t.take(j)) by {
        if p.encoding().is_prefix_of(t.take(j)) {
            let r = t.take(j).skip(p.encoding().len() as int) + t.skip(j);
            p.lemma_encoding_append(r);
            o.lemma_encoding_append(Seq::empty());
            assert(p.encoding() + r =~= t);
            assert(t + Seq::<u8>::empty() =~= t);
            Object::lemma_encode_injective(p, o, r, Seq::empty());
            assert(r.len() >= t.skip(j).len());
        }
    }
    if j >= 3 {
        let tag = o.kind().tag();
        o.kind().lemma_tag_in_range();
        let id = o.id_spec();
        let body = o.put_body(Seq::empty());
        assert(t == id.0.put(tag.put(body)));
        assert(t[2] == tag);
    }
}

/// Validation depends on the pool's contents alone: on an unchanged pool it
/// reports the same handles, in the same order, every time.
pub proof fn lemma_validation_idempotent(p: &ObjectPool, q: &ObjectPool)
    requires
        p@ == q@,
    ensures
        p.dangling_references() == q.dangling_references(),
{
}

} // verus!
