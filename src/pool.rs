//! The object pool: objects in stream order with an index from handle to
//! position, whole-pool decoding and encoding, and reference validation.

use std::collections::HashMap;
use vstd::prelude::*;
use crate::object_type::MAX_OBJECT_TYPE;
use crate::objects::Object;
use crate::reader::decode_object;
use crate::types::{EncodeError, ObjectId, ParseError, NULL_ID_VALUE};
use crate::writer::write_object;

verus! {

broadcast use vstd::std_specs::hash::group_hash_axioms;

/// Why a pool could not be built, decoded or queried.
#[derive(Debug, Clone, Copy, PartialEq, Eq, Structural)]
pub enum PoolError {
    /// The record starting at `offset` could not be decoded.
    Parse { offset: usize, error: ParseError },
    /// Two objects define the same (non-null) handle.
    DuplicateId(ObjectId),
    /// No object of the pool has this handle.
    NotFound(ObjectId),
}

/// The records of `objs`, one after the other.
pub open spec fn encodings(objs: Seq<Object>) -> Seq<u8>
    decreases objs.len(),
{
    if objs.len() == 0 {
        Seq::empty()
    } else {
        encodings(objs.drop_last()) + objs.last().encoding()
    }
}

/// Whether some object of `objs` has the (non-null) handle `id`.
pub open spec fn defines(objs: Seq<Object>, id: ObjectId) -> bool {
    !id.is_null_spec() && exists|i: int| 0 <= i < objs.len() && (#[trigger] objs[i]).id_spec() == id
}

/// No two objects share a non-null handle.
pub open spec fn ids_unique(objs: Seq<Object>) -> bool {
    forall|i: int, j: int|
        0 <= i < j < objs.len() && !(#[trigger] objs[i]).id_spec().is_null_spec() ==> objs[i].id_spec()
            != (#[trigger] objs[j]).id_spec()
}

/// Two objects of `objs` have the non-null handle `id`.
pub open spec fn has_duplicate(objs: Seq<Object>, id: ObjectId) -> bool {
    !id.is_null_spec() && exists|i: int, j: int|
        0 <= i < j < objs.len() && (#[trigger] objs[i]).id_spec() == id && (#[trigger] objs[j]).id_spec()
            == id
}

pub open spec fn all_wf(objs: Seq<Object>) -> bool {
    forall|i: int| 0 <= i < objs.len() ==> (#[trigger] objs[i]).wf()
}

/// Every reference held by the objects, object by object in stream order.
pub open spec fn all_references(objs: Seq<Object>) -> Seq<ObjectId>
    decreases objs.len(),
{
    if objs.len() == 0 {
        Seq::empty()
    } else {
        all_references(objs.drop_last()) + objs.last().references()
    }
}

/// The non-null handles among `refs` that no object of `objs` defines,
/// each once, in order of first appearance.
pub open spec fn dangling(refs: Seq<ObjectId>, objs: Seq<Object>) -> Seq<ObjectId>
    decreases refs.len(),
{
    if refs.len() == 0 {
        Seq::empty()
    } else {
        let prev = dangling(refs.drop_last(), objs);
        let x = refs.last();
        if !x.is_null_spec() && !defines(objs, x) && !prev.contains(x) {
            prev.push(x)
        } else {
            prev
        }
    }
}

pub proof fn lemma_dangling_members(refs: Seq<ObjectId>, objs: Seq<Object>)
    ensures
        forall|x: ObjectId|
            #[trigger] dangling(refs, objs).contains(x) <==> (refs.contains(x) && !x.is_null_spec() && !defines(
                objs,
                x,
            )),
        dangling(refs, objs).no_duplicates(),
    decreases refs.len(),
{
    if refs.len() > 0 {
        let p = refs.drop_last();
        let prev = dangling(p, objs);
        let x = refs.last();
        lemma_dangling_members(p, objs);
        assert forall|y: ObjectId| refs.contains(y) <==> (p.contains(y) || y == x) by {
            if refs.contains(y) {
                let i = choose|i: int| 0 <= i < refs.len() && refs[i] == y;
                if i < refs.len() - 1 {
                    assert(p[i] == y);
                }
            }
            if p.contains(y) {
                let i = choose|i: int| 0 <= i < p.len() && p[i] == y;
                assert(refs[i] == y);
            }
            if y == x {
                assert(refs[refs.len() - 1] == y);
            }
        }
        if !x.is_null_spec() && !defines(objs, x) && !prev.contains(x) {
            assert forall|y: ObjectId| #[trigger] prev.push(x).contains(y) <==> (prev.contains(y) || y == x) by {
                vstd::seq_lib::lemma_seq_contains_after_push(prev, x, y);
            }
            let q = prev.push(x);
            assert forall|i: int, j: int| 0 <= i < q.len() && 0 <= j < q.len() && i != j implies q[i] != q[j] by {
                if i < prev.len() && j < prev.len() {
                    assert(q[i] == prev[i] && q[j] == prev[j]);
                } else if i < prev.len() {
                    assert(prev.contains(q[i]));
                } else {
                    assert(prev.contains(q[j]));
                }
            }
        }
        assert forall|y: ObjectId|
            dangling(refs, objs).contains(y) <==> (refs.contains(y) && !y.is_null_spec() && !defines(objs, y)) by {
            assert(prev.contains(y) <==> (p.contains(y) && !y.is_null_spec() && !defines(objs, y)));
            assert(refs.contains(y) <==> (p.contains(y) || y == x));
            if !x.is_null_spec() && !defines(objs, x) && !prev.contains(x) {
                assert(dangling(refs, objs) == prev.push(x));
                vstd::seq_lib::lemma_seq_contains_after_push(prev, x, y);
            } else {
                assert(dangling(refs, objs) == prev);
            }
        }
    }
}

/// Objects in stream order, with an index from handle to position.
#[derive(Debug)]
pub struct ObjectPool {
    objects: Vec<Object>,
    index: HashMap<u16, usize>,
}

impl View for ObjectPool {
    type V = Seq<Object>;

    closed spec fn view(&self) -> Seq<Object> {
        self.objects@
    }
}

impl ObjectPool {
    /// The index maps exactly the non-null handles to their positions.
    pub closed spec fn wf(&self) -> bool {
        &&& forall|i: int|
            0 <= i < self.objects@.len() && !(#[trigger] self.objects@[i]).id_spec().is_null_spec()
                ==> self.index@.contains_key(self.objects@[i].id_spec().0) && self.index@[self.objects@[i].id_spec().0]
                == i
        &&& forall|key: u16|
            #[trigger] self.index@.contains_key(key) ==> key != NULL_ID_VALUE && self.index@[key]
                < self.objects@.len() && self.objects@[self.index@[key] as int].id_spec().0 == key
    }

    /// What `validate_references` reports.
    pub open spec fn dangling_references(&self) -> Seq<ObjectId> {
        dangling(all_references(self@), self@)
    }

    pub proof fn lemma_unique(&self)
        requires
            self.wf(),
        ensures
            ids_unique(self@),
    {
        assert forall|i: int, j: int|
            0 <= i < j < self@.len() && !(#[trigger] self@[i]).id_spec().is_null_spec() implies self@[i].id_spec()
            != (#[trigger] self@[j]).id_spec() by {
            assert(!self.objects@[i].id_spec().is_null_spec());
        }
    }

    proof fn lemma_defines(&self, id: ObjectId)
        requires
            self.wf(),
            !id.is_null_spec(),
        ensures
            defines(self@, id) <==> self.index@.contains_key(id.0),
    {
        if self.index@.contains_key(id.0) {
            let i = self.index@[id.0] as int;
            assert(self@[i].id_spec() == id);
        }
        if defines(self@, id) {
            let i = choose|i: int| 0 <= i < self@.len() && (#[trigger] self@[i]).id_spec() == id;
            assert(!self.objects@[i].id_spec().is_null_spec());
        }
    }

    /// An empty pool.
    pub fn new() -> (r: ObjectPool)
        ensures
            r.wf(),
            r@ == Seq::<Object>::empty(),
    {
        ObjectPool { objects: Vec::new(), index: HashMap::new() }
    }

    /// The number of objects.
    pub fn len(&self) -> (r: usize)
        ensures
            r == self@.len(),
    {
        self.objects.len()
    }

    /// The objects in stream order.
    pub fn objects(&self) -> (r: &[Object])
        ensures
            r@ == self@,
    {
        self.objects.as_slice()
    }

    /// Appends an object. Fails, leaving the pool unchanged, when another
    /// object already has its (non-null) handle.
    pub fn add(&mut self, o: Object) -> (r: Result<(), PoolError>)
        requires
            old(self).wf(),
        ensures
            final(self).wf(),
            r.is_ok() <==> !defines(old(self)@, o.id_spec()),
            match r {
                Ok(_) => final(self)@ == old(self)@.push(o),
                Err(e) => final(self)@ == old(self)@ && e == PoolError::DuplicateId(o.id_spec()),
            },
    {
        let id = o.id();
        proof {
            if !id.is_null_spec() {
                self.lemma_defines(id);
            }
        }
        if !id.is_null() {
            if self.index.contains_key(&id.0) {
                return Err(PoolError::DuplicateId(id));
            }
            let pos = self.objects.len();
            self.index.insert(id.0, pos);
        }
        self.objects.push(o);
        Ok(())
    }

    /// Builds a pool from objects in stream order. Fails on the first object
    /// whose non-null handle an earlier object already has.
    pub fn from_objects(objects: Vec<Object>) -> (r: Result<ObjectPool, PoolError>)
        ensures
            r.is_ok() <==> ids_unique(objects@),
            match r {
                Ok(p) => p.wf() && p@ == objects@,
                Err(e) => exists|id: ObjectId| e == PoolError::DuplicateId(id) && has_duplicate(objects@, id),
            },
    {
        let mut index: HashMap<u16, usize> = HashMap::new();
        let mut i: usize = 0;
        while i < objects.len()
            invariant
                i <= objects@.len(),
                ids_unique(objects@.subrange(0, i as int)),
                forall|j: int|
                    0 <= j < i && !(#[trigger] objects@[j]).id_spec().is_null_spec() ==> index@.contains_key(
                        objects@[j].id_spec().0,
                    ) && index@[objects@[j].id_spec().0] == j,
                forall|key: u16|
                    #[trigger] index@.contains_key(key) ==> key != NULL_ID_VALUE && index@[key] < i
                        && objects@[index@[key] as int].id_spec().0 == key,
            decreases objects@.len() - i,
        {
            let id = objects[i].id();
            if !id.is_null() {
                if index.contains_key(&id.0) {
                    proof {
                        let j = index@[id.0] as int;
                        assert(objects@[j].id_spec() == id);
                        assert(has_duplicate(objects@, id));
                    }
                    return Err(PoolError::DuplicateId(id));
                }
                index.insert(id.0, i);
            }
            proof {
                let s = objects@.subrange(0, i + 1);
                assert forall|a: int, b: int|
                    0 <= a < b < s.len() && !(#[trigger] s[a]).id_spec().is_null_spec() implies s[a].id_spec()
                    != (#[trigger] s[b]).id_spec() by {
                    if b < i {
                        assert(objects@.subrange(0, i as int)[a] == s[a]);
                        assert(objects@.subrange(0, i as int)[b] == s[b]);
                    } else {
                        assert(!objects@[a].id_spec().is_null_spec());
                    }
                }
            }
            i = i + 1;
        }
        proof {
            assert(objects@.subrange(0, objects@.len() as int) =~= objects@);
        }
        Ok(ObjectPool { objects, index })
    }

    /// Looks up the object with handle `id`. The null handle is never defined.
    pub fn get(&self, id: ObjectId) -> (r: Result<&Object, PoolError>)
        requires
            self.wf(),
        ensures
            match r {
                Ok(o) => defines(self@, id) && o.id_spec() == id && self@.contains(*o),
                Err(e) => !defines(self@, id) && e == PoolError::NotFound(id),
            },
    {
        if id.is_null() {
            return Err(PoolError::NotFound(id));
        }
        proof {
            self.lemma_defines(id);
        }
        match self.index.get(&id.0) {
            Some(pos) => {
                let o = &self.objects[*pos];
                proof {
                    assert(self@[*pos as int] == *o);
                }
                Ok(o)
            },
            None => Err(PoolError::NotFound(id)),
        }
    }

    /// Decodes a whole pool: records one after the other until the buffer
    /// ends, then the handles are checked for duplicates.
    pub fn decode(data: &[u8]) -> (r: Result<ObjectPool, PoolError>)
        ensures
            match r {
                Ok(p) => p.wf() && all_wf(p@) && encodings(p@) == data@,
                Err(PoolError::Parse { offset, error }) => offset < data@.len() && (exists|objs: Seq<Object>|
                    all_wf(objs) && #[trigger] encodings(objs) == data@.subrange(0, offset as int)) && (error
                    == ParseError::UnknownObjectType <==> (data@.len() >= offset + 3 && data@[offset + 2]
                    > MAX_OBJECT_TYPE)) && forall|o: Object|
                    o.wf() ==> !(#[trigger] o.encoding()).is_prefix_of(data@.subrange(offset as int, data@.len() as int)),
                Err(PoolError::DuplicateId(id)) => exists|objs: Seq<Object>|
                    all_wf(objs) && #[trigger] encodings(objs) == data@ && has_duplicate(objs, id),
                Err(PoolError::NotFound(_)) => false,
            },
    {
        let mut objects: Vec<Object> = Vec::new();
        let mut pos: usize = 0;
        assert(data@.subrange(0, 0) =~= Seq::<u8>::empty());
        while pos < data.len()
            invariant
                pos <= data@.len(),
                all_wf(objects@),
                encodings(objects@) == data@.subrange(0, pos as int),
            decreases data@.len() - pos,
        {
            match decode_object(data, pos) {
                Ok((o, end)) => {
                    proof {
                        let s = objects@.push(o);
                        assert(s.drop_last() =~= objects@);
                        assert(data@.subrange(0, end as int) =~= data@.subrange(0, pos as int) + data@.subrange(
                            pos as int,
                            end as int,
                        ));
                    }
                    objects.push(o);
                    pos = end;
                },
                Err(error) => {
                    return Err(PoolError::Parse { offset: pos, error });
                },
            }
        }
        proof {
            assert(data@.subrange(0, data@.len() as int) =~= data@);
        }
        let ghost objs = objects@;
        match ObjectPool::from_objects(objects) {
            Ok(p) => Ok(p),
            Err(e) => {
                proof {
                    assert(encodings(objs) == data@);
                }
                Err(e)
            },
        }
    }

    /// Encodes the pool: the record of each object in stream order. Fails
    /// when some object has a counted section too long for its count field.
    pub fn encode(&self) -> (r: Result<Vec<u8>, EncodeError>)
        ensures
            r.is_ok() <==> all_wf(self@),
            match r {
                Ok(bytes) => bytes@ == encodings(self@),
                Err(e) => e == EncodeError::SectionTooLong,
            },
    {
        let mut out: Vec<u8> = Vec::new();
        let mut i: usize = 0;
        assert(self.objects@.subrange(0, 0) =~= Seq::<Object>::empty());
        while i < self.objects.len()
            invariant
                i <= self.objects@.len(),
                all_wf(self.objects@.subrange(0, i as int)),
                out@ == encodings(self.objects@.subrange(0, i as int)),
            decreases self.objects@.len() - i,
        {
            let o = &self.objects[i];
            if !o.is_encodable() {
                return Err(EncodeError::SectionTooLong);
            }
            let ghost before = out@;
            write_object(o, &mut out);
            proof {
                let e = Seq::<u8>::empty();
                assert(before + o.encode_into(e) == out@ + e);
                assert(out@ + e =~= out@);
                let s = self.objects@.subrange(0, i + 1);
                assert(s.drop_last() =~= self.objects@.subrange(0, i as int));
                assert(s.last() == *o);
            }
            i = i + 1;
        }
        proof {
            assert(self.objects@.subrange(0, self.objects@.len() as int) =~= self.objects@);
        }
        Ok(out)
    }

    /// Every non-null handle that some reference field of some object holds
    /// and that no object of the pool defines; each once, in order of first
    /// appearance. Decoding does not run this check.
    pub fn validate_references(&self) -> (r: Vec<ObjectId>)
        requires
            self.wf(),
        ensures
            r@ == self.dangling_references(),
            r@.no_duplicates(),
            forall|x: ObjectId|
                r@.contains(x) <==> (all_references(self@).contains(x) && !x.is_null_spec() && !defines(
                    self@,
                    x,
                )),
    {
        let mut refs: Vec<ObjectId> = Vec::new();
        let mut i: usize = 0;
        assert(self.objects@.subrange(0, 0) =~= Seq::<Object>::empty());
        while i < self.objects.len()
            invariant
                i <= self.objects@.len(),
                refs@ == all_references(self.objects@.subrange(0, i as int)),
            decreases self.objects@.len() - i,
        {
            self.objects[i].collect_references(&mut refs);
            proof {
                let s = self.objects@.subrange(0, i + 1);
                assert(s.drop_last() =~= self.objects@.subrange(0, i as int));
            }
            i = i + 1;
        }
        proof {
            assert(self.objects@.subrange(0, self.objects@.len() as int) =~= self.objects@);
        }
        let mut result: Vec<ObjectId> = Vec::new();
        let mut j: usize = 0;
        assert(refs@.subrange(0, 0) =~= Seq::<ObjectId>::empty());
        while j < refs.len()
            invariant
                self.wf(),
                j <= refs@.len(),
                refs@ == all_references(self@),
                result@ == dangling(refs@.subrange(0, j as int), self@),
            decreases refs@.len() - j,
        {
            let x = refs[j];
            proof {
                let s = refs@.subrange(0, j + 1);
                assert(s.drop_last() =~= refs@.subrange(0, j as int));
                assert(s.last() == x);
                if !x.is_null_spec() {
                    self.lemma_defines(x);
                }
            }
            if !x.is_null() && !self.index.contains_key(&x.0) && !contains_id(&result, x) {
                result.push(x);
            }
            j = j + 1;
        }
        proof {
            assert(refs@.subrange(0, refs@.len() as int) =~= refs@);
            lemma_dangling_members(refs@, self@);
        }
        result
    }
}

fn contains_id(v: &Vec<ObjectId>, x: ObjectId) -> (r: bool)
    ensures
        r == v@.contains(x),
{
    let mut i: usize = 0;
    while i < v.len()
        invariant
            i <= v@.len(),
            forall|j: int| 0 <= j < i ==> v@[j] != x,
        decreases v@.len() - i,
    {
        if v[i] == x {
            return true;
        }
        i = i + 1;
    }
    false
}

} // verus!
