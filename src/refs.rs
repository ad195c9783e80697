//! The object handles held by the list-valued fields of objects.

use vstd::prelude::*;
use crate::types::{MacroRef, ObjectId, ObjectLabel, ObjectRef};

verus! {

/// The child handles of a list of placed children.
pub open spec fn ref_ids(s: Seq<ObjectRef>) -> Seq<ObjectId> {
    s.map_values(|r: ObjectRef| r.id)
}

/// The Macro objects that a list of event bindings names; a macro id is
/// the low byte of the Macro object's handle.
pub open spec fn macro_ids(s: Seq<MacroRef>) -> Seq<ObjectId> {
    s.map_values(|m: MacroRef| ObjectId(m.macro_id as u16))
}

/// For each label in order: the labelled object, its string variable and its graphic.
pub open spec fn label_ids(s: Seq<ObjectLabel>) -> Seq<ObjectId>
    decreases s.len(),
{
    if s.len() == 0 {
        Seq::empty()
    } else {
        let l = s.last();
        label_ids(s.drop_last()) + seq![l.id, l.string_variable_reference, l.graphic_representation]
    }
}

pub fn push_ids(s: &Vec<ObjectId>, out: &mut Vec<ObjectId>)
    ensures
        final(out)@ == old(out)@ + s@,
{
    let ghost start = out@;
    let mut i: usize = 0;
    while i < s.len()
        invariant
            i <= s@.len(),
            out@ == start + s@.subrange(0, i as int),
        decreases s@.len() - i,
    {
        out.push(s[i]);
        i = i + 1;
        assert(out@ =~= start + s@.subrange(0, i as int));
    }
    assert(s@.subrange(0, s@.len() as int) =~= s@);
}

pub fn push_ref_ids(s: &Vec<ObjectRef>, out: &mut Vec<ObjectId>)
    ensures
        final(out)@ == old(out)@ + ref_ids(s@),
{
    let ghost start = out@;
    let mut i: usize = 0;
    while i < s.len()
        invariant
            i <= s@.len(),
            out@ == start + ref_ids(s@.subrange(0, i as int)),
        decreases s@.len() - i,
    {
        out.push(s[i].id);
        i = i + 1;
        assert(out@ =~= start + ref_ids(s@.subrange(0, i as int)));
    }
    assert(s@.subrange(0, s@.len() as int) =~= s@);
}

pub fn push_macro_ids(s: &Vec<MacroRef>, out: &mut Vec<ObjectId>)
    ensures
        final(out)@ == old(out)@ + macro_ids(s@),
{
    let ghost start = out@;
    let mut i: usize = 0;
    while i < s.len()
        invariant
            i <= s@.len(),
            out@ == start + macro_ids(s@.subrange(0, i as int)),
        decreases s@.len() - i,
    {
        out.push(ObjectId(s[i].macro_id as u16));
        i = i + 1;
        assert(out@ =~= start + macro_ids(s@.subrange(0, i as int)));
    }
    assert(s@.subrange(0, s@.len() as int) =~= s@);
}

pub fn push_label_ids(s: &Vec<ObjectLabel>, out: &mut Vec<ObjectId>)
    ensures
        final(out)@ == old(out)@ + label_ids(s@),
{
    let ghost start = out@;
    let mut i: usize = 0;
    assert(s@.subrange(0, 0) =~= Seq::<ObjectLabel>::empty());
    assert(start + label_ids(Seq::<ObjectLabel>::empty()) =~= start);
    while i < s.len()
        invariant
            i <= s@.len(),
            out@ == start + label_ids(s@.subrange(0, i as int)),
        decreases s@.len() - i,
    {
        let l = s[i];
        out.push(l.id);
        out.push(l.string_variable_reference);
        out.push(l.graphic_representation);
        proof {
            let p = s@.subrange(0, i + 1);
            assert(p.drop_last() =~= s@.subrange(0, i as int));
            assert(p.last() == l);
        }
        i = i + 1;
        assert(out@ =~= start + label_ids(s@.subrange(0, i as int)));
    }
    assert(s@.subrange(0, s@.len() as int) =~= s@);
}

} // verus!
