//! The object kinds of a pool, their wire encoding, and the references
//! each kind holds to other objects.

use vstd::prelude::*;
use crate::object_type::ObjectType;
use crate::types::{Colour, LanguageCode, MacroRef, Name, ObjectId, ObjectLabel, ObjectRef, ParseError, Point};
use crate::refs::{label_ids, macro_ids, push_ids, push_label_ids, push_macro_ids, push_ref_ids, ref_ids};
use crate::wire::{
    lemma_append_step, lemma_counted16_append, lemma_counted16_injective, lemma_counted32_append,
    lemma_counted32_injective, lemma_counted8_append, lemma_counted8_injective, lemma_put_injective,
    put_counted16, put_counted32, put_counted8, read_counted16, read_counted32, read_counted8,
    write_counted16, write_counted32, write_counted8, Cursor, Wire,
};

verus! {

broadcast use {lemma_put_injective, lemma_counted8_injective, lemma_counted16_injective, lemma_counted32_injective};

/// The root object of a pool: the active mask and the designator shown for the working set.
#[derive(Debug, Clone, PartialEq, Eq)]
pub struct WorkingSet {
    pub id: ObjectId,
    pub background_colour: u8,
    pub selectable: bool,
    pub active_mask: ObjectId,
    pub object_refs: Vec<ObjectRef>,
    pub macro_refs: Vec<MacroRef>,
    pub language_codes: Vec<LanguageCode>,
}

impl WorkingSet {
    /// Every counted section fits its count field.
    pub open spec fn wf(&self) -> bool {
        self.object_refs@.len() <= 0xff && self.macro_refs@.len() <= 0xff && self.language_codes@.len() <= 0xff
    }

    /// The fields after the object header, in order, followed by `k`.
    pub open spec fn put_body(&self, k: Seq<u8>) -> Seq<u8> {
        self.background_colour.put(self.selectable.put(self.active_mask.put(put_counted8(self.object_refs@, put_counted8(self.macro_refs@, put_counted8(self.language_codes@, k))))))
    }

    pub fn is_encodable(&self) -> (r: bool)
        ensures
            r == self.wf(),
    {
        self.object_refs.len() <= 0xff && self.macro_refs.len() <= 0xff && self.language_codes.len() <= 0xff
    }

    pub proof fn lemma_body_append(&self, k: Seq<u8>)
        ensures
            self.put_body(k) == self.put_body(Seq::empty()) + k,
    {
        let e = Seq::<u8>::empty();
        let k5 = put_counted8(self.language_codes@, k);
        let e5 = put_counted8(self.language_codes@, e);
        lemma_counted8_append(self.language_codes@, k);
        let k4 = put_counted8(self.macro_refs@, k5);
        let e4 = put_counted8(self.macro_refs@, e5);
        lemma_counted8_append(self.macro_refs@, k5);
        lemma_counted8_append(self.macro_refs@, e5);
        lemma_append_step(put_counted8(self.macro_refs@, e), k4, e4, k5, e5, k);
        let k3 = put_counted8(self.object_refs@, k4);
        let e3 = put_counted8(self.object_refs@, e4);
        lemma_counted8_append(self.object_refs@, k4);
        lemma_counted8_append(self.object_refs@, e4);
        lemma_append_step(put_counted8(self.object_refs@, e), k3, e3, k4, e4, k);
        let k2 = self.active_mask.put(k3);
        let e2 = self.active_mask.put(e3);
        <ObjectId as Wire>::lemma_put_append(self.active_mask, k3);
        <ObjectId as Wire>::lemma_put_append(self.active_mask, e3);
        lemma_append_step(self.active_mask.put(e), k2, e2, k3, e3, k);
        let k1 = self.selectable.put(k2);
        let e1 = self.selectable.put(e2);
        <bool as Wire>::lemma_put_append(self.selectable, k2);
        <bool as Wire>::lemma_put_append(self.selectable, e2);
        lemma_append_step(self.selectable.put(e), k1, e1, k2, e2, k);
        let k0 = self.background_colour.put(k1);
        let e0 = self.background_colour.put(e1);
        <u8 as Wire>::lemma_put_append(self.background_colour, k1);
        <u8 as Wire>::lemma_put_append(self.background_colour, e1);
        lemma_append_step(self.background_colour.put(e), k0, e0, k1, e1, k);
    }

    /// The fields are fixed by their encoding, and so is where it ends.
    pub proof fn lemma_body_injective(x: WorkingSet, y: WorkingSet, k1: Seq<u8>, k2: Seq<u8>)
        requires
            x.wf(),
            y.wf(),
            x.put_body(k1) == y.put_body(k2),
        ensures
            k1 == k2,
    {
    }

    /// Reads the fields that follow the object header.
    pub fn read_body(cur: &mut Cursor, id: ObjectId) -> (r: Result<WorkingSet, ParseError>)
        requires
            old(cur).wf(),
        ensures
            final(cur).wf(),
            final(cur).data == old(cur).data,
            match r {
                Ok(x) => x.id == id && x.wf() && old(cur).rest() == x.put_body(final(cur).rest()),
                Err(e) => e == ParseError::DataEmpty && forall|x: WorkingSet, k: Seq<u8>|
                    x.wf() ==> #[trigger] x.put_body(k) != old(cur).rest(),
            },
    {
        let background_colour = <u8 as Wire>::read(cur)?;
        let selectable = <bool as Wire>::read(cur)?;
        let active_mask = <ObjectId as Wire>::read(cur)?;
        let object_refs = read_counted8::<ObjectRef>(cur)?;
        let macro_refs = read_counted8::<MacroRef>(cur)?;
        let language_codes = read_counted8::<LanguageCode>(cur)?;
        Ok(WorkingSet { id, background_colour, selectable, active_mask, object_refs, macro_refs, language_codes })
    }

    /// Writes the fields that follow the object header.
    pub fn write_body(&self, out: &mut Vec<u8>)
        requires
            self.wf(),
        ensures
            forall|k: Seq<u8>| old(out)@ + #[trigger] self.put_body(k) == final(out)@ + k,
    {
        self.background_colour.write(out);
        self.selectable.write(out);
        self.active_mask.write(out);
        write_counted8(&self.object_refs, out);
        write_counted8(&self.macro_refs, out);
        write_counted8(&self.language_codes, out);
    }

    /// The handles of other objects of the pool that this object refers to, in field order.
    pub open spec fn references(&self) -> Seq<ObjectId> {
        seq![self.active_mask] + ref_ids(self.object_refs@) + macro_ids(self.macro_refs@)
    }

    /// Appends the handles that `references` lists.
    pub fn collect_references(&self, out: &mut Vec<ObjectId>)
        ensures
            final(out)@ == old(out)@ + self.references(),
    {
        let ghost start = out@;
        out.push(self.active_mask);
        push_ref_ids(&self.object_refs, out);
        push_macro_ids(&self.macro_refs, out);
        assert(out@ =~= start + self.references());
    }
}

/// A full-screen mask of data objects.
#[derive(Debug, Clone, PartialEq, Eq)]
pub struct DataMask {
    pub id: ObjectId,
    pub background_colour: u8,
    pub soft_key_mask: ObjectId,
    pub object_refs: Vec<ObjectRef>,
    pub macro_refs: Vec<MacroRef>,
}

impl DataMask {
    /// Every counted section fits its count field.
    pub open spec fn wf(&self) -> bool {
        self.object_refs@.len() <= 0xff && self.macro_refs@.len() <= 0xff
    }

    /// The fields after the object header, in order, followed by `k`.
    pub open spec fn put_body(&self, k: Seq<u8>) -> Seq<u8> {
        self.background_colour.put(self.soft_key_mask.put(put_counted8(self.object_refs@, put_counted8(self.macro_refs@, k))))
    }

    pub fn is_encodable(&self) -> (r: bool)
        ensures
            r == self.wf(),
    {
        self.object_refs.len() <= 0xff && self.macro_refs.len() <= 0xff
    }

    pub proof fn lemma_body_append(&self, k: Seq<u8>)
        ensures
            self.put_body(k) == self.put_body(Seq::empty()) + k,
    {
        let e = Seq::<u8>::empty();
        let k3 = put_counted8(self.macro_refs@, k);
        let e3 = put_counted8(self.macro_refs@, e);
        lemma_counted8_append(self.macro_refs@, k);
        let k2 = put_counted8(self.object_refs@, k3);
        let e2 = put_counted8(self.object_refs@, e3);
        lemma_counted8_append(self.object_refs@, k3);
        lemma_counted8_append(self.object_refs@, e3);
        lemma_append_step(put_counted8(self.object_refs@, e), k2, e2, k3, e3, k);
        let k1 = self.soft_key_mask.put(k2);
        let e1 = self.soft_key_mask.put(e2);
        <ObjectId as Wire>::lemma_put_append(self.soft_key_mask, k2);
        <ObjectId as Wire>::lemma_put_append(self.soft_key_mask, e2);
        lemma_append_step(self.soft_key_mask.put(e), k1, e1, k2, e2, k);
        let k0 = self.background_colour.put(k1);
        let e0 = self.background_colour.put(e1);
        <u8 as Wire>::lemma_put_append(self.background_colour, k1);
        <u8 as Wire>::lemma_put_append(self.background_colour, e1);
        lemma_append_step(self.background_colour.put(e), k0, e0, k1, e1, k);
    }

    /// The fields are fixed by their encoding, and so is where it ends.
    pub proof fn lemma_body_injective(x: DataMask, y: DataMask, k1: Seq<u8>, k2: Seq<u8>)
        requires
            x.wf(),
            y.wf(),
            x.put_body(k1) == y.put_body(k2),
        ensures
            k1 == k2,
    {
    }

    /// Reads the fields that follow the object header.
    pub fn read_body(cur: &mut Cursor, id: ObjectId) -> (r: Result<DataMask, ParseError>)
        requires
            old(cur).wf(),
        ensures
            final(cur).wf(),
            final(cur).data == old(cur).data,
            match r {
                Ok(x) => x.id == id && x.wf() && old(cur).rest() == x.put_body(final(cur).rest()),
                Err(e) => e == ParseError::DataEmpty && forall|x: DataMask, k: Seq<u8>|
                    x.wf() ==> #[trigger] x.put_body(k) != old(cur).rest(),
            },
    {
        let background_colour = <u8 as Wire>::read(cur)?;
        let soft_key_mask = <ObjectId as Wire>::read(cur)?;
        let object_refs = read_counted8::<ObjectRef>(cur)?;
        let macro_refs = read_counted8::<MacroRef>(cur)?;
        Ok(DataMask { id, background_colour, soft_key_mask, object_refs, macro_refs })
    }

    /// Writes the fields that follow the object header.
    pub fn write_body(&self, out: &mut Vec<u8>)
        requires
            self.wf(),
        ensures
            forall|k: Seq<u8>| old(out)@ + #[trigger] self.put_body(k) == final(out)@ + k,
    {
        self.background_colour.write(out);
        self.soft_key_mask.write(out);
        write_counted8(&self.object_refs, out);
        write_counted8(&self.macro_refs, out);
    }

    /// The handles of other objects of the pool that this object refers to, in field order.
    pub open spec fn references(&self) -> Seq<ObjectId> {
        seq![self.soft_key_mask] + ref_ids(self.object_refs@) + macro_ids(self.macro_refs@)
    }

    /// Appends the handles that `references` lists.
    pub fn collect_references(&self, out: &mut Vec<ObjectId>)
        ensures
            final(out)@ == old(out)@ + self.references(),
    {
        let ghost start = out@;
        out.push(self.soft_key_mask);
        push_ref_ids(&self.object_refs, out);
        push_macro_ids(&self.macro_refs, out);
        assert(out@ =~= start + self.references());
    }
}

/// A mask shown when an alarm is raised.
#[derive(Debug, Clone, PartialEq, Eq)]
pub struct AlarmMask {
    pub id: ObjectId,
    pub background_colour: u8,
    pub soft_key_mask: ObjectId,
    pub priority: u8,
    pub acoustic_signal: u8,
    pub object_refs: Vec<ObjectRef>,
    pub macro_refs: Vec<MacroRef>,
}

impl AlarmMask {
    /// Every counted section fits its count field.
    pub open spec fn wf(&self) -> bool {
        self.object_refs@.len() <= 0xff && self.macro_refs@.len() <= 0xff
    }

    /// The fields after the object header, in order, followed by `k`.
    pub open spec fn put_body(&self, k: Seq<u8>) -> Seq<u8> {
        self.background_colour.put(self.soft_key_mask.put(self.priority.put(self.acoustic_signal.put(put_counted8(self.object_refs@, put_counted8(self.macro_refs@, k))))))
    }

    pub fn is_encodable(&self) -> (r: bool)
        ensures
            r == self.wf(),
    {
        self.object_refs.len() <= 0xff && self.macro_refs.len() <= 0xff
    }

    pub proof fn lemma_body_append(&self, k: Seq<u8>)
        ensures
            self.put_body(k) == self.put_body(Seq::empty()) + k,
    {
        let e = Seq::<u8>::empty();
        let k5 = put_counted8(self.macro_refs@, k);
        let e5 = put_counted8(self.macro_refs@, e);
        lemma_counted8_append(self.macro_refs@, k);
        let k4 = put_counted8(self.object_refs@, k5);
        let e4 = put_counted8(self.object_refs@, e5);
        lemma_counted8_append(self.object_refs@, k5);
        lemma_counted8_append(self.object_refs@, e5);
        lemma_append_step(put_counted8(self.object_refs@, e), k4, e4, k5, e5, k);
        let k3 = self.acoustic_signal.put(k4);
        let e3 = self.acoustic_signal.put(e4);
        <u8 as Wire>::lemma_put_append(self.acoustic_signal, k4);
        <u8 as Wire>::lemma_put_append(self.acoustic_signal, e4);
        lemma_append_step(self.acoustic_signal.put(e), k3, e3, k4, e4, k);
        let k2 = self.priority.put(k3);
        let e2 = self.priority.put(e3);
        <u8 as Wire>::lemma_put_append(self.priority, k3);
        <u8 as Wire>::lemma_put_append(self.priority, e3);
        lemma_append_step(self.priority.put(e), k2, e2, k3, e3, k);
        let k1 = self.soft_key_mask.put(k2);
        let e1 = self.soft_key_mask.put(e2);
        <ObjectId as Wire>::lemma_put_append(self.soft_key_mask, k2);
        <ObjectId as Wire>::lemma_put_append(self.soft_key_mask, e2);
        lemma_append_step(self.soft_key_mask.put(e), k1, e1, k2, e2, k);
        let k0 = self.background_colour.put(k1);
        let e0 = self.background_colour.put(e1);
        <u8 as Wire>::lemma_put_append(self.background_colour, k1);
        <u8 as Wire>::lemma_put_append(self.background_colour, e1);
        lemma_append_step(self.background_colour.put(e), k0, e0, k1, e1, k);
    }

    /// The fields are fixed by their encoding, and so is where it ends.
    pub proof fn lemma_body_injective(x: AlarmMask, y: AlarmMask, k1: Seq<u8>, k2: Seq<u8>)
        requires
            x.wf(),
            y.wf(),
            x.put_body(k1) == y.put_body(k2),
        ensures
            k1 == k2,
    {
    }

    /// Reads the fields that follow the object header.
    pub fn read_body(cur: &mut Cursor, id: ObjectId) -> (r: Result<AlarmMask, ParseError>)
        requires
            old(cur).wf(),
        ensures
            final(cur).wf(),
            final(cur).data == old(cur).data,
            match r {
                Ok(x) => x.id == id && x.wf() && old(cur).rest() == x.put_body(final(cur).rest()),
                Err(e) => e == ParseError::DataEmpty && forall|x: AlarmMask, k: Seq<u8>|
                    x.wf() ==> #[trigger] x.put_body(k) != old(cur).rest(),
            },
    {
        let background_colour = <u8 as Wire>::read(cur)?;
        let soft_key_mask = <ObjectId as Wire>::read(cur)?;
        let priority = <u8 as Wire>::read(cur)?;
        let acoustic_signal = <u8 as Wire>::read(cur)?;
        let object_refs = read_counted8::<ObjectRef>(cur)?;
        let macro_refs = read_counted8::<MacroRef>(cur)?;
        Ok(AlarmMask { id, background_colour, soft_key_mask, priority, acoustic_signal, object_refs, macro_refs })
    }

    /// Writes the fields that follow the object header.
    pub fn write_body(&self, out: &mut Vec<u8>)
        requires
            self.wf(),
        ensures
            forall|k: Seq<u8>| old(out)@ + #[trigger] self.put_body(k) == final(out)@ + k,
    {
        self.background_colour.write(out);
        self.soft_key_mask.write(out);
        self.priority.write(out);
        self.acoustic_signal.write(out);
        write_counted8(&self.object_refs, out);
        write_counted8(&self.macro_refs, out);
    }

    /// The handles of other objects of the pool that this object refers to, in field order.
    pub open spec fn references(&self) -> Seq<ObjectId> {
        seq![self.soft_key_mask] + ref_ids(self.object_refs@) + macro_ids(self.macro_refs@)
    }

    /// Appends the handles that `references` lists.
    pub fn collect_references(&self, out: &mut Vec<ObjectId>)
        ensures
            final(out)@ == old(out)@ + self.references(),
    {
        let ghost start = out@;
        out.push(self.soft_key_mask);
        push_ref_ids(&self.object_refs, out);
        push_macro_ids(&self.macro_refs, out);
        assert(out@ =~= start + self.references());
    }
}

/// A group of objects that can be shown or hidden together.
#[derive(Debug, Clone, PartialEq, Eq)]
pub struct Container {
    pub id: ObjectId,
    pub width: u16,
    pub height: u16,
    pub hidden: bool,
    pub object_refs: Vec<ObjectRef>,
    pub macro_refs: Vec<MacroRef>,
}

impl Container {
    /// Every counted section fits its count field.
    pub open spec fn wf(&self) -> bool {
        self.object_refs@.len() <= 0xff && self.macro_refs@.len() <= 0xff
    }

    /// The fields after the object header, in order, followed by `k`.
    pub open spec fn put_body(&self, k: Seq<u8>) -> Seq<u8> {
        self.width.put(self.height.put(self.hidden.put(put_counted8(self.object_refs@, put_counted8(self.macro_refs@, k)))))
    }

    pub fn is_encodable(&self) -> (r: bool)
        ensures
            r == self.wf(),
    {
        self.object_refs.len() <= 0xff && self.macro_refs.len() <= 0xff
    }

    pub proof fn lemma_body_append(&self, k: Seq<u8>)
        ensures
            self.put_body(k) == self.put_body(Seq::empty()) + k,
    {
        let e = Seq::<u8>::empty();
        let k4 = put_counted8(self.macro_refs@, k);
        let e4 = put_counted8(self.macro_refs@, e);
        lemma_counted8_append(self.macro_refs@, k);
        let k3 = put_counted8(self.object_refs@, k4);
        let e3 = put_counted8(self.object_refs@, e4);
        lemma_counted8_append(self.object_refs@, k4);
        lemma_counted8_append(self.object_refs@, e4);
        lemma_append_step(put_counted8(self.object_refs@, e), k3, e3, k4, e4, k);
        let k2 = self.hidden.put(k3);
        let e2 = self.hidden.put(e3);
        <bool as Wire>::lemma_put_append(self.hidden, k3);
        <bool as Wire>::lemma_put_append(self.hidden, e3);
        lemma_append_step(self.hidden.put(e), k2, e2, k3, e3, k);
        let k1 = self.height.put(k2);
        let e1 = self.height.put(e2);
        <u16 as Wire>::lemma_put_append(self.height, k2);
        <u16 as Wire>::lemma_put_append(self.height, e2);
        lemma_append_step(self.height.put(e), k1, e1, k2, e2, k);
        let k0 = self.width.put(k1);
        let e0 = self.width.put(e1);
        <u16 as Wire>::lemma_put_append(self.width, k1);
        <u16 as Wire>::lemma_put_append(self.width, e1);
        lemma_append_step(self.width.put(e), k0, e0, k1, e1, k);
    }

    /// The fields are fixed by their encoding, and so is where it ends.
    pub proof fn lemma_body_injective(x: Container, y: Container, k1: Seq<u8>, k2: Seq<u8>)
        requires
            x.wf(),
            y.wf(),
            x.put_body(k1) == y.put_body(k2),
        ensures
            k1 == k2,
    {
    }

    /// Reads the fields that follow the object header.
    pub fn read_body(cur: &mut Cursor, id: ObjectId) -> (r: Result<Container, ParseError>)
        requires
            old(cur).wf(),
        ensures
            final(cur).wf(),
            final(cur).data == old(cur).data,
            match r {
                Ok(x) => x.id == id && x.wf() && old(cur).rest() == x.put_body(final(cur).rest()),
                Err(e) => e == ParseError::DataEmpty && forall|x: Container, k: Seq<u8>|
                    x.wf() ==> #[trigger] x.put_body(k) != old(cur).rest(),
            },
    {
        let width = <u16 as Wire>::read(cur)?;
        let height = <u16 as Wire>::read(cur)?;
        let hidden = <bool as Wire>::read(cur)?;
        let object_refs = read_counted8::<ObjectRef>(cur)?;
        let macro_refs = read_counted8::<MacroRef>(cur)?;
        Ok(Container { id, width, height, hidden, object_refs, macro_refs })
    }

    /// Writes the fields that follow the object header.
    pub fn write_body(&self, out: &mut Vec<u8>)
        requires
            self.wf(),
        ensures
            forall|k: Seq<u8>| old(out)@ + #[trigger] self.put_body(k) == final(out)@ + k,
    {
        self.width.write(out);
        self.height.write(out);
        self.hidden.write(out);
        write_counted8(&self.object_refs, out);
        write_counted8(&self.macro_refs, out);
    }

    /// The handles of other objects of the pool that this object refers to, in field order.
    pub open spec fn references(&self) -> Seq<ObjectId> {
        ref_ids(self.object_refs@) + macro_ids(self.macro_refs@)
    }

    /// Appends the handles that `references` lists.
    pub fn collect_references(&self, out: &mut Vec<ObjectId>)
        ensures
            final(out)@ == old(out)@ + self.references(),
    {
        let ghost start = out@;
        push_ref_ids(&self.object_refs, out);
        push_macro_ids(&self.macro_refs, out);
        assert(out@ =~= start + self.references());
    }
}

/// The soft keys shown beside a data or alarm mask.
#[derive(Debug, Clone, PartialEq, Eq)]
pub struct SoftKeyMask {
    pub id: ObjectId,
    pub background_colour: u8,
    pub objects: Vec<ObjectId>,
    pub macro_refs: Vec<MacroRef>,
}

impl SoftKeyMask {
    /// Every counted section fits its count field.
    pub open spec fn wf(&self) -> bool {
        self.objects@.len() <= 0xff && self.macro_refs@.len() <= 0xff
    }

    /// The fields after the object header, in order, followed by `k`.
    pub open spec fn put_body(&self, k: Seq<u8>) -> Seq<u8> {
        self.background_colour.put(put_counted8(self.objects@, put_counted8(self.macro_refs@, k)))
    }

    pub fn is_encodable(&self) -> (r: bool)
        ensures
            r == self.wf(),
    {
        self.objects.len() <= 0xff && self.macro_refs.len() <= 0xff
    }

    pub proof fn lemma_body_append(&self, k: Seq<u8>)
        ensures
            self.put_body(k) == self.put_body(Seq::empty()) + k,
    {
        let e = Seq::<u8>::empty();
        let k2 = put_counted8(self.macro_refs@, k);
        let e2 = put_counted8(self.macro_refs@, e);
        lemma_counted8_append(self.macro_refs@, k);
        let k1 = put_counted8(self.objects@, k2);
        let e1 = put_counted8(self.objects@, e2);
        lemma_counted8_append(self.objects@, k2);
        lemma_counted8_append(self.objects@, e2);
        lemma_append_step(put_counted8(self.objects@, e), k1, e1, k2, e2, k);
        let k0 = self.background_colour.put(k1);
        let e0 = self.background_colour.put(e1);
        <u8 as Wire>::lemma_put_append(self.background_colour, k1);
        <u8 as Wire>::lemma_put_append(self.background_colour, e1);
        lemma_append_step(self.background_colour.put(e), k0, e0, k1, e1, k);
    }

    /// The fields are fixed by their encoding, and so is where it ends.
    pub proof fn lemma_body_injective(x: SoftKeyMask, y: SoftKeyMask, k1: Seq<u8>, k2: Seq<u8>)
        requires
            x.wf(),
            y.wf(),
            x.put_body(k1) == y.put_body(k2),
        ensures
            k1 == k2,
    {
    }

    /// Reads the fields that follow the object header.
    pub fn read_body(cur: &mut Cursor, id: ObjectId) -> (r: Result<SoftKeyMask, ParseError>)
        requires
            old(cur).wf(),
        ensures
            final(cur).wf(),
            final(cur).data == old(cur).data,
            match r {
                Ok(x) => x.id == id && x.wf() && old(cur).rest() == x.put_body(final(cur).rest()),
                Err(e) => e == ParseError::DataEmpty && forall|x: SoftKeyMask, k: Seq<u8>|
                    x.wf() ==> #[trigger] x.put_body(k) != old(cur).rest(),
            },
    {
        let background_colour = <u8 as Wire>::read(cur)?;
        let objects = read_counted8::<ObjectId>(cur)?;
        let macro_refs = read_counted8::<MacroRef>(cur)?;
        Ok(SoftKeyMask { id, background_colour, objects, macro_refs })
    }

    /// Writes the fields that follow the object header.
    pub fn write_body(&self, out: &mut Vec<u8>)
        requires
            self.wf(),
        ensures
            forall|k: Seq<u8>| old(out)@ + #[trigger] self.put_body(k) == final(out)@ + k,
    {
        self.background_colour.write(out);
        write_counted8(&self.objects, out);
        write_counted8(&self.macro_refs, out);
    }

    /// The handles of other objects of the pool that this object refers to, in field order.
    pub open spec fn references(&self) -> Seq<ObjectId> {
        self.objects@ + macro_ids(self.macro_refs@)
    }

    /// Appends the handles that `references` lists.
    pub fn collect_references(&self, out: &mut Vec<ObjectId>)
        ensures
            final(out)@ == old(out)@ + self.references(),
    {
        let ghost start = out@;
        push_ids(&self.objects, out);
        push_macro_ids(&self.macro_refs, out);
        assert(out@ =~= start + self.references());
    }
}

/// One soft key.
#[derive(Debug, Clone, PartialEq, Eq)]
pub struct Key {
    pub id: ObjectId,
    pub background_colour: u8,
    pub key_code: u8,
    pub object_refs: Vec<ObjectRef>,
    pub macro_refs: Vec<MacroRef>,
}

impl Key {
    /// Every counted section fits its count field.
    pub open spec fn wf(&self) -> bool {
        self.object_refs@.len() <= 0xff && self.macro_refs@.len() <= 0xff
    }

    /// The fields after the object header, in order, followed by `k`.
    pub open spec fn put_body(&self, k: Seq<u8>) -> Seq<u8> {
        self.background_colour.put(self.key_code.put(put_counted8(self.object_refs@, put_counted8(self.macro_refs@, k))))
    }

    pub fn is_encodable(&self) -> (r: bool)
        ensures
            r == self.wf(),
    {
        self.object_refs.len() <= 0xff && self.macro_refs.len() <= 0xff
    }

    pub proof fn lemma_body_append(&self, k: Seq<u8>)
        ensures
            self.put_body(k) == self.put_body(Seq::empty()) + k,
    {
        let e = Seq::<u8>::empty();
        let k3 = put_counted8(self.macro_refs@, k);
        let e3 = put_counted8(self.macro_refs@, e);
        lemma_counted8_append(self.macro_refs@, k);
        let k2 = put_counted8(self.object_refs@, k3);
        let e2 = put_counted8(self.object_refs@, e3);
        lemma_counted8_append(self.object_refs@, k3);
        lemma_counted8_append(self.object_refs@, e3);
        lemma_append_step(put_counted8(self.object_refs@, e), k2, e2, k3, e3, k);
        let k1 = self.key_code.put(k2);
        let e1 = self.key_code.put(e2);
        <u8 as Wire>::lemma_put_append(self.key_code, k2);
        <u8 as Wire>::lemma_put_append(self.key_code, e2);
        lemma_append_step(self.key_code.put(e), k1, e1, k2, e2, k);
        let k0 = self.background_colour.put(k1);
        let e0 = self.background_colour.put(e1);
        <u8 as Wire>::lemma_put_append(self.background_colour, k1);
        <u8 as Wire>::lemma_put_append(self.background_colour, e1);
        lemma_append_step(self.background_colour.put(e), k0, e0, k1, e1, k);
    }

    /// The fields are fixed by their encoding, and so is where it ends.
    pub proof fn lemma_body_injective(x: Key, y: Key, k1: Seq<u8>, k2: Seq<u8>)
        requires
            x.wf(),
            y.wf(),
            x.put_body(k1) == y.put_body(k2),
        ensures
            k1 == k2,
    {
    }

    /// Reads the fields that follow the object header.
    pub fn read_body(cur: &mut Cursor, id: ObjectId) -> (r: Result<Key, ParseError>)
        requires
            old(cur).wf(),
        ensures
            final(cur).wf(),
            final(cur).data == old(cur).data,
            match r {
                Ok(x) => x.id == id && x.wf() && old(cur).rest() == x.put_body(final(cur).rest()),
                Err(e) => e == ParseError::DataEmpty && forall|x: Key, k: Seq<u8>|
                    x.wf() ==> #[trigger] x.put_body(k) != old(cur).rest(),
            },
    {
        let background_colour = <u8 as Wire>::read(cur)?;
        let key_code = <u8 as Wire>::read(cur)?;
        let object_refs = read_counted8::<ObjectRef>(cur)?;
        let macro_refs = read_counted8::<MacroRef>(cur)?;
        Ok(Key { id, background_colour, key_code, object_refs, macro_refs })
    }

    /// Writes the fields that follow the object header.
    pub fn write_body(&self, out: &mut Vec<u8>)
        requires
            self.wf(),
        ensures
            forall|k: Seq<u8>| old(out)@ + #[trigger] self.put_body(k) == final(out)@ + k,
    {
        self.background_colour.write(out);
        self.key_code.write(out);
        write_counted8(&self.object_refs, out);
        write_counted8(&self.macro_refs, out);
    }

    /// The handles of other objects of the pool that this object refers to, in field order.
    pub open spec fn references(&self) -> Seq<ObjectId> {
        ref_ids(self.object_refs@) + macro_ids(self.macro_refs@)
    }

    /// Appends the handles that `references` lists.
    pub fn collect_references(&self, out: &mut Vec<ObjectId>)
        ensures
            final(out)@ == old(out)@ + self.references(),
    {
        let ghost start = out@;
        push_ref_ids(&self.object_refs, out);
        push_macro_ids(&self.macro_refs, out);
        assert(out@ =~= start + self.references());
    }
}

/// A button on a mask.
#[derive(Debug, Clone, PartialEq, Eq)]
pub struct Button {
    pub id: ObjectId,
    pub width: u16,
    pub height: u16,
    pub background_colour: u8,
    pub border_colour: u8,
    pub key_code: u8,
    pub options: u8,
    pub object_refs: Vec<ObjectRef>,
    pub macro_refs: Vec<MacroRef>,
}

impl Button {
    /// Every counted section fits its count field.
    pub open spec fn wf(&self) -> bool {
        self.object_refs@.len() <= 0xff && self.macro_refs@.len() <= 0xff
    }

    /// The fields after the object header, in order, followed by `k`.
    pub open spec fn put_body(&self, k: Seq<u8>) -> Seq<u8> {
        self.width.put(self.height.put(self.background_colour.put(self.border_colour.put(self.key_code.put(self.options.put(put_counted8(self.object_refs@, put_counted8(self.macro_refs@, k))))))))
    }

    pub fn is_encodable(&self) -> (r: bool)
        ensures
            r == self.wf(),
    {
        self.object_refs.len() <= 0xff && self.macro_refs.len() <= 0xff
    }

    pub proof fn lemma_body_append(&self, k: Seq<u8>)
        ensures
            self.put_body(k) == self.put_body(Seq::empty()) + k,
    {
        let e = Seq::<u8>::empty();
        let k7 = put_counted8(self.macro_refs@, k);
        let e7 = put_counted8(self.macro_refs@, e);
        lemma_counted8_append(self.macro_refs@, k);
        let k6 = put_counted8(self.object_refs@, k7);
        let e6 = put_counted8(self.object_refs@, e7);
        lemma_counted8_append(self.object_refs@, k7);
        lemma_counted8_append(self.object_refs@, e7);
        lemma_append_step(put_counted8(self.object_refs@, e), k6, e6, k7, e7, k);
        let k5 = self.options.put(k6);
        let e5 = self.options.put(e6);
        <u8 as Wire>::lemma_put_append(self.options, k6);
        <u8 as Wire>::lemma_put_append(self.options, e6);
        lemma_append_step(self.options.put(e), k5, e5, k6, e6, k);
        let k4 = self.key_code.put(k5);
        let e4 = self.key_code.put(e5);
        <u8 as Wire>::lemma_put_append(self.key_code, k5);
        <u8 as Wire>::lemma_put_append(self.key_code, e5);
        lemma_append_step(self.key_code.put(e), k4, e4, k5, e5, k);
        let k3 = self.border_colour.put(k4);
        let e3 = self.border_colour.put(e4);
        <u8 as Wire>::lemma_put_append(self.border_colour, k4);
        <u8 as Wire>::lemma_put_append(self.border_colour, e4);
        lemma_append_step(self.border_colour.put(e), k3, e3, k4, e4, k);
        let k2 = self.background_colour.put(k3);
        let e2 = self.background_colour.put(e3);
        <u8 as Wire>::lemma_put_append(self.background_colour, k3);
        <u8 as Wire>::lemma_put_append(self.background_colour, e3);
        lemma_append_step(self.background_colour.put(e), k2, e2, k3, e3, k);
        let k1 = self.height.put(k2);
        let e1 = self.height.put(e2);
        <u16 as Wire>::lemma_put_append(self.height, k2);
        <u16 as Wire>::lemma_put_append(self.height, e2);
        lemma_append_step(self.height.put(e), k1, e1, k2, e2, k);
        let k0 = self.width.put(k1);
        let e0 = self.width.put(e1);
        <u16 as Wire>::lemma_put_append(self.width, k1);
        <u16 as Wire>::lemma_put_append(self.width, e1);
        lemma_append_step(self.width.put(e), k0, e0, k1, e1, k);
    }

    /// The fields are fixed by their encoding, and so is where it ends.
    pub proof fn lemma_body_injective(x: Button, y: Button, k1: Seq<u8>, k2: Seq<u8>)
        requires
            x.wf(),
            y.wf(),
            x.put_body(k1) == y.put_body(k2),
        ensures
            k1 == k2,
    {
    }

    /// Reads the fields that follow the object header.
    pub fn read_body(cur: &mut Cursor, id: ObjectId) -> (r: Result<Button, ParseError>)
        requires
            old(cur).wf(),
        ensures
            final(cur).wf(),
            final(cur).data == old(cur).data,
            match r {
                Ok(x) => x.id == id && x.wf() && old(cur).rest() == x.put_body(final(cur).rest()),
                Err(e) => e == ParseError::DataEmpty && forall|x: Button, k: Seq<u8>|
                    x.wf() ==> #[trigger] x.put_body(k) != old(cur).rest(),
            },
    {
        let width = <u16 as Wire>::read(cur)?;
        let height = <u16 as Wire>::read(cur)?;
        let background_colour = <u8 as Wire>::read(cur)?;
        let border_colour = <u8 as Wire>::read(cur)?;
        let key_code = <u8 as Wire>::read(cur)?;
        let options = <u8 as Wire>::read(cur)?;
        let object_refs = read_counted8::<ObjectRef>(cur)?;
        let macro_refs = read_counted8::<MacroRef>(cur)?;
        Ok(Button { id, width, height, background_colour, border_colour, key_code, options, object_refs, macro_refs })
    }

    /// Writes the fields that follow the object header.
    pub fn write_body(&self, out: &mut Vec<u8>)
        requires
            self.wf(),
        ensures
            forall|k: Seq<u8>| old(out)@ + #[trigger] self.put_body(k) == final(out)@ + k,
    {
        self.width.write(out);
        self.height.write(out);
        self.background_colour.write(out);
        self.border_colour.write(out);
        self.key_code.write(out);
        self.options.write(out);
        write_counted8(&self.object_refs, out);
        write_counted8(&self.macro_refs, out);
    }

    /// The handles of other objects of the pool that this object refers to, in field order.
    pub open spec fn references(&self) -> Seq<ObjectId> {
        ref_ids(self.object_refs@) + macro_ids(self.macro_refs@)
    }

    /// Appends the handles that `references` lists.
    pub fn collect_references(&self, out: &mut Vec<ObjectId>)
        ensures
            final(out)@ == old(out)@ + self.references(),
    {
        let ghost start = out@;
        push_ref_ids(&self.object_refs, out);
        push_macro_ids(&self.macro_refs, out);
        assert(out@ =~= start + self.references());
    }
}

/// An editable on/off field.
#[derive(Debug, Clone, PartialEq, Eq)]
pub struct InputBoolean {
    pub id: ObjectId,
    pub background_colour: u8,
    pub width: u16,
    pub foreground_colour: ObjectId,
    pub variable_reference: ObjectId,
    pub value: bool,
    pub enabled: bool,
    pub macro_refs: Vec<MacroRef>,
}

impl InputBoolean {
    /// Every counted section fits its count field.
    pub open spec fn wf(&self) -> bool {
        self.macro_refs@.len() <= 0xff
    }

    /// The fields after the object header, in order, followed by `k`.
    pub open spec fn put_body(&self, k: Seq<u8>) -> Seq<u8> {
        self.background_colour.put(self.width.put(self.foreground_colour.put(self.variable_reference.put(self.value.put(self.enabled.put(put_counted8(self.macro_refs@, k)))))))
    }

    pub fn is_encodable(&self) -> (r: bool)
        ensures
            r == self.wf(),
    {
        self.macro_refs.len() <= 0xff
    }

    pub proof fn lemma_body_append(&self, k: Seq<u8>)
        ensures
            self.put_body(k) == self.put_body(Seq::empty()) + k,
    {
        let e = Seq::<u8>::empty();
        let k6 = put_counted8(self.macro_refs@, k);
        let e6 = put_counted8(self.macro_refs@, e);
        lemma_counted8_append(self.macro_refs@, k);
        let k5 = self.enabled.put(k6);
        let e5 = self.enabled.put(e6);
        <bool as Wire>::lemma_put_append(self.enabled, k6);
        <bool as Wire>::lemma_put_append(self.enabled, e6);
        lemma_append_step(self.enabled.put(e), k5, e5, k6, e6, k);
        let k4 = self.value.put(k5);
        let e4 = self.value.put(e5);
        <bool as Wire>::lemma_put_append(self.value, k5);
        <bool as Wire>::lemma_put_append(self.value, e5);
        lemma_append_step(self.value.put(e), k4, e4, k5, e5, k);
        let k3 = self.variable_reference.put(k4);
        let e3 = self.variable_reference.put(e4);
        <ObjectId as Wire>::lemma_put_append(self.variable_reference, k4);
        <ObjectId as Wire>::lemma_put_append(self.variable_reference, e4);
        lemma_append_step(self.variable_reference.put(e), k3, e3, k4, e4, k);
        let k2 = self.foreground_colour.put(k3);
        let e2 = self.foreground_colour.put(e3);
        <ObjectId as Wire>::lemma_put_append(self.foreground_colour, k3);
        <ObjectId as Wire>::lemma_put_append(self.foreground_colour, e3);
        lemma_append_step(self.foreground_colour.put(e), k2, e2, k3, e3, k);
        let k1 = self.width.put(k2);
        let e1 = self.width.put(e2);
        <u16 as Wire>::lemma_put_append(self.width, k2);
        <u16 as Wire>::lemma_put_append(self.width, e2);
        lemma_append_step(self.width.put(e), k1, e1, k2, e2, k);
        let k0 = self.background_colour.put(k1);
        let e0 = self.background_colour.put(e1);
        <u8 as Wire>::lemma_put_append(self.background_colour, k1);
        <u8 as Wire>::lemma_put_append(self.background_colour, e1);
        lemma_append_step(self.background_colour.put(e), k0, e0, k1, e1, k);
    }

    /// The fields are fixed by their encoding, and so is where it ends.
    pub proof fn lemma_body_injective(x: InputBoolean, y: InputBoolean, k1: Seq<u8>, k2: Seq<u8>)
        requires
            x.wf(),
            y.wf(),
            x.put_body(k1) == y.put_body(k2),
        ensures
            k1 == k2,
    {
    }

    /// Reads the fields that follow the object header.
    pub fn read_body(cur: &mut Cursor, id: ObjectId) -> (r: Result<InputBoolean, ParseError>)
        requires
            old(cur).wf(),
        ensures
            final(cur).wf(),
            final(cur).data == old(cur).data,
            match r {
                Ok(x) => x.id == id && x.wf() && old(cur).rest() == x.put_body(final(cur).rest()),
                Err(e) => e == ParseError::DataEmpty && forall|x: InputBoolean, k: Seq<u8>|
                    x.wf() ==> #[trigger] x.put_body(k) != old(cur).rest(),
            },
    {
        let background_colour = <u8 as Wire>::read(cur)?;
        let width = <u16 as Wire>::read(cur)?;
        let foreground_colour = <ObjectId as Wire>::read(cur)?;
        let variable_reference = <ObjectId as Wire>::read(cur)?;
        let value = <bool as Wire>::read(cur)?;
        let enabled = <bool as Wire>::read(cur)?;
        let macro_refs = read_counted8::<MacroRef>(cur)?;
        Ok(InputBoolean { id, background_colour, width, foreground_colour, variable_reference, value, enabled, macro_refs })
    }

    /// Writes the fields that follow the object header.
    pub fn write_body(&self, out: &mut Vec<u8>)
        requires
            self.wf(),
        ensures
            forall|k: Seq<u8>| old(out)@ + #[trigger] self.put_body(k) == final(out)@ + k,
    {
        self.background_colour.write(out);
        self.width.write(out);
        self.foreground_colour.write(out);
        self.variable_reference.write(out);
        self.value.write(out);
        self.enabled.write(out);
        write_counted8(&self.macro_refs, out);
    }

    /// The handles of other objects of the pool that this object refers to, in field order.
    pub open spec fn references(&self) -> Seq<ObjectId> {
        seq![self.foreground_colour] + seq![self.variable_reference] + macro_ids(self.macro_refs@)
    }

    /// Appends the handles that `references` lists.
    pub fn collect_references(&self, out: &mut Vec<ObjectId>)
        ensures
            final(out)@ == old(out)@ + self.references(),
    {
        let ghost start = out@;
        out.push(self.foreground_colour);
        out.push(self.variable_reference);
        push_macro_ids(&self.macro_refs, out);
        assert(out@ =~= start + self.references());
    }
}

/// An editable text field.
#[derive(Debug, Clone, PartialEq, Eq)]
pub struct InputString {
    pub id: ObjectId,
    pub width: u16,
    pub height: u16,
    pub background_colour: u8,
    pub font_attributes: ObjectId,
    pub input_attributes: ObjectId,
    pub options: u8,
    pub variable_reference: ObjectId,
    pub justification: u8,
    /// Text bytes as stored on the wire (an 8-bit code page).
    pub value: Vec<u8>,
    pub enabled: bool,
    pub macro_refs: Vec<MacroRef>,
}

impl InputString {
    /// Every counted section fits its count field.
    pub open spec fn wf(&self) -> bool {
        self.value@.len() <= 0xff && self.macro_refs@.len() <= 0xff
    }

    /// The fields after the object header, in order, followed by `k`.
    pub open spec fn put_body(&self, k: Seq<u8>) -> Seq<u8> {
        self.width.put(self.height.put(self.background_colour.put(self.font_attributes.put(self.input_attributes.put(self.options.put(self.variable_reference.put(self.justification.put(put_counted8(self.value@, self.enabled.put(put_counted8(self.macro_refs@, k)))))))))))
    }

    pub fn is_encodable(&self) -> (r: bool)
        ensures
            r == self.wf(),
    {
        self.value.len() <= 0xff && self.macro_refs.len() <= 0xff
    }

    pub proof fn lemma_body_append(&self, k: Seq<u8>)
        ensures
            self.put_body(k) == self.put_body(Seq::empty()) + k,
    {
        let e = Seq::<u8>::empty();
        let k10 = put_counted8(self.macro_refs@, k);
        let e10 = put_counted8(self.macro_refs@, e);
        lemma_counted8_append(self.macro_refs@, k);
        let k9 = self.enabled.put(k10);
        let e9 = self.enabled.put(e10);
        <bool as Wire>::lemma_put_append(self.enabled, k10);
        <bool as Wire>::lemma_put_append(self.enabled, e10);
        lemma_append_step(self.enabled.put(e), k9, e9, k10, e10, k);
        let k8 = put_counted8(self.value@, k9);
        let e8 = put_counted8(self.value@, e9);
        lemma_counted8_append(self.value@, k9);
        lemma_counted8_append(self.value@, e9);
        lemma_append_step(put_counted8(self.value@, e), k8, e8, k9, e9, k);
        let k7 = self.justification.put(k8);
        let e7 = self.justification.put(e8);
        <u8 as Wire>::lemma_put_append(self.justification, k8);
        <u8 as Wire>::lemma_put_append(self.justification, e8);
        lemma_append_step(self.justification.put(e), k7, e7, k8, e8, k);
        let k6 = self.variable_reference.put(k7);
        let e6 = self.variable_reference.put(e7);
        <ObjectId as Wire>::lemma_put_append(self.variable_reference, k7);
        <ObjectId as Wire>::lemma_put_append(self.variable_reference, e7);
        lemma_append_step(self.variable_reference.put(e), k6, e6, k7, e7, k);
        let k5 = self.options.put(k6);
        let e5 = self.options.put(e6);
        <u8 as Wire>::lemma_put_append(self.options, k6);
        <u8 as Wire>::lemma_put_append(self.options, e6);
        lemma_append_step(self.options.put(e), k5, e5, k6, e6, k);
        let k4 = self.input_attributes.put(k5);
        let e4 = self.input_attributes.put(e5);
        <ObjectId as Wire>::lemma_put_append(self.input_attributes, k5);
        <ObjectId as Wire>::lemma_put_append(self.input_attributes, e5);
        lemma_append_step(self.input_attributes.put(e), k4, e4, k5, e5, k);
        let k3 = self.font_attributes.put(k4);
        let e3 = self.font_attributes.put(e4);
        <ObjectId as Wire>::lemma_put_append(self.font_attributes, k4);
        <ObjectId as Wire>::lemma_put_append(self.font_attributes, e4);
        lemma_append_step(self.font_attributes.put(e), k3, e3, k4, e4, k);
        let k2 = self.background_colour.put(k3);
        let e2 = self.background_colour.put(e3);
        <u8 as Wire>::lemma_put_append(self.background_colour, k3);
        <u8 as Wire>::lemma_put_append(self.background_colour, e3);
        lemma_append_step(self.background_colour.put(e), k2, e2, k3, e3, k);
        let k1 = self.height.put(k2);
        let e1 = self.height.put(e2);
        <u16 as Wire>::lemma_put_append(self.height, k2);
        <u16 as Wire>::lemma_put_append(self.height, e2);
        lemma_append_step(self.height.put(e), k1, e1, k2, e2, k);
        let k0 = self.width.put(k1);
        let e0 = self.width.put(e1);
        <u16 as Wire>::lemma_put_append(self.width, k1);
        <u16 as Wire>::lemma_put_append(self.width, e1);
        lemma_append_step(self.width.put(e), k0, e0, k1, e1, k);
    }

    /// The fields are fixed by their encoding, and so is where it ends.
    pub proof fn lemma_body_injective(x: InputString, y: InputString, k1: Seq<u8>, k2: Seq<u8>)
        requires
            x.wf(),
            y.wf(),
            x.put_body(k1) == y.put_body(k2),
        ensures
            k1 == k2,
    {
    }

    /// Reads the fields that follow the object header.
    pub fn read_body(cur: &mut Cursor, id: ObjectId) -> (r: Result<InputString, ParseError>)
        requires
            old(cur).wf(),
        ensures
            final(cur).wf(),
            final(cur).data == old(cur).data,
            match r {
                Ok(x) => x.id == id && x.wf() && old(cur).rest() == x.put_body(final(cur).rest()),
                Err(e) => e == ParseError::DataEmpty && forall|x: InputString, k: Seq<u8>|
                    x.wf() ==> #[trigger] x.put_body(k) != old(cur).rest(),
            },
    {
        let width = <u16 as Wire>::read(cur)?;
        let height = <u16 as Wire>::read(cur)?;
        let background_colour = <u8 as Wire>::read(cur)?;
        let font_attributes = <ObjectId as Wire>::read(cur)?;
        let input_attributes = <ObjectId as Wire>::read(cur)?;
        let options = <u8 as Wire>::read(cur)?;
        let variable_reference = <ObjectId as Wire>::read(cur)?;
        let justification = <u8 as Wire>::read(cur)?;
        let value = read_counted8::<u8>(cur)?;
        let enabled = <bool as Wire>::read(cur)?;
        let macro_refs = read_counted8::<MacroRef>(cur)?;
        Ok(InputString { id, width, height, background_colour, font_attributes, input_attributes, options, variable_reference, justification, value, enabled, macro_refs })
    }

    /// Writes the fields that follow the object header.
    pub fn write_body(&self, out: &mut Vec<u8>)
        requires
            self.wf(),
        ensures
            forall|k: Seq<u8>| old(out)@ + #[trigger] self.put_body(k) == final(out)@ + k,
    {
        self.width.write(out);
        self.height.write(out);
        self.background_colour.write(out);
        self.font_attributes.write(out);
        self.input_attributes.write(out);
        self.options.write(out);
        self.variable_reference.write(out);
        self.justification.write(out);
        write_counted8(&self.value, out);
        self.enabled.write(out);
        write_counted8(&self.macro_refs, out);
    }

    /// The handles of other objects of the pool that this object refers to, in field order.
    pub open spec fn references(&self) -> Seq<ObjectId> {
        seq![self.font_attributes] + seq![self.input_attributes] + seq![self.variable_reference] + macro_ids(self.macro_refs@)
    }

    /// Appends the handles that `references` lists.
    pub fn collect_references(&self, out: &mut Vec<ObjectId>)
        ensures
            final(out)@ == old(out)@ + self.references(),
    {
        let ghost start = out@;
        out.push(self.font_attributes);
        out.push(self.input_attributes);
        out.push(self.variable_reference);
        push_macro_ids(&self.macro_refs, out);
        assert(out@ =~= start + self.references());
    }
}

/// An editable numeric field.
#[derive(Debug, Clone, PartialEq, Eq)]
pub struct InputNumber {
    pub id: ObjectId,
    pub width: u16,
    pub height: u16,
    pub background_colour: u8,
    pub font_attributes: ObjectId,
    pub options: u8,
    pub variable_reference: ObjectId,
    pub value: u32,
    pub min_value: u32,
    pub max_value: u32,
    pub offset: i32,
    /// Scale factor, as the bit pattern of an IEEE-754 single-precision number.
    pub scale: u32,
    pub nr_of_decimals: u8,
    pub format: bool,
    pub justification: u8,
    pub options2: u8,
    pub macro_refs: Vec<MacroRef>,
}

impl InputNumber {
    /// Every counted section fits its count field.
    pub open spec fn wf(&self) -> bool {
        self.macro_refs@.len() <= 0xff
    }

    /// The fields after the object header, in order, followed by `k`.
    pub open spec fn put_body(&self, k: Seq<u8>) -> Seq<u8> {
        self.width.put(self.height.put(self.background_colour.put(self.font_attributes.put(self.options.put(self.variable_reference.put(self.value.put(self.min_value.put(self.max_value.put(self.offset.put(self.scale.put(self.nr_of_decimals.put(self.format.put(self.justification.put(self.options2.put(put_counted8(self.macro_refs@, k))))))))))))))))
    }

    pub fn is_encodable(&self) -> (r: bool)
        ensures
            r == self.wf(),
    {
        self.macro_refs.len() <= 0xff
    }

    pub proof fn lemma_body_append(&self, k: Seq<u8>)
        ensures
            self.put_body(k) == self.put_body(Seq::empty()) + k,
    {
        let e = Seq::<u8>::empty();
        let k15 = put_counted8(self.macro_refs@, k);
        let e15 = put_counted8(self.macro_refs@, e);
        lemma_counted8_append(self.macro_refs@, k);
        let k14 = self.options2.put(k15);
        let e14 = self.options2.put(e15);
        <u8 as Wire>::lemma_put_append(self.options2, k15);
        <u8 as Wire>::lemma_put_append(self.options2, e15);
        lemma_append_step(self.options2.put(e), k14, e14, k15, e15, k);
        let k13 = self.justification.put(k14);
        let e13 = self.justification.put(e14);
        <u8 as Wire>::lemma_put_append(self.justification, k14);
        <u8 as Wire>::lemma_put_append(self.justification, e14);
        lemma_append_step(self.justification.put(e), k13, e13, k14, e14, k);
        let k12 = self.format.put(k13);
        let e12 = self.format.put(e13);
        <bool as Wire>::lemma_put_append(self.format, k13);
        <bool as Wire>::lemma_put_append(self.format, e13);
        lemma_append_step(self.format.put(e), k12, e12, k13, e13, k);
        let k11 = self.nr_of_decimals.put(k12);
        let e11 = self.nr_of_decimals.put(e12);
        <u8 as Wire>::lemma_put_append(self.nr_of_decimals, k12);
        <u8 as Wire>::lemma_put_append(self.nr_of_decimals, e12);
        lemma_append_step(self.nr_of_decimals.put(e), k11, e11, k12, e12, k);
        let k10 = self.scale.put(k11);
        let e10 = self.scale.put(e11);
        <u32 as Wire>::lemma_put_append(self.scale, k11);
        <u32 as Wire>::lemma_put_append(self.scale, e11);
        lemma_append_step(self.scale.put(e), k10, e10, k11, e11, k);
        let k9 = self.offset.put(k10);
        let e9 = self.offset.put(e10);
        <i32 as Wire>::lemma_put_append(self.offset, k10);
        <i32 as Wire>::lemma_put_append(self.offset, e10);
        lemma_append_step(self.offset.put(e), k9, e9, k10, e10, k);
        let k8 = self.max_value.put(k9);
        let e8 = self.max_value.put(e9);
        <u32 as Wire>::lemma_put_append(self.max_value, k9);
        <u32 as Wire>::lemma_put_append(self.max_value, e9);
        lemma_append_step(self.max_value.put(e), k8, e8, k9, e9, k);
        let k7 = self.min_value.put(k8);
        let e7 = self.min_value.put(e8);
        <u32 as Wire>::lemma_put_append(self.min_value, k8);
        <u32 as Wire>::lemma_put_append(self.min_value, e8);
        lemma_append_step(self.min_value.put(e), k7, e7, k8, e8, k);
        let k6 = self.value.put(k7);
        let e6 = self.value.put(e7);
        <u32 as Wire>::lemma_put_append(self.value, k7);
        <u32 as Wire>::lemma_put_append(self.value, e7);
        lemma_append_step(self.value.put(e), k6, e6, k7, e7, k);
        let k5 = self.variable_reference.put(k6);
        let e5 = self.variable_reference.put(e6);
        <ObjectId as Wire>::lemma_put_append(self.variable_reference, k6);
        <ObjectId as Wire>::lemma_put_append(self.variable_reference, e6);
        lemma_append_step(self.variable_reference.put(e), k5, e5, k6, e6, k);
        let k4 = self.options.put(k5);
        let e4 = self.options.put(e5);
        <u8 as Wire>::lemma_put_append(self.options, k5);
        <u8 as Wire>::lemma_put_append(self.options, e5);
        lemma_append_step(self.options.put(e), k4, e4, k5, e5, k);
        let k3 = self.font_attributes.put(k4);
        let e3 = self.font_attributes.put(e4);
        <ObjectId as Wire>::lemma_put_append(self.font_attributes, k4);
        <ObjectId as Wire>::lemma_put_append(self.font_attributes, e4);
        lemma_append_step(self.font_attributes.put(e), k3, e3, k4, e4, k);
        let k2 = self.background_colour.put(k3);
        let e2 = self.background_colour.put(e3);
        <u8 as Wire>::lemma_put_append(self.background_colour, k3);
        <u8 as Wire>::lemma_put_append(self.background_colour, e3);
        lemma_append_step(self.background_colour.put(e), k2, e2, k3, e3, k);
        let k1 = self.height.put(k2);
        let e1 = self.height.put(e2);
        <u16 as Wire>::lemma_put_append(self.height, k2);
        <u16 as Wire>::lemma_put_append(self.height, e2);
        lemma_append_step(self.height.put(e), k1, e1, k2, e2, k);
        let k0 = self.width.put(k1);
        let e0 = self.width.put(e1);
        <u16 as Wire>::lemma_put_append(self.width, k1);
        <u16 as Wire>::lemma_put_append(self.width, e1);
        lemma_append_step(self.width.put(e), k0, e0, k1, e1, k);
    }

    /// The fields are fixed by their encoding, and so is where it ends.
    pub proof fn lemma_body_injective(x: InputNumber, y: InputNumber, k1: Seq<u8>, k2: Seq<u8>)
        requires
            x.wf(),
            y.wf(),
            x.put_body(k1) == y.put_body(k2),
        ensures
            k1 == k2,
    {
    }

    /// Reads the fields that follow the object header.
    pub fn read_body(cur: &mut Cursor, id: ObjectId) -> (r: Result<InputNumber, ParseError>)
        requires
            old(cur).wf(),
        ensures
            final(cur).wf(),
            final(cur).data == old(cur).data,
            match r {
                Ok(x) => x.id == id && x.wf() && old(cur).rest() == x.put_body(final(cur).rest()),
                Err(e) => e == ParseError::DataEmpty && forall|x: InputNumber, k: Seq<u8>|
                    x.wf() ==> #[trigger] x.put_body(k) != old(cur).rest(),
            },
    {
        let width = <u16 as Wire>::read(cur)?;
        let height = <u16 as Wire>::read(cur)?;
        let background_colour = <u8 as Wire>::read(cur)?;
        let font_attributes = <ObjectId as Wire>::read(cur)?;
        let options = <u8 as Wire>::read(cur)?;
        let variable_reference = <ObjectId as Wire>::read(cur)?;
        let value = <u32 as Wire>::read(cur)?;
        let min_value = <u32 as Wire>::read(cur)?;
        let max_value = <u32 as Wire>::read(cur)?;
        let offset = <i32 as Wire>::read(cur)?;
        let scale = <u32 as Wire>::read(cur)?;
        let nr_of_decimals = <u8 as Wire>::read(cur)?;
        let format = <bool as Wire>::read(cur)?;
        let justification = <u8 as Wire>::read(cur)?;
        let options2 = <u8 as Wire>::read(cur)?;
        let macro_refs = read_counted8::<MacroRef>(cur)?;
        Ok(InputNumber { id, width, height, background_colour, font_attributes, options, variable_reference, value, min_value, max_value, offset, scale, nr_of_decimals, format, justification, options2, macro_refs })
    }

    /// Writes the fields that follow the object header.
    pub fn write_body(&self, out: &mut Vec<u8>)
        requires
            self.wf(),
        ensures
            forall|k: Seq<u8>| old(out)@ + #[trigger] self.put_body(k) == final(out)@ + k,
    {
        self.width.write(out);
        self.height.write(out);
        self.background_colour.write(out);
        self.font_attributes.write(out);
        self.options.write(out);
        self.variable_reference.write(out);
        self.value.write(out);
        self.min_value.write(out);
        self.max_value.write(out);
        self.offset.write(out);
        self.scale.write(out);
        self.nr_of_decimals.write(out);
        self.format.write(out);
        self.justification.write(out);
        self.options2.write(out);
        write_counted8(&self.macro_refs, out);
    }

    /// The handles of other objects of the pool that this object refers to, in field order.
    pub open spec fn references(&self) -> Seq<ObjectId> {
        seq![self.font_attributes] + seq![self.variable_reference] + macro_ids(self.macro_refs@)
    }

    /// Appends the handles that `references` lists.
    pub fn collect_references(&self, out: &mut Vec<ObjectId>)
        ensures
            final(out)@ == old(out)@ + self.references(),
    {
        let ghost start = out@;
        out.push(self.font_attributes);
        out.push(self.variable_reference);
        push_macro_ids(&self.macro_refs, out);
        assert(out@ =~= start + self.references());
    }
}

/// A field that selects one object of a list.
#[derive(Debug, Clone, PartialEq, Eq)]
pub struct InputList {
    pub id: ObjectId,
    pub width: u16,
    pub height: u16,
    pub variable_reference: ObjectId,
    pub value: u8,
    pub options: u8,
    pub list_items: Vec<ObjectId>,
    pub macro_refs: Vec<MacroRef>,
}

impl InputList {
    /// Every counted section fits its count field.
    pub open spec fn wf(&self) -> bool {
        self.list_items@.len() <= 0xff && self.macro_refs@.len() <= 0xff
    }

    /// The fields after the object header, in order, followed by `k`.
    pub open spec fn put_body(&self, k: Seq<u8>) -> Seq<u8> {
        self.width.put(self.height.put(self.variable_reference.put(self.value.put(self.options.put(put_counted8(self.list_items@, put_counted8(self.macro_refs@, k)))))))
    }

    pub fn is_encodable(&self) -> (r: bool)
        ensures
            r == self.wf(),
    {
        self.list_items.len() <= 0xff && self.macro_refs.len() <= 0xff
    }

    pub proof fn lemma_body_append(&self, k: Seq<u8>)
        ensures
            self.put_body(k) == self.put_body(Seq::empty()) + k,
    {
        let e = Seq::<u8>::empty();
        let k6 = put_counted8(self.macro_refs@, k);
        let e6 = put_counted8(self.macro_refs@, e);
        lemma_counted8_append(self.macro_refs@, k);
        let k5 = put_counted8(self.list_items@, k6);
        let e5 = put_counted8(self.list_items@, e6);
        lemma_counted8_append(self.list_items@, k6);
        lemma_counted8_append(self.list_items@, e6);
        lemma_append_step(put_counted8(self.list_items@, e), k5, e5, k6, e6, k);
        let k4 = self.options.put(k5);
        let e4 = self.options.put(e5);
        <u8 as Wire>::lemma_put_append(self.options, k5);
        <u8 as Wire>::lemma_put_append(self.options, e5);
        lemma_append_step(self.options.put(e), k4, e4, k5, e5, k);
        let k3 = self.value.put(k4);
        let e3 = self.value.put(e4);
        <u8 as Wire>::lemma_put_append(self.value, k4);
        <u8 as Wire>::lemma_put_append(self.value, e4);
        lemma_append_step(self.value.put(e), k3, e3, k4, e4, k);
        let k2 = self.variable_reference.put(k3);
        let e2 = self.variable_reference.put(e3);
        <ObjectId as Wire>::lemma_put_append(self.variable_reference, k3);
        <ObjectId as Wire>::lemma_put_append(self.variable_reference, e3);
        lemma_append_step(self.variable_reference.put(e), k2, e2, k3, e3, k);
        let k1 = self.height.put(k2);
        let e1 = self.height.put(e2);
        <u16 as Wire>::lemma_put_append(self.height, k2);
        <u16 as Wire>::lemma_put_append(self.height, e2);
        lemma_append_step(self.height.put(e), k1, e1, k2, e2, k);
        let k0 = self.width.put(k1);
        let e0 = self.width.put(e1);
        <u16 as Wire>::lemma_put_append(self.width, k1);
        <u16 as Wire>::lemma_put_append(self.width, e1);
        lemma_append_step(self.width.put(e), k0, e0, k1, e1, k);
    }

    /// The fields are fixed by their encoding, and so is where it ends.
    pub proof fn lemma_body_injective(x: InputList, y: InputList, k1: Seq<u8>, k2: Seq<u8>)
        requires
            x.wf(),
            y.wf(),
            x.put_body(k1) == y.put_body(k2),
        ensures
            k1 == k2,
    {
    }

    /// Reads the fields that follow the object header.
    pub fn read_body(cur: &mut Cursor, id: ObjectId) -> (r: Result<InputList, ParseError>)
        requires
            old(cur).wf(),
        ensures
            final(cur).wf(),
            final(cur).data == old(cur).data,
            match r {
                Ok(x) => x.id == id && x.wf() && old(cur).rest() == x.put_body(final(cur).rest()),
                Err(e) => e == ParseError::DataEmpty && forall|x: InputList, k: Seq<u8>|
                    x.wf() ==> #[trigger] x.put_body(k) != old(cur).rest(),
            },
    {
        let width = <u16 as Wire>::read(cur)?;
        let height = <u16 as Wire>::read(cur)?;
        let variable_reference = <ObjectId as Wire>::read(cur)?;
        let value = <u8 as Wire>::read(cur)?;
        let options = <u8 as Wire>::read(cur)?;
        let list_items = read_counted8::<ObjectId>(cur)?;
        let macro_refs = read_counted8::<MacroRef>(cur)?;
        Ok(InputList { id, width, height, variable_reference, value, options, list_items, macro_refs })
    }

    /// Writes the fields that follow the object header.
    pub fn write_body(&self, out: &mut Vec<u8>)
        requires
            self.wf(),
        ensures
            forall|k: Seq<u8>| old(out)@ + #[trigger] self.put_body(k) == final(out)@ + k,
    {
        self.width.write(out);
        self.height.write(out);
        self.variable_reference.write(out);
        self.value.write(out);
        self.options.write(out);
        write_counted8(&self.list_items, out);
        write_counted8(&self.macro_refs, out);
    }

    /// The handles of other objects of the pool that this object refers to, in field order.
    pub open spec fn references(&self) -> Seq<ObjectId> {
        seq![self.variable_reference] + self.list_items@ + macro_ids(self.macro_refs@)
    }

    /// Appends the handles that `references` lists.
    pub fn collect_references(&self, out: &mut Vec<ObjectId>)
        ensures
            final(out)@ == old(out)@ + self.references(),
    {
        let ghost start = out@;
        out.push(self.variable_reference);
        push_ids(&self.list_items, out);
        push_macro_ids(&self.macro_refs, out);
        assert(out@ =~= start + self.references());
    }
}

/// A text field.
#[derive(Debug, Clone, PartialEq, Eq)]
pub struct OutputString {
    pub id: ObjectId,
    pub width: u16,
    pub height: u16,
    pub background_colour: u8,
    pub font_attributes: ObjectId,
    pub options: u8,
    pub variable_reference: ObjectId,
    pub justification: u8,
    /// Text bytes as stored on the wire (an 8-bit code page).
    /// On the wire: a two-byte count, then the elements.
    pub value: Vec<u8>,
    pub macro_refs: Vec<MacroRef>,
}

impl OutputString {
    /// Every counted section fits its count field.
    pub open spec fn wf(&self) -> bool {
        self.value@.len() <= 0xffff && self.macro_refs@.len() <= 0xff
    }

    /// The fields after the object header, in order, followed by `k`.
    pub open spec fn put_body(&self, k: Seq<u8>) -> Seq<u8> {
        self.width.put(self.height.put(self.background_colour.put(self.font_attributes.put(self.options.put(self.variable_reference.put(self.justification.put(put_counted16(self.value@, put_counted8(self.macro_refs@, k)))))))))
    }

    pub fn is_encodable(&self) -> (r: bool)
        ensures
            r == self.wf(),
    {
        self.value.len() <= 0xffff && self.macro_refs.len() <= 0xff
    }

    pub proof fn lemma_body_append(&self, k: Seq<u8>)
        ensures
            self.put_body(k) == self.put_body(Seq::empty()) + k,
    {
        let e = Seq::<u8>::empty();
        let k8 = put_counted8(self.macro_refs@, k);
        let e8 = put_counted8(self.macro_refs@, e);
        lemma_counted8_append(self.macro_refs@, k);
        let k7 = put_counted16(self.value@, k8);
        let e7 = put_counted16(self.value@, e8);
        lemma_counted16_append(self.value@, k8);
        lemma_counted16_append(self.value@, e8);
        lemma_append_step(put_counted16(self.value@, e), k7, e7, k8, e8, k);
        let k6 = self.justification.put(k7);
        let e6 = self.justification.put(e7);
        <u8 as Wire>::lemma_put_append(self.justification, k7);
        <u8 as Wire>::lemma_put_append(self.justification, e7);
        lemma_append_step(self.justification.put(e), k6, e6, k7, e7, k);
        let k5 = self.variable_reference.put(k6);
        let e5 = self.variable_reference.put(e6);
        <ObjectId as Wire>::lemma_put_append(self.variable_reference, k6);
        <ObjectId as Wire>::lemma_put_append(self.variable_reference, e6);
        lemma_append_step(self.variable_reference.put(e), k5, e5, k6, e6, k);
        let k4 = self.options.put(k5);
        let e4 = self.options.put(e5);
        <u8 as Wire>::lemma_put_append(self.options, k5);
        <u8 as Wire>::lemma_put_append(self.options, e5);
        lemma_append_step(self.options.put(e), k4, e4, k5, e5, k);
        let k3 = self.font_attributes.put(k4);
        let e3 = self.font_attributes.put(e4);
        <ObjectId as Wire>::lemma_put_append(self.font_attributes, k4);
        <ObjectId as Wire>::lemma_put_append(self.font_attributes, e4);
        lemma_append_step(self.font_attributes.put(e), k3, e3, k4, e4, k);
        let k2 = self.background_colour.put(k3);
        let e2 = self.background_colour.put(e3);
        <u8 as Wire>::lemma_put_append(self.background_colour, k3);
        <u8 as Wire>::lemma_put_append(self.background_colour, e3);
        lemma_append_step(self.background_colour.put(e), k2, e2, k3, e3, k);
        let k1 = self.height.put(k2);
        let e1 = self.height.put(e2);
        <u16 as Wire>::lemma_put_append(self.height, k2);
        <u16 as Wire>::lemma_put_append(self.height, e2);
        lemma_append_step(self.height.put(e), k1, e1, k2, e2, k);
        let k0 = self.width.put(k1);
        let e0 = self.width.put(e1);
        <u16 as Wire>::lemma_put_append(self.width, k1);
        <u16 as Wire>::lemma_put_append(self.width, e1);
        lemma_append_step(self.width.put(e), k0, e0, k1, e1, k);
    }

    /// The fields are fixed by their encoding, and so is where it ends.
    pub proof fn lemma_body_injective(x: OutputString, y: OutputString, k1: Seq<u8>, k2: Seq<u8>)
        requires
            x.wf(),
            y.wf(),
            x.put_body(k1) == y.put_body(k2),
        ensures
            k1 == k2,
    {
    }

    /// Reads the fields that follow the object header.
    pub fn read_body(cur: &mut Cursor, id: ObjectId) -> (r: Result<OutputString, ParseError>)
        requires
            old(cur).wf(),
        ensures
            final(cur).wf(),
            final(cur).data == old(cur).data,
            match r {
                Ok(x) => x.id == id && x.wf() && old(cur).rest() == x.put_body(final(cur).rest()),
                Err(e) => e == ParseError::DataEmpty && forall|x: OutputString, k: Seq<u8>|
                    x.wf() ==> #[trigger] x.put_body(k) != old(cur).rest(),
            },
    {
        let width = <u16 as Wire>::read(cur)?;
        let height = <u16 as Wire>::read(cur)?;
        let background_colour = <u8 as Wire>::read(cur)?;
        let font_attributes = <ObjectId as Wire>::read(cur)?;
        let options = <u8 as Wire>::read(cur)?;
        let variable_reference = <ObjectId as Wire>::read(cur)?;
        let justification = <u8 as Wire>::read(cur)?;
        let value = read_counted16::<u8>(cur)?;
        let macro_refs = read_counted8::<MacroRef>(cur)?;
        Ok(OutputString { id, width, height, background_colour, font_attributes, options, variable_reference, justification, value, macro_refs })
    }

    /// Writes the fields that follow the object header.
    pub fn write_body(&self, out: &mut Vec<u8>)
        requires
            self.wf(),
        ensures
            forall|k: Seq<u8>| old(out)@ + #[trigger] self.put_body(k) == final(out)@ + k,
    {
        self.width.write(out);
        self.height.write(out);
        self.background_colour.write(out);
        self.font_attributes.write(out);
        self.options.write(out);
        self.variable_reference.write(out);
        self.justification.write(out);
        write_counted16(&self.value, out);
        write_counted8(&self.macro_refs, out);
    }

    /// The handles of other objects of the pool that this object refers to, in field order.
    pub open spec fn references(&self) -> Seq<ObjectId> {
        seq![self.font_attributes] + seq![self.variable_reference] + macro_ids(self.macro_refs@)
    }

    /// Appends the handles that `references` lists.
    pub fn collect_references(&self, out: &mut Vec<ObjectId>)
        ensures
            final(out)@ == old(out)@ + self.references(),
    {
        let ghost start = out@;
        out.push(self.font_attributes);
        out.push(self.variable_reference);
        push_macro_ids(&self.macro_refs, out);
        assert(out@ =~= start + self.references());
    }
}

/// A numeric field.
#[derive(Debug, Clone, PartialEq, Eq)]
pub struct OutputNumber {
    pub id: ObjectId,
    pub width: u16,
    pub height: u16,
    pub background_colour: u8,
    pub font_attributes: ObjectId,
    pub options: u8,
    pub variable_reference: ObjectId,
    pub value: u32,
    pub offset: i32,
    /// Scale factor, as the bit pattern of an IEEE-754 single-precision number.
    pub scale: u32,
    pub nr_of_decimals: u8,
    pub format: bool,
    pub justification: u8,
    pub macro_refs: Vec<MacroRef>,
}

impl OutputNumber {
    /// Every counted section fits its count field.
    pub open spec fn wf(&self) -> bool {
        self.macro_refs@.len() <= 0xff
    }

    /// The fields after the object header, in order, followed by `k`.
    pub open spec fn put_body(&self, k: Seq<u8>) -> Seq<u8> {
        self.width.put(self.height.put(self.background_colour.put(self.font_attributes.put(self.options.put(self.variable_reference.put(self.value.put(self.offset.put(self.scale.put(self.nr_of_decimals.put(self.format.put(self.justification.put(put_counted8(self.macro_refs@, k)))))))))))))
    }

    pub fn is_encodable(&self) -> (r: bool)
        ensures
            r == self.wf(),
    {
        self.macro_refs.len() <= 0xff
    }

    pub proof fn lemma_body_append(&self, k: Seq<u8>)
        ensures
            self.put_body(k) == self.put_body(Seq::empty()) + k,
    {
        let e = Seq::<u8>::empty();
        let k12 = put_counted8(self.macro_refs@, k);
        let e12 = put_counted8(self.macro_refs@, e);
        lemma_counted8_append(self.macro_refs@, k);
        let k11 = self.justification.put(k12);
        let e11 = self.justification.put(e12);
        <u8 as Wire>::lemma_put_append(self.justification, k12);
        <u8 as Wire>::lemma_put_append(self.justification, e12);
        lemma_append_step(self.justification.put(e), k11, e11, k12, e12, k);
        let k10 = self.format.put(k11);
        let e10 = self.format.put(e11);
        <bool as Wire>::lemma_put_append(self.format, k11);
        <bool as Wire>::lemma_put_append(self.format, e11);
        lemma_append_step(self.format.put(e), k10, e10, k11, e11, k);
        let k9 = self.nr_of_decimals.put(k10);
        let e9 = self.nr_of_decimals.put(e10);
        <u8 as Wire>::lemma_put_append(self.nr_of_decimals, k10);
        <u8 as Wire>::lemma_put_append(self.nr_of_decimals, e10);
        lemma_append_step(self.nr_of_decimals.put(e), k9, e9, k10, e10, k);
        let k8 = self.scale.put(k9);
        let e8 = self.scale.put(e9);
        <u32 as Wire>::lemma_put_append(self.scale, k9);
        <u32 as Wire>::lemma_put_append(self.scale, e9);
        lemma_append_step(self.scale.put(e), k8, e8, k9, e9, k);
        let k7 = self.offset.put(k8);
        let e7 = self.offset.put(e8);
        <i32 as Wire>::lemma_put_append(self.offset, k8);
        <i32 as Wire>::lemma_put_append(self.offset, e8);
        lemma_append_step(self.offset.put(e), k7, e7, k8, e8, k);
        let k6 = self.value.put(k7);
        let e6 = self.value.put(e7);
        <u32 as Wire>::lemma_put_append(self.value, k7);
        <u32 as Wire>::lemma_put_append(self.value, e7);
        lemma_append_step(self.value.put(e), k6, e6, k7, e7, k);
        let k5 = self.variable_reference.put(k6);
        let e5 = self.variable_reference.put(e6);
        <ObjectId as Wire>::lemma_put_append(self.variable_reference, k6);
        <ObjectId as Wire>::lemma_put_append(self.variable_reference, e6);
        lemma_append_step(self.variable_reference.put(e), k5, e5, k6, e6, k);
        let k4 = self.options.put(k5);
        let e4 = self.options.put(e5);
        <u8 as Wire>::lemma_put_append(self.options, k5);
        <u8 as Wire>::lemma_put_append(self.options, e5);
        lemma_append_step(self.options.put(e), k4, e4, k5, e5, k);
        let k3 = self.font_attributes.put(k4);
        let e3 = self.font_attributes.put(e4);
        <ObjectId as Wire>::lemma_put_append(self.font_attributes, k4);
        <ObjectId as Wire>::lemma_put_append(self.font_attributes, e4);
        lemma_append_step(self.font_attributes.put(e), k3, e3, k4, e4, k);
        let k2 = self.background_colour.put(k3);
        let e2 = self.background_colour.put(e3);
        <u8 as Wire>::lemma_put_append(self.background_colour, k3);
        <u8 as Wire>::lemma_put_append(self.background_colour, e3);
        lemma_append_step(self.background_colour.put(e), k2, e2, k3, e3, k);
        let k1 = self.height.put(k2);
        let e1 = self.height.put(e2);
        <u16 as Wire>::lemma_put_append(self.height, k2);
        <u16 as Wire>::lemma_put_append(self.height, e2);
        lemma_append_step(self.height.put(e), k1, e1, k2, e2, k);
        let k0 = self.width.put(k1);
        let e0 = self.width.put(e1);
        <u16 as Wire>::lemma_put_append(self.width, k1);
        <u16 as Wire>::lemma_put_append(self.width, e1);
        lemma_append_step(self.width.put(e), k0, e0, k1, e1, k);
    }

    /// The fields are fixed by their encoding, and so is where it ends.
    pub proof fn lemma_body_injective(x: OutputNumber, y: OutputNumber, k1: Seq<u8>, k2: Seq<u8>)
        requires
            x.wf(),
            y.wf(),
            x.put_body(k1) == y.put_body(k2),
        ensures
            k1 == k2,
    {
    }

    /// Reads the fields that follow the object header.
    pub fn read_body(cur: &mut Cursor, id: ObjectId) -> (r: Result<OutputNumber, ParseError>)
        requires
            old(cur).wf(),
        ensures
            final(cur).wf(),
            final(cur).data == old(cur).data,
            match r {
                Ok(x) => x.id == id && x.wf() && old(cur).rest() == x.put_body(final(cur).rest()),
                Err(e) => e == ParseError::DataEmpty && forall|x: OutputNumber, k: Seq<u8>|
                    x.wf() ==> #[trigger] x.put_body(k) != old(cur).rest(),
            },
    {
        let width = <u16 as Wire>::read(cur)?;
        let height = <u16 as Wire>::read(cur)?;
        let background_colour = <u8 as Wire>::read(cur)?;
        let font_attributes = <ObjectId as Wire>::read(cur)?;
        let options = <u8 as Wire>::read(cur)?;
        let variable_reference = <ObjectId as Wire>::read(cur)?;
        let value = <u32 as Wire>::read(cur)?;
        let offset = <i32 as Wire>::read(cur)?;
        let scale = <u32 as Wire>::read(cur)?;
        let nr_of_decimals = <u8 as Wire>::read(cur)?;
        let format = <bool as Wire>::read(cur)?;
        let justification = <u8 as Wire>::read(cur)?;
        let macro_refs = read_counted8::<MacroRef>(cur)?;
        Ok(OutputNumber { id, width, height, background_colour, font_attributes, options, variable_reference, value, offset, scale, nr_of_decimals, format, justification, macro_refs })
    }

    /// Writes the fields that follow the object header.
    pub fn write_body(&self, out: &mut Vec<u8>)
        requires
            self.wf(),
        ensures
            forall|k: Seq<u8>| old(out)@ + #[trigger] self.put_body(k) == final(out)@ + k,
    {
        self.width.write(out);
        self.height.write(out);
        self.background_colour.write(out);
        self.font_attributes.write(out);
        self.options.write(out);
        self.variable_reference.write(out);
        self.value.write(out);
        self.offset.write(out);
        self.scale.write(out);
        self.nr_of_decimals.write(out);
        self.format.write(out);
        self.justification.write(out);
        write_counted8(&self.macro_refs, out);
    }

    /// The handles of other objects of the pool that this object refers to, in field order.
    pub open spec fn references(&self) -> Seq<ObjectId> {
        seq![self.font_attributes] + seq![self.variable_reference] + macro_ids(self.macro_refs@)
    }

    /// Appends the handles that `references` lists.
    pub fn collect_references(&self, out: &mut Vec<ObjectId>)
        ensures
            final(out)@ == old(out)@ + self.references(),
    {
        let ghost start = out@;
        out.push(self.font_attributes);
        out.push(self.variable_reference);
        push_macro_ids(&self.macro_refs, out);
        assert(out@ =~= start + self.references());
    }
}

/// A line.
#[derive(Debug, Clone, PartialEq, Eq)]
pub struct OutputLine {
    pub id: ObjectId,
    pub line_attributes: ObjectId,
    pub width: u16,
    pub height: u16,
    pub line_direction: u8,
    pub macro_refs: Vec<MacroRef>,
}

impl OutputLine {
    /// Every counted section fits its count field.
    pub open spec fn wf(&self) -> bool {
        self.macro_refs@.len() <= 0xff
    }

    /// The fields after the object header, in order, followed by `k`.
    pub open spec fn put_body(&self, k: Seq<u8>) -> Seq<u8> {
        self.line_attributes.put(self.width.put(self.height.put(self.line_direction.put(put_counted8(self.macro_refs@, k)))))
    }

    pub fn is_encodable(&self) -> (r: bool)
        ensures
            r == self.wf(),
    {
        self.macro_refs.len() <= 0xff
    }

    pub proof fn lemma_body_append(&self, k: Seq<u8>)
        ensures
            self.put_body(k) == self.put_body(Seq::empty()) + k,
    {
        let e = Seq::<u8>::empty();
        let k4 = put_counted8(self.macro_refs@, k);
        let e4 = put_counted8(self.macro_refs@, e);
        lemma_counted8_append(self.macro_refs@, k);
        let k3 = self.line_direction.put(k4);
        let e3 = self.line_direction.put(e4);
        <u8 as Wire>::lemma_put_append(self.line_direction, k4);
        <u8 as Wire>::lemma_put_append(self.line_direction, e4);
        lemma_append_step(self.line_direction.put(e), k3, e3, k4, e4, k);
        let k2 = self.height.put(k3);
        let e2 = self.height.put(e3);
        <u16 as Wire>::lemma_put_append(self.height, k3);
        <u16 as Wire>::lemma_put_append(self.height, e3);
        lemma_append_step(self.height.put(e), k2, e2, k3, e3, k);
        let k1 = self.width.put(k2);
        let e1 = self.width.put(e2);
        <u16 as Wire>::lemma_put_append(self.width, k2);
        <u16 as Wire>::lemma_put_append(self.width, e2);
        lemma_append_step(self.width.put(e), k1, e1, k2, e2, k);
        let k0 = self.line_attributes.put(k1);
        let e0 = self.line_attributes.put(e1);
        <ObjectId as Wire>::lemma_put_append(self.line_attributes, k1);
        <ObjectId as Wire>::lemma_put_append(self.line_attributes, e1);
        lemma_append_step(self.line_attributes.put(e), k0, e0, k1, e1, k);
    }

    /// The fields are fixed by their encoding, and so is where it ends.
    pub proof fn lemma_body_injective(x: OutputLine, y: OutputLine, k1: Seq<u8>, k2: Seq<u8>)
        requires
            x.wf(),
            y.wf(),
            x.put_body(k1) == y.put_body(k2),
        ensures
            k1 == k2,
    {
    }

    /// Reads the fields that follow the object header.
    pub fn read_body(cur: &mut Cursor, id: ObjectId) -> (r: Result<OutputLine, ParseError>)
        requires
            old(cur).wf(),
        ensures
            final(cur).wf(),
            final(cur).data == old(cur).data,
            match r {
                Ok(x) => x.id == id && x.wf() && old(cur).rest() == x.put_body(final(cur).rest()),
                Err(e) => e == ParseError::DataEmpty && forall|x: OutputLine, k: Seq<u8>|
                    x.wf() ==> #[trigger] x.put_body(k) != old(cur).rest(),
            },
    {
        let line_attributes = <ObjectId as Wire>::read(cur)?;
        let width = <u16 as Wire>::read(cur)?;
        let height = <u16 as Wire>::read(cur)?;
        let line_direction = <u8 as Wire>::read(cur)?;
        let macro_refs = read_counted8::<MacroRef>(cur)?;
        Ok(OutputLine { id, line_attributes, width, height, line_direction, macro_refs })
    }

    /// Writes the fields that follow the object header.
    pub fn write_body(&self, out: &mut Vec<u8>)
        requires
            self.wf(),
        ensures
            forall|k: Seq<u8>| old(out)@ + #[trigger] self.put_body(k) == final(out)@ + k,
    {
        self.line_attributes.write(out);
        self.width.write(out);
        self.height.write(out);
        self.line_direction.write(out);
        write_counted8(&self.macro_refs, out);
    }

    /// The handles of other objects of the pool that this object refers to, in field order.
    pub open spec fn references(&self) -> Seq<ObjectId> {
        seq![self.line_attributes] + macro_ids(self.macro_refs@)
    }

    /// Appends the handles that `references` lists.
    pub fn collect_references(&self, out: &mut Vec<ObjectId>)
        ensures
            final(out)@ == old(out)@ + self.references(),
    {
        let ghost start = out@;
        out.push(self.line_attributes);
        push_macro_ids(&self.macro_refs, out);
        assert(out@ =~= start + self.references());
    }
}

/// A rectangle.
#[derive(Debug, Clone, PartialEq, Eq)]
pub struct OutputRectangle {
    pub id: ObjectId,
    pub line_attributes: ObjectId,
    pub width: u16,
    pub height: u16,
    pub line_suppression: u8,
    pub fill_attributes: ObjectId,
    pub macro_refs: Vec<MacroRef>,
}

impl OutputRectangle {
    /// Every counted section fits its count field.
    pub open spec fn wf(&self) -> bool {
        self.macro_refs@.len() <= 0xff
    }

    /// The fields after the object header, in order, followed by `k`.
    pub open spec fn put_body(&self, k: Seq<u8>) -> Seq<u8> {
        self.line_attributes.put(self.width.put(self.height.put(self.line_suppression.put(self.fill_attributes.put(put_counted8(self.macro_refs@, k))))))
    }

    pub fn is_encodable(&self) -> (r: bool)
        ensures
            r == self.wf(),
    {
        self.macro_refs.len() <= 0xff
    }

    pub proof fn lemma_body_append(&self, k: Seq<u8>)
        ensures
            self.put_body(k) == self.put_body(Seq::empty()) + k,
    {
        let e = Seq::<u8>::empty();
        let k5 = put_counted8(self.macro_refs@, k);
        let e5 = put_counted8(self.macro_refs@, e);
        lemma_counted8_append(self.macro_refs@, k);
        let k4 = self.fill_attributes.put(k5);
        let e4 = self.fill_attributes.put(e5);
        <ObjectId as Wire>::lemma_put_append(self.fill_attributes, k5);
        <ObjectId as Wire>::lemma_put_append(self.fill_attributes, e5);
        lemma_append_step(self.fill_attributes.put(e), k4, e4, k5, e5, k);
        let k3 = self.line_suppression.put(k4);
        let e3 = self.line_suppression.put(e4);
        <u8 as Wire>::lemma_put_append(self.line_suppression, k4);
        <u8 as Wire>::lemma_put_append(self.line_suppression, e4);
        lemma_append_step(self.line_suppression.put(e), k3, e3, k4, e4, k);
        let k2 = self.height.put(k3);
        let e2 = self.height.put(e3);
        <u16 as Wire>::lemma_put_append(self.height, k3);
        <u16 as Wire>::lemma_put_append(self.height, e3);
        lemma_append_step(self.height.put(e), k2, e2, k3, e3, k);
        let k1 = self.width.put(k2);
        let e1 = self.width.put(e2);
        <u16 as Wire>::lemma_put_append(self.width, k2);
        <u16 as Wire>::lemma_put_append(self.width, e2);
        lemma_append_step(self.width.put(e), k1, e1, k2, e2, k);
        let k0 = self.line_attributes.put(k1);
        let e0 = self.line_attributes.put(e1);
        <ObjectId as Wire>::lemma_put_append(self.line_attributes, k1);
        <ObjectId as Wire>::lemma_put_append(self.line_attributes, e1);
        lemma_append_step(self.line_attributes.put(e), k0, e0, k1, e1, k);
    }

    /// The fields are fixed by their encoding, and so is where it ends.
    pub proof fn lemma_body_injective(x: OutputRectangle, y: OutputRectangle, k1: Seq<u8>, k2: Seq<u8>)
        requires
            x.wf(),
            y.wf(),
            x.put_body(k1) == y.put_body(k2),
        ensures
            k1 == k2,
    {
    }

    /// Reads the fields that follow the object header.
    pub fn read_body(cur: &mut Cursor, id: ObjectId) -> (r: Result<OutputRectangle, ParseError>)
        requires
            old(cur).wf(),
        ensures
            final(cur).wf(),
            final(cur).data == old(cur).data,
            match r {
                Ok(x) => x.id == id && x.wf() && old(cur).rest() == x.put_body(final(cur).rest()),
                Err(e) => e == ParseError::DataEmpty && forall|x: OutputRectangle, k: Seq<u8>|
                    x.wf() ==> #[trigger] x.put_body(k) != old(cur).rest(),
            },
    {
        let line_attributes = <ObjectId as Wire>::read(cur)?;
        let width = <u16 as Wire>::read(cur)?;
        let height = <u16 as Wire>::read(cur)?;
        let line_suppression = <u8 as Wire>::read(cur)?;
        let fill_attributes = <ObjectId as Wire>::read(cur)?;
        let macro_refs = read_counted8::<MacroRef>(cur)?;
        Ok(OutputRectangle { id, line_attributes, width, height, line_suppression, fill_attributes, macro_refs })
    }

    /// Writes the fields that follow the object header.
    pub fn write_body(&self, out: &mut Vec<u8>)
        requires
            self.wf(),
        ensures
            forall|k: Seq<u8>| old(out)@ + #[trigger] self.put_body(k) == final(out)@ + k,
    {
        self.line_attributes.write(out);
        self.width.write(out);
        self.height.write(out);
        self.line_suppression.write(out);
        self.fill_attributes.write(out);
        write_counted8(&self.macro_refs, out);
    }

    /// The handles of other objects of the pool that this object refers to, in field order.
    pub open spec fn references(&self) -> Seq<ObjectId> {
        seq![self.line_attributes] + seq![self.fill_attributes] + macro_ids(self.macro_refs@)
    }

    /// Appends the handles that `references` lists.
    pub fn collect_references(&self, out: &mut Vec<ObjectId>)
        ensures
            final(out)@ == old(out)@ + self.references(),
    {
        let ghost start = out@;
        out.push(self.line_attributes);
        out.push(self.fill_attributes);
        push_macro_ids(&self.macro_refs, out);
        assert(out@ =~= start + self.references());
    }
}

/// An ellipse, arc or segment.
#[derive(Debug, Clone, PartialEq, Eq)]
pub struct OutputEllipse {
    pub id: ObjectId,
    pub line_attributes: ObjectId,
    pub width: u16,
    pub height: u16,
    pub ellipse_type: u8,
    pub start_angle: u8,
    pub end_angle: u8,
    pub fill_attributes: ObjectId,
    pub macro_refs: Vec<MacroRef>,
}

impl OutputEllipse {
    /// Every counted section fits its count field.
    pub open spec fn wf(&self) -> bool {
        self.macro_refs@.len() <= 0xff
    }

    /// The fields after the object header, in order, followed by `k`.
    pub open spec fn put_body(&self, k: Seq<u8>) -> Seq<u8> {
        self.line_attributes.put(self.width.put(self.height.put(self.ellipse_type.put(self.start_angle.put(self.end_angle.put(self.fill_attributes.put(put_counted8(self.macro_refs@, k))))))))
    }

    pub fn is_encodable(&self) -> (r: bool)
        ensures
            r == self.wf(),
    {
        self.macro_refs.len() <= 0xff
    }

    pub proof fn lemma_body_append(&self, k: Seq<u8>)
        ensures
            self.put_body(k) == self.put_body(Seq::empty()) + k,
    {
        let e = Seq::<u8>::empty();
        let k7 = put_counted8(self.macro_refs@, k);
        let e7 = put_counted8(self.macro_refs@, e);
        lemma_counted8_append(self.macro_refs@, k);
        let k6 = self.fill_attributes.put(k7);
        let e6 = self.fill_attributes.put(e7);
        <ObjectId as Wire>::lemma_put_append(self.fill_attributes, k7);
        <ObjectId as Wire>::lemma_put_append(self.fill_attributes, e7);
        lemma_append_step(self.fill_attributes.put(e), k6, e6, k7, e7, k);
        let k5 = self.end_angle.put(k6);
        let e5 = self.end_angle.put(e6);
        <u8 as Wire>::lemma_put_append(self.end_angle, k6);
        <u8 as Wire>::lemma_put_append(self.end_angle, e6);
        lemma_append_step(self.end_angle.put(e), k5, e5, k6, e6, k);
        let k4 = self.start_angle.put(k5);
        let e4 = self.start_angle.put(e5);
        <u8 as Wire>::lemma_put_append(self.start_angle, k5);
        <u8 as Wire>::lemma_put_append(self.start_angle, e5);
        lemma_append_step(self.start_angle.put(e), k4, e4, k5, e5, k);
        let k3 = self.ellipse_type.put(k4);
        let e3 = self.ellipse_type.put(e4);
        <u8 as Wire>::lemma_put_append(self.ellipse_type, k4);
        <u8 as Wire>::lemma_put_append(self.ellipse_type, e4);
        lemma_append_step(self.ellipse_type.put(e), k3, e3, k4, e4, k);
        let k2 = self.height.put(k3);
        let e2 = self.height.put(e3);
        <u16 as Wire>::lemma_put_append(self.height, k3);
        <u16 as Wire>::lemma_put_append(self.height, e3);
        lemma_append_step(self.height.put(e), k2, e2, k3, e3, k);
        let k1 = self.width.put(k2);
        let e1 = self.width.put(e2);
        <u16 as Wire>::lemma_put_append(self.width, k2);
        <u16 as Wire>::lemma_put_append(self.width, e2);
        lemma_append_step(self.width.put(e), k1, e1, k2, e2, k);
        let k0 = self.line_attributes.put(k1);
        let e0 = self.line_attributes.put(e1);
        <ObjectId as Wire>::lemma_put_append(self.line_attributes, k1);
        <ObjectId as Wire>::lemma_put_append(self.line_attributes, e1);
        lemma_append_step(self.line_attributes.put(e), k0, e0, k1, e1, k);
    }

    /// The fields are fixed by their encoding, and so is where it ends.
    pub proof fn lemma_body_injective(x: OutputEllipse, y: OutputEllipse, k1: Seq<u8>, k2: Seq<u8>)
        requires
            x.wf(),
            y.wf(),
            x.put_body(k1) == y.put_body(k2),
        ensures
            k1 == k2,
    {
    }

    /// Reads the fields that follow the object header.
    pub fn read_body(cur: &mut Cursor, id: ObjectId) -> (r: Result<OutputEllipse, ParseError>)
        requires
            old(cur).wf(),
        ensures
            final(cur).wf(),
            final(cur).data == old(cur).data,
            match r {
                Ok(x) => x.id == id && x.wf() && old(cur).rest() == x.put_body(final(cur).rest()),
                Err(e) => e == ParseError::DataEmpty && forall|x: OutputEllipse, k: Seq<u8>|
                    x.wf() ==> #[trigger] x.put_body(k) != old(cur).rest(),
            },
    {
        let line_attributes = <ObjectId as Wire>::read(cur)?;
        let width = <u16 as Wire>::read(cur)?;
        let height = <u16 as Wire>::read(cur)?;
        let ellipse_type = <u8 as Wire>::read(cur)?;
        let start_angle = <u8 as Wire>::read(cur)?;
        let end_angle = <u8 as Wire>::read(cur)?;
        let fill_attributes = <ObjectId as Wire>::read(cur)?;
        let macro_refs = read_counted8::<MacroRef>(cur)?;
        Ok(OutputEllipse { id, line_attributes, width, height, ellipse_type, start_angle, end_angle, fill_attributes, macro_refs })
    }

    /// Writes the fields that follow the object header.
    pub fn write_body(&self, out: &mut Vec<u8>)
        requires
            self.wf(),
        ensures
            forall|k: Seq<u8>| old(out)@ + #[trigger] self.put_body(k) == final(out)@ + k,
    {
        self.line_attributes.write(out);
        self.width.write(out);
        self.height.write(out);
        self.ellipse_type.write(out);
        self.start_angle.write(out);
        self.end_angle.write(out);
        self.fill_attributes.write(out);
        write_counted8(&self.macro_refs, out);
    }

    /// The handles of other objects of the pool that this object refers to, in field order.
    pub open spec fn references(&self) -> Seq<ObjectId> {
        seq![self.line_attributes] + seq![self.fill_attributes] + macro_ids(self.macro_refs@)
    }

    /// Appends the handles that `references` lists.
    pub fn collect_references(&self, out: &mut Vec<ObjectId>)
        ensures
            final(out)@ == old(out)@ + self.references(),
    {
        let ghost start = out@;
        out.push(self.line_attributes);
        out.push(self.fill_attributes);
        push_macro_ids(&self.macro_refs, out);
        assert(out@ =~= start + self.references());
    }
}

/// A polygon given by its points.
#[derive(Debug, Clone, PartialEq, Eq)]
pub struct OutputPolygon {
    pub id: ObjectId,
    pub width: u16,
    pub height: u16,
    pub line_attributes: ObjectId,
    pub fill_attributes: ObjectId,
    pub polygon_type: u8,
    pub points: Vec<Point<u16>>,
    pub macro_refs: Vec<MacroRef>,
}

impl OutputPolygon {
    /// Every counted section fits its count field.
    pub open spec fn wf(&self) -> bool {
        self.points@.len() <= 0xff && self.macro_refs@.len() <= 0xff
    }

    /// The fields after the object header, in order, followed by `k`.
    pub open spec fn put_body(&self, k: Seq<u8>) -> Seq<u8> {
        self.width.put(self.height.put(self.line_attributes.put(self.fill_attributes.put(self.polygon_type.put(put_counted8(self.points@, put_counted8(self.macro_refs@, k)))))))
    }

    pub fn is_encodable(&self) -> (r: bool)
        ensures
            r == self.wf(),
    {
        self.points.len() <= 0xff && self.macro_refs.len() <= 0xff
    }

    pub proof fn lemma_body_append(&self, k: Seq<u8>)
        ensures
            self.put_body(k) == self.put_body(Seq::empty()) + k,
    {
        let e = Seq::<u8>::empty();
        let k6 = put_counted8(self.macro_refs@, k);
        let e6 = put_counted8(self.macro_refs@, e);
        lemma_counted8_append(self.macro_refs@, k);
        let k5 = put_counted8(self.points@, k6);
        let e5 = put_counted8(self.points@, e6);
        lemma_counted8_append(self.points@, k6);
        lemma_counted8_append(self.points@, e6);
        lemma_append_step(put_counted8(self.points@, e), k5, e5, k6, e6, k);
        let k4 = self.polygon_type.put(k5);
        let e4 = self.polygon_type.put(e5);
        <u8 as Wire>::lemma_put_append(self.polygon_type, k5);
        <u8 as Wire>::lemma_put_append(self.polygon_type, e5);
        lemma_append_step(self.polygon_type.put(e), k4, e4, k5, e5, k);
        let k3 = self.fill_attributes.put(k4);
        let e3 = self.fill_attributes.put(e4);
        <ObjectId as Wire>::lemma_put_append(self.fill_attributes, k4);
        <ObjectId as Wire>::lemma_put_append(self.fill_attributes, e4);
        lemma_append_step(self.fill_attributes.put(e), k3, e3, k4, e4, k);
        let k2 = self.line_attributes.put(k3);
        let e2 = self.line_attributes.put(e3);
        <ObjectId as Wire>::lemma_put_append(self.line_attributes, k3);
        <ObjectId as Wire>::lemma_put_append(self.line_attributes, e3);
        lemma_append_step(self.line_attributes.put(e), k2, e2, k3, e3, k);
        let k1 = self.height.put(k2);
        let e1 = self.height.put(e2);
        <u16 as Wire>::lemma_put_append(self.height, k2);
        <u16 as Wire>::lemma_put_append(self.height, e2);
        lemma_append_step(self.height.put(e), k1, e1, k2, e2, k);
        let k0 = self.width.put(k1);
        let e0 = self.width.put(e1);
        <u16 as Wire>::lemma_put_append(self.width, k1);
        <u16 as Wire>::lemma_put_append(self.width, e1);
        lemma_append_step(self.width.put(e), k0, e0, k1, e1, k);
    }

    /// The fields are fixed by their encoding, and so is where it ends.
    pub proof fn lemma_body_injective(x: OutputPolygon, y: OutputPolygon, k1: Seq<u8>, k2: Seq<u8>)
        requires
            x.wf(),
            y.wf(),
            x.put_body(k1) == y.put_body(k2),
        ensures
            k1 == k2,
    {
    }

    /// Reads the fields that follow the object header.
    pub fn read_body(cur: &mut Cursor, id: ObjectId) -> (r: Result<OutputPolygon, ParseError>)
        requires
            old(cur).wf(),
        ensures
            final(cur).wf(),
            final(cur).data == old(cur).data,
            match r {
                Ok(x) => x.id == id && x.wf() && old(cur).rest() == x.put_body(final(cur).rest()),
                Err(e) => e == ParseError::DataEmpty && forall|x: OutputPolygon, k: Seq<u8>|
                    x.wf() ==> #[trigger] x.put_body(k) != old(cur).rest(),
            },
    {
        let width = <u16 as Wire>::read(cur)?;
        let height = <u16 as Wire>::read(cur)?;
        let line_attributes = <ObjectId as Wire>::read(cur)?;
        let fill_attributes = <ObjectId as Wire>::read(cur)?;
        let polygon_type = <u8 as Wire>::read(cur)?;
        let points = read_counted8::<Point<u16>>(cur)?;
        let macro_refs = read_counted8::<MacroRef>(cur)?;
        Ok(OutputPolygon { id, width, height, line_attributes, fill_attributes, polygon_type, points, macro_refs })
    }

    /// Writes the fields that follow the object header.
    pub fn write_body(&self, out: &mut Vec<u8>)
        requires
            self.wf(),
        ensures
            forall|k: Seq<u8>| old(out)@ + #[trigger] self.put_body(k) == final(out)@ + k,
    {
        self.width.write(out);
        self.height.write(out);
        self.line_attributes.write(out);
        self.fill_attributes.write(out);
        self.polygon_type.write(out);
        write_counted8(&self.points, out);
        write_counted8(&self.macro_refs, out);
    }

    /// The handles of other objects of the pool that this object refers to, in field order.
    pub open spec fn references(&self) -> Seq<ObjectId> {
        seq![self.line_attributes] + seq![self.fill_attributes] + macro_ids(self.macro_refs@)
    }

    /// Appends the handles that `references` lists.
    pub fn collect_references(&self, out: &mut Vec<ObjectId>)
        ensures
            final(out)@ == old(out)@ + self.references(),
    {
        let ghost start = out@;
        out.push(self.line_attributes);
        out.push(self.fill_attributes);
        push_macro_ids(&self.macro_refs, out);
        assert(out@ =~= start + self.references());
    }
}

/// A needle meter.
#[derive(Debug, Clone, PartialEq, Eq)]
pub struct OutputMeter {
    pub id: ObjectId,
    pub width: u16,
    pub needle_colour: u8,
    pub border_colour: u8,
    pub arc_and_tick_colour: u8,
    pub options: u8,
    pub nr_of_ticks: u8,
    pub start_angle: u8,
    pub end_angle: u8,
    pub min_value: u16,
    pub max_value: u16,
    pub variable_reference: ObjectId,
    pub value: u16,
    pub macro_refs: Vec<MacroRef>,
}

impl OutputMeter {
    /// Every counted section fits its count field.
    pub open spec fn wf(&self) -> bool {
        self.macro_refs@.len() <= 0xff
    }

    /// The fields after the object header, in order, followed by `k`.
    pub open spec fn put_body(&self, k: Seq<u8>) -> Seq<u8> {
        self.width.put(self.needle_colour.put(self.border_colour.put(self.arc_and_tick_colour.put(self.options.put(self.nr_of_ticks.put(self.start_angle.put(self.end_angle.put(self.min_value.put(self.max_value.put(self.variable_reference.put(self.value.put(put_counted8(self.macro_refs@, k)))))))))))))
    }

    pub fn is_encodable(&self) -> (r: bool)
        ensures
            r == self.wf(),
    {
        self.macro_refs.len() <= 0xff
    }

    pub proof fn lemma_body_append(&self, k: Seq<u8>)
        ensures
            self.put_body(k) == self.put_body(Seq::empty()) + k,
    {
        let e = Seq::<u8>::empty();
        let k12 = put_counted8(self.macro_refs@, k);
        let e12 = put_counted8(self.macro_refs@, e);
        lemma_counted8_append(self.macro_refs@, k);
        let k11 = self.value.put(k12);
        let e11 = self.value.put(e12);
        <u16 as Wire>::lemma_put_append(self.value, k12);
        <u16 as Wire>::lemma_put_append(self.value, e12);
        lemma_append_step(self.value.put(e), k11, e11, k12, e12, k);
        let k10 = self.variable_reference.put(k11);
        let e10 = self.variable_reference.put(e11);
        <ObjectId as Wire>::lemma_put_append(self.variable_reference, k11);
        <ObjectId as Wire>::lemma_put_append(self.variable_reference, e11);
        lemma_append_step(self.variable_reference.put(e), k10, e10, k11, e11, k);
        let k9 = self.max_value.put(k10);
        let e9 = self.max_value.put(e10);
        <u16 as Wire>::lemma_put_append(self.max_value, k10);
        <u16 as Wire>::lemma_put_append(self.max_value, e10);
        lemma_append_step(self.max_value.put(e), k9, e9, k10, e10, k);
        let k8 = self.min_value.put(k9);
        let e8 = self.min_value.put(e9);
        <u16 as Wire>::lemma_put_append(self.min_value, k9);
        <u16 as Wire>::lemma_put_append(self.min_value, e9);
        lemma_append_step(self.min_value.put(e), k8, e8, k9, e9, k);
        let k7 = self.end_angle.put(k8);
        let e7 = self.end_angle.put(e8);
        <u8 as Wire>::lemma_put_append(self.end_angle, k8);
        <u8 as Wire>::lemma_put_append(self.end_angle, e8);
        lemma_append_step(self.end_angle.put(e), k7, e7, k8, e8, k);
        let k6 = self.start_angle.put(k7);
        let e6 = self.start_angle.put(e7);
        <u8 as Wire>::lemma_put_append(self.start_angle, k7);
        <u8 as Wire>::lemma_put_append(self.start_angle, e7);
        lemma_append_step(self.start_angle.put(e), k6, e6, k7, e7, k);
        let k5 = self.nr_of_ticks.put(k6);
        let e5 = self.nr_of_ticks.put(e6);
        <u8 as Wire>::lemma_put_append(self.nr_of_ticks, k6);
        <u8 as Wire>::lemma_put_append(self.nr_of_ticks, e6);
        lemma_append_step(self.nr_of_ticks.put(e), k5, e5, k6, e6, k);
        let k4 = self.options.put(k5);
        let e4 = self.options.put(e5);
        <u8 as Wire>::lemma_put_append(self.options, k5);
        <u8 as Wire>::lemma_put_append(self.options, e5);
        lemma_append_step(self.options.put(e), k4, e4, k5, e5, k);
        let k3 = self.arc_and_tick_colour.put(k4);
        let e3 = self.arc_and_tick_colour.put(e4);
        <u8 as Wire>::lemma_put_append(self.arc_and_tick_colour, k4);
        <u8 as Wire>::lemma_put_append(self.arc_and_tick_colour, e4);
        lemma_append_step(self.arc_and_tick_colour.put(e), k3, e3, k4, e4, k);
        let k2 = self.border_colour.put(k3);
        let e2 = self.border_colour.put(e3);
        <u8 as Wire>::lemma_put_append(self.border_colour, k3);
        <u8 as Wire>::lemma_put_append(self.border_colour, e3);
        lemma_append_step(self.border_colour.put(e), k2, e2, k3, e3, k);
        let k1 = self.needle_colour.put(k2);
        let e1 = self.needle_colour.put(e2);
        <u8 as Wire>::lemma_put_append(self.needle_colour, k2);
        <u8 as Wire>::lemma_put_append(self.needle_colour, e2);
        lemma_append_step(self.needle_colour.put(e), k1, e1, k2, e2, k);
        let k0 = self.width.put(k1);
        let e0 = self.width.put(e1);
        <u16 as Wire>::lemma_put_append(self.width, k1);
        <u16 as Wire>::lemma_put_append(self.width, e1);
        lemma_append_step(self.width.put(e), k0, e0, k1, e1, k);
    }

    /// The fields are fixed by their encoding, and so is where it ends.
    pub proof fn lemma_body_injective(x: OutputMeter, y: OutputMeter, k1: Seq<u8>, k2: Seq<u8>)
        requires
            x.wf(),
            y.wf(),
            x.put_body(k1) == y.put_body(k2),
        ensures
            k1 == k2,
    {
    }

    /// Reads the fields that follow the object header.
    pub fn read_body(cur: &mut Cursor, id: ObjectId) -> (r: Result<OutputMeter, ParseError>)
        requires
            old(cur).wf(),
        ensures
            final(cur).wf(),
            final(cur).data == old(cur).data,
            match r {
                Ok(x) => x.id == id && x.wf() && old(cur).rest() == x.put_body(final(cur).rest()),
                Err(e) => e == ParseError::DataEmpty && forall|x: OutputMeter, k: Seq<u8>|
                    x.wf() ==> #[trigger] x.put_body(k) != old(cur).rest(),
            },
    {
        let width = <u16 as Wire>::read(cur)?;
        let needle_colour = <u8 as Wire>::read(cur)?;
        let border_colour = <u8 as Wire>::read(cur)?;
        let arc_and_tick_colour = <u8 as Wire>::read(cur)?;
        let options = <u8 as Wire>::read(cur)?;
        let nr_of_ticks = <u8 as Wire>::read(cur)?;
        let start_angle = <u8 as Wire>::read(cur)?;
        let end_angle = <u8 as Wire>::read(cur)?;
        let min_value = <u16 as Wire>::read(cur)?;
        let max_value = <u16 as Wire>::read(cur)?;
        let variable_reference = <ObjectId as Wire>::read(cur)?;
        let value = <u16 as Wire>::read(cur)?;
        let macro_refs = read_counted8::<MacroRef>(cur)?;
        Ok(OutputMeter { id, width, needle_colour, border_colour, arc_and_tick_colour, options, nr_of_ticks, start_angle, end_angle, min_value, max_value, variable_reference, value, macro_refs })
    }

    /// Writes the fields that follow the object header.
    pub fn write_body(&self, out: &mut Vec<u8>)
        requires
            self.wf(),
        ensures
            forall|k: Seq<u8>| old(out)@ + #[trigger] self.put_body(k) == final(out)@ + k,
    {
        self.width.write(out);
        self.needle_colour.write(out);
        self.border_colour.write(out);
        self.arc_and_tick_colour.write(out);
        self.options.write(out);
        self.nr_of_ticks.write(out);
        self.start_angle.write(out);
        self.end_angle.write(out);
        self.min_value.write(out);
        self.max_value.write(out);
        self.variable_reference.write(out);
        self.value.write(out);
        write_counted8(&self.macro_refs, out);
    }

    /// The handles of other objects of the pool that this object refers to, in field order.
    pub open spec fn references(&self) -> Seq<ObjectId> {
        seq![self.variable_reference] + macro_ids(self.macro_refs@)
    }

    /// Appends the handles that `references` lists.
    pub fn collect_references(&self, out: &mut Vec<ObjectId>)
        ensures
            final(out)@ == old(out)@ + self.references(),
    {
        let ghost start = out@;
        out.push(self.variable_reference);
        push_macro_ids(&self.macro_refs, out);
        assert(out@ =~= start + self.references());
    }
}

/// A linear bar graph.
#[derive(Debug, Clone, PartialEq, Eq)]
pub struct OutputLinearBarGraph {
    pub id: ObjectId,
    pub width: u16,
    pub height: u16,
    pub colour: u8,
    pub target_line_colour: u8,
    pub options: u8,
    pub nr_of_ticks: u8,
    pub min_value: u16,
    pub max_value: u16,
    pub variable_reference: ObjectId,
    pub value: u16,
    pub target_value_variable_reference: ObjectId,
    pub target_value: u16,
    pub macro_refs: Vec<MacroRef>,
}

impl OutputLinearBarGraph {
    /// Every counted section fits its count field.
    pub open spec fn wf(&self) -> bool {
        self.macro_refs@.len() <= 0xff
    }

    /// The fields after the object header, in order, followed by `k`.
    pub open spec fn put_body(&self, k: Seq<u8>) -> Seq<u8> {
        self.width.put(self.height.put(self.colour.put(self.target_line_colour.put(self.options.put(self.nr_of_ticks.put(self.min_value.put(self.max_value.put(self.variable_reference.put(self.value.put(self.target_value_variable_reference.put(self.target_value.put(put_counted8(self.macro_refs@, k)))))))))))))
    }

    pub fn is_encodable(&self) -> (r: bool)
        ensures
            r == self.wf(),
    {
        self.macro_refs.len() <= 0xff
    }

    pub proof fn lemma_body_append(&self, k: Seq<u8>)
        ensures
            self.put_body(k) == self.put_body(Seq::empty()) + k,
    {
        let e = Seq::<u8>::empty();
        let k12 = put_counted8(self.macro_refs@, k);
        let e12 = put_counted8(self.macro_refs@, e);
        lemma_counted8_append(self.macro_refs@, k);
        let k11 = self.target_value.put(k12);
        let e11 = self.target_value.put(e12);
        <u16 as Wire>::lemma_put_append(self.target_value, k12);
        <u16 as Wire>::lemma_put_append(self.target_value, e12);
        lemma_append_step(self.target_value.put(e), k11, e11, k12, e12, k);
        let k10 = self.target_value_variable_reference.put(k11);
        let e10 = self.target_value_variable_reference.put(e11);
        <ObjectId as Wire>::lemma_put_append(self.target_value_variable_reference, k11);
        <ObjectId as Wire>::lemma_put_append(self.target_value_variable_reference, e11);
        lemma_append_step(self.target_value_variable_reference.put(e), k10, e10, k11, e11, k);
        let k9 = self.value.put(k10);
        let e9 = self.value.put(e10);
        <u16 as Wire>::lemma_put_append(self.value, k10);
        <u16 as Wire>::lemma_put_append(self.value, e10);
        lemma_append_step(self.value.put(e), k9, e9, k10, e10, k);
        let k8 = self.variable_reference.put(k9);
        let e8 = self.variable_reference.put(e9);
        <ObjectId as Wire>::lemma_put_append(self.variable_reference, k9);
        <ObjectId as Wire>::lemma_put_append(self.variable_reference, e9);
        lemma_append_step(self.variable_reference.put(e), k8, e8, k9, e9, k);
        let k7 = self.max_value.put(k8);
        let e7 = self.max_value.put(e8);
        <u16 as Wire>::lemma_put_append(self.max_value, k8);
        <u16 as Wire>::lemma_put_append(self.max_value, e8);
        lemma_append_step(self.max_value.put(e), k7, e7, k8, e8, k);
        let k6 = self.min_value.put(k7);
        let e6 = self.min_value.put(e7);
        <u16 as Wire>::lemma_put_append(self.min_value, k7);
        <u16 as Wire>::lemma_put_append(self.min_value, e7);
        lemma_append_step(self.min_value.put(e), k6, e6, k7, e7, k);
        let k5 = self.nr_of_ticks.put(k6);
        let e5 = self.nr_of_ticks.put(e6);
        <u8 as Wire>::lemma_put_append(self.nr_of_ticks, k6);
        <u8 as Wire>::lemma_put_append(self.nr_of_ticks, e6);
        lemma_append_step(self.nr_of_ticks.put(e), k5, e5, k6, e6, k);
        let k4 = self.options.put(k5);
        let e4 = self.options.put(e5);
        <u8 as Wire>::lemma_put_append(self.options, k5);
        <u8 as Wire>::lemma_put_append(self.options, e5);
        lemma_append_step(self.options.put(e), k4, e4, k5, e5, k);
        let k3 = self.target_line_colour.put(k4);
        let e3 = self.target_line_colour.put(e4);
        <u8 as Wire>::lemma_put_append(self.target_line_colour, k4);
        <u8 as Wire>::lemma_put_append(self.target_line_colour, e4);
        lemma_append_step(self.target_line_colour.put(e), k3, e3, k4, e4, k);
        let k2 = self.colour.put(k3);
        let e2 = self.colour.put(e3);
        <u8 as Wire>::lemma_put_append(self.colour, k3);
        <u8 as Wire>::lemma_put_append(self.colour, e3);
        lemma_append_step(self.colour.put(e), k2, e2, k3, e3, k);
        let k1 = self.height.put(k2);
        let e1 = self.height.put(e2);
        <u16 as Wire>::lemma_put_append(self.height, k2);
        <u16 as Wire>::lemma_put_append(self.height, e2);
        lemma_append_step(self.height.put(e), k1, e1, k2, e2, k);
        let k0 = self.width.put(k1);
        let e0 = self.width.put(e1);
        <u16 as Wire>::lemma_put_append(self.width, k1);
        <u16 as Wire>::lemma_put_append(self.width, e1);
        lemma_append_step(self.width.put(e), k0, e0, k1, e1, k);
    }

    /// The fields are fixed by their encoding, and so is where it ends.
    pub proof fn lemma_body_injective(x: OutputLinearBarGraph, y: OutputLinearBarGraph, k1: Seq<u8>, k2: Seq<u8>)
        requires
            x.wf(),
            y.wf(),
            x.put_body(k1) == y.put_body(k2),
        ensures
            k1 == k2,
    {
    }

    /// Reads the fields that follow the object header.
    pub fn read_body(cur: &mut Cursor, id: ObjectId) -> (r: Result<OutputLinearBarGraph, ParseError>)
        requires
            old(cur).wf(),
        ensures
            final(cur).wf(),
            final(cur).data == old(cur).data,
            match r {
                Ok(x) => x.id == id && x.wf() && old(cur).rest() == x.put_body(final(cur).rest()),
                Err(e) => e == ParseError::DataEmpty && forall|x: OutputLinearBarGraph, k: Seq<u8>|
                    x.wf() ==> #[trigger] x.put_body(k) != old(cur).rest(),
            },
    {
        let width = <u16 as Wire>::read(cur)?;
        let height = <u16 as Wire>::read(cur)?;
        let colour = <u8 as Wire>::read(cur)?;
        let target_line_colour = <u8 as Wire>::read(cur)?;
        let options = <u8 as Wire>::read(cur)?;
        let nr_of_ticks = <u8 as Wire>::read(cur)?;
        let min_value = <u16 as Wire>::read(cur)?;
        let max_value = <u16 as Wire>::read(cur)?;
        let variable_reference = <ObjectId as Wire>::read(cur)?;
        let value = <u16 as Wire>::read(cur)?;
        let target_value_variable_reference = <ObjectId as Wire>::read(cur)?;
        let target_value = <u16 as Wire>::read(cur)?;
        let macro_refs = read_counted8::<MacroRef>(cur)?;
        Ok(OutputLinearBarGraph { id, width, height, colour, target_line_colour, options, nr_of_ticks, min_value, max_value, variable_reference, value, target_value_variable_reference, target_value, macro_refs })
    }

    /// Writes the fields that follow the object header.
    pub fn write_body(&self, out: &mut Vec<u8>)
        requires
            self.wf(),
        ensures
            forall|k: Seq<u8>| old(out)@ + #[trigger] self.put_body(k) == final(out)@ + k,
    {
        self.width.write(out);
        self.height.write(out);
        self.colour.write(out);
        self.target_line_colour.write(out);
        self.options.write(out);
        self.nr_of_ticks.write(out);
        self.min_value.write(out);
        self.max_value.write(out);
        self.variable_reference.write(out);
        self.value.write(out);
        self.target_value_variable_reference.write(out);
        self.target_value.write(out);
        write_counted8(&self.macro_refs, out);
    }

    /// The handles of other objects of the pool that this object refers to, in field order.
    pub open spec fn references(&self) -> Seq<ObjectId> {
        seq![self.variable_reference] + seq![self.target_value_variable_reference] + macro_ids(self.macro_refs@)
    }

    /// Appends the handles that `references` lists.
    pub fn collect_references(&self, out: &mut Vec<ObjectId>)
        ensures
            final(out)@ == old(out)@ + self.references(),
    {
        let ghost start = out@;
        out.push(self.variable_reference);
        out.push(self.target_value_variable_reference);
        push_macro_ids(&self.macro_refs, out);
        assert(out@ =~= start + self.references());
    }
}

/// An arched bar graph.
#[derive(Debug, Clone, PartialEq, Eq)]
pub struct OutputArchedBarGraph {
    pub id: ObjectId,
    pub width: u16,
    pub height: u16,
    pub colour: u8,
    pub target_line_colour: u8,
    pub options: u8,
    pub start_angle: u8,
    pub end_angle: u8,
    pub bar_graph_width: u16,
    pub min_value: u16,
    pub max_value: u16,
    pub variable_reference: ObjectId,
    pub value: u16,
    pub target_value_variable_reference: ObjectId,
    pub target_value: u16,
    pub macro_refs: Vec<MacroRef>,
}

impl OutputArchedBarGraph {
    /// Every counted section fits its count field.
    pub open spec fn wf(&self) -> bool {
        self.macro_refs@.len() <= 0xff
    }

    /// The fields after the object header, in order, followed by `k`.
    pub open spec fn put_body(&self, k: Seq<u8>) -> Seq<u8> {
        self.width.put(self.height.put(self.colour.put(self.target_line_colour.put(self.options.put(self.start_angle.put(self.end_angle.put(self.bar_graph_width.put(self.min_value.put(self.max_value.put(self.variable_reference.put(self.value.put(self.target_value_variable_reference.put(self.target_value.put(put_counted8(self.macro_refs@, k)))))))))))))))
    }

    pub fn is_encodable(&self) -> (r: bool)
        ensures
            r == self.wf(),
    {
        self.macro_refs.len() <= 0xff
    }

    pub proof fn lemma_body_append(&self, k: Seq<u8>)
        ensures
            self.put_body(k) == self.put_body(Seq::empty()) + k,
    {
        let e = Seq::<u8>::empty();
        let k14 = put_counted8(self.macro_refs@, k);
        let e14 = put_counted8(self.macro_refs@, e);
        lemma_counted8_append(self.macro_refs@, k);
        let k13 = self.target_value.put(k14);
        let e13 = self.target_value.put(e14);
        <u16 as Wire>::lemma_put_append(self.target_value, k14);
        <u16 as Wire>::lemma_put_append(self.target_value, e14);
        lemma_append_step(self.target_value.put(e), k13, e13, k14, e14, k);
        let k12 = self.target_value_variable_reference.put(k13);
        let e12 = self.target_value_variable_reference.put(e13);
        <ObjectId as Wire>::lemma_put_append(self.target_value_variable_reference, k13);
        <ObjectId as Wire>::lemma_put_append(self.target_value_variable_reference, e13);
        lemma_append_step(self.target_value_variable_reference.put(e), k12, e12, k13, e13, k);
        let k11 = self.value.put(k12);
        let e11 = self.value.put(e12);
        <u16 as Wire>::lemma_put_append(self.value, k12);
        <u16 as Wire>::lemma_put_append(self.value, e12);
        lemma_append_step(self.value.put(e), k11, e11, k12, e12, k);
        let k10 = self.variable_reference.put(k11);
        let e10 = self.variable_reference.put(e11);
        <ObjectId as Wire>::lemma_put_append(self.variable_reference, k11);
        <ObjectId as Wire>::lemma_put_append(self.variable_reference, e11);
        lemma_append_step(self.variable_reference.put(e), k10, e10, k11, e11, k);
        let k9 = self.max_value.put(k10);
        let e9 = self.max_value.put(e10);
        <u16 as Wire>::lemma_put_append(self.max_value, k10);
        <u16 as Wire>::lemma_put_append(self.max_value, e10);
        lemma_append_step(self.max_value.put(e), k9, e9, k10, e10, k);
        let k8 = self.min_value.put(k9);
        let e8 = self.min_value.put(e9);
        <u16 as Wire>::lemma_put_append(self.min_value, k9);
        <u16 as Wire>::lemma_put_append(self.min_value, e9);
        lemma_append_step(self.min_value.put(e), k8, e8, k9, e9, k);
        let k7 = self.bar_graph_width.put(k8);
        let e7 = self.bar_graph_width.put(e8);
        <u16 as Wire>::lemma_put_append(self.bar_graph_width, k8);
        <u16 as Wire>::lemma_put_append(self.bar_graph_width, e8);
        lemma_append_step(self.bar_graph_width.put(e), k7, e7, k8, e8, k);
        let k6 = self.end_angle.put(k7);
        let e6 = self.end_angle.put(e7);
        <u8 as Wire>::lemma_put_append(self.end_angle, k7);
        <u8 as Wire>::lemma_put_append(self.end_angle, e7);
        lemma_append_step(self.end_angle.put(e), k6, e6, k7, e7, k);
        let k5 = self.start_angle.put(k6);
        let e5 = self.start_angle.put(e6);
        <u8 as Wire>::lemma_put_append(self.start_angle, k6);
        <u8 as Wire>::lemma_put_append(self.start_angle, e6);
        lemma_append_step(self.start_angle.put(e), k5, e5, k6, e6, k);
        let k4 = self.options.put(k5);
        let e4 = self.options.put(e5);
        <u8 as Wire>::lemma_put_append(self.options, k5);
        <u8 as Wire>::lemma_put_append(self.options, e5);
        lemma_append_step(self.options.put(e), k4, e4, k5, e5, k);
        let k3 = self.target_line_colour.put(k4);
        let e3 = self.target_line_colour.put(e4);
        <u8 as Wire>::lemma_put_append(self.target_line_colour, k4);
        <u8 as Wire>::lemma_put_append(self.target_line_colour, e4);
        lemma_append_step(self.target_line_colour.put(e), k3, e3, k4, e4, k);
        let k2 = self.colour.put(k3);
        let e2 = self.colour.put(e3);
        <u8 as Wire>::lemma_put_append(self.colour, k3);
        <u8 as Wire>::lemma_put_append(self.colour, e3);
        lemma_append_step(self.colour.put(e), k2, e2, k3, e3, k);
        let k1 = self.height.put(k2);
        let e1 = self.height.put(e2);
        <u16 as Wire>::lemma_put_append(self.height, k2);
        <u16 as Wire>::lemma_put_append(self.height, e2);
        lemma_append_step(self.height.put(e), k1, e1, k2, e2, k);
        let k0 = self.width.put(k1);
        let e0 = self.width.put(e1);
        <u16 as Wire>::lemma_put_append(self.width, k1);
        <u16 as Wire>::lemma_put_append(self.width, e1);
        lemma_append_step(self.width.put(e), k0, e0, k1, e1, k);
    }

    /// The fields are fixed by their encoding, and so is where it ends.
    pub proof fn lemma_body_injective(x: OutputArchedBarGraph, y: OutputArchedBarGraph, k1: Seq<u8>, k2: Seq<u8>)
        requires
            x.wf(),
            y.wf(),
            x.put_body(k1) == y.put_body(k2),
        ensures
            k1 == k2,
    {
    }

    /// Reads the fields that follow the object header.
    pub fn read_body(cur: &mut Cursor, id: ObjectId) -> (r: Result<OutputArchedBarGraph, ParseError>)
        requires
            old(cur).wf(),
        ensures
            final(cur).wf(),
            final(cur).data == old(cur).data,
            match r {
                Ok(x) => x.id == id && x.wf() && old(cur).rest() == x.put_body(final(cur).rest()),
                Err(e) => e == ParseError::DataEmpty && forall|x: OutputArchedBarGraph, k: Seq<u8>|
                    x.wf() ==> #[trigger] x.put_body(k) != old(cur).rest(),
            },
    {
        let width = <u16 as Wire>::read(cur)?;
        let height = <u16 as Wire>::read(cur)?;
        let colour = <u8 as Wire>::read(cur)?;
        let target_line_colour = <u8 as Wire>::read(cur)?;
        let options = <u8 as Wire>::read(cur)?;
        let start_angle = <u8 as Wire>::read(cur)?;
        let end_angle = <u8 as Wire>::read(cur)?;
        let bar_graph_width = <u16 as Wire>::read(cur)?;
        let min_value = <u16 as Wire>::read(cur)?;
        let max_value = <u16 as Wire>::read(cur)?;
        let variable_reference = <ObjectId as Wire>::read(cur)?;
        let value = <u16 as Wire>::read(cur)?;
        let target_value_variable_reference = <ObjectId as Wire>::read(cur)?;
        let target_value = <u16 as Wire>::read(cur)?;
        let macro_refs = read_counted8::<MacroRef>(cur)?;
        Ok(OutputArchedBarGraph { id, width, height, colour, target_line_colour, options, start_angle, end_angle, bar_graph_width, min_value, max_value, variable_reference, value, target_value_variable_reference, target_value, macro_refs })
    }

    /// Writes the fields that follow the object header.
    pub fn write_body(&self, out: &mut Vec<u8>)
        requires
            self.wf(),
        ensures
            forall|k: Seq<u8>| old(out)@ + #[trigger] self.put_body(k) == final(out)@ + k,
    {
        self.width.write(out);
        self.height.write(out);
        self.colour.write(out);
        self.target_line_colour.write(out);
        self.options.write(out);
        self.start_angle.write(out);
        self.end_angle.write(out);
        self.bar_graph_width.write(out);
        self.min_value.write(out);
        self.max_value.write(out);
        self.variable_reference.write(out);
        self.value.write(out);
        self.target_value_variable_reference.write(out);
        self.target_value.write(out);
        write_counted8(&self.macro_refs, out);
    }

    /// The handles of other objects of the pool that this object refers to, in field order.
    pub open spec fn references(&self) -> Seq<ObjectId> {
        seq![self.variable_reference] + seq![self.target_value_variable_reference] + macro_ids(self.macro_refs@)
    }

    /// Appends the handles that `references` lists.
    pub fn collect_references(&self, out: &mut Vec<ObjectId>)
        ensures
            final(out)@ == old(out)@ + self.references(),
    {
        let ghost start = out@;
        out.push(self.variable_reference);
        out.push(self.target_value_variable_reference);
        push_macro_ids(&self.macro_refs, out);
        assert(out@ =~= start + self.references());
    }
}

/// A raster image.
#[derive(Debug, Clone, PartialEq, Eq)]
pub struct PictureGraphic {
    pub id: ObjectId,
    pub width: u16,
    pub actual_width: u16,
    pub actual_height: u16,
    pub format: u8,
    pub options: u8,
    pub transparency_colour: u8,
    /// On the wire: a four-byte count, then the elements.
    pub data: Vec<u8>,
    pub macro_refs: Vec<MacroRef>,
}

impl PictureGraphic {
    /// Every counted section fits its count field.
    pub open spec fn wf(&self) -> bool {
        self.data@.len() <= 0xffff_ffff && self.macro_refs@.len() <= 0xff
    }

    /// The fields after the object header, in order, followed by `k`.
    pub open spec fn put_body(&self, k: Seq<u8>) -> Seq<u8> {
        self.width.put(self.actual_width.put(self.actual_height.put(self.format.put(self.options.put(self.transparency_colour.put(put_counted32(self.data@, put_counted8(self.macro_refs@, k))))))))
    }

    pub fn is_encodable(&self) -> (r: bool)
        ensures
            r == self.wf(),
    {
        self.data.len() <= 0xffff_ffff && self.macro_refs.len() <= 0xff
    }

    pub proof fn lemma_body_append(&self, k: Seq<u8>)
        ensures
            self.put_body(k) == self.put_body(Seq::empty()) + k,
    {
        let e = Seq::<u8>::empty();
        let k7 = put_counted8(self.macro_refs@, k);
        let e7 = put_counted8(self.macro_refs@, e);
        lemma_counted8_append(self.macro_refs@, k);
        let k6 = put_counted32(self.data@, k7);
        let e6 = put_counted32(self.data@, e7);
        lemma_counted32_append(self.data@, k7);
        lemma_counted32_append(self.data@, e7);
        lemma_append_step(put_counted32(self.data@, e), k6, e6, k7, e7, k);
        let k5 = self.transparency_colour.put(k6);
        let e5 = self.transparency_colour.put(e6);
        <u8 as Wire>::lemma_put_append(self.transparency_colour, k6);
        <u8 as Wire>::lemma_put_append(self.transparency_colour, e6);
        lemma_append_step(self.transparency_colour.put(e), k5, e5, k6, e6, k);
        let k4 = self.options.put(k5);
        let e4 = self.options.put(e5);
        <u8 as Wire>::lemma_put_append(self.options, k5);
        <u8 as Wire>::lemma_put_append(self.options, e5);
        lemma_append_step(self.options.put(e), k4, e4, k5, e5, k);
        let k3 = self.format.put(k4);
        let e3 = self.format.put(e4);
        <u8 as Wire>::lemma_put_append(self.format, k4);
        <u8 as Wire>::lemma_put_append(self.format, e4);
        lemma_append_step(self.format.put(e), k3, e3, k4, e4, k);
        let k2 = self.actual_height.put(k3);
        let e2 = self.actual_height.put(e3);
        <u16 as Wire>::lemma_put_append(self.actual_height, k3);
        <u16 as Wire>::lemma_put_append(self.actual_height, e3);
        lemma_append_step(self.actual_height.put(e), k2, e2, k3, e3, k);
        let k1 = self.actual_width.put(k2);
        let e1 = self.actual_width.put(e2);
        <u16 as Wire>::lemma_put_append(self.actual_width, k2);
        <u16 as Wire>::lemma_put_append(self.actual_width, e2);
        lemma_append_step(self.actual_width.put(e), k1, e1, k2, e2, k);
        let k0 = self.width.put(k1);
        let e0 = self.width.put(e1);
        <u16 as Wire>::lemma_put_append(self.width, k1);
        <u16 as Wire>::lemma_put_append(self.width, e1);
        lemma_append_step(self.width.put(e), k0, e0, k1, e1, k);
    }

    /// The fields are fixed by their encoding, and so is where it ends.
    pub proof fn lemma_body_injective(x: PictureGraphic, y: PictureGraphic, k1: Seq<u8>, k2: Seq<u8>)
        requires
            x.wf(),
            y.wf(),
            x.put_body(k1) == y.put_body(k2),
        ensures
            k1 == k2,
    {
    }

    /// Reads the fields that follow the object header.
    pub fn read_body(cur: &mut Cursor, id: ObjectId) -> (r: Result<PictureGraphic, ParseError>)
        requires
            old(cur).wf(),
        ensures
            final(cur).wf(),
            final(cur).data == old(cur).data,
            match r {
                Ok(x) => x.id == id && x.wf() && old(cur).rest() == x.put_body(final(cur).rest()),
                Err(e) => e == ParseError::DataEmpty && forall|x: PictureGraphic, k: Seq<u8>|
                    x.wf() ==> #[trigger] x.put_body(k) != old(cur).rest(),
            },
    {
        let width = <u16 as Wire>::read(cur)?;
        let actual_width = <u16 as Wire>::read(cur)?;
        let actual_height = <u16 as Wire>::read(cur)?;
        let format = <u8 as Wire>::read(cur)?;
        let options = <u8 as Wire>::read(cur)?;
        let transparency_colour = <u8 as Wire>::read(cur)?;
        let data = read_counted32::<u8>(cur)?;
        let macro_refs = read_counted8::<MacroRef>(cur)?;
        Ok(PictureGraphic { id, width, actual_width, actual_height, format, options, transparency_colour, data, macro_refs })
    }

    /// Writes the fields that follow the object header.
    pub fn write_body(&self, out: &mut Vec<u8>)
        requires
            self.wf(),
        ensures
            forall|k: Seq<u8>| old(out)@ + #[trigger] self.put_body(k) == final(out)@ + k,
    {
        self.width.write(out);
        self.actual_width.write(out);
        self.actual_height.write(out);
        self.format.write(out);
        self.options.write(out);
        self.transparency_colour.write(out);
        write_counted32(&self.data, out);
        write_counted8(&self.macro_refs, out);
    }

    /// The handles of other objects of the pool that this object refers to, in field order.
    pub open spec fn references(&self) -> Seq<ObjectId> {
        macro_ids(self.macro_refs@)
    }

    /// Appends the handles that `references` lists.
    pub fn collect_references(&self, out: &mut Vec<ObjectId>)
        ensures
            final(out)@ == old(out)@ + self.references(),
    {
        let ghost start = out@;
        push_macro_ids(&self.macro_refs, out);
        assert(out@ =~= start + self.references());
    }
}

/// A number that other objects display or edit.
#[derive(Debug, Clone, PartialEq, Eq)]
pub struct NumberVariable {
    pub id: ObjectId,
    pub value: u32,
}

impl NumberVariable {
    /// Every counted section fits its count field.
    pub open spec fn wf(&self) -> bool {
        true
    }

    /// The fields after the object header, in order, followed by `k`.
    pub open spec fn put_body(&self, k: Seq<u8>) -> Seq<u8> {
        self.value.put(k)
    }

    pub fn is_encodable(&self) -> (r: bool)
        ensures
            r == self.wf(),
    {
        true
    }

    pub proof fn lemma_body_append(&self, k: Seq<u8>)
        ensures
            self.put_body(k) == self.put_body(Seq::empty()) + k,
    {
        let e = Seq::<u8>::empty();
        let k0 = self.value.put(k);
        let e0 = self.value.put(e);
        <u32 as Wire>::lemma_put_append(self.value, k);
    }

    /// The fields are fixed by their encoding, and so is where it ends.
    pub proof fn lemma_body_injective(x: NumberVariable, y: NumberVariable, k1: Seq<u8>, k2: Seq<u8>)
        requires
            x.wf(),
            y.wf(),
            x.put_body(k1) == y.put_body(k2),
        ensures
            k1 == k2,
    {
    }

    /// Reads the fields that follow the object header.
    pub fn read_body(cur: &mut Cursor, id: ObjectId) -> (r: Result<NumberVariable, ParseError>)
        requires
            old(cur).wf(),
        ensures
            final(cur).wf(),
            final(cur).data == old(cur).data,
            match r {
                Ok(x) => x.id == id && x.wf() && old(cur).rest() == x.put_body(final(cur).rest()),
                Err(e) => e == ParseError::DataEmpty && forall|x: NumberVariable, k: Seq<u8>|
                    x.wf() ==> #[trigger] x.put_body(k) != old(cur).rest(),
            },
    {
        let value = <u32 as Wire>::read(cur)?;
        Ok(NumberVariable { id, value })
    }

    /// Writes the fields that follow the object header.
    pub fn write_body(&self, out: &mut Vec<u8>)
        requires
            self.wf(),
        ensures
            forall|k: Seq<u8>| old(out)@ + #[trigger] self.put_body(k) == final(out)@ + k,
    {
        self.value.write(out);
    }

    /// The handles of other objects of the pool that this object refers to, in field order.
    pub open spec fn references(&self) -> Seq<ObjectId> {
        Seq::empty()
    }

    /// Appends the handles that `references` lists.
    pub fn collect_references(&self, out: &mut Vec<ObjectId>)
        ensures
            final(out)@ == old(out)@ + self.references(),
    {
        let ghost start = out@;
        assert(out@ =~= start + self.references());
    }
}

/// A text that other objects display or edit.
#[derive(Debug, Clone, PartialEq, Eq)]
pub struct StringVariable {
    pub id: ObjectId,
    /// Text bytes as stored on the wire (an 8-bit code page).
    /// On the wire: a two-byte count, then the elements.
    pub value: Vec<u8>,
}

impl StringVariable {
    /// Every counted section fits its count field.
    pub open spec fn wf(&self) -> bool {
        self.value@.len() <= 0xffff
    }

    /// The fields after the object header, in order, followed by `k`.
    pub open spec fn put_body(&self, k: Seq<u8>) -> Seq<u8> {
        put_counted16(self.value@, k)
    }

    pub fn is_encodable(&self) -> (r: bool)
        ensures
            r == self.wf(),
    {
        self.value.len() <= 0xffff
    }

    pub proof fn lemma_body_append(&self, k: Seq<u8>)
        ensures
            self.put_body(k) == self.put_body(Seq::empty()) + k,
    {
        let e = Seq::<u8>::empty();
        let k0 = put_counted16(self.value@, k);
        let e0 = put_counted16(self.value@, e);
        lemma_counted16_append(self.value@, k);
    }

    /// The fields are fixed by their encoding, and so is where it ends.
    pub proof fn lemma_body_injective(x: StringVariable, y: StringVariable, k1: Seq<u8>, k2: Seq<u8>)
        requires
            x.wf(),
            y.wf(),
            x.put_body(k1) == y.put_body(k2),
        ensures
            k1 == k2,
    {
    }

    /// Reads the fields that follow the object header.
    pub fn read_body(cur: &mut Cursor, id: ObjectId) -> (r: Result<StringVariable, ParseError>)
        requires
            old(cur).wf(),
        ensures
            final(cur).wf(),
            final(cur).data == old(cur).data,
            match r {
                Ok(x) => x.id == id && x.wf() && old(cur).rest() == x.put_body(final(cur).rest()),
                Err(e) => e == ParseError::DataEmpty && forall|x: StringVariable, k: Seq<u8>|
                    x.wf() ==> #[trigger] x.put_body(k) != old(cur).rest(),
            },
    {
        let value = read_counted16::<u8>(cur)?;
        Ok(StringVariable { id, value })
    }

    /// Writes the fields that follow the object header.
    pub fn write_body(&self, out: &mut Vec<u8>)
        requires
            self.wf(),
        ensures
            forall|k: Seq<u8>| old(out)@ + #[trigger] self.put_body(k) == final(out)@ + k,
    {
        write_counted16(&self.value, out);
    }

    /// The handles of other objects of the pool that this object refers to, in field order.
    pub open spec fn references(&self) -> Seq<ObjectId> {
        Seq::empty()
    }

    /// Appends the handles that `references` lists.
    pub fn collect_references(&self, out: &mut Vec<ObjectId>)
        ensures
            final(out)@ == old(out)@ + self.references(),
    {
        let ghost start = out@;
        assert(out@ =~= start + self.references());
    }
}

/// Font colour, size, type and style.
#[derive(Debug, Clone, PartialEq, Eq)]
pub struct FontAttributes {
    pub id: ObjectId,
    pub font_colour: u8,
    pub font_size: u8,
    pub font_type: u8,
    pub font_style: u8,
    pub macro_refs: Vec<MacroRef>,
}

impl FontAttributes {
    /// Every counted section fits its count field.
    pub open spec fn wf(&self) -> bool {
        self.macro_refs@.len() <= 0xff
    }

    /// The fields after the object header, in order, followed by `k`.
    pub open spec fn put_body(&self, k: Seq<u8>) -> Seq<u8> {
        self.font_colour.put(self.font_size.put(self.font_type.put(self.font_style.put(put_counted8(self.macro_refs@, k)))))
    }

    pub fn is_encodable(&self) -> (r: bool)
        ensures
            r == self.wf(),
    {
        self.macro_refs.len() <= 0xff
    }

    pub proof fn lemma_body_append(&self, k: Seq<u8>)
        ensures
            self.put_body(k) == self.put_body(Seq::empty()) + k,
    {
        let e = Seq::<u8>::empty();
        let k4 = put_counted8(self.macro_refs@, k);
        let e4 = put_counted8(self.macro_refs@, e);
        lemma_counted8_append(self.macro_refs@, k);
        let k3 = self.font_style.put(k4);
        let e3 = self.font_style.put(e4);
        <u8 as Wire>::lemma_put_append(self.font_style, k4);
        <u8 as Wire>::lemma_put_append(self.font_style, e4);
        lemma_append_step(self.font_style.put(e), k3, e3, k4, e4, k);
        let k2 = self.font_type.put(k3);
        let e2 = self.font_type.put(e3);
        <u8 as Wire>::lemma_put_append(self.font_type, k3);
        <u8 as Wire>::lemma_put_append(self.font_type, e3);
        lemma_append_step(self.font_type.put(e), k2, e2, k3, e3, k);
        let k1 = self.font_size.put(k2);
        let e1 = self.font_size.put(e2);
        <u8 as Wire>::lemma_put_append(self.font_size, k2);
        <u8 as Wire>::lemma_put_append(self.font_size, e2);
        lemma_append_step(self.font_size.put(e), k1, e1, k2, e2, k);
        let k0 = self.font_colour.put(k1);
        let e0 = self.font_colour.put(e1);
        <u8 as Wire>::lemma_put_append(self.font_colour, k1);
        <u8 as Wire>::lemma_put_append(self.font_colour, e1);
        lemma_append_step(self.font_colour.put(e), k0, e0, k1, e1, k);
    }

    /// The fields are fixed by their encoding, and so is where it ends.
    pub proof fn lemma_body_injective(x: FontAttributes, y: FontAttributes, k1: Seq<u8>, k2: Seq<u8>)
        requires
            x.wf(),
            y.wf(),
            x.put_body(k1) == y.put_body(k2),
        ensures
            k1 == k2,
    {
    }

    /// Reads the fields that follow the object header.
    pub fn read_body(cur: &mut Cursor, id: ObjectId) -> (r: Result<FontAttributes, ParseError>)
        requires
            old(cur).wf(),
        ensures
            final(cur).wf(),
            final(cur).data == old(cur).data,
            match r {
                Ok(x) => x.id == id && x.wf() && old(cur).rest() == x.put_body(final(cur).rest()),
                Err(e) => e == ParseError::DataEmpty && forall|x: FontAttributes, k: Seq<u8>|
                    x.wf() ==> #[trigger] x.put_body(k) != old(cur).rest(),
            },
    {
        let font_colour = <u8 as Wire>::read(cur)?;
        let font_size = <u8 as Wire>::read(cur)?;
        let font_type = <u8 as Wire>::read(cur)?;
        let font_style = <u8 as Wire>::read(cur)?;
        let macro_refs = read_counted8::<MacroRef>(cur)?;
        Ok(FontAttributes { id, font_colour, font_size, font_type, font_style, macro_refs })
    }

    /// Writes the fields that follow the object header.
    pub fn write_body(&self, out: &mut Vec<u8>)
        requires
            self.wf(),
        ensures
            forall|k: Seq<u8>| old(out)@ + #[trigger] self.put_body(k) == final(out)@ + k,
    {
        self.font_colour.write(out);
        self.font_size.write(out);
        self.font_type.write(out);
        self.font_style.write(out);
        write_counted8(&self.macro_refs, out);
    }

    /// The handles of other objects of the pool that this object refers to, in field order.
    pub open spec fn references(&self) -> Seq<ObjectId> {
        macro_ids(self.macro_refs@)
    }

    /// Appends the handles that `references` lists.
    pub fn collect_references(&self, out: &mut Vec<ObjectId>)
        ensures
            final(out)@ == old(out)@ + self.references(),
    {
        let ghost start = out@;
        push_macro_ids(&self.macro_refs, out);
        assert(out@ =~= start + self.references());
    }
}

/// Line colour, width and pattern.
#[derive(Debug, Clone, PartialEq, Eq)]
pub struct LineAttributes {
    pub id: ObjectId,
    pub line_colour: u8,
    pub line_width: u8,
    pub line_art: u16,
    pub macro_refs: Vec<MacroRef>,
}

impl LineAttributes {
    /// Every counted section fits its count field.
    pub open spec fn wf(&self) -> bool {
        self.macro_refs@.len() <= 0xff
    }

    /// The fields after the object header, in order, followed by `k`.
    pub open spec fn put_body(&self, k: Seq<u8>) -> Seq<u8> {
        self.line_colour.put(self.line_width.put(self.line_art.put(put_counted8(self.macro_refs@, k))))
    }

    pub fn is_encodable(&self) -> (r: bool)
        ensures
            r == self.wf(),
    {
        self.macro_refs.len() <= 0xff
    }

    pub proof fn lemma_body_append(&self, k: Seq<u8>)
        ensures
            self.put_body(k) == self.put_body(Seq::empty()) + k,
    {
        let e = Seq::<u8>::empty();
        let k3 = put_counted8(self.macro_refs@, k);
        let e3 = put_counted8(self.macro_refs@, e);
        lemma_counted8_append(self.macro_refs@, k);
        let k2 = self.line_art.put(k3);
        let e2 = self.line_art.put(e3);
        <u16 as Wire>::lemma_put_append(self.line_art, k3);
        <u16 as Wire>::lemma_put_append(self.line_art, e3);
        lemma_append_step(self.line_art.put(e), k2, e2, k3, e3, k);
        let k1 = self.line_width.put(k2);
        let e1 = self.line_width.put(e2);
        <u8 as Wire>::lemma_put_append(self.line_width, k2);
        <u8 as Wire>::lemma_put_append(self.line_width, e2);
        lemma_append_step(self.line_width.put(e), k1, e1, k2, e2, k);
        let k0 = self.line_colour.put(k1);
        let e0 = self.line_colour.put(e1);
        <u8 as Wire>::lemma_put_append(self.line_colour, k1);
        <u8 as Wire>::lemma_put_append(self.line_colour, e1);
        lemma_append_step(self.line_colour.put(e), k0, e0, k1, e1, k);
    }

    /// The fields are fixed by their encoding, and so is where it ends.
    pub proof fn lemma_body_injective(x: LineAttributes, y: LineAttributes, k1: Seq<u8>, k2: Seq<u8>)
        requires
            x.wf(),
            y.wf(),
            x.put_body(k1) == y.put_body(k2),
        ensures
            k1 == k2,
    {
    }

    /// Reads the fields that follow the object header.
    pub fn read_body(cur: &mut Cursor, id: ObjectId) -> (r: Result<LineAttributes, ParseError>)
        requires
            old(cur).wf(),
        ensures
            final(cur).wf(),
            final(cur).data == old(cur).data,
            match r {
                Ok(x) => x.id == id && x.wf() && old(cur).rest() == x.put_body(final(cur).rest()),
                Err(e) => e == ParseError::DataEmpty && forall|x: LineAttributes, k: Seq<u8>|
                    x.wf() ==> #[trigger] x.put_body(k) != old(cur).rest(),
            },
    {
        let line_colour = <u8 as Wire>::read(cur)?;
        let line_width = <u8 as Wire>::read(cur)?;
        let line_art = <u16 as Wire>::read(cur)?;
        let macro_refs = read_counted8::<MacroRef>(cur)?;
        Ok(LineAttributes { id, line_colour, line_width, line_art, macro_refs })
    }

    /// Writes the fields that follow the object header.
    pub fn write_body(&self, out: &mut Vec<u8>)
        requires
            self.wf(),
        ensures
            forall|k: Seq<u8>| old(out)@ + #[trigger] self.put_body(k) == final(out)@ + k,
    {
        self.line_colour.write(out);
        self.line_width.write(out);
        self.line_art.write(out);
        write_counted8(&self.macro_refs, out);
    }

    /// The handles of other objects of the pool that this object refers to, in field order.
    pub open spec fn references(&self) -> Seq<ObjectId> {
        macro_ids(self.macro_refs@)
    }

    /// Appends the handles that `references` lists.
    pub fn collect_references(&self, out: &mut Vec<ObjectId>)
        ensures
            final(out)@ == old(out)@ + self.references(),
    {
        let ghost start = out@;
        push_macro_ids(&self.macro_refs, out);
        assert(out@ =~= start + self.references());
    }
}

/// Fill type, colour and pattern.
#[derive(Debug, Clone, PartialEq, Eq)]
pub struct FillAttributes {
    pub id: ObjectId,
    pub fill_type: u8,
    pub fill_colour: u8,
    pub fill_pattern: ObjectId,
    pub macro_refs: Vec<MacroRef>,
}

impl FillAttributes {
    /// Every counted section fits its count field.
    pub open spec fn wf(&self) -> bool {
        self.macro_refs@.len() <= 0xff
    }

    /// The fields after the object header, in order, followed by `k`.
    pub open spec fn put_body(&self, k: Seq<u8>) -> Seq<u8> {
        self.fill_type.put(self.fill_colour.put(self.fill_pattern.put(put_counted8(self.macro_refs@, k))))
    }

    pub fn is_encodable(&self) -> (r: bool)
        ensures
            r == self.wf(),
    {
        self.macro_refs.len() <= 0xff
    }

    pub proof fn lemma_body_append(&self, k: Seq<u8>)
        ensures
            self.put_body(k) == self.put_body(Seq::empty()) + k,
    {
        let e = Seq::<u8>::empty();
        let k3 = put_counted8(self.macro_refs@, k);
        let e3 = put_counted8(self.macro_refs@, e);
        lemma_counted8_append(self.macro_refs@, k);
        let k2 = self.fill_pattern.put(k3);
        let e2 = self.fill_pattern.put(e3);
        <ObjectId as Wire>::lemma_put_append(self.fill_pattern, k3);
        <ObjectId as Wire>::lemma_put_append(self.fill_pattern, e3);
        lemma_append_step(self.fill_pattern.put(e), k2, e2, k3, e3, k);
        let k1 = self.fill_colour.put(k2);
        let e1 = self.fill_colour.put(e2);
        <u8 as Wire>::lemma_put_append(self.fill_colour, k2);
        <u8 as Wire>::lemma_put_append(self.fill_colour, e2);
        lemma_append_step(self.fill_colour.put(e), k1, e1, k2, e2, k);
        let k0 = self.fill_type.put(k1);
        let e0 = self.fill_type.put(e1);
        <u8 as Wire>::lemma_put_append(self.fill_type, k1);
        <u8 as Wire>::lemma_put_append(self.fill_type, e1);
        lemma_append_step(self.fill_type.put(e), k0, e0, k1, e1, k);
    }

    /// The fields are fixed by their encoding, and so is where it ends.
    pub proof fn lemma_body_injective(x: FillAttributes, y: FillAttributes, k1: Seq<u8>, k2: Seq<u8>)
        requires
            x.wf(),
            y.wf(),
            x.put_body(k1) == y.put_body(k2),
        ensures
            k1 == k2,
    {
    }

    /// Reads the fields that follow the object header.
    pub fn read_body(cur: &mut Cursor, id: ObjectId) -> (r: Result<FillAttributes, ParseError>)
        requires
            old(cur).wf(),
        ensures
            final(cur).wf(),
            final(cur).data == old(cur).data,
            match r {
                Ok(x) => x.id == id && x.wf() && old(cur).rest() == x.put_body(final(cur).rest()),
                Err(e) => e == ParseError::DataEmpty && forall|x: FillAttributes, k: Seq<u8>|
                    x.wf() ==> #[trigger] x.put_body(k) != old(cur).rest(),
            },
    {
        let fill_type = <u8 as Wire>::read(cur)?;
        let fill_colour = <u8 as Wire>::read(cur)?;
        let fill_pattern = <ObjectId as Wire>::read(cur)?;
        let macro_refs = read_counted8::<MacroRef>(cur)?;
        Ok(FillAttributes { id, fill_type, fill_colour, fill_pattern, macro_refs })
    }

    /// Writes the fields that follow the object header.
    pub fn write_body(&self, out: &mut Vec<u8>)
        requires
            self.wf(),
        ensures
            forall|k: Seq<u8>| old(out)@ + #[trigger] self.put_body(k) == final(out)@ + k,
    {
        self.fill_type.write(out);
        self.fill_colour.write(out);
        self.fill_pattern.write(out);
        write_counted8(&self.macro_refs, out);
    }

    /// The handles of other objects of the pool that this object refers to, in field order.
    pub open spec fn references(&self) -> Seq<ObjectId> {
        seq![self.fill_pattern] + macro_ids(self.macro_refs@)
    }

    /// Appends the handles that `references` lists.
    pub fn collect_references(&self, out: &mut Vec<ObjectId>)
        ensures
            final(out)@ == old(out)@ + self.references(),
    {
        let ghost start = out@;
        out.push(self.fill_pattern);
        push_macro_ids(&self.macro_refs, out);
        assert(out@ =~= start + self.references());
    }
}

/// The characters an input field accepts.
#[derive(Debug, Clone, PartialEq, Eq)]
pub struct InputAttributes {
    pub id: ObjectId,
    pub validation_type: u8,
    /// Text bytes as stored on the wire (an 8-bit code page).
    pub validation_string: Vec<u8>,
    pub macro_refs: Vec<MacroRef>,
}

impl InputAttributes {
    /// Every counted section fits its count field.
    pub open spec fn wf(&self) -> bool {
        self.validation_string@.len() <= 0xff && self.macro_refs@.len() <= 0xff
    }

    /// The fields after the object header, in order, followed by `k`.
    pub open spec fn put_body(&self, k: Seq<u8>) -> Seq<u8> {
        self.validation_type.put(put_counted8(self.validation_string@, put_counted8(self.macro_refs@, k)))
    }

    pub fn is_encodable(&self) -> (r: bool)
        ensures
            r == self.wf(),
    {
        self.validation_string.len() <= 0xff && self.macro_refs.len() <= 0xff
    }

    pub proof fn lemma_body_append(&self, k: Seq<u8>)
        ensures
            self.put_body(k) == self.put_body(Seq::empty()) + k,
    {
        let e = Seq::<u8>::empty();
        let k2 = put_counted8(self.macro_refs@, k);
        let e2 = put_counted8(self.macro_refs@, e);
        lemma_counted8_append(self.macro_refs@, k);
        let k1 = put_counted8(self.validation_string@, k2);
        let e1 = put_counted8(self.validation_string@, e2);
        lemma_counted8_append(self.validation_string@, k2);
        lemma_counted8_append(self.validation_string@, e2);
        lemma_append_step(put_counted8(self.validation_string@, e), k1, e1, k2, e2, k);
        let k0 = self.validation_type.put(k1);
        let e0 = self.validation_type.put(e1);
        <u8 as Wire>::lemma_put_append(self.validation_type, k1);
        <u8 as Wire>::lemma_put_append(self.validation_type, e1);
        lemma_append_step(self.validation_type.put(e), k0, e0, k1, e1, k);
    }

    /// The fields are fixed by their encoding, and so is where it ends.
    pub proof fn lemma_body_injective(x: InputAttributes, y: InputAttributes, k1: Seq<u8>, k2: Seq<u8>)
        requires
            x.wf(),
            y.wf(),
            x.put_body(k1) == y.put_body(k2),
        ensures
            k1 == k2,
    {
    }

    /// Reads the fields that follow the object header.
    pub fn read_body(cur: &mut Cursor, id: ObjectId) -> (r: Result<InputAttributes, ParseError>)
        requires
            old(cur).wf(),
        ensures
            final(cur).wf(),
            final(cur).data == old(cur).data,
            match r {
                Ok(x) => x.id == id && x.wf() && old(cur).rest() == x.put_body(final(cur).rest()),
                Err(e) => e == ParseError::DataEmpty && forall|x: InputAttributes, k: Seq<u8>|
                    x.wf() ==> #[trigger] x.put_body(k) != old(cur).rest(),
            },
    {
        let validation_type = <u8 as Wire>::read(cur)?;
        let validation_string = read_counted8::<u8>(cur)?;
        let macro_refs = read_counted8::<MacroRef>(cur)?;
        Ok(InputAttributes { id, validation_type, validation_string, macro_refs })
    }

    /// Writes the fields that follow the object header.
    pub fn write_body(&self, out: &mut Vec<u8>)
        requires
            self.wf(),
        ensures
            forall|k: Seq<u8>| old(out)@ + #[trigger] self.put_body(k) == final(out)@ + k,
    {
        self.validation_type.write(out);
        write_counted8(&self.validation_string, out);
        write_counted8(&self.macro_refs, out);
    }

    /// The handles of other objects of the pool that this object refers to, in field order.
    pub open spec fn references(&self) -> Seq<ObjectId> {
        macro_ids(self.macro_refs@)
    }

    /// Appends the handles that `references` lists.
    pub fn collect_references(&self, out: &mut Vec<ObjectId>)
        ensures
            final(out)@ == old(out)@ + self.references(),
    {
        let ghost start = out@;
        push_macro_ids(&self.macro_refs, out);
        assert(out@ =~= start + self.references());
    }
}

/// A reference to another object that can be changed at run time.
#[derive(Debug, Clone, PartialEq, Eq)]
pub struct ObjectPointer {
    pub id: ObjectId,
    pub value: ObjectId,
}

impl ObjectPointer {
    /// Every counted section fits its count field.
    pub open spec fn wf(&self) -> bool {
        true
    }

    /// The fields after the object header, in order, followed by `k`.
    pub open spec fn put_body(&self, k: Seq<u8>) -> Seq<u8> {
        self.value.put(k)
    }

    pub fn is_encodable(&self) -> (r: bool)
        ensures
            r == self.wf(),
    {
        true
    }

    pub proof fn lemma_body_append(&self, k: Seq<u8>)
        ensures
            self.put_body(k) == self.put_body(Seq::empty()) + k,
    {
        let e = Seq::<u8>::empty();
        let k0 = self.value.put(k);
        let e0 = self.value.put(e);
        <ObjectId as Wire>::lemma_put_append(self.value, k);
    }

    /// The fields are fixed by their encoding, and so is where it ends.
    pub proof fn lemma_body_injective(x: ObjectPointer, y: ObjectPointer, k1: Seq<u8>, k2: Seq<u8>)
        requires
            x.wf(),
            y.wf(),
            x.put_body(k1) == y.put_body(k2),
        ensures
            k1 == k2,
    {
    }

    /// Reads the fields that follow the object header.
    pub fn read_body(cur: &mut Cursor, id: ObjectId) -> (r: Result<ObjectPointer, ParseError>)
        requires
            old(cur).wf(),
        ensures
            final(cur).wf(),
            final(cur).data == old(cur).data,
            match r {
                Ok(x) => x.id == id && x.wf() && old(cur).rest() == x.put_body(final(cur).rest()),
                Err(e) => e == ParseError::DataEmpty && forall|x: ObjectPointer, k: Seq<u8>|
                    x.wf() ==> #[trigger] x.put_body(k) != old(cur).rest(),
            },
    {
        let value = <ObjectId as Wire>::read(cur)?;
        Ok(ObjectPointer { id, value })
    }

    /// Writes the fields that follow the object header.
    pub fn write_body(&self, out: &mut Vec<u8>)
        requires
            self.wf(),
        ensures
            forall|k: Seq<u8>| old(out)@ + #[trigger] self.put_body(k) == final(out)@ + k,
    {
        self.value.write(out);
    }

    /// The handles of other objects of the pool that this object refers to, in field order.
    pub open spec fn references(&self) -> Seq<ObjectId> {
        seq![self.value]
    }

    /// Appends the handles that `references` lists.
    pub fn collect_references(&self, out: &mut Vec<ObjectId>)
        ensures
            final(out)@ == old(out)@ + self.references(),
    {
        let ghost start = out@;
        out.push(self.value);
        assert(out@ =~= start + self.references());
    }
}

/// A stored sequence of VT commands.
#[derive(Debug, Clone, PartialEq, Eq)]
pub struct Macro {
    pub id: ObjectId,
    /// On the wire: a two-byte count, then the elements.
    pub commands: Vec<u8>,
}

impl Macro {
    /// Every counted section fits its count field.
    pub open spec fn wf(&self) -> bool {
        self.commands@.len() <= 0xffff
    }

    /// The fields after the object header, in order, followed by `k`.
    pub open spec fn put_body(&self, k: Seq<u8>) -> Seq<u8> {
        put_counted16(self.commands@, k)
    }

    pub fn is_encodable(&self) -> (r: bool)
        ensures
            r == self.wf(),
    {
        self.commands.len() <= 0xffff
    }

    pub proof fn lemma_body_append(&self, k: Seq<u8>)
        ensures
            self.put_body(k) == self.put_body(Seq::empty()) + k,
    {
        let e = Seq::<u8>::empty();
        let k0 = put_counted16(self.commands@, k);
        let e0 = put_counted16(self.commands@, e);
        lemma_counted16_append(self.commands@, k);
    }

    /// The fields are fixed by their encoding, and so is where it ends.
    pub proof fn lemma_body_injective(x: Macro, y: Macro, k1: Seq<u8>, k2: Seq<u8>)
        requires
            x.wf(),
            y.wf(),
            x.put_body(k1) == y.put_body(k2),
        ensures
            k1 == k2,
    {
    }

    /// Reads the fields that follow the object header.
    pub fn read_body(cur: &mut Cursor, id: ObjectId) -> (r: Result<Macro, ParseError>)
        requires
            old(cur).wf(),
        ensures
            final(cur).wf(),
            final(cur).data == old(cur).data,
            match r {
                Ok(x) => x.id == id && x.wf() && old(cur).rest() == x.put_body(final(cur).rest()),
                Err(e) => e == ParseError::DataEmpty && forall|x: Macro, k: Seq<u8>|
                    x.wf() ==> #[trigger] x.put_body(k) != old(cur).rest(),
            },
    {
        let commands = read_counted16::<u8>(cur)?;
        Ok(Macro { id, commands })
    }

    /// Writes the fields that follow the object header.
    pub fn write_body(&self, out: &mut Vec<u8>)
        requires
            self.wf(),
        ensures
            forall|k: Seq<u8>| old(out)@ + #[trigger] self.put_body(k) == final(out)@ + k,
    {
        write_counted16(&self.commands, out);
    }

    /// The handles of other objects of the pool that this object refers to, in field order.
    pub open spec fn references(&self) -> Seq<ObjectId> {
        Seq::empty()
    }

    /// Appends the handles that `references` lists.
    pub fn collect_references(&self, out: &mut Vec<ObjectId>)
        ensures
            final(out)@ == old(out)@ + self.references(),
    {
        let ghost start = out@;
        assert(out@ =~= start + self.references());
    }
}

/// An auxiliary function (first version).
#[derive(Debug, Clone, PartialEq, Eq)]
pub struct AuxiliaryFunctionType1 {
    pub id: ObjectId,
    pub background_colour: u8,
    pub function_type: u8,
    pub object_refs: Vec<ObjectRef>,
}

impl AuxiliaryFunctionType1 {
    /// Every counted section fits its count field.
    pub open spec fn wf(&self) -> bool {
        self.object_refs@.len() <= 0xff
    }

    /// The fields after the object header, in order, followed by `k`.
    pub open spec fn put_body(&self, k: Seq<u8>) -> Seq<u8> {
        self.background_colour.put(self.function_type.put(put_counted8(self.object_refs@, k)))
    }

    pub fn is_encodable(&self) -> (r: bool)
        ensures
            r == self.wf(),
    {
        self.object_refs.len() <= 0xff
    }

    pub proof fn lemma_body_append(&self, k: Seq<u8>)
        ensures
            self.put_body(k) == self.put_body(Seq::empty()) + k,
    {
        let e = Seq::<u8>::empty();
        let k2 = put_counted8(self.object_refs@, k);
        let e2 = put_counted8(self.object_refs@, e);
        lemma_counted8_append(self.object_refs@, k);
        let k1 = self.function_type.put(k2);
        let e1 = self.function_type.put(e2);
        <u8 as Wire>::lemma_put_append(self.function_type, k2);
        <u8 as Wire>::lemma_put_append(self.function_type, e2);
        lemma_append_step(self.function_type.put(e), k1, e1, k2, e2, k);
        let k0 = self.background_colour.put(k1);
        let e0 = self.background_colour.put(e1);
        <u8 as Wire>::lemma_put_append(self.background_colour, k1);
        <u8 as Wire>::lemma_put_append(self.background_colour, e1);
        lemma_append_step(self.background_colour.put(e), k0, e0, k1, e1, k);
    }

    /// The fields are fixed by their encoding, and so is where it ends.
    pub proof fn lemma_body_injective(x: AuxiliaryFunctionType1, y: AuxiliaryFunctionType1, k1: Seq<u8>, k2: Seq<u8>)
        requires
            x.wf(),
            y.wf(),
            x.put_body(k1) == y.put_body(k2),
        ensures
            k1 == k2,
    {
    }

    /// Reads the fields that follow the object header.
    pub fn read_body(cur: &mut Cursor, id: ObjectId) -> (r: Result<AuxiliaryFunctionType1, ParseError>)
        requires
            old(cur).wf(),
        ensures
            final(cur).wf(),
            final(cur).data == old(cur).data,
            match r {
                Ok(x) => x.id == id && x.wf() && old(cur).rest() == x.put_body(final(cur).rest()),
                Err(e) => e == ParseError::DataEmpty && forall|x: AuxiliaryFunctionType1, k: Seq<u8>|
                    x.wf() ==> #[trigger] x.put_body(k) != old(cur).rest(),
            },
    {
        let background_colour = <u8 as Wire>::read(cur)?;
        let function_type = <u8 as Wire>::read(cur)?;
        let object_refs = read_counted8::<ObjectRef>(cur)?;
        Ok(AuxiliaryFunctionType1 { id, background_colour, function_type, object_refs })
    }

    /// Writes the fields that follow the object header.
    pub fn write_body(&self, out: &mut Vec<u8>)
        requires
            self.wf(),
        ensures
            forall|k: Seq<u8>| old(out)@ + #[trigger] self.put_body(k) == final(out)@ + k,
    {
        self.background_colour.write(out);
        self.function_type.write(out);
        write_counted8(&self.object_refs, out);
    }

    /// The handles of other objects of the pool that this object refers to, in field order.
    pub open spec fn references(&self) -> Seq<ObjectId> {
        ref_ids(self.object_refs@)
    }

    /// Appends the handles that `references` lists.
    pub fn collect_references(&self, out: &mut Vec<ObjectId>)
        ensures
            final(out)@ == old(out)@ + self.references(),
    {
        let ghost start = out@;
        push_ref_ids(&self.object_refs, out);
        assert(out@ =~= start + self.references());
    }
}

/// An auxiliary input (first version).
#[derive(Debug, Clone, PartialEq, Eq)]
pub struct AuxiliaryInputType1 {
    pub id: ObjectId,
    pub background_colour: u8,
    pub function_type: u8,
    pub input_id: u8,
    pub object_refs: Vec<ObjectRef>,
}

impl AuxiliaryInputType1 {
    /// Every counted section fits its count field.
    pub open spec fn wf(&self) -> bool {
        self.object_refs@.len() <= 0xff
    }

    /// The fields after the object header, in order, followed by `k`.
    pub open spec fn put_body(&self, k: Seq<u8>) -> Seq<u8> {
        self.background_colour.put(self.function_type.put(self.input_id.put(put_counted8(self.object_refs@, k))))
    }

    pub fn is_encodable(&self) -> (r: bool)
        ensures
            r == self.wf(),
    {
        self.object_refs.len() <= 0xff
    }

    pub proof fn lemma_body_append(&self, k: Seq<u8>)
        ensures
            self.put_body(k) == self.put_body(Seq::empty()) + k,
    {
        let e = Seq::<u8>::empty();
        let k3 = put_counted8(self.object_refs@, k);
        let e3 = put_counted8(self.object_refs@, e);
        lemma_counted8_append(self.object_refs@, k);
        let k2 = self.input_id.put(k3);
        let e2 = self.input_id.put(e3);
        <u8 as Wire>::lemma_put_append(self.input_id, k3);
        <u8 as Wire>::lemma_put_append(self.input_id, e3);
        lemma_append_step(self.input_id.put(e), k2, e2, k3, e3, k);
        let k1 = self.function_type.put(k2);
        let e1 = self.function_type.put(e2);
        <u8 as Wire>::lemma_put_append(self.function_type, k2);
        <u8 as Wire>::lemma_put_append(self.function_type, e2);
        lemma_append_step(self.function_type.put(e), k1, e1, k2, e2, k);
        let k0 = self.background_colour.put(k1);
        let e0 = self.background_colour.put(e1);
        <u8 as Wire>::lemma_put_append(self.background_colour, k1);
        <u8 as Wire>::lemma_put_append(self.background_colour, e1);
        lemma_append_step(self.background_colour.put(e), k0, e0, k1, e1, k);
    }

    /// The fields are fixed by their encoding, and so is where it ends.
    pub proof fn lemma_body_injective(x: AuxiliaryInputType1, y: AuxiliaryInputType1, k1: Seq<u8>, k2: Seq<u8>)
        requires
            x.wf(),
            y.wf(),
            x.put_body(k1) == y.put_body(k2),
        ensures
            k1 == k2,
    {
    }

    /// Reads the fields that follow the object header.
    pub fn read_body(cur: &mut Cursor, id: ObjectId) -> (r: Result<AuxiliaryInputType1, ParseError>)
        requires
            old(cur).wf(),
        ensures
            final(cur).wf(),
            final(cur).data == old(cur).data,
            match r {
                Ok(x) => x.id == id && x.wf() && old(cur).rest() == x.put_body(final(cur).rest()),
                Err(e) => e == ParseError::DataEmpty && forall|x: AuxiliaryInputType1, k: Seq<u8>|
                    x.wf() ==> #[trigger] x.put_body(k) != old(cur).rest(),
            },
    {
        let background_colour = <u8 as Wire>::read(cur)?;
        let function_type = <u8 as Wire>::read(cur)?;
        let input_id = <u8 as Wire>::read(cur)?;
        let object_refs = read_counted8::<ObjectRef>(cur)?;
        Ok(AuxiliaryInputType1 { id, background_colour, function_type, input_id, object_refs })
    }

    /// Writes the fields that follow the object header.
    pub fn write_body(&self, out: &mut Vec<u8>)
        requires
            self.wf(),
        ensures
            forall|k: Seq<u8>| old(out)@ + #[trigger] self.put_body(k) == final(out)@ + k,
    {
        self.background_colour.write(out);
        self.function_type.write(out);
        self.input_id.write(out);
        write_counted8(&self.object_refs, out);
    }

    /// The handles of other objects of the pool that this object refers to, in field order.
    pub open spec fn references(&self) -> Seq<ObjectId> {
        ref_ids(self.object_refs@)
    }

    /// Appends the handles that `references` lists.
    pub fn collect_references(&self, out: &mut Vec<ObjectId>)
        ensures
            final(out)@ == old(out)@ + self.references(),
    {
        let ghost start = out@;
        push_ref_ids(&self.object_refs, out);
        assert(out@ =~= start + self.references());
    }
}

/// An auxiliary function.
#[derive(Debug, Clone, PartialEq, Eq)]
pub struct AuxiliaryFunctionType2 {
    pub id: ObjectId,
    pub background_colour: u8,
    pub function_attributes: u8,
    pub object_refs: Vec<ObjectRef>,
}

impl AuxiliaryFunctionType2 {
    /// Every counted section fits its count field.
    pub open spec fn wf(&self) -> bool {
        self.object_refs@.len() <= 0xff
    }

    /// The fields after the object header, in order, followed by `k`.
    pub open spec fn put_body(&self, k: Seq<u8>) -> Seq<u8> {
        self.background_colour.put(self.function_attributes.put(put_counted8(self.object_refs@, k)))
    }

    pub fn is_encodable(&self) -> (r: bool)
        ensures
            r == self.wf(),
    {
        self.object_refs.len() <= 0xff
    }

    pub proof fn lemma_body_append(&self, k: Seq<u8>)
        ensures
            self.put_body(k) == self.put_body(Seq::empty()) + k,
    {
        let e = Seq::<u8>::empty();
        let k2 = put_counted8(self.object_refs@, k);
        let e2 = put_counted8(self.object_refs@, e);
        lemma_counted8_append(self.object_refs@, k);
        let k1 = self.function_attributes.put(k2);
        let e1 = self.function_attributes.put(e2);
        <u8 as Wire>::lemma_put_append(self.function_attributes, k2);
        <u8 as Wire>::lemma_put_append(self.function_attributes, e2);
        lemma_append_step(self.function_attributes.put(e), k1, e1, k2, e2, k);
        let k0 = self.background_colour.put(k1);
        let e0 = self.background_colour.put(e1);
        <u8 as Wire>::lemma_put_append(self.background_colour, k1);
        <u8 as Wire>::lemma_put_append(self.background_colour, e1);
        lemma_append_step(self.background_colour.put(e), k0, e0, k1, e1, k);
    }

    /// The fields are fixed by their encoding, and so is where it ends.
    pub proof fn lemma_body_injective(x: AuxiliaryFunctionType2, y: AuxiliaryFunctionType2, k1: Seq<u8>, k2: Seq<u8>)
        requires
            x.wf(),
            y.wf(),
            x.put_body(k1) == y.put_body(k2),
        ensures
            k1 == k2,
    {
    }

    /// Reads the fields that follow the object header.
    pub fn read_body(cur: &mut Cursor, id: ObjectId) -> (r: Result<AuxiliaryFunctionType2, ParseError>)
        requires
            old(cur).wf(),
        ensures
            final(cur).wf(),
            final(cur).data == old(cur).data,
            match r {
                Ok(x) => x.id == id && x.wf() && old(cur).rest() == x.put_body(final(cur).rest()),
                Err(e) => e == ParseError::DataEmpty && forall|x: AuxiliaryFunctionType2, k: Seq<u8>|
                    x.wf() ==> #[trigger] x.put_body(k) != old(cur).rest(),
            },
    {
        let background_colour = <u8 as Wire>::read(cur)?;
        let function_attributes = <u8 as Wire>::read(cur)?;
        let object_refs = read_counted8::<ObjectRef>(cur)?;
        Ok(AuxiliaryFunctionType2 { id, background_colour, function_attributes, object_refs })
    }

    /// Writes the fields that follow the object header.
    pub fn write_body(&self, out: &mut Vec<u8>)
        requires
            self.wf(),
        ensures
            forall|k: Seq<u8>| old(out)@ + #[trigger] self.put_body(k) == final(out)@ + k,
    {
        self.background_colour.write(out);
        self.function_attributes.write(out);
        write_counted8(&self.object_refs, out);
    }

    /// The handles of other objects of the pool that this object refers to, in field order.
    pub open spec fn references(&self) -> Seq<ObjectId> {
        ref_ids(self.object_refs@)
    }

    /// Appends the handles that `references` lists.
    pub fn collect_references(&self, out: &mut Vec<ObjectId>)
        ensures
            final(out)@ == old(out)@ + self.references(),
    {
        let ghost start = out@;
        push_ref_ids(&self.object_refs, out);
        assert(out@ =~= start + self.references());
    }
}

/// An auxiliary input.
#[derive(Debug, Clone, PartialEq, Eq)]
pub struct AuxiliaryInputType2 {
    pub id: ObjectId,
    pub background_colour: u8,
    pub function_attributes: u8,
    pub object_refs: Vec<ObjectRef>,
}

impl AuxiliaryInputType2 {
    /// Every counted section fits its count field.
    pub open spec fn wf(&self) -> bool {
        self.object_refs@.len() <= 0xff
    }

    /// The fields after the object header, in order, followed by `k`.
    pub open spec fn put_body(&self, k: Seq<u8>) -> Seq<u8> {
        self.background_colour.put(self.function_attributes.put(put_counted8(self.object_refs@, k)))
    }

    pub fn is_encodable(&self) -> (r: bool)
        ensures
            r == self.wf(),
    {
        self.object_refs.len() <= 0xff
    }

    pub proof fn lemma_body_append(&self, k: Seq<u8>)
        ensures
            self.put_body(k) == self.put_body(Seq::empty()) + k,
    {
        let e = Seq::<u8>::empty();
        let k2 = put_counted8(self.object_refs@, k);
        let e2 = put_counted8(self.object_refs@, e);
        lemma_counted8_append(self.object_refs@, k);
        let k1 = self.function_attributes.put(k2);
        let e1 = self.function_attributes.put(e2);
        <u8 as Wire>::lemma_put_append(self.function_attributes, k2);
        <u8 as Wire>::lemma_put_append(self.function_attributes, e2);
        lemma_append_step(self.function_attributes.put(e), k1, e1, k2, e2, k);
        let k0 = self.background_colour.put(k1);
        let e0 = self.background_colour.put(e1);
        <u8 as Wire>::lemma_put_append(self.background_colour, k1);
        <u8 as Wire>::lemma_put_append(self.background_colour, e1);
        lemma_append_step(self.background_colour.put(e), k0, e0, k1, e1, k);
    }

    /// The fields are fixed by their encoding, and so is where it ends.
    pub proof fn lemma_body_injective(x: AuxiliaryInputType2, y: AuxiliaryInputType2, k1: Seq<u8>, k2: Seq<u8>)
        requires
            x.wf(),
            y.wf(),
            x.put_body(k1) == y.put_body(k2),
        ensures
            k1 == k2,
    {
    }

    /// Reads the fields that follow the object header.
    pub fn read_body(cur: &mut Cursor, id: ObjectId) -> (r: Result<AuxiliaryInputType2, ParseError>)
        requires
            old(cur).wf(),
        ensures
            final(cur).wf(),
            final(cur).data == old(cur).data,
            match r {
                Ok(x) => x.id == id && x.wf() && old(cur).rest() == x.put_body(final(cur).rest()),
                Err(e) => e == ParseError::DataEmpty && forall|x: AuxiliaryInputType2, k: Seq<u8>|
                    x.wf() ==> #[trigger] x.put_body(k) != old(cur).rest(),
            },
    {
        let background_colour = <u8 as Wire>::read(cur)?;
        let function_attributes = <u8 as Wire>::read(cur)?;
        let object_refs = read_counted8::<ObjectRef>(cur)?;
        Ok(AuxiliaryInputType2 { id, background_colour, function_attributes, object_refs })
    }

    /// Writes the fields that follow the object header.
    pub fn write_body(&self, out: &mut Vec<u8>)
        requires
            self.wf(),
        ensures
            forall|k: Seq<u8>| old(out)@ + #[trigger] self.put_body(k) == final(out)@ + k,
    {
        self.background_colour.write(out);
        self.function_attributes.write(out);
        write_counted8(&self.object_refs, out);
    }

    /// The handles of other objects of the pool that this object refers to, in field order.
    pub open spec fn references(&self) -> Seq<ObjectId> {
        ref_ids(self.object_refs@)
    }

    /// Appends the handles that `references` lists.
    pub fn collect_references(&self, out: &mut Vec<ObjectId>)
        ensures
            final(out)@ == old(out)@ + self.references(),
    {
        let ghost start = out@;
        push_ref_ids(&self.object_refs, out);
        assert(out@ =~= start + self.references());
    }
}

/// Points to an auxiliary object for display.
#[derive(Debug, Clone, PartialEq, Eq)]
pub struct AuxiliaryControlDesignatorType2 {
    pub id: ObjectId,
    pub pointer_type: u8,
    pub auxiliary_object_id: ObjectId,
}

impl AuxiliaryControlDesignatorType2 {
    /// Every counted section fits its count field.
    pub open spec fn wf(&self) -> bool {
        true
    }

    /// The fields after the object header, in order, followed by `k`.
    pub open spec fn put_body(&self, k: Seq<u8>) -> Seq<u8> {
        self.pointer_type.put(self.auxiliary_object_id.put(k))
    }

    pub fn is_encodable(&self) -> (r: bool)
        ensures
            r == self.wf(),
    {
        true
    }

    pub proof fn lemma_body_append(&self, k: Seq<u8>)
        ensures
            self.put_body(k) == self.put_body(Seq::empty()) + k,
    {
        let e = Seq::<u8>::empty();
        let k1 = self.auxiliary_object_id.put(k);
        let e1 = self.auxiliary_object_id.put(e);
        <ObjectId as Wire>::lemma_put_append(self.auxiliary_object_id, k);
        let k0 = self.pointer_type.put(k1);
        let e0 = self.pointer_type.put(e1);
        <u8 as Wire>::lemma_put_append(self.pointer_type, k1);
        <u8 as Wire>::lemma_put_append(self.pointer_type, e1);
        lemma_append_step(self.pointer_type.put(e), k0, e0, k1, e1, k);
    }

    /// The fields are fixed by their encoding, and so is where it ends.
    pub proof fn lemma_body_injective(x: AuxiliaryControlDesignatorType2, y: AuxiliaryControlDesignatorType2, k1: Seq<u8>, k2: Seq<u8>)
        requires
            x.wf(),
            y.wf(),
            x.put_body(k1) == y.put_body(k2),
        ensures
            k1 == k2,
    {
    }

    /// Reads the fields that follow the object header.
    pub fn read_body(cur: &mut Cursor, id: ObjectId) -> (r: Result<AuxiliaryControlDesignatorType2, ParseError>)
        requires
            old(cur).wf(),
        ensures
            final(cur).wf(),
            final(cur).data == old(cur).data,
            match r {
                Ok(x) => x.id == id && x.wf() && old(cur).rest() == x.put_body(final(cur).rest()),
                Err(e) => e == ParseError::DataEmpty && forall|x: AuxiliaryControlDesignatorType2, k: Seq<u8>|
                    x.wf() ==> #[trigger] x.put_body(k) != old(cur).rest(),
            },
    {
        let pointer_type = <u8 as Wire>::read(cur)?;
        let auxiliary_object_id = <ObjectId as Wire>::read(cur)?;
        Ok(AuxiliaryControlDesignatorType2 { id, pointer_type, auxiliary_object_id })
    }

    /// Writes the fields that follow the object header.
    pub fn write_body(&self, out: &mut Vec<u8>)
        requires
            self.wf(),
        ensures
            forall|k: Seq<u8>| old(out)@ + #[trigger] self.put_body(k) == final(out)@ + k,
    {
        self.pointer_type.write(out);
        self.auxiliary_object_id.write(out);
    }

    /// The handles of other objects of the pool that this object refers to, in field order.
    pub open spec fn references(&self) -> Seq<ObjectId> {
        seq![self.auxiliary_object_id]
    }

    /// Appends the handles that `references` lists.
    pub fn collect_references(&self, out: &mut Vec<ObjectId>)
        ensures
            final(out)@ == old(out)@ + self.references(),
    {
        let ghost start = out@;
        out.push(self.auxiliary_object_id);
        assert(out@ =~= start + self.references());
    }
}

/// A user-layout window.
#[derive(Debug, Clone, PartialEq, Eq)]
pub struct WindowMask {
    pub id: ObjectId,
    pub width: u8,
    pub height: u8,
    pub window_type: u8,
    pub background_colour: u8,
    pub options: u8,
    pub name: ObjectId,
    pub window_title: ObjectId,
    pub window_icon: ObjectId,
    pub objects: Vec<ObjectId>,
    pub object_refs: Vec<ObjectRef>,
    pub macro_refs: Vec<MacroRef>,
}

impl WindowMask {
    /// Every counted section fits its count field.
    pub open spec fn wf(&self) -> bool {
        self.objects@.len() <= 0xff && self.object_refs@.len() <= 0xff && self.macro_refs@.len() <= 0xff
    }

    /// The fields after the object header, in order, followed by `k`.
    pub open spec fn put_body(&self, k: Seq<u8>) -> Seq<u8> {
        self.width.put(self.height.put(self.window_type.put(self.background_colour.put(self.options.put(self.name.put(self.window_title.put(self.window_icon.put(put_counted8(self.objects@, put_counted8(self.object_refs@, put_counted8(self.macro_refs@, k)))))))))))
    }

    pub fn is_encodable(&self) -> (r: bool)
        ensures
            r == self.wf(),
    {
        self.objects.len() <= 0xff && self.object_refs.len() <= 0xff && self.macro_refs.len() <= 0xff
    }

    pub proof fn lemma_body_append(&self, k: Seq<u8>)
        ensures
            self.put_body(k) == self.put_body(Seq::empty()) + k,
    {
        let e = Seq::<u8>::empty();
        let k10 = put_counted8(self.macro_refs@, k);
        let e10 = put_counted8(self.macro_refs@, e);
        lemma_counted8_append(self.macro_refs@, k);
        let k9 = put_counted8(self.object_refs@, k10);
        let e9 = put_counted8(self.object_refs@, e10);
        lemma_counted8_append(self.object_refs@, k10);
        lemma_counted8_append(self.object_refs@, e10);
        lemma_append_step(put_counted8(self.object_refs@, e), k9, e9, k10, e10, k);
        let k8 = put_counted8(self.objects@, k9);
        let e8 = put_counted8(self.objects@, e9);
        lemma_counted8_append(self.objects@, k9);
        lemma_counted8_append(self.objects@, e9);
        lemma_append_step(put_counted8(self.objects@, e), k8, e8, k9, e9, k);
        let k7 = self.window_icon.put(k8);
        let e7 = self.window_icon.put(e8);
        <ObjectId as Wire>::lemma_put_append(self.window_icon, k8);
        <ObjectId as Wire>::lemma_put_append(self.window_icon, e8);
        lemma_append_step(self.window_icon.put(e), k7, e7, k8, e8, k);
        let k6 = self.window_title.put(k7);
        let e6 = self.window_title.put(e7);
        <ObjectId as Wire>::lemma_put_append(self.window_title, k7);
        <ObjectId as Wire>::lemma_put_append(self.window_title, e7);
        lemma_append_step(self.window_title.put(e), k6, e6, k7, e7, k);
        let k5 = self.name.put(k6);
        let e5 = self.name.put(e6);
        <ObjectId as Wire>::lemma_put_append(self.name, k6);
        <ObjectId as Wire>::lemma_put_append(self.name, e6);
        lemma_append_step(self.name.put(e), k5, e5, k6, e6, k);
        let k4 = self.options.put(k5);
        let e4 = self.options.put(e5);
        <u8 as Wire>::lemma_put_append(self.options, k5);
        <u8 as Wire>::lemma_put_append(self.options, e5);
        lemma_append_step(self.options.put(e), k4, e4, k5, e5, k);
        let k3 = self.background_colour.put(k4);
        let e3 = self.background_colour.put(e4);
        <u8 as Wire>::lemma_put_append(self.background_colour, k4);
        <u8 as Wire>::lemma_put_append(self.background_colour, e4);
        lemma_append_step(self.background_colour.put(e), k3, e3, k4, e4, k);
        let k2 = self.window_type.put(k3);
        let e2 = self.window_type.put(e3);
        <u8 as Wire>::lemma_put_append(self.window_type, k3);
        <u8 as Wire>::lemma_put_append(self.window_type, e3);
        lemma_append_step(self.window_type.put(e), k2, e2, k3, e3, k);
        let k1 = self.height.put(k2);
        let e1 = self.height.put(e2);
        <u8 as Wire>::lemma_put_append(self.height, k2);
        <u8 as Wire>::lemma_put_append(self.height, e2);
        lemma_append_step(self.height.put(e), k1, e1, k2, e2, k);
        let k0 = self.width.put(k1);
        let e0 = self.width.put(e1);
        <u8 as Wire>::lemma_put_append(self.width, k1);
        <u8 as Wire>::lemma_put_append(self.width, e1);
        lemma_append_step(self.width.put(e), k0, e0, k1, e1, k);
    }

    /// The fields are fixed by their encoding, and so is where it ends.
    pub proof fn lemma_body_injective(x: WindowMask, y: WindowMask, k1: Seq<u8>, k2: Seq<u8>)
        requires
            x.wf(),
            y.wf(),
            x.put_body(k1) == y.put_body(k2),
        ensures
            k1 == k2,
    {
    }

    /// Reads the fields that follow the object header.
    pub fn read_body(cur: &mut Cursor, id: ObjectId) -> (r: Result<WindowMask, ParseError>)
        requires
            old(cur).wf(),
        ensures
            final(cur).wf(),
            final(cur).data == old(cur).data,
            match r {
                Ok(x) => x.id == id && x.wf() && old(cur).rest() == x.put_body(final(cur).rest()),
                Err(e) => e == ParseError::DataEmpty && forall|x: WindowMask, k: Seq<u8>|
                    x.wf() ==> #[trigger] x.put_body(k) != old(cur).rest(),
            },
    {
        let width = <u8 as Wire>::read(cur)?;
        let height = <u8 as Wire>::read(cur)?;
        let window_type = <u8 as Wire>::read(cur)?;
        let background_colour = <u8 as Wire>::read(cur)?;
        let options = <u8 as Wire>::read(cur)?;
        let name = <ObjectId as Wire>::read(cur)?;
        let window_title = <ObjectId as Wire>::read(cur)?;
        let window_icon = <ObjectId as Wire>::read(cur)?;
        let objects = read_counted8::<ObjectId>(cur)?;
        let object_refs = read_counted8::<ObjectRef>(cur)?;
        let macro_refs = read_counted8::<MacroRef>(cur)?;
        Ok(WindowMask { id, width, height, window_type, background_colour, options, name, window_title, window_icon, objects, object_refs, macro_refs })
    }

    /// Writes the fields that follow the object header.
    pub fn write_body(&self, out: &mut Vec<u8>)
        requires
            self.wf(),
        ensures
            forall|k: Seq<u8>| old(out)@ + #[trigger] self.put_body(k) == final(out)@ + k,
    {
        self.width.write(out);
        self.height.write(out);
        self.window_type.write(out);
        self.background_colour.write(out);
        self.options.write(out);
        self.name.write(out);
        self.window_title.write(out);
        self.window_icon.write(out);
        write_counted8(&self.objects, out);
        write_counted8(&self.object_refs, out);
        write_counted8(&self.macro_refs, out);
    }

    /// The handles of other objects of the pool that this object refers to, in field order.
    pub open spec fn references(&self) -> Seq<ObjectId> {
        seq![self.name] + seq![self.window_title] + seq![self.window_icon] + self.objects@ + ref_ids(self.object_refs@) + macro_ids(self.macro_refs@)
    }

    /// Appends the handles that `references` lists.
    pub fn collect_references(&self, out: &mut Vec<ObjectId>)
        ensures
            final(out)@ == old(out)@ + self.references(),
    {
        let ghost start = out@;
        out.push(self.name);
        out.push(self.window_title);
        out.push(self.window_icon);
        push_ids(&self.objects, out);
        push_ref_ids(&self.object_refs, out);
        push_macro_ids(&self.macro_refs, out);
        assert(out@ =~= start + self.references());
    }
}

/// A group of keys for a user-layout key area.
#[derive(Debug, Clone, PartialEq, Eq)]
pub struct KeyGroup {
    pub id: ObjectId,
    pub options: u8,
    pub name: ObjectId,
    pub key_group_icon: ObjectId,
    pub objects: Vec<ObjectId>,
    pub macro_refs: Vec<MacroRef>,
}

impl KeyGroup {
    /// Every counted section fits its count field.
    pub open spec fn wf(&self) -> bool {
        self.objects@.len() <= 0xff && self.macro_refs@.len() <= 0xff
    }

    /// The fields after the object header, in order, followed by `k`.
    pub open spec fn put_body(&self, k: Seq<u8>) -> Seq<u8> {
        self.options.put(self.name.put(self.key_group_icon.put(put_counted8(self.objects@, put_counted8(self.macro_refs@, k)))))
    }

    pub fn is_encodable(&self) -> (r: bool)
        ensures
            r == self.wf(),
    {
        self.objects.len() <= 0xff && self.macro_refs.len() <= 0xff
    }

    pub proof fn lemma_body_append(&self, k: Seq<u8>)
        ensures
            self.put_body(k) == self.put_body(Seq::empty()) + k,
    {
        let e = Seq::<u8>::empty();
        let k4 = put_counted8(self.macro_refs@, k);
        let e4 = put_counted8(self.macro_refs@, e);
        lemma_counted8_append(self.macro_refs@, k);
        let k3 = put_counted8(self.objects@, k4);
        let e3 = put_counted8(self.objects@, e4);
        lemma_counted8_append(self.objects@, k4);
        lemma_counted8_append(self.objects@, e4);
        lemma_append_step(put_counted8(self.objects@, e), k3, e3, k4, e4, k);
        let k2 = self.key_group_icon.put(k3);
        let e2 = self.key_group_icon.put(e3);
        <ObjectId as Wire>::lemma_put_append(self.key_group_icon, k3);
        <ObjectId as Wire>::lemma_put_append(self.key_group_icon, e3);
        lemma_append_step(self.key_group_icon.put(e), k2, e2, k3, e3, k);
        let k1 = self.name.put(k2);
        let e1 = self.name.put(e2);
        <ObjectId as Wire>::lemma_put_append(self.name, k2);
        <ObjectId as Wire>::lemma_put_append(self.name, e2);
        lemma_append_step(self.name.put(e), k1, e1, k2, e2, k);
        let k0 = self.options.put(k1);
        let e0 = self.options.put(e1);
        <u8 as Wire>::lemma_put_append(self.options, k1);
        <u8 as Wire>::lemma_put_append(self.options, e1);
        lemma_append_step(self.options.put(e), k0, e0, k1, e1, k);
    }

    /// The fields are fixed by their encoding, and so is where it ends.
    pub proof fn lemma_body_injective(x: KeyGroup, y: KeyGroup, k1: Seq<u8>, k2: Seq<u8>)
        requires
            x.wf(),
            y.wf(),
            x.put_body(k1) == y.put_body(k2),
        ensures
            k1 == k2,
    {
    }

    /// Reads the fields that follow the object header.
    pub fn read_body(cur: &mut Cursor, id: ObjectId) -> (r: Result<KeyGroup, ParseError>)
        requires
            old(cur).wf(),
        ensures
            final(cur).wf(),
            final(cur).data == old(cur).data,
            match r {
                Ok(x) => x.id == id && x.wf() && old(cur).rest() == x.put_body(final(cur).rest()),
                Err(e) => e == ParseError::DataEmpty && forall|x: KeyGroup, k: Seq<u8>|
                    x.wf() ==> #[trigger] x.put_body(k) != old(cur).rest(),
            },
    {
        let options = <u8 as Wire>::read(cur)?;
        let name = <ObjectId as Wire>::read(cur)?;
        let key_group_icon = <ObjectId as Wire>::read(cur)?;
        let objects = read_counted8::<ObjectId>(cur)?;
        let macro_refs = read_counted8::<MacroRef>(cur)?;
        Ok(KeyGroup { id, options, name, key_group_icon, objects, macro_refs })
    }

    /// Writes the fields that follow the object header.
    pub fn write_body(&self, out: &mut Vec<u8>)
        requires
            self.wf(),
        ensures
            forall|k: Seq<u8>| old(out)@ + #[trigger] self.put_body(k) == final(out)@ + k,
    {
        self.options.write(out);
        self.name.write(out);
        self.key_group_icon.write(out);
        write_counted8(&self.objects, out);
        write_counted8(&self.macro_refs, out);
    }

    /// The handles of other objects of the pool that this object refers to, in field order.
    pub open spec fn references(&self) -> Seq<ObjectId> {
        seq![self.name] + seq![self.key_group_icon] + self.objects@ + macro_ids(self.macro_refs@)
    }

    /// Appends the handles that `references` lists.
    pub fn collect_references(&self, out: &mut Vec<ObjectId>)
        ensures
            final(out)@ == old(out)@ + self.references(),
    {
        let ghost start = out@;
        out.push(self.name);
        out.push(self.key_group_icon);
        push_ids(&self.objects, out);
        push_macro_ids(&self.macro_refs, out);
        assert(out@ =~= start + self.references());
    }
}

/// A drawing canvas with its viewport and drawing state.
#[derive(Debug, Clone, PartialEq, Eq)]
pub struct GraphicsContext {
    pub id: ObjectId,
    pub viewport_width: u16,
    pub viewport_height: u16,
    pub viewport_x: i16,
    pub viewport_y: i16,
    pub canvas_width: u16,
    pub canvas_height: u16,
    /// Zoom factor, as the bit pattern of an IEEE-754 single-precision number.
    pub viewport_zoom: u32,
    pub graphics_cursor_x: i16,
    pub graphics_cursor_y: i16,
    pub foreground_colour: u8,
    pub background_colour: u8,
    pub font_attributes_object: ObjectId,
    pub line_attributes_object: ObjectId,
    pub fill_attributes_object: ObjectId,
    pub format: u8,
    pub options: u8,
    pub transparency_colour: u8,
}

impl GraphicsContext {
    /// Every counted section fits its count field.
    pub open spec fn wf(&self) -> bool {
        true
    }

    /// The fields after the object header, in order, followed by `k`.
    pub open spec fn put_body(&self, k: Seq<u8>) -> Seq<u8> {
        self.viewport_width.put(self.viewport_height.put(self.viewport_x.put(self.viewport_y.put(self.canvas_width.put(self.canvas_height.put(self.viewport_zoom.put(self.graphics_cursor_x.put(self.graphics_cursor_y.put(self.foreground_colour.put(self.background_colour.put(self.font_attributes_object.put(self.line_attributes_object.put(self.fill_attributes_object.put(self.format.put(self.options.put(self.transparency_colour.put(k)))))))))))))))))
    }

    pub fn is_encodable(&self) -> (r: bool)
        ensures
            r == self.wf(),
    {
        true
    }

    pub proof fn lemma_body_append(&self, k: Seq<u8>)
        ensures
            self.put_body(k) == self.put_body(Seq::empty()) + k,
    {
        let e = Seq::<u8>::empty();
        let k16 = self.transparency_colour.put(k);
        let e16 = self.transparency_colour.put(e);
        <u8 as Wire>::lemma_put_append(self.transparency_colour, k);
        let k15 = self.options.put(k16);
        let e15 = self.options.put(e16);
        <u8 as Wire>::lemma_put_append(self.options, k16);
        <u8 as Wire>::lemma_put_append(self.options, e16);
        lemma_append_step(self.options.put(e), k15, e15, k16, e16, k);
        let k14 = self.format.put(k15);
        let e14 = self.format.put(e15);
        <u8 as Wire>::lemma_put_append(self.format, k15);
        <u8 as Wire>::lemma_put_append(self.format, e15);
        lemma_append_step(self.format.put(e), k14, e14, k15, e15, k);
        let k13 = self.fill_attributes_object.put(k14);
        let e13 = self.fill_attributes_object.put(e14);
        <ObjectId as Wire>::lemma_put_append(self.fill_attributes_object, k14);
        <ObjectId as Wire>::lemma_put_append(self.fill_attributes_object, e14);
        lemma_append_step(self.fill_attributes_object.put(e), k13, e13, k14, e14, k);
        let k12 = self.line_attributes_object.put(k13);
        let e12 = self.line_attributes_object.put(e13);
        <ObjectId as Wire>::lemma_put_append(self.line_attributes_object, k13);
        <ObjectId as Wire>::lemma_put_append(self.line_attributes_object, e13);
        lemma_append_step(self.line_attributes_object.put(e), k12, e12, k13, e13, k);
        let k11 = self.font_attributes_object.put(k12);
        let e11 = self.font_attributes_object.put(e12);
        <ObjectId as Wire>::lemma_put_append(self.font_attributes_object, k12);
        <ObjectId as Wire>::lemma_put_append(self.font_attributes_object, e12);
        lemma_append_step(self.font_attributes_object.put(e), k11, e11, k12, e12, k);
        let k10 = self.background_colour.put(k11);
        let e10 = self.background_colour.put(e11);
        <u8 as Wire>::lemma_put_append(self.background_colour, k11);
        <u8 as Wire>::lemma_put_append(self.background_colour, e11);
        lemma_append_step(self.background_colour.put(e), k10, e10, k11, e11, k);
        let k9 = self.foreground_colour.put(k10);
        let e9 = self.foreground_colour.put(e10);
        <u8 as Wire>::lemma_put_append(self.foreground_colour, k10);
        <u8 as Wire>::lemma_put_append(self.foreground_colour, e10);
        lemma_append_step(self.foreground_colour.put(e), k9, e9, k10, e10, k);
        let k8 = self.graphics_cursor_y.put(k9);
        let e8 = self.graphics_cursor_y.put(e9);
        <i16 as Wire>::lemma_put_append(self.graphics_cursor_y, k9);
        <i16 as Wire>::lemma_put_append(self.graphics_cursor_y, e9);
        lemma_append_step(self.graphics_cursor_y.put(e), k8, e8, k9, e9, k);
        let k7 = self.graphics_cursor_x.put(k8);
        let e7 = self.graphics_cursor_x.put(e8);
        <i16 as Wire>::lemma_put_append(self.graphics_cursor_x, k8);
        <i16 as Wire>::lemma_put_append(self.graphics_cursor_x, e8);
        lemma_append_step(self.graphics_cursor_x.put(e), k7, e7, k8, e8, k);
        let k6 = self.viewport_zoom.put(k7);
        let e6 = self.viewport_zoom.put(e7);
        <u32 as Wire>::lemma_put_append(self.viewport_zoom, k7);
        <u32 as Wire>::lemma_put_append(self.viewport_zoom, e7);
        lemma_append_step(self.viewport_zoom.put(e), k6, e6, k7, e7, k);
        let k5 = self.canvas_height.put(k6);
        let e5 = self.canvas_height.put(e6);
        <u16 as Wire>::lemma_put_append(self.canvas_height, k6);
        <u16 as Wire>::lemma_put_append(self.canvas_height, e6);
        lemma_append_step(self.canvas_height.put(e), k5, e5, k6, e6, k);
        let k4 = self.canvas_width.put(k5);
        let e4 = self.canvas_width.put(e5);
        <u16 as Wire>::lemma_put_append(self.canvas_width, k5);
        <u16 as Wire>::lemma_put_append(self.canvas_width, e5);
        lemma_append_step(self.canvas_width.put(e), k4, e4, k5, e5, k);
        let k3 = self.viewport_y.put(k4);
        let e3 = self.viewport_y.put(e4);
        <i16 as Wire>::lemma_put_append(self.viewport_y, k4);
        <i16 as Wire>::lemma_put_append(self.viewport_y, e4);
        lemma_append_step(self.viewport_y.put(e), k3, e3, k4, e4, k);
        let k2 = self.viewport_x.put(k3);
        let e2 = self.viewport_x.put(e3);
        <i16 as Wire>::lemma_put_append(self.viewport_x, k3);
        <i16 as Wire>::lemma_put_append(self.viewport_x, e3);
        lemma_append_step(self.viewport_x.put(e), k2, e2, k3, e3, k);
        let k1 = self.viewport_height.put(k2);
        let e1 = self.viewport_height.put(e2);
        <u16 as Wire>::lemma_put_append(self.viewport_height, k2);
        <u16 as Wire>::lemma_put_append(self.viewport_height, e2);
        lemma_append_step(self.viewport_height.put(e), k1, e1, k2, e2, k);
        let k0 = self.viewport_width.put(k1);
        let e0 = self.viewport_width.put(e1);
        <u16 as Wire>::lemma_put_append(self.viewport_width, k1);
        <u16 as Wire>::lemma_put_append(self.viewport_width, e1);
        lemma_append_step(self.viewport_width.put(e), k0, e0, k1, e1, k);
    }

    /// The fields are fixed by their encoding, and so is where it ends.
    pub proof fn lemma_body_injective(x: GraphicsContext, y: GraphicsContext, k1: Seq<u8>, k2: Seq<u8>)
        requires
            x.wf(),
            y.wf(),
            x.put_body(k1) == y.put_body(k2),
        ensures
            k1 == k2,
    {
    }

    /// Reads the fields that follow the object header.
    pub fn read_body(cur: &mut Cursor, id: ObjectId) -> (r: Result<GraphicsContext, ParseError>)
        requires
            old(cur).wf(),
        ensures
            final(cur).wf(),
            final(cur).data == old(cur).data,
            match r {
                Ok(x) => x.id == id && x.wf() && old(cur).rest() == x.put_body(final(cur).rest()),
                Err(e) => e == ParseError::DataEmpty && forall|x: GraphicsContext, k: Seq<u8>|
                    x.wf() ==> #[trigger] x.put_body(k) != old(cur).rest(),
            },
    {
        let viewport_width = <u16 as Wire>::read(cur)?;
        let viewport_height = <u16 as Wire>::read(cur)?;
        let viewport_x = <i16 as Wire>::read(cur)?;
        let viewport_y = <i16 as Wire>::read(cur)?;
        let canvas_width = <u16 as Wire>::read(cur)?;
        let canvas_height = <u16 as Wire>::read(cur)?;
        let viewport_zoom = <u32 as Wire>::read(cur)?;
        let graphics_cursor_x = <i16 as Wire>::read(cur)?;
        let graphics_cursor_y = <i16 as Wire>::read(cur)?;
        let foreground_colour = <u8 as Wire>::read(cur)?;
        let background_colour = <u8 as Wire>::read(cur)?;
        let font_attributes_object = <ObjectId as Wire>::read(cur)?;
        let line_attributes_object = <ObjectId as Wire>::read(cur)?;
        let fill_attributes_object = <ObjectId as Wire>::read(cur)?;
        let format = <u8 as Wire>::read(cur)?;
        let options = <u8 as Wire>::read(cur)?;
        let transparency_colour = <u8 as Wire>::read(cur)?;
        Ok(GraphicsContext { id, viewport_width, viewport_height, viewport_x, viewport_y, canvas_width, canvas_height, viewport_zoom, graphics_cursor_x, graphics_cursor_y, foreground_colour, background_colour, font_attributes_object, line_attributes_object, fill_attributes_object, format, options, transparency_colour })
    }

    /// Writes the fields that follow the object header.
    pub fn write_body(&self, out: &mut Vec<u8>)
        requires
            self.wf(),
        ensures
            forall|k: Seq<u8>| old(out)@ + #[trigger] self.put_body(k) == final(out)@ + k,
    {
        self.viewport_width.write(out);
        self.viewport_height.write(out);
        self.viewport_x.write(out);
        self.viewport_y.write(out);
        self.canvas_width.write(out);
        self.canvas_height.write(out);
        self.viewport_zoom.write(out);
        self.graphics_cursor_x.write(out);
        self.graphics_cursor_y.write(out);
        self.foreground_colour.write(out);
        self.background_colour.write(out);
        self.font_attributes_object.write(out);
        self.line_attributes_object.write(out);
        self.fill_attributes_object.write(out);
        self.format.write(out);
        self.options.write(out);
        self.transparency_colour.write(out);
    }

    /// The handles of other objects of the pool that this object refers to, in field order.
    pub open spec fn references(&self) -> Seq<ObjectId> {
        seq![self.font_attributes_object] + seq![self.line_attributes_object] + seq![self.fill_attributes_object]
    }

    /// Appends the handles that `references` lists.
    pub fn collect_references(&self, out: &mut Vec<ObjectId>)
        ensures
            final(out)@ == old(out)@ + self.references(),
    {
        let ghost start = out@;
        out.push(self.font_attributes_object);
        out.push(self.line_attributes_object);
        out.push(self.fill_attributes_object);
        assert(out@ =~= start + self.references());
    }
}

/// Shows one object of a list.
#[derive(Debug, Clone, PartialEq, Eq)]
pub struct OutputList {
    pub id: ObjectId,
    pub width: u16,
    pub height: u16,
    pub variable_reference: ObjectId,
    pub value: u8,
    pub list_items: Vec<ObjectId>,
    pub macro_refs: Vec<MacroRef>,
}

impl OutputList {
    /// Every counted section fits its count field.
    pub open spec fn wf(&self) -> bool {
        self.list_items@.len() <= 0xff && self.macro_refs@.len() <= 0xff
    }

    /// The fields after the object header, in order, followed by `k`.
    pub open spec fn put_body(&self, k: Seq<u8>) -> Seq<u8> {
        self.width.put(self.height.put(self.variable_reference.put(self.value.put(put_counted8(self.list_items@, put_counted8(self.macro_refs@, k))))))
    }

    pub fn is_encodable(&self) -> (r: bool)
        ensures
            r == self.wf(),
    {
        self.list_items.len() <= 0xff && self.macro_refs.len() <= 0xff
    }

    pub proof fn lemma_body_append(&self, k: Seq<u8>)
        ensures
            self.put_body(k) == self.put_body(Seq::empty()) + k,
    {
        let e = Seq::<u8>::empty();
        let k5 = put_counted8(self.macro_refs@, k);
        let e5 = put_counted8(self.macro_refs@, e);
        lemma_counted8_append(self.macro_refs@, k);
        let k4 = put_counted8(self.list_items@, k5);
        let e4 = put_counted8(self.list_items@, e5);
        lemma_counted8_append(self.list_items@, k5);
        lemma_counted8_append(self.list_items@, e5);
        lemma_append_step(put_counted8(self.list_items@, e), k4, e4, k5, e5, k);
        let k3 = self.value.put(k4);
        let e3 = self.value.put(e4);
        <u8 as Wire>::lemma_put_append(self.value, k4);
        <u8 as Wire>::lemma_put_append(self.value, e4);
        lemma_append_step(self.value.put(e), k3, e3, k4, e4, k);
        let k2 = self.variable_reference.put(k3);
        let e2 = self.variable_reference.put(e3);
        <ObjectId as Wire>::lemma_put_append(self.variable_reference, k3);
        <ObjectId as Wire>::lemma_put_append(self.variable_reference, e3);
        lemma_append_step(self.variable_reference.put(e), k2, e2, k3, e3, k);
        let k1 = self.height.put(k2);
        let e1 = self.height.put(e2);
        <u16 as Wire>::lemma_put_append(self.height, k2);
        <u16 as Wire>::lemma_put_append(self.height, e2);
        lemma_append_step(self.height.put(e), k1, e1, k2, e2, k);
        let k0 = self.width.put(k1);
        let e0 = self.width.put(e1);
        <u16 as Wire>::lemma_put_append(self.width, k1);
        <u16 as Wire>::lemma_put_append(self.width, e1);
        lemma_append_step(self.width.put(e), k0, e0, k1, e1, k);
    }

    /// The fields are fixed by their encoding, and so is where it ends.
    pub proof fn lemma_body_injective(x: OutputList, y: OutputList, k1: Seq<u8>, k2: Seq<u8>)
        requires
            x.wf(),
            y.wf(),
            x.put_body(k1) == y.put_body(k2),
        ensures
            k1 == k2,
    {
    }

    /// Reads the fields that follow the object header.
    pub fn read_body(cur: &mut Cursor, id: ObjectId) -> (r: Result<OutputList, ParseError>)
        requires
            old(cur).wf(),
        ensures
            final(cur).wf(),
            final(cur).data == old(cur).data,
            match r {
                Ok(x) => x.id == id && x.wf() && old(cur).rest() == x.put_body(final(cur).rest()),
                Err(e) => e == ParseError::DataEmpty && forall|x: OutputList, k: Seq<u8>|
                    x.wf() ==> #[trigger] x.put_body(k) != old(cur).rest(),
            },
    {
        let width = <u16 as Wire>::read(cur)?;
        let height = <u16 as Wire>::read(cur)?;
        let variable_reference = <ObjectId as Wire>::read(cur)?;
        let value = <u8 as Wire>::read(cur)?;
        let list_items = read_counted8::<ObjectId>(cur)?;
        let macro_refs = read_counted8::<MacroRef>(cur)?;
        Ok(OutputList { id, width, height, variable_reference, value, list_items, macro_refs })
    }

    /// Writes the fields that follow the object header.
    pub fn write_body(&self, out: &mut Vec<u8>)
        requires
            self.wf(),
        ensures
            forall|k: Seq<u8>| old(out)@ + #[trigger] self.put_body(k) == final(out)@ + k,
    {
        self.width.write(out);
        self.height.write(out);
        self.variable_reference.write(out);
        self.value.write(out);
        write_counted8(&self.list_items, out);
        write_counted8(&self.macro_refs, out);
    }

    /// The handles of other objects of the pool that this object refers to, in field order.
    pub open spec fn references(&self) -> Seq<ObjectId> {
        seq![self.variable_reference] + self.list_items@ + macro_ids(self.macro_refs@)
    }

    /// Appends the handles that `references` lists.
    pub fn collect_references(&self, out: &mut Vec<ObjectId>)
        ensures
            final(out)@ == old(out)@ + self.references(),
    {
        let ghost start = out@;
        out.push(self.variable_reference);
        push_ids(&self.list_items, out);
        push_macro_ids(&self.macro_refs, out);
        assert(out@ =~= start + self.references());
    }
}

/// Input attributes over several code planes.
#[derive(Debug, Clone, PartialEq, Eq)]
pub struct ExtendedInputAttributes {
    pub id: ObjectId,
    pub validation_type: u8,
    pub nr_of_code_planes: u8,
}

impl ExtendedInputAttributes {
    /// Every counted section fits its count field.
    pub open spec fn wf(&self) -> bool {
        true
    }

    /// The fields after the object header, in order, followed by `k`.
    pub open spec fn put_body(&self, k: Seq<u8>) -> Seq<u8> {
        self.validation_type.put(self.nr_of_code_planes.put(k))
    }

    pub fn is_encodable(&self) -> (r: bool)
        ensures
            r == self.wf(),
    {
        true
    }

    pub proof fn lemma_body_append(&self, k: Seq<u8>)
        ensures
            self.put_body(k) == self.put_body(Seq::empty()) + k,
    {
        let e = Seq::<u8>::empty();
        let k1 = self.nr_of_code_planes.put(k);
        let e1 = self.nr_of_code_planes.put(e);
        <u8 as Wire>::lemma_put_append(self.nr_of_code_planes, k);
        let k0 = self.validation_type.put(k1);
        let e0 = self.validation_type.put(e1);
        <u8 as Wire>::lemma_put_append(self.validation_type, k1);
        <u8 as Wire>::lemma_put_append(self.validation_type, e1);
        lemma_append_step(self.validation_type.put(e), k0, e0, k1, e1, k);
    }

    /// The fields are fixed by their encoding, and so is where it ends.
    pub proof fn lemma_body_injective(x: ExtendedInputAttributes, y: ExtendedInputAttributes, k1: Seq<u8>, k2: Seq<u8>)
        requires
            x.wf(),
            y.wf(),
            x.put_body(k1) == y.put_body(k2),
        ensures
            k1 == k2,
    {
    }

    /// Reads the fields that follow the object header.
    pub fn read_body(cur: &mut Cursor, id: ObjectId) -> (r: Result<ExtendedInputAttributes, ParseError>)
        requires
            old(cur).wf(),
        ensures
            final(cur).wf(),
            final(cur).data == old(cur).data,
            match r {
                Ok(x) => x.id == id && x.wf() && old(cur).rest() == x.put_body(final(cur).rest()),
                Err(e) => e == ParseError::DataEmpty && forall|x: ExtendedInputAttributes, k: Seq<u8>|
                    x.wf() ==> #[trigger] x.put_body(k) != old(cur).rest(),
            },
    {
        let validation_type = <u8 as Wire>::read(cur)?;
        let nr_of_code_planes = <u8 as Wire>::read(cur)?;
        Ok(ExtendedInputAttributes { id, validation_type, nr_of_code_planes })
    }

    /// Writes the fields that follow the object header.
    pub fn write_body(&self, out: &mut Vec<u8>)
        requires
            self.wf(),
        ensures
            forall|k: Seq<u8>| old(out)@ + #[trigger] self.put_body(k) == final(out)@ + k,
    {
        self.validation_type.write(out);
        self.nr_of_code_planes.write(out);
    }

    /// The handles of other objects of the pool that this object refers to, in field order.
    pub open spec fn references(&self) -> Seq<ObjectId> {
        Seq::empty()
    }

    /// Appends the handles that `references` lists.
    pub fn collect_references(&self, out: &mut Vec<ObjectId>)
        ensures
            final(out)@ == old(out)@ + self.references(),
    {
        let ghost start = out@;
        assert(out@ =~= start + self.references());
    }
}

/// A table that remaps colour indices.
#[derive(Debug, Clone, PartialEq, Eq)]
pub struct ColourMap {
    pub id: ObjectId,
    /// On the wire: a two-byte count, then the elements.
    pub colour_map: Vec<u8>,
}

impl ColourMap {
    /// Every counted section fits its count field.
    pub open spec fn wf(&self) -> bool {
        self.colour_map@.len() <= 0xffff
    }

    /// The fields after the object header, in order, followed by `k`.
    pub open spec fn put_body(&self, k: Seq<u8>) -> Seq<u8> {
        put_counted16(self.colour_map@, k)
    }

    pub fn is_encodable(&self) -> (r: bool)
        ensures
            r == self.wf(),
    {
        self.colour_map.len() <= 0xffff
    }

    pub proof fn lemma_body_append(&self, k: Seq<u8>)
        ensures
            self.put_body(k) == self.put_body(Seq::empty()) + k,
    {
        let e = Seq::<u8>::empty();
        let k0 = put_counted16(self.colour_map@, k);
        let e0 = put_counted16(self.colour_map@, e);
        lemma_counted16_append(self.colour_map@, k);
    }

    /// The fields are fixed by their encoding, and so is where it ends.
    pub proof fn lemma_body_injective(x: ColourMap, y: ColourMap, k1: Seq<u8>, k2: Seq<u8>)
        requires
            x.wf(),
            y.wf(),
            x.put_body(k1) == y.put_body(k2),
        ensures
            k1 == k2,
    {
    }

    /// Reads the fields that follow the object header.
    pub fn read_body(cur: &mut Cursor, id: ObjectId) -> (r: Result<ColourMap, ParseError>)
        requires
            old(cur).wf(),
        ensures
            final(cur).wf(),
            final(cur).data == old(cur).data,
            match r {
                Ok(x) => x.id == id && x.wf() && old(cur).rest() == x.put_body(final(cur).rest()),
                Err(e) => e == ParseError::DataEmpty && forall|x: ColourMap, k: Seq<u8>|
                    x.wf() ==> #[trigger] x.put_body(k) != old(cur).rest(),
            },
    {
        let colour_map = read_counted16::<u8>(cur)?;
        Ok(ColourMap { id, colour_map })
    }

    /// Writes the fields that follow the object header.
    pub fn write_body(&self, out: &mut Vec<u8>)
        requires
            self.wf(),
        ensures
            forall|k: Seq<u8>| old(out)@ + #[trigger] self.put_body(k) == final(out)@ + k,
    {
        write_counted16(&self.colour_map, out);
    }

    /// The handles of other objects of the pool that this object refers to, in field order.
    pub open spec fn references(&self) -> Seq<ObjectId> {
        Seq::empty()
    }

    /// Appends the handles that `references` lists.
    pub fn collect_references(&self, out: &mut Vec<ObjectId>)
        ensures
            final(out)@ == old(out)@ + self.references(),
    {
        let ghost start = out@;
        assert(out@ =~= start + self.references());
    }
}

/// Labels for objects of the pool.
#[derive(Debug, Clone, PartialEq, Eq)]
pub struct ObjectLabelReferenceList {
    pub id: ObjectId,
    /// On the wire: a two-byte count, then the elements.
    pub object_labels: Vec<ObjectLabel>,
}

impl ObjectLabelReferenceList {
    /// Every counted section fits its count field.
    pub open spec fn wf(&self) -> bool {
        self.object_labels@.len() <= 0xffff
    }

    /// The fields after the object header, in order, followed by `k`.
    pub open spec fn put_body(&self, k: Seq<u8>) -> Seq<u8> {
        put_counted16(self.object_labels@, k)
    }

    pub fn is_encodable(&self) -> (r: bool)
        ensures
            r == self.wf(),
    {
        self.object_labels.len() <= 0xffff
    }

    pub proof fn lemma_body_append(&self, k: Seq<u8>)
        ensures
            self.put_body(k) == self.put_body(Seq::empty()) + k,
    {
        let e = Seq::<u8>::empty();
        let k0 = put_counted16(self.object_labels@, k);
        let e0 = put_counted16(self.object_labels@, e);
        lemma_counted16_append(self.object_labels@, k);
    }

    /// The fields are fixed by their encoding, and so is where it ends.
    pub proof fn lemma_body_injective(x: ObjectLabelReferenceList, y: ObjectLabelReferenceList, k1: Seq<u8>, k2: Seq<u8>)
        requires
            x.wf(),
            y.wf(),
            x.put_body(k1) == y.put_body(k2),
        ensures
            k1 == k2,
    {
    }

    /// Reads the fields that follow the object header.
    pub fn read_body(cur: &mut Cursor, id: ObjectId) -> (r: Result<ObjectLabelReferenceList, ParseError>)
        requires
            old(cur).wf(),
        ensures
            final(cur).wf(),
            final(cur).data == old(cur).data,
            match r {
                Ok(x) => x.id == id && x.wf() && old(cur).rest() == x.put_body(final(cur).rest()),
                Err(e) => e == ParseError::DataEmpty && forall|x: ObjectLabelReferenceList, k: Seq<u8>|
                    x.wf() ==> #[trigger] x.put_body(k) != old(cur).rest(),
            },
    {
        let object_labels = read_counted16::<ObjectLabel>(cur)?;
        Ok(ObjectLabelReferenceList { id, object_labels })
    }

    /// Writes the fields that follow the object header.
    pub fn write_body(&self, out: &mut Vec<u8>)
        requires
            self.wf(),
        ensures
            forall|k: Seq<u8>| old(out)@ + #[trigger] self.put_body(k) == final(out)@ + k,
    {
        write_counted16(&self.object_labels, out);
    }

    /// The handles of other objects of the pool that this object refers to, in field order.
    pub open spec fn references(&self) -> Seq<ObjectId> {
        label_ids(self.object_labels@)
    }

    /// Appends the handles that `references` lists.
    pub fn collect_references(&self, out: &mut Vec<ObjectId>)
        ensures
            final(out)@ == old(out)@ + self.references(),
    {
        let ghost start = out@;
        push_label_ids(&self.object_labels, out);
        assert(out@ =~= start + self.references());
    }
}

/// Objects of this pool offered to another working set.
#[derive(Debug, Clone, PartialEq, Eq)]
pub struct ExternalObjectDefinition {
    pub id: ObjectId,
    pub options: u8,
    pub name: Name,
    pub objects: Vec<ObjectId>,
}

impl ExternalObjectDefinition {
    /// Every counted section fits its count field.
    pub open spec fn wf(&self) -> bool {
        self.objects@.len() <= 0xff
    }

    /// The fields after the object header, in order, followed by `k`.
    pub open spec fn put_body(&self, k: Seq<u8>) -> Seq<u8> {
        self.options.put(self.name.put(put_counted8(self.objects@, k)))
    }

    pub fn is_encodable(&self) -> (r: bool)
        ensures
            r == self.wf(),
    {
        self.objects.len() <= 0xff
    }

    pub proof fn lemma_body_append(&self, k: Seq<u8>)
        ensures
            self.put_body(k) == self.put_body(Seq::empty()) + k,
    {
        let e = Seq::<u8>::empty();
        let k2 = put_counted8(self.objects@, k);
        let e2 = put_counted8(self.objects@, e);
        lemma_counted8_append(self.objects@, k);
        let k1 = self.name.put(k2);
        let e1 = self.name.put(e2);
        <Name as Wire>::lemma_put_append(self.name, k2);
        <Name as Wire>::lemma_put_append(self.name, e2);
        lemma_append_step(self.name.put(e), k1, e1, k2, e2, k);
        let k0 = self.options.put(k1);
        let e0 = self.options.put(e1);
        <u8 as Wire>::lemma_put_append(self.options, k1);
        <u8 as Wire>::lemma_put_append(self.options, e1);
        lemma_append_step(self.options.put(e), k0, e0, k1, e1, k);
    }

    /// The fields are fixed by their encoding, and so is where it ends.
    pub proof fn lemma_body_injective(x: ExternalObjectDefinition, y: ExternalObjectDefinition, k1: Seq<u8>, k2: Seq<u8>)
        requires
            x.wf(),
            y.wf(),
            x.put_body(k1) == y.put_body(k2),
        ensures
            k1 == k2,
    {
    }

    /// Reads the fields that follow the object header.
    pub fn read_body(cur: &mut Cursor, id: ObjectId) -> (r: Result<ExternalObjectDefinition, ParseError>)
        requires
            old(cur).wf(),
        ensures
            final(cur).wf(),
            final(cur).data == old(cur).data,
            match r {
                Ok(x) => x.id == id && x.wf() && old(cur).rest() == x.put_body(final(cur).rest()),
                Err(e) => e == ParseError::DataEmpty && forall|x: ExternalObjectDefinition, k: Seq<u8>|
                    x.wf() ==> #[trigger] x.put_body(k) != old(cur).rest(),
            },
    {
        let options = <u8 as Wire>::read(cur)?;
        let name = <Name as Wire>::read(cur)?;
        let objects = read_counted8::<ObjectId>(cur)?;
        Ok(ExternalObjectDefinition { id, options, name, objects })
    }

    /// Writes the fields that follow the object header.
    pub fn write_body(&self, out: &mut Vec<u8>)
        requires
            self.wf(),
        ensures
            forall|k: Seq<u8>| old(out)@ + #[trigger] self.put_body(k) == final(out)@ + k,
    {
        self.options.write(out);
        self.name.write(out);
        write_counted8(&self.objects, out);
    }

    /// The handles of other objects of the pool that this object refers to, in field order.
    pub open spec fn references(&self) -> Seq<ObjectId> {
        self.objects@
    }

    /// Appends the handles that `references` lists.
    pub fn collect_references(&self, out: &mut Vec<ObjectId>)
        ensures
            final(out)@ == old(out)@ + self.references(),
    {
        let ghost start = out@;
        push_ids(&self.objects, out);
        assert(out@ =~= start + self.references());
    }
}

/// Names a working set whose objects this pool uses.
#[derive(Debug, Clone, PartialEq, Eq)]
pub struct ExternalReferenceName {
    pub id: ObjectId,
    pub options: u8,
    pub name: Name,
}

impl ExternalReferenceName {
    /// Every counted section fits its count field.
    pub open spec fn wf(&self) -> bool {
        true
    }

    /// The fields after the object header, in order, followed by `k`.
    pub open spec fn put_body(&self, k: Seq<u8>) -> Seq<u8> {
        self.options.put(self.name.put(k))
    }

    pub fn is_encodable(&self) -> (r: bool)
        ensures
            r == self.wf(),
    {
        true
    }

    pub proof fn lemma_body_append(&self, k: Seq<u8>)
        ensures
            self.put_body(k) == self.put_body(Seq::empty()) + k,
    {
        let e = Seq::<u8>::empty();
        let k1 = self.name.put(k);
        let e1 = self.name.put(e);
        <Name as Wire>::lemma_put_append(self.name, k);
        let k0 = self.options.put(k1);
        let e0 = self.options.put(e1);
        <u8 as Wire>::lemma_put_append(self.options, k1);
        <u8 as Wire>::lemma_put_append(self.options, e1);
        lemma_append_step(self.options.put(e), k0, e0, k1, e1, k);
    }

    /// The fields are fixed by their encoding, and so is where it ends.
    pub proof fn lemma_body_injective(x: ExternalReferenceName, y: ExternalReferenceName, k1: Seq<u8>, k2: Seq<u8>)
        requires
            x.wf(),
            y.wf(),
            x.put_body(k1) == y.put_body(k2),
        ensures
            k1 == k2,
    {
    }

    /// Reads the fields that follow the object header.
    pub fn read_body(cur: &mut Cursor, id: ObjectId) -> (r: Result<ExternalReferenceName, ParseError>)
        requires
            old(cur).wf(),
        ensures
            final(cur).wf(),
            final(cur).data == old(cur).data,
            match r {
                Ok(x) => x.id == id && x.wf() && old(cur).rest() == x.put_body(final(cur).rest()),
                Err(e) => e == ParseError::DataEmpty && forall|x: ExternalReferenceName, k: Seq<u8>|
                    x.wf() ==> #[trigger] x.put_body(k) != old(cur).rest(),
            },
    {
        let options = <u8 as Wire>::read(cur)?;
        let name = <Name as Wire>::read(cur)?;
        Ok(ExternalReferenceName { id, options, name })
    }

    /// Writes the fields that follow the object header.
    pub fn write_body(&self, out: &mut Vec<u8>)
        requires
            self.wf(),
        ensures
            forall|k: Seq<u8>| old(out)@ + #[trigger] self.put_body(k) == final(out)@ + k,
    {
        self.options.write(out);
        self.name.write(out);
    }

    /// The handles of other objects of the pool that this object refers to, in field order.
    pub open spec fn references(&self) -> Seq<ObjectId> {
        Seq::empty()
    }

    /// Appends the handles that `references` lists.
    pub fn collect_references(&self, out: &mut Vec<ObjectId>)
        ensures
            final(out)@ == old(out)@ + self.references(),
    {
        let ghost start = out@;
        assert(out@ =~= start + self.references());
    }
}

/// Shows an object of another working set, or a default object.
#[derive(Debug, Clone, PartialEq, Eq)]
pub struct ExternalObjectPointer {
    pub id: ObjectId,
    pub default_object_id: ObjectId,
    pub external_reference_name_id: ObjectId,
    /// An object of the referenced external pool, not of this one.
    pub external_object_id: ObjectId,
}

impl ExternalObjectPointer {
    /// Every counted section fits its count field.
    pub open spec fn wf(&self) -> bool {
        true
    }

    /// The fields after the object header, in order, followed by `k`.
    pub open spec fn put_body(&self, k: Seq<u8>) -> Seq<u8> {
        self.default_object_id.put(self.external_reference_name_id.put(self.external_object_id.put(k)))
    }

    pub fn is_encodable(&self) -> (r: bool)
        ensures
            r == self.wf(),
    {
        true
    }

    pub proof fn lemma_body_append(&self, k: Seq<u8>)
        ensures
            self.put_body(k) == self.put_body(Seq::empty()) + k,
    {
        let e = Seq::<u8>::empty();
        let k2 = self.external_object_id.put(k);
        let e2 = self.external_object_id.put(e);
        <ObjectId as Wire>::lemma_put_append(self.external_object_id, k);
        let k1 = self.external_reference_name_id.put(k2);
        let e1 = self.external_reference_name_id.put(e2);
        <ObjectId as Wire>::lemma_put_append(self.external_reference_name_id, k2);
        <ObjectId as Wire>::lemma_put_append(self.external_reference_name_id, e2);
        lemma_append_step(self.external_reference_name_id.put(e), k1, e1, k2, e2, k);
        let k0 = self.default_object_id.put(k1);
        let e0 = self.default_object_id.put(e1);
        <ObjectId as Wire>::lemma_put_append(self.default_object_id, k1);
        <ObjectId as Wire>::lemma_put_append(self.default_object_id, e1);
        lemma_append_step(self.default_object_id.put(e), k0, e0, k1, e1, k);
    }

    /// The fields are fixed by their encoding, and so is where it ends.
    pub proof fn lemma_body_injective(x: ExternalObjectPointer, y: ExternalObjectPointer, k1: Seq<u8>, k2: Seq<u8>)
        requires
            x.wf(),
            y.wf(),
            x.put_body(k1) == y.put_body(k2),
        ensures
            k1 == k2,
    {
    }

    /// Reads the fields that follow the object header.
    pub fn read_body(cur: &mut Cursor, id: ObjectId) -> (r: Result<ExternalObjectPointer, ParseError>)
        requires
            old(cur).wf(),
        ensures
            final(cur).wf(),
            final(cur).data == old(cur).data,
            match r {
                Ok(x) => x.id == id && x.wf() && old(cur).rest() == x.put_body(final(cur).rest()),
                Err(e) => e == ParseError::DataEmpty && forall|x: ExternalObjectPointer, k: Seq<u8>|
                    x.wf() ==> #[trigger] x.put_body(k) != old(cur).rest(),
            },
    {
        let default_object_id = <ObjectId as Wire>::read(cur)?;
        let external_reference_name_id = <ObjectId as Wire>::read(cur)?;
        let external_object_id = <ObjectId as Wire>::read(cur)?;
        Ok(ExternalObjectPointer { id, default_object_id, external_reference_name_id, external_object_id })
    }

    /// Writes the fields that follow the object header.
    pub fn write_body(&self, out: &mut Vec<u8>)
        requires
            self.wf(),
        ensures
            forall|k: Seq<u8>| old(out)@ + #[trigger] self.put_body(k) == final(out)@ + k,
    {
        self.default_object_id.write(out);
        self.external_reference_name_id.write(out);
        self.external_object_id.write(out);
    }

    /// The handles of other objects of the pool that this object refers to, in field order.
    pub open spec fn references(&self) -> Seq<ObjectId> {
        seq![self.default_object_id] + seq![self.external_reference_name_id]
    }

    /// Appends the handles that `references` lists.
    pub fn collect_references(&self, out: &mut Vec<ObjectId>)
        ensures
            final(out)@ == old(out)@ + self.references(),
    {
        let ghost start = out@;
        out.push(self.default_object_id);
        out.push(self.external_reference_name_id);
        assert(out@ =~= start + self.references());
    }
}

/// Cycles through a list of child objects.
#[derive(Debug, Clone, PartialEq, Eq)]
pub struct Animation {
    pub id: ObjectId,
    pub width: u16,
    pub height: u16,
    pub refresh_interval: u16,
    pub value: u8,
    pub enabled: bool,
    pub first_child_index: u8,
    pub last_child_index: u8,
    pub default_child_index: u8,
    pub options: u8,
    pub object_refs: Vec<ObjectRef>,
    pub macro_refs: Vec<MacroRef>,
}

impl Animation {
    /// Every counted section fits its count field.
    pub open spec fn wf(&self) -> bool {
        self.object_refs@.len() <= 0xff && self.macro_refs@.len() <= 0xff
    }

    /// The fields after the object header, in order, followed by `k`.
    pub open spec fn put_body(&self, k: Seq<u8>) -> Seq<u8> {
        self.width.put(self.height.put(self.refresh_interval.put(self.value.put(self.enabled.put(self.first_child_index.put(self.last_child_index.put(self.default_child_index.put(self.options.put(put_counted8(self.object_refs@, put_counted8(self.macro_refs@, k)))))))))))
    }

    pub fn is_encodable(&self) -> (r: bool)
        ensures
            r == self.wf(),
    {
        self.object_refs.len() <= 0xff && self.macro_refs.len() <= 0xff
    }

    pub proof fn lemma_body_append(&self, k: Seq<u8>)
        ensures
            self.put_body(k) == self.put_body(Seq::empty()) + k,
    {
        let e = Seq::<u8>::empty();
        let k10 = put_counted8(self.macro_refs@, k);
        let e10 = put_counted8(self.macro_refs@, e);
        lemma_counted8_append(self.macro_refs@, k);
        let k9 = put_counted8(self.object_refs@, k10);
        let e9 = put_counted8(self.object_refs@, e10);
        lemma_counted8_append(self.object_refs@, k10);
        lemma_counted8_append(self.object_refs@, e10);
        lemma_append_step(put_counted8(self.object_refs@, e), k9, e9, k10, e10, k);
        let k8 = self.options.put(k9);
        let e8 = self.options.put(e9);
        <u8 as Wire>::lemma_put_append(self.options, k9);
        <u8 as Wire>::lemma_put_append(self.options, e9);
        lemma_append_step(self.options.put(e), k8, e8, k9, e9, k);
        let k7 = self.default_child_index.put(k8);
        let e7 = self.default_child_index.put(e8);
        <u8 as Wire>::lemma_put_append(self.default_child_index, k8);
        <u8 as Wire>::lemma_put_append(self.default_child_index, e8);
        lemma_append_step(self.default_child_index.put(e), k7, e7, k8, e8, k);
        let k6 = self.last_child_index.put(k7);
        let e6 = self.last_child_index.put(e7);
        <u8 as Wire>::lemma_put_append(self.last_child_index, k7);
        <u8 as Wire>::lemma_put_append(self.last_child_index, e7);
        lemma_append_step(self.last_child_index.put(e), k6, e6, k7, e7, k);
        let k5 = self.first_child_index.put(k6);
        let e5 = self.first_child_index.put(e6);
        <u8 as Wire>::lemma_put_append(self.first_child_index, k6);
        <u8 as Wire>::lemma_put_append(self.first_child_index, e6);
        lemma_append_step(self.first_child_index.put(e), k5, e5, k6, e6, k);
        let k4 = self.enabled.put(k5);
        let e4 = self.enabled.put(e5);
        <bool as Wire>::lemma_put_append(self.enabled, k5);
        <bool as Wire>::lemma_put_append(self.enabled, e5);
        lemma_append_step(self.enabled.put(e), k4, e4, k5, e5, k);
        let k3 = self.value.put(k4);
        let e3 = self.value.put(e4);
        <u8 as Wire>::lemma_put_append(self.value, k4);
        <u8 as Wire>::lemma_put_append(self.value, e4);
        lemma_append_step(self.value.put(e), k3, e3, k4, e4, k);
        let k2 = self.refresh_interval.put(k3);
        let e2 = self.refresh_interval.put(e3);
        <u16 as Wire>::lemma_put_append(self.refresh_interval, k3);
        <u16 as Wire>::lemma_put_append(self.refresh_interval, e3);
        lemma_append_step(self.refresh_interval.put(e), k2, e2, k3, e3, k);
        let k1 = self.height.put(k2);
        let e1 = self.height.put(e2);
        <u16 as Wire>::lemma_put_append(self.height, k2);
        <u16 as Wire>::lemma_put_append(self.height, e2);
        lemma_append_step(self.height.put(e), k1, e1, k2, e2, k);
        let k0 = self.width.put(k1);
        let e0 = self.width.put(e1);
        <u16 as Wire>::lemma_put_append(self.width, k1);
        <u16 as Wire>::lemma_put_append(self.width, e1);
        lemma_append_step(self.width.put(e), k0, e0, k1, e1, k);
    }

    /// The fields are fixed by their encoding, and so is where it ends.
    pub proof fn lemma_body_injective(x: Animation, y: Animation, k1: Seq<u8>, k2: Seq<u8>)
        requires
            x.wf(),
            y.wf(),
            x.put_body(k1) == y.put_body(k2),
        ensures
            k1 == k2,
    {
    }

    /// Reads the fields that follow the object header.
    pub fn read_body(cur: &mut Cursor, id: ObjectId) -> (r: Result<Animation, ParseError>)
        requires
            old(cur).wf(),
        ensures
            final(cur).wf(),
            final(cur).data == old(cur).data,
            match r {
                Ok(x) => x.id == id && x.wf() && old(cur).rest() == x.put_body(final(cur).rest()),
                Err(e) => e == ParseError::DataEmpty && forall|x: Animation, k: Seq<u8>|
                    x.wf() ==> #[trigger] x.put_body(k) != old(cur).rest(),
            },
    {
        let width = <u16 as Wire>::read(cur)?;
        let height = <u16 as Wire>::read(cur)?;
        let refresh_interval = <u16 as Wire>::read(cur)?;
        let value = <u8 as Wire>::read(cur)?;
        let enabled = <bool as Wire>::read(cur)?;
        let first_child_index = <u8 as Wire>::read(cur)?;
        let last_child_index = <u8 as Wire>::read(cur)?;
        let default_child_index = <u8 as Wire>::read(cur)?;
        let options = <u8 as Wire>::read(cur)?;
        let object_refs = read_counted8::<ObjectRef>(cur)?;
        let macro_refs = read_counted8::<MacroRef>(cur)?;
        Ok(Animation { id, width, height, refresh_interval, value, enabled, first_child_index, last_child_index, default_child_index, options, object_refs, macro_refs })
    }

    /// Writes the fields that follow the object header.
    pub fn write_body(&self, out: &mut Vec<u8>)
        requires
            self.wf(),
        ensures
            forall|k: Seq<u8>| old(out)@ + #[trigger] self.put_body(k) == final(out)@ + k,
    {
        self.width.write(out);
        self.height.write(out);
        self.refresh_interval.write(out);
        self.value.write(out);
        self.enabled.write(out);
        self.first_child_index.write(out);
        self.last_child_index.write(out);
        self.default_child_index.write(out);
        self.options.write(out);
        write_counted8(&self.object_refs, out);
        write_counted8(&self.macro_refs, out);
    }

    /// The handles of other objects of the pool that this object refers to, in field order.
    pub open spec fn references(&self) -> Seq<ObjectId> {
        ref_ids(self.object_refs@) + macro_ids(self.macro_refs@)
    }

    /// Appends the handles that `references` lists.
    pub fn collect_references(&self, out: &mut Vec<ObjectId>)
        ensures
            final(out)@ == old(out)@ + self.references(),
    {
        let ghost start = out@;
        push_ref_ids(&self.object_refs, out);
        push_macro_ids(&self.macro_refs, out);
        assert(out@ =~= start + self.references());
    }
}

/// Colours that override entries of the default palette.
#[derive(Debug, Clone, PartialEq, Eq)]
pub struct ColourPalette {
    pub id: ObjectId,
    pub options: u16,
    /// On the wire: a two-byte count, then the elements.
    pub colours: Vec<Colour>,
}

impl ColourPalette {
    /// Every counted section fits its count field.
    pub open spec fn wf(&self) -> bool {
        self.colours@.len() <= 0xffff
    }

    /// The fields after the object header, in order, followed by `k`.
    pub open spec fn put_body(&self, k: Seq<u8>) -> Seq<u8> {
        self.options.put(put_counted16(self.colours@, k))
    }

    pub fn is_encodable(&self) -> (r: bool)
        ensures
            r == self.wf(),
    {
        self.colours.len() <= 0xffff
    }

    pub proof fn lemma_body_append(&self, k: Seq<u8>)
        ensures
            self.put_body(k) == self.put_body(Seq::empty()) + k,
    {
        let e = Seq::<u8>::empty();
        let k1 = put_counted16(self.colours@, k);
        let e1 = put_counted16(self.colours@, e);
        lemma_counted16_append(self.colours@, k);
        let k0 = self.options.put(k1);
        let e0 = self.options.put(e1);
        <u16 as Wire>::lemma_put_append(self.options, k1);
        <u16 as Wire>::lemma_put_append(self.options, e1);
        lemma_append_step(self.options.put(e), k0, e0, k1, e1, k);
    }

    /// The fields are fixed by their encoding, and so is where it ends.
    pub proof fn lemma_body_injective(x: ColourPalette, y: ColourPalette, k1: Seq<u8>, k2: Seq<u8>)
        requires
            x.wf(),
            y.wf(),
            x.put_body(k1) == y.put_body(k2),
        ensures
            k1 == k2,
    {
    }

    /// Reads the fields that follow the object header.
    pub fn read_body(cur: &mut Cursor, id: ObjectId) -> (r: Result<ColourPalette, ParseError>)
        requires
            old(cur).wf(),
        ensures
            final(cur).wf(),
            final(cur).data == old(cur).data,
            match r {
                Ok(x) => x.id == id && x.wf() && old(cur).rest() == x.put_body(final(cur).rest()),
                Err(e) => e == ParseError::DataEmpty && forall|x: ColourPalette, k: Seq<u8>|
                    x.wf() ==> #[trigger] x.put_body(k) != old(cur).rest(),
            },
    {
        let options = <u16 as Wire>::read(cur)?;
        let colours = read_counted16::<Colour>(cur)?;
        Ok(ColourPalette { id, options, colours })
    }

    /// Writes the fields that follow the object header.
    pub fn write_body(&self, out: &mut Vec<u8>)
        requires
            self.wf(),
        ensures
            forall|k: Seq<u8>| old(out)@ + #[trigger] self.put_body(k) == final(out)@ + k,
    {
        self.options.write(out);
        write_counted16(&self.colours, out);
    }

    /// The handles of other objects of the pool that this object refers to, in field order.
    pub open spec fn references(&self) -> Seq<ObjectId> {
        Seq::empty()
    }

    /// Appends the handles that `references` lists.
    pub fn collect_references(&self, out: &mut Vec<ObjectId>)
        ensures
            final(out)@ == old(out)@ + self.references(),
    {
        let ghost start = out@;
        assert(out@ =~= start + self.references());
    }
}

/// Raw graphic data in a given format.
#[derive(Debug, Clone, PartialEq, Eq)]
pub struct GraphicData {
    pub id: ObjectId,
    pub format: u8,
    /// On the wire: a four-byte count, then the elements.
    pub data: Vec<u8>,
}

impl GraphicData {
    /// Every counted section fits its count field.
    pub open spec fn wf(&self) -> bool {
        self.data@.len() <= 0xffff_ffff
    }

    /// The fields after the object header, in order, followed by `k`.
    pub open spec fn put_body(&self, k: Seq<u8>) -> Seq<u8> {
        self.format.put(put_counted32(self.data@, k))
    }

    pub fn is_encodable(&self) -> (r: bool)
        ensures
            r == self.wf(),
    {
        self.data.len() <= 0xffff_ffff
    }

    pub proof fn lemma_body_append(&self, k: Seq<u8>)
        ensures
            self.put_body(k) == self.put_body(Seq::empty()) + k,
    {
        let e = Seq::<u8>::empty();
        let k1 = put_counted32(self.data@, k);
        let e1 = put_counted32(self.data@, e);
        lemma_counted32_append(self.data@, k);
        let k0 = self.format.put(k1);
        let e0 = self.format.put(e1);
        <u8 as Wire>::lemma_put_append(self.format, k1);
        <u8 as Wire>::lemma_put_append(self.format, e1);
        lemma_append_step(self.format.put(e), k0, e0, k1, e1, k);
    }

    /// The fields are fixed by their encoding, and so is where it ends.
    pub proof fn lemma_body_injective(x: GraphicData, y: GraphicData, k1: Seq<u8>, k2: Seq<u8>)
        requires
            x.wf(),
            y.wf(),
            x.put_body(k1) == y.put_body(k2),
        ensures
            k1 == k2,
    {
    }

    /// Reads the fields that follow the object header.
    pub fn read_body(cur: &mut Cursor, id: ObjectId) -> (r: Result<GraphicData, ParseError>)
        requires
            old(cur).wf(),
        ensures
            final(cur).wf(),
            final(cur).data == old(cur).data,
            match r {
                Ok(x) => x.id == id && x.wf() && old(cur).rest() == x.put_body(final(cur).rest()),
                Err(e) => e == ParseError::DataEmpty && forall|x: GraphicData, k: Seq<u8>|
                    x.wf() ==> #[trigger] x.put_body(k) != old(cur).rest(),
            },
    {
        let format = <u8 as Wire>::read(cur)?;
        let data = read_counted32::<u8>(cur)?;
        Ok(GraphicData { id, format, data })
    }

    /// Writes the fields that follow the object header.
    pub fn write_body(&self, out: &mut Vec<u8>)
        requires
            self.wf(),
        ensures
            forall|k: Seq<u8>| old(out)@ + #[trigger] self.put_body(k) == final(out)@ + k,
    {
        self.format.write(out);
        write_counted32(&self.data, out);
    }

    /// The handles of other objects of the pool that this object refers to, in field order.
    pub open spec fn references(&self) -> Seq<ObjectId> {
        Seq::empty()
    }

    /// Appends the handles that `references` lists.
    pub fn collect_references(&self, out: &mut Vec<ObjectId>)
        ensures
            final(out)@ == old(out)@ + self.references(),
    {
        let ghost start = out@;
        assert(out@ =~= start + self.references());
    }
}

/// The colour map, palette and languages of the working set.
#[derive(Debug, Clone, PartialEq, Eq)]
pub struct WorkingSetSpecialControls {
    pub id: ObjectId,
    pub id_of_colour_map: ObjectId,
    pub id_of_colour_palette: ObjectId,
    pub language_pairs: Vec<(LanguageCode, LanguageCode)>,
}

impl WorkingSetSpecialControls {
    /// Every counted section fits its count field.
    pub open spec fn wf(&self) -> bool {
        self.language_pairs@.len() <= 0xff
    }

    /// The fields after the object header, in order, followed by `k`.
    pub open spec fn put_body(&self, k: Seq<u8>) -> Seq<u8> {
        self.id_of_colour_map.put(self.id_of_colour_palette.put(put_counted8(self.language_pairs@, k)))
    }

    pub fn is_encodable(&self) -> (r: bool)
        ensures
            r == self.wf(),
    {
        self.language_pairs.len() <= 0xff
    }

    pub proof fn lemma_body_append(&self, k: Seq<u8>)
        ensures
            self.put_body(k) == self.put_body(Seq::empty()) + k,
    {
        let e = Seq::<u8>::empty();
        let k2 = put_counted8(self.language_pairs@, k);
        let e2 = put_counted8(self.language_pairs@, e);
        lemma_counted8_append(self.language_pairs@, k);
        let k1 = self.id_of_colour_palette.put(k2);
        let e1 = self.id_of_colour_palette.put(e2);
        <ObjectId as Wire>::lemma_put_append(self.id_of_colour_palette, k2);
        <ObjectId as Wire>::lemma_put_append(self.id_of_colour_palette, e2);
        lemma_append_step(self.id_of_colour_palette.put(e), k1, e1, k2, e2, k);
        let k0 = self.id_of_colour_map.put(k1);
        let e0 = self.id_of_colour_map.put(e1);
        <ObjectId as Wire>::lemma_put_append(self.id_of_colour_map, k1);
        <ObjectId as Wire>::lemma_put_append(self.id_of_colour_map, e1);
        lemma_append_step(self.id_of_colour_map.put(e), k0, e0, k1, e1, k);
    }

    /// The fields are fixed by their encoding, and so is where it ends.
    pub proof fn lemma_body_injective(x: WorkingSetSpecialControls, y: WorkingSetSpecialControls, k1: Seq<u8>, k2: Seq<u8>)
        requires
            x.wf(),
            y.wf(),
            x.put_body(k1) == y.put_body(k2),
        ensures
            k1 == k2,
    {
    }

    /// Reads the fields that follow the object header.
    pub fn read_body(cur: &mut Cursor, id: ObjectId) -> (r: Result<WorkingSetSpecialControls, ParseError>)
        requires
            old(cur).wf(),
        ensures
            final(cur).wf(),
            final(cur).data == old(cur).data,
            match r {
                Ok(x) => x.id == id && x.wf() && old(cur).rest() == x.put_body(final(cur).rest()),
                Err(e) => e == ParseError::DataEmpty && forall|x: WorkingSetSpecialControls, k: Seq<u8>|
                    x.wf() ==> #[trigger] x.put_body(k) != old(cur).rest(),
            },
    {
        let id_of_colour_map = <ObjectId as Wire>::read(cur)?;
        let id_of_colour_palette = <ObjectId as Wire>::read(cur)?;
        let language_pairs = read_counted8::<(LanguageCode, LanguageCode)>(cur)?;
        Ok(WorkingSetSpecialControls { id, id_of_colour_map, id_of_colour_palette, language_pairs })
    }

    /// Writes the fields that follow the object header.
    pub fn write_body(&self, out: &mut Vec<u8>)
        requires
            self.wf(),
        ensures
            forall|k: Seq<u8>| old(out)@ + #[trigger] self.put_body(k) == final(out)@ + k,
    {
        self.id_of_colour_map.write(out);
        self.id_of_colour_palette.write(out);
        write_counted8(&self.language_pairs, out);
    }

    /// The handles of other objects of the pool that this object refers to, in field order.
    pub open spec fn references(&self) -> Seq<ObjectId> {
        seq![self.id_of_colour_map] + seq![self.id_of_colour_palette]
    }

    /// Appends the handles that `references` lists.
    pub fn collect_references(&self, out: &mut Vec<ObjectId>)
        ensures
            final(out)@ == old(out)@ + self.references(),
    {
        let ghost start = out@;
        out.push(self.id_of_colour_map);
        out.push(self.id_of_colour_palette);
        assert(out@ =~= start + self.references());
    }
}

/// A scale with ticks.
#[derive(Debug, Clone, PartialEq, Eq)]
pub struct ScalesGraphic {
    pub id: ObjectId,
    pub width: u16,
    pub height: u16,
    pub scale_type: u8,
    pub options: u8,
    pub value: u16,
    pub macro_refs: Vec<MacroRef>,
}

impl ScalesGraphic {
    /// Every counted section fits its count field.
    pub open spec fn wf(&self) -> bool {
        self.macro_refs@.len() <= 0xff
    }

    /// The fields after the object header, in order, followed by `k`.
    pub open spec fn put_body(&self, k: Seq<u8>) -> Seq<u8> {
        self.width.put(self.height.put(self.scale_type.put(self.options.put(self.value.put(put_counted8(self.macro_refs@, k))))))
    }

    pub fn is_encodable(&self) -> (r: bool)
        ensures
            r == self.wf(),
    {
        self.macro_refs.len() <= 0xff
    }

    pub proof fn lemma_body_append(&self, k: Seq<u8>)
        ensures
            self.put_body(k) == self.put_body(Seq::empty()) + k,
    {
        let e = Seq::<u8>::empty();
        let k5 = put_counted8(self.macro_refs@, k);
        let e5 = put_counted8(self.macro_refs@, e);
        lemma_counted8_append(self.macro_refs@, k);
        let k4 = self.value.put(k5);
        let e4 = self.value.put(e5);
        <u16 as Wire>::lemma_put_append(self.value, k5);
        <u16 as Wire>::lemma_put_append(self.value, e5);
        lemma_append_step(self.value.put(e), k4, e4, k5, e5, k);
        let k3 = self.options.put(k4);
        let e3 = self.options.put(e4);
        <u8 as Wire>::lemma_put_append(self.options, k4);
        <u8 as Wire>::lemma_put_append(self.options, e4);
        lemma_append_step(self.options.put(e), k3, e3, k4, e4, k);
        let k2 = self.scale_type.put(k3);
        let e2 = self.scale_type.put(e3);
        <u8 as Wire>::lemma_put_append(self.scale_type, k3);
        <u8 as Wire>::lemma_put_append(self.scale_type, e3);
        lemma_append_step(self.scale_type.put(e), k2, e2, k3, e3, k);
        let k1 = self.height.put(k2);
        let e1 = self.height.put(e2);
        <u16 as Wire>::lemma_put_append(self.height, k2);
        <u16 as Wire>::lemma_put_append(self.height, e2);
        lemma_append_step(self.height.put(e), k1, e1, k2, e2, k);
        let k0 = self.width.put(k1);
        let e0 = self.width.put(e1);
        <u16 as Wire>::lemma_put_append(self.width, k1);
        <u16 as Wire>::lemma_put_append(self.width, e1);
        lemma_append_step(self.width.put(e), k0, e0, k1, e1, k);
    }

    /// The fields are fixed by their encoding, and so is where it ends.
    pub proof fn lemma_body_injective(x: ScalesGraphic, y: ScalesGraphic, k1: Seq<u8>, k2: Seq<u8>)
        requires
            x.wf(),
            y.wf(),
            x.put_body(k1) == y.put_body(k2),
        ensures
            k1 == k2,
    {
    }

    /// Reads the fields that follow the object header.
    pub fn read_body(cur: &mut Cursor, id: ObjectId) -> (r: Result<ScalesGraphic, ParseError>)
        requires
            old(cur).wf(),
        ensures
            final(cur).wf(),
            final(cur).data == old(cur).data,
            match r {
                Ok(x) => x.id == id && x.wf() && old(cur).rest() == x.put_body(final(cur).rest()),
                Err(e) => e == ParseError::DataEmpty && forall|x: ScalesGraphic, k: Seq<u8>|
                    x.wf() ==> #[trigger] x.put_body(k) != old(cur).rest(),
            },
    {
        let width = <u16 as Wire>::read(cur)?;
        let height = <u16 as Wire>::read(cur)?;
        let scale_type = <u8 as Wire>::read(cur)?;
        let options = <u8 as Wire>::read(cur)?;
        let value = <u16 as Wire>::read(cur)?;
        let macro_refs = read_counted8::<MacroRef>(cur)?;
        Ok(ScalesGraphic { id, width, height, scale_type, options, value, macro_refs })
    }

    /// Writes the fields that follow the object header.
    pub fn write_body(&self, out: &mut Vec<u8>)
        requires
            self.wf(),
        ensures
            forall|k: Seq<u8>| old(out)@ + #[trigger] self.put_body(k) == final(out)@ + k,
    {
        self.width.write(out);
        self.height.write(out);
        self.scale_type.write(out);
        self.options.write(out);
        self.value.write(out);
        write_counted8(&self.macro_refs, out);
    }

    /// The handles of other objects of the pool that this object refers to, in field order.
    pub open spec fn references(&self) -> Seq<ObjectId> {
        macro_ids(self.macro_refs@)
    }

    /// Appends the handles that `references` lists.
    pub fn collect_references(&self, out: &mut Vec<ObjectId>)
        ensures
            final(out)@ == old(out)@ + self.references(),
    {
        let ghost start = out@;
        push_macro_ids(&self.macro_refs, out);
        assert(out@ =~= start + self.references());
    }
}

/// One object of a pool: a closed union over every object kind.
#[derive(Debug, Clone, PartialEq, Eq)]
pub enum Object {
    WorkingSet(WorkingSet),
    DataMask(DataMask),
    AlarmMask(AlarmMask),
    Container(Container),
    SoftKeyMask(SoftKeyMask),
    Key(Key),
    Button(Button),
    InputBoolean(InputBoolean),
    InputString(InputString),
    InputNumber(InputNumber),
    InputList(InputList),
    OutputString(OutputString),
    OutputNumber(OutputNumber),
    OutputLine(OutputLine),
    OutputRectangle(OutputRectangle),
    OutputEllipse(OutputEllipse),
    OutputPolygon(OutputPolygon),
    OutputMeter(OutputMeter),
    OutputLinearBarGraph(OutputLinearBarGraph),
    OutputArchedBarGraph(OutputArchedBarGraph),
    PictureGraphic(PictureGraphic),
    NumberVariable(NumberVariable),
    StringVariable(StringVariable),
    FontAttributes(FontAttributes),
    LineAttributes(LineAttributes),
    FillAttributes(FillAttributes),
    InputAttributes(InputAttributes),
    ObjectPointer(ObjectPointer),
    Macro(Macro),
    AuxiliaryFunctionType1(AuxiliaryFunctionType1),
    AuxiliaryInputType1(AuxiliaryInputType1),
    AuxiliaryFunctionType2(AuxiliaryFunctionType2),
    AuxiliaryInputType2(AuxiliaryInputType2),
    AuxiliaryControlDesignatorType2(AuxiliaryControlDesignatorType2),
    WindowMask(WindowMask),
    KeyGroup(KeyGroup),
    GraphicsContext(GraphicsContext),
    OutputList(OutputList),
    ExtendedInputAttributes(ExtendedInputAttributes),
    ColourMap(ColourMap),
    ObjectLabelReferenceList(ObjectLabelReferenceList),
    ExternalObjectDefinition(ExternalObjectDefinition),
    ExternalReferenceName(ExternalReferenceName),
    ExternalObjectPointer(ExternalObjectPointer),
    Animation(Animation),
    ColourPalette(ColourPalette),
    GraphicData(GraphicData),
    WorkingSetSpecialControls(WorkingSetSpecialControls),
    ScalesGraphic(ScalesGraphic),
}

impl Object {
    pub open spec fn id_spec(&self) -> ObjectId {
        match self {
            Object::WorkingSet(o) => o.id,
            Object::DataMask(o) => o.id,
            Object::AlarmMask(o) => o.id,
            Object::Container(o) => o.id,
            Object::SoftKeyMask(o) => o.id,
            Object::Key(o) => o.id,
            Object::Button(o) => o.id,
            Object::InputBoolean(o) => o.id,
            Object::InputString(o) => o.id,
            Object::InputNumber(o) => o.id,
            Object::InputList(o) => o.id,
            Object::OutputString(o) => o.id,
            Object::OutputNumber(o) => o.id,
            Object::OutputLine(o) => o.id,
            Object::OutputRectangle(o) => o.id,
            Object::OutputEllipse(o) => o.id,
            Object::OutputPolygon(o) => o.id,
            Object::OutputMeter(o) => o.id,
            Object::OutputLinearBarGraph(o) => o.id,
            Object::OutputArchedBarGraph(o) => o.id,
            Object::PictureGraphic(o) => o.id,
            Object::NumberVariable(o) => o.id,
            Object::StringVariable(o) => o.id,
            Object::FontAttributes(o) => o.id,
            Object::LineAttributes(o) => o.id,
            Object::FillAttributes(o) => o.id,
            Object::InputAttributes(o) => o.id,
            Object::ObjectPointer(o) => o.id,
            Object::Macro(o) => o.id,
            Object::AuxiliaryFunctionType1(o) => o.id,
            Object::AuxiliaryInputType1(o) => o.id,
            Object::AuxiliaryFunctionType2(o) => o.id,
            Object::AuxiliaryInputType2(o) => o.id,
            Object::AuxiliaryControlDesignatorType2(o) => o.id,
            Object::WindowMask(o) => o.id,
            Object::KeyGroup(o) => o.id,
            Object::GraphicsContext(o) => o.id,
            Object::OutputList(o) => o.id,
            Object::ExtendedInputAttributes(o) => o.id,
            Object::ColourMap(o) => o.id,
            Object::ObjectLabelReferenceList(o) => o.id,
            Object::ExternalObjectDefinition(o) => o.id,
            Object::ExternalReferenceName(o) => o.id,
            Object::ExternalObjectPointer(o) => o.id,
            Object::Animation(o) => o.id,
            Object::ColourPalette(o) => o.id,
            Object::GraphicData(o) => o.id,
            Object::WorkingSetSpecialControls(o) => o.id,
            Object::ScalesGraphic(o) => o.id,
        }
    }

    pub open spec fn kind(&self) -> ObjectType {
        match self {
            Object::WorkingSet(_) => ObjectType::WorkingSet,
            Object::DataMask(_) => ObjectType::DataMask,
            Object::AlarmMask(_) => ObjectType::AlarmMask,
            Object::Container(_) => ObjectType::Container,
            Object::SoftKeyMask(_) => ObjectType::SoftKeyMask,
            Object::Key(_) => ObjectType::Key,
            Object::Button(_) => ObjectType::Button,
            Object::InputBoolean(_) => ObjectType::InputBoolean,
            Object::InputString(_) => ObjectType::InputString,
            Object::InputNumber(_) => ObjectType::InputNumber,
            Object::InputList(_) => ObjectType::InputList,
            Object::OutputString(_) => ObjectType::OutputString,
            Object::OutputNumber(_) => ObjectType::OutputNumber,
            Object::OutputLine(_) => ObjectType::OutputLine,
            Object::OutputRectangle(_) => ObjectType::OutputRectangle,
            Object::OutputEllipse(_) => ObjectType::OutputEllipse,
            Object::OutputPolygon(_) => ObjectType::OutputPolygon,
            Object::OutputMeter(_) => ObjectType::OutputMeter,
            Object::OutputLinearBarGraph(_) => ObjectType::OutputLinearBarGraph,
            Object::OutputArchedBarGraph(_) => ObjectType::OutputArchedBarGraph,
            Object::PictureGraphic(_) => ObjectType::PictureGraphic,
            Object::NumberVariable(_) => ObjectType::NumberVariable,
            Object::StringVariable(_) => ObjectType::StringVariable,
            Object::FontAttributes(_) => ObjectType::FontAttributes,
            Object::LineAttributes(_) => ObjectType::LineAttributes,
            Object::FillAttributes(_) => ObjectType::FillAttributes,
            Object::InputAttributes(_) => ObjectType::InputAttributes,
            Object::ObjectPointer(_) => ObjectType::ObjectPointer,
            Object::Macro(_) => ObjectType::Macro,
            Object::AuxiliaryFunctionType1(_) => ObjectType::AuxiliaryFunctionType1,
            Object::AuxiliaryInputType1(_) => ObjectType::AuxiliaryInputType1,
            Object::AuxiliaryFunctionType2(_) => ObjectType::AuxiliaryFunctionType2,
            Object::AuxiliaryInputType2(_) => ObjectType::AuxiliaryInputType2,
            Object::AuxiliaryControlDesignatorType2(_) => ObjectType::AuxiliaryControlDesignatorType2,
            Object::WindowMask(_) => ObjectType::WindowMask,
            Object::KeyGroup(_) => ObjectType::KeyGroup,
            Object::GraphicsContext(_) => ObjectType::GraphicsContext,
            Object::OutputList(_) => ObjectType::OutputList,
            Object::ExtendedInputAttributes(_) => ObjectType::ExtendedInputAttributes,
            Object::ColourMap(_) => ObjectType::ColourMap,
            Object::ObjectLabelReferenceList(_) => ObjectType::ObjectLabelReferenceList,
            Object::ExternalObjectDefinition(_) => ObjectType::ExternalObjectDefinition,
            Object::ExternalReferenceName(_) => ObjectType::ExternalReferenceName,
            Object::ExternalObjectPointer(_) => ObjectType::ExternalObjectPointer,
            Object::Animation(_) => ObjectType::Animation,
            Object::ColourPalette(_) => ObjectType::ColourPalette,
            Object::GraphicData(_) => ObjectType::GraphicData,
            Object::WorkingSetSpecialControls(_) => ObjectType::WorkingSetSpecialControls,
            Object::ScalesGraphic(_) => ObjectType::ScalesGraphic,
        }
    }

    /// Every counted section fits its count field.
    pub open spec fn wf(&self) -> bool {
        match self {
            Object::WorkingSet(o) => o.wf(),
            Object::DataMask(o) => o.wf(),
            Object::AlarmMask(o) => o.wf(),
            Object::Container(o) => o.wf(),
            Object::SoftKeyMask(o) => o.wf(),
            Object::Key(o) => o.wf(),
            Object::Button(o) => o.wf(),
            Object::InputBoolean(o) => o.wf(),
            Object::InputString(o) => o.wf(),
            Object::InputNumber(o) => o.wf(),
            Object::InputList(o) => o.wf(),
            Object::OutputString(o) => o.wf(),
            Object::OutputNumber(o) => o.wf(),
            Object::OutputLine(o) => o.wf(),
            Object::OutputRectangle(o) => o.wf(),
            Object::OutputEllipse(o) => o.wf(),
            Object::OutputPolygon(o) => o.wf(),
            Object::OutputMeter(o) => o.wf(),
            Object::OutputLinearBarGraph(o) => o.wf(),
            Object::OutputArchedBarGraph(o) => o.wf(),
            Object::PictureGraphic(o) => o.wf(),
            Object::NumberVariable(o) => o.wf(),
            Object::StringVariable(o) => o.wf(),
            Object::FontAttributes(o) => o.wf(),
            Object::LineAttributes(o) => o.wf(),
            Object::FillAttributes(o) => o.wf(),
            Object::InputAttributes(o) => o.wf(),
            Object::ObjectPointer(o) => o.wf(),
            Object::Macro(o) => o.wf(),
            Object::AuxiliaryFunctionType1(o) => o.wf(),
            Object::AuxiliaryInputType1(o) => o.wf(),
            Object::AuxiliaryFunctionType2(o) => o.wf(),
            Object::AuxiliaryInputType2(o) => o.wf(),
            Object::AuxiliaryControlDesignatorType2(o) => o.wf(),
            Object::WindowMask(o) => o.wf(),
            Object::KeyGroup(o) => o.wf(),
            Object::GraphicsContext(o) => o.wf(),
            Object::OutputList(o) => o.wf(),
            Object::ExtendedInputAttributes(o) => o.wf(),
            Object::ColourMap(o) => o.wf(),
            Object::ObjectLabelReferenceList(o) => o.wf(),
            Object::ExternalObjectDefinition(o) => o.wf(),
            Object::ExternalReferenceName(o) => o.wf(),
            Object::ExternalObjectPointer(o) => o.wf(),
            Object::Animation(o) => o.wf(),
            Object::ColourPalette(o) => o.wf(),
            Object::GraphicData(o) => o.wf(),
            Object::WorkingSetSpecialControls(o) => o.wf(),
            Object::ScalesGraphic(o) => o.wf(),
        }
    }

    pub open spec fn put_body(&self, k: Seq<u8>) -> Seq<u8> {
        match self {
            Object::WorkingSet(o) => o.put_body(k),
            Object::DataMask(o) => o.put_body(k),
            Object::AlarmMask(o) => o.put_body(k),
            Object::Container(o) => o.put_body(k),
            Object::SoftKeyMask(o) => o.put_body(k),
            Object::Key(o) => o.put_body(k),
            Object::Button(o) => o.put_body(k),
            Object::InputBoolean(o) => o.put_body(k),
            Object::InputString(o) => o.put_body(k),
            Object::InputNumber(o) => o.put_body(k),
            Object::InputList(o) => o.put_body(k),
            Object::OutputString(o) => o.put_body(k),
            Object::OutputNumber(o) => o.put_body(k),
            Object::OutputLine(o) => o.put_body(k),
            Object::OutputRectangle(o) => o.put_body(k),
            Object::OutputEllipse(o) => o.put_body(k),
            Object::OutputPolygon(o) => o.put_body(k),
            Object::OutputMeter(o) => o.put_body(k),
            Object::OutputLinearBarGraph(o) => o.put_body(k),
            Object::OutputArchedBarGraph(o) => o.put_body(k),
            Object::PictureGraphic(o) => o.put_body(k),
            Object::NumberVariable(o) => o.put_body(k),
            Object::StringVariable(o) => o.put_body(k),
            Object::FontAttributes(o) => o.put_body(k),
            Object::LineAttributes(o) => o.put_body(k),
            Object::FillAttributes(o) => o.put_body(k),
            Object::InputAttributes(o) => o.put_body(k),
            Object::ObjectPointer(o) => o.put_body(k),
            Object::Macro(o) => o.put_body(k),
            Object::AuxiliaryFunctionType1(o) => o.put_body(k),
            Object::AuxiliaryInputType1(o) => o.put_body(k),
            Object::AuxiliaryFunctionType2(o) => o.put_body(k),
            Object::AuxiliaryInputType2(o) => o.put_body(k),
            Object::AuxiliaryControlDesignatorType2(o) => o.put_body(k),
            Object::WindowMask(o) => o.put_body(k),
            Object::KeyGroup(o) => o.put_body(k),
            Object::GraphicsContext(o) => o.put_body(k),
            Object::OutputList(o) => o.put_body(k),
            Object::ExtendedInputAttributes(o) => o.put_body(k),
            Object::ColourMap(o) => o.put_body(k),
            Object::ObjectLabelReferenceList(o) => o.put_body(k),
            Object::ExternalObjectDefinition(o) => o.put_body(k),
            Object::ExternalReferenceName(o) => o.put_body(k),
            Object::ExternalObjectPointer(o) => o.put_body(k),
            Object::Animation(o) => o.put_body(k),
            Object::ColourPalette(o) => o.put_body(k),
            Object::GraphicData(o) => o.put_body(k),
            Object::WorkingSetSpecialControls(o) => o.put_body(k),
            Object::ScalesGraphic(o) => o.put_body(k),
        }
    }

    /// The object's record, `[id: u16 LE][type: u8][fields...]`, followed by `k`.
    pub open spec fn encode_into(&self, k: Seq<u8>) -> Seq<u8> {
        self.id_spec().put(self.kind().tag().put(self.put_body(k)))
    }

    /// The object's record on the wire.
    pub open spec fn encoding(&self) -> Seq<u8> {
        self.encode_into(Seq::empty())
    }

    pub open spec fn references(&self) -> Seq<ObjectId> {
        match self {
            Object::WorkingSet(o) => o.references(),
            Object::DataMask(o) => o.references(),
            Object::AlarmMask(o) => o.references(),
            Object::Container(o) => o.references(),
            Object::SoftKeyMask(o) => o.references(),
            Object::Key(o) => o.references(),
            Object::Button(o) => o.references(),
            Object::InputBoolean(o) => o.references(),
            Object::InputString(o) => o.references(),
            Object::InputNumber(o) => o.references(),
            Object::InputList(o) => o.references(),
            Object::OutputString(o) => o.references(),
            Object::OutputNumber(o) => o.references(),
            Object::OutputLine(o) => o.references(),
            Object::OutputRectangle(o) => o.references(),
            Object::OutputEllipse(o) => o.references(),
            Object::OutputPolygon(o) => o.references(),
            Object::OutputMeter(o) => o.references(),
            Object::OutputLinearBarGraph(o) => o.references(),
            Object::OutputArchedBarGraph(o) => o.references(),
            Object::PictureGraphic(o) => o.references(),
            Object::NumberVariable(o) => o.references(),
            Object::StringVariable(o) => o.references(),
            Object::FontAttributes(o) => o.references(),
            Object::LineAttributes(o) => o.references(),
            Object::FillAttributes(o) => o.references(),
            Object::InputAttributes(o) => o.references(),
            Object::ObjectPointer(o) => o.references(),
            Object::Macro(o) => o.references(),
            Object::AuxiliaryFunctionType1(o) => o.references(),
            Object::AuxiliaryInputType1(o) => o.references(),
            Object::AuxiliaryFunctionType2(o) => o.references(),
            Object::AuxiliaryInputType2(o) => o.references(),
            Object::AuxiliaryControlDesignatorType2(o) => o.references(),
            Object::WindowMask(o) => o.references(),
            Object::KeyGroup(o) => o.references(),
            Object::GraphicsContext(o) => o.references(),
            Object::OutputList(o) => o.references(),
            Object::ExtendedInputAttributes(o) => o.references(),
            Object::ColourMap(o) => o.references(),
            Object::ObjectLabelReferenceList(o) => o.references(),
            Object::ExternalObjectDefinition(o) => o.references(),
            Object::ExternalReferenceName(o) => o.references(),
            Object::ExternalObjectPointer(o) => o.references(),
            Object::Animation(o) => o.references(),
            Object::ColourPalette(o) => o.references(),
            Object::GraphicData(o) => o.references(),
            Object::WorkingSetSpecialControls(o) => o.references(),
            Object::ScalesGraphic(o) => o.references(),
        }
    }

    pub fn id(&self) -> (r: ObjectId)
        ensures
            r == self.id_spec(),
    {
        match self {
            Object::WorkingSet(o) => o.id,
            Object::DataMask(o) => o.id,
            Object::AlarmMask(o) => o.id,
            Object::Container(o) => o.id,
            Object::SoftKeyMask(o) => o.id,
            Object::Key(o) => o.id,
            Object::Button(o) => o.id,
            Object::InputBoolean(o) => o.id,
            Object::InputString(o) => o.id,
            Object::InputNumber(o) => o.id,
            Object::InputList(o) => o.id,
            Object::OutputString(o) => o.id,
            Object::OutputNumber(o) => o.id,
            Object::OutputLine(o) => o.id,
            Object::OutputRectangle(o) => o.id,
            Object::OutputEllipse(o) => o.id,
            Object::OutputPolygon(o) => o.id,
            Object::OutputMeter(o) => o.id,
            Object::OutputLinearBarGraph(o) => o.id,
            Object::OutputArchedBarGraph(o) => o.id,
            Object::PictureGraphic(o) => o.id,
            Object::NumberVariable(o) => o.id,
            Object::StringVariable(o) => o.id,
            Object::FontAttributes(o) => o.id,
            Object::LineAttributes(o) => o.id,
            Object::FillAttributes(o) => o.id,
            Object::InputAttributes(o) => o.id,
            Object::ObjectPointer(o) => o.id,
            Object::Macro(o) => o.id,
            Object::AuxiliaryFunctionType1(o) => o.id,
            Object::AuxiliaryInputType1(o) => o.id,
            Object::AuxiliaryFunctionType2(o) => o.id,
            Object::AuxiliaryInputType2(o) => o.id,
            Object::AuxiliaryControlDesignatorType2(o) => o.id,
            Object::WindowMask(o) => o.id,
            Object::KeyGroup(o) => o.id,
            Object::GraphicsContext(o) => o.id,
            Object::OutputList(o) => o.id,
            Object::ExtendedInputAttributes(o) => o.id,
            Object::ColourMap(o) => o.id,
            Object::ObjectLabelReferenceList(o) => o.id,
            Object::ExternalObjectDefinition(o) => o.id,
            Object::ExternalReferenceName(o) => o.id,
            Object::ExternalObjectPointer(o) => o.id,
            Object::Animation(o) => o.id,
            Object::ColourPalette(o) => o.id,
            Object::GraphicData(o) => o.id,
            Object::WorkingSetSpecialControls(o) => o.id,
            Object::ScalesGraphic(o) => o.id,
        }
    }

    pub fn object_type(&self) -> (r: ObjectType)
        ensures
            r == self.kind(),
    {
        match self {
            Object::WorkingSet(_) => ObjectType::WorkingSet,
            Object::DataMask(_) => ObjectType::DataMask,
            Object::AlarmMask(_) => ObjectType::AlarmMask,
            Object::Container(_) => ObjectType::Container,
            Object::SoftKeyMask(_) => ObjectType::SoftKeyMask,
            Object::Key(_) => ObjectType::Key,
            Object::Button(_) => ObjectType::Button,
            Object::InputBoolean(_) => ObjectType::InputBoolean,
            Object::InputString(_) => ObjectType::InputString,
            Object::InputNumber(_) => ObjectType::InputNumber,
            Object::InputList(_) => ObjectType::InputList,
            Object::OutputString(_) => ObjectType::OutputString,
            Object::OutputNumber(_) => ObjectType::OutputNumber,
            Object::OutputLine(_) => ObjectType::OutputLine,
            Object::OutputRectangle(_) => ObjectType::OutputRectangle,
            Object::OutputEllipse(_) => ObjectType::OutputEllipse,
            Object::OutputPolygon(_) => ObjectType::OutputPolygon,
            Object::OutputMeter(_) => ObjectType::OutputMeter,
            Object::OutputLinearBarGraph(_) => ObjectType::OutputLinearBarGraph,
            Object::OutputArchedBarGraph(_) => ObjectType::OutputArchedBarGraph,
            Object::PictureGraphic(_) => ObjectType::PictureGraphic,
            Object::NumberVariable(_) => ObjectType::NumberVariable,
            Object::StringVariable(_) => ObjectType::StringVariable,
            Object::FontAttributes(_) => ObjectType::FontAttributes,
            Object::LineAttributes(_) => ObjectType::LineAttributes,
            Object::FillAttributes(_) => ObjectType::FillAttributes,
            Object::InputAttributes(_) => ObjectType::InputAttributes,
            Object::ObjectPointer(_) => ObjectType::ObjectPointer,
            Object::Macro(_) => ObjectType::Macro,
            Object::AuxiliaryFunctionType1(_) => ObjectType::AuxiliaryFunctionType1,
            Object::AuxiliaryInputType1(_) => ObjectType::AuxiliaryInputType1,
            Object::AuxiliaryFunctionType2(_) => ObjectType::AuxiliaryFunctionType2,
            Object::AuxiliaryInputType2(_) => ObjectType::AuxiliaryInputType2,
            Object::AuxiliaryControlDesignatorType2(_) => ObjectType::AuxiliaryControlDesignatorType2,
            Object::WindowMask(_) => ObjectType::WindowMask,
            Object::KeyGroup(_) => ObjectType::KeyGroup,
            Object::GraphicsContext(_) => ObjectType::GraphicsContext,
            Object::OutputList(_) => ObjectType::OutputList,
            Object::ExtendedInputAttributes(_) => ObjectType::ExtendedInputAttributes,
            Object::ColourMap(_) => ObjectType::ColourMap,
            Object::ObjectLabelReferenceList(_) => ObjectType::ObjectLabelReferenceList,
            Object::ExternalObjectDefinition(_) => ObjectType::ExternalObjectDefinition,
            Object::ExternalReferenceName(_) => ObjectType::ExternalReferenceName,
            Object::ExternalObjectPointer(_) => ObjectType::ExternalObjectPointer,
            Object::Animation(_) => ObjectType::Animation,
            Object::ColourPalette(_) => ObjectType::ColourPalette,
            Object::GraphicData(_) => ObjectType::GraphicData,
            Object::WorkingSetSpecialControls(_) => ObjectType::WorkingSetSpecialControls,
            Object::ScalesGraphic(_) => ObjectType::ScalesGraphic,
        }
    }

    /// Whether every counted section fits its count field, so that the
    /// object can be written.
    pub fn is_encodable(&self) -> (r: bool)
        ensures
            r == self.wf(),
    {
        match self {
            Object::WorkingSet(o) => o.is_encodable(),
            Object::DataMask(o) => o.is_encodable(),
            Object::AlarmMask(o) => o.is_encodable(),
            Object::Container(o) => o.is_encodable(),
            Object::SoftKeyMask(o) => o.is_encodable(),
            Object::Key(o) => o.is_encodable(),
            Object::Button(o) => o.is_encodable(),
            Object::InputBoolean(o) => o.is_encodable(),
            Object::InputString(o) => o.is_encodable(),
            Object::InputNumber(o) => o.is_encodable(),
            Object::InputList(o) => o.is_encodable(),
            Object::OutputString(o) => o.is_encodable(),
            Object::OutputNumber(o) => o.is_encodable(),
            Object::OutputLine(o) => o.is_encodable(),
            Object::OutputRectangle(o) => o.is_encodable(),
            Object::OutputEllipse(o) => o.is_encodable(),
            Object::OutputPolygon(o) => o.is_encodable(),
            Object::OutputMeter(o) => o.is_encodable(),
            Object::OutputLinearBarGraph(o) => o.is_encodable(),
            Object::OutputArchedBarGraph(o) => o.is_encodable(),
            Object::PictureGraphic(o) => o.is_encodable(),
            Object::NumberVariable(o) => o.is_encodable(),
            Object::StringVariable(o) => o.is_encodable(),
            Object::FontAttributes(o) => o.is_encodable(),
            Object::LineAttributes(o) => o.is_encodable(),
            Object::FillAttributes(o) => o.is_encodable(),
            Object::InputAttributes(o) => o.is_encodable(),
            Object::ObjectPointer(o) => o.is_encodable(),
            Object::Macro(o) => o.is_encodable(),
            Object::AuxiliaryFunctionType1(o) => o.is_encodable(),
            Object::AuxiliaryInputType1(o) => o.is_encodable(),
            Object::AuxiliaryFunctionType2(o) => o.is_encodable(),
            Object::AuxiliaryInputType2(o) => o.is_encodable(),
            Object::AuxiliaryControlDesignatorType2(o) => o.is_encodable(),
            Object::WindowMask(o) => o.is_encodable(),
            Object::KeyGroup(o) => o.is_encodable(),
            Object::GraphicsContext(o) => o.is_encodable(),
            Object::OutputList(o) => o.is_encodable(),
            Object::ExtendedInputAttributes(o) => o.is_encodable(),
            Object::ColourMap(o) => o.is_encodable(),
            Object::ObjectLabelReferenceList(o) => o.is_encodable(),
            Object::ExternalObjectDefinition(o) => o.is_encodable(),
            Object::ExternalReferenceName(o) => o.is_encodable(),
            Object::ExternalObjectPointer(o) => o.is_encodable(),
            Object::Animation(o) => o.is_encodable(),
            Object::ColourPalette(o) => o.is_encodable(),
            Object::GraphicData(o) => o.is_encodable(),
            Object::WorkingSetSpecialControls(o) => o.is_encodable(),
            Object::ScalesGraphic(o) => o.is_encodable(),
        }
    }

    /// Appends the handles that `references` lists.
    pub fn collect_references(&self, out: &mut Vec<ObjectId>)
        ensures
            final(out)@ == old(out)@ + self.references(),
    {
        match self {
            Object::WorkingSet(o) => o.collect_references(out),
            Object::DataMask(o) => o.collect_references(out),
            Object::AlarmMask(o) => o.collect_references(out),
            Object::Container(o) => o.collect_references(out),
            Object::SoftKeyMask(o) => o.collect_references(out),
            Object::Key(o) => o.collect_references(out),
            Object::Button(o) => o.collect_references(out),
            Object::InputBoolean(o) => o.collect_references(out),
            Object::InputString(o) => o.collect_references(out),
            Object::InputNumber(o) => o.collect_references(out),
            Object::InputList(o) => o.collect_references(out),
            Object::OutputString(o) => o.collect_references(out),
            Object::OutputNumber(o) => o.collect_references(out),
            Object::OutputLine(o) => o.collect_references(out),
            Object::OutputRectangle(o) => o.collect_references(out),
            Object::OutputEllipse(o) => o.collect_references(out),
            Object::OutputPolygon(o) => o.collect_references(out),
            Object::OutputMeter(o) => o.collect_references(out),
            Object::OutputLinearBarGraph(o) => o.collect_references(out),
            Object::OutputArchedBarGraph(o) => o.collect_references(out),
            Object::PictureGraphic(o) => o.collect_references(out),
            Object::NumberVariable(o) => o.collect_references(out),
            Object::StringVariable(o) => o.collect_references(out),
            Object::FontAttributes(o) => o.collect_references(out),
            Object::LineAttributes(o) => o.collect_references(out),
            Object::FillAttributes(o) => o.collect_references(out),
            Object::InputAttributes(o) => o.collect_references(out),
            Object::ObjectPointer(o) => o.collect_references(out),
            Object::Macro(o) => o.collect_references(out),
            Object::AuxiliaryFunctionType1(o) => o.collect_references(out),
            Object::AuxiliaryInputType1(o) => o.collect_references(out),
            Object::AuxiliaryFunctionType2(o) => o.collect_references(out),
            Object::AuxiliaryInputType2(o) => o.collect_references(out),
            Object::AuxiliaryControlDesignatorType2(o) => o.collect_references(out),
            Object::WindowMask(o) => o.collect_references(out),
            Object::KeyGroup(o) => o.collect_references(out),
            Object::GraphicsContext(o) => o.collect_references(out),
            Object::OutputList(o) => o.collect_references(out),
            Object::ExtendedInputAttributes(o) => o.collect_references(out),
            Object::ColourMap(o) => o.collect_references(out),
            Object::ObjectLabelReferenceList(o) => o.collect_references(out),
            Object::ExternalObjectDefinition(o) => o.collect_references(out),
            Object::ExternalReferenceName(o) => o.collect_references(out),
            Object::ExternalObjectPointer(o) => o.collect_references(out),
            Object::Animation(o) => o.collect_references(out),
            Object::ColourPalette(o) => o.collect_references(out),
            Object::GraphicData(o) => o.collect_references(out),
            Object::WorkingSetSpecialControls(o) => o.collect_references(out),
            Object::ScalesGraphic(o) => o.collect_references(out),
        }
    }

    proof fn lemma_body_injective(o1: Object, o2: Object, k1: Seq<u8>, k2: Seq<u8>)
        requires
            o1.wf(),
            o2.wf(),
            o1.kind() == o2.kind(),
            o1.put_body(k1) == o2.put_body(k2),
        ensures
            k1 == k2,
    {
        match o1 {
            Object::WorkingSet(x) => if let Object::WorkingSet(y) = o2 {
                WorkingSet::lemma_body_injective(x, y, k1, k2);
            },
            Object::DataMask(x) => if let Object::DataMask(y) = o2 {
                DataMask::lemma_body_injective(x, y, k1, k2);
            },
            Object::AlarmMask(x) => if let Object::AlarmMask(y) = o2 {
                AlarmMask::lemma_body_injective(x, y, k1, k2);
            },
            Object::Container(x) => if let Object::Container(y) = o2 {
                Container::lemma_body_injective(x, y, k1, k2);
            },
            Object::SoftKeyMask(x) => if let Object::SoftKeyMask(y) = o2 {
                SoftKeyMask::lemma_body_injective(x, y, k1, k2);
            },
            Object::Key(x) => if let Object::Key(y) = o2 {
                Key::lemma_body_injective(x, y, k1, k2);
            },
            Object::Button(x) => if let Object::Button(y) = o2 {
                Button::lemma_body_injective(x, y, k1, k2);
            },
            Object::InputBoolean(x) => if let Object::InputBoolean(y) = o2 {
                InputBoolean::lemma_body_injective(x, y, k1, k2);
            },
            Object::InputString(x) => if let Object::InputString(y) = o2 {
                InputString::lemma_body_injective(x, y, k1, k2);
            },
            Object::InputNumber(x) => if let Object::InputNumber(y) = o2 {
                InputNumber::lemma_body_injective(x, y, k1, k2);
            },
            Object::InputList(x) => if let Object::InputList(y) = o2 {
                InputList::lemma_body_injective(x, y, k1, k2);
            },
            Object::OutputString(x) => if let Object::OutputString(y) = o2 {
                OutputString::lemma_body_injective(x, y, k1, k2);
            },
            Object::OutputNumber(x) => if let Object::OutputNumber(y) = o2 {
                OutputNumber::lemma_body_injective(x, y, k1, k2);
            },
            Object::OutputLine(x) => if let Object::OutputLine(y) = o2 {
                OutputLine::lemma_body_injective(x, y, k1, k2);
            },
            Object::OutputRectangle(x) => if let Object::OutputRectangle(y) = o2 {
                OutputRectangle::lemma_body_injective(x, y, k1, k2);
            },
            Object::OutputEllipse(x) => if let Object::OutputEllipse(y) = o2 {
                OutputEllipse::lemma_body_injective(x, y, k1, k2);
            },
            Object::OutputPolygon(x) => if let Object::OutputPolygon(y) = o2 {
                OutputPolygon::lemma_body_injective(x, y, k1, k2);
            },
            Object::OutputMeter(x) => if let Object::OutputMeter(y) = o2 {
                OutputMeter::lemma_body_injective(x, y, k1, k2);
            },
            Object::OutputLinearBarGraph(x) => if let Object::OutputLinearBarGraph(y) = o2 {
                OutputLinearBarGraph::lemma_body_injective(x, y, k1, k2);
            },
            Object::OutputArchedBarGraph(x) => if let Object::OutputArchedBarGraph(y) = o2 {
                OutputArchedBarGraph::lemma_body_injective(x, y, k1, k2);
            },
            Object::PictureGraphic(x) => if let Object::PictureGraphic(y) = o2 {
                PictureGraphic::lemma_body_injective(x, y, k1, k2);
            },
            Object::NumberVariable(x) => if let Object::NumberVariable(y) = o2 {
                NumberVariable::lemma_body_injective(x, y, k1, k2);
            },
            Object::StringVariable(x) => if let Object::StringVariable(y) = o2 {
                StringVariable::lemma_body_injective(x, y, k1, k2);
            },
            Object::FontAttributes(x) => if let Object::FontAttributes(y) = o2 {
                FontAttributes::lemma_body_injective(x, y, k1, k2);
            },
            Object::LineAttributes(x) => if let Object::LineAttributes(y) = o2 {
                LineAttributes::lemma_body_injective(x, y, k1, k2);
            },
            Object::FillAttributes(x) => if let Object::FillAttributes(y) = o2 {
                FillAttributes::lemma_body_injective(x, y, k1, k2);
            },
            Object::InputAttributes(x) => if let Object::InputAttributes(y) = o2 {
                InputAttributes::lemma_body_injective(x, y, k1, k2);
            },
            Object::ObjectPointer(x) => if let Object::ObjectPointer(y) = o2 {
                ObjectPointer::lemma_body_injective(x, y, k1, k2);
            },
            Object::Macro(x) => if let Object::Macro(y) = o2 {
                Macro::lemma_body_injective(x, y, k1, k2);
            },
            Object::AuxiliaryFunctionType1(x) => if let Object::AuxiliaryFunctionType1(y) = o2 {
                AuxiliaryFunctionType1::lemma_body_injective(x, y, k1, k2);
            },
            Object::AuxiliaryInputType1(x) => if let Object::AuxiliaryInputType1(y) = o2 {
                AuxiliaryInputType1::lemma_body_injective(x, y, k1, k2);
            },
            Object::AuxiliaryFunctionType2(x) => if let Object::AuxiliaryFunctionType2(y) = o2 {
                AuxiliaryFunctionType2::lemma_body_injective(x, y, k1, k2);
            },
            Object::AuxiliaryInputType2(x) => if let Object::AuxiliaryInputType2(y) = o2 {
                AuxiliaryInputType2::lemma_body_injective(x, y, k1, k2);
            },
            Object::AuxiliaryControlDesignatorType2(x) => if let Object::AuxiliaryControlDesignatorType2(y) = o2 {
                AuxiliaryControlDesignatorType2::lemma_body_injective(x, y, k1, k2);
            },
            Object::WindowMask(x) => if let Object::WindowMask(y) = o2 {
                WindowMask::lemma_body_injective(x, y, k1, k2);
            },
            Object::KeyGroup(x) => if let Object::KeyGroup(y) = o2 {
                KeyGroup::lemma_body_injective(x, y, k1, k2);
            },
            Object::GraphicsContext(x) => if let Object::GraphicsContext(y) = o2 {
                GraphicsContext::lemma_body_injective(x, y, k1, k2);
            },
            Object::OutputList(x) => if let Object::OutputList(y) = o2 {
                OutputList::lemma_body_injective(x, y, k1, k2);
            },
            Object::ExtendedInputAttributes(x) => if let Object::ExtendedInputAttributes(y) = o2 {
                ExtendedInputAttributes::lemma_body_injective(x, y, k1, k2);
            },
            Object::ColourMap(x) => if let Object::ColourMap(y) = o2 {
                ColourMap::lemma_body_injective(x, y, k1, k2);
            },
            Object::ObjectLabelReferenceList(x) => if let Object::ObjectLabelReferenceList(y) = o2 {
                ObjectLabelReferenceList::lemma_body_injective(x, y, k1, k2);
            },
            Object::ExternalObjectDefinition(x) => if let Object::ExternalObjectDefinition(y) = o2 {
                ExternalObjectDefinition::lemma_body_injective(x, y, k1, k2);
            },
            Object::ExternalReferenceName(x) => if let Object::ExternalReferenceName(y) = o2 {
                ExternalReferenceName::lemma_body_injective(x, y, k1, k2);
            },
            Object::ExternalObjectPointer(x) => if let Object::ExternalObjectPointer(y) = o2 {
                ExternalObjectPointer::lemma_body_injective(x, y, k1, k2);
            },
            Object::Animation(x) => if let Object::Animation(y) = o2 {
                Animation::lemma_body_injective(x, y, k1, k2);
            },
            Object::ColourPalette(x) => if let Object::ColourPalette(y) = o2 {
                ColourPalette::lemma_body_injective(x, y, k1, k2);
            },
            Object::GraphicData(x) => if let Object::GraphicData(y) = o2 {
                GraphicData::lemma_body_injective(x, y, k1, k2);
            },
            Object::WorkingSetSpecialControls(x) => if let Object::WorkingSetSpecialControls(y) = o2 {
                WorkingSetSpecialControls::lemma_body_injective(x, y, k1, k2);
            },
            Object::ScalesGraphic(x) => if let Object::ScalesGraphic(y) = o2 {
                ScalesGraphic::lemma_body_injective(x, y, k1, k2);
            },
        }
    }

    /// Two well-formed objects whose records, each followed by some bytes,
    /// are the same byte sequence have the same handle, kind and record.
    pub proof fn lemma_encode_injective(o1: Object, o2: Object, k1: Seq<u8>, k2: Seq<u8>)
        requires
            o1.wf(),
            o2.wf(),
            o1.encode_into(k1) == o2.encode_into(k2),
        ensures
            k1 == k2,
            o1.id_spec() == o2.id_spec(),
            o1.kind() == o2.kind(),
            o1.encoding() == o2.encoding(),
    {
        ObjectId::lemma_put_injective(o1.id_spec(), o2.id_spec(), o1.kind().tag().put(o1.put_body(k1)), o2.kind().tag().put(o2.put_body(k2)));
        u8::lemma_put_injective(o1.kind().tag(), o2.kind().tag(), o1.put_body(k1), o2.put_body(k2));
        ObjectType::lemma_tag_injective(o1.kind(), o2.kind());
        Object::lemma_body_injective(o1, o2, k1, k2);
        o1.lemma_encoding_append(k1);
        o2.lemma_encoding_append(k2);
        assert(o1.encoding() =~= (o1.encoding() + k1).subrange(0, o1.encoding().len() as int));
        assert(o2.encoding() =~= (o2.encoding() + k2).subrange(0, o1.encoding().len() as int));
    }

    pub proof fn lemma_encoding_append(&self, k: Seq<u8>)
        ensures
            self.encode_into(k) == self.encoding() + k,
    {
        let e = Seq::<u8>::empty();
        let t = self.kind().tag();
        match self {
            Object::WorkingSet(o) => o.lemma_body_append(k),
            Object::DataMask(o) => o.lemma_body_append(k),
            Object::AlarmMask(o) => o.lemma_body_append(k),
            Object::Container(o) => o.lemma_body_append(k),
            Object::SoftKeyMask(o) => o.lemma_body_append(k),
            Object::Key(o) => o.lemma_body_append(k),
            Object::Button(o) => o.lemma_body_append(k),
            Object::InputBoolean(o) => o.lemma_body_append(k),
            Object::InputString(o) => o.lemma_body_append(k),
            Object::InputNumber(o) => o.lemma_body_append(k),
            Object::InputList(o) => o.lemma_body_append(k),
            Object::OutputString(o) => o.lemma_body_append(k),
            Object::OutputNumber(o) => o.lemma_body_append(k),
            Object::OutputLine(o) => o.lemma_body_append(k),
            Object::OutputRectangle(o) => o.lemma_body_append(k),
            Object::OutputEllipse(o) => o.lemma_body_append(k),
            Object::OutputPolygon(o) => o.lemma_body_append(k),
            Object::OutputMeter(o) => o.lemma_body_append(k),
            Object::OutputLinearBarGraph(o) => o.lemma_body_append(k),
            Object::OutputArchedBarGraph(o) => o.lemma_body_append(k),
            Object::PictureGraphic(o) => o.lemma_body_append(k),
            Object::NumberVariable(o) => o.lemma_body_append(k),
            Object::StringVariable(o) => o.lemma_body_append(k),
            Object::FontAttributes(o) => o.lemma_body_append(k),
            Object::LineAttributes(o) => o.lemma_body_append(k),
            Object::FillAttributes(o) => o.lemma_body_append(k),
            Object::InputAttributes(o) => o.lemma_body_append(k),
            Object::ObjectPointer(o) => o.lemma_body_append(k),
            Object::Macro(o) => o.lemma_body_append(k),
            Object::AuxiliaryFunctionType1(o) => o.lemma_body_append(k),
            Object::AuxiliaryInputType1(o) => o.lemma_body_append(k),
            Object::AuxiliaryFunctionType2(o) => o.lemma_body_append(k),
            Object::AuxiliaryInputType2(o) => o.lemma_body_append(k),
            Object::AuxiliaryControlDesignatorType2(o) => o.lemma_body_append(k),
            Object::WindowMask(o) => o.lemma_body_append(k),
            Object::KeyGroup(o) => o.lemma_body_append(k),
            Object::GraphicsContext(o) => o.lemma_body_append(k),
            Object::OutputList(o) => o.lemma_body_append(k),
            Object::ExtendedInputAttributes(o) => o.lemma_body_append(k),
            Object::ColourMap(o) => o.lemma_body_append(k),
            Object::ObjectLabelReferenceList(o) => o.lemma_body_append(k),
            Object::ExternalObjectDefinition(o) => o.lemma_body_append(k),
            Object::ExternalReferenceName(o) => o.lemma_body_append(k),
            Object::ExternalObjectPointer(o) => o.lemma_body_append(k),
            Object::Animation(o) => o.lemma_body_append(k),
            Object::ColourPalette(o) => o.lemma_body_append(k),
            Object::GraphicData(o) => o.lemma_body_append(k),
            Object::WorkingSetSpecialControls(o) => o.lemma_body_append(k),
            Object::ScalesGraphic(o) => o.lemma_body_append(k),
        }
        u8::lemma_put_append(t, self.put_body(k));
        u8::lemma_put_append(t, self.put_body(e));
        lemma_append_step(t.put(e), t.put(self.put_body(k)), t.put(self.put_body(e)), self.put_body(k), self.put_body(e), k);
        ObjectId::lemma_put_append(self.id_spec(), t.put(self.put_body(k)));
        ObjectId::lemma_put_append(self.id_spec(), t.put(self.put_body(e)));
        lemma_append_step(self.id_spec().put(e), self.encode_into(k), self.encoding(), t.put(self.put_body(k)), t.put(self.put_body(e)), k);
    }
}

} // verus!
