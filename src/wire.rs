//! Little-endian wire primitives. Every encodable value `x` has a spec
//! encoding in continuation form, `x.put(k)`: the bytes of `x` followed by
//! the bytes `k`. The reader and writer of each value are proved against it.

use vstd::prelude::*;
use crate::types::{Colour, LanguageCode, MacroRef, Name, ObjectId, ObjectLabel, ObjectRef, ParseError, Point};

verus! {

/// A read position inside a byte buffer.
pub struct Cursor<'a> {
    pub data: &'a [u8],
    pub pos: usize,
}

impl<'a> Cursor<'a> {
    pub open spec fn wf(&self) -> bool {
        self.pos <= self.data@.len()
    }

    /// The bytes not yet consumed.
    pub open spec fn rest(&self) -> Seq<u8> {
        self.data@.subrange(self.pos as int, self.data@.len() as int)
    }

    pub fn new(data: &'a [u8], pos: usize) -> (r: Cursor<'a>)
        requires
            pos <= data@.len(),
        ensures
            r.wf(),
            r.data == data,
            r.pos == pos,
    {
        Cursor { data, pos }
    }

    pub fn take_byte(&mut self) -> (r: Option<u8>)
        requires
            old(self).wf(),
        ensures
            final(self).wf(),
            final(self).data == old(self).data,
            match r {
                Some(b) => old(self).rest() == seq![b] + final(self).rest(),
                None => old(self).rest().len() == 0 && final(self).pos == old(self).pos,
            },
    {
        if self.pos < self.data.len() {
            let b = self.data[self.pos];
            proof {
                let d = self.data@;
                assert(d.subrange(self.pos as int, d.len() as int) =~= seq![b] + d.subrange(
                    self.pos + 1,
                    d.len() as int,
                ));
            }
            self.pos = self.pos + 1;
            Some(b)
        } else {
            None
        }
    }
}

/// A value with a fixed-shape little-endian encoding.
pub trait Wire: Sized {
    /// The encoding of `self` followed by `k`.
    spec fn put(self, k: Seq<u8>) -> Seq<u8>;

    proof fn lemma_put_injective(a: Self, b: Self, k1: Seq<u8>, k2: Seq<u8>)
        requires
            a.put(k1) == b.put(k2),
        ensures
            a == b,
            k1 == k2,
    ;

    proof fn lemma_put_append(a: Self, k: Seq<u8>)
        ensures
            a.put(k) == a.put(Seq::empty()) + k,
    ;

    /// Reads one value; fails exactly when the remaining bytes do not
    /// start with the encoding of any value.
    fn read(cur: &mut Cursor) -> (r: Result<Self, ParseError>)
        requires
            old(cur).wf(),
        ensures
            final(cur).wf(),
            final(cur).data == old(cur).data,
            match r {
                Ok(x) => old(cur).rest() == x.put(final(cur).rest()),
                Err(e) => e == ParseError::DataEmpty && forall|x: Self, k: Seq<u8>|
                    #[trigger] x.put(k) != old(cur).rest(),
            },
    ;

    /// Appends the encoding of `self`.
    fn write(&self, out: &mut Vec<u8>)
        ensures
            forall|k: Seq<u8>| old(out)@ + #[trigger] self.put(k) == final(out)@ + k,
    ;
}

pub broadcast proof fn lemma_put_injective<T: Wire>(a: T, b: T, k1: Seq<u8>, k2: Seq<u8>)
    requires
        #[trigger] a.put(k1) == #[trigger] b.put(k2),
    ensures
        a == b,
        k1 == k2,
{
    T::lemma_put_injective(a, b, k1, k2);
}

impl Wire for u8 {
    open spec fn put(self, k: Seq<u8>) -> Seq<u8> {
        seq![self] + k
    }

    proof fn lemma_put_injective(a: u8, b: u8, k1: Seq<u8>, k2: Seq<u8>) {
        let s = seq![a] + k1;
        assert(a == s[0]);
        assert(k1 =~= s.subrange(1, s.len() as int));
        assert(k2 =~= (seq![b] + k2).subrange(1, s.len() as int));
    }

    proof fn lemma_put_append(a: u8, k: Seq<u8>) {
        assert(seq![a] + Seq::<u8>::empty() =~= seq![a]);
    }

    fn read(cur: &mut Cursor) -> (r: Result<u8, ParseError>) {
        match cur.take_byte() {
            Some(b) => Ok(b),
            None => Err(ParseError::DataEmpty),
        }
    }

    fn write(&self, out: &mut Vec<u8>) {
        let ghost before = out@;
        out.push(*self);
        assert forall|k: Seq<u8>| before + #[trigger] self.put(k) == out@ + k by {
            assert(before + (seq![*self] + k) =~= before.push(*self) + k);
        }
    }
}

impl Wire for bool {
    open spec fn put(self, k: Seq<u8>) -> Seq<u8> {
        (if self { 1u8 } else { 0u8 }).put(k)
    }

    proof fn lemma_put_injective(a: bool, b: bool, k1: Seq<u8>, k2: Seq<u8>) {
        u8::lemma_put_injective(if a { 1u8 } else { 0u8 }, if b { 1u8 } else { 0u8 }, k1, k2);
    }

    proof fn lemma_put_append(a: bool, k: Seq<u8>) {
        u8::lemma_put_append(if a { 1u8 } else { 0u8 }, k);
    }

    /// A flag byte other than 0 or 1 is rejected as corrupt.
    fn read(cur: &mut Cursor) -> (r: Result<bool, ParseError>) {
        let ghost start = cur.rest();
        let b = u8::read(cur)?;
        if b == 0 {
            Ok(false)
        } else if b == 1 {
            Ok(true)
        } else {
            proof {
                assert forall|x: bool, k: Seq<u8>| #[trigger] x.put(k) != start by {
                    if x.put(k) == start {
                        u8::lemma_put_injective(if x { 1u8 } else { 0u8 }, b, k, cur.rest());
                    }
                }
            }
            Err(ParseError::DataEmpty)
        }
    }

    fn write(&self, out: &mut Vec<u8>) {
        let b: u8 = if *self { 1 } else { 0 };
        b.write(out);
    }
}

impl Wire for u16 {
    open spec fn put(self, k: Seq<u8>) -> Seq<u8> {
        (self as u8).put(((self >> 8u16) as u8).put(k))
    }

    proof fn lemma_put_injective(a: u16, b: u16, k1: Seq<u8>, k2: Seq<u8>) {
        u8::lemma_put_injective(a as u8, b as u8, ((a >> 8u16) as u8).put(k1), ((b >> 8u16) as u8).put(k2));
        u8::lemma_put_injective((a >> 8u16) as u8, (b >> 8u16) as u8, k1, k2);
        assert(a == b) by (bit_vector)
            requires
                a as u8 == b as u8,
                (a >> 8u16) as u8 == (b >> 8u16) as u8,
        ;
    }

    proof fn lemma_put_append(a: u16, k: Seq<u8>) {
        let e = Seq::<u8>::empty();
        u8::lemma_put_append((a >> 8u16) as u8, k);
        u8::lemma_put_append((a >> 8u16) as u8, e);
        u8::lemma_put_append(a as u8, ((a >> 8u16) as u8).put(k));
        u8::lemma_put_append(a as u8, ((a >> 8u16) as u8).put(e));
        vstd::seq_lib::lemma_concat_associative((a as u8).put(e), ((a >> 8u16) as u8).put(e), k);
    }

    fn read(cur: &mut Cursor) -> (r: Result<u16, ParseError>) {
        let ghost start = cur.rest();
        let lo = u8::read(cur)?;
        let ghost mid = cur.rest();
        let hi = match u8::read(cur) {
            Ok(h) => h,
            Err(e) => {
                proof {
                    assert forall|x: u16, k: Seq<u8>| #[trigger] x.put(k) != start by {
                        if x.put(k) == start {
                            u8::lemma_put_injective(x as u8, lo, ((x >> 8u16) as u8).put(k), mid);
                        }
                    }
                }
                return Err(e);
            },
        };
        let v: u16 = (lo as u16) | ((hi as u16) << 8u16);
        assert(v as u8 == lo && (v >> 8u16) as u8 == hi) by (bit_vector)
            requires
                v == (lo as u16) | ((hi as u16) << 8u16),
        ;
        Ok(v)
    }

    fn write(&self, out: &mut Vec<u8>) {
        (*self as u8).write(out);
        ((*self >> 8u16) as u8).write(out);
    }
}


impl Wire for i16 {
    open spec fn put(self, k: Seq<u8>) -> Seq<u8> {
        (self as u16).put(k)
    }

    proof fn lemma_put_injective(a: i16, b: i16, k1: Seq<u8>, k2: Seq<u8>) {
        u16::lemma_put_injective(a as u16, b as u16, k1, k2);
        assert(a == b) by (bit_vector)
            requires
                a as u16 == b as u16,
        ;
    }

    proof fn lemma_put_append(a: i16, k: Seq<u8>) {
        u16::lemma_put_append(a as u16, k);
    }

    fn read(cur: &mut Cursor) -> (r: Result<i16, ParseError>) {
        let ghost start = cur.rest();
        let u = match u16::read(cur) {
            Ok(u) => u,
            Err(e) => {
                assert forall|x: i16, k: Seq<u8>| #[trigger] x.put(k) != start by {
                    assert(x.put(k) == (x as u16).put(k));
                }
                return Err(e);
            },
        };
        let v = u as i16;
        assert((v as u16) == u) by (bit_vector)
            requires
                v == u as i16,
        ;
        Ok(v)
    }

    fn write(&self, out: &mut Vec<u8>) {
        (*self as u16).write(out);
    }
}

impl Wire for u32 {
    open spec fn put(self, k: Seq<u8>) -> Seq<u8> {
        (self as u16).put(((self >> 16u32) as u16).put(k))
    }

    proof fn lemma_put_injective(a: u32, b: u32, k1: Seq<u8>, k2: Seq<u8>) {
        u16::lemma_put_injective(a as u16, b as u16, ((a >> 16u32) as u16).put(k1), ((b >> 16u32) as u16).put(k2));
        u16::lemma_put_injective((a >> 16u32) as u16, (b >> 16u32) as u16, k1, k2);
        assert(a == b) by (bit_vector)
            requires
                a as u16 == b as u16,
                (a >> 16u32) as u16 == (b >> 16u32) as u16,
        ;
    }

    proof fn lemma_put_append(a: u32, k: Seq<u8>) {
        let e = Seq::<u8>::empty();
        let hi = (a >> 16u32) as u16;
        u16::lemma_put_append(hi, k);
        u16::lemma_put_append(hi, e);
        u16::lemma_put_append(a as u16, hi.put(k));
        u16::lemma_put_append(a as u16, hi.put(e));
        vstd::seq_lib::lemma_concat_associative((a as u16).put(e), hi.put(e), k);
    }

    fn read(cur: &mut Cursor) -> (r: Result<u32, ParseError>) {
        let ghost start = cur.rest();
        let lo = match u16::read(cur) {
            Ok(v) => v,
            Err(e) => {
                assert forall|x: u32, k: Seq<u8>| #[trigger] x.put(k) != start by {
                    assert(x.put(k) == (x as u16).put(((x >> 16u32) as u16).put(k)));
                }
                return Err(e);
            },
        };
        let ghost mid = cur.rest();
        let hi = match u16::read(cur) {
            Ok(h) => h,
            Err(e) => {
                proof {
                    assert forall|x: u32, k: Seq<u8>| #[trigger] x.put(k) != start by {
                        if x.put(k) == start {
                            u16::lemma_put_injective(x as u16, lo, ((x >> 16u32) as u16).put(k), mid);
                        }
                    }
                }
                return Err(e);
            },
        };
        let v: u32 = (lo as u32) | ((hi as u32) << 16u32);
        assert(v as u16 == lo && (v >> 16u32) as u16 == hi) by (bit_vector)
            requires
                v == (lo as u32) | ((hi as u32) << 16u32),
        ;
        Ok(v)
    }

    fn write(&self, out: &mut Vec<u8>) {
        (*self as u16).write(out);
        ((*self >> 16u32) as u16).write(out);
    }
}

impl Wire for i32 {
    open spec fn put(self, k: Seq<u8>) -> Seq<u8> {
        (self as u32).put(k)
    }

    proof fn lemma_put_injective(a: i32, b: i32, k1: Seq<u8>, k2: Seq<u8>) {
        u32::lemma_put_injective(a as u32, b as u32, k1, k2);
        assert(a == b) by (bit_vector)
            requires
                a as u32 == b as u32,
        ;
    }

    proof fn lemma_put_append(a: i32, k: Seq<u8>) {
        u32::lemma_put_append(a as u32, k);
    }

    fn read(cur: &mut Cursor) -> (r: Result<i32, ParseError>) {
        let ghost start = cur.rest();
        let u = match u32::read(cur) {
            Ok(u) => u,
            Err(e) => {
                assert forall|x: i32, k: Seq<u8>| #[trigger] x.put(k) != start by {
                    assert(x.put(k) == (x as u32).put(k));
                }
                return Err(e);
            },
        };
        let v = u as i32;
        assert((v as u32) == u) by (bit_vector)
            requires
                v == u as i32,
        ;
        Ok(v)
    }

    fn write(&self, out: &mut Vec<u8>) {
        (*self as u32).write(out);
    }
}

impl Wire for u64 {
    open spec fn put(self, k: Seq<u8>) -> Seq<u8> {
        (self as u32).put(((self >> 32u64) as u32).put(k))
    }

    proof fn lemma_put_injective(a: u64, b: u64, k1: Seq<u8>, k2: Seq<u8>) {
        u32::lemma_put_injective(a as u32, b as u32, ((a >> 32u64) as u32).put(k1), ((b >> 32u64) as u32).put(k2));
        u32::lemma_put_injective((a >> 32u64) as u32, (b >> 32u64) as u32, k1, k2);
        assert(a == b) by (bit_vector)
            requires
                a as u32 == b as u32,
                (a >> 32u64) as u32 == (b >> 32u64) as u32,
        ;
    }

    proof fn lemma_put_append(a: u64, k: Seq<u8>) {
        let e = Seq::<u8>::empty();
        let hi = (a >> 32u64) as u32;
        u32::lemma_put_append(hi, k);
        u32::lemma_put_append(hi, e);
        u32::lemma_put_append(a as u32, hi.put(k));
        u32::lemma_put_append(a as u32, hi.put(e));
        vstd::seq_lib::lemma_concat_associative((a as u32).put(e), hi.put(e), k);
    }

    fn read(cur: &mut Cursor) -> (r: Result<u64, ParseError>) {
        let ghost start = cur.rest();
        let lo = match u32::read(cur) {
            Ok(v) => v,
            Err(e) => {
                assert forall|x: u64, k: Seq<u8>| #[trigger] x.put(k) != start by {
                    assert(x.put(k) == (x as u32).put(((x >> 32u64) as u32).put(k)));
                }
                return Err(e);
            },
        };
        let ghost mid = cur.rest();
        let hi = match u32::read(cur) {
            Ok(h) => h,
            Err(e) => {
                proof {
                    assert forall|x: u64, k: Seq<u8>| #[trigger] x.put(k) != start by {
                        if x.put(k) == start {
                            u32::lemma_put_injective(x as u32, lo, ((x >> 32u64) as u32).put(k), mid);
                        }
                    }
                }
                return Err(e);
            },
        };
        let v: u64 = (lo as u64) | ((hi as u64) << 32u64);
        assert(v as u32 == lo && (v >> 32u64) as u32 == hi) by (bit_vector)
            requires
                v == (lo as u64) | ((hi as u64) << 32u64),
        ;
        Ok(v)
    }

    fn write(&self, out: &mut Vec<u8>) {
        (*self as u32).write(out);
        ((*self >> 32u64) as u32).write(out);
    }
}

/// Two values, one after the other.
impl<A: Wire, B: Wire> Wire for (A, B) {
    open spec fn put(self, k: Seq<u8>) -> Seq<u8> {
        self.0.put(self.1.put(k))
    }

    proof fn lemma_put_injective(a: (A, B), b: (A, B), k1: Seq<u8>, k2: Seq<u8>) {
        A::lemma_put_injective(a.0, b.0, a.1.put(k1), b.1.put(k2));
        B::lemma_put_injective(a.1, b.1, k1, k2);
    }

    proof fn lemma_put_append(a: (A, B), k: Seq<u8>) {
        let e = Seq::<u8>::empty();
        B::lemma_put_append(a.1, k);
        A::lemma_put_append(a.0, a.1.put(k));
        A::lemma_put_append(a.0, a.1.put(e));
        vstd::seq_lib::lemma_concat_associative(a.0.put(e), a.1.put(e), k);
    }

    fn read(cur: &mut Cursor) -> (r: Result<(A, B), ParseError>) {
        let ghost start = cur.rest();
        let a = match A::read(cur) {
            Ok(v) => v,
            Err(e) => {
                assert forall|x: (A, B), k: Seq<u8>| #[trigger] x.put(k) != start by {
                    assert(x.put(k) == x.0.put(x.1.put(k)));
                }
                return Err(e);
            },
        };
        let ghost mid = cur.rest();
        let b = match B::read(cur) {
            Ok(v) => v,
            Err(e) => {
                proof {
                    assert forall|x: (A, B), k: Seq<u8>| #[trigger] x.put(k) != start by {
                        if x.put(k) == start {
                            A::lemma_put_injective(x.0, a, x.1.put(k), mid);
                        }
                    }
                }
                return Err(e);
            },
        };
        Ok((a, b))
    }

    fn write(&self, out: &mut Vec<u8>) {
        self.0.write(out);
        self.1.write(out);
    }
}

/// Two bytes, little-endian.
impl Wire for ObjectId {
    open spec fn put(self, k: Seq<u8>) -> Seq<u8> {
        self.0.put(k)
    }

    proof fn lemma_put_injective(a: ObjectId, b: ObjectId, k1: Seq<u8>, k2: Seq<u8>) {
        <u16 as Wire>::lemma_put_injective(a.0, b.0, k1, k2);
    }

    proof fn lemma_put_append(a: ObjectId, k: Seq<u8>) {
        <u16 as Wire>::lemma_put_append(a.0, k);
    }

    fn read(cur: &mut Cursor) -> (r: Result<ObjectId, ParseError>) {
        let ghost start = cur.rest();
        match <u16 as Wire>::read(cur) {
            Ok(t) => Ok(ObjectId(t)),
            Err(e) => {
                assert forall|x: ObjectId, k: Seq<u8>| #[trigger] x.put(k) != start by {
                    assert(x.put(k) == x.0.put(k));
                }
                Err(e)
            },
        }
    }

    fn write(&self, out: &mut Vec<u8>) {
        let t: u16 = self.0;
        t.write(out);
    }
}

/// Eight bytes, little-endian.
impl Wire for Name {
    open spec fn put(self, k: Seq<u8>) -> Seq<u8> {
        self.0.put(k)
    }

    proof fn lemma_put_injective(a: Name, b: Name, k1: Seq<u8>, k2: Seq<u8>) {
        <u64 as Wire>::lemma_put_injective(a.0, b.0, k1, k2);
    }

    proof fn lemma_put_append(a: Name, k: Seq<u8>) {
        <u64 as Wire>::lemma_put_append(a.0, k);
    }

    fn read(cur: &mut Cursor) -> (r: Result<Name, ParseError>) {
        let ghost start = cur.rest();
        match <u64 as Wire>::read(cur) {
            Ok(t) => Ok(Name(t)),
            Err(e) => {
                assert forall|x: Name, k: Seq<u8>| #[trigger] x.put(k) != start by {
                    assert(x.put(k) == x.0.put(k));
                }
                Err(e)
            },
        }
    }

    fn write(&self, out: &mut Vec<u8>) {
        let t: u64 = self.0;
        t.write(out);
    }
}

/// Macro id, then event id.
impl Wire for MacroRef {
    open spec fn put(self, k: Seq<u8>) -> Seq<u8> {
        (self.macro_id, self.event_id).put(k)
    }

    proof fn lemma_put_injective(a: MacroRef, b: MacroRef, k1: Seq<u8>, k2: Seq<u8>) {
        <(u8, u8) as Wire>::lemma_put_injective((a.macro_id, a.event_id), (b.macro_id, b.event_id), k1, k2);
    }

    proof fn lemma_put_append(a: MacroRef, k: Seq<u8>) {
        <(u8, u8) as Wire>::lemma_put_append((a.macro_id, a.event_id), k);
    }

    fn read(cur: &mut Cursor) -> (r: Result<MacroRef, ParseError>) {
        let ghost start = cur.rest();
        match <(u8, u8) as Wire>::read(cur) {
            Ok(t) => Ok(MacroRef { macro_id: t.0, event_id: t.1 }),
            Err(e) => {
                assert forall|x: MacroRef, k: Seq<u8>| #[trigger] x.put(k) != start by {
                    assert(x.put(k) == (x.macro_id, x.event_id).put(k));
                }
                Err(e)
            },
        }
    }

    fn write(&self, out: &mut Vec<u8>) {
        let t: (u8, u8) = (self.macro_id, self.event_id);
        t.write(out);
    }
}

/// `x`, then `y`.
impl<T: Wire + Copy> Wire for Point<T> {
    open spec fn put(self, k: Seq<u8>) -> Seq<u8> {
        (self.x, self.y).put(k)
    }

    proof fn lemma_put_injective(a: Point<T>, b: Point<T>, k1: Seq<u8>, k2: Seq<u8>) {
        <(T, T) as Wire>::lemma_put_injective((a.x, a.y), (b.x, b.y), k1, k2);
    }

    proof fn lemma_put_append(a: Point<T>, k: Seq<u8>) {
        <(T, T) as Wire>::lemma_put_append((a.x, a.y), k);
    }

    fn read(cur: &mut Cursor) -> (r: Result<Point<T>, ParseError>) {
        let ghost start = cur.rest();
        match <(T, T) as Wire>::read(cur) {
            Ok(t) => Ok(Point { x: t.0, y: t.1 }),
            Err(e) => {
                assert forall|x: Point<T>, k: Seq<u8>| #[trigger] x.put(k) != start by {
                    assert(x.put(k) == (x.x, x.y).put(k));
                }
                Err(e)
            },
        }
    }

    fn write(&self, out: &mut Vec<u8>) {
        let t: (T, T) = (self.x, self.y);
        t.write(out);
    }
}

/// The id, then the offset.
impl Wire for ObjectRef {
    open spec fn put(self, k: Seq<u8>) -> Seq<u8> {
        (self.id, self.offset).put(k)
    }

    proof fn lemma_put_injective(a: ObjectRef, b: ObjectRef, k1: Seq<u8>, k2: Seq<u8>) {
        <(ObjectId, Point<i16>) as Wire>::lemma_put_injective((a.id, a.offset), (b.id, b.offset), k1, k2);
    }

    proof fn lemma_put_append(a: ObjectRef, k: Seq<u8>) {
        <(ObjectId, Point<i16>) as Wire>::lemma_put_append((a.id, a.offset), k);
    }

    fn read(cur: &mut Cursor) -> (r: Result<ObjectRef, ParseError>) {
        let ghost start = cur.rest();
        match <(ObjectId, Point<i16>) as Wire>::read(cur) {
            Ok(t) => Ok(ObjectRef { id: t.0, offset: t.1 }),
            Err(e) => {
                assert forall|x: ObjectRef, k: Seq<u8>| #[trigger] x.put(k) != start by {
                    assert(x.put(k) == (x.id, x.offset).put(k));
                }
                Err(e)
            },
        }
    }

    fn write(&self, out: &mut Vec<u8>) {
        let t: (ObjectId, Point<i16>) = (self.id, self.offset);
        t.write(out);
    }
}

/// Red, green, blue, alpha.
impl Wire for Colour {
    open spec fn put(self, k: Seq<u8>) -> Seq<u8> {
        (self.r, (self.g, (self.b, self.a))).put(k)
    }

    proof fn lemma_put_injective(a: Colour, b: Colour, k1: Seq<u8>, k2: Seq<u8>) {
        <(u8, (u8, (u8, u8))) as Wire>::lemma_put_injective((a.r, (a.g, (a.b, a.a))), (b.r, (b.g, (b.b, b.a))), k1, k2);
    }

    proof fn lemma_put_append(a: Colour, k: Seq<u8>) {
        <(u8, (u8, (u8, u8))) as Wire>::lemma_put_append((a.r, (a.g, (a.b, a.a))), k);
    }

    fn read(cur: &mut Cursor) -> (r: Result<Colour, ParseError>) {
        let ghost start = cur.rest();
        match <(u8, (u8, (u8, u8))) as Wire>::read(cur) {
            Ok(t) => Ok(Colour { r: t.0, g: t.1.0, b: t.1.1.0, a: t.1.1.1 }),
            Err(e) => {
                assert forall|x: Colour, k: Seq<u8>| #[trigger] x.put(k) != start by {
                    assert(x.put(k) == (x.r, (x.g, (x.b, x.a))).put(k));
                }
                Err(e)
            },
        }
    }

    fn write(&self, out: &mut Vec<u8>) {
        let t: (u8, (u8, (u8, u8))) = (self.r, (self.g, (self.b, self.a)));
        t.write(out);
    }
}

/// Labelled object, string variable, font type, graphic.
impl Wire for ObjectLabel {
    open spec fn put(self, k: Seq<u8>) -> Seq<u8> {
        (self.id, (self.string_variable_reference, (self.font_type, self.graphic_representation))).put(k)
    }

    proof fn lemma_put_injective(a: ObjectLabel, b: ObjectLabel, k1: Seq<u8>, k2: Seq<u8>) {
        <(ObjectId, (ObjectId, (u8, ObjectId))) as Wire>::lemma_put_injective((a.id, (a.string_variable_reference, (a.font_type, a.graphic_representation))), (b.id, (b.string_variable_reference, (b.font_type, b.graphic_representation))), k1, k2);
    }

    proof fn lemma_put_append(a: ObjectLabel, k: Seq<u8>) {
        <(ObjectId, (ObjectId, (u8, ObjectId))) as Wire>::lemma_put_append((a.id, (a.string_variable_reference, (a.font_type, a.graphic_representation))), k);
    }

    fn read(cur: &mut Cursor) -> (r: Result<ObjectLabel, ParseError>) {
        let ghost start = cur.rest();
        match <(ObjectId, (ObjectId, (u8, ObjectId))) as Wire>::read(cur) {
            Ok(t) => Ok(ObjectLabel { id: t.0, string_variable_reference: t.1.0, font_type: t.1.1.0, graphic_representation: t.1.1.1 }),
            Err(e) => {
                assert forall|x: ObjectLabel, k: Seq<u8>| #[trigger] x.put(k) != start by {
                    assert(x.put(k) == (x.id, (x.string_variable_reference, (x.font_type, x.graphic_representation))).put(k));
                }
                Err(e)
            },
        }
    }

    fn write(&self, out: &mut Vec<u8>) {
        let t: (ObjectId, (ObjectId, (u8, ObjectId))) = (self.id, (self.string_variable_reference, (self.font_type, self.graphic_representation)));
        t.write(out);
    }
}

/// The two character bytes in order.
impl Wire for LanguageCode {
    open spec fn put(self, k: Seq<u8>) -> Seq<u8> {
        (self.0, self.1).put(k)
    }

    proof fn lemma_put_injective(a: LanguageCode, b: LanguageCode, k1: Seq<u8>, k2: Seq<u8>) {
        <(u8, u8) as Wire>::lemma_put_injective((a.0, a.1), (b.0, b.1), k1, k2);
    }

    proof fn lemma_put_append(a: LanguageCode, k: Seq<u8>) {
        <(u8, u8) as Wire>::lemma_put_append((a.0, a.1), k);
    }

    fn read(cur: &mut Cursor) -> (r: Result<LanguageCode, ParseError>) {
        let ghost start = cur.rest();
        match <(u8, u8) as Wire>::read(cur) {
            Ok(t) => Ok(LanguageCode(t.0, t.1)),
            Err(e) => {
                assert forall|x: LanguageCode, k: Seq<u8>| #[trigger] x.put(k) != start by {
                    assert(x.put(k) == (x.0, x.1).put(k));
                }
                Err(e)
            },
        }
    }

    fn write(&self, out: &mut Vec<u8>) {
        let t: (u8, u8) = (self.0, self.1);
        t.write(out);
    }
}


/// The encodings of `xs` in order, followed by `k`.
pub open spec fn put_list<T: Wire>(xs: Seq<T>, k: Seq<u8>) -> Seq<u8>
    decreases xs.len(),
{
    if xs.len() == 0 {
        k
    } else {
        xs[0].put(put_list(xs.drop_first(), k))
    }
}

/// A section with a one-byte element count.
pub open spec fn put_counted8<T: Wire>(xs: Seq<T>, k: Seq<u8>) -> Seq<u8> {
    (xs.len() as u8).put(put_list(xs, k))
}

/// A section with a two-byte element count.
pub open spec fn put_counted16<T: Wire>(xs: Seq<T>, k: Seq<u8>) -> Seq<u8> {
    (xs.len() as u16).put(put_list(xs, k))
}

/// A section with a four-byte element count.
pub open spec fn put_counted32<T: Wire>(xs: Seq<T>, k: Seq<u8>) -> Seq<u8> {
    (xs.len() as u32).put(put_list(xs, k))
}

pub proof fn lemma_put_list_push<T: Wire>(xs: Seq<T>, x: T, k: Seq<u8>)
    ensures
        put_list(xs.push(x), k) == put_list(xs, x.put(k)),
    decreases xs.len(),
{
    let e = Seq::<T>::empty();
    if xs.len() == 0 {
        assert(xs.push(x).drop_first() =~= e);
        assert(put_list(e, k) == k);
        assert(put_list(e, x.put(k)) == x.put(k));
        assert(xs.push(x)[0] == x);
    } else {
        assert(xs.push(x).drop_first() =~= xs.drop_first().push(x));
        assert(xs.push(x)[0] == xs[0]);
        lemma_put_list_push(xs.drop_first(), x, k);
    }
}

pub proof fn lemma_put_list_append<T: Wire>(xs: Seq<T>, k: Seq<u8>)
    ensures
        put_list(xs, k) == put_list(xs, Seq::empty()) + k,
    decreases xs.len(),
{
    let e = Seq::<u8>::empty();
    if xs.len() == 0 {
        assert(e + k =~= k);
    } else {
        let t = xs.drop_first();
        lemma_put_list_append(t, k);
        T::lemma_put_append(xs[0], put_list(t, k));
        T::lemma_put_append(xs[0], put_list(t, e));
        vstd::seq_lib::lemma_concat_associative(xs[0].put(e), put_list(t, e), k);
    }
}

pub proof fn lemma_put_list_injective<T: Wire>(xs: Seq<T>, ys: Seq<T>, k1: Seq<u8>, k2: Seq<u8>)
    requires
        xs.len() == ys.len(),
        put_list(xs, k1) == put_list(ys, k2),
    ensures
        xs == ys,
        k1 == k2,
    decreases xs.len(),
{
    if xs.len() > 0 {
        T::lemma_put_injective(xs[0], ys[0], put_list(xs.drop_first(), k1), put_list(ys.drop_first(), k2));
        lemma_put_list_injective(xs.drop_first(), ys.drop_first(), k1, k2);
        assert(xs =~= ys) by {
            assert forall|i: int| 0 <= i < xs.len() implies xs[i] == ys[i] by {
                if i > 0 {
                    assert(xs[i] == xs.drop_first()[i - 1]);
                    assert(ys[i] == ys.drop_first()[i - 1]);
                }
            }
        }
    }
}

/// Once the first `v.len()` elements of a list's encoding have been matched
/// by the elements `v`, what remains is the encoding of the rest of the list.
proof fn lemma_put_list_prefix<T: Wire>(ys: Seq<T>, k: Seq<u8>, v: Seq<T>, r: Seq<u8>)
    requires
        v.len() <= ys.len(),
        put_list(ys, k) == put_list(v, r),
    ensures
        r == put_list(ys.skip(v.len() as int), k),
    decreases v.len(),
{
    if v.len() == 0 {
        assert(ys.skip(0) =~= ys);
    } else {
        T::lemma_put_injective(ys[0], v[0], put_list(ys.drop_first(), k), put_list(v.drop_first(), r));
        lemma_put_list_prefix(ys.drop_first(), k, v.drop_first(), r);
        assert(ys.drop_first().skip(v.len() - 1) =~= ys.skip(v.len() as int));
    }
}

pub broadcast proof fn lemma_counted8_injective<T: Wire>(xs: Seq<T>, ys: Seq<T>, k1: Seq<u8>, k2: Seq<u8>)
    requires
        #[trigger] put_counted8(xs, k1) == #[trigger] put_counted8(ys, k2),
        xs.len() <= 0xff,
        ys.len() <= 0xff,
    ensures
        xs == ys,
        k1 == k2,
{
    u8::lemma_put_injective(xs.len() as u8, ys.len() as u8, put_list(xs, k1), put_list(ys, k2));
    lemma_put_list_injective(xs, ys, k1, k2);
}

pub broadcast proof fn lemma_counted16_injective<T: Wire>(xs: Seq<T>, ys: Seq<T>, k1: Seq<u8>, k2: Seq<u8>)
    requires
        #[trigger] put_counted16(xs, k1) == #[trigger] put_counted16(ys, k2),
        xs.len() <= 0xffff,
        ys.len() <= 0xffff,
    ensures
        xs == ys,
        k1 == k2,
{
    u16::lemma_put_injective(xs.len() as u16, ys.len() as u16, put_list(xs, k1), put_list(ys, k2));
    lemma_put_list_injective(xs, ys, k1, k2);
}

pub broadcast proof fn lemma_counted32_injective<T: Wire>(xs: Seq<T>, ys: Seq<T>, k1: Seq<u8>, k2: Seq<u8>)
    requires
        #[trigger] put_counted32(xs, k1) == #[trigger] put_counted32(ys, k2),
        xs.len() <= 0xffff_ffff,
        ys.len() <= 0xffff_ffff,
    ensures
        xs == ys,
        k1 == k2,
{
    u32::lemma_put_injective(xs.len() as u32, ys.len() as u32, put_list(xs, k1), put_list(ys, k2));
    lemma_put_list_injective(xs, ys, k1, k2);
}

/// Reads exactly `n` values.
fn read_items<T: Wire>(cur: &mut Cursor, n: usize) -> (r: Result<Vec<T>, ParseError>)
    requires
        old(cur).wf(),
    ensures
        final(cur).wf(),
        final(cur).data == old(cur).data,
        match r {
            Ok(v) => v@.len() == n && old(cur).rest() == put_list(v@, final(cur).rest()),
            Err(e) => e == ParseError::DataEmpty && forall|ys: Seq<T>, k: Seq<u8>|
                ys.len() == n ==> #[trigger] put_list(ys, k) != old(cur).rest(),
        },
{
    let ghost start = cur.rest();
    let mut v: Vec<T> = Vec::new();
    let mut i: usize = 0;
    assert(put_list(v@, cur.rest()) == start);
    while i < n
        invariant
            cur.wf(),
            cur.data == old(cur).data,
            start == old(cur).rest(),
            i <= n,
            v@.len() == i,
            start == put_list(v@, cur.rest()),
        decreases n - i,
    {
        let ghost before = cur.rest();
        match T::read(cur) {
            Ok(x) => {
                proof {
                    lemma_put_list_push(v@, x, cur.rest());
                }
                v.push(x);
                i = i + 1;
            },
            Err(e) => {
                proof {
                    assert forall|ys: Seq<T>, k: Seq<u8>|
                        ys.len() == n implies #[trigger] put_list(ys, k) != start by {
                        if put_list(ys, k) == start {
                            lemma_put_list_prefix(ys, k, v@, before);
                            let t = ys.skip(i as int);
                            assert(t[0] == ys[i as int]);
                            assert(before == t[0].put(put_list(t.drop_first(), k)));
                        }
                    }
                }
                return Err(e);
            },
        }
    }
    Ok(v)
}

/// Appends the encodings of `xs` in order.
fn write_items<T: Wire>(xs: &Vec<T>, out: &mut Vec<u8>)
    ensures
        forall|k: Seq<u8>| old(out)@ + #[trigger] put_list(xs@, k) == final(out)@ + k,
{
    let ghost start = out@;
    let mut i: usize = 0;
    assert(xs@.skip(0) =~= xs@);
    while i < xs.len()
        invariant
            i <= xs@.len(),
            forall|k: Seq<u8>| start + #[trigger] put_list(xs@, k) == out@ + put_list(xs@.skip(i as int), k),
        decreases xs@.len() - i,
    {
        let ghost before = out@;
        xs[i].write(out);
        proof {
            assert forall|k: Seq<u8>| start + #[trigger] put_list(xs@, k) == out@ + put_list(xs@.skip(i + 1), k) by {
                let t = xs@.skip(i as int);
                assert(t[0] == xs@[i as int]);
                assert(t.drop_first() =~= xs@.skip(i + 1));
                assert(start + put_list(xs@, k) == before + put_list(t, k));
            }
        }
        i = i + 1;
    }
    proof {
        assert(xs@.skip(xs@.len() as int) =~= Seq::<T>::empty());
    }
}

/// Reads a section with a u8 element count.
pub fn read_counted8<T: Wire>(cur: &mut Cursor) -> (r: Result<Vec<T>, ParseError>)
    requires
        old(cur).wf(),
    ensures
        final(cur).wf(),
        final(cur).data == old(cur).data,
        match r {
            Ok(v) => v@.len() <= 0xff && old(cur).rest() == put_counted8(v@, final(cur).rest()),
            Err(e) => e == ParseError::DataEmpty && forall|ys: Seq<T>, k: Seq<u8>|
                ys.len() <= 0xff ==> #[trigger] put_counted8(ys, k) != old(cur).rest(),
        },
{
    let ghost start = cur.rest();
    let n = u8::read(cur)?;
    let ghost mid = cur.rest();
    match read_items::<T>(cur, n as usize) {
        Ok(v) => Ok(v),
        Err(e) => {
            proof {
                assert forall|ys: Seq<T>, k: Seq<u8>|
                    ys.len() <= 0xff implies #[trigger] put_counted8(ys, k) != start by {
                    if put_counted8(ys, k) == start {
                        u8::lemma_put_injective(ys.len() as u8, n, put_list(ys, k), mid);
                    }
                }
            }
            Err(e)
        },
    }
}

/// Writes a section with a u8 element count.
pub fn write_counted8<T: Wire>(xs: &Vec<T>, out: &mut Vec<u8>)
    requires
        xs@.len() <= 0xff,
    ensures
        forall|k: Seq<u8>| old(out)@ + #[trigger] put_counted8(xs@, k) == final(out)@ + k,
{
    let n = xs.len() as u8;
    n.write(out);
    write_items(xs, out);
}

/// Reads a section with a u16 element count.
pub fn read_counted16<T: Wire>(cur: &mut Cursor) -> (r: Result<Vec<T>, ParseError>)
    requires
        old(cur).wf(),
    ensures
        final(cur).wf(),
        final(cur).data == old(cur).data,
        match r {
            Ok(v) => v@.len() <= 0xffff && old(cur).rest() == put_counted16(v@, final(cur).rest()),
            Err(e) => e == ParseError::DataEmpty && forall|ys: Seq<T>, k: Seq<u8>|
                ys.len() <= 0xffff ==> #[trigger] put_counted16(ys, k) != old(cur).rest(),
        },
{
    let ghost start = cur.rest();
    let n = u16::read(cur)?;
    let ghost mid = cur.rest();
    match read_items::<T>(cur, n as usize) {
        Ok(v) => Ok(v),
        Err(e) => {
            proof {
                assert forall|ys: Seq<T>, k: Seq<u8>|
                    ys.len() <= 0xffff implies #[trigger] put_counted16(ys, k) != start by {
                    if put_counted16(ys, k) == start {
                        u16::lemma_put_injective(ys.len() as u16, n, put_list(ys, k), mid);
                    }
                }
            }
            Err(e)
        },
    }
}

/// Writes a section with a u16 element count.
pub fn write_counted16<T: Wire>(xs: &Vec<T>, out: &mut Vec<u8>)
    requires
        xs@.len() <= 0xffff,
    ensures
        forall|k: Seq<u8>| old(out)@ + #[trigger] put_counted16(xs@, k) == final(out)@ + k,
{
    let n = xs.len() as u16;
    n.write(out);
    write_items(xs, out);
}

/// Reads a section with a u32 element count.
pub fn read_counted32<T: Wire>(cur: &mut Cursor) -> (r: Result<Vec<T>, ParseError>)
    requires
        old(cur).wf(),
    ensures
        final(cur).wf(),
        final(cur).data == old(cur).data,
        match r {
            Ok(v) => v@.len() <= 0xffff_ffff && old(cur).rest() == put_counted32(v@, final(cur).rest()),
            Err(e) => e == ParseError::DataEmpty && forall|ys: Seq<T>, k: Seq<u8>|
                ys.len() <= 0xffff_ffff ==> #[trigger] put_counted32(ys, k) != old(cur).rest(),
        },
{
    let ghost start = cur.rest();
    let n = u32::read(cur)?;
    let ghost mid = cur.rest();
    match read_items::<T>(cur, n as usize) {
        Ok(v) => Ok(v),
        Err(e) => {
            proof {
                assert forall|ys: Seq<T>, k: Seq<u8>|
                    ys.len() <= 0xffff_ffff implies #[trigger] put_counted32(ys, k) != start by {
                    if put_counted32(ys, k) == start {
                        u32::lemma_put_injective(ys.len() as u32, n, put_list(ys, k), mid);
                    }
                }
            }
            Err(e)
        },
    }
}

/// Writes a section with a u32 element count.
pub fn write_counted32<T: Wire>(xs: &Vec<T>, out: &mut Vec<u8>)
    requires
        xs@.len() <= 0xffff_ffff,
    ensures
        forall|k: Seq<u8>| old(out)@ + #[trigger] put_counted32(xs@, k) == final(out)@ + k,
{
    let n = xs.len() as u32;
    n.write(out);
    write_items(xs, out);
}

pub proof fn lemma_counted8_append<T: Wire>(xs: Seq<T>, k: Seq<u8>)
    ensures
        put_counted8(xs, k) == put_counted8(xs, Seq::empty()) + k,
{
    let e = Seq::<u8>::empty();
    let n = xs.len() as u8;
    lemma_put_list_append(xs, k);
    u8::lemma_put_append(n, put_list(xs, k));
    u8::lemma_put_append(n, put_list(xs, e));
    vstd::seq_lib::lemma_concat_associative(n.put(e), put_list(xs, e), k);
}

pub proof fn lemma_counted16_append<T: Wire>(xs: Seq<T>, k: Seq<u8>)
    ensures
        put_counted16(xs, k) == put_counted16(xs, Seq::empty()) + k,
{
    let e = Seq::<u8>::empty();
    let n = xs.len() as u16;
    lemma_put_list_append(xs, k);
    u16::lemma_put_append(n, put_list(xs, k));
    u16::lemma_put_append(n, put_list(xs, e));
    vstd::seq_lib::lemma_concat_associative(n.put(e), put_list(xs, e), k);
}

pub proof fn lemma_counted32_append<T: Wire>(xs: Seq<T>, k: Seq<u8>)
    ensures
        put_counted32(xs, k) == put_counted32(xs, Seq::empty()) + k,
{
    let e = Seq::<u8>::empty();
    let n = xs.len() as u32;
    lemma_put_list_append(xs, k);
    u32::lemma_put_append(n, put_list(xs, k));
    u32::lemma_put_append(n, put_list(xs, e));
    vstd::seq_lib::lemma_concat_associative(n.put(e), put_list(xs, e), k);
}

/// One step of showing that an encoding in continuation form is the plain
/// encoding followed by the continuation.
pub proof fn lemma_append_step(h: Seq<u8>, head_k: Seq<u8>, head_e: Seq<u8>, tail_k: Seq<u8>, tail_e: Seq<u8>, k: Seq<u8>)
    requires
        head_k == h + tail_k,
        head_e == h + tail_e,
        tail_k == tail_e + k,
    ensures
        head_k == head_e + k,
{
    vstd::seq_lib::lemma_concat_associative(h, tail_e, k);
}

} // verus!
