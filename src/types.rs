use vstd::prelude::*;

verus! {

/// Why a single object record could not be read from a byte stream.
#[derive(Debug, Clone, Copy, PartialEq, Eq, Structural)]
pub enum ParseError {
    /// The buffer ended inside a field or a counted section, or a field
    /// held a value its encoding cannot hold (a flag byte other than 0 or 1).
    DataEmpty,
    /// The type byte is not one of the known object kinds.
    UnknownObjectType,
}

/// Why an object could not be written.
#[derive(Debug, Clone, Copy, PartialEq, Eq, Structural)]
pub enum EncodeError {
    /// A counted section holds more elements than its count field can state.
    SectionTooLong,
}

/// A 16-bit object handle. `0xFFFF` is reserved as the null handle.
#[derive(Debug, Clone, Copy, PartialEq, Eq, Structural)]
pub struct ObjectId(pub u16);

/// Raw value of the null handle.
pub const NULL_ID_VALUE: u16 = 0xFFFF;

impl ObjectId {
    /// The null handle: "no object".
    pub fn null() -> (r: ObjectId)
        ensures
            r.0 == NULL_ID_VALUE,
    {
        ObjectId(NULL_ID_VALUE)
    }

    pub open spec fn is_null_spec(self) -> bool {
        self.0 == NULL_ID_VALUE
    }

    /// Whether this is the null handle.
    pub fn is_null(&self) -> (r: bool)
        ensures
            r == self.is_null_spec(),
    {
        self.0 == NULL_ID_VALUE
    }
}

impl Default for ObjectId {
    fn default() -> (r: ObjectId)
        ensures
            r.0 == NULL_ID_VALUE,
    {
        ObjectId::null()
    }
}

impl From<u16> for ObjectId {
    fn from(val: u16) -> (r: ObjectId)
        ensures
            r.0 == val,
    {
        ObjectId(val)
    }
}

impl vstd::std_specs::convert::FromSpecImpl<u16> for ObjectId {
    open spec fn obeys_from_spec() -> bool {
        true
    }

    open spec fn from_spec(v: u16) -> ObjectId {
        ObjectId(v)
    }
}

} // verus!

verus! {

/// A child object placed at an offset inside its parent.
#[derive(Debug, Clone, Copy, PartialEq, Eq, Structural)]
pub struct ObjectRef {
    pub id: ObjectId,
    pub offset: Point<i16>,
}

/// Binds an event to a Macro object.
#[derive(Debug, Clone, Copy, PartialEq, Eq, Structural)]
pub struct MacroRef {
    pub macro_id: u8,
    pub event_id: u8,
}

/// A two-dimensional point.
#[derive(Debug, Clone, Copy, PartialEq, Eq, Structural)]
pub struct Point<T> {
    pub x: T,
    pub y: T,
}

/// Attaches a label (a string variable and a graphic) to an object.
#[derive(Debug, Clone, Copy, PartialEq, Eq, Structural)]
pub struct ObjectLabel {
    pub id: ObjectId,
    pub string_variable_reference: ObjectId,
    pub font_type: u8,
    pub graphic_representation: ObjectId,
}

/// A two-letter language or country code, as its two character bytes.
#[derive(Debug, Clone, Copy, PartialEq, Eq, Structural)]
pub struct LanguageCode(pub u8, pub u8);

/// A colour as red, green, blue and alpha channels.
#[derive(Debug, Clone, Copy, PartialEq, Eq, Structural)]
pub struct Colour {
    pub a: u8,
    pub r: u8,
    pub g: u8,
    pub b: u8,
}

/// A 64-bit ISO NAME, carried verbatim.
#[derive(Debug, Clone, Copy, PartialEq, Eq, Structural)]
pub struct Name(pub u64);


impl From<ObjectId> for u16 {
    fn from(val: ObjectId) -> (r: u16)
        ensures
            r == val.0,
    {
        val.0
    }
}

impl vstd::std_specs::convert::FromSpecImpl<ObjectId> for u16 {
    open spec fn obeys_from_spec() -> bool {
        true
    }

    open spec fn from_spec(v: ObjectId) -> u16 {
        v.0
    }
}

impl From<[u8; 2]> for ObjectId {
    /// Little-endian.
    fn from(val: [u8; 2]) -> (r: ObjectId)
        ensures
            r.0 == (val@[0] as u16) | ((val@[1] as u16) << 8u16),
    {
        ObjectId((val[0] as u16) | ((val[1] as u16) << 8u16))
    }
}

impl vstd::std_specs::convert::FromSpecImpl<[u8; 2]> for ObjectId {
    open spec fn obeys_from_spec() -> bool {
        true
    }

    open spec fn from_spec(v: [u8; 2]) -> ObjectId {
        ObjectId((v@[0] as u16) | ((v@[1] as u16) << 8u16))
    }
}

impl From<ObjectId> for [u8; 2] {
    /// Little-endian.
    fn from(val: ObjectId) -> (r: [u8; 2])
        ensures
            r@ == seq![val.0 as u8, (val.0 >> 8u16) as u8],
    {
        let r = [val.0 as u8, (val.0 >> 8u16) as u8];
        assert(r@ =~= seq![val.0 as u8, (val.0 >> 8u16) as u8]);
        r
    }
}

impl vstd::std_specs::convert::FromSpecImpl<ObjectId> for [u8; 2] {
    open spec fn obeys_from_spec() -> bool {
        true
    }

    open spec fn from_spec(v: ObjectId) -> [u8; 2] {
        [v.0 as u8, (v.0 >> 8u16) as u8]
    }
}

impl From<&[u8]> for ObjectId {
    /// The first two bytes, little-endian; the null handle when there are
    /// fewer than two.
    fn from(val: &[u8]) -> (r: ObjectId)
        ensures
            val@.len() >= 2 ==> r.0 == (val@[0] as u16) | ((val@[1] as u16) << 8u16),
            val@.len() < 2 ==> r.0 == NULL_ID_VALUE,
    {
        if val.len() >= 2 {
            ObjectId((val[0] as u16) | ((val[1] as u16) << 8u16))
        } else {
            ObjectId::null()
        }
    }
}

impl vstd::std_specs::convert::FromSpecImpl<&[u8]> for ObjectId {
    open spec fn obeys_from_spec() -> bool {
        true
    }

    open spec fn from_spec(v: &[u8]) -> ObjectId {
        if v@.len() >= 2 {
            ObjectId((v@[0] as u16) | ((v@[1] as u16) << 8u16))
        } else {
            ObjectId(NULL_ID_VALUE)
        }
    }
}

/// Red, green and blue of the first sixteen palette entries.
pub open spec fn standard_colour(i: u8) -> (u8, u8, u8) {
    match i {
        0 => (0x00, 0x00, 0x00),
        1 => (0xFF, 0xFF, 0xFF),
        2 => (0x00, 0x99, 0x00),
        3 => (0x00, 0x99, 0x99),
        4 => (0x99, 0x00, 0x00),
        5 => (0x99, 0x00, 0x99),
        6 => (0x99, 0x99, 0x00),
        7 => (0xCC, 0xCC, 0xCC),
        8 => (0x99, 0x99, 0x99),
        9 => (0x00, 0x00, 0xFF),
        10 => (0x00, 0xFF, 0x00),
        11 => (0x00, 0xFF, 0xFF),
        12 => (0xFF, 0x00, 0x00),
        13 => (0xFF, 0x00, 0xFF),
        14 => (0xFF, 0xFF, 0x00),
        _ => (0x00, 0x00, 0x99),
    }
}

/// First palette index of the 6x6x6 colour cube.
pub const CUBE_START: u8 = 16;

/// First palette index of the reserved region, which is opaque black.
pub const RESERVED_START: u8 = 232;

/// Channel value of step `k` (0 to 5) of the colour cube.
pub open spec fn cube_level(k: u8) -> u8 {
    (k * 0x33) as u8
}

impl Colour {
    /// Entry `i` of the default palette: sixteen standard colours, then a
    /// 6x6x6 cube (blue varying fastest) in steps of 0x33, then opaque
    /// black. Every entry is opaque.
    pub open spec fn palette_spec(i: u8) -> Colour {
        if i < CUBE_START {
            let (r, g, b) = standard_colour(i);
            Colour { r, g, b, a: 0xFF }
        } else if i < RESERVED_START {
            let n = (i - CUBE_START) as u8;
            Colour {
                r: cube_level((n / 36) as u8),
                g: cube_level(((n / 6) % 6) as u8),
                b: cube_level((n % 6) as u8),
                a: 0xFF,
            }
        } else {
            Colour { r: 0, g: 0, b: 0, a: 0xFF }
        }
    }

    /// Entry `index` of the default palette.
    pub fn palette(index: u8) -> (r: Colour)
        ensures
            r == Colour::palette_spec(index),
    {
        if index < CUBE_START {
            let (r, g, b): (u8, u8, u8) = match index {
                0 => (0x00, 0x00, 0x00),
                1 => (0xFF, 0xFF, 0xFF),
                2 => (0x00, 0x99, 0x00),
                3 => (0x00, 0x99, 0x99),
                4 => (0x99, 0x00, 0x00),
                5 => (0x99, 0x00, 0x99),
                6 => (0x99, 0x99, 0x00),
                7 => (0xCC, 0xCC, 0xCC),
                8 => (0x99, 0x99, 0x99),
                9 => (0x00, 0x00, 0xFF),
                10 => (0x00, 0xFF, 0x00),
                11 => (0x00, 0xFF, 0xFF),
                12 => (0xFF, 0x00, 0x00),
                13 => (0xFF, 0x00, 0xFF),
                14 => (0xFF, 0xFF, 0x00),
                _ => (0x00, 0x00, 0x99),
            };
            Colour { r, g, b, a: 0xFF }
        } else if index < RESERVED_START {
            let n: u8 = index - CUBE_START;
            Colour { r: (n / 36) * 0x33, g: ((n / 6) % 6) * 0x33, b: (n % 6) * 0x33, a: 0xFF }
        } else {
            Colour { r: 0, g: 0, b: 0, a: 0xFF }
        }
    }

    pub fn as_rgb(&self) -> (r: [u8; 3])
        ensures
            r@ == seq![self.r, self.g, self.b],
    {
        let r = [self.r, self.g, self.b];
        assert(r@ =~= seq![self.r, self.g, self.b]);
        r
    }

    pub fn as_rgba(&self) -> (r: [u8; 4])
        ensures
            r@ == seq![self.r, self.g, self.b, self.a],
    {
        let r = [self.r, self.g, self.b, self.a];
        assert(r@ =~= seq![self.r, self.g, self.b, self.a]);
        r
    }
}

/// Palette index of grey, the default colour.
pub const GREY_INDEX: u8 = 8;

impl Default for Colour {
    /// Grey, entry 8 of the default palette.
    fn default() -> (r: Colour)
        ensures
            r == Colour::palette_spec(GREY_INDEX),
    {
        Colour::palette(GREY_INDEX)
    }
}

impl From<u32> for Colour {
    /// The four bytes, little-endian, as red, green, blue and alpha.
    fn from(val: u32) -> (r: Colour)
        ensures
            r.r == val as u8,
            r.g == (val >> 8u32) as u8,
            r.b == (val >> 16u32) as u8,
            r.a == (val >> 24u32) as u8,
    {
        Colour { r: val as u8, g: (val >> 8u32) as u8, b: (val >> 16u32) as u8, a: (val >> 24u32) as u8 }
    }
}

impl vstd::std_specs::convert::FromSpecImpl<u32> for Colour {
    open spec fn obeys_from_spec() -> bool {
        true
    }

    open spec fn from_spec(v: u32) -> Colour {
        Colour { r: v as u8, g: (v >> 8u32) as u8, b: (v >> 16u32) as u8, a: (v >> 24u32) as u8 }
    }
}

impl core::ops::Add<Point<i16>> for Point<u16> {
    type Output = Point<u16>;

    /// Moves the point by a signed offset; each coordinate is taken as a
    /// signed 16-bit value, the sum must stay within that range.
    fn add(self, rhs: Point<i16>) -> (r: Point<u16>)
        ensures
            r.x == ((self.x as i16) + rhs.x) as u16,
            r.y == ((self.y as i16) + rhs.y) as u16,
    {
        Point { x: ((self.x as i16) + rhs.x) as u16, y: ((self.y as i16) + rhs.y) as u16 }
    }
}

impl vstd::std_specs::ops::AddSpecImpl<Point<i16>> for Point<u16> {
    open spec fn obeys_add_spec() -> bool {
        true
    }

    open spec fn add_req(self, rhs: Point<i16>) -> bool {
        &&& i16::MIN <= (self.x as i16) + rhs.x <= i16::MAX
        &&& i16::MIN <= (self.y as i16) + rhs.y <= i16::MAX
    }

    open spec fn add_spec(self, rhs: Point<i16>) -> Point<u16> {
        Point { x: ((self.x as i16) + rhs.x) as u16, y: ((self.y as i16) + rhs.y) as u16 }
    }
}
} // verus!
