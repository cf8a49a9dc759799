//! The tagged value codec: typed values to and from the untyped, tagged byte
//! buffers that the store holds.
use vstd::prelude::*;

verus! {

use vstd::bytes::*;
use vstd::utf8::valid_utf8;
use vstd::utf8::decode_utf8;
use vstd::utf8::encode_utf8;
use crate::CsError;
use crate::Result;

broadcast use vstd::utf8::encode_utf8_valid_utf8, vstd::utf8::encode_utf8_decode_utf8;

/// The order in which the host lays out the bytes of an integer. Values
/// cross the wire in the host's own layout.
#[derive(Debug, Copy, Clone, PartialEq, Eq, Structural)]
pub enum ByteOrder {
    Little,
    Big,
}

/// The type of a stored value, as tagged on the wire.
#[derive(Debug, Copy, Clone, PartialEq, Eq, Structural)]
pub enum DataType {
    Int8,
    UInt8,
    Int16,
    UInt16,
    Int32,
    UInt32,
    Int64,
    UInt64,
    Float,
    Double,
    String,
    Binary,
    /// A tag this client does not know; never sent.
    Unknown,
}

/// The tag of the sentinel type: only used inside this client.
pub const UNKNOWN_TAG: u32 = 999;

impl DataType {
    /// The wire tag of each type.
    pub open spec fn spec_code(self) -> u32 {
        match self {
            DataType::Int8 => 1,
            DataType::UInt8 => 2,
            DataType::Int16 => 3,
            DataType::UInt16 => 4,
            DataType::Int32 => 5,
            DataType::UInt32 => 6,
            DataType::Int64 => 7,
            DataType::UInt64 => 8,
            DataType::Float => 9,
            DataType::Double => 10,
            DataType::String => 11,
            DataType::Binary => 12,
            DataType::Unknown => UNKNOWN_TAG,
        }
    }

    /// The wire tag of this type.
    pub fn to_c(&self) -> (r: u32)
        ensures
            r == self.spec_code(),
    {
        match self {
            DataType::Int8 => 1,
            DataType::UInt8 => 2,
            DataType::Int16 => 3,
            DataType::UInt16 => 4,
            DataType::Int32 => 5,
            DataType::UInt32 => 6,
            DataType::Int64 => 7,
            DataType::UInt64 => 8,
            DataType::Float => 9,
            DataType::Double => 10,
            DataType::String => 11,
            DataType::Binary => 12,
            DataType::Unknown => UNKNOWN_TAG,
        }
    }

    /// The printable name of the type.
    pub open spec fn spec_name(self) -> &'static str {
        match self {
            DataType::Int8 => "Int8",
            DataType::UInt8 => "UInt8",
            DataType::Int16 => "Int16",
            DataType::UInt16 => "UInt16",
            DataType::Int32 => "Int32",
            DataType::UInt32 => "UInt32",
            DataType::Int64 => "Int64",
            DataType::UInt64 => "UInt64",
            DataType::Float => "Float",
            DataType::Double => "Double",
            DataType::String => "String",
            DataType::Binary => "Binary",
            DataType::Unknown => "Unknown",
        }
    }

    /// The printable name of the type.
    pub fn name(&self) -> (r: &'static str)
        ensures
            r == self.spec_name(),
    {
        match self {
            DataType::Int8 => "Int8",
            DataType::UInt8 => "UInt8",
            DataType::Int16 => "Int16",
            DataType::UInt16 => "UInt16",
            DataType::Int32 => "Int32",
            DataType::UInt32 => "UInt32",
            DataType::Int64 => "Int64",
            DataType::UInt64 => "UInt64",
            DataType::Float => "Float",
            DataType::Double => "Double",
            DataType::String => "String",
            DataType::Binary => "Binary",
            DataType::Unknown => "Unknown",
        }
    }

    /// The byte width of a numeric type.
    pub open spec fn spec_width(self) -> nat {
        match self {
            DataType::Int8 | DataType::UInt8 => 1,
            DataType::Int16 | DataType::UInt16 => 2,
            DataType::Int32 | DataType::UInt32 | DataType::Float => 4,
            DataType::Int64 | DataType::UInt64 | DataType::Double => 8,
            _ => 0,
        }
    }

    /// Whether the type is one of the fixed-width numbers.
    pub open spec fn spec_is_numeric(self) -> bool {
        !(self is String || self is Binary || self is Unknown)
    }
}

/// The type that a wire tag names; an unknown tag names [DataType::Unknown].
pub open spec fn type_of_tag(tag: u32) -> DataType {
    match tag {
        1 => DataType::Int8,
        2 => DataType::UInt8,
        3 => DataType::Int16,
        4 => DataType::UInt16,
        5 => DataType::Int32,
        6 => DataType::UInt32,
        7 => DataType::Int64,
        8 => DataType::UInt64,
        9 => DataType::Float,
        10 => DataType::Double,
        11 => DataType::String,
        12 => DataType::Binary,
        _ => DataType::Unknown,
    }
}

/// Converts a wire tag into the type it names.
pub fn cmap_to_enum(cmap_type: u32) -> (r: DataType)
    ensures
        r.spec_code() == cmap_type || (r == DataType::Unknown && !(1 <= cmap_type <= 12)),
        r == type_of_tag(cmap_type),
{
    match cmap_type {
        1 => DataType::Int8,
        2 => DataType::UInt8,
        3 => DataType::Int16,
        4 => DataType::UInt16,
        5 => DataType::Int32,
        6 => DataType::UInt32,
        7 => DataType::Int64,
        8 => DataType::UInt64,
        9 => DataType::Float,
        10 => DataType::Double,
        11 => DataType::String,
        12 => DataType::Binary,
        _ => DataType::Unknown,
    }
}

/// Whether `dtype` is one of the fixed-width numeric types.
pub fn is_numeric_type(dtype: DataType) -> (r: bool)
    ensures
        r == dtype.spec_is_numeric(),
{
    match dtype {
        DataType::String | DataType::Binary | DataType::Unknown => false,
        _ => true,
    }
}

/// A value read from or written to the store, with its type. Floating-point
/// values are held as their IEEE 754 bit patterns.
#[derive(Debug, Clone, PartialEq)]
pub enum Data {
    Int8(i8),
    UInt8(u8),
    Int16(i16),
    UInt16(u16),
    Int32(i32),
    UInt32(u32),
    Int64(i64),
    UInt64(u64),
    /// The bits of a 32-bit float.
    Float(u32),
    /// The bits of a 64-bit float.
    Double(u64),
    String(String),
    Binary(Vec<u8>),
    /// A value whose tag this client does not know.
    Unknown,
}

/// The mathematical value of a [Data].
pub ghost enum DataView {
    Int8(i8),
    UInt8(u8),
    Int16(i16),
    UInt16(u16),
    Int32(i32),
    UInt32(u32),
    Int64(i64),
    UInt64(u64),
    Float(u32),
    Double(u64),
    Text(Seq<char>),
    Bytes(Seq<u8>),
    Unknown,
}

impl View for Data {
    type V = DataView;

    open spec fn view(&self) -> DataView {
        match self {
            Data::Int8(v) => DataView::Int8(*v),
            Data::UInt8(v) => DataView::UInt8(*v),
            Data::Int16(v) => DataView::Int16(*v),
            Data::UInt16(v) => DataView::UInt16(*v),
            Data::Int32(v) => DataView::Int32(*v),
            Data::UInt32(v) => DataView::UInt32(*v),
            Data::Int64(v) => DataView::Int64(*v),
            Data::UInt64(v) => DataView::UInt64(*v),
            Data::Float(v) => DataView::Float(*v),
            Data::Double(v) => DataView::Double(*v),
            Data::String(s) => DataView::Text(s@),
            Data::Binary(b) => DataView::Bytes(b@),
            Data::Unknown => DataView::Unknown,
        }
    }
}

/// The type tag of a value.
pub open spec fn type_of(v: DataView) -> DataType {
    match v {
        DataView::Int8(_) => DataType::Int8,
        DataView::UInt8(_) => DataType::UInt8,
        DataView::Int16(_) => DataType::Int16,
        DataView::UInt16(_) => DataType::UInt16,
        DataView::Int32(_) => DataType::Int32,
        DataView::UInt32(_) => DataType::UInt32,
        DataView::Int64(_) => DataType::Int64,
        DataView::UInt64(_) => DataType::UInt64,
        DataView::Float(_) => DataType::Float,
        DataView::Double(_) => DataType::Double,
        DataView::Text(_) => DataType::String,
        DataView::Bytes(_) => DataType::Binary,
        DataView::Unknown => DataType::Unknown,
    }
}

/// Little-endian bytes laid out in the given order.
pub open spec fn ordered(b: Seq<u8>, order: ByteOrder) -> Seq<u8> {
    match order {
        ByteOrder::Little => b,
        ByteOrder::Big => b.reverse(),
    }
}

/// Laying out twice in one order gives the bytes back.
pub proof fn lemma_ordered_twice(b: Seq<u8>, order: ByteOrder)
    ensures
        ordered(ordered(b, order), order) == b,
        ordered(b, order).len() == b.len(),
{
    assert(ordered(ordered(b, order), order) =~= b);
}

/// The native bytes of a numeric value; empty for the other values.
pub open spec fn number_bytes(v: DataView, order: ByteOrder) -> Seq<u8> {
    match v {
        DataView::Int8(x) => seq![x as u8],
        DataView::UInt8(x) => seq![x],
        DataView::Int16(x) => ordered(spec_u16_to_le_bytes(x as u16), order),
        DataView::UInt16(x) => ordered(spec_u16_to_le_bytes(x), order),
        DataView::Int32(x) => ordered(spec_u32_to_le_bytes(x as u32), order),
        DataView::UInt32(x) => ordered(spec_u32_to_le_bytes(x), order),
        DataView::Int64(x) => ordered(spec_u64_to_le_bytes(x as u64), order),
        DataView::UInt64(x) => ordered(spec_u64_to_le_bytes(x), order),
        DataView::Float(x) => ordered(spec_u32_to_le_bytes(x), order),
        DataView::Double(x) => ordered(spec_u64_to_le_bytes(x), order),
        _ => Seq::empty(),
    }
}

/// Whether a value can be written: not the unknown sentinel, and no NUL
/// byte inside a string.
pub open spec fn encodable(v: DataView) -> bool {
    match v {
        DataView::Unknown => false,
        DataView::Text(s) => !encode_utf8(s).contains(0u8),
        _ => true,
    }
}

/// The length that is declared for a value: its byte width for a number,
/// its character count for a string, its byte count for binary data.
pub open spec fn declared_length(v: DataView) -> nat {
    match v {
        DataView::Text(s) => s.len(),
        DataView::Bytes(b) => b.len(),
        _ => type_of(v).spec_width(),
    }
}

/// The bytes that are sent for a value: the native bytes of a number, the
/// UTF-8 bytes of a string followed by one NUL, binary data as it is.
pub open spec fn wire_bytes(v: DataView, order: ByteOrder) -> Seq<u8> {
    match v {
        DataView::Text(s) => encode_utf8(s).push(0u8),
        DataView::Bytes(b) => b,
        _ => number_bytes(v, order),
    }
}

/// A value ready to be handed to the store: its tag, its declared length
/// and the bytes that back it.
#[derive(Debug, Clone, PartialEq)]
pub struct Encoded {
    pub data_type: DataType,
    pub length: usize,
    pub bytes: Vec<u8>,
}

/// Whether `e` is the encoding of `v`.
pub open spec fn is_encoding_of(e: Encoded, v: DataView, order: ByteOrder) -> bool {
    &&& e.data_type == type_of(v)
    &&& e.length as nat == declared_length(v)
    &&& e.bytes@ == wire_bytes(v, order)
}

/// What reading `size` bytes of `bytes` under the tag `tag` gives.
pub open spec fn decoded(size: nat, tag: u32, bytes: Seq<u8>, order: ByteOrder) -> Result<
    DataView,
> {
    let t = type_of_tag(tag);
    let b = bytes.take(size as int);
    if t is Unknown {
        Ok(DataView::Unknown)
    } else if size > bytes.len() {
        Err(CsError::CsErrLibrary)
    } else if t.spec_is_numeric() {
        if size != t.spec_width() {
            Err(CsError::CsErrLibrary)
        } else {
            Ok(number_of(t, b, order))
        }
    } else if t is String {
        let text = b.take(size - 1);
        if size == 0 || b[size - 1] != 0u8 || text.contains(0u8) {
            Err(CsError::CsErrLibrary)
        } else if !valid_utf8(text) {
            Err(CsError::CsErrRustString)
        } else {
            Ok(DataView::Text(decode_utf8(text)))
        }
    } else if t is Binary {
        Ok(DataView::Bytes(b))
    } else {
        Ok(DataView::Unknown)
    }
}

/// The number of numeric type `t` that the native bytes `b` hold.
pub open spec fn number_of(t: DataType, b: Seq<u8>, order: ByteOrder) -> DataView {
    let le = ordered(b, order);
    match t {
        DataType::Int8 => DataView::Int8(b[0] as i8),
        DataType::UInt8 => DataView::UInt8(b[0]),
        DataType::Int16 => DataView::Int16(spec_u16_from_le_bytes(le) as i16),
        DataType::UInt16 => DataView::UInt16(spec_u16_from_le_bytes(le)),
        DataType::Int32 => DataView::Int32(spec_u32_from_le_bytes(le) as i32),
        DataType::UInt32 => DataView::UInt32(spec_u32_from_le_bytes(le)),
        DataType::Int64 => DataView::Int64(spec_u64_from_le_bytes(le) as i64),
        DataType::UInt64 => DataView::UInt64(spec_u64_from_le_bytes(le)),
        DataType::Float => DataView::Float(spec_u32_from_le_bytes(le)),
        _ => DataView::Double(spec_u64_from_le_bytes(le)),
    }
}

/// Copies a byte vector, reversing it for a big-endian host.
fn to_order(b: Vec<u8>, order: ByteOrder) -> (r: Vec<u8>)
    ensures
        r@ == ordered(b@, order),
{
    match order {
        ByteOrder::Little => b,
        ByteOrder::Big => {
            let mut r: Vec<u8> = Vec::new();
            let mut i: usize = b.len();
            while i > 0
                invariant
                    i <= b@.len(),
                    r@ == b@.reverse().take((b@.len() - i) as int),
                decreases i,
            {
                i = i - 1;
                r.push(b[i]);
                proof {
                    assert(r@ =~= b@.reverse().take((b@.len() - i) as int));
                }
            }
            proof {
                assert(r@ =~= b@.reverse());
            }
            r
        },
    }
}

/// The first `n` bytes of a buffer, brought to little-endian order.
fn le_prefix(bytes: &[u8], n: usize, order: ByteOrder) -> (r: Vec<u8>)
    requires
        n <= bytes@.len(),
    ensures
        r@ == ordered(bytes@.take(n as int), order),
{
    let mut v: Vec<u8> = Vec::new();
    let mut i: usize = 0;
    while i < n
        invariant
            n <= bytes@.len(),
            i <= n,
            v@ == bytes@.take(i as int),
        decreases n - i,
    {
        v.push(bytes[i]);
        i = i + 1;
        proof {
            assert(v@ =~= bytes@.take(i as int));
        }
    }
    proof {
        lemma_ordered_twice(v@, order);
    }
    to_order(v, order)
}

/// Encodes a value for the store, or fails with
/// [CsError::CsErrInvalidParam] for the unknown sentinel and for a string
/// that holds a NUL.
pub fn encode(data: &Data, order: ByteOrder) -> (r: Result<Encoded>)
    ensures
        encodable(data@) <==> r is Ok,
        r is Ok ==> is_encoding_of(r->Ok_0, data@, order),
        r is Err ==> r->Err_0 == CsError::CsErrInvalidParam,
{
    match data {
        Data::Int8(v) => {
            let mut b: Vec<u8> = Vec::new();
            b.push(#[verifier::truncate] (*v as u8));
            proof {
                assert(b@ =~= seq![*v as u8]);
            }
            Ok(Encoded { data_type: DataType::Int8, length: 1, bytes: b })
        },
        Data::UInt8(v) => {
            let mut b: Vec<u8> = Vec::new();
            b.push(*v);
            proof {
                assert(b@ =~= seq![*v]);
            }
            Ok(Encoded { data_type: DataType::UInt8, length: 1, bytes: b })
        },
        Data::Int16(v) => {
            let b = to_order(u16_to_le_bytes(#[verifier::truncate] (*v as u16)), order);
            Ok(Encoded { data_type: DataType::Int16, length: 2, bytes: b })
        },
        Data::UInt16(v) => {
            let b = to_order(u16_to_le_bytes(*v), order);
            Ok(Encoded { data_type: DataType::UInt16, length: 2, bytes: b })
        },
        Data::Int32(v) => {
            let b = to_order(u32_to_le_bytes(#[verifier::truncate] (*v as u32)), order);
            Ok(Encoded { data_type: DataType::Int32, length: 4, bytes: b })
        },
        Data::UInt32(v) => {
            let b = to_order(u32_to_le_bytes(*v), order);
            Ok(Encoded { data_type: DataType::UInt32, length: 4, bytes: b })
        },
        Data::Int64(v) => {
            let b = to_order(u64_to_le_bytes(#[verifier::truncate] (*v as u64)), order);
            Ok(Encoded { data_type: DataType::Int64, length: 8, bytes: b })
        },
        Data::UInt64(v) => {
            let b = to_order(u64_to_le_bytes(*v), order);
            Ok(Encoded { data_type: DataType::UInt64, length: 8, bytes: b })
        },
        Data::Float(v) => {
            let b = to_order(u32_to_le_bytes(*v), order);
            Ok(Encoded { data_type: DataType::Float, length: 4, bytes: b })
        },
        Data::Double(v) => {
            let b = to_order(u64_to_le_bytes(*v), order);
            Ok(Encoded { data_type: DataType::Double, length: 8, bytes: b })
        },
        Data::String(s) => {
            match c_string_bytes(s.as_str()) {
                Some(b) => {
                    let n = s.as_str().unicode_len();
                    Ok(Encoded { data_type: DataType::String, length: n, bytes: b })
                },
                None => Err(CsError::CsErrInvalidParam),
            }
        },
        Data::Binary(b) => Ok(Encoded { data_type: DataType::Binary, length: b.len(), bytes: b.clone() }),
        Data::Unknown => Err(CsError::CsErrInvalidParam),
    }
}

/// The UTF-8 bytes of `s` followed by one NUL, or `None` where `s` holds a
/// NUL itself.
pub fn c_string_bytes(s: &str) -> (r: Option<Vec<u8>>)
    ensures
        r is Some <==> !encode_utf8(s@).contains(0u8),
        r is Some ==> r->Some_0@ == encode_utf8(s@).push(0u8),
{
    let b = s.as_bytes();
    let mut out: Vec<u8> = Vec::new();
    let mut i: usize = 0;
    while i < b.len()
        invariant
            b@ == encode_utf8(s@),
            i <= b@.len(),
            out@ == b@.take(i as int),
            !out@.contains(0u8),
        decreases b@.len() - i,
    {
        if b[i] == 0 {
            proof {
                assert(b@[i as int] == 0u8);
            }
            return None;
        }
        out.push(b[i]);
        i = i + 1;
        proof {
            assert(out@ =~= b@.take(i as int));
            assert(!out@.contains(0u8)) by {
                if out@.contains(0u8) {
                    let j = choose|j: int| 0 <= j < out@.len() && out@[j] == 0u8;
                    assert(j < i - 1 || out@[j] == b@[i - 1]);
                }
            }
        }
    }
    proof {
        assert(out@ =~= b@);
    }
    out.push(0u8);
    Some(out)
}

/// Decodes `value_size` bytes of `bytes` tagged `c_key_type` into a value.
/// An unknown tag gives [Data::Unknown] whatever the bytes; a number whose size is not its
/// width, a string without its trailing NUL or with a NUL inside, and a
/// size beyond the buffer give [CsError::CsErrLibrary]; a string that is
/// not UTF-8 gives [CsError::CsErrRustString].
pub fn decode(value_size: usize, c_key_type: u32, bytes: &[u8], order: ByteOrder) -> (r: Result<
    Data,
>)
    ensures
        match (r, decoded(value_size as nat, c_key_type, bytes@, order)) {
            (Ok(d), Ok(v)) => d@ == v,
            (Err(e), Err(f)) => e == f,
            _ => false,
        },
{
    let t = cmap_to_enum(c_key_type);
    if t == DataType::Unknown {
        return Ok(Data::Unknown);
    }
    if value_size > bytes.len() {
        return Err(CsError::CsErrLibrary);
    }
    proof {
        assert(bytes@.take(value_size as int).len() == value_size);
    }
    match t {
        DataType::Int8 => {
            if value_size != 1 {
                return Err(CsError::CsErrLibrary);
            }
            Ok(Data::Int8(#[verifier::truncate] (bytes[0] as i8)))
        },
        DataType::UInt8 => {
            if value_size != 1 {
                return Err(CsError::CsErrLibrary);
            }
            Ok(Data::UInt8(bytes[0]))
        },
        DataType::Int16 => {
            if value_size != 2 {
                return Err(CsError::CsErrLibrary);
            }
            let le = le_prefix(bytes, 2, order);
            Ok(Data::Int16(#[verifier::truncate] (u16_from_le_bytes(le.as_slice()) as i16)))
        },
        DataType::UInt16 => {
            if value_size != 2 {
                return Err(CsError::CsErrLibrary);
            }
            let le = le_prefix(bytes, 2, order);
            Ok(Data::UInt16(u16_from_le_bytes(le.as_slice())))
        },
        DataType::Int32 => {
            if value_size != 4 {
                return Err(CsError::CsErrLibrary);
            }
            let le = le_prefix(bytes, 4, order);
            Ok(Data::Int32(#[verifier::truncate] (u32_from_le_bytes(le.as_slice()) as i32)))
        },
        DataType::UInt32 => {
            if value_size != 4 {
                return Err(CsError::CsErrLibrary);
            }
            let le = le_prefix(bytes, 4, order);
            Ok(Data::UInt32(u32_from_le_bytes(le.as_slice())))
        },
        DataType::Int64 => {
            if value_size != 8 {
                return Err(CsError::CsErrLibrary);
            }
            let le = le_prefix(bytes, 8, order);
            Ok(Data::Int64(#[verifier::truncate] (u64_from_le_bytes(le.as_slice()) as i64)))
        },
        DataType::UInt64 => {
            if value_size != 8 {
                return Err(CsError::CsErrLibrary);
            }
            let le = le_prefix(bytes, 8, order);
            Ok(Data::UInt64(u64_from_le_bytes(le.as_slice())))
        },
        DataType::Float => {
            if value_size != 4 {
                return Err(CsError::CsErrLibrary);
            }
            let le = le_prefix(bytes, 4, order);
            Ok(Data::Float(u32_from_le_bytes(le.as_slice())))
        },
        DataType::Double => {
            if value_size != 8 {
                return Err(CsError::CsErrLibrary);
            }
            let le = le_prefix(bytes, 8, order);
            Ok(Data::Double(u64_from_le_bytes(le.as_slice())))
        },
        DataType::String => {
            if value_size == 0 || bytes[value_size - 1] != 0 {
                return Err(CsError::CsErrLibrary);
            }
            let n = value_size - 1;
            let mut text: Vec<u8> = Vec::new();
            let mut i: usize = 0;
            while i < n
                invariant
                    t == type_of_tag(c_key_type),
                    t == DataType::String,
                    value_size <= bytes@.len(),
                    n + 1 == value_size,
                    bytes@[n as int] == 0u8,
                    i <= n,
                    text@ == bytes@.take(i as int),
                    !text@.contains(0u8),
                decreases n - i,
            {
                if bytes[i] == 0 {
                    proof {
                        let full = bytes@.take(value_size as int).take(n as int);
                        assert(full[i as int] == 0u8);
                        assert(full.contains(0u8));
                        assert(full =~= bytes@.take(value_size as int).take(value_size - 1));
                    }
                    return Err(CsError::CsErrLibrary);
                }
                text.push(bytes[i]);
                i = i + 1;
                proof {
                    assert(text@ =~= bytes@.take(i as int));
                    assert(!text@.contains(0u8)) by {
                        if text@.contains(0u8) {
                            let j = choose|j: int| 0 <= j < text@.len() && text@[j] == 0u8;
                            assert(j < i - 1 || text@[j] == bytes@[i - 1]);
                        }
                    }
                }
            }
            proof {
                assert(text@ =~= bytes@.take(value_size as int).take(n as int));
            }
            match crate::utf8_string(text) {
                Some(s) => Ok(Data::String(s)),
                None => Err(CsError::CsErrRustString),
            }
        },
        DataType::Binary => {
            let v = le_prefix(bytes, value_size, ByteOrder::Little);
            Ok(Data::Binary(v))
        },
        DataType::Unknown => Ok(Data::Unknown),
    }
}

/// Each tag names the type that carries it.
pub proof fn lemma_tag_names_type(t: DataType)
    requires
        !(t is Unknown),
    ensures
        type_of_tag(t.spec_code()) == t,
{
}

/// Round trip: decoding the bytes sent for a value, under its tag and with
/// the number of bytes sent as its size, gives the value back.
pub proof fn lemma_round_trip(v: DataView, order: ByteOrder)
    requires
        encodable(v),
    ensures
        decoded(wire_bytes(v, order).len(), type_of(v).spec_code(), wire_bytes(v, order), order)
            == Ok::<DataView, CsError>(v),
{
    let w = wire_bytes(v, order);
    lemma_tag_names_type(type_of(v));
    assert(w.take(w.len() as int) =~= w);
    lemma_auto_spec_u16_to_from_le_bytes();
    lemma_auto_spec_u32_to_from_le_bytes();
    lemma_auto_spec_u64_to_from_le_bytes();
    match v {
        DataView::Int8(x) => {
            assert(((x as u8) as i8) == x) by (bit_vector);
        },
        DataView::Int16(x) => {
            lemma_ordered_twice(spec_u16_to_le_bytes(x as u16), order);
            assert(((x as u16) as i16) == x) by (bit_vector);
        },
        DataView::UInt16(x) => {
            lemma_ordered_twice(spec_u16_to_le_bytes(x), order);
        },
        DataView::Int32(x) => {
            lemma_ordered_twice(spec_u32_to_le_bytes(x as u32), order);
            assert(((x as u32) as i32) == x) by (bit_vector);
        },
        DataView::UInt32(x) => {
            lemma_ordered_twice(spec_u32_to_le_bytes(x), order);
        },
        DataView::Int64(x) => {
            lemma_ordered_twice(spec_u64_to_le_bytes(x as u64), order);
            assert(((x as u64) as i64) == x) by (bit_vector);
        },
        DataView::UInt64(x) => {
            lemma_ordered_twice(spec_u64_to_le_bytes(x), order);
        },
        DataView::Float(x) => {
            lemma_ordered_twice(spec_u32_to_le_bytes(x), order);
        },
        DataView::Double(x) => {
            lemma_ordered_twice(spec_u64_to_le_bytes(x), order);
        },
        DataView::Text(s) => {
            let e = encode_utf8(s);
            assert(w.take(w.len() - 1) =~= e);
        },
        _ => {},
    }
}

} // verus!
