//! The conversion capability between domain types and their wire-struct
//! representation.
//!
//! Every domain type with a wire form implements [`ProtobufConvert`]:
//! `to_pb` is total and produces the canonical wire form, `from_pb` is
//! partial and fails exactly on wire values that violate the type's
//! invariants. The two laws every implementation proves —
//! [`ProtobufConvert::lemma_round_trip`] and
//! [`ProtobufConvert::lemma_decode_unique`] — make the round trip
//! `from_pb(to_pb(x))` yield `x` again, which [`pb_round_trip`] states once
//! for all implementations.

use vstd::prelude::*;

use crate::chain;
use crate::codec::be16_bytes;
use crate::codec::be16_value;
use crate::codec::be16_value_exec;
use crate::codec::be32_bytes;
use crate::codec::be32_value;
use crate::codec::be32_value_exec;
use crate::codec::lemma_be16_bytes_of_value;
use crate::codec::lemma_be16_roundtrip;
use crate::codec::lemma_be32_bytes_of_value;
use crate::codec::lemma_be32_roundtrip;
use crate::codec::push_be16;
use crate::codec::push_be32;
use crate::types::Address;
use crate::types::IpAddress;
use crate::wire;
use vstd::array::ArrayAdditionalExecFns;
use vstd::slice::slice_to_vec;

verus! {

/// The error type for conversions between domain values and wire values.
#[derive(Clone, Copy, PartialEq, Eq, Debug)]
pub enum ConversionError {
    /// A fixed-size field (array, address, signature component) received a
    /// byte sequence of the wrong length.
    InvalidLength,
    /// A narrowing integer conversion's source value exceeds the target
    /// type's range.
    IntegerOutOfRange,
    /// A sum-type wire field carries a tag this crate does not recognize.
    UnknownVariant,
}

/// Correspondence between a domain type and its wire-struct counterpart.
pub trait ProtobufConvert: Sized {
    /// The wire-struct counterpart of `Self`.
    type ProtoStruct;

    /// `pb` is the canonical wire form of `self`.
    spec fn is_wire(self, pb: Self::ProtoStruct) -> bool;

    /// Decoding `pb` yields the domain value `x`.
    spec fn decodes_to(pb: Self::ProtoStruct, x: Self) -> bool;

    /// Decoding `pb` succeeds.
    spec fn wire_decodes(pb: Self::ProtoStruct) -> bool;

    /// The error decoding `pb` reports when it fails.
    spec fn wire_error(pb: Self::ProtoStruct) -> ConversionError;

    /// `x` and `y` carry the same wire-relevant content: plain equality for
    /// every type except the containers, whose contents are compared element
    /// by element.
    spec fn same_value(x: Self, y: Self) -> bool;

    /// Struct -> wire struct. Total: every domain value has a wire form.
    fn to_pb(&self) -> (r: Self::ProtoStruct)
        ensures
            self.is_wire(r),
    ;

    /// Wire struct -> struct. Fails exactly on wire values that violate the
    /// domain type's invariants, with the error [`Self::wire_error`] names.
    fn from_pb(pb: Self::ProtoStruct) -> (r: Result<Self, ConversionError>)
        ensures
            r is Ok <==> Self::wire_decodes(pb),
            r matches Ok(x) ==> Self::decodes_to(pb, x),
            r matches Err(e) ==> e == Self::wire_error(pb),
    ;

    /// Law: the canonical wire form of a value decodes, back to that very
    /// value.
    proof fn lemma_round_trip(self, pb: Self::ProtoStruct)
        requires
            self.is_wire(pb),
        ensures
            Self::wire_decodes(pb),
            Self::decodes_to(pb, self),
    ;

    /// Law: a wire value decodes to at most one domain value.
    proof fn lemma_decode_unique(pb: Self::ProtoStruct, x: Self, y: Self)
        requires
            Self::decodes_to(pb, x),
            Self::decodes_to(pb, y),
        ensures
            Self::same_value(x, y),
    ;
}

/// Round trip: converting any domain value to its wire form and back
/// succeeds and yields the value again.
pub fn pb_round_trip<T: ProtobufConvert>(x: &T) -> (r: Result<T, ConversionError>)
    ensures
        r matches Ok(y) && T::same_value(*x, y),
{
    let pb = x.to_pb();
    proof {
        T::lemma_round_trip(*x, pb);
    }
    let ghost gpb = pb;
    match T::from_pb(pb) {
        Ok(y) => {
            proof {
                T::lemma_decode_unique(gpb, *x, y);
            }
            Ok(y)
        },
        Err(e) => Err(e),
    }
}

impl ProtobufConvert for chain::RADType {
    type ProtoStruct = wire::RadType;

    open spec fn is_wire(self, pb: wire::RadType) -> bool {
        self == chain::RADType::HttpGet && pb == wire::RadType::HttpGet
    }

    open spec fn decodes_to(pb: wire::RadType, x: chain::RADType) -> bool {
        x.is_wire(pb)
    }

    open spec fn wire_decodes(pb: wire::RadType) -> bool {
        true
    }

    open spec fn wire_error(pb: wire::RadType) -> ConversionError {
        ConversionError::UnknownVariant
    }

    open spec fn same_value(x: chain::RADType, y: chain::RADType) -> bool {
        x == y
    }

    fn to_pb(&self) -> (r: wire::RadType) {
        match self {
            chain::RADType::HttpGet => wire::RadType::HttpGet,
        }
    }

    fn from_pb(pb: wire::RadType) -> (r: Result<chain::RADType, ConversionError>) {
        match pb {
            wire::RadType::HttpGet => Ok(chain::RADType::HttpGet),
        }
    }

    proof fn lemma_round_trip(self, pb: wire::RadType) {
    }

    proof fn lemma_decode_unique(pb: wire::RadType, x: chain::RADType, y: chain::RADType) {
    }
}

impl ProtobufConvert for String {
    type ProtoStruct = String;

    open spec fn is_wire(self, pb: String) -> bool {
        pb@ == self@
    }

    open spec fn decodes_to(pb: String, x: String) -> bool {
        x@ == pb@
    }

    open spec fn wire_decodes(pb: String) -> bool {
        true
    }

    open spec fn wire_error(pb: String) -> ConversionError {
        ConversionError::InvalidLength
    }

    open spec fn same_value(x: String, y: String) -> bool {
        x@ == y@
    }

    fn to_pb(&self) -> (r: String) {
        self.clone()
    }

    fn from_pb(pb: String) -> (r: Result<String, ConversionError>) {
        Ok(pb)
    }

    proof fn lemma_round_trip(self, pb: String) {
    }

    proof fn lemma_decode_unique(pb: String, x: String, y: String) {
    }
}

impl ProtobufConvert for bool {
    type ProtoStruct = bool;

    open spec fn is_wire(self, pb: bool) -> bool {
        pb == self
    }

    open spec fn decodes_to(pb: bool, x: bool) -> bool {
        x == pb
    }

    open spec fn wire_decodes(pb: bool) -> bool {
        true
    }

    open spec fn wire_error(pb: bool) -> ConversionError {
        ConversionError::IntegerOutOfRange
    }

    open spec fn same_value(x: bool, y: bool) -> bool {
        x == y
    }

    fn to_pb(&self) -> (r: bool) {
        *self
    }

    fn from_pb(pb: bool) -> (r: Result<bool, ConversionError>) {
        Ok(pb)
    }

    proof fn lemma_round_trip(self, pb: bool) {
    }

    proof fn lemma_decode_unique(pb: bool, x: bool, y: bool) {
    }
}

impl ProtobufConvert for u32 {
    type ProtoStruct = u32;

    open spec fn is_wire(self, pb: u32) -> bool {
        pb == self
    }

    open spec fn decodes_to(pb: u32, x: u32) -> bool {
        x == pb
    }

    open spec fn wire_decodes(pb: u32) -> bool {
        true
    }

    open spec fn wire_error(pb: u32) -> ConversionError {
        ConversionError::IntegerOutOfRange
    }

    open spec fn same_value(x: u32, y: u32) -> bool {
        x == y
    }

    fn to_pb(&self) -> (r: u32) {
        *self
    }

    fn from_pb(pb: u32) -> (r: Result<u32, ConversionError>) {
        Ok(pb)
    }

    proof fn lemma_round_trip(self, pb: u32) {
    }

    proof fn lemma_decode_unique(pb: u32, x: u32, y: u32) {
    }
}

impl ProtobufConvert for u64 {
    type ProtoStruct = u64;

    open spec fn is_wire(self, pb: u64) -> bool {
        pb == self
    }

    open spec fn decodes_to(pb: u64, x: u64) -> bool {
        x == pb
    }

    open spec fn wire_decodes(pb: u64) -> bool {
        true
    }

    open spec fn wire_error(pb: u64) -> ConversionError {
        ConversionError::IntegerOutOfRange
    }

    open spec fn same_value(x: u64, y: u64) -> bool {
        x == y
    }

    fn to_pb(&self) -> (r: u64) {
        *self
    }

    fn from_pb(pb: u64) -> (r: Result<u64, ConversionError>) {
        Ok(pb)
    }

    proof fn lemma_round_trip(self, pb: u64) {
    }

    proof fn lemma_decode_unique(pb: u64, x: u64, y: u64) {
    }
}

impl ProtobufConvert for i32 {
    type ProtoStruct = i32;

    open spec fn is_wire(self, pb: i32) -> bool {
        pb == self
    }

    open spec fn decodes_to(pb: i32, x: i32) -> bool {
        x == pb
    }

    open spec fn wire_decodes(pb: i32) -> bool {
        true
    }

    open spec fn wire_error(pb: i32) -> ConversionError {
        ConversionError::IntegerOutOfRange
    }

    open spec fn same_value(x: i32, y: i32) -> bool {
        x == y
    }

    fn to_pb(&self) -> (r: i32) {
        *self
    }

    fn from_pb(pb: i32) -> (r: Result<i32, ConversionError>) {
        Ok(pb)
    }

    proof fn lemma_round_trip(self, pb: i32) {
    }

    proof fn lemma_decode_unique(pb: i32, x: i32, y: i32) {
    }
}

impl ProtobufConvert for i64 {
    type ProtoStruct = i64;

    open spec fn is_wire(self, pb: i64) -> bool {
        pb == self
    }

    open spec fn decodes_to(pb: i64, x: i64) -> bool {
        x == pb
    }

    open spec fn wire_decodes(pb: i64) -> bool {
        true
    }

    open spec fn wire_error(pb: i64) -> ConversionError {
        ConversionError::IntegerOutOfRange
    }

    open spec fn same_value(x: i64, y: i64) -> bool {
        x == y
    }

    fn to_pb(&self) -> (r: i64) {
        *self
    }

    fn from_pb(pb: i64) -> (r: Result<i64, ConversionError>) {
        Ok(pb)
    }

    proof fn lemma_round_trip(self, pb: i64) {
    }

    proof fn lemma_decode_unique(pb: i64, x: i64, y: i64) {
    }
}

impl ProtobufConvert for i8 {
    type ProtoStruct = i32;

    open spec fn is_wire(self, pb: i32) -> bool {
        pb == self as i32
    }

    open spec fn decodes_to(pb: i32, x: i8) -> bool {
        pb <= i8::MAX as i32 && x == pb as i8
    }

    open spec fn wire_decodes(pb: i32) -> bool {
        pb <= i8::MAX as i32
    }

    open spec fn wire_error(pb: i32) -> ConversionError {
        ConversionError::IntegerOutOfRange
    }

    open spec fn same_value(x: i8, y: i8) -> bool {
        x == y
    }

    fn to_pb(&self) -> (r: i32) {
        *self as i32
    }

    fn from_pb(pb: i32) -> (r: Result<i8, ConversionError>) {
        if pb <= i8::MAX as i32 {
            Ok(#[verifier::truncate] (pb as i8))
        } else {
            Err(ConversionError::IntegerOutOfRange)
        }
    }

    proof fn lemma_round_trip(self, pb: i32) {
    }

    proof fn lemma_decode_unique(pb: i32, x: i8, y: i8) {
    }
}

impl ProtobufConvert for u16 {
    type ProtoStruct = u32;

    open spec fn is_wire(self, pb: u32) -> bool {
        pb == self as u32
    }

    open spec fn decodes_to(pb: u32, x: u16) -> bool {
        pb <= u16::MAX as u32 && x == pb as u16
    }

    open spec fn wire_decodes(pb: u32) -> bool {
        pb <= u16::MAX as u32
    }

    open spec fn wire_error(pb: u32) -> ConversionError {
        ConversionError::IntegerOutOfRange
    }

    open spec fn same_value(x: u16, y: u16) -> bool {
        x == y
    }

    fn to_pb(&self) -> (r: u32) {
        *self as u32
    }

    fn from_pb(pb: u32) -> (r: Result<u16, ConversionError>) {
        if pb <= u16::MAX as u32 {
            Ok(#[verifier::truncate] (pb as u16))
        } else {
            Err(ConversionError::IntegerOutOfRange)
        }
    }

    proof fn lemma_round_trip(self, pb: u32) {
    }

    proof fn lemma_decode_unique(pb: u32, x: u16, y: u16) {
    }
}

impl ProtobufConvert for i16 {
    type ProtoStruct = i32;

    open spec fn is_wire(self, pb: i32) -> bool {
        pb == self as i32
    }

    open spec fn decodes_to(pb: i32, x: i16) -> bool {
        pb <= i16::MAX as i32 && x == pb as i16
    }

    open spec fn wire_decodes(pb: i32) -> bool {
        pb <= i16::MAX as i32
    }

    open spec fn wire_error(pb: i32) -> ConversionError {
        ConversionError::IntegerOutOfRange
    }

    open spec fn same_value(x: i16, y: i16) -> bool {
        x == y
    }

    fn to_pb(&self) -> (r: i32) {
        *self as i32
    }

    fn from_pb(pb: i32) -> (r: Result<i16, ConversionError>) {
        if pb <= i16::MAX as i32 {
            Ok(#[verifier::truncate] (pb as i16))
        } else {
            Err(ConversionError::IntegerOutOfRange)
        }
    }

    proof fn lemma_round_trip(self, pb: i32) {
    }

    proof fn lemma_decode_unique(pb: i32, x: i16, y: i16) {
    }
}

/// The first `N` bytes of `v`, as an array.
fn prefix_array<const N: usize>(v: &Vec<u8>) -> (r: [u8; N])
    requires
        v@.len() >= N,
    ensures
        r@ == v@.subrange(0, N as int),
{
    let mut x = [0u8; N];
    let mut i: usize = 0;
    while i < N
        invariant
            i <= N,
            v@.len() >= N,
            x@.len() == N,
            forall|j: int| 0 <= j < i as int ==> x@[j] == v@[j],
        decreases N - i,
    {
        x.set(i, v[i]);
        i += 1;
    }
    proof {
        assert(x@ =~= v@.subrange(0, N as int));
    }
    x
}

impl ProtobufConvert for [u8; 20] {
    type ProtoStruct = Vec<u8>;

    open spec fn is_wire(self, pb: Vec<u8>) -> bool {
        pb@ == self@
    }

    open spec fn decodes_to(pb: Vec<u8>, x: [u8; 20]) -> bool {
        x@ == pb@
    }

    open spec fn wire_decodes(pb: Vec<u8>) -> bool {
        pb@.len() == 20
    }

    open spec fn wire_error(pb: Vec<u8>) -> ConversionError {
        ConversionError::InvalidLength
    }

    open spec fn same_value(x: [u8; 20], y: [u8; 20]) -> bool {
        x == y
    }

    fn to_pb(&self) -> (r: Vec<u8>) {
        slice_to_vec(self.as_slice())
    }

    fn from_pb(pb: Vec<u8>) -> (r: Result<[u8; 20], ConversionError>) {
        if pb.len() == 20 {
            let x: [u8; 20] = prefix_array(&pb);
            proof {
                assert(x@ =~= pb@);
            }
            Ok(x)
        } else {
            Err(ConversionError::InvalidLength)
        }
    }

    proof fn lemma_round_trip(self, pb: Vec<u8>) {
    }

    proof fn lemma_decode_unique(pb: Vec<u8>, x: [u8; 20], y: [u8; 20]) {
        assert(x =~= y);
    }
}

impl ProtobufConvert for [u8; 32] {
    type ProtoStruct = Vec<u8>;

    open spec fn is_wire(self, pb: Vec<u8>) -> bool {
        pb@ == self@
    }

    open spec fn decodes_to(pb: Vec<u8>, x: [u8; 32]) -> bool {
        x@ == pb@
    }

    open spec fn wire_decodes(pb: Vec<u8>) -> bool {
        pb@.len() == 32
    }

    open spec fn wire_error(pb: Vec<u8>) -> ConversionError {
        ConversionError::InvalidLength
    }

    open spec fn same_value(x: [u8; 32], y: [u8; 32]) -> bool {
        x == y
    }

    fn to_pb(&self) -> (r: Vec<u8>) {
        slice_to_vec(self.as_slice())
    }

    fn from_pb(pb: Vec<u8>) -> (r: Result<[u8; 32], ConversionError>) {
        if pb.len() == 32 {
            let x: [u8; 32] = prefix_array(&pb);
            proof {
                assert(x@ =~= pb@);
            }
            Ok(x)
        } else {
            Err(ConversionError::InvalidLength)
        }
    }

    proof fn lemma_round_trip(self, pb: Vec<u8>) {
    }

    proof fn lemma_decode_unique(pb: Vec<u8>, x: [u8; 32], y: [u8; 32]) {
        assert(x =~= y);
    }
}

impl ProtobufConvert for Vec<u8> {
    type ProtoStruct = Vec<u8>;

    open spec fn is_wire(self, pb: Vec<u8>) -> bool {
        pb@ == self@
    }

    open spec fn decodes_to(pb: Vec<u8>, x: Vec<u8>) -> bool {
        x@ == pb@
    }

    open spec fn wire_decodes(pb: Vec<u8>) -> bool {
        true
    }

    open spec fn wire_error(pb: Vec<u8>) -> ConversionError {
        ConversionError::InvalidLength
    }

    open spec fn same_value(x: Vec<u8>, y: Vec<u8>) -> bool {
        x@ == y@
    }

    fn to_pb(&self) -> (r: Vec<u8>) {
        slice_to_vec(self.as_slice())
    }

    fn from_pb(pb: Vec<u8>) -> (r: Result<Vec<u8>, ConversionError>) {
        Ok(pb)
    }

    proof fn lemma_round_trip(self, pb: Vec<u8>) {
    }

    proof fn lemma_decode_unique(pb: Vec<u8>, x: Vec<u8>, y: Vec<u8>) {
    }
}

/// The index of the first element of `s` that does not decode (or the
/// length of `s` if every element does). Sequence conversion short-circuits
/// to the error of this element.
pub open spec fn first_undecodable<T: ProtobufConvert>(s: Seq<T::ProtoStruct>) -> int
    decreases s.len(),
{
    if s.len() == 0 {
        0
    } else if !T::wire_decodes(s[0]) {
        0
    } else {
        1 + first_undecodable::<T>(s.drop_first())
    }
}

proof fn lemma_first_undecodable<T: ProtobufConvert>(s: Seq<T::ProtoStruct>, k: int)
    requires
        0 <= k < s.len(),
        !T::wire_decodes(s[k]),
        forall|i: int| 0 <= i < k ==> T::wire_decodes(#[trigger] s[i]),
    ensures
        first_undecodable::<T>(s) == k,
    decreases k,
{
    if k == 0 {
    } else {
        assert(T::wire_decodes(s[0]));
        assert forall|i: int| 0 <= i < k - 1 implies T::wire_decodes(
            #[trigger] s.drop_first()[i],
        ) by {
            assert(s.drop_first()[i] == s[i + 1]);
        }
        assert(s.drop_first()[k - 1] == s[k]);
        lemma_first_undecodable::<T>(s.drop_first(), k - 1);
    }
}

impl<T: ProtobufConvert> ProtobufConvert for Vec<T> {
    type ProtoStruct = Vec<T::ProtoStruct>;

    open spec fn is_wire(self, pb: Vec<T::ProtoStruct>) -> bool {
        pb@.len() == self@.len() && forall|i: int|
            0 <= i < self@.len() ==> self@[i].is_wire(#[trigger] pb@[i])
    }

    open spec fn decodes_to(pb: Vec<T::ProtoStruct>, x: Vec<T>) -> bool {
        x@.len() == pb@.len() && forall|i: int|
            0 <= i < pb@.len() ==> T::decodes_to(#[trigger] pb@[i], x@[i])
    }

    open spec fn wire_decodes(pb: Vec<T::ProtoStruct>) -> bool {
        forall|i: int| 0 <= i < pb@.len() ==> T::wire_decodes(#[trigger] pb@[i])
    }

    open spec fn wire_error(pb: Vec<T::ProtoStruct>) -> ConversionError {
        T::wire_error(pb@[first_undecodable::<T>(pb@)])
    }

    open spec fn same_value(x: Vec<T>, y: Vec<T>) -> bool {
        x@.len() == y@.len() && forall|i: int|
            0 <= i < x@.len() ==> T::same_value(#[trigger] x@[i], y@[i])
    }

    fn to_pb(&self) -> (r: Vec<T::ProtoStruct>) {
        let mut out: Vec<T::ProtoStruct> = Vec::new();
        let mut i: usize = 0;
        while i < self.len()
            invariant
                i <= self@.len(),
                out@.len() == i,
                forall|j: int| 0 <= j < i as int ==> self@[j].is_wire(#[trigger] out@[j]),
            decreases self@.len() - i,
        {
            out.push(self[i].to_pb());
            i += 1;
        }
        out
    }

    #[verifier::loop_isolation(false)]
    fn from_pb(pb: Vec<T::ProtoStruct>) -> (r: Result<Vec<T>, ConversionError>) {
        let ghost gpb = pb@;
        let mut rest = pb;
        let mut out: Vec<T> = Vec::new();
        while rest.len() > 0
            invariant
                out@.len() + rest@.len() == gpb.len(),
                rest@ == gpb.subrange(out@.len() as int, gpb.len() as int),
                forall|j: int| 0 <= j < out@.len() ==> T::wire_decodes(#[trigger] gpb[j]),
                forall|j: int| 0 <= j < out@.len() ==> T::decodes_to(#[trigger] gpb[j], out@[j]),
            decreases rest@.len(),
        {
            let ghost k = out@.len() as int;
            let w = rest.remove(0);
            proof {
                assert(w == gpb[k]);
            }
            match T::from_pb(w) {
                Ok(x) => {
                    out.push(x);
                    proof {
                        assert(rest@ =~= gpb.subrange(out@.len() as int, gpb.len() as int));
                    }
                },
                Err(e) => {
                    proof {
                        lemma_first_undecodable::<T>(gpb, k);
                    }
                    return Err(e);
                },
            }
        }
        Ok(out)
    }

    proof fn lemma_round_trip(self, pb: Vec<T::ProtoStruct>) {
        assert forall|i: int| 0 <= i < pb@.len() implies T::wire_decodes(#[trigger] pb@[i])
            && T::decodes_to(pb@[i], self@[i]) by {
            T::lemma_round_trip(self@[i], pb@[i]);
        }
    }

    proof fn lemma_decode_unique(pb: Vec<T::ProtoStruct>, x: Vec<T>, y: Vec<T>) {
        assert forall|i: int| 0 <= i < x@.len() implies T::same_value(#[trigger] x@[i], y@[i]) by {
            T::lemma_decode_unique(pb@[i], x@[i], y@[i]);
        }
    }
}

/// The exact bytes of an address's wire form: 4 (IPv4) or 16 (IPv6) bytes
/// of address, big-endian, followed by 2 bytes of big-endian port.
pub open spec fn address_wire_bytes(a: Address) -> Seq<u8> {
    match a.ip {
        IpAddress::Ipv4 { ip } => be32_bytes(ip) + be16_bytes(a.port),
        IpAddress::Ipv6 { ip0, ip1, ip2, ip3 } => be32_bytes(ip0) + be32_bytes(ip1) + be32_bytes(
            ip2,
        ) + be32_bytes(ip3) + be16_bytes(a.port),
    }
}

/// The address read back from a 6- or 18-byte wire form.
pub open spec fn address_of_wire(b: Seq<u8>) -> Address {
    if b.len() == 6 {
        Address {
            ip: IpAddress::Ipv4 { ip: be32_value(b[0], b[1], b[2], b[3]) },
            port: be16_value(b[4], b[5]),
        }
    } else {
        Address {
            ip: IpAddress::Ipv6 {
                ip0: be32_value(b[0], b[1], b[2], b[3]),
                ip1: be32_value(b[4], b[5], b[6], b[7]),
                ip2: be32_value(b[8], b[9], b[10], b[11]),
                ip3: be32_value(b[12], b[13], b[14], b[15]),
            },
            port: be16_value(b[16], b[17]),
        }
    }
}

/// Reading an address's wire bytes back yields the address again.
proof fn lemma_address_wire_inverse(a: Address)
    ensures
        address_of_wire(address_wire_bytes(a)) == a,
{
    let b = address_wire_bytes(a);
    match a.ip {
        IpAddress::Ipv4 { ip } => {
            assert(b[0] == (ip >> 24) as u8);
            assert(b[1] == (ip >> 16) as u8);
            assert(b[2] == (ip >> 8) as u8);
            assert(b[3] == ip as u8);
            assert(b[4] == (a.port >> 8) as u8);
            assert(b[5] == a.port as u8);
            lemma_be32_roundtrip(ip);
            lemma_be16_roundtrip(a.port);
        },
        IpAddress::Ipv6 { ip0, ip1, ip2, ip3 } => {
            assert(b.len() == 18);
            assert(b[0] == (ip0 >> 24) as u8);
            assert(b[1] == (ip0 >> 16) as u8);
            assert(b[2] == (ip0 >> 8) as u8);
            assert(b[3] == ip0 as u8);
            assert(b[4] == (ip1 >> 24) as u8);
            assert(b[5] == (ip1 >> 16) as u8);
            assert(b[6] == (ip1 >> 8) as u8);
            assert(b[7] == ip1 as u8);
            assert(b[8] == (ip2 >> 24) as u8);
            assert(b[9] == (ip2 >> 16) as u8);
            assert(b[10] == (ip2 >> 8) as u8);
            assert(b[11] == ip2 as u8);
            assert(b[12] == (ip3 >> 24) as u8);
            assert(b[13] == (ip3 >> 16) as u8);
            assert(b[14] == (ip3 >> 8) as u8);
            assert(b[15] == ip3 as u8);
            assert(b[16] == (a.port >> 8) as u8);
            assert(b[17] == a.port as u8);
            lemma_be32_roundtrip(ip0);
            lemma_be32_roundtrip(ip1);
            lemma_be32_roundtrip(ip2);
            lemma_be32_roundtrip(ip3);
            lemma_be16_roundtrip(a.port);
        },
    }
}

impl ProtobufConvert for Address {
    type ProtoStruct = wire::Address;

    open spec fn is_wire(self, pb: wire::Address) -> bool {
        pb.address@ == address_wire_bytes(self)
    }

    open spec fn decodes_to(pb: wire::Address, x: Address) -> bool {
        pb.address@ == address_wire_bytes(x)
    }

    open spec fn wire_decodes(pb: wire::Address) -> bool {
        pb.address@.len() == 6 || pb.address@.len() == 18
    }

    open spec fn wire_error(pb: wire::Address) -> ConversionError {
        ConversionError::InvalidLength
    }

    open spec fn same_value(x: Address, y: Address) -> bool {
        x == y
    }

    fn to_pb(&self) -> (r: wire::Address) {
        let mut bytes: Vec<u8> = Vec::new();
        match self.ip {
            IpAddress::Ipv4 { ip } => {
                push_be32(&mut bytes, ip);
            },
            IpAddress::Ipv6 { ip0, ip1, ip2, ip3 } => {
                push_be32(&mut bytes, ip0);
                push_be32(&mut bytes, ip1);
                push_be32(&mut bytes, ip2);
                push_be32(&mut bytes, ip3);
            },
        }
        push_be16(&mut bytes, self.port);
        proof {
            assert(bytes@ =~= address_wire_bytes(*self));
        }
        wire::Address { address: bytes }
    }

    fn from_pb(pb: wire::Address) -> (r: Result<Address, ConversionError>) {
        let b = pb.address;
        if b.len() == 6 {
            let ip = be32_value_exec(b[0], b[1], b[2], b[3]);
            let port = be16_value_exec(b[4], b[5]);
            let a = Address { ip: IpAddress::Ipv4 { ip }, port };
            proof {
                lemma_be32_bytes_of_value(b@[0], b@[1], b@[2], b@[3]);
                lemma_be16_bytes_of_value(b@[4], b@[5]);
                assert(address_wire_bytes(a) =~= b@);
            }
            Ok(a)
        } else if b.len() == 18 {
            let ip0 = be32_value_exec(b[0], b[1], b[2], b[3]);
            let ip1 = be32_value_exec(b[4], b[5], b[6], b[7]);
            let ip2 = be32_value_exec(b[8], b[9], b[10], b[11]);
            let ip3 = be32_value_exec(b[12], b[13], b[14], b[15]);
            let port = be16_value_exec(b[16], b[17]);
            let a = Address { ip: IpAddress::Ipv6 { ip0, ip1, ip2, ip3 }, port };
            proof {
                lemma_be32_bytes_of_value(b@[0], b@[1], b@[2], b@[3]);
                lemma_be32_bytes_of_value(b@[4], b@[5], b@[6], b@[7]);
                lemma_be32_bytes_of_value(b@[8], b@[9], b@[10], b@[11]);
                lemma_be32_bytes_of_value(b@[12], b@[13], b@[14], b@[15]);
                lemma_be16_bytes_of_value(b@[16], b@[17]);
                assert(address_wire_bytes(a) =~= b@);
            }
            Ok(a)
        } else {
            Err(ConversionError::InvalidLength)
        }
    }

    proof fn lemma_round_trip(self, pb: wire::Address) {
    }

    proof fn lemma_decode_unique(pb: wire::Address, x: Address, y: Address) {
        lemma_address_wire_inverse(x);
        lemma_address_wire_inverse(y);
        assert(x == address_of_wire(pb.address@));
        assert(y == address_of_wire(pb.address@));
    }
}

impl ProtobufConvert for chain::DigitalSignature {
    type ProtoStruct = wire::SignatureWire;

    open spec fn is_wire(self, pb: wire::SignatureWire) -> bool {
        match (self, pb.kind) {
            (chain::DigitalSignature::Secp256k1(sig), Some(w)) => w.r@ == sig.r@ && w.s@ == sig.s@.push(
                sig.v,
            ),
            (chain::DigitalSignature::Secp256k1(sig), None) => false,
        }
    }

    open spec fn decodes_to(pb: wire::SignatureWire, x: chain::DigitalSignature) -> bool {
        x.is_wire(pb)
    }

    open spec fn wire_decodes(pb: wire::SignatureWire) -> bool {
        match pb.kind {
            Some(w) => w.r@.len() == 32 && w.s@.len() == 33,
            None => false,
        }
    }

    open spec fn wire_error(pb: wire::SignatureWire) -> ConversionError {
        match pb.kind {
            Some(w) => ConversionError::InvalidLength,
            None => ConversionError::UnknownVariant,
        }
    }

    open spec fn same_value(x: chain::DigitalSignature, y: chain::DigitalSignature) -> bool {
        x == y
    }

    fn to_pb(&self) -> (r: wire::SignatureWire) {
        match self {
            chain::DigitalSignature::Secp256k1(sig) => {
                let rv = slice_to_vec(sig.r.as_slice());
                let mut sv = slice_to_vec(sig.s.as_slice());
                sv.push(sig.v);
                wire::SignatureWire { kind: Some(wire::Secp256k1Signature { r: rv, s: sv }) }
            },
        }
    }

    fn from_pb(pb: wire::SignatureWire) -> (r: Result<chain::DigitalSignature, ConversionError>) {
        match pb.kind {
            Some(w) => {
                if w.r.len() == 32 && w.s.len() == 33 {
                    let r_arr: [u8; 32] = prefix_array(&w.r);
                    let s_arr: [u8; 32] = prefix_array(&w.s);
                    let v = w.s[32];
                    proof {
                        assert(r_arr@ =~= w.r@);
                        assert(s_arr@.push(v) =~= w.s@);
                    }
                    Ok(
                        chain::DigitalSignature::Secp256k1(
                            chain::Secp256k1Signature { r: r_arr, s: s_arr, v },
                        ),
                    )
                } else {
                    Err(ConversionError::InvalidLength)
                }
            },
            None => Err(ConversionError::UnknownVariant),
        }
    }

    proof fn lemma_round_trip(self, pb: wire::SignatureWire) {
    }

    proof fn lemma_decode_unique(pb: wire::SignatureWire, x: chain::DigitalSignature, y: chain::DigitalSignature) {
        match (x, y, pb.kind) {
            (chain::DigitalSignature::Secp256k1(xs), chain::DigitalSignature::Secp256k1(ys), Some(w)) => {
                assert(xs.r =~= ys.r);
                assert(xs.v == w.s@[32]);
                assert(ys.v == w.s@[32]);
                assert forall|i: int| 0 <= i < 32 implies xs.s@[i] == ys.s@[i] by {
                    assert(xs.s@.push(xs.v)[i] == xs.s@[i]);
                    assert(ys.s@.push(ys.v)[i] == ys.s@[i]);
                }
                assert(xs.s =~= ys.s);
            },
            _ => (),
        }
    }
}

impl ProtobufConvert for chain::LeadershipProof {
    type ProtoStruct = wire::LeadershipProof;

    open spec fn is_wire(self, pb: wire::LeadershipProof) -> bool {
        pb.influence == self.influence && match (self.block_sig, pb.block_sig) {
            (Some(s), Some(ws)) => s.is_wire(ws),
            (None, None) => true,
            _ => false,
        }
    }

    open spec fn decodes_to(pb: wire::LeadershipProof, x: chain::LeadershipProof) -> bool {
        pb.influence == x.influence && match (x.block_sig, pb.block_sig) {
            (Some(s), Some(ws)) => chain::DigitalSignature::decodes_to(ws, s),
            (None, None) => true,
            _ => false,
        }
    }

    open spec fn wire_decodes(pb: wire::LeadershipProof) -> bool {
        match pb.block_sig {
            Some(ws) => chain::DigitalSignature::wire_decodes(ws),
            None => true,
        }
    }

    open spec fn wire_error(pb: wire::LeadershipProof) -> ConversionError {
        match pb.block_sig {
            Some(ws) => chain::DigitalSignature::wire_error(ws),
            None => ConversionError::UnknownVariant,
        }
    }

    open spec fn same_value(x: chain::LeadershipProof, y: chain::LeadershipProof) -> bool {
        x == y
    }

    fn to_pb(&self) -> (r: wire::LeadershipProof) {
        let block_sig = match &self.block_sig {
            Some(sig) => Some(sig.to_pb()),
            None => None,
        };
        wire::LeadershipProof { block_sig, influence: self.influence }
    }

    fn from_pb(pb: wire::LeadershipProof) -> (r: Result<chain::LeadershipProof, ConversionError>) {
        let influence = pb.influence;
        match pb.block_sig {
            Some(ws) => match chain::DigitalSignature::from_pb(ws) {
                Ok(s) => Ok(chain::LeadershipProof { block_sig: Some(s), influence }),
                Err(e) => Err(e),
            },
            None => Ok(chain::LeadershipProof { block_sig: None, influence }),
        }
    }

    proof fn lemma_round_trip(self, pb: wire::LeadershipProof) {
        match (self.block_sig, pb.block_sig) {
            (Some(s), Some(ws)) => chain::DigitalSignature::lemma_round_trip(s, ws),
            _ => (),
        }
    }

    proof fn lemma_decode_unique(
        pb: wire::LeadershipProof,
        x: chain::LeadershipProof,
        y: chain::LeadershipProof,
    ) {
        match (x.block_sig, y.block_sig, pb.block_sig) {
            (Some(xs), Some(ys), Some(ws)) => chain::DigitalSignature::lemma_decode_unique(ws, xs, ys),
            _ => (),
        }
    }
}

/// Length enforcement: decoding a 20-byte-array field succeeds exactly
/// when the wire sequence holds 20 bytes.
pub proof fn lemma_array20_length_enforcement(pb: Vec<u8>)
    ensures
        <[u8; 20] as ProtobufConvert>::wire_decodes(pb) <==> pb@.len() == 20,
{
}

/// Length enforcement: decoding a 32-byte-array field succeeds exactly
/// when the wire sequence holds 32 bytes.
pub proof fn lemma_array32_length_enforcement(pb: Vec<u8>)
    ensures
        <[u8; 32] as ProtobufConvert>::wire_decodes(pb) <==> pb@.len() == 32,
{
}

/// Length enforcement: decoding a signature succeeds exactly when a scheme
/// tag is present, `r` holds 32 bytes and `s` holds 33 (the 32-byte `s`
/// value followed by the recovery byte).
pub proof fn lemma_signature_length_enforcement(pb: wire::SignatureWire)
    ensures
        <chain::DigitalSignature as ProtobufConvert>::wire_decodes(pb) <==> (pb.kind matches Some(w)
            && w.r@.len() == 32 && w.s@.len() == 33),
{
}

/// Length enforcement: decoding an address succeeds exactly when the wire
/// sequence holds 6 bytes (IPv4) or 18 bytes (IPv6).
pub proof fn lemma_address_length_enforcement(pb: wire::Address)
    ensures
        <Address as ProtobufConvert>::wire_decodes(pb) <==> (pb.address@.len() == 6
            || pb.address@.len() == 18),
{
}

/// Range enforcement: decoding an 8-bit signed value from its 32-bit wire
/// form succeeds exactly when the wide value does not exceed the type's
/// maximum, and preserves every value the type can hold.
pub proof fn lemma_i8_range_enforcement(pb: i32)
    ensures
        <i8 as ProtobufConvert>::wire_decodes(pb) <==> pb <= i8::MAX as i32,
        i8::MIN as i32 <= pb <= i8::MAX as i32 ==> <i8 as ProtobufConvert>::decodes_to(pb, pb as i8)
            && pb as i8 == pb,
{
}

/// Range enforcement: decoding a 16-bit unsigned value from its 32-bit
/// wire form succeeds exactly when the wide value does not exceed the
/// type's maximum, and is then value-preserving.
pub proof fn lemma_u16_range_enforcement(pb: u32)
    ensures
        <u16 as ProtobufConvert>::wire_decodes(pb) <==> pb <= u16::MAX as u32,
        pb <= u16::MAX as u32 ==> <u16 as ProtobufConvert>::decodes_to(pb, pb as u16) && pb as u16
            == pb,
{
}

/// Range enforcement: decoding a 16-bit signed value from its 32-bit wire
/// form succeeds exactly when the wide value does not exceed the type's
/// maximum, and preserves every value the type can hold.
pub proof fn lemma_i16_range_enforcement(pb: i32)
    ensures
        <i16 as ProtobufConvert>::wire_decodes(pb) <==> pb <= i16::MAX as i32,
        i16::MIN as i32 <= pb <= i16::MAX as i32 ==> <i16 as ProtobufConvert>::decodes_to(
            pb,
            pb as i16,
        ) && pb as i16 == pb,
{
}

} // verus!
