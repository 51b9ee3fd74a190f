//! Transaction type identifiers for an EIP-2718-style typed transaction
//! envelope, extended with the chain-specific deposit transaction.
//!
//! The crate defines the closed set of valid type codes, the bijective
//! conversions between the symbolic variants and their one-byte wire values,
//! and the single-byte encode/decode rules that let the discriminant
//! round-trip through a typed envelope.

use vstd::prelude::*;

verus! {

use vstd::std_specs::cmp::PartialEqSpec;
use vstd::std_specs::cmp::PartialOrdSpec;

/// Identifier for a deposit transaction.
pub const DEPOSIT_TX_TYPE_ID: u8 = 126;

/// Transaction type flags as specified in EIPs 2718, 2930, 1559 and 7702,
/// together with the chain-specific deposit transaction type.
///
/// The variants are declared in ascending order of their numeric codes, so
/// the natural ordering of the enum agrees with the numeric ordering of the
/// codes.
#[derive(Clone, Copy, Debug, Hash, PartialEq, Eq, Structural)]
pub enum OpTxType {
    /// Legacy transaction type (code 0).
    Legacy,
    /// EIP-2930 transaction type (code 1).
    Eip2930,
    /// EIP-1559 transaction type (code 2).
    Eip1559,
    /// EIP-7702 transaction type (code 4).
    Eip7702,
    /// Deposit transaction type (code 126).
    Deposit,
}

/// Error of the 8-bit narrowing conversion: the byte is not a valid
/// transaction type code. It carries the offending byte for diagnostics.
#[derive(Clone, Copy, Debug, Hash, PartialEq, Eq, Structural)]
pub enum TypeError {
    /// The byte is not one of the known transaction type codes.
    UnexpectedType(u8),
}

/// Error of decoding a transaction type from a byte stream.
///
/// End of input is kept distinct from an invalid type byte: an empty source
/// is reported as `InputTooShort`, a present but unknown byte as
/// `InvalidTransactionType`.
#[derive(Clone, Copy, Debug, Hash, PartialEq, Eq, Structural)]
pub enum DecodeError {
    /// The source held no byte to read.
    InputTooShort,
    /// The byte read is not a valid transaction type code.
    InvalidTransactionType,
}

impl OpTxType {
    /// The numeric code of each variant.
    pub open spec fn code(self) -> u8 {
        match self {
            OpTxType::Legacy => 0,
            OpTxType::Eip2930 => 1,
            OpTxType::Eip1559 => 2,
            OpTxType::Eip7702 => 4,
            OpTxType::Deposit => 126,
        }
    }

    /// Returns the fixed numeric code of the variant.
    pub fn to_u8(self) -> (r: u8)
        ensures
            r == self.code(),
    {
        match self {
            OpTxType::Legacy => 0,
            OpTxType::Eip2930 => 1,
            OpTxType::Eip1559 => 2,
            OpTxType::Eip7702 => 4,
            OpTxType::Deposit => 126,
        }
    }

    /// Returns `true` if the type is [`OpTxType::Deposit`].
    pub fn is_deposit(&self) -> (r: bool)
        ensures
            r == (*self is Deposit),
    {
        matches!(self, OpTxType::Deposit)
    }
}

/// Whether a byte is one of the valid transaction type codes
/// {0, 1, 2, 4, 126}.
pub open spec fn is_known_code(value: u8) -> bool {
    value == 0 || value == 1 || value == 2 || value == 4 || value == 126
}

/// The variant bound to a byte, if any: the inverse of [`OpTxType::code`].
pub open spec fn code_to_type(value: u8) -> Option<OpTxType> {
    if value == 0 {
        Some(OpTxType::Legacy)
    } else if value == 1 {
        Some(OpTxType::Eip2930)
    } else if value == 2 {
        Some(OpTxType::Eip1559)
    } else if value == 4 {
        Some(OpTxType::Eip7702)
    } else if value == 126 {
        Some(OpTxType::Deposit)
    } else {
        None
    }
}

impl OpTxType {
    /// Narrows a byte to a transaction type. Succeeds exactly on the valid
    /// codes; any other byte is rejected with an error carrying that byte.
    pub fn from_u8(value: u8) -> (r: Result<OpTxType, TypeError>)
        ensures
            r matches Ok(t) ==> is_known_code(value) && t == code_to_type(value)->Some_0,
            r matches Err(e) ==> !is_known_code(value) && e == TypeError::UnexpectedType(value),
    {
        match value {
            0 => Ok(OpTxType::Legacy),
            1 => Ok(OpTxType::Eip2930),
            2 => Ok(OpTxType::Eip1559),
            4 => Ok(OpTxType::Eip7702),
            126 => Ok(OpTxType::Deposit),
            _ => Err(TypeError::UnexpectedType(value)),
        }
    }

    /// Narrows a 64-bit value to a transaction type. Succeeds exactly when
    /// the value fits in 8 bits and is a valid code; the error message is
    /// deliberately generic and does not carry the offending value.
    pub fn from_u64(value: u64) -> (r: Result<OpTxType, &'static str>)
        ensures
            r matches Ok(t) ==> value <= u8::MAX && is_known_code(value as u8) && t == code_to_type(
                value as u8,
            )->Some_0,
            r matches Err(m) ==> (value > u8::MAX || !is_known_code(value as u8)) && m@
                == "invalid tx type"@,
    {
        if value > u8::MAX as u64 {
            return Err("invalid tx type");
        }
        match OpTxType::from_u8(value as u8) {
            Ok(t) => Ok(t),
            Err(_) => Err("invalid tx type"),
        }
    }

    /// Returns `true` iff the byte is one of the known transaction type
    /// codes, without attempting a full decode.
    pub fn is_known_type(value: u8) -> (r: bool)
        ensures
            r == is_known_code(value),
    {
        matches!(value, 0 | 1 | 2 | 4 | 126)
    }

    /// All variants, in ascending order of their numeric codes.
    pub fn all() -> (r: Vec<OpTxType>)
        ensures
            r@ == all_types(),
    {
        let mut v: Vec<OpTxType> = Vec::new();
        v.push(OpTxType::Legacy);
        v.push(OpTxType::Eip2930);
        v.push(OpTxType::Eip1559);
        v.push(OpTxType::Eip7702);
        v.push(OpTxType::Deposit);
        proof {
            assert(v@ =~= all_types());
        }
        v
    }

    /// The numeric type code, as placed in a typed envelope.
    pub fn ty(&self) -> (r: u8)
        ensures
            r == self.code(),
    {
        self.to_u8()
    }

    /// Appends the one-byte encoding of the variant — its numeric code — to
    /// the output.
    pub fn encode(&self, out: &mut Vec<u8>)
        ensures
            final(out)@ == old(out)@.push(self.code()),
    {
        out.push(self.to_u8());
    }

    /// The length of the encoding: always exactly one byte.
    pub fn length(&self) -> (r: usize)
        ensures
            r == 1,
    {
        1
    }

    /// Reads one byte from the front of the source, advancing it by one
    /// byte, and narrows the byte to a transaction type. An empty source and
    /// an unknown type byte are reported as distinct errors; on an unknown
    /// type byte the offending byte has still been consumed.
    pub fn decode(buf: &mut &[u8]) -> (r: Result<OpTxType, DecodeError>)
        ensures
            r matches Ok(t) ==> old(buf)@.len() > 0 && is_known_code(old(buf)@[0]) && t
                == code_to_type(old(buf)@[0])->Some_0,
            r == Err::<OpTxType, DecodeError>(DecodeError::InputTooShort) <==> old(buf)@.len() == 0,
            r matches Err(e) && e is InvalidTransactionType ==> old(buf)@.len() > 0
                && !is_known_code(old(buf)@[0]),
            old(buf)@.len() == 0 ==> final(buf)@ == old(buf)@,
            old(buf)@.len() > 0 ==> final(buf)@ == old(buf)@.subrange(1, old(buf)@.len() as int),
    {
        let cur: &[u8] = *buf;
        if cur.len() == 0 {
            return Err(DecodeError::InputTooShort);
        }
        let value: u8 = *vstd::slice::slice_index_get(cur, 0);
        *buf = vstd::slice::slice_subrange(cur, 1, cur.len());
        match OpTxType::from_u8(value) {
            Ok(t) => Ok(t),
            Err(_) => Err(DecodeError::InvalidTransactionType),
        }
    }

    /// The fixed lowercase display token of the variant.
    pub fn as_str(self) -> (r: &'static str)
        ensures
            r@ == self.display_token(),
    {
        match self {
            OpTxType::Legacy => "legacy",
            OpTxType::Eip2930 => "eip2930",
            OpTxType::Eip1559 => "eip1559",
            OpTxType::Eip7702 => "eip7702",
            OpTxType::Deposit => "deposit",
        }
    }

    /// The display token of each variant.
    pub open spec fn display_token(self) -> Seq<char> {
        match self {
            OpTxType::Legacy => "legacy"@,
            OpTxType::Eip2930 => "eip2930"@,
            OpTxType::Eip1559 => "eip1559"@,
            OpTxType::Eip7702 => "eip7702"@,
            OpTxType::Deposit => "deposit"@,
        }
    }
}

/// The fixed list of all variants, in ascending order of their numeric
/// codes.
pub open spec fn all_types() -> Seq<OpTxType> {
    seq![
        OpTxType::Legacy,
        OpTxType::Eip2930,
        OpTxType::Eip1559,
        OpTxType::Eip7702,
        OpTxType::Deposit,
    ]
}

impl Default for OpTxType {
    /// The default transaction type is `Legacy`.
    fn default() -> (r: Self)
        ensures
            r == OpTxType::Legacy,
    {
        OpTxType::Legacy
    }
}

impl From<OpTxType> for u8 {
    /// Widens a transaction type to its fixed numeric code.
    fn from(t: OpTxType) -> (r: u8) {
        t.to_u8()
    }
}

impl vstd::std_specs::convert::FromSpecImpl<OpTxType> for u8 {
    open spec fn obeys_from_spec() -> bool {
        true
    }

    open spec fn from_spec(t: OpTxType) -> u8 {
        t.code()
    }
}

impl PartialEq<u8> for OpTxType {
    /// A variant equals a raw byte exactly when the byte is the variant's
    /// numeric code.
    fn eq(&self, other: &u8) -> (r: bool) {
        self.to_u8() == *other
    }
}

impl vstd::std_specs::cmp::PartialEqSpecImpl<u8> for OpTxType {
    open spec fn obeys_eq_spec() -> bool {
        true
    }

    open spec fn eq_spec(&self, other: &u8) -> bool {
        self.code() == *other
    }
}

impl PartialEq<OpTxType> for u8 {
    /// A raw byte equals a variant exactly when the byte is the variant's
    /// numeric code.
    fn eq(&self, other: &OpTxType) -> (r: bool) {
        *self == other.to_u8()
    }
}

impl vstd::std_specs::cmp::PartialEqSpecImpl<OpTxType> for u8 {
    open spec fn obeys_eq_spec() -> bool {
        true
    }

    open spec fn eq_spec(&self, other: &OpTxType) -> bool {
        *self == other.code()
    }
}

impl PartialOrd for OpTxType {
    /// Variants compare by their numeric codes.
    fn partial_cmp(&self, other: &Self) -> (r: Option<core::cmp::Ordering>) {
        let a = self.to_u8();
        let b = other.to_u8();
        if a < b {
            Some(core::cmp::Ordering::Less)
        } else if a == b {
            Some(core::cmp::Ordering::Equal)
        } else {
            Some(core::cmp::Ordering::Greater)
        }
    }
}

impl vstd::std_specs::cmp::PartialOrdSpecImpl for OpTxType {
    open spec fn obeys_partial_cmp_spec() -> bool {
        true
    }

    open spec fn partial_cmp_spec(&self, other: &Self) -> Option<core::cmp::Ordering> {
        if self.code() < other.code() {
            Some(core::cmp::Ordering::Less)
        } else if self.code() == other.code() {
            Some(core::cmp::Ordering::Equal)
        } else {
            Some(core::cmp::Ordering::Greater)
        }
    }
}

/// The fixed variant list is exhaustive: it has exactly five entries, in
/// ascending code order, and every variant appears in it.
pub proof fn lemma_all_types_exhaustive(t: OpTxType)
    ensures
        all_types().len() == 5,
        all_types() == seq![
            OpTxType::Legacy,
            OpTxType::Eip2930,
            OpTxType::Eip1559,
            OpTxType::Eip7702,
            OpTxType::Deposit,
        ],
        all_types().contains(t),
{
    let s = all_types();
    match t {
        OpTxType::Legacy => assert(s[0] == t),
        OpTxType::Eip2930 => assert(s[1] == t),
        OpTxType::Eip1559 => assert(s[2] == t),
        OpTxType::Eip7702 => assert(s[3] == t),
        OpTxType::Deposit => assert(s[4] == t),
    }
}

/// Round trip: narrowing the numeric code of any variant yields that variant
/// again. Together with the contracts of `encode` and `decode` this says
/// that decoding the one-byte encoding of a variant returns the variant.
pub proof fn lemma_code_roundtrip(t: OpTxType)
    ensures
        is_known_code(t.code()),
        code_to_type(t.code()) == Some(t),
{
}

/// Bijection: over the known codes, `code` and `code_to_type` are mutually
/// inverse, and narrowing fails exactly on the unknown bytes.
pub proof fn lemma_code_bijection(value: u8)
    ensures
        is_known_code(value) <==> code_to_type(value) is Some,
        code_to_type(value) matches Some(t) ==> t.code() == value,
{
}

/// The natural ordering of variants is the ascending order of their numeric
/// codes.
pub proof fn lemma_order_matches_code(a: OpTxType, b: OpTxType)
    ensures
        a.partial_cmp_spec(&b) == Some(core::cmp::Ordering::Less) <==> a.code() < b.code(),
        a.partial_cmp_spec(&b) == Some(core::cmp::Ordering::Equal) <==> a == b,
        a.partial_cmp_spec(&b) == Some(core::cmp::Ordering::Greater) <==> a.code() > b.code(),
{
    lemma_code_roundtrip(a);
    lemma_code_roundtrip(b);
}

/// Equality between a variant and a raw byte is equality of the variant's
/// numeric code and that byte, in both operand orders.
pub proof fn lemma_cross_type_equality(t: OpTxType, value: u8)
    ensures
        t.eq_spec(&value) <==> t.code() == value,
        value.eq_spec(&t) <==> t.code() == value,
        t.eq_spec(&value) == value.eq_spec(&t),
{
}

} // verus!
