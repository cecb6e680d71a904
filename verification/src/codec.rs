//! Identifier codec: packs a security category and a raw sequence number
//! into one signed 64-bit key, and unpacks such keys again.
//!
//! Each category owns a fixed tag; the key is `tag * 2^48 + sequence`. The
//! tag values are a wire contract: persisted keys only stay decodable while
//! every category keeps its tag. Decoding rejects keys whose tag bits match
//! no known category instead of guessing, so garbage keys surface as `None`.

use vstd::prelude::*;

verus! {

/// The closed set of security categories the codec can pack into a key.
#[derive(Clone, Copy, PartialEq, Eq, Hash, Debug, Structural)]
pub enum SecurityType {
    Equity,
    Bond,
    Option,
    Future,
    Etf,
    MutualFund,
    Crypto,
    Fx,
    Swap,
    Warrant,
    Adr,
    Preferred,
    Other,
}

/// Which per-symbol resources have already been ingested for a security.
#[derive(Clone, Copy, PartialEq, Eq, Hash, Debug, Structural)]
pub enum SymbolFlag {
    Overview,
    Intraday,
    Summary,
    All,
}

/// The factor that moves a category tag into the high bits of a key.
pub const TAG_SHIFT_FACTOR: i64 = 0x1_0000_0000_0000;

/// Low-bits mask bound: a decoded sequence number is the key reduced
/// modulo this value (31 usable sequence bits).
pub const SEQUENCE_MODULUS: i64 = 0x8000_0000;

/// The tag permanently assigned to each category.
pub open spec fn spec_tag_of(t: SecurityType) -> i64 {
    match t {
        SecurityType::Equity => 0x00,
        SecurityType::Preferred => 0x02,
        SecurityType::Adr => 0x04,
        SecurityType::Warrant => 0x06,
        SecurityType::Bond => 0x10,
        SecurityType::Option => 0x20,
        SecurityType::Future => 0x30,
        SecurityType::Etf => 0x40,
        SecurityType::MutualFund => 0x50,
        SecurityType::Crypto => 0x60,
        SecurityType::Fx => 0x70,
        SecurityType::Swap => 0x80,
        SecurityType::Other => 0xF0,
    }
}

/// Does this value match the tag of some category?
pub open spec fn spec_known_tag(tag: int) -> bool {
    tag == 0x00 || tag == 0x02 || tag == 0x04 || tag == 0x06 || tag == 0x10 || tag == 0x20
        || tag == 0x30 || tag == 0x40 || tag == 0x50 || tag == 0x60 || tag == 0x70 || tag == 0x80
        || tag == 0xF0
}

/// The category a known tag stands for (unknown tags map to `Other`,
/// which callers must guard with `spec_known_tag`).
pub open spec fn spec_type_of_tag(tag: int) -> SecurityType {
    if tag == 0x00 {
        SecurityType::Equity
    } else if tag == 0x02 {
        SecurityType::Preferred
    } else if tag == 0x04 {
        SecurityType::Adr
    } else if tag == 0x06 {
        SecurityType::Warrant
    } else if tag == 0x10 {
        SecurityType::Bond
    } else if tag == 0x20 {
        SecurityType::Option
    } else if tag == 0x30 {
        SecurityType::Future
    } else if tag == 0x40 {
        SecurityType::Etf
    } else if tag == 0x50 {
        SecurityType::MutualFund
    } else if tag == 0x60 {
        SecurityType::Crypto
    } else if tag == 0x70 {
        SecurityType::Fx
    } else if tag == 0x80 {
        SecurityType::Swap
    } else {
        SecurityType::Other
    }
}

/// The key that a category and sequence number pack into.
pub open spec fn spec_encode(t: SecurityType, id: u32) -> i64 {
    (spec_tag_of(t) * TAG_SHIFT_FACTOR + id) as i64
}

/// What decoding a key yields: `None` for negative keys and unknown tags,
/// otherwise the tag's category and the low sequence bits.
pub open spec fn spec_decode(key: i64) -> Option<(SecurityType, u32)> {
    if key >= 0 && spec_known_tag(key as int / TAG_SHIFT_FACTOR as int) {
        Some(
            (
                spec_type_of_tag(key as int / TAG_SHIFT_FACTOR as int),
                (key as int % SEQUENCE_MODULUS as int) as u32,
            ),
        )
    } else {
        None
    }
}

/// Tags are mutually distinct, so a key names at most one category.
pub broadcast proof fn lemma_tags_distinct(a: SecurityType, b: SecurityType)
    ensures
        #[trigger] spec_tag_of(a) == #[trigger] spec_tag_of(b) ==> a == b,
{
}

impl SecurityType {
    /// The tag permanently assigned to this category.
    pub fn tag(self) -> (r: i64)
        ensures
            r == spec_tag_of(self),
            0 <= r <= 0xF0,
    {
        match self {
            SecurityType::Equity => 0x00,
            SecurityType::Preferred => 0x02,
            SecurityType::Adr => 0x04,
            SecurityType::Warrant => 0x06,
            SecurityType::Bond => 0x10,
            SecurityType::Option => 0x20,
            SecurityType::Future => 0x30,
            SecurityType::Etf => 0x40,
            SecurityType::MutualFund => 0x50,
            SecurityType::Crypto => 0x60,
            SecurityType::Fx => 0x70,
            SecurityType::Swap => 0x80,
            SecurityType::Other => 0xF0,
        }
    }

    /// Pack a category and sequence number into a key.
    pub fn encode(security_type: SecurityType, id: u32) -> (r: i64)
        ensures
            r == spec_encode(security_type, id),
            r >= 0,
    {
        let tag = security_type.tag();
        tag * TAG_SHIFT_FACTOR + id as i64
    }

    /// Unpack only the category of a key; unknown tag bits and negative
    /// keys yield `Other`, mirroring how stored keys of retired layouts
    /// are still attributed somewhere.
    pub fn decode_type(encoded: i64) -> (r: SecurityType)
        ensures
            r == (match spec_decode(encoded) {
                Some(pair) => pair.0,
                None => SecurityType::Other,
            }),
    {
        if encoded < 0 {
            return SecurityType::Other;
        }
        let tag = encoded / TAG_SHIFT_FACTOR;
        match Self::type_of_known_tag(tag) {
            Some(t) => t,
            None => SecurityType::Other,
        }
    }

    /// Look a tag up against the known tag set.
    fn type_of_known_tag(tag: i64) -> (r: Option<SecurityType>)
        ensures
            r is Some <==> spec_known_tag(tag as int),
            r is Some ==> r == Some(spec_type_of_tag(tag as int)),
    {
        if tag == 0x00 {
            Some(SecurityType::Equity)
        } else if tag == 0x02 {
            Some(SecurityType::Preferred)
        } else if tag == 0x04 {
            Some(SecurityType::Adr)
        } else if tag == 0x06 {
            Some(SecurityType::Warrant)
        } else if tag == 0x10 {
            Some(SecurityType::Bond)
        } else if tag == 0x20 {
            Some(SecurityType::Option)
        } else if tag == 0x30 {
            Some(SecurityType::Future)
        } else if tag == 0x40 {
            Some(SecurityType::Etf)
        } else if tag == 0x50 {
            Some(SecurityType::MutualFund)
        } else if tag == 0x60 {
            Some(SecurityType::Crypto)
        } else if tag == 0x70 {
            Some(SecurityType::Fx)
        } else if tag == 0x80 {
            Some(SecurityType::Swap)
        } else if tag == 0xF0 {
            Some(SecurityType::Other)
        } else {
            None
        }
    }
}

/// A security category together with its raw sequence number: the two
/// halves of a packed 64-bit key.
#[derive(Clone, Copy, PartialEq, Eq, Hash, Debug, Structural)]
pub struct SecurityIdentifier {
    pub security_type: SecurityType,
    pub raw_id: u32,
}

impl SecurityIdentifier {
    /// Pair a category with a raw sequence number.
    pub fn new(security_type: SecurityType, raw_id: u32) -> (r: Self)
        ensures
            r.security_type == security_type,
            r.raw_id == raw_id,
    {
        Self { security_type, raw_id }
    }

    /// Pack this identifier into a key.
    pub fn encode(&self) -> (r: i64)
        ensures
            r == spec_encode(self.security_type, self.raw_id),
    {
        SecurityType::encode(self.security_type, self.raw_id)
    }

    /// Unpack a key, rejecting keys whose tag bits match no known category.
    pub fn decode(encoded: i64) -> (r: Option<Self>)
        ensures
            r is Some <==> spec_decode(encoded) is Some,
            r is Some ==> {
                let pair = spec_decode(encoded)->Some_0;
                r->Some_0.security_type == pair.0 && r->Some_0.raw_id == pair.1
            },
    {
        if encoded < 0 {
            return None;
        }
        let tag = encoded / TAG_SHIFT_FACTOR;
        match SecurityType::type_of_known_tag(tag) {
            Some(t) => {
                let raw = encoded % SEQUENCE_MODULUS;
                Some(Self::new(t, raw as u32))
            },
            None => None,
        }
    }
}

/// Codec round trip: every valid pair of category and sequence number
/// survives an encode followed by a decode unchanged.
pub proof fn lemma_codec_round_trip(t: SecurityType, id: u32)
    requires
        id < SEQUENCE_MODULUS,
    ensures
        spec_decode(spec_encode(t, id)) == Some((t, id)),
{
    let tag = spec_tag_of(t) as int;
    let key = tag * TAG_SHIFT_FACTOR as int + id;
    assert(spec_encode(t, id) == key as i64);
    assert(key / TAG_SHIFT_FACTOR as int == tag) by (nonlinear_arith)
        requires
            0 <= tag <= 0xF0,
            key == tag * TAG_SHIFT_FACTOR as int + id,
            0 <= id < TAG_SHIFT_FACTOR as int,
            TAG_SHIFT_FACTOR == 0x1_0000_0000_0000,
    ;
    assert(key % SEQUENCE_MODULUS as int == id as int) by (nonlinear_arith)
        requires
            0 <= tag <= 0xF0,
            key == tag * TAG_SHIFT_FACTOR as int + id,
            0 <= id < SEQUENCE_MODULUS as int,
            TAG_SHIFT_FACTOR == 0x1_0000_0000_0000,
            SEQUENCE_MODULUS == 0x8000_0000,
    ;
}

/// Codec rejection: a key whose tag bits name no known category decodes
/// to nothing rather than to a wrong category.
pub proof fn lemma_codec_rejects_unknown(key: i64)
    requires
        key < 0 || !spec_known_tag(key as int / TAG_SHIFT_FACTOR as int),
    ensures
        spec_decode(key) is None,
{
}

} // verus!
