//! The result decoder: each supported query's payload is projected into a
//! typed domain record, as a pure function of the parsed document. Malformed
//! payloads become `InternalError`; the one expected absence — a token
//! record that is `null` — becomes `InvalidInput`.

use crate::base64::b64_decode;
use crate::error::DomainError;
use crate::jsonval::json_as_array;
use crate::jsonval::json_as_str;
use crate::jsonval::json_as_u64;
use crate::jsonval::json_doc;
use crate::jsonval::json_get;
use crate::jsonval::json_is_null;
use crate::jsonval::json_is_object;
use crate::jsonval::jmodel;
use crate::jsonval::parse_json;
use crate::jsonval::JVal;
use crate::numeric::dec_body;
use crate::numeric::dec_digits;
use crate::numeric::dec_value;
use crate::numeric::parse_u128_dec;
use crate::numeric::parse_u32_wire;
use crate::numeric::parses_as_u128;
use crate::numeric::u32_read;
use crate::numeric::U32Parse;
use crate::numeric::u64_to_dec;
use vstd::prelude::*;
use vstd::utf8::decode_utf8;
use vstd::utf8::valid_utf8;

verus! {

/// Fungible-token contract metadata, with the hash field already decoded
/// from its base64 wire form to plain text.
#[derive(Debug)]
pub struct FtMetadata {
    pub spec_version: String,
    pub name: String,
    pub symbol: String,
    pub icon: Option<String>,
    pub decimals: u8,
    pub reference: Option<String>,
    pub reference_hash: Option<String>,
}

/// Ghost shape of `FtMetadata`.
pub struct FtMetadataV {
    pub spec_version: Seq<char>,
    pub name: Seq<char>,
    pub symbol: Seq<char>,
    pub icon: Option<Seq<char>>,
    pub decimals: u8,
    pub reference: Option<Seq<char>>,
    pub reference_hash: Option<Seq<char>>,
}

impl View for FtMetadata {
    type V = FtMetadataV;

    open spec fn view(&self) -> FtMetadataV {
        FtMetadataV {
            spec_version: self.spec_version@,
            name: self.name@,
            symbol: self.symbol@,
            icon: self.icon.deep_view(),
            decimals: self.decimals,
            reference: self.reference.deep_view(),
            reference_hash: self.reference_hash.deep_view(),
        }
    }
}

/// Non-fungible-token contract metadata, hash field decoded as above.
#[derive(Debug)]
pub struct NftMetadata {
    pub spec_version: String,
    pub name: String,
    pub symbol: String,
    pub icon: Option<String>,
    pub base_uri: Option<String>,
    pub reference: Option<String>,
    pub reference_hash: Option<String>,
}

/// Ghost shape of `NftMetadata`.
pub struct NftMetadataV {
    pub spec_version: Seq<char>,
    pub name: Seq<char>,
    pub symbol: Seq<char>,
    pub icon: Option<Seq<char>>,
    pub base_uri: Option<Seq<char>>,
    pub reference: Option<Seq<char>>,
    pub reference_hash: Option<Seq<char>>,
}

impl View for NftMetadata {
    type V = NftMetadataV;

    open spec fn view(&self) -> NftMetadataV {
        NftMetadataV {
            spec_version: self.spec_version@,
            name: self.name@,
            symbol: self.symbol@,
            icon: self.icon.deep_view(),
            base_uri: self.base_uri.deep_view(),
            reference: self.reference.deep_view(),
            reference_hash: self.reference_hash.deep_view(),
        }
    }
}

/// Per-token metadata carried inside a token record.
#[derive(Debug)]
pub struct NftItemMetadata {
    pub title: Option<String>,
    pub description: Option<String>,
    pub media: Option<String>,
    pub copies: Option<u64>,
}

/// Ghost shape of `NftItemMetadata`.
pub struct NftItemMetadataV {
    pub title: Option<Seq<char>>,
    pub description: Option<Seq<char>>,
    pub media: Option<Seq<char>>,
    pub copies: Option<u64>,
}

impl View for NftItemMetadata {
    type V = NftItemMetadataV;

    open spec fn view(&self) -> NftItemMetadataV {
        NftItemMetadataV {
            title: self.title.deep_view(),
            description: self.description.deep_view(),
            media: self.media.deep_view(),
            copies: self.copies,
        }
    }
}

/// One non-fungible token: its id, its owner, and its metadata when the
/// contract reports any.
#[derive(Debug)]
pub struct NonFungibleToken {
    pub token_id: String,
    pub owner_account_id: String,
    pub metadata: Option<NftItemMetadata>,
}

/// Ghost shape of `NonFungibleToken`.
pub struct NonFungibleTokenV {
    pub token_id: Seq<char>,
    pub owner_account_id: Seq<char>,
    pub metadata: Option<NftItemMetadataV>,
}

impl View for NonFungibleToken {
    type V = NonFungibleTokenV;

    open spec fn view(&self) -> NonFungibleTokenV {
        NonFungibleTokenV {
            token_id: self.token_id@,
            owner_account_id: self.owner_account_id@,
            metadata: match self.metadata {
                Some(m) => Some(m@),
                None => None,
            },
        }
    }
}

/// A required string member: present and a string, or the record is
/// malformed.
pub open spec fn req_str_field(m: Map<Seq<char>, JVal>, k: Seq<char>) -> Option<Seq<char>> {
    if m.dom().contains(k) {
        match m[k] {
            JVal::Str(s) => Some(s),
            _ => None,
        }
    } else {
        None
    }
}

/// An optional string member: absent or null means none; any present value
/// that is not a string makes the record malformed.
pub open spec fn opt_str_field(m: Map<Seq<char>, JVal>, k: Seq<char>) -> Option<
    Option<Seq<char>>,
> {
    if !m.dom().contains(k) {
        Some(None)
    } else {
        match m[k] {
            JVal::Null => Some(None),
            JVal::Str(s) => Some(Some(s)),
            _ => None,
        }
    }
}

/// An optional unsigned member, rejected when present but not an unsigned
/// number.
pub open spec fn opt_u64_field(m: Map<Seq<char>, JVal>, k: Seq<char>) -> Option<Option<u64>> {
    if !m.dom().contains(k) {
        Some(None)
    } else {
        match m[k] {
            JVal::Null => Some(None),
            JVal::Num(n) => match n {
                Some(v) => Some(Some(v)),
                None => None,
            },
            _ => None,
        }
    }
}

/// A required unsigned member that must fit in one byte, as a token
/// decimals count must.
pub open spec fn req_u8_field(m: Map<Seq<char>, JVal>, k: Seq<char>) -> Option<u8> {
    if m.dom().contains(k) {
        match m[k] {
            JVal::Num(n) => match n {
                Some(v) => if v <= 255 {
                    Some(v as u8)
                } else {
                    None
                },
                None => None,
            },
            _ => None,
        }
    } else {
        None
    }
}

/// The plain text a base64 hash member denotes, if it decodes.
pub open spec fn hash_text_of(s: Seq<char>) -> Option<Seq<char>> {
    match b64_decode(s) {
        Some(b) => if valid_utf8(b) {
            Some(decode_utf8(b))
        } else {
            None
        },
        None => None,
    }
}

/// An optional base64 hash member, decoded to plain text.
pub open spec fn opt_hash_field(m: Map<Seq<char>, JVal>, k: Seq<char>) -> Option<
    Option<Seq<char>>,
> {
    match opt_str_field(m, k) {
        Some(Some(s)) => match hash_text_of(s) {
            Some(t) => Some(Some(t)),
            None => None,
        },
        Some(None) => Some(None),
        None => None,
    }
}

/// What a fungible-token metadata payload denotes.
pub open spec fn ft_metadata_of_doc(j: JVal) -> Option<FtMetadataV> {
    match j {
        JVal::Obj(m) => match (req_str_field(m, "spec"@), req_str_field(m, "name"@), req_str_field(
            m,
            "symbol"@,
        )) {
            (Some(sp), Some(nm), Some(sy)) => match req_u8_field(m, "decimals"@) {
                Some(dc) => match (opt_str_field(m, "icon"@), opt_str_field(m, "reference"@),
                opt_hash_field(m, "reference_hash"@)) {
                    (Some(ic), Some(rf), Some(rh)) => Some(
                        FtMetadataV {
                            spec_version: sp,
                            name: nm,
                            symbol: sy,
                            icon: ic,
                            decimals: dc,
                            reference: rf,
                            reference_hash: rh,
                        },
                    ),
                    _ => None,
                },
                None => None,
            },
            _ => None,
        },
        _ => None,
    }
}

/// What a non-fungible-token contract metadata payload denotes.
pub open spec fn nft_metadata_of_doc(j: JVal) -> Option<NftMetadataV> {
    match j {
        JVal::Obj(m) => match (req_str_field(m, "spec"@), req_str_field(m, "name"@), req_str_field(
            m,
            "symbol"@,
        )) {
            (Some(sp), Some(nm), Some(sy)) => match (opt_str_field(m, "icon"@), opt_str_field(
                m,
                "base_uri"@,
            ), opt_str_field(m, "reference"@), opt_hash_field(m, "reference_hash"@)) {
                (Some(ic), Some(bu), Some(rf), Some(rh)) => Some(
                    NftMetadataV {
                        spec_version: sp,
                        name: nm,
                        symbol: sy,
                        icon: ic,
                        base_uri: bu,
                        reference: rf,
                        reference_hash: rh,
                    },
                ),
                _ => None,
            },
            _ => None,
        },
        _ => None,
    }
}

/// What the metadata member of a token record denotes: absent or null means
/// none, an object its fields, anything else a malformed record.
pub open spec fn token_meta_of(j: JVal) -> Option<Option<NftItemMetadataV>> {
    match j {
        JVal::Null => Some(None),
        JVal::Obj(m) => match (opt_str_field(m, "title"@), opt_str_field(m, "description"@),
        opt_str_field(m, "media"@), opt_u64_field(m, "copies"@)) {
            (Some(t), Some(d), Some(md), Some(c)) => Some(
                Some(NftItemMetadataV { title: t, description: d, media: md, copies: c }),
            ),
            _ => None,
        },
        _ => None,
    }
}

/// What one token record denotes.
pub open spec fn token_of(j: JVal) -> Option<NonFungibleTokenV> {
    match j {
        JVal::Obj(m) => match (req_str_field(m, "token_id"@), req_str_field(m, "owner_id"@)) {
            (Some(tid), Some(oid)) => {
                let meta = if m.dom().contains("metadata"@) {
                    token_meta_of(m["metadata"@])
                } else {
                    Some(None)
                };
                match meta {
                    Some(mm) => Some(
                        NonFungibleTokenV { token_id: tid, owner_account_id: oid, metadata: mm },
                    ),
                    None => None,
                }
            },
            _ => None,
        },
        _ => None,
    }
}

/// What a token-list payload denotes: every record in order, or nothing at
/// all as soon as any one record is malformed.
pub open spec fn tokens_of(s: Seq<JVal>) -> Option<Seq<NonFungibleTokenV>>
    decreases s.len(),
{
    if s.len() == 0 {
        Some(Seq::empty())
    } else {
        match tokens_of(s.drop_last()) {
            Some(r) => match token_of(s.last()) {
                Some(t) => Some(r.push(t)),
                None => None,
            },
            None => None,
        }
    }
}

/// The views of a vector of tokens, in order.
pub open spec fn token_views(s: Seq<NonFungibleToken>) -> Seq<NonFungibleTokenV> {
    Seq::new(s.len(), |i: int| s[i]@)
}

/// A malformed record anywhere makes the whole list denote nothing.
proof fn lemma_tokens_of_failure(s: Seq<JVal>, k: int)
    requires
        0 <= k < s.len(),
        token_of(s[k]) is None,
    ensures
        tokens_of(s) is None,
    decreases s.len(),
{
    if k == s.len() - 1 {
        assert(s.last() == s[k]);
    } else {
        assert(s.drop_last()[k] == s[k]);
        lemma_tokens_of_failure(s.drop_last(), k);
    }
}

/// Read a required string member of `v`.
fn get_req_str(v: &serde_json::Value, key: &str) -> (r: Option<String>)
    ensures
        match jmodel(*v) {
            JVal::Obj(m) => match req_str_field(m, key@) {
                Some(s) => r matches Some(t) && t@ == s,
                None => r is None,
            },
            _ => r is None,
        },
{
    match json_get(v, key) {
        Some(x) => match json_as_str(x) {
            Some(t) => Some(t.to_owned()),
            None => None,
        },
        None => None,
    }
}

/// Read an optional string member of `v`; the outer None reports a
/// malformed record.
fn get_opt_str(v: &serde_json::Value, key: &str) -> (r: Option<Option<String>>)
    ensures
        match jmodel(*v) {
            JVal::Obj(m) => match opt_str_field(m, key@) {
                Some(Some(s)) => r matches Some(o) && (o matches Some(t) && t@ == s),
                Some(None) => r matches Some(o) && o is None,
                None => r is None,
            },
            _ => r is None,
        },
{
    if !json_is_object(v) {
        return None;
    }
    match json_get(v, key) {
        None => Some(None),
        Some(x) => {
            if json_is_null(x) {
                Some(None)
            } else {
                match json_as_str(x) {
                    Some(t) => Some(Some(t.to_owned())),
                    None => None,
                }
            }
        },
    }
}

/// Read an optional unsigned member of `v`; the outer None reports a
/// malformed record.
fn get_opt_u64(v: &serde_json::Value, key: &str) -> (r: Option<Option<u64>>)
    ensures
        match jmodel(*v) {
            JVal::Obj(m) => match opt_u64_field(m, key@) {
                Some(Some(n)) => r matches Some(o) && (o matches Some(w) && w == n),
                Some(None) => r matches Some(o) && o is None,
                None => r is None,
            },
            _ => r is None,
        },
{
    if !json_is_object(v) {
        return None;
    }
    match json_get(v, key) {
        None => Some(None),
        Some(x) => {
            if json_is_null(x) {
                Some(None)
            } else {
                match json_as_u64(x) {
                    Some(n) => Some(Some(n)),
                    None => None,
                }
            }
        },
    }
}

/// Read a required one-byte unsigned member of `v`.
fn get_req_u8(v: &serde_json::Value, key: &str) -> (r: Option<u8>)
    ensures
        match jmodel(*v) {
            JVal::Obj(m) => match req_u8_field(m, key@) {
                Some(d) => r matches Some(w) && w == d,
                None => r is None,
            },
            _ => r is None,
        },
{
    match json_get(v, key) {
        Some(x) => match json_as_u64(x) {
            Some(n) => if n <= 255 {
                Some(n as u8)
            } else {
                None
            },
            None => None,
        },
        None => None,
    }
}

/// Read an optional base64 hash member of `v`, decoded to plain text; the
/// outer None reports a malformed record or an undecodable hash.
fn get_opt_hash(v: &serde_json::Value, key: &str) -> (r: Option<Option<String>>)
    ensures
        match jmodel(*v) {
            JVal::Obj(m) => match opt_hash_field(m, key@) {
                Some(Some(s)) => r matches Some(o) && (o matches Some(t) && t@ == s),
                Some(None) => r matches Some(o) && o is None,
                None => r is None,
            },
            _ => r is None,
        },
{
    if !json_is_object(v) {
        return None;
    }
    match json_get(v, key) {
        None => Some(None),
        Some(x) => {
            if json_is_null(x) {
                Some(None)
            } else {
                match json_as_str(x) {
                    Some(t) => match crate::base64::base64_to_text(t) {
                        Some(txt) => Some(Some(txt)),
                        None => None,
                    },
                    None => None,
                }
            }
        },
    }
}

/// One `InternalError` carrying exactly the given description.
fn internal(msg: &str) -> (r: DomainError)
    ensures
        (r matches DomainError::InternalError(m) && m@ == msg@),
{
    DomainError::InternalError(String::from_str(msg))
}

/// Decode a fungible-token balance payload: a JSON string holding a decimal
/// 128-bit integer. Anything else is an `InternalError`.
pub fn decode_ft_balance(payload: &Vec<u8>) -> (r: Result<u128, DomainError>)
    ensures
        match json_doc(payload@) {
            Ok(j) => match j {
                JVal::Str(s) => if parses_as_u128(s) {
                    r matches Ok(b) && b == dec_value(dec_body(s))
                } else {
                    r matches Err(e) && (e matches DomainError::InternalError(m) && m@
                        == "the balance payload is not a decimal 128-bit string"@)
                },
                _ => (r matches Err(e) && (e matches DomainError::InternalError(m) && m@
                    == "the balance payload is not a JSON string"@)),
            },
            Err(d) => (r matches Err(e) && (e matches DomainError::InternalError(m) && m@ == d)),
        },
{
    let doc = match parse_json(payload) {
        Ok(d) => d,
        Err(m) => {
            return Err(DomainError::InternalError(m));
        },
    };
    match json_as_str(&doc) {
        Some(s) => match parse_u128_dec(s) {
            Some(v) => Ok(v),
            None => Err(internal("the balance payload is not a decimal 128-bit string")),
        },
        None => Err(internal("the balance payload is not a JSON string")),
    }
}

/// The message reported when a token-count payload does not hold a decimal
/// 32-bit integer: the fixed prefix, then the diagnostic of the reading
/// that failed.
pub open spec fn supply_err_msg(p: U32Parse) -> Seq<char> {
    "Failed to parse u32 "@ + (match p {
        U32Parse::EmptyInput => "cannot parse integer from empty string"@,
        U32Parse::InvalidDigit => "invalid digit found in string"@,
        U32Parse::TooLarge => "number too large to fit in target type"@,
        U32Parse::Value(_) => Seq::<char>::empty(),
    })
}

/// Decode a token-count payload: a JSON string holding a decimal 32-bit
/// integer. A string that does not read as one is reported with the
/// diagnostic of the reading that failed.
pub fn decode_nft_supply(payload: &Vec<u8>) -> (r: Result<u32, DomainError>)
    ensures
        match json_doc(payload@) {
            Ok(j) => match j {
                JVal::Str(s) => match u32_read(s) {
                    U32Parse::Value(v) => r matches Ok(b) && b == v,
                    p => (r matches Err(e) && (e matches DomainError::InternalError(m) && m@
                        == supply_err_msg(p))),
                },
                _ => (r matches Err(e) && (e matches DomainError::InternalError(m) && m@
                    == "the count payload is not a JSON string"@)),
            },
            Err(d) => (r matches Err(e) && (e matches DomainError::InternalError(m) && m@ == d)),
        },
{
    let doc = match parse_json(payload) {
        Ok(d) => d,
        Err(m) => {
            return Err(DomainError::InternalError(m));
        },
    };
    match json_as_str(&doc) {
        Some(s) => match parse_u32_wire(s) {
            U32Parse::Value(v) => Ok(v),
            U32Parse::EmptyInput => {
                let m = String::from_str("Failed to parse u32 cannot parse integer from empty string");
                proof {
                    reveal_strlit("Failed to parse u32 cannot parse integer from empty string");
                    reveal_strlit("Failed to parse u32 ");
                    reveal_strlit("cannot parse integer from empty string");
                    assert(m@ =~= supply_err_msg(U32Parse::EmptyInput));
                }
                Err(DomainError::InternalError(m))
            },
            U32Parse::InvalidDigit => {
                let m = String::from_str("Failed to parse u32 invalid digit found in string");
                proof {
                    reveal_strlit("Failed to parse u32 invalid digit found in string");
                    reveal_strlit("Failed to parse u32 ");
                    reveal_strlit("invalid digit found in string");
                    assert(m@ =~= supply_err_msg(U32Parse::InvalidDigit));
                }
                Err(DomainError::InternalError(m))
            },
            U32Parse::TooLarge => {
                let m = String::from_str("Failed to parse u32 number too large to fit in target type");
                proof {
                    reveal_strlit("Failed to parse u32 number too large to fit in target type");
                    reveal_strlit("Failed to parse u32 ");
                    reveal_strlit("number too large to fit in target type");
                    assert(m@ =~= supply_err_msg(U32Parse::TooLarge));
                }
                Err(DomainError::InternalError(m))
            },
        },
        None => Err(internal("the count payload is not a JSON string")),
    }
}

/// The message reported for the first malformed member of a fungible-token
/// metadata document, in the order the members are read.
pub open spec fn ft_metadata_err_msg(j: JVal) -> Seq<char> {
    match j {
        JVal::Obj(m) => if req_str_field(m, "spec"@) is None {
            "the metadata payload has no well-formed spec member"@
        } else if req_str_field(m, "name"@) is None {
            "the metadata payload has no well-formed name member"@
        } else if req_str_field(m, "symbol"@) is None {
            "the metadata payload has no well-formed symbol member"@
        } else if req_u8_field(m, "decimals"@) is None {
            "the metadata payload has no well-formed decimals member"@
        } else if opt_str_field(m, "icon"@) is None {
            "the metadata payload has a malformed icon member"@
        } else if opt_str_field(m, "reference"@) is None {
            "the metadata payload has a malformed reference member"@
        } else {
            "the metadata payload has an undecodable reference_hash member"@
        },
        _ => "the metadata payload has no well-formed spec member"@,
    }
}

/// The message reported for the first malformed member of a
/// non-fungible-token contract metadata document.
pub open spec fn nft_metadata_err_msg(j: JVal) -> Seq<char> {
    match j {
        JVal::Obj(m) => if req_str_field(m, "spec"@) is None {
            "the metadata payload has no well-formed spec member"@
        } else if req_str_field(m, "name"@) is None {
            "the metadata payload has no well-formed name member"@
        } else if req_str_field(m, "symbol"@) is None {
            "the metadata payload has no well-formed symbol member"@
        } else if opt_str_field(m, "icon"@) is None {
            "the metadata payload has a malformed icon member"@
        } else if opt_str_field(m, "base_uri"@) is None {
            "the metadata payload has a malformed base_uri member"@
        } else if opt_str_field(m, "reference"@) is None {
            "the metadata payload has a malformed reference member"@
        } else {
            "the metadata payload has an undecodable reference_hash member"@
        },
        _ => "the metadata payload has no well-formed spec member"@,
    }
}

/// Project one parsed metadata document into the fungible-token record,
/// exactly as `ft_metadata_of_doc` reads it.
pub fn ft_metadata_from_json(doc: &serde_json::Value) -> (r: Result<FtMetadata, DomainError>)
    ensures
        match ft_metadata_of_doc(jmodel(*doc)) {
            Some(mv) => r matches Ok(md) && md@ == mv,
            None => (r matches Err(e) && (e matches DomainError::InternalError(m) && m@
                == ft_metadata_err_msg(jmodel(*doc)))),
        },
{
    let spec_version = match get_req_str(doc, "spec") {
        Some(s) => s,
        None => {
            return Err(internal("the metadata payload has no well-formed spec member"));
        },
    };
    let name = match get_req_str(doc, "name") {
        Some(s) => s,
        None => {
            return Err(internal("the metadata payload has no well-formed name member"));
        },
    };
    let symbol = match get_req_str(doc, "symbol") {
        Some(s) => s,
        None => {
            return Err(internal("the metadata payload has no well-formed symbol member"));
        },
    };
    let decimals = match get_req_u8(doc, "decimals") {
        Some(d) => d,
        None => {
            return Err(internal("the metadata payload has no well-formed decimals member"));
        },
    };
    let icon = match get_opt_str(doc, "icon") {
        Some(o) => o,
        None => {
            return Err(internal("the metadata payload has a malformed icon member"));
        },
    };
    let reference = match get_opt_str(doc, "reference") {
        Some(o) => o,
        None => {
            return Err(internal("the metadata payload has a malformed reference member"));
        },
    };
    let reference_hash = match get_opt_hash(doc, "reference_hash") {
        Some(o) => o,
        None => {
            return Err(internal("the metadata payload has an undecodable reference_hash member"));
        },
    };
    Ok(FtMetadata { spec_version, name, symbol, icon, decimals, reference, reference_hash })
}

/// Decode a fungible-token metadata payload into its domain record.
pub fn decode_ft_metadata(payload: &Vec<u8>) -> (r: Result<FtMetadata, DomainError>)
    ensures
        match json_doc(payload@) {
            Ok(j) => match ft_metadata_of_doc(j) {
                Some(mv) => r matches Ok(md) && md@ == mv,
                None => (r matches Err(e) && (e matches DomainError::InternalError(m) && m@
                    == ft_metadata_err_msg(j))),
            },
            Err(d) => (r matches Err(e) && (e matches DomainError::InternalError(m) && m@ == d)),
        },
{
    let doc = match parse_json(payload) {
        Ok(d) => d,
        Err(m) => {
            return Err(DomainError::InternalError(m));
        },
    };
    ft_metadata_from_json(&doc)
}

/// Project one parsed metadata document into the non-fungible-token
/// contract record, exactly as `nft_metadata_of_doc` reads it.
pub fn nft_metadata_from_json(doc: &serde_json::Value) -> (r: Result<NftMetadata, DomainError>)
    ensures
        match nft_metadata_of_doc(jmodel(*doc)) {
            Some(mv) => r matches Ok(md) && md@ == mv,
            None => (r matches Err(e) && (e matches DomainError::InternalError(m) && m@
                == nft_metadata_err_msg(jmodel(*doc)))),
        },
{
    let spec_version = match get_req_str(doc, "spec") {
        Some(s) => s,
        None => {
            return Err(internal("the metadata payload has no well-formed spec member"));
        },
    };
    let name = match get_req_str(doc, "name") {
        Some(s) => s,
        None => {
            return Err(internal("the metadata payload has no well-formed name member"));
        },
    };
    let symbol = match get_req_str(doc, "symbol") {
        Some(s) => s,
        None => {
            return Err(internal("the metadata payload has no well-formed symbol member"));
        },
    };
    let icon = match get_opt_str(doc, "icon") {
        Some(o) => o,
        None => {
            return Err(internal("the metadata payload has a malformed icon member"));
        },
    };
    let base_uri = match get_opt_str(doc, "base_uri") {
        Some(o) => o,
        None => {
            return Err(internal("the metadata payload has a malformed base_uri member"));
        },
    };
    let reference = match get_opt_str(doc, "reference") {
        Some(o) => o,
        None => {
            return Err(internal("the metadata payload has a malformed reference member"));
        },
    };
    let reference_hash = match get_opt_hash(doc, "reference_hash") {
        Some(o) => o,
        None => {
            return Err(internal("the metadata payload has an undecodable reference_hash member"));
        },
    };
    Ok(NftMetadata { spec_version, name, symbol, icon, base_uri, reference, reference_hash })
}

/// Decode a non-fungible-token contract metadata payload into its domain
/// record.
pub fn decode_nft_general_metadata(payload: &Vec<u8>) -> (r: Result<NftMetadata, DomainError>)
    ensures
        match json_doc(payload@) {
            Ok(j) => match nft_metadata_of_doc(j) {
                Some(mv) => r matches Ok(md) && md@ == mv,
                None => (r matches Err(e) && (e matches DomainError::InternalError(m) && m@
                    == nft_metadata_err_msg(j))),
            },
            Err(d) => (r matches Err(e) && (e matches DomainError::InternalError(m) && m@ == d)),
        },
{
    let doc = match parse_json(payload) {
        Ok(d) => d,
        Err(m) => {
            return Err(DomainError::InternalError(m));
        },
    };
    nft_metadata_from_json(&doc)
}

/// Convert one parsed token record into its domain token.
pub fn token_from_json(v: &serde_json::Value) -> (r: Option<NonFungibleToken>)
    ensures
        match token_of(jmodel(*v)) {
            Some(t) => r matches Some(tok) && tok@ == t,
            None => r is None,
        },
{
    let token_id = match get_req_str(v, "token_id") {
        Some(s) => s,
        None => {
            return None;
        },
    };
    let owner_account_id = match get_req_str(v, "owner_id") {
        Some(s) => s,
        None => {
            return None;
        },
    };
    let metadata = match json_get(v, "metadata") {
        None => None,
        Some(x) => {
            if json_is_null(x) {
                None
            } else if json_is_object(x) {
                let title = match get_opt_str(x, "title") {
                    Some(o) => o,
                    None => {
                        return None;
                    },
                };
                let description = match get_opt_str(x, "description") {
                    Some(o) => o,
                    None => {
                        return None;
                    },
                };
                let media = match get_opt_str(x, "media") {
                    Some(o) => o,
                    None => {
                        return None;
                    },
                };
                let copies = match get_opt_u64(x, "copies") {
                    Some(o) => o,
                    None => {
                        return None;
                    },
                };
                Some(NftItemMetadata { title, description, media, copies })
            } else {
                return None;
            }
        },
    };
    Some(NonFungibleToken { token_id, owner_account_id, metadata })
}

/// The message reported when the token named in a single-token query does
/// not exist in the contract at the pinned height.
pub open spec fn missing_token_msg(token: Seq<char>, contract: Seq<char>, h: u64) -> Seq<char> {
    "Token '"@ + token + "' does not exist in contract '"@ + contract + "', block_height "@
        + dec_digits(h as nat)
}

/// Decode a single-token payload: `null` means the token does not exist and
/// is reported as `InvalidInput` naming the token, the contract and the
/// height; a record is converted; anything else is an `InternalError`.
pub fn decode_single_nft(
    payload: &Vec<u8>,
    token_id: &str,
    contract_id: &str,
    block_height: u64,
) -> (r: Result<NonFungibleToken, DomainError>)
    ensures
        match json_doc(payload@) {
            Ok(j) => if j is Null {
                r matches Err(e) && (e matches DomainError::InvalidInput(m) && m@
                    == missing_token_msg(token_id@, contract_id@, block_height))
            } else {
                match token_of(j) {
                    Some(t) => r matches Ok(tok) && tok@ == t,
                    None => (r matches Err(e) && (e matches DomainError::InternalError(m) && m@
                        == "the token payload is not a well-formed token record"@)),
                }
            },
            Err(d) => (r matches Err(e) && (e matches DomainError::InternalError(m) && m@ == d)),
        },
{
    let doc = match parse_json(payload) {
        Ok(d) => d,
        Err(m) => {
            return Err(DomainError::InternalError(m));
        },
    };
    if json_is_null(&doc) {
        let mut msg = String::from_str("Token '");
        msg.append(token_id);
        msg.append("' does not exist in contract '");
        msg.append(contract_id);
        msg.append("', block_height ");
        let h = u64_to_dec(block_height);
        msg.append(h.as_str());
        proof {
            assert(msg@ =~= missing_token_msg(token_id@, contract_id@, block_height));
        }
        return Err(DomainError::InvalidInput(msg));
    }
    match token_from_json(&doc) {
        Some(tok) => Ok(tok),
        None => Err(internal("the token payload is not a well-formed token record")),
    }
}

/// Decode a token-list payload: a JSON array of token records, converted in
/// order; the first malformed record fails the whole call and no partial
/// sequence is ever returned.
pub fn decode_nft_list(payload: &Vec<u8>) -> (r: Result<Vec<NonFungibleToken>, DomainError>)
    ensures
        match json_doc(payload@) {
            Ok(j) => match j {
                JVal::Arr(elems) => match tokens_of(elems) {
                    Some(ts) => r matches Ok(v) && token_views(v@) == ts,
                    None => (r matches Err(e) && (e matches DomainError::InternalError(m) && m@
                        == "a token record in the list payload is malformed"@)),
                },
                _ => (r matches Err(e) && (e matches DomainError::InternalError(m) && m@
                    == "the token-list payload is not a JSON array"@)),
            },
            Err(d) => (r matches Err(e) && (e matches DomainError::InternalError(m) && m@ == d)),
        },
{
    let doc = match parse_json(payload) {
        Ok(d) => d,
        Err(m) => {
            return Err(DomainError::InternalError(m));
        },
    };
    let arr = match json_as_array(&doc) {
        Some(a) => a,
        None => {
            return Err(internal("the token-list payload is not a JSON array"));
        },
    };
    let ghost elems: Seq<JVal> = match jmodel(doc) {
        JVal::Arr(s) => s,
        _ => Seq::empty(),
    };
    let n = arr.len();
    let mut out: Vec<NonFungibleToken> = Vec::new();
    let mut i: usize = 0;
    while i < n
        invariant
            0 <= i <= n,
            n == arr@.len(),
            jmodel(doc) == JVal::Arr(elems),
            json_doc(payload@) == Ok::<JVal, Seq<char>>(JVal::Arr(elems)),
            arr@.len() == elems.len(),
            forall|k: int| 0 <= k < elems.len() ==> #[trigger] jmodel(arr@[k]) == elems[k],
            tokens_of(elems.take(i as int)) == Some(token_views(out@)),
        decreases n - i,
    {
        let t = match token_from_json(&arr[i]) {
            Some(t) => t,
            None => {
                proof {
                    lemma_tokens_of_failure(elems, i as int);
                }
                return Err(internal("a token record in the list payload is malformed"));
            },
        };
        let ghost prev = out@;
        out.push(t);
        proof {
            assert(elems.take(i as int + 1).drop_last() =~= elems.take(i as int));
            assert(elems.take(i as int + 1).last() == elems[i as int]);
            assert(token_views(out@) =~= token_views(prev).push(t@));
        }
        i = i + 1;
    }
    proof {
        assert(elems.take(n as int) =~= elems);
    }
    Ok(out)
}

} // verus!
