//! The lending market metadata record and its resilient decoder, together
//! with the byte-to-text helpers.
//!
//! The record is a fixed 111-byte layout: an 8-byte bump seed, three text
//! fields each stored as a 2-byte length prefix followed by a fixed
//! zero-padded region (24, 32 and 24 bytes), a lookup-table count byte, and
//! a 16-byte lookup-table region. The strict strategy requires every length
//! prefix to fit its region; the relaxed strategy ignores the prefixes and
//! reads each region up to its first zero byte.

use crate::address::Address;
use crate::error::SolendError;
use crate::fields::push_bytes_padded;
use crate::fields::push_u16_le;
use crate::fields::push_u64_le;
use crate::fields::push_u8;
use crate::fields::read_bytes;
use crate::fields::read_u16_le;
use crate::fields::read_u64_le;
use crate::fields::read_u8;
use crate::fields::zero_bytes;
use vstd::bytes::lemma_auto_spec_u16_to_from_le_bytes;
use vstd::bytes::lemma_auto_spec_u64_to_from_le_bytes;
use vstd::bytes::spec_u16_from_le_bytes;
use vstd::bytes::spec_u16_to_le_bytes;
use vstd::bytes::spec_u64_from_le_bytes;
use vstd::bytes::spec_u64_to_le_bytes;
use vstd::prelude::*;

verus! {

/// The serialized width of a lending market metadata record.
pub const LENDING_MARKET_METADATA_SIZE: usize = 111;

/// A decoded lending market metadata account. The text fields hold raw
/// bytes; `trim_string` turns them into text.
#[derive(Debug, Clone)]
pub struct LendingMarketMetadata {
    pub bump_seed: u64,
    pub market_name: Vec<u8>,
    pub market_description: Vec<u8>,
    pub market_image_url: Vec<u8>,
    pub lookup_tables: Vec<u8>,
}

/// Mathematical model of a metadata record.
#[verifier::ext_equal]
pub struct LendingMarketMetadataV {
    pub bump_seed: u64,
    pub market_name: Seq<u8>,
    pub market_description: Seq<u8>,
    pub market_image_url: Seq<u8>,
    pub lookup_tables: Seq<u8>,
}

impl View for LendingMarketMetadata {
    type V = LendingMarketMetadataV;

    open spec fn view(&self) -> LendingMarketMetadataV {
        LendingMarketMetadataV {
            bump_seed: self.bump_seed,
            market_name: self.market_name@,
            market_description: self.market_description@,
            market_image_url: self.market_image_url@,
            lookup_tables: self.lookup_tables@,
        }
    }
}

impl LendingMarketMetadataV {
    /// Each field fits its fixed region.
    pub open spec fn wf(&self) -> bool {
        &&& self.market_name.len() <= 24
        &&& self.market_description.len() <= 32
        &&& self.market_image_url.len() <= 24
        &&& self.lookup_tables.len() <= 16
    }
}

/// The index of the first zero byte of `s`, or its length when none is.
pub open spec fn first_zero(s: Seq<u8>) -> int
    decreases s.len(),
{
    if s.len() == 0 {
        0
    } else if s[0] == 0 {
        0
    } else {
        1 + first_zero(s.drop_first())
    }
}

/// The index of the first nonzero byte of `s`, or its length when none is.
pub open spec fn first_nonzero(s: Seq<u8>) -> int
    decreases s.len(),
{
    if s.len() == 0 {
        0
    } else if s[0] != 0 {
        0
    } else {
        1 + first_nonzero(s.drop_first())
    }
}

/// `first_zero` points at the first zero byte: everything before it is
/// nonzero, and it lies inside the sequence unless no zero exists.
pub proof fn lemma_first_zero(s: Seq<u8>)
    ensures
        0 <= first_zero(s) <= s.len(),
        forall|j: int| 0 <= j < first_zero(s) ==> s[j] != 0,
        first_zero(s) < s.len() ==> s[first_zero(s)] == 0,
    decreases s.len(),
{
    if s.len() > 0 && s[0] != 0 {
        lemma_first_zero(s.drop_first());
        assert(forall|j: int| 0 <= j < first_zero(s.drop_first()) ==> s.drop_first()[j] != 0);
        assert forall|j: int| 0 <= j < first_zero(s) implies s[j] != 0 by {
            if j > 0 {
                assert(s.drop_first()[j - 1] != 0);
            }
        }
    }
}

/// `first_nonzero` points at the first nonzero byte: everything before it
/// is zero, and it lies inside the sequence unless all bytes are zero.
pub proof fn lemma_first_nonzero(s: Seq<u8>)
    ensures
        0 <= first_nonzero(s) <= s.len(),
        forall|j: int| 0 <= j < first_nonzero(s) ==> s[j] == 0,
        first_nonzero(s) < s.len() ==> s[first_nonzero(s)] != 0,
    decreases s.len(),
{
    if s.len() > 0 && s[0] == 0 {
        lemma_first_nonzero(s.drop_first());
        assert forall|j: int| 0 <= j < first_nonzero(s) implies s[j] == 0 by {
            if j > 0 {
                assert(s.drop_first()[j - 1] == 0);
            }
        }
    }
}

/// The bytes of `s` left after removing leading zeros and stopping at the
/// next zero byte.
pub open spec fn spec_trimmed(s: Seq<u8>) -> Seq<u8> {
    let start = if first_nonzero(s) < s.len() {
        first_nonzero(s)
    } else {
        0
    };
    let rest = s.subrange(start, s.len() as int);
    rest.subrange(0, first_zero(rest))
}

/// What `String::from_utf8` decides for a byte sequence: the decoded text
/// when the bytes are valid UTF-8, and nothing otherwise.
pub uninterp spec fn utf8_decode(bytes: Seq<u8>) -> Option<Seq<char>>;

/// Relies on String::from_utf8: whether the bytes are valid UTF-8, and the
/// text they decode to, are functions of the bytes alone.
#[verifier::external_body]
fn bytes_to_string(bytes: Vec<u8>) -> (r: Option<String>)
    ensures
        (r is Some) == (utf8_decode(bytes@) is Some),
        r matches Some(s) ==> utf8_decode(bytes@) == Some(s@),
{
    String::from_utf8(bytes).ok()
}

/// Finds the first zero byte at or after `from`, or the length when none
/// follows.
fn find_zero(data: &Vec<u8>, from: usize) -> (r: usize)
    requires
        from <= data@.len(),
    ensures
        r == from + first_zero(data@.subrange(from as int, data@.len() as int)),
{
    let ghost rest = data@.subrange(from as int, data@.len() as int);
    proof {
        lemma_first_zero(rest);
    }
    let mut i: usize = from;
    while i < data.len()
        invariant
            from <= i <= data@.len(),
            rest == data@.subrange(from as int, data@.len() as int),
            forall|j: int| from <= j < i ==> data@[j] != 0,
        decreases data@.len() - i,
    {
        if data[i] == 0 {
            proof {
                lemma_first_zero(rest);
                let fz = first_zero(rest);
                assert(rest[i - from] == 0);
                if fz < i - from {
                    assert(data@[fz + from] != 0);
                    assert(rest[fz] == 0);
                    assert(false);
                }
                if fz > i - from {
                    assert(rest[i - from] != 0);
                    assert(false);
                }
            }
            return i;
        }
        i = i + 1;
    }
    proof {
        lemma_first_zero(rest);
        let fz = first_zero(rest);
        if fz < rest.len() {
            assert(rest[fz] == 0);
            assert(data@[fz + from] != 0);
            assert(false);
        }
    }
    i
}

/// Trims the byte array to text: leading zeros are removed, the field ends
/// at the next zero byte, and the remaining bytes must be valid UTF-8.
pub fn trim_string(array: Vec<u8>) -> (r: Result<String, SolendError>)
    ensures
        match utf8_decode(spec_trimmed(array@)) {
            Some(t) => r matches Ok(s) && s@ == t,
            None => r matches Err(e) && e == SolendError::FailedToParse,
        },
{
    proof {
        lemma_first_nonzero(array@);
    }
    let mut start: usize = 0;
    let mut found: bool = false;
    let mut i: usize = 0;
    while i < array.len()
        invariant
            0 <= i <= array@.len(),
            !found ==> forall|j: int| 0 <= j < i ==> array@[j] == 0,
            !found ==> start == 0,
            found ==> start == first_nonzero(array@) && first_nonzero(array@) < array@.len(),
        decreases array@.len() - i,
    {
        if !found && array[i] != 0 {
            start = i;
            found = true;
            proof {
                lemma_first_nonzero(array@);
                let fnz = first_nonzero(array@);
                if fnz < i {
                    assert(array@[fnz] == 0);
                    assert(false);
                }
                if fnz > i {
                    assert(array@[i as int] == 0);
                    assert(false);
                }
            }
        }
        i = i + 1;
    }
    proof {
        lemma_first_nonzero(array@);
        if !found {
            if first_nonzero(array@) < array@.len() {
                assert(array@[first_nonzero(array@)] == 0);
                assert(false);
            }
        }
        assert(start == (if first_nonzero(array@) < array@.len() {
            first_nonzero(array@)
        } else {
            0int
        }));
    }
    let end = find_zero(&array, start);
    proof {
        let rest = array@.subrange(start as int, array@.len() as int);
        lemma_first_zero(rest);
    }
    let trimmed = read_bytes(array.as_slice(), start, end - start);
    proof {
        let rest = array@.subrange(start as int, array@.len() as int);
        assert(trimmed@ =~= rest.subrange(0, first_zero(rest)));
        assert(trimmed@ == spec_trimmed(array@));
    }
    match bytes_to_string(trimmed) {
        Some(s) => Ok(s),
        None => Err(SolendError::FailedToParse),
    }
}

/// Whether a length-prefixed text blob is well formed at the head of `b`:
/// at least 8 bytes, and a declared length of at most 1024 that fits the
/// remaining bytes.
pub open spec fn spec_extract_ok(b: Seq<u8>) -> bool {
    &&& b.len() >= 8
    &&& spec_u64_from_le_bytes(b.subrange(0, 8)) <= b.len() - 8
    &&& spec_u64_from_le_bytes(b.subrange(0, 8)) <= 1024
}

/// The text bytes declared by the 8-byte length prefix at the head of `b`.
pub open spec fn spec_extract_bytes(b: Seq<u8>) -> Seq<u8> {
    b.subrange(8, 8 + spec_u64_from_le_bytes(b.subrange(0, 8)) as int)
}

impl LendingMarketMetadata {
    /// Reads a length-prefixed text blob from the head of `data`: an
    /// 8-byte little-endian length, then that many UTF-8 bytes. Returns
    /// the text and the number of bytes consumed. Fails when fewer than 8
    /// bytes remain, when the declared length exceeds the remaining bytes
    /// or 1024, or when the bytes are not valid UTF-8.
    pub fn extract_string_from_data(data: &[u8]) -> (r: Result<(String, usize), SolendError>)
        ensures
            !spec_extract_ok(data@) ==> (r matches Err(e) && e == SolendError::FailedToParse),
            spec_extract_ok(data@) ==> (match utf8_decode(spec_extract_bytes(data@)) {
                Some(t) => r matches Ok(p) && p.0@ == t && p.1 == 8
                    + spec_u64_from_le_bytes(data@.subrange(0, 8)),
                None => r matches Err(e) && e == SolendError::FailedToParse,
            }),
    {
        let data_len = data.len();
        if data_len < 8 {
            return Err(SolendError::FailedToParse);
        }
        let length = read_u64_le(data, 0);
        if length > (data_len - 8) as u64 || length > 1024 {
            return Err(SolendError::FailedToParse);
        }
        let length_usize = length as usize;
        let string_bytes = read_bytes(data, 8, length_usize);
        proof {
            assert(string_bytes@ == spec_extract_bytes(data@));
        }
        match bytes_to_string(string_bytes) {
            Some(s) => Ok((s, 8 + length_usize)),
            None => Err(SolendError::FailedToParse),
        }
    }
}

/// Whether the strict strategy accepts the 111-byte buffer: every length
/// prefix fits its region.
pub open spec fn spec_metadata_strict_ok(b: Seq<u8>) -> bool {
    &&& spec_u16_from_le_bytes(b.subrange(8, 10)) <= 24
    &&& spec_u16_from_le_bytes(b.subrange(34, 36)) <= 32
    &&& spec_u16_from_le_bytes(b.subrange(68, 70)) <= 24
    &&& b[94] <= 16
}

/// The strict reading of a 111-byte buffer: each field holds the number of
/// region bytes its length prefix declares.
pub open spec fn spec_metadata_strict(b: Seq<u8>) -> LendingMarketMetadataV {
    LendingMarketMetadataV {
        bump_seed: spec_u64_from_le_bytes(b.subrange(0, 8)),
        market_name: b.subrange(10, 10 + spec_u16_from_le_bytes(b.subrange(8, 10)) as int),
        market_description: b.subrange(36, 36 + spec_u16_from_le_bytes(b.subrange(34, 36)) as int),
        market_image_url: b.subrange(70, 70 + spec_u16_from_le_bytes(b.subrange(68, 70)) as int),
        lookup_tables: b.subrange(95, 95 + b[94] as int),
    }
}

/// The relaxed reading of a 111-byte buffer: the length prefixes are
/// ignored, each text region is read up to its first zero byte, and the
/// lookup-table count is capped at its region size.
pub open spec fn spec_metadata_relaxed(b: Seq<u8>) -> LendingMarketMetadataV {
    let name_region = b.subrange(10, 34);
    let desc_region = b.subrange(36, 68);
    let url_region = b.subrange(70, 94);
    LendingMarketMetadataV {
        bump_seed: spec_u64_from_le_bytes(b.subrange(0, 8)),
        market_name: name_region.subrange(0, first_zero(name_region)),
        market_description: desc_region.subrange(0, first_zero(desc_region)),
        market_image_url: url_region.subrange(0, first_zero(url_region)),
        lookup_tables: b.subrange(95, 95 + (if b[94] <= 16 {
            b[94] as int
        } else {
            16int
        })),
    }
}

/// The decoder's outcome on arbitrary bytes: too-short buffers are
/// rejected; exact-size buffers decode strictly where every length prefix
/// fits, and relaxed otherwise; longer buffers decode strictly from their
/// 111-byte prefix or are rejected.
pub open spec fn spec_metadata_from_bytes(b: Seq<u8>) -> Result<
    LendingMarketMetadataV,
    SolendError,
> {
    if b.len() < 111 {
        Err(SolendError::FailedToParse)
    } else if b.len() == 111 {
        if spec_metadata_strict_ok(b) {
            Ok(spec_metadata_strict(b))
        } else {
            Ok(spec_metadata_relaxed(b))
        }
    } else if spec_metadata_strict_ok(b.subrange(0, 111)) {
        Ok(spec_metadata_strict(b.subrange(0, 111)))
    } else {
        Err(SolendError::FailedToParse)
    }
}

/// The canonical 111-byte encoding of a metadata record.
pub open spec fn spec_metadata_bytes(v: LendingMarketMetadataV) -> Seq<u8> {
    spec_u64_to_le_bytes(v.bump_seed) + spec_u16_to_le_bytes(v.market_name.len() as u16)
        + v.market_name + zero_bytes(24 - v.market_name.len()) + spec_u16_to_le_bytes(
        v.market_description.len() as u16,
    ) + v.market_description + zero_bytes(32 - v.market_description.len()) + spec_u16_to_le_bytes(
        v.market_image_url.len() as u16,
    ) + v.market_image_url + zero_bytes(24 - v.market_image_url.len()) + seq![
        v.lookup_tables.len() as u8,
    ] + v.lookup_tables + zero_bytes(16 - v.lookup_tables.len())
}

/// Reads the strict fields from the first 111 bytes.
fn decode_metadata_strict(data: &[u8]) -> (r: LendingMarketMetadata)
    requires
        data@.len() >= 111,
        spec_metadata_strict_ok(data@.subrange(0, 111)),
    ensures
        r@ == spec_metadata_strict(data@.subrange(0, 111)),
        r@.wf(),
{
    let ghost b = data@.subrange(0, 111);
    let data_len = data.len();
    proof {
        assert(data@.subrange(0, 8) =~= b.subrange(0, 8));
        assert(data@.subrange(8, 10) =~= b.subrange(8, 10));
        assert(data@.subrange(34, 36) =~= b.subrange(34, 36));
        assert(data@.subrange(68, 70) =~= b.subrange(68, 70));
        assert(data@[94] == b[94]);
    }
    let bump_seed = read_u64_le(data, 0);
    let name_len = read_u16_le(data, 8) as usize;
    let market_name = read_bytes(data, 10, name_len);
    let desc_len = read_u16_le(data, 34) as usize;
    let market_description = read_bytes(data, 36, desc_len);
    let url_len = read_u16_le(data, 68) as usize;
    let market_image_url = read_bytes(data, 70, url_len);
    let count = read_u8(data, 94) as usize;
    let lookup_tables = read_bytes(data, 95, count);
    proof {
        assert(market_name@ =~= b.subrange(10, 10 + spec_u16_from_le_bytes(b.subrange(8, 10)) as int));
        assert(market_description@ =~= b.subrange(
            36,
            36 + spec_u16_from_le_bytes(b.subrange(34, 36)) as int,
        ));
        assert(market_image_url@ =~= b.subrange(
            70,
            70 + spec_u16_from_le_bytes(b.subrange(68, 70)) as int,
        ));
        assert(lookup_tables@ =~= b.subrange(95, 95 + b[94] as int));
    }
    LendingMarketMetadata { bump_seed, market_name, market_description, market_image_url, lookup_tables }
}

impl LendingMarketMetadata {
    /// The relaxed strategy on its own: on an exact-size buffer, ignores
    /// the length prefixes, reads each text region up to its first zero
    /// byte, and caps the lookup-table count at its region size.
    pub fn try_manual_deserialize(data: &[u8]) -> (r: Result<LendingMarketMetadata, SolendError>)
        ensures
            data@.len() == 111 ==> (r matches Ok(m) && m@ == spec_metadata_relaxed(data@)
                && m@.wf()),
            data@.len() != 111 ==> (r matches Err(e) && e == SolendError::FailedToParse),
    {
        let data_len = data.len();
        if data_len != LENDING_MARKET_METADATA_SIZE {
            return Err(SolendError::FailedToParse);
        }
        let bump_seed = read_u64_le(data, 0);
        let name_region = read_bytes(data, 10, 24);
        let desc_region = read_bytes(data, 36, 32);
        let url_region = read_bytes(data, 70, 24);
        proof {
            lemma_first_zero(name_region@);
            lemma_first_zero(desc_region@);
            lemma_first_zero(url_region@);
        }
        let name_end = find_zero(&name_region, 0);
        let desc_end = find_zero(&desc_region, 0);
        let url_end = find_zero(&url_region, 0);
        proof {
            assert(name_region@.subrange(0, name_region@.len() as int) =~= name_region@);
            assert(desc_region@.subrange(0, desc_region@.len() as int) =~= desc_region@);
            assert(url_region@.subrange(0, url_region@.len() as int) =~= url_region@);
        }
        let market_name = read_bytes(name_region.as_slice(), 0, name_end);
        let market_description = read_bytes(desc_region.as_slice(), 0, desc_end);
        let market_image_url = read_bytes(url_region.as_slice(), 0, url_end);
        let count = read_u8(data, 94);
        let capped: usize = if count <= 16 {
            count as usize
        } else {
            16
        };
        let lookup_tables = read_bytes(data, 95, capped);
        proof {
            assert(data@.subrange(0, 8) =~= data@.subrange(0, 111).subrange(0, 8));
            assert(name_region@ =~= data@.subrange(0, 111).subrange(10, 34));
            assert(desc_region@ =~= data@.subrange(0, 111).subrange(36, 68));
            assert(url_region@ =~= data@.subrange(0, 111).subrange(70, 94));
            assert(data@.subrange(0, 111) =~= data@);
        }
        Ok(LendingMarketMetadata {
            bump_seed,
            market_name,
            market_description,
            market_image_url,
            lookup_tables,
        })
    }

    /// Decodes a metadata record from raw account bytes, trying the
    /// strict, relaxed and truncated strategies in order. Buffers shorter
    /// than the record are rejected; exact-size buffers always decode;
    /// longer buffers decode when their 111-byte prefix is strictly valid.
    pub fn from_bytes(data: &[u8]) -> (r: Result<LendingMarketMetadata, SolendError>)
        ensures
            match spec_metadata_from_bytes(data@) {
                Ok(v) => r matches Ok(m) && m@ == v && m@.wf(),
                Err(e) => r matches Err(e2) && e2 == e,
            },
    {
        let data_len = data.len();
        if data_len < LENDING_MARKET_METADATA_SIZE {
            return Err(SolendError::FailedToParse);
        }
        let name_len = read_u16_le(data, 8);
        let desc_len = read_u16_le(data, 34);
        let url_len = read_u16_le(data, 68);
        let count = read_u8(data, 94);
        let ghost b = data@.subrange(0, 111);
        proof {
            assert(data@.subrange(8, 10) =~= b.subrange(8, 10));
            assert(data@.subrange(34, 36) =~= b.subrange(34, 36));
            assert(data@.subrange(68, 70) =~= b.subrange(68, 70));
            assert(data@[94] == b[94]);
        }
        if name_len <= 24 && desc_len <= 32 && url_len <= 24 && count <= 16 {
            let m = decode_metadata_strict(data);
            proof {
                if data@.len() == 111 {
                    assert(b =~= data@);
                }
            }
            return Ok(m);
        }
        if data_len == LENDING_MARKET_METADATA_SIZE {
            let r = Self::try_manual_deserialize(data);
            proof {
                assert(b =~= data@);
            }
            return r;
        }
        Err(SolendError::FailedToParse)
    }

    /// Encodes the record into its canonical 111-byte form.
    pub fn encode(&self) -> (r: Vec<u8>)
        requires
            self@.wf(),
        ensures
            r@ == spec_metadata_bytes(self@),
    {
        let mut out: Vec<u8> = Vec::new();
        push_u64_le(&mut out, self.bump_seed);
        push_u16_le(&mut out, self.market_name.len() as u16);
        push_bytes_padded(&mut out, &self.market_name, 24);
        push_u16_le(&mut out, self.market_description.len() as u16);
        push_bytes_padded(&mut out, &self.market_description, 32);
        push_u16_le(&mut out, self.market_image_url.len() as u16);
        push_bytes_padded(&mut out, &self.market_image_url, 24);
        push_u8(&mut out, self.lookup_tables.len() as u8);
        push_bytes_padded(&mut out, &self.lookup_tables, 16);
        proof {
            assert(out@ =~= spec_metadata_bytes(self@));
        }
        out
    }
}

/// The canonical encoding of a well-formed record is 111 bytes long, is
/// strictly valid, and decodes back to the record it encodes.
pub proof fn lemma_metadata_round_trip(v: LendingMarketMetadataV)
    requires
        v.wf(),
    ensures
        spec_metadata_bytes(v).len() == 111,
        spec_metadata_strict_ok(spec_metadata_bytes(v)),
        spec_metadata_strict(spec_metadata_bytes(v)) == v,
{
    lemma_auto_spec_u64_to_from_le_bytes();
    lemma_auto_spec_u16_to_from_le_bytes();
    let b = spec_metadata_bytes(v);
    assert(b.len() == 111);
    assert(b.subrange(0, 8) =~= spec_u64_to_le_bytes(v.bump_seed));
    assert(b.subrange(8, 10) =~= spec_u16_to_le_bytes(v.market_name.len() as u16));
    assert(b.subrange(34, 36) =~= spec_u16_to_le_bytes(v.market_description.len() as u16));
    assert(b.subrange(68, 70) =~= spec_u16_to_le_bytes(v.market_image_url.len() as u16));
    assert(b[94] == v.lookup_tables.len() as u8);
    assert(b.subrange(10, 10 + v.market_name.len() as int) =~= v.market_name);
    assert(b.subrange(36, 36 + v.market_description.len() as int) =~= v.market_description);
    assert(b.subrange(70, 70 + v.market_image_url.len() as int) =~= v.market_image_url);
    assert(b.subrange(95, 95 + v.lookup_tables.len() as int) =~= v.lookup_tables);
    assert(spec_metadata_strict(b) =~= v);
}

/// A metadata record together with the account address it was read from.
#[derive(Debug, Clone)]
pub struct ParsedLendingMarketMetadataResult {
    pub pubkey: Address,
    pub info: LendingMarketMetadata,
}

/// Decodes a metadata record from the raw bytes of the account at
/// `pubkey`, keeping the address beside the decoded record.
pub fn parse_lending_market_metadata(pubkey: Address, data: &[u8]) -> (r: Result<
    ParsedLendingMarketMetadataResult,
    SolendError,
>)
    ensures
        match spec_metadata_from_bytes(data@) {
            Ok(v) => r matches Ok(p) && p.info@ == v && p.info@.wf() && p.pubkey@ == pubkey@,
            Err(e) => r matches Err(e2) && e2 == e,
        },
{
    match LendingMarketMetadata::from_bytes(data) {
        Ok(info) => Ok(ParsedLendingMarketMetadataResult { pubkey, info }),
        Err(e) => Err(e),
    }
}

} // verus!
