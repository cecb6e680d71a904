//! Content fingerprints: a deterministic, length-prefixed byte
//! serialization of an ordered row collection, digested with a 32-bit
//! checksum. Equal fingerprints mean "nothing changed since the last
//! snapshot"; the digest is a change detector, not a security control.
//!
//! Row order matters by design: callers preserve provider response
//! order, and reordering identical rows changes the digest — a false
//! "changed" only causes redundant work, never data loss.

use vstd::prelude::*;
use vstd::string::StringSliceAdditionalSpecFns;
use crate::feed::{RawFeed, TickerSentiment, Topic};
use crate::text;

verus! {

/// Eight little-endian bytes of a length.
pub open spec fn spec_le8(n: int) -> Seq<u8> {
    seq![
        (n % 256) as u8,
        ((n / 256) % 256) as u8,
        ((n / 0x1_0000) % 256) as u8,
        ((n / 0x100_0000) % 256) as u8,
        ((n / 0x1_0000_0000) % 256) as u8,
        ((n / 0x100_0000_0000) % 256) as u8,
        ((n / 0x1_0000_0000_0000) % 256) as u8,
        ((n / 0x100_0000_0000_0000) % 256) as u8,
    ]
}

/// A string field: its UTF-8 byte length, then its UTF-8 bytes.
pub open spec fn spec_enc_str(s: Seq<char>) -> Seq<u8> {
    spec_le8(vstd::utf8::encode_utf8(s).len() as int) + vstd::utf8::encode_utf8(s)
}

/// The concatenated encodings of a list of string fields.
pub open spec fn spec_cat_str(l: Seq<String>) -> Seq<u8>
    decreases l.len(),
{
    if l.len() == 0 {
        Seq::empty()
    } else {
        spec_cat_str(l.drop_last()).add(spec_enc_str(l.last()@))
    }
}

/// A list of string fields: its count, then each element in order.
pub open spec fn spec_enc_str_list(l: Seq<String>) -> Seq<u8> {
    spec_le8(l.len() as int) + spec_cat_str(l)
}

/// A topic reference: both fields in order.
pub open spec fn spec_enc_topic(t: Topic) -> Seq<u8> {
    spec_enc_str(t.topic@) + spec_enc_str(t.relevance_score@)
}

/// The concatenated encodings of a list of topic references.
pub open spec fn spec_cat_topics(l: Seq<Topic>) -> Seq<u8>
    decreases l.len(),
{
    if l.len() == 0 {
        Seq::empty()
    } else {
        spec_cat_topics(l.drop_last()).add(spec_enc_topic(l.last()))
    }
}

/// A list of topic references: its count, then each element in order.
pub open spec fn spec_enc_topics(l: Seq<Topic>) -> Seq<u8> {
    spec_le8(l.len() as int) + spec_cat_topics(l)
}

/// A ticker sentiment: all four fields in order.
pub open spec fn spec_enc_sentiment(s: TickerSentiment) -> Seq<u8> {
    spec_enc_str(s.ticker@) + spec_enc_str(s.relevance_score@) + spec_enc_str(
        s.ticker_sentiment_score@,
    ) + spec_enc_str(s.ticker_sentiment_label@)
}

/// The concatenated encodings of a list of ticker sentiments.
pub open spec fn spec_cat_sentiments(l: Seq<TickerSentiment>) -> Seq<u8>
    decreases l.len(),
{
    if l.len() == 0 {
        Seq::empty()
    } else {
        spec_cat_sentiments(l.drop_last()).add(spec_enc_sentiment(l.last()))
    }
}

/// A list of ticker sentiments: its count, then each element in order.
pub open spec fn spec_enc_sentiments(l: Seq<TickerSentiment>) -> Seq<u8> {
    spec_le8(l.len() as int) + spec_cat_sentiments(l)
}

/// One article, every field in a fixed order.
pub open spec fn spec_enc_feed(f: RawFeed) -> Seq<u8> {
    spec_enc_str(f.title@) + spec_enc_str(f.url@) + spec_enc_str(f.time_published@)
        + spec_enc_str_list(f.authors@) + spec_enc_str(f.summary@) + spec_enc_str(f.banner_image@)
        + spec_enc_str(f.source@) + spec_enc_str(f.category_within_source@) + spec_enc_str(
        f.source_domain@,
    ) + spec_enc_topics(f.topics@) + spec_enc_str(f.overall_sentiment_score@) + spec_enc_str(
        f.overall_sentiment_label@,
    ) + spec_enc_sentiments(f.ticker_sentiment@)
}

/// The canonical bytes of an ordered feed: each row's encoding,
/// concatenated in the given order.
pub open spec fn spec_canonical_bytes(rows: Seq<RawFeed>) -> Seq<u8>
    decreases rows.len(),
{
    if rows.len() == 0 {
        Seq::empty()
    } else {
        spec_canonical_bytes(rows.drop_last()).add(spec_enc_feed(rows.last()))
    }
}

/// The CRC-32 checksum that `crc32fast` computes for a byte sequence:
/// a fixed function of the bytes alone.
pub uninterp spec fn crc32_of(b: Seq<u8>) -> u32;

/// Relies on `crc32fast::hash`: the CRC-32 of the bytes, a pure
/// function of its input.
#[verifier::external_body]
fn crc32_digest(bytes: &[u8]) -> (r: u32)
    ensures
        r == crc32_of(bytes@),
{
    crc32fast::hash(bytes)
}

/// The hexadecimal digest label that `ring`'s SHA-256 `Debug` rendering
/// produces for a byte sequence: a fixed function of the bytes alone.
pub uninterp spec fn sha256_label_of(b: Seq<u8>) -> Seq<char>;

/// Relies on `ring::digest::digest` with SHA-256: the digest depends on
/// the input bytes alone, rendered through its `Debug` form.
#[verifier::external_body]
fn sha256_label(bytes: &[u8]) -> (r: String)
    ensures
        r@ == sha256_label_of(bytes@),
{
    format!("{:?}", ring::digest::digest(&ring::digest::SHA256, bytes))
}

/// Digest a raw byte string as its decimal CRC-32 rendering.
pub fn calculate_checksum_legacy(bytes: &[u8]) -> (r: String)
    ensures
        r@ == text::spec_dec_str(crc32_of(bytes@) as int),
{
    text::u32_to_string(crc32_digest(bytes))
}

/// Eight little-endian bytes of a length, appended to `out`.
fn push_le8(out: &mut Vec<u8>, n: u64)
    ensures
        final(out)@ == old(out)@ + spec_le8(n as int),
{
    let ghost prefix = out@;
    out.push((n % 256) as u8);
    out.push(((n / 256) % 256) as u8);
    out.push(((n / 0x1_0000) % 256) as u8);
    out.push(((n / 0x100_0000) % 256) as u8);
    out.push(((n / 0x1_0000_0000) % 256) as u8);
    out.push(((n / 0x100_0000_0000) % 256) as u8);
    out.push(((n / 0x1_0000_0000_0000) % 256) as u8);
    out.push(((n / 0x100_0000_0000_0000) % 256) as u8);
    proof {
        assert(out@ =~= prefix + spec_le8(n as int));
    }
}

/// A string field, appended to `out`.
fn push_str_field(out: &mut Vec<u8>, s: &str)
    ensures
        final(out)@ == old(out)@ + spec_enc_str(s@),
{
    let bytes = s.as_bytes();
    push_le8(out, bytes.len() as u64);
    let ghost mid = out@;
    out.extend_from_slice(bytes);
    proof {
        assert(out@ =~= mid + s.spec_bytes());
        assert(out@ =~= old(out)@ + spec_enc_str(s@));
    }
}

/// A list of string fields, appended to `out`.
fn push_str_list(out: &mut Vec<u8>, l: &Vec<String>)
    ensures
        final(out)@ == old(out)@ + spec_enc_str_list(l@),
{
    let n = l.len();
    push_le8(out, n as u64);
    let ghost mid = out@;
    proof {
        assert(out@ =~= mid + spec_cat_str(l@.take(0)));
    }
    let mut i: usize = 0;
    while i < n
        invariant
            0 <= i <= n,
            n == l@.len(),
            mid == old(out)@ + spec_le8(n as int),
            out@ == mid + spec_cat_str(l@.take(i as int)),
        decreases n - i,
    {
        push_str_field(out, l[i].as_str());
        proof {
            assert(l@.take(i + 1).drop_last() =~= l@.take(i as int));
            assert(l@.take(i + 1).last() == l@[i as int]);
            vstd::seq_lib::lemma_concat_associative(
                mid,
                spec_cat_str(l@.take(i as int)),
                spec_enc_str(l@[i as int]@),
            );
        }
        i += 1;
    }
    proof {
        assert(l@.take(n as int) =~= l@);
        vstd::seq_lib::lemma_concat_associative(old(out)@, spec_le8(n as int), spec_cat_str(l@));
    }
}

/// A topic reference, appended to `out`.
fn push_topic(out: &mut Vec<u8>, t: &Topic)
    ensures
        final(out)@ == old(out)@ + spec_enc_topic(*t),
{
    push_str_field(out, t.topic.as_str());
    push_str_field(out, t.relevance_score.as_str());
}

/// A list of topic references, appended to `out`.
fn push_topics(out: &mut Vec<u8>, l: &Vec<Topic>)
    ensures
        final(out)@ == old(out)@ + spec_enc_topics(l@),
{
    let n = l.len();
    push_le8(out, n as u64);
    let ghost mid = out@;
    proof {
        assert(out@ =~= mid + spec_cat_topics(l@.take(0)));
    }
    let mut i: usize = 0;
    while i < n
        invariant
            0 <= i <= n,
            n == l@.len(),
            mid == old(out)@ + spec_le8(n as int),
            out@ == mid + spec_cat_topics(l@.take(i as int)),
        decreases n - i,
    {
        push_topic(out, &l[i]);
        proof {
            assert(l@.take(i + 1).drop_last() =~= l@.take(i as int));
            assert(l@.take(i + 1).last() == l@[i as int]);
            vstd::seq_lib::lemma_concat_associative(
                mid,
                spec_cat_topics(l@.take(i as int)),
                spec_enc_topic(l@[i as int]),
            );
        }
        i += 1;
    }
    proof {
        assert(l@.take(n as int) =~= l@);
        vstd::seq_lib::lemma_concat_associative(old(out)@, spec_le8(n as int), spec_cat_topics(l@));
    }
}

/// A ticker sentiment, appended to `out`.
fn push_sentiment(out: &mut Vec<u8>, s: &TickerSentiment)
    ensures
        final(out)@ == old(out)@ + spec_enc_sentiment(*s),
{
    push_str_field(out, s.ticker.as_str());
    push_str_field(out, s.relevance_score.as_str());
    push_str_field(out, s.ticker_sentiment_score.as_str());
    push_str_field(out, s.ticker_sentiment_label.as_str());
}

/// A list of ticker sentiments, appended to `out`.
fn push_sentiments(out: &mut Vec<u8>, l: &Vec<TickerSentiment>)
    ensures
        final(out)@ == old(out)@ + spec_enc_sentiments(l@),
{
    let n = l.len();
    push_le8(out, n as u64);
    let ghost mid = out@;
    proof {
        assert(out@ =~= mid + spec_cat_sentiments(l@.take(0)));
    }
    let mut i: usize = 0;
    while i < n
        invariant
            0 <= i <= n,
            n == l@.len(),
            mid == old(out)@ + spec_le8(n as int),
            out@ == mid + spec_cat_sentiments(l@.take(i as int)),
        decreases n - i,
    {
        push_sentiment(out, &l[i]);
        proof {
            assert(l@.take(i + 1).drop_last() =~= l@.take(i as int));
            assert(l@.take(i + 1).last() == l@[i as int]);
            vstd::seq_lib::lemma_concat_associative(
                mid,
                spec_cat_sentiments(l@.take(i as int)),
                spec_enc_sentiment(l@[i as int]),
            );
        }
        i += 1;
    }
    proof {
        assert(l@.take(n as int) =~= l@);
        vstd::seq_lib::lemma_concat_associative(old(out)@, spec_le8(n as int), spec_cat_sentiments(l@));
    }
}

/// One article, appended to `out`.
fn push_feed(out: &mut Vec<u8>, f: &RawFeed)
    ensures
        final(out)@ == old(out)@ + spec_enc_feed(*f),
{
    let ghost p0 = out@;
    let ghost e1 = spec_enc_str(f.title@);
    let ghost e2 = spec_enc_str(f.url@);
    let ghost e3 = spec_enc_str(f.time_published@);
    let ghost e4 = spec_enc_str_list(f.authors@);
    let ghost e5 = spec_enc_str(f.summary@);
    let ghost e6 = spec_enc_str(f.banner_image@);
    let ghost e7 = spec_enc_str(f.source@);
    let ghost e8 = spec_enc_str(f.category_within_source@);
    let ghost e9 = spec_enc_str(f.source_domain@);
    let ghost e10 = spec_enc_topics(f.topics@);
    let ghost e11 = spec_enc_str(f.overall_sentiment_score@);
    let ghost e12 = spec_enc_str(f.overall_sentiment_label@);
    let ghost e13 = spec_enc_sentiments(f.ticker_sentiment@);
    push_str_field(out, f.title.as_str());
    push_str_field(out, f.url.as_str());
    proof {
        vstd::seq_lib::lemma_concat_associative(p0, e1, e2);
    }
    push_str_field(out, f.time_published.as_str());
    proof {
        vstd::seq_lib::lemma_concat_associative(p0, e1 + e2, e3);
    }
    push_str_list(out, &f.authors);
    proof {
        vstd::seq_lib::lemma_concat_associative(p0, e1 + e2 + e3, e4);
    }
    push_str_field(out, f.summary.as_str());
    proof {
        vstd::seq_lib::lemma_concat_associative(p0, e1 + e2 + e3 + e4, e5);
    }
    push_str_field(out, f.banner_image.as_str());
    proof {
        vstd::seq_lib::lemma_concat_associative(p0, e1 + e2 + e3 + e4 + e5, e6);
    }
    push_str_field(out, f.source.as_str());
    proof {
        vstd::seq_lib::lemma_concat_associative(p0, e1 + e2 + e3 + e4 + e5 + e6, e7);
    }
    push_str_field(out, f.category_within_source.as_str());
    proof {
        vstd::seq_lib::lemma_concat_associative(p0, e1 + e2 + e3 + e4 + e5 + e6 + e7, e8);
    }
    push_str_field(out, f.source_domain.as_str());
    proof {
        vstd::seq_lib::lemma_concat_associative(p0, e1 + e2 + e3 + e4 + e5 + e6 + e7 + e8, e9);
    }
    push_topics(out, &f.topics);
    proof {
        vstd::seq_lib::lemma_concat_associative(
            p0,
            e1 + e2 + e3 + e4 + e5 + e6 + e7 + e8 + e9,
            e10,
        );
    }
    push_str_field(out, f.overall_sentiment_score.as_str());
    proof {
        vstd::seq_lib::lemma_concat_associative(
            p0,
            e1 + e2 + e3 + e4 + e5 + e6 + e7 + e8 + e9 + e10,
            e11,
        );
    }
    push_str_field(out, f.overall_sentiment_label.as_str());
    proof {
        vstd::seq_lib::lemma_concat_associative(
            p0,
            e1 + e2 + e3 + e4 + e5 + e6 + e7 + e8 + e9 + e10 + e11,
            e12,
        );
    }
    push_sentiments(out, &f.ticker_sentiment);
    proof {
        vstd::seq_lib::lemma_concat_associative(
            p0,
            e1 + e2 + e3 + e4 + e5 + e6 + e7 + e8 + e9 + e10 + e11 + e12,
            e13,
        );
        assert(out@ == p0 + spec_enc_feed(*f));
    }
}

/// The canonical bytes of an ordered feed.
pub fn convert_to_bytes(rows: &Vec<RawFeed>) -> (r: Vec<u8>)
    ensures
        r@ == spec_canonical_bytes(rows@),
{
    let mut out: Vec<u8> = Vec::new();
    proof {
        assert(out@ =~= spec_canonical_bytes(rows@.take(0)));
    }
    let n = rows.len();
    let mut i: usize = 0;
    while i < n
        invariant
            0 <= i <= n,
            n == rows@.len(),
            out@ == spec_canonical_bytes(rows@.take(i as int)),
        decreases n - i,
    {
        push_feed(&mut out, &rows[i]);
        proof {
            assert(rows@.take(i + 1).drop_last() =~= rows@.take(i as int));
            assert(rows@.take(i + 1).last() == rows@[i as int]);
        }
        i += 1;
    }
    proof {
        assert(rows@.take(n as int) =~= rows@);
    }
    out
}

/// The length-prefixed bytes of a list of strings, as it appears inside
/// a row encoding.
pub fn serialize_to_bytes(items: &Vec<String>) -> (r: Vec<u8>)
    ensures
        r@ == spec_enc_str_list(items@),
{
    let mut out: Vec<u8> = Vec::new();
    push_str_list(&mut out, items);
    out
}

/// The fingerprint a feed denotes: the decimal rendering of the CRC-32
/// of its canonical bytes.
pub open spec fn spec_hash_id(rows: Seq<RawFeed>) -> Seq<char> {
    text::spec_dec_str(crc32_of(spec_canonical_bytes(rows)) as int)
}

/// Fingerprint an ordered news feed for snapshot comparison.
pub fn get_hash_id(news: &Vec<RawFeed>) -> (r: String)
    ensures
        r@ == spec_hash_id(news@),
{
    let bytes = convert_to_bytes(news);
    calculate_checksum_legacy(bytes.as_slice())
}

/// The value eight little-endian bytes denote.
pub open spec fn spec_le8_val(b: Seq<u8>) -> int
    recommends
        b.len() == 8,
{
    b[0] + 256 * b[1] + 0x1_0000 * b[2] + 0x100_0000 * b[3] + 0x1_0000_0000 * b[4]
        + 0x100_0000_0000 * b[5] + 0x1_0000_0000_0000 * b[6] + 0x100_0000_0000_0000 * b[7]
}

/// The eight bytes of a length below 2^64 denote that length again.
proof fn lemma_le8_val(n: int)
    requires
        0 <= n < 0x1_0000_0000_0000_0000,
    ensures
        spec_le8_val(spec_le8(n)) == n,
{
    let n1 = n / 256;
    let n2 = n / 0x1_0000;
    let n3 = n / 0x100_0000;
    let n4 = n / 0x1_0000_0000;
    let n5 = n / 0x100_0000_0000;
    let n6 = n / 0x1_0000_0000_0000;
    let n7 = n / 0x100_0000_0000_0000;
    vstd::arithmetic::div_mod::lemma_div_denominator(n, 256, 256);
    vstd::arithmetic::div_mod::lemma_div_denominator(n, 0x1_0000, 256);
    vstd::arithmetic::div_mod::lemma_div_denominator(n, 0x100_0000, 256);
    vstd::arithmetic::div_mod::lemma_div_denominator(n, 0x1_0000_0000, 256);
    vstd::arithmetic::div_mod::lemma_div_denominator(n, 0x100_0000_0000, 256);
    vstd::arithmetic::div_mod::lemma_div_denominator(n, 0x1_0000_0000_0000, 256);
    vstd::arithmetic::div_mod::lemma_fundamental_div_mod(n, 256);
    vstd::arithmetic::div_mod::lemma_fundamental_div_mod(n1, 256);
    vstd::arithmetic::div_mod::lemma_fundamental_div_mod(n2, 256);
    vstd::arithmetic::div_mod::lemma_fundamental_div_mod(n3, 256);
    vstd::arithmetic::div_mod::lemma_fundamental_div_mod(n4, 256);
    vstd::arithmetic::div_mod::lemma_fundamental_div_mod(n5, 256);
    vstd::arithmetic::div_mod::lemma_fundamental_div_mod(n6, 256);
    vstd::arithmetic::div_mod::lemma_div_pos_is_pos(n, 256);
    vstd::arithmetic::div_mod::lemma_div_pos_is_pos(n1, 256);
    vstd::arithmetic::div_mod::lemma_div_pos_is_pos(n2, 256);
    vstd::arithmetic::div_mod::lemma_div_pos_is_pos(n3, 256);
    vstd::arithmetic::div_mod::lemma_div_pos_is_pos(n4, 256);
    vstd::arithmetic::div_mod::lemma_div_pos_is_pos(n5, 256);
    vstd::arithmetic::div_mod::lemma_div_pos_is_pos(n6, 256);
    assert(n7 < 256) by {
        vstd::arithmetic::div_mod::lemma_div_denominator(n, 0x100_0000_0000_0000, 256);
        vstd::arithmetic::div_mod::lemma_div_pos_is_pos(n7, 256);
        vstd::arithmetic::div_mod::lemma_fundamental_div_mod(n7, 256);
        if n7 / 256 > 0 {
            assert(n >= 0x1_0000_0000_0000_0000) by (nonlinear_arith)
                requires
                    n / 0x1_0000_0000_0000_0000 >= 1,
                    n >= 0,
            {
                vstd::arithmetic::div_mod::lemma_fundamental_div_mod(
                    n,
                    0x1_0000_0000_0000_0000,
                );
                vstd::arithmetic::div_mod::lemma_mod_bound(n, 0x1_0000_0000_0000_0000);
            }
        }
    }
    vstd::arithmetic::div_mod::lemma_small_mod(n7 as nat, 256);
}

/// Distinct lengths below 2^64 never share their eight-byte form.
proof fn lemma_le8_injective(a: int, b: int)
    requires
        0 <= a < 0x1_0000_0000_0000_0000,
        0 <= b < 0x1_0000_0000_0000_0000,
        spec_le8(a) == spec_le8(b),
    ensures
        a == b,
{
    lemma_le8_val(a);
    lemma_le8_val(b);
}

/// Does a string fit the eight-byte length prefix?
pub open spec fn spec_str_fits(s: Seq<char>) -> bool {
    vstd::utf8::encode_utf8(s).len() < 0x1_0000_0000_0000_0000
}

/// A length-prefixed string block determines the string and whatever
/// follows the block.
proof fn lemma_enc_str_split(s1: Seq<char>, s2: Seq<char>, r1: Seq<u8>, r2: Seq<u8>)
    requires
        spec_str_fits(s1),
        spec_str_fits(s2),
        spec_enc_str(s1) + r1 == spec_enc_str(s2) + r2,
    ensures
        s1 == s2,
        r1 == r2,
{
    let b1 = vstd::utf8::encode_utf8(s1);
    let b2 = vstd::utf8::encode_utf8(s2);
    let l1 = spec_le8(b1.len() as int);
    let l2 = spec_le8(b2.len() as int);
    let t1 = (l1 + b1) + r1;
    let t2 = (l2 + b2) + r2;
    assert(t1 == t2);
    assert(l1 =~= l2) by {
        assert forall|i: int| 0 <= i < 8 implies l1[i] == l2[i] by {
            assert(t1[i] == l1[i]);
            assert(t2[i] == l2[i]);
        }
    }
    lemma_le8_injective(b1.len() as int, b2.len() as int);
    assert(b1 =~= b2) by {
        assert forall|i: int| 0 <= i < b1.len() implies b1[i] == b2[i] by {
            assert(t1[8 + i] == b1[i]);
            assert(t2[8 + i] == b2[i]);
        }
    }
    vstd::utf8::encode_utf8_decode_utf8(s1);
    vstd::utf8::encode_utf8_decode_utf8(s2);
    assert(r1 =~= r2) by {
        assert(t1.len() == t2.len());
        assert forall|i: int| 0 <= i < r1.len() implies r1[i] == r2[i] by {
            assert(t1[8 + b1.len() + i] == r1[i]);
            assert(t2[8 + b2.len() + i] == r2[i]);
        }
    }
}

/// Equally long byte prefixes of equal streams split equally.
proof fn lemma_eq_len_concat_split(p1: Seq<u8>, p2: Seq<u8>, a1: Seq<u8>, a2: Seq<u8>)
    requires
        p1.len() == p2.len(),
        p1 + a1 == p2 + a2,
    ensures
        p1 == p2,
        a1 == a2,
{
    let t1 = p1 + a1;
    let t2 = p2 + a2;
    assert(p1 =~= p2) by {
        assert forall|i: int| 0 <= i < p1.len() implies p1[i] == p2[i] by {
            assert(t1[i] == p1[i]);
            assert(t2[i] == p2[i]);
        }
    }
    assert((p1 + a1).len() == p1.len() + a1.len());
    assert((p2 + a2).len() == p2.len() + a2.len());
    assert(a1.len() == a2.len());
    assert(a1 =~= a2) by {
        assert forall|i: int| 0 <= i < a1.len() implies a1[i] == a2[i] by {
            assert(t1[p1.len() + i] == a1[i]);
            assert(t2[p2.len() + i] == a2[i]);
        }
    }
}

/// An eight-byte-prefixed block boundary: equal streams with equal
/// prefix shapes split equally.
proof fn lemma_le8_block_split(c1: int, c2: int, a1: Seq<u8>, a2: Seq<u8>)
    requires
        0 <= c1 < 0x1_0000_0000_0000_0000,
        0 <= c2 < 0x1_0000_0000_0000_0000,
        spec_le8(c1) + a1 == spec_le8(c2) + a2,
    ensures
        c1 == c2,
        a1 == a2,
{
    lemma_eq_len_concat_split(spec_le8(c1), spec_le8(c2), a1, a2);
    lemma_le8_injective(c1, c2);
}

/// Do a topic reference's fields fit their length prefixes?
pub open spec fn spec_topic_fits(t: Topic) -> bool {
    spec_str_fits(t.topic@) && spec_str_fits(t.relevance_score@)
}

/// Do a ticker sentiment's fields fit their length prefixes?
pub open spec fn spec_sentiment_fits(s: TickerSentiment) -> bool {
    spec_str_fits(s.ticker@) && spec_str_fits(s.relevance_score@) && spec_str_fits(
        s.ticker_sentiment_score@,
    ) && spec_str_fits(s.ticker_sentiment_label@)
}

/// A topic block determines the topic's fields and what follows it.
proof fn lemma_enc_topic_split(t1: Topic, t2: Topic, r1: Seq<u8>, r2: Seq<u8>)
    requires
        spec_topic_fits(t1),
        spec_topic_fits(t2),
        spec_enc_topic(t1) + r1 == spec_enc_topic(t2) + r2,
    ensures
        t1@ == t2@,
        r1 == r2,
{
    vstd::seq_lib::lemma_concat_associative(
        spec_enc_str(t1.topic@),
        spec_enc_str(t1.relevance_score@),
        r1,
    );
    vstd::seq_lib::lemma_concat_associative(
        spec_enc_str(t2.topic@),
        spec_enc_str(t2.relevance_score@),
        r2,
    );
    lemma_enc_str_split(
        t1.topic@,
        t2.topic@,
        spec_enc_str(t1.relevance_score@) + r1,
        spec_enc_str(t2.relevance_score@) + r2,
    );
    lemma_enc_str_split(t1.relevance_score@, t2.relevance_score@, r1, r2);
}

/// A sentiment block determines the sentiment's fields and what
/// follows it.
proof fn lemma_enc_sentiment_split(
    s1: TickerSentiment,
    s2: TickerSentiment,
    r1: Seq<u8>,
    r2: Seq<u8>,
)
    requires
        spec_sentiment_fits(s1),
        spec_sentiment_fits(s2),
        spec_enc_sentiment(s1) + r1 == spec_enc_sentiment(s2) + r2,
    ensures
        s1@ == s2@,
        r1 == r2,
{
    let a1 = spec_enc_str(s1.ticker@);
    let b1 = spec_enc_str(s1.relevance_score@);
    let c1 = spec_enc_str(s1.ticker_sentiment_score@);
    let d1 = spec_enc_str(s1.ticker_sentiment_label@);
    let a2 = spec_enc_str(s2.ticker@);
    let b2 = spec_enc_str(s2.relevance_score@);
    let c2 = spec_enc_str(s2.ticker_sentiment_score@);
    let d2 = spec_enc_str(s2.ticker_sentiment_label@);
    vstd::seq_lib::lemma_concat_associative(a1 + b1 + c1, d1, r1);
    vstd::seq_lib::lemma_concat_associative(a1 + b1, c1, d1 + r1);
    vstd::seq_lib::lemma_concat_associative(a1, b1, c1 + (d1 + r1));
    vstd::seq_lib::lemma_concat_associative(a2 + b2 + c2, d2, r2);
    vstd::seq_lib::lemma_concat_associative(a2 + b2, c2, d2 + r2);
    vstd::seq_lib::lemma_concat_associative(a2, b2, c2 + (d2 + r2));
    lemma_enc_str_split(s1.ticker@, s2.ticker@, b1 + (c1 + (d1 + r1)), b2 + (c2 + (d2 + r2)));
    lemma_enc_str_split(
        s1.relevance_score@,
        s2.relevance_score@,
        c1 + (d1 + r1),
        c2 + (d2 + r2),
    );
    lemma_enc_str_split(
        s1.ticker_sentiment_score@,
        s2.ticker_sentiment_score@,
        d1 + r1,
        d2 + r2,
    );
    lemma_enc_str_split(s1.ticker_sentiment_label@, s2.ticker_sentiment_label@, r1, r2);
}

/// A non-empty string list's bytes start with its first element.
proof fn lemma_cat_str_front(l: Seq<String>)
    requires
        l.len() > 0,
    ensures
        spec_cat_str(l) == spec_enc_str(l.first()@) + spec_cat_str(l.drop_first()),
    decreases l.len(),
{
    if l.len() == 1 {
        assert(l.drop_last() =~= Seq::<String>::empty());
        assert(l.drop_first() =~= Seq::<String>::empty());
        assert(spec_cat_str(l) =~= spec_enc_str(l.first()@) + spec_cat_str(l.drop_first()));
    } else {
        let m = l.drop_last();
        lemma_cat_str_front(m);
        assert(m.first() == l.first());
        vstd::seq_lib::lemma_concat_associative(
            spec_enc_str(l.first()@),
            spec_cat_str(m.drop_first()),
            spec_enc_str(l.last()@),
        );
        assert(l.drop_first().drop_last() =~= m.drop_first());
        assert(l.drop_first().last() == l.last());
    }
}

/// A non-empty topic list's bytes start with its first element.
proof fn lemma_cat_topics_front(l: Seq<Topic>)
    requires
        l.len() > 0,
    ensures
        spec_cat_topics(l) == spec_enc_topic(l.first()) + spec_cat_topics(l.drop_first()),
    decreases l.len(),
{
    if l.len() == 1 {
        assert(l.drop_last() =~= Seq::<Topic>::empty());
        assert(l.drop_first() =~= Seq::<Topic>::empty());
        assert(spec_cat_topics(l) =~= spec_enc_topic(l.first()) + spec_cat_topics(l.drop_first()));
    } else {
        let m = l.drop_last();
        lemma_cat_topics_front(m);
        assert(m.first() == l.first());
        vstd::seq_lib::lemma_concat_associative(
            spec_enc_topic(l.first()),
            spec_cat_topics(m.drop_first()),
            spec_enc_topic(l.last()),
        );
        assert(l.drop_first().drop_last() =~= m.drop_first());
        assert(l.drop_first().last() == l.last());
    }
}

/// A non-empty sentiment list's bytes start with its first element.
#[verifier::rlimit(50)]
#[verifier::spinoff_prover]
proof fn lemma_cat_sentiments_front(l: Seq<TickerSentiment>)
    requires
        l.len() > 0,
    ensures
        spec_cat_sentiments(l) == spec_enc_sentiment(l.first()) + spec_cat_sentiments(
            l.drop_first(),
        ),
    decreases l.len(),
{
    if l.len() == 1 {
        assert(l.drop_last() =~= Seq::<TickerSentiment>::empty());
        assert(l.drop_first() =~= Seq::<TickerSentiment>::empty());
        assert(spec_cat_sentiments(l) =~= spec_enc_sentiment(l.first()) + spec_cat_sentiments(
            l.drop_first(),
        ));
    } else {
        let m = l.drop_last();
        lemma_cat_sentiments_front(m);
        assert(m.first() == l.first());
        vstd::seq_lib::lemma_concat_associative(
            spec_enc_sentiment(l.first()),
            spec_cat_sentiments(m.drop_first()),
            spec_enc_sentiment(l.last()),
        );
        assert(l.drop_first().drop_last() =~= m.drop_first());
        assert(l.drop_first().last() == l.last());
    }
}

/// Equally long string lists with equal bytes are equal element-wise,
/// and leave equal remainders.
proof fn lemma_cat_str_split(l1: Seq<String>, l2: Seq<String>, r1: Seq<u8>, r2: Seq<u8>)
    requires
        l1.len() == l2.len(),
        forall|i: int| 0 <= i < l1.len() ==> spec_str_fits((#[trigger] l1[i])@),
        forall|i: int| 0 <= i < l2.len() ==> spec_str_fits((#[trigger] l2[i])@),
        spec_cat_str(l1) + r1 == spec_cat_str(l2) + r2,
    ensures
        forall|i: int| 0 <= i < l1.len() ==> (#[trigger] l1[i])@ == (#[trigger] l2[i])@,
        r1 == r2,
    decreases l1.len(),
{
    if l1.len() == 0 {
        assert(r1 =~= r2) by {
            assert(spec_cat_str(l1) + r1 =~= r1);
            assert(spec_cat_str(l2) + r2 =~= r2);
        }
    } else {
        lemma_cat_str_front(l1);
        lemma_cat_str_front(l2);
        let tail1 = spec_cat_str(l1.drop_first());
        let tail2 = spec_cat_str(l2.drop_first());
        vstd::seq_lib::lemma_concat_associative(spec_enc_str(l1.first()@), tail1, r1);
        vstd::seq_lib::lemma_concat_associative(spec_enc_str(l2.first()@), tail2, r2);
        lemma_enc_str_split(l1.first()@, l2.first()@, tail1 + r1, tail2 + r2);
        assert(forall|i: int|
            0 <= i < l1.drop_first().len() ==> #[trigger] l1.drop_first()[i] == l1[i + 1]);
        assert(forall|i: int|
            0 <= i < l2.drop_first().len() ==> #[trigger] l2.drop_first()[i] == l2[i + 1]);
        lemma_cat_str_split(l1.drop_first(), l2.drop_first(), r1, r2);
        assert forall|i: int| 0 <= i < l1.len() implies (#[trigger] l1[i])@ == (
        #[trigger] l2[i])@ by {
            if i > 0 {
                assert(l1.drop_first()[i - 1]@ == l2.drop_first()[i - 1]@);
            }
        }
    }
}

/// Equally long topic lists with equal bytes are equal element-wise,
/// and leave equal remainders.
proof fn lemma_cat_topics_split(l1: Seq<Topic>, l2: Seq<Topic>, r1: Seq<u8>, r2: Seq<u8>)
    requires
        l1.len() == l2.len(),
        forall|i: int| 0 <= i < l1.len() ==> spec_topic_fits(#[trigger] l1[i]),
        forall|i: int| 0 <= i < l2.len() ==> spec_topic_fits(#[trigger] l2[i]),
        spec_cat_topics(l1) + r1 == spec_cat_topics(l2) + r2,
    ensures
        forall|i: int| 0 <= i < l1.len() ==> (#[trigger] l1[i])@ == (#[trigger] l2[i])@,
        r1 == r2,
    decreases l1.len(),
{
    if l1.len() == 0 {
        assert(r1 =~= r2) by {
            assert(spec_cat_topics(l1) + r1 =~= r1);
            assert(spec_cat_topics(l2) + r2 =~= r2);
        }
    } else {
        lemma_cat_topics_front(l1);
        lemma_cat_topics_front(l2);
        let tail1 = spec_cat_topics(l1.drop_first());
        let tail2 = spec_cat_topics(l2.drop_first());
        vstd::seq_lib::lemma_concat_associative(spec_enc_topic(l1.first()), tail1, r1);
        vstd::seq_lib::lemma_concat_associative(spec_enc_topic(l2.first()), tail2, r2);
        lemma_enc_topic_split(l1.first(), l2.first(), tail1 + r1, tail2 + r2);
        assert(forall|i: int|
            0 <= i < l1.drop_first().len() ==> #[trigger] l1.drop_first()[i] == l1[i + 1]);
        assert(forall|i: int|
            0 <= i < l2.drop_first().len() ==> #[trigger] l2.drop_first()[i] == l2[i + 1]);
        lemma_cat_topics_split(l1.drop_first(), l2.drop_first(), r1, r2);
        assert forall|i: int| 0 <= i < l1.len() implies (#[trigger] l1[i])@ == (
        #[trigger] l2[i])@ by {
            if i > 0 {
                assert(l1.drop_first()[i - 1]@ == l2.drop_first()[i - 1]@);
            }
        }
    }
}

/// Equally long sentiment lists with equal bytes are equal
/// element-wise, and leave equal remainders.
proof fn lemma_cat_sentiments_split(
    l1: Seq<TickerSentiment>,
    l2: Seq<TickerSentiment>,
    r1: Seq<u8>,
    r2: Seq<u8>,
)
    requires
        l1.len() == l2.len(),
        forall|i: int| 0 <= i < l1.len() ==> spec_sentiment_fits(#[trigger] l1[i]),
        forall|i: int| 0 <= i < l2.len() ==> spec_sentiment_fits(#[trigger] l2[i]),
        spec_cat_sentiments(l1) + r1 == spec_cat_sentiments(l2) + r2,
    ensures
        forall|i: int| 0 <= i < l1.len() ==> (#[trigger] l1[i])@ == (#[trigger] l2[i])@,
        r1 == r2,
    decreases l1.len(),
{
    if l1.len() == 0 {
        assert(r1 =~= r2) by {
            assert(spec_cat_sentiments(l1) + r1 =~= r1);
            assert(spec_cat_sentiments(l2) + r2 =~= r2);
        }
    } else {
        lemma_cat_sentiments_front(l1);
        lemma_cat_sentiments_front(l2);
        let tail1 = spec_cat_sentiments(l1.drop_first());
        let tail2 = spec_cat_sentiments(l2.drop_first());
        vstd::seq_lib::lemma_concat_associative(spec_enc_sentiment(l1.first()), tail1, r1);
        vstd::seq_lib::lemma_concat_associative(spec_enc_sentiment(l2.first()), tail2, r2);
        lemma_enc_sentiment_split(l1.first(), l2.first(), tail1 + r1, tail2 + r2);
        assert(forall|i: int|
            0 <= i < l1.drop_first().len() ==> #[trigger] l1.drop_first()[i] == l1[i + 1]);
        assert(forall|i: int|
            0 <= i < l2.drop_first().len() ==> #[trigger] l2.drop_first()[i] == l2[i + 1]);
        lemma_cat_sentiments_split(l1.drop_first(), l2.drop_first(), r1, r2);
        assert forall|i: int| 0 <= i < l1.len() implies (#[trigger] l1[i])@ == (
        #[trigger] l2[i])@ by {
            if i > 0 {
                assert(l1.drop_first()[i - 1]@ == l2.drop_first()[i - 1]@);
            }
        }
    }
}

/// A counted string-list block determines its elements and what
/// follows it.
proof fn lemma_enc_str_list_split(l1: Seq<String>, l2: Seq<String>, r1: Seq<u8>, r2: Seq<u8>)
    requires
        l1.len() < 0x1_0000_0000_0000_0000,
        l2.len() < 0x1_0000_0000_0000_0000,
        forall|i: int| 0 <= i < l1.len() ==> spec_str_fits((#[trigger] l1[i])@),
        forall|i: int| 0 <= i < l2.len() ==> spec_str_fits((#[trigger] l2[i])@),
        spec_enc_str_list(l1) + r1 == spec_enc_str_list(l2) + r2,
    ensures
        l1.len() == l2.len(),
        forall|i: int| 0 <= i < l1.len() ==> (#[trigger] l1[i])@ == (#[trigger] l2[i])@,
        r1 == r2,
{
    vstd::seq_lib::lemma_concat_associative(spec_le8(l1.len() as int), spec_cat_str(l1), r1);
    vstd::seq_lib::lemma_concat_associative(spec_le8(l2.len() as int), spec_cat_str(l2), r2);
    lemma_le8_block_split(
        l1.len() as int,
        l2.len() as int,
        spec_cat_str(l1) + r1,
        spec_cat_str(l2) + r2,
    );
    lemma_cat_str_split(l1, l2, r1, r2);
}

/// A counted topic-list block determines its elements and what
/// follows it.
proof fn lemma_enc_topics_split(l1: Seq<Topic>, l2: Seq<Topic>, r1: Seq<u8>, r2: Seq<u8>)
    requires
        l1.len() < 0x1_0000_0000_0000_0000,
        l2.len() < 0x1_0000_0000_0000_0000,
        forall|i: int| 0 <= i < l1.len() ==> spec_topic_fits(#[trigger] l1[i]),
        forall|i: int| 0 <= i < l2.len() ==> spec_topic_fits(#[trigger] l2[i]),
        spec_enc_topics(l1) + r1 == spec_enc_topics(l2) + r2,
    ensures
        l1.len() == l2.len(),
        forall|i: int| 0 <= i < l1.len() ==> (#[trigger] l1[i])@ == (#[trigger] l2[i])@,
        r1 == r2,
{
    vstd::seq_lib::lemma_concat_associative(spec_le8(l1.len() as int), spec_cat_topics(l1), r1);
    vstd::seq_lib::lemma_concat_associative(spec_le8(l2.len() as int), spec_cat_topics(l2), r2);
    lemma_le8_block_split(
        l1.len() as int,
        l2.len() as int,
        spec_cat_topics(l1) + r1,
        spec_cat_topics(l2) + r2,
    );
    lemma_cat_topics_split(l1, l2, r1, r2);
}

/// A counted sentiment-list block determines its elements and what
/// follows it.
proof fn lemma_enc_sentiments_split(
    l1: Seq<TickerSentiment>,
    l2: Seq<TickerSentiment>,
    r1: Seq<u8>,
    r2: Seq<u8>,
)
    requires
        l1.len() < 0x1_0000_0000_0000_0000,
        l2.len() < 0x1_0000_0000_0000_0000,
        forall|i: int| 0 <= i < l1.len() ==> spec_sentiment_fits(#[trigger] l1[i]),
        forall|i: int| 0 <= i < l2.len() ==> spec_sentiment_fits(#[trigger] l2[i]),
        spec_enc_sentiments(l1) + r1 == spec_enc_sentiments(l2) + r2,
    ensures
        l1.len() == l2.len(),
        forall|i: int| 0 <= i < l1.len() ==> (#[trigger] l1[i])@ == (#[trigger] l2[i])@,
        r1 == r2,
{
    vstd::seq_lib::lemma_concat_associative(
        spec_le8(l1.len() as int),
        spec_cat_sentiments(l1),
        r1,
    );
    vstd::seq_lib::lemma_concat_associative(
        spec_le8(l2.len() as int),
        spec_cat_sentiments(l2),
        r2,
    );
    lemma_le8_block_split(
        l1.len() as int,
        l2.len() as int,
        spec_cat_sentiments(l1) + r1,
        spec_cat_sentiments(l2) + r2,
    );
    lemma_cat_sentiments_split(l1, l2, r1, r2);
}

/// Does an article's every field fit its length prefix?
pub open spec fn spec_feed_fits(f: RawFeed) -> bool {
    &&& spec_str_fits(f.title@)
    &&& spec_str_fits(f.url@)
    &&& spec_str_fits(f.time_published@)
    &&& f.authors@.len() < 0x1_0000_0000_0000_0000
    &&& forall|i: int| 0 <= i < f.authors@.len() ==> spec_str_fits((#[trigger] f.authors@[i])@)
    &&& spec_str_fits(f.summary@)
    &&& spec_str_fits(f.banner_image@)
    &&& spec_str_fits(f.source@)
    &&& spec_str_fits(f.category_within_source@)
    &&& spec_str_fits(f.source_domain@)
    &&& f.topics@.len() < 0x1_0000_0000_0000_0000
    &&& forall|i: int| 0 <= i < f.topics@.len() ==> spec_topic_fits(#[trigger] f.topics@[i])
    &&& spec_str_fits(f.overall_sentiment_score@)
    &&& spec_str_fits(f.overall_sentiment_label@)
    &&& f.ticker_sentiment@.len() < 0x1_0000_0000_0000_0000
    &&& forall|i: int|
        0 <= i < f.ticker_sentiment@.len() ==> spec_sentiment_fits(
            #[trigger] f.ticker_sentiment@[i],
        )
}

/// An article block determines every field of the article and what
/// follows the block.
#[verifier::rlimit(100)]
proof fn lemma_enc_feed_split(f1: RawFeed, f2: RawFeed, r1: Seq<u8>, r2: Seq<u8>)
    requires
        spec_feed_fits(f1),
        spec_feed_fits(f2),
        spec_enc_feed(f1) + r1 == spec_enc_feed(f2) + r2,
    ensures
        f1@ == f2@,
        r1 == r2,
{
    let p1 = spec_enc_str(f1.title@);
    let p2 = spec_enc_str(f1.url@);
    let p3 = spec_enc_str(f1.time_published@);
    let p4 = spec_enc_str_list(f1.authors@);
    let p5 = spec_enc_str(f1.summary@);
    let p6 = spec_enc_str(f1.banner_image@);
    let p7 = spec_enc_str(f1.source@);
    let p8 = spec_enc_str(f1.category_within_source@);
    let p9 = spec_enc_str(f1.source_domain@);
    let p10 = spec_enc_topics(f1.topics@);
    let p11 = spec_enc_str(f1.overall_sentiment_score@);
    let p12 = spec_enc_str(f1.overall_sentiment_label@);
    let p13 = spec_enc_sentiments(f1.ticker_sentiment@);
    let q1 = spec_enc_str(f2.title@);
    let q2 = spec_enc_str(f2.url@);
    let q3 = spec_enc_str(f2.time_published@);
    let q4 = spec_enc_str_list(f2.authors@);
    let q5 = spec_enc_str(f2.summary@);
    let q6 = spec_enc_str(f2.banner_image@);
    let q7 = spec_enc_str(f2.source@);
    let q8 = spec_enc_str(f2.category_within_source@);
    let q9 = spec_enc_str(f2.source_domain@);
    let q10 = spec_enc_topics(f2.topics@);
    let q11 = spec_enc_str(f2.overall_sentiment_score@);
    let q12 = spec_enc_str(f2.overall_sentiment_label@);
    let q13 = spec_enc_sentiments(f2.ticker_sentiment@);
    vstd::seq_lib::lemma_concat_associative(
        p1 + p2 + p3 + p4 + p5 + p6 + p7 + p8 + p9 + p10 + p11 + p12,
        p13,
        r1,
    );
    vstd::seq_lib::lemma_concat_associative(
        p1 + p2 + p3 + p4 + p5 + p6 + p7 + p8 + p9 + p10 + p11,
        p12,
        p13 + r1,
    );
    vstd::seq_lib::lemma_concat_associative(
        p1 + p2 + p3 + p4 + p5 + p6 + p7 + p8 + p9 + p10,
        p11,
        p12 + (p13 + r1),
    );
    vstd::seq_lib::lemma_concat_associative(
        p1 + p2 + p3 + p4 + p5 + p6 + p7 + p8 + p9,
        p10,
        p11 + (p12 + (p13 + r1)),
    );
    vstd::seq_lib::lemma_concat_associative(
        p1 + p2 + p3 + p4 + p5 + p6 + p7 + p8,
        p9,
        p10 + (p11 + (p12 + (p13 + r1))),
    );
    vstd::seq_lib::lemma_concat_associative(
        p1 + p2 + p3 + p4 + p5 + p6 + p7,
        p8,
        p9 + (p10 + (p11 + (p12 + (p13 + r1)))),
    );
    vstd::seq_lib::lemma_concat_associative(
        p1 + p2 + p3 + p4 + p5 + p6,
        p7,
        p8 + (p9 + (p10 + (p11 + (p12 + (p13 + r1))))),
    );
    vstd::seq_lib::lemma_concat_associative(
        p1 + p2 + p3 + p4 + p5,
        p6,
        p7 + (p8 + (p9 + (p10 + (p11 + (p12 + (p13 + r1)))))),
    );
    vstd::seq_lib::lemma_concat_associative(
        p1 + p2 + p3 + p4,
        p5,
        p6 + (p7 + (p8 + (p9 + (p10 + (p11 + (p12 + (p13 + r1))))))),
    );
    vstd::seq_lib::lemma_concat_associative(
        p1 + p2 + p3,
        p4,
        p5 + (p6 + (p7 + (p8 + (p9 + (p10 + (p11 + (p12 + (p13 + r1)))))))),
    );
    vstd::seq_lib::lemma_concat_associative(
        p1 + p2,
        p3,
        p4 + (p5 + (p6 + (p7 + (p8 + (p9 + (p10 + (p11 + (p12 + (p13 + r1))))))))),
    );
    vstd::seq_lib::lemma_concat_associative(
        p1,
        p2,
        p3 + (p4 + (p5 + (p6 + (p7 + (p8 + (p9 + (p10 + (p11 + (p12 + (p13 + r1)))))))))),
    );
    vstd::seq_lib::lemma_concat_associative(
        q1 + q2 + q3 + q4 + q5 + q6 + q7 + q8 + q9 + q10 + q11 + q12,
        q13,
        r2,
    );
    vstd::seq_lib::lemma_concat_associative(
        q1 + q2 + q3 + q4 + q5 + q6 + q7 + q8 + q9 + q10 + q11,
        q12,
        q13 + r2,
    );
    vstd::seq_lib::lemma_concat_associative(
        q1 + q2 + q3 + q4 + q5 + q6 + q7 + q8 + q9 + q10,
        q11,
        q12 + (q13 + r2),
    );
    vstd::seq_lib::lemma_concat_associative(
        q1 + q2 + q3 + q4 + q5 + q6 + q7 + q8 + q9,
        q10,
        q11 + (q12 + (q13 + r2)),
    );
    vstd::seq_lib::lemma_concat_associative(
        q1 + q2 + q3 + q4 + q5 + q6 + q7 + q8,
        q9,
        q10 + (q11 + (q12 + (q13 + r2))),
    );
    vstd::seq_lib::lemma_concat_associative(
        q1 + q2 + q3 + q4 + q5 + q6 + q7,
        q8,
        q9 + (q10 + (q11 + (q12 + (q13 + r2)))),
    );
    vstd::seq_lib::lemma_concat_associative(
        q1 + q2 + q3 + q4 + q5 + q6,
        q7,
        q8 + (q9 + (q10 + (q11 + (q12 + (q13 + r2))))),
    );
    vstd::seq_lib::lemma_concat_associative(
        q1 + q2 + q3 + q4 + q5,
        q6,
        q7 + (q8 + (q9 + (q10 + (q11 + (q12 + (q13 + r2)))))),
    );
    vstd::seq_lib::lemma_concat_associative(
        q1 + q2 + q3 + q4,
        q5,
        q6 + (q7 + (q8 + (q9 + (q10 + (q11 + (q12 + (q13 + r2))))))),
    );
    vstd::seq_lib::lemma_concat_associative(
        q1 + q2 + q3,
        q4,
        q5 + (q6 + (q7 + (q8 + (q9 + (q10 + (q11 + (q12 + (q13 + r2)))))))),
    );
    vstd::seq_lib::lemma_concat_associative(
        q1 + q2,
        q3,
        q4 + (q5 + (q6 + (q7 + (q8 + (q9 + (q10 + (q11 + (q12 + (q13 + r2))))))))),
    );
    vstd::seq_lib::lemma_concat_associative(
        q1,
        q2,
        q3 + (q4 + (q5 + (q6 + (q7 + (q8 + (q9 + (q10 + (q11 + (q12 + (q13 + r2)))))))))),
    );
    let t2 = p3 + (p4 + (p5 + (p6 + (p7 + (p8 + (p9 + (p10 + (p11 + (p12 + (p13 + r1))))))))));
    let u2 = q3 + (q4 + (q5 + (q6 + (q7 + (q8 + (q9 + (q10 + (q11 + (q12 + (q13 + r2))))))))));
    lemma_enc_str_split(f1.title@, f2.title@, p2 + t2, q2 + u2);
    lemma_enc_str_split(f1.url@, f2.url@, t2, u2);
    lemma_enc_str_split(
        f1.time_published@,
        f2.time_published@,
        p4 + (p5 + (p6 + (p7 + (p8 + (p9 + (p10 + (p11 + (p12 + (p13 + r1))))))))),
        q4 + (q5 + (q6 + (q7 + (q8 + (q9 + (q10 + (q11 + (q12 + (q13 + r2))))))))),
    );
    lemma_enc_str_list_split(
        f1.authors@,
        f2.authors@,
        p5 + (p6 + (p7 + (p8 + (p9 + (p10 + (p11 + (p12 + (p13 + r1)))))))),
        q5 + (q6 + (q7 + (q8 + (q9 + (q10 + (q11 + (q12 + (q13 + r2)))))))),
    );
    lemma_enc_str_split(
        f1.summary@,
        f2.summary@,
        p6 + (p7 + (p8 + (p9 + (p10 + (p11 + (p12 + (p13 + r1))))))),
        q6 + (q7 + (q8 + (q9 + (q10 + (q11 + (q12 + (q13 + r2))))))),
    );
    lemma_enc_str_split(
        f1.banner_image@,
        f2.banner_image@,
        p7 + (p8 + (p9 + (p10 + (p11 + (p12 + (p13 + r1)))))),
        q7 + (q8 + (q9 + (q10 + (q11 + (q12 + (q13 + r2)))))),
    );
    lemma_enc_str_split(
        f1.source@,
        f2.source@,
        p8 + (p9 + (p10 + (p11 + (p12 + (p13 + r1))))),
        q8 + (q9 + (q10 + (q11 + (q12 + (q13 + r2))))),
    );
    lemma_enc_str_split(
        f1.category_within_source@,
        f2.category_within_source@,
        p9 + (p10 + (p11 + (p12 + (p13 + r1)))),
        q9 + (q10 + (q11 + (q12 + (q13 + r2)))),
    );
    lemma_enc_str_split(
        f1.source_domain@,
        f2.source_domain@,
        p10 + (p11 + (p12 + (p13 + r1))),
        q10 + (q11 + (q12 + (q13 + r2))),
    );
    lemma_enc_topics_split(
        f1.topics@,
        f2.topics@,
        p11 + (p12 + (p13 + r1)),
        q11 + (q12 + (q13 + r2)),
    );
    lemma_enc_str_split(
        f1.overall_sentiment_score@,
        f2.overall_sentiment_score@,
        p12 + (p13 + r1),
        q12 + (q13 + r2),
    );
    lemma_enc_str_split(
        f1.overall_sentiment_label@,
        f2.overall_sentiment_label@,
        p13 + r1,
        q13 + r2,
    );
    lemma_enc_sentiments_split(f1.ticker_sentiment@, f2.ticker_sentiment@, r1, r2);
    assert(f1@.authors =~= f2@.authors);
    assert(f1@.topics =~= f2@.topics);
    assert(f1@.ticker_sentiment =~= f2@.ticker_sentiment);
}

/// An article block is never empty: it starts with the title's
/// eight-byte length prefix.
proof fn lemma_enc_feed_nonempty(f: RawFeed)
    ensures
        spec_enc_feed(f).len() >= 8,
{
    assert(spec_enc_str(f.title@).len() >= 8);
}

/// A non-empty feed's canonical bytes start with its first row.
proof fn lemma_canonical_front(rows: Seq<RawFeed>)
    requires
        rows.len() > 0,
    ensures
        spec_canonical_bytes(rows) == spec_enc_feed(rows.first()) + spec_canonical_bytes(
            rows.drop_first(),
        ),
    decreases rows.len(),
{
    if rows.len() == 1 {
        assert(rows.drop_last() =~= Seq::<RawFeed>::empty());
        assert(rows.drop_first() =~= Seq::<RawFeed>::empty());
        assert(spec_canonical_bytes(rows) =~= spec_enc_feed(rows.first())
            + spec_canonical_bytes(rows.drop_first()));
    } else {
        let m = rows.drop_last();
        lemma_canonical_front(m);
        assert(m.first() == rows.first());
        vstd::seq_lib::lemma_concat_associative(
            spec_enc_feed(rows.first()),
            spec_canonical_bytes(m.drop_first()),
            spec_enc_feed(rows.last()),
        );
        assert(rows.drop_first().drop_last() =~= m.drop_first());
        assert(rows.drop_first().last() == rows.last());
    }
}

/// Does every article of a feed fit its length prefixes? True of every
/// feed an execution can build, whose strings and lists are bounded by
/// memory.
pub open spec fn spec_feeds_fit(rows: Seq<RawFeed>) -> bool {
    forall|i: int| 0 <= i < rows.len() ==> spec_feed_fits(#[trigger] rows[i])
}

/// The canonical bytes determine the feed: two feeds with the same
/// bytes agree row by row, in every field. With this, a fingerprint
/// mismatch on logically equal feeds is impossible, and a fingerprint
/// match on different feeds can come only from a checksum collision,
/// never from the serialization.
#[verifier::rlimit(100)]
#[verifier::spinoff_prover]
pub proof fn lemma_canonical_bytes_injective(rows1: Seq<RawFeed>, rows2: Seq<RawFeed>)
    requires
        spec_feeds_fit(rows1),
        spec_feeds_fit(rows2),
        spec_canonical_bytes(rows1) == spec_canonical_bytes(rows2),
    ensures
        rows1.len() == rows2.len(),
        forall|i: int| 0 <= i < rows1.len() ==> (#[trigger] rows1[i])@ == (#[trigger] rows2[i])@,
    decreases rows1.len(),
{
    if rows1.len() == 0 && rows2.len() == 0 {
    } else if rows1.len() == 0 {
        lemma_canonical_front(rows2);
        lemma_enc_feed_nonempty(rows2.first());
        assert(spec_canonical_bytes(rows2).len() >= 8);
        assert(false);
    } else if rows2.len() == 0 {
        lemma_canonical_front(rows1);
        lemma_enc_feed_nonempty(rows1.first());
        assert(spec_canonical_bytes(rows1).len() >= 8);
        assert(false);
    } else {
        lemma_canonical_front(rows1);
        lemma_canonical_front(rows2);
        lemma_enc_feed_split(
            rows1.first(),
            rows2.first(),
            spec_canonical_bytes(rows1.drop_first()),
            spec_canonical_bytes(rows2.drop_first()),
        );
        assert(forall|i: int|
            0 <= i < rows1.drop_first().len() ==> #[trigger] rows1.drop_first()[i] == rows1[i
                + 1]);
        assert(forall|i: int|
            0 <= i < rows2.drop_first().len() ==> #[trigger] rows2.drop_first()[i] == rows2[i
                + 1]);
        lemma_canonical_bytes_injective(rows1.drop_first(), rows2.drop_first());
        assert forall|i: int| 0 <= i < rows1.len() implies (#[trigger] rows1[i])@ == (
        #[trigger] rows2[i])@ by {
            if i > 0 {
                assert(rows1.drop_first()[i - 1]@ == rows2.drop_first()[i - 1]@);
            }
        }
    }
}

/// Fingerprint stability law: the fingerprint is a function of the
/// ordered row contents alone — two feeds with identical rows in the
/// same order always fingerprint alike, across any two runs.
pub proof fn lemma_fingerprint_stable(rows1: Seq<RawFeed>, rows2: Seq<RawFeed>)
    requires
        rows1 == rows2,
    ensures
        spec_hash_id(rows1) == spec_hash_id(rows2),
{
}

/// The hash id that deduplicates articles: the SHA-256 digest label of
/// the article's title, url and summary concatenated.
pub fn article_hash_id(title: &str, url: &str, summary: &str) -> (r: String)
    ensures
        r@ == sha256_label_of(vstd::utf8::encode_utf8(title@ + url@ + summary@)),
{
    let mut joined = title.to_owned();
    joined.append(url);
    joined.append(summary);
    let bytes = joined.as_str().as_bytes();
    proof {
        assert(joined@ == title@ + url@ + summary@);
    }
    sha256_label(bytes)
}

} // verus!
