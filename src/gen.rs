//! Generation of short slugs that carry a disambiguating counter.
use vstd::prelude::*;

use crate::base64::{self, chunk_symbols, encoded, index_code, sextets, symbol};
use crate::string_based_type::Slug;
use vstd::utf8::{encode_utf8, is_ascii_chars, is_ascii_chars_encode_utf8};

verus! {

/// Makes candidate slugs; each carries the counter (the bump) it was made
/// with, so that candidates with different bumps differ.
pub trait SlugGenerator {
    /// Whether `slug` is one of the slugs the generator may make from `input`
    /// and `bump`.
    spec fn makes(&self, input: Seq<char>, bump: u16, slug: Seq<char>) -> bool;

    /// The bump that a slug made by this generator carries.
    spec fn carried_bump(&self, slug: Seq<char>) -> int;

    fn generate(&self, input: &str, bump: u16) -> (r: Slug)
        ensures
            self.makes(input@, bump, r@),
            self.carried_bump(r@) == bump,
            r@.len() > 0,
    ;
}

/// Makes slugs from the sub-second part of the clock and the bump.
pub struct SimplestSlugGenerator;

/// The 6-bit value of a symbol of the URL-safe alphabet.
pub open spec fn url_sextet(c: char) -> u32 {
    match index_code(c, '-', '_') {
        Some(v) => v as u32,
        None => 0,
    }
}

/// The bump carried by the last three symbols of an eight-symbol slug.
pub open spec fn slug_bump(s: Seq<char>) -> u32 {
    ((url_sextet(s[5]) & 15u32) << 12u32) | (url_sextet(s[6]) << 6u32) | url_sextet(s[7])
}

/// A slug that the clock-based generator may make with `bump`: the URL-safe
/// base64 text of some sub-second nanosecond count and the bump.
pub open spec fn clock_slug(bump: u16, slug: Seq<char>) -> bool {
    exists|seed: u32| seed < 1_000_000_000 && slug == encoded::<base64::Url>(seed_bytes(seed, bump))
}

/// The six bytes a slug encodes: the seed, then the bump, both big-endian.
pub open spec fn seed_bytes(seed: u32, bump: u16) -> Seq<u8> {
    seq![
        (seed >> 24u32) as u8,
        (seed >> 16u32) as u8,
        (seed >> 8u32) as u8,
        seed as u8,
        (bump >> 8u16) as u8,
        bump as u8,
    ]
}

#[verifier::external_type_specification]
#[verifier::external_body]
pub struct ExSystemTime(std::time::SystemTime);

#[verifier::external_type_specification]
#[verifier::external_body]
pub struct ExSystemTimeError(std::time::SystemTimeError);

/// Relies on `SystemTime::now`: some instant, read from the system clock.
pub assume_specification[ std::time::SystemTime::now ]() -> std::time::SystemTime;

/// Relies on `SystemTime::duration_since`: some duration, or an error where
/// `earlier` is later.
pub assume_specification[ std::time::SystemTime::duration_since ](
    t: &std::time::SystemTime,
    earlier: std::time::SystemTime,
) -> Result<core::time::Duration, std::time::SystemTimeError>;

/// Relies on `SystemTimeError::duration`: how far the instant lies before the
/// other.
pub assume_specification[ std::time::SystemTimeError::duration ](
    e: &std::time::SystemTimeError,
) -> core::time::Duration;

/// Relies on `Duration::subsec_nanos`: the fractional part in nanoseconds,
/// always under one second.
pub assume_specification[ core::time::Duration::subsec_nanos ](d: &core::time::Duration) -> (r: u32)
    ensures
        r < 1_000_000_000,
;

/// Relies on `std::time::UNIX_EPOCH`: the instant that the clock counts from.
#[verifier::external_body]
fn unix_epoch() -> std::time::SystemTime {
    std::time::UNIX_EPOCH
}

/// The nanoseconds within the current second of the clock; the value changes
/// from call to call.
fn clock_subsec_nanos() -> (r: u32)
    ensures
        r < 1_000_000_000,
{
    match std::time::SystemTime::now().duration_since(unix_epoch()) {
        Ok(d) => d.subsec_nanos(),
        Err(e) => e.duration().subsec_nanos(),
    }
}

proof fn lemma_url_symbol_index(v: u8)
    requires
        v < 64,
    ensures
        index_code(symbol::<base64::Url>(v), '-', '_') == Some(v),
{
}

proof fn lemma_url_symbol_ascii(v: u8)
    requires
        v < 64,
    ensures
        '\0' <= symbol::<base64::Url>(v) <= '\u{7f}',
{
}

proof fn lemma_bump_bits(b3: u8, b4: u8, b5: u8)
    ensures
        (((((b3 & 3u8) << 4u8 | b4 >> 4u8) as u32) & 15u32) << 12u32) | ((((b4 & 15u8) << 2u8
            | b5 >> 6u8) as u32) << 6u32) | ((b5 & 63u8) as u32) == ((b4 as u32) << 8u32) | (
        b5 as u32),
{
    assert((((((b3 & 3u8) << 4u8 | b4 >> 4u8) as u32) & 15u32) << 12u32) | ((((b4 & 15u8) << 2u8
        | b5 >> 6u8) as u32) << 6u32) | ((b5 & 63u8) as u32) == ((b4 as u32) << 8u32) | (
    b5 as u32)) by (bit_vector);
}

proof fn lemma_bump_split(bump: u16)
    ensures
        ((((bump >> 8u16) as u8) as u32) << 8u32) | ((bump as u8) as u32) == bump as u32,
{
    assert(((((bump >> 8u16) as u8) as u32) << 8u32) | ((bump as u8) as u32) == bump as u32)
        by (bit_vector);
}

/// The slug made from `seed` and `bump` is eight ASCII symbols long and
/// carries `bump`.
proof fn lemma_seed_slug(seed: u32, bump: u16)
    ensures
        encoded::<base64::Url>(seed_bytes(seed, bump)).len() == 8,
        encode_utf8(encoded::<base64::Url>(seed_bytes(seed, bump))).len() == 8,
        slug_bump(encoded::<base64::Url>(seed_bytes(seed, bump))) == bump as u32,
{
    let d = seed_bytes(seed, bump);
    let tail = d.skip(3);
    assert(tail == seq![d[3], d[4], d[5]]);
    assert(encoded::<base64::Url>(tail) == chunk_symbols::<base64::Url>(sextets(tail)));
    assert(d.take(3) == seq![d[0], d[1], d[2]]);
    let s = encoded::<base64::Url>(d);
    let g = sextets(tail);
    crate::base64::lemma_groups_fit(d[3], d[4]);
    crate::base64::lemma_groups_fit(d[4], d[5]);
    crate::base64::lemma_groups_fit(d[5], 0);
    assert(s[5] == symbol::<base64::Url>(g[1]));
    assert(s[6] == symbol::<base64::Url>(g[2]));
    assert(s[7] == symbol::<base64::Url>(g[3]));
    lemma_url_symbol_index(g[1]);
    lemma_url_symbol_index(g[2]);
    lemma_url_symbol_index(g[3]);
    lemma_bump_bits(d[3], d[4], d[5]);
    lemma_bump_split(bump);
    let head = d.take(3);
    let h = sextets(head);
    crate::base64::lemma_groups_fit(d[0], d[1]);
    crate::base64::lemma_groups_fit(d[1], d[2]);
    crate::base64::lemma_groups_fit(d[2], 0);
    assert forall|i: int| 0 <= i < s.len() implies '\0' <= #[trigger] s[i] <= '\u{7f}' by {
        if i < 4 {
            lemma_url_symbol_ascii(h[i]);
        } else {
            lemma_url_symbol_ascii(g[i - 4]);
        }
    }
    assert(is_ascii_chars(s));
    is_ascii_chars_encode_utf8(s);
}

impl SimplestSlugGenerator {
    /// The slug for a given seed and bump: the URL-safe base64 text of the
    /// seed's four bytes followed by the bump's two.
    pub fn generate_from(seed: u32, bump: u16) -> (r: Slug)
        ensures
            r@ == encoded::<base64::Url>(seed_bytes(seed, bump)),
            r@.len() == 8,
            encode_utf8(r@).len() == 8,
            slug_bump(r@) == bump as u32,
    {
        let mut bytes: Vec<u8> = Vec::new();
        bytes.push((seed >> 24u32) as u8);
        bytes.push((seed >> 16u32) as u8);
        bytes.push((seed >> 8u32) as u8);
        bytes.push(seed as u8);
        bytes.push((bump >> 8u16) as u8);
        bytes.push(bump as u8);
        assert(bytes@ == seed_bytes(seed, bump));
        proof {
            lemma_seed_slug(seed, bump);
        }
        Slug::from(base64::Url::encode(bytes.as_slice()))
    }

    /// A slug from the clock and `bump`.
    pub fn generate(&self, bump: u16) -> (r: Slug)
        ensures
            clock_slug(bump, r@),
            r@.len() == 8,
            encode_utf8(r@).len() == 8,
            slug_bump(r@) == bump as u32,
    {
        let seed = clock_subsec_nanos();
        SimplestSlugGenerator::generate_from(seed, bump)
    }
}

impl SlugGenerator for SimplestSlugGenerator {
    open spec fn makes(&self, input: Seq<char>, bump: u16, slug: Seq<char>) -> bool {
        clock_slug(bump, slug)
    }

    open spec fn carried_bump(&self, slug: Seq<char>) -> int {
        slug_bump(slug) as int
    }

    fn generate(&self, _input: &str, bump: u16) -> (r: Slug) {
        SimplestSlugGenerator::generate(self, bump)
    }
}

} // verus!
