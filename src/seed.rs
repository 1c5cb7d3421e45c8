//! The seed text made of three timestamps, and its digest.
use vstd::prelude::*;
use crate::decimal::{decimal, decimal_text, lemma_decimal_injective};
use crate::outside::{keccak512_hex, keccak512_hex_of};

verus! {

/// The seed: the decimal texts of the request time, the load time and the
/// fetch latency, concatenated in that order.
pub open spec fn seed_text(request: int, load: int, latency: int) -> Seq<char> {
    decimal(request) + decimal(load) + decimal(latency)
}

/// The digest that seeds the generator: the Keccak-512 hex text of the seed.
pub open spec fn seed_digest(request: int, load: int, latency: int) -> Seq<char> {
    keccak512_hex_of(seed_text(request, load, latency))
}

/// Builds the seed text of three timestamps, in milliseconds.
pub fn seed(request: i64, load: i64, latency: i64) -> (r: String)
    ensures
        r@ == seed_text(request as int, load as int, latency as int),
{
    let mut s = decimal_text(request);
    let l = decimal_text(load);
    let f = decimal_text(latency);
    s.append(l.as_str());
    s.append(f.as_str());
    s
}

/// Hashes the seed text of three timestamps into the hex digest that seeds
/// the generator.
pub fn mix(request: i64, load: i64, latency: i64) -> (r: String)
    ensures
        r@ == seed_digest(request as int, load as int, latency as int),
{
    let s = seed(request, load, latency);
    keccak512_hex(&s)
}

/// Changing any one of the three timestamps changes the seed text, so the
/// digest can only stay the same through a collision of the hash.
pub proof fn lemma_seed_sensitive(
    request: int,
    load: int,
    latency: int,
    request2: int,
    load2: int,
    latency2: int,
)
    requires
        (request != request2 && load == load2 && latency == latency2)
        || (request == request2 && load != load2 && latency == latency2)
        || (request == request2 && load == load2 && latency != latency2),
    ensures
        seed_text(request, load, latency) != seed_text(request2, load2, latency2),
{
    let (a, b, c) = (decimal(request), decimal(load), decimal(latency));
    let (a2, b2, c2) = (decimal(request2), decimal(load2), decimal(latency2));
    let s = a + b + c;
    let s2 = a2 + b2 + c2;
    if s == s2 {
        assert(s.len() == a.len() + b.len() + c.len());
        assert(s2.len() == a2.len() + b2.len() + c2.len());
        if request != request2 {
            assert(a.len() == a2.len());
            assert(a =~= s.subrange(0, a.len() as int));
            assert(a2 =~= s2.subrange(0, a2.len() as int));
            lemma_decimal_injective(request, request2);
        } else if load != load2 {
            assert(b.len() == b2.len());
            assert(b =~= s.subrange(a.len() as int, (a.len() + b.len()) as int));
            assert(b2 =~= s2.subrange(a2.len() as int, (a2.len() + b2.len()) as int));
            lemma_decimal_injective(load, load2);
        } else {
            assert(c =~= s.subrange((a.len() + b.len()) as int, s.len() as int));
            assert(c2 =~= s2.subrange((a2.len() + b2.len()) as int, s2.len() as int));
            lemma_decimal_injective(latency, latency2);
        }
    }
}

} // verus!
