//! The calls into outside code, each behind a contract stating what the
//! callee's source or documentation shows of it.
use vstd::prelude::*;
use rand::Rng;
use rand::seq::{IteratorRandom, SliceRandom};
use rand_pcg::Pcg64;

verus! {

/// A PCG generator; its state is opaque here.
#[verifier::external_type_specification]
#[verifier::external_body]
pub struct ExLcg128Xsl64(rand_pcg::Lcg128Xsl64);

/// The lowercase hex text of the Keccak-512 digest of a string's bytes.
pub uninterp spec fn keccak512_hex_of(s: Seq<char>) -> Seq<char>;

/// The text that `str::to_uppercase` makes of a string.
pub uninterp spec fn upper_of(s: Seq<char>) -> Seq<char>;

/// Relies on easy_hasher::keccak512 and `Hash::to_hex_string`: the digest
/// depends on the string alone.
#[verifier::external_body]
pub(crate) fn keccak512_hex(s: &String) -> (r: String)
    ensures
        r@ == keccak512_hex_of(s@),
{
    easy_hasher::easy_hasher::keccak512(s).to_hex_string()
}

/// One call made on a seeded generator, as `(kind, a, b, text)`: `(0, lo, hi, _)`
/// for an `i32` range, `(2, len, _, _)`
/// for a shuffle, `(3, len, _, _)` for a choice from a slice, `(4, _, _, text)`
/// for a choice among the characters of `text`. A PCG generator's state is a
/// function of its seed and of the calls made on it since.
pub type DrawCall = (int, int, int, Seq<char>);

/// What `Rng::gen_range` on `i32` returns from a `Pcg64` seeded from `seed`
/// by `rand_seeder`, after the calls `calls`.
pub uninterp spec fn pcg_gen_i32_of(seed: Seq<char>, calls: Seq<(int, int, int, Seq<char>)>, lo: int, hi: int) -> int;

/// What `SliceRandom::shuffle` makes of `items`, likewise.
pub uninterp spec fn pcg_shuffle_of(seed: Seq<char>, calls: Seq<(int, int, int, Seq<char>)>, items: Seq<Seq<char>>) -> Seq<Seq<char>>;

/// The index that `SliceRandom::choose` takes in a slice of length `len`,
/// likewise.
pub uninterp spec fn pcg_choose_index_of(seed: Seq<char>, calls: Seq<(int, int, int, Seq<char>)>, len: int) -> int;

/// The character that `IteratorRandom::choose` over `text.chars()` returns,
/// likewise.
pub uninterp spec fn pcg_choose_char_of(seed: Seq<char>, calls: Seq<(int, int, int, Seq<char>)>, text: Seq<char>) -> char;

/// Relies on `rand_seeder::Seeder::from` and `Seeder::make_rng`: a `Pcg64`
/// seeded from the SipHash of the seed text.
#[verifier::external_body]
fn seeded_pcg64(seed: &String) -> (r: Pcg64) {
    rand_seeder::Seeder::from(seed.clone()).make_rng::<Pcg64>()
}

/// A `Pcg64` together with the seed it was made from and the calls made on
/// it since; only this module makes or draws from one.
pub struct SeededRng {
    rng: Pcg64,
    seed: Ghost<Seq<char>>,
    calls: Ghost<Seq<DrawCall>>,
}

impl SeededRng {
    /// The seed text the generator was made from.
    pub closed spec fn seed_of(&self) -> Seq<char> {
        self.seed@
    }

    /// The calls made on the generator since it was seeded.
    pub closed spec fn calls_of(&self) -> Seq<DrawCall> {
        self.calls@
    }

    /// A generator seeded from `seed`, with no call made on it.
    pub fn from_seed(seed: &String) -> (r: SeededRng)
        ensures
            r.seed_of() == seed@,
            r.calls_of() == Seq::<DrawCall>::empty(),
    {
        SeededRng { rng: seeded_pcg64(seed), seed: Ghost(seed@), calls: Ghost(Seq::empty()) }
    }
}

/// Relies on `rand::Rng::gen_range` on `i32`: a value in `[lo, hi)`, fixed by
/// the generator's state; it panics when `lo >= hi`. The `i32` instance
/// draws 32 bits from the generator on every target, so the draw does not
/// depend on the pointer width.
#[verifier::external_body]
pub(crate) fn gen_range_i32(rng: &mut SeededRng, lo: i32, hi: i32) -> (r: i32)
    requires
        lo < hi,
    ensures
        r == pcg_gen_i32_of(old(rng).seed_of(), old(rng).calls_of(), lo as int, hi as int),
        lo <= r < hi,
        final(rng).seed_of() == old(rng).seed_of(),
        final(rng).calls_of() == old(rng).calls_of().push((0, lo as int, hi as int, Seq::empty())),
{
    rng.rng.gen_range(lo, hi)
}

/// Relies on `rand::seq::SliceRandom::shuffle`: the slice is permuted by
/// swaps drawn from the generator, so it holds the same items, in an order
/// fixed by the generator's state and the length.
#[verifier::external_body]
pub(crate) fn shuffle_strings(v: &mut Vec<String>, rng: &mut SeededRng)
    ensures
        final(v)@.to_multiset() == old(v)@.to_multiset(),
        final(v)@.len() == old(v)@.len(),
        final(v).deep_view() == pcg_shuffle_of(old(rng).seed_of(), old(rng).calls_of(), old(v).deep_view()),
        final(rng).seed_of() == old(rng).seed_of(),
        final(rng).calls_of() == old(rng).calls_of().push((2, old(v)@.len() as int, 0, Seq::empty())),
{
    v.shuffle(&mut rng.rng)
}

/// Relies on `rand::seq::SliceRandom::choose`: the item at an index drawn
/// from the generator for the slice's length, or `None` when it is empty.
#[verifier::external_body]
pub(crate) fn choose_string<'a>(v: &'a Vec<String>, rng: &mut SeededRng) -> (r: Option<&'a String>)
    ensures
        v@.len() == 0 <==> r is None,
        ({
            let i = pcg_choose_index_of(old(rng).seed_of(), old(rng).calls_of(), v@.len() as int);
            r matches Some(w) ==> 0 <= i < v@.len() && *w == v@[i]
        }),
        final(rng).seed_of() == old(rng).seed_of(),
        final(rng).calls_of() == old(rng).calls_of().push((3, v@.len() as int, 0, Seq::empty())),
{
    v.choose(&mut rng.rng)
}

/// Relies on `rand::seq::IteratorRandom::choose` over `str::chars`: one
/// character of the text, fixed by the generator's state and the text, as a
/// string of its own, or `None` when the text is empty.
#[verifier::external_body]
pub(crate) fn choose_char(s: &str, rng: &mut SeededRng) -> (r: Option<String>)
    ensures
        s@.len() == 0 <==> r is None,
        ({
            let c = pcg_choose_char_of(old(rng).seed_of(), old(rng).calls_of(), s@);
            r matches Some(t) ==> t@ == seq![c] && s@.contains(c)
        }),
        final(rng).seed_of() == old(rng).seed_of(),
        final(rng).calls_of() == old(rng).calls_of().push((4, 0, 0, s@)),
{
    s.chars().choose(&mut rng.rng).map(|c| c.to_string())
}

/// Relies on `str::to_uppercase`: the result depends on the text alone.
#[verifier::external_body]
pub(crate) fn to_upper(s: &String) -> (r: String)
    ensures
        r@ == upper_of(s@),
{
    s.to_uppercase()
}

/// Relies on `String::push`: the character is appended.
#[verifier::external_body]
pub(crate) fn push_char(s: &mut String, c: char)
    ensures
        final(s)@ == old(s)@.push(c),
{
    s.push(c)
}

} // verus!
