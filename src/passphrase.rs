//! The passphrase template and its assembly from a seeded generator.
use vstd::prelude::*;
use vstd::multiset::Multiset;
use crate::decimal::{digits, digits_text};
use crate::error::GenError;
use crate::outside::{
    choose_char, choose_string, gen_range_i32, pcg_choose_char_of,
    pcg_choose_index_of, pcg_gen_i32_of, pcg_shuffle_of, shuffle_strings,
    to_upper, upper_of, DrawCall, SeededRng,
};

verus! {

/// The characters one of which separates the words.
pub const SEPARATORS: &'static str = "@%+\\/`!#$^?:,(){}[]~-_.\"";

/// The separator characters.
pub open spec fn separators() -> Seq<char> {
    SEPARATORS@
}

/// The word shown at position `i`: upper-cased at position `upper`, as
/// stored elsewhere.
pub open spec fn shown(w: Seq<char>, i: int, upper: int) -> Seq<char> {
    if i == upper { upper_of(w) } else { w }
}

/// The filler after the word at position `i`: the digit at position
/// `slot`, empty elsewhere.
pub open spec fn filler(i: int, slot: int, digit: int) -> Seq<char> {
    if i == slot { digits(digit as nat) } else { Seq::empty() }
}

/// The text of a passphrase:
/// `word0 filler0 sep word1 filler1 sep word2 filler2`.
pub open spec fn passphrase_text(
    w0: Seq<char>,
    w1: Seq<char>,
    w2: Seq<char>,
    upper: int,
    slot: int,
    digit: int,
    sep: char,
) -> Seq<char> {
    shown(w0, 0, upper) + filler(0, slot, digit) + seq![sep]
        + shown(w1, 1, upper) + filler(1, slot, digit) + seq![sep]
        + shown(w2, 2, upper) + filler(2, slot, digit)
}

/// Whether `p` follows the template over the given words: three of them
/// (repeats allowed), exactly one upper-cased, one digit 0 to 9 in one of
/// the three filler slots, and one separator character used twice.
pub open spec fn is_passphrase_over(p: Seq<char>, words: Seq<Seq<char>>) -> bool {
    exists|i0: int, i1: int, i2: int, upper: int, slot: int, digit: int, sep: char|
        0 <= i0 < words.len() && 0 <= i1 < words.len() && 0 <= i2 < words.len()
        && 0 <= upper < 3 && 0 <= slot < 3 && 0 <= digit < 10
        && separators().contains(sep)
        && p == #[trigger] passphrase_text(words[i0], words[i1], words[i2], upper, slot, digit, sep)
}

/// The passphrase that a generator seeded from `digest` draws over `words`,
/// in this order: a digit 0 to 9; a shuffle of the fillers `["", "", digit]`;
/// a separator character; three word indices, with repetition; the position
/// of the word to upper-case.
pub open spec fn assembled_of(digest: Seq<char>, words: Seq<Seq<char>>) -> Seq<char> {
    let none = Seq::<char>::empty();
    let c0 = Seq::<DrawCall>::empty();
    let digit = pcg_gen_i32_of(digest, c0, 0, 10);
    let c1 = c0.push((0, 0, 10, none));
    let fillers = pcg_shuffle_of(digest, c1, seq![none, none, digits(digit as nat)]);
    let c2 = c1.push((2, 3, 0, none));
    let sep = pcg_choose_char_of(digest, c2, separators());
    let c3 = c2.push((4, 0, 0, separators()));
    let n = words.len() as int;
    let i0 = pcg_choose_index_of(digest, c3, n);
    let c4 = c3.push((3, n, 0, none));
    let i1 = pcg_choose_index_of(digest, c4, n);
    let c5 = c4.push((3, n, 0, none));
    let i2 = pcg_choose_index_of(digest, c5, n);
    let c6 = c5.push((3, n, 0, none));
    let upper = pcg_gen_i32_of(digest, c6, 0, 3);
    shown(words[i0], 0, upper) + fillers[0] + seq![sep]
        + shown(words[i1], 1, upper) + fillers[1] + seq![sep]
        + shown(words[i2], 2, upper) + fillers[2]
}

/// Writes out the passphrase for the given picks: the three words, the
/// position to upper-case, the filler slot that takes the digit, the digit
/// and the separator.
pub fn compose(
    w0: &String,
    w1: &String,
    w2: &String,
    upper: usize,
    slot: usize,
    digit: u64,
    sep: &String,
) -> (r: String)
    requires
        upper < 3,
        slot < 3,
        digit < 10,
        sep@.len() == 1,
    ensures
        r@ == passphrase_text(w0@, w1@, w2@, upper as int, slot as int, digit as int, sep@[0]),
{
    let words = [w0, w1, w2];
    let mut out = String::new();
    let mut i: usize = 0;
    while i < 3
        invariant
            i <= 3,
            upper < 3,
            slot < 3,
            digit < 10,
            sep@.len() == 1,
            words@ == seq![w0, w1, w2],
            out@ == (if i == 0 {
                Seq::<char>::empty()
            } else if i == 1 {
                shown(w0@, 0, upper as int) + filler(0, slot as int, digit as int)
            } else if i == 2 {
                shown(w0@, 0, upper as int) + filler(0, slot as int, digit as int) + seq![sep@[0]]
                    + shown(w1@, 1, upper as int) + filler(1, slot as int, digit as int)
            } else {
                passphrase_text(w0@, w1@, w2@, upper as int, slot as int, digit as int, sep@[0])
            }),
        decreases 3 - i,
    {
        if i > 0 {
            out.append(sep.as_str());
        }
        if i == upper {
            let u = to_upper(words[i]);
            out.append(u.as_str());
        } else {
            out.append(words[i].as_str());
        }
        if i == slot {
            let d = digits_text(digit);
            out.append(d.as_str());
        }
        proof {
            assert(sep@ =~= seq![sep@[0]]);
            let ghost t = out@;
            if i == 0 {
                assert(t =~= shown(w0@, 0, upper as int) + filler(0, slot as int, digit as int));
            } else if i == 1 {
                assert(t =~= shown(w0@, 0, upper as int) + filler(0, slot as int, digit as int)
                    + seq![sep@[0]] + shown(w1@, 1, upper as int) + filler(1, slot as int, digit as int));
            } else {
                assert(t =~= passphrase_text(w0@, w1@, w2@, upper as int, slot as int, digit as int, sep@[0]));
            }
        }
        i = i + 1;
    }
    out
}

/// A shuffle of three items of which two are the same `e` puts the other,
/// `d`, in exactly one place.
proof fn lemma_shuffled_fillers(s: Seq<String>, e: String, d: String)
    requires
        s.len() == 3,
        s.to_multiset() == seq![e, e, d].to_multiset(),
        e != d,
    ensures
        exists|slot: int| 0 <= slot < 3 && #[trigger] s[slot] == d
            && forall|i: int| 0 <= i < 3 && i != slot ==> s[i] == e,
{
    broadcast use vstd::seq_lib::group_to_multiset_ensures;
    let m = s.to_multiset();
    assert(s =~= Seq::<String>::empty().push(s[0]).push(s[1]).push(s[2]));
    assert(seq![e, e, d] =~= Seq::<String>::empty().push(e).push(e).push(d));
    assert(Seq::<String>::empty().to_multiset() =~= Multiset::empty());
    assert(m.count(d) == 1);
    assert(m.count(e) == 2);
    if s[0] == d {
        assert(s[1] == e && s[2] == e);
    } else if s[1] == d {
        assert(s[0] == e && s[2] == e);
    } else {
        assert(s[0] == e && s[1] == e);
        assert(s[2] == d);
    }
}

/// Assembles a passphrase from the words drawn by a generator seeded with
/// `digest`: a digit, its filler slot by a shuffle, the separator, three
/// words with repetition, and the word to upper-case, in that order.
/// `InsufficientWords` when there is no word to draw.
pub fn assemble(digest: &String, usable: &Vec<String>) -> (r: Result<String, GenError>)
    ensures
        usable@.len() == 0 <==> r is Err,
        r matches Err(e) ==> e == GenError::InsufficientWords,
        r matches Ok(p) ==> p@ == assembled_of(digest@, usable.deep_view()),
        r matches Ok(p) ==> is_passphrase_over(p@, usable.deep_view()),
{
    if usable.len() == 0 {
        return Err(GenError::InsufficientWords);
    }
    let ghost words = usable.deep_view();
    let ghost none = Seq::<char>::empty();
    let mut rng = SeededRng::from_seed(digest);
    let digit = gen_range_i32(&mut rng, 0, 10);
    let digit_str = digits_text(digit as u64);
    let empty = String::new();
    let mut fillers: Vec<String> = vec![empty.clone(), empty.clone(), digit_str.clone()];
    let ghost before = fillers@;
    proof {
        assert(fillers.deep_view() =~= seq![none, none, digits(digit as nat)]);
    }
    shuffle_strings(&mut fillers, &mut rng);
    proof {
        assert(digits(digit as nat).len() >= 1) by {
            reveal_with_fuel(digits, 2);
        }
        assert(before =~= seq![empty, empty, digit_str]);
        assert(empty != digit_str);
        lemma_shuffled_fillers(fillers@, empty, digit_str);
    }
    let slot: usize = if fillers[0] == digit_str {
        0
    } else if fillers[1] == digit_str {
        1
    } else {
        2
    };
    proof {
        reveal_strlit("@%+\\/`!#$^?:,(){}[]~-_.\"");
    }
    let sep = match choose_char(SEPARATORS, &mut rng) {
        Some(c) => c,
        None => {
            return Err(GenError::InsufficientWords);
        },
    };
    let ghost c3 = rng.calls_of();
    let w0 = match choose_string(usable, &mut rng) {
        Some(w) => w,
        None => {
            return Err(GenError::InsufficientWords);
        },
    };
    let ghost c4 = rng.calls_of();
    let w1 = match choose_string(usable, &mut rng) {
        Some(w) => w,
        None => {
            return Err(GenError::InsufficientWords);
        },
    };
    let ghost c5 = rng.calls_of();
    let w2 = match choose_string(usable, &mut rng) {
        Some(w) => w,
        None => {
            return Err(GenError::InsufficientWords);
        },
    };
    let upper = gen_range_i32(&mut rng, 0, 3) as usize;
    let p = compose(w0, w1, w2, upper, slot, digit as u64, &sep);
    proof {
        let n = usable@.len() as int;
        let i0 = pcg_choose_index_of(digest@, c3, n);
        let i1 = pcg_choose_index_of(digest@, c4, n);
        let i2 = pcg_choose_index_of(digest@, c5, n);
        assert(words[i0] == w0@);
        assert(words[i1] == w1@);
        assert(words[i2] == w2@);
        let fl = fillers.deep_view();
        assert forall|i: int| 0 <= i < 3 implies #[trigger] fl[i] == filler(i, slot as int, digit as int) by {
            assert(fl[i] == fillers@[i]@);
        }
        assert(sep@ =~= seq![sep@[0]]);
        assert(p@ == passphrase_text(words[i0], words[i1], words[i2], upper as int, slot as int, digit as int, sep@[0]));
        assert(p@ =~= assembled_of(digest@, words));
    }
    Ok(p)
}

} // verus!
