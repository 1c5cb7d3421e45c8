//! The word pool: the lines of the fetched word list, of which the first
//! ones are reserved and never drawn.
use vstd::prelude::*;
use crate::error::GenError;
use crate::outside::push_char;
use vstd::std_specs::iter::IteratorSpec;

verus! {

/// The lines read so far and the line being read, after reading `s` from
/// the left: a newline ends the line being read, without the carriage
/// return just before it.
pub open spec fn pieces(s: Seq<char>) -> (Seq<Seq<char>>, Seq<char>)
    decreases s.len(),
{
    if s.len() == 0 {
        (Seq::empty(), Seq::empty())
    } else {
        let (done, cur) = pieces(s.drop_last());
        let c = s.last();
        if c == '\n' {
            (done.push(strip_cr(cur)), Seq::empty())
        } else {
            (done, cur.push(c))
        }
    }
}

/// A line without its trailing carriage return, if it has one.
pub open spec fn strip_cr(line: Seq<char>) -> Seq<char> {
    if line.len() > 0 && line.last() == '\r' {
        line.drop_last()
    } else {
        line
    }
}

/// The lines of a text: split at `\n` or `\r\n`; the last line needs no
/// line ending, and a text ending in one has no empty line after it.
pub open spec fn lines_of(s: Seq<char>) -> Seq<Seq<char>> {
    let (done, cur) = pieces(s);
    if cur.len() == 0 {
        done
    } else {
        done.push(cur)
    }
}

/// Splits a text into its lines.
pub fn split_lines(text: &str) -> (r: Vec<String>)
    ensures
        r.deep_view() == lines_of(text@),
{
    broadcast use vstd::string::group_string_axioms, vstd::string::next_postcondition;
    let mut done: Vec<String> = Vec::new();
    let mut cur = String::new();
    let mut pending_cr = false;
    for c in it: text.chars()
        invariant
            it.seq() == text@,
            pieces(it.seq().take(it.index())).0 == done.deep_view(),
            pieces(it.seq().take(it.index())).1 == if pending_cr { cur@.push('\r') } else { cur@ },
            !pending_cr ==> cur@.len() == 0 || cur@.last() != '\r',
    {
        let ghost seen = it.seq().take(it.index());
        proof {
            assert(it.seq().take(it.index() + 1) =~= seen.push(c));
            assert(seen.push(c).drop_last() =~= seen);
        }
        if c == '\n' {
            proof {
                if pending_cr {
                    assert(cur@.push('\r').drop_last() =~= cur@);
                }
            }
            let ghost prev = done.deep_view();
            let ghost line = cur@;
            done.push(cur);
            assert(done.deep_view() =~= prev.push(line));
            cur = String::new();
            pending_cr = false;
        } else {
            if pending_cr {
                push_char(&mut cur, '\r');
            }
            if c == '\r' {
                pending_cr = true;
            } else {
                push_char(&mut cur, c);
                pending_cr = false;
            }
        }
    }
    let ghost seen = text@.take(text@.len() as int);
    assert(seen =~= text@);
    if pending_cr {
        push_char(&mut cur, '\r');
    }
    if !cur.as_str().is_empty() {
        let ghost prev = done.deep_view();
        let ghost line = cur@;
        done.push(cur);
        assert(done.deep_view() =~= prev.push(line));
    }
    done
}

/// How many words at the head of the pool are never drawn.
pub const RESERVED_PREFIX: usize = 33;

/// The words of a pool from which passphrase words are drawn: all but the
/// reserved prefix.
pub open spec fn usable_of(pool: Seq<Seq<char>>) -> Seq<Seq<char>> {
    pool.subrange(RESERVED_PREFIX as int, pool.len() as int)
}

/// The words of a fetched word list, one per line.
pub struct WordPool {
    words: Vec<String>,
}

impl View for WordPool {
    type V = Seq<Seq<char>>;

    closed spec fn view(&self) -> Seq<Seq<char>> {
        self.words.deep_view()
    }
}

impl WordPool {
    /// Splits a text into lines, each line one word.
    pub fn load(text: &String) -> (r: WordPool)
        ensures
            r@ == lines_of(text@),
    {
        WordPool { words: split_lines(text.as_str()) }
    }

    /// A pool holding the given words in order.
    pub fn from_words(words: Vec<String>) -> (r: WordPool)
        ensures
            r@ == words.deep_view(),
    {
        WordPool { words }
    }

    /// The words, the reserved ones included.
    pub fn words(&self) -> (r: &Vec<String>)
        ensures
            r.deep_view() == self@,
    {
        &self.words
    }

    /// The number of words, the reserved ones included.
    pub fn len(&self) -> (r: usize)
        ensures
            r == self@.len(),
    {
        self.words.len()
    }

    /// The words past the reserved prefix, in order; `InsufficientWords`
    /// when there are none.
    pub fn usable_subset(&self) -> (r: Result<Vec<String>, GenError>)
        ensures
            self@.len() <= RESERVED_PREFIX <==> r is Err,
            r matches Err(e) ==> e == GenError::InsufficientWords,
            r matches Ok(v) ==> v.deep_view() == usable_of(self@)
                && v@.len() == self@.len() - RESERVED_PREFIX,
    {
        let n = self.words.len();
        if n <= RESERVED_PREFIX {
            return Err(GenError::InsufficientWords);
        }
        let mut out: Vec<String> = Vec::new();
        let mut i: usize = RESERVED_PREFIX;
        while i < n
            invariant
                RESERVED_PREFIX <= i <= n,
                n == self.words@.len(),
                out.deep_view() =~= usable_of(self@).subrange(0, i - RESERVED_PREFIX),
            decreases n - i,
        {
            let w = self.words[i].clone();
            let ghost prev = out.deep_view();
            out.push(w);
            assert(out.deep_view() =~= prev.push(self@[i as int]));
            i = i + 1;
        }
        assert(out.deep_view() =~= usable_of(self@));
        Ok(out)
    }
}

} // verus!
