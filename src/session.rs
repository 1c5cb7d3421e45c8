//! A generator session: timestamps and the word pool gathered as events
//! arrive, and a passphrase made on each request.
use vstd::prelude::*;
use crate::error::GenError;
use crate::passphrase::{assemble, assembled_of, is_passphrase_over};
use crate::pool::{lines_of, usable_of, WordPool, RESERVED_PREFIX};
use crate::seed::{mix, seed_digest};

verus! {

/// The events a session handles.
pub enum Msg {
    /// A passphrase is requested.
    CreatePasswd,
    /// The word list is to be fetched; the caller starts the fetch.
    StartFetch,
    /// The word list arrived, as text with one word per line.
    GetWordsSuccess(String),
    /// The word list could not be fetched.
    GetWordsError,
}

/// What a session holds, as mathematical values; times in milliseconds.
pub struct SessionView {
    pub passwd: Option<Seq<char>>,
    pub site_load_time: Option<int>,
    pub button_press_time: Option<int>,
    pub delta_fetch: Option<int>,
    pub words: Option<Seq<Seq<char>>>,
    pub source_failed: bool,
}

/// Makes a passphrase from the three timestamps and the pool: the digest of
/// the timestamps seeds the draws from the pool's usable words.
/// `InsufficientWords` exactly when the pool has no word past its reserved
/// prefix.
pub fn passphrase_for(request: i64, load: i64, latency: i64, pool: &WordPool) -> (r: Result<
    String,
    GenError,
>)
    ensures
        pool@.len() <= RESERVED_PREFIX <==> r is Err,
        r matches Err(e) ==> e == GenError::InsufficientWords,
        r matches Ok(p) ==> p@ == assembled_of(
            seed_digest(request as int, load as int, latency as int),
            usable_of(pool@),
        ),
        r matches Ok(p) ==> is_passphrase_over(p@, usable_of(pool@)),
{
    let usable = match pool.usable_subset() {
        Ok(v) => v,
        Err(e) => {
            return Err(e);
        }
    };
    assert(usable@.len() == usable.deep_view().len());
    let digest = mix(request, load, latency);
    assemble(&digest, &usable)
}

/// The passphrase is a function of the three timestamps and the usable
/// words alone: equal timestamps and pools of one length, with a usable
/// word, that agree past the reserved prefix give the same passphrase,
/// whatever their reserved lines.
pub proof fn lemma_same_passphrase(
    request: int,
    load: int,
    latency: int,
    pool: Seq<Seq<char>>,
    pool2: Seq<Seq<char>>,
)
    requires
        pool.len() == pool2.len(),
        pool.len() > RESERVED_PREFIX,
        forall|i: int| RESERVED_PREFIX <= i < pool.len() ==> pool[i] == pool2[i],
    ensures
        usable_of(pool) == usable_of(pool2),
        assembled_of(seed_digest(request, load, latency), usable_of(pool))
            == assembled_of(seed_digest(request, load, latency), usable_of(pool2)),
{
    assert(usable_of(pool) =~= usable_of(pool2));
}

/// A passphrase generator session.
pub struct PasswdGen {
    passwd: Option<String>,
    site_load_time: Option<i64>,
    button_press_time: Option<i64>,
    delta_fetch: Option<i64>,
    words: Option<WordPool>,
    source_failed: bool,
}

/// The view of an optional string.
pub open spec fn opt_text(s: Option<String>) -> Option<Seq<char>> {
    match s {
        Some(t) => Some(t@),
        None => None,
    }
}

/// The view of an optional timestamp.
pub open spec fn opt_int(t: Option<i64>) -> Option<int> {
    match t {
        Some(v) => Some(v as int),
        None => None,
    }
}

impl View for PasswdGen {
    type V = SessionView;

    closed spec fn view(&self) -> SessionView {
        SessionView {
            passwd: opt_text(self.passwd),
            site_load_time: opt_int(self.site_load_time),
            button_press_time: opt_int(self.button_press_time),
            delta_fetch: opt_int(self.delta_fetch),
            words: match self.words {
                Some(p) => Some(p@),
                None => None,
            },
            source_failed: self.source_failed,
        }
    }
}

impl PasswdGen {
    /// A session whose page was loaded at `now`; the caller then starts the
    /// fetch of the word list.
    pub fn create(now: i64) -> (r: PasswdGen)
        ensures
            r@ == (SessionView {
                passwd: None,
                site_load_time: Some(now as int),
                button_press_time: None,
                delta_fetch: None,
                words: None,
                source_failed: false,
            }),
    {
        PasswdGen {
            passwd: None,
            site_load_time: Some(now),
            button_press_time: None,
            delta_fetch: None,
            words: None,
            source_failed: false,
        }
    }

    /// Whether a passphrase can be made now, and why not: the word source
    /// failed, a timestamp is missing (the words have not arrived), or the
    /// pool is too small.
    pub fn readiness(&self) -> (r: Result<(), GenError>)
        ensures
            r == Self::readiness_of(self@),
    {
        if self.source_failed {
            return Err(GenError::WordSourceUnavailable);
        }
        if self.site_load_time.is_none() || self.delta_fetch.is_none() {
            return Err(GenError::MissingTimestamp);
        }
        match &self.words {
            None => Err(GenError::MissingTimestamp),
            Some(pool) => {
                if pool.len() <= RESERVED_PREFIX {
                    Err(GenError::InsufficientWords)
                } else {
                    Ok(())
                }
            }
        }
    }

    /// Whether a session in state `s` can make a passphrase, and why not.
    pub open spec fn readiness_of(s: SessionView) -> Result<(), GenError> {
        if s.source_failed {
            Err(GenError::WordSourceUnavailable)
        } else if s.site_load_time is None || s.delta_fetch is None || s.words is None {
            Err(GenError::MissingTimestamp)
        } else if s.words->0.len() <= RESERVED_PREFIX {
            Err(GenError::InsufficientWords)
        } else {
            Ok(())
        }
    }

    /// Makes a passphrase for a request at `now`, from the session's
    /// timestamps and pool.
    pub fn generate(&self, now: i64) -> (r: Result<String, GenError>)
        ensures
            r is Err <==> Self::readiness_of(self@) is Err,
            r matches Err(e) ==> Self::readiness_of(self@) == Err::<(), GenError>(e),
            r matches Ok(p) ==> p@ == assembled_of(
                seed_digest(now as int, self@.site_load_time->0, self@.delta_fetch->0),
                usable_of(self@.words->0),
            ),
            r matches Ok(p) ==> is_passphrase_over(
                p@,
                usable_of(self@.words->0),
            ),
    {
        match self.readiness() {
            Err(e) => {
                return Err(e);
            },
            Ok(()) => {},
        }
        match (&self.site_load_time, &self.delta_fetch, &self.words) {
            (Some(load), Some(latency), Some(pool)) => passphrase_for(now, *load, *latency, pool),
            _ => Err(GenError::MissingTimestamp),
        }
    }

    /// Handles one event at time `now`, and says whether the display should
    /// be redrawn.
    /// - `StartFetch`: nothing changes here.
    /// - `GetWordsSuccess`: the fetch latency is taken from the load time
    ///   (when it fits), and the pool is loaded from the text; once the pool
    ///   is loaded, it and the latency stay as they are.
    /// - `GetWordsError`: the generator is switched off for the session.
    /// - `CreatePasswd`: the request time is taken and the passphrase is
    ///   made anew, or cleared when it cannot be made.
    pub fn update(&mut self, message: Msg, now: i64) -> (render: bool)
        ensures
            message is StartFetch ==> final(self)@ == old(self)@ && render,
            message is GetWordsError ==> final(self)@ == (SessionView {
                source_failed: true,
                ..old(self)@
            }) && !render,
            message matches Msg::GetWordsSuccess(text) ==> if old(self)@.words is Some {
                final(self)@ == old(self)@ && !render
            } else {
                render && final(self)@ == (SessionView {
                words: Some(lines_of(text@)),
                delta_fetch: match old(self)@.site_load_time {
                    Some(load) => if i64::MIN <= now - load <= i64::MAX {
                        Some(now - load)
                    } else {
                        old(self)@.delta_fetch
                    },
                    None => old(self)@.delta_fetch,
                },
                ..old(self)@
            })
            },
            message is CreatePasswd ==> render && {
                let s = final(self)@;
                &&& s.button_press_time == Some(now as int)
                &&& s.site_load_time == old(self)@.site_load_time
                &&& s.delta_fetch == old(self)@.delta_fetch
                &&& s.words == old(self)@.words
                &&& s.source_failed == old(self)@.source_failed
                &&& (s.passwd is Some <==> Self::readiness_of(old(self)@) is Ok)
                &&& s.passwd matches Some(p) ==> p == assembled_of(
                    seed_digest(now as int, s.site_load_time->0, s.delta_fetch->0),
                    usable_of(s.words->0),
                )
                &&& s.passwd matches Some(p) ==> is_passphrase_over(
                    p,
                    usable_of(s.words->0),
                )
            },
    {
        match message {
            Msg::StartFetch => true,
            Msg::CreatePasswd => {
                self.button_press_time = Some(now);
                self.passwd = match self.generate(now) {
                    Ok(p) => Some(p),
                    Err(_) => None,
                };
                true
            },
            Msg::GetWordsSuccess(text) => {
                if self.words.is_some() {
                    return false;
                }
                if let Some(load) = self.site_load_time {
                    let delta = now as i128 - load as i128;
                    if i64::MIN as i128 <= delta && delta <= i64::MAX as i128 {
                        self.delta_fetch = Some(delta as i64);
                    }
                }
                self.words = Some(WordPool::load(&text));
                true
            },
            Msg::GetWordsError => {
                self.source_failed = true;
                false
            },
        }
    }

    /// The passphrase last made, if any.
    pub fn passwd(&self) -> (r: Option<String>)
        ensures
            opt_text(r) == self@.passwd,
    {
        self.passwd.clone()
    }

    /// The time of the last request, if any.
    pub fn button_press_time(&self) -> (r: Option<i64>)
        ensures
            opt_int(r) == self@.button_press_time,
    {
        self.button_press_time
    }

    /// The time the word list took to arrive, if it has.
    pub fn delta_fetch(&self) -> (r: Option<i64>)
        ensures
            opt_int(r) == self@.delta_fetch,
    {
        self.delta_fetch
    }
}

} // verus!
