//! The encoding cache: the last PNG encoding of the canvas, reused while it
//! is younger than the time to live. Only the passing of time makes an
//! entry stale; a write to the canvas never does.

use crate::canvas::{Canvas, EncodeError};
use std::time::{Duration, Instant};
use vstd::prelude::*;

verus! {

/// Age, in nanoseconds, from which a cached value is no longer served:
/// 100 milliseconds.
pub const TTL_NANOS: u128 = 100_000_000;

/// A value of this age is still served.
pub open spec fn fresh(age_nanos: nat) -> bool {
    age_nanos < TTL_NANOS
}

/// A reading of std's monotonic clock, carried through unread.
#[verifier::external_type_specification]
#[verifier::external_body]
pub struct ExInstant(Instant);

/// `Instant::now` reads the clock: nothing is claimed of the reading.
pub assume_specification[ Instant::now ]() -> Instant;

/// `Instant::elapsed` reads the clock again: nothing is claimed of the
/// time that has passed.
pub assume_specification[ Instant::elapsed ](since: &Instant) -> Duration;

/// `Duration::as_nanos` gives the whole duration in nanoseconds: nothing is
/// claimed of the number.
pub assume_specification[ Duration::as_nanos ](duration: &Duration) -> u128;

/// A value together with the moment it was stored.
pub struct CanvasCache<T> {
    data: T,
    updated_at: Instant,
}

impl<T> CanvasCache<T> {
    /// The stored value.
    pub closed spec fn data(&self) -> T {
        self.data
    }

    /// Stores `data`, stamped with the current time.
    pub fn new(data: T) -> (entry: Self)
        ensures
            entry.data() == data,
    {
        Self { data, updated_at: Instant::now() }
    }

    /// Time since the value was stored, in nanoseconds.
    pub fn age_nanos(&self) -> u128 {
        self.updated_at.elapsed().as_nanos()
    }

    /// The stored value if an entry of age `age_nanos` is still fresh,
    /// and nothing once the time to live has passed.
    pub fn get_at_age(&self, age_nanos: u128) -> (hit: Option<&T>)
        ensures
            hit is Some <==> fresh(age_nanos as nat),
            hit matches Some(data) ==> *data == self.data(),
    {
        if age_nanos >= TTL_NANOS {
            return None;
        }
        Some(&self.data)
    }

    /// The stored value if it is still fresh by the clock. Whatever the
    /// clock says, a value that is returned is the stored one.
    pub fn get(&self) -> (hit: Option<&T>)
        ensures
            hit matches Some(data) ==> *data == self.data(),
    {
        let age = self.age_nanos();
        self.get_at_age(age)
    }
}

/// What one read does, given the cached bytes, their age, and the PNG
/// encoding of the canvas at the time of the read: the bytes served (none
/// if encoding fails) and the cached bytes afterwards.
///
/// Fresh cached bytes are served as they are. Otherwise the canvas is
/// encoded anew; the new bytes are served and replace the cached ones. A
/// failed encoding leaves the cached bytes alone.
pub open spec fn read_at(cached: Option<Seq<u8>>, age_nanos: nat, png: Option<Seq<u8>>) -> (
    Option<Seq<u8>>,
    Option<Seq<u8>>,
) {
    if cached is Some && fresh(age_nanos) {
        (cached, cached)
    } else if png is Some {
        (png, png)
    } else {
        (None, cached)
    }
}

/// Freshness bound: a read at time `now`, when the cached bytes were
/// produced at `produced_at`, serves the cached bytes only while they are
/// younger than the time to live. From the time to live on it serves a new
/// encoding of the canvas, which also replaces the cached bytes; a failed
/// encoding serves nothing and leaves the cached bytes alone.
pub proof fn lemma_read_serves_nothing_stale(
    cached: Option<Seq<u8>>,
    produced_at: nat,
    now: nat,
    png: Option<Seq<u8>>,
)
    requires
        produced_at <= now,
    ensures
        ({
            let age = (now - produced_at) as nat;
            let (served, after) = read_at(cached, age, png);
            &&& served is Some ==> (served == cached && now - produced_at < TTL_NANOS) || served
                == png
            &&& now - produced_at >= TTL_NANOS ==> served == png && (png is Some ==> after == png)
            &&& png is None ==> after == cached
        }),
{
}

/// The served bytes of a read result, as a model value.
pub open spec fn served(result: Result<Vec<u8>, EncodeError>) -> Option<Seq<u8>> {
    match result {
        Ok(bytes) => Some(bytes@),
        Err(_) => None,
    }
}

/// At most one cached PNG encoding of the canvas.
pub struct EncodingCache {
    slot: Option<CanvasCache<Vec<u8>>>,
}

impl View for EncodingCache {
    type V = Option<Seq<u8>>;

    /// The cached bytes, if any.
    closed spec fn view(&self) -> Option<Seq<u8>> {
        match self.slot {
            Some(entry) => Some(entry.data()@),
            None => None,
        }
    }
}

impl EncodingCache {
    /// A cache that holds nothing.
    pub fn new() -> (cache: EncodingCache)
        ensures
            cache@ is None,
    {
        EncodingCache { slot: None }
    }

    /// Age of the cached bytes in nanoseconds, or zero where nothing is
    /// cached. Of cached bytes the age is whatever the clock says.
    pub fn age_nanos(&self) -> (age: u128)
        ensures
            self@ is None ==> age == 0,
    {
        match &self.slot {
            Some(entry) => entry.age_nanos(),
            None => 0,
        }
    }

    /// A copy of the cached bytes if there are any and bytes of age
    /// `age_nanos` are still fresh.
    pub fn lookup_at_age(&self, age_nanos: u128) -> (hit: Option<Vec<u8>>)
        ensures
            hit is Some <==> self@ is Some && fresh(age_nanos as nat),
            hit matches Some(bytes) ==> self@ == Some(bytes@),
    {
        match &self.slot {
            Some(entry) => match entry.get_at_age(age_nanos) {
                Some(bytes) => {
                    let copy = bytes.clone();
                    assert(copy@ =~= bytes@);
                    Some(copy)
                },
                None => None,
            },
            None => None,
        }
    }

    /// A copy of the cached bytes if they are still fresh by the clock.
    /// Nothing is returned from an empty cache; bytes that are returned are
    /// the cached ones.
    pub fn lookup(&self) -> (hit: Option<Vec<u8>>)
        ensures
            hit matches Some(bytes) ==> self@ == Some(bytes@),
    {
        let age = self.age_nanos();
        self.lookup_at_age(age)
    }

    /// Replaces whatever is cached by `bytes`, stamped with the current
    /// time.
    pub fn store(&mut self, bytes: Vec<u8>)
        ensures
            final(self)@ == Some(bytes@),
    {
        self.slot = Some(CanvasCache::new(bytes));
    }

    /// Serves a read when the cached bytes, if any, are `age_nanos` old:
    /// fresh cached bytes are returned without looking at the canvas;
    /// otherwise the canvas is encoded, and the new bytes are cached and
    /// returned. If encoding fails the cache is left exactly as it was.
    pub fn get_or_encode_at_age(&mut self, canvas: &Canvas, age_nanos: u128) -> (result: Result<
        Vec<u8>,
        EncodeError,
    >)
        requires
            canvas.wf(),
        ensures
            (served(result), final(self)@) == read_at(
                old(self)@,
                age_nanos as nat,
                canvas@.png(),
            ),
            result is Err ==> *final(self) == *old(self),
    {
        match self.lookup_at_age(age_nanos) {
            Some(bytes) => Ok(bytes),
            None => match canvas.encode_png() {
                Ok(bytes) => {
                    let copy = bytes.clone();
                    assert(copy@ =~= bytes@);
                    self.store(copy);
                    Ok(bytes)
                },
                Err(e) => Err(e),
            },
        }
    }

    /// Serves a read by the clock. The bytes returned are either the cached
    /// ones, with the cache untouched, or the encoding of `canvas` as it is
    /// now, which is then cached. From an empty cache the canvas is always
    /// encoded. If encoding fails the cache is left exactly as it was.
    pub fn get_or_encode(&mut self, canvas: &Canvas) -> (result: Result<Vec<u8>, EncodeError>)
        requires
            canvas.wf(),
        ensures
            match result {
                Ok(bytes) => {
                    ||| old(self)@ == Some(bytes@) && final(self)@ == old(self)@
                    ||| canvas@.png() == Some(bytes@) && final(self)@ == Some(bytes@)
                },
                Err(_) => canvas@.png() is None && *final(self) == *old(self),
            },
            old(self)@ is None ==> (served(result), final(self)@) == (
                canvas@.png(),
                canvas@.png(),
            ),
    {
        let age = self.age_nanos();
        self.get_or_encode_at_age(canvas, age)
    }
}

} // verus!
