//! Playback progress of the current song and its `m:ss / m:ss` display.

use std::time::{Duration, Instant};
use vstd::prelude::*;
use vstd::string::*;
use crate::text::{decimal, push_decimal, push_two_digits, two_digits};

verus! {

/// `std::time::Instant`: a reading of the monotonic clock.  Nothing is known
/// of what it holds.
#[verifier::external_type_specification]
#[verifier::external_body]
pub struct ExInstant(Instant);

/// `Instant::now` reads the clock.  Nothing is claimed of the reading.
pub assume_specification[ Instant::now ]() -> (now: Instant);

/// `Instant::saturating_duration_since` gives the time from `earlier` to
/// `later`, or zero if `earlier` is the later one.  Nothing is claimed of
/// the result.
pub assume_specification[ Instant::saturating_duration_since ](
    later: &Instant,
    earlier: Instant,
) -> (span: Duration);

/// `Duration::as_millis` gives the whole milliseconds of a span.  Nothing
/// is claimed of the result.
pub assume_specification[ Duration::as_millis ](span: &Duration) -> (ms: u128);

/// A count of milliseconds as a `u64`: the count itself where it fits, and
/// the largest `u64` where it does not.
pub open spec fn capped(ms: u128) -> u64 {
    if ms > u64::MAX {
        u64::MAX
    } else {
        ms as u64
    }
}

/// Whether `ms` is a measure of the time gone by since `start`: the whole
/// milliseconds, as `Duration::as_millis` gives them, of the span that
/// `Instant::saturating_duration_since` gives from `start` to a reading
/// of the clock by `Instant::now`.
pub open spec fn gone_by(start: Instant, ms: u128) -> bool {
    exists|now: Instant, span: Duration|
        call_ensures(Instant::now, (), now) && #[trigger] call_ensures(
            Instant::saturating_duration_since,
            (&now, start),
            span,
        ) && call_ensures(Duration::as_millis, (&span,), ms)
}

/// A number of milliseconds rounded to the nearest second, halves up.
pub open spec fn rounded_secs(ms: nat) -> nat {
    (ms + 500) / 1000
}

/// A number of seconds as minutes and seconds, `m:ss`.
pub open spec fn clock(secs: nat) -> Seq<char> {
    decimal(secs / 60) + seq![':'] + two_digits(secs % 60)
}

/// The progress display for a position and a length in milliseconds:
/// both rounded to seconds and written as `m:ss`, with ` / ` between.
pub open spec fn timing_text(elapsed: nat, duration: nat) -> Seq<char> {
    clock(rounded_secs(elapsed)) + seq![' ', '/', ' '] + clock(rounded_secs(duration))
}

/// Position within the current song.
///
/// `elapsed` and `duration` are in milliseconds, as of the moment the
/// status was taken.  While the song plays, `timestamp` holds that moment,
/// and the position shown moves on with the clock.
pub struct Progress {
    elapsed: u64,
    duration: u64,
    timestamp: Option<Instant>,
}

/// Mathematical content of a [`Progress`]: the two times, and whether the
/// position moves on with the clock.
pub struct ProgressView {
    pub elapsed: nat,
    pub duration: nat,
    pub running: bool,
}

impl View for Progress {
    type V = ProgressView;

    closed spec fn view(&self) -> ProgressView {
        ProgressView {
            elapsed: self.elapsed as nat,
            duration: self.duration as nat,
            running: self.timestamp is Some,
        }
    }
}

/// Appends `secs` as `m:ss` to `out`.
fn push_clock(out: &mut String, secs: u128)
    ensures
        final(out)@ == old(out)@ + clock(secs as nat),
{
    push_decimal(out, secs / 60);
    out.append(":");
    proof {
        reveal_strlit(":");
    }
    push_two_digits(out, secs % 60);
}

/// `ms` milliseconds rounded to the nearest second, halves up.
fn round_secs(ms: u128) -> (secs: u128)
    ensures
        secs == rounded_secs(ms as nat),
{
    if ms % 1000 >= 500 {
        ms / 1000 + 1
    } else {
        ms / 1000
    }
}

/// A count of milliseconds as a `u64`, capped at the largest.
pub fn cap_millis(ms: u128) -> (r: u64)
    ensures
        r == capped(ms),
{
    if ms > u64::MAX as u128 {
        u64::MAX
    } else {
        ms as u64
    }
}

impl Progress {
    /// Whether `ms` is a measure of the time gone by since the status of a
    /// song that plays was taken.
    pub closed spec fn clocked(&self, ms: u128) -> bool {
        self.timestamp matches Some(start) && gone_by(start, ms)
    }

    /// Progress of a song that is `elapsed` of `duration` milliseconds in.
    /// If it is `playing`, the position moves on from now.
    pub fn new(elapsed: u64, duration: u64, playing: bool) -> (r: Progress)
        ensures
            r@ == (ProgressView {
                elapsed: elapsed as nat,
                duration: duration as nat,
                running: playing,
            }),
    {
        let timestamp = if playing {
            Some(Instant::now())
        } else {
            None
        };
        Progress { elapsed, duration, timestamp }
    }

    /// The length of the song in milliseconds.
    pub fn duration(&self) -> (r: u64)
        ensures
            r == self@.duration,
    {
        self.duration
    }

    /// Milliseconds that the position has moved on since the status was
    /// taken: zero for a song that does not play, and for one that plays
    /// the time gone by on the clock since then, capped at the largest
    /// `u64`.
    pub fn advance(&self) -> (r: u64)
        ensures
            !self@.running ==> r == 0,
            self@.running ==> exists|ms: u128| #[trigger] self.clocked(ms) && r == capped(ms),
    {
        match &self.timestamp {
            Some(time) => {
                let now = Instant::now();
                let span = now.saturating_duration_since(*time);
                let ms = span.as_millis();
                proof {
                    assert(call_ensures(
                        Instant::saturating_duration_since,
                        (&now, *time),
                        span,
                    ));
                    assert(self.clocked(ms));
                }
                cap_millis(ms)
            },
            None => 0,
        }
    }

    /// The position in milliseconds once it has moved on by `advance`.
    pub fn elapsed_after(&self, advance: u64) -> (r: u128)
        ensures
            r == self@.elapsed + advance,
    {
        self.elapsed as u128 + advance as u128
    }

    /// The display for a position that has moved on by `advance`
    /// milliseconds since the status was taken.
    pub fn timing_after(&self, advance: u64) -> (r: String)
        ensures
            r@ == timing_text(self@.elapsed + advance as nat, self@.duration),
    {
        let mut out = String::new();
        push_clock(&mut out, round_secs(self.elapsed_after(advance)));
        out.append(" / ");
        proof {
            reveal_strlit(" / ");
        }
        push_clock(&mut out, round_secs(self.duration as u128));
        out
    }

    /// The display of the present position, `m:ss / m:ss`.  For a song that
    /// does not play this is the position of the status; for one that
    /// plays, that position moved on by the time gone by since.
    pub fn timing(&self) -> (r: String)
        ensures
            !self@.running ==> r@ == timing_text(self@.elapsed, self@.duration),
            self@.running ==> exists|ms: u128| #[trigger]
                self.clocked(ms) && r@ == timing_text(
                    self@.elapsed + capped(ms) as nat,
                    self@.duration,
                ),
            exists|position: nat|
                position >= self@.elapsed && r@ == #[trigger] timing_text(position, self@.duration),
    {
        self.timing_after(self.advance())
    }
}

} // verus!
