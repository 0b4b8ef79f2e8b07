//! Read-aloud requests, one at a time.
//!
//! Each request and each stop takes a new number (epoch). A single worker takes
//! the requests in order, and a request counts only while its number is the
//! newest: rapid requests collapse to the last one, and a stop silences the
//! request under way.
//!
//! Text is cleaned of stray white space and cut into sentence-sized batches, so
//! that the first audio starts early and a long text is never one slow request.

use vstd::prelude::*;

use crate::text::{self, is_whitespace, string_of, to_chars};
use crate::tts::{SpeakPhase, TtsError};

verus! {

/// How far a read-aloud request has come.
#[derive(Debug, PartialEq, Eq)]
pub enum SpeechStatus {
    /// It was just made.
    Triggered,
    /// Audio is being generated.
    Generating,
    /// Audio is being played.
    Speaking,
    /// It was read to the end.
    Finished,
    /// The user stopped it.
    Stopped,
    /// It failed, and why.
    Error(String),
}

/// The status that a phase shows as.
pub open spec fn phase_status(phase: SpeakPhase) -> SpeechStatus {
    match phase {
        SpeakPhase::Synthesizing => SpeechStatus::Generating,
        SpeakPhase::Playing => SpeechStatus::Speaking,
    }
}

/// The status that a phase shows as.
pub fn status_of_phase(phase: SpeakPhase) -> (r: SpeechStatus)
    ensures
        r == phase_status(phase),
{
    match phase {
        SpeakPhase::Synthesizing => SpeechStatus::Generating,
        SpeakPhase::Playing => SpeechStatus::Speaking,
    }
}

/// Whether `status` reports how a request ended.
pub open spec fn reports(status: SpeechStatus, result: Result<(), TtsError>) -> bool {
    match result {
        Ok(_) => status == SpeechStatus::Finished,
        Err(e) => status matches SpeechStatus::Error(m) && m@ == crate::tts::tts_error_text(e),
    }
}

/// What happens to the shared state.
pub enum SpeechEvent {
    Speak,
    Stop,
    Begin(u64),
    End(u64),
}

/// The newest and the upcoming number after an event. A request and a stop take
/// the upcoming number.
pub open spec fn numbers_after(numbers: (int, int), event: SpeechEvent) -> (int, int) {
    match event {
        SpeechEvent::Speak => (numbers.1, numbers.1 + 1),
        SpeechEvent::Stop => (numbers.1, numbers.1 + 1),
        SpeechEvent::Begin(_) => numbers,
        SpeechEvent::End(_) => numbers,
    }
}

/// The request that is being spoken after an event, where `newest` was the newest
/// number and `speaking` was being spoken before. A request that was superseded is
/// not begun.
pub open spec fn speaking_after(
    speaking: Option<u64>,
    newest: int,
    event: SpeechEvent,
) -> Option<u64> {
    match event {
        SpeechEvent::Speak => speaking,
        SpeechEvent::Stop => speaking,
        SpeechEvent::Begin(epoch) => if epoch == newest {
            Some(epoch)
        } else {
            speaking
        },
        SpeechEvent::End(_) => None,
    }
}

/// The state that the requests and the worker share.
#[derive(Debug, PartialEq, Eq)]
pub struct SpeechController {
    latest: u64,
    next_epoch: u64,
    active: Option<u64>,
}

impl SpeechController {
    /// The number of the newest request or stop.
    pub closed spec fn newest(self) -> int {
        self.latest as int
    }

    /// The number that the next request or stop takes.
    pub closed spec fn upcoming(self) -> int {
        self.next_epoch as int
    }

    /// The newest and the upcoming number.
    pub open spec fn numbers(self) -> (int, int) {
        (self.newest(), self.upcoming())
    }

    /// The number of the request that is being spoken, if any.
    pub closed spec fn speaking(self) -> Option<u64> {
        self.active
    }

    /// Numbers are taken in order, and no request is spoken that was not made.
    pub open spec fn wf(self) -> bool {
        &&& 0 <= self.newest() < self.upcoming() <= u64::MAX
        &&& self.speaking() matches Some(e) ==> e < self.upcoming()
    }

    /// Nothing requested, nothing spoken.
    pub fn new() -> (r: SpeechController)
        ensures
            r.wf(),
            r.newest() == 0 && r.upcoming() == 1 && r.speaking() is None,
    {
        SpeechController { latest: 0, next_epoch: 1, active: None }
    }

    /// Whether another request or stop can be numbered.
    pub fn has_numbers_left(&self) -> (r: bool)
        ensures
            r == (self.upcoming() < u64::MAX),
    {
        self.next_epoch < u64::MAX
    }

    /// Makes a request. The result is its number, under which it is to be queued,
    /// and whether the voice that is speaking has to be stopped.
    pub fn speak(&mut self) -> (r: (u64, bool))
        requires
            old(self).wf(),
            old(self).upcoming() < u64::MAX,
        ensures
            final(self).wf(),
            r.0 == old(self).upcoming(),
            r.1 == old(self).speaking() is Some,
            final(self).newest() == r.0,
            final(self).numbers() == numbers_after(old(self).numbers(), SpeechEvent::Speak),
            final(self).speaking() == speaking_after(
                old(self).speaking(),
                old(self).newest(),
                SpeechEvent::Speak,
            ),
    {
        let epoch: u64 = self.next_epoch;
        self.next_epoch = epoch + 1;
        self.latest = epoch;
        (epoch, self.interrupt())
    }

    /// Stops what is being spoken and what is queued. The result says whether a
    /// voice has to be stopped.
    pub fn stop(&mut self) -> (r: bool)
        requires
            old(self).wf(),
            old(self).upcoming() < u64::MAX,
        ensures
            final(self).wf(),
            r == old(self).speaking() is Some,
            final(self).numbers() == numbers_after(old(self).numbers(), SpeechEvent::Stop),
            final(self).speaking() == speaking_after(
                old(self).speaking(),
                old(self).newest(),
                SpeechEvent::Stop,
            ),
    {
        let epoch: u64 = self.next_epoch;
        self.next_epoch = epoch + 1;
        self.latest = epoch;
        self.interrupt()
    }

    /// Whether a voice is speaking that would have to be stopped.
    pub fn interrupt(&self) -> (r: bool)
        ensures
            r == self.speaking() is Some,
    {
        self.active.is_some()
    }

    /// Whether the request with this number still counts.
    pub fn is_current(&self, epoch: u64) -> (r: bool)
        ensures
            r == (epoch == self.newest()),
    {
        epoch == self.latest
    }

    /// The worker takes a request off the queue. The result says whether it is to
    /// be spoken: a request that was superseded is dropped.
    pub fn begin(&mut self, epoch: u64) -> (r: bool)
        requires
            old(self).wf(),
        ensures
            final(self).wf(),
            r == (epoch == old(self).newest()),
            final(self).numbers() == numbers_after(old(self).numbers(), SpeechEvent::Begin(epoch)),
            final(self).speaking() == speaking_after(
                old(self).speaking(),
                old(self).newest(),
                SpeechEvent::Begin(epoch),
            ),
    {
        if epoch != self.latest {
            return false;
        }
        self.active = Some(epoch);
        true
    }

    /// The worker is done with a request. The result is the status to show: none
    /// if the request was superseded in the meantime.
    pub fn end(&mut self, epoch: u64, result: Result<(), TtsError>) -> (r: Option<SpeechStatus>)
        requires
            old(self).wf(),
        ensures
            final(self).wf(),
            final(self).speaking() == speaking_after(
                old(self).speaking(),
                old(self).newest(),
                SpeechEvent::End(epoch),
            ),
            final(self).numbers() == numbers_after(old(self).numbers(), SpeechEvent::End(epoch)),
            match r {
                Some(s) => epoch == old(self).newest() && reports(s, result),
                None => epoch != old(self).newest(),
            },
    {
        self.active = None;
        if epoch != self.latest {
            return None;
        }
        match result {
            Ok(_) => Some(SpeechStatus::Finished),
            Err(e) => Some(SpeechStatus::Error(e.message())),
        }
    }
}

// ---- Laws of the queue -----------------------------------------------------

/// The numbers after a run of events.
pub open spec fn numbers_after_all(numbers: (int, int), events: Seq<SpeechEvent>) -> (int, int)
    decreases events.len(),
{
    if events.len() == 0 {
        numbers
    } else {
        numbers_after(numbers_after_all(numbers, events.drop_last()), events.last())
    }
}

/// Whether a request or a stop is among `events`.
pub open spec fn supersedes(events: Seq<SpeechEvent>) -> bool {
    exists|i: int| 0 <= i < events.len() && (events[i] is Speak || events[i] is Stop)
}

/// A request is spoken, and its end is shown, exactly if no request and no stop
/// came after it: whatever else happened since it took its number, it is still
/// the newest only then.
pub proof fn only_the_last_request_counts(numbers: (int, int), since: Seq<SpeechEvent>)
    requires
        numbers.0 < numbers.1,
    ensures
        ({
            let made = numbers_after(numbers, SpeechEvent::Speak);
            let now = numbers_after_all(made, since);
            &&& now.0 == made.0 <==> !supersedes(since)
            &&& now.0 < now.1
            &&& now.0 >= made.0
        }),
    decreases since.len(),
{
    if since.len() > 0 {
        let front = since.drop_last();
        only_the_last_request_counts(numbers, front);
        let last = since.last();
        if last is Speak || last is Stop {
            assert(since[since.len() - 1] == last);
            assert(supersedes(since));
        } else {
            if supersedes(front) {
                let i = choose|i: int|
                    0 <= i < front.len() && (front[i] is Speak || front[i] is Stop);
                assert(since[i] == front[i]);
                assert(supersedes(since));
            }
            if supersedes(since) {
                let i = choose|i: int|
                    0 <= i < since.len() && (since[i] is Speak || since[i] is Stop);
                assert(front[i] == since[i]);
                assert(supersedes(front));
            }
        }
    }
}

/// The request that is being spoken after a run of events that begins with nothing
/// spoken and these numbers.
pub open spec fn speaking_after_all(numbers: (int, int), events: Seq<SpeechEvent>) -> Option<u64>
    decreases events.len(),
{
    if events.len() == 0 {
        None
    } else {
        let front = events.drop_last();
        speaking_after(
            speaking_after_all(numbers, front),
            numbers_after_all(numbers, front).0,
            events.last(),
        )
    }
}

/// Whether event `i` of a run begins to speak: its request was not superseded.
pub open spec fn begins(numbers: (int, int), events: Seq<SpeechEvent>, i: int) -> bool {
    events[i] matches SpeechEvent::Begin(epoch) && epoch == numbers_after_all(
        numbers,
        events.take(i),
    ).0
}

/// Whether a request ends between the events `i` and `j`.
pub open spec fn ends_between(events: Seq<SpeechEvent>, i: int, j: int) -> bool {
    exists|k: int| i < k < j && #[trigger] events[k] is End
}

/// Whether the events are those of one worker: once it has begun a request, it ends
/// it before it takes another. Requests and stops may come at any time.
pub open spec fn one_worker(numbers: (int, int), events: Seq<SpeechEvent>) -> bool {
    forall|i: int, j: int|
        0 <= i < j < events.len() && #[trigger] begins(numbers, events, i) && (
        #[trigger] events[j]) is Begin ==> ends_between(events, i, j)
}

/// One text is read at a time: whatever requests and stops come in between, one
/// worker that takes a request never finds another being spoken.
pub proof fn one_reading_at_a_time(numbers: (int, int), events: Seq<SpeechEvent>, j: int)
    requires
        one_worker(numbers, events),
        0 <= j < events.len(),
        events[j] is Begin,
    ensures
        speaking_after_all(numbers, events.take(j)) is None,
{
    if speaking_after_all(numbers, events.take(j)) is Some {
        let i = lemma_speaking_was_begun(numbers, events, j);
        assert(ends_between(events, i, j));
    }
}

proof fn lemma_speaking_was_begun(
    numbers: (int, int),
    events: Seq<SpeechEvent>,
    n: int,
) -> (i: int)
    requires
        0 <= n <= events.len(),
        speaking_after_all(numbers, events.take(n)) is Some,
    ensures
        0 <= i < n,
        begins(numbers, events, i),
        !ends_between(events, i, n),
    decreases n,
{
    let run = events.take(n);
    assert(n > 0);
    assert(run.drop_last() =~= events.take(n - 1));
    assert(run.last() == events[n - 1]);
    if begins(numbers, events, n - 1) {
        n - 1
    } else {
        assert(!(events[n - 1] is End));
        let i = lemma_speaking_was_begun(numbers, events, n - 1);
        assert forall|k: int| i < k < n implies !(#[trigger] events[k] is End) by {
            if k < n - 1 {
                assert(!ends_between(events, i, n - 1));
            }
        }
        i
    }
}

/// Whether the events are those of one worker that takes each request once: what it
/// ends is what it began last, and no request is begun twice.
pub open spec fn takes_each_once(numbers: (int, int), events: Seq<SpeechEvent>) -> bool {
    &&& forall|j: int|
        0 <= j < events.len() && (#[trigger] events[j]) is End ==> exists|i: int|
            0 <= i < j && #[trigger] begins(numbers, events, i) && events[i]
                == SpeechEvent::Begin(events[j]->End_0) && !ends_between(events, i, j)
    &&& forall|i: int, k: int|
        0 <= i < k < events.len() && (#[trigger] events[i]) is Begin && (
        #[trigger] events[k]) is Begin ==> events[i] != events[k]
}

/// A request ends at most once, so that at most one status reports its end; and only
/// a request that was not superseded when it was taken comes to an end at all.
pub proof fn each_request_ends_once(
    numbers: (int, int),
    events: Seq<SpeechEvent>,
    j: int,
    k: int,
)
    requires
        takes_each_once(numbers, events),
        0 <= j < events.len(),
        0 <= k < events.len(),
        events[j] is End,
        events[j] == events[k],
    ensures
        j == k,
        exists|i: int|
            0 <= i < j && #[trigger] begins(numbers, events, i) && events[i]
                == SpeechEvent::Begin(events[j]->End_0),
{
    let a = choose|i: int|
        0 <= i < j && #[trigger] begins(numbers, events, i) && events[i] == SpeechEvent::Begin(
            events[j]->End_0,
        ) && !ends_between(events, i, j);
    let b = choose|i: int|
        0 <= i < k && #[trigger] begins(numbers, events, i) && events[i] == SpeechEvent::Begin(
            events[k]->End_0,
        ) && !ends_between(events, i, k);
    assert(a == b) by {
        if a < b {
            assert(events[a] != events[b]);
        } else if b < a {
            assert(events[b] != events[a]);
        }
    }
    if j < k {
        assert(events[j] is End);
        assert(ends_between(events, b, k));
    } else if k < j {
        assert(events[k] is End);
        assert(ends_between(events, a, j));
    }
}

/// A stop silences every request that was made before it: whatever happens later,
/// none of them is the newest again, so none is begun and none reports its end. It
/// does not suppress a later request; see [`only_the_last_request_counts`].
pub proof fn stop_silences_earlier_requests(
    numbers: (int, int),
    epoch: int,
    later: Seq<SpeechEvent>,
)
    requires
        numbers.0 < numbers.1,
        epoch < numbers.1,
    ensures
        numbers_after_all(numbers_after(numbers, SpeechEvent::Stop), later).0 != epoch,
{
    lemma_numbers_grow(numbers_after(numbers, SpeechEvent::Stop), later);
}

proof fn lemma_numbers_grow(numbers: (int, int), events: Seq<SpeechEvent>)
    requires
        numbers.0 < numbers.1,
    ensures
        ({
            let now = numbers_after_all(numbers, events);
            now.0 < now.1 && numbers.0 <= now.0
        }),
    decreases events.len(),
{
    if events.len() > 0 {
        lemma_numbers_grow(numbers, events.drop_last());
    }
}

// ---- Cleaning --------------------------------------------------------------

/// `s` with each run of white space turned into one space, and none at either
/// end.
pub open spec fn cleaned(s: Seq<char>) -> Seq<char>
    decreases s.len(),
{
    if s.len() == 0 {
        Seq::empty()
    } else {
        let front = s.drop_last();
        if text::is_white(s.last()) {
            cleaned(front)
        } else if front.len() > 0 && text::is_white(front.last()) && cleaned(front).len() > 0 {
            cleaned(front).push(' ').push(s.last())
        } else {
            cleaned(front).push(s.last())
        }
    }
}

/// `s` with each run of white space turned into one space, and none at either
/// end.
pub fn clean(s: &str) -> (r: String)
    ensures
        r@ == cleaned(s@),
{
    let v = to_chars(s);
    let mut r = String::new();
    let mut any = false;
    let mut i: usize = 0;
    assert(s@.take(0) =~= Seq::<char>::empty());
    while i < v.len()
        invariant
            v@ == s@,
            i <= v@.len(),
            r@ == cleaned(s@.take(i as int)),
            any == (r@.len() > 0),
        decreases v@.len() - i,
    {
        let ghost next = s@.take(i + 1);
        assert(next.drop_last() =~= s@.take(i as int));
        assert(next.last() == s@[i as int]);
        assert(i > 0 ==> s@.take(i as int).last() == s@[i - 1]);
        if !is_whitespace(v[i]) {
            if i > 0 && is_whitespace(v[i - 1]) && any {
                r.push(' ');
            }
            r.push(v[i]);
            any = true;
        }
        i = i + 1;
    }
    assert(s@.take(s@.len() as int) =~= s@);
    r
}

/// Whether no two characters in a row are white space, and neither end is.
pub open spec fn is_tidy(s: Seq<char>) -> bool {
    &&& forall|i: int| 0 <= i < s.len() && text::is_white(#[trigger] s[i]) ==> s[i] == ' '
    &&& s.len() > 0 ==> !text::is_white(s[0]) && !text::is_white(s.last())
    &&& forall|i: int, j: int|
        0 <= i < s.len() && j == i + 1 && j < s.len() && text::is_white(#[trigger] s[i])
            ==> !text::is_white(#[trigger] s[j])
}

/// Cleaned text has no white space at either end, no runs of it, and no white
/// space but spaces.
pub proof fn cleaned_is_tidy(s: Seq<char>)
    ensures
        is_tidy(cleaned(s)),
    decreases s.len(),
{
    if s.len() > 0 {
        cleaned_is_tidy(s.drop_last());
        assert(text::is_white(' '));
    }
}

proof fn lemma_tidy_prefix(s: Seq<char>)
    requires
        is_tidy(s),
        s.len() > 0,
    ensures
        s.len() > 1 && text::is_white(s[s.len() - 2]) ==> s.len() > 2 && is_tidy(
            s.drop_last().drop_last(),
        ),
        !(s.len() > 1 && text::is_white(s[s.len() - 2])) ==> is_tidy(s.drop_last()),
{
    let n = s.len() as int;
    if n > 1 && text::is_white(s[n - 2]) {
        let t = s.drop_last().drop_last();
        if n == 2 {
            assert(s[0] == s[n - 2]);
        } else {
            assert(t.last() == s[n - 3]);
            if text::is_white(s[n - 3]) {
                assert(!text::is_white(s[n - 2]));
            }
            assert(t[0] == s[0]);
            assert forall|i: int, j: int|
                0 <= i < t.len() && j == i + 1 && j < t.len() && text::is_white(
                    #[trigger] t[i],
                ) implies !text::is_white(#[trigger] t[j]) by {
                assert(t[i] == s[i] && t[j] == s[j]);
            }
            assert forall|i: int| 0 <= i < t.len() && text::is_white(#[trigger] t[i]) implies t[i]
                == ' ' by {
                assert(t[i] == s[i]);
            }
        }
    } else {
        let t = s.drop_last();
        if n > 1 {
            assert(t.last() == s[n - 2]);
            assert(t[0] == s[0]);
        }
        assert forall|i: int, j: int|
            0 <= i < t.len() && j == i + 1 && j < t.len() && text::is_white(
                #[trigger] t[i],
            ) implies !text::is_white(#[trigger] t[j]) by {
            assert(t[i] == s[i] && t[j] == s[j]);
        }
        assert forall|i: int| 0 <= i < t.len() && text::is_white(#[trigger] t[i]) implies t[i]
            == ' ' by {
            assert(t[i] == s[i]);
        }
    }
}

proof fn lemma_clean_of_tidy(s: Seq<char>)
    requires
        is_tidy(s),
    ensures
        cleaned(s) == s,
    decreases s.len(),
{
    let n = s.len() as int;
    if n == 0 {
        assert(cleaned(s) =~= s);
    } else {
        lemma_tidy_prefix(s);
        let front = s.drop_last();
        if n > 1 && text::is_white(s[n - 2]) {
            let t = front.drop_last();
            lemma_clean_of_tidy(t);
            assert(front.last() == s[n - 2]);
            assert(cleaned(front) == cleaned(t));
            assert(s[n - 2] == ' ');
            assert(s =~= t.push(' ').push(s.last()));
        } else {
            lemma_clean_of_tidy(front);
            assert(n > 1 ==> front.last() == s[n - 2]);
            assert(s =~= front.push(s.last()));
        }
    }
}

/// Cleaning text that was cleaned changes nothing.
pub proof fn cleaning_is_idempotent(s: Seq<char>)
    ensures
        cleaned(cleaned(s)) == cleaned(s),
{
    cleaned_is_tidy(s);
    lemma_clean_of_tidy(cleaned(s));
}

/// The characters of `s` that are not white space.
pub open spec fn ink(s: Seq<char>) -> Seq<char>
    decreases s.len(),
{
    if s.len() == 0 {
        Seq::empty()
    } else if text::is_white(s.last()) {
        ink(s.drop_last())
    } else {
        ink(s.drop_last()).push(s.last())
    }
}

/// Cleaning loses nothing but white space.
pub proof fn cleaning_keeps_the_ink(s: Seq<char>)
    ensures
        ink(cleaned(s)) == ink(s),
    decreases s.len(),
{
    if s.len() > 0 {
        let front = s.drop_last();
        cleaning_keeps_the_ink(front);
        let c = cleaned(front);
        let last = s.last();
        if !text::is_white(last) {
            assert(c.push(last).drop_last() =~= c);
            assert(text::is_white(' '));
            assert(c.push(' ').drop_last() =~= c);
            assert(c.push(' ').push(last).drop_last() =~= c.push(' '));
            assert(ink(c.push(' ')) == ink(c));
            assert(ink(c.push(' ').push(last)) == ink(c).push(last));
            assert(ink(c.push(last)) == ink(c).push(last));
        }
    }
}

// ---- Batches ---------------------------------------------------------------

/// The most characters that a batch has.
pub const MAX_BATCH_CHARS: usize = 300;

/// Whether a sentence ends with the character at `i`.
pub open spec fn ends_sentence(t: Seq<char>, i: int) -> bool {
    (t[i] == '.' || t[i] == '!' || t[i] == '?') && (i + 1 == t.len() || t[i + 1] == ' ')
}

/// Whether a sentence ends within the first `limit` characters.
pub open spec fn has_end(t: Seq<char>, limit: int) -> bool {
    exists|i: int| 0 <= i < limit && i < t.len() && ends_sentence(t, i)
}

/// Whether there is a space after at most `limit` characters, but not first.
pub open spec fn has_space(t: Seq<char>, limit: int) -> bool {
    exists|i: int| 1 <= i <= limit && i < t.len() && t[i] == ' '
}

/// Whether the first batch of `t` has `n` characters: up to the end of the first
/// sentence; or, where that is too long, up to the last space that leaves a batch
/// that is not; or, where there is none, as many as a batch can have.
pub open spec fn is_batch_len(t: Seq<char>, n: int) -> bool {
    let limit = MAX_BATCH_CHARS as int;
    if has_end(t, limit) {
        &&& 1 <= n <= limit && n <= t.len()
        &&& ends_sentence(t, n - 1)
        &&& forall|i: int| 0 <= i < n - 1 ==> !ends_sentence(t, i)
    } else if t.len() <= limit {
        n == t.len()
    } else if has_space(t, limit) {
        &&& 1 <= n <= limit && t[n] == ' '
        &&& forall|i: int| n < i <= limit ==> (#[trigger] t[i]) != ' '
    } else {
        n == limit
    }
}

/// What is left of `t` behind its first `n` characters and a space.
pub open spec fn behind(t: Seq<char>, n: int) -> Seq<char> {
    let rest = t.skip(n);
    if rest.len() > 0 && rest[0] == ' ' {
        rest.skip(1)
    } else {
        rest
    }
}

/// Whether `list` are the batches of `t`.
pub open spec fn are_batches(t: Seq<char>, list: Seq<Seq<char>>) -> bool
    decreases list.len(),
{
    if t.len() == 0 {
        list.len() == 0
    } else {
        &&& list.len() > 0
        &&& is_batch_len(t, list[0].len() as int)
        &&& list[0] == t.take(list[0].len() as int)
        &&& are_batches(behind(t, list[0].len() as int), list.drop_first())
    }
}

/// The length of the first batch of `v[from..]`.
fn batch_len(v: &Vec<char>, from: usize) -> (n: usize)
    requires
        from < v@.len(),
    ensures
        is_batch_len(v@.skip(from as int), n as int),
        1 <= n <= MAX_BATCH_CHARS,
        from + n <= v@.len(),
{
    let ghost t = v@.skip(from as int);
    let total: usize = v.len();
    let len: usize = total - from;
    let limit: usize = if len < MAX_BATCH_CHARS {
        len
    } else {
        MAX_BATCH_CHARS
    };
    let mut i: usize = 0;
    while i < limit
        invariant
            from < total,
            total == v@.len(),
            t == v@.skip(from as int),
            len == total - from,
            limit <= len,
            limit <= MAX_BATCH_CHARS,
            i <= limit,
            forall|k: int| 0 <= k < i ==> !ends_sentence(t, k),
        decreases limit - i,
    {
        let c = v[from + i];
        assert(c == t[i as int]);
        if (c == '.' || c == '!' || c == '?') && (i + 1 == len || v[from + i + 1] == ' ') {
            assert(i + 1 < len ==> t[i + 1] == v@[from + i + 1]);
            assert(ends_sentence(t, i as int));
            assert(has_end(t, MAX_BATCH_CHARS as int));
            return i + 1;
        }
        assert(i + 1 < len ==> t[i + 1] == v@[from + i + 1]);
        i = i + 1;
    }
    assert(!has_end(t, MAX_BATCH_CHARS as int));
    if len <= MAX_BATCH_CHARS {
        return len;
    }
    let mut j: usize = MAX_BATCH_CHARS;
    while j > 0
        invariant
            from < total,
            total == v@.len(),
            t == v@.skip(from as int),
            len == total - from,
            len > MAX_BATCH_CHARS,
            j <= MAX_BATCH_CHARS,
            !has_end(t, MAX_BATCH_CHARS as int),
            forall|k: int| j < k <= MAX_BATCH_CHARS ==> (#[trigger] t[k]) != ' ',
        decreases j,
    {
        assert(t[j as int] == v@[from + j]);
        if v[from + j] == ' ' {
            assert(has_space(t, MAX_BATCH_CHARS as int));
            return j;
        }
        j = j - 1;
    }
    assert(!has_space(t, MAX_BATCH_CHARS as int));
    MAX_BATCH_CHARS
}

/// The batches of `s`, which is clean.
pub fn batches(s: &str) -> (r: Vec<String>)
    ensures
        are_batches(s@, text::views(r@)),
{
    let v = to_chars(s);
    let mut out: Vec<String> = Vec::new();
    let mut from: usize = 0;
    proof {
        assert(s@.skip(0) =~= s@);
        assert forall|rest: Seq<Seq<char>>| are_batches(s@, rest) implies are_batches(
            s@,
            text::views(out@) + rest,
        ) by {
            assert(text::views(out@) + rest =~= rest);
        }
    }
    while from < v.len()
        invariant
            v@ == s@,
            from <= v@.len(),
            forall|rest: Seq<Seq<char>>| #[trigger]
                are_batches(s@.skip(from as int), rest) ==> are_batches(
                    s@,
                    text::views(out@) + rest,
                ),
        decreases v@.len() - from,
    {
        let ghost t = s@.skip(from as int);
        let ghost before = text::views(out@);
        let n = batch_len(&v, from);
        let piece = string_of(&v, from, from + n);
        assert(piece@ =~= t.take(n as int));
        let mut next: usize = from + n;
        assert(t.skip(n as int) =~= s@.skip(from + n));
        if next < v.len() && v[next] == ' ' {
            assert(t.skip(n as int)[0] == ' ');
            next = next + 1;
        }
        assert(behind(t, n as int) =~= s@.skip(next as int)) by {
            if from + n < v@.len() {
                assert(t.skip(n as int)[0] == v@[from + n]);
            }
            if next > from + n {
                assert(t.skip(n as int).skip(1) =~= s@.skip(next as int));
            }
        }
        out.push(piece);
        proof {
            assert(text::views(out@) =~= before.push(piece@));
            assert forall|rest: Seq<Seq<char>>| #[trigger]
                are_batches(s@.skip(next as int), rest) implies are_batches(
                s@,
                text::views(out@) + rest,
            ) by {
                let longer = seq![piece@] + rest;
                assert(longer.drop_first() =~= rest);
                assert(longer[0] == piece@);
                assert(are_batches(t, longer));
                assert(before + longer =~= text::views(out@) + rest);
            }
        }
        from = next;
    }
    proof {
        let none = Seq::<Seq<char>>::empty();
        assert(s@.skip(from as int).len() == 0);
        assert(are_batches(s@.skip(from as int), none));
        assert(text::views(out@) + none =~= text::views(out@));
    }
    out
}

/// The batches in which a text is read aloud: it is cleaned, then cut.
pub fn spoken_batches(s: &str) -> (r: Vec<String>)
    ensures
        are_batches(cleaned(s@), text::views(r@)),
{
    let tidy = clean(s);
    batches(tidy.as_str())
}

/// Every batch has something in it, and none has more than
/// [`MAX_BATCH_CHARS`] characters.
pub proof fn batches_are_bounded(t: Seq<char>, list: Seq<Seq<char>>)
    requires
        are_batches(t, list),
    ensures
        forall|i: int| 0 <= i < list.len() ==> 1 <= (#[trigger] list[i]).len() <= MAX_BATCH_CHARS,
    decreases list.len(),
{
    if t.len() > 0 {
        let n = list[0].len() as int;
        lemma_batch_len_bounds(t, n);
        batches_are_bounded(behind(t, n), list.drop_first());
        assert forall|i: int| 0 <= i < list.len() implies 1 <= (#[trigger] list[i]).len()
            <= MAX_BATCH_CHARS by {
            if i > 0 {
                assert(list.drop_first()[i - 1] == list[i]);
            }
        }
    }
}

proof fn lemma_batch_len_bounds(t: Seq<char>, n: int)
    requires
        t.len() > 0,
        is_batch_len(t, n),
    ensures
        1 <= n <= MAX_BATCH_CHARS,
        n <= t.len(),
{
}

/// All pieces, one behind the other.
pub open spec fn run_together(list: Seq<Seq<char>>) -> Seq<char>
    decreases list.len(),
{
    if list.len() == 0 {
        Seq::empty()
    } else {
        list[0] + run_together(list.drop_first())
    }
}

proof fn lemma_ink_append(a: Seq<char>, b: Seq<char>)
    ensures
        ink(a + b) == ink(a) + ink(b),
    decreases b.len(),
{
    if b.len() == 0 {
        assert(a + b =~= a);
        assert(ink(a) + ink(b) =~= ink(a));
    } else {
        assert((a + b).drop_last() =~= a + b.drop_last());
        assert((a + b).last() == b.last());
        lemma_ink_append(a, b.drop_last());
        if !text::is_white(b.last()) {
            assert(ink(a) + ink(b.drop_last()).push(b.last()) =~= (ink(a) + ink(
                b.drop_last(),
            )).push(b.last()));
        }
    }
}

/// Cutting a text into batches loses nothing but white space, and keeps the order.
pub proof fn batches_keep_the_ink(t: Seq<char>, list: Seq<Seq<char>>)
    requires
        are_batches(t, list),
    ensures
        ink(run_together(list)) == ink(t),
    decreases list.len(),
{
    if t.len() == 0 {
        assert(run_together(list) =~= t);
    } else {
        let n = list[0].len() as int;
        lemma_batch_len_bounds(t, n);
        let rest = behind(t, n);
        batches_keep_the_ink(rest, list.drop_first());
        lemma_ink_append(list[0], run_together(list.drop_first()));
        assert(t =~= t.take(n) + t.skip(n));
        lemma_ink_append(t.take(n), t.skip(n));
        let tail = t.skip(n);
        if tail.len() > 0 && tail[0] == ' ' {
            let space = seq![' '];
            assert(tail =~= space + tail.skip(1));
            lemma_ink_append(space, tail.skip(1));
            assert(text::is_white(' '));
            assert(space.drop_last() =~= Seq::<char>::empty());
            assert(ink(space) =~= Seq::<char>::empty()) by {
                reveal_with_fuel(ink, 2);
            }
            assert(ink(space) + ink(tail.skip(1)) =~= ink(tail.skip(1)));
        }
    }
}

// ---- Reading batch by batch ------------------------------------------------

/// How many batches may be synthesized ahead of the one that is played.
pub const PREFETCH_AHEAD: usize = 2;

/// A text that is being read batch by batch.
#[derive(Debug, PartialEq, Eq)]
pub struct Reading {
    /// All batches.
    pub total: usize,
    /// Batches whose audio has been requested.
    pub fetched: usize,
    /// Batches that have been played, or are being played.
    pub played: usize,
}

impl Reading {
    /// Nothing is played that was not fetched, and fetching keeps close.
    pub open spec fn wf(self) -> bool {
        self.played <= self.fetched <= self.total && self.fetched <= self.played + PREFETCH_AHEAD
    }

    /// A text with so many batches, not begun.
    pub fn new(total: usize) -> (r: Reading)
        ensures
            r.wf(),
            r.total == total && r.fetched == 0 && r.played == 0,
    {
        Reading { total, fetched: 0, played: 0 }
    }

    /// The batch whose audio is to be requested next, if one is due. Nothing is
    /// requested for a text that no longer counts.
    pub fn fetch_next(&mut self, current: bool) -> (r: Option<usize>)
        requires
            old(self).wf(),
        ensures
            final(self).wf(),
            final(self).total == old(self).total && final(self).played == old(self).played,
            match r {
                Some(i) => current && i == old(self).fetched && i < old(self).total
                    && final(self).fetched == i + 1,
                None => final(self).fetched == old(self).fetched && (!current
                    || old(self).fetched == old(self).total || old(self).fetched
                    - old(self).played == PREFETCH_AHEAD),
            },
    {
        if current && self.fetched < self.total && self.fetched - self.played < PREFETCH_AHEAD {
            let i: usize = self.fetched;
            self.fetched = i + 1;
            Some(i)
        } else {
            None
        }
    }

    /// The batch to play next, if its audio was requested. Nothing is played of a
    /// text that no longer counts.
    pub fn play_next(&mut self, current: bool) -> (r: Option<usize>)
        requires
            old(self).wf(),
        ensures
            final(self).wf(),
            final(self).total == old(self).total && final(self).fetched == old(self).fetched,
            match r {
                Some(i) => current && i == old(self).played && i < old(self).fetched
                    && final(self).played == i + 1,
                None => final(self).played == old(self).played && (!current || old(self).played
                    == old(self).fetched),
            },
    {
        if current && self.played < self.fetched {
            let i: usize = self.played;
            self.played = i + 1;
            Some(i)
        } else {
            None
        }
    }

    /// Whether every batch has been played.
    pub fn is_over(&self) -> (r: bool)
        ensures
            r == (self.played == self.total),
    {
        self.played == self.total
    }
}

/// Reading never gets stuck: until every batch has been played, there is one to
/// fetch or one to play.
pub proof fn reading_goes_on(r: Reading)
    requires
        r.wf(),
        r.played < r.total,
    ensures
        (r.fetched < r.total && r.fetched - r.played < PREFETCH_AHEAD) || r.played < r.fetched,
{
}

// ---- More laws -------------------------------------------------------------

/// White space between two texts keeps their words apart, as exactly one space: what
/// comes before it and what comes behind it are cleaned each on its own.
pub proof fn white_space_becomes_one_space(a: Seq<char>, w: char, b: Seq<char>)
    requires
        text::is_white(w),
        !text::is_blank(a),
        !text::is_blank(b),
    ensures
        cleaned(a.push(w) + b) == cleaned(a) + seq![' '] + cleaned(b),
{
    let head = a.push(w);
    lemma_ink_is_kept(a);
    assert(head.drop_last() =~= a);
    assert(head.last() == w);
    assert(cleaned(head) == cleaned(a));
    lemma_clean_behind(head, b);
}

proof fn lemma_ink_is_kept(s: Seq<char>)
    ensures
        cleaned(s).len() > 0 <==> !text::is_blank(s),
    decreases s.len(),
{
    if s.len() > 0 {
        let front = s.drop_last();
        lemma_ink_is_kept(front);
        let last = s.len() - 1;
        if text::is_white(s[last]) {
            if !text::is_blank(front) {
                let i = choose|i: int| 0 <= i < front.len() && !text::is_white(#[trigger] front[i]);
                assert(!text::is_white(s[i]));
            }
            if text::is_blank(front) {
                assert forall|i: int| 0 <= i < s.len() implies text::is_white(#[trigger] s[i]) by {
                    if i < last {
                        assert(text::is_white(front[i]));
                    }
                }
            }
        } else {
            assert(!text::is_white(s[s.len() - 1]));
        }
    }
}

proof fn lemma_clean_behind(head: Seq<char>, b: Seq<char>)
    requires
        head.len() > 0,
        text::is_white(head.last()),
        cleaned(head).len() > 0,
    ensures
        cleaned(head + b) == if text::is_blank(b) {
            cleaned(head)
        } else {
            cleaned(head) + seq![' '] + cleaned(b)
        },
    decreases b.len(),
{
    let whole = head + b;
    if b.len() == 0 {
        assert(whole =~= head);
    } else {
        let front = b.drop_last();
        let last = b.last();
        lemma_clean_behind(head, front);
        assert(whole.drop_last() =~= head + front);
        assert(whole.last() == last);
        lemma_ink_is_kept(front);
        lemma_ink_is_kept(b);
        if text::is_white(last) {
            assert(cleaned(b) == cleaned(front));
        } else {
            assert((head + front).last() == if front.len() > 0 {
                front.last()
            } else {
                head.last()
            });
            if text::is_blank(front) {
                assert(front.len() > 0 ==> text::is_white(front[front.len() - 1]));
                assert(cleaned(front) =~= Seq::<char>::empty());
                assert(cleaned(b) =~= seq![last]);
                assert(cleaned(whole) =~= cleaned(head) + seq![' '] + seq![last]);
            } else {
                assert(cleaned(whole) =~= cleaned(head) + seq![' '] + cleaned(b));
            }
        }
    }
}

/// A text without white space is left as it is, however long; one of nothing but white
/// space comes to nothing; white space at either end makes no difference.
pub proof fn cleaning_leaves_words_alone(s: Seq<char>, w: char)
    requires
        text::is_white(w),
    ensures
        (forall|i: int| 0 <= i < s.len() ==> !text::is_white(#[trigger] s[i])) ==> cleaned(s) == s,
        text::is_blank(s) ==> cleaned(s).len() == 0,
        cleaned(s.push(w)) == cleaned(s),
        cleaned(seq![w] + s) == cleaned(s),
{
    if forall|i: int| 0 <= i < s.len() ==> !text::is_white(#[trigger] s[i]) {
        lemma_clean_of_tidy(s);
    }
    lemma_ink_is_kept(s);
    assert(s.push(w).drop_last() =~= s);
    lemma_white_in_front(s, w);
}

proof fn lemma_white_in_front(s: Seq<char>, w: char)
    requires
        text::is_white(w),
    ensures
        cleaned(seq![w] + s) == cleaned(s),
    decreases s.len(),
{
    let t = seq![w] + s;
    if s.len() == 0 {
        assert(t.last() == w);
        assert(t.drop_last() =~= s);
    } else {
        let front = s.drop_last();
        lemma_white_in_front(front, w);
        assert(t.drop_last() =~= seq![w] + front);
        assert(t.last() == s.last());
        assert((seq![w] + front).last() == if front.len() > 0 {
            front.last()
        } else {
            w
        });
        if front.len() == 0 {
            lemma_ink_is_kept(front);
        }
    }
}

/// A sentence ends with a full stop, an exclamation mark or a question mark that a
/// space follows, or that is the last character.
pub proof fn sentences_end_at_their_marks(t: Seq<char>, i: int)
    requires
        0 <= i < t.len(),
    ensures
        ends_sentence(t, i) ==> t[i] == '.' || t[i] == '!' || t[i] == '?',
        i == t.len() - 1 && (t[i] == '.' || t[i] == '!' || t[i] == '?') ==> ends_sentence(t, i),
        i < t.len() - 1 && t[i + 1] == ' ' && (t[i] == '.' || t[i] == '!' || t[i] == '?')
            ==> ends_sentence(t, i),
        i < t.len() - 1 && t[i + 1] != ' ' ==> !ends_sentence(t, i),
{
}

/// A batch is no longer than 300 characters and holds the end of a sentence at most at
/// its own end. It ends before the text does only behind a sentence or, where no
/// sentence ends within 300 characters, before the last space that leaves it short
/// enough; a word is cut only if it alone is longer than a batch.
pub proof fn batches_break_where_speech_pauses(t: Seq<char>, n: int)
    requires
        t.len() > 0,
        is_batch_len(t, n),
    ensures
        1 <= n <= 300 && n <= t.len(),
        forall|i: int| 0 <= i < n - 1 ==> !ends_sentence(t, i),
        n < t.len() ==> ends_sentence(t, n - 1) || (t.len() > 300 && forall|i: int|
            0 <= i < 300 ==> !ends_sentence(t, i)),
        n < t.len() && !ends_sentence(t, n - 1) && t[n] == ' ' ==> forall|i: int|
            n < i <= 300 ==> #[trigger] t[i] != ' ',
        n < t.len() && !ends_sentence(t, n - 1) && t[n] != ' ' ==> n == 300 && forall|i: int|
            1 <= i <= 300 ==> #[trigger] t[i] != ' ',
{
    if has_end(t, 300) {
        let i = choose|i: int| 0 <= i < 300 && i < t.len() && ends_sentence(t, i);
        assert(ends_sentence(t, i));
    } else {
        assert forall|i: int| 0 <= i < 300 && i < t.len() implies !ends_sentence(t, i) by {}
    }
}

/// Between two batches nothing is lost but one space.
pub proof fn only_a_space_is_between_batches(t: Seq<char>, n: int)
    requires
        0 <= n <= t.len(),
    ensures
        n < t.len() && t[n] == ' ' ==> t == t.take(n) + seq![' '] + behind(t, n),
        !(n < t.len() && t[n] == ' ') ==> t == t.take(n) + behind(t, n),
{
    if n < t.len() && t[n] == ' ' {
        assert(t.skip(n)[0] == t[n]);
        assert(t =~= t.take(n) + seq![' '] + behind(t, n));
    } else {
        assert(t.skip(n).len() > 0 ==> t.skip(n)[0] == t[n]);
        assert(t =~= t.take(n) + behind(t, n));
    }
}

/// Only the newest request may begin, and each request or stop takes a number that
/// none before it had.
pub proof fn only_the_newest_may_begin(
    numbers: (int, int),
    speaking: Option<u64>,
    event: SpeechEvent,
)
    requires
        numbers.0 < numbers.1,
    ensures
        event is Speak || event is Stop ==> numbers_after(numbers, event).0 >= numbers.1
            && numbers_after(numbers, event).1 > numbers_after(numbers, event).0,
        event is Begin || event is End ==> numbers_after(numbers, event) == numbers,
        event matches SpeechEvent::Begin(e) ==> (speaking_after(speaking, numbers.0, event)
            == Some(e) <==> e == numbers.0 || speaking == Some(e)),
        event matches SpeechEvent::Begin(e) ==> e != numbers.0 ==> speaking_after(
            speaking,
            numbers.0,
            event,
        ) == speaking,
        event is End ==> speaking_after(speaking, numbers.0, event) is None,
        event is Speak || event is Stop ==> speaking_after(speaking, numbers.0, event) == speaking,
{
}

/// A reading is shown as being made while it is made and as spoken while it is played;
/// it ends well or with its own error.
pub proof fn a_reading_is_shown_as_it_goes(status: SpeechStatus, result: Result<(), TtsError>)
    ensures
        phase_status(SpeakPhase::Synthesizing) == SpeechStatus::Generating,
        phase_status(SpeakPhase::Playing) == SpeechStatus::Speaking,
        reports(status, result) ==> (result is Ok <==> status == SpeechStatus::Finished),
        reports(status, result) ==> (result matches Err(e) ==> (status matches SpeechStatus::Error(
            m,
        ) && m@ == crate::tts::tts_error_text(e))),
{
}

} // verus!
