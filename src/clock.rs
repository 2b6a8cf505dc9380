use vstd::prelude::*;
use crate::error::{Error, InherentIdentifier};
use crate::inherents::{
    get_u64_spec, put_result, put_spec, InherentData, BABE_INHERENT_IDENTIFIER, TIMESTAMP_INHERENT_IDENTIFIER,
};

verus! {

/// `a + b` modulo 2^64.
pub open spec fn wrap_add(a: u64, b: u64) -> u64 {
    if a + b <= u64::MAX {
        (a + b) as u64
    } else {
        (a + b - 0x1_0000_0000_0000_0000) as u64
    }
}

/// A mocked timestamp source: each call hands out the current time in
/// milliseconds and moves it on by one slot, so that every block lands in a
/// fresh slot however fast blocks are sealed. A call takes `&mut self`: callers
/// on several threads share the clock behind a lock, and no two calls hand out
/// the same value.
pub struct SlotTimestampProvider {
    pub time: u64,
    pub slot_duration: u64,
}

/// One call of the clock: the timestamp handed out and the clock after it.
pub open spec fn clock_step(c: SlotTimestampProvider) -> (u64, SlotTimestampProvider) {
    (c.time, SlotTimestampProvider { time: wrap_add(c.time, c.slot_duration), slot_duration: c.slot_duration })
}

/// The timestamps handed out by `n` calls in a row, from clock `c`.
pub open spec fn timestamps(c: SlotTimestampProvider, n: nat) -> Seq<u64>
    decreases n,
{
    if n == 0 {
        Seq::empty()
    } else {
        seq![clock_step(c).0] + timestamps(clock_step(c).1, (n - 1) as nat)
    }
}

/// Any run of calls hands out timestamps exactly one slot apart, each larger than
/// the ones before, as long as the clock does not pass `u64::MAX`.
pub proof fn lemma_timestamps_evenly_spaced(c: SlotTimestampProvider, n: nat)
    requires
        c.slot_duration > 0,
        c.time + n * c.slot_duration <= u64::MAX,
    ensures
        timestamps(c, n).len() == n,
        forall|i: int| 0 <= i < n ==> #[trigger] timestamps(c, n)[i] == c.time + i * c.slot_duration,
        forall|i: int, j: int| 0 <= i < j < n ==> timestamps(c, n)[i] < timestamps(c, n)[j],
    decreases n,
{
    if n > 0 {
        let d = c.slot_duration;
        assert(c.time + d <= c.time + n * d) by (nonlinear_arith)
            requires n >= 1, d > 0;
        let c1 = clock_step(c).1;
        assert(c1.time == c.time + d);
        assert(c1.time + (n - 1) * d == c.time + n * d) by (nonlinear_arith)
            requires c1.time == c.time + d;
        lemma_timestamps_evenly_spaced(c1, (n - 1) as nat);
        let s = timestamps(c, n);
        let t = timestamps(c1, (n - 1) as nat);
        assert forall|i: int| 0 <= i < n implies #[trigger] s[i] == c.time + i * d by {
            if i > 0 {
                assert(s[i] == t[i - 1]);
                assert(c1.time + (i - 1) * d == c.time + i * d) by (nonlinear_arith)
                    requires c1.time == c.time + d;
            }
        }
        assert forall|i: int, j: int| 0 <= i < j < n implies s[i] < s[j] by {
            assert(s[i] == c.time + i * d);
            assert(s[j] == c.time + j * d);
            assert(i * d < j * d) by (nonlinear_arith)
                requires i < j, d > 0;
        }
    }
}

/// Relies on std::time::SystemTime::now and duration_since(UNIX_EPOCH): the
/// milliseconds since the Unix epoch, or `None` when the clock reads earlier.
#[verifier::external_body]
fn unix_time_millis() -> (r: Option<u128>) {
    match std::time::SystemTime::now().duration_since(std::time::UNIX_EPOCH) {
        Ok(d) => Some(d.as_millis()),
        Err(_) => None,
    }
}

impl SlotTimestampProvider {
    /// A clock that starts at `start_millis` (milliseconds since the Unix epoch,
    /// kept modulo 2^64) and moves by `slot_duration` per call.
    pub fn from_millis(start_millis: u128, slot_duration: u64) -> (r: SlotTimestampProvider)
        ensures
            r.time == start_millis as u64,
            r.slot_duration == slot_duration,
    {
        SlotTimestampProvider { time: start_millis as u64, slot_duration }
    }

    /// A clock that starts at the current wall-clock time; fails when the
    /// system clock reads a time before the Unix epoch.
    pub fn new(slot_duration: u64) -> (r: Result<SlotTimestampProvider, Error>)
        ensures
            r matches Ok(c) ==> c.slot_duration == slot_duration,
            r matches Err(e) ==> e is ClockBeforeUnixEpoch,
    {
        match unix_time_millis() {
            Some(ms) => Ok(SlotTimestampProvider::from_millis(ms, slot_duration)),
            None => Err(Error::ClockBeforeUnixEpoch),
        }
    }

    /// The identifier under which the clock writes its timestamp.
    pub fn inherent_identifier(&self) -> (r: InherentIdentifier)
        ensures
            r == TIMESTAMP_INHERENT_IDENTIFIER,
    {
        TIMESTAMP_INHERENT_IDENTIFIER
    }

    /// Hands out the current time and moves the clock on by one slot.
    pub fn next_timestamp(&mut self) -> (r: u64)
        ensures
            (r, *final(self)) == clock_step(*old(self)),
    {
        let t = self.time;
        self.time = t.wrapping_add(self.slot_duration);
        t
    }

    /// Writes the next timestamp into `data` under the timestamp identifier.
    /// The clock moves on even when the write fails.
    pub fn provide_inherent_data(&mut self, data: &mut InherentData) -> (r: Result<(), Error>)
        requires
            old(data).wf(),
        ensures
            *final(self) == clock_step(*old(self)).1,
            final(data).wf(),
            r == put_spec(old(data)@, TIMESTAMP_INHERENT_IDENTIFIER),
            final(data)@ == put_result(old(data)@, TIMESTAMP_INHERENT_IDENTIFIER, old(self).time),
    {
        let t = self.next_timestamp();
        data.put_data(TIMESTAMP_INHERENT_IDENTIFIER, t)
    }
}

/// What the slot provider does to inherent data: the slot is the timestamp
/// divided by the slot duration.
pub open spec fn slot_inherent_spec(m: Map<InherentIdentifier, Seq<u8>>, slot_duration: u64) -> (Result<(), Error>, Map<InherentIdentifier, Seq<u8>>)
    recommends
        slot_duration > 0,
{
    match get_u64_spec(m, TIMESTAMP_INHERENT_IDENTIFIER) {
        Err(e) => (Err(e), m),
        Ok(None) => (Err(Error::InherentDataNotFound(TIMESTAMP_INHERENT_IDENTIFIER)), m),
        Ok(Some(ts)) => (
            put_spec(m, BABE_INHERENT_IDENTIFIER),
            put_result(m, BABE_INHERENT_IDENTIFIER, (ts / slot_duration) as u64),
        ),
    }
}

/// Writes the BABE slot, the timestamp in `data` divided by `slot_duration`,
/// into `data` under the slot identifier.
pub fn provide_slot_inherent(slot_duration: u64, data: &mut InherentData) -> (r: Result<(), Error>)
    requires
        slot_duration > 0,
        old(data).wf(),
    ensures
        final(data).wf(),
        (r, final(data)@) == slot_inherent_spec(old(data)@, slot_duration),
{
    match data.get_u64(&TIMESTAMP_INHERENT_IDENTIFIER) {
        Err(e) => Err(e),
        Ok(None) => Err(Error::InherentDataNotFound(TIMESTAMP_INHERENT_IDENTIFIER)),
        Ok(Some(ts)) => data.put_data(BABE_INHERENT_IDENTIFIER, ts / slot_duration),
    }
}

} // verus!
