//! Choosing among the files of a day by their time.
//!
//! The archive of a site holds one file per volume scan, named after the
//! time at which the scan began. Given a wanted time, the file to take is the
//! one whose time lies nearest to it.

use vstd::prelude::*;

verus! {

/// The seconds of one day.
pub const SECONDS_PER_DAY: u32 = 86_400;

/// The nanoseconds of one second.
pub const NANOS_PER_SECOND: u32 = 1_000_000_000;

/// Whether a count of seconds since midnight and a count of nanoseconds make
/// a time of day. The nanoseconds may reach into a second second, which
/// stands for a leap second, but only in the last second of a minute.
pub open spec fn is_time_of_day(seconds: u32, nanos: u32) -> bool {
    &&& seconds < SECONDS_PER_DAY
    &&& nanos < 2 * NANOS_PER_SECOND
    &&& (nanos >= NANOS_PER_SECOND ==> seconds % 60 == 59)
}

/// A time of day, to the nanosecond.
#[derive(Debug, Clone, Copy, PartialEq, Eq)]
pub struct TimeOfDay {
    seconds: u32,
    nanos: u32,
}

/// How far two counts of seconds lie apart.
pub open spec fn seconds_between(a: u32, b: u32) -> int {
    if a < b {
        b - a
    } else {
        a - b
    }
}

/// The whole seconds from `target` to `time`, each given by its seconds since
/// midnight and its nanoseconds, as chrono computes them: negative where
/// `time` is the earlier one.
pub uninterp spec fn seconds_since(
    time_seconds: u32,
    time_nanos: u32,
    target_seconds: u32,
    target_nanos: u32,
) -> i64;

impl TimeOfDay {
    #[verifier::type_invariant]
    spec fn within_a_day(self) -> bool {
        is_time_of_day(self.seconds, self.nanos)
    }

    /// The seconds since midnight.
    pub closed spec fn seconds(self) -> u32 {
        self.seconds
    }

    /// The nanoseconds since the last whole second.
    pub closed spec fn nanos(self) -> u32 {
        self.nanos
    }

    /// Whether the parts of the time make a time of day. Every time that
    /// [`TimeOfDay::new`] has made does.
    pub open spec fn valid(self) -> bool {
        is_time_of_day(self.seconds(), self.nanos())
    }

    /// The whole seconds from `target` to this time.
    pub open spec fn since(self, target: TimeOfDay) -> i64 {
        seconds_since(self.seconds(), self.nanos(), target.seconds(), target.nanos())
    }

    /// How far this time lies from `target`, in whole seconds and whichever
    /// of the two is the earlier one.
    pub open spec fn distance(self, target: TimeOfDay) -> int {
        if self.since(target) < 0 {
            -self.since(target)
        } else {
            self.since(target) as int
        }
    }

    /// The time of day with the given parts, if they make one.
    pub fn new(seconds: u32, nanos: u32) -> (r: Option<TimeOfDay>)
        ensures
            r is Some <==> is_time_of_day(seconds, nanos),
            r matches Some(time) ==> time.seconds() == seconds && time.nanos() == nanos,
    {
        if seconds >= SECONDS_PER_DAY || nanos >= 2 * NANOS_PER_SECOND || (nanos
            >= NANOS_PER_SECOND && seconds % 60 != 59) {
            return None;
        }
        Some(TimeOfDay { seconds, nanos })
    }

    /// The seconds since midnight.
    pub fn seconds_from_midnight(&self) -> (r: u32)
        ensures
            r == self.seconds(),
    {
        self.seconds
    }

    /// The nanoseconds since the last whole second.
    pub fn nanosecond(&self) -> (r: u32)
        ensures
            r == self.nanos(),
    {
        self.nanos
    }

    /// Computes [`TimeOfDay::distance`]. Between two times without
    /// nanoseconds it is the difference of their seconds.
    pub fn seconds_apart(&self, target: &TimeOfDay) -> (r: i64)
        ensures
            r == self.distance(*target),
            0 <= r <= SECONDS_PER_DAY,
            self.nanos() == 0 && target.nanos() == 0 ==> r == seconds_between(
                self.seconds(),
                target.seconds(),
            ),
    {
        proof {
            use_type_invariant(self);
            use_type_invariant(target);
        }
        let signed: i64 = signed_seconds_since(self, target);
        if signed < 0 {
            -signed
        } else {
            signed
        }
    }
}

/// Subtracts `target` from `time` with chrono's
/// `NaiveTime::signed_duration_since` and takes the whole seconds of the
/// difference with `TimeDelta::num_seconds`.
///
/// Both times are first made into chrono's own type with
/// `NaiveTime::from_num_seconds_from_midnight_opt`, which accepts exactly the
/// parts that make a time of day. The contract gives the result its name and
/// claims two things of it that chrono's source shows: the difference of two
/// times of day lies within one day, and between two times without
/// nanoseconds it is the difference of their seconds.
#[verifier::external_body]
fn signed_seconds_since(time: &TimeOfDay, target: &TimeOfDay) -> (r: i64)
    requires
        time.valid(),
        target.valid(),
    ensures
        r == seconds_since(time.seconds(), time.nanos(), target.seconds(), target.nanos()),
        -86_400 <= r <= 86_400,
        time.nanos() == 0 && target.nanos() == 0 ==> r == time.seconds() - target.seconds(),
{
    let time = chrono::NaiveTime::from_num_seconds_from_midnight_opt(time.seconds, time.nanos)
        .unwrap();
    let target = chrono::NaiveTime::from_num_seconds_from_midnight_opt(
        target.seconds,
        target.nanos,
    ).unwrap();
    time.signed_duration_since(target).num_seconds()
}

/// Whether `index` is the place of the file nearest to `target`: no file
/// lies nearer, and every file before it lies farther.
pub open spec fn is_nearest(files: Seq<TimeOfDay>, target: TimeOfDay, index: int) -> bool {
    &&& 0 <= index < files.len()
    &&& forall|other: int|
        0 <= other < files.len() ==> files[index].distance(target) <= (
        #[trigger] files[other]).distance(target)
    &&& forall|other: int|
        0 <= other < index ==> (#[trigger] files[other]).distance(target) > files[index].distance(
            target,
        )
}

/// Whether neither the files nor the target have nanoseconds.
pub open spec fn whole_seconds(files: Seq<TimeOfDay>, target: TimeOfDay) -> bool {
    &&& target.nanos() == 0
    &&& forall|index: int| 0 <= index < files.len() ==> (#[trigger] files[index]).nanos() == 0
}

/// Whether `index` is the place of the file whose seconds lie nearest to
/// those of `target`: no file lies nearer, and every file before it lies
/// farther.
pub open spec fn is_nearest_by_seconds(files: Seq<TimeOfDay>, target: TimeOfDay, index: int) -> bool {
    &&& 0 <= index < files.len()
    &&& forall|other: int|
        0 <= other < files.len() ==> seconds_between(files[index].seconds(), target.seconds())
            <= seconds_between((#[trigger] files[other]).seconds(), target.seconds())
    &&& forall|other: int|
        0 <= other < index ==> seconds_between((#[trigger] files[other]).seconds(), target.seconds())
            > seconds_between(files[index].seconds(), target.seconds())
}

/// The index of the file whose time lies nearest to `target_time`, and of
/// the first such file where several lie equally near. Without any file the
/// index is 0.
///
/// Where no time has nanoseconds, as with times taken from file names and
/// from hours and minutes, the nearest file is the one whose seconds differ
/// least from those of the target.
pub fn get_nearest_file_index(files: &[TimeOfDay], target_time: TimeOfDay) -> (r: usize)
    ensures
        files@.len() == 0 ==> r == 0,
        files@.len() > 0 ==> is_nearest(files@, target_time, r as int),
        files@.len() > 0 && whole_seconds(files@, target_time) ==> is_nearest_by_seconds(
            files@,
            target_time,
            r as int,
        ),
{
    if files.len() == 0 {
        return 0;
    }
    let mut best: usize = 0;
    let mut best_distance: i64 = files[0].seconds_apart(&target_time);
    let mut next: usize = 1;
    while next < files.len()
        invariant
            1 <= next <= files@.len(),
            best_distance == files@[best as int].distance(target_time),
            is_nearest(files@.take(next as int), target_time, best as int),
            forall|seen: int|
                0 <= seen < next && (#[trigger] files@[seen]).nanos() == 0 && target_time.nanos()
                    == 0 ==> files@[seen].distance(target_time) == seconds_between(
                    files@[seen].seconds(),
                    target_time.seconds(),
                ),
        decreases files@.len() - next,
    {
        let distance: i64 = files[next].seconds_apart(&target_time);
        if distance < best_distance {
            best = next;
            best_distance = distance;
        }
        next = next + 1;
    }
    assert(files@.take(next as int) == files@);
    best
}

/// The number of files from the one at `start_index` to the one at
/// `stop_index`, both counted.
pub fn span_length(start_index: usize, stop_index: usize) -> (r: usize)
    requires
        start_index <= stop_index,
        stop_index - start_index < usize::MAX,
    ensures
        r == stop_index - start_index + 1,
{
    stop_index - start_index + 1
}

/// At most one index is the place of the nearest file.
pub proof fn law_nearest_is_unique(files: Seq<TimeOfDay>, target: TimeOfDay, a: int, b: int)
    requires
        is_nearest(files, target, a),
        is_nearest(files, target, b),
    ensures
        a == b,
{
    if a < b {
        assert(files[a].distance(target) > files[b].distance(target));
    } else if b < a {
        assert(files[b].distance(target) > files[a].distance(target));
    }
}

} // verus!
