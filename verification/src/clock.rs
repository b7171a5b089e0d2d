//! Instants, their calendar dates, and the clocks that supply them.

use vstd::prelude::*;

verus! {

/// The seconds of one day.
pub const SECONDS_PER_DAY: i64 = 86_400;

/// The first second of the calendar, which is chrono's: 00:00:00 UTC on
/// 1 January of the year -262143, the first day of `chrono::NaiveDate::MIN`.
pub const FIRST_SECOND: i64 = -8_334_601_228_800;

/// The last second of the calendar: 23:59:59 UTC on 31 December of the year
/// 262142, the last day of `chrono::NaiveDate::MAX`.
pub const LAST_SECOND: i64 = 8_210_266_876_799;

/// Whether the instant `seconds` after 1970-01-01 00:00:00 UTC lies within
/// the calendar.
pub open spec fn within_calendar(seconds: i64) -> bool {
    FIRST_SECOND <= seconds <= LAST_SECOND
}

/// Whether the calendar can express the instant `seconds` after 1970-01-01
/// 00:00:00 UTC in a zone that is `utc_offset` seconds ahead of UTC: the
/// instant lies within the calendar and the zone within a day of UTC.
pub open spec fn in_calendar(seconds: i64, utc_offset: i32) -> bool {
    &&& within_calendar(seconds)
    &&& -SECONDS_PER_DAY < utc_offset < SECONDS_PER_DAY
}

/// Whether the system clock can show the instant `seconds`: chrono's clock
/// counts from 1970-01-01 00:00:00 UTC on and stays within the calendar.
pub open spec fn clock_can_show(seconds: int) -> bool {
    0 <= seconds <= LAST_SECOND
}

/// The text `YYYY-MM-DD` of the calendar date that a zone `utc_offset`
/// seconds ahead of UTC shows at the instant `seconds`.
pub uninterp spec fn zone_date_text(seconds: i64, utc_offset: i32) -> Seq<char>;

/// Builds the date and time of the instant in the zone with
/// `chrono::FixedOffset::east_opt` and `chrono::TimeZone::timestamp_opt`, and
/// formats it with the pattern `%Y-%m-%d`. The first gives a zone for every
/// offset within a day of UTC, the second a single date and time for every
/// instant within the calendar, so neither fails on what `requires` admits.
/// The result is what `zone_date_text` names: it depends on the two numbers
/// alone.
#[verifier::external_body]
fn zone_date(seconds: i64, utc_offset: i32) -> (r: String)
    requires
        in_calendar(seconds, utc_offset),
    ensures
        r@ == zone_date_text(seconds, utc_offset),
{
    let zone = chrono::FixedOffset::east_opt(utc_offset).unwrap();
    let moment = chrono::TimeZone::timestamp_opt(&zone, seconds, 0).unwrap();
    moment.format("%Y-%m-%d").to_string()
}

/// Reads the system clock with `chrono::Local::now` and hands out its
/// instant in epoch seconds and the offset of the local zone at that
/// instant. Whatever the clock shows, the date and time that chrono builds
/// lie within its calendar, and the offset within a day of UTC. The instant
/// is never before 1970: chrono counts the reading from then on, and gives
/// up on a clock that is set earlier.
#[verifier::external_body]
fn local_now() -> (r: (i64, i32))
    ensures
        in_calendar(r.0, r.1),
        clock_can_show(r.0 as int),
{
    let now = chrono::Local::now();
    (now.timestamp(), now.offset().local_minus_utc())
}

/// Looks up, with `chrono::TimeZone::timestamp_opt` on `chrono::Local`, how
/// many seconds the local zone is ahead of UTC at the instant `seconds`.
/// For every instant within the calendar chrono gives a single date and
/// time, so the call does not fail on what `requires` admits. The zone is
/// that of the machine, so nothing is said of the offset but that it lies
/// within a day of UTC, as every offset that chrono builds does.
#[verifier::external_body]
fn local_offset_at(seconds: i64) -> (r: i32)
    requires
        within_calendar(seconds),
    ensures
        -SECONDS_PER_DAY < r < SECONDS_PER_DAY,
{
    let then = chrono::TimeZone::timestamp_opt(&chrono::Local, seconds, 0).unwrap();
    then.offset().local_minus_utc()
}

/// An instant as a clock hands it out: the seconds since 1970-01-01
/// 00:00:00 UTC, and how many seconds the clock's zone was ahead of UTC
/// then. The calendar can express every `Moment`.
#[derive(Debug, Clone, Copy)]
pub struct Moment {
    seconds: i64,
    utc_offset: i32,
}

/// What a [`Moment`] stands for in contracts.
pub ghost struct MomentView {
    pub seconds: int,
    pub utc_offset: int,
}

impl MomentView {
    /// The calendar date of the instant in its zone, as `YYYY-MM-DD`.
    pub open spec fn date(self) -> Seq<char> {
        zone_date_text(self.seconds as i64, self.utc_offset as i32)
    }
}

/// The instant `days` days before `m` in the same zone.
pub open spec fn earlier(m: MomentView, days: int) -> MomentView {
    MomentView { seconds: m.seconds - SECONDS_PER_DAY * days, utc_offset: m.utc_offset }
}

/// Going back a number of days that is not negative never leads past the
/// instant one started from, and going back no day at all stays at it.
pub proof fn days_ago_is_not_after_now(now: MomentView, days: int)
    requires
        days >= 0,
    ensures
        earlier(now, days).seconds <= now.seconds,
        earlier(now, 0) == now,
{
}

impl View for Moment {
    type V = MomentView;

    closed spec fn view(&self) -> MomentView {
        MomentView { seconds: self.seconds as int, utc_offset: self.utc_offset as int }
    }
}

impl Moment {
    #[verifier::type_invariant]
    spec fn expressible(self) -> bool {
        in_calendar(self.seconds, self.utc_offset)
    }

    /// The instant `seconds` in a zone `utc_offset` seconds ahead of UTC;
    /// `None` where the calendar cannot express it.
    pub fn new(seconds: i64, utc_offset: i32) -> (r: Option<Moment>)
        ensures
            r is Some <==> in_calendar(seconds, utc_offset),
            r matches Some(m) ==> m@ == (MomentView {
                seconds: seconds as int,
                utc_offset: utc_offset as int,
            }),
    {
        if FIRST_SECOND <= seconds && seconds <= LAST_SECOND && -SECONDS_PER_DAY
            < utc_offset as i64 && (utc_offset as i64) < SECONDS_PER_DAY {
            Some(Moment { seconds, utc_offset })
        } else {
            None
        }
    }

    /// The instant in epoch seconds.
    pub fn timestamp(&self) -> (t: i64)
        ensures
            t == self@.seconds,
            FIRST_SECOND <= t <= LAST_SECOND,
    {
        proof {
            use_type_invariant(self);
        }
        self.seconds
    }

    /// How many seconds the zone is ahead of UTC.
    pub fn utc_offset(&self) -> (o: i32)
        ensures
            o == self@.utc_offset,
            -SECONDS_PER_DAY < o < SECONDS_PER_DAY,
    {
        proof {
            use_type_invariant(self);
        }
        self.utc_offset
    }

    /// The calendar date of the instant in its zone, as `YYYY-MM-DD`.
    pub fn calendar_date(&self) -> (r: String)
        ensures
            r@ == self@.date(),
    {
        proof {
            use_type_invariant(self);
        }
        zone_date(self.seconds, self.utc_offset)
    }

    /// The instant `days` days earlier in the same zone (later, for a
    /// negative `days`); `None` where the calendar cannot express it.
    pub fn days_before(&self, days: i64) -> (r: Option<Moment>)
        ensures
            r is Some <==> FIRST_SECOND <= earlier(self@, days as int).seconds <= LAST_SECOND,
            r matches Some(m) ==> m@ == earlier(self@, days as int),
            days == 0 ==> r is Some,
    {
        proof {
            use_type_invariant(self);
        }
        if days < -200_000_000 || days > 200_000_000 {
            return None;
        }
        let seconds: i64 = self.seconds - SECONDS_PER_DAY * days;
        Moment::new(seconds, self.utc_offset)
    }
}

/// Whether `r` is what going back `days` days from the instant `reading`
/// gives: the instant `days` days of 86400 seconds earlier where the
/// calendar can express it, in whatever zone, and nothing where it cannot.
pub open spec fn goes_back(reading: int, days: int, r: Option<Moment>) -> bool {
    &&& r is Some <==> FIRST_SECOND <= reading - SECONDS_PER_DAY * days <= LAST_SECOND
    &&& r matches Some(m) ==> m@.seconds == reading - SECONDS_PER_DAY * days
}

/// Going back from a reading that the clock can show: for a span that is
/// not negative the result is never after the reading, going back no day
/// gives the reading itself, and a span that reaches back from 1970 no
/// farther than the calendar does always gives a moment.
pub proof fn going_back_from_a_reading(reading: int, days: int, r: Option<Moment>)
    requires
        clock_can_show(reading),
        goes_back(reading, days, r),
        days >= 0,
    ensures
        r matches Some(m) ==> m@.seconds <= reading,
        days == 0 ==> r is Some && r->0@.seconds == reading,
        SECONDS_PER_DAY * days <= -FIRST_SECOND ==> r is Some,
{
}

/// What supplies the pipeline with instants: the present one, and the one a
/// number of days before it.
pub trait DateTimeProvider {
    /// The present instant.
    fn now(&self) -> Moment;

    /// The instant `days` days before the present one, read anew at the
    /// call; `None` where the calendar cannot express it.
    fn days_ago(&self, days: i64) -> Option<Moment>;
}

/// The system clock, in the local time zone.
pub struct LocalDateTimeProvider;

impl LocalDateTimeProvider {
    pub fn new() -> LocalDateTimeProvider {
        LocalDateTimeProvider
    }
}

impl DateTimeProvider for LocalDateTimeProvider {
    /// The instant that the system clock shows, in the local zone.
    fn now(&self) -> (m: Moment)
        ensures
            clock_can_show(m@.seconds),
            -SECONDS_PER_DAY < m@.utc_offset < SECONDS_PER_DAY,
    {
        let at: (i64, i32) = local_now();
        Moment { seconds: at.0, utc_offset: at.1 }
    }

    /// The instant `days` days before the one that the system clock shows
    /// at the call, in the local zone of that earlier instant. There is a
    /// reading that the clock can show of which the result is exactly the
    /// instant `days` days earlier: `Some` where the calendar can express
    /// that instant, `None` where it cannot. So a moment always comes back
    /// for a span that is not negative and reaches back from 1970 no
    /// farther than the calendar does, and it is never after the reading.
    fn days_ago(&self, days: i64) -> (r: Option<Moment>)
        ensures
            exists|reading: int|
                clock_can_show(reading) && #[trigger] goes_back(reading, days as int, r),
            r matches Some(m) ==> -SECONDS_PER_DAY < m@.utc_offset < SECONDS_PER_DAY,
            0 <= days && SECONDS_PER_DAY * days <= -FIRST_SECOND ==> r is Some,
            SECONDS_PER_DAY * days > LAST_SECOND - FIRST_SECOND ==> r is None,
            SECONDS_PER_DAY * days < -LAST_SECOND ==> r is None,
    {
        let reading: Moment = self.now();
        let r: Option<Moment> = match reading.days_before(days) {
            Some(then) => {
                let seconds: i64 = then.timestamp();
                Moment::new(seconds, local_offset_at(seconds))
            },
            None => None,
        };
        proof {
            assert(goes_back(reading@.seconds, days as int, r));
        }
        r
    }
}

/// A clock that stands still at one instant, for runs that have to be
/// repeatable.
pub struct FixedClock {
    pub now: Moment,
}

impl FixedClock {
    pub fn new(now: Moment) -> (c: FixedClock)
        ensures
            c.now == now,
    {
        FixedClock { now }
    }
}

impl DateTimeProvider for FixedClock {
    fn now(&self) -> (m: Moment)
        ensures
            m == self.now,
    {
        self.now
    }

    fn days_ago(&self, days: i64) -> (r: Option<Moment>)
        ensures
            r is Some <==> FIRST_SECOND <= earlier(self.now@, days as int).seconds <= LAST_SECOND,
            r matches Some(m) ==> m@ == earlier(self.now@, days as int),
            days == 0 ==> r is Some,
    {
        self.now.days_before(days)
    }
}

} // verus!
