use std::collections::VecDeque;
use vstd::prelude::*;

use crate::daily::DailyForecast;
use crate::hourly::HourlyForecast;
use crate::observation::Observation;
use crate::time::{valid_span, valid_time, Seconds, Timestamp, HOUR, MINUTE};
use crate::warning::{same_warnings, warnings_view, Warning};

verus! {

/// How often each feed is checked, and how long to wait when it has not been republished.
#[derive(Clone, Debug)]
pub struct WeatherOptions {
    /// How many observations are kept, the current one included.
    pub past_observation_amount: usize,
    pub check_observations: bool,
    /// A delay to account for lag between issue time and appearance in the API.
    pub update_delay: Seconds,
    pub observation_update_frequency: Seconds,
    pub observation_overdue_delay: Seconds,
    pub observation_missing_delay: Seconds,
    pub hourly_update_frequency: Seconds,
    pub hourly_overdue_delay: Seconds,
    pub daily_update_frequency: Seconds,
    pub daily_overdue_delay: Seconds,
    /// Trust the daily forecast's advertised next issue time.
    pub use_daily_next_issue_time: bool,
    pub warning_update_frequency: Seconds,
}

impl WeatherOptions {
    /// Every delay and period is one the library can add to an instant.
    pub open spec fn wf(&self) -> bool {
        &&& valid_span(self.update_delay as int)
        &&& valid_span(self.observation_update_frequency as int)
        &&& valid_span(self.observation_overdue_delay as int)
        &&& valid_span(self.observation_missing_delay as int)
        &&& valid_span(self.hourly_update_frequency as int)
        &&& valid_span(self.hourly_overdue_delay as int)
        &&& valid_span(self.daily_update_frequency as int)
        &&& valid_span(self.daily_overdue_delay as int)
        &&& valid_span(self.warning_update_frequency as int)
    }

    /// The usual settings: observations every ten minutes, the hourly forecast every three
    /// hours, the daily forecast and warnings more often.
    pub fn default() -> (r: Self)
        ensures
            r.wf(),
            r.past_observation_amount == 6 * 24 * 2,
            r.check_observations,
            r.update_delay == 2 * MINUTE,
            r.observation_update_frequency == 10 * MINUTE,
            r.observation_overdue_delay == 2 * MINUTE,
            r.observation_missing_delay == HOUR,
            r.hourly_update_frequency == 3 * HOUR,
            r.hourly_overdue_delay == HOUR,
            r.daily_update_frequency == HOUR,
            r.daily_overdue_delay == 30 * MINUTE,
            !r.use_daily_next_issue_time,
            r.warning_update_frequency == 30 * MINUTE,
    {
        WeatherOptions {
            past_observation_amount: 6 * 24 * 2,
            check_observations: true,
            update_delay: 2 * MINUTE,
            observation_update_frequency: 10 * MINUTE,
            observation_overdue_delay: 2 * MINUTE,
            observation_missing_delay: HOUR,
            hourly_update_frequency: 3 * HOUR,
            hourly_overdue_delay: HOUR,
            daily_update_frequency: HOUR,
            use_daily_next_issue_time: false,
            daily_overdue_delay: 30 * MINUTE,
            warning_update_frequency: 30 * MINUTE,
        }
    }
}

/// The data of one location and when each of its four feeds is next due.
#[derive(Clone, Debug)]
pub struct Weather {
    pub geohash: String,
    /// Most recent first; the front is the current observation.
    pub observations: VecDeque<Observation>,
    pub daily_forecast: DailyForecast,
    pub hourly_forecast: HourlyForecast,
    pub warnings: Vec<Warning>,
    pub next_observation_due: Timestamp,
    pub next_daily_due: Timestamp,
    pub next_hourly_due: Timestamp,
    pub next_warning_due: Timestamp,
    pub opts: WeatherOptions,
}

/// Which feeds a refresh at some instant fetches.
#[derive(Clone, Copy, Debug, PartialEq, Eq, Structural)]
pub struct FeedsDue {
    pub observation: bool,
    pub hourly: bool,
    pub daily: bool,
    pub warnings: bool,
}

/// What was fetched for a refresh: `None` for a feed that was not fetched.
///
/// An observation feed that was fetched but has nothing published is `Some(None)`.
#[derive(Debug)]
pub struct FetchedFeeds {
    pub observation: Option<Option<Observation>>,
    pub hourly: Option<HourlyForecast>,
    pub daily: Option<DailyForecast>,
    pub warnings: Option<Vec<Warning>>,
}

impl FetchedFeeds {
    pub open spec fn wf(&self) -> bool {
        &&& self.observation matches Some(Some(o)) ==> o.wf()
        &&& self.hourly matches Some(h) ==> h.wf()
        &&& self.daily matches Some(d) ==> d.wf()
    }
}

/// The due time after new data: `computed`, or `now + overdue` if `computed` has passed.
pub open spec fn due_after_new(computed: int, now: int, overdue: int) -> int {
    if now > computed {
        now + overdue
    } else {
        computed
    }
}

/// Whether `o` is new: there is no current observation or it was issued at another time.
pub open spec fn is_new_observation(history: Seq<Observation>, o: Observation) -> bool {
    history.len() == 0 || history[0].issue_time != o.issue_time
}

/// `o` in front of the history, with the oldest dropped beyond `cap`.
pub open spec fn history_after(history: Seq<Observation>, o: Observation, cap: nat) -> Seq<
    Observation,
> {
    let h = seq![o] + history;
    if h.len() > cap {
        h.subrange(0, cap as int)
    } else {
        h
    }
}

/// The history, due time and whether anything changed after an observation fetch.
pub open spec fn observation_outcome(
    history: Seq<Observation>,
    opts: WeatherOptions,
    now: int,
    fetched: Option<Observation>,
) -> (Seq<Observation>, int, bool) {
    match fetched {
        None => (history, now + opts.observation_missing_delay, false),
        Some(o) => if is_new_observation(history, o) {
            (
                history_after(history, o, opts.past_observation_amount as nat),
                due_after_new(
                    o.issue_time + opts.observation_update_frequency + opts.update_delay,
                    now,
                    opts.observation_overdue_delay as int,
                ),
                true,
            )
        } else {
            (history, now + opts.observation_overdue_delay, false)
        },
    }
}

/// The forecast, due time and whether anything changed after an hourly fetch. Data
/// with an unchanged issue time still replaces the old, which may list hours that have
/// since passed.
pub open spec fn hourly_outcome(
    old: HourlyForecast,
    opts: WeatherOptions,
    now: int,
    new: HourlyForecast,
) -> (HourlyForecast, int, bool) {
    if new.issue_time == old.issue_time {
        (new, now + opts.hourly_overdue_delay, false)
    } else {
        (
            new,
            due_after_new(
                new.issue_time + opts.hourly_update_frequency + opts.update_delay,
                now,
                opts.hourly_overdue_delay as int,
            ),
            true,
        )
    }
}

/// When a new daily forecast is next due, before it is moved past `now`.
pub open spec fn daily_due_of(opts: WeatherOptions, new: DailyForecast) -> int {
    if opts.use_daily_next_issue_time && new.next_issue_time is Some {
        new.next_issue_time->0 + opts.update_delay
    } else {
        new.issue_time + opts.daily_update_frequency + opts.update_delay
    }
}

/// The forecast, due time and whether anything changed after a daily fetch.
pub open spec fn daily_outcome(
    old: DailyForecast,
    opts: WeatherOptions,
    now: int,
    new: DailyForecast,
) -> (DailyForecast, int, bool) {
    if new.issue_time == old.issue_time {
        (old, now + opts.daily_overdue_delay, false)
    } else {
        (new, due_after_new(daily_due_of(opts, new), now, opts.daily_overdue_delay as int), true)
    }
}

/// The warnings, due time and whether anything changed after a warnings fetch.
pub open spec fn warnings_outcome(
    old: Seq<Warning>,
    opts: WeatherOptions,
    now: int,
    new: Seq<Warning>,
) -> (Seq<Warning>, int, bool) {
    (new, now + opts.warning_update_frequency, warnings_view(old) != warnings_view(new))
}

impl Weather {
    pub open spec fn observation_is_due(&self, now: int) -> bool {
        self.opts.check_observations && now > self.next_observation_due
    }

    pub open spec fn hourly_is_due(&self, now: int) -> bool {
        now > self.next_hourly_due
    }

    pub open spec fn daily_is_due(&self, now: int) -> bool {
        now > self.next_daily_due
    }

    pub open spec fn warnings_are_due(&self, now: int) -> bool {
        now > self.next_warning_due
    }

    /// The observation feed after a refresh at `now` with `fetched`.
    pub open spec fn observation_step(self, now: int, fetched: Option<Option<Observation>>) -> (
        Seq<Observation>,
        int,
        bool,
    ) {
        if self.observation_is_due(now) && fetched is Some {
            observation_outcome(self.observations@, self.opts, now, fetched->0)
        } else if !self.opts.check_observations && now > self.next_observation_due {
            (self.observations@, now + self.opts.observation_missing_delay, false)
        } else {
            (self.observations@, self.next_observation_due as int, false)
        }
    }

    /// The hourly feed after a refresh at `now` with `fetched`.
    pub open spec fn hourly_step(self, now: int, fetched: Option<HourlyForecast>) -> (
        HourlyForecast,
        int,
        bool,
    ) {
        if self.hourly_is_due(now) && fetched is Some {
            hourly_outcome(self.hourly_forecast, self.opts, now, fetched->0)
        } else {
            (self.hourly_forecast, self.next_hourly_due as int, false)
        }
    }

    /// The daily feed after a refresh at `now` with `fetched`.
    pub open spec fn daily_step(self, now: int, fetched: Option<DailyForecast>) -> (
        DailyForecast,
        int,
        bool,
    ) {
        if self.daily_is_due(now) && fetched is Some {
            daily_outcome(self.daily_forecast, self.opts, now, fetched->0)
        } else {
            (self.daily_forecast, self.next_daily_due as int, false)
        }
    }

    /// The warnings feed after a refresh at `now` with `fetched`.
    pub open spec fn warnings_step(self, now: int, fetched: Option<Vec<Warning>>) -> (
        Seq<Warning>,
        int,
        bool,
    ) {
        if self.warnings_are_due(now) && fetched is Some {
            warnings_outcome(self.warnings@, self.opts, now, fetched->0@)
        } else {
            (self.warnings@, self.next_warning_due as int, false)
        }
    }

    /// The earliest of the four due times.
    pub open spec fn next_due(&self) -> int {
        min4(
            self.next_observation_due as int,
            self.next_hourly_due as int,
            self.next_daily_due as int,
            self.next_warning_due as int,
        )
    }

    /// A location's weather after fetching every feed for the first time at `now`.
    pub fn new(
        geohash: String,
        now: Timestamp,
        opts: WeatherOptions,
        daily_forecast: DailyForecast,
        hourly_forecast: HourlyForecast,
        observation: Option<Observation>,
        warnings: Vec<Warning>,
    ) -> (r: Weather)
        requires
            valid_time(now as int),
            opts.wf(),
            daily_forecast.wf(),
            hourly_forecast.wf(),
            observation matches Some(o) ==> o.wf(),
        ensures
            r.geohash == geohash,
            r.opts == opts,
            r.daily_forecast == daily_forecast,
            r.hourly_forecast == hourly_forecast,
            r.warnings == warnings,
            r.observations@ == (match observation {
                Some(o) => seq![o],
                None => Seq::empty(),
            }),
            r.next_daily_due == due_after_new(
                daily_due_of(opts, daily_forecast),
                now as int,
                opts.daily_overdue_delay as int,
            ),
            r.next_hourly_due == due_after_new(
                hourly_forecast.issue_time + opts.hourly_update_frequency + opts.update_delay,
                now as int,
                opts.hourly_overdue_delay as int,
            ),
            r.next_observation_due == (match observation {
                Some(o) => due_after_new(
                    o.issue_time + opts.observation_update_frequency + opts.update_delay,
                    now as int,
                    opts.observation_overdue_delay as int,
                ),
                None => now + opts.observation_missing_delay,
            }),
            r.next_warning_due == now + opts.warning_update_frequency,
    {
        let daily_due = if opts.use_daily_next_issue_time {
            match daily_forecast.next_issue_time {
                Some(t) => t + opts.update_delay,
                None => daily_forecast.issue_time + opts.daily_update_frequency + opts.update_delay,
            }
        } else {
            daily_forecast.issue_time + opts.daily_update_frequency + opts.update_delay
        };
        let next_daily_due = clamp_due(daily_due, now, opts.daily_overdue_delay);
        let next_hourly_due = clamp_due(
            hourly_forecast.issue_time + opts.hourly_update_frequency + opts.update_delay,
            now,
            opts.hourly_overdue_delay,
        );
        let mut observations = VecDeque::new();
        let next_observation_due = match observation {
            Some(o) => {
                let due = clamp_due(
                    o.issue_time + opts.observation_update_frequency + opts.update_delay,
                    now,
                    opts.observation_overdue_delay,
                );
                observations.push_front(o);
                due
            },
            None => now + opts.observation_missing_delay,
        };
        let next_warning_due = now + opts.warning_update_frequency;
        Weather {
            geohash,
            observations,
            daily_forecast,
            hourly_forecast,
            warnings,
            next_observation_due,
            next_daily_due,
            next_hourly_due,
            next_warning_due,
            opts,
        }
    }

    /// The current observation, if any.
    pub fn observation(&self) -> (r: Option<&Observation>)
        ensures
            r == (if self.observations@.len() > 0 {
                Some(&self.observations@[0])
            } else {
                None
            }),
    {
        if self.observations.len() > 0 {
            Some(&self.observations[0])
        } else {
            None
        }
    }

    /// Which feeds are due at `now`: strictly after their due time.
    pub fn due_feeds(&self, now: Timestamp) -> (r: FeedsDue)
        ensures
            r.observation == self.observation_is_due(now as int),
            r.hourly == self.hourly_is_due(now as int),
            r.daily == self.daily_is_due(now as int),
            r.warnings == self.warnings_are_due(now as int),
    {
        FeedsDue {
            observation: self.opts.check_observations && now > self.next_observation_due,
            hourly: now > self.next_hourly_due,
            daily: now > self.next_daily_due,
            warnings: now > self.next_warning_due,
        }
    }

    /// Reconciles a fetched observation.
    pub fn update_observation(&mut self, now: Timestamp, observation: Observation)
        requires
            valid_time(now as int),
            old(self).opts.wf(),
            observation.wf(),
        ensures
            (final(self).observations@, final(self).next_observation_due as int) == ({
                let out = observation_outcome(
                    old(self).observations@,
                    old(self).opts,
                    now as int,
                    Some(observation),
                );
                (out.0, out.1)
            }),
            final(self).geohash == old(self).geohash,
            final(self).opts == old(self).opts,
            final(self).hourly_forecast == old(self).hourly_forecast,
            final(self).daily_forecast == old(self).daily_forecast,
            final(self).warnings == old(self).warnings,
            final(self).next_hourly_due == old(self).next_hourly_due,
            final(self).next_daily_due == old(self).next_daily_due,
            final(self).next_warning_due == old(self).next_warning_due,
    {
        if self.observations.len() > 0 {
            if observation.issue_time == self.observations[0].issue_time {
                self.next_observation_due = now + self.opts.observation_overdue_delay;
                return ;
            }
        }
        self.next_observation_due = clamp_due(
            observation.issue_time + self.opts.observation_update_frequency
                + self.opts.update_delay,
            now,
            self.opts.observation_overdue_delay,
        );
        let ghost before = self.observations@;
        self.observations.push_front(observation);
        let cap = self.opts.past_observation_amount;
        self.observations.truncate(cap);
        assert(self.observations@ =~= history_after(
            before,
            observation,
            self.opts.past_observation_amount as nat,
        ));
    }

    /// Reconciles a fetched hourly forecast.
    pub fn update_hourly(&mut self, now: Timestamp, hourly: HourlyForecast)
        requires
            valid_time(now as int),
            old(self).opts.wf(),
            hourly.wf(),
        ensures
            (final(self).hourly_forecast, final(self).next_hourly_due as int) == ({
                let out = hourly_outcome(old(self).hourly_forecast, old(self).opts, now as int, hourly);
                (out.0, out.1)
            }),
            final(self).geohash == old(self).geohash,
            final(self).opts == old(self).opts,
            final(self).observations == old(self).observations,
            final(self).daily_forecast == old(self).daily_forecast,
            final(self).warnings == old(self).warnings,
            final(self).next_observation_due == old(self).next_observation_due,
            final(self).next_daily_due == old(self).next_daily_due,
            final(self).next_warning_due == old(self).next_warning_due,
    {
        if hourly.issue_time == self.hourly_forecast.issue_time {
            self.next_hourly_due = now + self.opts.hourly_overdue_delay;
            self.hourly_forecast = hourly;
            return ;
        }
        self.next_hourly_due = clamp_due(
            hourly.issue_time + self.opts.hourly_update_frequency + self.opts.update_delay,
            now,
            self.opts.hourly_overdue_delay,
        );
        self.hourly_forecast = hourly;
    }

    /// Reconciles a fetched daily forecast.
    pub fn update_daily(&mut self, now: Timestamp, new_daily: DailyForecast)
        requires
            valid_time(now as int),
            old(self).opts.wf(),
            new_daily.wf(),
        ensures
            (final(self).daily_forecast, final(self).next_daily_due as int) == ({
                let out = daily_outcome(old(self).daily_forecast, old(self).opts, now as int, new_daily);
                (out.0, out.1)
            }),
            final(self).geohash == old(self).geohash,
            final(self).opts == old(self).opts,
            final(self).observations == old(self).observations,
            final(self).hourly_forecast == old(self).hourly_forecast,
            final(self).warnings == old(self).warnings,
            final(self).next_observation_due == old(self).next_observation_due,
            final(self).next_hourly_due == old(self).next_hourly_due,
            final(self).next_warning_due == old(self).next_warning_due,
    {
        if new_daily.issue_time == self.daily_forecast.issue_time {
            self.next_daily_due = now + self.opts.daily_overdue_delay;
            return ;
        }
        let due = if self.opts.use_daily_next_issue_time {
            match new_daily.next_issue_time {
                Some(next) => next + self.opts.update_delay,
                None => new_daily.issue_time + self.opts.daily_update_frequency
                    + self.opts.update_delay,
            }
        } else {
            new_daily.issue_time + self.opts.daily_update_frequency + self.opts.update_delay
        };
        self.next_daily_due = clamp_due(due, now, self.opts.daily_overdue_delay);
        self.daily_forecast = new_daily;
    }

    /// Replaces the warnings and reports whether they differ from the old ones.
    pub fn update_warnings(&mut self, now: Timestamp, warnings: Vec<Warning>) -> (changed: bool)
        requires
            valid_time(now as int),
            old(self).opts.wf(),
        ensures
            (final(self).warnings@, final(self).next_warning_due as int, changed) == warnings_outcome(
                old(self).warnings@,
                old(self).opts,
                now as int,
                warnings@,
            ),
            final(self).geohash == old(self).geohash,
            final(self).opts == old(self).opts,
            final(self).observations == old(self).observations,
            final(self).hourly_forecast == old(self).hourly_forecast,
            final(self).daily_forecast == old(self).daily_forecast,
            final(self).next_observation_due == old(self).next_observation_due,
            final(self).next_hourly_due == old(self).next_hourly_due,
            final(self).next_daily_due == old(self).next_daily_due,
    {
        let changed = !same_warnings(&self.warnings, &warnings);
        self.warnings = warnings;
        self.next_warning_due = now + self.opts.warning_update_frequency;
        changed
    }

    /// Reconciles what was fetched for the feeds due at `now`, and reports whether any
    /// feed received new data and when the next feed falls due.
    ///
    /// A feed that is not due, or that was not fetched, is left as it was, except that when
    /// observations are not checked a passed observation due time is put off by
    /// `observation_missing_delay`, so that the next check is never in the past.
    pub fn update_if_due(&mut self, now: Timestamp, fetched: FetchedFeeds) -> (r: (bool, Timestamp))
        requires
            valid_time(now as int),
            old(self).opts.wf(),
            fetched.wf(),
        ensures
            ({
                let o = old(self).observation_step(now as int, fetched.observation);
                let h = old(self).hourly_step(now as int, fetched.hourly);
                let d = old(self).daily_step(now as int, fetched.daily);
                let w = old(self).warnings_step(now as int, fetched.warnings);
                &&& (final(self).observations@, final(self).next_observation_due as int) == (o.0, o.1)
                &&& (final(self).hourly_forecast, final(self).next_hourly_due as int) == (h.0, h.1)
                &&& (final(self).daily_forecast, final(self).next_daily_due as int) == (d.0, d.1)
                &&& (final(self).warnings@, final(self).next_warning_due as int) == (w.0, w.1)
                &&& r.0 == (o.2 || h.2 || d.2 || w.2)
            }),
            r.1 == final(self).next_due(),
            final(self).geohash == old(self).geohash,
            final(self).opts == old(self).opts,
    {
        let mut changed = false;
        if self.opts.check_observations && now > self.next_observation_due {
            match fetched.observation {
                Some(Some(observation)) => {
                    let is_new = self.observations.len() == 0 || self.observations[0].issue_time
                        != observation.issue_time;
                    self.update_observation(now, observation);
                    changed = is_new;
                },
                Some(None) => {
                    self.next_observation_due = now + self.opts.observation_missing_delay;
                },
                None => {},
            }
        } else if !self.opts.check_observations && now > self.next_observation_due {
            // a feed that is not checked is put off like a missing one, so that its past due
            // time does not hold the next check in the past
            self.next_observation_due = now + self.opts.observation_missing_delay;
        }
        if now > self.next_hourly_due {
            match fetched.hourly {
                Some(hourly) => {
                    let is_new = hourly.issue_time != self.hourly_forecast.issue_time;
                    self.update_hourly(now, hourly);
                    changed = changed || is_new;
                },
                None => {},
            }
        }
        if now > self.next_daily_due {
            match fetched.daily {
                Some(daily) => {
                    let is_new = daily.issue_time != self.daily_forecast.issue_time;
                    self.update_daily(now, daily);
                    changed = changed || is_new;
                },
                None => {},
            }
        }
        if now > self.next_warning_due {
            match fetched.warnings {
                Some(warnings) => {
                    let is_new = self.update_warnings(now, warnings);
                    changed = changed || is_new;
                },
                None => {},
            }
        }
        (changed, self.next_check())
    }

    /// The earliest of the four due times.
    pub fn next_check(&self) -> (r: Timestamp)
        ensures
            r == self.next_due(),
    {
        let a = if self.next_observation_due <= self.next_hourly_due {
            self.next_observation_due
        } else {
            self.next_hourly_due
        };
        let b = if self.next_daily_due <= self.next_warning_due {
            self.next_daily_due
        } else {
            self.next_warning_due
        };
        if a <= b {
            a
        } else {
            b
        }
    }
}

/// The earliest of four due times.
pub open spec fn min4(a: int, b: int, c: int, d: int) -> int {
    let ab = if a <= b {
        a
    } else {
        b
    };
    let cd = if c <= d {
        c
    } else {
        d
    };
    if ab <= cd {
        ab
    } else {
        cd
    }
}

/// A due observation fetch that returns the current observation's issue time leaves the
/// history untouched, reports no change, and puts the feed off by the overdue delay.
pub proof fn lemma_unchanged_observation_is_overdue(w: Weather, now: int, o: Observation)
    requires
        w.observation_is_due(now),
        w.observations@.len() > 0,
        o.issue_time == w.observations@[0].issue_time,
    ensures
        w.observation_step(now, Some(Some(o))) == (
            w.observations@,
            now + w.opts.observation_overdue_delay,
            false,
        ),
{
}

/// After a genuinely new observation the history holds at most `past_observation_amount`
/// observations with the new one in front; when two or more are kept, the previous
/// current one follows it.
pub proof fn lemma_new_observation_in_front(w: Weather, now: int, o: Observation)
    requires
        w.observation_is_due(now),
        is_new_observation(w.observations@, o),
        w.opts.past_observation_amount >= 1,
    ensures
        ({
            let (h, _, changed) = w.observation_step(now, Some(Some(o)));
            &&& changed
            &&& h.len() <= w.opts.past_observation_amount
            &&& h[0] == o
            &&& w.opts.past_observation_amount >= 2 && w.observations@.len() > 0 ==> h[1]
                == w.observations@[0]
        }),
{
}

/// Once every due feed has been fetched, the next check is never before `now`: each due
/// time is either one that had not yet passed or one set from `now` on.
pub proof fn lemma_next_check_not_before_now(w: Weather, now: int, fetched: FetchedFeeds)
    requires
        w.opts.wf(),
        w.observation_is_due(now) ==> fetched.observation is Some,
        w.hourly_is_due(now) ==> fetched.hourly is Some,
        w.daily_is_due(now) ==> fetched.daily is Some,
        w.warnings_are_due(now) ==> fetched.warnings is Some,
    ensures
        min4(
            w.observation_step(now, fetched.observation).1,
            w.hourly_step(now, fetched.hourly).1,
            w.daily_step(now, fetched.daily).1,
            w.warnings_step(now, fetched.warnings).1,
        ) >= now,
{
}

/// `computed`, or `now + overdue` if `computed` has already passed.
fn clamp_due(computed: Timestamp, now: Timestamp, overdue: Seconds) -> (r: Timestamp)
    requires
        valid_time(now as int),
        valid_span(overdue as int),
    ensures
        r == due_after_new(computed as int, now as int, overdue as int),
{
    if now > computed {
        now + overdue
    } else {
        computed
    }
}

} // verus!
