//! Alarm configuration: validated types, and the validation that turns raw
//! key/value data read from the configuration file into an [`Config`].
//!
//! The file itself is read and decoded outside the library; what arrives here
//! are plain values (unsigned integers and weekday name strings). Validation
//! either fully succeeds or fully fails: no partial configuration is ever
//! produced.

use vstd::prelude::*;
use crate::weekday::{Weekday, weekday_of, parse_weekday};

verus! {

/// One configured alarm: a time of day and the set of weekdays on which it
/// recurs. An empty weekday list is valid and means the alarm never fires.
pub struct Alarm {
    pub hour: u8,
    pub minute: u8,
    pub weekdays: Vec<Weekday>,
}

impl Alarm {
    /// Range invariant established at validation time.
    pub open spec fn wf(self) -> bool {
        self.hour < 24 && self.minute < 60
    }
}

/// An immutable configuration snapshot: the alarm list and the audio asset
/// played on any match. Replaced wholesale on reload, never mutated.
pub struct Config {
    pub alarms: Vec<Alarm>,
    pub audio_path: String,
}

impl Config {
    pub open spec fn wf(self) -> bool {
        forall|i: int| 0 <= i < self.alarms@.len() ==> (#[trigger] self.alarms@[i]).wf()
    }

    /// Runtime check of the range invariant, for unverified callers that must
    /// establish it before handing a configuration to the scheduler.
    pub fn check_well_formed(&self) -> (r: bool)
        ensures
            r == self.wf(),
    {
        let mut i: usize = 0;
        while i < self.alarms.len()
            invariant
                i <= self.alarms@.len(),
                forall|j: int| 0 <= j < i ==> (#[trigger] self.alarms@[j]).wf(),
            decreases self.alarms@.len() - i,
        {
            let a = &self.alarms[i];
            if !(a.hour < 24 && a.minute < 60) {
                return false;
            }
            i += 1;
        }
        true
    }
}

/// Why a configuration failed to load. `Io` and `Parse` are produced by the
/// surrounding program when the file cannot be read or decoded at all;
/// `InvalidWeekday` and `OutOfRange` are produced by validation here.
#[derive(Debug, PartialEq, Eq)]
pub enum ConfigError {
    /// The configuration file is missing or unreadable.
    Io,
    /// The configuration file is not well-formed key/value data.
    Parse,
    /// A weekday token is not one of the seven recognized names.
    InvalidWeekday(String),
    /// An alarm's hour is not in 0..=23 or its minute is not in 0..=59.
    OutOfRange,
}

/// One alarm as it arrives from the configuration file, before validation:
/// unbounded integers and raw weekday tokens.
pub struct RawAlarm {
    pub hour: u32,
    pub minute: u32,
    pub weekdays: Vec<String>,
}

impl RawAlarm {
    pub open spec fn range_ok(self) -> bool {
        self.hour < 24 && self.minute < 60
    }

    pub open spec fn weekdays_ok(self) -> bool {
        forall|k: int|
            0 <= k < self.weekdays@.len() ==> weekday_of(#[trigger] self.weekdays@[k]@) is Some
    }

    pub open spec fn ok(self) -> bool {
        self.range_ok() && self.weekdays_ok()
    }

    /// `tok` is the first unrecognized weekday token of this raw alarm.
    pub open spec fn first_bad_token(self, tok: Seq<char>) -> bool {
        exists|k: int|
            0 <= k < self.weekdays@.len()
            && weekday_of(#[trigger] self.weekdays@[k]@) is None
            && (forall|j: int| 0 <= j < k ==> weekday_of(#[trigger] self.weekdays@[j]@) is Some)
            && tok == self.weekdays@[k]@
    }
}

/// All raw alarms pass validation.
pub open spec fn all_alarms_ok(raws: Seq<RawAlarm>) -> bool {
    forall|i: int| 0 <= i < raws.len() ==> (#[trigger] raws[i]).ok()
}

/// `a` is the validated image of `r`: same time of day, weekday tokens parsed
/// in order.
pub open spec fn alarm_corresponds(a: Alarm, r: RawAlarm) -> bool {
    &&& a.hour == r.hour
    &&& a.minute == r.minute
    &&& a.weekdays@.len() == r.weekdays@.len()
    &&& forall|k: int|
        0 <= k < r.weekdays@.len() ==> Some(a.weekdays@[k]) == weekday_of(
            #[trigger] r.weekdays@[k]@,
        )
}

/// `c` is the validated image of the whole raw input.
pub open spec fn config_corresponds(c: Config, raws: Seq<RawAlarm>, path: Seq<char>) -> bool {
    &&& c.audio_path@ == path
    &&& c.alarms@.len() == raws.len()
    &&& forall|i: int| 0 <= i < raws.len() ==> alarm_corresponds(c.alarms@[i], #[trigger] raws[i])
}

/// `e` is the error that validation of `r` alone reports: a range violation
/// wins over weekday tokens, then the first unrecognized token is named.
pub open spec fn alarm_error_ok(e: ConfigError, r: RawAlarm) -> bool {
    match e {
        ConfigError::OutOfRange => !r.range_ok(),
        ConfigError::InvalidWeekday(t) => r.range_ok() && r.first_bad_token(t@),
        _ => false,
    }
}

/// `e` is the error for the first raw alarm, in input order, that fails
/// validation.
pub open spec fn config_error_ok(e: ConfigError, raws: Seq<RawAlarm>) -> bool {
    exists|i: int|
        0 <= i < raws.len()
        && !(#[trigger] raws[i]).ok()
        && (forall|j: int| 0 <= j < i ==> (#[trigger] raws[j]).ok())
        && alarm_error_ok(e, raws[i])
}

/// Parse one alarm's weekday tokens, in order; the first unrecognized token
/// fails the whole list.
pub fn parse_weekdays(tokens: &Vec<String>) -> (res: Result<Vec<Weekday>, ConfigError>)
    ensures
        res is Ok <==> (forall|k: int|
            0 <= k < tokens@.len() ==> weekday_of(#[trigger] tokens@[k]@) is Some),
        res matches Ok(days) ==> {
            &&& days@.len() == tokens@.len()
            &&& forall|k: int|
                0 <= k < tokens@.len() ==> Some(days@[k]) == weekday_of(#[trigger] tokens@[k]@)
        },
        res matches Err(e) ==> (e matches ConfigError::InvalidWeekday(t) && exists|k: int|
            0 <= k < tokens@.len()
            && weekday_of(#[trigger] tokens@[k]@) is None
            && (forall|j: int| 0 <= j < k ==> weekday_of(#[trigger] tokens@[j]@) is Some)
            && t@ == tokens@[k]@),
{
    let mut days: Vec<Weekday> = Vec::new();
    let mut k: usize = 0;
    while k < tokens.len()
        invariant
            k <= tokens@.len(),
            days@.len() == k,
            forall|j: int| 0 <= j < k ==> weekday_of(#[trigger] tokens@[j]@) is Some,
            forall|j: int| 0 <= j < k ==> Some(days@[j]) == weekday_of(#[trigger] tokens@[j]@),
        decreases tokens@.len() - k,
    {
        match parse_weekday(tokens[k].as_str()) {
            Some(d) => days.push(d),
            None => {
                return Err(ConfigError::InvalidWeekday(tokens[k].clone()));
            },
        }
        k += 1;
    }
    Ok(days)
}

/// Validate raw configuration data into a [`Config`].
///
/// Succeeds exactly when every alarm's hour is in 0..=23, its minute in
/// 0..=59, and every weekday token is one of the seven recognized names;
/// otherwise reports the error of the first offending alarm and produces
/// nothing.
pub fn build_config(raw_alarms: Vec<RawAlarm>, audio_path: String) -> (res: Result<
    Config,
    ConfigError,
>)
    ensures
        res is Ok <==> all_alarms_ok(raw_alarms@),
        res matches Ok(c) ==> c.wf() && config_corresponds(c, raw_alarms@, audio_path@),
        res matches Err(e) ==> config_error_ok(e, raw_alarms@),
{
    let mut alarms: Vec<Alarm> = Vec::new();
    let mut i: usize = 0;
    while i < raw_alarms.len()
        invariant
            i <= raw_alarms@.len(),
            alarms@.len() == i,
            forall|j: int| 0 <= j < i ==> (#[trigger] raw_alarms@[j]).ok(),
            forall|j: int| 0 <= j < i ==> alarm_corresponds(alarms@[j], #[trigger] raw_alarms@[j]),
        decreases raw_alarms@.len() - i,
    {
        let raw = &raw_alarms[i];
        if !(raw.hour < 24 && raw.minute < 60) {
            return Err(ConfigError::OutOfRange);
        }
        match parse_weekdays(&raw.weekdays) {
            Ok(days) => {
                alarms.push(
                    Alarm { hour: raw.hour as u8, minute: raw.minute as u8, weekdays: days },
                );
            },
            Err(e) => {
                return Err(e);
            },
        }
        i += 1;
    }
    proof {
        assert forall|j: int| 0 <= j < alarms@.len() implies (#[trigger] alarms@[j]).wf() by {
            assert(alarm_corresponds(alarms@[j], raw_alarms@[j]));
            assert(raw_alarms@[j].ok());
        }
    }
    Ok(Config { alarms, audio_path })
}

} // verus!
