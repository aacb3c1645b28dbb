//! The place of the artifact in the object store.

use crate::text::{push_signed_decimal, push_two_digit, signed_decimal, two_digit};
use chrono::Datelike;
use vstd::prelude::*;

verus! {

/// The year of the UTC calendar date on which a Unix timestamp falls, as
/// `chrono` reckons it; nothing for a timestamp outside the range of its
/// calendar.
pub uninterp spec fn utc_year(seconds: int) -> Option<int>;

/// The month, counted from one, of the UTC calendar date on which a Unix
/// timestamp falls, as `chrono` reckons it.
pub uninterp spec fn utc_month(seconds: int) -> Option<int>;

/// The day of the month of the UTC calendar date on which a Unix timestamp
/// falls, as `chrono` reckons it.
pub uninterp spec fn utc_day(seconds: int) -> Option<int>;

/// `chrono::Datelike::year` of the moment that `chrono::DateTime::from_timestamp`
/// makes of the seconds. The result depends on the seconds alone and is
/// named `utc_year`.
#[verifier::external_body]
fn year_of(seconds: i64) -> (year: Option<i32>)
    ensures
        year is Some <==> utc_year(seconds as int) is Some,
        year matches Some(y) ==> utc_year(seconds as int) == Some(y as int),
{
    match chrono::DateTime::from_timestamp(seconds, 0) {
        Some(moment) => Some(moment.year()),
        None => None,
    }
}

/// `chrono::Datelike::month` of the moment that `chrono::DateTime::from_timestamp`
/// makes of the seconds: a number from 1 to 12, named `utc_month`.
#[verifier::external_body]
fn month_of(seconds: i64) -> (month: Option<u32>)
    ensures
        month is Some <==> utc_month(seconds as int) is Some,
        month matches Some(m) ==> utc_month(seconds as int) == Some(m as int) && 1 <= m <= 12,
{
    match chrono::DateTime::from_timestamp(seconds, 0) {
        Some(moment) => Some(moment.month()),
        None => None,
    }
}

/// `chrono::Datelike::day` of the moment that `chrono::DateTime::from_timestamp`
/// makes of the seconds: a number from 1 to 31, named `utc_day`.
#[verifier::external_body]
fn day_of(seconds: i64) -> (day: Option<u32>)
    ensures
        day is Some <==> utc_day(seconds as int) is Some,
        day matches Some(d) ==> utc_day(seconds as int) == Some(d as int) && 1 <= d <= 31,
{
    match chrono::DateTime::from_timestamp(seconds, 0) {
        Some(moment) => Some(moment.day()),
        None => None,
    }
}

/// The key under which the artifact of a city is stored: the partition by
/// city and calendar date, then a name made of the timestamp.
pub open spec fn object_key(city_id: Seq<char>, year: int, month: nat, day: nat, stamp: int) -> Seq<
    char,
> {
    "city_id="@ + city_id + "/year="@ + signed_decimal(year) + "/month="@ + two_digit(month)
        + "/day="@ + two_digit(day) + "/vendors_"@ + signed_decimal(stamp) + ".parquet"@
}

/// Where the artifact of a run goes.
#[derive(Debug)]
pub struct UploadTarget {
    pub bucket: String,
    /// The logical grouping id of the partition.
    pub city_id: String,
    pub year: i32,
    pub month: u32,
    pub day: u32,
    /// The generated object key.
    pub key: String,
    pub content_type: String,
}

impl UploadTarget {
    /// The key is the one that the partition and the timestamp `stamp`
    /// determine, and the content type is that of the artifact.
    pub open spec fn is_for(self, bucket: Seq<char>, city_id: Seq<char>, stamp: int) -> bool {
        &&& self.bucket@ == bucket
        &&& self.city_id@ == city_id
        &&& self.key@ == object_key(
            city_id,
            self.year as int,
            self.month as nat,
            self.day as nat,
            stamp,
        )
        &&& self.content_type@ == "application/x-parquet"@
    }

    /// The target for a partition given by city and calendar date.
    pub fn partitioned(bucket: &str, city_id: &str, year: i32, month: u32, day: u32, stamp: i64) -> (target:
        UploadTarget)
        ensures
            target.is_for(bucket@, city_id@, stamp as int),
            target.year == year,
            target.month == month,
            target.day == day,
    {
        let mut key = String::from_str("city_id=");
        key.append(city_id);
        key.append("/year=");
        push_signed_decimal(&mut key, year as i64);
        key.append("/month=");
        push_two_digit(&mut key, month);
        key.append("/day=");
        push_two_digit(&mut key, day);
        key.append("/vendors_");
        push_signed_decimal(&mut key, stamp);
        key.append(".parquet");
        UploadTarget {
            bucket: String::from_str(bucket),
            city_id: String::from_str(city_id),
            year,
            month,
            day,
            key,
            content_type: String::from_str("application/x-parquet"),
        }
    }

    /// The target for the artifact of a city that is finished at the moment
    /// `now`, in seconds since the epoch: the partition is the UTC calendar
    /// date of that moment. There is none for a moment outside the
    /// calendar.
    pub fn new(bucket: &str, city_id: &str, now: i64) -> (target: Option<UploadTarget>)
        ensures
            target is Some <==> utc_year(now as int) is Some && utc_month(now as int) is Some
                && utc_day(now as int) is Some,
            target matches Some(t) ==> {
                &&& t.is_for(bucket@, city_id@, now as int)
                &&& utc_year(now as int) == Some(t.year as int)
                &&& utc_month(now as int) == Some(t.month as int)
                &&& utc_day(now as int) == Some(t.day as int)
            },
    {
        match (year_of(now), month_of(now), day_of(now)) {
            (Some(year), Some(month), Some(day)) => Some(
                Self::partitioned(bucket, city_id, year, month, day, now),
            ),
            _ => None,
        }
    }
}

} // verus!
