//! The record of one vendor, as it is stored in the sink and read back.

use crate::error::Error;
use crate::models::payload::{
    json_array, json_compact, json_elements, json_i32_member, json_i64_member,
    json_present_member, json_quoted, json_string_member, push_documents, push_quoted, texts_of,
    JsonText,
};
use crate::models::ratings::{ratings_in, Ratings, RatingsDistribution};
use crate::text::{push_signed_decimal, push_words, signed_decimal, single_line};
use vstd::prelude::*;

verus! {

/// One extracted record.
///
/// The two timestamps are seconds since the Unix epoch.
#[derive(Debug)]
pub struct Vendor {
    /// The primary key, unique within a run.
    pub code: String,
    /// The display name.
    pub name: String,
    /// The detail payload, absent for a vendor the service has no data for.
    pub details: Option<JsonText>,
    /// The number of the page the vendor was listed on, counted from one.
    pub batch_number: i32,
    /// The reviews, absent where they could not be had.
    pub reviews: Option<Vec<JsonText>>,
    /// The ratings distribution, absent where it could not be had.
    pub ratings: Option<RatingsDistribution>,
    /// When the extraction of this vendor began.
    pub extraction_started_at: i64,
    /// When the extraction of this vendor was complete.
    pub extraction_completed_at: i64,
}

/// The JSON text of a value that may be absent: `null` stands for absence.
pub open spec fn or_null(text: Option<Seq<char>>) -> Seq<char> {
    match text {
        Some(t) => t,
        None => "null"@,
    }
}

impl Vendor {
    /// A record never ends before it begins, and a record without details
    /// has neither reviews nor ratings.
    pub open spec fn wf(self) -> bool {
        &&& self.extraction_started_at <= self.extraction_completed_at
        &&& self.details is None ==> self.reviews is None && self.ratings is None
    }

    /// A record that stands for a vendor the service has no data for.
    pub open spec fn is_soft_miss(self) -> bool {
        &&& self.details is None
        &&& self.reviews is None
        &&& self.ratings is None
        &&& self.name@ == "Unknown"@
    }

    /// The detail payload as JSON text.
    pub open spec fn details_text(self) -> Option<Seq<char>> {
        match self.details {
            Some(details) => Some(details@),
            None => None,
        }
    }

    /// The reviews as the text of one JSON array.
    pub open spec fn reviews_text(self) -> Option<Seq<char>> {
        match self.reviews {
            Some(reviews) => Some(json_array(texts_of(reviews@))),
            None => None,
        }
    }

    /// The ratings distribution as the text of one JSON object.
    pub open spec fn ratings_text(self) -> Option<Seq<char>> {
        match self.ratings {
            Some(ratings) => Some(ratings.json_text()),
            None => None,
        }
    }

    /// The JSON object under which the record is stored: its eight members
    /// in the order of the fields, an absent payload as `null`.
    pub open spec fn json_text(self) -> Seq<char> {
        "{\"code\":"@ + json_quoted(self.code@) + ",\"name\":"@ + json_quoted(self.name@)
            + ",\"details\":"@ + or_null(self.details_text()) + ",\"batch_number\":"@
            + signed_decimal(self.batch_number as int) + ",\"reviews\":"@ + or_null(
            self.reviews_text(),
        ) + ",\"ratings\":"@ + or_null(self.ratings_text()) + ",\"extraction_started_at\":"@
            + signed_decimal(self.extraction_started_at as int)
            + ",\"extraction_completed_at\":"@ + signed_decimal(
            self.extraction_completed_at as int,
        ) + "}"@
    }

    /// The detail payload as JSON text.
    pub fn details_json(&self) -> (text: Option<String>)
        ensures
            text is Some <==> self.details_text() is Some,
            text matches Some(t) ==> self.details_text() == Some(t@) && single_line(t@),
    {
        match &self.details {
            Some(details) => Some(String::from_str(details.as_str())),
            None => None,
        }
    }

    /// The reviews as the text of one JSON array.
    pub fn reviews_json(&self) -> (text: Option<String>)
        ensures
            text is Some <==> self.reviews_text() is Some,
            text matches Some(t) ==> self.reviews_text() == Some(t@) && single_line(t@),
    {
        match &self.reviews {
            Some(reviews) => {
                let mut text = String::new();
                push_documents(&mut text, reviews);
                Some(text)
            },
            None => None,
        }
    }

    /// The ratings distribution as the text of one JSON object.
    pub fn ratings_json(&self) -> (text: Option<String>)
        ensures
            text is Some <==> self.ratings_text() is Some,
            text matches Some(t) ==> self.ratings_text() == Some(t@) && single_line(t@),
    {
        match &self.ratings {
            Some(ratings) => Some(ratings.to_json()),
            None => None,
        }
    }

    /// Writes the record as the JSON object under which it is stored. The
    /// text is not empty and holds no line feed.
    pub fn to_json(&self) -> (text: String)
        ensures
            text@ == self.json_text(),
            single_line(text@),
            text@.len() > 0,
    {
        proof {
            reveal_strlit("{\"code\":");
            reveal_strlit(",\"name\":");
            reveal_strlit(",\"details\":");
            reveal_strlit(",\"batch_number\":");
            reveal_strlit(",\"reviews\":");
            reveal_strlit(",\"ratings\":");
            reveal_strlit(",\"extraction_started_at\":");
            reveal_strlit(",\"extraction_completed_at\":");
            reveal_strlit("}");
        }
        let mut text = String::from_str("{\"code\":");
        push_quoted(&mut text, self.code.as_str());
        push_words(&mut text, ",\"name\":");
        push_quoted(&mut text, self.name.as_str());
        push_words(&mut text, ",\"details\":");
        push_or_null(&mut text, self.details_json());
        push_words(&mut text, ",\"batch_number\":");
        push_signed_decimal(&mut text, self.batch_number as i64);
        push_words(&mut text, ",\"reviews\":");
        push_or_null(&mut text, self.reviews_json());
        push_words(&mut text, ",\"ratings\":");
        push_or_null(&mut text, self.ratings_json());
        push_words(&mut text, ",\"extraction_started_at\":");
        push_signed_decimal(&mut text, self.extraction_started_at);
        push_words(&mut text, ",\"extraction_completed_at\":");
        push_signed_decimal(&mut text, self.extraction_completed_at);
        push_words(&mut text, "}");
        text
    }
}

/// What a record says.
pub struct Record {
    pub code: Seq<char>,
    pub name: Seq<char>,
    pub details: Option<Seq<char>>,
    pub batch_number: i32,
    pub reviews: Option<Seq<Seq<char>>>,
    pub ratings: Option<Ratings>,
    pub extraction_started_at: i64,
    pub extraction_completed_at: i64,
}

/// The reviews that a stored record holds: none where the member is absent
/// or `null`, else the elements of the array under it. Nothing where the
/// member holds something other than an array.
pub open spec fn reviews_in(document: Seq<char>) -> Option<Option<Seq<Seq<char>>>> {
    match json_present_member(document, "reviews"@) {
        None => Some(None),
        Some(list) => match json_elements(list) {
            Some(items) => Some(Some(items)),
            None => None,
        },
    }
}

/// The ratings that a stored record holds: none where the member is absent
/// or `null`, else the distribution under it. Nothing where the member holds
/// something other than a distribution.
pub open spec fn stored_ratings_in(document: Seq<char>) -> Option<Option<Ratings>> {
    match json_present_member(document, "ratings"@) {
        None => Some(None),
        Some(object) => match ratings_in(object) {
            Some(ratings) => Some(Some(ratings)),
            None => None,
        },
    }
}

/// The record that the bytes of a sink entry spell: a JSON object with the
/// eight members of a record, of which the three payloads may be absent or
/// `null`.
pub open spec fn decoded_record(bytes: Seq<u8>) -> Option<Record> {
    match json_compact(bytes) {
        None => None,
        Some(document) => match (
            json_string_member(document, "code"@),
            json_string_member(document, "name"@),
            json_i32_member(document, "batch_number"@),
            json_i64_member(document, "extraction_started_at"@),
            json_i64_member(document, "extraction_completed_at"@),
            reviews_in(document),
            stored_ratings_in(document),
        ) {
            (
                Some(code),
                Some(name),
                Some(batch_number),
                Some(extraction_started_at),
                Some(extraction_completed_at),
                Some(reviews),
                Some(ratings),
            ) => Some(
                Record {
                    code,
                    name,
                    details: json_present_member(document, "details"@),
                    batch_number,
                    reviews,
                    ratings,
                    extraction_started_at,
                    extraction_completed_at,
                },
            ),
            _ => None,
        },
    }
}

fn unreadable(what: &str) -> (e: Error)
    ensures
        e matches Error::Json(words) && words@ == "missing or invalid field `"@ + what@ + "`"@,
{
    let mut reason = String::from_str("missing or invalid field `");
    reason.append(what);
    reason.append("`");
    Error::Json(reason)
}

impl Vendor {
    /// What the record says.
    pub open spec fn record(self) -> Record {
        Record {
            code: self.code@,
            name: self.name@,
            details: self.details_text(),
            batch_number: self.batch_number,
            reviews: match self.reviews {
                Some(reviews) => Some(texts_of(reviews@)),
                None => None,
            },
            ratings: match self.ratings {
                Some(ratings) => Some(ratings.ratings_view()),
                None => None,
            },
            extraction_started_at: self.extraction_started_at,
            extraction_completed_at: self.extraction_completed_at,
        }
    }

    /// Reads a record back from the bytes of a sink entry. Bytes that do not
    /// spell a record are reported as a JSON error.
    pub fn decode(bytes: &[u8]) -> (decoded: Result<Vendor, Error>)
        ensures
            decoded is Ok <==> decoded_record(bytes@) is Some,
            decoded matches Ok(vendor) ==> decoded_record(bytes@) == Some(vendor.record()),
            decoded matches Err(e) ==> e is Json,
    {
        let document = match JsonText::parse(bytes) {
            Ok(document) => document,
            Err(e) => {
                return Err(e);
            },
        };
        let code = match document.string_member("code") {
            Some(code) => code,
            None => {
                return Err(unreadable("code"));
            },
        };
        let name = match document.string_member("name") {
            Some(name) => name,
            None => {
                return Err(unreadable("name"));
            },
        };
        let batch_number: i32 = match document.i32_member("batch_number") {
            Some(n) => n,
            None => {
                return Err(unreadable("batch_number"));
            },
        };
        let extraction_started_at: i64 = match document.i64_member("extraction_started_at") {
            Some(n) => n,
            None => {
                return Err(unreadable("extraction_started_at"));
            },
        };
        let extraction_completed_at: i64 = match document.i64_member("extraction_completed_at") {
            Some(n) => n,
            None => {
                return Err(unreadable("extraction_completed_at"));
            },
        };
        let reviews = match document.present_member("reviews") {
            None => None,
            Some(list) => match list.elements() {
                Some(items) => Some(items),
                None => {
                    return Err(unreadable("reviews"));
                },
            },
        };
        let ratings = match document.present_member("ratings") {
            None => None,
            Some(object) => match RatingsDistribution::from_document(&object) {
                Ok(ratings) => Some(ratings),
                Err(e) => {
                    return Err(e);
                },
            },
        };
        let details = document.present_member("details");
        Ok(
            Vendor {
                code,
                name,
                details,
                batch_number,
                reviews,
                ratings,
                extraction_started_at,
                extraction_completed_at,
            },
        )
    }
}

fn push_or_null(out: &mut String, text: Option<String>)
    requires
        text matches Some(t) ==> single_line(t@),
    ensures
        final(out)@ == old(out)@ + or_null(
            match text {
                Some(t) => Some(t@),
                None => None,
            },
        ),
        single_line(old(out)@) ==> single_line(final(out)@),
{
    proof {
        reveal_strlit("null");
    }
    match text {
        Some(t) => push_words(out, t.as_str()),
        None => push_words(out, "null"),
    }
}

} // verus!
