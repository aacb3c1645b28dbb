//! The ratings distribution of a vendor.

use crate::error::Error;
use crate::models::response::{is_malformed_body, malformed_body, parse_body};
use crate::models::payload::{
    comma_joined, json_array, json_compact, json_elements, json_i32_member, json_member,
    json_quoted, json_string_member, push_quoted, texts_of, JsonText,
};
use crate::text::{push_signed_decimal, push_words, signed_decimal, single_line};
use vstd::prelude::*;

verus! {

/// How many ratings gave one score.
#[derive(Debug, Clone, Copy, PartialEq, Eq, Structural)]
pub struct RatingScore {
    pub count: i32,
    pub percentage: i32,
    pub score: i32,
}

/// The distribution of the ratings of one vendor.
#[derive(Debug)]
pub struct RatingsDistribution {
    pub total_count: i32,
    pub created_at: String,
    pub updated_at: String,
    pub ratings: Vec<RatingScore>,
}

impl RatingScore {
    /// The JSON object of the score.
    pub open spec fn json_text(self) -> Seq<char> {
        "{\"count\":"@ + signed_decimal(self.count as int) + ",\"percentage\":"@ + signed_decimal(
            self.percentage as int,
        ) + ",\"score\":"@ + signed_decimal(self.score as int) + "}"@
    }

    /// Appends the JSON object of the score.
    pub fn push_json(&self, out: &mut String)
        ensures
            final(out)@ == old(out)@ + self.json_text(),
            single_line(old(out)@) ==> single_line(final(out)@),
    {
        proof {
            reveal_strlit("{\"count\":");
            reveal_strlit(",\"percentage\":");
            reveal_strlit(",\"score\":");
            reveal_strlit("}");
        }
        push_words(out, "{\"count\":");
        push_signed_decimal(out, self.count as i64);
        push_words(out, ",\"percentage\":");
        push_signed_decimal(out, self.percentage as i64);
        push_words(out, ",\"score\":");
        push_signed_decimal(out, self.score as i64);
        push_words(out, "}");
    }
}

/// The JSON objects of a list of scores.
pub open spec fn score_texts(scores: Seq<RatingScore>) -> Seq<Seq<char>> {
    Seq::new(scores.len(), |i: int| scores[i].json_text())
}

impl RatingsDistribution {
    /// The JSON object of the distribution, under the member names of the
    /// upstream service.
    pub open spec fn json_text(self) -> Seq<char> {
        "{\"totalCount\":"@ + signed_decimal(self.total_count as int) + ",\"createdAt\":"@
            + json_quoted(self.created_at@) + ",\"updatedAt\":"@ + json_quoted(self.updated_at@)
            + ",\"ratings\":"@ + json_array(score_texts(self.ratings@)) + "}"@
    }

    /// Appends the JSON object of the distribution.
    pub fn push_json(&self, out: &mut String)
        ensures
            final(out)@ == old(out)@ + self.json_text(),
            single_line(old(out)@) ==> single_line(final(out)@),
    {
        let ghost start = out@;
        proof {
            reveal_strlit("{\"totalCount\":");
            reveal_strlit(",\"createdAt\":");
            reveal_strlit(",\"updatedAt\":");
            reveal_strlit(",\"ratings\":");
            reveal_strlit("[");
            reveal_strlit(",");
            reveal_strlit("]");
            reveal_strlit("}");
        }
        push_words(out, "{\"totalCount\":");
        push_signed_decimal(out, self.total_count as i64);
        push_words(out, ",\"createdAt\":");
        push_quoted(out, self.created_at.as_str());
        push_words(out, ",\"updatedAt\":");
        push_quoted(out, self.updated_at.as_str());
        push_words(out, ",\"ratings\":");
        let ghost head = out@;
        let ghost texts = score_texts(self.ratings@);
        push_words(out, "[");
        let mut i: usize = 0;
        while i < self.ratings.len()
            invariant
                i <= self.ratings@.len(),
                texts == score_texts(self.ratings@),
                out@ == head + "["@ + comma_joined(texts.take(i as int)),
                single_line(start) ==> single_line(out@),
                single_line(","@),
            decreases self.ratings@.len() - i,
        {
            let ghost before = texts.take(i as int);
            let ghost after = texts.take(i + 1);
            assert(after.drop_last() == before);
            if i > 0 {
                push_words(out, ",");
            }
            self.ratings[i].push_json(out);
            assert(out@ == head + "["@ + comma_joined(after)) by {
                if i > 0 {
                    assert(out@ =~= head + "["@ + (comma_joined(before) + ","@ + after.last()));
                }
            }
            i += 1;
        }
        assert(texts.take(self.ratings@.len() as int) == texts);
        push_words(out, "]");
        push_words(out, "}");
        assert(out@ =~= start + self.json_text());
    }

    /// The JSON object of the distribution as a text of its own.
    pub fn to_json(&self) -> (text: String)
        ensures
            text@ == self.json_text(),
            single_line(text@),
    {
        let mut text = String::new();
        self.push_json(&mut text);
        text
    }
}

/// What a ratings distribution says.
pub struct Ratings {
    pub total_count: i32,
    pub created_at: Seq<char>,
    pub updated_at: Seq<char>,
    pub ratings: Seq<RatingScore>,
}

/// The score that a JSON object spells: its three counts as integers of 32
/// bits.
pub open spec fn decoded_score(text: Seq<char>) -> Option<RatingScore> {
    match (
        json_i32_member(text, "count"@),
        json_i32_member(text, "percentage"@),
        json_i32_member(text, "score"@),
    ) {
        (Some(count), Some(percentage), Some(score)) => Some(
            RatingScore { count, percentage, score },
        ),
        _ => None,
    }
}

/// The scores that a list of JSON objects spells, where each spells one.
pub open spec fn decoded_scores(items: Seq<Seq<char>>) -> Option<Seq<RatingScore>> {
    if forall|i: int| 0 <= i < items.len() ==> decoded_score(#[trigger] items[i]) is Some {
        Some(Seq::new(items.len(), |i: int| decoded_score(items[i]).unwrap()))
    } else {
        None
    }
}

/// The ratings distribution that a JSON document spells: an object with
/// the count under `totalCount`, two strings under `createdAt` and
/// `updatedAt`, and the scores under `ratings`.
pub open spec fn ratings_in(document: Seq<char>) -> Option<Ratings> {
    match (
        json_i32_member(document, "totalCount"@),
        json_string_member(document, "createdAt"@),
        json_string_member(document, "updatedAt"@),
        json_member(document, "ratings"@),
    ) {
        (Some(total_count), Some(created_at), Some(updated_at), Some(list)) => {
            match json_elements(list) {
                None => None,
                Some(items) => match decoded_scores(items) {
                    None => None,
                    Some(ratings) => Some(Ratings { total_count, created_at, updated_at, ratings }),
                },
            }
        },
        _ => None,
    }
}

/// The ratings distribution that a body spells.
pub open spec fn decoded_ratings(body: Seq<u8>) -> Option<Ratings> {
    match json_compact(body) {
        None => None,
        Some(document) => ratings_in(document),
    }
}

fn invalid(what: &str) -> (e: Error)
    ensures
        e matches Error::Json(words) && words@ == "missing or invalid field `"@ + what@ + "`"@,
{
    let mut reason = String::from_str("missing or invalid field `");
    reason.append(what);
    reason.append("`");
    Error::Json(reason)
}

impl RatingScore {
    /// Reads a score from a JSON object.
    pub fn decode(document: &JsonText) -> (decoded: Option<RatingScore>)
        ensures
            decoded == decoded_score(document@),
    {
        match (
            document.i32_member("count"),
            document.i32_member("percentage"),
            document.i32_member("score"),
        ) {
            (Some(count), Some(percentage), Some(score)) => Some(
                RatingScore { count, percentage, score },
            ),
            _ => None,
        }
    }
}

impl RatingsDistribution {
    /// What the distribution says.
    pub open spec fn ratings_view(self) -> Ratings {
        Ratings {
            total_count: self.total_count,
            created_at: self.created_at@,
            updated_at: self.updated_at@,
            ratings: self.ratings@,
        }
    }

    /// Reads a ratings distribution from the body of a response. A body
    /// that does not spell one is reported as a JSON error.
    pub fn decode(body: &[u8]) -> (decoded: Result<RatingsDistribution, Error>)
        ensures
            decoded is Ok <==> decoded_ratings(body@) is Some,
            decoded matches Ok(distribution) ==> decoded_ratings(body@) == Some(
                distribution.ratings_view(),
            ),
            decoded matches Err(e) ==> is_malformed_body(e, body@),
    {
        match parse_body(body) {
            Ok(document) => match Self::from_document(&document) {
                Ok(distribution) => Ok(distribution),
                Err(Error::Json(reason)) => Err(malformed_body(reason.as_str(), body)),
                Err(_) => Err(malformed_body("no ratings distribution", body)),
            },
            Err(e) => Err(e),
        }
    }

    /// Reads a ratings distribution from a JSON document.
    #[verifier::loop_isolation(false)]
    pub fn from_document(document: &JsonText) -> (decoded: Result<RatingsDistribution, Error>)
        ensures
            decoded is Ok <==> ratings_in(document@) is Some,
            decoded matches Ok(distribution) ==> ratings_in(document@) == Some(
                distribution.ratings_view(),
            ),
            decoded matches Err(e) ==> e is Json,
    {
        let total_count: i32 = match document.i32_member("totalCount") {
            Some(n) => n,
            None => {
                return Err(invalid("totalCount"));
            },
        };
        let created_at = match document.string_member("createdAt") {
            Some(text) => text,
            None => {
                return Err(invalid("createdAt"));
            },
        };
        let updated_at = match document.string_member("updatedAt") {
            Some(text) => text,
            None => {
                return Err(invalid("updatedAt"));
            },
        };
        let list = match document.member("ratings") {
            Some(list) => list,
            None => {
                return Err(invalid("ratings"));
            },
        };
        let items = match list.elements() {
            Some(items) => items,
            None => {
                return Err(invalid("ratings"));
            },
        };
        let ghost texts = texts_of(items@);
        let mut ratings: Vec<RatingScore> = Vec::new();
        let mut i: usize = 0;
        while i < items.len()
            invariant
                i <= items@.len(),
                texts == texts_of(items@),
                ratings@.len() == i,
                forall|j: int| 0 <= j < i ==> decoded_score(#[trigger] texts[j]) == Some(ratings@[j]),
            decreases items@.len() - i,
        {
            match RatingScore::decode(&items[i]) {
                Some(score) => ratings.push(score),
                None => {
                    assert(decoded_score(texts[i as int]) is None);
                    return Err(invalid("ratings"));
                },
            }
            i += 1;
        }
        assert(decoded_scores(texts) == Some(ratings@));
        Ok(RatingsDistribution { total_count, created_at, updated_at, ratings })
    }
}

} // verus!
