//! The answers of the upstream service and how they are read from the
//! body of a response.

use crate::error::Error;
use crate::models::payload::{
    json_compact, json_elements, json_i32_member, json_member, json_string_member, texts_of,
    JsonText,
};
use crate::text::{lossy_text, utf8_lossy};
use vstd::prelude::*;

verus! {

/// One entry of a listing page: the key of a vendor.
#[derive(Debug)]
pub struct VendorItem {
    pub code: String,
}

/// A listing page: the keys it holds, how many it returned, and how many
/// the listing has in all.
#[derive(Debug)]
pub struct VendorData {
    pub items: Vec<VendorItem>,
    pub returned_count: i32,
    pub available_count: i32,
}

/// The envelope of a listing page.
#[derive(Debug)]
pub struct VendorListResponse {
    pub data: VendorData,
}

/// The envelope of a vendor's detail payload.
#[derive(Debug)]
pub struct VendorDetailResponse {
    pub data: JsonText,
}

/// The envelope of a vendor's reviews.
#[derive(Debug)]
pub struct ReviewsResponse {
    pub data: Vec<JsonText>,
}

/// What a listing page says: the keys in the order of the page, and the
/// two counts.
pub struct Page {
    pub codes: Seq<Seq<char>>,
    pub returned_count: i32,
    pub available_count: i32,
}

/// The keys of the entries of a page, where every entry has one.
pub open spec fn item_codes(items: Seq<Seq<char>>) -> Option<Seq<Seq<char>>> {
    if forall|i: int|
        0 <= i < items.len() ==> json_string_member(#[trigger] items[i], "code"@) is Some {
        Some(Seq::new(items.len(), |i: int| json_string_member(items[i], "code"@).unwrap()))
    } else {
        None
    }
}

/// The page that a body spells: a JSON object whose member `data` holds the
/// entries under `items`, each with a string `code`, and the two counts as
/// integers of 32 bits under `returned_count` and `available_count`.
pub open spec fn decoded_page(body: Seq<u8>) -> Option<Page> {
    match json_compact(body) {
        None => None,
        Some(document) => match json_member(document, "data"@) {
            None => None,
            Some(data) => match (
                json_member(data, "items"@),
                json_i32_member(data, "returned_count"@),
                json_i32_member(data, "available_count"@),
            ) {
                (Some(items), Some(returned_count), Some(available_count)) => match json_elements(
                    items,
                ) {
                    None => None,
                    Some(entries) => match item_codes(entries) {
                        None => None,
                        Some(codes) => Some(Page { codes, returned_count, available_count }),
                    },
                },
                _ => None,
            },
        },
    }
}

/// The detail payload that a body spells: the member `data` of a JSON
/// object, whatever it holds.
pub open spec fn decoded_details(body: Seq<u8>) -> Option<Seq<char>> {
    match json_compact(body) {
        None => None,
        Some(document) => json_member(document, "data"@),
    }
}

/// The reviews that a body spells: the elements of the array under the
/// member `data` of a JSON object.
pub open spec fn decoded_reviews(body: Seq<u8>) -> Option<Seq<Seq<char>>> {
    match json_compact(body) {
        None => None,
        Some(document) => match json_member(document, "data"@) {
            None => None,
            Some(data) => json_elements(data),
        },
    }
}

/// Whether a failure is that of a body which does not spell what it
/// should: a JSON error whose words end with the raw body.
pub open spec fn is_malformed_body(failure: Error, body: Seq<u8>) -> bool {
    &&& failure matches Error::Json(words)
    &&& exists|reason: Seq<char>| words@ == #[trigger] (reason + " in body: "@ + utf8_lossy(body))
}

/// The failure of a body that does not spell what it should, with the reason
/// and the raw body.
pub fn malformed_body(reason: &str, body: &[u8]) -> (failure: Error)
    ensures
        is_malformed_body(failure, body@),
        failure matches Error::Json(words) && words@ == reason@ + " in body: "@ + utf8_lossy(
            body@,
        ),
{
    let mut words = String::from_str(reason);
    words.append(" in body: ");
    let raw = lossy_text(body);
    words.append(raw.as_str());
    Error::Json(words)
}

/// The failure of a body in which a member is missing or is not what it
/// should be.
pub fn missing_in_body(what: &str, body: &[u8]) -> (failure: Error)
    ensures
        is_malformed_body(failure, body@),
{
    let mut reason = String::from_str("missing or invalid field `");
    reason.append(what);
    reason.append("`");
    malformed_body(reason.as_str(), body)
}

/// Reads the JSON document that a body spells.
pub fn parse_body(body: &[u8]) -> (parsed: Result<JsonText, Error>)
    ensures
        parsed is Ok <==> json_compact(body@) is Some,
        parsed matches Ok(document) ==> json_compact(body@) == Some(document@),
        parsed matches Err(e) ==> is_malformed_body(e, body@),
{
    match JsonText::parse(body) {
        Ok(document) => Ok(document),
        Err(Error::Json(reason)) => Err(malformed_body(reason.as_str(), body)),
        Err(_) => Err(malformed_body("no JSON document", body)),
    }
}

impl VendorData {
    /// The keys of the page, in the order of the page.
    pub open spec fn codes(self) -> Seq<Seq<char>> {
        Seq::new(self.items@.len(), |i: int| self.items@[i].code@)
    }
}

impl VendorListResponse {
    /// What the page says.
    pub open spec fn page(self) -> Page {
        Page {
            codes: self.data.codes(),
            returned_count: self.data.returned_count,
            available_count: self.data.available_count,
        }
    }

    /// Reads a listing page from the body of a response. A body that does
    /// not spell a page is reported as a JSON error.
    #[verifier::loop_isolation(false)]
    pub fn decode(body: &[u8]) -> (decoded: Result<VendorListResponse, Error>)
        ensures
            decoded is Ok <==> decoded_page(body@) is Some,
            decoded matches Ok(response) ==> decoded_page(body@) == Some(response.page()),
            decoded matches Err(e) ==> is_malformed_body(e, body@),
    {
        let document = match parse_body(body) {
            Ok(document) => document,
            Err(e) => {
                return Err(e);
            },
        };
        let data = match document.member("data") {
            Some(data) => data,
            None => {
                return Err(missing_in_body("data", body));
            },
        };
        let items = match data.member("items") {
            Some(items) => items,
            None => {
                return Err(missing_in_body("items", body));
            },
        };
        let returned_count: i32 = match data.i32_member("returned_count") {
            Some(n) => n,
            None => {
                return Err(missing_in_body("returned_count", body));
            },
        };
        let available_count: i32 = match data.i32_member("available_count") {
            Some(n) => n,
            None => {
                return Err(missing_in_body("available_count", body));
            },
        };
        let entries = match items.elements() {
            Some(entries) => entries,
            None => {
                return Err(missing_in_body("items", body));
            },
        };
        let ghost texts = texts_of(entries@);
        let mut found: Vec<VendorItem> = Vec::new();
        let mut i: usize = 0;
        while i < entries.len()
            invariant
                i <= entries@.len(),
                texts == texts_of(entries@),
                found@.len() == i,
                forall|j: int|
                    0 <= j < i ==> json_string_member(#[trigger] texts[j], "code"@) == Some(
                        found@[j].code@,
                    ),
            decreases entries@.len() - i,
        {
            match entries[i].string_member("code") {
                Some(code) => found.push(VendorItem { code }),
                None => {
                    assert(json_string_member(texts[i as int], "code"@) is None);
                    return Err(missing_in_body("code", body));
                },
            }
            i += 1;
        }
        let response = VendorListResponse {
            data: VendorData { items: found, returned_count, available_count },
        };
        assert(item_codes(texts) == Some(response.data.codes()));
        Ok(response)
    }

    /// Hands out the keys of the page, in the order of the page.
    pub fn into_codes(self) -> (codes: Vec<String>)
        ensures
            codes@.len() == self.data.items@.len(),
            forall|i: int| 0 <= i < codes@.len() ==> codes@[i]@ == #[trigger] self.data.codes()[i],
    {
        let items = self.data.items;
        let mut codes: Vec<String> = Vec::new();
        let mut i: usize = 0;
        while i < items.len()
            invariant
                i <= items@.len(),
                codes@.len() == i,
                forall|j: int| 0 <= j < i ==> codes@[j]@ == #[trigger] items@[j].code@,
            decreases items@.len() - i,
        {
            codes.push(items[i].code.clone());
            i += 1;
        }
        codes
    }
}

impl VendorDetailResponse {
    /// Reads the detail payload of a vendor from the body of a response.
    pub fn decode(body: &[u8]) -> (decoded: Result<VendorDetailResponse, Error>)
        ensures
            decoded is Ok <==> decoded_details(body@) is Some,
            decoded matches Ok(response) ==> decoded_details(body@) == Some(response.data@),
            decoded matches Err(e) ==> is_malformed_body(e, body@),
    {
        let document = match parse_body(body) {
            Ok(document) => document,
            Err(e) => {
                return Err(e);
            },
        };
        match document.member("data") {
            Some(data) => Ok(VendorDetailResponse { data }),
            None => Err(missing_in_body("data", body)),
        }
    }
}

impl ReviewsResponse {
    /// Reads the reviews of a vendor from the body of a response.
    pub fn decode(body: &[u8]) -> (decoded: Result<ReviewsResponse, Error>)
        ensures
            decoded is Ok <==> decoded_reviews(body@) is Some,
            decoded matches Ok(response) ==> decoded_reviews(body@) == Some(
                texts_of(response.data@),
            ),
            decoded matches Err(e) ==> is_malformed_body(e, body@),
    {
        let document = match parse_body(body) {
            Ok(document) => document,
            Err(e) => {
                return Err(e);
            },
        };
        let data = match document.member("data") {
            Some(data) => data,
            None => {
                return Err(missing_in_body("data", body));
            },
        };
        match data.elements() {
            Some(reviews) => Ok(ReviewsResponse { data: reviews }),
            None => Err(missing_in_body("data", body)),
        }
    }
}

} // verus!
