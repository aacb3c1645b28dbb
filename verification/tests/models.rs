use foodpanda_etl::error::Error;
use foodpanda_etl::models::payload::{push_documents, push_quoted};
use foodpanda_etl::models::{
    JsonText, RatingScore, RatingsDistribution, Vendor, VendorData, VendorItem, VendorListResponse,
};

fn doc(text: &str) -> JsonText {
    JsonText::parse(text.as_bytes()).unwrap()
}

#[test]
fn documents_are_held_in_compact_form() {
    let parsed = doc(" { \"name\" : \"KFC\" ,\n \"tags\" : [ 1 , 2 ] } ");
    assert_eq!(parsed.as_str(), "{\"name\":\"KFC\",\"tags\":[1,2]}");
    assert_eq!(doc("null").as_str(), "null");
    assert_eq!(doc("\"a\\nb\"").as_str(), "\"a\\nb\"");
}

#[test]
fn malformed_bodies_are_json_errors() {
    for body in [&b""[..], b"{", b"{\"a\":}", b"[1,2] trailing", b"\xff"] {
        match JsonText::parse(body) {
            Err(Error::Json(reason)) => assert!(!reason.is_empty()),
            other => panic!("unexpected result {:?}", other),
        }
    }
}

#[test]
fn string_members_are_found_by_key() {
    let details = doc("{\"name\":\"Burger Lab\",\"rating\":4.5,\"chain\":{\"name\":\"BL\"}}");
    assert_eq!(details.string_member("name"), Some("Burger Lab".to_string()));
    assert_eq!(details.string_member("rating"), None);
    assert_eq!(details.string_member("chain"), None);
    assert_eq!(details.string_member("missing"), None);
    assert_eq!(doc("[\"name\"]").string_member("name"), None);
    assert_eq!(doc("{\"name\":\"\"}").string_member("name"), Some(String::new()));
}

#[test]
fn strings_are_quoted_as_json() {
    let mut out = String::from("x=");
    push_quoted(&mut out, "a\"b\\c\n\u{1}é");
    assert_eq!(out, "x=\"a\\\"b\\\\c\\n\\u0001é\"");
    let mut empty = String::new();
    push_quoted(&mut empty, "");
    assert_eq!(empty, "\"\"");
}

#[test]
fn documents_are_listed_as_an_array() {
    let mut none = String::new();
    push_documents(&mut none, &vec![]);
    assert_eq!(none, "[]");
    let mut one = String::new();
    push_documents(&mut one, &vec![doc("{\"a\":1}")]);
    assert_eq!(one, "[{\"a\":1}]");
    let mut three = String::from(">");
    push_documents(&mut three, &vec![doc("1"), doc("\"two\""), doc("[3]")]);
    assert_eq!(three, ">[1,\"two\",[3]]");
}

fn ratings() -> RatingsDistribution {
    RatingsDistribution {
        total_count: 12,
        created_at: "2025-01-01T00:00:00Z".to_string(),
        updated_at: "2025-03-12T21:49:20Z".to_string(),
        ratings: vec![
            RatingScore { count: 2, percentage: 17, score: 1 },
            RatingScore { count: 10, percentage: 83, score: 5 },
        ],
    }
}

#[test]
fn ratings_are_written_under_the_upstream_names() {
    assert_eq!(
        ratings().to_json(),
        "{\"totalCount\":12,\"createdAt\":\"2025-01-01T00:00:00Z\",\"updatedAt\":\"2025-03-12T21:49:20Z\",\"ratings\":[{\"count\":2,\"percentage\":17,\"score\":1},{\"count\":10,\"percentage\":83,\"score\":5}]}"
    );
    let empty = RatingsDistribution {
        total_count: -1,
        created_at: String::new(),
        updated_at: "\"".to_string(),
        ratings: vec![],
    };
    assert_eq!(
        empty.to_json(),
        "{\"totalCount\":-1,\"createdAt\":\"\",\"updatedAt\":\"\\\"\",\"ratings\":[]}"
    );
}

#[test]
fn full_record_is_written_with_all_members() {
    let vendor = Vendor {
        code: "s1ab".to_string(),
        name: "Savour \"Foods\"".to_string(),
        details: Some(doc("{\"name\":\"Savour\"}")),
        batch_number: 2,
        reviews: Some(vec![doc("{\"text\":\"good\"}"), doc("{\"text\":\"bad\"}")]),
        ratings: Some(ratings()),
        extraction_started_at: 1741816160,
        extraction_completed_at: 1741816165,
    };
    let text = vendor.to_json();
    assert_eq!(
        text,
        "{\"code\":\"s1ab\",\"name\":\"Savour \\\"Foods\\\"\",\"details\":{\"name\":\"Savour\"},\"batch_number\":2,\"reviews\":[{\"text\":\"good\"},{\"text\":\"bad\"}],\"ratings\":{\"totalCount\":12,\"createdAt\":\"2025-01-01T00:00:00Z\",\"updatedAt\":\"2025-03-12T21:49:20Z\",\"ratings\":[{\"count\":2,\"percentage\":17,\"score\":1},{\"count\":10,\"percentage\":83,\"score\":5}]},\"extraction_started_at\":1741816160,\"extraction_completed_at\":1741816165}"
    );
    let value: serde_json::Value = serde_json::from_str(&text).unwrap();
    assert_eq!(value.get("code").and_then(|v| v.as_str()), Some("s1ab"));
    assert_eq!(value.get("name").and_then(|v| v.as_str()), Some("Savour \"Foods\""));
    assert_eq!(value.get("batch_number").and_then(|v| v.as_i64()), Some(2));
    assert_eq!(value.get("reviews").and_then(|v| v.as_array()).map(|a| a.len()), Some(2));
    assert_eq!(
        value.get("ratings").and_then(|r| r.get("totalCount")).and_then(|v| v.as_i64()),
        Some(12)
    );
    assert_eq!(value.get("extraction_completed_at").and_then(|v| v.as_i64()), Some(1741816165));
    assert_eq!(vendor.details_json(), Some("{\"name\":\"Savour\"}".to_string()));
    assert_eq!(
        vendor.reviews_json(),
        Some("[{\"text\":\"good\"},{\"text\":\"bad\"}]".to_string())
    );
    assert_eq!(vendor.ratings_json(), Some(ratings().to_json()));
}

#[test]
fn absent_payloads_are_written_as_null() {
    let vendor = Vendor {
        code: "V9".to_string(),
        name: "Unknown".to_string(),
        details: None,
        batch_number: 1,
        reviews: None,
        ratings: None,
        extraction_started_at: -5,
        extraction_completed_at: 0,
    };
    assert_eq!(
        vendor.to_json(),
        "{\"code\":\"V9\",\"name\":\"Unknown\",\"details\":null,\"batch_number\":1,\"reviews\":null,\"ratings\":null,\"extraction_started_at\":-5,\"extraction_completed_at\":0}"
    );
    assert_eq!(vendor.details_json(), None);
    assert_eq!(vendor.reviews_json(), None);
    assert_eq!(vendor.ratings_json(), None);
}

#[test]
fn page_hands_out_its_codes_in_order() {
    let page = VendorListResponse {
        data: VendorData {
            items: vec![
                VendorItem { code: "b".to_string() },
                VendorItem { code: "a".to_string() },
                VendorItem { code: "b".to_string() },
            ],
            returned_count: 3,
            available_count: 3,
        },
    };
    assert_eq!(page.into_codes(), vec!["b".to_string(), "a".to_string(), "b".to_string()]);
    let empty = VendorListResponse {
        data: VendorData { items: vec![], returned_count: 0, available_count: 0 },
    };
    assert!(empty.into_codes().is_empty());
}
