use record_randomiser::error::RollError;
use record_randomiser::json::Json;
use record_randomiser::release::{
    image_request, image_uri_from_response, primary_image_uri, release_request, Request,
    AUTHORIZATION_PREFIX, BASE_DISCOGS_URL, USER_AGENT,
};

fn release_with_images(images: Json) -> Json {
    Json::Object(vec![
        ("id".to_string(), Json::Number("1".to_string())),
        ("images".to_string(), images),
    ])
}

fn image(uri: Json) -> Json {
    Json::Object(vec![("type".to_string(), Json::Text("primary".to_string())), ("uri".to_string(), uri)])
}

#[test]
fn the_fixed_texts() {
    assert_eq!(BASE_DISCOGS_URL, "https://api.discogs.com/releases");
    assert_eq!(USER_AGENT, "RustRecordRandomiser/0.1 +https://frippertronics.com");
    assert_eq!(AUTHORIZATION_PREFIX, "Authorization: Discogs token=");
}

#[test]
fn the_release_request_names_release_and_token() {
    let request = release_request("249504", "t0ken");
    assert_eq!(
        request,
        Request {
            url: "https://api.discogs.com/releases/249504".to_string(),
            headers: vec!["Authorization: Discogs token=t0ken".to_string()],
            user_agent: "RustRecordRandomiser/0.1 +https://frippertronics.com".to_string(),
        }
    );
}

#[test]
fn the_release_request_of_empty_texts() {
    let request = release_request("", "");
    assert_eq!(request.url, "https://api.discogs.com/releases/");
    assert_eq!(request.headers, vec!["Authorization: Discogs token=".to_string()]);
}

#[test]
fn the_image_request_carries_no_header() {
    let request = image_request("https://i.discogs.com/cover.jpg");
    assert_eq!(
        request,
        Request {
            url: "https://i.discogs.com/cover.jpg".to_string(),
            headers: Vec::new(),
            user_agent: "RustRecordRandomiser/0.1 +https://frippertronics.com".to_string(),
        }
    );
}

#[test]
fn the_first_image_is_the_primary_one() {
    let doc = release_with_images(Json::Array(vec![
        image(Json::Text("https://i.discogs.com/first.jpg".to_string())),
        image(Json::Text("https://i.discogs.com/second.jpg".to_string())),
    ]));
    assert_eq!(primary_image_uri(&doc), Ok("https://i.discogs.com/first.jpg".to_string()));
}

#[test]
fn an_empty_list_of_images_is_no_image() {
    let doc = release_with_images(Json::Array(Vec::new()));
    assert_eq!(primary_image_uri(&doc), Err(RollError::NoImage));
}

#[test]
fn a_release_without_images_is_no_image() {
    let doc = Json::Object(vec![("id".to_string(), Json::Number("1".to_string()))]);
    assert_eq!(primary_image_uri(&doc), Err(RollError::NoImage));
    assert_eq!(primary_image_uri(&Json::Object(Vec::new())), Err(RollError::NoImage));
    assert_eq!(primary_image_uri(&Json::Null), Err(RollError::NoImage));
    assert_eq!(primary_image_uri(&Json::Array(Vec::new())), Err(RollError::NoImage));
}

#[test]
fn images_that_are_no_list_are_no_image() {
    let doc = release_with_images(Json::Text("https://i.discogs.com/first.jpg".to_string()));
    assert_eq!(primary_image_uri(&doc), Err(RollError::NoImage));
    let doc = release_with_images(image(Json::Text("https://i.discogs.com/first.jpg".to_string())));
    assert_eq!(primary_image_uri(&doc), Err(RollError::NoImage));
    let doc = release_with_images(Json::Null);
    assert_eq!(primary_image_uri(&doc), Err(RollError::NoImage));
}

#[test]
fn an_address_that_is_no_string_is_no_image() {
    for uri in [Json::Null, Json::Number("5".to_string()), Json::Bool(true), Json::Array(Vec::new())] {
        let doc = release_with_images(Json::Array(vec![image(uri)]));
        assert_eq!(primary_image_uri(&doc), Err(RollError::NoImage));
    }
}

#[test]
fn a_first_image_without_address_is_no_image() {
    let doc = release_with_images(Json::Array(vec![
        Json::Object(vec![("type".to_string(), Json::Text("primary".to_string()))]),
        image(Json::Text("https://i.discogs.com/second.jpg".to_string())),
    ]));
    assert_eq!(primary_image_uri(&doc), Err(RollError::NoImage));
    let doc = release_with_images(Json::Array(vec![Json::Text("x".to_string())]));
    assert_eq!(primary_image_uri(&doc), Err(RollError::NoImage));
}

#[test]
fn response_with_empty_images_signals_no_image() {
    let body = b"{\"id\": 249504, \"title\": \"Tago Mago\", \"images\": []}";
    assert_eq!(image_uri_from_response(body), Err(RollError::NoImage));
}

#[test]
fn response_with_a_literal_uri_returns_exactly_that_string() {
    let body = b"{\"id\": 249504, \"images\": [{\"type\": \"primary\", \"uri\": \"https://i.discogs.com/R-249504.jpeg\", \"width\": 600}, {\"uri\": \"https://i.discogs.com/other.jpeg\"}]}";
    assert_eq!(image_uri_from_response(body), Ok("https://i.discogs.com/R-249504.jpeg".to_string()));
    let body = b"{\"images\": [{\"uri\": \"\"}]}";
    assert_eq!(image_uri_from_response(body), Ok(String::new()));
    let body = "{\"images\": [{\"uri\": \"caf\\u00e9 \\\"x\\\" \u{1F3B5}\"}]}";
    assert_eq!(image_uri_from_response(body.as_bytes()), Ok("caf\u{e9} \"x\" \u{1F3B5}".to_string()));
}

#[test]
fn response_with_a_uri_that_is_no_string_signals_no_image() {
    assert_eq!(image_uri_from_response(b"{\"images\": [{\"uri\": 17}]}"), Err(RollError::NoImage));
    assert_eq!(image_uri_from_response(b"{\"images\": [{\"uri\": null}]}"), Err(RollError::NoImage));
    assert_eq!(image_uri_from_response(b"{\"images\": [{}]}"), Err(RollError::NoImage));
    assert_eq!(image_uri_from_response(b"{\"message\": \"Release not found.\"}"), Err(RollError::NoImage));
    assert_eq!(image_uri_from_response(b"[]"), Err(RollError::NoImage));
}

#[test]
fn response_that_is_no_json_is_malformed() {
    assert_eq!(image_uri_from_response(b""), Err(RollError::MalformedResponse));
    assert_eq!(image_uri_from_response(b"<html>"), Err(RollError::MalformedResponse));
    assert_eq!(
        image_uri_from_response(b"{\"images\": [{\"uri\": \"x\"}"),
        Err(RollError::MalformedResponse)
    );
}

#[test]
fn the_lookup_agrees_with_indexing_the_parsed_value() {
    let texts: [&str; 12] = [
        "{\"images\": [{\"uri\": \"https://i.discogs.com/a.jpg\"}]}",
        "{\"images\": [{\"uri\": \"first\"}, {\"uri\": \"second\"}]}",
        "{\"images\": [{\"uri\": \"first\", \"uri\": \"again\"}]}",
        "{\"images\": [], \"uri\": \"outside\"}",
        "{\"images\": {\"0\": {\"uri\": \"in an object\"}}}",
        "{\"images\": [[{\"uri\": \"nested\"}]]}",
        "{\"images\": [{\"uri\": [\"listed\"]}]}",
        "{\"images\": [{\"URI\": \"other case\"}]}",
        "{\"Images\": [{\"uri\": \"other case\"}]}",
        "[{\"uri\": \"no object\"}]",
        "\"images\"",
        "null",
    ];
    for text in texts {
        let value: serde_json::Value = serde_json::from_slice(text.as_bytes()).expect("valid JSON");
        let indexed = value["images"][0]["uri"].as_str().map(|s| s.to_string());
        let found = image_uri_from_response(text.as_bytes());
        match indexed {
            Some(uri) => assert_eq!(found, Ok(uri), "for {}", text),
            None => assert_eq!(found, Err(RollError::NoImage), "for {}", text),
        }
    }
}
