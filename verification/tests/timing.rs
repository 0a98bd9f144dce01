use http::header::{HeaderMap, HeaderName, HeaderValue};
use macro_toolset::string::{NumStr, StringExtT};
use server_timing::{
    read_existing, record, write_header, HeaderWriteRejected, ServerTimingLayer, SERVER_TIMING,
};

fn values_of(headers: &HeaderMap, name: &str) -> Vec<Vec<u8>> {
    headers
        .get_all(name)
        .iter()
        .map(|v| v.as_bytes().to_vec())
        .collect()
}

fn full_map() -> HeaderMap {
    // The largest table a map can have holds 24576 names.
    let mut headers = HeaderMap::new();
    for i in 0..24576u32 {
        let name = HeaderName::from_bytes(format!("x-{i}").as_bytes()).unwrap();
        headers.insert(name, HeaderValue::from_static("v"));
    }
    headers
}

#[test]
fn header_name_is_server_timing() {
    assert_eq!(SERVER_TIMING, "server-timing");
}

#[test]
fn first_entry_on_empty_headers() {
    let mut headers = HeaderMap::new();
    let layer = ServerTimingLayer::new("svc1");
    assert_eq!(record(&mut headers, &layer, "123.4"), Ok(()));
    assert_eq!(headers.len(), 1);
    assert_eq!(headers.get("server-timing").unwrap(), "svc1;dur=123.4");
}

#[test]
fn first_entry_with_description() {
    let mut headers = HeaderMap::new();
    let layer = ServerTimingLayer::new("svc1").with_description("desc1");
    assert_eq!(record(&mut headers, &layer, "0.0"), Ok(()));
    let hdr = headers.get("server-timing").unwrap().to_str().unwrap();
    assert_eq!(hdr, "svc1;desc=\"desc1\";dur=0.0");
    assert!(hdr.contains("desc=\"desc1\""));
}

#[test]
fn elapsed_time_is_read_back_from_header() {
    let elapsed: f32 = 123.456;
    let dur = NumStr::new_default(elapsed).to_string_ext();
    let mut headers = HeaderMap::new();
    assert_eq!(record(&mut headers, &ServerTimingLayer::new("svc1"), &dur), Ok(()));
    let hdr = headers.get("server-timing").unwrap().to_str().unwrap();
    assert!(hdr.starts_with("svc1;dur="));
    let val: f32 = hdr[9..].parse().unwrap();
    assert!((100f32..300f32).contains(&val));
    assert_eq!(hdr, "svc1;dur=123.456");
}

#[test]
fn whole_milliseconds_keep_one_fractional_digit() {
    let dur = NumStr::new_default(250f32).to_string_ext();
    assert_eq!(dur, "250.0");
    let zero = NumStr::new_default(0f32).to_string_ext();
    assert_eq!(zero, "0.0");
    let tenth = NumStr::new_default(0.1f32).to_string_ext();
    assert_eq!(tenth, "0.1");
    let large = NumStr::new_default(12345678f32).to_string_ext();
    assert_eq!(large, "12345678.0");
    let again = NumStr::new_default(250f32).to_string_ext();
    assert_eq!(dur, again);
}

#[test]
fn existing_header_is_kept_after_new_entry() {
    let mut headers = HeaderMap::new();
    headers.insert("server-timing", HeaderValue::from_static("inner;dur=23"));
    headers.insert("content-type", HeaderValue::from_static("text/plain"));
    let layer = ServerTimingLayer::new("svc1");
    assert_eq!(record(&mut headers, &layer, "100.5"), Ok(()));
    let hdr = headers.get("server-timing").unwrap().to_str().unwrap();
    assert_eq!(hdr, "svc1;dur=100.5, inner;dur=23");
    assert!(hdr.contains("svc1"));
    assert!(hdr.contains("inner"));
    assert!(hdr.find("svc1").unwrap() < hdr.find("inner").unwrap());
    // nothing else is touched
    assert_eq!(headers.len(), 2);
    assert_eq!(headers.get("content-type").unwrap(), "text/plain");
}

#[test]
fn empty_existing_header_still_gets_separator() {
    let mut headers = HeaderMap::new();
    headers.insert("server-timing", HeaderValue::from_static(""));
    assert_eq!(record(&mut headers, &ServerTimingLayer::new("svc1"), "1.0"), Ok(()));
    assert_eq!(headers.get("server-timing").unwrap(), "svc1;dur=1.0, ");
}

#[test]
fn outer_layers_come_first() {
    let mut headers = HeaderMap::new();
    let inner = ServerTimingLayer::new("db").with_description("query");
    let middle = ServerTimingLayer::new("cache");
    let outer = ServerTimingLayer::new("total");
    assert_eq!(record(&mut headers, &inner, "8.1"), Ok(()));
    assert_eq!(record(&mut headers, &middle, "9.0"), Ok(()));
    assert_eq!(record(&mut headers, &outer, "12.3"), Ok(()));
    assert_eq!(
        headers.get("server-timing").unwrap(),
        "total;dur=12.3, cache;dur=9.0, db;desc=\"query\";dur=8.1"
    );
    assert_eq!(values_of(&headers, "server-timing").len(), 1);
}

#[test]
fn only_first_of_several_values_is_kept() {
    let mut headers = HeaderMap::new();
    headers.append("server-timing", HeaderValue::from_static("a;dur=1"));
    headers.append("server-timing", HeaderValue::from_static("b;dur=2"));
    assert_eq!(read_existing(&headers), Some("a;dur=1"));
    assert_eq!(record(&mut headers, &ServerTimingLayer::new("svc1"), "3.0"), Ok(()));
    assert_eq!(
        values_of(&headers, "server-timing"),
        vec![b"svc1;dur=3.0, a;dur=1".to_vec()]
    );
}

#[test]
fn read_existing_absent() {
    let mut headers = HeaderMap::new();
    assert_eq!(read_existing(&headers), None);
    headers.insert("x-other", HeaderValue::from_static("inner;dur=23"));
    assert_eq!(read_existing(&headers), None);
}

#[test]
fn read_existing_present() {
    let mut headers = HeaderMap::new();
    headers.insert("x-other", HeaderValue::from_static("zzz"));
    headers.insert("server-timing", HeaderValue::from_static("inner;dur=23"));
    assert_eq!(read_existing(&headers), Some("inner;dur=23"));
}

#[test]
fn read_existing_with_tab_and_space() {
    let mut headers = HeaderMap::new();
    headers.insert("server-timing", HeaderValue::from_static("a;dur=1,\t b;dur=2"));
    assert_eq!(read_existing(&headers), Some("a;dur=1,\t b;dur=2"));
}

#[test]
fn opaque_existing_value_has_no_text() {
    let mut headers = HeaderMap::new();
    headers.insert(
        "server-timing",
        HeaderValue::from_bytes(b"inner\xfa;dur=23").unwrap(),
    );
    assert_eq!(read_existing(&headers), None);
    assert_eq!(record(&mut headers, &ServerTimingLayer::new("svc1"), "5.0"), Ok(()));
    assert_eq!(
        values_of(&headers, "server-timing"),
        vec![b"svc1;dur=5.0".to_vec()]
    );
}

#[test]
fn control_character_in_name_leaves_absent_header_absent() {
    let mut headers = HeaderMap::new();
    headers.insert("content-length", HeaderValue::from_static("0"));
    let layer = ServerTimingLayer::new("svc\n1");
    assert_eq!(
        record(&mut headers, &layer, "1.0"),
        Err(HeaderWriteRejected::IllegalValue)
    );
    assert!(headers.get("server-timing").is_none());
    assert_eq!(headers.len(), 1);
    assert_eq!(headers.get("content-length").unwrap(), "0");
}

#[test]
fn control_character_in_name_leaves_present_header_unchanged() {
    let mut headers = HeaderMap::new();
    headers.append("server-timing", HeaderValue::from_static("inner;dur=23"));
    headers.append("server-timing", HeaderValue::from_static("other;dur=1"));
    let layer = ServerTimingLayer::new("svc\u{0}1");
    assert_eq!(
        record(&mut headers, &layer, "1.0"),
        Err(HeaderWriteRejected::IllegalValue)
    );
    assert_eq!(
        values_of(&headers, "server-timing"),
        vec![b"inner;dur=23".to_vec(), b"other;dur=1".to_vec()]
    );
}

#[test]
fn control_character_in_description_or_duration_is_rejected() {
    let mut headers = HeaderMap::new();
    let layer = ServerTimingLayer::new("svc1").with_description("a\rb");
    assert_eq!(
        record(&mut headers, &layer, "1.0"),
        Err(HeaderWriteRejected::IllegalValue)
    );
    assert_eq!(
        record(&mut headers, &ServerTimingLayer::new("svc1"), "1.0\u{7f}"),
        Err(HeaderWriteRejected::IllegalValue)
    );
    assert!(headers.is_empty());
}

#[test]
fn tab_and_non_ascii_text_are_written() {
    let mut headers = HeaderMap::new();
    let layer = ServerTimingLayer::new("caf\u{e9}").with_description("a\tb");
    assert_eq!(record(&mut headers, &layer, "1.0"), Ok(()));
    assert_eq!(
        values_of(&headers, "server-timing"),
        vec!["caf\u{e9};desc=\"a\tb\";dur=1.0".as_bytes().to_vec()]
    );
    // what was written is not visible ASCII, so it has no text for an outer layer
    assert_eq!(read_existing(&headers), None);
}

#[test]
fn write_header_replaces_all_values() {
    let mut headers = HeaderMap::new();
    headers.append("server-timing", HeaderValue::from_static("a"));
    headers.append("server-timing", HeaderValue::from_static("b"));
    headers.append("x-other", HeaderValue::from_static("c"));
    assert_eq!(write_header(&mut headers, "new"), Ok(()));
    assert_eq!(values_of(&headers, "server-timing"), vec![b"new".to_vec()]);
    assert_eq!(values_of(&headers, "x-other"), vec![b"c".to_vec()]);
}

#[test]
fn write_header_rejects_illegal_text() {
    let mut headers = HeaderMap::new();
    headers.insert("server-timing", HeaderValue::from_static("old"));
    assert_eq!(
        write_header(&mut headers, "line\nbreak"),
        Err(HeaderWriteRejected::IllegalValue)
    );
    assert_eq!(
        write_header(&mut headers, "\u{1f}"),
        Err(HeaderWriteRejected::IllegalValue)
    );
    assert_eq!(headers.get("server-timing").unwrap(), "old");
    assert_eq!(write_header(&mut headers, ""), Ok(()));
    assert_eq!(headers.get("server-timing").unwrap(), "");
}

#[test]
fn full_map_refuses_new_header() {
    let mut headers = full_map();
    let before = headers.len();
    let layer = ServerTimingLayer::new("svc1");
    assert_eq!(
        record(&mut headers, &layer, "1.0"),
        Err(HeaderWriteRejected::CapacityExceeded)
    );
    assert_eq!(headers.len(), before);
    assert!(headers.get("server-timing").is_none());
    assert_eq!(headers.get("x-0").unwrap(), "v");
    assert_eq!(headers.get("x-24575").unwrap(), "v");
}

#[test]
fn illegal_text_is_reported_before_capacity() {
    let mut headers = full_map();
    assert_eq!(
        write_header(&mut headers, "a\nb"),
        Err(HeaderWriteRejected::IllegalValue)
    );
    assert_eq!(headers.len(), 24576);
}
