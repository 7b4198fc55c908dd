use pxshot::{ImageFormat, ScaleFactor, ScreenshotRequest, WaitUntil, WireField, WireValue};

fn keys(fields: &[WireField]) -> Vec<&'static str> {
    let mut names = Vec::new();
    for field in fields {
        names.push(field.key);
    }
    names
}

fn full_request() -> ScreenshotRequest {
    ScreenshotRequest::builder()
        .url("https://example.com/a?b=\"c\"")
        .format(ImageFormat::Jpeg)
        .quality(85)
        .width(1920)
        .height(1080)
        .full_page(true)
        .wait_until(WaitUntil::DomContentLoaded)
        .wait_for_selector("#content > p")
        .wait_for_timeout(2500)
        .device_scale_factor(ScaleFactor { bits: 2.5f32.to_bits() })
        .store(true)
        .block_ads(false)
        .build()
        .unwrap()
}

#[test]
fn payload_of_url_alone_is_exactly_one_entry() {
    let request = ScreenshotRequest::builder().url("https://example.com").build().unwrap();
    let fields = request.payload();
    assert_eq!(fields.len(), 1);
    assert_eq!(fields[0].key, "url");
    assert!(matches!(&fields[0].value, WireValue::Text(text) if text == "https://example.com"));
}

#[test]
fn payload_names_every_field_that_was_set_in_order() {
    let fields = full_request().payload();
    assert_eq!(
        keys(&fields),
        vec![
            "url",
            "format",
            "quality",
            "width",
            "height",
            "full_page",
            "wait_until",
            "wait_for_selector",
            "wait_for_timeout",
            "device_scale_factor",
            "store",
            "block_ads",
        ]
    );
}

#[test]
fn payload_carries_each_value_as_it_was_set() {
    let fields = full_request().payload();
    assert!(matches!(&fields[0].value, WireValue::Text(t) if t == "https://example.com/a?b=\"c\""));
    assert!(matches!(&fields[1].value, WireValue::Text(t) if t == "jpeg"));
    assert!(matches!(fields[2].value, WireValue::Number(85)));
    assert!(matches!(fields[3].value, WireValue::Number(1920)));
    assert!(matches!(fields[4].value, WireValue::Number(1080)));
    assert!(matches!(fields[5].value, WireValue::Flag(true)));
    assert!(matches!(&fields[6].value, WireValue::Text(t) if t == "dom_content_loaded"));
    assert!(matches!(&fields[7].value, WireValue::Text(t) if t == "#content > p"));
    assert!(matches!(fields[8].value, WireValue::Number(2500)));
    assert!(matches!(fields[9].value, WireValue::Scale(s) if f32::from_bits(s.bits) == 2.5));
    assert!(matches!(fields[10].value, WireValue::Flag(true)));
    assert!(matches!(fields[11].value, WireValue::Flag(false)));
}

#[test]
fn payload_has_a_key_only_for_what_was_set() {
    let request = ScreenshotRequest::builder()
        .url("https://example.com")
        .height(600)
        .block_ads(true)
        .build()
        .unwrap();
    assert_eq!(keys(&request.payload()), vec!["url", "height", "block_ads"]);
}

#[test]
fn payload_sends_false_and_zero_when_they_were_set() {
    // A value that equals a likely default is still sent once it was set.
    let request = ScreenshotRequest::builder()
        .url("https://example.com")
        .full_page(false)
        .wait_for_timeout(0)
        .store(false)
        .build()
        .unwrap();
    let fields = request.payload();
    assert_eq!(keys(&fields), vec!["url", "full_page", "wait_for_timeout", "store"]);
    assert!(matches!(fields[1].value, WireValue::Flag(false)));
    assert!(matches!(fields[2].value, WireValue::Number(0)));
    assert!(matches!(fields[3].value, WireValue::Flag(false)));
}

#[test]
fn payload_omits_each_optional_field_on_its_own() {
    let all = [
        "format",
        "quality",
        "width",
        "height",
        "full_page",
        "wait_until",
        "wait_for_selector",
        "wait_for_timeout",
        "device_scale_factor",
        "store",
        "block_ads",
    ];
    for left_out in all {
        let mut request = full_request();
        match left_out {
            "format" => request.format = None,
            "quality" => request.quality = None,
            "width" => request.width = None,
            "height" => request.height = None,
            "full_page" => request.full_page = None,
            "wait_until" => request.wait_until = None,
            "wait_for_selector" => request.wait_for_selector = None,
            "wait_for_timeout" => request.wait_for_timeout = None,
            "device_scale_factor" => request.device_scale_factor = None,
            "store" => request.store = None,
            _ => request.block_ads = None,
        }
        let names = keys(&request.payload());
        assert_eq!(names.len(), 11);
        assert!(!names.contains(&left_out));
        assert!(names.contains(&"url"));
    }
}

#[test]
fn payload_quality_covers_the_whole_byte() {
    let request =
        ScreenshotRequest::builder().url("https://example.com").quality(255).build().unwrap();
    assert!(matches!(request.payload()[1].value, WireValue::Number(255)));
}

#[test]
fn image_format_names_are_lower_case() {
    assert_eq!(ImageFormat::Png.wire_name(), "png");
    assert_eq!(ImageFormat::Jpeg.wire_name(), "jpeg");
    assert_eq!(ImageFormat::Webp.wire_name(), "webp");
}

#[test]
fn wait_until_names_are_snake_case() {
    assert_eq!(WaitUntil::Load.wire_name(), "load");
    assert_eq!(WaitUntil::DomContentLoaded.wire_name(), "dom_content_loaded");
    assert_eq!(WaitUntil::NetworkIdle.wire_name(), "network_idle");
}

#[test]
fn names_read_back_to_what_wrote_them() {
    for format in [ImageFormat::Png, ImageFormat::Jpeg, ImageFormat::Webp] {
        assert_eq!(ImageFormat::from_wire_name(format.wire_name()), Some(format));
    }
    for signal in [WaitUntil::Load, WaitUntil::DomContentLoaded, WaitUntil::NetworkIdle] {
        assert_eq!(WaitUntil::from_wire_name(signal.wire_name()), Some(signal));
    }
}

#[test]
fn other_names_read_back_to_nothing() {
    assert_eq!(ImageFormat::from_wire_name("PNG"), None);
    assert_eq!(ImageFormat::from_wire_name("gif"), None);
    assert_eq!(ImageFormat::from_wire_name(""), None);
    assert_eq!(ImageFormat::from_wire_name("load"), None);
    assert_eq!(WaitUntil::from_wire_name("networkidle"), None);
    assert_eq!(WaitUntil::from_wire_name("DomContentLoaded"), None);
    assert_eq!(WaitUntil::from_wire_name("png"), None);
}

#[test]
fn a_full_request_reads_back_field_for_field() {
    let request = full_request();
    let fields = request.payload();
    let text = |i: usize| match &fields[i].value {
        WireValue::Text(t) => t.clone(),
        other => panic!("expected a text, got {:?}", other),
    };
    let number = |i: usize| match fields[i].value {
        WireValue::Number(n) => n,
        ref other => panic!("expected a number, got {:?}", other),
    };
    let flag = |i: usize| match fields[i].value {
        WireValue::Flag(f) => f,
        ref other => panic!("expected a flag, got {:?}", other),
    };
    assert_eq!(text(0), request.url);
    assert_eq!(ImageFormat::from_wire_name(&text(1)), request.format);
    assert_eq!(Some(number(2)), request.quality.map(u32::from));
    assert_eq!(Some(number(3)), request.width);
    assert_eq!(Some(number(4)), request.height);
    assert_eq!(Some(flag(5)), request.full_page);
    assert_eq!(WaitUntil::from_wire_name(&text(6)), request.wait_until);
    assert_eq!(Some(text(7)), request.wait_for_selector);
    assert_eq!(Some(number(8)), request.wait_for_timeout);
    assert!(matches!(fields[9].value, WireValue::Scale(s) if Some(s) == request.device_scale_factor));
    assert_eq!(Some(flag(10)), request.store);
    assert_eq!(Some(flag(11)), request.block_ads);
}

/// The JSON object that a transport writes for a payload: the entries in
/// order, each value written by serde_json.
fn json_text(fields: &[WireField]) -> String {
    let mut text = String::from("{");
    for (i, field) in fields.iter().enumerate() {
        if i > 0 {
            text.push(',');
        }
        text.push_str(&serde_json::to_string(field.key).unwrap());
        text.push(':');
        let value = match &field.value {
            WireValue::Text(t) => serde_json::to_string(t).unwrap(),
            WireValue::Number(n) => serde_json::to_string(n).unwrap(),
            WireValue::Flag(f) => serde_json::to_string(f).unwrap(),
            WireValue::Scale(s) => serde_json::to_string(&f32::from_bits(s.bits)).unwrap(),
        };
        text.push_str(&value);
    }
    text.push('}');
    text
}

#[test]
fn url_alone_is_written_as_exactly_one_member() {
    let request = ScreenshotRequest::builder().url("https://example.com").build().unwrap();
    assert_eq!(json_text(&request.payload()), r#"{"url":"https://example.com"}"#);
}

#[test]
fn a_full_request_is_written_member_by_member() {
    assert_eq!(
        json_text(&full_request().payload()),
        concat_all(&[
            r#"{"url":"https://example.com/a?b=\"c\"","format":"jpeg","quality":85,"#,
            r#""width":1920,"height":1080,"full_page":true,"wait_until":"dom_content_loaded","#,
            r##""wait_for_selector":"#content > p","wait_for_timeout":2500,"##,
            r#""device_scale_factor":2.5,"store":true,"block_ads":false}"#,
        ])
    );
}

fn concat_all(parts: &[&str]) -> String {
    let mut text = String::new();
    for part in parts {
        text.push_str(part);
    }
    text
}

#[test]
fn nothing_unset_is_written_as_null() {
    let request = ScreenshotRequest::builder().url("https://example.com").width(800).build().unwrap();
    let text = json_text(&request.payload());
    assert_eq!(text, r#"{"url":"https://example.com","width":800}"#);
    assert!(!text.contains("null"));
}
