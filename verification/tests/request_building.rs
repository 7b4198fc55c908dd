use pxshot::{Error, ImageFormat, ScaleFactor, ScreenshotRequest, WaitUntil};

fn scale(factor: f32) -> ScaleFactor {
    ScaleFactor { bits: factor.to_bits() }
}

#[test]
fn build_without_url_is_refused() {
    let result = ScreenshotRequest::builder().build();
    assert!(matches!(result, Err(Error::MissingField("url"))));
}

#[test]
fn build_without_url_is_refused_whatever_else_is_set() {
    let result = ScreenshotRequest::builder()
        .format(ImageFormat::Jpeg)
        .quality(80)
        .width(1920)
        .height(1080)
        .full_page(true)
        .wait_until(WaitUntil::Load)
        .wait_for_selector("#main")
        .wait_for_timeout(250)
        .device_scale_factor(scale(2.0))
        .store(true)
        .block_ads(true)
        .build();
    match result {
        Err(Error::MissingField(name)) => assert_eq!(name, "url"),
        other => panic!("expected a missing field, got {:?}", other),
    }
}

#[test]
fn build_with_url_alone_leaves_the_rest_unset() {
    let request = ScreenshotRequest::builder().url("https://example.com").build().unwrap();
    assert_eq!(request.url, "https://example.com");
    assert_eq!(request.format, None);
    assert_eq!(request.quality, None);
    assert_eq!(request.width, None);
    assert_eq!(request.height, None);
    assert_eq!(request.full_page, None);
    assert_eq!(request.wait_until, None);
    assert_eq!(request.wait_for_selector, None);
    assert_eq!(request.wait_for_timeout, None);
    assert_eq!(request.device_scale_factor, None);
    assert_eq!(request.store, None);
    assert_eq!(request.block_ads, None);
}

#[test]
fn build_keeps_every_value_that_was_set() {
    let request = ScreenshotRequest::builder()
        .url("https://example.com/page")
        .format(ImageFormat::Webp)
        .quality(90)
        .width(1280)
        .height(720)
        .full_page(false)
        .wait_until(WaitUntil::DomContentLoaded)
        .wait_for_selector(".ready")
        .wait_for_timeout(1500)
        .device_scale_factor(scale(1.5))
        .store(false)
        .block_ads(true)
        .build()
        .unwrap();
    assert_eq!(request.url, "https://example.com/page");
    assert_eq!(request.format, Some(ImageFormat::Webp));
    assert_eq!(request.quality, Some(90));
    assert_eq!(request.width, Some(1280));
    assert_eq!(request.height, Some(720));
    assert_eq!(request.full_page, Some(false));
    assert_eq!(request.wait_until, Some(WaitUntil::DomContentLoaded));
    assert_eq!(request.wait_for_selector.as_deref(), Some(".ready"));
    assert_eq!(request.wait_for_timeout, Some(1500));
    assert_eq!(request.device_scale_factor.map(|s| f32::from_bits(s.bits)), Some(1.5));
    assert_eq!(request.store, Some(false));
    assert_eq!(request.block_ads, Some(true));
}

#[test]
fn a_later_setter_replaces_an_earlier_one() {
    let request = ScreenshotRequest::builder()
        .url("https://first.example")
        .width(10)
        .url("https://second.example")
        .width(20)
        .build()
        .unwrap();
    assert_eq!(request.url, "https://second.example");
    assert_eq!(request.width, Some(20));
}

#[test]
fn setters_do_not_check_one_field_against_another() {
    // A quality with PNG has no meaning, and the builder lets it through.
    let request = ScreenshotRequest::builder()
        .url("https://example.com")
        .format(ImageFormat::Png)
        .quality(0)
        .width(0)
        .build()
        .unwrap();
    assert_eq!(request.format, Some(ImageFormat::Png));
    assert_eq!(request.quality, Some(0));
    assert_eq!(request.width, Some(0));
}

#[test]
fn an_empty_url_that_was_set_counts_as_set() {
    let request = ScreenshotRequest::builder().url("").build().unwrap();
    assert_eq!(request.url, "");
}

#[test]
fn wants_stored_reads_an_unset_flag_as_false() {
    let unset = ScreenshotRequest::builder().url("https://example.com").build().unwrap();
    let off = ScreenshotRequest::builder().url("https://example.com").store(false).build().unwrap();
    let on = ScreenshotRequest::builder().url("https://example.com").store(true).build().unwrap();
    assert!(!unset.wants_stored());
    assert!(!off.wants_stored());
    assert!(on.wants_stored());
}

#[test]
fn a_cloned_request_holds_the_same_values() {
    let request = ScreenshotRequest::builder()
        .url("https://example.com")
        .wait_for_selector("#a")
        .store(true)
        .build()
        .unwrap();
    let copy = request.clone();
    assert_eq!(copy.url, request.url);
    assert_eq!(copy.wait_for_selector, request.wait_for_selector);
    assert_eq!(copy.store, Some(true));
    assert_eq!(copy.format, None);
}

#[test]
fn defaults_are_png_and_network_idle() {
    assert_eq!(ImageFormat::default(), ImageFormat::Png);
    assert_eq!(WaitUntil::default(), WaitUntil::NetworkIdle);
}
