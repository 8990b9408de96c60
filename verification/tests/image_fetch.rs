use fetch_bridge::channel::EventChannel;
use fetch_bridge::dispatch::{complete_image, dispatch_tick, response_for};
use fetch_bridge::events::{FetchError, FetchOutcome, FetchPlan, FetchRequest, FetchResponse};

/// Encodes a plain gray `width` by `height` bitmap as JPEG bytes.
fn jpeg_bytes(width: u32, height: u32) -> Vec<u8> {
    let bitmap = image::RgbImage::from_pixel(width, height, image::Rgb([128, 128, 128]));
    let mut bytes: Vec<u8> = Vec::new();
    bitmap
        .write_to(&mut std::io::Cursor::new(&mut bytes), image::ImageFormat::Jpeg)
        .expect("encoding a bitmap as JPEG");
    bytes
}

#[test]
fn a_non_success_status_fails_with_that_status_code() {
    let body = jpeg_bytes(4, 4);
    assert_eq!(complete_image(404, &body), Err(FetchError::Status(404)));
    assert_eq!(complete_image(500, &body), Err(FetchError::Status(500)));
    assert_eq!(complete_image(301, &body), Err(FetchError::Status(301)));
    assert_eq!(complete_image(199, &body), Err(FetchError::Status(199)));
}

#[test]
fn a_success_status_with_valid_jpeg_decodes_to_the_source_dimensions() {
    let body = jpeg_bytes(4, 4);
    let img = complete_image(200, &body).expect("a valid JPEG must decode");
    assert_eq!(img.width, 4);
    assert_eq!(img.height, 4);
    assert_eq!(img.pixels.len(), 4 * 4 * 4);

    let wide = jpeg_bytes(7, 3);
    let img = complete_image(299, &wide).expect("a valid JPEG must decode");
    assert_eq!(img.width, 7);
    assert_eq!(img.height, 3);
    assert_eq!(img.pixels.len(), 4 * 7 * 3);
}

#[test]
fn bytes_that_are_not_jpeg_fail_to_decode_even_on_success_status() {
    let body: Vec<u8> = b"definitely not a jpeg".to_vec();
    assert_eq!(complete_image(200, &body), Err(FetchError::Decode));
    let empty: Vec<u8> = Vec::new();
    assert_eq!(complete_image(204, &empty), Err(FetchError::Decode));
}

#[test]
fn image_failures_become_failed_responses_not_payloads() {
    let r = response_for(FetchOutcome::Bytes(503, jpeg_bytes(2, 2)));
    assert_eq!(r, FetchResponse::Failed(FetchError::Status(503)));
    let r = response_for(FetchOutcome::Bytes(200, b"garbage".to_vec()));
    assert_eq!(r, FetchResponse::Failed(FetchError::Decode));
}

#[test]
fn one_tick_with_a_text_and_an_image_request_yields_both_payloads() {
    let mut requests: EventChannel<FetchRequest> = EventChannel::new();
    requests.publish(FetchRequest::GetString("https://example/a".to_string()));
    requests.publish(FetchRequest::GetImage("https://example/b.jpg".to_string()));
    let plans = dispatch_tick(&mut requests);
    assert_eq!(plans.len(), 2);
    assert_eq!(plans[0], FetchPlan::GetText("https://example/a".to_string()));
    assert_eq!(plans[1], FetchPlan::GetBytes("https://example/b.jpg".to_string()));

    // The server answers "/a" with "hello" (200) and "/b.jpg" with a valid
    // 4 by 4 JPEG (200); the image's background unit happens to finish first.
    let mut responses: EventChannel<FetchResponse> = EventChannel::new();
    responses.publish(response_for(FetchOutcome::Bytes(200, jpeg_bytes(4, 4))));
    responses.publish(response_for(FetchOutcome::Text("hello".to_string())));

    let delivered = responses.drain();
    assert_eq!(delivered.len(), 2);
    let texts: Vec<&FetchResponse> = delivered
        .iter()
        .filter(|r| matches!(r, FetchResponse::Str(body) if body == "hello"))
        .collect();
    assert_eq!(texts.len(), 1);
    let images: Vec<&FetchResponse> = delivered
        .iter()
        .filter(|r| matches!(r, FetchResponse::Image(img) if img.width == 4 && img.height == 4))
        .collect();
    assert_eq!(images.len(), 1);
}
