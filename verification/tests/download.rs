use bytes::Bytes;
use copostr::cli::Cli;
use copostr::fetch::{
    check_size, download_image, status_accepted, Transport, HTTP_SUCCESS_FIRST, HTTP_SUCCESS_LAST,
    MAX_IMAGE_BYTES,
};
use copostr::post::generate_post;
use copostr::types::{Image, Licence, Status};

fn body(len: usize) -> Bytes {
    Bytes::from(vec![7u8; len])
}

fn image() -> Image {
    Image {
        id: 1,
        title: String::from("A heron"),
        source_url: String::from("https://example.org/photos/1"),
        image_url: String::from("https://example.org/photos/1.jpg"),
        licence: Licence::CC_BY,
    }
}

fn settings(alt_text: Option<&str>, tags: Option<Vec<&str>>) -> Cli {
    Cli {
        dir: std::path::PathBuf::from("."),
        alt_text: alt_text.map(String::from),
        tags: tags.map(|t| t.into_iter().map(String::from).collect()),
    }
}

#[test]
fn the_limits_are_as_documented() {
    assert_eq!(MAX_IMAGE_BYTES, 5_000_000);
    assert_eq!(HTTP_SUCCESS_FIRST, 200);
    assert_eq!(HTTP_SUCCESS_LAST, 299);
}

#[test]
fn an_answer_of_200_hands_the_body_on() {
    let got = download_image(Transport::Answered { code: 200, body: Some(body(12_345)) });
    assert_eq!(got, Ok(body(12_345)));
}

#[test]
fn every_answer_of_success_hands_the_body_on() {
    for code in [200u16, 201, 203, 204, 206, 250, 299] {
        let got = download_image(Transport::Answered { code, body: Some(body(10)) });
        assert_eq!(got, Ok(body(10)));
    }
}

#[test]
fn any_other_answer_is_a_failed_download() {
    for code in [404u16, 500, 301, 304, 300, 199, 100, 0, 599, 65_535] {
        let got = download_image(Transport::Answered { code, body: Some(body(10)) });
        assert_eq!(got, Err(Status::DownloadFail));
    }
}

#[test]
fn success_is_the_range_from_200_to_299() {
    assert!(!status_accepted(199));
    assert!(status_accepted(200));
    assert!(status_accepted(203));
    assert!(status_accepted(299));
    assert!(!status_accepted(300));
    assert!(!status_accepted(404));
}

#[test]
fn a_success_whose_body_broke_off_is_a_failed_download() {
    let got = download_image(Transport::Answered { code: 203, body: None });
    assert_eq!(got, Err(Status::DownloadFail));
}

#[test]
fn no_answer_is_a_failed_download() {
    assert_eq!(download_image(Transport::Failed), Err(Status::DownloadFail));
}

#[test]
fn a_body_that_broke_off_is_a_failed_download() {
    let got = download_image(Transport::Answered { code: 200, body: None });
    assert_eq!(got, Err(Status::DownloadFail));
}

#[test]
fn an_empty_image_is_too_large() {
    assert_eq!(check_size(body(0)), Err(Status::ImageTooLarge));
}

#[test]
fn an_image_at_the_limit_is_too_large() {
    assert_eq!(check_size(body(5_000_000)), Err(Status::ImageTooLarge));
    assert_eq!(check_size(body(5_000_001)), Err(Status::ImageTooLarge));
}

#[test]
fn an_image_of_one_byte_passes() {
    assert_eq!(check_size(body(1)), Ok(body(1)));
}

#[test]
fn an_image_just_under_the_limit_passes() {
    let got = check_size(body(4_999_999));
    assert_eq!(got.map(|b| b.len()), Ok(4_999_999));
}

#[test]
fn the_size_goes_by_the_length_not_by_the_bytes() {
    let zeros = Bytes::from(vec![0u8; 3]);
    assert_eq!(check_size(zeros.clone()), Ok(zeros));
    assert_eq!(check_size(Bytes::from_static(b"")), Err(Status::ImageTooLarge));
}

#[test]
fn a_post_holds_title_body_image_and_tags() {
    let post = generate_post(
        &image(),
        Ok(body(12_345)),
        settings(Some("a bird"), Some(vec!["birds", "photo"])),
    )
    .unwrap();
    assert_eq!(post.headline, "A heron");
    assert_eq!(post.markdown, "[Source](https://example.org/photos/1) (*Creative Commons BY*)");
    assert_eq!(post.attachments.len(), 1);
    assert_eq!(post.attachments[0].content, body(12_345));
    assert_eq!(post.attachments[0].filename, "image.jpg");
    assert_eq!(post.attachments[0].content_type, "image/jpeg");
    assert_eq!(post.attachments[0].alt_text, "a bird");
    assert_eq!(post.tags, vec![String::from("birds"), String::from("photo")]);
}

#[test]
fn a_post_without_settings_has_empty_alt_text_and_no_tags() {
    let post = generate_post(&image(), Ok(body(1)), settings(None, None)).unwrap();
    assert_eq!(post.attachments.len(), 1);
    assert_eq!(post.attachments[0].alt_text, "");
    assert!(post.tags.is_empty());
}

#[test]
fn the_body_names_the_label_of_an_unknown_licence() {
    let mut img = image();
    img.licence = Licence::Unknown;
    img.source_url = String::new();
    let post = generate_post(&img, Ok(body(1)), settings(None, None)).unwrap();
    assert_eq!(post.markdown, "[Source]() (*Unknown Licence*)");
}

#[test]
fn a_failed_download_gives_no_post() {
    let got = generate_post(&image(), Err(Status::DownloadFail), settings(None, None));
    assert_eq!(got.err(), Some(Status::DownloadFail));
}

#[test]
fn an_image_of_the_wrong_size_gives_no_post() {
    let got = generate_post(&image(), Ok(body(0)), settings(None, None));
    assert_eq!(got.err(), Some(Status::ImageTooLarge));
    let got = generate_post(&image(), Ok(body(5_000_000)), settings(None, None));
    assert_eq!(got.err(), Some(Status::ImageTooLarge));
}

#[test]
fn images_at_the_edges_of_the_range_give_a_post() {
    assert!(generate_post(&image(), Ok(body(1)), settings(None, None)).is_ok());
    let post = generate_post(&image(), Ok(body(4_999_999)), settings(None, None)).unwrap();
    assert_eq!(post.attachments[0].content.len(), 4_999_999);
}
