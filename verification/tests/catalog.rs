use copostr::types::{Licence, Status};

fn read(text: &str) -> Licence {
    Licence::from(String::from(text))
}

#[test]
fn every_known_phrase_is_read_as_its_kind() {
    assert_eq!(read("All Rights Reserved"), Licence::AllRightsReserved);
    assert_eq!(read("Attribution-NonCommercial-ShareAlike License"), Licence::CC_BY_SA_NC);
    assert_eq!(read("Attribution-NonCommercial License"), Licence::CC_BY_NC);
    assert_eq!(read("Attribution-NonCommercial-NoDerivs License"), Licence::CC_BY_NC_ND);
    assert_eq!(read("Attribution License"), Licence::CC_BY);
    assert_eq!(read("Attribution-ShareAlike License"), Licence::CC_BY_SA);
    assert_eq!(read("Attribution-NoDerivs License"), Licence::CC_BY_ND);
    assert_eq!(read("No known copyright restrictions"), Licence::NoKnownRestrictions);
    assert_eq!(read("United States Government Work"), Licence::USGov);
    assert_eq!(read("Public Domain Dedication (CC0)"), Licence::CC0);
    assert_eq!(read("Public Domain Mark"), Licence::PublicDomain);
}

#[test]
fn every_kind_has_its_label() {
    assert_eq!(Licence::AllRightsReserved.display(), "All Rights Reserved");
    assert_eq!(Licence::CC_BY_SA_NC.display(), "Creative Commons BY-SA-NC");
    assert_eq!(Licence::CC_BY_NC.display(), "Creative Commons BY-NC");
    assert_eq!(Licence::CC_BY_NC_ND.display(), "Creative Commons BY-NC-ND");
    assert_eq!(Licence::CC_BY.display(), "Creative Commons BY");
    assert_eq!(Licence::CC_BY_SA.display(), "Creative Commons BY-SA");
    assert_eq!(Licence::CC_BY_ND.display(), "Creative Commons BY-ND");
    assert_eq!(Licence::NoKnownRestrictions.display(), "No known copyright restrictions");
    assert_eq!(Licence::USGov.display(), "U.S. Goverment Work");
    assert_eq!(Licence::CC0.display(), "Creative Commons 0");
    assert_eq!(Licence::PublicDomain.display(), "Public Domain");
    assert_eq!(Licence::Unknown.display(), "Unknown Licence");
}

#[test]
fn unlisted_text_is_unknown() {
    for text in ["", "GPL", "Some made-up licence", "CC BY", "Creative Commons BY"] {
        let kind = read(text);
        assert_eq!(kind, Licence::Unknown);
        let label = kind.display();
        assert_eq!(label, "Unknown Licence");
        assert!(!label.is_empty());
        assert_ne!(label, text);
    }
}

#[test]
fn matching_is_exact_and_case_sensitive() {
    assert_eq!(read("attribution license"), Licence::Unknown);
    assert_eq!(read("Attribution License "), Licence::Unknown);
    assert_eq!(read(" Attribution License"), Licence::Unknown);
    assert_eq!(read("ALL RIGHTS RESERVED"), Licence::Unknown);
    assert_eq!(read("Attribution"), Licence::Unknown);
    assert_eq!(read("Public Domain"), Licence::Unknown);
}

#[test]
fn the_label_of_unknown_is_itself_read_as_unknown() {
    assert_eq!(read("Unknown Licence"), Licence::Unknown);
    assert_eq!(read("Unknown Licence").display(), "Unknown Licence");
}

#[test]
fn a_listed_text_is_shown_under_its_label_not_as_it_was() {
    let text = "Attribution-NonCommercial License";
    let label = read(text).display();
    assert_eq!(label, "Creative Commons BY-NC");
    assert_ne!(label, text);
    assert_eq!(read(text).display(), label);
}

#[test]
fn status_codes_are_pinned() {
    assert_eq!(Status::Unposted.code(), 0);
    assert_eq!(Status::Success.code(), 1);
    assert_eq!(Status::DownloadFail.code(), 2);
    assert_eq!(Status::ImageTooLarge.code(), 3);
    assert_eq!(Status::PostFail.code(), 4);
}

#[test]
fn status_codes_read_back() {
    let all = [
        Status::Unposted,
        Status::Success,
        Status::DownloadFail,
        Status::ImageTooLarge,
        Status::PostFail,
    ];
    for status in all {
        assert_eq!(Status::from_code(status.code()), Some(status));
    }
    assert_eq!(Status::from_code(5), None);
    assert_eq!(Status::from_code(255), None);
}

#[test]
fn only_an_oversized_image_is_kept_from_retry() {
    assert!(Status::Unposted.retryable());
    assert!(Status::Success.retryable());
    assert!(Status::DownloadFail.retryable());
    assert!(Status::PostFail.retryable());
    assert!(!Status::ImageTooLarge.retryable());
}
