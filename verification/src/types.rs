//! The records of the image index, their status, and the licence catalogue.

use vstd::prelude::*;
use vstd::std_specs::convert::FromSpecImpl;
use vstd::string::StringExecFns;

verus! {

/// What became of a record. A record starts `Unposted`; one run moves it to
/// exactly one of the other values.
#[derive(Debug, Copy, Clone, PartialEq, Eq, Structural)]
pub enum Status {
    Unposted,
    Success,
    DownloadFail,
    ImageTooLarge,
    PostFail,
}

impl Status {
    /// The integer under which a status is persisted.
    pub open spec fn spec_code(self) -> u8 {
        match self {
            Status::Unposted => 0,
            Status::Success => 1,
            Status::DownloadFail => 2,
            Status::ImageTooLarge => 3,
            Status::PostFail => 4,
        }
    }

    /// The status that a persisted integer stands for, if any.
    pub open spec fn spec_from_code(code: u8) -> Option<Status> {
        if code == 0 {
            Some(Status::Unposted)
        } else if code == 1 {
            Some(Status::Success)
        } else if code == 2 {
            Some(Status::DownloadFail)
        } else if code == 3 {
            Some(Status::ImageTooLarge)
        } else if code == 4 {
            Some(Status::PostFail)
        } else {
            None
        }
    }

    /// The integer under which this status is persisted. The values are part
    /// of the stored format and never change.
    pub fn code(self) -> (code: u8)
        ensures
            code == self.spec_code(),
            code <= 4,
    {
        match self {
            Status::Unposted => 0,
            Status::Success => 1,
            Status::DownloadFail => 2,
            Status::ImageTooLarge => 3,
            Status::PostFail => 4,
        }
    }

    /// Reads a persisted integer back; `None` for an integer that no status
    /// is stored under.
    pub fn from_code(code: u8) -> (status: Option<Status>)
        ensures
            status == Status::spec_from_code(code),
            status is Some <==> code <= 4,
    {
        match code {
            0 => Some(Status::Unposted),
            1 => Some(Status::Success),
            2 => Some(Status::DownloadFail),
            3 => Some(Status::ImageTooLarge),
            4 => Some(Status::PostFail),
            _ => None,
        }
    }

    /// Whether the maintenance sweep moves a record of this status back to
    /// `Unposted`: every status but `ImageTooLarge`.
    pub open spec fn spec_retryable(self) -> bool {
        self != Status::ImageTooLarge
    }

    /// Whether the maintenance sweep touches a record of this status.
    pub fn retryable(self) -> (r: bool)
        ensures
            r == self.spec_retryable(),
    {
        match self {
            Status::ImageTooLarge => false,
            _ => true,
        }
    }
}

/// Decoding undoes encoding, so no two statuses share a code.
pub proof fn lemma_status_code_round_trip(status: Status)
    ensures
        Status::spec_from_code(status.spec_code()) == Some(status),
{
}

/// An integer that decodes to a status is that status's code.
pub proof fn lemma_status_code_unique(code: u8, status: Status)
    ensures
        Status::spec_from_code(code) == Some(status) <==> code == status.spec_code(),
{
}

/// The licence under which an image is published, as a closed set of kinds.
#[derive(Debug, Copy, Clone, PartialEq, Eq, Structural)]
#[allow(non_camel_case_types)]
pub enum Licence {
    AllRightsReserved,
    CC_BY_SA_NC,
    CC_BY_NC,
    CC_BY_NC_ND,
    CC_BY,
    CC_BY_SA,
    CC_BY_ND,
    NoKnownRestrictions,
    USGov,
    CC0,
    PublicDomain,
    Unknown,
}

impl Licence {
    /// The phrase by which the index names this kind. `Unknown` has none: it
    /// stands for every text that is no such phrase.
    pub open spec fn spec_phrase(self) -> Option<Seq<char>> {
        match self {
            Licence::AllRightsReserved => Some("All Rights Reserved"@),
            Licence::CC_BY_SA_NC => Some("Attribution-NonCommercial-ShareAlike License"@),
            Licence::CC_BY_NC => Some("Attribution-NonCommercial License"@),
            Licence::CC_BY_NC_ND => Some("Attribution-NonCommercial-NoDerivs License"@),
            Licence::CC_BY => Some("Attribution License"@),
            Licence::CC_BY_SA => Some("Attribution-ShareAlike License"@),
            Licence::CC_BY_ND => Some("Attribution-NoDerivs License"@),
            Licence::NoKnownRestrictions => Some("No known copyright restrictions"@),
            Licence::USGov => Some("United States Government Work"@),
            Licence::CC0 => Some("Public Domain Dedication (CC0)"@),
            Licence::PublicDomain => Some("Public Domain Mark"@),
            Licence::Unknown => None,
        }
    }

    /// The label under which this kind is shown to a reader.
    pub open spec fn spec_label(self) -> Seq<char> {
        match self {
            Licence::AllRightsReserved => "All Rights Reserved"@,
            Licence::CC_BY_SA_NC => "Creative Commons BY-SA-NC"@,
            Licence::CC_BY_NC => "Creative Commons BY-NC"@,
            Licence::CC_BY_NC_ND => "Creative Commons BY-NC-ND"@,
            Licence::CC_BY => "Creative Commons BY"@,
            Licence::CC_BY_SA => "Creative Commons BY-SA"@,
            Licence::CC_BY_ND => "Creative Commons BY-ND"@,
            Licence::NoKnownRestrictions => "No known copyright restrictions"@,
            Licence::USGov => "U.S. Goverment Work"@,
            Licence::CC0 => "Creative Commons 0"@,
            Licence::PublicDomain => "Public Domain"@,
            Licence::Unknown => "Unknown Licence"@,
        }
    }

    /// Whether `text` is, letter for letter, the phrase of some kind.
    pub open spec fn in_table(text: Seq<char>) -> bool {
        exists|kind: Licence| kind.spec_phrase() == Some(text)
    }

    /// The kind that a licence text stands for: the kind whose phrase it is,
    /// and `Unknown` for any other text.
    pub open spec fn normalize(text: Seq<char>) -> Licence {
        if Licence::AllRightsReserved.spec_phrase() == Some(text) {
            Licence::AllRightsReserved
        } else if Licence::CC_BY_SA_NC.spec_phrase() == Some(text) {
            Licence::CC_BY_SA_NC
        } else if Licence::CC_BY_NC.spec_phrase() == Some(text) {
            Licence::CC_BY_NC
        } else if Licence::CC_BY_NC_ND.spec_phrase() == Some(text) {
            Licence::CC_BY_NC_ND
        } else if Licence::CC_BY.spec_phrase() == Some(text) {
            Licence::CC_BY
        } else if Licence::CC_BY_SA.spec_phrase() == Some(text) {
            Licence::CC_BY_SA
        } else if Licence::CC_BY_ND.spec_phrase() == Some(text) {
            Licence::CC_BY_ND
        } else if Licence::NoKnownRestrictions.spec_phrase() == Some(text) {
            Licence::NoKnownRestrictions
        } else if Licence::USGov.spec_phrase() == Some(text) {
            Licence::USGov
        } else if Licence::CC0.spec_phrase() == Some(text) {
            Licence::CC0
        } else if Licence::PublicDomain.spec_phrase() == Some(text) {
            Licence::PublicDomain
        } else {
            Licence::Unknown
        }
    }

    /// The label of this kind, as a string of its own.
    pub fn display(&self) -> (label: String)
        ensures
            label@ == self.spec_label(),
    {
        let label: &str = match self {
            Licence::AllRightsReserved => "All Rights Reserved",
            Licence::CC_BY_SA_NC => "Creative Commons BY-SA-NC",
            Licence::CC_BY_NC => "Creative Commons BY-NC",
            Licence::CC_BY_NC_ND => "Creative Commons BY-NC-ND",
            Licence::CC_BY => "Creative Commons BY",
            Licence::CC_BY_SA => "Creative Commons BY-SA",
            Licence::CC_BY_ND => "Creative Commons BY-ND",
            Licence::NoKnownRestrictions => "No known copyright restrictions",
            Licence::USGov => "U.S. Goverment Work",
            Licence::CC0 => "Creative Commons 0",
            Licence::PublicDomain => "Public Domain",
            Licence::Unknown => "Unknown Licence",
        };
        String::from_str(label)
    }
}

/// Whether `value` holds exactly the letters of `phrase`.
fn is_phrase(value: &String, phrase: &str) -> (same: bool)
    ensures
        same == (value@ == phrase@),
{
    let owned = String::from_str(phrase);
    *value == owned
}

impl From<String> for Licence {
    /// Reads a licence text: an exact, case-sensitive match against the known
    /// phrases, and `Unknown` for everything else.
    fn from(value: String) -> (kind: Licence) {
        if is_phrase(&value, "All Rights Reserved") {
            Licence::AllRightsReserved
        } else if is_phrase(&value, "Attribution-NonCommercial-ShareAlike License") {
            Licence::CC_BY_SA_NC
        } else if is_phrase(&value, "Attribution-NonCommercial License") {
            Licence::CC_BY_NC
        } else if is_phrase(&value, "Attribution-NonCommercial-NoDerivs License") {
            Licence::CC_BY_NC_ND
        } else if is_phrase(&value, "Attribution License") {
            Licence::CC_BY
        } else if is_phrase(&value, "Attribution-ShareAlike License") {
            Licence::CC_BY_SA
        } else if is_phrase(&value, "Attribution-NoDerivs License") {
            Licence::CC_BY_ND
        } else if is_phrase(&value, "No known copyright restrictions") {
            Licence::NoKnownRestrictions
        } else if is_phrase(&value, "United States Government Work") {
            Licence::USGov
        } else if is_phrase(&value, "Public Domain Dedication (CC0)") {
            Licence::CC0
        } else if is_phrase(&value, "Public Domain Mark") {
            Licence::PublicDomain
        } else {
            Licence::Unknown
        }
    }
}

impl FromSpecImpl<String> for Licence {
    open spec fn obeys_from_spec() -> bool {
        true
    }

    open spec fn from_spec(value: String) -> Licence {
        Licence::normalize(value@)
    }
}

/// No two kinds share a phrase.
pub proof fn lemma_phrases_distinct(a: Licence, b: Licence)
    requires
        a.spec_phrase() is Some,
        a.spec_phrase() == b.spec_phrase(),
    ensures
        a == b,
{
    reveal_strlit("All Rights Reserved");
    reveal_strlit("Attribution-NonCommercial-ShareAlike License");
    reveal_strlit("Attribution-NonCommercial License");
    reveal_strlit("Attribution-NonCommercial-NoDerivs License");
    reveal_strlit("Attribution License");
    reveal_strlit("Attribution-ShareAlike License");
    reveal_strlit("Attribution-NoDerivs License");
    reveal_strlit("No known copyright restrictions");
    reveal_strlit("United States Government Work");
    reveal_strlit("Public Domain Dedication (CC0)");
    reveal_strlit("Public Domain Mark");
    let s = a.spec_phrase().unwrap();
    let t = b.spec_phrase().unwrap();
    assert(s.len() == t.len());
    assert(s[0] == t[0]);
    assert(s[1] == t[1]);
}

/// A text is read as a kind other than `Unknown` exactly when it is that
/// kind's phrase.
pub proof fn lemma_normalize_is_lookup(text: Seq<char>, kind: Licence)
    ensures
        kind != Licence::Unknown ==> (Licence::normalize(text) == kind <==> kind.spec_phrase()
            == Some(text)),
        Licence::normalize(text) == Licence::Unknown <==> !Licence::in_table(text),
{
    let found = Licence::normalize(text);
    if found != Licence::Unknown {
        assert(found.spec_phrase() == Some(text));
        if kind.spec_phrase() == Some(text) {
            lemma_phrases_distinct(kind, found);
        }
    } else {
        assert forall|k: Licence| k.spec_phrase() != Some(text) by {
        }
    }
}

/// A text that is no known phrase is read as `Unknown`, whose label is fixed
/// and not empty.
pub proof fn lemma_unlisted_text_is_unknown(text: Seq<char>)
    requires
        !Licence::in_table(text),
    ensures
        Licence::normalize(text) == Licence::Unknown,
        Licence::normalize(text).spec_label() == "Unknown Licence"@,
        Licence::normalize(text).spec_label().len() == 15,
{
    lemma_normalize_is_lookup(text, Licence::Unknown);
    reveal_strlit("Unknown Licence");
}

/// The label shown for a text that is no known phrase is not that text,
/// unless the text is the label of `Unknown` itself.
pub proof fn lemma_unlisted_text_is_not_echoed(text: Seq<char>)
    requires
        !Licence::in_table(text),
        text != Licence::Unknown.spec_label(),
    ensures
        Licence::normalize(text).spec_label() != text,
{
    lemma_unlisted_text_is_unknown(text);
}

/// A text that is the phrase of a kind is read as that kind, and so shown
/// under that kind's label, whatever the text itself was.
pub proof fn lemma_listed_text_shows_its_label(text: Seq<char>, kind: Licence)
    requires
        kind.spec_phrase() == Some(text),
    ensures
        Licence::normalize(text) == kind,
        Licence::normalize(text).spec_label() == kind.spec_label(),
{
    lemma_normalize_is_lookup(text, kind);
}

/// One record of the image index, as a run reads it. The licence is read
/// from the index's free text when the record is loaded.
#[derive(Debug)]
pub struct Image {
    pub id: u64,
    pub title: String,
    pub source_url: String,
    pub image_url: String,
    pub licence: Licence,
}

} // verus!
