//! The event model: an immutable value describing one alert occurrence,
//! together with the response shape the alerting endpoint answers with.

use vstd::prelude::*;

verus! {

/// Severity classification of an alert occurrence. On the wire the first
/// variant is written `"Ok"`; see [`spec_status_name`].
#[derive(Debug, Clone, Copy, PartialEq, Eq, Structural)]
pub enum EventStatus {
    Okay,
    Info,
    Warning,
    Critical,
}

/// One image descriptor attached to an event: a required source URL and
/// optional link URL and alt text.
#[derive(Debug, Clone)]
pub struct Image {
    pub src: String,
    pub href: Option<String>,
    pub alt: Option<String>,
}

/// The mathematical value of an `Image`: each field as a character sequence.
pub struct ImageView {
    pub src: Seq<char>,
    pub href: Option<Seq<char>>,
    pub alt: Option<Seq<char>>,
}

impl View for Image {
    type V = ImageView;

    open spec fn view(&self) -> ImageView {
        ImageView { src: self.src@, href: self.href.deep_view(), alt: self.alt.deep_view() }
    }
}

impl DeepView for Image {
    type V = ImageView;

    open spec fn deep_view(&self) -> ImageView {
        self.view()
    }
}

/// An immutable alert occurrence. It is created when the caller submits it,
/// stamped with the client's shared integration key, owned by the queue until
/// the worker takes it, and discarded after its final delivery outcome.
///
/// Labels are an association list whose keys are unique (see
/// [`labels_unique`]); images keep their submission order.
#[derive(Debug, Clone)]
pub struct AlertEvent {
    pub integration_key: String,
    pub event_status: EventStatus,
    pub title_rule: String,
    pub alert_key: Option<String>,
    pub description: Option<String>,
    pub labels: Option<Vec<(String, String)>>,
    pub images: Option<Vec<Image>>,
}

/// The mathematical value of an `AlertEvent`.
pub struct AlertEventView {
    pub integration_key: Seq<char>,
    pub event_status: EventStatus,
    pub title_rule: Seq<char>,
    pub alert_key: Option<Seq<char>>,
    pub description: Option<Seq<char>>,
    pub labels: Option<Seq<(Seq<char>, Seq<char>)>>,
    pub images: Option<Seq<ImageView>>,
}

impl View for AlertEvent {
    type V = AlertEventView;

    open spec fn view(&self) -> AlertEventView {
        AlertEventView {
            integration_key: self.integration_key@,
            event_status: self.event_status,
            title_rule: self.title_rule@,
            alert_key: self.alert_key.deep_view(),
            description: self.description.deep_view(),
            labels: self.labels.deep_view(),
            images: self.images.deep_view(),
        }
    }
}

impl DeepView for AlertEvent {
    type V = AlertEventView;

    open spec fn deep_view(&self) -> AlertEventView {
        self.view()
    }
}

/// Label keys are unique within one event.
pub open spec fn labels_unique(labels: Seq<(Seq<char>, Seq<char>)>) -> bool {
    forall|i: int, j: int|
        0 <= i < j < labels.len() ==> labels[i].0 != labels[j].0
}

/// The response body the alerting endpoint answers with: an `error` and a
/// `message` string, each read as empty when the field is absent.
#[derive(Debug, Clone)]
pub struct ApiResponse {
    pub error: String,
    pub message: String,
}

/// How each status is spelled in the event's wire representation.
pub open spec fn spec_status_name(s: EventStatus) -> Seq<char> {
    match s {
        EventStatus::Okay => "Ok"@,
        EventStatus::Info => "Info"@,
        EventStatus::Warning => "Warning"@,
        EventStatus::Critical => "Critical"@,
    }
}

/// The wire spelling of a status.
pub fn status_name(s: EventStatus) -> (r: &'static str)
    ensures
        r@ == spec_status_name(s),
{
    match s {
        EventStatus::Okay => "Ok",
        EventStatus::Info => "Info",
        EventStatus::Warning => "Warning",
        EventStatus::Critical => "Critical",
    }
}

/// Character-for-character string equality.
pub fn str_eq_str(a: &str, b: &str) -> (r: bool)
    ensures
        r <==> a@ == b@,
{
    let a_len = a.unicode_len();
    let b_len = b.unicode_len();
    if a_len != b_len {
        return false;
    }
    let mut i: usize = 0;
    while i < a_len
        invariant
            i <= a_len,
            a_len == a@.len(),
            a_len == b@.len(),
            forall|j: int| 0 <= j < i ==> a@[j] == b@[j],
        decreases a_len - i,
    {
        if a.get_char(i) != b.get_char(i) {
            return false;
        }
        i += 1;
    }
    proof {
        assert(a@ =~= b@);
    }
    true
}

/// Which status a boundary-supplied string names, if any.
pub open spec fn spec_parse_event_status(s: Seq<char>) -> Option<EventStatus> {
    if s == "Ok"@ {
        Some(EventStatus::Okay)
    } else if s == "Info"@ {
        Some(EventStatus::Info)
    } else if s == "Warning"@ {
        Some(EventStatus::Warning)
    } else if s == "Critical"@ {
        Some(EventStatus::Critical)
    } else {
        None
    }
}

/// Boundary validation: maps an externally supplied status string to the
/// fixed enumeration, rejecting every unrecognized spelling.
pub fn parse_event_status(s: &str) -> (r: Option<EventStatus>)
    ensures
        r == spec_parse_event_status(s@),
{
    if str_eq_str(s, "Ok") {
        Some(EventStatus::Okay)
    } else if str_eq_str(s, "Info") {
        Some(EventStatus::Info)
    } else if str_eq_str(s, "Warning") {
        Some(EventStatus::Warning)
    } else if str_eq_str(s, "Critical") {
        Some(EventStatus::Critical)
    } else {
        None
    }
}

} // verus!
