//! The notification payload: validated construction and the request URL for
//! the Prowl `add` endpoint.

use vstd::prelude::*;
use vstd::string::StringExecFns;
use vstd::utf8::encode_utf8;

use crate::errors::CreationError;
use crate::percent::percent_encode;
use crate::percent::percent_encoded;
use crate::priority::Priority;

verus! {

/// Maximum byte length of the `url` field.
pub const MAX_URL_LEN: usize = 512;

/// Maximum byte length of the `application` field.
pub const MAX_APP_LEN: usize = 256;

/// Maximum byte length of the `event` field.
pub const MAX_EVENT_LEN: usize = 1024;

/// Maximum byte length of the `description` field.
pub const MAX_DESC_LEN: usize = 10000;

/// The length of a string in bytes: the length of its UTF-8 form, which is
/// what the length limits of the Prowl API are checked against.
pub open spec fn byte_len(s: Seq<char>) -> nat {
    encode_utf8(s).len()
}

/// Relies on `str::len`: it returns the length of the slice in bytes, and a
/// slice held in memory never spans more bytes than a `usize` can count.
#[verifier::external_body]
fn str_byte_len(s: &str) -> (n: usize)
    ensures
        n == byte_len(s@),
{
    s.len()
}

/// A notification held in memory, ready to be sent to the Prowl API.
/// Construction through [`Notification::new`] validates every field length,
/// and a constructed value is immutable.
#[derive(Debug)]
pub struct Notification {
    api_keys: Vec<String>,
    priority: Option<Priority>,
    url: Option<String>,
    application: String,
    event: String,
    description: String,
}

/// The mathematical content of a notification.
#[verifier::ext_equal]
pub struct NotificationView {
    pub api_keys: Seq<Seq<char>>,
    pub priority: Option<Priority>,
    pub url: Option<Seq<char>>,
    pub application: Seq<char>,
    pub event: Seq<char>,
    pub description: Seq<char>,
}

impl View for Notification {
    type V = NotificationView;

    closed spec fn view(&self) -> NotificationView {
        NotificationView {
            api_keys: self.api_keys.deep_view(),
            priority: self.priority,
            url: self.url.deep_view(),
            application: self.application@,
            event: self.event@,
            description: self.description@,
        }
    }
}

impl NotificationView {
    /// Every field is within the length the Prowl API accepts.
    pub open spec fn wf(self) -> bool {
        &&& byte_len(self.application) <= MAX_APP_LEN
        &&& byte_len(self.event) <= MAX_EVENT_LEN
        &&& byte_len(self.description) <= MAX_DESC_LEN
        &&& (self.url matches Some(u) ==> byte_len(u) <= MAX_URL_LEN)
    }
}

/// What validated construction returns: the checks run in a fixed order
/// (application, event, description, then url), the first failing one is
/// reported with the offending byte length, and on success every field is
/// kept exactly as given.
pub open spec fn create_spec(
    api_keys: Seq<Seq<char>>,
    priority: Option<Priority>,
    url: Option<Seq<char>>,
    application: Seq<char>,
    event: Seq<char>,
    description: Seq<char>,
) -> Result<NotificationView, CreationError> {
    if byte_len(application) > MAX_APP_LEN {
        Err(CreationError::ApplicationLength(byte_len(application) as usize))
    } else if byte_len(event) > MAX_EVENT_LEN {
        Err(CreationError::EventLength(byte_len(event) as usize))
    } else if byte_len(description) > MAX_DESC_LEN {
        Err(CreationError::DescriptionLength(byte_len(description) as usize))
    } else if url matches Some(u) && byte_len(u) > MAX_URL_LEN {
        Err(CreationError::InvalidUrlLength(byte_len(url.unwrap()) as usize))
    } else {
        Ok(NotificationView { api_keys, priority, url, application, event, description })
    }
}

impl Notification {
    /// Creates a new `Notification` in memory that can be sent later.
    ///
    /// Field lengths are checked in a fixed order against the limits of the
    /// Prowl API; the first violation is returned as a [`CreationError`]
    /// carrying the actual byte length, and no notification is built.
    pub fn new(
        api_keys: Vec<String>,
        priority: Option<Priority>,
        url: Option<String>,
        application: String,
        event: String,
        description: String,
    ) -> (result: Result<Self, CreationError>)
        ensures
            ({
                let expected = create_spec(
                    api_keys.deep_view(),
                    priority,
                    url.deep_view(),
                    application@,
                    event@,
                    description@,
                );
                match result {
                    Ok(n) => expected matches Ok(v) && n@ == v,
                    Err(e) => expected == Err::<NotificationView, CreationError>(e),
                }
            }),
    {
        if str_byte_len(application.as_str()) > MAX_APP_LEN {
            return Err(CreationError::ApplicationLength(str_byte_len(application.as_str())));
        }
        if str_byte_len(event.as_str()) > MAX_EVENT_LEN {
            return Err(CreationError::EventLength(str_byte_len(event.as_str())));
        }
        if str_byte_len(description.as_str()) > MAX_DESC_LEN {
            return Err(CreationError::DescriptionLength(str_byte_len(description.as_str())));
        }
        match &url {
            Some(u) => {
                if str_byte_len(u.as_str()) > MAX_URL_LEN {
                    return Err(CreationError::InvalidUrlLength(str_byte_len(u.as_str())));
                }
            },
            None => {},
        }
        Ok(Self { api_keys, priority, url, application, event, description })
    }
}

/// The comma-joined form of the API keys, exactly as given: no separator for
/// a single key, and no percent-encoding.
pub open spec fn joined_keys(keys: Seq<Seq<char>>) -> Seq<char>
    decreases keys.len(),
{
    if keys.len() == 0 {
        Seq::empty()
    } else if keys.len() == 1 {
        keys[0]
    } else {
        joined_keys(keys.drop_last()) + seq![','] + keys.last()
    }
}

/// The query-string text of a priority: its signed integer code in decimal.
pub open spec fn priority_text(p: Priority) -> Seq<char> {
    match p {
        Priority::VeryLow => "-2"@,
        Priority::Moderate => "-1"@,
        Priority::Normal => "0"@,
        Priority::High => "1"@,
        Priority::Emergency => "2"@,
    }
}

/// The full request URL for a notification: the `add` endpoint, then the
/// query parameters in fixed order. The API keys are joined with commas and
/// left unencoded; the text fields are percent-encoded; `url` and `priority`
/// appear only when present.
pub open spec fn request_url_spec(n: NotificationView) -> Seq<char> {
    "https://prowl.weks.net/publicapi/add"@ + "?apikey="@ + joined_keys(n.api_keys)
        + "&application="@ + percent_encoded(n.application) + "&event="@ + percent_encoded(n.event)
        + "&description="@ + percent_encoded(n.description) + (match n.url {
        Some(u) => "&url="@ + percent_encoded(u),
        None => Seq::<char>::empty(),
    }) + (match n.priority {
        Some(p) => "&priority="@ + priority_text(p),
        None => Seq::<char>::empty(),
    })
}

fn join_api_keys(keys: &Vec<String>) -> (r: String)
    ensures
        r@ == joined_keys(keys.deep_view()),
{
    let ghost dv = keys.deep_view();
    let mut out = String::new();
    let mut i: usize = 0;
    while i < keys.len()
        invariant
            i <= keys.len(),
            dv == keys.deep_view(),
            dv.len() == keys@.len(),
            out@ == joined_keys(dv.take(i as int)),
        decreases keys.len() - i,
    {
        if i > 0 {
            out.append(",");
        }
        out.append(keys[i].as_str());
        proof {
            reveal_strlit(",");
            assert(dv[i as int] == keys@[i as int]@);
            assert(dv.take(i + 1 as int).drop_last() =~= dv.take(i as int));
            assert(dv.take(i + 1 as int).last() == dv[i as int]);
            if i == 0 {
                assert(out@ =~= joined_keys(dv.take(i + 1 as int)));
            } else {
                assert(","@ =~= seq![',']);
                assert(out@ =~= joined_keys(dv.take(i + 1 as int)));
            }
        }
        i += 1;
    }
    assert(dv.take(keys@.len() as int) =~= dv);
    out
}

impl Notification {
    /// The URL this notification is sent to: the Prowl `add` endpoint with
    /// every field of the notification in its query string.
    pub fn request_url(&self) -> (r: String)
        ensures
            r@ == request_url_spec(self@),
    {
        let mut url = String::new();
        url.append("https://prowl.weks.net/publicapi/add");
        url.append("?apikey=");
        let joined = join_api_keys(&self.api_keys);
        url.append(joined.as_str());
        url.append("&application=");
        let safe_application = percent_encode(self.application.as_str());
        url.append(safe_application.as_str());
        url.append("&event=");
        let safe_event = percent_encode(self.event.as_str());
        url.append(safe_event.as_str());
        url.append("&description=");
        let safe_description = percent_encode(self.description.as_str());
        url.append(safe_description.as_str());
        match &self.url {
            Some(u) => {
                url.append("&url=");
                let safe_url = percent_encode(u.as_str());
                url.append(safe_url.as_str());
            },
            None => {},
        }
        match &self.priority {
            Some(p) => {
                url.append("&priority=");
                match p {
                    Priority::VeryLow => url.append("-2"),
                    Priority::Moderate => url.append("-1"),
                    Priority::Normal => url.append("0"),
                    Priority::High => url.append("1"),
                    Priority::Emergency => url.append("2"),
                }
            },
            None => {},
        }
        proof {
            assert(url@ =~= request_url_spec(self@));
        }
        url
    }
}

impl Notification {
    /// The priority of the notification, when one was given.
    pub fn priority(&self) -> (r: &Option<Priority>)
        ensures
            *r == self@.priority,
    {
        &self.priority
    }

    /// The link shown with the notification, when one was given.
    pub fn url(&self) -> (r: &Option<String>)
        ensures
            r.deep_view() == self@.url,
    {
        &self.url
    }

    /// The name of the sending application.
    pub fn application(&self) -> (r: &String)
        ensures
            r@ == self@.application,
    {
        &self.application
    }

    /// The short title of the notification.
    pub fn event(&self) -> (r: &String)
        ensures
            r@ == self@.event,
    {
        &self.event
    }

    /// The full body of the notification.
    pub fn description(&self) -> (r: &String)
        ensures
            r@ == self@.description,
    {
        &self.description
    }
}

/// Construction succeeds on every input within the documented bounds, and
/// the constructed notification keeps each field exactly as it was given.
pub proof fn lemma_create_within_bounds(
    api_keys: Seq<Seq<char>>,
    priority: Option<Priority>,
    url: Option<Seq<char>>,
    application: Seq<char>,
    event: Seq<char>,
    description: Seq<char>,
)
    requires
        byte_len(application) <= MAX_APP_LEN,
        byte_len(event) <= MAX_EVENT_LEN,
        byte_len(description) <= MAX_DESC_LEN,
        url matches Some(u) ==> byte_len(u) <= MAX_URL_LEN,
    ensures
        create_spec(api_keys, priority, url, application, event, description) == Ok::<
            NotificationView,
            CreationError,
        >(NotificationView { api_keys, priority, url, application, event, description }),
        create_spec(api_keys, priority, url, application, event, description).unwrap().wf(),
{
}

/// Checks run in a fixed order: an over-long application is reported first,
/// whatever the other fields hold.
pub proof fn lemma_validation_order(
    api_keys: Seq<Seq<char>>,
    priority: Option<Priority>,
    url: Option<Seq<char>>,
    application: Seq<char>,
    event: Seq<char>,
    description: Seq<char>,
)
    requires
        byte_len(application) > MAX_APP_LEN,
    ensures
        create_spec(api_keys, priority, url, application, event, description) == Err::<
            NotificationView,
            CreationError,
        >(CreationError::ApplicationLength(byte_len(application) as usize)),
{
}

} // verus!
