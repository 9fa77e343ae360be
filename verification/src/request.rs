//! The requests that a run asks its caller to send.

use vstd::prelude::*;

verus! {

/// Where the service is reached; every address begins with it.
pub open spec fn base_url() -> Seq<char> {
    "https://api.meetup.com/"@
}

/// The address that describes the group of the given name.
pub open spec fn group_url(group_name: Seq<char>) -> Seq<char> {
    base_url() + group_name
}

/// The address that lists the events of the group of the given name.
pub open spec fn events_url(group_name: Seq<char>) -> Seq<char> {
    group_url(group_name) + "/events"@
}

/// The address that takes the answers to an event of a group, both named by
/// their identifiers.
pub open spec fn rsvp_url(group_id: Seq<char>, event_id: Seq<char>) -> Seq<char> {
    base_url() + group_id + "/events/"@ + event_id + "/rsvps"@
}

/// The name by which a submission introduces its sender to the service.
pub open spec fn client_name() -> Seq<char> {
    "meetup-auto-rsvp"@
}

/// The header in which a submission carries the name of its sender.
pub open spec fn client_header() -> Seq<char> {
    "user-agent"@
}

/// A read: an address and the query parameters to send with it, in order.
#[derive(Debug, PartialEq, Eq)]
pub struct GetRequest {
    pub url: String,
    pub query: Vec<(String, String)>,
}

/// A [`GetRequest`] as a mathematical value.
pub struct GetRequestView {
    pub url: Seq<char>,
    pub query: Seq<(Seq<char>, Seq<char>)>,
}

/// The pairs of a list of names and values, in the order of the list.
pub open spec fn pairs_view(pairs: Seq<(String, String)>) -> Seq<(Seq<char>, Seq<char>)> {
    pairs.map_values(|pair: (String, String)| (pair.0@, pair.1@))
}

impl View for GetRequest {
    type V = GetRequestView;

    open spec fn view(&self) -> GetRequestView {
        GetRequestView { url: self.url@, query: pairs_view(self.query@) }
    }
}

impl Clone for GetRequest {
    fn clone(&self) -> (copy: GetRequest)
        ensures
            copy@ == self@,
    {
        let mut query: Vec<(String, String)> = Vec::new();
        let mut i: usize = 0;
        while i < self.query.len()
            invariant
                i <= self.query.len(),
                query@.len() == i,
                forall|j: int|
                    0 <= j < i ==> query@[j].0@ == self.query@[j].0@ && query@[j].1@
                        == self.query@[j].1@,
            decreases self.query.len() - i,
        {
            let pair = &self.query[i];
            query.push((pair.0.clone(), pair.1.clone()));
            i = i + 1;
        }
        assert(pairs_view(query@) =~= pairs_view(self.query@));
        GetRequest { url: self.url.clone(), query }
    }
}

/// The read that resolves a group: its address, with the key as the only
/// parameter.
pub open spec fn group_request(api_key: Seq<char>, group_name: Seq<char>) -> GetRequestView {
    GetRequestView { url: group_url(group_name), query: seq![("key"@, api_key)] }
}

/// The read that lists the upcoming events of a group: the address of its
/// events, asking for the upcoming ones, then the key.
pub open spec fn events_request(api_key: Seq<char>, group_name: Seq<char>) -> GetRequestView {
    GetRequestView {
        url: events_url(group_name),
        query: seq![("status"@, "upcoming"@), ("key"@, api_key)],
    }
}

impl GetRequest {
    /// The read that resolves the group of the given name.
    pub fn for_group(api_key: &str, group_name: &str) -> (request: GetRequest)
        ensures
            request@ == group_request(api_key@, group_name@),
    {
        let mut url = String::from_str("https://api.meetup.com/");
        url.append(group_name);
        let mut query: Vec<(String, String)> = Vec::new();
        query.push((String::from_str("key"), String::from_str(api_key)));
        let request = GetRequest { url, query };
        assert(request@.query =~= group_request(api_key@, group_name@).query);
        request
    }

    /// The read that lists the upcoming events of the group of the given
    /// name.
    pub fn for_events(api_key: &str, group_name: &str) -> (request: GetRequest)
        ensures
            request@ == events_request(api_key@, group_name@),
    {
        let mut url = String::from_str("https://api.meetup.com/");
        url.append(group_name);
        url.append("/events");
        let mut query: Vec<(String, String)> = Vec::new();
        query.push((String::from_str("status"), String::from_str("upcoming")));
        query.push((String::from_str("key"), String::from_str(api_key)));
        let request = GetRequest { url, query };
        assert(request@.query =~= events_request(api_key@, group_name@).query);
        request
    }
}

/// A submission: the answer "yes" to one event of one group.
#[derive(Debug, PartialEq, Eq)]
pub struct RsvpRequest {
    /// The key that the service knows the caller by.
    pub api_key: String,
    /// The identifier of the group, as the service gave it.
    pub group_id: String,
    /// The identifier of the event, as the service gave it.
    pub event_id: String,
    /// The answer.
    pub response: String,
}

/// An [`RsvpRequest`] as a mathematical value.
pub struct RsvpRequestView {
    pub api_key: Seq<char>,
    pub group_id: Seq<char>,
    pub event_id: Seq<char>,
    pub response: Seq<char>,
}

impl View for RsvpRequest {
    type V = RsvpRequestView;

    open spec fn view(&self) -> RsvpRequestView {
        RsvpRequestView {
            api_key: self.api_key@,
            group_id: self.group_id@,
            event_id: self.event_id@,
            response: self.response@,
        }
    }
}

impl Clone for RsvpRequest {
    fn clone(&self) -> (copy: RsvpRequest)
        ensures
            copy == *self,
    {
        RsvpRequest {
            api_key: self.api_key.clone(),
            group_id: self.group_id.clone(),
            event_id: self.event_id.clone(),
            response: self.response.clone(),
        }
    }
}

/// The submission that answers "yes" to the given event of the given group.
pub open spec fn rsvp_request(
    api_key: Seq<char>,
    group_id: Seq<char>,
    event_id: Seq<char>,
) -> RsvpRequestView {
    RsvpRequestView { api_key, group_id, event_id, response: "yes"@ }
}

/// The headers of a submission, by name and value: the one that names the
/// sender.
pub open spec fn rsvp_headers() -> Seq<(Seq<char>, Seq<char>)> {
    seq![(client_header(), client_name())]
}

/// The fields of the body of a submission, by name and value: the key, then
/// the answer.
pub open spec fn rsvp_body(request: RsvpRequestView) -> Seq<(Seq<char>, Seq<char>)> {
    seq![("key"@, request.api_key), ("response"@, request.response)]
}

impl RsvpRequest {
    /// The submission that answers "yes" to the given event of the given
    /// group.
    pub fn new(api_key: &str, group_id: &str, event_id: &str) -> (request: RsvpRequest)
        ensures
            request@ == rsvp_request(api_key@, group_id@, event_id@),
    {
        RsvpRequest {
            api_key: String::from_str(api_key),
            group_id: String::from_str(group_id),
            event_id: String::from_str(event_id),
            response: String::from_str("yes"),
        }
    }

    /// The address to post this submission to.
    pub fn url(&self) -> (url: String)
        ensures
            url@ == rsvp_url(self@.group_id, self@.event_id),
    {
        let mut url = String::from_str("https://api.meetup.com/");
        url.append(self.group_id.as_str());
        url.append("/events/");
        url.append(self.event_id.as_str());
        url.append("/rsvps");
        url
    }

    /// The name to send as the client's name with this submission.
    pub fn user_agent(&self) -> (name: &'static str)
        ensures
            name@ == client_name(),
    {
        "meetup-auto-rsvp"
    }

    /// The headers to send with this submission, by name and value.
    pub fn headers(&self) -> (headers: Vec<(String, String)>)
        ensures
            pairs_view(headers@) == rsvp_headers(),
    {
        let mut headers: Vec<(String, String)> = Vec::new();
        headers.push((String::from_str("user-agent"), String::from_str(self.user_agent())));
        assert(pairs_view(headers@) =~= rsvp_headers());
        headers
    }

    /// The fields of the body to send with this submission, by name and
    /// value.
    pub fn body(&self) -> (fields: Vec<(String, String)>)
        ensures
            pairs_view(fields@) == rsvp_body(self@),
    {
        let mut fields: Vec<(String, String)> = Vec::new();
        fields.push((String::from_str("key"), self.api_key.clone()));
        fields.push((String::from_str("response"), self.response.clone()));
        assert(pairs_view(fields@) =~= rsvp_body(self@));
        fields
    }
}

} // verus!
