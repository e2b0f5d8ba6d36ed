//! The loopback redirect session.
//!
//! After the listener has started, inbound redirect requests arrive one by
//! one.  The session decides, for each one, whether a notification is
//! broadcast to the front-end: the first redirect's URL is delivered under a
//! fixed event name, exactly once, and every later redirect is ignored.  The
//! listener itself and the broadcast mechanism live outside this crate; the
//! session is the decision between them.

use vstd::prelude::*;

verus! {

/// A broadcast notification for the front-end layer: an event name and the
/// payload it carries.
pub struct Notification {
    pub event: String,
    pub payload: String,
}

/// The name of the broadcast that carries a captured redirect URL.
pub open spec fn redirect_event() -> Seq<char> {
    "redirect_uri"@
}

/// The event name under which a captured redirect URL is broadcast.
pub fn redirect_event_name() -> (r: &'static str)
    ensures
        r@ == redirect_event(),
{
    "redirect_uri"
}

/// One step of the session protocol: from the session's state — the URL
/// already delivered, if any — and the URL of an inbound redirect, the state
/// afterwards and the payload broadcast, if any.
pub open spec fn step(state: Option<Seq<char>>, url: Seq<char>) -> (
    Option<Seq<char>>,
    Option<Seq<char>>,
) {
    match state {
        None => (Some(url), Some(url)),
        Some(u) => (Some(u), None),
    }
}

/// Every payload broadcast when the redirects in `urls` arrive, in order, at
/// a session whose state is `state`.
pub open spec fn emissions_from(state: Option<Seq<char>>, urls: Seq<Seq<char>>) -> Seq<Seq<char>>
    decreases urls.len(),
{
    if urls.len() == 0 {
        Seq::empty()
    } else {
        let next = step(state, urls[0]);
        match next.1 {
            Some(p) => seq![p] + emissions_from(next.0, urls.skip(1)),
            None => emissions_from(next.0, urls.skip(1)),
        }
    }
}

/// The payload a returned notification carries, if one was returned.
pub open spec fn emitted(n: Option<Notification>) -> Option<Seq<char>> {
    match n {
        Some(note) => Some(note.payload@),
        None => None,
    }
}

/// A session that has delivered its notification broadcasts nothing more,
/// however many further redirects arrive.
pub proof fn lemma_delivered_session_is_silent(u: Seq<char>, urls: Seq<Seq<char>>)
    ensures
        emissions_from(Some(u), urls) =~= Seq::<Seq<char>>::empty(),
    decreases urls.len(),
{
    if urls.len() > 0 {
        lemma_delivered_session_is_silent(u, urls.skip(1));
    }
}

/// No notification is broadcast before a redirect has been received: every
/// payload a fresh session broadcasts is the URL of one of the redirects
/// that arrived, and with no redirects nothing is broadcast.
pub proof fn lemma_no_notification_without_redirect(urls: Seq<Seq<char>>)
    ensures
        urls.len() == 0 ==> emissions_from(None, urls) =~= Seq::<Seq<char>>::empty(),
        forall|i: int|
            0 <= i < emissions_from(None, urls).len() ==> urls.contains(
                emissions_from(None, urls)[i],
            ),
{
    if urls.len() > 0 {
        lemma_delivered_session_is_silent(urls[0], urls.skip(1));
        assert(urls.contains(urls[0]));
        assert(emissions_from(None, urls) =~= seq![urls[0]]);
    }
}

/// Once any redirects arrive at a fresh session, exactly one notification is
/// broadcast, and it carries the first redirect's URL.
pub proof fn lemma_exactly_one_notification(urls: Seq<Seq<char>>)
    requires
        urls.len() > 0,
    ensures
        emissions_from(None, urls) =~= seq![urls[0]],
{
    lemma_delivered_session_is_silent(urls[0], urls.skip(1));
}

/// What a session remembers: the URL it has delivered, if any.
pub struct RedirectSession {
    delivered: Option<String>,
}

impl RedirectSession {
    /// The URL this session has delivered, if any.
    pub closed spec fn delivered_url(self) -> Option<Seq<char>> {
        match self.delivered {
            Some(u) => Some(u@),
            None => None,
        }
    }

    /// A session that has delivered nothing yet.
    pub fn new() -> (s: Self)
        ensures
            s.delivered_url() is None,
    {
        RedirectSession { delivered: None }
    }

    /// Whether the single notification has been delivered already.
    pub fn is_delivered(&self) -> (b: bool)
        ensures
            b == (self.delivered_url() is Some),
    {
        self.delivered.is_some()
    }

    /// Handle one inbound redirect request: on the first, hand back the
    /// notification to broadcast, carrying that redirect's URL under the
    /// fixed event name; on any later one, nothing.
    pub fn on_redirect(&mut self, url: String) -> (n: Option<Notification>)
        ensures
            final(self).delivered_url() == step(old(self).delivered_url(), url@).0,
            emitted(n) == step(old(self).delivered_url(), url@).1,
            n matches Some(note) ==> note.event@ == redirect_event(),
    {
        if self.delivered.is_some() {
            None
        } else {
            self.delivered = Some(url.clone());
            Some(
                Notification {
                    event: String::from_str(redirect_event_name()),
                    payload: url,
                },
            )
        }
    }
}

} // verus!
