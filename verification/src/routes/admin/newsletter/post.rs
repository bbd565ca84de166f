use vstd::prelude::*;

use crate::domain::subscriber_email::{email_is_valid, invalid_email_message, SubscriberEmail};
use crate::idempotency::key::{key_check, key_error_message, law_try_from, IdempotencyKey};
use crate::idempotency::persistence::{
    completed_of, delivered_of, record_completed, record_delivered, record_opened,
    PublicationStore, RecordState,
};
use crate::routes::delivery::{
    delivery_start, event_allowed, next_action, next_state, ActionView, DeliveryAction,
    DeliveryEvent, DeliveryView, NewsletterDelivery,
};
use crate::routes::flash::{FlashLevel, FlashMessage};
use crate::utils::{e400, e500, is_see_other, see_other, AppError, HttpReply};

verus! {

/// The fields of the form that publishes a newsletter issue.
pub struct FormData {
    pub title: String,
    pub text_content: String,
    pub html_content: String,
    pub idempotency_key: String,
}

/// A confirmed subscriber whose stored address is valid.
pub struct ConfirmedSubscriber {
    pub email: SubscriberEmail,
}

/// Whether `result` is what checking the stored address `email` gives.
pub open spec fn checked_subscriber(email: Seq<char>, result: Result<ConfirmedSubscriber, String>) -> bool {
    &&& result is Ok <==> email_is_valid(email)
    &&& result matches Ok(s) ==> s.email@ == email
    &&& result matches Err(message) ==> message@ == invalid_email_message(email)
}

/// Checks the addresses stored for the confirmed subscribers, in order.
pub fn parse_confirmed_subscribers(emails: &Vec<String>) -> (r: Vec<Result<ConfirmedSubscriber, String>>)
    ensures
        r.len() == emails.len(),
        forall|i: int| 0 <= i < r.len() ==> checked_subscriber(emails@[i]@, #[trigger] r@[i]),
{
    let mut subscribers: Vec<Result<ConfirmedSubscriber, String>> = Vec::new();
    for i in 0..emails.len()
        invariant
            subscribers.len() == i,
            forall|j: int| 0 <= j < i ==> checked_subscriber(emails@[j]@, #[trigger] subscribers@[j]),
    {
        let checked = match SubscriberEmail::parse(emails[i].as_str()) {
            Ok(email) => Ok(ConfirmedSubscriber { email }),
            Err(e) => Err(e),
        };
        subscribers.push(checked);
    }
    subscribers
}

/// The addresses of the subscribers whose address is valid, in order.
pub open spec fn valid_recipients(subscribers: Seq<Result<ConfirmedSubscriber, String>>) -> Seq<Seq<char>>
    decreases subscribers.len(),
{
    if subscribers.len() == 0 {
        Seq::empty()
    } else {
        let rest = valid_recipients(subscribers.drop_last());
        match subscribers.last() {
            Ok(s) => rest.push(s.email@),
            Err(_) => rest,
        }
    }
}

/// The addresses of the subscribers whose address is valid, in order; the
/// others are skipped.
pub fn newsletter_recipients(subscribers: &Vec<Result<ConfirmedSubscriber, String>>) -> (r: Vec<String>)
    ensures
        r.deep_view() == valid_recipients(subscribers@),
{
    let mut recipients: Vec<String> = Vec::new();
    for i in 0..subscribers.len()
        invariant
            recipients.deep_view() == valid_recipients(subscribers@.take(i as int)),
    {
        assert(subscribers@.take(i + 1).drop_last() =~= subscribers@.take(i as int));
        match &subscribers[i] {
            Ok(s) => {
                recipients.push(s.email.to_string());
                assert(recipients.deep_view() =~= valid_recipients(subscribers@.take(i as int)).push(
                    subscribers@[i as int]->Ok_0.email@,
                ));
            },
            Err(_) => {},
        }
    }
    assert(subscribers@.take(subscribers.len() as int) =~= subscribers@);
    recipients
}

/// The recipients not yet served, in order.
pub open spec fn pending(recipients: Seq<Seq<char>>, delivered: Seq<Seq<char>>) -> Seq<Seq<char>>
    decreases recipients.len(),
{
    if recipients.len() == 0 {
        Seq::empty()
    } else {
        let rest = pending(recipients.drop_last(), delivered);
        if delivered.contains(recipients.last()) {
            rest
        } else {
            rest.push(recipients.last())
        }
    }
}

fn contains_string(v: &Vec<String>, x: &String) -> (r: bool)
    ensures
        r == v.deep_view().contains(x@),
{
    for i in 0..v.len()
        invariant
            forall|j: int| 0 <= j < i ==> v.deep_view()[j] != x@,
    {
        if v[i] == *x {
            assert(v.deep_view()[i as int] == x@);
            return true;
        }
    }
    false
}

/// The recipients of `recipients` that are not in `delivered`, in order.
pub fn pending_recipients(recipients: &Vec<String>, delivered: &Vec<String>) -> (r: Vec<String>)
    ensures
        r.deep_view() == pending(recipients.deep_view(), delivered.deep_view()),
{
    let mut r: Vec<String> = Vec::new();
    for i in 0..recipients.len()
        invariant
            r.deep_view() == pending(recipients.deep_view().take(i as int), delivered.deep_view()),
    {
        assert(recipients.deep_view().take(i + 1).drop_last() =~= recipients.deep_view().take(i as int));
        if !contains_string(delivered, &recipients[i]) {
            let c = recipients[i].clone();
            let ghost before = r.deep_view();
            r.push(c);
            assert(r.deep_view() =~= before.push(c@));
        }
    }
    assert(recipients.deep_view().take(recipients.len() as int) =~= recipients.deep_view());
    r
}

/// The flash message and reply of a published issue: the message
/// "The newsletter issue has been published!" and a redirect to the newsletter page.
pub open spec fn is_published_answer(flash: FlashMessage, reply: HttpReply) -> bool {
    &&& flash.level == FlashLevel::Info
    &&& flash.content@ == "The newsletter issue has been published!"@
    &&& is_see_other(reply, "/admin/newsletters"@)
}

fn published_answer() -> (r: (FlashMessage, HttpReply))
    ensures
        is_published_answer(r.0, r.1),
{
    (FlashMessage::info("The newsletter issue has been published!"), see_other("/admin/newsletters"))
}

/// How a publication request is answered without sending anything.
pub enum PublishAnswer {
    /// Redirect, without a flash message.
    Redirect(HttpReply),
    /// End the request with this error.
    Error(AppError),
    /// The issue had already been published for this key: flash this message
    /// and send this reply again.
    Published(FlashMessage, HttpReply),
}

/// A request that may publish: a logged-in user and a valid idempotency key
/// whose publication has not been completed.
pub struct PublishStart {
    user_id: u128,
    key: String,
}

impl View for PublishStart {
    type V = (u128, Seq<char>);

    closed spec fn view(&self) -> (u128, Seq<char>) {
        (self.user_id, self.key@)
    }
}

impl PublishStart {
    #[verifier::type_invariant]
    spec fn wf(self) -> bool {
        key_check(self.key@) is Ok
    }
}

/// Decides whether a publication request goes ahead: only a logged-in user
/// with a valid idempotency key may publish, and a key whose publication went
/// through is answered again as published, with nothing sent.
pub fn begin_publish(store: &PublicationStore, user_id: Result<Option<u128>, String>, idempotency_key: String) -> (r: Result<PublishStart, PublishAnswer>)
    ensures
        match user_id {
            Err(e) => r matches Err(PublishAnswer::Error(err)) && err.status == 500 && err.message@ == e@,
            Ok(None) => r matches Err(PublishAnswer::Redirect(reply)) && is_see_other(reply, "/login"@),
            Ok(Some(u)) => match key_check(idempotency_key@) {
                Err(ke) => r matches Err(PublishAnswer::Error(err)) && err.status == 400 && err.message@
                    == key_error_message(ke),
                Ok(()) => if completed_of(store@, (u, idempotency_key@)) {
                    r matches Err(PublishAnswer::Published(flash, reply)) && is_published_answer(flash, reply)
                } else {
                    r matches Ok(start) && start@ == (u, idempotency_key@) && key_check(start@.1) is Ok
                },
            },
        },
{
    let user = match user_id {
        Err(e) => return Err(PublishAnswer::Error(e500(e))),
        Ok(None) => return Err(PublishAnswer::Redirect(see_other("/login"))),
        Ok(Some(u)) => u,
    };
    let ghost given = idempotency_key;
    proof {
        law_try_from(given);
    }
    let key = match IdempotencyKey::try_from(idempotency_key) {
        Ok(key) => key,
        Err(e) => return Err(PublishAnswer::Error(e400(e.message()))),
    };
    let key_text = key.as_ref().to_owned();
    if store.is_completed(user, &key_text) {
        let (flash, reply) = published_answer();
        return Err(PublishAnswer::Published(flash, reply));
    }
    Ok(PublishStart { user_id: user, key: key_text })
}

/// The mathematical state of a publication in progress.
pub struct PublicationView {
    pub user_id: u128,
    pub key: Seq<char>,
    pub delivery: DeliveryView,
}

/// The delivery of one issue for one request, with the identity under which
/// its progress is recorded.
pub struct Publication {
    user_id: u128,
    key: String,
    delivery: NewsletterDelivery,
}

impl View for Publication {
    type V = PublicationView;

    closed spec fn view(&self) -> PublicationView {
        PublicationView { user_id: self.user_id, key: self.key@, delivery: self.delivery@ }
    }
}

impl Publication {
    #[verifier::type_invariant]
    spec fn wf(self) -> bool {
        key_check(self.key@) is Ok
    }
}

/// Opens the record of the request and starts the delivery to the
/// subscribers with a valid address that this key has not served yet.
pub fn start_delivery(
    store: &mut PublicationStore,
    start: PublishStart,
    subscribers: &Vec<Result<ConfirmedSubscriber, String>>,
) -> (p: Publication)
    ensures
        p@.user_id == start@.0,
        p@.key == start@.1,
        key_check(p@.key) is Ok,
        p@.delivery == delivery_start(pending(valid_recipients(subscribers@), delivered_of(old(store)@, start@))),
        final(store)@ == record_opened(old(store)@, start@),
{
    proof {
        use_type_invariant(&start);
    }
    let recipients = newsletter_recipients(subscribers);
    let delivered = store.delivered(start.user_id, &start.key);
    let to_send = pending_recipients(&recipients, &delivered);
    store.open(start.user_id, &start.key);
    Publication { user_id: start.user_id, key: start.key, delivery: NewsletterDelivery::new(to_send) }
}

/// What publishing asks for next.
pub enum PublishStep {
    /// Send the issue to this address.
    Send(String),
    /// Stop with this error.
    Fail(AppError),
    /// The issue went out: flash this message and send this reply.
    Done(FlashMessage, HttpReply),
}

/// The message of the error that stops publishing when sending to `email` fails.
pub open spec fn send_failure_message(email: Seq<char>) -> Seq<char> {
    "ニュースレターの発行を"@ + email + "に送信できませんでした。"@
}

/// The records after one step of the delivery `s` of publication `p`: a
/// success report records the last recipient as served, and the completion
/// of the delivery records the publication as complete.
pub open spec fn store_after_step(
    m: Map<(u128, Seq<char>), RecordState>,
    p: (u128, Seq<char>),
    s: DeliveryView,
    e: DeliveryEvent,
) -> Map<(u128, Seq<char>), RecordState> {
    let m1 = if e == DeliveryEvent::Proceed && !s.finished && s.next > 0 {
        record_delivered(m, p, s.recipients[s.next - 1])
    } else {
        m
    };
    if !s.finished && next_action(s, e) == ActionView::Complete {
        record_completed(m1, p)
    } else {
        m1
    }
}

/// Moves a publication on by one event: the delivery decides whom to send to,
/// and the store records each address served and the completion; a failed
/// send ends the request with a 500, and a complete delivery with the
/// published message and a redirect to the newsletter page.
pub fn publish_newsletter(
    store: &mut PublicationStore,
    publication: &mut Publication,
    event: DeliveryEvent,
) -> (r: PublishStep)
    requires
        !old(publication)@.delivery.finished,
        event_allowed(old(publication)@.delivery, event),
    ensures
        key_check(final(publication)@.key) is Ok,
        r is Done ==> completed_of(final(store)@, (old(publication)@.user_id, old(publication)@.key)),
        !(r is Done) ==> completed_of(final(store)@, (old(publication)@.user_id, old(publication)@.key))
            == completed_of(old(store)@, (old(publication)@.user_id, old(publication)@.key)),
        final(publication)@ == (PublicationView {
            delivery: next_state(old(publication)@.delivery, event),
            ..old(publication)@
        }),
        final(store)@ == store_after_step(
            old(store)@,
            (old(publication)@.user_id, old(publication)@.key),
            old(publication)@.delivery,
            event,
        ),
        match next_action(old(publication)@.delivery, event) {
            ActionView::Send(email) => r matches PublishStep::Send(m) && m@ == email,
            ActionView::Abort(email) => r matches PublishStep::Fail(err) && err.status == 500
                && err.message@ == send_failure_message(email),
            ActionView::Complete => r matches PublishStep::Done(flash, reply) && is_published_answer(flash, reply),
        },
{
    proof {
        use_type_invariant(&*publication);
    }
    let finished = publication.delivery.is_finished();
    let sent = publication.delivery.last_sent();
    if let Some(recipient) = sent {
        if event == DeliveryEvent::Proceed && !finished {
            store.record_delivery(publication.user_id, &publication.key, recipient);
        }
    }
    let mut delivery = NewsletterDelivery::new(Vec::new());
    std::mem::swap(&mut delivery, &mut publication.delivery);
    let action = delivery.step(event);
    std::mem::swap(&mut delivery, &mut publication.delivery);
    match action {
        DeliveryAction::Send(email) => PublishStep::Send(email),
        DeliveryAction::Abort(email) => {
            let mut message = "ニュースレターの発行を".to_owned();
            message.append(email.as_str());
            message.append("に送信できませんでした。");
            PublishStep::Fail(e500(message))
        },
        DeliveryAction::Complete => {
            if !finished {
                store.record_completion(publication.user_id, &publication.key);
            }
            let (flash, reply) = published_answer();
            PublishStep::Done(flash, reply)
        },
    }
}

/// Only the stored addresses that are valid receive the issue, in the order
/// they were stored.
pub proof fn law_only_valid_addresses_receive(
    emails: Seq<Seq<char>>,
    subscribers: Seq<Result<ConfirmedSubscriber, String>>,
)
    requires
        subscribers.len() == emails.len(),
        forall|i: int| 0 <= i < subscribers.len() ==> checked_subscriber(emails[i], #[trigger] subscribers[i]),
    ensures
        valid_recipients(subscribers) == emails.filter(|e: Seq<char>| email_is_valid(e)),
    decreases subscribers.len(),
{
    reveal_with_fuel(Seq::filter, 1);
    if subscribers.len() > 0 {
        let n = subscribers.len() - 1;
        law_only_valid_addresses_receive(emails.drop_last(), subscribers.drop_last());
        assert(checked_subscriber(emails[n], subscribers[n]));
    } else {
        assert(emails.filter(|e: Seq<char>| email_is_valid(e)) =~= Seq::<Seq<char>>::empty());
    }
}


/// `m1` and `m` agree on every publication but `p`.
pub open spec fn same_elsewhere(
    m1: Map<(u128, Seq<char>), RecordState>,
    m: Map<(u128, Seq<char>), RecordState>,
    p: (u128, Seq<char>),
) -> bool {
    forall|q: (u128, Seq<char>)|
        q != p ==> (#[trigger] m1.contains_key(q) == m.contains_key(q) && (m.contains_key(q) ==> m1[q]
            == m[q]))
}

/// The records and delivery state after `n` steps that all report success.
pub open spec fn run_on_success(
    m: Map<(u128, Seq<char>), RecordState>,
    p: (u128, Seq<char>),
    s: DeliveryView,
    n: nat,
) -> (Map<(u128, Seq<char>), RecordState>, DeliveryView)
    decreases n,
{
    if n == 0 {
        (m, s)
    } else {
        run_on_success(
            store_after_step(m, p, s, DeliveryEvent::Proceed),
            p,
            next_state(s, DeliveryEvent::Proceed),
            (n - 1) as nat,
        )
    }
}

proof fn lemma_run_split(
    m: Map<(u128, Seq<char>), RecordState>,
    p: (u128, Seq<char>),
    s: DeliveryView,
    a: nat,
    b: nat,
)
    ensures
        run_on_success(m, p, s, a + b) == run_on_success(
            run_on_success(m, p, s, a).0,
            p,
            run_on_success(m, p, s, a).1,
            b,
        ),
    decreases a,
{
    if a > 0 {
        lemma_run_split(
            store_after_step(m, p, s, DeliveryEvent::Proceed),
            p,
            next_state(s, DeliveryEvent::Proceed),
            (a - 1) as nat,
            b,
        );
        assert((a + b - 1) as nat == (a - 1) as nat + b);
    }
}

proof fn lemma_partial_run(
    m: Map<(u128, Seq<char>), RecordState>,
    p: (u128, Seq<char>),
    r: Seq<Seq<char>>,
    i: nat,
    n: nat,
)
    requires
        1 <= i,
        i + n <= r.len(),
    ensures
        ({
            let (m1, s1) = run_on_success(m, p, DeliveryView { recipients: r, next: i, finished: false, failed: false }, n);
            &&& s1 == DeliveryView { recipients: r, next: i + n, finished: false, failed: false }
            &&& delivered_of(m1, p) == delivered_of(m, p) + r.subrange(i - 1, i - 1 + n)
            &&& completed_of(m1, p) == completed_of(m, p)
            &&& same_elsewhere(m1, m, p)
        }),
    decreases n,
{
    let s = DeliveryView { recipients: r, next: i, finished: false, failed: false };
    if n == 0 {
        assert(r.subrange(i - 1, i - 1 + n) =~= Seq::<Seq<char>>::empty());
        assert(delivered_of(m, p) + r.subrange(i - 1, i - 1 + n) =~= delivered_of(m, p));
    } else {
        let m2 = store_after_step(m, p, s, DeliveryEvent::Proceed);
        assert(m2 == record_delivered(m, p, r[i - 1]));
        lemma_partial_run(m2, p, r, i + 1, (n - 1) as nat);
        let (m1, s1) = run_on_success(m, p, s, n);
        assert(delivered_of(m2, p) == delivered_of(m, p).push(r[i - 1]));
        assert(delivered_of(m, p).push(r[i - 1]) + r.subrange(i as int, i - 1 + n) =~= delivered_of(m, p)
            + r.subrange(i - 1, i - 1 + n));
    }
}

/// When every send succeeds, the publication ends recorded as complete, with
/// every recipient recorded as served after those served before; no other
/// publication's record changes. A later request with the same key is then
/// answered as published without sending (`begin_publish`).
pub proof fn law_completed_publication_is_recorded(
    m: Map<(u128, Seq<char>), RecordState>,
    p: (u128, Seq<char>),
    r: Seq<Seq<char>>,
)
    ensures
        ({
            let (m1, s1) = run_on_success(m, p, delivery_start(r), (r.len() + 1) as nat);
            &&& s1.finished
            &&& completed_of(m1, p)
            &&& delivered_of(m1, p) == delivered_of(m, p) + r
            &&& same_elsewhere(m1, m, p)
        }),
{
    let s0 = delivery_start(r);
    if r.len() == 0 {
        reveal_with_fuel(run_on_success, 2);
        assert(delivered_of(m, p) + r =~= delivered_of(m, p));
    } else {
        let n = r.len();
        let s1 = DeliveryView { recipients: r, next: 1, finished: false, failed: false };
        assert(store_after_step(m, p, s0, DeliveryEvent::Proceed) == m);
        assert(next_state(s0, DeliveryEvent::Proceed) == s1);
        assert(run_on_success(m, p, s0, (n + 1) as nat) == run_on_success(m, p, s1, n as nat));
        lemma_run_split(m, p, s1, (n - 1) as nat, 1);
        assert(((n - 1) as nat + 1) as nat == n as nat);
        lemma_partial_run(m, p, r, 1, (n - 1) as nat);
        let (m2, s2) = run_on_success(m, p, s1, (n - 1) as nat);
        assert(s2 == DeliveryView { recipients: r, next: n, finished: false, failed: false });
        let m3 = store_after_step(m2, p, s2, DeliveryEvent::Proceed);
        assert(m3 == record_completed(record_delivered(m2, p, r[n - 1]), p));
        assert(run_on_success(m2, p, s2, 1) == (m3, next_state(s2, DeliveryEvent::Proceed))) by {
            reveal_with_fuel(run_on_success, 2);
        }
        assert(run_on_success(m, p, s0, (n + 1) as nat) == (m3, next_state(s2, DeliveryEvent::Proceed)));
        assert(delivered_of(m2, p) == delivered_of(m, p) + r.subrange(0, n - 1));
        assert(delivered_of(m3, p) == delivered_of(m2, p).push(r[n - 1]));
        assert(delivered_of(m2, p).push(r[n - 1]) =~= delivered_of(m, p) + r);
        assert(completed_of(m3, p));
        assert(same_elsewhere(m3, m, p)) by {
            assert forall|q: (u128, Seq<char>)| q != p implies (#[trigger] m3.contains_key(q)
                == m.contains_key(q) && (m.contains_key(q) ==> m3[q] == m[q])) by {
                assert(m3.contains_key(q) == m2.contains_key(q));
                assert(m2.contains_key(q) == m.contains_key(q));
            }
        }
    }
}

/// When the send to the recipient at position `k` fails after every earlier
/// send succeeded, the publication stops with that recipient named, and its
/// record keeps the `k` recipients served, unfinished; no other publication's
/// record changes. A retry with the same key then sends only to the others.
pub proof fn law_failed_publication_keeps_progress(
    m: Map<(u128, Seq<char>), RecordState>,
    p: (u128, Seq<char>),
    r: Seq<Seq<char>>,
    k: nat,
)
    requires
        k < r.len(),
    ensures
        ({
            let (m1, s1) = run_on_success(m, p, delivery_start(r), k + 1);
            &&& event_allowed(s1, DeliveryEvent::Failed)
            &&& next_action(s1, DeliveryEvent::Failed) == ActionView::Abort(r[k as int])
            &&& store_after_step(m1, p, s1, DeliveryEvent::Failed) == m1
            &&& delivered_of(m1, p) == delivered_of(m, p) + r.take(k as int)
            &&& completed_of(m1, p) == completed_of(m, p)
            &&& same_elsewhere(m1, m, p)
        }),
{
    let s0 = delivery_start(r);
    let s1 = DeliveryView { recipients: r, next: 1, finished: false, failed: false };
    assert(store_after_step(m, p, s0, DeliveryEvent::Proceed) == m);
    assert(next_state(s0, DeliveryEvent::Proceed) == s1);
    assert(run_on_success(m, p, s0, k + 1) == run_on_success(m, p, s1, k));
    lemma_partial_run(m, p, r, 1, k);
    assert(r.subrange(0, k as int) =~= r.take(k as int));
}

/// A retry sends exactly to the recipients not yet served, in order.
pub proof fn law_retry_skips_served(recipients: Seq<Seq<char>>, delivered: Seq<Seq<char>>, x: Seq<char>)
    ensures
        pending(recipients, delivered).contains(x) <==> (recipients.contains(x) && !delivered.contains(x)),
    decreases recipients.len(),
{
    if recipients.len() > 0 {
        let rest = recipients.drop_last();
        let last = recipients.last();
        law_retry_skips_served(rest, delivered, x);
        let pr = pending(rest, delivered);
        // `recipients` holds `x` exactly when `rest` does or `x` is the last one.
        assert(recipients.contains(x) <==> (rest.contains(x) || x == last)) by {
            if recipients.contains(x) && x != last {
                let i = choose|i: int| 0 <= i < recipients.len() && recipients[i] == x;
                assert(i < recipients.len() - 1);
                assert(rest[i] == x);
            }
            if rest.contains(x) {
                let i = choose|i: int| 0 <= i < rest.len() && rest[i] == x;
                assert(recipients[i] == x);
            }
            if x == last {
                assert(recipients[recipients.len() - 1] == x);
            }
        }
        if !delivered.contains(last) {
            // The pending list grows by `last`.
            assert(pr.push(last).contains(x) <==> (pr.contains(x) || x == last)) by {
                if pr.push(last).contains(x) && x != last {
                    let i = choose|i: int| 0 <= i < pr.push(last).len() && pr.push(last)[i] == x;
                    assert(pr[i] == x);
                }
                if pr.contains(x) {
                    let i = choose|i: int| 0 <= i < pr.len() && pr[i] == x;
                    assert(pr.push(last)[i] == x);
                }
                if x == last {
                    assert(pr.push(last)[pr.len() as int] == x);
                }
            }
        }
    }
}


/// A step that completes the delivery records the publication as complete,
/// whatever the publication's state before; `begin_publish` then answers any
/// later request with the same user and key as published, without sending.
pub proof fn law_repeat_after_completion_sends_nothing(
    m: Map<(u128, Seq<char>), RecordState>,
    p: (u128, Seq<char>),
    s: DeliveryView,
    e: DeliveryEvent,
)
    requires
        !s.finished,
        event_allowed(s, e),
        next_action(s, e) == ActionView::Complete,
    ensures
        completed_of(store_after_step(m, p, s, e), p),
{
}

proof fn lemma_pending_nothing_served(all: Seq<Seq<char>>)
    ensures
        pending(all, Seq::empty()) == all,
    decreases all.len(),
{
    if all.len() > 0 {
        lemma_pending_nothing_served(all.drop_last());
        assert(all.drop_last().push(all.last()) =~= all);
    }
}

/// A first request for a key, with no record yet, delivers to every
/// subscriber with a valid address, in order.
pub proof fn law_first_request_delivers_to_all(
    m: Map<(u128, Seq<char>), RecordState>,
    p: (u128, Seq<char>),
    all: Seq<Seq<char>>,
)
    requires
        !m.contains_key(p),
    ensures
        pending(all, delivered_of(m, p)) == all,
{
    lemma_pending_nothing_served(all);
}

proof fn lemma_contains_concat(a: Seq<Seq<char>>, b: Seq<Seq<char>>, x: Seq<char>)
    ensures
        (a + b).contains(x) <==> (a.contains(x) || b.contains(x)),
{
    if (a + b).contains(x) {
        let i = choose|i: int| 0 <= i < (a + b).len() && (a + b)[i] == x;
        if i < a.len() {
            assert(a[i] == x);
        } else {
            assert(b[i - a.len()] == x);
        }
    }
    if a.contains(x) {
        let i = choose|i: int| 0 <= i < a.len() && a[i] == x;
        assert((a + b)[i] == x);
    }
    if b.contains(x) {
        let i = choose|i: int| 0 <= i < b.len() && b[i] == x;
        assert((a + b)[a.len() + i] == x);
    }
}

/// When a request's delivery fails at the recipient in position `k` of its
/// list, a retry with the same key is not answered as published unless the
/// key was already complete, and it sends to exactly the subscribers with a
/// valid address that were neither served before that request nor served
/// by it.
pub proof fn law_retry_sends_only_to_unserved(
    m: Map<(u128, Seq<char>), RecordState>,
    p: (u128, Seq<char>),
    all: Seq<Seq<char>>,
    k: nat,
    x: Seq<char>,
)
    requires
        k < pending(all, delivered_of(m, p)).len(),
    ensures
        ({
            let r = pending(all, delivered_of(m, p));
            let (m1, s1) = run_on_success(record_opened(m, p), p, delivery_start(r), k + 1);
            let m2 = store_after_step(m1, p, s1, DeliveryEvent::Failed);
            &&& completed_of(m2, p) == completed_of(m, p)
            &&& pending(all, delivered_of(m2, p)).contains(x) <==> (all.contains(x)
                && !delivered_of(m, p).contains(x) && !r.take(k as int).contains(x))
        }),
{
    let r = pending(all, delivered_of(m, p));
    let m0 = record_opened(m, p);
    assert(delivered_of(m0, p) == delivered_of(m, p));
    assert(completed_of(m0, p) == completed_of(m, p));
    law_failed_publication_keeps_progress(m0, p, r, k);
    let (m1, s1) = run_on_success(m0, p, delivery_start(r), k + 1);
    law_retry_skips_served(all, delivered_of(m1, p), x);
    lemma_contains_concat(delivered_of(m, p), r.take(k as int), x);
}

} // verus!
