use vstd::prelude::*;

verus! {

/// What the handler reports back to the delivery after its last action.
#[derive(Debug, Clone, Copy, PartialEq, Eq, Structural)]
pub enum DeliveryEvent {
    /// Start the delivery, or the last e-mail was sent.
    Proceed,
    /// Sending the last e-mail failed.
    Failed,
}

/// What the delivery asks the handler to do next.
pub enum DeliveryAction {
    /// Send the issue to this address.
    Send(String),
    /// Stop: sending to this address failed.
    Abort(String),
    /// Every recipient has been sent the issue.
    Complete,
}

/// The mathematical state of a delivery.
pub struct DeliveryView {
    pub recipients: Seq<Seq<char>>,
    pub next: nat,
    pub finished: bool,
    /// Whether the delivery ended on a failed send.
    pub failed: bool,
}

/// The mathematical value of an action.
pub enum ActionView {
    Send(Seq<char>),
    Abort(Seq<char>),
    Complete,
}

pub open spec fn view_action(a: DeliveryAction) -> ActionView {
    match a {
        DeliveryAction::Send(m) => ActionView::Send(m@),
        DeliveryAction::Abort(m) => ActionView::Abort(m@),
        DeliveryAction::Complete => ActionView::Complete,
    }
}

/// A delivery that has not sent anything yet.
pub open spec fn delivery_start(recipients: Seq<Seq<char>>) -> DeliveryView {
    DeliveryView { recipients, next: 0, finished: false, failed: false }
}

/// A report of failure is only meaningful after a send.
pub open spec fn event_allowed(s: DeliveryView, e: DeliveryEvent) -> bool {
    e == DeliveryEvent::Failed && !s.finished ==> s.next > 0
}

/// The state a delivery moves to on an event.
pub open spec fn next_state(s: DeliveryView, e: DeliveryEvent) -> DeliveryView {
    if s.finished {
        s
    } else if e == DeliveryEvent::Proceed && s.next < s.recipients.len() {
        DeliveryView { next: s.next + 1, ..s }
    } else if e == DeliveryEvent::Proceed {
        DeliveryView { finished: true, ..s }
    } else {
        DeliveryView { finished: true, failed: true, ..s }
    }
}

/// The action a delivery asks for on an event. A delivery that has ended
/// keeps answering with its outcome: the failed recipient, or completion.
pub open spec fn next_action(s: DeliveryView, e: DeliveryEvent) -> ActionView {
    if s.finished {
        if s.failed {
            ActionView::Abort(s.recipients[s.next - 1])
        } else {
            ActionView::Complete
        }
    } else if e == DeliveryEvent::Proceed {
        if s.next < s.recipients.len() {
            ActionView::Send(s.recipients[s.next as int])
        } else {
            ActionView::Complete
        }
    } else {
        ActionView::Abort(s.recipients[s.next - 1])
    }
}

/// The delivery of one issue to a list of recipients, one after the other.
pub struct NewsletterDelivery {
    recipients: Vec<String>,
    next: usize,
    finished: bool,
    failed: bool,
}

impl View for NewsletterDelivery {
    type V = DeliveryView;

    closed spec fn view(&self) -> DeliveryView {
        DeliveryView {
            recipients: self.recipients.deep_view(),
            next: self.next as nat,
            finished: self.finished,
            failed: self.failed,
        }
    }
}

impl NewsletterDelivery {
    #[verifier::type_invariant]
    spec fn wf(self) -> bool {
        &&& self.next <= self.recipients.len()
        &&& self.failed ==> self.finished && self.next > 0
    }

    /// A delivery to `recipients`, in order.
    pub fn new(recipients: Vec<String>) -> (d: NewsletterDelivery)
        ensures
            d@ == delivery_start(recipients.deep_view()),
    {
        NewsletterDelivery { recipients, next: 0, finished: false, failed: false }
    }

    /// Whether the delivery has ended.
    pub fn is_finished(&self) -> (r: bool)
        ensures
            r == self@.finished,
    {
        self.finished
    }

    /// The address of the last send asked for, if any.
    pub fn last_sent(&self) -> (r: Option<String>)
        ensures
            self@.next == 0 ==> r is None,
            self@.next > 0 ==> (r matches Some(m) && m@ == self@.recipients[self@.next - 1]),
    {
        proof {
            use_type_invariant(self);
        }
        if self.next == 0 {
            None
        } else {
            Some(self.recipients[self.next - 1].clone())
        }
    }

    /// Moves the delivery on by one event, and says what to do next.
    pub fn step(&mut self, event: DeliveryEvent) -> (a: DeliveryAction)
        requires
            event_allowed(old(self)@, event),
        ensures
            final(self)@ == next_state(old(self)@, event),
            view_action(a) == next_action(old(self)@, event),
    {
        proof {
            use_type_invariant(&*self);
        }
        if self.finished {
            if self.failed {
                return DeliveryAction::Abort(self.recipients[self.next - 1].clone());
            }
            return DeliveryAction::Complete;
        }
        match event {
            DeliveryEvent::Proceed => {
                if self.next < self.recipients.len() {
                    let recipient = self.recipients[self.next].clone();
                    self.next = self.next + 1;
                    DeliveryAction::Send(recipient)
                } else {
                    self.finished = true;
                    DeliveryAction::Complete
                }
            },
            DeliveryEvent::Failed => {
                let recipient = self.recipients[self.next - 1].clone();
                self.finished = true;
                self.failed = true;
                DeliveryAction::Abort(recipient)
            },
        }
    }
}

/// The actions of `n` steps that all report success, starting from `s`.
pub open spec fn actions_on_success(s: DeliveryView, n: nat) -> Seq<ActionView>
    decreases n,
{
    if n == 0 {
        Seq::empty()
    } else {
        seq![next_action(s, DeliveryEvent::Proceed)] + actions_on_success(
            next_state(s, DeliveryEvent::Proceed),
            (n - 1) as nat,
        )
    }
}

/// The sends of the given recipients, in order, then the completion.
pub open spec fn sends_then_complete(recipients: Seq<Seq<char>>) -> Seq<ActionView> {
    recipients.map_values(|r: Seq<char>| ActionView::Send(r)).push(ActionView::Complete)
}

proof fn lemma_actions_from(r: Seq<Seq<char>>, i: nat)
    requires
        i <= r.len(),
    ensures
        actions_on_success(DeliveryView { recipients: r, next: i, finished: false, failed: false }, (r.len() - i + 1) as nat)
            == sends_then_complete(r.subrange(i as int, r.len() as int)),
    decreases r.len() - i,
{
    let s = DeliveryView { recipients: r, next: i, finished: false, failed: false };
    let n = (r.len() - i + 1) as nat;
    if i == r.len() {
        assert(actions_on_success(next_state(s, DeliveryEvent::Proceed), 0) == Seq::<ActionView>::empty());
        assert(r.subrange(i as int, r.len() as int) =~= Seq::<Seq<char>>::empty());
        assert(actions_on_success(s, n) =~= sends_then_complete(r.subrange(i as int, r.len() as int)));
    } else {
        lemma_actions_from(r, (i + 1) as nat);
        let rest = r.subrange(i + 1 as int, r.len() as int);
        assert(r.subrange(i as int, r.len() as int) =~= seq![r[i as int]] + rest);
        assert(actions_on_success(s, n) =~= sends_then_complete(r.subrange(i as int, r.len() as int)));
    }
}

/// When every send succeeds, the issue goes to each recipient once, in the
/// order given, and the delivery then completes.
pub proof fn law_every_recipient_once_in_order(recipients: Seq<Seq<char>>)
    ensures
        actions_on_success(delivery_start(recipients), (recipients.len() + 1) as nat)
            == sends_then_complete(recipients),
{
    lemma_actions_from(recipients, 0);
    assert(recipients.subrange(0, recipients.len() as int) =~= recipients);
}

/// A failed send stops the delivery at once, naming the recipient it failed
/// for; nothing is sent after it, and the delivery never reports completion.
pub proof fn law_failure_stops_delivery(s: DeliveryView, e: DeliveryEvent)
    requires
        !s.finished,
        s.next > 0,
    ensures
        next_action(s, DeliveryEvent::Failed) == ActionView::Abort(s.recipients[s.next - 1]),
        next_state(s, DeliveryEvent::Failed).finished,
        next_action(next_state(s, DeliveryEvent::Failed), e) == ActionView::Abort(s.recipients[s.next - 1]),
{
}

} // verus!
