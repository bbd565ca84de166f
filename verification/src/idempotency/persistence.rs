use vstd::prelude::*;

verus! {

/// What is recorded of one publication request, identified by the user who
/// sent it and its idempotency key.
pub struct RecordState {
    /// The addresses the issue has been sent to, in order.
    pub delivered: Seq<Seq<char>>,
    /// Whether the publication went through to the end.
    pub completed: bool,
}

/// The addresses recorded as served for `p`.
pub open spec fn delivered_of(m: Map<(u128, Seq<char>), RecordState>, p: (u128, Seq<char>)) -> Seq<Seq<char>> {
    if m.contains_key(p) {
        m[p].delivered
    } else {
        Seq::empty()
    }
}

/// Whether the publication `p` is recorded as complete.
pub open spec fn completed_of(m: Map<(u128, Seq<char>), RecordState>, p: (u128, Seq<char>)) -> bool {
    m.contains_key(p) && m[p].completed
}

/// The records once `p` has a record (an empty one if it had none).
pub open spec fn record_opened(m: Map<(u128, Seq<char>), RecordState>, p: (u128, Seq<char>)) -> Map<(u128, Seq<char>), RecordState> {
    if m.contains_key(p) {
        m
    } else {
        m.insert(p, RecordState { delivered: Seq::empty(), completed: false })
    }
}

/// The records once `recipient` is recorded as served for `p`.
pub open spec fn record_delivered(
    m: Map<(u128, Seq<char>), RecordState>,
    p: (u128, Seq<char>),
    recipient: Seq<char>,
) -> Map<(u128, Seq<char>), RecordState> {
    m.insert(p, RecordState { delivered: delivered_of(m, p).push(recipient), completed: completed_of(m, p) })
}

/// The records once `p` is recorded as complete.
pub open spec fn record_completed(m: Map<(u128, Seq<char>), RecordState>, p: (u128, Seq<char>)) -> Map<(u128, Seq<char>), RecordState> {
    m.insert(p, RecordState { delivered: delivered_of(m, p), completed: true })
}

struct PublicationRecord {
    user_id: u128,
    key: String,
    delivered: Vec<String>,
    completed: bool,
}

spec fn key_of(r: PublicationRecord) -> (u128, Seq<char>) {
    (r.user_id, r.key@)
}

spec fn state_of(r: PublicationRecord) -> RecordState {
    RecordState { delivered: r.delivered.deep_view(), completed: r.completed }
}

/// Later records override earlier ones with the same identity.
spec fn records_map(s: Seq<PublicationRecord>) -> Map<(u128, Seq<char>), RecordState>
    decreases s.len(),
{
    if s.len() == 0 {
        Map::empty()
    } else {
        records_map(s.drop_last()).insert(key_of(s.last()), state_of(s.last()))
    }
}

proof fn lemma_push(s: Seq<PublicationRecord>, r: PublicationRecord)
    ensures
        records_map(s.push(r)) == records_map(s).insert(key_of(r), state_of(r)),
{
    assert(s.push(r).drop_last() =~= s);
}

proof fn lemma_absent(s: Seq<PublicationRecord>, p: (u128, Seq<char>))
    requires
        forall|j: int| 0 <= j < s.len() ==> key_of(#[trigger] s[j]) != p,
    ensures
        !records_map(s).contains_key(p),
    decreases s.len(),
{
    if s.len() > 0 {
        assert(key_of(s[s.len() - 1]) != p);
        lemma_absent(s.drop_last(), p);
    }
}

proof fn lemma_lookup(s: Seq<PublicationRecord>, i: int, p: (u128, Seq<char>))
    requires
        0 <= i < s.len(),
        key_of(s[i]) == p,
        forall|j: int| i < j < s.len() ==> key_of(#[trigger] s[j]) != p,
    ensures
        records_map(s).contains_key(p),
        records_map(s)[p] == state_of(s[i]),
    decreases s.len(),
{
    if i < s.len() - 1 {
        assert(key_of(s[s.len() - 1]) != p);
        lemma_lookup(s.drop_last(), i, p);
    }
}

proof fn lemma_update(s: Seq<PublicationRecord>, i: int, r: PublicationRecord)
    requires
        0 <= i < s.len(),
        key_of(s[i]) == key_of(r),
        forall|j: int| i < j < s.len() ==> key_of(#[trigger] s[j]) != key_of(r),
    ensures
        records_map(s.update(i, r)) == records_map(s).insert(key_of(r), state_of(r)),
    decreases s.len(),
{
    let u = s.update(i, r);
    if i == s.len() - 1 {
        assert(u.drop_last() =~= s.drop_last());
        assert(records_map(u) =~= records_map(s).insert(key_of(r), state_of(r)));
    } else {
        assert(key_of(s[s.len() - 1]) != key_of(r));
        lemma_update(s.drop_last(), i, r);
        assert(u.drop_last() =~= s.drop_last().update(i, r));
        assert(records_map(u) =~= records_map(s).insert(key_of(r), state_of(r)));
    }
}

fn copy_strings(v: &Vec<String>) -> (r: Vec<String>)
    ensures
        r.deep_view() == v.deep_view(),
{
    let mut r: Vec<String> = Vec::new();
    for i in 0..v.len()
        invariant
            r.deep_view() == v.deep_view().take(i as int),
    {
        let c = v[i].clone();
        assert(c@ == v.deep_view()[i as int]);
        let ghost before = r.deep_view();
        r.push(c);
        assert(r.deep_view() =~= before.push(c@));
        assert(v.deep_view().take(i + 1) =~= v.deep_view().take(i as int).push(c@));
    }
    assert(v.deep_view().take(v.len() as int) =~= v.deep_view());
    r
}

/// The record of the publication requests seen so far, keyed by user and
/// idempotency key.
pub struct PublicationStore {
    records: Vec<PublicationRecord>,
}

impl View for PublicationStore {
    type V = Map<(u128, Seq<char>), RecordState>;

    closed spec fn view(&self) -> Map<(u128, Seq<char>), RecordState> {
        records_map(self.records@)
    }
}

impl PublicationStore {
    /// A store with no records.
    pub fn new() -> (r: PublicationStore)
        ensures
            r@ == Map::<(u128, Seq<char>), RecordState>::empty(),
    {
        PublicationStore { records: Vec::new() }
    }

    /// The position of the record that holds `(user_id, key)`.
    fn find(&self, user_id: u128, key: &String) -> (r: Option<usize>)
        ensures
            match r {
                Some(i) => i < self.records.len() && key_of(self.records@[i as int]) == (user_id, key@)
                    && forall|j: int| i < j < self.records.len() ==> key_of(#[trigger] self.records@[j])
                    != (user_id, key@),
                None => forall|j: int| 0 <= j < self.records.len() ==> key_of(#[trigger] self.records@[j])
                    != (user_id, key@),
            },
    {
        let mut i = self.records.len();
        while i > 0
            invariant
                i <= self.records.len(),
                forall|j: int| i <= j < self.records.len() ==> key_of(#[trigger] self.records@[j]) != (
                    user_id,
                    key@,
                ),
            decreases i,
        {
            i = i - 1;
            if self.records[i].user_id == user_id && self.records[i].key == *key {
                return Some(i);
            }
        }
        None
    }

    /// The addresses recorded as served for `(user_id, key)`.
    pub fn delivered(&self, user_id: u128, key: &String) -> (r: Vec<String>)
        ensures
            r.deep_view() == delivered_of(self@, (user_id, key@)),
    {
        match self.find(user_id, key) {
            Some(i) => {
                proof {
                    lemma_lookup(self.records@, i as int, (user_id, key@));
                }
                copy_strings(&self.records[i].delivered)
            },
            None => {
                proof {
                    lemma_absent(self.records@, (user_id, key@));
                }
                Vec::new()
            },
        }
    }

    /// Whether `(user_id, key)` is recorded as complete.
    pub fn is_completed(&self, user_id: u128, key: &String) -> (r: bool)
        ensures
            r == completed_of(self@, (user_id, key@)),
    {
        match self.find(user_id, key) {
            Some(i) => {
                proof {
                    lemma_lookup(self.records@, i as int, (user_id, key@));
                }
                self.records[i].completed
            },
            None => {
                proof {
                    lemma_absent(self.records@, (user_id, key@));
                }
                false
            },
        }
    }

    /// Makes sure `(user_id, key)` has a record.
    pub fn open(&mut self, user_id: u128, key: &String)
        ensures
            final(self)@ == record_opened(old(self)@, (user_id, key@)),
    {
        match self.find(user_id, key) {
            Some(i) => {
                proof {
                    lemma_lookup(self.records@, i as int, (user_id, key@));
                }
            },
            None => {
                proof {
                    lemma_absent(self.records@, (user_id, key@));
                }
                let r = PublicationRecord {
                    user_id,
                    key: key.clone(),
                    delivered: Vec::new(),
                    completed: false,
                };
                proof {
                    lemma_push(self.records@, r);
                    assert(r.delivered.deep_view() =~= Seq::<Seq<char>>::empty());
                }
                self.records.push(r);
            },
        }
    }

    /// Sets the record of `(user_id, key)`, given the position of its current
    /// record, if any.
    fn put(&mut self, at: Option<usize>, r: PublicationRecord)
        requires
            match at {
                Some(i) => i < old(self).records.len() && key_of(old(self).records@[i as int]) == key_of(r)
                    && forall|j: int| i < j < old(self).records.len() ==> key_of(
                    #[trigger] old(self).records@[j],
                ) != key_of(r),
                None => true,
            },
        ensures
            final(self)@ == old(self)@.insert(key_of(r), state_of(r)),
    {
        match at {
            Some(i) => {
                proof {
                    lemma_update(self.records@, i as int, r);
                }
                self.records.set(i, r);
            },
            None => {
                proof {
                    lemma_push(self.records@, r);
                }
                self.records.push(r);
            },
        }
    }

    /// Records that the issue of `(user_id, key)` went to `recipient`.
    pub fn record_delivery(&mut self, user_id: u128, key: &String, recipient: String)
        ensures
            final(self)@ == record_delivered(old(self)@, (user_id, key@), recipient@),
    {
        let at = self.find(user_id, key);
        let ghost old_delivered = delivered_of(self@, (user_id, key@));
        let (mut delivered, completed) = match at {
            Some(i) => {
                proof {
                    lemma_lookup(self.records@, i as int, (user_id, key@));
                }
                (copy_strings(&self.records[i].delivered), self.records[i].completed)
            },
            None => {
                proof {
                    lemma_absent(self.records@, (user_id, key@));
                }
                (Vec::new(), false)
            },
        };
        assert(delivered.deep_view() =~= old_delivered);
        delivered.push(recipient);
        let r = PublicationRecord { user_id, key: key.clone(), delivered, completed };
        assert(state_of(r).delivered =~= old_delivered.push(recipient@));
        self.put(at, r);
    }

    /// Records that the publication of `(user_id, key)` went through.
    pub fn record_completion(&mut self, user_id: u128, key: &String)
        ensures
            final(self)@ == record_completed(old(self)@, (user_id, key@)),
    {
        let at = self.find(user_id, key);
        let delivered = match at {
            Some(i) => {
                proof {
                    lemma_lookup(self.records@, i as int, (user_id, key@));
                }
                copy_strings(&self.records[i].delivered)
            },
            None => {
                proof {
                    lemma_absent(self.records@, (user_id, key@));
                }
                Vec::new()
            },
        };
        let r = PublicationRecord { user_id, key: key.clone(), delivered, completed: true };
        assert(state_of(r).delivered =~= delivered_of(old(self)@, (user_id, key@)));
        self.put(at, r);
    }
}


/// Each change of the records touches only the record it names: every other
/// publication keeps its record, or its lack of one, exactly.
pub proof fn law_updates_leave_other_records_alone(
    m: Map<(u128, Seq<char>), RecordState>,
    p: (u128, Seq<char>),
    q: (u128, Seq<char>),
    recipient: Seq<char>,
)
    requires
        q != p,
    ensures
        record_opened(m, p).contains_key(q) == m.contains_key(q),
        record_delivered(m, p, recipient).contains_key(q) == m.contains_key(q),
        record_completed(m, p).contains_key(q) == m.contains_key(q),
        m.contains_key(q) ==> record_opened(m, p)[q] == m[q],
        m.contains_key(q) ==> record_delivered(m, p, recipient)[q] == m[q],
        m.contains_key(q) ==> record_completed(m, p)[q] == m[q],
{
}

/// What each change does to the record it names: opening keeps what was
/// recorded, a delivery adds one served address at the end, and completion
/// keeps the served addresses.
pub proof fn law_updates_of_the_named_record(
    m: Map<(u128, Seq<char>), RecordState>,
    p: (u128, Seq<char>),
    recipient: Seq<char>,
)
    ensures
        record_opened(m, p).contains_key(p),
        delivered_of(record_opened(m, p), p) == delivered_of(m, p),
        completed_of(record_opened(m, p), p) == completed_of(m, p),
        delivered_of(record_delivered(m, p, recipient), p) == delivered_of(m, p).push(recipient),
        completed_of(record_delivered(m, p, recipient), p) == completed_of(m, p),
        delivered_of(record_completed(m, p), p) == delivered_of(m, p),
        completed_of(record_completed(m, p), p),
{
}

/// A publication recorded as complete stays complete, whatever is recorded
/// afterwards for it or for any other request.
pub proof fn law_completion_is_never_forgotten(
    m: Map<(u128, Seq<char>), RecordState>,
    p: (u128, Seq<char>),
    q: (u128, Seq<char>),
    recipient: Seq<char>,
)
    requires
        completed_of(m, p),
    ensures
        completed_of(record_opened(m, q), p),
        completed_of(record_delivered(m, q, recipient), p),
        completed_of(record_completed(m, q), p),
{
}

} // verus!
