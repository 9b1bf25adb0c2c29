use vstd::prelude::*;

verus! {

/// How many of `published` chunks a hub of capacity `capacity` still holds.
pub open spec fn retained_count(capacity: nat, published: nat) -> nat {
    if published < capacity {
        published
    } else {
        capacity
    }
}

/// Sequence number of the oldest chunk a hub still holds.
pub open spec fn oldest_retained(capacity: nat, published: nat) -> nat {
    (published - retained_count(capacity, published)) as nat
}

/// The hub as a mathematical value: its capacity and every chunk ever
/// published, in publish order. A chunk's sequence number is its index.
pub ghost struct HubView {
    pub capacity: nat,
    pub history: Seq<Seq<u8>>,
}

/// What one receive hands a subscriber, by sequence number.
pub ghost enum Observation {
    /// The chunk with this sequence number.
    Item(nat),
    /// This many chunks were dropped before the subscriber read them.
    Gap(nat),
    /// Nothing new.
    Nothing,
}

/// One receive by a subscriber whose next sequence number is `cursor`: what it
/// observes and its next sequence number afterwards.
pub open spec fn receive_step(v: HubView, cursor: nat) -> (Observation, nat) {
    let published = v.history.len();
    let first = oldest_retained(v.capacity, published);
    if cursor >= published {
        (Observation::Nothing, cursor)
    } else if cursor < first {
        (Observation::Gap((first - cursor) as nat), first)
    } else {
        (Observation::Item(cursor), cursor + 1)
    }
}

/// What a receive returns.
#[derive(Debug, Clone, PartialEq, Eq)]
pub enum Delivery {
    /// The next chunk in publish order.
    Chunk(Vec<u8>),
    /// This many chunks were dropped; the next receive continues with the
    /// oldest chunk still held.
    Lagged(u64),
    /// Nothing was published since the last receive.
    Empty,
}

/// `d` is what a receive returns when it observes `o` on a hub whose chunks
/// are `history`.
pub open spec fn delivers(d: Delivery, o: Observation, history: Seq<Seq<u8>>) -> bool {
    match o {
        Observation::Item(k) => d matches Delivery::Chunk(c) && c@ == history[k as int],
        Observation::Gap(n) => d matches Delivery::Lagged(m) && m as nat == n,
        Observation::Nothing => d matches Delivery::Empty,
    }
}

/// A subscriber's cursor: the sequence number of the next chunk it reads.
#[derive(Debug, Clone, Copy, PartialEq, Eq)]
pub struct Subscription {
    next: u64,
}

impl Subscription {
    /// Sequence number of the next chunk this subscriber reads.
    pub closed spec fn cursor(&self) -> nat {
        self.next as nat
    }

    /// Executable form of `cursor`.
    pub fn next_sequence(&self) -> (r: u64)
        ensures
            r as nat == self.cursor(),
    {
        self.next
    }
}

/// Single-producer, many-subscriber fan-out of byte chunks. Publishing never
/// waits on a subscriber: the hub keeps only the newest `capacity` chunks, and
/// a subscriber that falls further behind is told how many it lost.
pub struct BroadcastHub {
    capacity: usize,
    published: u64,
    retained: Vec<Vec<u8>>,
    history: Ghost<Seq<Seq<u8>>>,
}

impl View for BroadcastHub {
    type V = HubView;

    closed spec fn view(&self) -> HubView {
        HubView { capacity: self.capacity as nat, history: self.history@ }
    }
}

impl BroadcastHub {
    /// The hub's fields agree with its history.
    pub closed spec fn wf(&self) -> bool {
        &&& self.capacity > 0
        &&& self.published as nat == self.history@.len()
        &&& self.retained@.len() == retained_count(self.capacity as nat, self.published as nat)
        &&& forall|i: int|
            0 <= i < self.retained@.len() ==> #[trigger] self.retained@[i]@ == self.history@[
                oldest_retained(self.capacity as nat, self.published as nat) + i
            ]
    }

    /// A hub that keeps the newest `capacity` chunks for its subscribers.
    pub fn new(capacity: usize) -> (r: Self)
        requires
            capacity > 0,
        ensures
            r.wf(),
            r@.capacity == capacity as nat,
            r@.history == Seq::<Seq<u8>>::empty(),
    {
        BroadcastHub {
            capacity,
            published: 0,
            retained: Vec::new(),
            history: Ghost(Seq::empty()),
        }
    }

    /// How many chunks were ever published.
    pub fn published_count(&self) -> (r: u64)
        requires
            self.wf(),
        ensures
            r as nat == self@.history.len(),
    {
        self.published
    }

    /// How many chunks each subscriber may fall behind before it loses data.
    pub fn capacity(&self) -> (r: usize)
        ensures
            r as nat == self@.capacity,
    {
        self.capacity
    }

    /// A subscription that sees every chunk published from now on, and none
    /// published before.
    pub fn subscribe(&self) -> (s: Subscription)
        requires
            self.wf(),
        ensures
            s.cursor() == self@.history.len(),
    {
        Subscription { next: self.published }
    }

    /// Hands `chunk` to every subscription. With no subscriber this succeeds
    /// and nobody will ever read the chunk.
    pub fn publish(&mut self, chunk: Vec<u8>)
        requires
            old(self).wf(),
            old(self)@.history.len() < u64::MAX,
        ensures
            final(self).wf(),
            final(self)@.capacity == old(self)@.capacity,
            final(self)@.history == old(self)@.history.push(chunk@),
    {
        let ghost old_history = self.history@;
        let ghost cap = self.capacity as nat;
        let ghost old_first = oldest_retained(cap, self.published as nat);
        if self.retained.len() == self.capacity {
            self.retained.remove(0);
        }
        self.retained.push(chunk);
        self.published = self.published + 1;
        self.history = Ghost(old_history.push(chunk@));
        proof {
            let first = oldest_retained(cap, self.published as nat);
            assert forall|i: int| 0 <= i < self.retained@.len() implies #[trigger] self.retained@[
                i
            ]@ == self.history@[first + i] by {
                if i < self.retained@.len() - 1 {
                    if old_first == first {
                        assert(self.retained@[i]@ == old_history[old_first + i]);
                    } else {
                        assert(self.retained@[i]@ == old_history[old_first + i + 1]);
                    }
                }
            }
        }
    }

    /// The next thing `sub` observes, which moves `sub` past it.
    pub fn try_recv(&self, sub: &mut Subscription) -> (d: Delivery)
        requires
            self.wf(),
        ensures
            final(sub).cursor() == receive_step(self@, old(sub).cursor()).1,
            delivers(d, receive_step(self@, old(sub).cursor()).0, self@.history),
    {
        let first: u64 = self.published - self.retained.len() as u64;
        if sub.next >= self.published {
            Delivery::Empty
        } else if sub.next < first {
            let lost: u64 = first - sub.next;
            sub.next = first;
            Delivery::Lagged(lost)
        } else {
            let idx: usize = (sub.next - first) as usize;
            let chunk = self.retained[idx].clone();
            proof {
                assert(self.retained@[idx as int]@ == self.history@[first + idx]);
            }
            sub.next = sub.next + 1;
            Delivery::Chunk(chunk)
        }
    }
}


/// One thing that happens to the hub, seen from one subscriber.
pub ghost enum HubStep {
    /// The producer publishes this chunk.
    Publish(Seq<u8>),
    /// The subscriber receives once.
    Receive,
}

/// One step: the hub after it, the subscriber's cursor after it, and what the
/// subscriber observed (`Nothing` for a publish).
pub open spec fn apply_step(v: HubView, cursor: nat, step: HubStep) -> (HubView, nat, Observation) {
    match step {
        HubStep::Publish(c) => (HubView { capacity: v.capacity, history: v.history.push(c) }, cursor, Observation::Nothing),
        HubStep::Receive => {
            let (o, next) = receive_step(v, cursor);
            (v, next, o)
        },
    }
}

/// A run of steps: the hub and the cursor at its end, and what the subscriber
/// observed at each step.
pub open spec fn run_steps(v: HubView, cursor: nat, steps: Seq<HubStep>) -> (HubView, nat, Seq<Observation>)
    decreases steps.len(),
{
    if steps.len() == 0 {
        (v, cursor, Seq::empty())
    } else {
        let (v1, c1, o) = apply_step(v, cursor, steps[0]);
        let (v2, c2, os) = run_steps(v1, c1, steps.drop_first());
        (v2, c2, seq![o] + os)
    }
}

/// The sequence numbers of the chunks in `obs`, in order.
pub open spec fn received_items(obs: Seq<Observation>) -> Seq<nat>
    decreases obs.len(),
{
    if obs.len() == 0 {
        Seq::empty()
    } else {
        match obs[0] {
            Observation::Item(k) => seq![k] + received_items(obs.drop_first()),
            _ => received_items(obs.drop_first()),
        }
    }
}

/// The subscriber never falls more than the capacity behind during the run.
pub open spec fn keeps_pace(v: HubView, cursor: nat, steps: Seq<HubStep>) -> bool
    decreases steps.len(),
{
    steps.len() == 0 || {
        let (v1, c1, o) = apply_step(v, cursor, steps[0]);
        &&& v1.history.len() <= c1 + v1.capacity
        &&& keeps_pace(v1, c1, steps.drop_first())
    }
}

/// A run only appends to the history, keeps the capacity, and never moves a
/// cursor back; every chunk it hands out is at or after the starting cursor.
pub proof fn lemma_run_moves_forward(v: HubView, cursor: nat, steps: Seq<HubStep>)
    requires
        cursor <= v.history.len(),
    ensures
        ({
            let (v2, c2, obs) = run_steps(v, cursor, steps);
            &&& v2.capacity == v.capacity
            &&& v.history.is_prefix_of(v2.history)
            &&& cursor <= c2 <= v2.history.len()
            &&& obs.len() == steps.len()
            &&& forall|i: int| 0 <= i < obs.len() ==> (#[trigger] obs[i] matches Observation::Item(k) ==> cursor <= k < v2.history.len())
        }),
    decreases steps.len(),
{
    if steps.len() > 0 {
        let (v1, c1, o) = apply_step(v, cursor, steps[0]);
        lemma_run_moves_forward(v1, c1, steps.drop_first());
        let (v2, c2, os) = run_steps(v1, c1, steps.drop_first());
        let obs = seq![o] + os;
        assert forall|i: int| 0 <= i < obs.len() implies (#[trigger] obs[i] matches Observation::Item(k) ==> cursor <= k < v2.history.len()) by {
            if i > 0 {
                assert(obs[i] == os[i - 1]);
            }
        }
    }
}

/// No replay: a subscription taken when the hub holds history `H` never
/// receives a chunk of `H`, whatever is published and received afterwards;
/// every chunk it receives was published after it subscribed.
pub proof fn lemma_no_replay(v: HubView, steps: Seq<HubStep>)
    ensures
        ({
            let (v2, c2, obs) = run_steps(v, v.history.len(), steps);
            forall|i: int| 0 <= i < obs.len() ==> (#[trigger] obs[i] matches Observation::Item(k) ==> v.history.len() <= k < v2.history.len())
        }),
{
    lemma_run_moves_forward(v, v.history.len(), steps);
}

/// A subscriber that keeps pace sees no gap, and receives exactly the chunks
/// published from its cursor on, each once and in publish order.
pub proof fn lemma_keeping_pace_sees_all_in_order(v: HubView, cursor: nat, steps: Seq<HubStep>)
    requires
        cursor <= v.history.len() <= cursor + v.capacity,
        keeps_pace(v, cursor, steps),
    ensures
        ({
            let (v2, c2, obs) = run_steps(v, cursor, steps);
            &&& forall|i: int| 0 <= i < obs.len() ==> !(#[trigger] obs[i] matches Observation::Gap(_))
            &&& received_items(obs) == Seq::new((c2 - cursor) as nat, |j: int| (cursor + j) as nat)
        }),
    decreases steps.len(),
{
    let (v2, c2, obs) = run_steps(v, cursor, steps);
    if steps.len() == 0 {
        assert(received_items(obs) =~= Seq::new((c2 - cursor) as nat, |j: int| (cursor + j) as nat));
    } else {
        let (v1, c1, o) = apply_step(v, cursor, steps[0]);
        lemma_keeping_pace_sees_all_in_order(v1, c1, steps.drop_first());
        lemma_run_moves_forward(v1, c1, steps.drop_first());
        let (v3, c3, os) = run_steps(v1, c1, steps.drop_first());
        assert(obs == seq![o] + os);
        assert(obs.drop_first() =~= os);
        assert forall|i: int| 0 <= i < obs.len() implies !(#[trigger] obs[i] matches Observation::Gap(_)) by {
            if i > 0 {
                assert(obs[i] == os[i - 1]);
            }
        }
        if let Observation::Item(k) = o {
            assert(received_items(obs) == seq![k] + received_items(os));
            assert(received_items(obs) =~= Seq::new((c2 - cursor) as nat, |j: int| (cursor + j) as nat));
        } else {
            assert(received_items(obs) == received_items(os));
            assert(c1 == cursor);
        }
    }
}

/// A subscriber that fell more than the capacity behind is told of the gap
/// first, by how many chunks it lost, and then receives the oldest chunk still
/// held: the first of the newest `capacity` chunks.
pub proof fn lemma_lagging_sees_gap_then_newest(v: HubView, cursor: nat)
    requires
        v.capacity > 0,
        cursor + v.capacity < v.history.len(),
    ensures
        ({
            let first = (v.history.len() - v.capacity) as nat;
            &&& receive_step(v, cursor) == (Observation::Gap((first - cursor) as nat), first)
            &&& receive_step(v, first) == (Observation::Item(first), first + 1)
        }),
{
}

} // verus!
