use vstd::prelude::*;

verus! {

use crate::channels::{channel_drain, channel_pair, channel_send};
use crate::fixed::{abs_int, sat64, sat_add, PRUNE_LIMIT, SCALE};
use crate::neuron::{step, step_outcome, wf_config, wf_state, Config, NeuronState};
use crate::rng::{rand_below_i64, rand_below_usize};
use crate::table::{table_get, table_insert, table_new};

/// Delivery failed because the target's mailbox no longer exists.
#[derive(Clone, Copy, PartialEq, Eq, Structural, Debug)]
pub struct ChannelClosedError;

/// The state shared by every agent: the immutable configuration, one sending
/// handle per agent id, and the concurrently written activity table.
pub struct SharedNet {
    config: Config,
    senders: Vec<crossbeam::channel::Sender<i64>>,
    table: dashmap::DashMap<usize, i64>,
}

/// One agent: its private state and the receiving end of its mailbox.
pub struct Neuron {
    pub state: NeuronState,
    pub inbox: crossbeam::channel::Receiver<i64>,
}

/// The table's entry when one exists, and 0 when none was ever published.
pub open spec fn or_zero(lookup: Option<i64>) -> int {
    match lookup {
        Some(v) => v as int,
        None => 0,
    }
}

/// The saturating left-to-right sum of a drained mailbox.
pub open spec fn spec_sat_sum(s: Seq<i64>) -> int
    decreases s.len(),
{
    if s.len() == 0 {
        0
    } else {
        sat64(spec_sat_sum(s.drop_last()) + s.last())
    }
}

/// The activity an agent uses for a peer, given what the table lookup
/// returned: the found entry, or the default 0 for an id never published.
pub fn activity_or_default(lookup: Option<i64>) -> (r: i64)
    ensures
        r as int == or_zero(lookup),
{
    match lookup {
        Some(v) => v,
        None => 0,
    }
}

/// The saturating sum of the drained messages, added pairwise in queue
/// order; per-message identity is discarded, only the sum is used.
pub fn sum_values(vals: &Vec<i64>) -> (s: i64)
    ensures
        s as int == spec_sat_sum(vals@),
{
    let mut s: i64 = 0;
    let mut j: usize = 0;
    while j < vals.len()
        invariant
            j <= vals@.len(),
            s as int == spec_sat_sum(vals@.take(j as int)),
        decreases vals@.len() - j,
    {
        s = sat_add(s, vals[j]);
        j += 1;
        proof {
            assert(vals@.take(j as int).drop_last() =~= vals@.take(j as int - 1));
            assert(vals@.take(j as int).last() == vals@[j as int - 1]);
        }
    }
    proof {
        assert(vals@.take(vals@.len() as int) =~= vals@);
    }
    s
}

impl SharedNet {
    pub closed spec fn spec_config(&self) -> Config {
        self.config
    }

    /// Whether the shared state is well formed: the configuration is valid
    /// and there is exactly one sending handle per agent id.
    pub closed spec fn wf(&self) -> bool {
        &&& wf_config(self.config)
        &&& self.senders@.len() == self.config.size
    }

    pub fn config(&self) -> (c: Config)
        ensures
            c == self.spec_config(),
    {
        self.config
    }

    /// Enqueues `value` onto the target's mailbox. The unbounded queue never
    /// blocks the caller; the error comes back only when the target's
    /// mailbox has been torn down, which a running network never does.
    pub fn deliver(&self, target: usize, value: i64) -> (r: Result<(), ChannelClosedError>)
        requires
            self.wf(),
            target < self.spec_config().size,
    {
        match channel_send(&self.senders[target], value) {
            Ok(()) => Ok(()),
            Err(_) => Err(ChannelClosedError),
        }
    }

    /// Publishes `value` as the latest activity of `id`: overwrites that
    /// table entry alone. No atomicity across ids is claimed; readers of
    /// other entries may observe values of slightly different moments.
    pub fn publish_activity(&self, id: usize, value: i64) {
        table_insert(&self.table, id, value);
    }

    /// The last activity published for `id`, with 0 as the default for an id
    /// never published; the lookup itself never fails. The choice between
    /// entry and default is made exactly by `activity_or_default`.
    pub fn read_activity(&self, id: usize) -> (r: i64) {
        activity_or_default(table_get(&self.table, id))
    }

    /// A snapshot of the activity table, one `(id, activity)` pair per agent
    /// in id order. Safe to call while agents run; the entries of different
    /// ids may be of slightly different moments.
    pub fn report(&self) -> (r: Vec<(usize, i64)>)
        requires
            self.wf(),
        ensures
            r@.len() == self.spec_config().size,
            forall|j: int| 0 <= j < r@.len() ==> (#[trigger] r@[j]).0 == j,
    {
        let size = self.config.size;
        let mut out: Vec<(usize, i64)> = Vec::new();
        let mut id: usize = 0;
        while id < size
            invariant
                id <= size,
                out@.len() == id,
                forall|j: int| 0 <= j < id ==> (#[trigger] out@[j]).0 == j,
            decreases size - id,
        {
            let a = self.read_activity(id);
            out.push((id, a));
            id += 1;
        }
        out
    }
}

impl Neuron {
    /// Empties the mailbox: every message currently queued, in queue order.
    pub fn drain_inbox(&self) -> Vec<i64> {
        channel_drain(&self.inbox)
    }
}

/// Builds the network: one mailbox pair per id, each agent seeded with a
/// random initial energy and activity in [0, 1) (the energy additionally
/// clamped at the cap, so that the invariant holds from the start), and the
/// activity table initialized to 0 for every id.
pub fn build(cfg: Config) -> (r: (Vec<Neuron>, SharedNet))
    requires
        wf_config(cfg),
    ensures
        r.1.wf(),
        r.1.spec_config() == cfg,
        r.0@.len() == cfg.size,
        forall|i: int|
            0 <= i < r.0@.len() ==> wf_state((#[trigger] r.0@[i]).state, cfg)
                && r.0@[i].state.id == i && r.0@[i].state.links@.len() == 0
                && r.0@[i].state.sleep_ms == 1 && r.0@[i].state.activity < SCALE
                && r.0@[i].state.energy < SCALE,
{
    let mut senders: Vec<crossbeam::channel::Sender<i64>> = Vec::new();
    let mut neurons: Vec<Neuron> = Vec::new();
    let table = table_new();
    let mut id: usize = 0;
    while id < cfg.size
        invariant
            id <= cfg.size,
            wf_config(cfg),
            senders@.len() == id,
            neurons@.len() == id,
            forall|i: int|
                0 <= i < neurons@.len() ==> wf_state((#[trigger] neurons@[i]).state, cfg)
                    && neurons@[i].state.id == i && neurons@[i].state.links@.len() == 0
                    && neurons@[i].state.sleep_ms == 1 && neurons@[i].state.activity < SCALE
                    && neurons@[i].state.energy < SCALE,
        decreases cfg.size - id,
    {
        let (tx, rx) = channel_pair();
        senders.push(tx);
        table_insert(&table, id, 0);
        let e0 = rand_below_i64(SCALE);
        let energy = if e0 > cfg.max_energy {
            cfg.max_energy
        } else {
            e0
        };
        let activity = rand_below_i64(SCALE);
        neurons.push(
            Neuron {
                state: NeuronState { id, energy, activity, sleep_ms: 1, links: Vec::new() },
                inbox: rx,
            },
        );
        id += 1;
    }
    (neurons, SharedNet { config: cfg, senders, table })
}

/// One full cycle against the shared state, with the per-cycle draws given
/// from outside (a deterministic source makes the outcome reproducible):
/// observes the candidate's and each link target's activity, drains the
/// mailbox, applies the pure `step`, delivers the outgoing messages — one
/// whose mailbox is gone is dropped, never a crash — and publishes the new
/// activity under this agent's id.
pub fn cycle_with(
    n: &mut Neuron,
    shared: &SharedNet,
    dt: i64,
    decay: i64,
    r: i64,
    candidate: usize,
) -> (fired: bool)
    requires
        shared.wf(),
        wf_state(old(n).state, shared.spec_config()),
        0 <= dt,
        0 <= decay <= SCALE,
        0 <= r < SCALE,
        candidate < shared.spec_config().size,
    ensures
        wf_state(final(n).state, shared.spec_config()),
        final(n).state.id == old(n).state.id,
        fired ==> final(n).state.energy == 0 && final(n).state.sleep_ms == 1,
        !fired ==> final(n).state.sleep_ms as int == (if 2 * (old(n).state.sleep_ms as int)
            > 1000 {
            1000int
        } else {
            2 * (old(n).state.sleep_ms as int)
        }),
        !fired ==> forall|j: int|
            0 <= j < final(n).state.links@.len() ==> abs_int(
                (#[trigger] final(n).state.links@[j]).weight as int,
            ) > PRUNE_LIMIT,
        exists|inbox_sum: int, cand_act: int, link_acts: Seq<int>|
            step_outcome(
                old(n).state,
                final(n).state,
                fired,
                shared.spec_config(),
                dt as int,
                decay as int,
                r as int,
                candidate as int,
                inbox_sum,
                cand_act,
                link_acts,
            ),
{
    let cfg = shared.config();
    let cand_act = shared.read_activity(candidate);
    let mut link_acts: Vec<i64> = Vec::new();
    let m = n.state.links.len();
    let mut j: usize = 0;
    while j < m
        invariant
            j <= m,
            m == n.state.links@.len(),
            link_acts@.len() == j,
        decreases m - j,
    {
        let t = n.state.links[j].target;
        link_acts.push(shared.read_activity(t));
        j += 1;
    }
    let queued = n.drain_inbox();
    let inbox_sum = sum_values(&queued);
    let out = step(&mut n.state, &cfg, dt, decay, inbox_sum, r, candidate, cand_act, &link_acts);
    let mut k: usize = 0;
    while k < out.messages.len()
        invariant
            shared.wf(),
            cfg == shared.spec_config(),
            forall|i: int|
                0 <= i < out.messages@.len() ==> (#[trigger] out.messages@[i]).target < cfg.size,
        decreases out.messages@.len() - k,
    {
        let msg = out.messages[k];
        let _ = shared.deliver(msg.target, msg.value);
        k += 1;
    }
    shared.publish_activity(n.state.id, n.state.activity);
    proof {
        assert(step_outcome(
            old(n).state,
            n.state,
            out.fired,
            shared.spec_config(),
            dt as int,
            decay as int,
            r as int,
            candidate as int,
            inbox_sum as int,
            cand_act as int,
            link_acts@.map_values(|v: i64| v as int),
        ));
    }
    out.fired
}

/// One full cycle with fresh random draws: one uniform unit draw — reused,
/// as the dynamics prescribe, by the noise term, the link-formation trigger
/// and the acceptance test alike — and one uniform candidate draw.
pub fn cycle(n: &mut Neuron, shared: &SharedNet, dt: i64, decay: i64) -> (fired: bool)
    requires
        shared.wf(),
        wf_state(old(n).state, shared.spec_config()),
        0 <= dt,
        0 <= decay <= SCALE,
    ensures
        wf_state(final(n).state, shared.spec_config()),
        final(n).state.id == old(n).state.id,
        fired ==> final(n).state.energy == 0 && final(n).state.sleep_ms == 1,
        !fired ==> final(n).state.sleep_ms as int == (if 2 * (old(n).state.sleep_ms as int)
            > 1000 {
            1000int
        } else {
            2 * (old(n).state.sleep_ms as int)
        }),
        !fired ==> forall|j: int|
            0 <= j < final(n).state.links@.len() ==> abs_int(
                (#[trigger] final(n).state.links@[j]).weight as int,
            ) > PRUNE_LIMIT,
        exists|r: int, candidate: int, inbox_sum: int, cand_act: int, link_acts: Seq<int>|
            step_outcome(
                old(n).state,
                final(n).state,
                fired,
                shared.spec_config(),
                dt as int,
                decay as int,
                r,
                candidate,
                inbox_sum,
                cand_act,
                link_acts,
            ),
{
    let r = rand_below_i64(SCALE);
    let candidate = rand_below_usize(shared.config().size);
    cycle_with(n, shared, dt, decay, r, candidate)
}

} // verus!
