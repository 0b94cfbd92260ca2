use vstd::prelude::*;

verus! {

use crate::fixed::{abs_int, fp_mul, fp_mul_spec, sat64, sat_abs, sat_add, sat_neg};
use crate::fixed::{PRUNE_LIMIT, SCALE, TENTH};

/// A directed connection to another agent, with a signed strength.
#[derive(Clone, Copy, PartialEq, Eq, Structural, Debug)]
pub struct Link {
    pub target: usize,
    pub weight: i64,
}

/// A signal to be delivered to another agent's mailbox.
#[derive(Clone, Copy, PartialEq, Eq, Structural, Debug)]
pub struct Msg {
    pub target: usize,
    pub value: i64,
}

/// The immutable configuration shared by the whole network.
#[derive(Clone, Copy, PartialEq, Eq, Structural, Debug)]
pub struct Config {
    pub size: usize,
    pub max_energy: i64,
    pub threshold: i64,
    pub max_link: usize,
}

/// The private state of one agent.
#[derive(Clone, Debug)]
pub struct NeuronState {
    pub id: usize,
    pub energy: i64,
    pub activity: i64,
    pub sleep_ms: u64,
    pub links: Vec<Link>,
}

pub open spec fn wf_config(cfg: Config) -> bool {
    &&& 1 <= cfg.size
    &&& 0 <= cfg.max_energy
}

/// The agent invariant: energy is within its cap, activity is non-negative,
/// the backoff interval lies in [1, 1000] ms, and the link list respects the
/// configured bound and points inside the network.
pub open spec fn wf_state(s: NeuronState, cfg: Config) -> bool {
    &&& s.id < cfg.size
    &&& 0 <= s.energy <= cfg.max_energy
    &&& 0 <= s.activity
    &&& 1 <= s.sleep_ms <= 1000
    &&& s.links@.len() <= cfg.max_link
    &&& forall|j: int|
        0 <= j < s.links@.len() ==> (#[trigger] s.links@[j]).target < cfg.size
}

/// The effective input of a cycle: the drained inbox sum plus symmetric
/// noise `(2r - 1) * dt` scaled by the elapsed time.
pub open spec fn spec_recv(inbox_sum: int, r: int, dt: int) -> int {
    sat64(inbox_sum + fp_mul_spec(2 * r - SCALE, dt))
}

/// Energy replenished by the elapsed time and clamped at the cap.
pub open spec fn spec_charged(energy: int, dt: int, max_energy: int) -> int {
    let c = sat64(energy + dt);
    if c > max_energy {
        max_energy
    } else {
        c
    }
}

/// The weight of a link after a firing cycle: pushed away from zero by `d`,
/// in the direction of its own sign; a zero weight stays zero.
pub open spec fn spec_fire_weight(w: int, d: int) -> int {
    if w > 0 {
        sat64(w + d)
    } else if w < 0 {
        sat64(w + sat64(-d))
    } else {
        0
    }
}

/// Links surviving a quiescent cycle: each weight is decayed by the factor
/// `decay`, and a link is kept only if the decayed magnitude is strictly
/// above `PRUNE_LIMIT` (the boundary itself is pruned).
pub open spec fn spec_prune(s: Seq<Link>, decay: int) -> Seq<Link>
    decreases s.len(),
{
    if s.len() == 0 {
        Seq::empty()
    } else {
        let rest = spec_prune(s.drop_last(), decay);
        let dw = fp_mul_spec(s.last().weight as int, decay);
        if abs_int(dw) > PRUNE_LIMIT {
            rest.push(Link { target: s.last().target, weight: dw as i64 })
        } else {
            rest
        }
    }
}

/// The complete outcome of one cycle, as a mathematical value.
#[verifier::ext_equal]
pub struct StepResult {
    pub energy: int,
    pub activity: int,
    pub sleep_ms: int,
    pub links: Seq<Link>,
    pub messages: Seq<Msg>,
    pub fired: bool,
}

/// The per-cycle update as a pure function of the prior state, the elapsed
/// time `dt`, the decay factor `decay` (the fixed-point reading of the
/// continuous decay over `dt`), the drained inbox sum, the uniform draw
/// `r` in [0, SCALE), the candidate target draw, and the activities
/// observed in the shared table (the candidate's, and one per existing link).
pub open spec fn spec_step(
    s: NeuronState,
    cfg: Config,
    dt: int,
    decay: int,
    inbox_sum: int,
    r: int,
    candidate: int,
    cand_act: int,
    link_acts: Seq<int>,
) -> StepResult {
    let recv = spec_recv(inbox_sum, r, dt);
    let act_dec = fp_mul_spec(s.activity as int, decay);
    let charged = spec_charged(s.energy as int, dt, cfg.max_energy as int);
    let formed = {
        &&& r < fp_mul_spec(sat64(act_dec + TENTH), dt)
        &&& s.links@.len() < cfg.max_link
        &&& candidate != s.id
        &&& r < sat64(cand_act + TENTH)
    };
    let new_link = Link { target: candidate as usize, weight: (2 * r - SCALE) as i64 };
    let links_f = if formed {
        s.links@.push(new_link)
    } else {
        s.links@
    };
    let acts_f = if formed {
        link_acts.push(cand_act)
    } else {
        link_acts
    };
    let fired = recv > fp_mul_spec(cfg.threshold as int, dt);
    if fired {
        let act_fire = sat64(act_dec + sat64(abs_int(recv)));
        StepResult {
            energy: 0,
            activity: act_fire,
            sleep_ms: 1,
            links: Seq::new(
                links_f.len(),
                |j: int|
                    Link {
                        target: links_f[j].target,
                        weight: spec_fire_weight(
                            links_f[j].weight as int,
                            fp_mul_spec(fp_mul_spec(dt, act_fire), acts_f[j]),
                        ) as i64,
                    },
            ),
            messages: Seq::new(
                links_f.len(),
                |j: int|
                    Msg {
                        target: links_f[j].target,
                        value: fp_mul_spec(
                            fp_mul_spec(recv, links_f[j].weight as int),
                            charged,
                        ) as i64,
                    },
            ),
            fired: true,
        }
    } else {
        StepResult {
            energy: charged,
            activity: act_dec,
            sleep_ms: if 2 * (s.sleep_ms as int) > 1000 {
                1000
            } else {
                2 * (s.sleep_ms as int)
            },
            links: spec_prune(links_f, decay),
            messages: Seq::empty(),
            fired: false,
        }
    }
}

/// What the surviving links of a quiescent cycle inherit from the list
/// before pruning: no more links than before, every retained weight strictly
/// above the pruning bound, and every target one of the prior targets.
pub proof fn lemma_prune_props(s: Seq<Link>, decay: int, bound: int)
    requires
        forall|k: int| 0 <= k < s.len() ==> (#[trigger] s[k]).target < bound,
    ensures
        spec_prune(s, decay).len() <= s.len(),
        forall|j: int|
            0 <= j < spec_prune(s, decay).len() ==> abs_int(
                (#[trigger] spec_prune(s, decay)[j]).weight as int,
            ) > PRUNE_LIMIT,
        forall|j: int|
            0 <= j < spec_prune(s, decay).len() ==> (#[trigger] spec_prune(s, decay)[j]).target
                < bound,
    decreases s.len(),
{
    if s.len() == 0 {
    } else {
        let prev = s.drop_last();
        assert(forall|k: int| 0 <= k < prev.len() ==> (#[trigger] prev[k]).target < bound);
        lemma_prune_props(prev, decay, bound);
        let rest = spec_prune(prev, decay);
        let dw = fp_mul_spec(s.last().weight as int, decay);
        if abs_int(dw) > PRUNE_LIMIT {
            let p = spec_prune(s, decay);
            assert(p == rest.push(Link { target: s.last().target, weight: dw as i64 }));
            assert(s.last().target < bound);
            assert forall|j: int| 0 <= j < p.len() implies abs_int(
                (#[trigger] p[j]).weight as int,
            ) > PRUNE_LIMIT && (p[j]).target < bound by {
                if j < rest.len() {
                    assert(p[j] == rest[j]);
                } else {
                    assert(p[j] == Link { target: s.last().target, weight: dw as i64 });
                    assert(i64::MIN <= dw <= i64::MAX);
                }
            }
        }
    }
}

/// Whether `post` and `fired` are the outcome of one pure step on `pre`:
/// the relation a full cycle establishes for the inbox sum it drained and
/// the activities it observed in the shared table.
pub open spec fn step_outcome(
    pre: NeuronState,
    post: NeuronState,
    fired: bool,
    cfg: Config,
    dt: int,
    decay: int,
    r: int,
    candidate: int,
    inbox_sum: int,
    cand_act: int,
    link_acts: Seq<int>,
) -> bool {
    let res = spec_step(pre, cfg, dt, decay, inbox_sum, r, candidate, cand_act, link_acts);
    &&& post.id == pre.id
    &&& post.energy as int == res.energy
    &&& post.activity as int == res.activity
    &&& post.sleep_ms as int == res.sleep_ms
    &&& post.links@ == res.links
    &&& fired == res.fired
}

/// The messages and the surviving links of one cycle.
pub struct StepOutput {
    pub fired: bool,
    pub messages: Vec<Msg>,
}

/// One cycle of the agent state machine, on values already drawn and
/// observed: noise injection, activity decay, energy replenishment,
/// stochastic link formation, and the fire / stay-quiescent branch.
///
/// The outcome is pinned, field by field, to `spec_step`; the trailing
/// clauses state the standing laws: the invariant is preserved, a firing
/// cycle zeroes the energy and resets the backoff, a quiescent cycle doubles
/// the backoff clamped at 1000 ms and leaves only links strictly above the
/// pruning bound.
pub fn step(
    s: &mut NeuronState,
    cfg: &Config,
    dt: i64,
    decay: i64,
    inbox_sum: i64,
    r: i64,
    candidate: usize,
    cand_act: i64,
    link_acts: &Vec<i64>,
) -> (out: StepOutput)
    requires
        wf_config(*cfg),
        wf_state(*old(s), *cfg),
        0 <= dt,
        0 <= decay <= SCALE,
        0 <= r < SCALE,
        candidate < cfg.size,
        link_acts@.len() == old(s).links@.len(),
    ensures
        ({
            let res = spec_step(
                *old(s),
                *cfg,
                dt as int,
                decay as int,
                inbox_sum as int,
                r as int,
                candidate as int,
                cand_act as int,
                link_acts@.map_values(|v: i64| v as int),
            );
            &&& final(s).id == old(s).id
            &&& final(s).energy as int == res.energy
            &&& final(s).activity as int == res.activity
            &&& final(s).sleep_ms as int == res.sleep_ms
            &&& final(s).links@ == res.links
            &&& out.messages@ == res.messages
            &&& out.fired == res.fired
        }),
        wf_state(*final(s), *cfg),
        forall|j: int|
            0 <= j < out.messages@.len() ==> (#[trigger] out.messages@[j]).target < cfg.size,
        out.fired ==> final(s).energy == 0 && final(s).sleep_ms == 1,
        !out.fired ==> final(s).sleep_ms as int == (if 2 * (old(s).sleep_ms as int) > 1000 {
            1000int
        } else {
            2 * (old(s).sleep_ms as int)
        }),
        !out.fired ==> forall|j: int|
            0 <= j < final(s).links@.len() ==> abs_int(
                (#[trigger] final(s).links@[j]).weight as int,
            ) > PRUNE_LIMIT,
        !out.fired ==> out.messages@.len() == 0,
{
    let ghost res = spec_step(
        *old(s),
        *cfg,
        dt as int,
        decay as int,
        inbox_sum as int,
        r as int,
        candidate as int,
        cand_act as int,
        link_acts@.map_values(|v: i64| v as int),
    );
    let noise = fp_mul(2 * r - SCALE, dt);
    let recv = sat_add(inbox_sum, noise);
    s.activity = fp_mul(s.activity, decay);
    let charged0 = sat_add(s.energy, dt);
    s.energy = if charged0 > cfg.max_energy {
        cfg.max_energy
    } else {
        charged0
    };
    let trigger_lvl = fp_mul(sat_add(s.activity, TENTH), dt);
    let accept_lvl = sat_add(cand_act, TENTH);
    let formed: bool = r < trigger_lvl && s.links.len() < cfg.max_link && candidate != s.id && r
        < accept_lvl;
    if formed {
        s.links.push(Link { target: candidate, weight: 2 * r - SCALE });
    }
    let ghost links_f = s.links@;
    let ghost acts_f = if formed {
        link_acts@.map_values(|v: i64| v as int).push(cand_act as int)
    } else {
        link_acts@.map_values(|v: i64| v as int)
    };
    let fire_lvl = fp_mul(cfg.threshold, dt);
    let fired = recv > fire_lvl;
    if fired {
        s.activity = sat_add(s.activity, sat_abs(recv));
        s.sleep_ms = 1;
        let ghost act_fire = s.activity as int;
        let ghost charged = s.energy as int;
        let mut msgs: Vec<Msg> = Vec::new();
        let mut new_links: Vec<Link> = Vec::new();
        let n = s.links.len();
        let mut j: usize = 0;
        while j < n
            invariant
                j <= n,
                n == links_f.len(),
                s.links@ == links_f,
                s.activity as int == act_fire,
                s.energy as int == charged,
                links_f.len() == link_acts@.len() + (if formed {
                    1int
                } else {
                    0int
                }),
                acts_f.len() == n,
                forall|k: int|
                    0 <= k < link_acts@.len() ==> acts_f[k] == (#[trigger] link_acts@[k]) as int,
                formed ==> acts_f[n - 1] == cand_act as int,
                msgs@.len() == j,
                new_links@.len() == j,
                forall|k: int|
                    0 <= k < j ==> #[trigger] msgs@[k] == (Msg {
                        target: links_f[k].target,
                        value: fp_mul_spec(
                            fp_mul_spec(recv as int, links_f[k].weight as int),
                            charged,
                        ) as i64,
                    }),
                forall|k: int|
                    0 <= k < j ==> #[trigger] new_links@[k] == (Link {
                        target: links_f[k].target,
                        weight: spec_fire_weight(
                            links_f[k].weight as int,
                            fp_mul_spec(fp_mul_spec(dt as int, act_fire), acts_f[k]),
                        ) as i64,
                    }),
            decreases n - j,
        {
            let lk = s.links[j];
            let la: i64 = if j < link_acts.len() {
                link_acts[j]
            } else {
                cand_act
            };
            assert(la as int == acts_f[j as int]);
            msgs.push(Msg { target: lk.target, value: fp_mul(fp_mul(recv, lk.weight), s.energy) });
            let d = fp_mul(fp_mul(dt, s.activity), la);
            let sd: i64 = if lk.weight > 0 {
                d
            } else if lk.weight < 0 {
                sat_neg(d)
            } else {
                0
            };
            new_links.push(Link { target: lk.target, weight: sat_add(lk.weight, sd) });
            j += 1;
        }
        s.links = new_links;
        s.energy = 0;
        let out = StepOutput { fired: true, messages: msgs };
        proof {
            assert(s.links@ =~= res.links);
            assert(out.messages@ =~= res.messages);
        }
        out
    } else {
        let mut kept: Vec<Link> = Vec::new();
        let n = s.links.len();
        let mut j: usize = 0;
        while j < n
            invariant
                j <= n,
                n == links_f.len(),
                s.links@ == links_f,
                0 <= decay,
                kept@ == spec_prune(links_f.take(j as int), decay as int),
            decreases n - j,
        {
            let lk = s.links[j];
            let dw = fp_mul(lk.weight, decay);
            if dw > PRUNE_LIMIT || dw < -PRUNE_LIMIT {
                kept.push(Link { target: lk.target, weight: dw });
            }
            j += 1;
            proof {
                assert(links_f.take(j as int).drop_last() =~= links_f.take(j as int - 1));
                assert(links_f.take(j as int).last() == links_f[j as int - 1]);
            }
        }
        proof {
            assert(links_f.take(n as int) =~= links_f);
            lemma_prune_props(links_f, decay as int, cfg.size as int);
        }
        s.links = kept;
        s.sleep_ms = if s.sleep_ms > 500 {
            1000
        } else {
            s.sleep_ms * 2
        };
        StepOutput { fired: false, messages: Vec::new() }
    }
}

/// Law: the per-cycle update is a pure function of the prior state, the
/// elapsed time, the decay factor, the inbox sum, the random draws and the
/// observed activities — two agents with equal states, given equal inputs,
/// reach equal outcomes.
pub proof fn lemma_step_deterministic(
    a: NeuronState,
    b: NeuronState,
    cfg: Config,
    dt: int,
    decay: int,
    inbox_sum: int,
    r: int,
    candidate: int,
    cand_act: int,
    link_acts: Seq<int>,
)
    requires
        a.id == b.id,
        a.energy == b.energy,
        a.activity == b.activity,
        a.sleep_ms == b.sleep_ms,
        a.links@ == b.links@,
    ensures
        spec_step(a, cfg, dt, decay, inbox_sum, r, candidate, cand_act, link_acts) == spec_step(
            b,
            cfg,
            dt,
            decay,
            inbox_sum,
            r,
            candidate,
            cand_act,
            link_acts,
        ),
{
    let ra = spec_step(a, cfg, dt, decay, inbox_sum, r, candidate, cand_act, link_acts);
    let rb = spec_step(b, cfg, dt, decay, inbox_sum, r, candidate, cand_act, link_acts);
    assert(ra.links =~= rb.links);
    assert(ra.messages =~= rb.messages);
    assert(ra =~= rb);
}

} // verus!
