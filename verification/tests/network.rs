use neuronet::fixed::SCALE;
use neuronet::net::{build, cycle_with, ChannelClosedError};
use neuronet::neuron::Config;

// size = 2, max_link = 1, threshold = 0: with a seed message in the mailbox
// both agents fire in their first cycle; a formed link leaves a pending
// message in the partner's mailbox before the partner drains it
#[test]
fn two_agents_fire_and_signal_each_other() {
    let cfg = Config { size: 2, max_energy: 10_000_000, threshold: 0, max_link: 1 };
    let (mut neurons, shared) = build(cfg);
    assert_eq!(neurons.len(), 2);

    // a seed signal makes the first agent's input positive
    shared.deliver(0, 2_000_000).unwrap();
    let mut agent1 = neurons.pop().unwrap();
    let mut agent0 = neurons.pop().unwrap();

    // r = 50_000 passes the link trigger (level >= 100_000 always) and the
    // acceptance test against agent 1's published activity 0 (level 100_000),
    // so a link 0 -> 1 forms; recv = 2_000_000 - 900_000 > 0 fires
    let fired0 = cycle_with(&mut agent0, &shared, 1_000_000, 500_000, 50_000, 1);
    assert!(fired0);
    assert_eq!(agent0.state.energy, 0);
    assert_eq!(agent0.state.sleep_ms, 1);
    assert_eq!(agent0.state.links.len(), 1);
    assert_eq!(agent0.state.links[0].target, 1);

    // the firing delivered one message over the formed link: it is pending
    // in agent 1's mailbox before agent 1 runs
    let pending = agent1.drain_inbox();
    assert_eq!(pending.len(), 1);

    // a fresh seed makes agent 1 fire in its first cycle too
    shared.deliver(1, 2_000_000).unwrap();
    let fired1 = cycle_with(&mut agent1, &shared, 1_000_000, 500_000, 600_000, 0);
    assert!(fired1);
    assert_eq!(agent1.state.energy, 0);
    assert_eq!(agent1.state.sleep_ms, 1);

    // both agents published their activity
    let snapshot = shared.report();
    assert_eq!(snapshot.len(), 2);
    assert!(snapshot[0].1 > 0);
    assert!(snapshot[1].1 > 0);
}

// reading the activity of an id never published returns 0, not an error
#[test]
fn read_activity_defaults_to_zero() {
    let cfg = Config { size: 2, max_energy: 10_000_000, threshold: 500_000, max_link: 20 };
    let (_neurons, shared) = build(cfg);
    // an id far outside the network was never published
    assert_eq!(shared.read_activity(999), 0);
    // ids of the network start published at 0
    assert_eq!(shared.read_activity(0), 0);
    assert_eq!(shared.read_activity(1), 0);
}

#[test]
fn activity_or_default_picks_entry_or_zero() {
    assert_eq!(neuronet::net::activity_or_default(Some(123_456)), 123_456);
    assert_eq!(neuronet::net::activity_or_default(None), 0);
}

#[test]
fn published_activity_is_read_back() {
    let cfg = Config { size: 3, max_energy: 10_000_000, threshold: 500_000, max_link: 20 };
    let (_neurons, shared) = build(cfg);
    shared.publish_activity(2, 777_000);
    assert_eq!(shared.read_activity(2), 777_000);
    let snapshot = shared.report();
    assert_eq!(snapshot.len(), 3);
    assert_eq!(snapshot[0], (0, 0));
    assert_eq!(snapshot[1], (1, 0));
    assert_eq!(snapshot[2], (2, 777_000));
}

// a delivery to a torn-down mailbox reports the closed channel
#[test]
fn deliver_to_a_gone_mailbox_is_an_error() {
    let cfg = Config { size: 2, max_energy: 10_000_000, threshold: 500_000, max_link: 20 };
    let (mut neurons, shared) = build(cfg);
    assert!(shared.deliver(1, 42).is_ok());
    // tear down agent 1's mailbox
    let agent1 = neurons.pop().unwrap();
    drop(agent1);
    assert_eq!(shared.deliver(1, 42), Err(ChannelClosedError));
    // agent 0's mailbox still works
    assert!(shared.deliver(0, 42).is_ok());
}

// agents are seeded with energy and activity in [0, 1), within the cap
#[test]
fn build_seeds_agents_within_bounds() {
    let cfg = Config { size: 50, max_energy: 10_000_000, threshold: 500_000, max_link: 20 };
    let (neurons, shared) = build(cfg);
    assert_eq!(neurons.len(), 50);
    for (i, n) in neurons.iter().enumerate() {
        assert_eq!(n.state.id, i);
        assert!(n.state.energy >= 0 && n.state.energy < SCALE);
        assert!(n.state.energy <= cfg.max_energy);
        assert!(n.state.activity >= 0 && n.state.activity < SCALE);
        assert_eq!(n.state.sleep_ms, 1);
        assert!(n.state.links.is_empty());
    }
    // a small cap clamps the seeded energy
    let tight = Config { size: 50, max_energy: 1_000, threshold: 500_000, max_link: 20 };
    let (tight_neurons, _shared2) = build(tight);
    for n in &tight_neurons {
        assert!(n.state.energy <= 1_000);
    }
    let snapshot = shared.report();
    assert_eq!(snapshot.len(), 50);
    for (i, entry) in snapshot.iter().enumerate() {
        assert_eq!(*entry, (i, 0));
    }
}

// the messages drained from a mailbox keep their queue order and sum
#[test]
fn drained_mailbox_sums_in_queue_order() {
    let cfg = Config { size: 1, max_energy: 10_000_000, threshold: 500_000, max_link: 20 };
    let (neurons, shared) = build(cfg);
    shared.deliver(0, 10).unwrap();
    shared.deliver(0, -3).unwrap();
    shared.deliver(0, 35).unwrap();
    let vals = neurons[0].drain_inbox();
    assert_eq!(vals, vec![10, -3, 35]);
    assert_eq!(neuronet::net::sum_values(&vals), 42);
    assert_eq!(neuronet::net::sum_values(&vec![i64::MAX, 1, 1]), i64::MAX);
    assert_eq!(neuronet::net::sum_values(&Vec::new()), 0);
}

// repeated live cycles keep every invariant: energy within the cap, at most
// max_link links, backoff within [1, 1000] and reset to 1 by a firing cycle
#[test]
fn cycle_preserves_the_invariants() {
    let cfg = Config { size: 4, max_energy: 2_000_000, threshold: 500_000, max_link: 3 };
    let (mut neurons, shared) = build(cfg);
    for _round in 0..200 {
        for agent in neurons.iter_mut() {
            let before = agent.state.sleep_ms;
            let fired = neuronet::net::cycle(agent, &shared, 100_000, 933_033);
            assert!(agent.state.energy >= 0 && agent.state.energy <= cfg.max_energy);
            assert!(agent.state.activity >= 0);
            assert!(agent.state.links.len() <= cfg.max_link);
            assert!(agent.state.sleep_ms >= 1 && agent.state.sleep_ms <= 1000);
            if fired {
                assert_eq!(agent.state.energy, 0);
                assert_eq!(agent.state.sleep_ms, 1);
            } else {
                assert_eq!(agent.state.sleep_ms, (before * 2).min(1000));
                for link in &agent.state.links {
                    assert!(link.weight.abs() > neuronet::fixed::PRUNE_LIMIT);
                    assert!(link.target < cfg.size);
                }
            }
        }
    }
}
