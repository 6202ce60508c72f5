//! Channel, joint, hub and barrier-protocol behaviour, exercised end to
//! end through the public surface.

use agent_fabric::hub::Hub;
use agent_fabric::linker::EdgeKind;
use agent_fabric::neuron_t::NeuronT;
use agent_fabric::operation::Fired;
use agent_fabric::operation::OpError;
use agent_fabric::operation::RunMode;
use agent_fabric::protocol::TickEvent;
use agent_fabric::protocol::run_generation;
use agent_fabric::simple_joint::InSet;
use agent_fabric::simple_joint::OutSet;
use agent_fabric::sink_t::SinkT;
use agent_fabric::operation::TargetKind;

fn wire_one_edge(hub: &mut Hub) -> (usize, usize, usize) {
    let src = hub.register_agent();
    let dst = hub.register_agent();
    let linker = hub.new_linker(EdgeKind::OneWay);
    (src, dst, linker)
}

#[test]
fn idle_feedforward_is_noop() {
    let mut hub = Hub::new();
    let (_src, dst, linker) = wire_one_edge(&mut hub);
    let out = OutSet::new(dst, TargetKind::Passive, linker);
    let inn = InSet::new(0, linker);
    for _ in 0..5 {
        assert_eq!(out.feedforward(&mut hub, (7, 0, 0)), Ok(()));
    }
    assert!(inn.ffw_accepted_iter(&mut hub).is_none());
    // nothing was queued: configure the edge and the first drain is empty
    let mut out = out;
    let mut inn = inn;
    out.config_mode(&mut hub, RunMode::ForwardStepping);
    inn.config_mode(&mut hub, RunMode::ForwardStepping);
    out.config_channels(&mut hub).unwrap();
    inn.config_channels(&mut hub).unwrap();
    let batch = inn.ffw_accepted_iter(&mut hub).unwrap();
    assert_eq!(batch.len(), 0);
}

#[test]
fn fifo_order_per_edge() {
    let mut hub = Hub::new();
    let (_src, dst, linker) = wire_one_edge(&mut hub);
    let mut out = OutSet::new(dst, TargetKind::Passive, linker);
    let mut inn = InSet::new(0, linker);
    out.config_mode(&mut hub, RunMode::ForwardStepping);
    inn.config_mode(&mut hub, RunMode::ForwardStepping);
    out.config_channels(&mut hub).unwrap();
    inn.config_channels(&mut hub).unwrap();
    for k in 0..4i64 {
        assert_eq!(out.feedforward(&mut hub, (10 + k, k, 0)), Ok(()));
    }
    let batch = inn.ffw_accepted_iter(&mut hub).unwrap();
    assert_eq!(batch, vec![(10, 0, 0), (11, 1, 0), (12, 2, 0), (13, 3, 0)]);
    // a second drain finds nothing new
    let batch = inn.ffw_accepted_iter(&mut hub).unwrap();
    assert_eq!(batch.len(), 0);
}

#[test]
fn two_phase_order_is_enforced() {
    let mut hub = Hub::new();
    let (_src, dst, linker) = wire_one_edge(&mut hub);
    let mut out = OutSet::new(dst, TargetKind::Passive, linker);
    // second phase before the first fails and materializes nothing
    assert_eq!(out.config_channels(&mut hub), Err(OpError::NotConfigured));
    // in order, configuration succeeds and yields a non-idle state
    out.config_mode(&mut hub, RunMode::ForwardStepping);
    assert_eq!(out.config_channels(&mut hub), Ok(()));
    assert_eq!(out.feedforward(&mut hub, (1, 0, 0)), Ok(()));
}

#[test]
fn mode_consistency_of_composite_agent() {
    let mut hub = Hub::new();
    let mut a = NeuronT::new(&mut hub, 0, 0, None);
    // drive the three sub-components to different modes
    a.out_s0.config_mode(&mut hub, RunMode::ForwardStepping);
    a.post_syn_s1.config_mode(&mut hub, RunMode::Idle);
    a.device_in_s1.config_mode(&mut hub, RunMode::ForwardRealTime);
    assert_eq!(a.mode(), Err(OpError::InconsistentMode));
    // identical modes are reported as that mode
    a.config_mode(&mut hub, RunMode::ForwardStepping);
    assert_eq!(a.mode(), Ok(RunMode::ForwardStepping));
    a.config_mode(&mut hub, RunMode::Idle);
    assert_eq!(a.mode(), Ok(RunMode::Idle));
}

fn wire_counter_to_sink(period: i32) -> (Hub, NeuronT, SinkT) {
    let mut hub = Hub::new();
    let mut a = NeuronT::new(&mut hub, 0, 0, Some(period));
    let mut p = SinkT::new(&mut hub);
    let linker = hub.new_linker(EdgeKind::OneWay);
    a.add_passive_target(p.id, linker);
    p.add(a.id, linker);
    a.config_mode(&mut hub, RunMode::ForwardStepping);
    p.config_mode(&mut hub, RunMode::ForwardStepping);
    a.config_channels(&mut hub).unwrap();
    p.config_channels(&mut hub).unwrap();
    (hub, a, p)
}

#[test]
fn barrier_order_across_generations() {
    let (mut hub, mut a, mut p) = wire_counter_to_sink(2);
    let mut log: Vec<TickEvent> = Vec::new();
    let mut generation_bounds: Vec<usize> = Vec::new();
    for _ in 0..3 {
        generation_bounds.push(log.len());
        let (_f, ev) = run_generation(&mut hub, &mut a, &mut p).unwrap();
        log.extend(ev);
    }
    generation_bounds.push(log.len());
    // within every generation, a drain never precedes the feedforward
    for g in 0..3 {
        let lo = generation_bounds[g];
        let hi = generation_bounds[g + 1];
        let ffw = (lo..hi).find(|&i| matches!(log[i], TickEvent::Feedforward { .. }));
        let drain = (lo..hi).find(|&i| matches!(log[i], TickEvent::Drain { .. }));
        if let (Some(i), Some(j)) = (ffw, drain) {
            assert!(i < j);
        }
        // every generation that confirmed ends with the report
        assert!(matches!(log[hi - 1], TickEvent::Report { .. }));
        // the next generation's confirm comes only after this report
        if g + 1 < 3 {
            let next_confirm =
                (hi..generation_bounds[g + 2]).find(|&i| matches!(log[i], TickEvent::Confirm { .. }));
            if let Some(c) = next_confirm {
                assert!(hi - 1 < c);
            }
        }
    }
}

#[test]
fn peer_gone_is_isolated_per_edge() {
    let mut hub = Hub::new();
    let mut a = NeuronT::new(&mut hub, 0, 0, Some(1));
    let mut p1 = SinkT::new(&mut hub);
    let mut p2 = SinkT::new(&mut hub);
    let l1 = hub.new_linker(EdgeKind::OneWay);
    let l2 = hub.new_linker(EdgeKind::OneWay);
    a.add_passive_target(p1.id, l1);
    a.add_passive_target(p2.id, l2);
    p1.add(a.id, l1);
    p2.add(a.id, l2);
    a.config_mode(&mut hub, RunMode::ForwardStepping);
    p1.config_mode(&mut hub, RunMode::ForwardStepping);
    p2.config_mode(&mut hub, RunMode::ForwardStepping);
    a.config_channels(&mut hub).unwrap();
    p1.config_channels(&mut hub).unwrap();
    p2.config_channels(&mut hub).unwrap();
    // drop the first sink while it is still registered in the fan-out
    hub.retire(p1.id);
    let outcomes = a.out_s0.feedforward(&mut hub, (42, 0, 0));
    assert_eq!(outcomes, vec![Err(OpError::PeerGone), Ok(())]);
    // confirming the gone peer reports it too, without a panic
    assert_eq!(hub.send_confirm(p1.id), Err(OpError::PeerGone));
    // the remaining edge still delivered
    assert_eq!(hub.send_confirm(p2.id), Ok(()));
    assert_eq!(p2.run(&mut hub), Ok(true));
    assert_eq!(p2.stock, vec![42]);
}

#[test]
fn counter_fires_on_period_and_sink_receives() {
    let (mut hub, mut a, mut p) = wire_counter_to_sink(3);
    let mut fired_at: Vec<i32> = Vec::new();
    for tick in 1..=6 {
        let (f, _ev) = run_generation(&mut hub, &mut a, &mut p).unwrap();
        if f == Fired::Y {
            fired_at.push(tick);
        }
    }
    assert_eq!(fired_at, vec![3, 6]);
    // both deliveries arrived exactly once, in tick order
    assert_eq!(p.stock, vec![3, 6]);
}

#[test]
fn send_failed_after_remote_teardown() {
    let mut hub = Hub::new();
    let (_src, dst, linker) = wire_one_edge(&mut hub);
    let mut out = OutSet::new(dst, TargetKind::Passive, linker);
    let mut inn = InSet::new(0, linker);
    out.config_mode(&mut hub, RunMode::ForwardStepping);
    inn.config_mode(&mut hub, RunMode::ForwardStepping);
    out.config_channels(&mut hub).unwrap();
    inn.config_channels(&mut hub).unwrap();
    // the consumer idles the shared linker: the channel is torn down
    inn.config_mode(&mut hub, RunMode::Idle);
    assert_eq!(out.feedforward(&mut hub, (1, 0, 0)), Err(OpError::SendFailed));
}

#[test]
fn idling_drops_undelivered_messages() {
    let mut hub = Hub::new();
    let (_src, dst, linker) = wire_one_edge(&mut hub);
    let mut out = OutSet::new(dst, TargetKind::Passive, linker);
    let mut inn = InSet::new(0, linker);
    out.config_mode(&mut hub, RunMode::ForwardStepping);
    inn.config_mode(&mut hub, RunMode::ForwardStepping);
    out.config_channels(&mut hub).unwrap();
    inn.config_channels(&mut hub).unwrap();
    out.feedforward(&mut hub, (9, 9, 9)).unwrap();
    // a hard reset drops the queued message
    out.config_mode(&mut hub, RunMode::Idle);
    inn.config_mode(&mut hub, RunMode::ForwardStepping);
    inn.config_channels(&mut hub).unwrap();
    let batch = inn.ffw_accepted_iter(&mut hub).unwrap();
    assert_eq!(batch.len(), 0);
}

#[test]
fn confirm_and_report_round_trip() {
    let mut hub = Hub::new();
    let id = hub.register_agent();
    assert!(hub.is_alive(id));
    assert_eq!(hub.take_confirm(id), Ok(false));
    hub.send_confirm(id).unwrap();
    assert_eq!(hub.take_confirm(id), Ok(true));
    assert_eq!(hub.take_report(id), Ok(None));
    hub.send_report(id, Fired::Y).unwrap();
    hub.send_report(id, Fired::N).unwrap();
    assert_eq!(hub.take_report(id), Ok(Some(Fired::Y)));
    assert_eq!(hub.take_report(id), Ok(Some(Fired::N)));
    hub.retire(id);
    assert!(!hub.is_alive(id));
    assert_eq!(hub.take_report(id), Err(OpError::PeerGone));
}

#[test]
fn running_target_reports_gone_peer() {
    let mut hub = Hub::new();
    let (_src, dst, linker) = wire_one_edge(&mut hub);
    let mut out = OutSet::new(dst, TargetKind::Passive, linker);
    assert_eq!(out.running_target(&hub), Ok(None));
    out.config_mode(&mut hub, RunMode::ForwardStepping);
    out.config_channels(&mut hub).unwrap();
    assert!(matches!(out.running_target(&hub), Ok(Some(_))));
    hub.retire(dst);
    assert_eq!(out.running_target(&hub), Err(OpError::PeerGone));
}

#[test]
fn scheduler_collects_passive_targets() {
    let (hub, a, p) = wire_counter_to_sink(2);
    let handles = a.passive_sync_chs_sets(&hub);
    assert_eq!(handles.len(), 1);
    assert_eq!(handles[0].clone().unwrap().map(|r| r.target), Some(p.id));
}
