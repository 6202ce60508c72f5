//! Agent behaviour: synapse plasticity, the integrate-and-fire neuron's
//! spike admission, populations and topology connectors.

use agent_fabric::all_to_all;
use agent_fabric::hub::Hub;
use agent_fabric::lif::NeuronModel;
use agent_fabric::lif::RefracDuration;
use agent_fabric::linear;
use agent_fabric::linker::EdgeKind;
use agent_fabric::neuron_t::NeuronT;
use agent_fabric::operation::RunMode;
use agent_fabric::signals::FwdPreS1;
use agent_fabric::signals::PostSynDiracV;
use agent_fabric::signals::PreSynDiracV;
use agent_fabric::signals::sat_add_exec;
use agent_fabric::signals::sat_mul_exec;
use agent_fabric::signals::sat_sub_exec;
use agent_fabric::simple_passive_population::SimplePassivePopulation;
use agent_fabric::supervisor::ConnectionInfo;
use agent_fabric::supervisor::ConnectionSupervisor;
use agent_fabric::supervisor::Population;
use agent_fabric::synapse_component::SynapseFlag;
use agent_fabric::synapse_dirac_v::ParamsSynapseDiracV;
use agent_fabric::synapse_dirac_v::stdp_bump_exec;

fn test_params() -> ParamsSynapseDiracV {
    ParamsSynapseDiracV {
        w: 100,
        w_max: 500,
        w_min: 10,
        delay: 5,
        stdp_pre_amount: 100,
        tau_stdp_pre: 10,
        stdp_post_amount: 100,
        tau_stdp_post: 10,
    }
}

#[test]
fn stdp_bump_decays_with_timing_gap() {
    // no gap: the full amount
    assert_eq!(stdp_bump_exec(100, 10, 0, 0), 100);
    // a gap of one time constant halves the bump
    assert_eq!(stdp_bump_exec(100, 10, 0, 10), 50);
    assert_eq!(stdp_bump_exec(100, 10, 10, 0), 50);
    // a huge gap rounds the bump away
    assert_eq!(stdp_bump_exec(100, 10, 0, 100000), 0);
}

#[test]
fn synapse_weight_is_clamped() {
    let mut hub = Hub::new();
    let mut pre = NeuronModel::new(&mut hub, 0, 1, 1, 4, 50, 0);
    let mut post = NeuronModel::new(&mut hub, 0, 1, 1, 4, 50, 0);
    let params = test_params();
    let mut syn = params.build_to_active(&mut hub, &mut pre, &mut post);
    syn.update_w(1000);
    assert_eq!(syn.w, 500);
    syn.update_w(-1000);
    assert_eq!(syn.w, 10);
    syn.update_w(77);
    assert_eq!(syn.w, 77);
}

#[test]
fn synapse_delays_and_weights_spikes() {
    let mut hub = Hub::new();
    let mut pre = NeuronModel::new(&mut hub, 0, 1, 1, 4, 50, 0);
    let mut post = NeuronModel::new(&mut hub, 0, 1, 1, 4, 50, 0);
    let params = test_params();
    let mut syn = params.build_to_active(&mut hub, &mut pre, &mut post);
    pre.config_mode(&mut hub, RunMode::ForwardStepping);
    syn.config_mode(&mut hub, RunMode::ForwardStepping);
    post.config_mode(&mut hub, RunMode::ForwardStepping);
    pre.config_channels(&mut hub).unwrap();
    syn.config_channels(&mut hub).unwrap();
    post.config_channels(&mut hub).unwrap();
    // the pre neuron fires at time 20 and pushes its spike to the synapse
    pre.fire(&mut hub, 20);
    syn.respond(&mut hub);
    // one spike was recorded, delayed by the synapse's delay
    assert_eq!(syn.pre_firing_history, vec![25]);
    // the post neuron stores the forwarded spike: voltage 50, time 25,
    // weighted with the synapse's weight
    post.store(&mut hub);
    assert_eq!(post.buffer_dirac_v.len(), 1);
    assert_eq!(post.buffer_dirac_v[0], PostSynDiracV { v: 50, t: 25, w: 100 });
}

#[test]
fn plastic_synapse_reads_backward_firing_times() {
    let mut hub = Hub::new();
    let mut pre = NeuronModel::new(&mut hub, 0, 1, 1, 4, 50, 0);
    let mut post = NeuronModel::new(&mut hub, 0, 1, 1, 4, 50, 0);
    let params = test_params();
    let mut syn = params.build_to_active(&mut hub, &mut pre, &mut post);
    syn.config_syn_flag(SynapseFlag::Stdp);
    pre.config_mode(&mut hub, RunMode::ForwardStepping);
    syn.config_mode(&mut hub, RunMode::ForwardStepping);
    post.config_mode(&mut hub, RunMode::ForwardStepping);
    pre.config_channels(&mut hub).unwrap();
    syn.config_channels(&mut hub).unwrap();
    post.config_channels(&mut hub).unwrap();
    // the post neuron fires; its firing time flows backward to the synapse
    post.fire(&mut hub, 30);
    syn.respond(&mut hub);
    assert_eq!(syn.post_firing_history, vec![30]);
    // a later pre spike within one time constant of that firing bumps
    // the weight: 100 + 100 * 10 / (10 + 5) = 166
    pre.fire(&mut hub, 30);
    syn.respond(&mut hub);
    assert_eq!(syn.pre_firing_history, vec![35]);
    assert_eq!(syn.w, 166);
}

#[test]
fn lif_leak_step_moves_voltage_towards_rest() {
    let mut hub = Hub::new();
    let mut n = NeuronModel::new(&mut hub, 0, 1, 2, 4, 50, 0);
    n.v = 10;
    n.continuous_evolve(1);
    // drive is -(10 - 0) = -10 over tau 2: the voltage drops by 5
    assert_eq!(n.v, 5);
    // constant current injection pulls the voltage up
    n.i_e = 8;
    n.r_m = 1;
    n.continuous_evolve(2);
    // drive is (0 - 5) + 8 = 3, times dt 2, over tau 2: up by 3
    assert_eq!(n.v, 8);
}

#[test]
fn lif_buckets_buffered_spikes() {
    let mut hub = Hub::new();
    let mut n = NeuronModel::new(&mut hub, 0, 1, 1, 4, 1000, 0);
    n.firing_history.push(RefracDuration { begin: 10, end: 14 });
    n.buffer_dirac_v.push(PostSynDiracV { v: 2, t: 8, w: 3 });   // before the window: error
    n.buffer_dirac_v.push(PostSynDiracV { v: 2, t: 12, w: 3 });  // inside the window: void
    n.buffer_dirac_v.push(PostSynDiracV { v: 2, t: 16, w: 3 });  // acts now
    n.buffer_dirac_v.push(PostSynDiracV { v: 2, t: 40, w: 3 });  // still in the future
    n.v = 0;
    n.dirac_delta_evolve(15, 5);
    assert_eq!(n.error_dirac_v.len(), 1);
    assert_eq!(n.void_dirac_v.len(), 1);
    assert_eq!(n.acted_dirac_v.len(), 1);
    assert_eq!(n.buffer_dirac_v.len(), 1);
    assert_eq!(n.buffer_dirac_v[0].t, 40);
    // the acting spike added v * w = 6
    assert_eq!(n.v, 6);
}

#[test]
fn lif_fire_opens_refractory_window_and_voids_covered_spikes() {
    let mut hub = Hub::new();
    let mut n = NeuronModel::new(&mut hub, 0, 1, 1, 4, 50, 0);
    n.buffer_dirac_v.push(PostSynDiracV { v: 1, t: 22, w: 1 });
    n.buffer_dirac_v.push(PostSynDiracV { v: 1, t: 30, w: 1 });
    n.v = 99;
    n.fire(&mut hub, 20);
    assert_eq!(n.v, 0);
    assert_eq!(n.firing_history.len(), 1);
    assert_eq!(n.firing_history[0], RefracDuration { begin: 20, end: 24 });
    // the spike at 22 fell inside the fresh window and is void
    assert_eq!(n.void_dirac_v.len(), 1);
    assert_eq!(n.buffer_dirac_v.len(), 1);
    assert_eq!(n.buffer_dirac_v[0].t, 30);
}

#[test]
fn lif_last_refrac_defaults_to_far_past() {
    let mut hub = Hub::new();
    let n = NeuronModel::new(&mut hub, 0, 1, 1, 4, 50, 0);
    assert_eq!(n.last_refrac_end(), i64::MIN);
    assert_eq!(n.last_refrac_begin(), i64::MIN);
}

#[test]
fn neuron_t_accepts_into_stock() {
    let mut hub = Hub::new();
    let mut g = NeuronT::new(&mut hub, 100, 0, Some(1));
    let mut a = NeuronT::new(&mut hub, 0, 0, None);
    let linker = hub.new_linker(EdgeKind::OneWay);
    g.add_passive_target(a.id, linker);
    a.add(g.id, linker);
    g.config_mode(&mut hub, RunMode::ForwardStepping);
    a.config_mode(&mut hub, RunMode::ForwardStepping);
    g.config_channels(&mut hub).unwrap();
    a.config_channels(&mut hub).unwrap();
    // the generator fires every tick; its message is its new counter
    let f = g.evolve(&mut hub);
    assert_eq!(f, agent_fabric::operation::Fired::Y);
    // the acceptor drains it on its own next generation
    let _ = a.evolve(&mut hub);
    assert_eq!(a.stock.len(), 1);
    assert_eq!(a.stock[0].msg, 101);
    assert_eq!(a.stock[0].proc, 1);
}

#[test]
fn population_configures_all_members() {
    let mut hub = Hub::new();
    let mut pre = NeuronModel::new(&mut hub, 0, 1, 1, 4, 50, 0);
    let mut post = NeuronModel::new(&mut hub, 0, 1, 1, 4, 50, 0);
    let params = test_params();
    let s1 = params.build_to_active(&mut hub, &mut pre, &mut post);
    let s2 = params.build_to_active(&mut hub, &mut pre, &mut post);
    let mut pop = SimplePassivePopulation::new();
    assert_eq!(pop.mode(), RunMode::Idle);
    pop.add(s1);
    pop.add(s2);
    pop.config_mode(&mut hub, RunMode::ForwardStepping);
    assert_eq!(pop.mode(), RunMode::ForwardStepping);
    assert_eq!(pop.agent_by_id(0).mode(), RunMode::ForwardStepping);
    assert_eq!(pop.agent_by_id(1).mode(), RunMode::ForwardStepping);
    pop.config_channels(&mut hub).unwrap();
}

#[test]
fn all_to_all_connects_every_pair() {
    let pre = Population::new(0, vec![0, 1]);
    let post = Population::new(1, vec![2, 3]);
    let mut sup = ConnectionSupervisor::new();
    let conn = all_to_all::Connector::default();
    conn.connect(&pre, &post, 7, &mut sup);
    assert_eq!(sup.conn_infos.len(), 4);
    assert_eq!(sup.get_conn_info_by_id(0), ConnectionInfo { source: 0, target: 2, weight: 7 });
    assert_eq!(sup.get_conn_info_by_id(1), ConnectionInfo { source: 0, target: 3, weight: 7 });
    assert_eq!(sup.get_conn_info_by_id(2), ConnectionInfo { source: 1, target: 2, weight: 7 });
    assert_eq!(sup.get_conn_info_by_id(3), ConnectionInfo { source: 1, target: 3, weight: 7 });
    assert_eq!(sup.get_connections(1), vec![2, 3]);
}

#[test]
fn linear_connects_member_by_member() {
    let pre = Population::new(0, vec![0, 1, 2]);
    let post = Population::new(1, vec![5, 6]);
    let mut sup = ConnectionSupervisor::new();
    let conn = linear::Connector::default();
    conn.connect(&pre, &post, 3, &mut sup);
    assert_eq!(sup.conn_infos.len(), 2);
    assert_eq!(sup.get_conn_info_by_id(0), ConnectionInfo { source: 0, target: 5, weight: 3 });
    assert_eq!(sup.get_conn_info_by_id(1), ConnectionInfo { source: 1, target: 6, weight: 3 });
}

#[test]
fn saturating_arithmetic_clips_at_the_rails() {
    assert_eq!(sat_add_exec(i64::MAX, 1), i64::MAX);
    assert_eq!(sat_add_exec(i64::MIN, -1), i64::MIN);
    assert_eq!(sat_add_exec(2, 3), 5);
    assert_eq!(sat_sub_exec(i64::MIN, 1), i64::MIN);
    assert_eq!(sat_sub_exec(7, 9), -2);
    assert_eq!(sat_mul_exec(i64::MAX, 2), i64::MAX);
    assert_eq!(sat_mul_exec(i64::MAX, -2), i64::MIN);
    assert_eq!(sat_mul_exec(-4, 6), -24);
}

#[test]
fn wire_frames_round_trip() {
    let s = FwdPreS1 { msg_gen: -12345 };
    assert_eq!(FwdPreS1::from_frame(s.to_frame()), s);
    let p = PreSynDiracV { v: 9, t: -8 };
    assert_eq!(PreSynDiracV::from_frame(p.to_frame()), p);
    let q = PostSynDiracV { v: 1, t: 2, w: 3 };
    assert_eq!(PostSynDiracV::from_frame(q.to_frame()), q);
}

#[test]
fn counter_without_period_never_fires() {
    let mut hub = Hub::new();
    let mut a = NeuronT::new(&mut hub, 0, 0, None);
    for _ in 0..5 {
        let f = a.evolve(&mut hub);
        assert_eq!(f, agent_fabric::operation::Fired::N);
    }
    assert_eq!(a.proc_value, 5);
    assert_eq!(a.gen_value, 5);
}

#[test]
fn static_synapse_ignores_backward_times() {
    let mut hub = Hub::new();
    let mut pre = NeuronModel::new(&mut hub, 0, 1, 1, 4, 50, 0);
    let mut post = NeuronModel::new(&mut hub, 0, 1, 1, 4, 50, 0);
    let params = test_params();
    let mut syn = params.build_to_active(&mut hub, &mut pre, &mut post);
    pre.config_mode(&mut hub, RunMode::ForwardStepping);
    syn.config_mode(&mut hub, RunMode::ForwardStepping);
    post.config_mode(&mut hub, RunMode::ForwardStepping);
    pre.config_channels(&mut hub).unwrap();
    syn.config_channels(&mut hub).unwrap();
    post.config_channels(&mut hub).unwrap();
    post.fire(&mut hub, 30);
    syn.respond(&mut hub);
    // a static synapse leaves the backward channel alone
    assert_eq!(syn.post_firing_history.len(), 0);
    assert_eq!(syn.w, 100);
}

#[test]
fn synapse_to_passive_target_is_confirmable() {
    let mut hub = Hub::new();
    let mut pre = NeuronModel::new(&mut hub, 0, 1, 1, 4, 50, 0);
    let mut post = NeuronModel::new(&mut hub, 0, 1, 1, 4, 50, 0);
    let params = test_params();
    let mut syn = params.build_to_passive(&mut hub, &mut pre, &mut post);
    pre.config_mode(&mut hub, RunMode::ForwardStepping);
    syn.config_mode(&mut hub, RunMode::ForwardStepping);
    post.config_mode(&mut hub, RunMode::ForwardStepping);
    pre.config_channels(&mut hub).unwrap();
    syn.config_channels(&mut hub).unwrap();
    post.config_channels(&mut hub).unwrap();
    // a passive post target must be confirmed by the scheduler
    let handle = syn.passive_sync_chs_sets(&hub).unwrap();
    assert_eq!(handle.map(|r| r.target), Some(post.id));
    // the post neuron's passive pre-generator (the synapse) likewise
    let outcomes = post.post_syn_dirac_v.running_targets(&hub);
    assert_eq!(outcomes.len(), 1);
    assert_eq!(outcomes[0].clone().unwrap().map(|r| r.target), Some(syn.id));
}

#[test]
fn synapse_to_active_target_needs_no_confirm() {
    let mut hub = Hub::new();
    let mut pre = NeuronModel::new(&mut hub, 0, 1, 1, 4, 50, 0);
    let mut post = NeuronModel::new(&mut hub, 0, 1, 1, 4, 50, 0);
    let params = test_params();
    let mut syn = params.build_to_active(&mut hub, &mut pre, &mut post);
    pre.config_mode(&mut hub, RunMode::ForwardStepping);
    syn.config_mode(&mut hub, RunMode::ForwardStepping);
    post.config_mode(&mut hub, RunMode::ForwardStepping);
    pre.config_channels(&mut hub).unwrap();
    syn.config_channels(&mut hub).unwrap();
    post.config_channels(&mut hub).unwrap();
    assert_eq!(syn.passive_sync_chs_sets(&hub).unwrap(), None);
}

#[test]
fn lif_fires_on_threshold_crossing_and_respects_refractory_window() {
    let mut hub = Hub::new();
    // strong constant current drives the neuron over threshold at once
    let mut n = NeuronModel::new(&mut hub, 0, 1, 1, 4, 50, 100);
    let f1 = n.evolve(&mut hub, 1, 0);
    assert_eq!(f1, agent_fabric::operation::Fired::Y);
    assert_eq!(n.v, 0);
    assert_eq!(n.firing_history[0], RefracDuration { begin: 0, end: 4 });
    // inside the refractory window the neuron does not even integrate
    let f2 = n.evolve(&mut hub, 1, 1);
    assert_eq!(f2, agent_fabric::operation::Fired::N);
    assert_eq!(n.v, 0);
    // after the window it fires again
    let f3 = n.evolve(&mut hub, 1, 5);
    assert_eq!(f3, agent_fabric::operation::Fired::Y);
}
