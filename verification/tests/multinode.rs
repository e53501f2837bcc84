use asl_stack::multinode::{
    boot_phoenix_desktop, verify_phoenix_ready, verify_sovereign_proof, BootPhase, BootReport, MeshCoordinator,
    MultinodeError, NodeChannel, SovereignNode, ARPI_CHANNEL_BASE, AXON_PROOF, BOOT_TIMEOUT_TICKS, MAX_NODES,
    NODE_BASTION, NODE_DATASTORE, NODE_PRIMARY, NODE_RENDERER, PHOENIX_NODE_COUNT,
};

#[test]
fn test_node_starts_offline() {
    let n = SovereignNode::new(0, NODE_PRIMARY, ARPI_CHANNEL_BASE);
    assert_eq!(n.phase, BootPhase::Offline);
    assert!(!n.is_online());
}

#[test]
fn test_node_boot_sequence() {
    let mut n = SovereignNode::new(0, NODE_PRIMARY, ARPI_CHANNEL_BASE);
    n.advance(1).unwrap();
    assert_eq!(n.phase, BootPhase::Booting);
    n.advance(2).unwrap();
    assert_eq!(n.phase, BootPhase::Proving);
    assert!(n.proof_valid());
    n.advance(3).unwrap();
    assert_eq!(n.phase, BootPhase::PdsReady);
    n.advance(4).unwrap();
    assert_eq!(n.phase, BootPhase::MeshLinked);
    n.advance(5).unwrap();
    assert_eq!(n.phase, BootPhase::Online);
    assert!(n.is_online());
}

#[test]
fn test_node_sovereignty_proof() {
    let mut n = SovereignNode::new(0, NODE_PRIMARY, ARPI_CHANNEL_BASE);
    n.advance(1).unwrap();
    n.advance(2).unwrap();
    assert_eq!(n.proof, AXON_PROOF);
    assert!(n.proof_valid());
}

#[test]
fn test_node_pd_counts() {
    let types = [(NODE_PRIMARY, 6u8), (NODE_BASTION, 3u8), (NODE_DATASTORE, 2u8), (NODE_RENDERER, 2u8)];
    for (node_type, expected_pds) in types {
        let mut n = SovereignNode::new(0, node_type, 0);
        n.advance(1).unwrap();
        n.advance(2).unwrap();
        n.advance(3).unwrap();
        assert_eq!(n.pd_count, expected_pds);
    }
}

#[test]
fn test_node_already_online_stays_online() {
    let mut n = SovereignNode::new(0, NODE_PRIMARY, ARPI_CHANNEL_BASE);
    for i in 1..=6 {
        n.advance(i).unwrap();
    }
    assert_eq!(n.advance(7).unwrap(), BootPhase::Online);
}

#[test]
fn test_channel_activates() {
    let mut ch = NodeChannel::new(0, 1, 0x10);
    assert!(!ch.active);
    ch.activate().unwrap();
    assert!(ch.active);
}

#[test]
fn lib_test_channel_self_link_rejected() {
    let mut ch = NodeChannel::new(0, 0, 0x10);
    assert_eq!(ch.activate(), Err(MultinodeError::ChannelFailed));
}

#[test]
fn test_mesh_register_nodes() {
    let mut mesh = MeshCoordinator::new();
    mesh.register(SovereignNode::new(0, NODE_PRIMARY, 0x10)).unwrap();
    mesh.register(SovereignNode::new(1, NODE_BASTION, 0x11)).unwrap();
    assert_eq!(mesh.count(), 2);
}

#[test]
fn test_mesh_duplicate_rejected() {
    let mut mesh = MeshCoordinator::new();
    mesh.register(SovereignNode::new(0, NODE_PRIMARY, 0x10)).unwrap();
    assert_eq!(mesh.register(SovereignNode::new(0, NODE_PRIMARY, 0x11)), Err(MultinodeError::DuplicateNode));
}

#[test]
fn test_mesh_lookup_node() {
    let mut mesh = MeshCoordinator::new();
    mesh.register(SovereignNode::new(0, NODE_PRIMARY, 0x10)).unwrap();
    let n = mesh.get_node(0).unwrap();
    assert_eq!(n.node_type, NODE_PRIMARY);
    assert!(mesh.get_node(99).is_none());
}

#[test]
fn test_mesh_boot_all() {
    let mut mesh = MeshCoordinator::new();
    mesh.register(SovereignNode::new(0, NODE_PRIMARY, 0x10)).unwrap();
    mesh.register(SovereignNode::new(1, NODE_BASTION, 0x11)).unwrap();
    mesh.register(SovereignNode::new(2, NODE_DATASTORE, 0x12)).unwrap();
    let online = mesh.boot_all().unwrap();
    assert_eq!(online, 3);
    assert_eq!(mesh.proven_count(), 3);
}

#[test]
fn test_phoenix_boot() {
    let mesh = boot_phoenix_desktop().unwrap();
    assert_eq!(mesh.online_count(), 4);
    assert_eq!(mesh.proven_count(), 4);
    assert_eq!(mesh.active_channel_count(), 3);
}

#[test]
fn test_phoenix_sovereign_ready() {
    let mesh = boot_phoenix_desktop().unwrap();
    assert!(verify_phoenix_ready(&mesh).is_ok());
}

#[test]
fn test_phoenix_all_nodes_proven() {
    let mesh = boot_phoenix_desktop().unwrap();
    for i in 0..4u8 {
        let n = mesh.get_node(i).unwrap();
        assert!(n.proof_valid());
        assert_eq!(n.proof, AXON_PROOF);
    }
}

#[test]
fn test_phoenix_primary_has_six_pds() {
    let mesh = boot_phoenix_desktop().unwrap();
    let primary = mesh.get_node(NODE_PRIMARY).unwrap();
    assert_eq!(primary.pd_count, 6);
}

#[test]
fn test_phoenix_renderer_node() {
    let mesh = boot_phoenix_desktop().unwrap();
    let renderer = mesh.get_node(NODE_RENDERER).unwrap();
    assert_eq!(renderer.node_type, NODE_RENDERER);
    assert!(renderer.is_online());
}

#[test]
fn test_phoenix_channels_star_topology() {
    let mesh = boot_phoenix_desktop().unwrap();
    assert_eq!(mesh.active_channel_count(), 3);
}

#[test]
fn test_boot_report() {
    let mesh = boot_phoenix_desktop().unwrap();
    let report = BootReport::from_mesh(&mesh);
    assert_eq!(report.nodes_online, 4);
    assert_eq!(report.nodes_proven, 4);
    assert_eq!(report.channels_active, 3);
    assert!(report.phoenix_ready);
}

#[test]
fn lib_test_sovereign_proof_constant() {
    assert_eq!(AXON_PROOF, 0x4153);
    assert!(verify_sovereign_proof(0x4153));
    assert!(!verify_sovereign_proof(0x0000));
}

#[test]
fn test_phoenix_node_count() {
    assert_eq!(PHOENIX_NODE_COUNT, 4);
}

#[test]
fn test_phoenix_desktop_full_boot() {
    let mesh = boot_phoenix_desktop().unwrap();
    assert_eq!(mesh.online_count(), PHOENIX_NODE_COUNT);
    assert_eq!(mesh.proven_count(), PHOENIX_NODE_COUNT);
    assert_eq!(mesh.active_channel_count(), 3);
    assert!(verify_phoenix_ready(&mesh).is_ok());
}

#[test]
fn test_phoenix_boot_report() {
    let mesh = boot_phoenix_desktop().unwrap();
    let report = BootReport::from_mesh(&mesh);
    assert_eq!(report.nodes_online, 4);
    assert_eq!(report.nodes_proven, 4);
    assert_eq!(report.channels_active, 3);
    assert!(report.phoenix_ready);
    assert!(report.ticks_elapsed > 0);
}

#[test]
fn test_all_nodes_carry_sovereign_proof() {
    let mesh = boot_phoenix_desktop().unwrap();
    for id in 0..PHOENIX_NODE_COUNT as u8 {
        let node = mesh.get_node(id).unwrap();
        assert_eq!(node.proof, AXON_PROOF);
        assert!(node.proof == 0x4153);
    }
}

#[test]
fn test_phoenix_topology_node_types() {
    let mesh = boot_phoenix_desktop().unwrap();
    assert_eq!(mesh.get_node(0).unwrap().node_type, NODE_PRIMARY);
    assert_eq!(mesh.get_node(1).unwrap().node_type, NODE_BASTION);
    assert_eq!(mesh.get_node(2).unwrap().node_type, NODE_DATASTORE);
    assert_eq!(mesh.get_node(3).unwrap().node_type, NODE_RENDERER);
}

#[test]
fn test_primary_node_has_all_mandatory_pds() {
    let mesh = boot_phoenix_desktop().unwrap();
    assert_eq!(mesh.get_node(NODE_PRIMARY).unwrap().pd_count, 6);
}

#[test]
fn test_renderer_node_is_haniel() {
    let mesh = boot_phoenix_desktop().unwrap();
    let renderer = mesh.get_node(NODE_RENDERER).unwrap();
    assert_eq!(renderer.node_type, NODE_RENDERER);
    assert!(renderer.is_online());
    assert_eq!(renderer.pd_count, 2);
}

#[test]
fn test_datastore_node_edisondb() {
    let mesh = boot_phoenix_desktop().unwrap();
    let ds = mesh.get_node(NODE_DATASTORE).unwrap();
    assert_eq!(ds.node_type, NODE_DATASTORE);
    assert_eq!(ds.pd_count, 2);
}

#[test]
fn test_mesh_capacity() {
    let mut mesh = MeshCoordinator::new();
    for i in 0..MAX_NODES as u8 {
        mesh.register(SovereignNode::new(i, NODE_PRIMARY, ARPI_CHANNEL_BASE)).unwrap();
    }
    assert_eq!(mesh.count(), MAX_NODES);
    let result = mesh.register(SovereignNode::new(99, NODE_PRIMARY, 0));
    assert_eq!(result, Err(MultinodeError::MeshFull));
}

#[test]
fn test_mesh_tick_advances() {
    let mut mesh = MeshCoordinator::new();
    assert_eq!(mesh.current_tick(), 0);
    mesh.tick();
    assert_eq!(mesh.current_tick(), 1);
    mesh.tick();
    assert_eq!(mesh.current_tick(), 2);
}

#[test]
fn test_mesh_online_count_before_boot() {
    let mut mesh = MeshCoordinator::new();
    mesh.register(SovereignNode::new(0, NODE_PRIMARY, 0x10)).unwrap();
    assert_eq!(mesh.online_count(), 0);
}

#[test]
fn test_boot_phases_in_order() {
    let mut node = SovereignNode::new(0, NODE_PRIMARY, ARPI_CHANNEL_BASE);
    assert_eq!(node.phase, BootPhase::Offline);
    node.advance(1).unwrap();
    assert_eq!(node.phase, BootPhase::Booting);
    node.advance(2).unwrap();
    assert_eq!(node.phase, BootPhase::Proving);
    node.advance(3).unwrap();
    assert_eq!(node.phase, BootPhase::PdsReady);
    node.advance(4).unwrap();
    assert_eq!(node.phase, BootPhase::MeshLinked);
    node.advance(5).unwrap();
    assert_eq!(node.phase, BootPhase::Online);
}

#[test]
fn test_proof_set_at_proving_phase() {
    let mut node = SovereignNode::new(0, NODE_PRIMARY, ARPI_CHANNEL_BASE);
    assert_eq!(node.proof, 0);
    node.advance(1).unwrap();
    node.advance(2).unwrap();
    assert_eq!(node.proof, AXON_PROOF);
}

#[test]
fn test_star_topology_channels() {
    let mut mesh = MeshCoordinator::new();
    for i in 0..4u8 {
        mesh.register(SovereignNode::new(i, i, ARPI_CHANNEL_BASE + i)).unwrap();
    }
    mesh.add_channel(NodeChannel::new(0, 1, 0x20)).unwrap();
    mesh.add_channel(NodeChannel::new(0, 2, 0x21)).unwrap();
    mesh.add_channel(NodeChannel::new(0, 3, 0x22)).unwrap();
    mesh.boot_all().unwrap();
    assert_eq!(mesh.active_channel_count(), 3);
}

#[test]
fn m23_multinode_test_channel_self_link_rejected() {
    let mut ch = NodeChannel::new(0, 0, 0x10);
    assert_eq!(ch.activate(), Err(MultinodeError::ChannelFailed));
}

#[test]
fn test_axon_proof_value() {
    assert_eq!(AXON_PROOF, 0x4153);
    assert!(verify_sovereign_proof(AXON_PROOF));
    assert!(!verify_sovereign_proof(0));
    assert!(!verify_sovereign_proof(AXON_PROOF - 1));
    assert!(!verify_sovereign_proof(AXON_PROOF + 1));
}

#[test]
fn test_phoenix_not_ready_without_renderer() {
    let mut mesh = MeshCoordinator::new();
    mesh.register(SovereignNode::new(0, NODE_PRIMARY, 0x10)).unwrap();
    mesh.register(SovereignNode::new(1, NODE_BASTION, 0x11)).unwrap();
    mesh.register(SovereignNode::new(2, NODE_DATASTORE, 0x12)).unwrap();
    mesh.boot_all().unwrap();
    assert_eq!(verify_phoenix_ready(&mesh), Err(MultinodeError::PhoenixNotReady));
}

#[test]
fn test_phoenix_node_count_constant() {
    assert_eq!(PHOENIX_NODE_COUNT, 4);
}

#[test]
fn test_max_nodes_constant() {
    assert_eq!(MAX_NODES, 16);
}

#[test]
fn boot_timeout_stops_a_stalled_node() {
    let mut n = SovereignNode::new(7, NODE_RENDERER, 0x13);
    n.advance(10).unwrap();
    n.advance(11).unwrap();
    n.advance(12).unwrap();
    assert_eq!(n.phase, BootPhase::PdsReady);
    assert_eq!(n.advance(10 + BOOT_TIMEOUT_TICKS + 1), Err(MultinodeError::BootTimeout));
    assert_eq!(n.phase, BootPhase::PdsReady);
    assert_eq!(n.advance(10 + BOOT_TIMEOUT_TICKS), Ok(BootPhase::MeshLinked));
}

#[test]
fn unknown_node_type_runs_one_pd() {
    let mut n = SovereignNode::new(0, 0x7F, 0x10);
    n.advance(1).unwrap();
    n.advance(2).unwrap();
    n.advance(3).unwrap();
    assert_eq!(n.pd_count, 1);
}

#[test]
fn boot_all_reports_self_link_channel() {
    let mut mesh = MeshCoordinator::new();
    mesh.register(SovereignNode::new(0, NODE_PRIMARY, 0x10)).unwrap();
    mesh.add_channel(NodeChannel::new(0, 0, 0x20)).unwrap();
    assert_eq!(mesh.boot_all(), Err(MultinodeError::ChannelFailed));
    assert_eq!(mesh.online_count(), 1);
}

#[test]
fn channel_table_fills_up() {
    let mut mesh = MeshCoordinator::new();
    for i in 0..MAX_NODES as u8 {
        mesh.add_channel(NodeChannel::new(0, i + 1, 0x20)).unwrap();
    }
    assert_eq!(mesh.add_channel(NodeChannel::new(0, 1, 0x20)), Err(MultinodeError::MeshFull));
}

#[test]
fn phoenix_ready_checks_proof_then_channels() {
    let mut mesh = MeshCoordinator::new();
    for i in 0..4u8 {
        mesh.register(SovereignNode::new(i, i, 0x10 + i)).unwrap();
    }
    mesh.add_channel(NodeChannel::new(0, 1, 0x20)).unwrap();
    mesh.boot_all().unwrap();
    assert_eq!(mesh.online_count(), 4);
    assert_eq!(verify_phoenix_ready(&mesh), Err(MultinodeError::ChannelFailed));
    let report = BootReport::from_mesh(&mesh);
    assert!(!report.phoenix_ready);
    assert_eq!(report.ticks_elapsed, 6);
}

#[test]
fn phoenix_boot_takes_six_ticks_and_records_start() {
    let mesh = boot_phoenix_desktop().unwrap();
    assert_eq!(mesh.current_tick(), 6);
    assert_eq!(mesh.get_node(2).unwrap().tick_start, 1);
    assert_eq!(BootPhase::Online.as_u8(), 5);
}
