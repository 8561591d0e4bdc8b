use pumpkin_core::transfer::{
    argument, decide_transfer_players, decide_transfer_self, init_command_tree, port_consumer,
    port_error_message, resolve_port, ArgConsumer, BoundedNumArgumentConsumer, Executor, NodeKind,
    PortArg, PortResolution, Requirement, TransferDecision, DEFAULT_PORT,
};

#[test]
fn port_consumer_is_bounded_and_named() {
    let c = port_consumer();
    assert_eq!(c.name, Some("port".to_string()));
    assert_eq!(c.min, Some(1));
    assert_eq!(c.max, Some(65535));
    assert!(c.in_bounds(1));
    assert!(c.in_bounds(65535));
    assert!(!c.in_bounds(0));
    assert!(!c.in_bounds(65536));
}

#[test]
fn unbounded_consumer_accepts_everything() {
    let c = BoundedNumArgumentConsumer::new();
    assert!(c.in_bounds(i32::MIN));
    assert!(c.in_bounds(i32::MAX));
}

#[test]
fn absent_port_resolves_to_default() {
    let c = port_consumer();
    assert_eq!(resolve_port(&c, PortArg::Absent), PortResolution::Port(DEFAULT_PORT));
    assert_eq!(DEFAULT_PORT, 25565);
}

#[test]
fn parsed_port_resolves_by_bounds() {
    let c = port_consumer();
    assert_eq!(resolve_port(&c, PortArg::Parsed(8080)), PortResolution::Port(8080));
    assert_eq!(resolve_port(&c, PortArg::Parsed(0)), PortResolution::OutOfBounds);
    assert_eq!(resolve_port(&c, PortArg::Parsed(70000)), PortResolution::OutOfBounds);
}

#[test]
fn self_transfer_requires_hostname() {
    let d = decide_transfer_self(None, PortArg::Absent, true);
    assert_eq!(d, TransferDecision::InvalidConsumption { arg: "hostname".to_string() });
}

#[test]
fn self_transfer_reports_bad_port() {
    let d = decide_transfer_self(Some("play.example.org"), PortArg::Parsed(0), true);
    assert_eq!(d, TransferDecision::ReportPortOutOfBounds);
    assert_eq!(port_error_message(), "Port must be between 1 and 65535.");
}

#[test]
fn self_transfer_requires_player() {
    let d = decide_transfer_self(Some("play.example.org"), PortArg::Absent, false);
    assert_eq!(d, TransferDecision::InvalidRequirement);
}

#[test]
fn self_transfer_defaults_port() {
    let d = decide_transfer_self(Some("play.example.org"), PortArg::Absent, true);
    assert_eq!(
        d,
        TransferDecision::Transfer { hostname: "play.example.org".to_string(), port: 25565 }
    );
}

#[test]
fn self_transfer_uses_given_port() {
    let d = decide_transfer_self(Some("play.example.org"), PortArg::Parsed(25570), true);
    assert_eq!(
        d,
        TransferDecision::Transfer { hostname: "play.example.org".to_string(), port: 25570 }
    );
}

#[test]
fn player_transfer_requires_hostname() {
    let d = decide_transfer_players(None, PortArg::Absent, true);
    assert_eq!(d, TransferDecision::InvalidConsumption { arg: "hostname".to_string() });
}

#[test]
fn player_transfer_reports_bad_port_before_players() {
    let d = decide_transfer_players(Some("play.example.org"), PortArg::Parsed(-1), false);
    assert_eq!(d, TransferDecision::ReportPortOutOfBounds);
}

#[test]
fn player_transfer_requires_players() {
    let d = decide_transfer_players(Some("play.example.org"), PortArg::Absent, false);
    assert_eq!(d, TransferDecision::InvalidConsumption { arg: "players".to_string() });
}

#[test]
fn player_transfer_carries_hostname_and_port() {
    let d = decide_transfer_players(Some("play.example.org"), PortArg::Parsed(19132), true);
    assert_eq!(
        d,
        TransferDecision::Transfer { hostname: "play.example.org".to_string(), port: 19132 }
    );
}

#[test]
fn transfer_tree_has_documented_shape() {
    let t = init_command_tree();
    assert_eq!(t.names, vec!["transfer".to_string()]);
    assert_eq!(t.description, "Triggers a transfer of a player to another server.");
    assert_eq!(t.children.len(), 1);

    let hostname = &t.children[0];
    match &hostname.kind {
        NodeKind::Argument { name, consumer } => {
            assert_eq!(name, "hostname");
            assert_eq!(*consumer, ArgConsumer::Simple);
        }
        other => panic!("hostname node has kind {:?}", other),
    }
    assert_eq!(hostname.executor, None);
    assert_eq!(hostname.children.len(), 2);

    let self_leaf = &hostname.children[0];
    assert_eq!(
        self_leaf.kind,
        NodeKind::Require { requirement: Requirement::IsPlayer }
    );
    assert_eq!(self_leaf.executor, Some(Executor::TargetSelf));
    assert!(self_leaf.children.is_empty());

    let port = &hostname.children[1];
    match &port.kind {
        NodeKind::Argument { name, consumer } => {
            assert_eq!(name, "port");
            assert_eq!(*consumer, ArgConsumer::BoundedNum(port_consumer()));
        }
        other => panic!("port node has kind {:?}", other),
    }
    assert_eq!(port.executor, None);
    assert_eq!(port.children.len(), 2);

    let port_self_leaf = &port.children[0];
    assert_eq!(
        port_self_leaf.kind,
        NodeKind::Require { requirement: Requirement::IsPlayer }
    );
    assert_eq!(port_self_leaf.executor, Some(Executor::TargetSelf));
    assert!(port_self_leaf.children.is_empty());

    let players = &port.children[1];
    match &players.kind {
        NodeKind::Argument { name, consumer } => {
            assert_eq!(name, "players");
            assert_eq!(*consumer, ArgConsumer::Players);
        }
        other => panic!("players node has kind {:?}", other),
    }
    assert_eq!(players.executor, Some(Executor::TargetPlayer));
    assert!(players.children.is_empty());
}

#[test]
fn argument_builder_starts_bare() {
    let n = argument("hostname", ArgConsumer::Simple);
    assert_eq!(n.executor, None);
    assert!(n.children.is_empty());
}
