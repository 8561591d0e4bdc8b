//! The `transfer` command: the decision rules of its two executors, the
//! bounded numeric argument consumer they share, and the shape of the command
//! tree the command registers under. The dispatcher that consumes arguments,
//! the chat channel and the wire packet live outside the library; an executor
//! decision names the one effect the caller must perform.
use vstd::prelude::*;

verus! {

/// A numeric argument consumer with a default name and optional inclusive
/// bounds, built up in steps.
#[derive(Clone, Debug, PartialEq, Eq)]
pub struct BoundedNumArgumentConsumer {
    pub name: Option<String>,
    pub min: Option<i32>,
    pub max: Option<i32>,
}

impl BoundedNumArgumentConsumer {
    pub fn new() -> (c: Self)
        ensures
            c.name is None,
            c.min is None,
            c.max is None,
    {
        Self { name: None, min: None, max: None }
    }

    pub fn name(self, name: &str) -> (c: Self)
        ensures
            c.name matches Some(n) && n@ == name@,
            c.min == self.min,
            c.max == self.max,
    {
        Self { name: Some(name.to_owned()), ..self }
    }

    pub fn min(self, min: i32) -> (c: Self)
        ensures
            c.min == Some(min),
            c.name == self.name,
            c.max == self.max,
    {
        Self { min: Some(min), ..self }
    }

    pub fn max(self, max: i32) -> (c: Self)
        ensures
            c.max == Some(max),
            c.name == self.name,
            c.min == self.min,
    {
        Self { max: Some(max), ..self }
    }

    /// Whether a parsed value lies within the consumer's bounds; a missing
    /// bound does not constrain.
    pub open spec fn spec_in_bounds(self, value: int) -> bool {
        &&& (self.min matches Some(m) ==> m <= value)
        &&& (self.max matches Some(m) ==> value <= m)
    }

    pub fn in_bounds(&self, value: i32) -> (ok: bool)
        ensures
            ok == self.spec_in_bounds(value as int),
    {
        let lower_ok = match self.min {
            Some(m) => m <= value,
            None => true,
        };
        let upper_ok = match self.max {
            Some(m) => value <= m,
            None => true,
        };
        lower_ok && upper_ok
    }
}

/// The port consumer used by the `transfer` command: named "port", bounded to
/// the valid TCP port range.
pub fn port_consumer() -> (c: BoundedNumArgumentConsumer)
    ensures
        c.name matches Some(n) && n@ == "port"@,
        c.min == Some(1i32),
        c.max == Some(65535i32),
{
    BoundedNumArgumentConsumer::new().name("port").min(1).max(65535)
}

/// The port a transfer uses when the command names none.
pub const DEFAULT_PORT: i32 = 25565;

/// What the dispatcher's argument lookup produced for a numeric argument.
#[derive(Clone, Copy, Debug, PartialEq, Eq, Structural)]
pub enum PortArg {
    /// The command line carried no such argument.
    Absent,
    /// The argument parsed as this number (bounds not yet checked).
    Parsed(i32),
}

/// The outcome of resolving the port argument.
#[derive(Clone, Copy, Debug, PartialEq, Eq, Structural)]
pub enum PortResolution {
    /// Use this port: the default when absent, the parsed value when in
    /// bounds.
    Port(i32),
    /// The argument was present but outside the consumer's bounds.
    OutOfBounds,
}

/// Resolve the port argument against a consumer: an absent argument falls
/// back to [`DEFAULT_PORT`], a parsed one is admitted exactly when it lies
/// within the consumer's bounds.
pub fn resolve_port(consumer: &BoundedNumArgumentConsumer, arg: PortArg) -> (r: PortResolution)
    ensures
        arg is Absent ==> r == PortResolution::Port(DEFAULT_PORT),
        arg matches PortArg::Parsed(v) ==> r == if consumer.spec_in_bounds(v as int) {
            PortResolution::Port(v)
        } else {
            PortResolution::OutOfBounds
        },
{
    match arg {
        PortArg::Absent => PortResolution::Port(DEFAULT_PORT),
        PortArg::Parsed(v) => {
            if consumer.in_bounds(v) {
                PortResolution::Port(v)
            } else {
                PortResolution::OutOfBounds
            }
        },
    }
}

/// Whether the port argument lets the transfer proceed under the `transfer`
/// command's own consumer (absent, or parsed within 1..=65535).
pub open spec fn spec_port_ok(port: PortArg) -> bool {
    match port {
        PortArg::Absent => true,
        PortArg::Parsed(v) => 1 <= v && v <= 65535,
    }
}

/// The port the transfer will use when [`spec_port_ok`] holds.
pub open spec fn spec_resolved_port(port: PortArg) -> int {
    match port {
        PortArg::Absent => DEFAULT_PORT as int,
        PortArg::Parsed(v) => v as int,
    }
}

/// What a transfer executor decides; the dispatcher performs the effect the
/// decision names.
#[derive(Clone, Debug, PartialEq, Eq)]
pub enum TransferDecision {
    /// The named argument was missing or of the wrong kind; the command
    /// fails with an invalid-consumption error for that argument.
    InvalidConsumption { arg: String },
    /// Send the sender the red out-of-bounds port message; the command
    /// itself completes without transferring anyone.
    ReportPortOutOfBounds,
    /// The sender is not a player, which the self-targeted form requires.
    InvalidRequirement,
    /// Enqueue a transfer packet to `hostname:port` — to the sender for the
    /// self-targeted form, to every selected player for the targeted form.
    Transfer { hostname: String, port: i32 },
}

/// The chat message reporting an out-of-bounds port argument.
pub fn port_error_message() -> (s: String)
    ensures
        s@ == "Port must be between 1 and 65535."@,
{
    "Port must be between 1 and 65535.".to_owned()
}

/// The self-targeted executor's decision: require the hostname argument,
/// resolve the port against [`port_consumer`], then require the sender to be
/// a player; transfer the sender when all three hold.
pub fn decide_transfer_self(hostname: Option<&str>, port: PortArg, sender_is_player: bool) -> (d:
    TransferDecision)
    ensures
        hostname is None ==> (d matches TransferDecision::InvalidConsumption { arg } && arg@
            == "hostname"@),
        hostname matches Some(h) ==> if !spec_port_ok(port) {
            d == TransferDecision::ReportPortOutOfBounds
        } else if !sender_is_player {
            d == TransferDecision::InvalidRequirement
        } else {
            d matches TransferDecision::Transfer { hostname: hn, port: p } && hn@ == h@ && p as int
                == spec_resolved_port(port)
        },
{
    match hostname {
        None => TransferDecision::InvalidConsumption { arg: "hostname".to_owned() },
        Some(h) => {
            let consumer = port_consumer();
            match resolve_port(&consumer, port) {
                PortResolution::OutOfBounds => TransferDecision::ReportPortOutOfBounds,
                PortResolution::Port(p) => {
                    if sender_is_player {
                        TransferDecision::Transfer { hostname: h.to_owned(), port: p }
                    } else {
                        TransferDecision::InvalidRequirement
                    }
                },
            }
        },
    }
}

/// The player-targeted executor's decision: require the hostname argument,
/// resolve the port, then require the players argument; transfer every
/// selected player when all three hold.
pub fn decide_transfer_players(hostname: Option<&str>, port: PortArg, players_present: bool) -> (d:
    TransferDecision)
    ensures
        hostname is None ==> (d matches TransferDecision::InvalidConsumption { arg } && arg@
            == "hostname"@),
        hostname matches Some(h) ==> if !spec_port_ok(port) {
            d == TransferDecision::ReportPortOutOfBounds
        } else if !players_present {
            d matches TransferDecision::InvalidConsumption { arg } && arg@ == "players"@
        } else {
            d matches TransferDecision::Transfer { hostname: hn, port: p } && hn@ == h@ && p as int
                == spec_resolved_port(port)
        },
{
    match hostname {
        None => TransferDecision::InvalidConsumption { arg: "hostname".to_owned() },
        Some(h) => {
            let consumer = port_consumer();
            match resolve_port(&consumer, port) {
                PortResolution::OutOfBounds => TransferDecision::ReportPortOutOfBounds,
                PortResolution::Port(p) => {
                    if players_present {
                        TransferDecision::Transfer { hostname: h.to_owned(), port: p }
                    } else {
                        TransferDecision::InvalidConsumption { arg: "players".to_owned() }
                    }
                },
            }
        },
    }
}

/// The guard a command node can place on its subtree.
#[derive(Clone, Copy, Debug, PartialEq, Eq, Structural)]
pub enum Requirement {
    /// The sender must be a player.
    IsPlayer,
}

/// The executor a command node can end in.
#[derive(Clone, Copy, Debug, PartialEq, Eq, Structural)]
pub enum Executor {
    /// Transfer the sender itself.
    TargetSelf,
    /// Transfer the selected players.
    TargetPlayer,
}

/// Which consumer parses an argument node.
#[derive(Clone, Debug, PartialEq, Eq)]
pub enum ArgConsumer {
    /// A single plain token.
    Simple,
    /// A player selector.
    Players,
    /// A bounded number.
    BoundedNum(BoundedNumArgumentConsumer),
}

/// What a command node is.
#[derive(Clone, Debug, PartialEq, Eq)]
pub enum NodeKind {
    /// Consume one argument under this name.
    Argument { name: String, consumer: ArgConsumer },
    /// Gate the subtree on a requirement.
    Require { requirement: Requirement },
}

/// One node of a command tree.
#[derive(Debug, PartialEq, Eq)]
pub struct Node {
    pub kind: NodeKind,
    pub executor: Option<Executor>,
    pub children: Vec<Node>,
}

/// A command's tree: its names, its description, and its child nodes.
#[derive(Debug, PartialEq, Eq)]
pub struct CommandTree {
    pub names: Vec<String>,
    pub description: String,
    pub children: Vec<Node>,
}

/// An argument node with no guard, no executor and no children yet.
pub fn argument(name: &str, consumer: ArgConsumer) -> (n: Node)
    ensures
        n.kind matches NodeKind::Argument { name: nm, consumer: c } && nm@ == name@ && c
            == consumer,
        n.executor is None,
        n.children@.len() == 0,
{
    Node {
        kind: NodeKind::Argument { name: name.to_owned(), consumer },
        executor: None,
        children: Vec::new(),
    }
}

/// An argument node named after the consumer's own default name.
pub fn argument_default_name(consumer: BoundedNumArgumentConsumer) -> (n: Node)
    requires
        consumer.name is Some,
    ensures
        n.kind matches NodeKind::Argument { name: nm, consumer: c } && (consumer.name
            matches Some(dn) && nm@ == dn@) && c == ArgConsumer::BoundedNum(consumer),
        n.executor is None,
        n.children@.len() == 0,
{
    let name: String = match &consumer.name {
        Some(n) => n.clone(),
        None => String::new(),
    };
    Node {
        kind: NodeKind::Argument { name, consumer: ArgConsumer::BoundedNum(consumer) },
        executor: None,
        children: Vec::new(),
    }
}

/// A requirement node with no executor and no children yet.
pub fn require(requirement: Requirement) -> (n: Node)
    ensures
        n.kind == (NodeKind::Require { requirement }),
        n.executor is None,
        n.children@.len() == 0,
{
    Node { kind: NodeKind::Require { requirement }, executor: None, children: Vec::new() }
}

impl Node {
    /// End this node in an executor.
    pub fn execute(self, executor: Executor) -> (n: Node)
        ensures
            n.kind == self.kind,
            n.executor == Some(executor),
            n.children@ == self.children@,
    {
        Node { executor: Some(executor), ..self }
    }

    /// Append a child node and hand the tree back.
    pub fn and_then(self, child: Node) -> (n: Node)
        ensures
            n.kind == self.kind,
            n.executor == self.executor,
            n.children@ == self.children@.push(child),
    {
        let mut node = self;
        node.children.push(child);
        node
    }
}

impl CommandTree {
    pub fn new(names: Vec<String>, description: &str) -> (t: Self)
        ensures
            t.names@ == names@,
            t.description@ == description@,
            t.children@.len() == 0,
    {
        Self { names, description: description.to_owned(), children: Vec::new() }
    }

    /// Append a child node and hand the tree back.
    pub fn and_then(self, child: Node) -> (t: Self)
        ensures
            t.names@ == self.names@,
            t.description@ == self.description@,
            t.children@ == self.children@.push(child),
    {
        let mut tree = self;
        tree.children.push(child);
        tree
    }
}

/// The port consumer the `transfer` command registers.
pub open spec fn spec_is_port_consumer(c: BoundedNumArgumentConsumer) -> bool {
    &&& c.name matches Some(n) && n@ == "port"@
    &&& c.min == Some(1i32)
    &&& c.max == Some(65535i32)
}

/// A leaf gated on the sender being a player, executing the self transfer.
pub open spec fn spec_is_self_leaf(n: Node) -> bool {
    &&& n.kind == (NodeKind::Require { requirement: Requirement::IsPlayer })
    &&& n.executor == Some(Executor::TargetSelf)
    &&& n.children@.len() == 0
}

/// The players-argument leaf executing the targeted transfer.
pub open spec fn spec_is_players_leaf(n: Node) -> bool {
    &&& n.kind matches NodeKind::Argument { name, consumer } && name@ == "players"@ && consumer
        == ArgConsumer::Players
    &&& n.executor == Some(Executor::TargetPlayer)
    &&& n.children@.len() == 0
}

/// The port-argument subtree: a self leaf and a players leaf under the port
/// consumer.
pub open spec fn spec_is_port_subtree(n: Node) -> bool {
    &&& n.kind matches NodeKind::Argument { name, consumer } && name@ == "port"@ && (consumer
        matches ArgConsumer::BoundedNum(c) && spec_is_port_consumer(c))
    &&& n.executor is None
    &&& n.children@.len() == 2
    &&& spec_is_self_leaf(n.children@[0])
    &&& spec_is_port_subtree_players(n.children@[1])
}

/// Second child of the port subtree (split out to keep each shape flat).
pub open spec fn spec_is_port_subtree_players(n: Node) -> bool {
    spec_is_players_leaf(n)
}

/// The hostname-argument subtree: a self leaf beside the port subtree.
pub open spec fn spec_is_hostname_subtree(n: Node) -> bool {
    &&& n.kind matches NodeKind::Argument { name, consumer } && name@ == "hostname"@ && consumer
        == ArgConsumer::Simple
    &&& n.executor is None
    &&& n.children@.len() == 2
    &&& spec_is_self_leaf(n.children@[0])
    &&& spec_is_port_subtree(n.children@[1])
}

/// The whole `transfer` command tree: one name, its description, and the
/// hostname subtree.
pub open spec fn spec_is_transfer_tree(t: CommandTree) -> bool {
    &&& t.names@.len() == 1 && t.names@[0]@ == "transfer"@
    &&& t.description@ == "Triggers a transfer of a player to another server."@
    &&& t.children@.len() == 1
    &&& spec_is_hostname_subtree(t.children@[0])
}

/// Build the `transfer` command tree: `transfer <hostname> [<port>
/// [<players>]]`, the hostname and port forms self-targeted and gated on the
/// sender being a player, the players form targeting the selected players.
pub fn init_command_tree() -> (t: CommandTree)
    ensures
        spec_is_transfer_tree(t),
{
    let mut names: Vec<String> = Vec::new();
    names.push("transfer".to_owned());
    CommandTree::new(names, "Triggers a transfer of a player to another server.").and_then(
        argument("hostname", ArgConsumer::Simple).and_then(
            require(Requirement::IsPlayer).execute(Executor::TargetSelf),
        ).and_then(
            argument_default_name(port_consumer()).and_then(
                require(Requirement::IsPlayer).execute(Executor::TargetSelf),
            ).and_then(argument("players", ArgConsumer::Players).execute(Executor::TargetPlayer)),
        ),
    )
}

} // verus!
