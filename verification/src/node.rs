//! The node: how it reacts to each event.

use crate::base58;
use crate::command::{self, Command, CommandView};
use crate::event::{self, Action, ActionView, Event, EventView, Stage, StageView};
use crate::generation;
use crate::message::{
    self, ListMode, ListModeView, ListRequest, ListResponse, ListResponseView, ModelReq,
    ModelReqView, ModelRes, ModelResView,
};
use crate::notice::{Notice, NoticeView};
use crate::peer::Peer;
use crate::resources;
use vstd::prelude::*;

verus! {

/// A reaction: the stage that the node is in afterwards, and what it does.
pub type ReactionView = (StageView, Seq<ActionView>);

/// Each entry of `peers` where it first occurs.
pub open spec fn first_occurrences(peers: Seq<Seq<u8>>) -> Seq<Seq<u8>>
    decreases peers.len(),
{
    if peers.len() == 0 {
        seq![]
    } else {
        let before = first_occurrences(peers.drop_last());
        if before.contains(peers.last()) {
            before
        } else {
            before.push(peers.last())
        }
    }
}

/// What the node does about peers that were found: it announces each and broadcasts to it.
pub open spec fn welcome(peers: Seq<Seq<u8>>) -> Seq<ActionView>
    decreases peers.len(),
{
    if peers.len() == 0 {
        seq![]
    } else {
        welcome(peers.drop_last()) + seq![
            ActionView::Notify(NoticeView::PeerDiscovered(peers.last())),
            ActionView::AddExplicitPeer(peers.last()),
        ]
    }
}

/// What the node does about peers that were lost: it announces each and forgets it.
pub open spec fn farewell(peers: Seq<Seq<u8>>) -> Seq<ActionView>
    decreases peers.len(),
{
    if peers.len() == 0 {
        seq![]
    } else {
        farewell(peers.drop_last()) + seq![
            ActionView::Notify(NoticeView::PeerExpired(peers.last())),
            ActionView::RemoveExplicitPeer(peers.last()),
        ]
    }
}

/// The reaction to the command `cmd` about models.
pub open spec fn on_models_command(cmd: Seq<char>) -> ReactionView {
    match command::models_command(cmd) {
        CommandView::BroadcastAll => (
            StageView::Idle,
            seq![
                ActionView::Notify(NoticeView::Command(cmd)),
                ActionView::Publish(ListModeView::ALL),
            ],
        ),
        CommandView::BroadcastSpecs(specs) => (
            StageView::Idle,
            seq![ActionView::Publish(ListModeView::ModelSpecs(specs))],
        ),
        _ => (
            StageView::ListingModels,
            seq![ActionView::Notify(NoticeView::LookingUpModels), ActionView::ReadModels],
        ),
    }
}

/// The reaction to the line `line`.
pub open spec fn on_line(line: Seq<char>) -> ReactionView {
    match command::command(line) {
        CommandView::ListPeers => (StageView::ListingPeers, seq![ActionView::ListPeers]),
        CommandView::Unknown => (
            StageView::Idle,
            seq![ActionView::Notify(NoticeView::UnknownCommand(line))],
        ),
        _ => on_models_command(line),
    }
}

/// The reaction of the node with the identifier `local` to a broadcast. One that can be read as a
/// response is a response.
pub open spec fn on_broadcast(
    local: Seq<char>,
    from: Seq<u8>,
    source: Option<Seq<u8>>,
    response: Option<ListResponseView>,
    request: Option<ListModeView>,
) -> ReactionView {
    match (response, request) {
        (Some(r), _) => (
            StageView::Idle,
            if r.receiver == local {
                seq![ActionView::Notify(NoticeView::Response { from, models: r.data })]
            } else {
                seq![]
            },
        ),
        (None, Some(ListModeView::ALL)) => (
            StageView::Idle,
            seq![
                ActionView::Notify(
                    NoticeView::AllRequested { request: ListModeView::ALL, source },
                ),
            ],
        ),
        (None, Some(ListModeView::One(peer))) => if peer == local {
            (
                StageView::Reporting { to: from },
                seq![
                    ActionView::Notify(
                        NoticeView::OneRequested { request: ListModeView::One(peer), source, from },
                    ),
                    ActionView::ReadResources,
                ],
            )
        } else {
            (StageView::Idle, seq![])
        },
        (None, Some(ListModeView::ModelSpecs(specs))) => (
            StageView::ReadingSpecs { to: from, specs },
            seq![ActionView::ParseSpecs(specs)],
        ),
        _ => (StageView::Idle, seq![]),
    }
}

/// The reaction to a request that `from` sent to this node alone: an offer is answered with the
/// configuration of the model, and a configuration is read.
pub open spec fn on_request(from: Seq<u8>, request: ListModeView) -> ReactionView {
    match request {
        ListModeView::ModelSpecsReq(_) => (
            StageView::Idle,
            seq![
                ActionView::Send {
                    to: from,
                    request: ListModeView::ModelConfReq(message::MODEL_CONFIG@),
                },
            ],
        ),
        ListModeView::ModelConfReq(config) => (
            StageView::ReadingConfig,
            seq![ActionView::ParseConfig(config)],
        ),
        _ => (StageView::Idle, seq![]),
    }
}

/// What the node tells its user about its models.
pub open spec fn models_notice(outcome: Result<Seq<ModelReqView>, Seq<char>>) -> ActionView {
    ActionView::Notify(
        match outcome {
            Ok(models) => NoticeView::Models(models),
            Err(e) => NoticeView::ModelsUnreadable(e),
        },
    )
}

/// What the node tells its user about its resources.
pub open spec fn resources_notice(outcome: Result<Seq<ModelResView>, Seq<char>>) -> ActionView {
    ActionView::Notify(
        match outcome {
            Ok(resources) => NoticeView::Resources(resources),
            Err(e) => NoticeView::ResourcesUnreadable(e),
        },
    )
}

/// The offer to the peer `to` to generate the model that needs the resources `specs`.
pub open spec fn offer(to: Seq<u8>, specs: Seq<char>) -> ActionView {
    ActionView::Send { to, request: ListModeView::ModelSpecsReq(specs) }
}

/// The reaction to the resources of the node, by what the node wanted them for.
pub open spec fn on_resources(
    stage: StageView,
    outcome: Result<Seq<ModelResView>, Seq<char>>,
) -> ReactionView {
    match stage {
        StageView::Reporting { to } => (
            StageView::Idle,
            seq![
                resources_notice(outcome),
                ActionView::Send { to, request: ListModeView::ALL },
            ],
        ),
        StageView::Weighing { to, specs, wanted } => (
            StageView::Idle,
            if resources::available(Some(wanted), outcome) {
                seq![resources_notice(outcome), offer(to, specs)]
            } else {
                seq![resources_notice(outcome)]
            },
        ),
        _ => (stage, seq![]),
    }
}

/// The reaction to what the broadcast of `to` states: where that cannot be read, nothing rules
/// the request out.
pub open spec fn on_specs(
    to: Seq<u8>,
    specs: Seq<char>,
    wanted: Option<ModelResView>,
) -> ReactionView {
    match wanted {
        Some(w) => (
            StageView::Weighing { to, specs, wanted: w },
            seq![ActionView::ReadResources],
        ),
        None => (StageView::Idle, seq![offer(to, specs)]),
    }
}

/// The reaction to the model that a peer configured.
pub open spec fn on_config(model: Option<ModelReqView>) -> ReactionView {
    match model {
        Some(m) => (
            StageView::Generating,
            seq![
                ActionView::Notify(NoticeView::Location(m.parameters)),
                ActionView::Generate(generation::generation(m)),
            ],
        ),
        None => (StageView::Idle, seq![]),
    }
}

/// The reaction of the node with the identifier `local`, in `stage`, to `event`.
pub open spec fn reaction(local: Seq<char>, stage: StageView, event: EventView) -> ReactionView {
    match event {
        EventView::Line(line) => on_line(line),
        EventView::Discovered(peers) => (StageView::Idle, welcome(peers)),
        EventView::Expired(peers) => (StageView::Idle, farewell(peers)),
        EventView::Listening(address) => (
            StageView::Idle,
            seq![ActionView::Notify(NoticeView::Listening(address))],
        ),
        EventView::Broadcast { from, source, as_response, as_request } => on_broadcast(
            local,
            from,
            source,
            as_response,
            as_request,
        ),
        EventView::Request { from, request } => on_request(from, request),
        EventView::Response { .. } => (StageView::Idle, seq![]),
        EventView::Other => (StageView::Idle, seq![]),
        EventView::PeersListed(peers) => (
            StageView::Idle,
            seq![ActionView::Notify(NoticeView::Peers(first_occurrences(peers)))],
        ),
        EventView::ModelsRead(outcome) => (StageView::Idle, seq![models_notice(outcome)]),
        EventView::ResourcesRead(outcome) => on_resources(stage, outcome),
        EventView::SpecsParsed(wanted) => match stage {
            StageView::ReadingSpecs { to, specs } => on_specs(to, specs, wanted),
            _ => (stage, seq![]),
        },
        EventView::ConfigParsed(model) => on_config(model),
        EventView::ModelGenerated => (
            StageView::Idle,
            seq![ActionView::Notify(NoticeView::Generated(local))],
        ),
    }
}

/// The list of one action.
fn just(action: Action) -> (actions: Vec<Action>)
    ensures
        event::actions_view(actions@) == seq![action@],
{
    let mut actions: Vec<Action> = Vec::new();
    actions.push(action);
    assert(event::actions_view(actions@) =~= seq![action@]);
    actions
}

/// The list of two actions.
fn both(first: Action, second: Action) -> (actions: Vec<Action>)
    ensures
        event::actions_view(actions@) == seq![first@, second@],
{
    let mut actions: Vec<Action> = Vec::new();
    actions.push(first);
    actions.push(second);
    assert(event::actions_view(actions@) =~= seq![first@, second@]);
    actions
}

/// The list of no action.
fn nothing() -> (actions: Vec<Action>)
    ensures
        event::actions_view(actions@) == Seq::<ActionView>::empty(),
{
    let actions: Vec<Action> = Vec::new();
    assert(event::actions_view(actions@) =~= Seq::<ActionView>::empty());
    actions
}

/// Whether `peers` holds `peer`.
fn holds(peers: &Vec<Peer>, peer: &Peer) -> (r: bool)
    ensures
        r == event::peers_view(peers@).contains(peer@),
{
    for i in 0..peers.len()
        invariant
            forall|j: int| 0 <= j < i ==> event::peers_view(peers@)[j] != peer@,
    {
        if peers[i].same(peer) {
            assert(event::peers_view(peers@)[i as int] == peer@);
            return true;
        }
    }
    false
}

/// The peers to list: each peer of `nodes` once, in the order in which they first occur there.
pub fn handle_list_peers(nodes: &Vec<Peer>) -> (unique_peers: Vec<Peer>)
    ensures
        event::peers_view(unique_peers@) == first_occurrences(event::peers_view(nodes@)),
        event::peers_view(unique_peers@).no_duplicates(),
        event::peers_view(unique_peers@).to_set() == event::peers_view(nodes@).to_set(),
{
    let ghost all = event::peers_view(nodes@);
    let mut unique_peers: Vec<Peer> = Vec::new();
    assert(event::peers_view(unique_peers@) =~= first_occurrences(all.take(0)));
    for i in 0..nodes.len()
        invariant
            all == event::peers_view(nodes@),
            event::peers_view(unique_peers@) == first_occurrences(all.take(i as int)),
    {
        let ghost before = event::peers_view(unique_peers@);
        assert(all.take(i + 1).drop_last() =~= all.take(i as int));
        assert(all.take(i + 1).last() == nodes@[i as int]@);
        if !holds(&unique_peers, &nodes[i]) {
            unique_peers.push(nodes[i].clone());
            assert(event::peers_view(unique_peers@) =~= before.push(nodes@[i as int]@));
        }
    }
    assert(all.take(nodes@.len() as int) =~= all);
    proof {
        lemma_first_occurrences(all);
    }
    unique_peers
}

/// Each peer occurs once among the first occurrences, and none is left out.
pub proof fn lemma_first_occurrences(peers: Seq<Seq<u8>>)
    ensures
        first_occurrences(peers).no_duplicates(),
        first_occurrences(peers).to_set() == peers.to_set(),
    decreases peers.len(),
{
    if peers.len() > 0 {
        let earlier = peers.drop_last();
        let before = first_occurrences(earlier);
        lemma_first_occurrences(earlier);
        assert(peers =~= earlier.push(peers.last()));
        assert forall|p: Seq<u8>| #[trigger] peers.contains(p) implies first_occurrences(
            peers,
        ).contains(p) by {
            if p == peers.last() {
                if !before.contains(p) {
                    assert(first_occurrences(peers).last() == p);
                }
            } else {
                let i = choose|i: int| 0 <= i < peers.len() && peers[i] == p;
                assert(earlier[i] == p);
                assert(earlier.to_set().contains(p));
                assert(before.to_set().contains(p));
                let k = choose|k: int| 0 <= k < before.len() && before[k] == p;
                assert(first_occurrences(peers)[k] == p);
            }
        }
        assert forall|p: Seq<u8>| #[trigger] first_occurrences(peers).contains(p) implies
            peers.contains(p) by {
            if before.contains(p) {
                assert(before.to_set().contains(p));
                assert(earlier.to_set().contains(p));
                let i = choose|i: int| 0 <= i < earlier.len() && earlier[i] == p;
                assert(peers[i] == p);
            } else {
                assert(peers.last() == p);
            }
        }
        assert(first_occurrences(peers).to_set() =~= peers.to_set());
    } else {
        assert(first_occurrences(peers).to_set() =~= peers.to_set());
    }
}

/// What a reaction says.
pub open spec fn reaction_view(reaction: (Stage, Vec<Action>)) -> ReactionView {
    (reaction.0@, event::actions_view(reaction.1@))
}

/// Reacts to a command about models: with an argument it broadcasts a request, without one it
/// looks up the models of this node.
pub fn handle_list_models(cmd: &str) -> (r: (Stage, Vec<Action>))
    ensures
        reaction_view(r) == on_models_command(cmd@),
{
    match command::parse_models_command(cmd) {
        Command::BroadcastAll => (
            Stage::Idle,
            both(
                Action::Notify(Notice::Command(cmd.to_owned())),
                Action::Publish(ListRequest { mode: ListMode::ALL }),
            ),
        ),
        Command::BroadcastSpecs(specs) => (
            Stage::Idle,
            just(Action::Publish(ListRequest { mode: ListMode::ModelSpecs(specs) })),
        ),
        _ => (
            Stage::ListingModels,
            both(Action::Notify(Notice::LookingUpModels), Action::ReadModels),
        ),
    }
}

/// Reacts to a line that the user typed.
pub fn handle_line(line: String) -> (r: (Stage, Vec<Action>))
    ensures
        reaction_view(r) == on_line(line@),
{
    match command::parse_command(line.as_str()) {
        Command::ListPeers => (Stage::ListingPeers, just(Action::ListPeers)),
        Command::Unknown => (Stage::Idle, just(Action::Notify(Notice::UnknownCommand(line)))),
        _ => handle_list_models(line.as_str()),
    }
}

/// What to do about peers that were found.
pub fn handle_discovered(peers: &Vec<Peer>) -> (actions: Vec<Action>)
    ensures
        event::actions_view(actions@) == welcome(event::peers_view(peers@)),
{
    let ghost all = event::peers_view(peers@);
    let mut actions = nothing();
    for i in 0..peers.len()
        invariant
            all == event::peers_view(peers@),
            event::actions_view(actions@) == welcome(all.take(i as int)),
    {
        let ghost before = event::actions_view(actions@);
        assert(all.take(i + 1).drop_last() =~= all.take(i as int));
        actions.push(Action::Notify(Notice::PeerDiscovered(peers[i].clone())));
        actions.push(Action::AddExplicitPeer(peers[i].clone()));
        assert(event::actions_view(actions@) =~= before + seq![
            ActionView::Notify(NoticeView::PeerDiscovered(all[i as int])),
            ActionView::AddExplicitPeer(all[i as int]),
        ]);
    }
    assert(all.take(peers@.len() as int) =~= all);
    actions
}

/// What to do about peers that were lost.
pub fn handle_expired(peers: &Vec<Peer>) -> (actions: Vec<Action>)
    ensures
        event::actions_view(actions@) == farewell(event::peers_view(peers@)),
{
    let ghost all = event::peers_view(peers@);
    let mut actions = nothing();
    for i in 0..peers.len()
        invariant
            all == event::peers_view(peers@),
            event::actions_view(actions@) == farewell(all.take(i as int)),
    {
        let ghost before = event::actions_view(actions@);
        assert(all.take(i + 1).drop_last() =~= all.take(i as int));
        actions.push(Action::Notify(Notice::PeerExpired(peers[i].clone())));
        actions.push(Action::RemoveExplicitPeer(peers[i].clone()));
        assert(event::actions_view(actions@) =~= before + seq![
            ActionView::Notify(NoticeView::PeerExpired(all[i as int])),
            ActionView::RemoveExplicitPeer(all[i as int]),
        ]);
    }
    assert(all.take(peers@.len() as int) =~= all);
    actions
}

/// Reacts to a broadcast, as the node with the identifier `local`.
pub fn handle_broadcast(
    local: &str,
    from: Peer,
    source: Option<Peer>,
    response: Option<ListResponse>,
    request: Option<ListRequest>,
) -> (r: (Stage, Vec<Action>))
    ensures
        reaction_view(r) == on_broadcast(
            local@,
            from@,
            event::source_view(source),
            match response {
                Some(x) => Some(x@),
                None => None,
            },
            match request {
                Some(x) => Some(x@),
                None => None,
            },
        ),
{
    if let Some(resp) = response {
        return if command::same_text(resp.receiver.as_str(), local) {
            (Stage::Idle, just(Action::Notify(Notice::Response { from, models: resp.data })))
        } else {
            (Stage::Idle, nothing())
        };
    }
    let req = match request {
        Some(req) => req,
        None => return (Stage::Idle, nothing()),
    };
    match req.mode {
        ListMode::ALL => {
            let request = ListRequest { mode: ListMode::ALL };
            (Stage::Idle, just(Action::Notify(Notice::AllRequested { request, source })))
        },
        ListMode::One(peer) => {
            if command::same_text(peer.as_str(), local) {
                let to = from.clone();
                let request = ListRequest { mode: ListMode::One(peer) };
                (
                    Stage::Reporting { to },
                    both(
                        Action::Notify(Notice::OneRequested { request, source, from }),
                        Action::ReadResources,
                    ),
                )
            } else {
                (Stage::Idle, nothing())
            }
        },
        ListMode::ModelSpecs(specs) => {
            let text = specs.clone();
            (Stage::ReadingSpecs { to: from, specs }, just(Action::ParseSpecs(text)))
        },
        _ => (Stage::Idle, nothing()),
    }
}

/// Reacts to a request that a peer sent to this node alone.
pub fn handle_request(from: Peer, request: ListRequest) -> (r: (Stage, Vec<Action>))
    ensures
        reaction_view(r) == on_request(from@, request@),
{
    match request.mode {
        ListMode::ModelSpecsReq(_) => {
            let config = message::MODEL_CONFIG.to_owned();
            (
                Stage::Idle,
                just(
                    Action::Send {
                        to: from,
                        request: ListRequest { mode: ListMode::ModelConfReq(config) },
                    },
                ),
            )
        },
        ListMode::ModelConfReq(config) => (
            Stage::ReadingConfig,
            just(Action::ParseConfig(config)),
        ),
        _ => (Stage::Idle, nothing()),
    }
}

/// What the outcome of reading the models of the node says.
pub open spec fn models_outcome_view(outcome: Result<Vec<ModelReq>, String>) -> Result<
    Seq<ModelReqView>,
    Seq<char>,
> {
    match outcome {
        Ok(models) => Ok(message::models_view(models@)),
        Err(e) => Err(e@),
    }
}

/// Tells the user about the models of the node.
pub fn report_models(outcome: Result<Vec<ModelReq>, String>) -> (action: Action)
    ensures
        action@ == models_notice(models_outcome_view(outcome)),
{
    match outcome {
        Ok(models) => Action::Notify(Notice::Models(models)),
        Err(e) => Action::Notify(Notice::ModelsUnreadable(e)),
    }
}

/// Tells the user about the resources of the node.
pub fn report_resources(outcome: Result<Vec<ModelRes>, String>) -> (action: Action)
    ensures
        action@ == resources_notice(resources::outcome_view(outcome)),
{
    match outcome {
        Ok(entries) => Action::Notify(Notice::Resources(entries)),
        Err(e) => Action::Notify(Notice::ResourcesUnreadable(e)),
    }
}

/// What the node does for a peer that asks every node for everything, once it has read its models:
/// it sends nothing, and tells its user where the models could not be read.
pub fn respond_with_public_models(outcome: Result<Vec<ModelReq>, String>) -> (actions: Vec<Action>)
    ensures
        event::actions_view(actions@) == (match models_outcome_view(outcome) {
            Ok(_) => seq![],
            Err(e) => seq![ActionView::Notify(NoticeView::AnswerUnreadable(e))],
        }),
        outcome is Ok ==> actions@.len() == 0,
        outcome matches Err(e) ==> actions@.len() == 1 && actions@[0]@ == ActionView::Notify(
            NoticeView::AnswerUnreadable(e@),
        ),
{
    match outcome {
        Ok(_) => {
            let actions = nothing();
            assert(event::actions_view(actions@).len() == actions@.len());
            actions
        },
        Err(e) => {
            let actions = just(Action::Notify(Notice::AnswerUnreadable(e)));
            assert(event::actions_view(actions@).len() == actions@.len());
            assert(event::actions_view(actions@)[0] == actions@[0]@);
            actions
        },
    }
}

/// Weighs the resources of the node against those that a peer's broadcast states, and offers to
/// generate the model where they are enough.
pub fn weigh(
    to: Peer,
    specs: String,
    wanted: ModelRes,
    outcome: Result<Vec<ModelRes>, String>,
) -> (actions: Vec<Action>)
    ensures
        (StageView::Idle, event::actions_view(actions@)) == on_resources(
            StageView::Weighing { to: to@, specs: specs@, wanted: wanted@ },
            resources::outcome_view(outcome),
        ),
{
    let available = resources::resources_available_for_request(&Some(wanted), &outcome);
    let notice = report_resources(outcome);
    if available {
        let request = ListRequest { mode: ListMode::ModelSpecsReq(specs) };
        both(notice, Action::Send { to, request })
    } else {
        just(notice)
    }
}

/// Reacts to the model that a peer configured.
pub fn handle_config(model: Option<ModelReq>) -> (r: (Stage, Vec<Action>))
    ensures
        reaction_view(r) == on_config(
            match model {
                Some(m) => Some(m@),
                None => None,
            },
        ),
{
    match model {
        Some(m) => {
            let jobs = generation::gen_model_response(&m);
            (
                Stage::Generating,
                both(Action::Notify(Notice::Location(m.parameters)), Action::Generate(jobs)),
            )
        },
        None => (Stage::Idle, nothing()),
    }
}

/// Reacts to `event` as the node with the identifier `local` does in `stage`. A node that waits
/// for the reply to something takes up nothing else.
pub fn react(local: &str, stage: Stage, event: Event) -> (r: (Stage, Vec<Action>))
    requires
        event::awaits(stage@, event@),
    ensures
        reaction_view(r) == reaction(local@, stage@, event@),
{
    match event {
        Event::Line(line) => handle_line(line),
        Event::Discovered(peers) => (Stage::Idle, handle_discovered(&peers)),
        Event::Expired(peers) => (Stage::Idle, handle_expired(&peers)),
        Event::Listening(address) => (
            Stage::Idle,
            just(Action::Notify(Notice::Listening(address))),
        ),
        Event::Broadcast { from, source, as_response, as_request } => handle_broadcast(
            local,
            from,
            source,
            as_response,
            as_request,
        ),
        Event::Request { from, request } => handle_request(from, request),
        Event::Response { .. } => (Stage::Idle, nothing()),
        Event::Other => (Stage::Idle, nothing()),
        Event::PeersListed(peers) => (
            Stage::Idle,
            just(Action::Notify(Notice::Peers(handle_list_peers(&peers)))),
        ),
        Event::ModelsRead(outcome) => (Stage::Idle, just(report_models(outcome))),
        Event::ResourcesRead(outcome) => match stage {
            Stage::Reporting { to } => {
                let request = ListRequest { mode: ListMode::ALL };
                (
                    Stage::Idle,
                    both(report_resources(outcome), Action::Send { to, request }),
                )
            },
            Stage::Weighing { to, specs, wanted } => (
                Stage::Idle,
                weigh(to, specs, wanted, outcome),
            ),
            other => (other, nothing()),
        },
        Event::SpecsParsed(wanted) => match stage {
            Stage::ReadingSpecs { to, specs } => match wanted {
                Some(wanted) => (
                    Stage::Weighing { to, specs, wanted },
                    just(Action::ReadResources),
                ),
                None => {
                    let request = ListRequest { mode: ListMode::ModelSpecsReq(specs) };
                    (Stage::Idle, just(Action::Send { to, request }))
                },
            },
            other => (other, nothing()),
        },
        Event::ConfigParsed(model) => handle_config(model),
        Event::ModelGenerated => (
            Stage::Idle,
            just(Action::Notify(Notice::Generated(local.to_owned()))),
        ),
    }
}

/// A node of the network.
#[derive(Debug)]
pub struct Node {
    local: Peer,
    stage: Stage,
}

/// What a `Node` is: the bytes of its identifier, and what it is waiting for.
#[verifier::ext_equal]
pub struct NodeView {
    pub local: Seq<u8>,
    pub stage: StageView,
}

impl View for Node {
    type V = NodeView;

    closed spec fn view(&self) -> NodeView {
        NodeView { local: self.local@, stage: self.stage@ }
    }
}

impl Node {
    /// A node that has yet to do anything.
    pub fn new(local: Peer) -> (node: Node)
        ensures
            node@ == (NodeView { local: local@, stage: StageView::Idle }),
    {
        Node { local, stage: Stage::Idle }
    }

    /// Whether `event` is what the node is waiting for.
    pub fn awaits(&self, event: &Event) -> (r: bool)
        ensures
            r == event::awaits(self@.stage, event@),
    {
        self.stage.awaits(event)
    }

    /// Reacts to `event`, and says what is to be done about it, in order.
    pub fn handle(&mut self, event: Event) -> (actions: Vec<Action>)
        requires
            event::awaits(old(self)@.stage, event@),
        ensures
            final(self)@.local == old(self)@.local,
            (final(self)@.stage, event::actions_view(actions@)) == reaction(
                base58::base58(old(self)@.local),
                old(self)@.stage,
                event@,
            ),
    {
        let text = self.local.text();
        let mut stage = Stage::Idle;
        std::mem::swap(&mut stage, &mut self.stage);
        let (next, actions) = react(text.as_str(), stage, event);
        self.stage = next;
        actions
    }
}

/// A reaction says its stage and its actions; an outcome says the models, or why there are none.
pub proof fn lemma_reaction_says(
    reaction: (Stage, Vec<Action>),
    outcome: Result<Vec<ModelReq>, String>,
)
    ensures
        reaction_view(reaction).0 == reaction.0@,
        reaction_view(reaction).1 == reaction.1@.map_values(|a: Action| a@),
        outcome matches Ok(models) ==> models_outcome_view(outcome) == Ok::<_, Seq<char>>(
            models@.map_values(|m: ModelReq| m@),
        ),
        outcome matches Err(e) ==> models_outcome_view(outcome) == Err::<Seq<ModelReqView>, _>(e@),
{
    assert(event::actions_view(reaction.1@) =~= reaction.1@.map_values(|a: Action| a@));
    if let Ok(models) = outcome {
        assert(message::models_view(models@) =~= models@.map_values(|m: ModelReq| m@));
    }
}

} // verus!
