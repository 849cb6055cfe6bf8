//! What holds of a node whatever happens to it.

use crate::base58;
use crate::command;
use crate::event::{self, ActionView, EventView, StageView};
use crate::generation::{self, JobView};
use crate::message::{self, ListModeView, ListResponseView, ModelReqView, ModelResView};
use crate::node::{self, ReactionView};
use crate::notice::NoticeView;
use crate::resources;
use vstd::prelude::*;

verus! {

/// Whether `action` asks for something that an event brings.
pub open spec fn asks(action: ActionView) -> bool {
    match action {
        ActionView::ListPeers => true,
        ActionView::ReadModels => true,
        ActionView::ReadResources => true,
        ActionView::ParseSpecs(_) => true,
        ActionView::ParseConfig(_) => true,
        ActionView::Generate(_) => true,
        _ => false,
    }
}

/// Whether `event` brings what `action` asks for.
pub open spec fn replies(action: ActionView, event: EventView) -> bool {
    match event {
        EventView::PeersListed(_) => action is ListPeers,
        EventView::ModelsRead(_) => action is ReadModels,
        EventView::ResourcesRead(_) => action is ReadResources,
        EventView::SpecsParsed(_) => action is ParseSpecs,
        EventView::ConfigParsed(_) => action is ParseConfig,
        EventView::ModelGenerated => action is Generate,
        _ => false,
    }
}

/// The peer that the node is dealing with in `stage`.
pub open spec fn stage_peer(stage: StageView) -> Option<Seq<u8>> {
    match stage {
        StageView::Reporting { to } => Some(to),
        StageView::ReadingSpecs { to, .. } => Some(to),
        StageView::Weighing { to, .. } => Some(to),
        _ => None,
    }
}

/// The peer that the node deals with when `event` happens in `stage`.
pub open spec fn correspondent(stage: StageView, event: EventView) -> Option<Seq<u8>> {
    match event {
        EventView::Broadcast { from, .. } => Some(from),
        EventView::Request { from, .. } => Some(from),
        EventView::Response { from, .. } => Some(from),
        _ => stage_peer(stage),
    }
}

/// How many replies the node is still to get, at most, before it is idle.
pub open spec fn replies_due(stage: StageView) -> nat {
    match stage {
        StageView::Idle => 0,
        StageView::ReadingSpecs { .. } => 2,
        StageView::ReadingConfig => 2,
        _ => 1,
    }
}

/// The peers that the node broadcasts to after `actions`, if it did to `peers` before.
pub open spec fn explicit_peers(
    peers: Set<Seq<u8>>,
    actions: Seq<ActionView>,
) -> Set<Seq<u8>>
    decreases actions.len(),
{
    if actions.len() == 0 {
        peers
    } else {
        let before = explicit_peers(peers, actions.drop_last());
        match actions.last() {
            ActionView::AddExplicitPeer(p) => before.insert(p),
            ActionView::RemoveExplicitPeer(p) => before.remove(p),
            _ => before,
        }
    }
}

/// The reaction to `events`, one after the other.
pub open spec fn run(
    local: Seq<char>,
    stage: StageView,
    events: Seq<EventView>,
) -> ReactionView
    decreases events.len(),
{
    if events.len() == 0 {
        (stage, seq![])
    } else {
        let (before, actions) = run(local, stage, events.drop_last());
        let (after, more) = node::reaction(local, before, events.last());
        (after, actions + more)
    }
}

/// Whether the node is waiting for each of `events` when it comes.
pub open spec fn awaited(local: Seq<char>, stage: StageView, events: Seq<EventView>) -> bool {
    forall|i: int|
        0 <= i < events.len() ==> event::awaits(
            run(local, stage, #[trigger] events.take(i)).0,
            events[i],
        )
}

/// What `welcome` and `farewell` do: they neither ask, nor send, nor broadcast.
proof fn lemma_greetings_are_local(peers: Seq<Seq<u8>>)
    ensures
        forall|i: int|
            0 <= i < node::welcome(peers).len() ==> !asks(#[trigger] node::welcome(peers)[i])
                && !(node::welcome(peers)[i] is Send) && !(node::welcome(peers)[i] is Publish),
        forall|i: int|
            0 <= i < node::farewell(peers).len() ==> !asks(#[trigger] node::farewell(peers)[i])
                && !(node::farewell(peers)[i] is Send) && !(node::farewell(peers)[i] is Publish),
    decreases peers.len(),
{
    if peers.len() > 0 {
        lemma_greetings_are_local(peers.drop_last());
    }
}

/// A node waits exactly for what it asked for: it is idle unless the last thing that it did was
/// to ask for something, it asks for one thing at a time, and then takes up the reply to that and
/// nothing else.
pub proof fn lemma_waits_for_what_it_asked(local: Seq<char>, stage: StageView, event: EventView)
    requires
        event::awaits(stage, event),
    ensures
        ({
            let (next, actions) = node::reaction(local, stage, event);
            &&& forall|i: int|
                0 <= i < actions.len() - 1 ==> !asks(#[trigger] actions[i])
            &&& next is Idle <==> actions.len() == 0 || !asks(actions.last())
            &&& !(next is Idle) ==> forall|e: EventView|
                event::awaits(next, e) <==> #[trigger] replies(actions.last(), e)
        }),
{
    match event {
        EventView::Discovered(peers) => lemma_greetings_are_local(peers),
        EventView::Expired(peers) => lemma_greetings_are_local(peers),
        _ => {},
    }
}

/// Every exchange ends: each reply brings the node closer to being idle, and two are enough.
pub proof fn lemma_every_exchange_ends(local: Seq<char>, stage: StageView, event: EventView)
    requires
        event::awaits(stage, event),
    ensures
        replies_due(node::reaction(local, stage, event).0) <= 2,
        !(stage is Idle) ==> replies_due(node::reaction(local, stage, event).0) < replies_due(
            stage,
        ),
        replies_due(stage) == 0 <==> stage is Idle,
{
}

/// What a node sends to one peer alone goes to the peer that it is dealing with, and it deals with
/// that peer until it is idle again.
pub proof fn lemma_answers_go_to_the_correspondent(
    local: Seq<char>,
    stage: StageView,
    event: EventView,
)
    requires
        event::awaits(stage, event),
    ensures
        ({
            let (next, actions) = node::reaction(local, stage, event);
            &&& forall|i: int|
                0 <= i < actions.len() ==> (#[trigger] actions[i] matches ActionView::Send {
                    to,
                    ..
                } ==> correspondent(stage, event) == Some(to))
            &&& stage_peer(next) is Some ==> stage_peer(next) == correspondent(stage, event)
        }),
{
    match event {
        EventView::Discovered(peers) => lemma_greetings_are_local(peers),
        EventView::Expired(peers) => lemma_greetings_are_local(peers),
        _ => {},
    }
}

/// A node broadcasts only at its user's command, and at most once for each.
pub proof fn lemma_only_the_user_broadcasts(local: Seq<char>, stage: StageView, event: EventView)
    requires
        event::awaits(stage, event),
    ensures
        ({
            let (next, actions) = node::reaction(local, stage, event);
            forall|i: int|
                0 <= i < actions.len() && #[trigger] actions[i] is Publish ==> event is Line && i
                    == actions.len() - 1
        }),
{
    match event {
        EventView::Discovered(peers) => lemma_greetings_are_local(peers),
        EventView::Expired(peers) => lemma_greetings_are_local(peers),
        _ => {},
    }
}

/// A broadcast that can be read as a response is taken for nothing else.
pub proof fn lemma_response_comes_first(
    local: Seq<char>,
    from: Seq<u8>,
    source: Option<Seq<u8>>,
    response: ListResponseView,
    request: Option<ListModeView>,
)
    ensures
        node::on_broadcast(local, from, source, Some(response), request) == node::on_broadcast(
            local,
            from,
            source,
            Some(response),
            None,
        ),
{
}

/// A broadcast for one node is taken up by that node: by no two nodes, and by none whose
/// identifier it does not name.
pub proof fn lemma_one_addressee(
    a: Seq<u8>,
    b: Seq<u8>,
    from_a: Seq<u8>,
    from_b: Seq<u8>,
    source: Option<Seq<u8>>,
    response: Option<ListResponseView>,
    request: Option<ListModeView>,
)
    requires
        response is Some || request matches Some(ListModeView::One(_)),
    ensures
        ({
            let named = match response {
                Some(r) => r.receiver,
                None => request->0->One_0,
            };
            let at_a = node::on_broadcast(base58::base58(a), from_a, source, response, request);
            let at_b = node::on_broadcast(base58::base58(b), from_b, source, response, request);
            &&& at_a.1.len() > 0 <==> named == base58::base58(a)
            &&& at_a.1.len() == 0 ==> at_a.0 is Idle
            &&& at_a.1.len() > 0 && at_b.1.len() > 0 ==> a == b
        }),
{
    if base58::base58(a) == base58::base58(b) {
        base58::lemma_base58_injective(a, b);
    }
}

/// Offers, configurations and models are nothing to broadcast, and requests for everything and
/// for resources nothing to send to one node: a node ignores them there. So it does a response
/// that was not broadcast.
pub proof fn lemma_ignored_out_of_place(
    local: Seq<char>,
    from: Seq<u8>,
    source: Option<Seq<u8>>,
    request: ListModeView,
    response: ListResponseView,
)
    ensures
        request is ModelSpecsReq || request is ModelConfReq || request is Model
            ==> node::on_broadcast(local, from, source, None, Some(request)) == (
            StageView::Idle,
            Seq::<ActionView>::empty(),
        ),
        request is ALL || request is One || request is ModelSpecs || request is Model
            ==> node::on_request(from, request) == (StageView::Idle, Seq::<ActionView>::empty()),
        node::reaction(local, StageView::Idle, EventView::Response { from, response }) == (
            StageView::Idle,
            Seq::<ActionView>::empty(),
        ),
{
}

/// What follows the broadcast of the resources `specs` by `from`: they are read as `wanted`, and
/// where that was possible the node's own are read with the outcome `outcome`.
pub open spec fn specs_exchange(
    from: Seq<u8>,
    source: Option<Seq<u8>>,
    specs: Seq<char>,
    wanted: Option<ModelResView>,
    outcome: Result<Seq<ModelResView>, Seq<char>>,
) -> Seq<EventView> {
    let broadcast = EventView::Broadcast {
        from,
        source,
        as_response: None,
        as_request: Some(ListModeView::ModelSpecs(specs)),
    };
    match wanted {
        Some(_) => seq![
            broadcast,
            EventView::SpecsParsed(wanted),
            EventView::ResourcesRead(outcome),
        ],
        None => seq![broadcast, EventView::SpecsParsed(wanted)],
    }
}

/// The reaction to three events, step by step.
proof fn lemma_run_steps(local: Seq<char>, stage: StageView, events: Seq<EventView>)
    ensures
        run(local, stage, events.take(0)) == (stage, Seq::<ActionView>::empty()),
        events.len() >= 1 ==> run(local, stage, events.take(1)) == node::reaction(
            local,
            stage,
            events[0],
        ),
        events.len() >= 2 ==> run(local, stage, events.take(2)) == ({
            let first = node::reaction(local, stage, events[0]);
            let second = node::reaction(local, first.0, events[1]);
            (second.0, first.1 + second.1)
        }),
        events.len() >= 3 ==> run(local, stage, events.take(3)) == ({
            let first = node::reaction(local, stage, events[0]);
            let second = node::reaction(local, first.0, events[1]);
            let third = node::reaction(local, second.0, events[2]);
            (third.0, first.1 + second.1 + third.1)
        }),
{
    assert(events.take(0) =~= seq![]);
    if events.len() >= 1 {
        assert(events.take(1).drop_last() =~= events.take(0));
        let first = node::reaction(local, stage, events[0]);
        assert(Seq::<ActionView>::empty() + first.1 =~= first.1);
    }
    if events.len() >= 2 {
        assert(events.take(2).drop_last() =~= events.take(1));
    }
    if events.len() >= 3 {
        assert(events.take(3).drop_last() =~= events.take(2));
    }
}

/// What `actions` send to single nodes, in order.
pub open spec fn sent(actions: Seq<ActionView>) -> Seq<ActionView> {
    actions.filter(|a: ActionView| a is Send)
}

/// Actions that send nothing, and one more that does.
proof fn lemma_sent_last(silent: Seq<ActionView>, last: ActionView)
    requires
        forall|i: int| 0 <= i < silent.len() ==> !(#[trigger] silent[i] is Send),
        last is Send,
    ensures
        sent(silent) == Seq::<ActionView>::empty(),
        sent(silent.push(last)) == seq![last],
    decreases silent.len(),
{
    reveal_with_fuel(Seq::filter, 1);
    if silent.len() > 0 {
        assert forall|i: int| 0 <= i < silent.drop_last().len() implies !(
        #[trigger] silent.drop_last()[i] is Send) by {
            assert(silent.drop_last()[i] == silent[i]);
        }
        assert(!(silent[silent.len() - 1] is Send));
        lemma_sent_last(silent.drop_last(), last);
    }
    assert(silent.push(last).drop_last() =~= silent);
}

/// A node offers to generate a model exactly when its resources are available for it: to the peer
/// that the broadcast came from, in the broadcast's own words, and once. It sends nothing else,
/// and is idle afterwards.
pub proof fn lemma_offers_what_is_available(
    local: Seq<char>,
    from: Seq<u8>,
    source: Option<Seq<u8>>,
    specs: Seq<char>,
    wanted: Option<ModelResView>,
    outcome: Result<Seq<ModelResView>, Seq<char>>,
)
    ensures
        ({
            let events = specs_exchange(from, source, specs, wanted, outcome);
            let (stage, actions) = run(local, StageView::Idle, events);
            &&& awaited(local, StageView::Idle, events)
            &&& stage is Idle
            &&& sent(actions) == (if resources::available(wanted, outcome) {
                seq![node::offer(from, specs)]
            } else {
                seq![]
            })
        }),
{
    let events = specs_exchange(from, source, specs, wanted, outcome);
    let read = ActionView::ParseSpecs(specs);
    let offer = node::offer(from, specs);
    let first = node::reaction(local, StageView::Idle, events[0]);
    assert(first == (StageView::ReadingSpecs { to: from, specs }, seq![read]));
    let second = node::reaction(local, first.0, events[1]);
    assert(second == node::on_specs(from, specs, wanted));
    lemma_run_steps(local, StageView::Idle, events);
    assert(events.take(events.len() as int) =~= events);
    assert forall|i: int| 0 <= i < events.len() implies event::awaits(
        run(local, StageView::Idle, #[trigger] events.take(i)).0,
        events[i],
    ) by {
        if i == 0 {
        } else if i == 1 {
        } else {
            assert(i == 2);
        }
    }
    let (stage, actions) = run(local, StageView::Idle, events);
    match wanted {
        Some(w) => {
            let told = node::resources_notice(outcome);
            let silent = seq![read, ActionView::ReadResources, told];
            lemma_sent_last(silent, offer);
            let third = node::reaction(local, second.0, events[2]);
            assert(third == node::on_resources(second.0, outcome));
            if resources::available(wanted, outcome) {
                assert(third.1 == seq![told, offer]);
                assert(actions =~= silent.push(offer));
            } else {
                assert(third.1 == seq![told]);
                assert(actions =~= silent);
            }
        },
        None => {
            lemma_sent_last(seq![read], offer);
            assert(actions =~= seq![read].push(offer));
        },
    }
}

/// The whole way to a model: what a verifier's user asks for reaches a prover, the prover offers
/// to serve it where its resources are available, the verifier answers the offer with the
/// configuration, and the prover generates the model that the configuration says, from the bucket
/// that it names.
pub proof fn lemma_from_command_to_model(
    verifier: Seq<u8>,
    prover: Seq<u8>,
    specs: Seq<char>,
    wanted: ModelResView,
    local: Seq<ModelResView>,
    model: ModelReqView,
)
    requires
        specs != command::EVERYTHING@,
        resources::all_suffice(local, wanted),
    ensures
        ({
            let verifier_id = base58::base58(verifier);
            let prover_id = base58::base58(prover);
            let asked = node::reaction(
                verifier_id,
                StageView::Idle,
                EventView::Line(command::MODELS_WITH_ARGUMENT@ + specs),
            );
            let weighed = run(
                prover_id,
                StageView::Idle,
                specs_exchange(verifier, Some(verifier), specs, Some(wanted), Ok(local)),
            );
            let configured = node::reaction(
                verifier_id,
                StageView::Idle,
                EventView::Request {
                    from: prover,
                    request: ListModeView::ModelSpecsReq(specs),
                },
            );
            let generated = run(
                prover_id,
                StageView::Idle,
                seq![
                    EventView::Request {
                        from: verifier,
                        request: ListModeView::ModelConfReq(message::MODEL_CONFIG@),
                    },
                    EventView::ConfigParsed(Some(model)),
                    EventView::ModelGenerated,
                ],
            );
            &&& asked == (
                StageView::Idle,
                seq![ActionView::Publish(ListModeView::ModelSpecs(specs))],
            )
            &&& weighed.0 is Idle
            &&& weighed.1.last() == (ActionView::Send {
                to: verifier,
                request: ListModeView::ModelSpecsReq(specs),
            })
            &&& configured == (
                StageView::Idle,
                seq![
                    ActionView::Send {
                        to: prover,
                        request: ListModeView::ModelConfReq(message::MODEL_CONFIG@),
                    },
                ],
            )
            &&& generated == (
                StageView::Idle,
                seq![
                    ActionView::ParseConfig(message::MODEL_CONFIG@),
                    ActionView::Notify(NoticeView::Location(model.parameters)),
                    ActionView::Generate(generation::generation(model)),
                    ActionView::Notify(NoticeView::Generated(prover_id)),
                ],
            )
            &&& generation::generation(model)[0] matches JobView::Download(d)
            &&& d.bucket == model.parameters
        }),
{
    command::lemma_argument_is_broadcast(specs);
    let line = command::MODELS_WITH_ARGUMENT@ + specs;
    reveal_strlit("ls p");
    reveal_strlit("ls r ");
    let prover_id = base58::base58(prover);
    let events = specs_exchange(verifier, Some(verifier), specs, Some(wanted), Ok(local));
    lemma_run_steps(prover_id, StageView::Idle, events);
    assert(events.take(3) =~= events);
    let config = seq![
        EventView::Request {
            from: verifier,
            request: ListModeView::ModelConfReq(message::MODEL_CONFIG@),
        },
        EventView::ConfigParsed(Some(model)),
        EventView::ModelGenerated,
    ];
    lemma_run_steps(prover_id, StageView::Idle, config);
    assert(config.take(3) =~= config);
    assert(run(prover_id, StageView::Idle, config).1 =~= seq![
        ActionView::ParseConfig(message::MODEL_CONFIG@),
        ActionView::Notify(NoticeView::Location(model.parameters)),
        ActionView::Generate(generation::generation(model)),
        ActionView::Notify(NoticeView::Generated(prover_id)),
    ]);
}

/// Peers that are found join those that the node broadcasts to, and peers that are lost leave them.
pub proof fn lemma_explicit_peers_follow_discovery(known: Set<Seq<u8>>, peers: Seq<Seq<u8>>)
    ensures
        explicit_peers(known, node::welcome(peers)) == known.union(peers.to_set()),
        explicit_peers(known, node::farewell(peers)) == known.difference(peers.to_set()),
    decreases peers.len(),
{
    reveal_with_fuel(explicit_peers, 3);
    if peers.len() == 0 {
        assert(known.union(peers.to_set()) =~= known);
        assert(known.difference(peers.to_set()) =~= known);
    } else {
        let earlier = peers.drop_last();
        let peer = peers.last();
        lemma_explicit_peers_follow_discovery(known, earlier);
        assert(peers.to_set() =~= earlier.to_set().insert(peer)) by {
            assert(peers =~= earlier.push(peer));
            assert forall|p: Seq<u8>| peers.contains(p) <==> #[trigger] earlier.to_set().insert(
                peer,
            ).contains(p) by {
                if earlier.contains(p) {
                    let i = choose|i: int| 0 <= i < earlier.len() && earlier[i] == p;
                    assert(peers[i] == p);
                }
                if p == peer {
                    assert(peers[peers.len() - 1] == p);
                }
            }
        }
        let hello = node::welcome(peers);
        assert(hello.drop_last().drop_last() =~= node::welcome(earlier));
        assert(hello.last() == ActionView::AddExplicitPeer(peer));
        assert(hello.drop_last().last() == ActionView::Notify(NoticeView::PeerDiscovered(peer)));
        assert(known.union(peers.to_set()) =~= known.union(earlier.to_set()).insert(peer));
        let bye = node::farewell(peers);
        assert(bye.drop_last().drop_last() =~= node::farewell(earlier));
        assert(bye.last() == ActionView::RemoveExplicitPeer(peer));
        assert(bye.drop_last().last() == ActionView::Notify(NoticeView::PeerExpired(peer)));
        assert(known.difference(peers.to_set()) =~= known.difference(earlier.to_set()).remove(
            peer,
        ));
    }
}

/// Nothing but finding and losing peers changes which peers the node broadcasts to.
pub proof fn lemma_only_discovery_changes_explicit_peers(
    local: Seq<char>,
    stage: StageView,
    event: EventView,
    known: Set<Seq<u8>>,
)
    requires
        !(event is Discovered) && !(event is Expired),
    ensures
        explicit_peers(known, node::reaction(local, stage, event).1) == known,
{
    reveal_with_fuel(explicit_peers, 3);
}

/// Which peers the node broadcasts to after two lists of actions is the second list's change to
/// what the first left.
pub proof fn lemma_explicit_peers_compose(
    known: Set<Seq<u8>>,
    a: Seq<ActionView>,
    b: Seq<ActionView>,
)
    ensures
        explicit_peers(known, a + b) == explicit_peers(explicit_peers(known, a), b),
    decreases b.len(),
{
    if b.len() == 0 {
        assert(a + b =~= a);
    } else {
        assert((a + b).drop_last() =~= a + b.drop_last());
        assert((a + b).last() == b.last());
        lemma_explicit_peers_compose(known, a, b.drop_last());
    }
}

/// Whether `event` tells that `peer` was found.
pub open spec fn finds(event: EventView, peer: Seq<u8>) -> bool {
    event matches EventView::Discovered(peers) && peers.contains(peer)
}

/// Whether `event` tells that `peer` was lost.
pub open spec fn loses(event: EventView, peer: Seq<u8>) -> bool {
    event matches EventView::Expired(peers) && peers.contains(peer)
}

/// Whether none of `events` from the index `start` on tells that `peer` was lost.
pub open spec fn not_lost_from(events: Seq<EventView>, start: int, peer: Seq<u8>) -> bool {
    forall|j: int| start <= j < events.len() ==> !loses(#[trigger] events[j], peer)
}

/// Whether `peer` was found in one of `events` and not lost in a later one.
pub open spec fn found_and_not_lost(events: Seq<EventView>, peer: Seq<u8>) -> bool {
    exists|i: int|
        0 <= i < events.len() && finds(#[trigger] events[i], peer) && not_lost_from(
            events,
            i + 1,
            peer,
        )
}

/// The node broadcasts to the peers that were found and have not been lost since, whatever else
/// happened: after `events` these are the peers that one of them found and none after it lost, and
/// those that the node broadcast to before and that none of them lost.
pub proof fn lemma_broadcasts_to_found_peers(
    local: Seq<char>,
    stage: StageView,
    events: Seq<EventView>,
    known: Set<Seq<u8>>,
    peer: Seq<u8>,
)
    ensures
        explicit_peers(known, run(local, stage, events).1).contains(peer) <==> (
        found_and_not_lost(events, peer) || (known.contains(peer) && not_lost_from(
            events,
            0,
            peer,
        ))),
    decreases events.len(),
{
    if events.len() > 0 {
        let earlier = events.drop_last();
        let event = events.last();
        let (before, actions) = run(local, stage, earlier);
        let more = node::reaction(local, before, event).1;
        let had = explicit_peers(known, actions);
        lemma_broadcasts_to_found_peers(local, stage, earlier, known, peer);
        lemma_explicit_peers_compose(known, actions, more);
        assert(explicit_peers(known, run(local, stage, events).1) == explicit_peers(had, more));
        match event {
            EventView::Discovered(peers) => {
                lemma_explicit_peers_follow_discovery(had, peers);
                assert(more == node::welcome(peers));
            },
            EventView::Expired(peers) => {
                lemma_explicit_peers_follow_discovery(had, peers);
                assert(more == node::farewell(peers));
            },
            _ => {
                lemma_only_discovery_changes_explicit_peers(local, before, event, had);
            },
        }
        assert(explicit_peers(had, more).contains(peer) <==> finds(event, peer) || (had.contains(
            peer,
        ) && !loses(event, peer)));
        lemma_one_more_event(events, peer);
    }
}

/// What one more event changes about whether a peer was found and not lost since.
proof fn lemma_one_more_event(events: Seq<EventView>, peer: Seq<u8>)
    requires
        events.len() > 0,
    ensures
        not_lost_from(events, 0, peer) <==> not_lost_from(events.drop_last(), 0, peer) && !loses(
            events.last(),
            peer,
        ),
        found_and_not_lost(events, peer) <==> finds(events.last(), peer) || (found_and_not_lost(
            events.drop_last(),
            peer,
        ) && !loses(events.last(), peer)),
{
    let earlier = events.drop_last();
    let last = events.len() - 1;
    assert forall|start: int| 0 <= start <= last implies (#[trigger] not_lost_from(
        events,
        start,
        peer,
    ) <==> not_lost_from(earlier, start, peer) && !loses(events.last(), peer)) by {
        if not_lost_from(events, start, peer) {
            assert(!loses(events[last], peer));
            assert forall|j: int| start <= j < earlier.len() implies !loses(
                #[trigger] earlier[j],
                peer,
            ) by {
                assert(earlier[j] == events[j]);
            }
        }
        if not_lost_from(earlier, start, peer) && !loses(events.last(), peer) {
            assert forall|j: int| start <= j < events.len() implies !loses(
                #[trigger] events[j],
                peer,
            ) by {
                if j < last {
                    assert(earlier[j] == events[j]);
                }
            }
        }
    }
    if finds(events.last(), peer) {
        assert(finds(events[last], peer) && not_lost_from(events, last + 1, peer));
    }
    if found_and_not_lost(events, peer) && !finds(events.last(), peer) {
        let i = choose|i: int|
            0 <= i < events.len() && finds(#[trigger] events[i], peer) && not_lost_from(
                events,
                i + 1,
                peer,
            );
        assert(earlier[i] == events[i]);
        assert(not_lost_from(earlier, i + 1, peer));
    }
    if found_and_not_lost(earlier, peer) && !loses(events.last(), peer) {
        let i = choose|i: int|
            0 <= i < earlier.len() && finds(#[trigger] earlier[i], peer) && not_lost_from(
                earlier,
                i + 1,
                peer,
            );
        assert(events[i] == earlier[i]);
        assert(not_lost_from(events, i + 1, peer));
    }
}

/// Each peer that is found is announced and then added, in the order in which they were found, and
/// nothing else happens; each that is lost is announced and then removed.
pub proof fn lemma_each_peer_is_announced(
    local: Seq<char>,
    stage: StageView,
    peers: Seq<Seq<u8>>,
    i: int,
)
    requires
        0 <= i < peers.len(),
    ensures
        ({
            let (next, found) = node::reaction(local, stage, EventView::Discovered(peers));
            &&& next is Idle
            &&& found.len() == 2 * peers.len()
            &&& found[2 * i] == ActionView::Notify(NoticeView::PeerDiscovered(peers[i]))
            &&& found[2 * i + 1] == ActionView::AddExplicitPeer(peers[i])
            &&& node::welcome(peers) == found
        }),
        ({
            let (next, lost) = node::reaction(local, stage, EventView::Expired(peers));
            &&& next is Idle
            &&& lost.len() == 2 * peers.len()
            &&& lost[2 * i] == ActionView::Notify(NoticeView::PeerExpired(peers[i]))
            &&& lost[2 * i + 1] == ActionView::RemoveExplicitPeer(peers[i])
            &&& node::farewell(peers) == lost
        }),
    decreases peers.len(),
{
    lemma_greetings_len(peers.drop_last());
    lemma_greetings_len(peers);
    if i < peers.len() - 1 {
        lemma_each_peer_is_announced(local, stage, peers.drop_last(), i);
    }
}

/// Each peer of a list is greeted with two actions.
proof fn lemma_greetings_len(peers: Seq<Seq<u8>>)
    ensures
        node::welcome(peers).len() == 2 * peers.len(),
        node::farewell(peers).len() == 2 * peers.len(),
    decreases peers.len(),
{
    if peers.len() > 0 {
        lemma_greetings_len(peers.drop_last());
    }
}

/// Where nothing is found or lost, nothing is done.
pub proof fn lemma_no_peers_no_actions(local: Seq<char>, stage: StageView)
    ensures
        node::reaction(local, stage, EventView::Discovered(seq![])) == (
            StageView::Idle,
            Seq::<ActionView>::empty(),
        ),
        node::reaction(local, stage, EventView::Expired(seq![])) == (
            StageView::Idle,
            Seq::<ActionView>::empty(),
        ),
{
}

/// The user who types `ls p` is told the peers on the local network: each once, none left out, in
/// the order in which they first occur.
pub proof fn lemma_peers_are_listed(local: Seq<char>, peers: Seq<Seq<u8>>, more: Seq<Seq<u8>>)
    ensures
        node::reaction(local, StageView::Idle, EventView::Line("ls p"@)) == (
            StageView::ListingPeers,
            seq![ActionView::ListPeers],
        ),
        ({
            let (next, told) = node::reaction(
                local,
                StageView::ListingPeers,
                EventView::PeersListed(peers),
            );
            &&& next is Idle
            &&& told.len() == 1
            &&& told[0] matches ActionView::Notify(NoticeView::Peers(listed))
            &&& listed.no_duplicates()
            &&& forall|p: Seq<u8>| #[trigger] listed.contains(p) <==> peers.contains(p)
            &&& peers.no_duplicates() ==> listed == peers
            &&& node::reaction(
                local,
                StageView::ListingPeers,
                EventView::PeersListed(peers + more),
            ).1[0] matches ActionView::Notify(NoticeView::Peers(longer))
            &&& longer.len() >= listed.len()
            &&& longer.take(listed.len() as int) == listed
        }),
{
    let listed = node::first_occurrences(peers);
    node::lemma_first_occurrences(peers);
    assert forall|p: Seq<u8>| #[trigger] listed.contains(p) <==> peers.contains(p) by {
        assert(listed.to_set().contains(p) <==> peers.to_set().contains(p));
    }
    lemma_distinct_peers_stay(peers);
    lemma_listed_peers_stay_in_front(peers, more);
}

/// A list without repetitions is its own first occurrences.
proof fn lemma_distinct_peers_stay(peers: Seq<Seq<u8>>)
    ensures
        peers.no_duplicates() ==> node::first_occurrences(peers) == peers,
    decreases peers.len(),
{
    if peers.no_duplicates() && peers.len() > 0 {
        let earlier = peers.drop_last();
        assert(earlier.no_duplicates());
        lemma_distinct_peers_stay(earlier);
        assert(!earlier.contains(peers.last()));
        assert(peers =~= earlier.push(peers.last()));
    } else if peers.len() == 0 {
        assert(peers =~= seq![]);
    }
}

/// What follows a list changes nothing about the first occurrences in it.
proof fn lemma_listed_peers_stay_in_front(peers: Seq<Seq<u8>>, more: Seq<Seq<u8>>)
    ensures
        ({
            let listed = node::first_occurrences(peers);
            let longer = node::first_occurrences(peers + more);
            longer.len() >= listed.len() && longer.take(listed.len() as int) == listed
        }),
    decreases more.len(),
{
    let listed = node::first_occurrences(peers);
    if more.len() == 0 {
        assert(peers + more =~= peers);
        assert(listed.take(listed.len() as int) =~= listed);
    } else {
        lemma_listed_peers_stay_in_front(peers, more.drop_last());
        assert((peers + more).drop_last() =~= peers + more.drop_last());
        let longer = node::first_occurrences(peers + more);
        assert(longer.take(listed.len() as int) =~= listed);
    }
}

/// The user who types `ls r all` asks every node for everything: the command is noted, and one
/// request goes out to all.
pub proof fn lemma_everything_is_asked_for(local: Seq<char>)
    ensures
        node::reaction(local, StageView::Idle, EventView::Line("ls r all"@)) == (
            StageView::Idle,
            seq![
                ActionView::Notify(NoticeView::Command("ls r all"@)),
                ActionView::Publish(ListModeView::ALL),
            ],
        ),
        node::on_models_command("ls r all"@) == node::on_line("ls r all"@),
{
    reveal_strlit("ls r ");
    reveal_strlit("all");
    reveal_strlit("ls r all");
    assert("ls r all"@ =~= "ls r "@ + "all"@);
    command::lemma_arguments("all"@);
}

/// What the user types behind `ls r` and a space, other than `all`, goes out to all as a statement
/// of resources, to the last character, and nothing else happens.
pub proof fn lemma_specs_are_broadcast(local: Seq<char>, specs: Seq<char>)
    requires
        specs != "all"@,
    ensures
        node::reaction(local, StageView::Idle, EventView::Line("ls r "@ + specs)) == (
            StageView::Idle,
            seq![ActionView::Publish(ListModeView::ModelSpecs(specs))],
        ),
        node::on_models_command("ls r "@ + specs) == node::on_line("ls r "@ + specs),
{
    command::lemma_arguments(specs);
}

/// A line that starts with `ls r` and has no space next asks for the models of this node.
pub proof fn lemma_own_models_are_looked_up(local: Seq<char>, rest: Seq<char>)
    requires
        rest.len() == 0 || rest[0] != ' ',
    ensures
        node::reaction(local, StageView::Idle, EventView::Line("ls r"@ + rest)) == (
            StageView::ListingModels,
            seq![ActionView::Notify(NoticeView::LookingUpModels), ActionView::ReadModels],
        ),
{
    command::lemma_no_argument(rest);
    reveal_strlit("ls r");
    reveal_strlit("ls r ");
    let line = "ls r"@ + rest;
    assert forall|argument: Seq<char>| line != #[trigger] ("ls r "@ + argument) by {
        assert(("ls r "@ + argument)[4] == ' ');
        if rest.len() > 0 {
            assert(line[4] == rest[0]);
        }
    }
    command::lemma_models_command_without_argument(line);
}

/// A command about models that has no argument asks for the models of this node, however it is put.
pub proof fn lemma_any_other_models_command(cmd: Seq<char>)
    requires
        forall|argument: Seq<char>| cmd != #[trigger] ("ls r "@ + argument),
    ensures
        node::on_models_command(cmd) == (
            StageView::ListingModels,
            seq![ActionView::Notify(NoticeView::LookingUpModels), ActionView::ReadModels],
        ),
{
    command::lemma_models_command_without_argument(cmd);
}

/// Any other line is reported as it was typed, and nothing else happens.
pub proof fn lemma_other_lines_are_reported(local: Seq<char>, line: Seq<char>)
    requires
        line != "ls p"@,
        !(line.len() >= 4 && line[0] == 'l' && line[1] == 's' && line[2] == ' ' && line[3] == 'r'),
    ensures
        node::reaction(local, StageView::Idle, EventView::Line(line)) == (
            StageView::Idle,
            seq![ActionView::Notify(NoticeView::UnknownCommand(line))],
        ),
{
    command::lemma_unknown_lines(line);
}

/// The user who asked for the models of this node is told all of them in their order, or why they
/// could not be read.
pub proof fn lemma_all_models_are_told(
    local: Seq<char>,
    models: Seq<ModelReqView>,
    e: Seq<char>,
)
    ensures
        node::reaction(local, StageView::ListingModels, EventView::ModelsRead(Ok(models))) == (
            StageView::Idle,
            seq![ActionView::Notify(NoticeView::Models(models))],
        ),
        node::reaction(local, StageView::ListingModels, EventView::ModelsRead(Err(e))) == (
            StageView::Idle,
            seq![ActionView::Notify(NoticeView::ModelsUnreadable(e))],
        ),
        node::models_notice(Ok(models)) == ActionView::Notify(NoticeView::Models(models)),
        node::models_notice(Err(e)) == ActionView::Notify(NoticeView::ModelsUnreadable(e)),
{
}

/// The user is told all the node's resources, in their order, or why they could not be read.
pub proof fn lemma_all_resources_are_told(resources: Seq<ModelResView>, e: Seq<char>)
    ensures
        node::resources_notice(Ok(resources)) == ActionView::Notify(
            NoticeView::Resources(resources),
        ),
        node::resources_notice(Err(e)) == ActionView::Notify(NoticeView::ResourcesUnreadable(e)),
{
}

/// An address on which the node listens is told as it is, and what the network reports besides is
/// passed over.
pub proof fn lemma_addresses_are_told(local: Seq<char>, address: Seq<char>)
    ensures
        node::reaction(local, StageView::Idle, EventView::Listening(address)) == (
            StageView::Idle,
            seq![ActionView::Notify(NoticeView::Listening(address))],
        ),
        node::reaction(local, StageView::Idle, EventView::Other) == (
            StageView::Idle,
            Seq::<ActionView>::empty(),
        ),
{
}

/// The addressee of a broadcast response tells its user all the models in it and who passed it on;
/// every other node does nothing. Neither the response's mode nor a request that the broadcast
/// might also be read as counts.
pub proof fn lemma_responses_are_told(
    local: Seq<char>,
    from: Seq<u8>,
    source: Option<Seq<u8>>,
    response: ListResponseView,
    request: Option<ListModeView>,
)
    ensures
        ({
            let taken = node::reaction(
                local,
                StageView::Idle,
                EventView::Broadcast {
                    from,
                    source,
                    as_response: Some(response),
                    as_request: request,
                },
            );
            &&& taken == node::on_broadcast(local, from, source, Some(response), request)
            &&& taken.0 is Idle
            &&& response.receiver == local ==> taken.1 == seq![
                ActionView::Notify(NoticeView::Response { from, models: response.data }),
            ]
            &&& response.receiver != local ==> taken.1 == Seq::<ActionView>::empty()
        }),
{
}

/// A broadcast that can be read as nothing is passed over.
pub proof fn lemma_unreadable_broadcasts_are_passed_over(
    local: Seq<char>,
    from: Seq<u8>,
    source: Option<Seq<u8>>,
)
    ensures
        node::reaction(
            local,
            StageView::Idle,
            EventView::Broadcast { from, source, as_response: None, as_request: None },
        ) == (StageView::Idle, Seq::<ActionView>::empty()),
        node::on_broadcast(local, from, source, None, None) == (
            StageView::Idle,
            Seq::<ActionView>::empty(),
        ),
{
}

/// A request to every node is noted with the node that wrote it. A request to one node is noted by
/// that node, which then reads its resources for the peer that passed the request on; the others do
/// nothing. A statement of resources is read, in its own words, for the peer that passed it on.
pub proof fn lemma_broadcast_requests(
    local: Seq<char>,
    from: Seq<u8>,
    source: Option<Seq<u8>>,
    named: Seq<char>,
    specs: Seq<char>,
)
    ensures
        ({
            let taken = |request: ListModeView|
                node::reaction(
                    local,
                    StageView::Idle,
                    EventView::Broadcast {
                        from,
                        source,
                        as_response: None,
                        as_request: Some(request),
                    },
                );
            &&& taken(ListModeView::ALL) == (
                StageView::Idle,
                seq![
                    ActionView::Notify(
                        NoticeView::AllRequested { request: ListModeView::ALL, source },
                    ),
                ],
            )
            &&& named == local ==> taken(ListModeView::One(named)) == (
                StageView::Reporting { to: from },
                seq![
                    ActionView::Notify(
                        NoticeView::OneRequested {
                            request: ListModeView::One(named),
                            source,
                            from,
                        },
                    ),
                    ActionView::ReadResources,
                ],
            )
            &&& named != local ==> taken(ListModeView::One(named)) == (
                StageView::Idle,
                Seq::<ActionView>::empty(),
            )
            &&& taken(ListModeView::ModelSpecs(specs)) == (
                StageView::ReadingSpecs { to: from, specs },
                seq![ActionView::ParseSpecs(specs)],
            )
        }),
{
}

/// What the node does about a line, a broadcast, a request and a configuration does not depend on
/// what it did before, and is the same by every way into the node.
pub proof fn lemma_taken_alike_by_every_way(
    local: Seq<char>,
    stage: StageView,
    line: Seq<char>,
    from: Seq<u8>,
    source: Option<Seq<u8>>,
    response: Option<ListResponseView>,
    request: Option<ListModeView>,
    asked: ListModeView,
    model: Option<ModelReqView>,
)
    ensures
        node::reaction(local, stage, EventView::Line(line)) == node::on_line(line),
        node::reaction(
            local,
            stage,
            EventView::Broadcast { from, source, as_response: response, as_request: request },
        ) == node::on_broadcast(local, from, source, response, request),
        node::reaction(local, stage, EventView::Request { from, request: asked })
            == node::on_request(from, asked),
        node::reaction(local, stage, EventView::ConfigParsed(model)) == node::on_config(model),
{
}

/// The peer that asked one node for everything is answered, whatever that node has and whether or
/// not it could read it; the user is told what there was to read.
pub proof fn lemma_reports_are_answered(
    local: Seq<char>,
    to: Seq<u8>,
    resources: Seq<ModelResView>,
    e: Seq<char>,
)
    ensures
        node::reaction(
            local,
            StageView::Reporting { to },
            EventView::ResourcesRead(Ok(resources)),
        ) == (
            StageView::Idle,
            seq![
                ActionView::Notify(NoticeView::Resources(resources)),
                ActionView::Send { to, request: ListModeView::ALL },
            ],
        ),
        node::reaction(local, StageView::Reporting { to }, EventView::ResourcesRead(Err(e))) == (
            StageView::Idle,
            seq![
                ActionView::Notify(NoticeView::ResourcesUnreadable(e)),
                ActionView::Send { to, request: ListModeView::ALL },
            ],
        ),
{
}

/// Resources that a broadcast states are weighed against the node's own once these are read. Where
/// the broadcast states none that can be read, the offer goes out at once.
pub proof fn lemma_stated_resources_are_weighed(
    local: Seq<char>,
    to: Seq<u8>,
    specs: Seq<char>,
    wanted: ModelResView,
)
    ensures
        node::reaction(
            local,
            StageView::ReadingSpecs { to, specs },
            EventView::SpecsParsed(Some(wanted)),
        ) == (StageView::Weighing { to, specs, wanted }, seq![ActionView::ReadResources]),
        node::reaction(
            local,
            StageView::ReadingSpecs { to, specs },
            EventView::SpecsParsed(None),
        ) == (
            StageView::Idle,
            seq![ActionView::Send { to, request: ListModeView::ModelSpecsReq(specs) }],
        ),
{
}

/// The user is told the node's resources. The offer follows, in the broadcast's own words, exactly
/// where no entry is slower than what is wanted and none has less power; it follows too where the
/// resources could not be read.
pub proof fn lemma_no_offer_that_an_entry_rules_out(
    local: Seq<char>,
    to: Seq<u8>,
    specs: Seq<char>,
    wanted: ModelResView,
    resources: Seq<ModelResView>,
    e: Seq<char>,
)
    ensures
        ({
            let stage = StageView::Weighing { to, specs, wanted };
            let offer = ActionView::Send { to, request: ListModeView::ModelSpecsReq(specs) };
            let told = ActionView::Notify(NoticeView::Resources(resources));
            let weighed = node::reaction(local, stage, EventView::ResourcesRead(Ok(resources)));
            let unread = node::reaction(local, stage, EventView::ResourcesRead(Err(e)));
            &&& weighed.0 is Idle
            &&& (exists|i: int|
                0 <= i < resources.len() && ((#[trigger] resources[i]).speed < wanted.speed
                    || resources[i].power < wanted.power)) ==> weighed.1 == seq![told]
            &&& (forall|i: int|
                0 <= i < resources.len() ==> (#[trigger] resources[i]).speed >= wanted.speed
                    && resources[i].power >= wanted.power) ==> weighed.1 == seq![told, offer]
            &&& unread == (
                StageView::Idle,
                seq![ActionView::Notify(NoticeView::ResourcesUnreadable(e)), offer],
            )
            &&& weighed == node::on_resources(stage, Ok(resources))
            &&& unread == node::on_resources(stage, Err(e))
        }),
{
    resources::lemma_speed_and_power_each_decide(wanted, resources);
    if exists|i: int|
        0 <= i < resources.len() && ((#[trigger] resources[i]).speed < wanted.speed
            || resources[i].power < wanted.power) {
        let i = choose|i: int|
            0 <= i < resources.len() && ((#[trigger] resources[i]).speed < wanted.speed
                || resources[i].power < wanted.power);
        assert(resources[i].speed < wanted.speed || resources[i].power < wanted.power);
    }
}

/// An offer is answered, to the peer that made it, with the configuration that this node wants
/// generated, whatever the offer says. A configuration that a peer sends is read as it was sent.
/// Every other request to this node alone is passed over.
pub proof fn lemma_requests_to_this_node(
    local: Seq<char>,
    from: Seq<u8>,
    specs: Seq<char>,
    config: Seq<char>,
    other: ListModeView,
)
    ensures
        ({
            let taken = |request: ListModeView|
                node::reaction(local, StageView::Idle, EventView::Request { from, request });
            &&& taken(ListModeView::ModelSpecsReq(specs)) == (
                StageView::Idle,
                seq![
                    ActionView::Send {
                        to: from,
                        request: ListModeView::ModelConfReq(
                            "{\"id\":1,\"parameters\":\"picxelate\",\"public\":false}"@,
                        ),
                    },
                ],
            )
            &&& taken(ListModeView::ModelConfReq(config)) == (
                StageView::ReadingConfig,
                seq![ActionView::ParseConfig(config)],
            )
            &&& !(other is ModelSpecsReq) && !(other is ModelConfReq) ==> taken(other) == (
                StageView::Idle,
                Seq::<ActionView>::empty(),
            )
            &&& taken(other) == node::on_request(from, other)
            &&& taken(ListModeView::ModelSpecsReq(specs)) == node::on_request(
                from,
                ListModeView::ModelSpecsReq(specs),
            )
            &&& taken(ListModeView::ModelConfReq(config)) == node::on_request(
                from,
                ListModeView::ModelConfReq(config),
            )
        }),
{
}

/// The model that a configuration names is generated: its place is told, and three jobs are done,
/// of which the first downloads from that place, the second builds and the third trains. When they
/// are done the user is told so in this node's name. A configuration that names no model ends there.
pub proof fn lemma_configured_models_are_generated(local: Seq<char>, model: ModelReqView)
    ensures
        ({
            let taken = node::reaction(
                local,
                StageView::ReadingConfig,
                EventView::ConfigParsed(Some(model)),
            );
            &&& taken.0 is Generating
            &&& taken.1.len() == 2
            &&& taken.1[0] == ActionView::Notify(NoticeView::Location(model.parameters))
            &&& taken.1[1] matches ActionView::Generate(jobs)
            &&& jobs.len() == 3
            &&& jobs[0] matches JobView::Download(d)
            &&& d.bucket == model.parameters
            &&& jobs[1] is Build
            &&& jobs[2] is Train
            &&& jobs == generation::generation(model)
            &&& taken == node::on_config(Some(model))
        }),
        node::reaction(local, StageView::ReadingConfig, EventView::ConfigParsed(None)) == (
            StageView::Idle,
            Seq::<ActionView>::empty(),
        ),
        node::on_config(None) == (StageView::Idle, Seq::<ActionView>::empty()),
        node::reaction(local, StageView::Generating, EventView::ModelGenerated) == (
            StageView::Idle,
            seq![ActionView::Notify(NoticeView::Generated(local))],
        ),
{
}

/// A node that waits for a reply takes up that reply and nothing else; an idle node takes up
/// whatever its user and the network bring, and no reply.
pub proof fn lemma_what_a_node_takes_up(stage: StageView, event: EventView)
    ensures
        event is Line || event is Discovered || event is Expired || event is Listening
            || event is Broadcast || event is Request || event is Response || event is Other ==> (
        event::awaits(stage, event) <==> stage is Idle),
        event is PeersListed ==> (event::awaits(stage, event) <==> stage is ListingPeers),
        event is ModelsRead ==> (event::awaits(stage, event) <==> stage is ListingModels),
        event is ResourcesRead ==> (event::awaits(stage, event) <==> stage is Reporting
            || stage is Weighing),
        event is SpecsParsed ==> (event::awaits(stage, event) <==> stage is ReadingSpecs),
        event is ConfigParsed ==> (event::awaits(stage, event) <==> stage is ReadingConfig),
        event is ModelGenerated ==> (event::awaits(stage, event) <==> stage is Generating),
{
}

} // verus!
