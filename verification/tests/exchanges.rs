use libp2p::PeerId;
use modelnet::event::{Action, Event, Stage};
use modelnet::generation::Job;
use modelnet::message::MODEL_CONFIG;
use modelnet::node::{handle_list_models, handle_list_peers, react, respond_with_public_models};
use modelnet::notation::{write_model, write_request, write_resource, write_variant};
use modelnet::notice::{got_broadcast, got_request, Channel, Notice};
use modelnet::{ListMode, ListRequest, ListResponse, ModelReq, ModelRes, Node, Peer};

fn peer() -> Peer {
    Peer::from_bytes(PeerId::random().to_bytes()).unwrap()
}

fn request(mode: ListMode) -> ListRequest {
    ListRequest { mode }
}

fn broadcast(from: &Peer, mode: ListMode) -> Event {
    Event::Broadcast {
        from: from.clone(),
        source: None,
        as_response: None,
        as_request: Some(request(mode)),
    }
}

fn response(receiver: String) -> ListResponse {
    let data = vec![ModelReq::new(3, "b".to_string(), true)];
    ListResponse { mode: ListMode::ALL, data, receiver }
}

fn entry(power: usize, speed: usize) -> ModelRes {
    ModelRes { id: 1, hardware: "gpu".to_string(), power, speed }
}

fn told(notice: &Notice) -> Vec<(Channel, String)> {
    notice.lines().into_iter().map(|l| (l.channel, l.text)).collect()
}

fn idle(node: &Node) -> bool {
    node.awaits(&Event::Other)
}

#[test]
fn a_new_node_is_idle() {
    let node = Node::new(peer());
    assert!(idle(&node));
    assert!(node.awaits(&Event::Line(String::new())));
    assert!(!node.awaits(&Event::ModelGenerated));
    assert!(!node.awaits(&Event::PeersListed(vec![])));
}

#[test]
fn found_peers_are_announced_and_added() {
    let mut node = Node::new(peer());
    let (a, b) = (peer(), peer());
    let actions = node.handle(Event::Discovered(vec![a.clone(), b.clone()]));
    assert_eq!(actions.len(), 4);
    match (&actions[0], &actions[1], &actions[3]) {
        (
            Action::Notify(notice),
            Action::AddExplicitPeer(p),
            Action::AddExplicitPeer(q),
        ) => {
            let line = format!("mDNS discovered a new peer: {}", a.text());
            assert_eq!(told(notice), [(Channel::Output, line)]);
            assert!(p.same(&a) && q.same(&b));
        }
        other => panic!("{:?}", other),
    }
    assert!(idle(&node));
    assert!(node.handle(Event::Discovered(vec![])).is_empty());
}

#[test]
fn lost_peers_are_announced_and_removed() {
    let mut node = Node::new(peer());
    let a = peer();
    let actions = node.handle(Event::Expired(vec![a.clone()]));
    assert_eq!(actions.len(), 2);
    match (&actions[0], &actions[1]) {
        (Action::Notify(notice), Action::RemoveExplicitPeer(p)) => {
            let line = format!("mDNS discover peer has expired: {}", a.text());
            assert_eq!(told(notice), [(Channel::Output, line)]);
            assert!(p.same(&a));
        }
        other => panic!("{:?}", other),
    }
}

#[test]
fn the_address_is_announced() {
    let mut node = Node::new(peer());
    let actions = node.handle(Event::Listening("/ip4/127.0.0.1/tcp/1".to_string()));
    match &actions[..] {
        [Action::Notify(notice)] => {
            let line = "Local node is listening on /ip4/127.0.0.1/tcp/1".to_string();
            assert_eq!(told(notice), [(Channel::Output, line)]);
        }
        other => panic!("{:?}", other),
    }
}

#[test]
fn peers_are_listed_once_each() {
    let (a, b) = (peer(), peer());
    let mut node = Node::new(peer());
    let actions = node.handle(Event::Line("ls p".to_string()));
    assert!(matches!(&actions[..], [Action::ListPeers]));
    assert!(!idle(&node));
    let found = vec![a.clone(), b.clone(), a.clone(), a.clone(), b.clone()];
    let actions = node.handle(Event::PeersListed(found));
    match &actions[..] {
        [Action::Notify(Notice::Peers(peers))] => {
            assert_eq!(peers.len(), 2);
            assert!(peers[0].same(&a) && peers[1].same(&b));
        }
        other => panic!("{:?}", other),
    }
    assert!(idle(&node));
    assert!(handle_list_peers(&vec![]).is_empty());
}

#[test]
fn ls_r_all_broadcasts_a_request_for_everything() {
    let mut node = Node::new(peer());
    let actions = node.handle(Event::Line("ls r all".to_string()));
    match &actions[..] {
        [Action::Notify(Notice::Command(cmd)), Action::Publish(r)] => {
            assert_eq!(cmd, "ls r all");
            assert!(matches!(r.mode, ListMode::ALL));
        }
        other => panic!("{:?}", other),
    }
    assert!(idle(&node));
}

#[test]
fn ls_r_reads_the_models() {
    let mut node = Node::new(peer());
    let actions = node.handle(Event::Line("ls r".to_string()));
    assert!(matches!(
        &actions[..],
        [Action::Notify(Notice::LookingUpModels), Action::ReadModels]
    ));
    let models = vec![ModelReq::new(3, "b".to_string(), false)];
    let actions = node.handle(Event::ModelsRead(Ok(models)));
    match &actions[..] {
        [Action::Notify(Notice::Models(models))] => assert_eq!(models[0].id, 3),
        other => panic!("{:?}", other),
    }
    assert!(idle(&node));
    let (stage, _) = handle_list_models("ls r");
    assert!(matches!(stage, Stage::ListingModels));
    node.handle(Event::Line("ls rx".to_string()));
    let actions = node.handle(Event::ModelsRead(Err("gone".to_string())));
    match &actions[..] {
        [Action::Notify(Notice::ModelsUnreadable(e))] => assert_eq!(e, "gone"),
        other => panic!("{:?}", other),
    }
}

#[test]
fn unknown_commands_are_reported() {
    let mut node = Node::new(peer());
    let actions = node.handle(Event::Line("help".to_string()));
    match &actions[..] {
        [Action::Notify(Notice::UnknownCommand(line))] => assert_eq!(line, "help"),
        other => panic!("{:?}", other),
    }
}

#[test]
fn a_response_is_for_its_receiver_only() {
    let (local, from) = (peer(), peer());
    let mut node = Node::new(local.clone());
    let mut other = Node::new(peer());
    let event = || Event::Broadcast {
        from: from.clone(),
        source: None,
        as_response: Some(response(local.text())),
        as_request: None,
    };
    match &node.handle(event())[..] {
        [Action::Notify(Notice::Response { from: f, models })] => {
            assert!(f.same(&from));
            assert_eq!(models[0].id, 3);
        }
        other => panic!("{:?}", other),
    }
    assert!(other.handle(event()).is_empty());
}

#[test]
fn a_response_comes_before_a_request() {
    let mut node = Node::new(peer());
    let actions = node.handle(Event::Broadcast {
        from: peer(),
        source: None,
        as_response: Some(response("someone else".to_string())),
        as_request: Some(request(ListMode::ModelSpecs("x".to_string()))),
    });
    assert!(actions.is_empty());
    assert!(idle(&node));
}

#[test]
fn a_directed_request_is_answered_by_its_addressee_only() {
    let (local, from) = (peer(), peer());
    let mut node = Node::new(local.clone());
    let mut other = Node::new(peer());
    let event = || broadcast(&from, ListMode::One(local.text()));
    assert!(other.handle(event()).is_empty());
    assert!(idle(&other));
    match &node.handle(event())[..] {
        [Action::Notify(Notice::OneRequested { request, source, from: f }), Action::ReadResources] => {
            assert!(matches!(&request.mode, ListMode::One(p) if *p == local.text()));
            assert!(source.is_none());
            assert!(f.same(&from));
        }
        other => panic!("{:?}", other),
    }
    match &node.handle(Event::ResourcesRead(Ok(vec![entry(1, 2)])))[..] {
        [Action::Notify(Notice::Resources(r)), Action::Send { to, request }] => {
            assert_eq!(r[0].speed, 2);
            assert!(to.same(&from));
            assert!(matches!(request.mode, ListMode::ALL));
        }
        other => panic!("{:?}", other),
    }
    assert!(idle(&node));
    node.handle(event());
    assert!(matches!(
        &node.handle(Event::ResourcesRead(Err("gone".to_string())))[..],
        [Action::Notify(Notice::ResourcesUnreadable(_)), Action::Send { .. }]
    ));
}

#[test]
fn a_request_for_everything_is_only_noted() {
    let mut node = Node::new(peer());
    let actions = node.handle(broadcast(&peer(), ListMode::ALL));
    assert!(matches!(
        &actions[..],
        [Action::Notify(Notice::AllRequested { request, source: None })]
            if matches!(request.mode, ListMode::ALL)
    ));
    assert!(respond_with_public_models(Ok(vec![])).is_empty());
    match &respond_with_public_models(Err("gone".to_string()))[..] {
        [Action::Notify(notice)] => {
            let line = "error fetching local models to answer ALL request, gone".to_string();
            assert_eq!(told(notice), [(Channel::Error, line)]);
        }
        other => panic!("{:?}", other),
    }
}

#[test]
fn an_offer_goes_out_exactly_when_the_resources_are_available() {
    let from = peer();
    let specs = "{\"id\":1}";
    let offers = |wanted: Option<ModelRes>, outcome: Result<Vec<ModelRes>, String>| {
        let mut node = Node::new(peer());
        let first = node.handle(broadcast(&from, ListMode::ModelSpecs(specs.to_string())));
        match &first[..] {
            [Action::ParseSpecs(s)] => assert_eq!(s, specs),
            other => panic!("{:?}", other),
        }
        let readable = wanted.is_some();
        let mut actions = node.handle(Event::SpecsParsed(wanted));
        if readable {
            assert!(matches!(&actions[..], [Action::ReadResources]));
            actions = node.handle(Event::ResourcesRead(outcome));
            assert!(matches!(&actions[0], Action::Notify(_)));
        }
        assert!(idle(&node));
        match actions.last().unwrap() {
            Action::Send { to, request } => {
                assert!(to.same(&from));
                match &request.mode {
                    ListMode::ModelSpecsReq(s) => assert_eq!(s, specs),
                    other => panic!("{:?}", other),
                }
                true
            }
            _ => false,
        }
    };
    assert!(offers(Some(entry(110, 200)), Ok(vec![entry(110, 200)])));
    assert!(!offers(Some(entry(110, 200)), Ok(vec![entry(110, 200), entry(1, 1)])));
    assert!(offers(Some(entry(110, 200)), Err("gone".to_string())));
    assert!(offers(None, Ok(vec![])));
}

#[test]
fn from_command_to_model() {
    let (v, p) = (peer(), peer());
    let mut verifier = Node::new(v.clone());
    let mut prover = Node::new(p.clone());
    let mut actions = verifier.handle(Event::Line("ls r big".to_string()));
    let published = match actions.pop() {
        Some(Action::Publish(r)) => r,
        other => panic!("{:?}", other),
    };
    prover.handle(Event::Broadcast {
        from: v.clone(),
        source: Some(v.clone()),
        as_response: None,
        as_request: Some(published),
    });
    prover.handle(Event::SpecsParsed(Some(entry(1, 1))));
    let offer = match prover.handle(Event::ResourcesRead(Ok(vec![entry(2, 2)]))).pop() {
        Some(Action::Send { to, request }) => {
            assert!(to.same(&v));
            request
        }
        other => panic!("{:?}", other),
    };
    let config = match verifier.handle(Event::Request { from: p.clone(), request: offer }).pop() {
        Some(Action::Send { to, request }) => {
            assert!(to.same(&p));
            request
        }
        other => panic!("{:?}", other),
    };
    match &prover.handle(Event::Request { from: v.clone(), request: config })[..] {
        [Action::ParseConfig(text)] => assert_eq!(text, MODEL_CONFIG),
        other => panic!("{:?}", other),
    }
    let model = ModelReq::new(1, "picxelate".to_string(), false);
    match &prover.handle(Event::ConfigParsed(Some(model)))[..] {
        [Action::Notify(Notice::Location(bucket)), Action::Generate(jobs)] => {
            assert_eq!(bucket, "picxelate");
            match &jobs[0] {
                Job::Download(d) => assert_eq!(&d.bucket, bucket),
                other => panic!("{:?}", other),
            }
        }
        other => panic!("{:?}", other),
    }
    match &prover.handle(Event::ModelGenerated)[..] {
        [Action::Notify(Notice::Generated(node))] => assert_eq!(node, &p.text()),
        other => panic!("{:?}", other),
    }
    assert!(idle(&verifier) && idle(&prover));
}

#[test]
fn a_configuration_that_cannot_be_read_is_dropped() {
    let mut node = Node::new(peer());
    let request = request(ListMode::ModelConfReq("?".to_string()));
    node.handle(Event::Request { from: peer(), request });
    assert!(node.awaits(&Event::ConfigParsed(None)));
    assert!(node.handle(Event::ConfigParsed(None)).is_empty());
    assert!(idle(&node));
}

#[test]
fn messages_out_of_place_are_ignored() {
    let mut node = Node::new(peer());
    let model = || ListMode::Model(ModelReq::new(1, "b".to_string(), true));
    for mode in [
        ListMode::ModelSpecsReq("x".to_string()),
        ListMode::ModelConfReq("x".to_string()),
        model(),
    ] {
        assert!(node.handle(broadcast(&peer(), mode)).is_empty());
    }
    for mode in [
        ListMode::ALL,
        ListMode::One("x".to_string()),
        ListMode::ModelSpecs("x".to_string()),
        model(),
    ] {
        let request = request(mode);
        assert!(node.handle(Event::Request { from: peer(), request }).is_empty());
    }
    let response = response(String::new());
    assert!(node.handle(Event::Response { from: peer(), response }).is_empty());
    assert!(node.handle(Event::Other).is_empty());
    let unreadable = Event::Broadcast {
        from: peer(),
        source: None,
        as_response: None,
        as_request: None,
    };
    assert!(node.handle(unreadable).is_empty());
    assert!(idle(&node));
}

#[test]
fn reactions_for_a_given_identifier() {
    let (stage, actions) = react("me", Stage::Idle, broadcast(&peer(), ListMode::One("me".into())));
    assert!(matches!(stage, Stage::Reporting { .. }));
    assert_eq!(actions.len(), 2);
    let (stage, actions) = react("me", Stage::Idle, broadcast(&peer(), ListMode::One("you".into())));
    assert!(matches!(stage, Stage::Idle));
    assert!(actions.is_empty());
}

fn info(text: &str) -> (Channel, String) {
    (Channel::Info, text.to_string())
}

fn error(text: &str) -> (Channel, String) {
    (Channel::Error, text.to_string())
}

fn output(text: &str) -> (Channel, String) {
    (Channel::Output, text.to_string())
}

#[test]
fn commands_and_places_are_told_in_quotes() {
    assert_eq!(told(&Notice::Command("ls r all".to_string())), [info("Command is \"ls r all\"")]);
    assert_eq!(
        told(&Notice::UnknownCommand("a \"b\"\t\\".to_string())),
        [error("unknown $command"), info("Command is \"a \\\"b\\\"\\t\\\\\"")]
    );
    assert_eq!(told(&Notice::Location("it's".to_string())), [output("Location: \"it's\"")]);
    let p = peer();
    assert_eq!(
        told(&Notice::Generated(p.text())),
        [output(&format!("Model generated locally at peer {:?}", p.text()))]
    );
}

#[test]
fn lists_are_told_with_their_number() {
    let model = |id: usize, public: bool| ModelReq::new(id, "b\n".to_string(), public);
    assert_eq!(told(&Notice::LookingUpModels), [info("Local models empty")]);
    assert_eq!(told(&Notice::Models(vec![])), [info("Local models (0)")]);
    assert_eq!(
        told(&Notice::Models(vec![model(3, false), model(40, true)])),
        [
            info("Local models (2)"),
            info("ModelReq { id: 3, parameters: \"b\\n\", public: false }"),
            info("ModelReq { id: 40, parameters: \"b\\n\", public: true }"),
        ]
    );
    let models: Vec<ModelReq> = (0..12).map(|id| model(id, id % 2 == 0)).collect();
    let mut expected = vec![info("Local models (12)")];
    expected.extend(models.iter().map(|m| info(&format!("{:?}", m))));
    assert_eq!(told(&Notice::Models(models)), expected);
    assert_eq!(
        told(&Notice::Resources(vec![entry(110, 200), entry(3, 4)])),
        [
            info("Local resources (2)"),
            info("ModelRes { id: 1, hardware: \"gpu\", power: 110, speed: 200 }"),
            info("ModelRes { id: 1, hardware: \"gpu\", power: 3, speed: 4 }"),
        ]
    );
    let (a, b) = (peer(), peer());
    assert_eq!(
        told(&Notice::Peers(vec![a.clone(), b.clone()])),
        [info("Discovered Peers:"), info(&a.text()), info(&b.text())]
    );
}

#[test]
fn errors_are_told_with_their_reason() {
    let gone = || "gone".to_string();
    assert_eq!(
        told(&Notice::ModelsUnreadable(gone())),
        [error("error fetching local models: gone")]
    );
    assert_eq!(
        told(&Notice::ResourcesUnreadable(gone())),
        [error("error fetching local resources: gone")]
    );
}

#[test]
fn responses_and_requests_are_told_as_they_are() {
    let (id, source) = (PeerId::random(), PeerId::random());
    let known = |id: &PeerId| Peer::from_bytes(id.to_bytes()).unwrap();
    let from = known(&id);
    let model = ModelReq::new(3, "b".to_string(), true);
    let line = format!("{:?}", model);
    assert_eq!(
        told(&Notice::Response { from: from.clone(), models: vec![model] }),
        [info(&format!("Response from {:?}:", id)), info(&line)]
    );
    assert_eq!(
        told(&Notice::AllRequested { request: request(ListMode::ALL), source: None }),
        [info("Received ALL req: ListRequest { mode: ALL } from None")]
    );
    assert_eq!(
        told(&Notice::AllRequested { request: request(ListMode::ALL), source: Some(known(&source)) }),
        [info(&format!("Received ALL req: ListRequest {{ mode: ALL }} from {:?}", Some(source)))]
    );
    let one = format!("ListRequest {{ mode: One({:?}) }}", "me");
    assert_eq!(
        told(&Notice::OneRequested {
            request: request(ListMode::One("me".to_string())),
            source: Some(known(&source)),
            from,
        }),
        [
            info(&format!("Received req: {} from {:?}", one, Some(source))),
            info(&format!("Sending req: {} back to: {:?}", one, Some(source))),
            info(&format!("Sending req: {} back to peer: {:?}", one, id.to_string())),
        ]
    );
}

#[test]
fn messages_are_told_as_they_come() {
    let id = PeerId::random();
    let from = Peer::from_bytes(id.to_bytes()).unwrap();
    let line = got_request(&request(ListMode::ModelSpecsReq("x".to_string())), &from);
    assert_eq!(line.channel, Channel::Output);
    assert_eq!(
        line.text,
        format!(
            "Got message ListRequest {{ mode: ModelSpecsReq(\"x\") }} in request_response from : {:?}",
            id
        )
    );
    let line = got_broadcast("{\"mode\":\"ALL\"}", "3132", &from);
    assert_eq!(line.channel, Channel::Output);
    assert_eq!(
        line.text,
        format!("Got message: '{{\"mode\":\"ALL\"}}' with id: 3132 from peer: {}", id)
    );
}

#[test]
fn notations_are_those_of_debug() {
    let text = || "a \"b\" {c}".to_string();
    for mode in [
        ListMode::ALL,
        ListMode::One(text()),
        ListMode::ModelSpecs(text()),
        ListMode::ModelSpecsReq(text()),
        ListMode::ModelConfReq(text()),
        ListMode::Model(ModelReq::new(usize::MAX, text(), false)),
    ] {
        let request = request(mode);
        assert_eq!(request.notation(), format!("{:?}", request));
    }
    let resource = ModelRes { id: 0, hardware: text(), power: usize::MAX, speed: 10 };
    assert_eq!(resource.notation(), format!("{:?}", resource));
    let id = PeerId::random();
    assert_eq!(Peer::from_bytes(id.to_bytes()).unwrap().notation(), format!("{:?}", id));
    assert_eq!(
        write_model(7, "\"x\"", true),
        "ModelReq { id: 7, parameters: \"x\", public: true }"
    );
    assert_eq!(
        write_resource(7, "\"x\"", 8, 9),
        "ModelRes { id: 7, hardware: \"x\", power: 8, speed: 9 }"
    );
    assert_eq!(write_request(&write_variant("One", "\"x\"")), "ListRequest { mode: One(\"x\") }");
}

#[test]
fn the_node_broadcasts_to_peers_found_and_not_lost_since() {
    let (a, b, c) = (peer(), peer(), peer());
    let mut node = Node::new(peer());
    let mut explicit: Vec<Peer> = vec![];
    for event in [
        Event::Discovered(vec![a.clone(), b.clone()]),
        Event::Line("ls r all".to_string()),
        Event::Expired(vec![a.clone(), c.clone()]),
        Event::Discovered(vec![c.clone(), b.clone()]),
        Event::Other,
        Event::Expired(vec![b.clone()]),
        Event::Discovered(vec![a.clone()]),
    ] {
        for action in node.handle(event) {
            match action {
                Action::AddExplicitPeer(p) => {
                    explicit.retain(|q| !q.same(&p));
                    explicit.push(p);
                }
                Action::RemoveExplicitPeer(p) => explicit.retain(|q| !q.same(&p)),
                _ => {}
            }
        }
    }
    assert_eq!(explicit.len(), 2);
    assert!(explicit[0].same(&c) && explicit[1].same(&a));
}
