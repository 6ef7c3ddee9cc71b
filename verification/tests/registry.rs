use room_relay::pipeline::Pipeline;
use room_relay::registry::ConnectionRegistry;
use room_relay::session::{Identity, Session};

fn string(value: &str) -> String {
    value.to_string()
}

fn ann() -> Identity {
    Identity { user_id: string("u1"), name: string("Ann"), avatar: string("a1") }
}

fn bob() -> Identity {
    Identity { user_id: string("u2"), name: string("Bob"), avatar: string("a2") }
}

fn register(registry: &mut ConnectionRegistry) -> u64 {
    let (pipeline, _outlet) = Pipeline::open();
    registry.register(pipeline).expect("identifiers are not used up")
}

fn session(registry: &ConnectionRegistry, id: u64) -> Option<Session> {
    registry.lookup(id).map(|client| client.session.clone())
}

#[test]
fn identifiers_start_at_one_and_grow() {
    let mut registry = ConnectionRegistry::new();
    assert_eq!(register(&mut registry), 1);
    assert_eq!(register(&mut registry), 2);
    assert_eq!(register(&mut registry), 3);
}

#[test]
fn a_new_connection_is_anonymous() {
    let mut registry = ConnectionRegistry::new();
    let id = register(&mut registry);
    assert_eq!(session(&registry, id), Some(Session::Anonymous));
    assert_eq!(registry.lookup(id).map(|client| client.id), Some(id));
}

#[test]
fn lookup_of_an_unknown_identifier_finds_nothing() {
    let mut registry = ConnectionRegistry::new();
    assert!(registry.lookup(1).is_none());
    register(&mut registry);
    assert!(registry.lookup(0).is_none());
    assert!(registry.lookup(2).is_none());
    assert!(registry.lookup(u64::MAX).is_none());
}

#[test]
fn lookup_finds_every_connection_among_many() {
    let mut registry = ConnectionRegistry::new();
    for _ in 0..37 {
        register(&mut registry);
    }
    registry.unregister(5);
    registry.unregister(20);
    registry.unregister(37);
    for id in 1..=37u64 {
        let found = registry.lookup(id).map(|client| client.id);
        if id == 5 || id == 20 || id == 37 {
            assert_eq!(found, None);
        } else {
            assert_eq!(found, Some(id));
        }
    }
}

#[test]
fn bind_identity_promotes_an_anonymous_connection() {
    let mut registry = ConnectionRegistry::new();
    let id = register(&mut registry);
    registry.bind_identity(id, ann());
    assert_eq!(session(&registry, id), Some(Session::Identified { identity: ann() }));
}

#[test]
fn bind_identity_overwrites_an_earlier_claim() {
    let mut registry = ConnectionRegistry::new();
    let id = register(&mut registry);
    registry.bind_identity(id, ann());
    registry.bind_identity(id, bob());
    assert_eq!(session(&registry, id), Some(Session::Identified { identity: bob() }));
}

#[test]
fn bind_identity_keeps_the_room() {
    let mut registry = ConnectionRegistry::new();
    let id = register(&mut registry);
    registry.bind_identity(id, ann());
    registry.set_room(id, Some(string("lobby")));
    registry.bind_identity(id, bob());
    assert_eq!(
        session(&registry, id),
        Some(Session::InRoom { identity: bob(), room: string("lobby") })
    );
}

#[test]
fn bind_identity_touches_no_other_connection() {
    let mut registry = ConnectionRegistry::new();
    let first = register(&mut registry);
    let second = register(&mut registry);
    registry.bind_identity(second, bob());
    assert_eq!(session(&registry, first), Some(Session::Anonymous));
    assert_eq!(session(&registry, second), Some(Session::Identified { identity: bob() }));
}

#[test]
fn bind_identity_of_an_unknown_connection_does_nothing() {
    let mut registry = ConnectionRegistry::new();
    let id = register(&mut registry);
    registry.bind_identity(99, ann());
    assert_eq!(session(&registry, id), Some(Session::Anonymous));
    assert!(registry.lookup(99).is_none());
    assert_eq!(registry.snapshot().len(), 1);
}

#[test]
fn set_room_moves_an_identified_connection() {
    let mut registry = ConnectionRegistry::new();
    let id = register(&mut registry);
    registry.bind_identity(id, ann());
    registry.set_room(id, Some(string("lobby")));
    assert_eq!(
        session(&registry, id),
        Some(Session::InRoom { identity: ann(), room: string("lobby") })
    );
    registry.set_room(id, Some(string("garden")));
    assert_eq!(
        session(&registry, id),
        Some(Session::InRoom { identity: ann(), room: string("garden") })
    );
    registry.set_room(id, None);
    assert_eq!(session(&registry, id), Some(Session::Identified { identity: ann() }));
    registry.set_room(id, None);
    assert_eq!(session(&registry, id), Some(Session::Identified { identity: ann() }));
}

#[test]
fn set_room_leaves_an_anonymous_connection_alone() {
    let mut registry = ConnectionRegistry::new();
    let id = register(&mut registry);
    registry.set_room(id, Some(string("lobby")));
    assert_eq!(session(&registry, id), Some(Session::Anonymous));
    registry.set_room(id, None);
    assert_eq!(session(&registry, id), Some(Session::Anonymous));
}

#[test]
fn set_room_of_an_unknown_connection_does_nothing() {
    let mut registry = ConnectionRegistry::new();
    let id = register(&mut registry);
    registry.bind_identity(id, ann());
    registry.set_room(7, Some(string("lobby")));
    assert_eq!(session(&registry, id), Some(Session::Identified { identity: ann() }));
}

#[test]
fn unregister_returns_what_it_removed() {
    let mut registry = ConnectionRegistry::new();
    let first = register(&mut registry);
    let second = register(&mut registry);
    registry.bind_identity(first, ann());
    registry.set_room(first, Some(string("lobby")));
    let removed = registry.unregister(first).expect("the connection was registered");
    assert_eq!(removed.id, first);
    assert_eq!(removed.session, Session::InRoom { identity: ann(), room: string("lobby") });
    assert!(registry.lookup(first).is_none());
    assert_eq!(session(&registry, second), Some(Session::Anonymous));
}

#[test]
fn unregister_of_an_unknown_connection_does_nothing() {
    let mut registry = ConnectionRegistry::new();
    let id = register(&mut registry);
    assert!(registry.unregister(42).is_none());
    assert!(registry.unregister(0).is_none());
    assert_eq!(session(&registry, id), Some(Session::Anonymous));
    assert!(registry.unregister(id).is_some());
    assert!(registry.unregister(id).is_none());
}

#[test]
fn identifiers_are_not_handed_out_again() {
    let mut registry = ConnectionRegistry::new();
    let first = register(&mut registry);
    let second = register(&mut registry);
    registry.unregister(second);
    registry.unregister(first);
    assert_eq!(register(&mut registry), 3);
    assert!(registry.lookup(first).is_none());
    assert!(registry.lookup(second).is_none());
}

#[test]
fn snapshot_lists_connections_in_order_of_arrival() {
    let mut registry = ConnectionRegistry::new();
    assert!(registry.snapshot().is_empty());
    let first = register(&mut registry);
    let second = register(&mut registry);
    let third = register(&mut registry);
    registry.bind_identity(second, bob());
    registry.bind_identity(third, ann());
    registry.set_room(third, Some(string("lobby")));
    assert_eq!(
        registry.snapshot(),
        vec![
            (first, Session::Anonymous),
            (second, Session::Identified { identity: bob() }),
            (third, Session::InRoom { identity: ann(), room: string("lobby") }),
        ]
    );
    registry.unregister(second);
    assert_eq!(
        registry.snapshot(),
        vec![
            (first, Session::Anonymous),
            (third, Session::InRoom { identity: ann(), room: string("lobby") }),
        ]
    );
}

#[test]
fn clients_gives_the_connections_as_they_are() {
    let mut registry = ConnectionRegistry::new();
    let first = register(&mut registry);
    let second = register(&mut registry);
    registry.bind_identity(first, ann());
    let ids: Vec<u64> = registry.clients().iter().map(|client| client.id).collect();
    assert_eq!(ids, vec![first, second]);
    assert_eq!(registry.clients()[0].session, Session::Identified { identity: ann() });
}

#[test]
fn the_registered_pipeline_is_the_one_that_is_kept() {
    let mut registry = ConnectionRegistry::new();
    let (pipeline, mut outlet) = Pipeline::open();
    let id = registry.register(pipeline).expect("identifiers are not used up");
    let payload = room_relay::protocol::WsResponse::Identified { success: true };
    let client = registry.lookup(id).expect("the connection was registered");
    assert_eq!(client.tx.enqueue(payload.clone()), Ok(()));
    assert_eq!(outlet.try_recv().ok(), Some(payload));
}

#[test]
fn session_getters_tell_identity_and_room() {
    let anonymous = Session::Anonymous;
    assert_eq!(anonymous.identity(), None);
    assert_eq!(anonymous.room(), None);
    let identified = Session::Identified { identity: ann() };
    assert_eq!(identified.identity(), Some(&ann()));
    assert_eq!(identified.room(), None);
    let in_room = Session::InRoom { identity: bob(), room: string("lobby") };
    assert_eq!(in_room.identity(), Some(&bob()));
    assert_eq!(in_room.room(), Some(&string("lobby")));
}

#[test]
fn session_transitions() {
    let anonymous = Session::Anonymous;
    assert_eq!(anonymous.rebound(ann()), Session::Identified { identity: ann() });
    assert_eq!(anonymous.moved(Some(string("lobby"))), Session::Anonymous);
    let in_room = Session::InRoom { identity: ann(), room: string("lobby") };
    assert_eq!(in_room.rebound(bob()), Session::InRoom { identity: bob(), room: string("lobby") });
    assert_eq!(in_room.moved(None), Session::Identified { identity: ann() });
    assert_eq!(
        in_room.moved(Some(string("garden"))),
        Session::InRoom { identity: ann(), room: string("garden") }
    );
}

#[test]
fn a_registry_may_start_at_any_identifier() {
    let mut registry = ConnectionRegistry::starting_at(40);
    assert_eq!(register(&mut registry), 40);
    assert_eq!(register(&mut registry), 41);
    assert!(registry.lookup(1).is_none());
    assert_eq!(session(&registry, 41), Some(Session::Anonymous));
}

#[test]
fn nothing_is_registered_once_the_identifiers_are_used_up() {
    let mut registry = ConnectionRegistry::starting_at(u64::MAX - 1);
    let (first, _a) = Pipeline::open();
    let (second, _b) = Pipeline::open();
    let (third, _c) = Pipeline::open();
    assert_eq!(registry.register(first), Some(u64::MAX - 1));
    assert_eq!(registry.register(second), None);
    assert_eq!(registry.register(third), None);
    assert_eq!(registry.snapshot(), vec![(u64::MAX - 1, Session::Anonymous)]);
    assert!(registry.lookup(u64::MAX).is_none());
}

#[test]
fn each_connection_keeps_its_own_pipeline() {
    let mut registry = ConnectionRegistry::new();
    let (first, mut first_outlet) = Pipeline::open();
    let (second, mut second_outlet) = Pipeline::open();
    let a = registry.register(first).expect("identifiers are not used up");
    let b = registry.register(second).expect("identifiers are not used up");
    registry.bind_identity(a, ann());
    registry.set_room(a, Some(string("lobby")));
    registry.bind_identity(b, bob());
    let to_a = room_relay::protocol::WsResponse::UserLeft { user_id: string("for a") };
    let to_b = room_relay::protocol::WsResponse::UserLeft { user_id: string("for b") };
    let tx = registry.pipeline(a).expect("the connection is registered");
    assert_eq!(tx.enqueue(to_a.clone()), Ok(()));
    let tx = registry.pipeline(b).expect("the connection is registered");
    assert_eq!(tx.enqueue(to_b.clone()), Ok(()));
    assert!(registry.pipeline(3).is_none());
    assert_eq!(first_outlet.try_recv().ok(), Some(to_a));
    assert!(first_outlet.try_recv().is_err());
    assert_eq!(second_outlet.try_recv().ok(), Some(to_b));
    assert!(second_outlet.try_recv().is_err());
    registry.unregister(a);
    assert!(registry.pipeline(a).is_none());
}
