use mesh_core::client::{
    build_room_index, login_begin, login_complete, on_room_message, ExchangeOutcome, LoginError,
    MembershipState, MeshClient, MessageContent, RoomInfo, SessionHandle,
};

fn rooms(pairs: &[(Option<&str>, &str)]) -> Vec<RoomInfo> {
    pairs
        .iter()
        .map(|(name, id)| RoomInfo { name: name.map(|n| n.to_string()), room_id: id.to_string() })
        .collect()
}

#[test]
fn fresh_session_has_no_username() {
    let state = MeshClient::new();
    assert_eq!(state.read_username(), None);
}

#[test]
fn login_before_discovery_is_invalid_state() {
    let state = MeshClient::new();
    let r = login_begin(&state, &"Password".to_string());
    assert!(matches!(r, Err(LoginError::InvalidState)));
}

#[test]
fn unknown_login_kind_is_rejected_and_state_unchanged() {
    let mut state = MeshClient::new();
    state.install_session(SessionHandle { id: 7 });
    let r = login_begin(&state, &"Token".to_string());
    match r {
        Err(LoginError::UnsupportedKind(k)) => {
            assert_eq!(k, "Token");
            assert_eq!(LoginError::UnsupportedKind(k).message(), "Unknown login kind Token");
        }
        other => panic!("expected UnsupportedKind, got {:?}", other.is_ok()),
    }
    assert_eq!(state.read_username(), None);
    assert!(state.rooms.is_none());
}

#[test]
fn password_kind_may_proceed() {
    let mut state = MeshClient::new();
    state.install_session(SessionHandle { id: 7 });
    assert!(login_begin(&state, &"Password".to_string()).is_ok());
}

#[test]
fn denied_exchange_leaves_session_unmodified() {
    let mut state = MeshClient::new();
    state.install_session(SessionHandle { id: 1 });
    let r = login_complete(
        &mut state,
        "alice".to_string(),
        ExchangeOutcome::Denied("M_FORBIDDEN: Invalid password".to_string()),
        rooms(&[(Some("General"), "!g:hs")]),
    );
    match r {
        Err(LoginError::Authentication(m)) => {
            assert_eq!(m, "M_FORBIDDEN: Invalid password");
        }
        _ => panic!("expected Authentication error"),
    }
    assert_eq!(state.read_username(), None);
    assert!(state.rooms.is_none());
}

#[test]
fn granted_login_commits_username_and_rooms() {
    let mut state = MeshClient::new();
    state.install_session(SessionHandle { id: 1 });
    let r = login_complete(
        &mut state,
        "alice".to_string(),
        ExchangeOutcome::Granted(SessionHandle { id: 2 }),
        rooms(&[(Some("General"), "!g:hs"), (None, "!anon:hs")]),
    );
    assert!(r.is_ok());
    assert_eq!(state.read_username(), Some("alice".to_string()));
    let index = state.rooms.as_ref().expect("room index installed");
    assert_eq!(index.entry_count(), 2);
    assert_eq!(index.entries[0], ("General".to_string(), "!g:hs".to_string()));
    assert_eq!(index.entries[1], (String::new(), "!anon:hs".to_string()));
    assert_eq!(state.client.as_ref().map(|h| h.id), Some(2));
}

#[test]
fn granted_login_with_no_rooms_installs_empty_index() {
    let mut state = MeshClient::new();
    state.install_session(SessionHandle { id: 1 });
    let r = login_complete(
        &mut state,
        "bob".to_string(),
        ExchangeOutcome::Granted(SessionHandle { id: 3 }),
        Vec::new(),
    );
    assert!(r.is_ok());
    assert_eq!(state.rooms.as_ref().map(|i| i.entry_count()), Some(0));
}

#[test]
fn second_login_replaces_the_whole_session() {
    let mut state = MeshClient::new();
    state.install_session(SessionHandle { id: 1 });
    login_complete(
        &mut state,
        "alice".to_string(),
        ExchangeOutcome::Granted(SessionHandle { id: 2 }),
        rooms(&[(Some("General"), "!g:hs")]),
    )
    .unwrap();
    login_complete(
        &mut state,
        "bob".to_string(),
        ExchangeOutcome::Granted(SessionHandle { id: 5 }),
        rooms(&[(Some("Ops"), "!o:hs"), (Some("Dev"), "!d:hs")]),
    )
    .unwrap();
    assert_eq!(state.read_username(), Some("bob".to_string()));
    assert_eq!(state.client.as_ref().map(|h| h.id), Some(5));
    let index = state.rooms.as_ref().unwrap();
    assert_eq!(index.entry_count(), 2);
    assert_eq!(index.entries[0].0, "Ops");
    assert_eq!(index.entries[1].0, "Dev");
}

#[test]
fn second_login_denial_keeps_the_first_session() {
    let mut state = MeshClient::new();
    state.install_session(SessionHandle { id: 1 });
    login_complete(
        &mut state,
        "alice".to_string(),
        ExchangeOutcome::Granted(SessionHandle { id: 2 }),
        rooms(&[(Some("General"), "!g:hs")]),
    )
    .unwrap();
    let r = login_complete(
        &mut state,
        "mallory".to_string(),
        ExchangeOutcome::Denied("M_FORBIDDEN".to_string()),
        rooms(&[(Some("Other"), "!x:hs")]),
    );
    assert!(r.is_err());
    assert_eq!(state.read_username(), Some("alice".to_string()));
    assert_eq!(state.client.as_ref().map(|h| h.id), Some(2));
    assert_eq!(state.rooms.as_ref().unwrap().entries[0].0, "General");
}

#[test]
fn room_index_keeps_collisions_in_order() {
    let index = build_room_index(&rooms(&[
        (Some("General"), "!first:hs"),
        (Some("General"), "!second:hs"),
        (None, "!a:hs"),
        (None, "!b:hs"),
    ]));
    assert_eq!(index.entry_count(), 4);
    assert_eq!(index.entries[1], ("General".to_string(), "!second:hs".to_string()));
    assert_eq!(index.entries[3], (String::new(), "!b:hs".to_string()));
}

#[test]
fn room_lookup_takes_the_last_write() {
    let index = build_room_index(&rooms(&[
        (Some("General"), "!first:hs"),
        (Some("General"), "!second:hs"),
        (None, "!a:hs"),
        (None, "!b:hs"),
    ]));
    assert_eq!(index.room_id_for(&"General".to_string()), Some(&"!second:hs".to_string()));
    assert_eq!(index.room_id_for(&String::new()), Some(&"!b:hs".to_string()));
    assert_eq!(index.room_id_for(&"Absent".to_string()), None);
}

#[test]
fn joined_text_message_is_dispatched() {
    let r = on_room_message(
        MembershipState::Joined,
        MessageContent::Text("hi there".to_string()),
        "!g:hs".to_string(),
    );
    assert_eq!(r, Some(("!g:hs".to_string(), "hi there".to_string())));
}

#[test]
fn invited_room_message_is_dropped() {
    let r = on_room_message(
        MembershipState::Invited,
        MessageContent::Text("hi".to_string()),
        "!g:hs".to_string(),
    );
    assert_eq!(r, None);
}

#[test]
fn left_room_message_is_dropped() {
    let r = on_room_message(
        MembershipState::Left,
        MessageContent::Text("hi".to_string()),
        "!g:hs".to_string(),
    );
    assert_eq!(r, None);
}

#[test]
fn non_text_message_is_dropped() {
    let r = on_room_message(MembershipState::Joined, MessageContent::Other, "!g:hs".to_string());
    assert_eq!(r, None);
}

#[test]
fn invalid_state_message_text() {
    assert_eq!(
        LoginError::InvalidState.message(),
        "no connection: discover login options first"
    );
}

#[test]
fn sync_error_carries_its_message() {
    assert_eq!(LoginError::Sync("connection reset".to_string()).message(), "connection reset");
}
