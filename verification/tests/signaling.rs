use syneroym::signaling::{
    answer_message, new_peer_id, offer_from_members, read_offer, read_registration, read_target,
    register_message, registration_from_members, Offer, PeerRegistry, Route,
};

#[test]
fn registration_is_read_back() {
    let text = register_message("node-7");
    assert_eq!(read_registration(&text), Some("node-7".to_string()));
    assert_ne!(text, "node-7");
    assert!(text.starts_with('{') && text.ends_with('}'));
    assert!(text.contains("\"type\":\"register\""));
    assert!(text.contains("\"id\":\"node-7\""));
    assert_eq!(text.len(), "{\"id\":\"node-7\",\"type\":\"register\"}".len());
}

#[test]
fn registration_escapes_the_name() {
    let text = register_message("a\"b\\c\n");
    assert!(text.contains("a\\\"b\\\\c\\n"));
    assert_eq!(read_registration(&text), Some("a\"b\\c\n".to_string()));
}

#[test]
fn registration_needs_type_and_id() {
    assert_eq!(read_registration("{\"type\":\"register\",\"id\":\"alice\"}"), Some("alice".to_string()));
    assert_eq!(read_registration("{\"type\":\"register\"}"), None);
    assert_eq!(read_registration("{\"type\":\"register\",\"id\":5}"), None);
    assert_eq!(read_registration("{\"type\":\"offer\",\"id\":\"alice\"}"), None);
    assert_eq!(read_registration("{\"id\":\"alice\"}"), None);
    assert_eq!(read_registration("[\"register\"]"), None);
    assert_eq!(read_registration("not json"), None);
    assert_eq!(read_registration(""), None);
}

#[test]
fn registration_from_its_members() {
    assert_eq!(
        registration_from_members(Some("register".to_string()), Some("x".to_string())),
        Some("x".to_string())
    );
    assert_eq!(registration_from_members(Some("register".to_string()), None), None);
    assert_eq!(registration_from_members(Some("Register".to_string()), Some("x".to_string())), None);
    assert_eq!(registration_from_members(None, Some("x".to_string())), None);
}

#[test]
fn answer_is_addressed_to_the_sender() {
    let text = answer_message("browser-1", "node-7", "v=0\r\ns=-\r\n");
    assert_eq!(read_target(&text), Some("browser-1".to_string()));
    assert!(text.contains("\"type\":\"answer\""));
    assert!(text.contains("\"sender\":\"node-7\""));
    assert!(text.contains("\"sdp\":\"v=0\\r\\ns=-\\r\\n\""));
    assert_eq!(read_offer(&text), None);
    assert_eq!(read_registration(&text), None);
}

#[test]
fn offer_is_read() {
    assert_eq!(
        read_offer("{\"type\":\"offer\",\"sender\":\"browser-1\",\"target\":\"node-7\",\"sdp\":\"v=0\"}"),
        Some(Offer { sender: "browser-1".to_string(), sdp: "v=0".to_string() })
    );
    assert_eq!(
        read_offer("{\"type\":\"offer\",\"sdp\":\"v=0\"}"),
        Some(Offer { sender: "unknown".to_string(), sdp: "v=0".to_string() })
    );
    assert_eq!(
        read_offer("{\"type\":\"offer\",\"sender\":17,\"sdp\":\"\"}"),
        Some(Offer { sender: "unknown".to_string(), sdp: String::new() })
    );
}

#[test]
fn what_is_no_offer_is_passed_over() {
    assert_eq!(read_offer("{\"type\":\"offer\",\"sender\":\"b\"}"), None);
    assert_eq!(read_offer("{\"type\":\"offer\",\"sdp\":{\"x\":1}}"), None);
    assert_eq!(read_offer("{\"type\":\"candidate\",\"sdp\":\"v=0\"}"), None);
    assert_eq!(read_offer("{\"type\":\"answer\",\"sdp\":\"v=0\"}"), None);
    assert_eq!(read_offer("{\"sdp\":\"v=0\"}"), None);
    assert_eq!(read_offer("{\"type\":7,\"sdp\":\"v=0\"}"), None);
    assert_eq!(read_offer("{"), None);
}

#[test]
fn offer_from_its_members() {
    let s = |t: &str| Some(t.to_string());
    assert_eq!(
        offer_from_members(s("offer"), s("sdp"), s("me")),
        Some(Offer { sender: "me".to_string(), sdp: "sdp".to_string() })
    );
    assert_eq!(
        offer_from_members(s("offer"), s("sdp"), None),
        Some(Offer { sender: "unknown".to_string(), sdp: "sdp".to_string() })
    );
    assert_eq!(offer_from_members(s("offer"), None, s("me")), None);
    assert_eq!(offer_from_members(s("OFFER"), s("sdp"), s("me")), None);
    assert_eq!(offer_from_members(None, s("sdp"), s("me")), None);
}

#[test]
fn target_of_a_frame() {
    assert_eq!(read_target("{\"target\":\"bob\",\"x\":[1,2]}"), Some("bob".to_string()));
    assert_eq!(read_target("{\"target\":null}"), None);
    assert_eq!(read_target("{\"Target\":\"bob\"}"), None);
    assert_eq!(read_target("\"target\""), None);
}

#[test]
fn peer_ids_are_fresh() {
    let a = new_peer_id();
    let b = new_peer_id();
    assert_eq!(a.len(), 36);
    assert_eq!(a.matches('-').count(), 4);
    assert_ne!(a, b);
    for id in [a, b, new_peer_id(), new_peer_id()] {
        let chars: Vec<char> = id.chars().collect();
        assert_eq!(chars.len(), 36);
        for (i, c) in chars.iter().enumerate() {
            if i == 8 || i == 13 || i == 18 || i == 23 {
                assert_eq!(*c, '-');
            } else {
                assert!(matches!(*c, '0'..='9' | 'a'..='f'), "{:?} in {}", c, id);
            }
        }
        assert_eq!(chars[14], '4');
        assert!(matches!(chars[19], '8' | '9' | 'a' | 'b'));
        assert_eq!(read_registration(&register_message(&id)), Some(id));
    }
}

#[test]
fn registry_routes_by_target() {
    let mut peers = PeerRegistry::new();
    assert_eq!(peers.lookup("alice"), None);
    peers.register("alice", 1);
    peers.register("bob", 2);
    assert_eq!(peers.lookup("alice"), Some(1));
    assert_eq!(peers.lookup("bob"), Some(2));
    assert_eq!(peers.route("{\"target\":\"bob\",\"type\":\"offer\"}"), Route::Deliver(2));
    assert_eq!(peers.route("{\"target\":\"carol\"}"), Route::UnknownTarget);
    assert_eq!(peers.route("{\"type\":\"offer\"}"), Route::NoTarget);
    assert_eq!(peers.route("nonsense"), Route::NoTarget);
}

#[test]
fn registry_keeps_the_last_registration() {
    let mut peers = PeerRegistry::new();
    peers.register("alice", 1);
    peers.register("bob", 2);
    peers.register("alice", 3);
    assert_eq!(peers.lookup("alice"), Some(3));
    assert_eq!(peers.lookup("bob"), Some(2));
    peers.unregister("alice");
    assert_eq!(peers.lookup("alice"), None);
    assert_eq!(peers.lookup("bob"), Some(2));
    peers.unregister("alice");
    peers.unregister("nobody");
    assert_eq!(peers.lookup("bob"), Some(2));
    assert_eq!(peers.route("{\"target\":\"alice\"}"), Route::UnknownTarget);
}
