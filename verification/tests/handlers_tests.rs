use crony::handlers::{bytes_eq, get_custom_handler, HandlerShape};

#[test]
fn typed_int_handlers() {
    for name in [
        &b"advance_time"[..],
        b"give_quest_xp",
        b"give_xp",
        b"on_info_advance_playing_time_by_hours",
        b"set_player_rank",
        b"set_target_hour",
    ] {
        assert_eq!(get_custom_handler(name), Some(HandlerShape::TypedInt));
    }
}

#[test]
fn two_entity_handlers() {
    for name in [&b"auto_loot"[..], b"kill", b"spawn_new_entity", b"place_summoned_party_member"] {
        assert_eq!(get_custom_handler(name), Some(HandlerShape::TwoEntities));
    }
}

#[test]
fn entity_then_null_handlers() {
    for name in [&b"join_player_party"[..], b"dismiss_player_party", b"remove_npc"] {
        assert_eq!(get_custom_handler(name), Some(HandlerShape::EntityThenNull));
    }
}

#[test]
fn unknown_names_fall_back() {
    assert_eq!(get_custom_handler(b"teleport"), None);
    assert_eq!(get_custom_handler(b""), None);
    assert_eq!(get_custom_handler(b"GiveXP"), None);
}

#[test]
fn byte_equality() {
    assert!(bytes_eq(b"kill", b"kill"));
    assert!(!bytes_eq(b"kill", b"kil"));
    assert!(!bytes_eq(b"kill", b"kull"));
    assert!(bytes_eq(b"", b""));
}
