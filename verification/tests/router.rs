use vtseat::keys::{
    KeyMap, KEY_ESC, KEY_F1, KEY_F2, KEY_F3, KEY_F4, KEY_F5, KEY_F6, KEY_F7, KEY_F8, KEY_F9,
    KEY_LEFTCTRL,
};

#[test]
fn function_keys_route_to_their_terminals() {
    let map = KeyMap::new();
    let expected = [
        (KEY_F1, 1),
        (KEY_F2, 2),
        (KEY_F3, 3),
        (KEY_F4, 4),
        (KEY_F5, 5),
        (KEY_F6, 6),
        (KEY_F7, 7),
        (KEY_F8, 8),
        (KEY_F9, 9),
    ];
    for (key, vt) in expected {
        assert_eq!(map.get_vt(key), Some(vt));
    }
}

#[test]
fn f3_routes_to_vt_3_and_escape_routes_nowhere() {
    let map = KeyMap::new();
    assert_eq!(map.get_vt(KEY_F3), Some(3));
    assert_eq!(map.get_vt(KEY_ESC), None);
}

#[test]
fn unmapped_keys_route_nowhere() {
    let map = KeyMap::new();
    assert_eq!(map.get_vt(KEY_LEFTCTRL), None);
    assert_eq!(map.get_vt(0), None);
    assert_eq!(map.get_vt(KEY_F9 + 1), None);
}
