use sdl3_hint::hint;
use sdl3_hint::hint::{
    flag_str, get, get_video_minimize_on_focus_loss, read_flag, set_video_minimize_on_focus_loss,
    set_video_minimize_on_focus_loss_with_priority, set_with_priority, Hint, HintStore,
};
use sdl3_hint::marshal::{decode_value, to_c_bytes, InvalidUtf8, NulError};
use sdl3_hint::names::VIDEO_MINIMIZE_ON_FOCUS_LOSS;

#[test]
fn set_then_get_scenario() {
    let mut store = HintStore::new();
    assert!(hint::set(&mut store, "APP_X", "hello"));
    assert_eq!(get(&store, "APP_X"), Some("hello".to_string()));
    assert_eq!(get(&store, "APP_Y"), None);
}

#[test]
fn override_blocks_normal_scenario() {
    let mut store = HintStore::new();
    assert!(set_with_priority(&mut store, "APP_X", "a", &Hint::Override));
    assert!(!hint::set(&mut store, "APP_X", "b"));
    assert_eq!(get(&store, "APP_X"), Some("a".to_string()));
}

#[test]
fn set_replaces_normal_value() {
    let mut store = HintStore::new();
    assert!(hint::set(&mut store, "K", "one"));
    assert!(hint::set(&mut store, "K", "two"));
    assert_eq!(get(&store, "K"), Some("two".to_string()));
}

#[test]
fn set_refused_under_stronger_value_keeps_old() {
    let mut store = HintStore::new();
    assert!(set_with_priority(&mut store, "K", "strong", &Hint::Override));
    assert!(!hint::set(&mut store, "K", "weak"));
    assert_eq!(get(&store, "K"), Some("strong".to_string()));
}

#[test]
fn get_on_fresh_store_is_none() {
    let mut store = HintStore::new();
    assert_eq!(get(&store, "NEVER"), None);
    assert!(hint::set(&mut store, "OTHER", "x"));
    assert!(set_with_priority(&mut store, "THIRD", "y", &Hint::Default));
    assert_eq!(get(&store, "NEVER"), None);
}

#[test]
fn empty_value_is_not_unset() {
    let mut store = HintStore::new();
    assert!(hint::set(&mut store, "K", ""));
    assert_eq!(get(&store, "K"), Some(String::new()));
}

#[test]
fn override_always_applies() {
    let mut store = HintStore::new();
    assert!(set_with_priority(&mut store, "K", "a", &Hint::Override));
    assert!(set_with_priority(&mut store, "K", "b", &Hint::Override));
    assert_eq!(get(&store, "K"), Some("b".to_string()));
    assert!(!hint::set(&mut store, "K", "c"));
    assert_eq!(get(&store, "K"), Some("b".to_string()));
}

#[test]
fn default_priority_does_not_replace_normal() {
    let mut store = HintStore::new();
    assert!(hint::set(&mut store, "K", "normal"));
    assert!(!set_with_priority(&mut store, "K", "default", &Hint::Default));
    assert_eq!(get(&store, "K"), Some("normal".to_string()));
    assert!(set_with_priority(&mut store, "D", "first", &Hint::Default));
    assert!(set_with_priority(&mut store, "D", "second", &Hint::Default));
    assert!(hint::set(&mut store, "D", "third"));
    assert_eq!(get(&store, "D"), Some("third".to_string()));
}

#[test]
fn priority_ordinals() {
    assert_eq!(Hint::Default.ordinal(), 0);
    assert_eq!(Hint::Normal.ordinal(), 1);
    assert_eq!(Hint::Override.ordinal(), 2);
}

#[test]
fn video_minimize_round_trip() {
    let mut store = HintStore::new();
    assert!(get_video_minimize_on_focus_loss(&store));
    assert!(set_video_minimize_on_focus_loss(&mut store, false));
    assert!(!get_video_minimize_on_focus_loss(&store));
    assert_eq!(get(&store, VIDEO_MINIMIZE_ON_FOCUS_LOSS), Some("0".to_string()));
    assert!(set_video_minimize_on_focus_loss(&mut store, true));
    assert!(get_video_minimize_on_focus_loss(&store));
    assert_eq!(get(&store, VIDEO_MINIMIZE_ON_FOCUS_LOSS), Some("1".to_string()));
}

#[test]
fn video_minimize_with_priority() {
    let mut store = HintStore::new();
    assert!(set_video_minimize_on_focus_loss_with_priority(&mut store, false, &Hint::Override));
    assert!(!set_video_minimize_on_focus_loss(&mut store, true));
    assert!(!get_video_minimize_on_focus_loss(&store));
}

#[test]
fn video_minimize_reads_only_one_as_true() {
    let mut store = HintStore::new();
    assert!(hint::set(&mut store, VIDEO_MINIMIZE_ON_FOCUS_LOSS, "true"));
    assert!(!get_video_minimize_on_focus_loss(&store));
    assert!(hint::set(&mut store, VIDEO_MINIMIZE_ON_FOCUS_LOSS, "11"));
    assert!(!get_video_minimize_on_focus_loss(&store));
}

#[test]
fn flag_text_and_reading() {
    assert_eq!(flag_str(true), "1");
    assert_eq!(flag_str(false), "0");
    assert!(read_flag(&None, true));
    assert!(!read_flag(&None, false));
    assert!(read_flag(&Some("1".to_string()), false));
    assert!(!read_flag(&Some("0".to_string()), true));
    assert!(!read_flag(&Some("yes".to_string()), true));
    assert!(!read_flag(&Some(String::new()), true));
}

#[test]
fn c_bytes_are_terminated() {
    assert_eq!(to_c_bytes("ab"), Ok(vec![b'a', b'b', 0]));
    assert_eq!(to_c_bytes(""), Ok(vec![0]));
    assert_eq!(to_c_bytes("\u{e9}"), Ok(vec![0xC3, 0xA9, 0]));
}

#[test]
fn c_bytes_reject_embedded_nul() {
    assert_eq!(to_c_bytes("a\0b"), Err(NulError { position: 1 }));
    assert_eq!(to_c_bytes("\u{e9}\0"), Err(NulError { position: 2 }));
}

#[test]
fn decode_native_values() {
    assert_eq!(decode_value(&None), Ok(None));
    assert_eq!(decode_value(&Some(vec![b'h', b'i'])), Ok(Some("hi".to_string())));
    assert_eq!(decode_value(&Some(vec![0xC3, 0xA9])), Ok(Some("\u{e9}".to_string())));
    assert_eq!(decode_value(&Some(Vec::new())), Ok(Some(String::new())));
    assert_eq!(decode_value(&Some(vec![0xFF])), Err(InvalidUtf8));
}
