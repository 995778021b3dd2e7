use ura_plugin::config::{get_config, load_config, save_config, Config, ConfigSource, ConfigStore};
use ura_plugin::host::{
    get_nth_method, get_object, get_object_field, get_pointer, get_pointer_field, getter_name,
    il2cppstring_as_string, AtlasReference, ClassHandle, MethodEntry, NthMethodSearch, ObjectHandle,
};
use ura_plugin::notify::{endpoint, notification, Direction};
use ura_plugin::plugin_api::{InitResult, VERSION};
use ura_plugin::settings::SettingsWindow;

fn sample_config(host: &str, ms: u64, enable: bool) -> Config {
    Config { notifier_host: host.to_string(), notifier_timeout_ms: ms, enable }
}

fn same(a: &Config, b: &Config) -> bool {
    a.notifier_host == b.notifier_host
        && a.notifier_timeout_ms == b.notifier_timeout_ms
        && a.enable == b.enable
}

#[test]
fn defaults_match_field_defaults() {
    assert_eq!(Config::default_notifier_host(), "http://127.0.0.1:4693");
    assert_eq!(Config::default_notifier_timeout_ms(), 100);
    assert!(Config::default_notifier_enable());
    let d = Config::default();
    assert!(same(&d, &sample_config("http://127.0.0.1:4693", 100, true)));
}

#[test]
fn clone_keeps_fields() {
    let c = sample_config("http://h:1", 9, false);
    assert!(same(&c.clone(), &c));
}

#[test]
fn store_reads_back_what_was_saved() {
    let mut store = ConfigStore::new(Config::default());
    assert!(same(&get_config(&store), &Config::default()));
    let saved = sample_config("http://10.0.0.2:8000", 250, false);
    save_config(&mut store, &saved);
    assert!(same(&get_config(&store), &saved));
    let again = sample_config("http://x", 1, true);
    save_config(&mut store, &again);
    assert!(same(&get_config(&store), &again));
}

#[test]
fn load_prefers_parsed_file() {
    let parsed = sample_config("http://p", 5, false);
    let load = load_config(ConfigSource::Parsed(parsed.clone()));
    assert!(same(&load.config, &parsed));
    assert!(!load.write_default);
}

#[test]
fn load_falls_back_to_defaults() {
    let unusable = load_config(ConfigSource::Unusable);
    assert!(same(&unusable.config, &Config::default()));
    assert!(unusable.write_default);
    for source in [ConfigSource::NoDataDir, ConfigSource::DirUnavailable] {
        let load = load_config(source);
        assert!(same(&load.config, &Config::default()));
        assert!(!load.write_default);
    }
}

#[test]
fn new_window_shows_current_config() {
    let current = sample_config("http://h", 100, true);
    let w = SettingsWindow::new(&current);
    assert!(!w.config_window);
    assert!(same(&w.config, &current));
    assert_eq!(w.notifier_timeout_ms, "100");
}

#[test]
fn menu_button_opens_window() {
    let mut w = SettingsWindow::new(&Config::default());
    w.open_from_menu();
    assert!(w.config_window);
}

#[test]
fn save_parses_timeout_text() {
    let current = Config::default();
    let mut w = SettingsWindow::new(&current);
    w.open_from_menu();
    w.config.notifier_host = "http://edited".to_string();
    w.notifier_timeout_ms = "250".to_string();
    let saved = w.finish_frame(false, true, &current).expect("save returns a configuration");
    assert!(same(&saved, &sample_config("http://edited", 250, true)));
    assert!(same(&w.config, &saved));
    assert!(!w.config_window);
    assert_eq!(w.notifier_timeout_ms, "250");
}

#[test]
fn save_with_bad_timeout_uses_fallback() {
    let current = Config::default();
    let mut w = SettingsWindow::new(&current);
    w.open_from_menu();
    w.notifier_timeout_ms = "soon".to_string();
    let saved = w.finish_frame(false, true, &current).unwrap();
    assert_eq!(saved.notifier_timeout_ms, 500);
}

#[test]
fn cancel_restores_current_config() {
    let current = sample_config("http://kept", 80, true);
    let mut w = SettingsWindow::new(&current);
    w.open_from_menu();
    w.config.enable = false;
    w.config.notifier_host = "http://typed".to_string();
    w.notifier_timeout_ms = "9".to_string();
    let saved = w.finish_frame(true, false, &current);
    assert!(saved.is_none());
    assert!(same(&w.config, &current));
    assert!(!w.config_window);
    assert_eq!(w.notifier_timeout_ms, "9");
}

#[test]
fn cancel_then_save_in_one_frame() {
    let current = sample_config("http://kept", 80, true);
    let mut w = SettingsWindow::new(&current);
    w.open_from_menu();
    w.config.notifier_host = "http://typed".to_string();
    w.notifier_timeout_ms = "33".to_string();
    let saved = w.finish_frame(true, true, &current).unwrap();
    assert!(same(&saved, &sample_config("http://kept", 33, true)));
}

#[test]
fn window_stays_open_without_buttons() {
    let current = Config::default();
    let mut w = SettingsWindow::new(&current);
    w.open_from_menu();
    assert!(w.finish_frame(false, false, &current).is_none());
    assert!(w.config_window);
    w.config_window = false;
    assert!(w.finish_frame(false, false, &current).is_none());
    assert!(!w.config_window);
}

#[test]
fn unedited_save_keeps_config() {
    let current = sample_config("http://same", 1234, false);
    let mut w = SettingsWindow::new(&current);
    w.open_from_menu();
    let saved = w.finish_frame(false, true, &current).unwrap();
    assert!(same(&saved, &current));
}

#[test]
fn endpoints_append_notify_paths() {
    assert_eq!(endpoint("http://127.0.0.1:4693", Direction::Request), "http://127.0.0.1:4693/notify/request");
    assert_eq!(endpoint("http://h", Direction::Response), "http://h/notify/response");
}

#[test]
fn notifications_follow_enable_flag() {
    let on = sample_config("http://h", 1, true);
    let n = notification(&on, "http://h/notify/request", vec![1, 2, 3]).unwrap();
    assert_eq!(n.url, "http://h/notify/request");
    assert_eq!(n.body, vec![1, 2, 3]);
    let off = sample_config("http://h", 1, false);
    assert!(notification(&off, "http://h/notify/request", vec![1]).is_none());
}

#[test]
fn init_result_is_ok() {
    assert!(InitResult::Success.is_ok());
    assert!(!InitResult::Error.is_ok());
    assert_eq!(VERSION, 2);
}

#[test]
fn property_reads_use_getters() {
    assert_eq!(getter_name("width"), "get_width");
    let class = ClassHandle { addr: 0x1000 };
    let this = ObjectHandle { addr: 0x2000 };
    let r = get_object(class, "texture", this);
    assert_eq!(r.class, class);
    assert_eq!(r.getter, "get_texture");
    assert_eq!(r.this, this);
    let p = get_pointer(class, "", this);
    assert_eq!(p.getter, "get_");
}

#[test]
fn field_reads_name_the_field() {
    let class = ClassHandle { addr: 8 };
    let this = ObjectHandle { addr: 16 };
    let r = get_object_field(class, "sprites", this);
    assert_eq!(r.class, class);
    assert_eq!(r.field_name, "sprites");
    assert_eq!(r.object, this);
    assert_eq!(get_pointer_field(class, "x", this).field_name, "x");
}

#[test]
fn atlas_sprites_field() {
    let atlas = AtlasReference::new(ObjectHandle { addr: 77 });
    let r = atlas.get_sprites();
    assert_eq!(r.class.image, "Cute.UI.Assembly.dll");
    assert_eq!(r.class.namespace, "Cute.UI");
    assert_eq!(r.class.class_name, "AtlasReference");
    assert_eq!(r.field_name, "sprites");
    assert_eq!(r.object, ObjectHandle { addr: 77 });
}

fn methods() -> Vec<MethodEntry> {
    [("Start", 1usize), ("Update", 2), ("Start", 3), ("LoadAtlas", 4), ("Start", 5)]
        .iter()
        .map(|(n, p)| MethodEntry { name: n.to_string(), pointer: *p })
        .collect()
}

#[test]
fn nth_method_counts_from_one() {
    let m = methods();
    assert_eq!(get_nth_method(&m, "Start", 1), 1);
    assert_eq!(get_nth_method(&m, "Start", 2), 3);
    assert_eq!(get_nth_method(&m, "Start", 3), 5);
    assert_eq!(get_nth_method(&m, "Start", 4), 0);
    assert_eq!(get_nth_method(&m, "Start", 0), 0);
    assert_eq!(get_nth_method(&m, "LoadAtlas", 1), 4);
    assert_eq!(get_nth_method(&m, "Missing", 1), 0);
    assert_eq!(get_nth_method(&[], "Start", 1), 0);
}

#[test]
fn nth_method_search_steps() {
    let mut s = NthMethodSearch::new("Start", 2);
    assert_eq!(s.step("Start", 10), None);
    assert_eq!(s.step("Update", 11), None);
    assert_eq!(s.step("Start", 12), Some(12));
    assert_eq!(s.seen, 2);
}

#[test]
fn managed_strings_decode_utf16() {
    let ascii: Vec<u16> = "Gallop".encode_utf16().collect();
    assert_eq!(il2cppstring_as_string(&ascii), "Gallop");
    let kana: Vec<u16> = "ウマ娘".encode_utf16().collect();
    assert_eq!(il2cppstring_as_string(&kana), "ウマ娘");
    assert_eq!(il2cppstring_as_string(&[0xD83D, 0xDE00]), "😀");
    assert_eq!(il2cppstring_as_string(&[0x41, 0xD800, 0x42]), "A\u{FFFD}B");
    assert_eq!(il2cppstring_as_string(&[]), "");
}
