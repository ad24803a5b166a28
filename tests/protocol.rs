use everything_plugin::handler::{is_single_line, PluginMessage, Reply, StoredSetting};
use everything_plugin::host::HostCall;
use everything_plugin::sys;
use everything_plugin::ui::PageCommand;
use everything_plugin::ipc::ThreadWindow;
use everything_plugin::ui::OptionsPage;
use everything_plugin::{PluginApp, PluginHandler};

#[derive(Debug, Clone, PartialEq)]
struct Config {
    s: String,
}

impl Default for Config {
    fn default() -> Self {
        Config { s: "default".to_string() }
    }
}

struct App {
    config: Config,
}

impl PluginApp for App {
    type Config = Config;

    fn new(config: Option<Config>) -> Self {
        App { config: config.unwrap_or_default() }
    }

    fn spec_config(&self) -> Config {
        self.config.clone()
    }

    fn default_config() -> Config {
        Config::default()
    }

    fn config(&self) -> &Config {
        &self.config
    }

    fn into_config(self) -> Config {
        self.config
    }
}

/// A page worker stand-in: the tests only track which slot holds which.
type Handle = u32;

fn test_handler() -> PluginHandler<App, Handle> {
    PluginHandler::<App, Handle>::builder()
        .name("Test Plugin")
        .description("A test plugin for Everything")
        .author("Chaoses-Ib")
        .version("0.1.0")
        .link("https://github.com/Chaoses-Ib/IbEverythingLib")
        .options_pages(vec![OptionsPage::new("Test Plugin")])
        .build()
}

fn send(h: &mut PluginHandler<App, Handle>, m: PluginMessage<Config, Handle>) -> Reply<Config, Handle> {
    assert!(h.accepts(&m));
    h.handle(m)
}

#[test]
fn init_without_host_then_get_name() {
    let mut h = test_handler();
    let r = send(&mut h, PluginMessage::Init { host: 0, windows: vec![] });
    assert!(matches!(r, Reply::Code(1)));
    assert!(h.get_host().is_none());
    match send(&mut h, PluginMessage::GetName) {
        Reply::Identity(Some(name)) => assert_eq!(name, "Test Plugin"),
        _ => panic!("GET_NAME must answer with the plugin's name"),
    }
}

#[test]
fn start_without_stored_settings_uses_default() {
    let mut h = test_handler();
    send(&mut h, PluginMessage::Init { host: 0, windows: vec![] });
    let r = send(&mut h, PluginMessage::Start { stored: StoredSetting::Missing, direct: None });
    assert!(matches!(r, Reply::Code(1)));
    assert_eq!(*h.app().config(), Config::default());
}

#[test]
fn start_then_kill_returns_the_started_config() {
    let mut h = test_handler();
    let c = Config { s: "mine".to_string() };
    h.init_start_with_config(&vec![], c.clone());
    assert_eq!(h.stop_kill(), c);
}

#[test]
fn ipc_window_found_among_thread_windows() {
    let windows = vec![
        ThreadWindow { hwnd: 1, class_name: "Notepad".encode_utf16().collect() },
        ThreadWindow {
            hwnd: 2,
            class_name: "EVERYTHING_TASKBAR_NOTIFICATION_(1.5a)".encode_utf16().collect(),
        },
    ];
    let w = everything_plugin::IpcWindow::find(&windows).expect("the second window matches");
    assert_eq!(w.hwnd(), 2);
    assert_eq!(w.class_name(), "EVERYTHING_TASKBAR_NOTIFICATION_(1.5a)");
    assert_eq!(w.instance_name(), Some("1.5a"));
}

fn handler_with_pages(names: &[&str]) -> PluginHandler<App, Handle> {
    let pages: Vec<OptionsPage<Handle>> = names.iter().map(|n| OptionsPage::new(n)).collect();
    PluginHandler::<App, Handle>::builder().name("Test Plugin").options_pages(pages).build()
}

fn running_with_host(names: &[&str], config: Config) -> PluginHandler<App, Handle> {
    let mut h = handler_with_pages(names);
    send(&mut h, PluginMessage::Init { host: 0x1000, windows: vec![] });
    send(&mut h, PluginMessage::Start { stored: StoredSetting::Parsed(config), direct: None });
    h
}

fn cfg(s: &str) -> Config {
    Config { s: s.to_string() }
}

#[test]
fn pages_register_under_their_order_and_load_into_own_slots() {
    let mut h = running_with_host(&["General", "Search", "Advanced"], cfg("a"));
    match send(&mut h, PluginMessage::AddOptionsPages) {
        Reply::HostCalls { code, calls } => {
            assert_eq!(code, 1);
            assert_eq!(
                calls,
                vec![
                    HostCall::UiOptionsAddPluginPage { user_data: 0, name: "General".to_string() },
                    HostCall::UiOptionsAddPluginPage { user_data: 1, name: "Search".to_string() },
                    HostCall::UiOptionsAddPluginPage { user_data: 2, name: "Advanced".to_string() },
                ]
            );
            assert_eq!(calls[1].symbol(), "ui_options_add_plugin_page");
        }
        _ => panic!("pages must be registered"),
    }
    for i in 0..3usize {
        let r = send(&mut h, PluginMessage::LoadOptionsPage { user_data: i, handle: 10 + i as u32 });
        assert!(matches!(r, Reply::Code(1)));
    }
    for i in 0..3usize {
        assert_eq!(*h.page_handle(i), Some(10 + i as u32));
    }
}

#[test]
fn add_options_pages_without_pages_is_not_handled() {
    let mut h = handler_with_pages(&[]);
    send(&mut h, PluginMessage::Init { host: 0x1000, windows: vec![] });
    assert!(matches!(send(&mut h, PluginMessage::AddOptionsPages), Reply::Code(0)));
}

#[test]
fn reloading_a_page_replaces_its_worker() {
    let mut h = running_with_host(&["General"], cfg("a"));
    send(&mut h, PluginMessage::LoadOptionsPage { user_data: 0, handle: 1 });
    send(&mut h, PluginMessage::LoadOptionsPage { user_data: 0, handle: 2 });
    assert_eq!(*h.page_handle(0), Some(2));
}

#[test]
fn unanswered_save_keeps_the_previous_config() {
    let mut h = running_with_host(&["General"], cfg("before"));
    send(&mut h, PluginMessage::LoadOptionsPage { user_data: 0, handle: 7 });
    let lent = match send(&mut h, PluginMessage::SaveOptionsPage { user_data: 0 }) {
        Reply::SaveRequested(c) => c,
        _ => panic!("a loaded page must be asked to save"),
    };
    assert_eq!(lent, cfg("before"));
    h.finish_save_options_page(lent, None);
    assert_eq!(*h.app().config(), cfg("before"));
}

#[test]
fn answered_save_rebuilds_with_the_page_config() {
    let mut h = running_with_host(&["General"], cfg("before"));
    send(&mut h, PluginMessage::LoadOptionsPage { user_data: 0, handle: 7 });
    let lent = match send(&mut h, PluginMessage::SaveOptionsPage { user_data: 0 }) {
        Reply::SaveRequested(c) => c,
        _ => panic!("a loaded page must be asked to save"),
    };
    h.finish_save_options_page(lent, Some(cfg("after")));
    assert_eq!(*h.app().config(), cfg("after"));
}

#[test]
fn save_of_unloaded_page_is_noop() {
    let mut h = running_with_host(&["General"], cfg("a"));
    assert!(matches!(send(&mut h, PluginMessage::SaveOptionsPage { user_data: 0 }), Reply::Code(1)));
    assert_eq!(*h.app().config(), cfg("a"));
    let proc_msg = PluginMessage::OptionsPageProc {
        user_data: 0,
        msg: sys::WM_MOVE,
        w_param: 0,
        l_param: 0,
        options_hwnd: 0x55,
    };
    match send(&mut h, proc_msg) {
        Reply::PageProc { command, calls } => {
            assert_eq!(command, None);
            assert!(calls.is_empty());
        }
        _ => panic!("a page message must be forwarded"),
    }
}

#[test]
fn save_leaves_one_apply_request_pending() {
    let mut h = running_with_host(&["General"], cfg("a"));
    send(&mut h, PluginMessage::LoadOptionsPage { user_data: 0, handle: 7 });
    let lent = match send(&mut h, PluginMessage::SaveOptionsPage { user_data: 0 }) {
        Reply::SaveRequested(c) => c,
        _ => panic!("a loaded page must be asked to save"),
    };
    h.finish_save_options_page(lent, None);
    let first = PluginMessage::OptionsPageProc {
        user_data: 0,
        msg: sys::WM_MOVE,
        w_param: 0,
        l_param: 0,
        options_hwnd: 0x55,
    };
    match send(&mut h, first) {
        Reply::PageProc { calls, .. } => assert_eq!(
            calls,
            vec![HostCall::OsEnableOrDisableDlgItem { parent_hwnd: 0x55, id: 1001, enable: true }]
        ),
        _ => panic!("a page message must be forwarded"),
    }
    let again = PluginMessage::OptionsPageProc {
        user_data: 0,
        msg: sys::WM_MOVE,
        w_param: 0,
        l_param: 0,
        options_hwnd: 0x55,
    };
    match send(&mut h, again) {
        Reply::PageProc { calls, .. } => assert!(calls.is_empty()),
        _ => panic!("a page message must be forwarded"),
    }
}

#[test]
fn page_message_without_host_call_needs_no_host() {
    let mut h = handler_with_pages(&["General"]);
    send(&mut h, PluginMessage::Init { host: 0, windows: vec![] });
    let size = PluginMessage::OptionsPageProc {
        user_data: 0,
        msg: sys::WM_SIZE,
        w_param: 0,
        l_param: 0,
        options_hwnd: 0,
    };
    assert!(h.accepts(&size));
    let shown = PluginMessage::OptionsPageProc {
        user_data: 0,
        msg: sys::WM_CTLCOLORDLG,
        w_param: 0,
        l_param: 0,
        options_hwnd: 0,
    };
    assert!(!h.accepts(&shown));
}

#[test]
fn save_without_pages_is_not_handled() {
    let mut h = running_with_host(&[], cfg("a"));
    assert!(matches!(send(&mut h, PluginMessage::SaveOptionsPage { user_data: 0 }), Reply::Code(0)));
}

#[test]
fn kill_unloaded_page_is_handled_noop() {
    let mut h = running_with_host(&["General", "Search"], cfg("a"));
    match send(&mut h, PluginMessage::KillOptionsPage { user_data: 1 }) {
        Reply::PageKilled(None) => {}
        _ => panic!("an empty slot yields no worker"),
    }
    assert_eq!(*h.page_handle(1), None);
}

#[test]
fn kill_loaded_page_takes_its_worker() {
    let mut h = running_with_host(&["General", "Search"], cfg("a"));
    send(&mut h, PluginMessage::LoadOptionsPage { user_data: 1, handle: 9 });
    match send(&mut h, PluginMessage::KillOptionsPage { user_data: 1 }) {
        Reply::PageKilled(Some(9)) => {}
        _ => panic!("the slot's worker must be handed out"),
    }
    assert_eq!(*h.page_handle(1), None);
}

#[test]
fn kill_page_without_pages_is_not_handled() {
    let mut h = running_with_host(&[], cfg("a"));
    assert!(matches!(send(&mut h, PluginMessage::KillOptionsPage { user_data: 3 }), Reply::Code(0)));
}

#[test]
fn size_message_resizes_loaded_page() {
    let mut h = running_with_host(&["General"], cfg("a"));
    send(&mut h, PluginMessage::LoadOptionsPage { user_data: 0, handle: 3 });
    let m = PluginMessage::OptionsPageProc {
        user_data: 0,
        msg: sys::WM_SIZE,
        w_param: 0,
        l_param: (600 << 16) | 800,
        options_hwnd: 0x55,
    };
    match send(&mut h, m) {
        Reply::PageProc { command, calls } => {
            assert_eq!(command, Some(PageCommand::Size(800, 600)));
            assert!(calls.is_empty());
        }
        _ => panic!("a page message must be forwarded"),
    }
}

#[test]
fn size_message_for_unloaded_page_sends_nothing() {
    let mut h = running_with_host(&["General"], cfg("a"));
    let m = PluginMessage::OptionsPageProc {
        user_data: 0,
        msg: sys::WM_SIZE,
        w_param: 0,
        l_param: (600 << 16) | 800,
        options_hwnd: 0x55,
    };
    match send(&mut h, m) {
        Reply::PageProc { command, calls } => {
            assert_eq!(command, None);
            assert!(calls.is_empty());
        }
        _ => panic!("a page message must be forwarded"),
    }
}

#[test]
fn dialog_colour_message_enables_apply_then_drains_pending() {
    let mut h = running_with_host(&["General"], cfg("a"));
    send(&mut h, PluginMessage::LoadOptionsPage { user_data: 0, handle: 7 });
    if let Reply::SaveRequested(lent) = send(&mut h, PluginMessage::SaveOptionsPage { user_data: 0 }) {
        h.finish_save_options_page(lent, None);
    } else {
        panic!("a loaded page must be asked to save");
    }
    let m = PluginMessage::OptionsPageProc {
        user_data: 0,
        msg: sys::WM_CTLCOLORDLG,
        w_param: 0,
        l_param: 0,
        options_hwnd: 0x77,
    };
    match send(&mut h, m) {
        Reply::PageProc { calls, .. } => assert_eq!(
            calls,
            vec![
                HostCall::OsEnableOrDisableDlgItem { parent_hwnd: 0x77, id: 1001, enable: true },
                HostCall::OsEnableOrDisableDlgItem { parent_hwnd: 0x77, id: 1001, enable: true },
            ]
        ),
        _ => panic!("a page message must be forwarded"),
    }
}

#[test]
fn page_proc_without_pages_is_not_handled() {
    let mut h = running_with_host(&[], cfg("a"));
    let m = PluginMessage::OptionsPageProc {
        user_data: 0,
        msg: sys::WM_SIZE,
        w_param: 0,
        l_param: 0,
        options_hwnd: 0,
    };
    assert!(matches!(send(&mut h, m), Reply::Code(0)));
}

#[test]
fn save_settings_writes_config_text_under_own_key() {
    let mut h = running_with_host(&[], cfg("a"));
    let text = "{\"s\":\"a\"}".to_string();
    match send(&mut h, PluginMessage::SaveSettings { serialized: text.clone() }) {
        Reply::HostCalls { code, calls } => {
            assert_eq!(code, 1);
            assert_eq!(
                calls,
                vec![HostCall::PluginSetSettingString { name: "_".to_string(), value: text }]
            );
            assert_eq!(calls[0].symbol(), "plugin_set_setting_string");
        }
        _ => panic!("settings must be written"),
    }
}

#[test]
fn settings_text_with_line_break_is_refused() {
    let h = running_with_host(&[], cfg("a"));
    let m = PluginMessage::SaveSettings { serialized: "a\nb".to_string() };
    assert!(!h.accepts(&m));
    assert!(!is_single_line("a\nb"));
    assert!(is_single_line("a b"));
    assert!(is_single_line(""));
}

#[test]
fn protocol_breaches_are_refused() {
    let mut h = test_handler();
    assert!(!h.accepts(&PluginMessage::Kill));
    send(&mut h, PluginMessage::Init { host: 0, windows: vec![] });
    assert!(!h.accepts(&PluginMessage::Init { host: 0, windows: vec![] }));
    send(&mut h, PluginMessage::Start { stored: StoredSetting::Missing, direct: None });
    assert!(!h.accepts(&PluginMessage::Start { stored: StoredSetting::Missing, direct: None }));
    assert!(!h.accepts(&PluginMessage::LoadOptionsPage { user_data: 1, handle: 0 }));
    assert!(h.accepts(&PluginMessage::LoadOptionsPage { user_data: 0, handle: 0 }));
}

#[test]
fn stored_settings_are_used_with_a_host() {
    let h = running_with_host(&[], cfg("stored"));
    assert_eq!(*h.app().config(), cfg("stored"));

    let mut h = handler_with_pages(&[]);
    send(&mut h, PluginMessage::Init { host: 0x1000, windows: vec![] });
    send(&mut h, PluginMessage::Start { stored: StoredSetting::Unparsable, direct: Some(cfg("direct")) });
    assert_eq!(*h.app().config(), Config::default());
}

#[test]
fn direct_config_is_used_without_a_host() {
    let mut h = handler_with_pages(&[]);
    send(&mut h, PluginMessage::Init { host: 0, windows: vec![] });
    send(&mut h, PluginMessage::Start { stored: StoredSetting::Parsed(cfg("stored")), direct: Some(cfg("direct")) });
    assert_eq!(*h.app().config(), cfg("direct"));
}

#[test]
fn load_settings_picks_the_source() {
    let mut h = handler_with_pages(&[]);
    assert_eq!(h.load_settings(StoredSetting::Parsed(cfg("s")), None), None);
    send(&mut h, PluginMessage::Init { host: 0x1000, windows: vec![] });
    assert_eq!(h.load_settings(StoredSetting::Parsed(cfg("s")), None), Some(cfg("s")));
    assert_eq!(h.load_settings(StoredSetting::Missing, Some(cfg("d"))), None);
    assert_eq!(h.load_settings(StoredSetting::Unparsable, None), None);
}

#[test]
fn kill_hands_back_config_and_ends_the_plugin() {
    let mut h = running_with_host(&[], cfg("last"));
    match send(&mut h, PluginMessage::Kill) {
        Reply::Killed(c) => assert_eq!(c, cfg("last")),
        _ => panic!("kill must hand back the configuration"),
    }
    assert!(!h.accepts(&PluginMessage::Kill));
}

#[test]
fn identity_and_simple_messages() {
    let mut h = test_handler();
    send(&mut h, PluginMessage::Init { host: 0, windows: vec![] });
    assert!(matches!(send(&mut h, PluginMessage::GetPluginVersion), Reply::Code(1)));
    match send(&mut h, PluginMessage::GetAuthor) {
        Reply::Identity(Some(a)) => assert_eq!(a, "Chaoses-Ib"),
        _ => panic!("the author was set"),
    }
    match send(&mut h, PluginMessage::GetLink) {
        Reply::Identity(Some(l)) => assert_eq!(l, "https://github.com/Chaoses-Ib/IbEverythingLib"),
        _ => panic!("the link was set"),
    }
    match send(&mut h, PluginMessage::GetVersion) {
        Reply::Identity(Some(v)) => assert_eq!(v, "0.1.0"),
        _ => panic!("the version was set"),
    }
    match send(&mut h, PluginMessage::GetDescription) {
        Reply::Identity(Some(d)) => assert_eq!(d, "A test plugin for Everything"),
        _ => panic!("the description was set"),
    }
    assert!(matches!(send(&mut h, PluginMessage::Stop), Reply::Code(1)));
    assert!(matches!(send(&mut h, PluginMessage::Uninstall), Reply::Code(1)));
    assert!(matches!(send(&mut h, PluginMessage::GetOptionsPageMinmax), Reply::Code(0)));
    assert!(matches!(send(&mut h, PluginMessage::SizeOptionsPage), Reply::Code(0)));
    assert!(matches!(send(&mut h, PluginMessage::Other(99)), Reply::Code(0)));
}

#[test]
fn unset_identity_answers_null() {
    let mut h = handler_with_pages(&[]);
    send(&mut h, PluginMessage::Init { host: 0, windows: vec![] });
    assert!(matches!(send(&mut h, PluginMessage::GetAuthor), Reply::Identity(None)));
}

#[test]
fn init_with_host_and_ipc_window() {
    let mut h = test_handler();
    let windows = vec![ThreadWindow {
        hwnd: 4,
        class_name: "EVERYTHING_TASKBAR_NOTIFICATION_(1.5a)".encode_utf16().collect(),
    }];
    send(&mut h, PluginMessage::Init { host: 0xABCD, windows });
    assert_eq!(h.get_host().map(|p| p.get_proc_address()), Some(0xABCD));
    assert_eq!(h.host().get_proc_address(), 0xABCD);
    assert_eq!(h.instance_name(), Some("1.5a"));
}

#[test]
fn init_start_uses_default_config() {
    let mut h = test_handler();
    h.init_start(&vec![]);
    assert_eq!(*h.app().config(), Config::default());
    assert_eq!(h.instance_name(), None);
    assert_eq!(h.options_pages_len(), 1);
}
