//! The host's capabilities. Each one is a procedure that the host exports by
//! name; a `HostCall` says which one to resolve and what to hand it, and the
//! caller that holds the host's resolver makes the call.
use vstd::prelude::*;

use crate::ipc::{first_ipc_window, instance_name_of, IpcWindow, ThreadWindow};
use vstd::string::*;

verus! {

/// Name of the host setting that holds the user's language.
pub const LANGUAGE_SETTING: &'static str = "language";

/// Key under which a plugin's configuration is kept in its settings section.
pub const SETTINGS_KEY: &'static str = "_";

/// File name of the settings file that plugins share.
pub const PLUGIN_SETTINGS_JSON: &'static str = "plugins.json";

/// Dialog items of the host's options window.
#[derive(Clone, Copy, Debug, PartialEq, Eq, Structural)]
pub enum OptionsDlgItem {
    ApplyButton,
}

impl OptionsDlgItem {
    pub open spec fn spec_id(self) -> i32 {
        match self {
            OptionsDlgItem::ApplyButton => 1001,
        }
    }

    /// The control identifier of the item.
    pub fn id(&self) -> (r: i32)
        ensures
            r == self.spec_id(),
    {
        match self {
            OptionsDlgItem::ApplyButton => 1001,
        }
    }
}

/// One call of a procedure that the host exports.
#[derive(Clone, Debug, PartialEq, Eq)]
pub enum HostCall {
    ConfigGetIntValue { name: String },
    ConfigSetIntValue { name: String, value: i32 },
    OsGetAppDataPathCatFilename { filename: String },
    OsGetLocalAppDataPathCatFilename { filename: String },
    PluginGetSettingString { name: String },
    PluginSetSettingString { name: String, value: String },
    UiOptionsAddPluginPage { user_data: usize, name: String },
    OsEnableOrDisableDlgItem { parent_hwnd: usize, id: i32, enable: bool },
}

/// The model of a `HostCall`, with texts as character sequences.
pub enum HostCallView {
    ConfigGetIntValue { name: Seq<char> },
    ConfigSetIntValue { name: Seq<char>, value: i32 },
    OsGetAppDataPathCatFilename { filename: Seq<char> },
    OsGetLocalAppDataPathCatFilename { filename: Seq<char> },
    PluginGetSettingString { name: Seq<char> },
    PluginSetSettingString { name: Seq<char>, value: Seq<char> },
    UiOptionsAddPluginPage { user_data: usize, name: Seq<char> },
    OsEnableOrDisableDlgItem { parent_hwnd: usize, id: i32, enable: bool },
}

impl View for HostCall {
    type V = HostCallView;

    open spec fn view(&self) -> HostCallView {
        match self {
            HostCall::ConfigGetIntValue { name } => HostCallView::ConfigGetIntValue { name: name@ },
            HostCall::ConfigSetIntValue { name, value } => HostCallView::ConfigSetIntValue {
                name: name@,
                value: *value,
            },
            HostCall::OsGetAppDataPathCatFilename { filename } =>
                HostCallView::OsGetAppDataPathCatFilename { filename: filename@ },
            HostCall::OsGetLocalAppDataPathCatFilename { filename } =>
                HostCallView::OsGetLocalAppDataPathCatFilename { filename: filename@ },
            HostCall::PluginGetSettingString { name } => HostCallView::PluginGetSettingString {
                name: name@,
            },
            HostCall::PluginSetSettingString { name, value } =>
                HostCallView::PluginSetSettingString { name: name@, value: value@ },
            HostCall::UiOptionsAddPluginPage { user_data, name } =>
                HostCallView::UiOptionsAddPluginPage { user_data: *user_data, name: name@ },
            HostCall::OsEnableOrDisableDlgItem { parent_hwnd, id, enable } =>
                HostCallView::OsEnableOrDisableDlgItem {
                    parent_hwnd: *parent_hwnd,
                    id: *id,
                    enable: *enable,
                },
        }
    }
}

/// The name under which the host exports the procedure of a call.
pub open spec fn symbol_of(c: HostCallView) -> Seq<char> {
    match c {
        HostCallView::ConfigGetIntValue { .. } => "config_get_int_value"@,
        HostCallView::ConfigSetIntValue { .. } => "config_set_int_value"@,
        HostCallView::OsGetAppDataPathCatFilename { .. } => "os_get_app_data_path_cat_filename"@,
        HostCallView::OsGetLocalAppDataPathCatFilename { .. } =>
            "os_get_local_app_data_path_cat_filename"@,
        HostCallView::PluginGetSettingString { .. } => "plugin_get_setting_string"@,
        HostCallView::PluginSetSettingString { .. } => "plugin_set_setting_string"@,
        HostCallView::UiOptionsAddPluginPage { .. } => "ui_options_add_plugin_page"@,
        HostCallView::OsEnableOrDisableDlgItem { .. } => "os_enable_or_disable_dlg_item"@,
    }
}

impl HostCall {
    /// The name under which the host exports the procedure to call.
    pub fn symbol(&self) -> (r: &'static str)
        ensures
            r@ == symbol_of(self@),
    {
        match self {
            HostCall::ConfigGetIntValue { .. } => "config_get_int_value",
            HostCall::ConfigSetIntValue { .. } => "config_set_int_value",
            HostCall::OsGetAppDataPathCatFilename { .. } => "os_get_app_data_path_cat_filename",
            HostCall::OsGetLocalAppDataPathCatFilename { .. } =>
                "os_get_local_app_data_path_cat_filename",
            HostCall::PluginGetSettingString { .. } => "plugin_get_setting_string",
            HostCall::PluginSetSettingString { .. } => "plugin_set_setting_string",
            HostCall::UiOptionsAddPluginPage { .. } => "ui_options_add_plugin_page",
            HostCall::OsEnableOrDisableDlgItem { .. } => "os_enable_or_disable_dlg_item",
        }
    }
}

/// `name` has no separator or drive mark and is not `.` or `..`, so that
/// it names an entry directly under whatever directory it is joined to.
pub open spec fn is_plain_file_name(name: Seq<char>) -> bool {
    &&& name.len() > 0
    &&& name != seq!['.']
    &&& name != seq!['.', '.']
    &&& forall|i: int| 0 <= i < name.len() ==> name[i] != '/' && name[i] != '\\' && name[i] != ':'
}

/// `base` is a directory that a file name is joined to as written: it has
/// no verbatim prefix `\\?\`, under which joining normalizes the whole
/// path, and does not end in a drive mark `:`, after which no separator
/// is put.
pub open spec fn is_plain_dir(base: Seq<char>) -> bool {
    &&& !(base.len() >= 4 && base.subrange(0, 4) == seq!['\\', '\\', '?', '\\'])
    &&& !(base.len() > 0 && base.last() == ':')
}

/// `path` is `name` under the directory `base`: `name` alone under an empty
/// base, appended after a separator that ends the base, and put after one
/// separator otherwise. `\` separates on some systems only.
pub open spec fn is_joined(path: Seq<char>, base: Seq<char>, name: Seq<char>) -> bool {
    if base.len() == 0 {
        path == name
    } else if base.last() == '/' {
        path == base + name
    } else if base.last() == '\\' {
        path == base + name || path == base + seq!['/'] + name
    } else {
        path == base + seq!['/'] + name || path == base + seq!['\\'] + name
    }
}

/// Relies on std's `Path::join`: a relative name is appended to the base,
/// after a separator where the base does not end in one.
#[verifier::external_body]
fn join_path(base: &str, name: &str) -> (r: String)
    requires
        is_plain_dir(base@),
        is_plain_file_name(name@),
    ensures
        is_joined(r@, base@, name@),
{
    std::path::Path::new(base).join(name).to_string_lossy().into_owned()
}

/// Whether a file name can be joined to `base` as written.
pub fn is_joinable_dir(base: &str) -> (r: bool)
    ensures
        r == is_plain_dir(base@),
{
    let n = base.unicode_len();
    if n >= 4 {
        let verbatim = base.get_char(0) == '\\' && base.get_char(1) == '\\' && base.get_char(2)
            == '?' && base.get_char(3) == '\\';
        if verbatim {
            assert(base@.subrange(0, 4) =~= seq!['\\', '\\', '?', '\\']);
            return false;
        }
        assert(base@.subrange(0, 4)[0] == base@[0]);
        assert(base@.subrange(0, 4)[1] == base@[1]);
        assert(base@.subrange(0, 4)[2] == base@[2]);
        assert(base@.subrange(0, 4)[3] == base@[3]);
    }
    !(n > 0 && base.get_char(n - 1) == ':')
}

/// The host, known by the address of its symbol resolver. The address is
/// what the host passes with its first message; it never changes after.
#[derive(Clone, Copy, Debug, PartialEq, Eq, Structural)]
pub struct PluginHost {
    get_proc_address: usize,
}

impl View for PluginHost {
    type V = usize;

    closed spec fn view(&self) -> usize {
        self.get_proc_address
    }
}

/// The language a host setting names: `0` stands for the user's default,
/// any other value for a language identifier.
pub open spec fn language_of(setting: i32) -> Option<u16> {
    if setting == 0 {
        None
    } else {
        Some(setting as u16)
    }
}

impl PluginHost {
    /// The host whose resolver is at `get_proc_address`.
    pub closed spec fn spec_new(get_proc_address: usize) -> PluginHost {
        PluginHost { get_proc_address }
    }

    pub fn new(get_proc_address: usize) -> (r: Self)
        ensures
            r == Self::spec_new(get_proc_address),
            r@ == get_proc_address,
    {
        PluginHost { get_proc_address }
    }

    /// Address of the host's symbol resolver.
    pub fn get_proc_address(&self) -> (r: usize)
        ensures
            r == self@,
    {
        self.get_proc_address
    }

    /// Reads an integer setting of the host by name.
    pub fn config_get_int_value(&self, name: &str) -> (r: HostCall)
        ensures
            r@ == (HostCallView::ConfigGetIntValue { name: name@ }),
    {
        HostCall::ConfigGetIntValue { name: String::from_str(name) }
    }

    /// Sets an integer setting of the host by name; the host answers 1 when
    /// the value changed.
    pub fn config_set_int_value(&self, name: &str, value: i32) -> (r: HostCall)
        ensures
            r@ == (HostCallView::ConfigSetIntValue { name: name@, value }),
    {
        HostCall::ConfigSetIntValue { name: String::from_str(name), value }
    }

    /// The language that the host's `language` setting holds, given the
    /// value that reading it returned.
    pub fn config_get_language(&self, language_setting: i32) -> (r: Option<u16>)
        ensures
            r == language_of(language_setting),
    {
        if language_setting == 0 {
            None
        } else {
            Some(language_setting as u16)
        }
    }

    /// The host's data directory.
    pub fn os_get_app_data_path(&self) -> (r: HostCall)
        ensures
            r@ == (HostCallView::OsGetAppDataPathCatFilename { filename: Seq::empty() }),
    {
        proof {
            reveal_strlit("");
        }
        assert(""@ =~= Seq::<char>::empty());
        self.os_get_app_data_path_cat_filename("")
    }

    /// A file name under the host's data directory.
    pub fn os_get_app_data_path_cat_filename(&self, filename: &str) -> (r: HostCall)
        ensures
            r@ == (HostCallView::OsGetAppDataPathCatFilename { filename: filename@ }),
    {
        HostCall::OsGetAppDataPathCatFilename { filename: String::from_str(filename) }
    }

    /// The host's local data directory.
    pub fn os_get_local_app_data_path(&self) -> (r: HostCall)
        ensures
            r@ == (HostCallView::OsGetLocalAppDataPathCatFilename { filename: Seq::empty() }),
    {
        proof {
            reveal_strlit("");
        }
        assert(""@ =~= Seq::<char>::empty());
        self.os_get_local_app_data_path_cat_filename("")
    }

    /// A file name under the host's local data directory.
    pub fn os_get_local_app_data_path_cat_filename(&self, filename: &str) -> (r: HostCall)
        ensures
            r@ == (HostCallView::OsGetLocalAppDataPathCatFilename { filename: filename@ }),
    {
        HostCall::OsGetLocalAppDataPathCatFilename { filename: String::from_str(filename) }
    }

    /// Reads a string setting of this plugin's own settings section.
    pub fn plugin_get_setting_string(&self, name: &str) -> (r: HostCall)
        ensures
            r@ == (HostCallView::PluginGetSettingString { name: name@ }),
    {
        HostCall::PluginGetSettingString { name: String::from_str(name) }
    }

    /// Writes a string setting of this plugin's own settings section. The
    /// host reads a value back only up to its first line break.
    pub fn plugin_set_setting_string(&self, name: &str, value: &str) -> (r: HostCall)
        requires
            !value@.contains('\n'),
        ensures
            r@ == (HostCallView::PluginSetSettingString { name: name@, value: value@ }),
    {
        HostCall::PluginSetSettingString {
            name: String::from_str(name),
            value: String::from_str(value),
        }
    }

    /// Path of the settings file that plugins share, given the host's data
    /// directory.
    pub fn plugin_setting_json_path(&self, app_data_path: &str) -> (r: String)
        requires
            is_plain_dir(app_data_path@),
        ensures
            is_joined(r@, app_data_path@, PLUGIN_SETTINGS_JSON@),
    {
        proof {
            reveal_strlit("plugins.json");
            assert(PLUGIN_SETTINGS_JSON@.len() == 12);
            assert(seq!['.'].len() == 1);
            assert(seq!['.', '.'].len() == 2);
        }
        join_path(app_data_path, PLUGIN_SETTINGS_JSON)
    }

    /// Registers an options page under `name`; later messages about the page
    /// carry `user_data`.
    pub fn ui_options_add_plugin_page(&self, user_data: usize, name: &str) -> (r: HostCall)
        ensures
            r@ == (HostCallView::UiOptionsAddPluginPage { user_data, name: name@ }),
    {
        HostCall::UiOptionsAddPluginPage { user_data, name: String::from_str(name) }
    }

    /// Enables or disables the Apply button of the options window.
    pub fn ui_options_enable_or_disable_apply_button(&self, options_hwnd: usize, enable: bool) -> (r:
        HostCall)
        ensures
            r@ == (HostCallView::OsEnableOrDisableDlgItem {
                parent_hwnd: options_hwnd,
                id: OptionsDlgItem::ApplyButton.spec_id(),
                enable,
            }),
    {
        self.os_enable_or_disable_dlg_item(options_hwnd, OptionsDlgItem::ApplyButton.id(), enable)
    }

    /// Enables or disables a dialog control.
    pub fn os_enable_or_disable_dlg_item(&self, parent_hwnd: usize, id: i32, enable: bool) -> (r:
        HostCall)
        ensures
            r@ == (HostCallView::OsEnableOrDisableDlgItem { parent_hwnd, id, enable }),
    {
        HostCall::OsEnableOrDisableDlgItem { parent_hwnd, id, enable }
    }

    /// The name of the host instance whose IPC window is among `windows`,
    /// the windows of the host's main thread.
    pub fn instance_name_from_main_thread(windows: &Vec<ThreadWindow>) -> (r: Option<String>)
        ensures
            match first_ipc_window(windows@) {
                Some(w) => match instance_name_of(w.class_name) {
                    Some(n) => r is Some && r.unwrap()@ == n,
                    None => r is None,
                },
                None => r is None,
            },
    {
        match IpcWindow::find(windows) {
            Some(w) => match w.instance_name() {
                Some(n) => Some(String::from_str(n)),
                None => None,
            },
            None => None,
        }
    }
}

} // verus!
