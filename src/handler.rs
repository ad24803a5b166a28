//! The plugin's side of the host's message protocol: a state machine that
//! owns the plugin instance and the options page slots.
use vstd::prelude::*;

use crate::host::{HostCall, HostCallView, OptionsDlgItem, PluginHost, SETTINGS_KEY};
use crate::ipc::{first_ipc_window, instance_name_of, ThreadWindow};
use crate::sys::{EVERYTHING_PLUGIN_VERSION, WM_CTLCOLORDLG, WM_SIZE};
use crate::ui::{high_word, low_word, OptionsMessage, OptionsPage, PageCommand, PageView};
use vstd::string::*;

verus! {

/// A plugin, built from its configuration and handing it back when torn down.
///
/// `spec_config` names the configuration the plugin holds, and
/// `default_config` the one it picks when built without one; the contracts
/// of the other methods are stated over them. Outside verified code they are
/// ordinary functions that implementors write as a copy of that
/// configuration and as the default.
pub trait PluginApp: Sized + 'static {
    type Config: 'static;

    /// The configuration the plugin holds.
    spec fn spec_config(&self) -> Self::Config;

    /// The configuration of a plugin built without one.
    spec fn default_config() -> Self::Config;

    /// Builds the plugin from `config`, or from the default without one.
    fn new(config: Option<Self::Config>) -> (r: Self)
        ensures
            r.spec_config() == config_or(config, Self::default_config()),
    ;

    /// Runs once the plugin is in place.
    fn start(&self) {
    }

    fn config(&self) -> (r: &Self::Config)
        ensures
            *r == self.spec_config(),
    ;

    fn into_config(self) -> (r: Self::Config)
        ensures
            r == self.spec_config(),
    ;
}

/// `config` where there is one, else `default`.
pub open spec fn config_or<C>(config: Option<C>, default: C) -> C {
    match config {
        Some(c) => c,
        None => default,
    }
}

/// What the host's settings store held for this plugin at start.
pub enum StoredSetting<C> {
    /// No entry.
    Missing,
    /// An entry whose text parsed as a configuration.
    Parsed(C),
    /// An entry whose text did not parse.
    Unparsable,
}

/// The configuration that the start of a plugin goes by: with a host, what
/// its settings store held; without one, a configuration handed over
/// directly, if any.
pub open spec fn loaded_config<C>(
    host: Option<PluginHost>,
    stored: StoredSetting<C>,
    direct: Option<C>,
) -> Option<C> {
    if host is Some {
        match stored {
            StoredSetting::Parsed(c) => Some(c),
            _ => None,
        }
    } else {
        direct
    }
}

/// A message of the host, with what came with it.
pub enum PluginMessage<C, H> {
    /// The first message. `host` is the address of the host's resolver, or
    /// 0 when the plugin runs on its own; `windows` are the windows of the
    /// calling thread.
    Init { host: usize, windows: Vec<ThreadWindow> },
    GetPluginVersion,
    GetName,
    GetDescription,
    GetAuthor,
    GetVersion,
    GetLink,
    Start { stored: StoredSetting<C>, direct: Option<C> },
    Stop,
    Uninstall,
    /// Always the last message.
    Kill,
    AddOptionsPages,
    /// The page at `user_data` was loaded; `handle` is its worker.
    LoadOptionsPage { user_data: usize, handle: H },
    SaveOptionsPage { user_data: usize },
    GetOptionsPageMinmax,
    SizeOptionsPage,
    OptionsPageProc {
        user_data: usize,
        msg: u32,
        w_param: usize,
        l_param: isize,
        options_hwnd: usize,
    },
    KillOptionsPage { user_data: usize },
    /// `serialized` is the text of the plugin's current configuration.
    SaveSettings { serialized: String },
    Other(u32),
}

/// What the plugin does in answer to a message.
pub enum Reply<C, H> {
    /// Return this value to the host.
    Code(usize),
    /// Return a pointer to this text, or null.
    Identity(Option<String>),
    /// Make these host calls in order, then return `code`.
    HostCalls { code: usize, calls: Vec<HostCall> },
    /// Send `command` to the page's worker, make `calls` in order, return 1.
    PageProc { command: Option<PageCommand>, calls: Vec<HostCall> },
    /// The page's worker, taken out of its slot: ask it to end; return 1.
    PageKilled(Option<H>),
    /// The plugin was torn down for a save: lend this configuration to the
    /// page, then hand the outcome to `finish_save_options_page`; return 1.
    SaveRequested(C),
    /// The plugin was torn down for good; this is its last configuration.
    /// Return 1.
    Killed(C),
}

pub enum ReplyView<C, H> {
    Code(usize),
    Identity(Option<Seq<char>>),
    HostCalls { code: usize, calls: Seq<HostCallView> },
    PageProc { command: Option<PageCommand>, calls: Seq<HostCallView> },
    PageKilled(Option<H>),
    SaveRequested(C),
    Killed(C),
}

pub open spec fn text_view(t: Option<String>) -> Option<Seq<char>> {
    match t {
        Some(s) => Some(s@),
        None => None,
    }
}

pub open spec fn calls_view(calls: Seq<HostCall>) -> Seq<HostCallView> {
    calls.map_values(|c: HostCall| c@)
}

impl<C, H> View for Reply<C, H> {
    type V = ReplyView<C, H>;

    open spec fn view(&self) -> ReplyView<C, H> {
        match self {
            Reply::Code(c) => ReplyView::Code(*c),
            Reply::Identity(t) => ReplyView::Identity(text_view(*t)),
            Reply::HostCalls { code, calls } => ReplyView::HostCalls {
                code: *code,
                calls: calls_view(calls@),
            },
            Reply::PageProc { command, calls } => ReplyView::PageProc {
                command: *command,
                calls: calls_view(calls@),
            },
            Reply::PageKilled(h) => ReplyView::PageKilled(*h),
            Reply::SaveRequested(c) => ReplyView::SaveRequested(*c),
            Reply::Killed(c) => ReplyView::Killed(*c),
        }
    }
}

impl<C, H> ReplyView<C, H> {
    /// The value returned to the host, where it is a number.
    pub open spec fn code(self) -> usize {
        match self {
            ReplyView::Code(c) => c,
            ReplyView::HostCalls { code, .. } => code,
            _ => 1,
        }
    }
}

/// The model of the handler.
pub struct HandlerView<C, H> {
    /// Whether the first message has been handled.
    pub initialized: bool,
    pub host: Option<PluginHost>,
    pub name: Option<Seq<char>>,
    pub description: Option<Seq<char>>,
    pub author: Option<Seq<char>>,
    pub version: Option<Seq<char>>,
    pub link: Option<Seq<char>>,
    /// The configuration of the running plugin, while there is one.
    pub instance: Option<C>,
    pub pages: Seq<PageView<H>>,
    pub pending: OptionsMessage,
    pub instance_name: Option<Seq<char>>,
}

impl<C, H> HandlerView<C, H> {
    pub open spec fn initialized_with(
        self,
        host: Option<PluginHost>,
        instance_name: Option<Seq<char>>,
    ) -> Self {
        HandlerView { initialized: true, host, instance_name, ..self }
    }

    pub open spec fn started(self, config: C) -> Self {
        HandlerView { instance: Some(config), ..self }
    }

    pub open spec fn killed(self) -> Self {
        HandlerView { instance: None, ..self }
    }

    pub open spec fn with_handle(self, i: int, handle: Option<H>) -> Self {
        HandlerView {
            pages: self.pages.update(i, PageView { name: self.pages[i].name, handle }),
            ..self
        }
    }

    pub open spec fn with_pending(self, pending: OptionsMessage) -> Self {
        HandlerView { pending, ..self }
    }

    /// The plugin is torn down to lend its configuration to a page, and the
    /// Apply button is to be enabled.
    pub open spec fn save_begun(self) -> Self {
        HandlerView { instance: None, pending: OptionsMessage::EnableApply(true), ..self }
    }
}

/// The instance name the host's IPC window among `windows` carries.
pub open spec fn instance_name_in(windows: Seq<ThreadWindow>) -> Option<Seq<char>> {
    match first_ipc_window(windows) {
        Some(w) => instance_name_of(w.class_name),
        None => None,
    }
}

pub open spec fn host_at(address: usize) -> Option<PluginHost> {
    if address == 0 {
        None
    } else {
        Some(PluginHost::spec_new(address))
    }
}

/// The configuration a save goes on with: the page's answer, or the one
/// lent to it where the page answered nothing.
pub open spec fn saved_config<C>(lent: C, answer: Option<C>) -> C {
    match answer {
        Some(c) => c,
        None => lent,
    }
}

/// The handler of the host's messages for a plugin of type `A`, whose
/// options pages run in workers known by handles of type `H`.
pub struct PluginHandler<A: PluginApp, H> {
    host: Option<PluginHost>,
    initialized: bool,
    name: Option<String>,
    description: Option<String>,
    author: Option<String>,
    version: Option<String>,
    link: Option<String>,
    app: Option<A>,
    options_pages: Vec<OptionsPage<H>>,
    options_message: OptionsMessage,
    instance_name: Option<String>,
}

impl<A: PluginApp, H> View for PluginHandler<A, H> {
    type V = HandlerView<A::Config, H>;

    closed spec fn view(&self) -> HandlerView<A::Config, H> {
        HandlerView {
            initialized: self.initialized,
            host: self.host,
            name: text_view(self.name),
            description: text_view(self.description),
            author: text_view(self.author),
            version: text_view(self.version),
            link: text_view(self.link),
            instance: match self.app {
                Some(a) => Some(a.spec_config()),
                None => None,
            },
            pages: self.options_pages@.map_values(|p: OptionsPage<H>| p@),
            pending: self.options_message,
            instance_name: text_view(self.instance_name),
        }
    }
}

fn clone_text(t: &Option<String>) -> (r: Option<String>)
    ensures
        r == *t,
{
    match t {
        Some(s) => Some(s.clone()),
        None => None,
    }
}

/// The host calls that register every page, each under its index.
pub open spec fn registrations<C, H>(v: HandlerView<C, H>) -> Seq<HostCallView> {
    Seq::new(
        v.pages.len(),
        |i: int| HostCallView::UiOptionsAddPluginPage { user_data: i as usize, name: v.pages[i].name },
    )
}

pub open spec fn pages_added<C, H>(v: HandlerView<C, H>) -> ReplyView<C, H> {
    if v.pages.len() == 0 {
        ReplyView::Code(0)
    } else {
        ReplyView::HostCalls { code: 1, calls: registrations(v) }
    }
}

/// The call that enables or disables the Apply button of an options window.
pub open spec fn apply_button(options_hwnd: usize, enable: bool) -> HostCallView {
    HostCallView::OsEnableOrDisableDlgItem {
        parent_hwnd: options_hwnd,
        id: OptionsDlgItem::ApplyButton.spec_id(),
        enable,
    }
}

/// What a window message of a page asks of its worker.
pub open spec fn proc_command<C, H>(v: HandlerView<C, H>, i: int, msg: u32, l_param: isize) -> Option<PageCommand> {
    if msg == WM_SIZE && v.pages[i].handle is Some {
        Some(PageCommand::Size(low_word(l_param), high_word(l_param)))
    } else {
        None
    }
}

/// The host calls a window message of a page leads to: one for a dialog
/// colour request, which comes when the page shows, then one for the
/// pending Apply request, if any.
pub open spec fn proc_calls<C, H>(v: HandlerView<C, H>, msg: u32, options_hwnd: usize) -> Seq<HostCallView> {
    let shown: Seq<HostCallView> = if msg == WM_CTLCOLORDLG {
        seq![apply_button(options_hwnd, true)]
    } else {
        Seq::empty()
    };
    let pending: Seq<HostCallView> = match v.pending {
        OptionsMessage::EnableApply(e) => seq![apply_button(options_hwnd, e)],
        OptionsMessage::Noop => Seq::empty(),
    };
    shown + pending
}

/// The call that writes the plugin's configuration text to the host.
pub open spec fn settings_written(serialized: Seq<char>) -> HostCallView {
    HostCallView::PluginSetSettingString { name: SETTINGS_KEY@, value: serialized }
}

/// The messages the handler can take in the state `v`. Any other is a
/// breach of the protocol by the caller.
pub open spec fn admits<C, H>(v: HandlerView<C, H>, m: PluginMessage<C, H>) -> bool {
    match m {
        PluginMessage::Init { .. } => !v.initialized,
        PluginMessage::Start { .. } => v.instance is None,
        PluginMessage::Kill => v.instance is Some,
        PluginMessage::AddOptionsPages => v.pages.len() == 0 || v.host is Some,
        PluginMessage::LoadOptionsPage { user_data, .. } => user_data < v.pages.len(),
        PluginMessage::SaveOptionsPage { user_data } => v.pages.len() == 0 || (user_data
            < v.pages.len() && (v.pages[user_data as int].handle is Some ==> v.instance is Some)),
        PluginMessage::OptionsPageProc { user_data, msg, .. } => v.pages.len() == 0 || (user_data
            < v.pages.len() && (v.host is Some || (msg != WM_CTLCOLORDLG && v.pending
            == OptionsMessage::Noop))),
        PluginMessage::KillOptionsPage { user_data } => v.pages.len() == 0 || user_data
            < v.pages.len(),
        PluginMessage::SaveSettings { serialized } => {
            &&& v.host is Some
            &&& v.instance is Some
            &&& !serialized@.contains('\n')
        },
        _ => true,
    }
}

/// What handling `m` in state `v0` does: the next state `v1` and the reply.
/// `default` is the configuration of a plugin built without one.
pub open spec fn handled<C, H>(
    v0: HandlerView<C, H>,
    m: PluginMessage<C, H>,
    v1: HandlerView<C, H>,
    r: ReplyView<C, H>,
    default: C,
) -> bool {
    match m {
        PluginMessage::Init { host, windows } => {
            &&& v1 == v0.initialized_with(host_at(host), instance_name_in(windows@))
            &&& r == ReplyView::<C, H>::Code(1)
        },
        PluginMessage::GetPluginVersion => v1 == v0 && r == ReplyView::<C, H>::Code(
            EVERYTHING_PLUGIN_VERSION,
        ),
        PluginMessage::GetName => v1 == v0 && r == ReplyView::<C, H>::Identity(v0.name),
        PluginMessage::GetDescription => v1 == v0 && r == ReplyView::<C, H>::Identity(
            v0.description,
        ),
        PluginMessage::GetAuthor => v1 == v0 && r == ReplyView::<C, H>::Identity(v0.author),
        PluginMessage::GetVersion => v1 == v0 && r == ReplyView::<C, H>::Identity(v0.version),
        PluginMessage::GetLink => v1 == v0 && r == ReplyView::<C, H>::Identity(v0.link),
        PluginMessage::Start { stored, direct } => {
            &&& v1 == v0.started(config_or(loaded_config(v0.host, stored, direct), default))
            &&& r == ReplyView::<C, H>::Code(1)
        },
        PluginMessage::Stop => v1 == v0 && r == ReplyView::<C, H>::Code(1),
        PluginMessage::Uninstall => v1 == v0 && r == ReplyView::<C, H>::Code(1),
        PluginMessage::Kill => v1 == v0.killed() && r == ReplyView::<C, H>::Killed(
            v0.instance.unwrap(),
        ),
        PluginMessage::AddOptionsPages => v1 == v0 && r == pages_added(v0),
        PluginMessage::LoadOptionsPage { user_data, handle } => {
            &&& v1 == v0.with_handle(user_data as int, Some(handle))
            &&& r == ReplyView::<C, H>::Code(1)
        },
        PluginMessage::SaveOptionsPage { user_data } => if v0.pages.len() == 0 {
            v1 == v0 && r == ReplyView::<C, H>::Code(0)
        } else if v0.pages[user_data as int].handle is Some {
            v1 == v0.save_begun() && r == ReplyView::<C, H>::SaveRequested(v0.instance.unwrap())
        } else {
            v1 == v0 && r == ReplyView::<C, H>::Code(1)
        },
        PluginMessage::GetOptionsPageMinmax => v1 == v0 && r == ReplyView::<C, H>::Code(0),
        PluginMessage::SizeOptionsPage => v1 == v0 && r == ReplyView::<C, H>::Code(0),
        PluginMessage::OptionsPageProc { user_data, msg, w_param, l_param, options_hwnd } =>
            if v0.pages.len() == 0 {
            v1 == v0 && r == ReplyView::<C, H>::Code(0)
        } else {
            &&& v1 == v0.with_pending(OptionsMessage::Noop)
            &&& r == ReplyView::<C, H>::PageProc {
                command: proc_command(v0, user_data as int, msg, l_param),
                calls: proc_calls(v0, msg, options_hwnd),
            }
        },
        PluginMessage::KillOptionsPage { user_data } => if v0.pages.len() == 0 {
            v1 == v0 && r == ReplyView::<C, H>::Code(0)
        } else {
            &&& v1 == v0.with_handle(user_data as int, None)
            &&& r == ReplyView::<C, H>::PageKilled(v0.pages[user_data as int].handle)
        },
        PluginMessage::SaveSettings { serialized } => {
            &&& v1 == v0
            &&& r == ReplyView::<C, H>::HostCalls {
                code: 1,
                calls: seq![settings_written(serialized@)],
            }
        },
        PluginMessage::Other(_) => v1 == v0 && r == ReplyView::<C, H>::Code(0),
    }
}

/// Whether `s` is free of line breaks.
pub fn is_single_line(s: &str) -> (r: bool)
    ensures
        r == !s@.contains('\n'),
{
    let n = s.unicode_len();
    let mut i: usize = 0;
    while i < n
        invariant
            n == s@.len(),
            i <= n,
            forall|k: int| 0 <= k < i ==> s@[k] != '\n',
        decreases n - i,
    {
        if s.get_char(i) == '\n' {
            return false;
        }
        i = i + 1;
    }
    true
}

impl<A: PluginApp, H> PluginHandler<A, H> {
    /// Whether the handler can take `m` now; `handle` asks it.
    pub fn accepts(&self, m: &PluginMessage<A::Config, H>) -> (r: bool)
        ensures
            r == admits(self@, *m),
    {
        let n = self.options_pages.len();
        proof {
            assert(self@.pages.len() == n);
        }
        match m {
            PluginMessage::Init { .. } => !self.initialized,
            PluginMessage::Start { .. } => self.app.is_none(),
            PluginMessage::Kill => self.app.is_some(),
            PluginMessage::AddOptionsPages => n == 0 || self.host.is_some(),
            PluginMessage::LoadOptionsPage { user_data, .. } => *user_data < n,
            PluginMessage::SaveOptionsPage { user_data } => n == 0 || (*user_data < n && (
            self.options_pages[*user_data].handle().is_none() || self.app.is_some())),
            PluginMessage::OptionsPageProc { user_data, msg, .. } => n == 0 || (*user_data < n
                && (self.host.is_some() || (*msg != WM_CTLCOLORDLG
                && self.options_message == OptionsMessage::Noop))),
            PluginMessage::KillOptionsPage { user_data } => n == 0 || *user_data < n,
            PluginMessage::SaveSettings { serialized } => self.host.is_some()
                && self.app.is_some() && is_single_line(serialized.as_str()),
            _ => true,
        }
    }

    /// The configuration that a start goes by.
    pub fn load_settings(&self, stored: StoredSetting<A::Config>, direct: Option<A::Config>) -> (r:
        Option<A::Config>)
        ensures
            r == loaded_config(self@.host, stored, direct),
    {
        if self.host.is_some() {
            match stored {
                StoredSetting::Parsed(c) => Some(c),
                _ => None,
            }
        } else {
            direct
        }
    }

    /// Builds and starts the plugin.
    fn app_new(&mut self, config: Option<A::Config>)
        requires
            old(self)@.instance is None,
        ensures
            final(self)@ == old(self)@.started(config_or(config, A::default_config())),
    {
        self.app = Some(A::new(config));
        match &self.app {
            Some(app) => app.start(),
            None => {},
        }
    }

    /// Tears the plugin down and hands back its configuration.
    fn app_into_config(&mut self) -> (r: A::Config)
        requires
            old(self)@.instance is Some,
        ensures
            r == old(self)@.instance.unwrap(),
            final(self)@ == old(self)@.killed(),
    {
        let app = self.app.take().unwrap();
        app.into_config()
    }
}

impl<A: PluginApp, H> PluginHandler<A, H> {
    /// The first message: takes the host at address `host` (none at 0) and
    /// the host instance's name from the windows of the calling thread.
    pub fn init(&mut self, host: usize, windows: &Vec<ThreadWindow>) -> (r: usize)
        requires
            !old(self)@.initialized,
        ensures
            r == 1,
            final(self)@ == old(self)@.initialized_with(host_at(host), instance_name_in(windows@)),
    {
        self.host = if host != 0 {
            Some(PluginHost::new(host))
        } else {
            None
        };
        self.instance_name = PluginHost::instance_name_from_main_thread(windows);
        self.initialized = true;
        proof {
            assert(self.options_pages@.map_values(|p: OptionsPage<H>| p@) == old(self)@.pages);
        }
        1
    }

    /// Starts the plugin from the configuration the host's settings store
    /// held, or from one handed over directly when there is no host.
    pub fn start(&mut self, stored: StoredSetting<A::Config>, direct: Option<A::Config>) -> (r:
        usize)
        requires
            old(self)@.instance is None,
        ensures
            r == 1,
            final(self)@ == old(self)@.started(
                config_or(loaded_config(old(self)@.host, stored, direct), A::default_config()),
            ),
    {
        let config = self.load_settings(stored, direct);
        self.app_new(config);
        1
    }

    /// Tears the plugin down for good and hands back its configuration.
    pub fn kill(&mut self) -> (r: A::Config)
        requires
            old(self)@.instance is Some,
        ensures
            r == old(self)@.instance.unwrap(),
            final(self)@ == old(self)@.killed(),
    {
        self.app_into_config()
    }

    /// Registers every options page with the host, under its index.
    pub fn add_options_pages(&self) -> (r: Reply<A::Config, H>)
        requires
            self@.pages.len() == 0 || self@.host is Some,
        ensures
            r@ == pages_added(self@),
    {
        let n = self.options_pages.len();
        if n == 0 {
            return Reply::Code(0);
        }
        let host = self.host.unwrap();
        let mut calls: Vec<HostCall> = Vec::new();
        let mut i: usize = 0;
        while i < n
            invariant
                n == self.options_pages@.len(),
                n == self@.pages.len(),
                i <= n,
                calls@.len() == i,
                forall|k: int| 0 <= k < i ==> (#[trigger] calls@[k])@ == registrations(self@)[k],
            decreases n - i,
        {
            let page = &self.options_pages[i];
            proof {
                assert(self@.pages[i as int] == page@);
            }
            calls.push(host.ui_options_add_plugin_page(i, page.name()));
            i = i + 1;
        }
        proof {
            assert(calls_view(calls@) =~= registrations(self@));
        }
        Reply::HostCalls { code: 1, calls }
    }

    /// The page at `user_data` was loaded and runs in the worker `handle`.
    pub fn load_options_page(&mut self, user_data: usize, handle: H) -> (r: Reply<A::Config, H>)
        requires
            user_data < old(self)@.pages.len(),
        ensures
            r@ == ReplyView::<A::Config, H>::Code(1),
            final(self)@ == old(self)@.with_handle(user_data as int, Some(handle)),
    {
        proof {
            assert(old(self)@.pages[user_data as int] == old(self).options_pages@[user_data as int]@);
        }
        let _previous = self.options_pages[user_data].replace_handle(Some(handle));
        proof {
            assert(self@.pages =~= old(self)@.with_handle(user_data as int, Some(handle)).pages);
        }
        Reply::Code(1)
    }

    /// Asks the page at `user_data` to save: the plugin is torn down and its
    /// configuration lent to the page, and the Apply button is to be enabled.
    /// Where the page is not loaded, nothing happens.
    pub fn save_options_page(&mut self, user_data: usize) -> (r: Reply<A::Config, H>)
        requires
            admits(old(self)@, PluginMessage::SaveOptionsPage { user_data }),
        ensures
            handled(
                old(self)@,
                PluginMessage::SaveOptionsPage { user_data },
                final(self)@,
                r@,
                A::default_config(),
            ),
    {
        if self.options_pages.len() == 0 {
            return Reply::Code(0);
        }
        proof {
            assert(old(self)@.pages[user_data as int] == old(self).options_pages@[user_data as int]@);
        }
        if self.options_pages[user_data].handle().is_some() {
            let config = self.app_into_config();
            self.options_message = OptionsMessage::EnableApply(true);
            Reply::SaveRequested(config)
        } else {
            Reply::Code(1)
        }
    }

    /// Ends a save that `save_options_page` began: rebuilds the plugin from
    /// the page's answer, or from the lent configuration where the page
    /// answered nothing.
    pub fn finish_save_options_page(&mut self, lent: A::Config, answer: Option<A::Config>)
        requires
            old(self)@.instance is None,
        ensures
            final(self)@ == old(self)@.started(saved_config(lent, answer)),
    {
        let config = match answer {
            Some(c) => c,
            None => lent,
        };
        self.app_new(Some(config));
    }

    pub fn get_options_page_minmax(&self) -> (r: Reply<A::Config, H>)
        ensures
            r@ == ReplyView::<A::Config, H>::Code(0),
    {
        Reply::Code(0)
    }

    /// A page's size follows its window messages instead.
    pub fn size_options_page(&self) -> (r: Reply<A::Config, H>)
        ensures
            r@ == ReplyView::<A::Config, H>::Code(0),
    {
        Reply::Code(0)
    }

    /// A window message of the page at `user_data`: a resize goes on to the
    /// page's worker; the page showing, and a pending Apply request, go to
    /// the host's Apply button.
    pub fn options_page_proc(
        &mut self,
        user_data: usize,
        msg: u32,
        w_param: usize,
        l_param: isize,
        options_hwnd: usize,
    ) -> (r: Reply<A::Config, H>)
        requires
            admits(
                old(self)@,
                PluginMessage::OptionsPageProc { user_data, msg, w_param, l_param, options_hwnd },
            ),
        ensures
            handled(
                old(self)@,
                PluginMessage::OptionsPageProc { user_data, msg, w_param, l_param, options_hwnd },
                final(self)@,
                r@,
                A::default_config(),
            ),
    {
        if self.options_pages.len() == 0 {
            return Reply::Code(0);
        }
        proof {
            assert(old(self)@.pages[user_data as int] == old(self).options_pages@[user_data as int]@);
        }
        let mut command: Option<PageCommand> = None;
        let mut calls: Vec<HostCall> = Vec::new();
        if msg == WM_SIZE {
            if self.options_pages[user_data].handle().is_some() {
                command = Some(PageCommand::size_from_lparam(l_param));
            }
        } else if msg == WM_CTLCOLORDLG {
            let host = self.host.unwrap();
            calls.push(host.ui_options_enable_or_disable_apply_button(options_hwnd, true));
        }
        match self.options_message {
            OptionsMessage::EnableApply(enable) => {
                let host = self.host.unwrap();
                calls.push(host.ui_options_enable_or_disable_apply_button(options_hwnd, enable));
            },
            OptionsMessage::Noop => {},
        }
        self.options_message = OptionsMessage::Noop;
        proof {
            assert(calls_view(calls@) =~= proc_calls(old(self)@, msg, options_hwnd));
        }
        Reply::PageProc { command, calls }
    }

    /// Takes the worker of the page at `user_data` out of its slot.
    pub fn kill_options_page(&mut self, user_data: usize) -> (r: Reply<A::Config, H>)
        requires
            admits(old(self)@, PluginMessage::KillOptionsPage { user_data }),
        ensures
            handled(
                old(self)@,
                PluginMessage::KillOptionsPage { user_data },
                final(self)@,
                r@,
                A::default_config(),
            ),
    {
        if self.options_pages.len() == 0 {
            return Reply::Code(0);
        }
        proof {
            assert(old(self)@.pages[user_data as int] == old(self).options_pages@[user_data as int]@);
        }
        let handle = self.options_pages[user_data].replace_handle(None);
        proof {
            assert(self@.pages =~= old(self)@.with_handle(user_data as int, None).pages);
        }
        Reply::PageKilled(handle)
    }

    /// Writes the plugin's configuration, as the text `serialized`, to the
    /// host's settings store.
    pub fn save_settings(&self, serialized: String) -> (r: Reply<A::Config, H>)
        requires
            self@.host is Some,
            self@.instance is Some,
            !serialized@.contains('\n'),
        ensures
            r@ == (ReplyView::<A::Config, H>::HostCalls {
                code: 1,
                calls: seq![settings_written(serialized@)],
            }),
    {
        let host = self.host.unwrap();
        let call = host.plugin_set_setting_string(SETTINGS_KEY, serialized.as_str());
        let mut calls: Vec<HostCall> = Vec::new();
        calls.push(call);
        proof {
            assert(calls_view(calls@) =~= seq![settings_written(serialized@)]);
        }
        Reply::HostCalls { code: 1, calls }
    }

    /// Handles one message of the host.
    pub fn handle(&mut self, m: PluginMessage<A::Config, H>) -> (r: Reply<A::Config, H>)
        requires
            admits(old(self)@, m),
        ensures
            handled(old(self)@, m, final(self)@, r@, A::default_config()),
    {
        match m {
            PluginMessage::Init { host, windows } => Reply::Code(self.init(host, &windows)),
            PluginMessage::GetPluginVersion => Reply::Code(EVERYTHING_PLUGIN_VERSION),
            PluginMessage::GetName => Reply::Identity(clone_text(&self.name)),
            PluginMessage::GetDescription => Reply::Identity(clone_text(&self.description)),
            PluginMessage::GetAuthor => Reply::Identity(clone_text(&self.author)),
            PluginMessage::GetVersion => Reply::Identity(clone_text(&self.version)),
            PluginMessage::GetLink => Reply::Identity(clone_text(&self.link)),
            PluginMessage::Start { stored, direct } => Reply::Code(self.start(stored, direct)),
            PluginMessage::Stop => Reply::Code(1),
            PluginMessage::Uninstall => Reply::Code(1),
            PluginMessage::Kill => Reply::Killed(self.kill()),
            PluginMessage::AddOptionsPages => self.add_options_pages(),
            PluginMessage::LoadOptionsPage { user_data, handle } => self.load_options_page(
                user_data,
                handle,
            ),
            PluginMessage::SaveOptionsPage { user_data } => self.save_options_page(user_data),
            PluginMessage::GetOptionsPageMinmax => self.get_options_page_minmax(),
            PluginMessage::SizeOptionsPage => self.size_options_page(),
            PluginMessage::OptionsPageProc { user_data, msg, w_param, l_param, options_hwnd } =>
                self.options_page_proc(user_data, msg, w_param, l_param, options_hwnd),
            PluginMessage::KillOptionsPage { user_data } => self.kill_options_page(user_data),
            PluginMessage::SaveSettings { serialized } => self.save_settings(serialized),
            PluginMessage::Other(_) => Reply::Code(0),
        }
    }
}

/// The state after loading pages `0, 1, ...` in turn, page `k` into the
/// worker `handles[k]`.
pub open spec fn after_loads<C, H>(v: HandlerView<C, H>, handles: Seq<H>) -> HandlerView<C, H>
    decreases handles.len(),
{
    if handles.len() == 0 {
        v
    } else {
        after_loads(v, handles.drop_last()).with_handle(
            handles.len() - 1,
            Some(handles.last()),
        )
    }
}

/// The host learns page `i` under the index `i`: registration order is the
/// correlation index.
pub proof fn lemma_registration_index_is_order<C, H>(v: HandlerView<C, H>, i: int)
    requires
        0 <= i < v.pages.len(),
    ensures
        pages_added(v) == (ReplyView::<C, H>::HostCalls { code: 1, calls: registrations(v) }),
        registrations(v).len() == v.pages.len(),
        registrations(v)[i] == (HostCallView::UiOptionsAddPluginPage {
            user_data: i as usize,
            name: v.pages[i].name,
        }),
{
}

/// Loading each registered page in turn leaves each slot holding the worker
/// it was loaded with: no load lands in another page's slot, and names stay.
pub proof fn lemma_loads_do_not_collide<C, H>(v: HandlerView<C, H>, handles: Seq<H>)
    requires
        handles.len() <= v.pages.len(),
    ensures
        after_loads(v, handles).pages.len() == v.pages.len(),
        forall|k: int|
            0 <= k < handles.len() ==> #[trigger] after_loads(v, handles).pages[k] == (PageView {
                name: v.pages[k].name,
                handle: Some(handles[k]),
            }),
        forall|k: int|
            handles.len() <= k < v.pages.len() ==> #[trigger] after_loads(v, handles).pages[k]
                == v.pages[k],
    decreases handles.len(),
{
    if handles.len() > 0 {
        lemma_loads_do_not_collide(v, handles.drop_last());
    }
}

/// The first `k` loads of such a run reach `after_loads` of the first `k`
/// workers.
proof fn lemma_load_run_prefix<C, H>(
    states: Seq<HandlerView<C, H>>,
    replies: Seq<ReplyView<C, H>>,
    handles: Seq<H>,
    default: C,
    k: int,
)
    requires
        states.len() == handles.len() + 1,
        replies.len() == handles.len(),
        handles.len() <= usize::MAX,
        0 <= k <= handles.len(),
        forall|j: int|
            0 <= j < handles.len() ==> #[trigger] handled(
                states[j],
                PluginMessage::LoadOptionsPage { user_data: j as usize, handle: handles[j] },
                states[j + 1],
                replies[j],
                default,
            ),
    ensures
        states[k] == after_loads(states[0], handles.take(k)),
    decreases k,
{
    if k == 0 {
        assert(handles.take(0) =~= Seq::<H>::empty());
    } else {
        lemma_load_run_prefix(states, replies, handles, default, k - 1);
        let j = k - 1;
        assert(handled(
            states[j],
            PluginMessage::LoadOptionsPage { user_data: j as usize, handle: handles[j] },
            states[j + 1],
            replies[j],
            default,
        ));
        assert(handles.take(k).drop_last() =~= handles.take(k - 1));
        assert(handles.take(k).last() == handles[k - 1]);
    }
}

/// A run of LOAD_OPTIONS_PAGE messages for pages `0, 1, ...` in turn, the
/// page `k` into the worker `handles[k]`, goes from `states[0]` through
/// `states[k + 1]`: the last state holds each page's own worker in its slot,
/// the page names unchanged, and the slots after the run untouched.
pub proof fn lemma_load_run_fills_own_slots<C, H>(
    states: Seq<HandlerView<C, H>>,
    replies: Seq<ReplyView<C, H>>,
    handles: Seq<H>,
    default: C,
)
    requires
        states.len() == handles.len() + 1,
        replies.len() == handles.len(),
        handles.len() <= states[0].pages.len(),
        handles.len() <= usize::MAX,
        forall|k: int|
            0 <= k < handles.len() ==> #[trigger] handled(
                states[k],
                PluginMessage::LoadOptionsPage { user_data: k as usize, handle: handles[k] },
                states[k + 1],
                replies[k],
                default,
            ),
    ensures
        states.last() == after_loads(states[0], handles),
        states.last().pages.len() == states[0].pages.len(),
        forall|k: int|
            0 <= k < handles.len() ==> #[trigger] states.last().pages[k] == (PageView {
                name: states[0].pages[k].name,
                handle: Some(handles[k]),
            }),
        forall|k: int|
            handles.len() <= k < states[0].pages.len() ==> #[trigger] states.last().pages[k]
                == states[0].pages[k],
{
    let n = handles.len() as int;
    lemma_load_run_prefix(states, replies, handles, default, n);
    assert(handles.take(n) =~= handles);
    lemma_loads_do_not_collide(states[0], handles);
}

/// Starting the plugin and then killing it hands back the configuration it
/// started from, and leaves the handler as it was before the start.
pub proof fn lemma_start_then_kill<C, H>(
    v0: HandlerView<C, H>,
    stored: StoredSetting<C>,
    direct: Option<C>,
    default: C,
    v1: HandlerView<C, H>,
    r1: ReplyView<C, H>,
    v2: HandlerView<C, H>,
    r2: ReplyView<C, H>,
)
    requires
        admits(v0, PluginMessage::Start { stored, direct }),
        handled(v0, PluginMessage::Start { stored, direct }, v1, r1, default),
        handled(v1, PluginMessage::Kill, v2, r2, default),
    ensures
        r2 == ReplyView::<C, H>::Killed(config_or(loaded_config(v0.host, stored, direct), default)),
        v2 == v0,
{
    assert(v2 =~= v0);
}

/// A save that the page does not answer leaves the plugin running with the
/// configuration it had; only the Apply request is left pending.
pub proof fn lemma_unanswered_save_keeps_config<C, H>(
    v0: HandlerView<C, H>,
    user_data: usize,
    default: C,
    v1: HandlerView<C, H>,
    lent: C,
    v2: HandlerView<C, H>,
)
    requires
        admits(v0, PluginMessage::SaveOptionsPage { user_data }),
        handled(
            v0,
            PluginMessage::SaveOptionsPage { user_data },
            v1,
            ReplyView::<C, H>::SaveRequested(lent),
            default,
        ),
        v2 == v1.started(saved_config(lent, None)),
    ensures
        v2.instance == v0.instance,
        v2 == v0.with_pending(OptionsMessage::EnableApply(true)),
{
    assert(v2 =~= v0.with_pending(OptionsMessage::EnableApply(true)));
}

/// Killing a page slot that holds no worker changes nothing and answers 1.
pub proof fn lemma_kill_unloaded_page_is_noop<C, H>(
    v0: HandlerView<C, H>,
    user_data: usize,
    default: C,
    v1: HandlerView<C, H>,
    r: ReplyView<C, H>,
)
    requires
        admits(v0, PluginMessage::KillOptionsPage { user_data }),
        v0.pages.len() > 0,
        v0.pages[user_data as int].handle is None,
        handled(v0, PluginMessage::KillOptionsPage { user_data }, v1, r, default),
    ensures
        v1 == v0,
        r == ReplyView::<C, H>::PageKilled(None),
        r.code() == 1,
{
    assert(v0.pages.update(
        user_data as int,
        PageView { name: v0.pages[user_data as int].name, handle: None },
    ) =~= v0.pages);
}

/// The model of a handler under construction.
pub struct BuilderView<H> {
    pub name: Option<Seq<char>>,
    pub description: Option<Seq<char>>,
    pub author: Option<Seq<char>>,
    pub version: Option<Seq<char>>,
    pub link: Option<Seq<char>>,
    pub pages: Seq<PageView<H>>,
}

/// The state of a handler freshly built from `b`: no host, no plugin, no
/// page loaded.
pub open spec fn built<C, H>(b: BuilderView<H>) -> HandlerView<C, H> {
    HandlerView {
        initialized: false,
        host: None,
        name: b.name,
        description: b.description,
        author: b.author,
        version: b.version,
        link: b.link,
        instance: None,
        pages: b.pages,
        pending: OptionsMessage::Noop,
        instance_name: None,
    }
}

/// Collects the plugin's identity and its options pages.
pub struct PluginHandlerBuilder<H> {
    name: Option<String>,
    description: Option<String>,
    author: Option<String>,
    version: Option<String>,
    link: Option<String>,
    options_pages: Vec<OptionsPage<H>>,
}

impl<H> View for PluginHandlerBuilder<H> {
    type V = BuilderView<H>;

    closed spec fn view(&self) -> BuilderView<H> {
        BuilderView {
            name: text_view(self.name),
            description: text_view(self.description),
            author: text_view(self.author),
            version: text_view(self.version),
            link: text_view(self.link),
            pages: self.options_pages@.map_values(|p: OptionsPage<H>| p@),
        }
    }
}

impl<H> PluginHandlerBuilder<H> {
    pub fn name(self, name: &str) -> (r: Self)
        ensures
            r@ == (BuilderView { name: Some(name@), ..self@ }),
    {
        PluginHandlerBuilder { name: Some(String::from_str(name)), ..self }
    }

    pub fn description(self, description: &str) -> (r: Self)
        ensures
            r@ == (BuilderView { description: Some(description@), ..self@ }),
    {
        PluginHandlerBuilder { description: Some(String::from_str(description)), ..self }
    }

    pub fn author(self, author: &str) -> (r: Self)
        ensures
            r@ == (BuilderView { author: Some(author@), ..self@ }),
    {
        PluginHandlerBuilder { author: Some(String::from_str(author)), ..self }
    }

    pub fn version(self, version: &str) -> (r: Self)
        ensures
            r@ == (BuilderView { version: Some(version@), ..self@ }),
    {
        PluginHandlerBuilder { version: Some(String::from_str(version)), ..self }
    }

    pub fn link(self, link: &str) -> (r: Self)
        ensures
            r@ == (BuilderView { link: Some(link@), ..self@ }),
    {
        PluginHandlerBuilder { link: Some(String::from_str(link)), ..self }
    }

    /// The options pages, in the order the host is to show them.
    pub fn options_pages(self, options_pages: Vec<OptionsPage<H>>) -> (r: Self)
        ensures
            r@ == (BuilderView {
                pages: options_pages@.map_values(|p: OptionsPage<H>| p@),
                ..self@
            }),
    {
        PluginHandlerBuilder { options_pages, ..self }
    }

    pub fn build<A: PluginApp>(self) -> (r: PluginHandler<A, H>)
        ensures
            r@ == built::<A::Config, H>(self@),
    {
        PluginHandler {
            host: None,
            initialized: false,
            name: self.name,
            description: self.description,
            author: self.author,
            version: self.version,
            link: self.link,
            app: None,
            options_pages: self.options_pages,
            options_message: OptionsMessage::Noop,
            instance_name: None,
        }
    }
}

impl<A: PluginApp, H> PluginHandler<A, H> {
    /// A builder with no identity and no options pages.
    pub fn builder() -> (r: PluginHandlerBuilder<H>)
        ensures
            r@ == (BuilderView::<H> {
                name: None,
                description: None,
                author: None,
                version: None,
                link: None,
                pages: Seq::empty(),
            }),
    {
        let r = PluginHandlerBuilder {
            name: None,
            description: None,
            author: None,
            version: None,
            link: None,
            options_pages: Vec::new(),
        };
        proof {
            assert(r@.pages =~= Seq::<PageView<H>>::empty());
        }
        r
    }

    /// Initializes without a host and starts the plugin with its default
    /// configuration.
    pub fn init_start(&mut self, windows: &Vec<ThreadWindow>)
        requires
            !old(self)@.initialized,
            old(self)@.instance is None,
        ensures
            final(self)@ == old(self)@.initialized_with(None, instance_name_in(windows@)).started(
                A::default_config(),
            ),
    {
        self.init(0, windows);
        self.start(StoredSetting::Missing, None);
    }

    /// Initializes without a host and starts the plugin with `config`.
    pub fn init_start_with_config(&mut self, windows: &Vec<ThreadWindow>, config: A::Config)
        requires
            !old(self)@.initialized,
            old(self)@.instance is None,
        ensures
            final(self)@ == old(self)@.initialized_with(None, instance_name_in(windows@)).started(
                config,
            ),
    {
        self.init(0, windows);
        self.start(StoredSetting::Missing, Some(config));
    }

    /// Stops and kills the plugin, handing back its last configuration.
    pub fn stop_kill(&mut self) -> (r: A::Config)
        requires
            old(self)@.instance is Some,
        ensures
            r == old(self)@.instance.unwrap(),
            final(self)@ == old(self)@.killed(),
    {
        self.kill()
    }

    /// The host, once the first message brought one.
    pub fn get_host(&self) -> (r: Option<&PluginHost>)
        ensures
            match r {
                Some(h) => self@.host == Some(*h),
                None => self@.host is None,
            },
    {
        match &self.host {
            Some(h) => Some(h),
            None => None,
        }
    }

    pub fn host(&self) -> (r: &PluginHost)
        requires
            self@.host is Some,
        ensures
            self@.host == Some(*r),
    {
        self.host.as_ref().unwrap()
    }

    /// The name of the host instance, as found at the first message.
    pub fn instance_name(&self) -> (r: Option<&str>)
        ensures
            match r {
                Some(n) => self@.instance_name == Some(n@),
                None => self@.instance_name is None,
            },
    {
        match &self.instance_name {
            Some(n) => Some(n.as_str()),
            None => None,
        }
    }

    /// The running plugin. There is none before the start, after the kill,
    /// and while a page holds its configuration for a save.
    pub fn app(&self) -> (r: &A)
        requires
            self@.instance is Some,
        ensures
            self@.instance == Some(r.spec_config()),
    {
        self.app.as_ref().unwrap()
    }

    /// The worker of the page at `user_data`, while the page is loaded.
    pub fn page_handle(&self, user_data: usize) -> (r: &Option<H>)
        requires
            user_data < self@.pages.len(),
        ensures
            *r == self@.pages[user_data as int].handle,
    {
        proof {
            assert(self@.pages[user_data as int] == self.options_pages@[user_data as int]@);
        }
        self.options_pages[user_data].handle()
    }

    /// Whether the plugin is running: started, not killed, not lent out.
    pub fn running(&self) -> (r: bool)
        ensures
            r == self@.instance is Some,
    {
        self.app.is_some()
    }

    /// The number of options pages.
    pub fn options_pages_len(&self) -> (r: usize)
        ensures
            r == self@.pages.len(),
    {
        self.options_pages.len()
    }
}

} // verus!
