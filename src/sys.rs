//! Numbers fixed by the host's plugin interface and by the windowing system.
use vstd::prelude::*;

verus! {

pub const EVERYTHING_PLUGIN_PM_INIT: u32 = 0;
pub const EVERYTHING_PLUGIN_PM_GET_PLUGIN_VERSION: u32 = 1;
pub const EVERYTHING_PLUGIN_PM_GET_NAME: u32 = 2;
pub const EVERYTHING_PLUGIN_PM_GET_DESCRIPTION: u32 = 3;
pub const EVERYTHING_PLUGIN_PM_GET_AUTHOR: u32 = 4;
pub const EVERYTHING_PLUGIN_PM_GET_VERSION: u32 = 5;
pub const EVERYTHING_PLUGIN_PM_GET_LINK: u32 = 6;
pub const EVERYTHING_PLUGIN_PM_START: u32 = 7;
pub const EVERYTHING_PLUGIN_PM_STOP: u32 = 8;
pub const EVERYTHING_PLUGIN_PM_UNINSTALL: u32 = 9;
pub const EVERYTHING_PLUGIN_PM_ADD_OPTIONS_PAGES: u32 = 10;
pub const EVERYTHING_PLUGIN_PM_LOAD_OPTIONS_PAGE: u32 = 11;
pub const EVERYTHING_PLUGIN_PM_SAVE_OPTIONS_PAGE: u32 = 12;
pub const EVERYTHING_PLUGIN_PM_GET_OPTIONS_PAGE_MINMAX: u32 = 13;
pub const EVERYTHING_PLUGIN_PM_SIZE_OPTIONS_PAGE: u32 = 14;
pub const EVERYTHING_PLUGIN_PM_OPTIONS_PAGE_PROC: u32 = 15;
pub const EVERYTHING_PLUGIN_PM_KILL_OPTIONS_PAGE: u32 = 16;
pub const EVERYTHING_PLUGIN_PM_SAVE_SETTINGS: u32 = 17;
pub const EVERYTHING_PLUGIN_PM_KILL: u32 = 18;

/// Version of the plugin interface this binding speaks.
pub const EVERYTHING_PLUGIN_VERSION: usize = 1;

/// Window messages that an options page's window procedure forwards.
pub const WM_MOVE: u32 = 0x0003;
pub const WM_SIZE: u32 = 0x0005;
pub const WM_CLOSE: u32 = 0x0010;
pub const WM_CREATE: u32 = 0x0001;
pub const WM_PARENTNOTIFY: u32 = 0x0210;
pub const WM_CTLCOLORDLG: u32 = 0x0136;

} // verus!
