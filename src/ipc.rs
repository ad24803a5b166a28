//! Locating the host's IPC window among the windows of the calling thread.
use vstd::prelude::*;
use vstd::string::*;

verus! {

/// Every class name of a host IPC window starts with these characters.
pub const IPC_CLASS_PREFIX: &'static str = "EVERYTHING_TASKBAR_NOTIFICATION";

/// A named host instance appends `_(<name>)` to the class prefix.
pub const INSTANCE_NAME_OPENING: &'static str = "EVERYTHING_TASKBAR_NOTIFICATION_(";

/// The window message of IPC requests to the host (`WM_USER`).
pub const EVERYTHING_WM_IPC: u32 = 0x0400;

/// IPC requests for the parts of the host's version, in order.
pub const EVERYTHING_IPC_GET_MAJOR_VERSION: u32 = 0;
pub const EVERYTHING_IPC_GET_MINOR_VERSION: u32 = 1;
pub const EVERYTHING_IPC_GET_REVISION: u32 = 2;
pub const EVERYTHING_IPC_GET_BUILD_NUMBER: u32 = 3;

/// What UTF-16 decoding makes of `units`: `None` where they are not valid UTF-16.
pub uninterp spec fn utf16_decoding(units: Seq<u16>) -> Option<Seq<char>>;

pub open spec fn is_surrogate(unit: u16) -> bool {
    0xD800 <= unit && unit <= 0xDFFF
}

/// `units` hold no surrogate, so each one stands for a character alone.
pub open spec fn free_of_surrogates(units: Seq<u16>) -> bool {
    forall|i: int| 0 <= i < units.len() ==> !is_surrogate(#[trigger] units[i])
}

/// `text` has one character per unit, each of the unit's value.
pub open spec fn spells(units: Seq<u16>, text: Seq<char>) -> bool {
    &&& units.len() == text.len()
    &&& forall|i: int| 0 <= i < units.len() ==> units[i] as u32 == text[i] as u32
}

/// Relies on widestring's `U16Str::to_string`: it decodes UTF-16, fails on an
/// unpaired surrogate, and turns every other unit into the char of that value.
#[verifier::external_body]
fn decode_utf16(units: &[u16]) -> (r: Option<String>)
    ensures
        match r {
            Some(s) => utf16_decoding(units@) == Some(s@),
            None => utf16_decoding(units@) is None,
        },
        free_of_surrogates(units@) ==> {
            &&& r is Some
            &&& spells(units@, r.unwrap()@)
        },
{
    widestring::U16Str::from_slice(units).to_string().ok()
}

/// `units` begin with the characters of `prefix`, compared by value.
pub open spec fn starts_with_chars(units: Seq<u16>, prefix: Seq<char>) -> bool {
    &&& prefix.len() <= units.len()
    &&& forall|i: int| 0 <= i < prefix.len() ==> units[i] as u32 == prefix[i] as u32
}

/// A window of the calling thread, as the enumeration reports it.
pub struct ThreadWindow {
    pub hwnd: usize,
    /// The raw UTF-16 class name, without a terminator.
    pub class_name: Vec<u16>,
}

/// The model of a located IPC window.
pub struct IpcWindowView {
    pub hwnd: usize,
    pub class_name: Seq<char>,
}

/// A window of the host that answers IPC requests.
#[derive(Debug)]
pub struct IpcWindow {
    hwnd: usize,
    class_name: String,
}

impl View for IpcWindow {
    type V = IpcWindowView;

    closed spec fn view(&self) -> IpcWindowView {
        IpcWindowView { hwnd: self.hwnd, class_name: self.class_name@ }
    }
}

/// The enumeration stops at a window whose class name has the IPC prefix and
/// decodes; one that does not decode is passed over.
pub open spec fn is_ipc_class(class_name: Seq<u16>) -> bool {
    &&& starts_with_chars(class_name, IPC_CLASS_PREFIX@)
    &&& utf16_decoding(class_name) is Some
}

pub open spec fn ipc_window_of(hwnd: usize, class_name: Seq<u16>) -> IpcWindowView {
    IpcWindowView { hwnd, class_name: utf16_decoding(class_name).unwrap() }
}

/// The first IPC window of an enumeration, in its order.
pub open spec fn first_ipc_window(ws: Seq<ThreadWindow>) -> Option<IpcWindowView>
    decreases ws.len(),
{
    if ws.len() == 0 {
        None
    } else if is_ipc_class(ws[0].class_name@) {
        Some(ipc_window_of(ws[0].hwnd, ws[0].class_name@))
    } else {
        first_ipc_window(ws.drop_first())
    }
}

/// The instance name held between the opening and a closing `)` at the end.
pub open spec fn instance_name_of(class_name: Seq<char>) -> Option<Seq<char>> {
    let p = INSTANCE_NAME_OPENING@;
    if p.len() < class_name.len() && class_name.subrange(0, p.len() as int) == p
        && class_name.last() == ')' {
        Some(class_name.subrange(p.len() as int, class_name.len() - 1))
    } else {
        None
    }
}

/// The first window of an enumeration whose class name has the IPC prefix.
pub open spec fn first_prefixed(ws: Seq<ThreadWindow>) -> Option<ThreadWindow>
    decreases ws.len(),
{
    if ws.len() == 0 {
        None
    } else if starts_with_chars(ws[0].class_name@, IPC_CLASS_PREFIX@) {
        Some(ws[0])
    } else {
        first_prefixed(ws.drop_first())
    }
}

/// What is known of the located window where no class name holds a
/// surrogate: it is the first with the prefix, its class name spelled out.
pub open spec fn found_plain(r: Option<IpcWindowView>, ws: Seq<ThreadWindow>) -> bool {
    match first_prefixed(ws) {
        None => r is None,
        Some(w) => r is Some && r.unwrap().hwnd == w.hwnd && spells(
            w.class_name@,
            r.unwrap().class_name,
        ),
    }
}

pub open spec fn view_of_found(r: Option<IpcWindow>) -> Option<IpcWindowView> {
    match r {
        Some(w) => Some(w@),
        None => None,
    }
}

/// Whether the class name begins with the IPC prefix.
pub fn has_ipc_class_prefix(class_name: &[u16]) -> (r: bool)
    ensures
        r == starts_with_chars(class_name@, IPC_CLASS_PREFIX@),
{
    let prefix = IPC_CLASS_PREFIX;
    let n = prefix.unicode_len();
    if class_name.len() < n {
        return false;
    }
    let mut i: usize = 0;
    while i < n
        invariant
            n == prefix@.len(),
            prefix@ == IPC_CLASS_PREFIX@,
            n <= class_name@.len(),
            i <= n,
            forall|k: int| 0 <= k < i ==> class_name@[k] as u32 == prefix@[k] as u32,
        decreases n - i,
    {
        if class_name[i] as u32 != prefix.get_char(i) as u32 {
            return false;
        }
        i = i + 1;
    }
    true
}

/// One step of the enumeration of the thread's windows: records the window
/// in `found` and returns `false` (stop) when it is the IPC window, else
/// leaves `found` alone and returns `true` (go on).
pub fn enum_windows_proc(found: &mut Option<IpcWindow>, hwnd: usize, class_name: &[u16]) -> (more:
    bool)
    ensures
        more == !is_ipc_class(class_name@),
        !more ==> view_of_found(*final(found)) == Some(ipc_window_of(hwnd, class_name@)),
        starts_with_chars(class_name@, IPC_CLASS_PREFIX@) && free_of_surrogates(class_name@) ==> {
            &&& !more
            &&& spells(class_name@, ipc_window_of(hwnd, class_name@).class_name)
        },
        more ==> *final(found) == *old(found),
{
    if has_ipc_class_prefix(class_name) {
        match decode_utf16(class_name) {
            Some(name) => {
                *found = Some(IpcWindow { hwnd, class_name: name });
                false
            },
            None => true,
        }
    } else {
        true
    }
}

impl IpcWindow {
    /// The first IPC window of `windows`, in enumeration order.
    pub fn find(windows: &Vec<ThreadWindow>) -> (r: Option<IpcWindow>)
        ensures
            view_of_found(r) == first_ipc_window(windows@),
            (forall|j: int|
                0 <= j < windows@.len() ==> free_of_surrogates(#[trigger] windows@[j].class_name@))
                ==> found_plain(view_of_found(r), windows@),
    {
        let mut found: Option<IpcWindow> = None;
        let mut i: usize = 0;
        assert(windows@.subrange(0, windows@.len() as int) =~= windows@);
        while i < windows.len()
            invariant
                i <= windows@.len(),
                found is None,
                first_ipc_window(windows@) == first_ipc_window(windows@.subrange(i as int, windows@.len() as int)),
                first_prefixed(windows@) == first_prefixed(windows@.subrange(i as int, windows@.len() as int))
                    || !(forall|j: int|
                    0 <= j < windows@.len() ==> free_of_surrogates(#[trigger] windows@[j].class_name@)),
            decreases windows@.len() - i,
        {
            let w = &windows[i];
            let ghost rest = windows@.subrange(i as int, windows@.len() as int);
            assert(rest.drop_first() =~= windows@.subrange(i + 1, windows@.len() as int));
            assert(rest[0] == windows@[i as int]);
            let more = enum_windows_proc(&mut found, w.hwnd, w.class_name.as_slice());
            if !more {
                return found;
            }
            i = i + 1;
        }
        assert(windows@.subrange(i as int, windows@.len() as int) =~= Seq::<ThreadWindow>::empty());
        found
    }

    pub fn hwnd(&self) -> (r: usize)
        ensures
            r == self@.hwnd,
    {
        self.hwnd
    }

    pub fn class_name(&self) -> (r: &str)
        ensures
            r@ == self@.class_name,
    {
        self.class_name.as_str()
    }

    /// The name of the host instance, e.g. `1.5a` of
    /// `EVERYTHING_TASKBAR_NOTIFICATION_(1.5a)`.
    pub fn instance_name(&self) -> (r: Option<&str>)
        ensures
            match r {
                Some(s) => instance_name_of(self@.class_name) == Some(s@),
                None => instance_name_of(self@.class_name) is None,
            },
    {
        let c = self.class_name.as_str();
        let p = INSTANCE_NAME_OPENING;
        let n = c.unicode_len();
        let m = p.unicode_len();
        if n <= m {
            return None;
        }
        let mut i: usize = 0;
        while i < m
            invariant
                m == p@.len(),
                p@ == INSTANCE_NAME_OPENING@,
                n == c@.len(),
                c@ == self@.class_name,
                m < n,
                i <= m,
                forall|k: int| 0 <= k < i ==> c@[k] == p@[k],
            decreases m - i,
        {
            if c.get_char(i) != p.get_char(i) {
                assert(c@.subrange(0, m as int)[i as int] != p@[i as int]);
                return None;
            }
            i = i + 1;
        }
        assert(c@.subrange(0, m as int) =~= p@);
        if c.get_char(n - 1) != ')' {
            return None;
        }
        Some(c.substring_char(m, n - 1))
    }
}

/// Version of a running host, as its IPC window reports it.
#[derive(Clone, Copy, Debug, PartialEq, Eq, Structural)]
pub struct Version {
    pub major: u32,
    pub minor: u32,
    pub revision: u32,
    pub build: u32,
}

impl Version {
    pub fn new(major: u32, minor: u32, revision: u32, build: u32) -> (r: Self)
        ensures
            r == (Version { major, minor, revision, build }),
    {
        Version { major, minor, revision, build }
    }

    /// The version from the host window's answers to the four version
    /// queries, each answer keeping its low 32 bits.
    pub fn from_replies(major: isize, minor: isize, revision: isize, build: isize) -> (r: Self)
        ensures
            r == (Version {
                major: major as u32,
                minor: minor as u32,
                revision: revision as u32,
                build: build as u32,
            }),
    {
        Version::new(major as u32, minor as u32, revision as u32, build as u32)
    }
}

} // verus!
