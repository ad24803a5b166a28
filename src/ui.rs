//! Options pages: the slots the host refers to by index, and what is sent to
//! the worker that runs a loaded page.
use vstd::prelude::*;

use vstd::string::*;

verus! {

/// Work that the options window owes on its next window message.
#[derive(Clone, Copy, Debug, PartialEq, Eq, Structural)]
pub enum OptionsMessage {
    Noop,
    EnableApply(bool),
}

impl Default for OptionsMessage {
    fn default() -> (r: Self)
        ensures
            r == OptionsMessage::Noop,
    {
        OptionsMessage::Noop
    }
}

/// A command for the worker that runs a loaded page. A save request does not
/// travel as a command: it carries the configuration and a reply channel.
#[derive(Clone, Copy, Debug, PartialEq, Eq, Structural)]
pub enum PageCommand {
    /// Resize the page's window to width and height, keeping its origin.
    Size(i32, i32),
    /// Close the page's window, which ends its event loop.
    Kill,
}

/// The low 16 bits of a window message parameter.
pub open spec fn low_word(l_param: isize) -> i32 {
    (l_param & 0xFFFF) as i32
}

/// The bits of a window message parameter above the low 16.
pub open spec fn high_word(l_param: isize) -> i32 {
    (l_param >> 16) as i32
}

impl PageCommand {
    /// The resize that a `WM_SIZE` with this `lParam` asks for.
    pub fn size_from_lparam(l_param: isize) -> (r: Self)
        ensures
            r == PageCommand::Size(low_word(l_param), high_word(l_param)),
    {
        PageCommand::Size((l_param & 0xFFFF) as i32, (l_param >> 16) as i32)
    }
}

/// The model of an options page slot.
pub struct PageView<H> {
    pub name: Seq<char>,
    pub handle: Option<H>,
}

/// An options page as registered with the host: its display name and the
/// handle of the worker while the page is loaded.
pub struct OptionsPage<H> {
    name: String,
    handle: Option<H>,
}

impl<H> View for OptionsPage<H> {
    type V = PageView<H>;

    closed spec fn view(&self) -> PageView<H> {
        PageView { name: self.name@, handle: self.handle }
    }
}

impl<H> OptionsPage<H> {
    /// A page named `name`, not loaded.
    pub fn new(name: &str) -> (r: Self)
        ensures
            r@ == (PageView::<H> { name: name@, handle: None }),
    {
        OptionsPage { name: String::from_str(name), handle: None }
    }

    pub fn name(&self) -> (r: &str)
        ensures
            r@ == self@.name,
    {
        self.name.as_str()
    }

    /// The handle of the page's worker, while the page is loaded.
    pub fn handle(&self) -> (r: &Option<H>)
        ensures
            *r == self@.handle,
    {
        &self.handle
    }

    /// Puts a handle into the slot and hands back the one it held.
    pub fn replace_handle(&mut self, handle: Option<H>) -> (r: Option<H>)
        ensures
            r == old(self)@.handle,
            final(self)@ == (PageView { name: old(self)@.name, handle }),
    {
        let previous = self.handle.take();
        self.handle = handle;
        previous
    }
}

} // verus!
