//! The portable values that the clipboard is read into and written from, and
//! the clipboard itself, whichever operating system it belongs to.
use crate::macos::{MacOSCC, MacOSView, PasteType};
use crate::monitor::{
    flag_reports_change, next_state, notified, polled, reports_change, FlagState, MonitorState,
};
use crate::windows::{WindowsCC, WindowsView};
use vstd::prelude::*;

verus! {

/// One piece of clipboard content in portable form.
#[derive(Debug, Clone, PartialEq, Eq)]
pub enum ClipboardItem {
    Html(String),
    Text(String),
    UnicodeText(String),
    Rtf(String),
    Rtfd(String),
    Url(String),
    FilePath(String),
    Png(Vec<u8>),
    Tiff(Vec<u8>),
    Pdf(Vec<u8>),
    RawBytes(Vec<i8>),
}

/// A `ClipboardItem` as a mathematical value: its kind and its payload.
pub enum ItemView {
    Html(Seq<char>),
    Text(Seq<char>),
    UnicodeText(Seq<char>),
    Rtf(Seq<char>),
    Rtfd(Seq<char>),
    Url(Seq<char>),
    FilePath(Seq<char>),
    Png(Seq<u8>),
    Tiff(Seq<u8>),
    Pdf(Seq<u8>),
    RawBytes(Seq<i8>),
}

impl View for ClipboardItem {
    type V = ItemView;

    open spec fn view(&self) -> ItemView {
        match self {
            ClipboardItem::Html(s) => ItemView::Html(s@),
            ClipboardItem::Text(s) => ItemView::Text(s@),
            ClipboardItem::UnicodeText(s) => ItemView::UnicodeText(s@),
            ClipboardItem::Rtf(s) => ItemView::Rtf(s@),
            ClipboardItem::Rtfd(s) => ItemView::Rtfd(s@),
            ClipboardItem::Url(s) => ItemView::Url(s@),
            ClipboardItem::FilePath(s) => ItemView::FilePath(s@),
            ClipboardItem::Png(b) => ItemView::Png(b@),
            ClipboardItem::Tiff(b) => ItemView::Tiff(b@),
            ClipboardItem::Pdf(b) => ItemView::Pdf(b@),
            ClipboardItem::RawBytes(b) => ItemView::RawBytes(b@),
        }
    }
}

impl DeepView for ClipboardItem {
    type V = ItemView;

    open spec fn deep_view(&self) -> ItemView {
        self.view()
    }
}

/// Why a write did not take place.
#[derive(Debug, Clone, Copy, PartialEq, Eq, Structural)]
pub enum WriteError {
    /// The item is of a kind that cannot be written.
    Unsupported,
    /// The clipboard could not be claimed for writing.
    Platform,
}

/// The text of an item that can be written, `None` for every other kind.
pub open spec fn writable_text(item: ItemView) -> Option<Seq<char>> {
    match item {
        ItemView::Text(s) => Some(s),
        ItemView::UnicodeText(s) => Some(s),
        _ => None,
    }
}

/// How a write of `item` ends: refused as `Unsupported` for every kind but
/// plain and Unicode text, refused as `Platform` by a clipboard that is not
/// open, accepted otherwise.
pub open spec fn write_outcome(open: bool, item: ItemView) -> Result<(), WriteError> {
    if writable_text(item) is None {
        Err(WriteError::Unsupported)
    } else if !open {
        Err(WriteError::Platform)
    } else {
        Ok(())
    }
}

/// What the host found when it prepared the operating system's side of the
/// clipboard.
#[derive(Debug, Clone, Copy, PartialEq, Eq)]
pub enum Host {
    /// Windows, with the outcome of setting up the listener window: the atom
    /// of its window class and its handle, each 0 where that step failed.
    Windows { class_atom: u16, window: isize },
    /// macOS.
    MacOS,
    /// Any other operating system.
    Other,
}

/// The clipboard of the operating system that the process runs on.
#[derive(Debug, PartialEq, Clone)]
pub enum Clipboard {
    Windows(WindowsCC),
    MacOS(MacOSCC),
}

/// A `Clipboard` as a mathematical value.
pub enum ClipboardView {
    Windows(WindowsView),
    MacOS(MacOSView),
}

impl View for Clipboard {
    type V = ClipboardView;

    open spec fn view(&self) -> ClipboardView {
        match self {
            Clipboard::Windows(cc) => ClipboardView::Windows(cc@),
            Clipboard::MacOS(cc) => ClipboardView::MacOS(cc@),
        }
    }
}

/// The clipboard that construction gives for `host`, or the message with
/// which it fails: on Windows where the listener window could not be set up,
/// and on every system but Windows and macOS.
pub open spec fn constructed(host: Host) -> Result<ClipboardView, Seq<char>> {
    match host {
        Host::Windows { class_atom, window } => if class_atom == 0 {
            Err("Failed to create Window class"@)
        } else if window == 0 {
            Err("Window handle could not be created"@)
        } else {
            Ok(
                ClipboardView::Windows(
                    WindowsView {
                        window,
                        formats: Some(Seq::empty()),
                        monitor: FlagState { initialized: false, pending: false },
                    },
                ),
            )
        },
        Host::MacOS => Ok(
            ClipboardView::MacOS(
                MacOSView {
                    types: Some(Seq::empty()),
                    preferred: None,
                    change_count: None,
                    monitor: MonitorState::Uninitialized,
                },
            ),
        ),
        Host::Other => Err("Does not support this OS"@),
    }
}

/// Whether the clipboard can be read and written at the moment.
pub open spec fn is_open(clipboard: ClipboardView) -> bool {
    match clipboard {
        ClipboardView::Windows(w) => w.formats is Some,
        ClipboardView::MacOS(m) => m.types is Some,
    }
}

/// The single item that a read gives.
pub open spec fn best_item(clipboard: ClipboardView) -> Option<ItemView> {
    match clipboard {
        ClipboardView::Windows(w) => crate::windows::best_item(w.formats),
        ClipboardView::MacOS(m) => crate::macos::best_item(m.types, m.preferred),
    }
}

/// All items that a read gives; `None` only where the clipboard is closed.
pub open spec fn all_items(clipboard: ClipboardView) -> Option<Seq<ItemView>> {
    match clipboard {
        ClipboardView::Windows(w) => crate::windows::all_items(w.formats),
        ClipboardView::MacOS(m) => crate::macos::all_items(m.types),
    }
}

/// The number of formats on offer.
pub open spec fn number_of_formats(clipboard: ClipboardView) -> int {
    match clipboard {
        ClipboardView::Windows(w) => crate::windows::number_of_formats(w.formats),
        ClipboardView::MacOS(m) => crate::macos::number_of_formats(m.types),
    }
}

/// The clipboard after a write of `item`: with the item as its sole content
/// where the write is accepted, as it was where the write is refused.
pub open spec fn after_write(clipboard: ClipboardView, item: ItemView) -> ClipboardView {
    if write_outcome(is_open(clipboard), item) is Ok {
        match clipboard {
            ClipboardView::Windows(w) => ClipboardView::Windows(
                WindowsView { formats: crate::windows::written(item), ..w },
            ),
            ClipboardView::MacOS(m) => ClipboardView::MacOS(
                MacOSView {
                    types: crate::macos::written(item),
                    preferred: Some(PasteType::String.spec_name()),
                    ..m
                },
            ),
        }
    } else {
        clipboard
    }
}

/// Whether a poll reports a change.
pub open spec fn poll_reports_change(clipboard: ClipboardView) -> bool {
    match clipboard {
        ClipboardView::Windows(w) => flag_reports_change(w.monitor),
        ClipboardView::MacOS(m) => reports_change(m.monitor, m.change_count),
    }
}

/// The clipboard after a poll.
pub open spec fn after_poll(clipboard: ClipboardView) -> ClipboardView {
    match clipboard {
        ClipboardView::Windows(w) => ClipboardView::Windows(
            WindowsView { monitor: polled(w.monitor), ..w },
        ),
        ClipboardView::MacOS(m) => ClipboardView::MacOS(
            MacOSView { monitor: next_state(m.monitor, m.change_count), ..m },
        ),
    }
}

impl Clipboard {
    /// Makes the clipboard for the system that `host` describes. Fails on
    /// Windows where the listener window could not be set up, and on every
    /// system but Windows and macOS.
    pub fn new(host: Host) -> (clipboard: Result<Self, &'static str>)
        ensures
            match clipboard {
                Ok(c) => constructed(host) == Ok::<ClipboardView, Seq<char>>(c@),
                Err(message) => constructed(host) == Err::<ClipboardView, Seq<char>>(message@),
            },
    {
        match host {
            Host::Windows { class_atom, window } => match WindowsCC::new(class_atom, window) {
                Ok(cc) => Ok(Clipboard::Windows(cc)),
                Err(message) => Err(message),
            },
            Host::MacOS => Ok(Clipboard::MacOS(MacOSCC::new())),
            Host::Other => Err("Does not support this OS"),
        }
    }

    /// Reads the single best item.
    pub fn get_item(&self) -> (item: Option<ClipboardItem>)
        ensures
            item.deep_view() == best_item(self@),
    {
        match self {
            Clipboard::Windows(cc) => cc.get_clipboard_item(),
            Clipboard::MacOS(cc) => cc.get_clipboard_item(),
        }
    }

    /// Reads every item that the clipboard holds.
    pub fn get_items(&self) -> (items: Option<Vec<ClipboardItem>>)
        ensures
            items.deep_view() == all_items(self@),
    {
        match self {
            Clipboard::Windows(cc) => cc.get_clipboard_items(),
            Clipboard::MacOS(cc) => cc.get_clipboard_items(),
        }
    }

    /// Writes `item`, replacing all that the clipboard held. A refused write
    /// leaves the clipboard as it was.
    pub fn set_item(&mut self, item: ClipboardItem) -> (result: Result<(), WriteError>)
        ensures
            result == write_outcome(is_open(old(self)@), item@),
            final(self)@ == after_write(old(self)@, item@),
    {
        match self {
            Clipboard::Windows(cc) => cc.set_clipboard_item(item),
            Clipboard::MacOS(cc) => cc.set_clipboard_item(item),
        }
    }

    /// The number of formats on offer.
    pub fn number_of_formats(&self) -> (count: i32)
        ensures
            count == number_of_formats(self@),
    {
        match self {
            Clipboard::Windows(cc) => cc.get_number_of_formats(),
            Clipboard::MacOS(cc) => cc.get_number_of_formats(),
        }
    }

    /// Polls for a change of the clipboard since the poll before.
    pub fn has_changed(&mut self) -> (changed: bool)
        ensures
            changed == poll_reports_change(old(self)@),
            final(self)@ == after_poll(old(self)@),
    {
        match self {
            Clipboard::Windows(cc) => cc.has_clipboard_changed(),
            Clipboard::MacOS(cc) => cc.has_clipboard_changed(),
        }
    }
}

/// Whether the clipboard's monitor has polled before.
pub open spec fn has_polled(clipboard: ClipboardView) -> bool {
    match clipboard {
        ClipboardView::Windows(w) => w.monitor.initialized,
        ClipboardView::MacOS(m) => m.monitor is Tracking,
    }
}

/// A read is decided by the clipboard alone: two reads with no write between
/// them give the same item.
pub proof fn lemma_read_repeatable(
    clipboard: ClipboardView,
    first: Option<ItemView>,
    second: Option<ItemView>,
)
    requires
        first == best_item(clipboard),
        second == best_item(clipboard),
    ensures
        first == second,
{
}

/// Unicode text that was written to an open clipboard is what the next read
/// gives, character for character. On Windows this holds of text without the
/// character U+0000, which would end the zero-terminated buffer early.
pub proof fn lemma_write_read_round_trip(clipboard: ClipboardView, text: Seq<char>)
    requires
        is_open(clipboard),
        clipboard is Windows ==> !text.contains('\0'),
    ensures
        write_outcome(is_open(clipboard), ItemView::UnicodeText(text)) is Ok,
        best_item(after_write(clipboard, ItemView::UnicodeText(text))) == Some(
            ItemView::UnicodeText(text),
        ),
        all_items(after_write(clipboard, ItemView::UnicodeText(text))) == Some(
            seq![ItemView::UnicodeText(text)],
        ),
{
    match clipboard {
        ClipboardView::Windows(_) => {
            crate::windows::lemma_write_read_round_trip(ItemView::UnicodeText(text));
        },
        ClipboardView::MacOS(_) => {
            crate::macos::lemma_write_read_round_trip(ItemView::UnicodeText(text));
        },
    }
}

/// Plain text that was written to an open clipboard is read back with the
/// same characters: as plain text on Windows (where the text must not hold
/// the character U+0000), as Unicode text on macOS, whose pasteboard has one
/// type for both.
pub proof fn lemma_write_read_plain_text(clipboard: ClipboardView, text: Seq<char>)
    requires
        is_open(clipboard),
        clipboard is Windows ==> !text.contains('\0'),
    ensures
        best_item(after_write(clipboard, ItemView::Text(text))) == Some(
            if clipboard is Windows {
                ItemView::Text(text)
            } else {
                ItemView::UnicodeText(text)
            },
        ),
{
    match clipboard {
        ClipboardView::Windows(_) => {
            crate::windows::lemma_write_read_round_trip(ItemView::Text(text));
        },
        ClipboardView::MacOS(_) => {
            crate::macos::lemma_write_read_round_trip(ItemView::Text(text));
        },
    }
}

/// A write of any kind but plain and Unicode text is refused as `Unsupported`
/// and leaves the clipboard as it was.
pub proof fn lemma_unsupported_write_refused(clipboard: ClipboardView, item: ItemView)
    requires
        !(item is Text),
        !(item is UnicodeText),
    ensures
        write_outcome(is_open(clipboard), item) == Err::<(), WriteError>(WriteError::Unsupported),
        after_write(clipboard, item) == clipboard,
{
}

/// A clipboard as it is constructed has not polled.
pub proof fn lemma_constructed_has_not_polled(host: Host)
    requires
        constructed(host) is Ok,
    ensures
        !has_polled(constructed(host)->Ok_0),
{
}

/// The first poll of a clipboard reports no change, whatever happened to the
/// clipboard before it.
pub proof fn lemma_first_poll_reports_nothing(clipboard: ClipboardView)
    requires
        !has_polled(clipboard),
    ensures
        !poll_reports_change(clipboard),
{
}

/// A poll that follows another with nothing in between reports no change.
pub proof fn lemma_second_poll_reports_nothing(clipboard: ClipboardView)
    ensures
        !poll_reports_change(after_poll(clipboard)),
{
}

/// Whether `after` is what `before` becomes when the clipboard is written to
/// from outside and the host passes on what the system then reports: on
/// Windows an update notification, on macOS a change count that was read
/// before and now differs. The content may be any.
pub open spec fn externally_changed(before: ClipboardView, after: ClipboardView) -> bool {
    match (before, after) {
        (ClipboardView::Windows(b), ClipboardView::Windows(a)) => a.monitor == notified(b.monitor),
        (ClipboardView::MacOS(b), ClipboardView::MacOS(a)) => {
            &&& a.monitor == b.monitor
            &&& b.change_count is Some
            &&& a.change_count is Some
            &&& a.change_count != b.change_count
        },
        _ => false,
    }
}

/// One outside write between two polls is reported by the second of them,
/// and not again by a third poll that follows with nothing in between.
pub proof fn lemma_change_reported_once(start: ClipboardView, changed: ClipboardView)
    requires
        externally_changed(after_poll(start), changed),
    ensures
        poll_reports_change(changed),
        !poll_reports_change(after_poll(changed)),
{
}

} // verus!
