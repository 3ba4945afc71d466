//! The Windows side: native clipboard format codes, their recognition, and
//! the clipboard as Windows presents it.
use crate::models::{writable_text, write_outcome, ClipboardItem, ItemView, WriteError};
use crate::monitor::{flag_reports_change, notified, polled, ChangeFlag, FlagState};
use crate::text::{
    c_bytes, c_text, decode_text, decode_wide_text, encode_text, encode_wide_text,
    lemma_c_text_round_trip, lemma_wide_text_round_trip, wide_bytes, wide_text,
};
use vstd::prelude::*;
use vstd::utf8::is_ascii_chars_encode_utf8;

verus! {

/// The standard clipboard formats of Win32, in ascending order of their
/// numeric codes (so the derived ordering is the ordering of the codes).
#[allow(non_camel_case_types)]
#[derive(Debug, Clone, Copy, PartialEq, Eq, Structural, PartialOrd, Ord)]
pub enum ClipboardFormat {
    TEXT,
    BITMAP,
    METAFILEPICT,
    SYLK,
    DIF,
    TIFF,
    OEMTEXT,
    DIB,
    PALETTE,
    PENDATA,
    RIFF,
    WAVE,
    UNICODETEXT,
    ENHMETAFILE,
    HDROP,
    LOCALE,
    DIBV5,
    OWNERDISPLAY,
    DSPTEXT,
    DSPBITMAP,
    DSPMETAFILEPICT,
    DSPENHMETAFILE,
    PRIVATEFIRST,
    PRIVATELAST,
    GDIOBJFIRST,
    GDIOBJLAST,
}

impl ClipboardFormat {
    /// The numeric code under which the operating system knows this format.
    pub open spec fn spec_code(self) -> u16 {
        match self {
            ClipboardFormat::TEXT => 1,
            ClipboardFormat::BITMAP => 2,
            ClipboardFormat::METAFILEPICT => 3,
            ClipboardFormat::SYLK => 4,
            ClipboardFormat::DIF => 5,
            ClipboardFormat::TIFF => 6,
            ClipboardFormat::OEMTEXT => 7,
            ClipboardFormat::DIB => 8,
            ClipboardFormat::PALETTE => 9,
            ClipboardFormat::PENDATA => 10,
            ClipboardFormat::RIFF => 11,
            ClipboardFormat::WAVE => 12,
            ClipboardFormat::UNICODETEXT => 13,
            ClipboardFormat::ENHMETAFILE => 14,
            ClipboardFormat::HDROP => 15,
            ClipboardFormat::LOCALE => 16,
            ClipboardFormat::DIBV5 => 17,
            ClipboardFormat::OWNERDISPLAY => 0x80,
            ClipboardFormat::DSPTEXT => 0x81,
            ClipboardFormat::DSPBITMAP => 0x82,
            ClipboardFormat::DSPMETAFILEPICT => 0x83,
            ClipboardFormat::DSPENHMETAFILE => 0x8E,
            ClipboardFormat::PRIVATEFIRST => 0x200,
            ClipboardFormat::PRIVATELAST => 0x2FF,
            ClipboardFormat::GDIOBJFIRST => 0x300,
            ClipboardFormat::GDIOBJLAST => 0x3FF,
        }
    }

    /// The numeric code of this format.
    #[verifier::when_used_as_spec(spec_code)]
    pub fn code(self) -> (code: u16)
        ensures
            code == self.spec_code(),
    {
        match self {
            ClipboardFormat::TEXT => 1,
            ClipboardFormat::BITMAP => 2,
            ClipboardFormat::METAFILEPICT => 3,
            ClipboardFormat::SYLK => 4,
            ClipboardFormat::DIF => 5,
            ClipboardFormat::TIFF => 6,
            ClipboardFormat::OEMTEXT => 7,
            ClipboardFormat::DIB => 8,
            ClipboardFormat::PALETTE => 9,
            ClipboardFormat::PENDATA => 10,
            ClipboardFormat::RIFF => 11,
            ClipboardFormat::WAVE => 12,
            ClipboardFormat::UNICODETEXT => 13,
            ClipboardFormat::ENHMETAFILE => 14,
            ClipboardFormat::HDROP => 15,
            ClipboardFormat::LOCALE => 16,
            ClipboardFormat::DIBV5 => 17,
            ClipboardFormat::OWNERDISPLAY => 0x80,
            ClipboardFormat::DSPTEXT => 0x81,
            ClipboardFormat::DSPBITMAP => 0x82,
            ClipboardFormat::DSPMETAFILEPICT => 0x83,
            ClipboardFormat::DSPENHMETAFILE => 0x8E,
            ClipboardFormat::PRIVATEFIRST => 0x200,
            ClipboardFormat::PRIVATELAST => 0x2FF,
            ClipboardFormat::GDIOBJFIRST => 0x300,
            ClipboardFormat::GDIOBJLAST => 0x3FF,
        }
    }

    /// Whether the format holds text, which is what a read decodes.
    pub open spec fn spec_is_text(self) -> bool {
        self == ClipboardFormat::TEXT || self == ClipboardFormat::UNICODETEXT
    }

    /// Whether the format holds text, which is what a read decodes.
    #[verifier::when_used_as_spec(spec_is_text)]
    pub fn is_text(self) -> (text: bool)
        ensures
            text == self.spec_is_text(),
    {
        match self {
            ClipboardFormat::TEXT => true,
            ClipboardFormat::UNICODETEXT => true,
            _ => false,
        }
    }

    /// Recognises a native format code: the format whose code is `value`, or
    /// `None` when no standard format has that code.
    pub fn from_u16(value: u16) -> (format: Option<Self>)
        ensures
            format == format_of_code(value),
            match format {
                Some(f) => f.code() == value,
                None => forall|f: ClipboardFormat| f.code() != value,
            },
    {
        let format = match value {
            1 => Some(ClipboardFormat::TEXT),
            2 => Some(ClipboardFormat::BITMAP),
            3 => Some(ClipboardFormat::METAFILEPICT),
            4 => Some(ClipboardFormat::SYLK),
            5 => Some(ClipboardFormat::DIF),
            6 => Some(ClipboardFormat::TIFF),
            7 => Some(ClipboardFormat::OEMTEXT),
            8 => Some(ClipboardFormat::DIB),
            9 => Some(ClipboardFormat::PALETTE),
            10 => Some(ClipboardFormat::PENDATA),
            11 => Some(ClipboardFormat::RIFF),
            12 => Some(ClipboardFormat::WAVE),
            13 => Some(ClipboardFormat::UNICODETEXT),
            14 => Some(ClipboardFormat::ENHMETAFILE),
            15 => Some(ClipboardFormat::HDROP),
            16 => Some(ClipboardFormat::LOCALE),
            17 => Some(ClipboardFormat::DIBV5),
            0x80 => Some(ClipboardFormat::OWNERDISPLAY),
            0x81 => Some(ClipboardFormat::DSPTEXT),
            0x82 => Some(ClipboardFormat::DSPBITMAP),
            0x83 => Some(ClipboardFormat::DSPMETAFILEPICT),
            0x8E => Some(ClipboardFormat::DSPENHMETAFILE),
            0x200 => Some(ClipboardFormat::PRIVATEFIRST),
            0x2FF => Some(ClipboardFormat::PRIVATELAST),
            0x300 => Some(ClipboardFormat::GDIOBJFIRST),
            0x3FF => Some(ClipboardFormat::GDIOBJLAST),
            _ => None,
        };
        proof {
            if format is Some {
                lemma_format_of_code(format->0);
            }
        }
        format
    }
}

/// The format of the native code `code`, `None` where no standard format has
/// that code.
pub open spec fn format_of_code(code: u16) -> Option<ClipboardFormat> {
    if exists|f: ClipboardFormat| f.spec_code() == code {
        Some(choose|f: ClipboardFormat| f.spec_code() == code)
    } else {
        None
    }
}

/// No two formats share a code.
pub proof fn lemma_code_injective(a: ClipboardFormat, b: ClipboardFormat)
    requires
        a.spec_code() == b.spec_code(),
    ensures
        a == b,
{
}

/// Every format is the one that its own code resolves to.
pub proof fn lemma_format_of_code(format: ClipboardFormat)
    ensures
        format_of_code(format.spec_code()) == Some(format),
{
    let found = choose|f: ClipboardFormat| f.spec_code() == format.spec_code();
    lemma_code_injective(found, format);
}

/// The message by which Windows tells a listener that the clipboard was
/// updated.
pub const WM_CLIPBOARDUPDATE: u32 = 0x031D;

/// One format that the clipboard offers: its native code and, where the data
/// could be read, the bytes of its buffer.
#[derive(Debug, Clone, PartialEq, Eq)]
pub struct FormatData {
    pub format: u16,
    pub data: Option<Vec<u8>>,
}

/// A `FormatData` as a mathematical value.
pub struct FormatView {
    pub format: u16,
    pub data: Option<Seq<u8>>,
}

impl View for FormatData {
    type V = FormatView;

    open spec fn view(&self) -> FormatView {
        FormatView {
            format: self.format,
            data: match self.data {
                Some(bytes) => Some(bytes@),
                None => None,
            },
        }
    }
}

impl DeepView for FormatData {
    type V = FormatView;

    open spec fn deep_view(&self) -> FormatView {
        self.view()
    }
}

/// What reading the format `code` gives: the data of the first entry with that
/// code, `None` where there is no such entry or its data could not be read.
pub open spec fn format_data(formats: Seq<FormatView>, code: u16) -> Option<Seq<u8>>
    decreases formats.len(),
{
    if formats.len() == 0 {
        None
    } else if formats[0].format == code {
        formats[0].data
    } else {
        format_data(formats.drop_first(), code)
    }
}

/// `format_data` is decided by the first entry with the code.
pub proof fn lemma_format_data_first(formats: Seq<FormatView>, code: u16, n: int)
    requires
        0 <= n <= formats.len(),
        forall|j: int| 0 <= j < n ==> formats[j].format != code,
    ensures
        n == formats.len() ==> format_data(formats, code) is None,
        n < formats.len() && formats[n].format == code ==> format_data(formats, code)
            == formats[n].data,
    decreases n,
{
    if n > 0 {
        let rest = formats.drop_first();
        assert forall|j: int| 0 <= j < n - 1 implies rest[j].format != code by {
            assert(rest[j] == formats[j + 1]);
        }
        lemma_format_data_first(rest, code, n - 1);
    }
}

/// The item that an open clipboard gives for a recognised format: plain text
/// from a zero-terminated UTF-8 buffer, Unicode text from a zero-terminated
/// UTF-16 buffer, nothing for any other format.
pub open spec fn item_of_format(formats: Seq<FormatView>, format: ClipboardFormat) -> Option<
    ItemView,
> {
    match format {
        ClipboardFormat::TEXT => match format_data(formats, ClipboardFormat::TEXT.spec_code()) {
            Some(bytes) => match c_text(bytes) {
                Some(text) => Some(ItemView::Text(text)),
                None => None,
            },
            None => None,
        },
        ClipboardFormat::UNICODETEXT => match format_data(
            formats,
            ClipboardFormat::UNICODETEXT.spec_code(),
        ) {
            Some(bytes) => match wide_text(bytes) {
                Some(text) => Some(ItemView::UnicodeText(text)),
                None => None,
            },
            None => None,
        },
        _ => None,
    }
}

/// Only the text formats give an item.
pub proof fn lemma_items_come_from_text(formats: Seq<FormatView>, format: ClipboardFormat)
    requires
        item_of_format(formats, format) is Some,
    ensures
        format.is_text(),
{
}

/// The item that an open clipboard gives for a native format code.
pub open spec fn item_of_code(formats: Seq<FormatView>, code: u16) -> Option<ItemView> {
    match format_of_code(code) {
        Some(format) => item_of_format(formats, format),
        None => None,
    }
}

/// The items of the first `n` formats, in their order; a format that gives no
/// item is passed over.
pub open spec fn items_of(formats: Seq<FormatView>, n: int) -> Seq<ItemView>
    decreases n,
{
    if n <= 0 {
        Seq::empty()
    } else {
        let front = items_of(formats, n - 1);
        match item_of_code(formats, formats[n - 1].format) {
            Some(item) => front.push(item),
            None => front,
        }
    }
}

/// The single item that a read gives: that of the first format offered.
/// `None` where the clipboard is closed or empty, or the first format gives no
/// item.
pub open spec fn best_item(formats: Option<Seq<FormatView>>) -> Option<ItemView> {
    match formats {
        Some(f) => if f.len() > 0 {
            item_of_code(f, f[0].format)
        } else {
            None
        },
        None => None,
    }
}

/// All items that a read gives; `None` only where the clipboard is closed.
pub open spec fn all_items(formats: Option<Seq<FormatView>>) -> Option<Seq<ItemView>> {
    match formats {
        Some(f) => Some(items_of(f, f.len() as int)),
        None => None,
    }
}

/// What a write of `item` installs as the sole content of the clipboard;
/// `None` for the kinds that cannot be written.
pub open spec fn written(item: ItemView) -> Option<Seq<FormatView>> {
    match item {
        ItemView::Text(text) => Some(
            seq![
                FormatView {
                    format: ClipboardFormat::TEXT.spec_code(),
                    data: Some(c_bytes(text)),
                },
            ],
        ),
        ItemView::UnicodeText(text) => Some(
            seq![
                FormatView {
                    format: ClipboardFormat::UNICODETEXT.spec_code(),
                    data: Some(wide_bytes(text)),
                },
            ],
        ),
        _ => None,
    }
}

/// The number of formats that the clipboard offers, as far as an `i32` holds
/// it; 0 where the clipboard is closed.
pub open spec fn number_of_formats(formats: Option<Seq<FormatView>>) -> int {
    match formats {
        Some(f) => if f.len() <= i32::MAX {
            f.len() as int
        } else {
            i32::MAX as int
        },
        None => 0,
    }
}

/// The Windows clipboard as a value.
pub struct WindowsView {
    /// The handle of the message-only window that listens for updates.
    pub window: isize,
    /// The formats on offer, in the order in which Windows enumerates them;
    /// `None` while the clipboard cannot be opened.
    pub formats: Option<Seq<FormatView>>,
    /// The state of change detection.
    pub monitor: FlagState,
}

/// The Windows clipboard: the handle of its listener window, the content that
/// was last loaded from or written to it, and the state of change detection.
#[derive(Debug, Clone, PartialEq, Eq)]
pub struct WindowsCC {
    msg_only_hwnd: isize,
    formats: Option<Vec<FormatData>>,
    monitor: ChangeFlag,
}

impl View for WindowsCC {
    type V = WindowsView;

    closed spec fn view(&self) -> WindowsView {
        WindowsView {
            window: self.msg_only_hwnd,
            formats: self.formats.deep_view(),
            monitor: self.monitor@,
        }
    }
}

/// A lower-case hexadecimal digit.
pub open spec fn is_lower_hex(c: char) -> bool {
    ('0' <= c && c <= '9') || ('a' <= c && c <= 'f')
}

/// The hyphenated lower-case form of a random (version 4) UUID: 36
/// characters, hyphens after the groups of 8, 4, 4 and 4 digits, the version
/// digit 4 and a variant digit from 8 to b.
pub open spec fn is_uuid_text(s: Seq<char>) -> bool {
    &&& s.len() == 36
    &&& forall|i: int|
        0 <= i < 36 ==> if i == 8 || i == 13 || i == 18 || i == 23 {
            s[i] == '-'
        } else {
            is_lower_hex(#[trigger] s[i])
        }
    &&& s[14] == '4'
    &&& (s[19] == '8' || s[19] == '9' || s[19] == 'a' || s[19] == 'b')
}

/// A UUID in text form is ASCII without the character U+0000, so its
/// zero-terminated buffer has one byte for each character and the terminator.
pub proof fn lemma_uuid_text_is_plain(s: Seq<char>)
    requires
        is_uuid_text(s),
    ensures
        !s.contains('\0'),
        c_bytes(s).len() == 37,
{
    assert forall|i: int| 0 <= i < s.len() implies s[i] != '\0' && '\0' <= #[trigger] s[i]
        <= '\u{7f}' by {
        assert(i == 8 || i == 13 || i == 18 || i == 23 || is_lower_hex(s[i]));
    }
    is_ascii_chars_encode_utf8(s);
}

/// `Uuid::new_v4` of the uuid crate, written out by `to_string`: a random
/// identifier, of which only its form is known. The call draws on the
/// operating system's source of randomness and panics where that source
/// fails.
#[verifier::external_body]
fn random_uuid_text() -> (text: String)
    ensures
        is_uuid_text(text@),
{
    uuid::Uuid::new_v4().to_string()
}

impl WindowsCC {
    /// The name under which the listener window is created, as the
    /// zero-terminated buffer that creating a window takes: a fresh random
    /// UUID, so that no two listeners share a name.
    pub fn window_name() -> (name: Vec<u8>)
        ensures
            c_text(name@) matches Some(id) && is_uuid_text(id) && name@ == c_bytes(id),
            name@.len() == 37,
    {
        let id = random_uuid_text();
        proof {
            lemma_uuid_text_is_plain(id@);
            lemma_c_text_round_trip(id@);
        }
        encode_text(id.as_str())
    }

    /// Takes the outcome of setting up the listener window: the atom that
    /// registering the window class gave and the handle that creating the
    /// window gave, each 0 where that step failed. The clipboard starts out
    /// open and empty, and its monitor has not polled.
    pub fn new(class_atom: u16, msg_only_hwnd: isize) -> (clipboard: Result<Self, &'static str>)
        ensures
            match clipboard {
                Ok(cc) => {
                    &&& class_atom != 0
                    &&& msg_only_hwnd != 0
                    &&& cc@ == (WindowsView {
                        window: msg_only_hwnd,
                        formats: Some(Seq::empty()),
                        monitor: FlagState { initialized: false, pending: false },
                    })
                },
                Err(message) => if class_atom == 0 {
                    message@ == "Failed to create Window class"@
                } else {
                    msg_only_hwnd == 0 && message@ == "Window handle could not be created"@
                },
            },
    {
        if class_atom == 0 {
            return Err("Failed to create Window class");
        }
        if msg_only_hwnd == 0 {
            return Err("Window handle could not be created");
        }
        let clipboard = WindowsCC {
            msg_only_hwnd,
            formats: Some(Vec::new()),
            monitor: ChangeFlag::new(),
        };
        assert(clipboard@.formats->0 =~= Seq::empty());
        Ok(clipboard)
    }

    /// The handle of the listener window.
    pub fn window(&self) -> (handle: isize)
        ensures
            handle == self@.window,
    {
        self.msg_only_hwnd
    }

    /// Replaces what is known of the clipboard's content by what was just
    /// read from it: the formats in the order of their enumeration, or `None`
    /// where the clipboard could not be opened.
    pub fn load(&mut self, formats: Option<Vec<FormatData>>)
        ensures
            final(self)@ == (WindowsView { formats: formats.deep_view(), ..old(self)@ }),
    {
        self.formats = formats;
    }

    /// The content as it was last loaded or written.
    pub fn formats(&self) -> (formats: &Option<Vec<FormatData>>)
        ensures
            formats.deep_view() == self@.formats,
    {
        &self.formats
    }

    /// The raw data of the format `code`.
    fn get_clipboard_data(&self, code: u16) -> (data: Option<&Vec<u8>>)
        ensures
            match self@.formats {
                Some(f) => match data {
                    Some(bytes) => format_data(f, code) == Some(bytes@),
                    None => format_data(f, code) is None,
                },
                None => data is None,
            },
    {
        match &self.formats {
            None => None,
            Some(formats) => {
                let ghost f = self@.formats->0;
                let mut i: usize = 0;
                while i < formats.len()
                    invariant
                        i <= formats.len(),
                        self@.formats == Some(f),
                        f == formats.deep_view(),
                        forall|j: int| 0 <= j < i ==> f[j].format != code,
                    decreases formats.len() - i,
                {
                    if formats[i].format == code {
                        proof {
                            lemma_format_data_first(f, code, i as int);
                            assert(f[i as int] == formats@[i as int]@);
                        }
                        return match &formats[i].data {
                            Some(bytes) => Some(bytes),
                            None => None,
                        };
                    }
                    i += 1;
                }
                proof {
                    lemma_format_data_first(f, code, i as int);
                }
                None
            },
        }
    }

    /// Reads the plain-text format.
    fn get_text_from_clipboard(&self) -> (text: Option<String>)
        ensures
            match self@.formats {
                Some(f) => text.deep_view() == (match format_data(
                    f,
                    ClipboardFormat::TEXT.spec_code(),
                ) {
                    Some(bytes) => c_text(bytes),
                    None => None,
                }),
                None => text is None,
            },
    {
        match self.get_clipboard_data(ClipboardFormat::TEXT.code()) {
            Some(bytes) => decode_text(bytes),
            None => None,
        }
    }

    /// Reads the Unicode-text format.
    fn get_unicode_text_from_clipboard(&self) -> (text: Option<String>)
        ensures
            match self@.formats {
                Some(f) => text.deep_view() == (match format_data(
                    f,
                    ClipboardFormat::UNICODETEXT.spec_code(),
                ) {
                    Some(bytes) => wide_text(bytes),
                    None => None,
                }),
                None => text is None,
            },
    {
        match self.get_clipboard_data(ClipboardFormat::UNICODETEXT.code()) {
            Some(bytes) => decode_wide_text(bytes),
            None => None,
        }
    }

    /// The item that the clipboard gives for a recognised format.
    pub fn clipboard_format_as_clipboard_item(&self, format: ClipboardFormat) -> (item: Option<
        ClipboardItem,
    >)
        ensures
            match self@.formats {
                Some(f) => item.deep_view() == item_of_format(f, format),
                None => item is None,
            },
    {
        match format {
            ClipboardFormat::TEXT => match self.get_text_from_clipboard() {
                Some(text) => Some(ClipboardItem::Text(text)),
                None => None,
            },
            ClipboardFormat::UNICODETEXT => match self.get_unicode_text_from_clipboard() {
                Some(text) => Some(ClipboardItem::UnicodeText(text)),
                None => None,
            },
            _ => None,
        }
    }

    /// The item that the clipboard gives for a native format code.
    fn get_clipboard_item_with_format(&self, format: u16) -> (item: Option<ClipboardItem>)
        ensures
            match self@.formats {
                Some(f) => item.deep_view() == item_of_code(f, format),
                None => item is None,
            },
    {
        match ClipboardFormat::from_u16(format) {
            Some(recognised) => self.clipboard_format_as_clipboard_item(recognised),
            None => None,
        }
    }

    /// Reads every item that the clipboard holds, in the order of the formats.
    /// Formats that are not recognised or give no item are passed over; the
    /// result is `None` only where the clipboard could not be opened.
    pub fn get_clipboard_items(&self) -> (items: Option<Vec<ClipboardItem>>)
        ensures
            items.deep_view() == all_items(self@.formats),
    {
        match &self.formats {
            None => None,
            Some(formats) => {
                let ghost f = self@.formats->0;
                let mut result: Vec<ClipboardItem> = Vec::new();
                let mut i: usize = 0;
                assert(result.deep_view() =~= items_of(f, 0));
                while i < formats.len()
                    invariant
                        i <= formats.len(),
                        self@.formats == Some(f),
                        f == formats.deep_view(),
                        result.deep_view() == items_of(f, i as int),
                    decreases formats.len() - i,
                {
                    let ghost before = result.deep_view();
                    match self.get_clipboard_item_with_format(formats[i].format) {
                        Some(item) => {
                            result.push(item);
                            assert(result.deep_view() =~= before.push(item@));
                        },
                        None => {},
                    }
                    i += 1;
                }
                Some(result)
            },
        }
    }

    /// Reads the single best item: that of the first format on offer.
    pub fn get_clipboard_item(&self) -> (item: Option<ClipboardItem>)
        ensures
            item.deep_view() == best_item(self@.formats),
    {
        match &self.formats {
            None => None,
            Some(formats) => {
                if formats.len() == 0 {
                    None
                } else {
                    self.get_clipboard_item_with_format(formats[0].format)
                }
            },
        }
    }

    /// Installs `text` as the sole content, in the plain-text format.
    fn set_text_from_clipboard(&mut self, text: &str)
        ensures
            final(self)@ == (WindowsView {
                formats: written(ItemView::Text(text@)),
                ..old(self)@
            }),
    {
        let mut formats: Vec<FormatData> = Vec::new();
        formats.push(
            FormatData { format: ClipboardFormat::TEXT.code(), data: Some(encode_text(text)) },
        );
        self.formats = Some(formats);
        assert(self@.formats->0 =~= written(ItemView::Text(text@))->0);
    }

    /// Installs `text` as the sole content, in the Unicode-text format.
    fn set_unicode_text_from_clipboard(&mut self, text: &str)
        ensures
            final(self)@ == (WindowsView {
                formats: written(ItemView::UnicodeText(text@)),
                ..old(self)@
            }),
    {
        let mut formats: Vec<FormatData> = Vec::new();
        formats.push(
            FormatData {
                format: ClipboardFormat::UNICODETEXT.code(),
                data: Some(encode_wide_text(text)),
            },
        );
        self.formats = Some(formats);
        assert(self@.formats->0 =~= written(ItemView::UnicodeText(text@))->0);
    }

    /// Writes `item` to the clipboard, replacing all that it held. Only plain
    /// and Unicode text can be written: any other kind is refused as
    /// `Unsupported`. A closed clipboard refuses the write as `Platform`. A
    /// refused write leaves the content untouched.
    pub fn set_clipboard_item(&mut self, item: ClipboardItem) -> (result: Result<(), WriteError>)
        ensures
            result == write_outcome(old(self)@.formats is Some, item@),
            final(self)@ == if result is Ok {
                WindowsView { formats: written(item@), ..old(self)@ }
            } else {
                old(self)@
            },
    {
        match item {
            ClipboardItem::Text(text) => {
                if self.formats.is_none() {
                    return Err(WriteError::Platform);
                }
                self.set_text_from_clipboard(text.as_str());
                Ok(())
            },
            ClipboardItem::UnicodeText(text) => {
                if self.formats.is_none() {
                    return Err(WriteError::Platform);
                }
                self.set_unicode_text_from_clipboard(text.as_str());
                Ok(())
            },
            _ => Err(WriteError::Unsupported),
        }
    }

    /// The number of formats on offer.
    pub fn get_number_of_formats(&self) -> (count: i32)
        ensures
            count == number_of_formats(self@.formats),
    {
        match &self.formats {
            Some(formats) => {
                if formats.len() <= i32::MAX as usize {
                    formats.len() as i32
                } else {
                    i32::MAX
                }
            },
            None => 0,
        }
    }

    /// Polls for a change: reports whether an update was notified since the
    /// poll before, and consumes the notification. The first poll only takes
    /// the baseline and reports nothing.
    pub fn has_clipboard_changed(&mut self) -> (changed: bool)
        ensures
            changed == flag_reports_change(old(self)@.monitor),
            final(self)@ == (WindowsView { monitor: polled(old(self)@.monitor), ..old(self)@ }),
    {
        self.monitor.poll()
    }
}

/// Handles one message that the listener window received: a clipboard-update
/// message raises the change flag, every other message is passed over.
pub fn window_proc(clipboard: &mut WindowsCC, msg: u32)
    ensures
        final(clipboard)@ == (WindowsView {
            monitor: if msg == WM_CLIPBOARDUPDATE {
                notified(old(clipboard)@.monitor)
            } else {
                old(clipboard)@.monitor
            },
            ..old(clipboard)@
        }),
{
    if msg == WM_CLIPBOARDUPDATE {
        clipboard.monitor.notify();
    }
}

/// Text that was written is what the next read gives, in the kind in which
/// it was written, provided the text holds no character U+0000 (which would
/// end the zero-terminated buffer early).
pub proof fn lemma_write_read_round_trip(item: ItemView)
    requires
        writable_text(item) matches Some(text) && !text.contains('\0'),
    ensures
        written(item) is Some,
        best_item(written(item)) == Some(item),
        all_items(written(item)) == Some(seq![item]),
{
    let formats = written(item)->0;
    let text = writable_text(item)->0;
    lemma_c_text_round_trip(text);
    lemma_wide_text_round_trip(text);
    lemma_format_of_code(ClipboardFormat::TEXT);
    lemma_format_of_code(ClipboardFormat::UNICODETEXT);
    lemma_format_data_first(formats, formats[0].format, 0);
    assert(item_of_code(formats, formats[0].format) == Some(item));
    assert(items_of(formats, 0) =~= Seq::<ItemView>::empty());
    assert(items_of(formats, 1) =~= seq![item]);
}

/// A read is decided by the content of the clipboard alone: two reads with no
/// write between them give the same item.
pub proof fn lemma_read_repeatable(
    clipboard: WindowsView,
    first: Option<ItemView>,
    second: Option<ItemView>,
)
    requires
        first == best_item(clipboard.formats),
        second == best_item(clipboard.formats),
    ensures
        first == second,
{
}

/// A code that is not recognised gives no item, whatever the clipboard holds.
pub proof fn lemma_unrecognised_code_gives_no_item(formats: Seq<FormatView>, code: u16)
    requires
        format_of_code(code) is None,
    ensures
        item_of_code(formats, code) is None,
{
}

/// A format that gives no item (because its code is not recognised, or it is
/// not a text format, or its data cannot be read as text) adds nothing to what
/// is read and takes nothing from it.
pub proof fn lemma_format_without_item_passed_over(formats: Seq<FormatView>, n: int)
    requires
        0 < n <= formats.len(),
        item_of_code(formats, formats[n - 1].format) is None,
    ensures
        items_of(formats, n) == items_of(formats, n - 1),
{
}

/// A clipboard that offers one format that gives an item and one that gives
/// none (such as a format whose code is not recognised), in either order, is
/// read as exactly that one item.
pub proof fn lemma_unknown_tag_tolerance(formats: Seq<FormatView>, known: int)
    requires
        formats.len() == 2,
        known == 0 || known == 1,
        item_of_code(formats, formats[known].format) is Some,
        item_of_code(formats, formats[1 - known].format) is None,
    ensures
        all_items(Some(formats)) == Some(seq![item_of_code(formats, formats[known].format)->0]),
{
    assert(items_of(formats, 0) =~= Seq::<ItemView>::empty());
    assert(items_of(formats, 2) =~= seq![item_of_code(formats, formats[known].format)->0]) by {
        reveal_with_fuel(items_of, 3);
    }
}

} // verus!
