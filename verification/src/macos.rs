//! The macOS side: pasteboard type names, their recognition, and the
//! pasteboard as macOS presents it.
use crate::models::{writable_text, write_outcome, ClipboardItem, ItemView, WriteError};
use crate::monitor::{next_state, reports_change, ChangeMonitor, MonitorState};
use crate::text::{decode_utf8_text, str_eq};
use vstd::prelude::*;
use vstd::string::*;
use vstd::utf8::*;

verus! {

/// The pasteboard types that are recognised.
#[derive(Debug, Clone, Copy, PartialEq, Eq, Structural)]
pub enum PasteType {
    Url,
    Color,
    FileURL,
    Font,
    Html,
    MultipleTextSelection,
    Pdf,
    Png,
    Rtf,
    Rtfd,
    Ruler,
    Sound,
    String,
    TabularText,
    Tiff,
}

impl PasteType {
    /// The uniform type identifier under which the pasteboard knows this type.
    pub open spec fn spec_name(self) -> Seq<char> {
        match self {
            PasteType::Url => "public.url"@,
            PasteType::Color => "com.apple.cocoa.pasteboard.color"@,
            PasteType::FileURL => "public.file-url"@,
            PasteType::Font => "com.apple.cocoa.pasteboard.character-formatting"@,
            PasteType::Html => "public.html"@,
            PasteType::MultipleTextSelection => {
                "com.apple.cocoa.pasteboard.multiple-text-selection"@
            },
            PasteType::Pdf => "com.adobe.pdf"@,
            PasteType::Png => "public.png"@,
            PasteType::Rtf => "public.rtf"@,
            PasteType::Rtfd => "com.apple.flat-rtfd"@,
            PasteType::Ruler => "com.apple.cocoa.pasteboard.paragraph-formatting"@,
            PasteType::Sound => "com.apple.cocoa.pasteboard.sound"@,
            PasteType::String => "public.utf8-plain-text"@,
            PasteType::TabularText => "public.utf8-tab-separated-values-text"@,
            PasteType::Tiff => "public.tiff"@,
        }
    }

    /// The uniform type identifier of this type.
    pub fn name(self) -> (name: &'static str)
        ensures
            name@ == self.spec_name(),
    {
        match self {
            PasteType::Url => "public.url",
            PasteType::Color => "com.apple.cocoa.pasteboard.color",
            PasteType::FileURL => "public.file-url",
            PasteType::Font => "com.apple.cocoa.pasteboard.character-formatting",
            PasteType::Html => "public.html",
            PasteType::MultipleTextSelection => {
                "com.apple.cocoa.pasteboard.multiple-text-selection"
            },
            PasteType::Pdf => "com.adobe.pdf",
            PasteType::Png => "public.png",
            PasteType::Rtf => "public.rtf",
            PasteType::Rtfd => "com.apple.flat-rtfd",
            PasteType::Ruler => "com.apple.cocoa.pasteboard.paragraph-formatting",
            PasteType::Sound => "com.apple.cocoa.pasteboard.sound",
            PasteType::String => "public.utf8-plain-text",
            PasteType::TabularText => "public.utf8-tab-separated-values-text",
            PasteType::Tiff => "public.tiff",
        }
    }

    /// Whether data of this type is a binary image or document rather than
    /// text.
    pub open spec fn spec_is_binary(self) -> bool {
        self == PasteType::Png || self == PasteType::Tiff || self == PasteType::Pdf
    }

    /// Whether data of this type is a binary image or document rather than
    /// text.
    #[verifier::when_used_as_spec(spec_is_binary)]
    pub fn is_binary(self) -> (binary: bool)
        ensures
            binary == self.spec_is_binary(),
    {
        match self {
            PasteType::Png => true,
            PasteType::Tiff => true,
            PasteType::Pdf => true,
            _ => false,
        }
    }
}

/// The length of the name of `t`, and the character of the name that tells
/// it from the other names of that length.
spec fn name_shape(t: PasteType) -> (nat, char) {
    match t {
        PasteType::Url => (10, 'u'),
        PasteType::Color => (32, 'c'),
        PasteType::FileURL => (15, 'f'),
        PasteType::Font => (47, 'c'),
        PasteType::Html => (11, 'h'),
        PasteType::MultipleTextSelection => (50, 'm'),
        PasteType::Pdf => (13, 'b'),
        PasteType::Png => (10, 'p'),
        PasteType::Rtf => (10, 'r'),
        PasteType::Rtfd => (19, 'l'),
        PasteType::Ruler => (47, 'p'),
        PasteType::Sound => (32, 's'),
        PasteType::String => (22, 'u'),
        PasteType::TabularText => (37, 'a'),
        PasteType::Tiff => (11, 't'),
    }
}

/// Where the telling character stands in a name of the given length.
spec fn mark_index(len: nat) -> int {
    if len > 27 {
        27
    } else {
        7
    }
}

/// Each name has the length and the telling character that `name_shape`
/// gives.
proof fn lemma_name_shape(t: PasteType)
    ensures
        t.spec_name().len() == name_shape(t).0,
        t.spec_name()[mark_index(name_shape(t).0)] == name_shape(t).1,
{
    match t {
        PasteType::Url => reveal_strlit("public.url"),
        PasteType::Color => reveal_strlit("com.apple.cocoa.pasteboard.color"),
        PasteType::FileURL => reveal_strlit("public.file-url"),
        PasteType::Font => reveal_strlit("com.apple.cocoa.pasteboard.character-formatting"),
        PasteType::Html => reveal_strlit("public.html"),
        PasteType::MultipleTextSelection => reveal_strlit(
            "com.apple.cocoa.pasteboard.multiple-text-selection",
        ),
        PasteType::Pdf => reveal_strlit("com.adobe.pdf"),
        PasteType::Png => reveal_strlit("public.png"),
        PasteType::Rtf => reveal_strlit("public.rtf"),
        PasteType::Rtfd => reveal_strlit("com.apple.flat-rtfd"),
        PasteType::Ruler => reveal_strlit("com.apple.cocoa.pasteboard.paragraph-formatting"),
        PasteType::Sound => reveal_strlit("com.apple.cocoa.pasteboard.sound"),
        PasteType::String => reveal_strlit("public.utf8-plain-text"),
        PasteType::TabularText => reveal_strlit("public.utf8-tab-separated-values-text"),
        PasteType::Tiff => reveal_strlit("public.tiff"),
    }
}

/// No two types share a name.
pub proof fn lemma_name_injective(a: PasteType, b: PasteType)
    requires
        a.spec_name() == b.spec_name(),
    ensures
        a == b,
{
    lemma_name_shape(a);
    lemma_name_shape(b);
}

/// The type of the name `name`, `None` where the name is not recognised.
pub open spec fn paste_type_of(name: Seq<char>) -> Option<PasteType> {
    if exists|t: PasteType| t.spec_name() == name {
        Some(choose|t: PasteType| t.spec_name() == name)
    } else {
        None
    }
}

/// Every type is the one that its own name resolves to.
pub proof fn lemma_paste_type_of(t: PasteType)
    ensures
        paste_type_of(t.spec_name()) == Some(t),
{
    let found = choose|u: PasteType| u.spec_name() == t.spec_name();
    lemma_name_injective(found, t);
}

/// One type that the pasteboard offers: its name and, where the data could be
/// read, its bytes (for a text type, the text in UTF-8).
#[derive(Debug, Clone, PartialEq, Eq)]
pub struct PasteboardData {
    pub name: String,
    pub data: Option<Vec<u8>>,
}

/// A `PasteboardData` as a mathematical value.
pub struct PasteboardView {
    pub name: Seq<char>,
    pub data: Option<Seq<u8>>,
}

impl View for PasteboardData {
    type V = PasteboardView;

    open spec fn view(&self) -> PasteboardView {
        PasteboardView {
            name: self.name@,
            data: match self.data {
                Some(bytes) => Some(bytes@),
                None => None,
            },
        }
    }
}

impl DeepView for PasteboardData {
    type V = PasteboardView;

    open spec fn deep_view(&self) -> PasteboardView {
        self.view()
    }
}

/// What reading the type `name` gives: the data of the first entry with that
/// name, `None` where there is no such entry or its data could not be read.
pub open spec fn type_data(types: Seq<PasteboardView>, name: Seq<char>) -> Option<Seq<u8>>
    decreases types.len(),
{
    if types.len() == 0 {
        None
    } else if types[0].name == name {
        types[0].data
    } else {
        type_data(types.drop_first(), name)
    }
}

/// `type_data` is decided by the first entry with the name.
pub proof fn lemma_type_data_first(types: Seq<PasteboardView>, name: Seq<char>, n: int)
    requires
        0 <= n <= types.len(),
        forall|j: int| 0 <= j < n ==> types[j].name != name,
    ensures
        n == types.len() ==> type_data(types, name) is None,
        n < types.len() && types[n].name == name ==> type_data(types, name)
            == types[n].data,
    decreases n,
{
    if n > 0 {
        let rest = types.drop_first();
        assert forall|j: int| 0 <= j < n - 1 implies rest[j].name != name by {
            assert(rest[j] == types[j + 1]);
        }
        lemma_type_data_first(rest, name, n - 1);
    }
}

/// The text that the pasteboard gives for the type `name`: its data read as
/// UTF-8. `None` where the pasteboard is closed, the type is not on offer, or
/// its data is not UTF-8.
pub open spec fn string_for_type(types: Option<Seq<PasteboardView>>, name: Seq<char>) -> Option<
    Seq<char>,
> {
    match data_for_type(types, name) {
        Some(bytes) => if valid_utf8(bytes) {
            Some(decode_utf8(bytes))
        } else {
            None
        },
        None => None,
    }
}

/// The bytes that the pasteboard gives for the type `name`.
pub open spec fn data_for_type(types: Option<Seq<PasteboardView>>, name: Seq<char>) -> Option<
    Seq<u8>,
> {
    match types {
        Some(t) => type_data(t, name),
        None => None,
    }
}

/// The item that text of the type `t` becomes.
pub open spec fn text_item(t: PasteType, text: Seq<char>) -> ItemView {
    match t {
        PasteType::Url => ItemView::Url(text),
        PasteType::FileURL => ItemView::FilePath(text),
        PasteType::Html => ItemView::Html(text),
        PasteType::MultipleTextSelection => ItemView::Text(text),
        PasteType::Rtf => ItemView::Rtf(text),
        PasteType::Rtfd => ItemView::Rtfd(text),
        _ => ItemView::UnicodeText(text),
    }
}

/// The item that bytes of the binary type `t` become: the bytes as they are,
/// under the kind of the type; an empty buffer becomes empty raw bytes.
pub open spec fn binary_item(t: PasteType, bytes: Seq<u8>) -> ItemView {
    if bytes.len() == 0 {
        ItemView::RawBytes(Seq::empty())
    } else {
        match t {
            PasteType::Png => ItemView::Png(bytes),
            PasteType::Tiff => ItemView::Tiff(bytes),
            _ => ItemView::Pdf(bytes),
        }
    }
}

/// The item that the pasteboard gives for a recognised type.
pub open spec fn item_of_type(types: Option<Seq<PasteboardView>>, t: PasteType) -> Option<
    ItemView,
> {
    if t.is_binary() {
        match data_for_type(types, t.spec_name()) {
            Some(bytes) => Some(binary_item(t, bytes)),
            None => None,
        }
    } else {
        match string_for_type(types, t.spec_name()) {
            Some(text) => Some(text_item(t, text)),
            None => None,
        }
    }
}

/// The item that the pasteboard gives for a type name.
pub open spec fn item_of_name(types: Option<Seq<PasteboardView>>, name: Seq<char>) -> Option<
    ItemView,
> {
    match paste_type_of(name) {
        Some(t) => item_of_type(types, t),
        None => None,
    }
}

/// The items of the first `n` types, in their order; a type that gives no
/// item is passed over.
pub open spec fn items_of(types: Seq<PasteboardView>, n: int) -> Seq<ItemView>
    decreases n,
{
    if n <= 0 {
        Seq::empty()
    } else {
        let front = items_of(types, n - 1);
        match item_of_name(Some(types), types[n - 1].name) {
            Some(item) => front.push(item),
            None => front,
        }
    }
}

/// The single item that a read gives: that of the type which the operating
/// system prefers among those on offer. `None` where the pasteboard is
/// closed, no type is preferred, or the preferred type gives no item.
pub open spec fn best_item(
    types: Option<Seq<PasteboardView>>,
    preferred: Option<Seq<char>>,
) -> Option<ItemView> {
    match (types, preferred) {
        (Some(_), Some(name)) => item_of_name(types, name),
        _ => None,
    }
}

/// All items that a read gives; `None` only where the pasteboard is closed.
pub open spec fn all_items(types: Option<Seq<PasteboardView>>) -> Option<Seq<ItemView>> {
    match types {
        Some(t) => Some(items_of(t, t.len() as int)),
        None => None,
    }
}

/// What a write of `item` installs as the sole content of the pasteboard:
/// its text under the plain-text type. `None` for the kinds that cannot be
/// written.
pub open spec fn written(item: ItemView) -> Option<Seq<PasteboardView>> {
    match writable_text(item) {
        Some(text) => Some(
            seq![
                PasteboardView {
                    name: PasteType::String.spec_name(),
                    data: Some(encode_utf8(text)),
                },
            ],
        ),
        None => None,
    }
}

/// The number of types that the pasteboard offers, as far as an `i32` holds
/// it; 0 where the pasteboard is closed.
pub open spec fn number_of_formats(types: Option<Seq<PasteboardView>>) -> int {
    match types {
        Some(t) => if t.len() <= i32::MAX {
            t.len() as int
        } else {
            i32::MAX as int
        },
        None => 0,
    }
}

/// The macOS pasteboard as a value.
pub struct MacOSView {
    /// The types on offer, in the order in which the pasteboard lists them;
    /// `None` while the pasteboard gives no list.
    pub types: Option<Seq<PasteboardView>>,
    /// The name of the type that the operating system prefers among them.
    pub preferred: Option<Seq<char>>,
    /// The change count as it was last read; `None` where it could not be.
    pub change_count: Option<isize>,
    /// The state of change detection.
    pub monitor: MonitorState,
}

/// The macOS pasteboard: the content that was last loaded from or written to
/// it, its change count, and the state of change detection.
#[derive(Debug, Clone, PartialEq, Eq)]
pub struct MacOSCC {
    types: Option<Vec<PasteboardData>>,
    preferred: Option<String>,
    change_count: Option<isize>,
    monitor: ChangeMonitor,
}

impl View for MacOSCC {
    type V = MacOSView;

    closed spec fn view(&self) -> MacOSView {
        MacOSView {
            types: self.types.deep_view(),
            preferred: self.preferred.deep_view(),
            change_count: self.change_count,
            monitor: self.monitor@,
        }
    }
}

impl MacOSCC {
    /// A pasteboard that is open and empty, with no change count read and a
    /// monitor that has not polled.
    pub fn new() -> (pasteboard: Self)
        ensures
            pasteboard@ == (MacOSView {
                types: Some(Seq::empty()),
                preferred: None,
                change_count: None,
                monitor: MonitorState::Uninitialized,
            }),
    {
        let pasteboard = MacOSCC {
            types: Some(Vec::new()),
            preferred: None,
            change_count: None,
            monitor: ChangeMonitor::new(),
        };
        assert(pasteboard@.types->0 =~= Seq::empty());
        pasteboard
    }

    /// Replaces what is known of the pasteboard's content by what was just
    /// read from it: the types in the order in which they are listed (`None`
    /// where no list was given) and the type that the operating system
    /// prefers among them.
    pub fn load(&mut self, types: Option<Vec<PasteboardData>>, preferred: Option<String>)
        ensures
            final(self)@ == (MacOSView {
                types: types.deep_view(),
                preferred: preferred.deep_view(),
                ..old(self)@
            }),
    {
        self.types = types;
        self.preferred = preferred;
    }

    /// Records the change count as it was just read (`None` where it could not
    /// be read).
    pub fn set_change_count(&mut self, change_count: Option<isize>)
        ensures
            final(self)@ == (MacOSView { change_count, ..old(self)@ }),
    {
        self.change_count = change_count;
    }

    /// The content as it was last loaded or written.
    pub fn types(&self) -> (types: &Option<Vec<PasteboardData>>)
        ensures
            types.deep_view() == self@.types,
    {
        &self.types
    }

    /// Recognises a pasteboard type name: the type whose name it is, or
    /// `None` where no recognised type has that name.
    pub fn get_paste_type(name: &str) -> (pastetype: Option<PasteType>)
        ensures
            pastetype == paste_type_of(name@),
            match pastetype {
                Some(t) => t.spec_name() == name@,
                None => forall|t: PasteType| t.spec_name() != name@,
            },
    {
        let found = if str_eq(name, "public.url") {
            Some(PasteType::Url)
        } else if str_eq(name, "com.apple.cocoa.pasteboard.color") {
            Some(PasteType::Color)
        } else if str_eq(name, "public.file-url") {
            Some(PasteType::FileURL)
        } else if str_eq(name, "com.apple.cocoa.pasteboard.character-formatting") {
            Some(PasteType::Font)
        } else if str_eq(name, "public.html") {
            Some(PasteType::Html)
        } else if str_eq(name, "com.apple.cocoa.pasteboard.multiple-text-selection") {
            Some(PasteType::MultipleTextSelection)
        } else if str_eq(name, "com.adobe.pdf") {
            Some(PasteType::Pdf)
        } else if str_eq(name, "public.png") {
            Some(PasteType::Png)
        } else if str_eq(name, "public.rtf") {
            Some(PasteType::Rtf)
        } else if str_eq(name, "com.apple.flat-rtfd") {
            Some(PasteType::Rtfd)
        } else if str_eq(name, "com.apple.cocoa.pasteboard.paragraph-formatting") {
            Some(PasteType::Ruler)
        } else if str_eq(name, "com.apple.cocoa.pasteboard.sound") {
            Some(PasteType::Sound)
        } else if str_eq(name, "public.utf8-plain-text") {
            Some(PasteType::String)
        } else if str_eq(name, "public.utf8-tab-separated-values-text") {
            Some(PasteType::TabularText)
        } else if str_eq(name, "public.tiff") {
            Some(PasteType::Tiff)
        } else {
            None
        };
        proof {
            if found is Some {
                lemma_paste_type_of(found->0);
            }
        }
        found
    }

    /// The raw data of the type `name`.
    fn data_for_type(&self, name: &str) -> (data: Option<&Vec<u8>>)
        ensures
            match data {
                Some(bytes) => data_for_type(self@.types, name@) == Some(bytes@),
                None => data_for_type(self@.types, name@) is None,
            },
    {
        match &self.types {
            None => None,
            Some(types) => {
                let ghost t = self@.types->0;
                let mut i: usize = 0;
                while i < types.len()
                    invariant
                        i <= types.len(),
                        self@.types == Some(t),
                        t == types.deep_view(),
                        forall|j: int| 0 <= j < i ==> t[j].name != name@,
                    decreases types.len() - i,
                {
                    if str_eq(types[i].name.as_str(), name) {
                        proof {
                            lemma_type_data_first(t, name@, i as int);
                            assert(t[i as int] == types@[i as int]@);
                        }
                        return match &types[i].data {
                            Some(bytes) => Some(bytes),
                            None => None,
                        };
                    }
                    assert(t[i as int] == types@[i as int]@);
                    i += 1;
                }
                proof {
                    lemma_type_data_first(t, name@, i as int);
                }
                None
            },
        }
    }

    /// The text of the type `name`.
    fn string_for_type(&self, name: &str) -> (text: Option<String>)
        ensures
            text.deep_view() == string_for_type(self@.types, name@),
    {
        match self.data_for_type(name) {
            Some(bytes) => decode_utf8_text(bytes),
            None => None,
        }
    }

    /// The text of the URL type.
    fn get_url_from_clipboard(&self) -> (text: Option<String>)
        ensures
            text.deep_view() == string_for_type(self@.types, PasteType::Url.spec_name()),
    {
        self.string_for_type(PasteType::Url.name())
    }

    /// The text of the file-URL type.
    fn get_file_url_from_clipboard(&self) -> (text: Option<String>)
        ensures
            text.deep_view() == string_for_type(self@.types, PasteType::FileURL.spec_name()),
    {
        self.string_for_type(PasteType::FileURL.name())
    }

    /// The text of the plain-text type.
    fn get_string_from_clipboard(&self) -> (text: Option<String>)
        ensures
            text.deep_view() == string_for_type(self@.types, PasteType::String.spec_name()),
    {
        self.string_for_type(PasteType::String.name())
    }

    /// The text of the paragraph-formatting type.
    fn get_ruler_from_clipboard(&self) -> (text: Option<String>)
        ensures
            text.deep_view() == string_for_type(self@.types, PasteType::Ruler.spec_name()),
    {
        self.string_for_type(PasteType::Ruler.name())
    }

    /// The text of the sound type.
    fn get_sound_from_clipboard(&self) -> (text: Option<String>)
        ensures
            text.deep_view() == string_for_type(self@.types, PasteType::Sound.spec_name()),
    {
        self.string_for_type(PasteType::Sound.name())
    }

    /// The text of the character-formatting type.
    fn get_font_from_clipboard(&self) -> (text: Option<String>)
        ensures
            text.deep_view() == string_for_type(self@.types, PasteType::Font.spec_name()),
    {
        self.string_for_type(PasteType::Font.name())
    }

    /// The text of the colour type.
    fn get_color_from_clipboard(&self) -> (text: Option<String>)
        ensures
            text.deep_view() == string_for_type(self@.types, PasteType::Color.spec_name()),
    {
        self.string_for_type(PasteType::Color.name())
    }

    /// The text of the RTF type.
    fn get_rtf_from_clipboard(&self) -> (text: Option<String>)
        ensures
            text.deep_view() == string_for_type(self@.types, PasteType::Rtf.spec_name()),
    {
        self.string_for_type(PasteType::Rtf.name())
    }

    /// The text of the RTFD type.
    fn get_rtfd_from_clipboard(&self) -> (text: Option<String>)
        ensures
            text.deep_view() == string_for_type(self@.types, PasteType::Rtfd.spec_name()),
    {
        self.string_for_type(PasteType::Rtfd.name())
    }

    /// The text of the tabular-text type.
    fn get_tabular_text_from_clipboard(&self) -> (text: Option<String>)
        ensures
            text.deep_view() == string_for_type(self@.types, PasteType::TabularText.spec_name()),
    {
        self.string_for_type(PasteType::TabularText.name())
    }

    /// The text of the multiple-text-selection type.
    fn get_multiple_text_selection_from_clipboard(&self) -> (text: Option<String>)
        ensures
            text.deep_view() == string_for_type(
                self@.types,
                PasteType::MultipleTextSelection.spec_name(),
            ),
    {
        self.string_for_type(PasteType::MultipleTextSelection.name())
    }

    /// The text of the HTML type.
    fn get_html_from_clipboard(&self) -> (text: Option<String>)
        ensures
            text.deep_view() == string_for_type(self@.types, PasteType::Html.spec_name()),
    {
        self.string_for_type(PasteType::Html.name())
    }

    /// The bytes of the PNG type.
    fn get_png_from_clipboard(&self) -> (bytes: Option<Vec<u8>>)
        ensures
            match bytes {
                Some(b) => data_for_type(self@.types, PasteType::Png.spec_name()) == Some(b@),
                None => data_for_type(self@.types, PasteType::Png.spec_name()) is None,
            },
    {
        match self.data_for_type(PasteType::Png.name()) {
            Some(bytes) => Some(bytes.clone()),
            None => None,
        }
    }

    /// The bytes of the TIFF type.
    fn get_tiff_from_clipboard(&self) -> (bytes: Option<Vec<u8>>)
        ensures
            match bytes {
                Some(b) => data_for_type(self@.types, PasteType::Tiff.spec_name()) == Some(b@),
                None => data_for_type(self@.types, PasteType::Tiff.spec_name()) is None,
            },
    {
        match self.data_for_type(PasteType::Tiff.name()) {
            Some(bytes) => Some(bytes.clone()),
            None => None,
        }
    }

    /// The bytes of the PDF type.
    fn get_pdf_from_clipboard(&self) -> (bytes: Option<Vec<u8>>)
        ensures
            match bytes {
                Some(b) => data_for_type(self@.types, PasteType::Pdf.spec_name()) == Some(b@),
                None => data_for_type(self@.types, PasteType::Pdf.spec_name()) is None,
            },
    {
        match self.data_for_type(PasteType::Pdf.name()) {
            Some(bytes) => Some(bytes.clone()),
            None => None,
        }
    }

    /// The item that the pasteboard gives for a recognised type: text under
    /// the kind that belongs to the type, bytes of an image or document as
    /// they are, an empty image or document as empty raw bytes.
    pub fn paste_type_as_clipboard_item(&self, pastetype: PasteType) -> (item: Option<
        ClipboardItem,
    >)
        ensures
            item.deep_view() == item_of_type(self@.types, pastetype),
    {
        match pastetype {
            PasteType::Url => match self.get_url_from_clipboard() {
                Some(text) => Some(ClipboardItem::Url(text)),
                None => None,
            },
            PasteType::Color => match self.get_color_from_clipboard() {
                Some(text) => Some(ClipboardItem::UnicodeText(text)),
                None => None,
            },
            PasteType::FileURL => match self.get_file_url_from_clipboard() {
                Some(text) => Some(ClipboardItem::FilePath(text)),
                None => None,
            },
            PasteType::Font => match self.get_font_from_clipboard() {
                Some(text) => Some(ClipboardItem::UnicodeText(text)),
                None => None,
            },
            PasteType::Html => match self.get_html_from_clipboard() {
                Some(text) => Some(ClipboardItem::Html(text)),
                None => None,
            },
            PasteType::MultipleTextSelection => {
                match self.get_multiple_text_selection_from_clipboard() {
                    Some(text) => Some(ClipboardItem::Text(text)),
                    None => None,
                }
            },
            PasteType::Rtf => match self.get_rtf_from_clipboard() {
                Some(text) => Some(ClipboardItem::Rtf(text)),
                None => None,
            },
            PasteType::Rtfd => match self.get_rtfd_from_clipboard() {
                Some(text) => Some(ClipboardItem::Rtfd(text)),
                None => None,
            },
            PasteType::Ruler => match self.get_ruler_from_clipboard() {
                Some(text) => Some(ClipboardItem::UnicodeText(text)),
                None => None,
            },
            PasteType::Sound => match self.get_sound_from_clipboard() {
                Some(text) => Some(ClipboardItem::UnicodeText(text)),
                None => None,
            },
            PasteType::String => match self.get_string_from_clipboard() {
                Some(text) => Some(ClipboardItem::UnicodeText(text)),
                None => None,
            },
            PasteType::TabularText => match self.get_tabular_text_from_clipboard() {
                Some(text) => Some(ClipboardItem::UnicodeText(text)),
                None => None,
            },
            PasteType::Png => match self.get_png_from_clipboard() {
                Some(bytes) => Some(
                    if bytes.len() == 0 {
                        ClipboardItem::RawBytes(Vec::new())
                    } else {
                        ClipboardItem::Png(bytes)
                    },
                ),
                None => None,
            },
            PasteType::Tiff => match self.get_tiff_from_clipboard() {
                Some(bytes) => Some(
                    if bytes.len() == 0 {
                        ClipboardItem::RawBytes(Vec::new())
                    } else {
                        ClipboardItem::Tiff(bytes)
                    },
                ),
                None => None,
            },
            PasteType::Pdf => match self.get_pdf_from_clipboard() {
                Some(bytes) => Some(
                    if bytes.len() == 0 {
                        ClipboardItem::RawBytes(Vec::new())
                    } else {
                        ClipboardItem::Pdf(bytes)
                    },
                ),
                None => None,
            },
        }
    }

    /// The item that the pasteboard gives for a type name.
    fn item_for_name(&self, name: &str) -> (item: Option<ClipboardItem>)
        ensures
            item.deep_view() == item_of_name(self@.types, name@),
    {
        match Self::get_paste_type(name) {
            Some(pastetype) => self.paste_type_as_clipboard_item(pastetype),
            None => None,
        }
    }

    /// Reads the single best item: that of the type which the operating
    /// system prefers among those on offer.
    pub fn get_clipboard_item(&self) -> (item: Option<ClipboardItem>)
        ensures
            item.deep_view() == best_item(self@.types, self@.preferred),
    {
        if self.types.is_none() {
            return None;
        }
        match &self.preferred {
            Some(name) => self.item_for_name(name.as_str()),
            None => None,
        }
    }

    /// Installs `text` as the sole content, under the plain-text type, which
    /// is then the preferred one.
    fn set_string_from_clipboard(&mut self, text: &str)
        ensures
            final(self)@ == (MacOSView {
                types: written(ItemView::UnicodeText(text@)),
                preferred: Some(PasteType::String.spec_name()),
                ..old(self)@
            }),
    {
        let name = PasteType::String.name();
        let mut types: Vec<PasteboardData> = Vec::new();
        types.push(PasteboardData { name: name.to_owned(), data: Some(text.as_bytes_vec()) });
        self.types = Some(types);
        self.preferred = Some(name.to_owned());
        assert(self@.types->0 =~= written(ItemView::UnicodeText(text@))->0);
    }

    /// Writes `item` to the pasteboard, replacing all that it held. Only plain
    /// and Unicode text can be written: any other kind is refused as
    /// `Unsupported`. A closed pasteboard refuses the write as `Platform`. A
    /// refused write leaves the content untouched.
    pub fn set_clipboard_item(&mut self, item: ClipboardItem) -> (result: Result<(), WriteError>)
        ensures
            result == write_outcome(old(self)@.types is Some, item@),
            final(self)@ == if result is Ok {
                MacOSView {
                    types: written(item@),
                    preferred: Some(PasteType::String.spec_name()),
                    ..old(self)@
                }
            } else {
                old(self)@
            },
    {
        match item {
            ClipboardItem::Text(text) => {
                if self.types.is_none() {
                    return Err(WriteError::Platform);
                }
                self.set_string_from_clipboard(text.as_str());
                Ok(())
            },
            ClipboardItem::UnicodeText(text) => {
                if self.types.is_none() {
                    return Err(WriteError::Platform);
                }
                self.set_string_from_clipboard(text.as_str());
                Ok(())
            },
            _ => Err(WriteError::Unsupported),
        }
    }

    /// Reads every item that the pasteboard holds, in the order of the types.
    /// Types that are not recognised or give no item are passed over; the
    /// result is `None` only where the pasteboard gave no list of types.
    pub fn get_clipboard_items(&self) -> (items: Option<Vec<ClipboardItem>>)
        ensures
            items.deep_view() == all_items(self@.types),
    {
        match &self.types {
            None => None,
            Some(types) => {
                let ghost t = self@.types->0;
                let mut result: Vec<ClipboardItem> = Vec::new();
                let mut i: usize = 0;
                assert(result.deep_view() =~= items_of(t, 0));
                while i < types.len()
                    invariant
                        i <= types.len(),
                        self@.types == Some(t),
                        t == types.deep_view(),
                        result.deep_view() == items_of(t, i as int),
                    decreases types.len() - i,
                {
                    let ghost before = result.deep_view();
                    assert(t[i as int] == types@[i as int]@);
                    match self.item_for_name(types[i].name.as_str()) {
                        Some(item) => {
                            result.push(item);
                            assert(result.deep_view() =~= before.push(item@));
                        },
                        None => {},
                    }
                    i += 1;
                }
                Some(result)
            },
        }
    }

    /// The number of types on offer.
    pub fn get_number_of_formats(&self) -> (count: i32)
        ensures
            count == number_of_formats(self@.types),
    {
        match &self.types {
            Some(types) => {
                if types.len() <= i32::MAX as usize {
                    types.len() as i32
                } else {
                    i32::MAX
                }
            },
            None => 0,
        }
    }

    /// Polls for a change: compares the change count as it was last read with
    /// the one that the poll before saw. The first poll only takes the
    /// baseline and reports nothing; where the count could not be read, the
    /// poll reports nothing and remembers nothing.
    pub fn has_clipboard_changed(&mut self) -> (changed: bool)
        ensures
            changed == reports_change(old(self)@.monitor, old(self)@.change_count),
            final(self)@ == (MacOSView {
                monitor: next_state(old(self)@.monitor, old(self)@.change_count),
                ..old(self)@
            }),
    {
        self.monitor.poll(self.change_count)
    }
}

impl Default for MacOSCC {
    fn default() -> (pasteboard: Self)
        ensures
            pasteboard@ == (MacOSView {
                types: Some(Seq::empty()),
                preferred: None,
                change_count: None,
                monitor: MonitorState::Uninitialized,
            }),
    {
        Self::new()
    }
}

/// Text that was written is what the next read gives, as Unicode text,
/// whichever of the two text kinds it was written in.
pub proof fn lemma_write_read_round_trip(item: ItemView)
    requires
        writable_text(item) is Some,
    ensures
        written(item) is Some,
        best_item(written(item), Some(PasteType::String.spec_name())) == Some(
            ItemView::UnicodeText(writable_text(item)->0),
        ),
        all_items(written(item)) == Some(seq![ItemView::UnicodeText(writable_text(item)->0)]),
{
    let types = written(item)->0;
    let text = writable_text(item)->0;
    let read = ItemView::UnicodeText(text);
    encode_utf8_valid_utf8(text);
    encode_utf8_decode_utf8(text);
    lemma_paste_type_of(PasteType::String);
    lemma_type_data_first(types, PasteType::String.spec_name(), 0);
    assert(item_of_name(Some(types), types[0].name) == Some(read));
    assert(items_of(types, 0) =~= Seq::<ItemView>::empty());
    assert(items_of(types, 1) =~= seq![read]);
}

/// A read is decided by the content of the pasteboard alone: two reads with
/// no write between them give the same item.
pub proof fn lemma_read_repeatable(
    pasteboard: MacOSView,
    first: Option<ItemView>,
    second: Option<ItemView>,
)
    requires
        first == best_item(pasteboard.types, pasteboard.preferred),
        second == best_item(pasteboard.types, pasteboard.preferred),
    ensures
        first == second,
{
}

/// A name that is not recognised gives no item, whatever the pasteboard
/// holds.
pub proof fn lemma_unrecognised_name_gives_no_item(
    types: Option<Seq<PasteboardView>>,
    name: Seq<char>,
)
    requires
        paste_type_of(name) is None,
    ensures
        item_of_name(types, name) is None,
{
}

/// A type that gives no item (because its name is not recognised, or its data
/// cannot be read) adds nothing to what is read and takes nothing from it.
pub proof fn lemma_type_without_item_passed_over(types: Seq<PasteboardView>, n: int)
    requires
        0 < n <= types.len(),
        item_of_name(Some(types), types[n - 1].name) is None,
    ensures
        items_of(types, n) == items_of(types, n - 1),
{
}

/// A pasteboard that offers one type that gives an item and one that gives
/// none (such as a type whose name is not recognised), in either order, is
/// read as exactly that one item.
pub proof fn lemma_unknown_tag_tolerance(types: Seq<PasteboardView>, known: int)
    requires
        types.len() == 2,
        known == 0 || known == 1,
        item_of_name(Some(types), types[known].name) is Some,
        item_of_name(Some(types), types[1 - known].name) is None,
    ensures
        all_items(Some(types)) == Some(seq![item_of_name(Some(types), types[known].name)->0]),
{
    assert(items_of(types, 0) =~= Seq::<ItemView>::empty());
    assert(items_of(types, 2) =~= seq![item_of_name(Some(types), types[known].name)->0]) by {
        reveal_with_fuel(items_of, 3);
    }
}

/// An image or document type whose buffer is empty is read as empty raw
/// bytes.
pub proof fn lemma_empty_buffer(types: Option<Seq<PasteboardView>>, t: PasteType)
    requires
        t.is_binary(),
        data_for_type(types, t.spec_name()) == Some(Seq::<u8>::empty()),
    ensures
        item_of_type(types, t) == Some(ItemView::RawBytes(Seq::empty())),
{
}

} // verus!
