use libclipboard::macos::{MacOSCC, PasteboardData};
use libclipboard::windows::{FormatData, WindowsCC};
use libclipboard::{Clipboard, ClipboardItem, Host, WriteError};

fn windows_host() -> Host {
    Host::Windows { class_atom: 0xC001, window: 0x1234 }
}

fn set_text_round_trips(mut clipboard: Clipboard) {
    clipboard.set_item(ClipboardItem::UnicodeText("".to_owned())).unwrap();
    assert_eq!(
        ClipboardItem::UnicodeText("".to_string()),
        clipboard.get_item().unwrap()
    );

    clipboard.set_item(ClipboardItem::UnicodeText("Hello World!".to_owned())).unwrap();
    assert_eq!(
        ClipboardItem::UnicodeText("Hello World!".to_string()),
        clipboard.get_item().unwrap()
    );

    clipboard.set_item(ClipboardItem::UnicodeText("Goodbye World!".to_owned())).unwrap();
    assert_eq!(
        ClipboardItem::UnicodeText("Goodbye World!".to_string()),
        clipboard.get_item().unwrap()
    );
}

#[test]
fn test_set_text() {
    set_text_round_trips(Clipboard::new(windows_host()).unwrap());
    set_text_round_trips(Clipboard::new(Host::MacOS).unwrap());
}

#[test]
fn new_fails_on_other_systems() {
    assert_eq!(Clipboard::new(Host::Other), Err("Does not support this OS"));
}

#[test]
fn new_fails_without_window_class() {
    assert_eq!(
        Clipboard::new(Host::Windows { class_atom: 0, window: 0x1234 }),
        Err("Failed to create Window class")
    );
    assert_eq!(
        Clipboard::new(Host::Windows { class_atom: 0, window: 0 }),
        Err("Failed to create Window class")
    );
}

#[test]
fn new_fails_without_window_handle() {
    assert_eq!(
        Clipboard::new(Host::Windows { class_atom: 7, window: 0 }),
        Err("Window handle could not be created")
    );
}

#[test]
fn new_clipboard_is_open_and_empty() {
    for host in [windows_host(), Host::MacOS] {
        let clipboard = Clipboard::new(host).unwrap();
        assert_eq!(clipboard.get_item(), None);
        assert_eq!(clipboard.get_items(), Some(vec![]));
        assert_eq!(clipboard.number_of_formats(), 0);
    }
}

#[test]
fn reading_twice_gives_equal_items() {
    for host in [windows_host(), Host::MacOS] {
        let mut clipboard = Clipboard::new(host).unwrap();
        clipboard.set_item(ClipboardItem::UnicodeText("same".to_owned())).unwrap();
        let first = clipboard.get_item();
        let second = clipboard.get_item();
        assert_eq!(first, second);
        assert_eq!(first, Some(ClipboardItem::UnicodeText("same".to_owned())));
        assert_eq!(clipboard.get_items(), clipboard.get_items());
    }
}

#[test]
fn round_trip_keeps_multi_byte_characters() {
    for host in [windows_host(), Host::MacOS] {
        let mut clipboard = Clipboard::new(host).unwrap();
        let texts = ["", "Hi! \u{1F44B}", "gr\u{fc}\u{df}e", "\u{65e5}\u{672c}\u{8a9e}", "a\tb\r\nc"];
        for text in texts {
            clipboard.set_item(ClipboardItem::UnicodeText(text.to_owned())).unwrap();
            assert_eq!(clipboard.get_item(), Some(ClipboardItem::UnicodeText(text.to_owned())));
            assert_eq!(
                clipboard.get_items(),
                Some(vec![ClipboardItem::UnicodeText(text.to_owned())])
            );
            assert_eq!(clipboard.number_of_formats(), 1);
        }
    }
}

#[test]
fn plain_text_round_trip_per_system() {
    let mut windows = Clipboard::new(windows_host()).unwrap();
    windows.set_item(ClipboardItem::Text("Hello World!".to_owned())).unwrap();
    assert_eq!(windows.get_item(), Some(ClipboardItem::Text("Hello World!".to_owned())));

    let mut macos = Clipboard::new(Host::MacOS).unwrap();
    macos.set_item(ClipboardItem::Text("Hello World!".to_owned())).unwrap();
    assert_eq!(macos.get_item(), Some(ClipboardItem::UnicodeText("Hello World!".to_owned())));
}

#[test]
fn windows_text_ends_at_an_embedded_nul() {
    let mut windows = Clipboard::new(windows_host()).unwrap();
    windows.set_item(ClipboardItem::UnicodeText("a\0b".to_owned())).unwrap();
    assert_eq!(windows.get_item(), Some(ClipboardItem::UnicodeText("a".to_owned())));
    windows.set_item(ClipboardItem::Text("a\0b".to_owned())).unwrap();
    assert_eq!(windows.get_item(), Some(ClipboardItem::Text("a".to_owned())));

    let mut macos = Clipboard::new(Host::MacOS).unwrap();
    macos.set_item(ClipboardItem::UnicodeText("a\0b".to_owned())).unwrap();
    assert_eq!(macos.get_item(), Some(ClipboardItem::UnicodeText("a\0b".to_owned())));
}

#[test]
fn a_write_replaces_what_was_there() {
    for host in [windows_host(), Host::MacOS] {
        let mut clipboard = Clipboard::new(host).unwrap();
        clipboard.set_item(ClipboardItem::UnicodeText("first".to_owned())).unwrap();
        clipboard.set_item(ClipboardItem::UnicodeText("second".to_owned())).unwrap();
        assert_eq!(
            clipboard.get_items(),
            Some(vec![ClipboardItem::UnicodeText("second".to_owned())])
        );
    }
}

#[test]
fn unsupported_kinds_are_refused_and_change_nothing() {
    let unsupported = [
        ClipboardItem::Html("<b>x</b>".to_owned()),
        ClipboardItem::Rtf("{\\rtf1}".to_owned()),
        ClipboardItem::Rtfd("rtfd".to_owned()),
        ClipboardItem::Url("https://example.org".to_owned()),
        ClipboardItem::FilePath("/tmp/x".to_owned()),
        ClipboardItem::Png(vec![0x89, 0x50, 0x4E, 0x47]),
        ClipboardItem::Tiff(vec![0x49, 0x49, 0x2A, 0x00]),
        ClipboardItem::Pdf(vec![0x25, 0x50, 0x44, 0x46]),
        ClipboardItem::RawBytes(vec![1, -1]),
    ];
    for host in [windows_host(), Host::MacOS] {
        let mut clipboard = Clipboard::new(host).unwrap();
        clipboard.set_item(ClipboardItem::UnicodeText("kept".to_owned())).unwrap();
        let before = clipboard.clone();
        for item in unsupported.iter() {
            assert_eq!(clipboard.set_item(item.clone()), Err(WriteError::Unsupported));
            assert_eq!(clipboard, before);
            assert_eq!(clipboard.get_item(), Some(ClipboardItem::UnicodeText("kept".to_owned())));
        }
    }
}

#[test]
fn a_closed_clipboard_refuses_reads_and_writes() {
    let mut windows = WindowsCC::new(1, 1).unwrap();
    windows.load(None);
    let mut macos = MacOSCC::new();
    macos.load(None, None);
    for mut clipboard in [Clipboard::Windows(windows), Clipboard::MacOS(macos)] {
        let before = clipboard.clone();
        assert_eq!(clipboard.get_item(), None);
        assert_eq!(clipboard.get_items(), None);
        assert_eq!(clipboard.number_of_formats(), 0);
        assert_eq!(
            clipboard.set_item(ClipboardItem::Text("x".to_owned())),
            Err(WriteError::Platform)
        );
        assert_eq!(
            clipboard.set_item(ClipboardItem::UnicodeText("x".to_owned())),
            Err(WriteError::Platform)
        );
        assert_eq!(
            clipboard.set_item(ClipboardItem::Png(vec![1])),
            Err(WriteError::Unsupported)
        );
        assert_eq!(clipboard, before);
    }
}

#[test]
fn first_poll_reports_nothing() {
    for host in [windows_host(), Host::MacOS] {
        let mut clipboard = Clipboard::new(host).unwrap();
        assert!(!clipboard.has_changed());
        assert!(!clipboard.has_changed());
    }
}

#[test]
fn first_poll_reports_nothing_after_earlier_activity() {
    let mut windows = WindowsCC::new(1, 1).unwrap();
    libclipboard::windows::window_proc(&mut windows, libclipboard::windows::WM_CLIPBOARDUPDATE);
    let mut clipboard = Clipboard::Windows(windows);
    assert!(!clipboard.has_changed());
    assert!(!clipboard.has_changed());

    let mut macos = MacOSCC::new();
    macos.set_change_count(Some(41));
    macos.set_change_count(Some(42));
    let mut clipboard = Clipboard::MacOS(macos);
    assert!(!clipboard.has_changed());
    assert!(!clipboard.has_changed());
}

#[test]
fn one_write_between_polls_is_reported_once() {
    let mut clipboard = Clipboard::new(windows_host()).unwrap();
    assert!(!clipboard.has_changed());
    if let Clipboard::Windows(cc) = &mut clipboard {
        libclipboard::windows::window_proc(cc, libclipboard::windows::WM_CLIPBOARDUPDATE);
    }
    assert!(clipboard.has_changed());
    assert!(!clipboard.has_changed());

    let mut clipboard = Clipboard::new(Host::MacOS).unwrap();
    if let Clipboard::MacOS(cc) = &mut clipboard {
        cc.set_change_count(Some(7));
    }
    assert!(!clipboard.has_changed());
    if let Clipboard::MacOS(cc) = &mut clipboard {
        cc.set_change_count(Some(8));
    }
    assert!(clipboard.has_changed());
    assert!(!clipboard.has_changed());
}

#[test]
fn one_recognised_and_one_unknown_tag_give_one_item() {
    let mut windows = WindowsCC::new(1, 1).unwrap();
    windows.load(Some(vec![
        FormatData { format: 0xC0DE, data: Some(vec![1, 2, 3]) },
        FormatData { format: 1, data: Some(b"plain\0".to_vec()) },
    ]));
    let clipboard = Clipboard::Windows(windows);
    assert_eq!(clipboard.get_items(), Some(vec![ClipboardItem::Text("plain".to_owned())]));
    assert_eq!(clipboard.number_of_formats(), 2);

    let mut macos = MacOSCC::new();
    macos.load(
        Some(vec![
            PasteboardData { name: "public.html".to_owned(), data: Some(b"<p>hi</p>".to_vec()) },
            PasteboardData { name: "org.example.private".to_owned(), data: Some(vec![9, 9]) },
        ]),
        Some("public.html".to_owned()),
    );
    let clipboard = Clipboard::MacOS(macos);
    assert_eq!(clipboard.get_items(), Some(vec![ClipboardItem::Html("<p>hi</p>".to_owned())]));
    assert_eq!(clipboard.get_item(), Some(ClipboardItem::Html("<p>hi</p>".to_owned())));
    assert_eq!(clipboard.number_of_formats(), 2);
}
