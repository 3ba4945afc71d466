use libclipboard::windows::{
    window_proc, ClipboardFormat, FormatData, WindowsCC, WM_CLIPBOARDUPDATE,
};
use libclipboard::{ClipboardItem, WriteError};

fn clipboard_of(formats: Vec<FormatData>) -> WindowsCC {
    let mut clipboard = WindowsCC::new(1, 1).unwrap();
    clipboard.load(Some(formats));
    clipboard
}

fn slot(format: u16, data: &[u8]) -> FormatData {
    FormatData { format, data: Some(data.to_vec()) }
}

#[test]
fn new_keeps_the_window_handle() {
    let clipboard = WindowsCC::new(0xC123, 0x00A4_0B2C).unwrap();
    assert_eq!(clipboard.window(), 0x00A4_0B2C);
    assert_eq!(clipboard.formats(), &Some(vec![]));
    let negative = WindowsCC::new(1, -1).unwrap();
    assert_eq!(negative.window(), -1);
}

#[test]
fn new_reports_which_step_failed() {
    assert_eq!(WindowsCC::new(0, 5), Err("Failed to create Window class"));
    assert_eq!(WindowsCC::new(0, 0), Err("Failed to create Window class"));
    assert_eq!(WindowsCC::new(5, 0), Err("Window handle could not be created"));
}

#[test]
fn window_name_is_a_random_uuid() {
    let name = WindowsCC::window_name();
    assert_eq!(name.len(), 37);
    assert_eq!(name[36], 0);
    let id = std::str::from_utf8(&name[..36]).unwrap();
    for (i, c) in id.chars().enumerate() {
        if i == 8 || i == 13 || i == 18 || i == 23 {
            assert_eq!(c, '-');
        } else {
            assert!(matches!(c, '0'..='9' | 'a'..='f'));
        }
    }
    assert_eq!(name[14], b'4');
    assert!(matches!(name[19], b'8' | b'9' | b'a' | b'b'));
    assert_eq!(uuid::Uuid::parse_str(id).unwrap().get_version_num(), 4);
    assert_eq!(uuid::Uuid::parse_str(id).unwrap().hyphenated().to_string(), id);
}

#[test]
fn window_names_differ() {
    assert_ne!(WindowsCC::window_name(), WindowsCC::window_name());
}

#[test]
fn best_item_is_that_of_the_first_format() {
    let wide = [0x48, 0, 0x69, 0, 0, 0];
    let clipboard = clipboard_of(vec![slot(13, &wide), slot(1, b"Hi\0")]);
    assert_eq!(clipboard.get_clipboard_item(), Some(ClipboardItem::UnicodeText("Hi".to_owned())));
    let clipboard = clipboard_of(vec![slot(1, b"Hi\0"), slot(13, &wide)]);
    assert_eq!(clipboard.get_clipboard_item(), Some(ClipboardItem::Text("Hi".to_owned())));
}

#[test]
fn best_item_is_nothing_where_the_first_format_gives_none() {
    let clipboard = clipboard_of(vec![slot(2, &[1, 2, 3]), slot(1, b"Hi\0")]);
    assert_eq!(clipboard.get_clipboard_item(), None);
    let clipboard = clipboard_of(vec![slot(0xC0DE, &[1, 2, 3]), slot(1, b"Hi\0")]);
    assert_eq!(clipboard.get_clipboard_item(), None);
    let clipboard = clipboard_of(vec![slot(1, &[0xFF, 0]), slot(13, &[0x48, 0, 0, 0])]);
    assert_eq!(clipboard.get_clipboard_item(), None);
    let clipboard = clipboard_of(vec![FormatData { format: 1, data: None }]);
    assert_eq!(clipboard.get_clipboard_item(), None);
    assert_eq!(clipboard_of(vec![]).get_clipboard_item(), None);
}

#[test]
fn all_items_come_in_the_order_of_the_formats() {
    let clipboard = clipboard_of(vec![
        slot(13, &[0x48, 0, 0x69, 0, 0, 0]),
        slot(16, &[9, 4, 0, 0]),
        slot(1, b"Hi\0"),
        slot(7, b"Hi\0"),
    ]);
    assert_eq!(
        clipboard.get_clipboard_items(),
        Some(vec![
            ClipboardItem::UnicodeText("Hi".to_owned()),
            ClipboardItem::Text("Hi".to_owned()),
        ])
    );
    assert_eq!(clipboard.get_number_of_formats(), 4);
}

#[test]
fn formats_that_give_no_item_are_passed_over() {
    let clipboard = clipboard_of(vec![
        slot(0xC0DE, b"private"),
        slot(2, &[1, 2, 3]),
        slot(1, &[0xFF, 0xFE, 0]),
        FormatData { format: 13, data: None },
    ]);
    assert_eq!(clipboard.get_clipboard_items(), Some(vec![]));
    assert_eq!(clipboard.get_number_of_formats(), 4);
    assert_eq!(clipboard_of(vec![]).get_clipboard_items(), Some(vec![]));
}

#[test]
fn one_recognised_and_one_unknown_format_give_one_item() {
    for formats in [
        vec![slot(1, b"plain\0"), slot(0xC0DE, &[1])],
        vec![slot(0xC0DE, &[1]), slot(1, b"plain\0")],
    ] {
        let clipboard = clipboard_of(formats);
        assert_eq!(
            clipboard.get_clipboard_items(),
            Some(vec![ClipboardItem::Text("plain".to_owned())])
        );
    }
}

#[test]
fn a_format_is_read_from_its_first_entry() {
    let clipboard = clipboard_of(vec![slot(1, b"first\0"), slot(1, b"second\0")]);
    assert_eq!(
        clipboard.get_clipboard_items(),
        Some(vec![ClipboardItem::Text("first".to_owned()), ClipboardItem::Text("first".to_owned())])
    );
}

#[test]
fn only_text_formats_become_items() {
    let clipboard =
        clipboard_of(vec![slot(1, b"Hi\0"), slot(13, &[0x48, 0, 0, 0]), slot(2, &[1])]);
    assert_eq!(
        clipboard.clipboard_format_as_clipboard_item(ClipboardFormat::TEXT),
        Some(ClipboardItem::Text("Hi".to_owned()))
    );
    assert_eq!(
        clipboard.clipboard_format_as_clipboard_item(ClipboardFormat::UNICODETEXT),
        Some(ClipboardItem::UnicodeText("H".to_owned()))
    );
    for format in [
        ClipboardFormat::BITMAP,
        ClipboardFormat::OEMTEXT,
        ClipboardFormat::DSPTEXT,
        ClipboardFormat::TIFF,
        ClipboardFormat::HDROP,
        ClipboardFormat::GDIOBJLAST,
    ] {
        assert_eq!(clipboard.clipboard_format_as_clipboard_item(format), None);
    }
}

#[test]
fn a_text_format_that_is_not_on_offer_gives_nothing() {
    let clipboard = clipboard_of(vec![slot(13, &[0x48, 0, 0, 0])]);
    assert_eq!(clipboard.clipboard_format_as_clipboard_item(ClipboardFormat::TEXT), None);
}

#[test]
fn an_empty_buffer_is_empty_text() {
    let clipboard = clipboard_of(vec![slot(1, &[]), slot(13, &[])]);
    assert_eq!(
        clipboard.get_clipboard_items(),
        Some(vec![ClipboardItem::Text(String::new()), ClipboardItem::UnicodeText(String::new())])
    );
}

#[test]
fn a_write_installs_one_zero_terminated_buffer() {
    let mut clipboard = clipboard_of(vec![slot(2, &[1, 2, 3]), slot(1, b"old\0")]);
    assert_eq!(clipboard.set_clipboard_item(ClipboardItem::Text("Hello".to_owned())), Ok(()));
    assert_eq!(clipboard.formats(), &Some(vec![slot(1, b"Hello\0")]));
    assert_eq!(clipboard.set_clipboard_item(ClipboardItem::UnicodeText("Hi".to_owned())), Ok(()));
    assert_eq!(clipboard.formats(), &Some(vec![slot(13, &[0x48, 0, 0x69, 0, 0, 0])]));
    assert_eq!(clipboard.get_number_of_formats(), 1);
}

#[test]
fn a_write_keeps_window_and_monitor() {
    let mut clipboard = WindowsCC::new(3, 77).unwrap();
    assert!(!clipboard.has_clipboard_changed());
    window_proc(&mut clipboard, WM_CLIPBOARDUPDATE);
    clipboard.set_clipboard_item(ClipboardItem::Text("x".to_owned())).unwrap();
    assert_eq!(clipboard.window(), 77);
    assert!(clipboard.has_clipboard_changed());
}

#[test]
fn an_unsupported_write_leaves_the_content() {
    let mut clipboard = clipboard_of(vec![slot(1, b"kept\0")]);
    let before = clipboard.clone();
    assert_eq!(
        clipboard.set_clipboard_item(ClipboardItem::Png(vec![1, 2, 3])),
        Err(WriteError::Unsupported)
    );
    assert_eq!(
        clipboard.set_clipboard_item(ClipboardItem::RawBytes(vec![])),
        Err(WriteError::Unsupported)
    );
    assert_eq!(clipboard, before);
}

#[test]
fn a_closed_clipboard_gives_nothing() {
    let mut clipboard = clipboard_of(vec![slot(1, b"x\0")]);
    clipboard.load(None);
    assert_eq!(clipboard.formats(), &None);
    assert_eq!(clipboard.get_clipboard_item(), None);
    assert_eq!(clipboard.get_clipboard_items(), None);
    assert_eq!(clipboard.get_number_of_formats(), 0);
    assert_eq!(clipboard.clipboard_format_as_clipboard_item(ClipboardFormat::TEXT), None);
    assert_eq!(
        clipboard.set_clipboard_item(ClipboardItem::Text("x".to_owned())),
        Err(WriteError::Platform)
    );
    assert_eq!(clipboard.formats(), &None);
}

#[test]
fn only_the_update_message_raises_the_flag() {
    let mut clipboard = WindowsCC::new(1, 1).unwrap();
    assert!(!clipboard.has_clipboard_changed());
    for msg in [0u32, 1, 0x000F, 0x031C, 0x031E, 0x0308, u32::MAX] {
        window_proc(&mut clipboard, msg);
        assert!(!clipboard.has_clipboard_changed());
    }
    window_proc(&mut clipboard, 0x031D);
    assert!(clipboard.has_clipboard_changed());
    assert!(!clipboard.has_clipboard_changed());
}

#[test]
fn updates_between_polls_are_reported_once() {
    let mut clipboard = WindowsCC::new(1, 1).unwrap();
    assert!(!clipboard.has_clipboard_changed());
    window_proc(&mut clipboard, WM_CLIPBOARDUPDATE);
    window_proc(&mut clipboard, WM_CLIPBOARDUPDATE);
    window_proc(&mut clipboard, 0x000F);
    assert!(clipboard.has_clipboard_changed());
    assert!(!clipboard.has_clipboard_changed());
}

#[test]
fn loading_keeps_the_monitor() {
    let mut clipboard = WindowsCC::new(1, 1).unwrap();
    assert!(!clipboard.has_clipboard_changed());
    window_proc(&mut clipboard, WM_CLIPBOARDUPDATE);
    clipboard.load(Some(vec![slot(1, b"new\0")]));
    assert!(clipboard.has_clipboard_changed());
}
