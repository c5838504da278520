//! Format names and message dispatch.

use clipwatch::formats::{
    clipboard_available_formats, format_display_name, GetPredefinedClipboardFormatName,
};
use clipwatch::listener::{dispatch_message, HostDirective};

#[test]
fn predefined_format_names_are_found_by_identifier() {
    assert_eq!(GetPredefinedClipboardFormatName(2), Some("CF_BITMAP"));
    assert_eq!(GetPredefinedClipboardFormatName(8), Some("CF_DIB"));
    assert_eq!(GetPredefinedClipboardFormatName(17), Some("CF_DIBV5"));
    assert_eq!(GetPredefinedClipboardFormatName(1), Some("CF_TEXT"));
    assert_eq!(GetPredefinedClipboardFormatName(13), Some("CF_UNICODETEXT"));
    assert_eq!(GetPredefinedClipboardFormatName(1023), Some("CF_GDIOBJLAST"));
    assert_eq!(GetPredefinedClipboardFormatName(0), None);
    assert_eq!(GetPredefinedClipboardFormatName(20000), None);
}

#[test]
fn available_formats_keep_the_table_order() {
    let mut flags = vec![false; 26];
    flags[0] = true; // CF_BITMAP
    flags[1] = true; // CF_DIB
    flags[22] = true; // CF_TEXT
    let names = clipboard_available_formats(&flags);
    assert_eq!(names, vec!["CF_BITMAP", "CF_DIB", "CF_TEXT"]);

    let none = clipboard_available_formats(&vec![false; 26]);
    assert!(none.is_empty());

    let all = clipboard_available_formats(&vec![true; 26]);
    assert_eq!(all.len(), 26);
    assert_eq!(all[0], "CF_BITMAP");
    assert_eq!(all[25], "CF_WAVE");
}

#[test]
fn display_name_prefers_the_host_reported_name() {
    assert_eq!(format_display_name(8, Some("my.format".to_string())), "my.format");
    assert_eq!(format_display_name(8, Some(String::new())), "CF_DIB");
    assert_eq!(format_display_name(8, None), "CF_DIB");
    assert_eq!(format_display_name(54321, None), "[unknown format]");
    assert_eq!(format_display_name(54321, Some(String::new())), "[unknown format]");
}

#[test]
fn window_messages_map_to_their_directives() {
    assert_eq!(dispatch_message(0x0001), HostDirective::Subscribe);
    assert_eq!(dispatch_message(0x0002), HostDirective::Unsubscribe);
    assert_eq!(dispatch_message(0x031d), HostDirective::HandleChange);
    assert_eq!(dispatch_message(0x0000), HostDirective::Ignore);
    assert_eq!(dispatch_message(0x0400), HostDirective::Ignore);
}
