use githooks::emoji::emojifi_string;
use githooks::highlight::{
    styled_spans_for_line, syntact_style_to_tui, StyledRange, SynStyle, FONT_BOLD, FONT_ITALIC,
    FONT_UNDERLINE,
};
use githooks::progress::{AsyncProgressBuffer, ProgressPercent};

#[test]
fn test_emojifi_string_replaces_shortcode() {
    assert_eq!(emojifi_string(String::from("let's :hammer: it")), "let's \u{1F528} it");
    assert_eq!(emojifi_string(String::from(":smile:")), "\u{1F604}");
}

#[test]
fn test_emojifi_string_keeps_plain_text() {
    assert_eq!(emojifi_string(String::from("no emoji here")), "no emoji here");
    assert_eq!(emojifi_string(String::from(":not_a_real_emoji_404:")), ":not_a_real_emoji_404:");
}

#[test]
fn test_progress_percent_values() {
    assert_eq!(ProgressPercent::new(0, 0).progress, 100);
    assert_eq!(ProgressPercent::new(0, 4).progress, 0);
    assert_eq!(ProgressPercent::new(1, 2).progress, 50);
    assert_eq!(ProgressPercent::new(3, 4).progress, 75);
    assert_eq!(ProgressPercent::new(5, 4).progress, 100);
}

#[test]
fn test_progress_buffer_throttles() {
    let mut buffer = AsyncProgressBuffer::new(100, 200);
    // before any send a report is always due
    assert!(buffer.update(1, 0));
    let p = buffer.send_progress(1_000);
    assert_eq!(p.progress, 1);
    // within the interval: hold back
    assert!(!buffer.update(2, 1_100));
    assert!(!buffer.update(3, 1_200));
    // past the interval: report again
    assert!(buffer.update(4, 1_201));
    let p2 = buffer.send_progress(1_300);
    assert_eq!(p2.progress, 4);
    assert!(!buffer.update(5, 1_400));
}

#[test]
fn test_style_conversion_bits() {
    let style = SynStyle { fg_r: 10, fg_g: 20, fg_b: 30, font_style: FONT_BOLD | FONT_ITALIC };
    let tui = syntact_style_to_tui(&style);
    assert_eq!((tui.fg_r, tui.fg_g, tui.fg_b), (10, 20, 30));
    assert!(tui.bold);
    assert!(tui.italic);
    assert!(!tui.underline);
    let underlined = SynStyle { fg_r: 0, fg_g: 0, fg_b: 0, font_style: FONT_UNDERLINE };
    assert!(syntact_style_to_tui(&underlined).underline);
}

#[test]
fn test_styled_spans_slice_line() {
    let plain = SynStyle { fg_r: 1, fg_g: 2, fg_b: 3, font_style: 0 };
    let bold = SynStyle { fg_r: 4, fg_g: 5, fg_b: 6, font_style: FONT_BOLD };
    let items = vec![
        StyledRange { style: plain, line: 0, start: 0, end: 5 },
        StyledRange { style: bold, line: 0, start: 6, end: 11 },
    ];
    let spans = styled_spans_for_line("hello world", &items).unwrap();
    assert_eq!(spans.len(), 2);
    assert_eq!(spans[0].content, "hello");
    assert_eq!(spans[1].content, "world");
    assert!(!spans[0].style.bold);
    assert!(spans[1].style.bold);
}

#[test]
fn test_styled_spans_reject_bad_range() {
    let plain = SynStyle { fg_r: 0, fg_g: 0, fg_b: 0, font_style: 0 };
    let too_far = vec![StyledRange { style: plain, line: 0, start: 0, end: 6 }];
    assert!(styled_spans_for_line("short", &too_far).is_none());
    let reversed = vec![StyledRange { style: plain, line: 0, start: 3, end: 1 }];
    assert!(styled_spans_for_line("short", &reversed).is_none());
}
