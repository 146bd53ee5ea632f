use electron_architect::console::{count_lines, Console, ConsoleEntryType, LONG_ENTRY_WARNING};

#[test]
fn test_new_console() {
    let console = Console::new();
    assert_eq!(console.entries.len(), 0);
}

#[test]
fn test_add_log() {
    let mut console = Console::new();

    console.log("Hello world");
    assert_eq!(console.entries.len(), 1);
}

#[test]
fn test_add_duplicate_logs() {
    let mut console = Console::new();

    let test_string: &str = "Apple";

    console.log(test_string);
    assert_eq!(console.entries.len(), 1);
    assert_eq!(console.entries.last().unwrap().dups, 0);

    console.log(test_string);
    assert_eq!(console.entries.len(), 1);
    assert_eq!(console.entries.last().unwrap().dups, 1);

    console.log(test_string);
    assert_eq!(console.entries.len(), 1);
    assert_eq!(console.entries.last().unwrap().dups, 2);
}

#[test]
fn test_add_unique_logs() {
    let mut console = Console::new();

    let test_string_a: &str = "Apple";
    let test_string_b: &str = "Banana";
    assert_ne!(test_string_a, test_string_b);

    console.log(test_string_a);
    assert_eq!(console.entries.len(), 1);
    assert_eq!(console.entries.last().unwrap().dups, 0);

    console.log(test_string_b);
    assert_eq!(console.entries.len(), 2);
    assert_eq!(console.entries.last().unwrap().dups, 0);
}

#[test]
fn test_count_lines_matches_str_lines() {
    let samples: Vec<&str> = vec![
        "",
        "a",
        "a\n",
        "\n",
        "a\nb",
        "a\nb\n",
        "a\n\nb",
        "a\r\nb",
        "one\ntwo\nthree",
    ];
    for s in samples {
        assert_eq!(count_lines(s), s.lines().count(), "text: {:?}", s);
    }
}

#[test]
fn test_dup_count_saturates() {
    let mut console = Console::new();
    for _ in 0..105 {
        console.log("same line");
    }
    assert_eq!(console.entries.len(), 1);
    // The count stops moving once it has passed MAX_DUPLICATES.
    assert_eq!(console.entries.last().unwrap().dups, 100);
}

#[test]
fn test_mixed_kinds_do_not_collapse() {
    let mut console = Console::new();
    console.log("same text");
    console.warn("same text");
    assert_eq!(console.entries.len(), 2);
    assert_eq!(console.entries[0].kind, ConsoleEntryType::Log);
    assert_eq!(console.entries[1].kind, ConsoleEntryType::Warning);
    console.err("same text");
    console.debug("same text");
    assert_eq!(console.entries.len(), 4);
    assert_eq!(console.entries[2].kind, ConsoleEntryType::Error);
    assert_eq!(console.entries[3].kind, ConsoleEntryType::Debug);
}

#[test]
fn test_long_entry_gets_warning() {
    let mut console = Console::new();
    let tall = "1\n2\n3\n4\n5\n6\n7\n8\n9\n10\n11";
    assert_eq!(count_lines(tall), 11);
    console.log(tall);
    assert_eq!(console.entries.len(), 2);
    assert_eq!(console.entries[0].text, tall);
    assert_eq!(console.entries[1].text, LONG_ENTRY_WARNING);
    assert_eq!(console.entries[1].kind, ConsoleEntryType::Warning);
}

#[test]
fn test_scrolling_bounds() {
    let mut console = Console::new();
    console.scroll_up();
    assert_eq!(console.start_entry, 0);
    console.scroll_down();
    assert_eq!(console.start_entry, 0);
    for i in 0..12 {
        console.log(&format!("entry {}", i));
    }
    // Adding an entry scrolls down; the window start trails the end by
    // MAX_LINES once there are more entries than fit.
    assert_eq!(console.start_entry, 2);
    console.scroll_up();
    assert_eq!(console.start_entry, 1);
    console.scroll_up();
    assert_eq!(console.start_entry, 0);
    console.scroll_up();
    assert_eq!(console.start_entry, 0);
    console.scroll_down();
    console.scroll_down();
    assert_eq!(console.start_entry, 2);
    console.scroll_down();
    assert_eq!(console.start_entry, 2);
}

#[test]
fn test_visible_entries_window() {
    let mut console = Console::new();
    for i in 0..3 {
        console.log(&format!("entry {}", i));
    }
    assert_eq!(console.visible_entries().len(), 3);
    for i in 3..12 {
        console.log(&format!("entry {}", i));
    }
    // start_entry is 2; nine one-line entries fill the window, the tenth
    // would reach MAX_LINES.
    assert_eq!(console.start_entry, 2);
    let visible = console.visible_entries();
    assert_eq!(visible.len(), 9);
    assert_eq!(visible[0].text, "entry 2");
    assert_eq!(visible[8].text, "entry 10");
}

#[test]
fn test_visible_entries_tall_entry() {
    let mut console = Console::new();
    console.log("a\nb\nc\nd");
    console.log("e\nf\ng\nh");
    console.log("i\nj");
    // 4 + 4 lines fit under MAX_LINES; adding the 2-line entry would reach it.
    let visible = console.visible_entries();
    assert_eq!(visible.len(), 2);
    assert_eq!(visible[0].text, "a\nb\nc\nd");
}

#[test]
fn test_entry_heights() {
    let mut console = Console::new();
    console.log("a\nb\nc");
    let entry = &console.entries[0];
    assert_eq!(entry.num_lines(), 3);
    assert_eq!(entry.height(), 36);
}
