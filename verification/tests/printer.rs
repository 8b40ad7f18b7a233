use lemmeknow::describe::{compose_description, join_tags};
use lemmeknow::output::{rendered_output, PrintMode};
use lemmeknow::records::{Data, Match};

const RED_STATUS: &str = "\x1b[0;31mNo Possible Identifications :(\x1b[0m";
const GREEN_STATUS: &str = "\x1b[0;32mFound Possible Identifications :)\x1b[0m";

fn record(text: &str, name: &str) -> Match {
    Match {
        text: text.to_string(),
        data: Data {
            name: name.to_string(),
            description: None,
            url: None,
            exploit: None,
            rarity: "0.5".to_string(),
            tags: vec!["x".to_string()],
        },
    }
}

#[test]
fn no_results_only_status_line() {
    let lines = rendered_output(&[], &PrintMode::Normal);
    assert_eq!(lines.len(), 1);
    assert_eq!(lines[0], RED_STATUS);

    let lines = rendered_output(&[], &PrintMode::Verbose);
    assert_eq!(lines.len(), 1);
    assert_eq!(lines[0], RED_STATUS);
}

#[test]
fn found_status_line_then_table() {
    let results = vec![record("alpha", "A"), record("beta", "B")];
    let lines = rendered_output(&results, &PrintMode::Normal);
    assert_eq!(lines.len(), 2);
    assert_eq!(lines[0], GREEN_STATUS);
    let table = &lines[1];
    assert!(table.contains("alpha"));
    assert!(table.contains("beta"));
    assert!(table.starts_with('┌'));
    assert!(table.contains('└'));
    // Two data rows are drawn with exactly one row-separator line between
    // them, besides the single header separator.
    assert_eq!(table.matches('├').count(), 1);
    assert_eq!(table.matches('╞').count(), 1);
}

#[test]
fn header_columns_normal() {
    let results = vec![record("alpha", "A")];
    let lines = rendered_output(&results, &PrintMode::Normal);
    let table = &lines[1];
    assert!(table.contains("Matched text"));
    assert!(table.contains("Identified as"));
    assert!(table.contains("Description"));
    assert!(!table.contains("Rarity"));
    assert!(!table.contains("Tags"));
    // Three columns: two inner dividers on the header line.
    let header = table
        .lines()
        .find(|line| line.contains("Matched text"))
        .unwrap();
    assert_eq!(header.matches('┆').count(), 2);
}

#[test]
fn header_columns_verbose() {
    let results = vec![record("alpha", "A")];
    let lines = rendered_output(&results, &PrintMode::Verbose);
    let table = &lines[1];
    assert!(table.contains("Matched text"));
    assert!(table.contains("Identified as"));
    assert!(table.contains("Description"));
    assert!(table.contains("Rarity"));
    assert!(table.contains("Tags"));
    // Five columns: four inner dividers on the header line.
    let header = table
        .lines()
        .find(|line| line.contains("Matched text"))
        .unwrap();
    assert_eq!(header.matches('┆').count(), 4);
}

#[test]
fn unicode_full_border_preset_applied() {
    let results = vec![record("alpha", "A")];
    let lines = rendered_output(&results, &PrintMode::Normal);
    let table = &lines[1];
    // The UTF8_FULL preset draws unicode borders and a header separator;
    // a freshly created table would instead use plain ASCII borders.
    assert!(table.contains('╞'));
    assert!(table.contains('│'));
    assert!(!table.contains("+--"));
}

#[test]
fn description_defaults_to_none() {
    let d = compose_description(&None, &None, "abc", &None);
    assert_eq!(d, "None");
}

#[test]
fn description_alone_is_kept() {
    let d = compose_description(&Some("foo".to_string()), &None, "abc", &None);
    assert_eq!(d, "foo");
}

#[test]
fn url_is_joined_directly_to_text() {
    let d = compose_description(&None, &Some("http://x/".to_string()), "abc", &None);
    assert_eq!(d, " URL: http://x/abc\n");
    assert!(d.contains("URL: http://x/abc"));
}

#[test]
fn exploit_is_appended_without_separator() {
    let d = compose_description(&Some("desc".to_string()), &None, "abc", &Some("note".to_string()));
    assert_eq!(d, "descExploit: note");
}

#[test]
fn all_description_parts_in_order() {
    let d = compose_description(
        &Some("d".to_string()),
        &Some("u".to_string()),
        "t",
        &Some("e".to_string()),
    );
    assert_eq!(d, "d URL: ut\nExploit: e");
}

#[test]
fn tags_joined_with_comma_space() {
    let tags = vec!["a".to_string(), "b".to_string(), "c".to_string()];
    assert_eq!(join_tags(&tags), "a, b, c");
    assert_eq!(join_tags(&vec!["a".to_string()]), "a");
    assert_eq!(join_tags(&Vec::new()), "");
}

#[test]
fn rows_keep_input_order() {
    let results = vec![record("alphafirst", "A"), record("betasecond", "B")];
    let lines = rendered_output(&results, &PrintMode::Normal);
    let table = &lines[1];
    let first = table.find("alphafirst").unwrap();
    let second = table.find("betasecond").unwrap();
    assert!(first < second);
}

#[test]
fn verbose_end_to_end() {
    let results = vec![Match {
        text: "foo".to_string(),
        data: Data {
            name: "Bar".to_string(),
            description: None,
            url: None,
            exploit: None,
            rarity: "0.5".to_string(),
            tags: vec!["x".to_string()],
        },
    }];
    let lines = rendered_output(&results, &PrintMode::Verbose);
    assert_eq!(lines.len(), 2);
    assert_eq!(lines[0], GREEN_STATUS);
    let table = &lines[1];
    assert!(table.contains("Matched text"));
    assert!(table.contains("Identified as"));
    assert!(table.contains("Description"));
    assert!(table.contains("Rarity"));
    assert!(table.contains("Tags"));
    // The single data row holds the five cells in order, separated by the
    // preset's inner column divider.
    let row = table
        .lines()
        .find(|line| line.contains("foo"))
        .unwrap();
    assert_eq!(row.matches('┆').count(), 4);
    let cells: Vec<&str> = row
        .trim_matches('│')
        .split('┆')
        .map(str::trim)
        .collect();
    assert_eq!(cells, vec!["foo", "Bar", "None", "0.5", "x"]);
}

#[test]
fn print_writes_both_modes() {
    PrintMode::Normal.print(&[]);
    PrintMode::Verbose.print(&[record("alpha", "A")]);
}
