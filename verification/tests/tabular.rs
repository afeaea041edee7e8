use tasks::domain::{Task, TaskId, Timestamp};
use tasks::tabular::{
    add_value_to_start_and_end_of_string, format_string_to_constraint, get_formatted_cell,
    get_tasks_table, Alignment, Column, ConsoleTableBuilder, ConsoleTableError,
};

fn sample_task(id: u32, description: &str) -> Task {
    Task {
        id: TaskId::from(id),
        description: description.to_string(),
        completed_at: None,
        created_at: Timestamp::new(2024, 3, 7, 9, 5, 0),
        scope: None,
    }
}

#[test]
fn value_at_exact_width_is_unchanged() {
    assert_eq!("abcde", get_formatted_cell("abcde", 5, Alignment::Left).as_str());
    assert_eq!("abcde", get_formatted_cell("abcde", 5, Alignment::Right).as_str());
    assert_eq!("abcde", get_formatted_cell("abcde", 5, Alignment::Center).as_str());
}

#[test]
fn short_value_is_padded_by_alignment() {
    assert_eq!("ab    ", get_formatted_cell("ab", 6, Alignment::Left).as_str());
    assert_eq!("    ab", get_formatted_cell("ab", 6, Alignment::Right).as_str());
    assert_eq!("  ab  ", get_formatted_cell("ab", 6, Alignment::Center).as_str());
    // The odd leftover space of center alignment goes to the right.
    assert_eq!(" ab  ", get_formatted_cell("ab", 5, Alignment::Center).as_str());
}

#[test]
fn long_value_is_truncated_without_padding() {
    assert_eq!("abcd", get_formatted_cell("abcdefghij", 4, Alignment::Left).as_str());
    assert_eq!("abcd", get_formatted_cell("abcdefghij", 4, Alignment::Right).as_str());
    assert_eq!("abcd", get_formatted_cell("abcdefghij", 4, Alignment::Center).as_str());
}

#[test]
fn truncation_counts_characters_not_bytes() {
    assert_eq!("aé", format_string_to_constraint("aéz", 2));
    assert_eq!("xyz", format_string_to_constraint("xyz", 5));
}

#[test]
fn wrapping_adds_the_value_on_both_ends() {
    assert_eq!("|abc|", add_value_to_start_and_end_of_string("abc".to_string(), "|").as_str());
    assert_eq!("++", add_value_to_start_and_end_of_string(String::new(), "+").as_str());
}

#[test]
fn empty_builder_fails_with_no_columns() {
    let builder: ConsoleTableBuilder = ConsoleTableBuilder::new(20);
    assert_eq!(ConsoleTableError::NoColumns, builder.build().unwrap_err());
}

#[test]
fn too_many_columns_fail() {
    let mut builder: ConsoleTableBuilder = ConsoleTableBuilder::new(255);
    for i in 0..256 {
        builder = builder.add_column(Column::new("C", i), 1);
    }
    assert_eq!(ConsoleTableError::TooManyColumns, builder.build().unwrap_err());
}

#[test]
fn narrow_width_fails_with_insufficient_width() {
    // Two weight-1 columns need at least 3 border characters plus 2 body
    // characters.
    let builder = ConsoleTableBuilder::new(4)
        .add_column(Column::new("A", 0), 1)
        .add_column(Column::new("B", 1), 1);
    assert_eq!(ConsoleTableError::InsufficientWidth, builder.build().unwrap_err());
}

#[test]
fn zero_weight_fails_with_insufficient_width() {
    let builder = ConsoleTableBuilder::new(20)
        .add_column(Column::new("A", 0), 1)
        .add_column(Column::new("B", 1), 0);
    assert_eq!(ConsoleTableError::InsufficientWidth, builder.build().unwrap_err());
}

#[test]
fn builder_meeting_all_minimums_succeeds() {
    let builder = ConsoleTableBuilder::new(5)
        .add_column(Column::new("A", 0), 1)
        .add_column(Column::new("B", 1), 1);
    assert!(builder.build().is_ok());
}

#[test]
fn minimal_table_gives_every_column_one_character() {
    let table = ConsoleTableBuilder::new(5)
        .add_column(Column::new("A", 0), 1)
        .add_column(Column::new("B", 1), 1)
        .build()
        .unwrap();
    let rows: Vec<Task> = Vec::new();
    let lines = table.render_lines(&rows);
    assert_eq!(vec!["+-+-+", "|A|B|", "+-+-+", "+-+-+"], lines);
}

#[test]
fn two_column_table_renders_a_row_at_the_weighted_widths() {
    // Width 20 leaves an interior of 17 for two weight-1 columns, so each
    // body is 8 characters wide and every line is 19 characters: the
    // remainder of the shared division stays unallocated.
    let table = ConsoleTableBuilder::new(20)
        .add_column(Column::new("ID", 0).set_data_alignment(Alignment::Right), 1)
        .add_column(Column::new("Name", 1), 1)
        .build()
        .unwrap();
    let rows = vec![sample_task(3, "Bob")];
    let lines = table.render_lines(&rows);
    assert_eq!(5, lines.len());
    for line in &lines {
        assert_eq!(19, line.chars().count());
    }
    assert_eq!("+--------+--------+", lines[0]);
    assert_eq!("|   ID   |  Name  |", lines[1]);
    assert_eq!("+--------+--------+", lines[2]);
    assert_eq!("|       3|  Bob   |", lines[3]);
    assert_eq!("+--------+--------+", lines[4]);
    table.print(&rows);
}

#[test]
fn tasks_table_lays_out_five_columns() {
    let table = get_tasks_table(120).build().unwrap();
    let mut completed = sample_task(1, "Buy milk");
    completed.toggle_complete();
    let rows = vec![completed, sample_task(2, "Call home")];
    let lines = table.render_lines(&rows);
    assert_eq!(6, lines.len());
    // Interior 114, total weight 18: unit width 6, so the lines use
    // 6 + 18 * 6 = 114 of the 120 requested characters.
    for line in &lines {
        assert_eq!(114, line.chars().count());
    }
    assert!(lines[1].starts_with("|  ID  |"));
    assert!(lines[3].starts_with("|     1|"));
    assert!(lines[3].contains("Buy milk"));
    assert!(lines[3].contains("x"));
    assert!(lines[4].starts_with("|     2|"));
    assert!(lines[4].contains("2024-03-07 09:05:00"));
}

#[test]
fn header_longer_than_its_column_is_truncated() {
    let table = ConsoleTableBuilder::new(7)
        .add_column(Column::new("Description", 0), 1)
        .add_column(Column::new("B", 1), 1)
        .build()
        .unwrap();
    let rows: Vec<Task> = Vec::new();
    let lines = table.render_lines(&rows);
    // Interior 4, total weight 2: each body is 2 characters.
    assert_eq!("|De|B |", lines[1]);
}
