use tasks::cli::{Cli, Commands, ScopeCommands};
use tasks::configuration::{DatabaseSettings, Settings};
use tasks::domain::{NewTask, Scope, Task, Timestamp};
use tasks::generator::Generator;
use tasks::tabular::TableRow;

#[test]
fn scope_is_lowercased() {
    let scope = Scope::new("WoRk".to_string());
    assert_eq!("work", scope.as_ref());
}

#[test]
fn timestamp_renders_zero_padded() {
    let ts = Timestamp::new(2024, 3, 7, 9, 5, 0);
    assert_eq!("2024-03-07 09:05:00", ts.to_text().as_str());
    let early = Timestamp::new(1, 12, 31, 23, 59, 59);
    assert_eq!("0001-12-31 23:59:59", early.to_text().as_str());
}

#[test]
fn new_task_takes_the_next_id_and_is_uncompleted() {
    let mut generator = Generator::from(9);
    let task = Task::new(
        NewTask { description: "Water plants".to_string(), scope: Some(Scope::new("Home".to_string())) },
        &mut generator,
    );
    assert_eq!(9u32, u32::from(task.id));
    assert_eq!("Water plants", task.description.as_str());
    assert!(task.completed_at.is_none());
    assert_eq!("home", task.scope.as_ref().unwrap().as_ref());
}

#[test]
fn stored_row_becomes_a_task() {
    let created = Timestamp::new(2024, 3, 7, 9, 5, 0);
    let task = Task::from(4, "Read".to_string(), None, created, Some("BOOKS".to_string()))
        .expect("an ordinary local time resolves");
    assert_eq!(4u32, u32::from(task.id));
    assert_eq!("Read", task.description.as_str());
    assert_eq!(created, task.created_at);
    assert!(task.completed_at.is_none());
    assert_eq!("books", task.scope.as_ref().unwrap().as_ref());
}

#[test]
fn unresolved_creation_time_rejects_the_row() {
    assert!(Task::from_resolved(1, "Read".to_string(), None, None, None).is_none());
}

#[test]
fn resolved_row_keeps_its_fields() {
    let created = Timestamp::new(2024, 3, 7, 9, 5, 0);
    let done = Timestamp::new(2024, 3, 8, 10, 0, 0);
    let task = Task::from_resolved(2, "Read".to_string(), Some(done), Some(created), None).unwrap();
    assert_eq!(done, task.completed_at.unwrap());
    assert_eq!(created, task.created_at);
    assert!(task.scope.is_none());
}

#[test]
fn toggle_complete_flips_the_stamp() {
    let created = Timestamp::new(2024, 3, 7, 9, 5, 0);
    let mut task = Task::from_resolved(1, "Read".to_string(), None, Some(created), None).unwrap();
    assert!(task.completed_at.is_none());
    task.toggle_complete();
    assert!(task.completed_at.is_some());
    task.toggle_complete();
    assert!(task.completed_at.is_none());
}

#[test]
fn task_cells_show_each_field() {
    let created = Timestamp::new(2024, 3, 7, 9, 5, 0);
    let mut task =
        Task::from_resolved(12, "Read".to_string(), None, Some(created), Some("Books".to_string()))
            .unwrap();
    assert_eq!("12", task.cell(0).as_str());
    assert_eq!("Read", task.cell(1).as_str());
    assert_eq!("books", task.cell(2).as_str());
    assert_eq!("2024-03-07 09:05:00", task.cell(3).as_str());
    assert_eq!(" ", task.cell(4).as_str());
    task.toggle_complete();
    assert_eq!("x", task.cell(4).as_str());
}

#[test]
fn scopeless_task_shows_the_none_marker() {
    let created = Timestamp::new(2024, 3, 7, 9, 5, 0);
    let task = Task::from_resolved(1, "Read".to_string(), None, Some(created), None).unwrap();
    assert_eq!("None", task.cell(2).as_str());
}

#[test]
fn missing_command_defaults_to_listing_everything() {
    let cli = Cli { command: None };
    assert!(matches!(cli.get_command(), Commands::List { scope: None }));
}

#[test]
fn given_command_is_returned_as_is() {
    let cli = Cli {
        command: Some(Commands::Add { description: "Read".to_string(), scope: Some("b".to_string()) }),
    };
    match cli.get_command() {
        Commands::Add { description, scope } => {
            assert_eq!("Read", description.as_str());
            assert_eq!("b", scope.unwrap().as_str());
        },
        _ => panic!("expected the add command back"),
    }
    let scopes = Cli { command: Some(Commands::Scope { action: ScopeCommands::List }) };
    assert!(matches!(scopes.get_command(), Commands::Scope { action: ScopeCommands::List }));
}

#[test]
fn settings_keep_their_location() {
    let settings = Settings::new(std::path::PathBuf::from("tasks.db"));
    assert_eq!(std::path::PathBuf::from("tasks.db"), settings.location);
    let db = DatabaseSettings { location: "sqlite://tasks.db".to_string() };
    assert_eq!("sqlite://tasks.db", db.location.as_str());
}
