use tasks::domain::TaskId;
use tasks::generator::{initial_counter, Generator};

#[test]
fn ids_are_incrementing() {
    let mut generator = Generator::new();
    let id1 = TaskId::new(&mut generator);
    let id2 = TaskId::new(&mut generator);

    assert_eq!(TaskId::from(1), id1);
    assert_eq!(TaskId::from(2), id2);
}

#[test]
fn counter_can_be_set() {
    let mut generator = Generator::from(42);
    let id42 = TaskId::new(&mut generator);

    assert_eq!(TaskId::from(42), id42);
}

#[test]
fn default_generator_starts_at_one() {
    let mut generator = Generator::default();
    assert_eq!(TaskId::from(1), TaskId::new(&mut generator));
}

#[test]
fn counter_wraps_at_the_numeric_limit() {
    let mut generator = Generator::from(u32::MAX);
    assert_eq!(u32::MAX, generator.poll());
    assert_eq!(0, generator.poll());
}

#[test]
fn task_id_renders_in_decimal() {
    assert_eq!("42", TaskId::from(42).to_text().as_str());
    assert_eq!("0", TaskId::from(0).to_text().as_str());
    assert_eq!("4294967295", TaskId::from(u32::MAX).to_text().as_str());
}

#[test]
fn task_id_converts_back_to_its_number() {
    assert_eq!(7u32, u32::from(TaskId::from(7)));
}

#[test]
fn initial_counter_continues_after_the_last_id() {
    assert_eq!(1, initial_counter(None));
    assert_eq!(6, initial_counter(Some(5)));
}
