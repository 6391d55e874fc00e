use mdtask::annotation::{parse_iconed_date, parse_iconed_datetime, COMPLETED_ICON, DEADLINE_ICON};
use mdtask::task::extract_tasks;
use mdtask::{DateTime, MdNode, Task};

fn text_node(s: &str) -> MdNode {
    MdNode::Text {
        value: s.to_string(),
    }
}

fn paragraph(children: Vec<MdNode>) -> MdNode {
    MdNode::Paragraph { children }
}

fn item(checked: Option<bool>, text: &str) -> MdNode {
    MdNode::ListItem {
        checked,
        children: vec![paragraph(vec![text_node(text)])],
    }
}

fn dt(year: u16, month: u8, day: u8, hour: u8, minute: u8, second: u8) -> DateTime {
    DateTime::new(year, month, day, hour, minute, second).unwrap()
}

#[test]
fn unchecked_item_yields_no_task() {
    let node = item(None, "Buy milk");
    assert!(Task::from_node(&node).is_none());
    assert!(extract_tasks(&node).is_empty());
}

#[test]
fn checked_item_without_content_yields_no_task() {
    let no_children = MdNode::ListItem {
        checked: Some(true),
        children: vec![],
    };
    assert!(Task::from_node(&no_children).is_none());

    let empty_paragraph = MdNode::ListItem {
        checked: Some(true),
        children: vec![paragraph(vec![])],
    };
    assert!(Task::from_node(&empty_paragraph).is_none());

    let no_paragraph = MdNode::ListItem {
        checked: Some(false),
        children: vec![MdNode::Container { children: vec![] }],
    };
    assert!(Task::from_node(&no_paragraph).is_none());
}

#[test]
fn bare_date_round_trip() {
    let node = item(Some(false), "Buy milk \u{1F4C5}2024-03-01");
    let task = Task::from_node(&node).unwrap();
    assert_eq!(task.text, "Buy milk ");
    assert!(!task.done);
    assert_eq!(task.deadline, Some(dt(2024, 3, 1, 0, 0, 0)));
    assert_eq!(task.completed_at, None);
}

#[test]
fn datetime_with_spaces_after_icon() {
    let node = item(Some(false), "Ship report \u{1F4C5} 2024-03-01 17:30:00");
    let task = Task::from_node(&node).unwrap();
    assert_eq!(task.text, "Ship report ");
    assert_eq!(task.deadline, Some(dt(2024, 3, 1, 17, 30, 0)));
    assert_eq!(task.completed_at, None);
}

#[test]
fn both_icons_populate_both_fields() {
    let node = item(
        Some(true),
        "Task \u{1F4C5}2024-01-01 \u{2705}2024-01-05",
    );
    let task = Task::from_node(&node).unwrap();
    assert_eq!(task.text, "Task  ");
    assert!(task.done);
    assert_eq!(task.deadline, Some(dt(2024, 1, 1, 0, 0, 0)));
    assert_eq!(task.completed_at, Some(dt(2024, 1, 5, 0, 0, 0)));
    assert!(!task.text.contains(DEADLINE_ICON));
    assert!(!task.text.contains(COMPLETED_ICON));
}

#[test]
fn malformed_date_is_left_in_place() {
    let node = item(Some(false), "\u{1F4C5}2024-13-01");
    let task = Task::from_node(&node).unwrap();
    assert_eq!(task.text, "\u{1F4C5}2024-13-01");
    assert_eq!(task.deadline, None);
    assert_eq!(task.completed_at, None);
}

#[test]
fn second_pass_on_clean_text_is_a_noop() {
    let node = item(Some(false), "Buy milk \u{1F4C5}2024-03-01");
    let task = Task::from_node(&node).unwrap();
    assert!(parse_iconed_datetime(&task.text, DEADLINE_ICON).is_none());
    assert!(parse_iconed_date(&task.text, DEADLINE_ICON).is_none());
    assert!(parse_iconed_datetime(&task.text, COMPLETED_ICON).is_none());
    assert!(parse_iconed_date(&task.text, COMPLETED_ICON).is_none());
}

#[test]
fn done_matches_source_checked_state() {
    let checked = Task::from_node(&item(Some(true), "a")).unwrap();
    assert!(checked.done);
    let unchecked = Task::from_node(&item(Some(false), "a")).unwrap();
    assert!(!unchecked.done);
}

#[test]
fn invalid_time_falls_back_to_bare_date() {
    let node = item(Some(false), "\u{1F4C5}2024-03-01 25:00:00");
    let task = Task::from_node(&node).unwrap();
    assert_eq!(task.text, " 25:00:00");
    assert_eq!(task.deadline, Some(dt(2024, 3, 1, 0, 0, 0)));
}

#[test]
fn leap_day_is_valid_only_in_leap_years() {
    let leap = Task::from_node(&item(Some(false), "\u{1F4C5}2024-02-29")).unwrap();
    assert_eq!(leap.deadline, Some(dt(2024, 2, 29, 0, 0, 0)));
    assert_eq!(leap.text, "");

    let common = Task::from_node(&item(Some(false), "\u{1F4C5}2023-02-29")).unwrap();
    assert_eq!(common.deadline, None);
    assert_eq!(common.text, "\u{1F4C5}2023-02-29");

    let century = Task::from_node(&item(Some(false), "\u{1F4C5}1900-02-29")).unwrap();
    assert_eq!(century.deadline, None);

    let quadricentennial = Task::from_node(&item(Some(false), "\u{1F4C5}2000-02-29")).unwrap();
    assert_eq!(
        quadricentennial.deadline,
        Some(dt(2000, 2, 29, 0, 0, 0))
    );
}

#[test]
fn every_copy_of_the_matched_substring_is_removed() {
    let node = item(
        Some(false),
        "A \u{1F4C5}2024-01-01 B \u{1F4C5}2024-01-01",
    );
    let task = Task::from_node(&node).unwrap();
    assert_eq!(task.text, "A  B ");
    assert_eq!(task.deadline, Some(dt(2024, 1, 1, 0, 0, 0)));
}

#[test]
fn icon_without_date_is_kept() {
    let node = item(Some(false), "Call home \u{1F4C5} soon");
    let task = Task::from_node(&node).unwrap();
    assert_eq!(task.text, "Call home \u{1F4C5} soon");
    assert_eq!(task.deadline, None);
}

#[test]
fn datetime_constructor_checks_the_calendar() {
    assert!(DateTime::new(2024, 3, 1, 17, 30, 0).is_some());
    assert!(DateTime::new(2024, 13, 1, 0, 0, 0).is_none());
    assert!(DateTime::new(2024, 0, 1, 0, 0, 0).is_none());
    assert!(DateTime::new(2024, 4, 31, 0, 0, 0).is_none());
    assert!(DateTime::new(2024, 1, 0, 0, 0, 0).is_none());
    assert!(DateTime::new(2024, 1, 1, 24, 0, 0).is_none());
    assert!(DateTime::new(2024, 1, 1, 0, 60, 0).is_none());
    assert!(DateTime::new(2024, 1, 1, 0, 0, 60).is_none());
    let built = DateTime::new(2024, 2, 29, 23, 59, 59).unwrap();
    assert_eq!(built.year, 2024);
    assert_eq!(built.second, 59);
}

#[test]
fn tasks_come_out_in_document_order() {
    let tree = MdNode::Container {
        children: vec![
            item(Some(false), "first"),
            MdNode::Container {
                children: vec![item(Some(true), "second")],
            },
            item(Some(false), "third"),
        ],
    };
    let tasks = extract_tasks(&tree);
    assert_eq!(tasks.len(), 3);
    assert_eq!(tasks[0].text, "first");
    assert!(!tasks[0].done);
    assert_eq!(tasks[1].text, "second");
    assert!(tasks[1].done);
    assert_eq!(tasks[2].text, "third");
}

#[test]
fn first_paragraph_and_first_text_are_used() {
    let node = MdNode::ListItem {
        checked: Some(true),
        children: vec![
            MdNode::Container { children: vec![] },
            paragraph(vec![
                MdNode::Container { children: vec![] },
                text_node("picked"),
                text_node("ignored"),
            ]),
            paragraph(vec![text_node("later paragraph")]),
        ],
    };
    let task = Task::from_node(&node).unwrap();
    assert_eq!(task.text, "picked");
}
