use todo_list::entry::is_submit_key;
use todo_list::style::mark_done;
use todo_list::style::row_classes;
use todo_list::ToDoItem;
use todo_list::ToDoList;
use yew::Classes;

#[test]
fn enter_submits() {
    assert!(is_submit_key("Enter"));
}

#[test]
fn other_keys_do_not_submit() {
    assert!(!is_submit_key("a"));
    assert!(!is_submit_key(""));
    assert!(!is_submit_key("enter"));
    assert!(!is_submit_key("ENTER"));
    assert!(!is_submit_key("Enter "));
    assert!(!is_submit_key(" Enter"));
    assert!(!is_submit_key("Ente"));
    assert!(!is_submit_key("Escape"));
    assert!(!is_submit_key("Tab"));
}

#[test]
fn open_item_has_the_plain_row_class() {
    let classes = row_classes(&ToDoItem::new("buy milk".to_string()));
    assert_eq!(classes.to_string(), "todo");
    assert!(classes.contains("todo"));
    assert!(!classes.contains("done"));
}

#[test]
fn done_item_has_the_done_class_behind_it() {
    let classes = row_classes(&ToDoItem { text: "buy milk".to_string(), done: true });
    assert_eq!(classes.to_string(), "todo done");
    assert!(classes.contains("todo"));
    assert!(classes.contains("done"));
}

#[test]
fn row_classes_do_not_depend_on_the_text() {
    let classes = row_classes(&ToDoItem { text: "done".to_string(), done: false });
    assert_eq!(classes.to_string(), "todo");
    let classes = row_classes(&ToDoItem { text: String::new(), done: true });
    assert_eq!(classes.to_string(), "todo done");
}

#[test]
fn row_classes_follow_the_list() {
    let mut list = ToDoList::new();
    list.add("a".to_string());
    list.add("b".to_string());
    assert_eq!(list.toggle(1), Ok(()));
    let rows: Vec<String> = list.items().iter().map(|item| row_classes(item).to_string()).collect();
    assert_eq!(rows, vec!["todo".to_string(), "todo done".to_string()]);
    list.toggle_all();
    let rows: Vec<String> = list.items().iter().map(|item| row_classes(item).to_string()).collect();
    assert_eq!(rows, vec!["todo done".to_string(), "todo done".to_string()]);
}

#[test]
fn mark_done_appends_the_class() {
    let mut classes = Classes::from("row wide");
    mark_done(&mut classes, true);
    assert_eq!(classes.to_string(), "row wide done");
}

#[test]
fn mark_done_leaves_open_rows_alone() {
    let mut classes = Classes::from("row wide");
    mark_done(&mut classes, false);
    assert_eq!(classes.to_string(), "row wide");
    let mut none = Classes::new();
    mark_done(&mut none, false);
    assert!(none.is_empty());
}

#[test]
fn mark_done_keeps_a_class_that_is_already_held() {
    let mut classes = Classes::from("done row");
    mark_done(&mut classes, true);
    assert_eq!(classes.to_string(), "done row");
    mark_done(&mut classes, true);
    assert_eq!(classes.to_string(), "done row");
}

#[test]
fn mark_done_on_no_classes_gives_one() {
    let mut classes = Classes::new();
    mark_done(&mut classes, true);
    assert_eq!(classes.to_string(), "done");
}
