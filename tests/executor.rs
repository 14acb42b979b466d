use renamefile_tui::controller::App;
use renamefile_tui::executor::{
    begin_rename, destination_in, failure_message, finish_rename, rename_file_in_dir,
    success_message, RenameOutcome, RenameStep,
};
use renamefile_tui::resolver::{get_possible_file_names, ScannedEntry};

#[test]
fn check_renaming_file() {
    let request = rename_file_in_dir("test.txt", "test_success.txt");
    assert_eq!(request.source, "test.txt");
    assert_eq!(request.destination, "test_success.txt");
    assert_eq!(request.new_name, "test_success.txt");
}

#[test]
fn destination_is_a_sibling() {
    let request = rename_file_in_dir("testing/test.txt", "test_success.txt");
    assert_eq!(request.destination, "testing/test_success.txt");
    let request = rename_file_in_dir("/home/u/a/hw.txt", "math_hw.txt");
    assert_eq!(request.destination, "/home/u/a/math_hw.txt");
    let request = rename_file_in_dir("/hw.txt", "math_hw.txt");
    assert_eq!(request.destination, "/math_hw.txt");
}

#[test]
fn destination_in_joins_parent() {
    assert_eq!(destination_in("", "n"), "n");
    assert_eq!(destination_in("d/e", "n"), "d/e/n");
    assert_eq!(destination_in("/", "n"), "/n");
}

#[test]
fn success_message_names_both() {
    assert_eq!(
        success_message("a/hw.txt", "math_hw.txt"),
        "\x1b[1;33mSuccessfully renamed \x1b[0ma/hw.txt\x1b[1;33m to \x1b[0mmath_hw.txt"
    );
}

#[test]
fn failure_message_carries_error() {
    assert_eq!(
        failure_message("a/hw.txt", "math_hw.txt", "permission denied"),
        "\x1b[1;31mCould not rename a/hw.txt to math_hw.txt with error: permission denied\x1b[0m"
    );
}

#[test]
fn existing_destination_is_refused() {
    let request = rename_file_in_dir("d/hw.txt", "math_hw.txt");
    match begin_rename(request, true) {
        RenameStep::Done(outcome) => {
            assert!(!outcome.is_success());
            assert_eq!(
                outcome.message(),
                "\x1b[1;31mCould not rename d/hw.txt to math_hw.txt with error: destination already exists: d/math_hw.txt\x1b[0m"
            );
        }
        RenameStep::Move(_) => panic!("an existing destination must not be moved onto"),
    }
}

#[test]
fn free_destination_is_moved() {
    let request = rename_file_in_dir("d/hw.txt", "math_hw.txt");
    match begin_rename(request, false) {
        RenameStep::Move(q) => {
            assert_eq!(q.source, "d/hw.txt");
            assert_eq!(q.destination, "d/math_hw.txt");
        }
        RenameStep::Done(_) => panic!("a free destination must be moved to"),
    }
}

#[test]
fn failed_move_reports_error() {
    let request = rename_file_in_dir("d/hw.txt", "math_hw.txt");
    let outcome = finish_rename(&request, Err("No such file or directory".to_string()));
    assert!(matches!(outcome, RenameOutcome::Failed(_)));
    assert_eq!(
        outcome.message(),
        "\x1b[1;31mCould not rename d/hw.txt to math_hw.txt with error: No such file or directory\x1b[0m"
    );
}

#[test]
fn pick_physics_and_rename() {
    let entries = vec![
        ScannedEntry { name: "math".to_string(), is_dir: true },
        ScannedEntry { name: "physics".to_string(), is_dir: true },
    ];
    let names = get_possible_file_names(&entries, "hw.txt");
    assert_eq!(names, vec!["math_hw.txt", "physics_hw.txt"]);
    let mut app = App::with_items(names);
    app.previous();
    app.next();
    assert_eq!(app.get_state().selected(), Some(1));
    let request = app.rename_file("course/hw.txt").unwrap();
    assert_eq!(request.destination, "course/physics_hw.txt");
    let step = begin_rename(request, false);
    let request = match step {
        RenameStep::Move(q) => q,
        RenameStep::Done(_) => panic!("expected a move"),
    };
    let outcome = finish_rename(&request, Ok(()));
    assert!(outcome.is_success());
    let message = outcome.message();
    assert!(message.contains("course/hw.txt"));
    assert!(message.contains("physics_hw.txt"));
}

#[test]
fn failed_commit_names_file_and_choice() {
    let mut app = App::with_items(vec!["a_hw.txt".to_string(), "b_hw.txt".to_string()]);
    app.previous();
    let request = app.rename_file("x/hw.txt").unwrap();
    let message = finish_rename(&request, Err("e".to_string())).message();
    assert!(message.contains("x/hw.txt"));
    assert!(message.contains("a_hw.txt"));
}
