use list_editor::input_manager::{Effect, InputManager, LogLevel, Pending};

fn info(text: &str) -> Effect {
    Effect::Log { level: LogLevel::Info, text: text.to_string() }
}

fn success(text: &str) -> Effect {
    Effect::Log { level: LogLevel::Success, text: text.to_string() }
}

fn error(text: &str) -> Effect {
    Effect::Log { level: LogLevel::Error, text: text.to_string() }
}

fn manager_with(elements: &[&str]) -> InputManager {
    let mut manager = InputManager::new();
    for element in elements {
        manager.process_operation("c");
        manager.process_operation(element);
    }
    manager
}

fn texts(manager: &InputManager) -> Vec<&str> {
    manager.elements().iter().map(|element| element.as_str()).collect()
}

#[test]
fn new_manager_is_empty_and_awaits_a_command() {
    let manager = InputManager::new();
    assert!(manager.elements().is_empty());
    assert_eq!(manager.pending(), Pending::Command);
    assert_eq!(manager.prompt(), "> ");
}

#[test]
fn create_three_then_list_shows_them_in_order() {
    let mut manager = InputManager::new();
    for element in ["a", "b", "c"] {
        assert_eq!(manager.process_operation("c"), vec![info("create new element")]);
        assert_eq!(manager.pending(), Pending::NewElement);
        assert_eq!(manager.process_operation(element), vec![success("Created sucessfully!")]);
        assert_eq!(manager.pending(), Pending::Command);
    }
    assert_eq!(texts(&manager), vec!["a", "b", "c"]);
    assert_eq!(
        manager.process_operation("l"),
        vec![info("current elements:\n\"a, b, c\"")]
    );
    assert_eq!(texts(&manager), vec!["a", "b", "c"]);
}

#[test]
fn delete_middle_then_list_shows_the_rest() {
    let mut manager = manager_with(&["a", "b", "c"]);
    assert_eq!(
        manager.process_operation("d"),
        vec![
            info("delete an element at given index"),
            info("current elements:\n\"a, b, c\""),
        ]
    );
    assert_eq!(manager.pending(), Pending::DeleteIndex);
    assert_eq!(manager.process_operation("1"), vec![]);
    assert_eq!(manager.pending(), Pending::Command);
    assert_eq!(texts(&manager), vec!["a", "c"]);
    assert_eq!(manager.process_operation("l"), vec![info("current elements:\n\"a, c\"")]);
}

#[test]
fn delete_on_empty_reports_and_asks_for_no_index() {
    let mut manager = InputManager::new();
    assert_eq!(manager.process_operation("d"), vec![info("No elements to delete")]);
    assert_eq!(manager.pending(), Pending::Command);
    assert!(manager.elements().is_empty());
    // The line that follows is a command, not an index.
    assert_eq!(
        manager.process_operation("0"),
        vec![error("operation \"0\" not found. Type 'h' to see available options.")]
    );
    assert!(manager.elements().is_empty());
    assert_eq!(manager.pending(), Pending::Command);
}

#[test]
fn update_on_empty_reports_and_asks_for_no_index() {
    let mut manager = InputManager::new();
    assert_eq!(manager.process_operation("u"), vec![info("No elements to update")]);
    assert_eq!(manager.pending(), Pending::Command);
    assert!(manager.elements().is_empty());
    assert_eq!(
        manager.process_operation("0"),
        vec![error("operation \"0\" not found. Type 'h' to see available options.")]
    );
    assert!(manager.elements().is_empty());
}

#[test]
fn update_beyond_last_of_two_cites_bound_one() {
    let mut manager = manager_with(&["a", "b"]);
    assert_eq!(
        manager.process_operation("u"),
        vec![
            info("update an element at given index"),
            info("current elements:\n\"a, b\""),
        ]
    );
    assert_eq!(manager.pending(), Pending::UpdateIndex);
    assert_eq!(
        manager.process_operation("5"),
        vec![error("Given index 5 is outside of bounds (1)")]
    );
    assert_eq!(manager.pending(), Pending::Command);
    assert_eq!(texts(&manager), vec!["a", "b"]);
}

#[test]
fn delete_beyond_last_cites_index_and_bound() {
    let mut manager = manager_with(&["a", "b", "c"]);
    manager.process_operation("d");
    assert_eq!(
        manager.process_operation("3"),
        vec![error("Given index 3 is outside of bounds (2)")]
    );
    assert_eq!(manager.pending(), Pending::Command);
    assert_eq!(texts(&manager), vec!["a", "b", "c"]);
    manager.process_operation("d");
    assert_eq!(
        manager.process_operation("18446744073709551615"),
        vec![error("Given index 18446744073709551615 is outside of bounds (2)")]
    );
    assert_eq!(texts(&manager), vec!["a", "b", "c"]);
}

#[test]
fn delete_at_last_valid_index_removes_the_last() {
    let mut manager = manager_with(&["a", "b", "c"]);
    manager.process_operation("d");
    assert_eq!(manager.process_operation("2"), vec![]);
    assert_eq!(texts(&manager), vec!["a", "b"]);
    manager.process_operation("d");
    assert_eq!(manager.process_operation("0"), vec![]);
    assert_eq!(texts(&manager), vec!["b"]);
    manager.process_operation("d");
    assert_eq!(manager.process_operation("0"), vec![]);
    assert!(manager.elements().is_empty());
}

#[test]
fn delete_shifts_higher_elements_down_by_one() {
    let mut manager = manager_with(&["p", "q", "r", "s", "t"]);
    manager.process_operation("d");
    manager.process_operation("1");
    let after = texts(&manager);
    assert_eq!(after.len(), 4);
    assert_eq!(after[0], "p");
    assert_eq!(after[1], "r");
    assert_eq!(after[2], "s");
    assert_eq!(after[3], "t");
}

#[test]
fn update_replaces_only_the_chosen_element() {
    let mut manager = manager_with(&["a", "b", "c"]);
    manager.process_operation("u");
    assert_eq!(manager.process_operation("1"), vec![info("Enter new value:")]);
    assert_eq!(manager.pending(), Pending::UpdateValue { index: 1 });
    assert_eq!(texts(&manager), vec!["a", "b", "c"]);
    assert_eq!(manager.process_operation("B"), vec![success("Value Updated!")]);
    assert_eq!(manager.pending(), Pending::Command);
    assert_eq!(texts(&manager), vec!["a", "B", "c"]);
}

#[test]
fn non_integer_index_changes_nothing() {
    for command in ["d", "u"] {
        for input in ["abc", "", "-1", "1.5", "1 2", "+", "0x1", "１"] {
            let mut manager = manager_with(&["a", "b"]);
            manager.process_operation(command);
            assert_eq!(manager.process_operation(input), vec![error("not an integer")]);
            assert_eq!(manager.pending(), Pending::Command);
            assert_eq!(texts(&manager), vec!["a", "b"]);
        }
    }
}

#[test]
fn index_too_large_for_the_machine_is_no_integer() {
    let mut manager = manager_with(&["a"]);
    manager.process_operation("d");
    assert_eq!(
        manager.process_operation("340282366920938463463374607431768211456"),
        vec![error("not an integer")]
    );
    assert_eq!(texts(&manager), vec!["a"]);
}

#[test]
fn index_may_carry_a_plus_sign_and_leading_zeros() {
    let mut manager = manager_with(&["a", "b", "c"]);
    manager.process_operation("d");
    assert_eq!(manager.process_operation("+1"), vec![]);
    assert_eq!(texts(&manager), vec!["a", "c"]);
    manager.process_operation("d");
    assert_eq!(manager.process_operation("0001"), vec![]);
    assert_eq!(texts(&manager), vec!["a"]);
}

#[test]
fn command_must_be_exactly_one_character() {
    let mut manager = manager_with(&["a"]);
    for input in ["", "cc", "c x", "list", "   "] {
        assert_eq!(
            manager.process_operation(input),
            vec![error("Invalid input. Please enter a single character.")]
        );
        assert_eq!(manager.pending(), Pending::Command);
        assert_eq!(texts(&manager), vec!["a"]);
    }
}

#[test]
fn unknown_command_is_named_in_the_complaint() {
    let mut manager = InputManager::new();
    assert_eq!(
        manager.process_operation("z"),
        vec![error("operation \"z\" not found. Type 'h' to see available options.")]
    );
    assert_eq!(
        manager.process_operation("C"),
        vec![error("operation \"C\" not found. Type 'h' to see available options.")]
    );
    assert_eq!(
        manager.process_operation("é"),
        vec![error("operation \"é\" not found. Type 'h' to see available options.")]
    );
    assert_eq!(manager.pending(), Pending::Command);
}

#[test]
fn lines_are_trimmed_before_they_are_read() {
    let mut manager = InputManager::new();
    assert_eq!(manager.process_operation("  c \n"), vec![info("create new element")]);
    assert_eq!(manager.process_operation("\t hello world \r\n"), vec![success("Created sucessfully!")]);
    assert_eq!(texts(&manager), vec!["hello world"]);
    manager.process_operation("d\n");
    assert_eq!(manager.process_operation(" 0\n"), vec![]);
    assert!(manager.elements().is_empty());
}

#[test]
fn process_input_takes_the_line_as_it_is() {
    let mut manager = InputManager::new();
    assert_eq!(
        manager.process_input(" c"),
        vec![error("Invalid input. Please enter a single character.")]
    );
    assert_eq!(manager.process_input("c"), vec![info("create new element")]);
    assert_eq!(manager.process_input(" x "), vec![success("Created sucessfully!")]);
    assert_eq!(texts(&manager), vec![" x "]);
}

#[test]
fn an_element_may_be_empty_or_repeat_another() {
    let mut manager = manager_with(&["", "a", "a"]);
    assert_eq!(texts(&manager), vec!["", "a", "a"]);
    assert_eq!(
        manager.process_operation("l"),
        vec![info("current elements:\n\", a, a\"")]
    );
}

#[test]
fn list_on_empty_says_so() {
    let mut manager = InputManager::new();
    assert_eq!(manager.process_operation("l"), vec![info("The list is currently empty.")]);
    assert_eq!(manager.pending(), Pending::Command);
}

#[test]
fn list_of_one_has_no_separator() {
    let mut manager = manager_with(&["only"]);
    assert_eq!(manager.process_operation("l"), vec![info("current elements:\n\"only\"")]);
}

#[test]
fn help_lists_every_command_in_order() {
    let mut manager = manager_with(&["a"]);
    let expected = "Should be one of \n\
                    (c) create a new element\n\
                    (u) update an element\n\
                    (d) delete an element\n\
                    (l) list all elements\n\
                    (h) list help\n\
                    (x) clear screen";
    assert_eq!(manager.process_operation("h"), vec![info(expected)]);
    assert_eq!(manager.pending(), Pending::Command);
    assert_eq!(texts(&manager), vec!["a"]);
}

#[test]
fn clear_screen_is_left_to_the_caller() {
    let mut manager = manager_with(&["a"]);
    assert_eq!(manager.process_operation("x"), vec![Effect::ClearScreen]);
    assert_eq!(manager.pending(), Pending::Command);
    assert_eq!(texts(&manager), vec!["a"]);
}

#[test]
fn each_create_makes_the_list_one_longer() {
    let mut manager = InputManager::new();
    for count in 0..20 {
        assert_eq!(manager.elements().len(), count);
        manager.process_operation("c");
        assert_eq!(manager.elements().len(), count);
        manager.process_operation(&format!("element {}", count));
        assert_eq!(manager.elements().len(), count + 1);
        assert_eq!(manager.elements()[count], format!("element {}", count));
        assert_eq!(manager.elements()[0], "element 0");
    }
}

#[test]
fn handlers_append_to_what_was_emitted_before() {
    let mut manager = manager_with(&["a", "b"]);
    let mut out = vec![success("before")];
    manager.list_elements(&mut out);
    manager.print_help(&mut out);
    manager.clear_screen(&mut out);
    assert_eq!(out.len(), 4);
    assert_eq!(out[0], success("before"));
    assert_eq!(out[1], info("current elements:\n\"a, b\""));
    assert_eq!(out[3], Effect::ClearScreen);
}

#[test]
fn read_index_complains_only_about_what_is_no_index() {
    let manager = InputManager::new();
    let mut out = Vec::new();
    assert_eq!(manager.read_index("12", &mut out), Some(12));
    assert!(out.is_empty());
    assert_eq!(manager.read_index("twelve", &mut out), None);
    assert_eq!(out, vec![error("not an integer")]);
}

#[test]
fn is_in_bounds_accepts_up_to_the_last_index() {
    let manager = manager_with(&["a", "b", "c"]);
    let mut out = Vec::new();
    assert!(manager.is_in_bounds(0, &mut out));
    assert!(manager.is_in_bounds(2, &mut out));
    assert!(out.is_empty());
    assert!(!manager.is_in_bounds(3, &mut out));
    assert_eq!(out, vec![error("Given index 3 is outside of bounds (2)")]);
}

#[test]
fn handlers_can_be_called_directly() {
    let mut manager = InputManager::new();
    let mut out = Vec::new();
    manager.create_element(&mut out);
    assert_eq!(manager.pending(), Pending::NewElement);
    manager.create_with("a", &mut out);
    manager.create_with("b", &mut out);
    manager.update_element(&mut out);
    assert_eq!(manager.pending(), Pending::UpdateIndex);
    manager.update_at("0", &mut out);
    assert_eq!(manager.pending(), Pending::UpdateValue { index: 0 });
    manager.update_with(0, "A", &mut out);
    manager.delete_element(&mut out);
    assert_eq!(manager.pending(), Pending::DeleteIndex);
    manager.delete_at("1", &mut out);
    assert_eq!(manager.pending(), Pending::Command);
    manager.run_command("l", &mut out);
    assert_eq!(texts(&manager), vec!["A"]);
    assert_eq!(
        out,
        vec![
            info("create new element"),
            success("Created sucessfully!"),
            success("Created sucessfully!"),
            info("update an element at given index"),
            info("current elements:\n\"a, b\""),
            info("Enter new value:"),
            success("Value Updated!"),
            info("delete an element at given index"),
            info("current elements:\n\"A, b\""),
            info("current elements:\n\"A\""),
        ]
    );
}
