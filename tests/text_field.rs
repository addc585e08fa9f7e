use ptui::text::{TextField, TextFieldError};

#[test]
fn test_text_field() {
    let my_text = String::from("Some");
    let mut text = TextField::new();
    assert_eq!(text.index(), 0);
    assert!(text.is_empty());

    text.set_text(&my_text);
    assert_eq!(text.text(), my_text);
    assert_eq!(text.index(), 4);

    text.home();
    assert_eq!(text.index(), 0);

    text.end();
    assert_eq!(text.index(), 4);

    text.append_character(' ');
    let expected_text = r#"Some "#;
    assert_eq!(text.text(), expected_text);
    assert_eq!(text.index(), 5);

    text.append_string(&String::from("text"));
    let expected_text = r#"Some text"#;
    assert_eq!(text.text(), expected_text);
    assert_eq!(text.index(), 9);

    text.backspace();
    assert_eq!(text.index(), 8);
    assert_eq!(text.text(), "Some tex");

    text.left();
    text.left();
    text.left();
    assert_eq!(text.index(), 5);

    text.delete();
    assert_eq!(text.text(), "Some ex");
    assert_eq!(text.index(), 5);

    text.end();
    text.append_string(&String::from("tra"));
    assert_eq!(text.text(), "Some extra");
    assert_eq!(text.index(), 10);

    text.set_index(5).unwrap();
    assert_eq!(text.index(), 5);

    text.insert_character('?');
    assert_eq!(text.text(), "Some ?extra");

    // the cursor stands after the inserted '?': step back onto it
    text.left();
    text.delete();
    assert_eq!(text.text(), "Some extra");
    assert_eq!(text.index(), 5);

    text.left();
    assert_eq!(text.index(), 4);

    text.insert_string(&String::from("thing"));
    assert_eq!(text.text(), "Something extra");

    text.end();
    text.insert_string(&String::from(" special"));
    assert_eq!(text.text(), "Something extra special");

    text.home();
    for _ in 0..10 {
        text.delete();
    }
    assert_eq!(text.text(), "extra special");

    text.home();
    text.insert_string(&String::from("You are "));
    assert_eq!(text.text(), "You are extra special");
}

#[test]
fn edit_scenario_with_inserts() {
    let mut text = TextField::new();
    text.set_text(&String::from("Some"));
    assert_eq!(text.text(), "Some");
    assert_eq!(text.index(), 4);
    text.home();
    assert_eq!(text.index(), 0);
    text.end();
    assert_eq!(text.index(), 4);
    text.insert_character(' ');
    assert_eq!(text.text(), "Some ");
    assert_eq!(text.index(), 5);
    text.insert_string(&String::from("text"));
    assert_eq!(text.text(), "Some text");
    assert_eq!(text.index(), 9);
    text.backspace();
    assert_eq!(text.text(), "Some tex");
    assert_eq!(text.index(), 8);
}

#[test]
fn insert_then_backspace_restores_text_and_cursor() {
    let mut text = TextField::new();
    text.set_text(&String::from("abcd"));
    text.set_index(2).unwrap();
    text.insert_character('x');
    assert_eq!(text.text(), "abxcd");
    assert_eq!(text.index(), 3);
    text.backspace();
    assert_eq!(text.text(), "abcd");
    assert_eq!(text.index(), 2);
}

#[test]
fn home_then_end_moves_cursor_to_both_ends() {
    let mut text = TextField::new();
    text.set_text(&String::from("hello"));
    text.set_index(3).unwrap();
    text.home();
    assert_eq!(text.index(), 0);
    text.end();
    assert_eq!(text.index(), 5);
    assert_eq!(text.text(), "hello");
}

#[test]
fn cursor_stays_within_the_text() {
    let mut text = TextField::new();
    text.left();
    assert_eq!(text.index(), 0);
    text.right();
    assert_eq!(text.index(), 0);
    text.backspace();
    text.delete();
    assert_eq!(text.text(), "");
    assert_eq!(text.index(), 0);

    text.set_text(&String::from("ab"));
    text.right();
    assert_eq!(text.index(), 2);
    text.delete();
    assert_eq!(text.text(), "ab");
    text.home();
    text.backspace();
    assert_eq!(text.text(), "ab");
    assert_eq!(text.index(), 0);
    text.right();
    assert_eq!(text.index(), 1);
}

#[test]
fn set_index_past_the_end_is_refused() {
    let mut text = TextField::new();
    text.set_text(&String::from("abc"));
    text.set_index(1).unwrap();
    assert_eq!(text.set_index(4), Err(TextFieldError::InvalidIndexPosition));
    assert_eq!(text.index(), 1);
    assert_eq!(text.set_index(3), Ok(()));
    assert_eq!(text.index(), 3);
    assert_eq!(TextFieldError::InvalidIndexPosition.message(), "Invalid index position");
}

#[test]
fn cursor_counts_characters_not_bytes() {
    let mut text = TextField::new();
    text.set_text(&String::from("héllo"));
    assert_eq!(text.index(), 5);
    text.set_index(2).unwrap();
    text.insert_character('ü');
    assert_eq!(text.text(), "héüllo");
    text.home();
    text.right();
    text.delete();
    assert_eq!(text.text(), "hüllo");
    text.end();
    text.backspace();
    assert_eq!(text.text(), "hüll");
    assert_eq!(text.index(), 4);
}

#[test]
fn clear_empties_text_and_resets_cursor() {
    let mut text = TextField::default();
    text.append_string(&String::from("abc"));
    assert!(!text.is_empty());
    text.clear();
    assert!(text.is_empty());
    assert_eq!(text.index(), 0);
    assert_eq!(text.text(), "");
}
