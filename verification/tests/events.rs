use text_input::{Component, InputBox, KeyCode, KeyEvent, KeyEventKind, MouseEvent};

fn fresh() -> InputBox {
    <InputBox as Component<u32, ()>>::new(&7, ())
}

fn send(input: &mut InputBox, code: KeyCode, kind: KeyEventKind) {
    <InputBox as Component<u32, ()>>::handle_key_event(input, KeyEvent { code, kind });
}

fn press(input: &mut InputBox, code: KeyCode) {
    send(input, code, KeyEventKind::Press);
}

fn drive<W: Component<u32, ()>>(keys: &[KeyCode]) -> W {
    let mut widget = W::new(&1, ());
    for key in keys {
        widget.handle_key_event(KeyEvent { code: *key, kind: KeyEventKind::Press });
    }
    widget.move_with_state(&2)
}

#[test]
fn pressed_characters_are_inserted() {
    let mut input = fresh();
    press(&mut input, KeyCode::Char('h'));
    press(&mut input, KeyCode::Char('i'));
    assert_eq!(input.text(), "hi");
    assert_eq!(input.cursor_position(), 2);
}

#[test]
fn backspace_deletes_to_the_left() {
    let mut input = fresh();
    input.set_text("a한b");
    press(&mut input, KeyCode::Backspace);
    assert_eq!(input.text(), "a한");
    assert_eq!(input.cursor_position(), 2);
    press(&mut input, KeyCode::Backspace);
    assert_eq!(input.text(), "a");
    assert_eq!(input.cursor_position(), 1);
    press(&mut input, KeyCode::Backspace);
    press(&mut input, KeyCode::Backspace);
    assert_eq!(input.text(), "");
    assert_eq!(input.cursor_position(), 0);
}

#[test]
fn arrows_move_the_cursor() {
    let mut input = fresh();
    input.set_text("abc");
    press(&mut input, KeyCode::Left);
    assert_eq!(input.cursor_position(), 2);
    press(&mut input, KeyCode::Left);
    assert_eq!(input.cursor_position(), 1);
    press(&mut input, KeyCode::Right);
    assert_eq!(input.cursor_position(), 2);
    press(&mut input, KeyCode::Right);
    press(&mut input, KeyCode::Right);
    assert_eq!(input.cursor_position(), 3);
    assert_eq!(input.text(), "abc");
}

#[test]
fn keys_edit_at_the_cursor() {
    let mut input = fresh();
    for c in "hllo".chars() {
        press(&mut input, KeyCode::Char(c));
    }
    for _ in 0..3 {
        press(&mut input, KeyCode::Left);
    }
    press(&mut input, KeyCode::Char('e'));
    assert_eq!(input.text(), "hello");
    assert_eq!(input.cursor_position(), 2);
}

#[test]
fn repeat_and_release_are_ignored() {
    for kind in [KeyEventKind::Repeat, KeyEventKind::Release] {
        for code in [KeyCode::Char('x'), KeyCode::Backspace, KeyCode::Left, KeyCode::Right, KeyCode::Other] {
            let mut input = fresh();
            input.set_text("a한b");
            input.move_cursor_left();
            send(&mut input, code, kind);
            assert_eq!(input.text(), "a한b");
            assert_eq!(input.cursor_position(), 2);
        }
    }
}

#[test]
fn other_keys_do_nothing() {
    let mut input = fresh();
    input.set_text("abc");
    input.move_cursor_left();
    press(&mut input, KeyCode::Other);
    assert_eq!(input.text(), "abc");
    assert_eq!(input.cursor_position(), 2);
}

#[test]
fn pointer_events_do_nothing() {
    let mut input = fresh();
    input.set_text("abc");
    input.move_cursor_left();
    <InputBox as Component<u32, ()>>::handle_mouse_event(&mut input, MouseEvent { column: 1, row: 1 });
    assert_eq!(input.text(), "abc");
    assert_eq!(input.cursor_position(), 2);
}

#[test]
fn name_is_stable() {
    let input = fresh();
    assert_eq!(<InputBox as Component<u32, ()>>::name(&input), "Input Box");
    let mut input = input;
    input.set_text("abc");
    assert_eq!(<InputBox as Component<u32, ()>>::name(&input), "Input Box");
}

#[test]
fn move_with_state_keeps_text_and_cursor() {
    let mut input = fresh();
    input.set_text("a한b");
    input.move_cursor_left();
    let input = <InputBox as Component<u32, ()>>::move_with_state(input, &8);
    assert_eq!(input.text(), "a한b");
    assert_eq!(input.cursor_position(), 2);
}

#[test]
fn a_widget_can_be_driven_through_the_trait_alone() {
    let input: InputBox = drive(&[KeyCode::Char('o'), KeyCode::Char('k'), KeyCode::Left]);
    assert_eq!(input.text(), "ok");
    assert_eq!(input.cursor_position(), 1);
}

#[test]
fn event_records_compare_by_value() {
    let press = KeyEvent { code: KeyCode::Char('a'), kind: KeyEventKind::Press };
    assert_eq!(press, KeyEvent { code: KeyCode::Char('a'), kind: KeyEventKind::Press });
    assert_ne!(press, KeyEvent { code: KeyCode::Char('a'), kind: KeyEventKind::Release });
    assert_ne!(press, KeyEvent { code: KeyCode::Char('b'), kind: KeyEventKind::Press });
    assert_eq!(MouseEvent { column: 3, row: 4 }, MouseEvent { column: 3, row: 4 });
}

#[test]
fn a_channel_sender_serves_as_the_handle() {
    let (action_tx, mut action_rx) = tokio::sync::mpsc::unbounded_channel::<String>();
    let state = vec![1u8, 2, 3];
    let mut input =
        <InputBox as Component<Vec<u8>, tokio::sync::mpsc::UnboundedSender<String>>>::new(
            &state, action_tx,
        );
    assert_eq!(input.text(), "");
    assert_eq!(input.cursor_position(), 0);
    input.enter_char('a');
    assert_eq!(input.text(), "a");
    assert!(action_rx.try_recv().is_err());
    assert_eq!(state, vec![1u8, 2, 3]);
}
