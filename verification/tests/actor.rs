use koch::actor::{ActorEvent, Command, Key};

#[test]
fn new_handler_is_named_actor_event() {
    let handler = ActorEvent::new();
    assert_eq!(handler.name(), "actor_event");
}

#[test]
fn space_seeds_and_up_advances() {
    let handler = ActorEvent::new();
    assert_eq!(handler.command(Key::Space), Some(Command::Seed));
    assert_eq!(handler.command(Key::Up), Some(Command::Advance));
}

#[test]
fn other_keys_are_ignored() {
    let handler = ActorEvent::new();
    let others = [Key::Enter, Key::Tab, Key::Backspace, Key::Escape, Key::Right, Key::Left, Key::Down];
    for key in others {
        assert_eq!(handler.command(key), None);
    }
}
