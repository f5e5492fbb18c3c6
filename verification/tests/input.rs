use bil::input::{is_key_down, InputBinding, Intents, Key};

const IDLE: Intents =
    Intents { turn_left: false, turn_right: false, accelerate: false, decelerate: false };

#[test]
fn key_is_down_when_listed() {
    let keys = [Key::Up, Key::A, Key::Space];
    assert!(is_key_down(&keys, Key::Up));
    assert!(is_key_down(&keys, Key::A));
    assert!(is_key_down(&keys, Key::Space));
    assert!(!is_key_down(&keys, Key::Down));
    assert!(!is_key_down(&keys, Key::Enter));
    assert!(!is_key_down(&[], Key::Up));
    assert!(is_key_down(&[Key::W, Key::W], Key::W));
}

#[test]
fn arrows_scheme() {
    assert_eq!(
        InputBinding::arrows(),
        InputBinding {
            turn_left: Key::Left,
            turn_right: Key::Right,
            accelerate: Key::Up,
            decelerate: Key::Down,
        }
    );
}

#[test]
fn wasd_scheme() {
    assert_eq!(
        InputBinding::wasd(),
        InputBinding {
            turn_left: Key::A,
            turn_right: Key::D,
            accelerate: Key::W,
            decelerate: Key::S,
        }
    );
}

#[test]
fn no_keys_give_no_intents() {
    assert_eq!(InputBinding::arrows().sample(&[]), IDLE);
    assert_eq!(InputBinding::wasd().sample(&[]), IDLE);
}

#[test]
fn each_key_sets_its_own_intent() {
    let arrows = InputBinding::arrows();
    assert_eq!(arrows.sample(&[Key::Left]), Intents { turn_left: true, ..IDLE });
    assert_eq!(arrows.sample(&[Key::Right]), Intents { turn_right: true, ..IDLE });
    assert_eq!(arrows.sample(&[Key::Up]), Intents { accelerate: true, ..IDLE });
    assert_eq!(arrows.sample(&[Key::Down]), Intents { decelerate: true, ..IDLE });
    let wasd = InputBinding::wasd();
    assert_eq!(wasd.sample(&[Key::A]), Intents { turn_left: true, ..IDLE });
    assert_eq!(wasd.sample(&[Key::D]), Intents { turn_right: true, ..IDLE });
    assert_eq!(wasd.sample(&[Key::W]), Intents { accelerate: true, ..IDLE });
    assert_eq!(wasd.sample(&[Key::S]), Intents { decelerate: true, ..IDLE });
}

#[test]
fn several_keys_set_several_intents() {
    let keys = [Key::Up, Key::Left, Key::Right, Key::Down];
    assert_eq!(
        InputBinding::arrows().sample(&keys),
        Intents { turn_left: true, turn_right: true, accelerate: true, decelerate: true }
    );
    assert_eq!(
        InputBinding::arrows().sample(&[Key::Down, Key::Right]),
        Intents { turn_left: false, turn_right: true, accelerate: false, decelerate: true }
    );
}

#[test]
fn schemes_do_not_hear_each_other() {
    let arrow_keys = [Key::Up, Key::Down, Key::Left, Key::Right];
    let letter_keys = [Key::W, Key::A, Key::S, Key::D];
    assert_eq!(InputBinding::wasd().sample(&arrow_keys), IDLE);
    assert_eq!(InputBinding::arrows().sample(&letter_keys), IDLE);
    for key in arrow_keys {
        assert!(!letter_keys.contains(&key));
    }
}

#[test]
fn menu_keys_steer_no_car() {
    assert_eq!(InputBinding::arrows().sample(&[Key::Enter, Key::Space]), IDLE);
    assert_eq!(InputBinding::wasd().sample(&[Key::Enter, Key::Space]), IDLE);
}

#[test]
fn custom_scheme_is_sampled_by_its_keys() {
    let scheme = InputBinding {
        turn_left: Key::Space,
        turn_right: Key::Enter,
        accelerate: Key::W,
        decelerate: Key::W,
    };
    assert_eq!(
        scheme.sample(&[Key::W]),
        Intents { turn_left: false, turn_right: false, accelerate: true, decelerate: true }
    );
    assert_eq!(scheme.sample(&[Key::Enter]), Intents { turn_right: true, ..IDLE });
}
