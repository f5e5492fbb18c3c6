use bil::audio::{AudioCommand, EngineSound, SoundHandle};

const ENGINE: SoundHandle = SoundHandle(3);

fn run(engine: &mut EngineSound, samples: &[bool]) -> Vec<AudioCommand> {
    let mut issued = Vec::new();
    for &accelerate in samples {
        if let Some(command) = engine.drive(accelerate) {
            issued.push(command);
        }
    }
    issued
}

#[test]
fn new_engine_is_silent() {
    let engine = EngineSound::new(Some(ENGINE));
    assert!(!engine.running);
    assert_eq!(engine.sound, Some(ENGINE));
    let unbound = EngineSound::new(None);
    assert!(!unbound.running);
    assert_eq!(unbound.sound, None);
}

#[test]
fn start_twice_issues_one_playback() {
    let mut engine = EngineSound::new(Some(ENGINE));
    assert_eq!(engine.start(), Some(AudioCommand::PlayLooped(ENGINE)));
    assert!(engine.running);
    assert_eq!(engine.start(), None);
    assert!(engine.running);
}

#[test]
fn stop_after_two_starts_issues_one_stop() {
    let mut engine = EngineSound::new(Some(ENGINE));
    engine.start();
    engine.start();
    assert_eq!(engine.stop(), Some(AudioCommand::Stop(ENGINE)));
    assert!(!engine.running);
    assert_eq!(engine.stop(), None);
    assert!(!engine.running);
}

#[test]
fn stop_on_silent_engine_issues_nothing() {
    let mut engine = EngineSound::new(Some(ENGINE));
    assert_eq!(engine.stop(), None);
    assert_eq!(engine, EngineSound { running: false, sound: Some(ENGINE) });
}

#[test]
fn start_on_running_engine_issues_nothing() {
    let mut engine = EngineSound { running: true, sound: Some(ENGINE) };
    assert_eq!(engine.start(), None);
    assert_eq!(engine, EngineSound { running: true, sound: Some(ENGINE) });
}

#[test]
fn unbound_engine_ignores_start_and_stop() {
    let mut engine = EngineSound::new(None);
    assert_eq!(engine.start(), None);
    assert_eq!(engine, EngineSound { running: false, sound: None });
    assert_eq!(engine.stop(), None);
    assert_eq!(engine, EngineSound { running: false, sound: None });
    assert_eq!(run(&mut engine, &[true, false, true, true, false]), Vec::<AudioCommand>::new());
    assert_eq!(engine, EngineSound { running: false, sound: None });
}

#[test]
fn drive_starts_while_held_and_stops_otherwise() {
    let mut engine = EngineSound::new(Some(ENGINE));
    assert_eq!(engine.drive(false), None);
    assert_eq!(engine.drive(true), Some(AudioCommand::PlayLooped(ENGINE)));
    assert!(engine.running);
    assert_eq!(engine.drive(true), None);
    assert_eq!(engine.drive(false), Some(AudioCommand::Stop(ENGINE)));
    assert!(!engine.running);
    assert_eq!(engine.drive(false), None);
}

#[test]
fn one_command_for_each_press_and_release() {
    let mut engine = EngineSound::new(Some(ENGINE));
    let samples = [false, true, true, true, false, false, true, false, true, true];
    assert_eq!(
        run(&mut engine, &samples),
        vec![
            AudioCommand::PlayLooped(ENGINE),
            AudioCommand::Stop(ENGINE),
            AudioCommand::PlayLooped(ENGINE),
            AudioCommand::Stop(ENGINE),
            AudioCommand::PlayLooped(ENGINE),
        ]
    );
    assert!(engine.running);
}

#[test]
fn running_engine_begins_with_a_stop() {
    let mut engine = EngineSound { running: true, sound: Some(ENGINE) };
    assert_eq!(
        run(&mut engine, &[true, false, false, true]),
        vec![AudioCommand::Stop(ENGINE), AudioCommand::PlayLooped(ENGINE)]
    );
}

#[test]
fn commands_name_the_bound_sound() {
    let mut first = EngineSound::new(Some(SoundHandle(10)));
    let mut second = EngineSound::new(Some(SoundHandle(11)));
    assert_eq!(first.start(), Some(AudioCommand::PlayLooped(SoundHandle(10))));
    assert_eq!(second.start(), Some(AudioCommand::PlayLooped(SoundHandle(11))));
    assert_eq!(first.stop(), Some(AudioCommand::Stop(SoundHandle(10))));
    assert!(second.running);
}
