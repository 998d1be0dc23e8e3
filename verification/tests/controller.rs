use neopixel_scene::color::{Hsv, Rgb};
use neopixel_scene::controller::{Action, InputController, Level, Phase, POLL_PERIOD_MS};
use neopixel_scene::neopixel::Neopixel;
use neopixel_scene::pulse::encode_frame;
use neopixel_scene::scene::SceneCommand;

const OFF: Hsv = Hsv { h: 0, s: 0, v: 0 };

fn press(scene_id: u32, dimming: u32, h: u32) -> Action {
    Action::Press {
        feedback: Hsv { h, s: 100, v: 20 },
        command: SceneCommand { scene_id, dimming },
    }
}

fn commands(actions: &[Action]) -> Vec<SceneCommand> {
    let mut sent = Vec::new();
    for action in actions {
        if let Action::Press { command, .. } = action {
            sent.push(*command);
        }
    }
    sent
}

#[test]
fn starts_at_scene_0_idle() {
    let controller = InputController::new();
    assert_eq!(controller.scene(), 0);
    assert_eq!(controller.phase(), Phase::Idle);
    assert_eq!(POLL_PERIOD_MS, 100);
}

#[test]
fn press_acts_at_once() {
    let mut controller = InputController::new();
    assert_eq!(controller.poll(Level::Low), press(12, 100, 0));
    assert_eq!(controller.scene(), 1);
    assert_eq!(controller.phase(), Phase::Handled);
}

#[test]
fn held_button_acts_once() {
    for n in 1..50usize {
        let mut controller = InputController::new();
        let actions: Vec<Action> = (0..n).map(|_| controller.poll(Level::Low)).collect();
        assert_eq!(actions[0], press(12, 100, 0));
        assert!(actions[1..].iter().all(|a| *a == Action::Rest));
        assert_eq!(commands(&actions), vec![SceneCommand { scene_id: 12, dimming: 100 }]);
        assert_eq!(controller.scene(), 1);
        assert_eq!(controller.phase(), Phase::Handled);
    }
}

#[test]
fn held_button_from_scene_1_acts_once() {
    let mut controller = InputController::new();
    controller.poll(Level::Low);
    controller.poll(Level::High);
    let actions: Vec<Action> = (0..10).map(|_| controller.poll(Level::Low)).collect();
    assert_eq!(commands(&actions), vec![SceneCommand { scene_id: 6, dimming: 10 }]);
    assert_eq!(actions.iter().filter(|a| **a != Action::Rest).count(), 1);
    assert_eq!(controller.scene(), 0);
}

#[test]
fn two_presses_toggle_back() {
    let mut controller = InputController::new();
    controller.poll(Level::Low);
    assert_eq!(controller.scene(), 1);
    controller.poll(Level::High);
    assert_eq!(controller.scene(), 1);
    controller.poll(Level::Low);
    assert_eq!(controller.scene(), 0);
    controller.poll(Level::High);
    controller.poll(Level::Low);
    assert_eq!(controller.scene(), 1);
}

#[test]
fn release_turns_the_pixel_off() {
    let mut controller = InputController::new();
    let mut pixel = Neopixel::new();
    for _ in 0..4 {
        controller.poll(Level::Low);
        controller.poll(Level::Low);
        let action = controller.poll(Level::High);
        assert_eq!(action, Action::Release { feedback: OFF });
        assert_eq!(controller.phase(), Phase::Idle);
        let frame = pixel.set_color_hsv(OFF.h, OFF.s, OFF.v).unwrap();
        assert_eq!(frame, encode_frame(Rgb { r: 0, g: 0, b: 0 }));
        assert_eq!(pixel.color(), Some(Rgb { r: 0, g: 0, b: 0 }));
    }
}

#[test]
fn idle_line_keeps_the_pixel_off() {
    let mut controller = InputController::new();
    for _ in 0..5 {
        assert_eq!(controller.poll(Level::High), Action::Release { feedback: OFF });
        assert_eq!(controller.scene(), 0);
        assert_eq!(controller.phase(), Phase::Idle);
    }
}

#[test]
fn press_release_press() {
    let mut controller = InputController::new();
    let mut pixel = Neopixel::new();
    assert_eq!(controller.scene(), 0);

    // first press, held for three cycles
    let first: Vec<Action> = (0..3).map(|_| controller.poll(Level::Low)).collect();
    assert_eq!(first, vec![press(12, 100, 0), Action::Rest, Action::Rest]);
    assert_eq!(commands(&first).len(), 1);
    assert_eq!(
        commands(&first)[0].payload(),
        r#"{"method":"setPilot","params":{"sceneId":12,"dimming":100}}"#
    );
    assert_eq!(pixel.set_color_hsv(0, 100, 20), Ok(encode_frame(Rgb { r: 51, g: 0, b: 0 })));

    // release
    let released = controller.poll(Level::High);
    assert_eq!(released, Action::Release { feedback: OFF });
    assert_eq!(pixel.set_color_hsv(0, 0, 0), Ok(encode_frame(Rgb { r: 0, g: 0, b: 0 })));

    // second press
    let second = controller.poll(Level::Low);
    assert_eq!(second, press(6, 10, 100));
    match second {
        Action::Press { feedback, command } => {
            assert_eq!(feedback, Hsv { h: 100, s: 100, v: 20 });
            assert_eq!(
                command.payload(),
                r#"{"method":"setPilot","params":{"sceneId":6,"dimming":10}}"#
            );
            assert!(pixel.set_color_hsv(feedback.h, feedback.s, feedback.v).is_ok());
        }
        _ => panic!("the second press must act"),
    }
    assert_eq!(controller.scene(), 0);
}

#[test]
fn every_request_can_be_shown() {
    let mut controller = InputController::new();
    let mut pixel = Neopixel::new();
    let samples = [Level::Low, Level::Low, Level::High, Level::High, Level::Low, Level::High];
    for round in 0..6 {
        for level in samples {
            match controller.poll(level) {
                Action::Rest => {}
                Action::Press { feedback, .. } | Action::Release { feedback } => {
                    assert!(pixel.set_color_hsv(feedback.h, feedback.s, feedback.v).is_ok());
                }
            }
            assert!(controller.scene() < 2, "round {}", round);
        }
    }
}
