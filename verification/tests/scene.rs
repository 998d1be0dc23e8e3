use neopixel_scene::color::{Hsv, Rgb};
use neopixel_scene::scene::{advance, feedback, SceneCommand, SCENE_COUNT};

#[test]
fn scene_0_is_the_bright_preset() {
    assert_eq!(SceneCommand::for_scene(0), SceneCommand { scene_id: 12, dimming: 100 });
}

#[test]
fn other_scenes_are_the_dim_preset() {
    assert_eq!(SceneCommand::for_scene(1), SceneCommand { scene_id: 6, dimming: 10 });
    assert_eq!(SceneCommand::for_scene(2), SceneCommand { scene_id: 6, dimming: 10 });
    assert_eq!(SceneCommand::for_scene(255), SceneCommand { scene_id: 6, dimming: 10 });
}

#[test]
fn payload_of_scene_0() {
    assert_eq!(
        SceneCommand::for_scene(0).payload(),
        r#"{"method":"setPilot","params":{"sceneId":12,"dimming":100}}"#
    );
}

#[test]
fn payload_of_scene_1() {
    assert_eq!(
        SceneCommand::for_scene(1).payload(),
        r#"{"method":"setPilot","params":{"sceneId":6,"dimming":10}}"#
    );
}

#[test]
fn payload_numbers_in_decimal() {
    let text = |scene_id: u32, dimming: u32| SceneCommand { scene_id, dimming }.payload();
    assert_eq!(text(0, 0), r#"{"method":"setPilot","params":{"sceneId":0,"dimming":0}}"#);
    assert_eq!(text(9, 10), r#"{"method":"setPilot","params":{"sceneId":9,"dimming":10}}"#);
    assert_eq!(
        text(1000, 99),
        r#"{"method":"setPilot","params":{"sceneId":1000,"dimming":99}}"#
    );
    assert_eq!(
        text(u32::MAX, 305),
        r#"{"method":"setPilot","params":{"sceneId":4294967295,"dimming":305}}"#
    );
    for n in [1u32, 7, 10, 11, 19, 100, 101, 999, 1234567890] {
        assert_eq!(
            text(n, n),
            format!(r#"{{"method":"setPilot","params":{{"sceneId":{},"dimming":{}}}}}"#, n, n)
        );
    }
}

#[test]
fn payload_is_ascii() {
    assert!(SceneCommand::for_scene(0).payload().is_ascii());
    assert_eq!(SceneCommand::for_scene(0).payload().as_bytes().len(), 59);
}

#[test]
fn scenes_alternate() {
    assert_eq!(SCENE_COUNT, 2);
    assert_eq!(advance(0), 1);
    assert_eq!(advance(1), 0);
    assert_eq!(advance(advance(0)), 0);
    assert_eq!(advance(advance(1)), 1);
}

#[test]
fn advance_is_total() {
    assert_eq!(advance(2), 1);
    assert_eq!(advance(254), 1);
    assert_eq!(advance(255), 0);
}

#[test]
fn feedback_hue_steps_by_100() {
    assert_eq!(feedback(0), Hsv { h: 0, s: 100, v: 20 });
    assert_eq!(feedback(1), Hsv { h: 100, s: 100, v: 20 });
}

#[test]
fn feedback_colors() {
    let show = |scene: u8| {
        let request = feedback(scene);
        Rgb::from_hsv(request.h, request.s, request.v)
    };
    assert_eq!(show(0), Ok(Rgb { r: 51, g: 0, b: 0 }));
    assert_eq!(show(1), Ok(Rgb { r: 17, g: 51, b: 0 }));
}
