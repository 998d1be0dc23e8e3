use vstd::prelude::*;
use vstd::string::StrSliceExecFns;
use vstd::string::StringExecFns;

use crate::color::Hsv;

verus! {

/// Number of scenes the button steps through.
pub const SCENE_COUNT: u8 = 2;

/// What the lamp is told: which of its presets to show, and how bright.
#[derive(Clone, Copy, Debug, PartialEq, Eq, Structural)]
pub struct SceneCommand {
    /// The lamp's own number for the preset.
    pub scene_id: u32,
    /// Brightness in percent.
    pub dimming: u32,
}

/// The command that selects a scene: scene 0 is the bright preset, every
/// other scene the dim one.
pub open spec fn command_for(scene: u8) -> SceneCommand {
    if scene == 0 {
        SceneCommand { scene_id: 12, dimming: 100 }
    } else {
        SceneCommand { scene_id: 6, dimming: 10 }
    }
}

/// The colour the pixel shows while a scene is being selected: the hue steps
/// by 100 degrees per scene, at full saturation and a fifth of full value.
pub open spec fn feedback_for(scene: u8) -> Hsv {
    Hsv { h: (scene as u32 * 100) as u32, s: 100, v: 20 }
}

/// The scene after a scene: `(scene + 1) mod 2`.
pub open spec fn next_scene(scene: u8) -> u8 {
    ((scene + 1) % 2) as u8
}

/// The character of a decimal digit.
pub open spec fn digit(d: int) -> char {
    "0123456789"@[d]
}

/// A natural number in decimal, without sign or leading zeros.
pub open spec fn decimal(n: nat) -> Seq<char>
    decreases n,
{
    if n < 10 {
        seq![digit(n as int)]
    } else {
        decimal(n / 10).push(digit((n % 10) as int))
    }
}

/// The text of a command: a JSON object that names the method `setPilot` and
/// gives the preset and the brightness as its parameters.
pub open spec fn payload_of(command: SceneCommand) -> Seq<char> {
    "{\"method\":\"setPilot\",\"params\":{\"sceneId\":"@ + decimal(command.scene_id as nat)
        + ",\"dimming\":"@ + decimal(command.dimming as nat) + "}}"@
}

/// Appends a number in decimal to a text.
fn append_decimal(text: &mut String, n: u32)
    ensures
        final(text)@ == old(text)@ + decimal(n as nat),
    decreases n,
{
    if n >= 10 {
        append_decimal(text, n / 10);
    }
    let d: usize = (n % 10) as usize;
    proof {
        reveal_strlit("0123456789");
    }
    let digits: &str = "0123456789";
    let one: &str = digits.substring_ascii(d, d + 1);
    assert(one@ =~= seq![digit(d as int)]);
    text.append(one);
}

impl SceneCommand {
    /// The brightness is a percentage.
    pub open spec fn is_valid(self) -> bool {
        self.dimming <= 100
    }

    /// The command that selects a scene.
    pub fn for_scene(scene: u8) -> (command: SceneCommand)
        ensures
            command == command_for(scene),
            command.is_valid(),
    {
        if scene == 0 {
            SceneCommand { scene_id: 12, dimming: 100 }
        } else {
            SceneCommand { scene_id: 6, dimming: 10 }
        }
    }

    /// The text to send to the lamp.
    pub fn payload(&self) -> (text: String)
        ensures
            text@ == payload_of(*self),
    {
        let mut text: String = String::from_str("{\"method\":\"setPilot\",\"params\":{\"sceneId\":");
        append_decimal(&mut text, self.scene_id);
        text.append(",\"dimming\":");
        append_decimal(&mut text, self.dimming);
        text.append("}}");
        text
    }
}

/// The colour the pixel shows while a scene is being selected.
pub fn feedback(scene: u8) -> (request: Hsv)
    ensures
        request == feedback_for(scene),
{
    Hsv { h: scene as u32 * 100, s: 100, v: 20 }
}

/// The scene that follows a scene.
pub fn advance(scene: u8) -> (next: u8)
    ensures
        next == next_scene(scene),
        next < SCENE_COUNT,
{
    if scene % 2 == 0 {
        1
    } else {
        0
    }
}

} // verus!
