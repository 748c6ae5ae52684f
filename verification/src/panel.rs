//! The panel's state, the messages that change it, and the commands that it
//! hands to the scene.
//!
//! The panel never touches the scene. Each message is folded into the state by
//! [`PanelState::update`], which answers with a [`SceneCommand`] for the frame
//! loop to carry out.
use crate::color::{Color, FULL};
use crate::entropy::{random_u32, random_u8};
use crate::geometry::Vector;
use crate::quad::{CustomQuad, Radii, Shadow};
use vstd::prelude::*;

verus! {

/// The side of a sprite that the panel spawns.
pub const SPRITE_SIDE: i32 = 5000;

/// The side of the square, centred on the origin, over which spawned sprites
/// are scattered.
pub const SCATTER: i32 = 30000;

/// The background opacity below which the panel's text turns white.
pub const FAINT: u8 = 5;

/// The side of the quad that the panel shows.
pub const QUAD_SIDE: i32 = 2000;

/// The corner radius of the quad that the panel shows.
pub const QUAD_RADIUS: i32 = 400;

/// What a control of the panel reports when it is used.
#[derive(Clone, Copy, Debug, PartialEq, Eq, Structural)]
pub enum UiMessage {
    /// The gradient is to start at this colour.
    StartChanged(Color),
    /// The gradient is to end at this colour.
    EndChanged(Color),
    /// The gradient is to run in this direction.
    AngleChanged(i32),
    /// The quad's shadow is to have this colour.
    ShadowColorChanged(Color),
    /// The panel's background is to have this alpha.
    BackgroundOpacityChanged(u8),
    /// The quad's shadow is to lie this far to the right of the quad.
    ShadowOffsetXChanged(i32),
    /// The quad's shadow is to lie this far below the quad.
    ShadowOffsetYChanged(i32),
    /// The quad, on the panel and in the scene, is to have this colour.
    QuadColorChanged(Color),
    /// The scene is to get one more sprite.
    ObjectSpawned,
}

/// A colour with four 8-bit channels, from `0` to `255` each.
#[derive(Clone, Copy, Debug, PartialEq, Eq, Structural)]
pub struct Tint {
    pub r: u8,
    pub g: u8,
    pub b: u8,
    pub a: u8,
}

/// A square sprite for the scene: where its centre lies, its side and its
/// colour.
#[derive(Clone, Copy, Debug, PartialEq, Eq, Structural)]
pub struct Sprite {
    pub position: Vector,
    pub side: i32,
    pub tint: Tint,
}

/// The six random numbers that one sprite is made from, in the order in which
/// they are drawn: two that place it, then the four channels of its colour.
#[derive(Clone, Copy, Debug, PartialEq, Eq, Structural)]
pub struct Samples {
    pub x: u32,
    pub y: u32,
    pub red: u8,
    pub green: u8,
    pub blue: u8,
    pub alpha: u8,
}

/// What the frame loop is to do to the scene after a message.
#[derive(Clone, Copy, Debug, PartialEq, Eq, Structural)]
pub enum SceneCommand {
    /// Leave the scene as it is.
    Nothing,
    /// Give every quad of the scene this colour.
    Recolor(Color),
    /// Add this sprite to the scene.
    Spawn(Sprite),
}

/// The coordinate that a sample stands for: the samples from `0` to
/// `u32::MAX` are spread evenly over [`SCATTER`], from half of it below the
/// origin to just under half of it above.
pub open spec fn scatter(sample: u32) -> int {
    (sample * SCATTER) / 0x1_0000_0000 - SCATTER / 2
}

fn scatter_coordinate(sample: u32) -> (coordinate: i32)
    ensures
        coordinate == scatter(sample),
        -SCATTER / 2 <= coordinate < SCATTER / 2,
{
    let wide: u64 = sample as u64 * SCATTER as u64;
    let scaled: u64 = wide / 0x1_0000_0000;
    scaled as i32 - SCATTER / 2
}

impl Sprite {
    /// The sprite that the given samples stand for.
    pub open spec fn spec_from_samples(samples: Samples) -> Sprite {
        Sprite {
            position: Vector { x: scatter(samples.x) as i32, y: scatter(samples.y) as i32 },
            side: SPRITE_SIDE,
            tint: Tint {
                r: samples.red,
                g: samples.green,
                b: samples.blue,
                a: samples.alpha,
            },
        }
    }

    /// Makes a sprite of the panel's size from six random numbers: two place
    /// it, four colour it.
    pub fn from_samples(samples: Samples) -> (sprite: Sprite)
        ensures
            sprite == Sprite::spec_from_samples(samples),
            sprite.side == SPRITE_SIDE,
            -SCATTER / 2 <= sprite.position.x < SCATTER / 2,
            -SCATTER / 2 <= sprite.position.y < SCATTER / 2,
    {
        Sprite {
            position: Vector {
                x: scatter_coordinate(samples.x),
                y: scatter_coordinate(samples.y),
            },
            side: SPRITE_SIDE,
            tint: Tint {
                r: samples.red,
                g: samples.green,
                b: samples.blue,
                a: samples.alpha,
            },
        }
    }
}

impl Samples {
    pub fn new(x: u32, y: u32, red: u8, green: u8, blue: u8, alpha: u8) -> (samples: Samples)
        ensures
            samples == (Samples { x, y, red, green, blue, alpha }),
    {
        Samples { x, y, red, green, blue, alpha }
    }

    /// Draws six fresh random numbers: the two for the place first, then the
    /// four for the colour.
    fn draw() -> (samples: Samples) {
        let x: u32 = random_u32();
        let y: u32 = random_u32();
        let red: u8 = random_u8();
        let green: u8 = random_u8();
        let blue: u8 = random_u8();
        let alpha: u8 = random_u8();
        Samples { x, y, red, green, blue, alpha }
    }
}

/// The colour of the panel's text over a background of the given opacity:
/// white where the background is too faint to carry black.
pub open spec fn legible_text(opacity: u8) -> Color {
    if opacity < FAINT {
        Color::spec_white()
    } else {
        Color::spec_black()
    }
}

/// The quad of the panel in the given colour, casting the given shadow.
pub open spec fn spec_swatch(color: Color, shadow: Shadow) -> CustomQuad {
    CustomQuad {
        color,
        size: QUAD_SIDE,
        radius: Radii {
            top_left: QUAD_RADIUS,
            top_right: QUAD_RADIUS,
            bottom_right: QUAD_RADIUS,
            bottom_left: QUAD_RADIUS,
        },
        shadow,
    }
}

/// The quad that a colour picker shows beside its sliders: the picked colour
/// over the shadow that the panel holds.
#[verifier::when_used_as_spec(spec_swatch)]
pub fn swatch(color: Color, shadow: Shadow) -> (quad: CustomQuad)
    ensures
        quad == spec_swatch(color, shadow),
{
    CustomQuad { color, size: QUAD_SIDE, radius: Radii::uniform(QUAD_RADIUS), shadow }
}

/// Everything that the panel shows and edits.
#[derive(Clone, Copy, Debug, PartialEq, Eq, Structural)]
pub struct PanelState {
    /// The colour at the start of the gradient.
    pub start: Color,
    /// The colour at the end of the gradient.
    pub end: Color,
    /// The direction of the gradient.
    pub angle: i32,
    /// The shadow of the quad.
    pub shadow: Shadow,
    /// The alpha of the panel's white background.
    pub background_opacity: u8,
    /// The colour of the panel's text.
    pub text_color: Color,
    /// The colour of the quad.
    pub quad_color: Color,
}

impl PanelState {
    /// The state in which the panel opens.
    pub open spec fn spec_initial() -> PanelState {
        PanelState {
            start: Color { r: FULL, g: 50, b: FULL, a: FULL },
            end: Color { r: 0, g: 0, b: FULL, a: FULL },
            angle: 0,
            shadow: Shadow {
                color: Color { r: 0, g: 0, b: 0, a: 80 },
                offset: Vector { x: 0, y: 800 },
                blur_radius: 1600,
            },
            background_opacity: FULL,
            text_color: Color::spec_black(),
            quad_color: Color { r: 0, g: FULL, b: FULL, a: FULL },
        }
    }

    /// The state after a message.
    pub open spec fn spec_after(self, message: UiMessage) -> PanelState {
        match message {
            UiMessage::StartChanged(color) => PanelState { start: color, ..self },
            UiMessage::EndChanged(color) => PanelState { end: color, ..self },
            UiMessage::AngleChanged(angle) => PanelState { angle, ..self },
            UiMessage::ShadowColorChanged(color) => PanelState {
                shadow: Shadow { color, ..self.shadow },
                ..self
            },
            UiMessage::BackgroundOpacityChanged(opacity) => PanelState {
                background_opacity: opacity,
                text_color: legible_text(opacity),
                ..self
            },
            UiMessage::ShadowOffsetXChanged(x) => PanelState {
                shadow: Shadow { offset: Vector { x, ..self.shadow.offset }, ..self.shadow },
                ..self
            },
            UiMessage::ShadowOffsetYChanged(y) => PanelState {
                shadow: Shadow { offset: Vector { y, ..self.shadow.offset }, ..self.shadow },
                ..self
            },
            UiMessage::QuadColorChanged(color) => PanelState { quad_color: color, ..self },
            UiMessage::ObjectSpawned => self,
        }
    }

    /// The state after a run of messages, taken in order.
    pub open spec fn spec_after_all(self, messages: Seq<UiMessage>) -> PanelState
        decreases messages.len(),
    {
        if messages.len() == 0 {
            self
        } else {
            self.spec_after_all(messages.drop_last()).spec_after(messages.last())
        }
    }

    /// The command that a message asks for. Only a spawn reads the samples.
    pub open spec fn spec_command(message: UiMessage, samples: Samples) -> SceneCommand {
        match message {
            UiMessage::QuadColorChanged(color) => SceneCommand::Recolor(color),
            UiMessage::ObjectSpawned => SceneCommand::Spawn(Sprite::spec_from_samples(samples)),
            _ => SceneCommand::Nothing,
        }
    }

    /// Whether `command` is what `message` asks for, for some outcome of the
    /// random numbers.
    pub open spec fn spec_answers(command: SceneCommand, message: UiMessage) -> bool {
        exists|samples: Samples| command == PanelState::spec_command(message, samples)
    }

    /// The quad that the panel shows: the current quad colour over the
    /// current shadow.
    pub open spec fn spec_quad(&self) -> CustomQuad {
        spec_swatch(self.quad_color, self.shadow)
    }

    #[verifier::when_used_as_spec(spec_quad)]
    pub fn quad(&self) -> (quad: CustomQuad)
        ensures
            quad == self.spec_quad(),
    {
        swatch(self.quad_color, self.shadow)
    }

    /// The panel's background: white, as opaque as the state says.
    pub fn background(&self) -> (color: Color)
        ensures
            color == (Color {
                r: FULL,
                g: FULL,
                b: FULL,
                a: crate::color::channel(self.background_opacity as int) as u8,
            }),
    {
        Color::from_rgba(FULL, FULL, FULL, self.background_opacity)
    }

    /// Folds one message into the state, with the samples to make a sprite
    /// from should the message ask for one.
    pub fn step(&mut self, message: UiMessage, samples: Samples) -> (command: SceneCommand)
        ensures
            *final(self) == old(self).spec_after(message),
            command == PanelState::spec_command(message, samples),
    {
        match message {
            UiMessage::StartChanged(color) => {
                self.start = color;
                SceneCommand::Nothing
            },
            UiMessage::EndChanged(color) => {
                self.end = color;
                SceneCommand::Nothing
            },
            UiMessage::AngleChanged(angle) => {
                self.angle = angle;
                SceneCommand::Nothing
            },
            UiMessage::ShadowColorChanged(color) => {
                self.shadow.color = color;
                SceneCommand::Nothing
            },
            UiMessage::BackgroundOpacityChanged(opacity) => {
                if opacity < FAINT {
                    self.text_color = Color::white();
                } else {
                    self.text_color = Color::black();
                }
                self.background_opacity = opacity;
                SceneCommand::Nothing
            },
            UiMessage::QuadColorChanged(color) => {
                self.quad_color = color;
                SceneCommand::Recolor(color)
            },
            UiMessage::ShadowOffsetXChanged(x) => {
                self.shadow.offset.x = x;
                SceneCommand::Nothing
            },
            UiMessage::ShadowOffsetYChanged(y) => {
                self.shadow.offset.y = y;
                SceneCommand::Nothing
            },
            UiMessage::ObjectSpawned => SceneCommand::Spawn(Sprite::from_samples(samples)),
        }
    }

    /// Folds one message into the state. A spawn draws fresh random numbers
    /// for its sprite; no other message draws any.
    pub fn update(&mut self, message: UiMessage) -> (command: SceneCommand)
        ensures
            *final(self) == old(self).spec_after(message),
            PanelState::spec_answers(command, message),
            !(message is ObjectSpawned) ==> forall|samples: Samples|
                command == PanelState::spec_command(message, samples),
    {
        let samples: Samples = match message {
            UiMessage::ObjectSpawned => Samples::draw(),
            _ => Samples { x: 0, y: 0, red: 0, green: 0, blue: 0, alpha: 0 },
        };
        self.step(message, samples)
    }

    /// Folds a run of messages into the state, in order, and lists the
    /// command that each of them asks for.
    pub fn update_all(&mut self, messages: &Vec<UiMessage>) -> (commands: Vec<SceneCommand>)
        ensures
            *final(self) == old(self).spec_after_all(messages@),
            commands.len() == messages.len(),
            forall|i: int|
                0 <= i < messages.len() ==> #[trigger] PanelState::spec_answers(
                    commands[i],
                    messages[i],
                ),
    {
        let mut commands: Vec<SceneCommand> = Vec::new();
        let mut i: usize = 0;
        while i < messages.len()
            invariant
                i <= messages.len(),
                commands.len() == i,
                *self == old(self).spec_after_all(messages@.take(i as int)),
                forall|k: int|
                    0 <= k < i ==> #[trigger] PanelState::spec_answers(commands[k], messages[k]),
            decreases messages.len() - i,
        {
            let ghost before = commands@;
            let command: SceneCommand = self.update(messages[i]);
            commands.push(command);
            proof {
                let next = messages@.take(i + 1);
                assert(next.drop_last() =~= messages@.take(i as int));
                assert(next.last() == messages[i as int]);
                assert forall|k: int| 0 <= k < i + 1 implies #[trigger] PanelState::spec_answers(
                    commands[k],
                    messages[k],
                ) by {
                    if k < i {
                        assert(commands[k] == before[k]);
                    }
                }
            }
            i = i + 1;
        }
        assert(messages@.take(i as int) =~= messages@);
        commands
    }
}

impl Default for PanelState {
    fn default() -> (state: PanelState)
        ensures
            state == PanelState::spec_initial(),
    {
        PanelState {
            start: Color { r: FULL, g: 50, b: FULL, a: FULL },
            end: Color { r: 0, g: 0, b: FULL, a: FULL },
            angle: 0,
            shadow: Shadow {
                color: Color { r: 0, g: 0, b: 0, a: 80 },
                offset: Vector { x: 0, y: 800 },
                blur_radius: 1600,
            },
            background_opacity: FULL,
            text_color: Color::black(),
            quad_color: Color { r: 0, g: FULL, b: FULL, a: FULL },
        }
    }
}

/// The quad that the panel shows is built from the state as the last message
/// left it: a quad-colour message gives it its fill, a shadow message changes
/// its shadow, and no message changes its side or its corners.
pub proof fn lemma_quad_follows_messages(state: PanelState, message: UiMessage)
    ensures
        state.spec_after(message).spec_quad().size == QUAD_SIDE,
        state.spec_after(message).spec_quad().radius == state.spec_quad().radius,
        state.spec_after(message).spec_quad().color == (match message {
            UiMessage::QuadColorChanged(color) => color,
            _ => state.quad_color,
        }),
        state.spec_after(message).spec_quad().shadow == (match message {
            UiMessage::ShadowColorChanged(color) => Shadow { color, ..state.shadow },
            UiMessage::ShadowOffsetXChanged(x) => Shadow {
                offset: Vector { x, ..state.shadow.offset },
                ..state.shadow
            },
            UiMessage::ShadowOffsetYChanged(y) => Shadow {
                offset: Vector { y, ..state.shadow.offset },
                ..state.shadow
            },
            _ => state.shadow,
        }),
{
}

} // verus!
