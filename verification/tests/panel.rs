use quad_panel::color::Color;
use quad_panel::geometry::{Rectangle, Vector};
use quad_panel::panel::{
    swatch, PanelState, Samples, SceneCommand, Sprite, Tint, UiMessage, FAINT, QUAD_RADIUS,
    QUAD_SIDE, SCATTER, SPRITE_SIDE,
};
use quad_panel::quad::{Layer, Primitive, Radii, Shadow};

fn no_samples() -> Samples {
    Samples::new(0, 0, 0, 0, 0, 0)
}

#[test]
fn panel_opens_in_its_initial_state() {
    let state = PanelState::default();
    assert_eq!(state.start, Color { r: 100, g: 50, b: 100, a: 100 });
    assert_eq!(state.end, Color { r: 0, g: 0, b: 100, a: 100 });
    assert_eq!(state.angle, 0);
    assert_eq!(
        state.shadow,
        Shadow { color: Color { r: 0, g: 0, b: 0, a: 80 }, offset: Vector { x: 0, y: 800 }, blur_radius: 1600 }
    );
    assert_eq!(state.background_opacity, 100);
    assert_eq!(state.text_color, Color::black());
    assert_eq!(state.quad_color, Color { r: 0, g: 100, b: 100, a: 100 });
}

#[test]
fn constants_have_their_values() {
    assert_eq!(SPRITE_SIDE, 5000);
    assert_eq!(SCATTER, 30000);
    assert_eq!(FAINT, 5);
    assert_eq!(QUAD_SIDE, 2000);
    assert_eq!(QUAD_RADIUS, 400);
}

#[test]
fn gradient_messages_change_their_field_only() {
    let initial = PanelState::default();
    let pink = Color::from_rgba(100, 0, 50, 100);

    let mut state = initial;
    assert_eq!(state.update(UiMessage::StartChanged(pink)), SceneCommand::Nothing);
    assert_eq!(state, PanelState { start: pink, ..initial });

    let mut state = initial;
    assert_eq!(state.update(UiMessage::EndChanged(pink)), SceneCommand::Nothing);
    assert_eq!(state, PanelState { end: pink, ..initial });

    let mut state = initial;
    assert_eq!(state.update(UiMessage::AngleChanged(314)), SceneCommand::Nothing);
    assert_eq!(state, PanelState { angle: 314, ..initial });
}

#[test]
fn shadow_messages_change_the_shadow() {
    let initial = PanelState::default();
    let red = Color::from_rgba(100, 0, 0, 50);

    let mut state = initial;
    assert_eq!(state.update(UiMessage::ShadowColorChanged(red)), SceneCommand::Nothing);
    assert_eq!(state, PanelState { shadow: Shadow { color: red, ..initial.shadow }, ..initial });

    let mut state = initial;
    assert_eq!(state.update(UiMessage::ShadowOffsetXChanged(-250)), SceneCommand::Nothing);
    assert_eq!(state.shadow.offset, Vector { x: -250, y: 800 });
    assert_eq!(state.update(UiMessage::ShadowOffsetYChanged(10000)), SceneCommand::Nothing);
    assert_eq!(state.shadow.offset, Vector { x: -250, y: 10000 });
    assert_eq!(state.shadow.color, initial.shadow.color);
    assert_eq!(state.shadow.blur_radius, 1600);
}

#[test]
fn text_turns_white_over_a_faint_background() {
    let mut state = PanelState::default();
    assert_eq!(state.update(UiMessage::BackgroundOpacityChanged(4)), SceneCommand::Nothing);
    assert_eq!(state.background_opacity, 4);
    assert_eq!(state.text_color, Color::white());
    state.update(UiMessage::BackgroundOpacityChanged(5));
    assert_eq!(state.background_opacity, 5);
    assert_eq!(state.text_color, Color::black());
    state.update(UiMessage::BackgroundOpacityChanged(0));
    assert_eq!(state.text_color, Color::white());
    state.update(UiMessage::BackgroundOpacityChanged(100));
    assert_eq!(state.text_color, Color::black());
}

#[test]
fn background_is_white_with_the_chosen_opacity() {
    let mut state = PanelState::default();
    assert_eq!(state.background(), Color { r: 100, g: 100, b: 100, a: 100 });
    state.update(UiMessage::BackgroundOpacityChanged(37));
    assert_eq!(state.background(), Color { r: 100, g: 100, b: 100, a: 37 });
    state.update(UiMessage::BackgroundOpacityChanged(240));
    assert_eq!(state.background_opacity, 240);
    assert_eq!(state.background(), Color { r: 100, g: 100, b: 100, a: 100 });
}

#[test]
fn quad_colour_message_recolours_the_panel_and_the_scene() {
    let initial = PanelState::default();
    let mut state = initial;
    let orange = Color::from_rgba(100, 60, 0, 100);
    assert_eq!(state.update(UiMessage::QuadColorChanged(orange)), SceneCommand::Recolor(orange));
    assert_eq!(state.quad_color, orange);
    assert_eq!(state, PanelState { quad_color: orange, ..initial });
    assert_eq!(state.quad().color, orange);
    let mut stepped = initial;
    assert_eq!(
        stepped.step(UiMessage::QuadColorChanged(orange), no_samples()),
        SceneCommand::Recolor(orange)
    );
    assert_eq!(stepped, state);
}

#[test]
fn sprite_is_made_from_its_samples() {
    let sprite = Sprite::from_samples(Samples::new(0, u32::MAX, 255, 0, 0x12, 7));
    assert_eq!(
        sprite,
        Sprite {
            position: Vector { x: -15000, y: 14999 },
            side: 5000,
            tint: Tint { r: 255, g: 0, b: 0x12, a: 7 },
        }
    );
    let middle = Sprite::from_samples(Samples::new(0x8000_0000, 0x4000_0000, 0, 0, 0, 0));
    assert_eq!(middle.position, Vector { x: 0, y: -7500 });
    let third = Sprite::from_samples(Samples::new(1_431_655_765, 1_431_655_766, 0, 0, 0, 0));
    assert_eq!(third.position, Vector { x: -5001, y: -5000 });
    let step = Sprite::from_samples(Samples::new(143_165, 143_166, 0, 0, 0, 0));
    assert_eq!(step.position, Vector { x: -15000, y: -14999 });
}

#[test]
fn step_spawns_the_sprite_of_the_given_samples() {
    let initial = PanelState::default();
    let mut state = initial;
    let samples = Samples::new(0xffff_ffff, 0, 1, 2, 3, 4);
    let command = state.step(UiMessage::ObjectSpawned, samples);
    assert_eq!(command, SceneCommand::Spawn(Sprite::from_samples(samples)));
    assert_eq!(
        command,
        SceneCommand::Spawn(Sprite {
            position: Vector { x: 14999, y: -15000 },
            side: 5000,
            tint: Tint { r: 1, g: 2, b: 3, a: 4 },
        })
    );
    assert_eq!(state, initial);
}

#[test]
fn step_ignores_the_samples_unless_it_spawns() {
    let samples = Samples::new(9, 8, 7, 6, 5, 4);
    let mut with = PanelState::default();
    let mut without = PanelState::default();
    let messages = [
        UiMessage::StartChanged(Color::white()),
        UiMessage::EndChanged(Color::black()),
        UiMessage::AngleChanged(-157),
        UiMessage::ShadowColorChanged(Color::transparent()),
        UiMessage::BackgroundOpacityChanged(3),
        UiMessage::ShadowOffsetXChanged(1),
        UiMessage::ShadowOffsetYChanged(2),
        UiMessage::QuadColorChanged(Color::white()),
    ];
    for message in messages {
        assert_eq!(with.step(message, samples), without.step(message, no_samples()));
        assert_eq!(with, without);
    }
}

#[test]
fn update_spawns_a_sprite_inside_the_scatter_square() {
    let initial = PanelState::default();
    let mut state = initial;
    for _ in 0..200 {
        match state.update(UiMessage::ObjectSpawned) {
            SceneCommand::Spawn(sprite) => {
                assert_eq!(sprite.side, 5000);
                assert!(-15000 <= sprite.position.x && sprite.position.x < 15000);
                assert!(-15000 <= sprite.position.y && sprite.position.y < 15000);
            }
            other => panic!("a spawn answered with {:?}", other),
        }
        assert_eq!(state, initial);
    }
}

#[test]
fn update_spawns_differing_sprites() {
    let mut state = PanelState::default();
    let first = state.update(UiMessage::ObjectSpawned);
    let mut differs = false;
    for _ in 0..64 {
        if state.update(UiMessage::ObjectSpawned) != first {
            differs = true;
        }
    }
    assert!(differs);
}

#[test]
fn update_all_folds_messages_in_order() {
    let mut state = PanelState::default();
    let orange = Color::from_rgba(100, 60, 0, 100);
    let messages = vec![
        UiMessage::BackgroundOpacityChanged(2),
        UiMessage::QuadColorChanged(orange),
        UiMessage::ShadowOffsetXChanged(50),
        UiMessage::ObjectSpawned,
        UiMessage::BackgroundOpacityChanged(60),
        UiMessage::ShadowOffsetXChanged(75),
    ];
    let commands = state.update_all(&messages);
    assert_eq!(commands.len(), 6);
    assert_eq!(commands[0], SceneCommand::Nothing);
    assert_eq!(commands[1], SceneCommand::Recolor(orange));
    assert_eq!(commands[2], SceneCommand::Nothing);
    assert!(matches!(commands[3], SceneCommand::Spawn(_)));
    assert_eq!(commands[4], SceneCommand::Nothing);
    assert_eq!(commands[5], SceneCommand::Nothing);
    let initial = PanelState::default();
    assert_eq!(
        state,
        PanelState {
            background_opacity: 60,
            text_color: Color::black(),
            shadow: Shadow { offset: Vector { x: 75, y: 800 }, ..initial.shadow },
            quad_color: orange,
            ..initial
        }
    );
}

#[test]
fn update_all_of_nothing_changes_nothing() {
    let mut state = PanelState::default();
    let commands = state.update_all(&Vec::new());
    assert!(commands.is_empty());
    assert_eq!(state, PanelState::default());
}

#[test]
fn swatch_is_a_small_rounded_quad_over_the_given_shadow() {
    let blue = Color::from_rgb(0, 0, 100);
    let shadow = Shadow::new(Color::from_rgba(10, 20, 30, 40), Vector::new(-100, 200), 300);
    let quad = swatch(blue, shadow);
    assert_eq!(quad.color, blue);
    assert_eq!(quad.size, 2000);
    assert_eq!(quad.radius, Radii::uniform(400));
    assert_eq!(quad.shadow, shadow);
    let plain = swatch(blue, Shadow::default());
    assert_eq!(plain.shadow, Shadow::default());
    let primitives = plain.draw(Rectangle::new(0, 0, 10000, 10000));
    assert_eq!(primitives.len(), 1);
    assert_eq!(primitives[0].layer, Layer::Fill);
}

#[test]
fn picker_quad_of_the_opening_panel_casts_the_panel_shadow() {
    let state = PanelState::default();
    let quad = swatch(state.quad_color, state.shadow);
    assert_eq!(quad, state.quad());
    let primitives = quad.draw(Rectangle::new(0, 0, 10000, 10000));
    assert_eq!(
        primitives,
        vec![
            Primitive {
                layer: Layer::Shadow,
                bounds: Rectangle { x: 4000, y: 4800, width: 2000, height: 2000 },
                radii: Radii::uniform(400),
                color: Color { r: 0, g: 0, b: 0, a: 80 },
                blur_radius: 1600,
            },
            Primitive {
                layer: Layer::Fill,
                bounds: Rectangle { x: 4000, y: 4000, width: 2000, height: 2000 },
                radii: Radii::uniform(400),
                color: Color { r: 0, g: 100, b: 100, a: 100 },
                blur_radius: 0,
            },
        ]
    );
}

#[test]
fn panel_quad_follows_the_state() {
    let mut state = PanelState::default();
    state.update(UiMessage::ShadowOffsetXChanged(-300));
    let quad = state.quad();
    assert_eq!(quad.color, Color { r: 0, g: 100, b: 100, a: 100 });
    assert_eq!(quad.size, 2000);
    assert_eq!(quad.radius, Radii::uniform(400));
    assert_eq!(quad.shadow, state.shadow);
    let primitives = quad.draw(Rectangle::new(0, 0, 10000, 10000));
    assert_eq!(primitives.len(), 2);
    assert_eq!(primitives[0].bounds, Rectangle { x: 3700, y: 4800, width: 2000, height: 2000 });
    assert_eq!(primitives[1].bounds, Rectangle { x: 4000, y: 4000, width: 2000, height: 2000 });
}
