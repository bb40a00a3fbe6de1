use sprite_player::animation::{Animation, AnimationDescriptor, LoadError, Orientation};
use sprite_player::input::{App, Key};
use sprite_player::player::{Action, AnimationLibrary, Player, PLAYER_SPEED};

fn clip(width: u32, height: u32, x_scale: u32, y_scale: u32, texture: u8) -> Animation<u8> {
    let mut a = Animation::from_descriptor(AnimationDescriptor {
        filepath_animation: "sheet.png".to_string(),
        width,
        height,
        framerate: Some(2),
        frames: vec![(0, 0), (width, 0)],
        horizontal_orientation: Orientation::Flipped,
        vertical_orientation: Orientation::Normal,
        x_scale,
        y_scale,
    })
    .unwrap();
    a.attach_texture(texture);
    a
}

fn library() -> AnimationLibrary<u8> {
    AnimationLibrary::from_entries(vec![
        ("idle".to_string(), clip(10, 10, 100, 100, 1)),
        ("walk".to_string(), clip(10, 10, 100, 100, 2)),
    ])
    .unwrap()
}

fn app() -> App<u8> {
    App::new(Player::new(library()))
}

#[test]
fn action_names() {
    assert_eq!(Action::from_name(&"idle".to_string()), Some(Action::Idle));
    assert_eq!(Action::from_name(&"walk".to_string()), Some(Action::Walk));
    assert_eq!(Action::from_name(&"run".to_string()), None);
    assert_eq!(Action::from_name(&"".to_string()), None);
}

#[test]
fn library_takes_the_last_entry_of_a_name() {
    let lib = AnimationLibrary::from_entries(vec![
        ("walk".to_string(), clip(10, 10, 100, 100, 1)),
        ("jump".to_string(), clip(10, 10, 100, 100, 2)),
        ("idle".to_string(), clip(10, 10, 100, 100, 3)),
        ("walk".to_string(), clip(10, 10, 100, 100, 4)),
    ])
    .unwrap();
    assert_eq!(lib.idle.texture, Some(3));
    assert_eq!(lib.walk.texture, Some(4));
}

#[test]
fn library_without_idle_is_rejected() {
    let r = AnimationLibrary::from_entries(vec![("walk".to_string(), clip(10, 10, 100, 100, 1))]);
    assert_eq!(r.err(), Some(LoadError::MissingAction(Action::Idle)));
}

#[test]
fn library_without_walk_is_rejected() {
    let r = AnimationLibrary::from_entries(vec![("idle".to_string(), clip(10, 10, 100, 100, 1))]);
    assert_eq!(r.err(), Some(LoadError::MissingAction(Action::Walk)));
}

#[test]
fn new_player_defaults() {
    let p = Player::new(library());
    assert_eq!(p.get_position(), (0, 0));
    assert_eq!(p.get_speed(), PLAYER_SPEED);
    assert_eq!(p.get_speed(), 5);
    assert_eq!(p.current_action, Action::Idle);
    assert_eq!(p.get_size(), (10, 10));
}

#[test]
fn bounding_size_is_the_largest_scaled_frame() {
    let lib = AnimationLibrary::from_entries(vec![
        ("idle".to_string(), clip(33, 20, 150, 100, 1)),
        ("walk".to_string(), clip(30, 24, 100, 50, 2)),
    ])
    .unwrap();
    let p = Player::new(lib);
    assert_eq!(p.get_size(), (49, 20));
}

#[test]
fn player_moves_by_its_speed() {
    let mut p = Player::new(library());
    p.move_down();
    p.move_right();
    assert_eq!(p.get_position(), (5, 5));
    assert_eq!(p.animations.idle.horizontal_orientation, Orientation::Normal);
    p.move_left();
    p.move_up();
    assert_eq!(p.get_position(), (0, 0));
    assert_eq!(p.animations.idle.horizontal_orientation, Orientation::Flipped);
    p.change_action(Action::Walk);
    assert_eq!(p.current_action, Action::Walk);
}

#[test]
fn press_d_then_release() {
    let mut a = app();
    a.press(Key::D, 100, 100);
    assert_eq!(a.player.get_position(), (5, 0));
    assert_eq!(a.player.animations.idle.horizontal_orientation, Orientation::Normal);
    assert_eq!(a.player.animations.walk.horizontal_orientation, Orientation::Flipped);
    assert_eq!(a.player.current_action, Action::Walk);
    a.release(Key::D);
    assert_eq!(a.player.current_action, Action::Idle);
    assert_eq!(a.player.get_position(), (5, 0));
}

#[test]
fn presses_stop_at_the_window_edge() {
    let mut a = app();
    for _ in 0..40 {
        a.press(Key::D, 100, 100);
        a.press(Key::S, 100, 60);
        let (x, y) = a.player.get_position();
        assert!(x + 10 <= 100 && y + 10 <= 60);
    }
    assert_eq!(a.player.get_position(), (90, 50));
    for _ in 0..40 {
        a.press(Key::A, 100, 100);
        a.press(Key::W, 100, 100);
        let (x, y) = a.player.get_position();
        assert!(x >= 0 && y >= 0);
    }
    assert_eq!(a.player.get_position(), (0, 0));
}

#[test]
fn blocked_press_changes_nothing() {
    let mut a = app();
    a.press(Key::A, 100, 100);
    a.press(Key::W, 100, 100);
    assert_eq!(a.player.get_position(), (0, 0));
    assert_eq!(a.player.current_action, Action::Idle);
    assert_eq!(a.player.animations.idle.horizontal_orientation, Orientation::Flipped);
}

#[test]
fn other_keys_are_ignored() {
    let mut a = app();
    a.press(Key::Other, 100, 100);
    assert_eq!(a.player.get_position(), (0, 0));
    assert_eq!(a.player.current_action, Action::Idle);
    a.press(Key::D, 100, 100);
    a.release(Key::Other);
    assert_eq!(a.player.current_action, Action::Walk);
    a.update();
    assert_eq!(a.player.get_position(), (5, 0));
}

#[test]
fn render_plays_the_current_action() {
    let mut a = app();
    let d = a.render().unwrap();
    assert_eq!(d.src_rect.x, 0);
    assert_eq!(a.player.animations.idle.current_frame, 1);
    assert_eq!(a.player.animations.walk.current_frame, 0);
    assert_eq!(a.player.current_texture(), Some(&1));
    a.press(Key::D, 100, 100);
    a.render();
    assert_eq!(a.player.animations.walk.current_frame, 1);
    assert_eq!(a.player.current_texture(), Some(&2));
}
