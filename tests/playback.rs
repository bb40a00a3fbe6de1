use sprite_player::animation::{
    Animation, AnimationDescriptor, Draw, LoadError, Orientation, Rect, Transform,
};

fn descriptor(framerate: Option<u32>, frames: Vec<(u32, u32)>) -> AnimationDescriptor {
    AnimationDescriptor {
        filepath_animation: "sheet.png".to_string(),
        width: 32,
        height: 48,
        framerate,
        frames,
        horizontal_orientation: Orientation::Normal,
        vertical_orientation: Orientation::Normal,
        x_scale: 200,
        y_scale: 100,
    }
}

fn clip(framerate: Option<u32>, frames: Vec<(u32, u32)>) -> Animation<u8> {
    Animation::from_descriptor(descriptor(framerate, frames)).unwrap()
}

#[test]
fn two_frames_over_four_ticks() {
    let mut a = clip(Some(4), vec![(0, 0), (10, 0)]);
    let shown: Vec<(u32, u32)> = (0..5).map(|_| a.update_animation_frame()).collect();
    assert_eq!(shown, vec![(0, 0), (0, 0), (10, 0), (10, 0), (0, 0)]);
}

#[test]
fn each_frame_holds_for_its_bucket() {
    let mut a = clip(Some(6), vec![(0, 0), (1, 0), (2, 0)]);
    let shown: Vec<u32> = (0..12).map(|_| a.update_animation_frame().0).collect();
    assert_eq!(shown, vec![0, 0, 1, 1, 2, 2, 0, 0, 1, 1, 2, 2]);
}

#[test]
fn one_frame_per_tick_when_counts_match() {
    let mut a = clip(Some(3), vec![(5, 1), (6, 2), (7, 3)]);
    let shown: Vec<(u32, u32)> = (0..4).map(|_| a.update_animation_frame()).collect();
    assert_eq!(shown, vec![(5, 1), (6, 2), (7, 3), (5, 1)]);
}

#[test]
fn a_full_cycle_returns_the_cursor() {
    let mut a = clip(Some(8), vec![(0, 0), (16, 0)]);
    a.update_animation_frame();
    a.update_animation_frame();
    a.update_animation_frame();
    let before = (a.current_frame, a.update_animation_frame());
    for _ in 0..7 {
        a.update_animation_frame();
    }
    let after = (a.current_frame, a.update_animation_frame());
    assert_eq!(before, after);
    assert_eq!(a.current_frame, 4);
}

#[test]
fn missing_framerate_means_one_tick() {
    let mut a = clip(None, vec![(3, 4)]);
    assert_eq!(a.framerate, 1);
    assert_eq!(a.update_animation_frame(), (3, 4));
    assert_eq!(a.current_frame, 0);
    assert_eq!(a.update_animation_frame(), (3, 4));
}

#[test]
fn loaded_clip_starts_at_zero_without_texture() {
    let a = clip(Some(2), vec![(0, 0), (1, 1)]);
    assert_eq!(a.current_frame, 0);
    assert!(a.texture.is_none());
    assert_eq!(a.rect, Rect { x: 0, y: 0, w: 32, h: 48 });
}

#[test]
fn empty_frames_are_rejected() {
    let r = Animation::<u8>::from_descriptor(descriptor(Some(4), vec![]));
    assert_eq!(r.err(), Some(LoadError::NoFrames));
}

#[test]
fn zero_framerate_is_rejected() {
    let r = Animation::<u8>::from_descriptor(descriptor(Some(0), vec![(0, 0)]));
    assert_eq!(r.err(), Some(LoadError::ZeroFramerate));
}

#[test]
fn framerate_below_frame_count_is_rejected() {
    let r = Animation::<u8>::from_descriptor(descriptor(Some(2), vec![(0, 0), (1, 0), (2, 0)]));
    assert_eq!(r.err(), Some(LoadError::FramerateBelowFrameCount));
}

#[test]
fn uneven_framerate_is_rejected() {
    let r = Animation::<u8>::from_descriptor(descriptor(Some(5), vec![(0, 0), (1, 0)]));
    assert_eq!(r.err(), Some(LoadError::UnevenFramerate));
}

#[test]
fn zero_scale_is_rejected() {
    let mut d = descriptor(Some(2), vec![(0, 0)]);
    d.y_scale = 0;
    let r = Animation::<u8>::from_descriptor(d);
    assert_eq!(r.err(), Some(LoadError::ZeroScale));
}

#[test]
fn normal_transform_only_scales() {
    let a = clip(Some(1), vec![(0, 0)]);
    assert_eq!(a.compose_transform(), Transform { xx: 200, xy: 0, x0: 0, yx: 0, yy: 100, y0: 0 });
}

#[test]
fn flips_mirror_and_shift_back() {
    let mut a = clip(Some(1), vec![(0, 0)]);
    a.horizontal_orientation(Orientation::Flipped);
    assert_eq!(
        a.compose_transform(),
        Transform { xx: -200, xy: 0, x0: 6400, yx: 0, yy: 100, y0: 0 }
    );
    a.vertical_orientation(Orientation::Flipped);
    assert_eq!(
        a.compose_transform(),
        Transform { xx: -200, xy: 0, x0: 6400, yx: 0, yy: -100, y0: 4800 }
    );
}

#[test]
fn flip_then_normal_restores_transform() {
    let mut a = clip(Some(1), vec![(0, 0)]);
    let original = a.compose_transform();
    a.horizontal_orientation(Orientation::Flipped);
    assert_ne!(a.compose_transform(), original);
    a.horizontal_orientation(Orientation::Normal);
    assert_eq!(a.compose_transform(), original);
    a.vertical_orientation(Orientation::Flipped);
    a.vertical_orientation(Orientation::Normal);
    assert_eq!(a.compose_transform(), original);
}

#[test]
fn render_without_texture_draws_nothing_but_advances() {
    let mut a = clip(Some(2), vec![(0, 0), (9, 0)]);
    assert_eq!(a.render(), None);
    assert_eq!(a.current_frame, 1);
    assert_eq!(a.render(), None);
    assert_eq!(a.current_frame, 0);
}

#[test]
fn render_with_texture_describes_the_draw() {
    let mut a = clip(Some(2), vec![(0, 0), (9, 0)]);
    a.attach_texture(7u8);
    assert_eq!(a.texture, Some(7));
    a.render();
    let d = a.render().unwrap();
    assert_eq!(
        d,
        Draw {
            src_rect: Rect { x: 9, y: 0, w: 32, h: 48 },
            dest_rect: Rect { x: 0, y: 0, w: 32, h: 48 },
            transform: Transform { xx: 200, xy: 0, x0: 0, yx: 0, yy: 100, y0: 0 },
        }
    );
    assert_eq!(a.current_frame, 0);
}
