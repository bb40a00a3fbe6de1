use vstd::prelude::*;
use crate::player::Action;
use vstd::arithmetic::div_mod::{
    lemma_fundamental_div_mod,
    lemma_fundamental_div_mod_converse,
    lemma_mod_pos_bound,
};

verus! {

/// Scale factors are held in hundredths: `100` stands for a scale of one.
pub const SCALE_UNIT: u32 = 100;

/// Whether a sprite is drawn as stored in its sheet or mirrored along one axis.
#[derive(Clone, Copy, Debug, PartialEq, Eq, Structural)]
pub enum Orientation {
    Normal,
    Flipped,
}

/// An axis-aligned rectangle in pixels: top-left corner, width and height.
#[derive(Clone, Copy, Debug, PartialEq, Eq, Structural)]
pub struct Rect {
    pub x: u32,
    pub y: u32,
    pub w: u32,
    pub h: u32,
}

/// A 2-D affine map `(x, y) -> (xx*x + xy*y + x0, yx*x + yy*y + y0)`,
/// as a mathematical value.
pub struct Affine {
    pub xx: int,
    pub xy: int,
    pub x0: int,
    pub yx: int,
    pub yy: int,
    pub y0: int,
}

/// The affine map applied after scaling, with every entry in hundredths
/// (see `SCALE_UNIT`).
#[derive(Clone, Copy, Debug, PartialEq, Eq, Structural)]
pub struct Transform {
    pub xx: i128,
    pub xy: i128,
    pub x0: i128,
    pub yx: i128,
    pub yy: i128,
    pub y0: i128,
}

impl View for Transform {
    type V = Affine;

    open spec fn view(&self) -> Affine {
        Affine {
            xx: self.xx as int,
            xy: self.xy as int,
            x0: self.x0 as int,
            yx: self.yx as int,
            yy: self.yy as int,
            y0: self.y0 as int,
        }
    }
}

/// `a` followed, in local coordinates, by `b`: the matrix product `a * b`.
pub open spec fn compose(a: Affine, b: Affine) -> Affine {
    Affine {
        xx: a.xx * b.xx + a.xy * b.yx,
        xy: a.xx * b.xy + a.xy * b.yy,
        x0: a.xx * b.x0 + a.xy * b.y0 + a.x0,
        yx: a.yx * b.xx + a.yy * b.yx,
        yy: a.yx * b.xy + a.yy * b.yy,
        y0: a.yx * b.x0 + a.yy * b.y0 + a.y0,
    }
}

pub open spec fn scaling(sx: int, sy: int) -> Affine {
    Affine { xx: sx, xy: 0, x0: 0, yx: 0, yy: sy, y0: 0 }
}

pub open spec fn translation(dx: int, dy: int) -> Affine {
    Affine { xx: 1, xy: 0, x0: dx, yx: 0, yy: 1, y0: dy }
}

/// The transform local to one sprite, in hundredths: scale first, then the
/// vertical flip and its shift back by the frame height, then the horizontal
/// flip and its shift back by the frame width.
pub open spec fn sprite_transform(
    width: int,
    height: int,
    x_scale: int,
    y_scale: int,
    horizontal: Orientation,
    vertical: Orientation,
) -> Affine {
    let t = scaling(x_scale, y_scale);
    let t = if vertical == Orientation::Flipped {
        compose(compose(t, scaling(1, -1)), translation(0, -height))
    } else {
        t
    };
    if horizontal == Orientation::Flipped {
        compose(compose(t, scaling(-1, 1)), translation(-width, 0))
    } else {
        t
    }
}

/// The tick counter after one update: it wraps to zero at the end of a cycle.
pub open spec fn next_cursor(cursor: int, framerate: int) -> int {
    if cursor >= framerate - 1 {
        0
    } else {
        cursor + 1
    }
}

/// The tick counter after `ticks` updates.
pub open spec fn cursor_after(cursor: int, framerate: int, ticks: nat) -> int
    decreases ticks,
{
    if ticks == 0 {
        cursor
    } else {
        next_cursor(cursor_after(cursor, framerate, (ticks - 1) as nat), framerate)
    }
}

/// Which frame is shown at a given tick counter: one cycle of `framerate`
/// ticks is cut into `frame_count` buckets of equal length.
pub open spec fn frame_index(cursor: int, framerate: int, frame_count: int) -> int {
    cursor / (framerate / frame_count)
}

/// The atlas offset sampled at a given tick counter, `(0, 0)` where the
/// index falls outside the frame list.
pub open spec fn frame_at(cursor: int, framerate: int, frames: Seq<(u32, u32)>) -> (u32, u32) {
    let i = frame_index(cursor, framerate, frames.len() as int);
    if 0 <= i < frames.len() {
        frames[i]
    } else {
        (0u32, 0u32)
    }
}

/// The on-screen extent of a frame edge of `size` pixels at a scale in hundredths.
pub open spec fn footprint(size: int, scale: int) -> int {
    size * scale / SCALE_UNIT as int
}

/// The values one sprite animation is loaded from.
#[derive(Clone, Debug)]
pub struct AnimationDescriptor {
    pub filepath_animation: String,
    pub width: u32,
    pub height: u32,
    /// Ticks in one full cycle; one when absent.
    pub framerate: Option<u32>,
    pub frames: Vec<(u32, u32)>,
    pub horizontal_orientation: Orientation,
    pub vertical_orientation: Orientation,
    /// In hundredths.
    pub x_scale: u32,
    /// In hundredths.
    pub y_scale: u32,
}

/// Why a descriptor cannot become an animation.
#[derive(Clone, Copy, Debug, PartialEq, Eq, Structural)]
pub enum LoadError {
    /// The frame list is empty.
    NoFrames,
    /// The cycle is zero ticks long.
    ZeroFramerate,
    /// There are fewer ticks in a cycle than frames.
    FramerateBelowFrameCount,
    /// The ticks of a cycle do not split evenly among the frames.
    UnevenFramerate,
    /// A scale factor is zero.
    ZeroScale,
    /// No animation is given for this action.
    MissingAction(Action),
}

pub open spec fn effective_framerate(d: AnimationDescriptor) -> int {
    match d.framerate {
        Some(f) => f as int,
        None => 1,
    }
}

/// The first check that a descriptor fails, if any.
pub open spec fn descriptor_error(d: AnimationDescriptor) -> Option<LoadError> {
    let n = d.frames@.len() as int;
    let f = effective_framerate(d);
    if n == 0 {
        Some(LoadError::NoFrames)
    } else if f == 0 {
        Some(LoadError::ZeroFramerate)
    } else if f < n {
        Some(LoadError::FramerateBelowFrameCount)
    } else if f % n != 0 {
        Some(LoadError::UnevenFramerate)
    } else if d.x_scale == 0 || d.y_scale == 0 {
        Some(LoadError::ZeroScale)
    } else {
        None
    }
}

/// What one draw call of a sprite needs: the part of the sheet to sample,
/// where to put it, and the local transform.
#[derive(Clone, Copy, Debug, PartialEq, Eq, Structural)]
pub struct Draw {
    pub src_rect: Rect,
    pub dest_rect: Rect,
    pub transform: Transform,
}

/// One sprite animation: its frames in a sheet, its playback cursor, and the
/// drawable handle of the sheet once it has been attached.
#[derive(Debug)]
pub struct Animation<T> {
    pub filepath_animation: String,
    pub width: u32,
    pub height: u32,
    pub framerate: u32,
    pub frames: Vec<(u32, u32)>,
    pub horizontal_orientation: Orientation,
    pub vertical_orientation: Orientation,
    /// In hundredths.
    pub x_scale: u32,
    /// In hundredths.
    pub y_scale: u32,
    pub current_frame: u32,
    pub texture: Option<T>,
    pub rect: Rect,
}

impl<T> Animation<T> {
    pub open spec fn wf(&self) -> bool {
        &&& self.frames@.len() >= 1
        &&& self.framerate >= self.frames@.len()
        &&& self.framerate % (self.frames@.len() as u32) == 0
        &&& self.current_frame < self.framerate
        &&& self.x_scale > 0
        &&& self.y_scale > 0
        &&& self.rect == (Rect { x: 0, y: 0, w: self.width, h: self.height })
    }

    /// The local transform that a draw of this animation uses.
    pub open spec fn transform_spec(&self) -> Affine {
        sprite_transform(
            self.width as int,
            self.height as int,
            self.x_scale as int,
            self.y_scale as int,
            self.horizontal_orientation,
            self.vertical_orientation,
        )
    }

    /// The atlas offset that the next update shows.
    pub open spec fn frame_spec(&self) -> (u32, u32) {
        frame_at(self.current_frame as int, self.framerate as int, self.frames@)
    }

    pub open spec fn with_horizontal(self, o: Orientation) -> Self {
        Animation { horizontal_orientation: o, ..self }
    }

    pub open spec fn with_vertical(self, o: Orientation) -> Self {
        Animation { vertical_orientation: o, ..self }
    }

    pub open spec fn with_cursor(self, c: u32) -> Self {
        Animation { current_frame: c, ..self }
    }

    /// `d` describes the draw of the frame that the next update shows.
    pub open spec fn is_draw(&self, d: Draw) -> bool {
        &&& d.src_rect == (Rect {
            x: self.frame_spec().0,
            y: self.frame_spec().1,
            w: self.width,
            h: self.height,
        })
        &&& d.dest_rect == self.rect
        &&& d.transform@ == self.transform_spec()
    }

    /// The animation after one update of its cursor.
    pub open spec fn advanced(self) -> Self {
        self.with_cursor(next_cursor(self.current_frame as int, self.framerate as int) as u32)
    }

    /// Builds an animation from its descriptor, checking that the frames
    /// split a cycle evenly; the cursor starts at zero and no drawable is attached.
    pub fn from_descriptor(d: AnimationDescriptor) -> (r: Result<Animation<T>, LoadError>)
        ensures
            descriptor_error(d) is Some <==> r is Err,
            r matches Err(e) ==> descriptor_error(d) == Some(e),
            r matches Ok(a) ==> {
                &&& a.wf()
                &&& a.filepath_animation == d.filepath_animation
                &&& a.width == d.width
                &&& a.height == d.height
                &&& a.framerate == effective_framerate(d)
                &&& a.frames@ == d.frames@
                &&& a.horizontal_orientation == d.horizontal_orientation
                &&& a.vertical_orientation == d.vertical_orientation
                &&& a.x_scale == d.x_scale
                &&& a.y_scale == d.y_scale
                &&& a.current_frame == 0
                &&& a.texture is None
            },
    {
        let n = d.frames.len();
        let framerate: u32 = match d.framerate {
            Some(f) => f,
            None => 1,
        };
        if n == 0 {
            return Err(LoadError::NoFrames);
        }
        if framerate == 0 {
            return Err(LoadError::ZeroFramerate);
        }
        if (framerate as usize) < n {
            return Err(LoadError::FramerateBelowFrameCount);
        }
        if framerate % (n as u32) != 0 {
            return Err(LoadError::UnevenFramerate);
        }
        if d.x_scale == 0 || d.y_scale == 0 {
            return Err(LoadError::ZeroScale);
        }
        let rect = Rect { x: 0, y: 0, w: d.width, h: d.height };
        Ok(Animation {
            filepath_animation: d.filepath_animation,
            width: d.width,
            height: d.height,
            framerate,
            frames: d.frames,
            horizontal_orientation: d.horizontal_orientation,
            vertical_orientation: d.vertical_orientation,
            x_scale: d.x_scale,
            y_scale: d.y_scale,
            current_frame: 0,
            texture: None,
            rect,
        })
    }

    /// Attaches the drawable handle of the sprite sheet.
    pub fn attach_texture(&mut self, texture: T)
        ensures
            *final(self) == (Animation { texture: Some(texture), ..*old(self) }),
    {
        self.texture = Some(texture);
    }

    /// Advances the cursor by one tick and returns the atlas offset chosen by
    /// the cursor as it stood before the update.
    pub fn update_animation_frame(&mut self) -> (r: (u32, u32))
        requires
            old(self).wf(),
        ensures
            *final(self) == old(self).advanced(),
            final(self).wf(),
            r == old(self).frame_spec(),
    {
        let frame = self.current_frame;
        let n = self.frames.len();
        self.current_frame = if self.current_frame >= self.framerate - 1 {
            0
        } else {
            self.current_frame + 1
        };
        let bucket = self.framerate / (n as u32);
        proof {
            lemma_frame_index_in_range(frame as int, self.framerate as int, n as int);
        }
        let i = frame / bucket;
        self.frames[i as usize]
    }

    /// The local transform of this animation, exact in hundredths.
    pub fn compose_transform(&self) -> (r: Transform)
        ensures
            r@ == self.transform_spec(),
    {
        let xs = self.x_scale as i128;
        let ys = self.y_scale as i128;
        proof {
            lemma_sprite_transform_closed_form(
                self.width as int,
                self.height as int,
                xs as int,
                ys as int,
                self.horizontal_orientation,
                self.vertical_orientation,
            );
            assert(0 <= xs * self.width <= 0xffff_ffff * 0xffff_ffff) by (nonlinear_arith)
                requires
                    0 <= xs <= 0xffff_ffff,
                    0 <= self.width <= 0xffff_ffff,
            ;
            assert(0 <= ys * self.height <= 0xffff_ffff * 0xffff_ffff) by (nonlinear_arith)
                requires
                    0 <= ys <= 0xffff_ffff,
                    0 <= self.height <= 0xffff_ffff,
            ;
        }
        let (xx, x0) = match self.horizontal_orientation {
            Orientation::Flipped => (-xs, xs * self.width as i128),
            Orientation::Normal => (xs, 0),
        };
        let (yy, y0) = match self.vertical_orientation {
            Orientation::Flipped => (-ys, ys * self.height as i128),
            Orientation::Normal => (ys, 0),
        };
        Transform { xx, xy: 0, x0, yx: 0, yy, y0 }
    }

    /// Advances the frame and describes the draw of it; nothing is drawn
    /// while no drawable is attached, but the cursor still moves.
    pub fn render(&mut self) -> (r: Option<Draw>)
        requires
            old(self).wf(),
        ensures
            *final(self) == old(self).advanced(),
            final(self).wf(),
            r is Some <==> old(self).texture is Some,
            r matches Some(dr) ==> old(self).is_draw(dr),
    {
        let (fx, fy) = self.update_animation_frame();
        let src_rect = Rect { x: fx, y: fy, w: self.width, h: self.height };
        let t = self.compose_transform();
        match &self.texture {
            Some(_) => Some(Draw { src_rect, dest_rect: self.rect, transform: t }),
            None => None,
        }
    }

    /// Sets how the sprite is mirrored left to right.
    pub fn horizontal_orientation(&mut self, o: Orientation)
        ensures
            *final(self) == old(self).with_horizontal(o),
            final(self).transform_spec() == sprite_transform(
                old(self).width as int,
                old(self).height as int,
                old(self).x_scale as int,
                old(self).y_scale as int,
                o,
                old(self).vertical_orientation,
            ),
    {
        self.horizontal_orientation = o;
    }

    /// Sets how the sprite is mirrored top to bottom.
    pub fn vertical_orientation(&mut self, o: Orientation)
        ensures
            *final(self) == old(self).with_vertical(o),
            final(self).transform_spec() == sprite_transform(
                old(self).width as int,
                old(self).height as int,
                old(self).x_scale as int,
                old(self).y_scale as int,
                old(self).horizontal_orientation,
                o,
            ),
    {
        self.vertical_orientation = o;
    }
}

/// Scaling, flipping and shifting back leave a diagonal map: each flipped
/// axis is negated and moved by its scaled frame size.
pub proof fn lemma_sprite_transform_closed_form(
    width: int,
    height: int,
    x_scale: int,
    y_scale: int,
    horizontal: Orientation,
    vertical: Orientation,
)
    ensures
        sprite_transform(width, height, x_scale, y_scale, horizontal, vertical) == (Affine {
            xx: if horizontal == Orientation::Flipped { -x_scale } else { x_scale },
            xy: 0,
            x0: if horizontal == Orientation::Flipped { x_scale * width } else { 0 },
            yx: 0,
            yy: if vertical == Orientation::Flipped { -y_scale } else { y_scale },
            y0: if vertical == Orientation::Flipped { y_scale * height } else { 0 },
        }),
{
    let s = scaling(x_scale, y_scale);
    let a = compose(s, scaling(1, -1));
    lemma_compose_diagonal(s, scaling(1, -1));
    let b = compose(a, translation(0, -height));
    lemma_compose_diagonal(a, translation(0, -height));
    assert((-y_scale) * (-height) == y_scale * height) by (nonlinear_arith);
    let v = if vertical == Orientation::Flipped { b } else { s };
    let c = compose(v, scaling(-1, 1));
    lemma_compose_diagonal(v, scaling(-1, 1));
    let e = compose(c, translation(-width, 0));
    lemma_compose_diagonal(c, translation(-width, 0));
    assert((-x_scale) * (-width) == x_scale * width) by (nonlinear_arith);
}

/// Composing two maps that do not mix the axes multiplies them axis by axis.
proof fn lemma_compose_diagonal(a: Affine, b: Affine)
    requires
        a.xy == 0 && a.yx == 0,
        b.xy == 0 && b.yx == 0,
    ensures
        compose(a, b) == (Affine {
            xx: a.xx * b.xx,
            xy: 0,
            x0: a.xx * b.x0 + a.x0,
            yx: 0,
            yy: a.yy * b.yy,
            y0: a.yy * b.y0 + a.y0,
        }),
{
    assert(a.xy * b.yx == 0 && a.xy * b.yy == 0 && a.xy * b.y0 == 0) by (nonlinear_arith)
        requires
            a.xy == 0,
    ;
    assert(a.yx * b.xx == 0 && a.yx * b.xy == 0 && a.yx * b.x0 == 0) by (nonlinear_arith)
        requires
            a.yx == 0,
    ;
    assert(a.xx * b.xy == 0 && a.yy * b.yx == 0) by (nonlinear_arith)
        requires
            b.xy == 0,
            b.yx == 0,
    ;
}

/// A cursor inside a cycle picks a frame inside the list when the cycle
/// splits evenly into buckets.
pub proof fn lemma_frame_index_in_range(cursor: int, framerate: int, frame_count: int)
    requires
        1 <= frame_count <= framerate,
        framerate % frame_count == 0,
        0 <= cursor < framerate,
    ensures
        framerate / frame_count >= 1,
        0 <= frame_index(cursor, framerate, frame_count) < frame_count,
{
    let b = framerate / frame_count;
    lemma_fundamental_div_mod(framerate, frame_count);
    assert(framerate == frame_count * b);
    assert(b >= 1) by (nonlinear_arith)
        requires
            framerate == frame_count * b,
            1 <= frame_count <= framerate,
    ;
    lemma_fundamental_div_mod(cursor, b);
    let q = cursor / b;
    assert(0 <= q < frame_count) by (nonlinear_arith)
        requires
            cursor == b * q + cursor % b,
            0 <= cursor % b < b,
            b >= 1,
            0 <= cursor < framerate,
            framerate == frame_count * b,
    ;
}

/// After `ticks` updates from a cursor inside the cycle, the cursor stands at
/// `(cursor + ticks) mod framerate`.
pub proof fn lemma_cursor_after_ticks(cursor: int, framerate: int, ticks: nat)
    requires
        0 <= cursor < framerate,
    ensures
        cursor_after(cursor, framerate, ticks) == (cursor + ticks) % framerate,
    decreases ticks,
{
    if ticks == 0 {
        lemma_fundamental_div_mod_converse(cursor, framerate, 0, cursor);
    } else {
        lemma_cursor_after_ticks(cursor, framerate, (ticks - 1) as nat);
        let x = cursor + ticks - 1;
        let q = x / framerate;
        let m = x % framerate;
        lemma_fundamental_div_mod(x, framerate);
        lemma_mod_pos_bound(x, framerate);
        if m == framerate - 1 {
            assert(x + 1 == (q + 1) * framerate + 0) by (nonlinear_arith)
                requires
                    x == framerate * q + m,
                    m == framerate - 1,
            ;
            lemma_fundamental_div_mod_converse(x + 1, framerate, q + 1, 0);
        } else {
            assert(x + 1 == q * framerate + (m + 1)) by (nonlinear_arith)
                requires
                    x == framerate * q + m,
            ;
            lemma_fundamental_div_mod_converse(x + 1, framerate, q, m + 1);
        }
    }
}

/// Updating a cursor `framerate` times brings it back where it was, and with
/// it the frame that is shown: playback is periodic.
pub proof fn lemma_cycle_returns(cursor: int, framerate: int, frames: Seq<(u32, u32)>)
    requires
        0 <= cursor < framerate,
    ensures
        cursor_after(cursor, framerate, framerate as nat) == cursor,
        frame_at(cursor_after(cursor, framerate, framerate as nat), framerate, frames)
            == frame_at(cursor, framerate, frames),
{
    lemma_cursor_after_ticks(cursor, framerate, framerate as nat);
    lemma_fundamental_div_mod_converse(cursor + framerate, framerate, 1, cursor);
}

/// Played from a fresh cursor, with a cycle that splits evenly into
/// `frame_count` buckets of `framerate / frame_count` ticks, frame `k` is shown
/// exactly at the ticks of the `k`-th bucket of each cycle, and the schedule
/// repeats every `framerate` ticks.
pub proof fn lemma_frame_schedule(framerate: int, frame_count: int, tick: nat, k: int)
    requires
        1 <= frame_count <= framerate,
        framerate % frame_count == 0,
    ensures
        cursor_after(0, framerate, tick) == (tick as int) % framerate,
        0 <= frame_index(cursor_after(0, framerate, tick), framerate, frame_count) < frame_count,
        frame_index(cursor_after(0, framerate, tick), framerate, frame_count) == k <==> k * (
        framerate / frame_count) <= (tick as int) % framerate < (k + 1) * (framerate / frame_count),
        frame_index(cursor_after(0, framerate, tick + framerate as nat), framerate, frame_count)
            == frame_index(cursor_after(0, framerate, tick), framerate, frame_count),
{
    let b = framerate / frame_count;
    let c = (tick as int) % framerate;
    lemma_cursor_after_ticks(0, framerate, tick);
    lemma_cursor_after_ticks(0, framerate, tick + framerate as nat);
    lemma_fundamental_div_mod(tick as int, framerate);
    lemma_mod_pos_bound(tick as int, framerate);
    let tq = tick as int / framerate;
    assert(tick as int + framerate == (tq + 1) * framerate + c) by (nonlinear_arith)
        requires
            tick as int == framerate * tq + c,
    ;
    lemma_fundamental_div_mod_converse(
        tick as int + framerate,
        framerate,
        tick as int / framerate + 1,
        c,
    );
    lemma_frame_index_in_range(c, framerate, frame_count);
    let q = c / b;
    lemma_fundamental_div_mod(c, b);
    lemma_mod_pos_bound(c, b);
    assert(q == k <==> k * b <= c < (k + 1) * b) by (nonlinear_arith)
        requires
            c == b * q + c % b,
            0 <= c % b < b,
            b >= 1,
    ;
}

/// Flipping an animation left to right and setting it back to normal leaves
/// the same transform as setting it to normal directly; from a normal
/// orientation, it restores the animation exactly. The same holds top to bottom.
pub proof fn lemma_flip_round_trip<T>(a: Animation<T>)
    ensures
        a.with_horizontal(Orientation::Flipped).with_horizontal(Orientation::Normal).transform_spec()
            == a.with_horizontal(Orientation::Normal).transform_spec(),
        a.horizontal_orientation == Orientation::Normal ==> a.with_horizontal(
            Orientation::Flipped,
        ).with_horizontal(Orientation::Normal) == a,
        a.with_vertical(Orientation::Flipped).with_vertical(Orientation::Normal).transform_spec()
            == a.with_vertical(Orientation::Normal).transform_spec(),
        a.vertical_orientation == Orientation::Normal ==> a.with_vertical(
            Orientation::Flipped,
        ).with_vertical(Orientation::Normal) == a,
{
}

} // verus!
