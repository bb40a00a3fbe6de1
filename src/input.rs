use vstd::prelude::*;
use crate::animation::{Draw, Orientation};
use crate::player::{Action, Player};

verus! {

/// The keys the player is steered with; every other key is `Other`.
#[derive(Clone, Copy, Debug, PartialEq, Eq, Structural)]
pub enum Key {
    W,
    A,
    S,
    D,
    Other,
}

pub open spec fn is_movement_key(k: Key) -> bool {
    k != Key::Other
}

/// The box of `size` at `pos` lies inside `[0, width] x [0, height]`.
pub open spec fn in_bounds(pos: (int, int), size: (int, int), width: int, height: int) -> bool {
    &&& 0 <= pos.0
    &&& pos.0 + size.0 <= width
    &&& 0 <= pos.1
    &&& pos.1 + size.1 <= height
}

/// Whether the move that `key` asks for keeps the box inside the window,
/// judged from the position before the move.
pub open spec fn can_move(
    pos: (int, int),
    speed: int,
    size: (int, int),
    key: Key,
    width: int,
    height: int,
) -> bool {
    match key {
        Key::W => pos.1 - speed >= 0,
        Key::S => pos.1 + speed + size.1 <= height,
        Key::A => pos.0 - speed >= 0,
        Key::D => pos.0 + speed + size.0 <= width,
        Key::Other => false,
    }
}

/// The position after the move that `key` asks for.
pub open spec fn moved(pos: (int, int), speed: int, key: Key) -> (int, int) {
    match key {
        Key::W => (pos.0, pos.1 - speed),
        Key::S => (pos.0, pos.1 + speed),
        Key::A => (pos.0 - speed, pos.1),
        Key::D => (pos.0 + speed, pos.1),
        Key::Other => pos,
    }
}

/// The position after one key press.
pub open spec fn step(
    pos: (int, int),
    speed: int,
    size: (int, int),
    key: Key,
    width: int,
    height: int,
) -> (int, int) {
    if can_move(pos, speed, size, key, width, height) {
        moved(pos, speed, key)
    } else {
        pos
    }
}

/// The position after a sequence of key presses in a window of one size.
pub open spec fn position_after(
    pos: (int, int),
    speed: int,
    size: (int, int),
    keys: Seq<Key>,
    width: int,
    height: int,
) -> (int, int)
    decreases keys.len(),
{
    if keys.len() == 0 {
        pos
    } else {
        step(
            position_after(pos, speed, size, keys.drop_last(), width, height),
            speed,
            size,
            keys.last(),
            width,
            height,
        )
    }
}

/// The player after the movement command of `key`, when it is allowed.
pub open spec fn after_move<T>(p: Player<T>, key: Key) -> Player<T> {
    let pos = moved((p.position.0 as int, p.position.1 as int), p.speed as int, key);
    let q = p.at(pos.0, pos.1);
    match key {
        Key::A => q.facing(Orientation::Flipped),
        Key::D => q.facing(Orientation::Normal),
        _ => q,
    }
}

/// Turns key events into movement commands and action changes for the player.
#[derive(Debug)]
pub struct App<T> {
    pub player: Player<T>,
}

impl<T> App<T> {
    pub open spec fn position(&self) -> (int, int) {
        (self.player.position.0 as int, self.player.position.1 as int)
    }

    pub open spec fn size(&self) -> (int, int) {
        (self.player.size.0 as int, self.player.size.1 as int)
    }

    pub fn new(player: Player<T>) -> (r: Self)
        ensures
            r.player == player,
    {
        App { player }
    }

    /// Describes the draw of the player's current animation; see `Player::render`.
    pub fn render(&mut self) -> (r: Option<Draw>)
        requires
            old(self).player.wf(),
        ensures
            final(self).player.wf(),
            final(self).player == (Player {
                animations: old(self).player.animations.with_clip(
                    old(self).player.current_action,
                    old(self).player.current_clip().advanced(),
                ),
                ..old(self).player
            }),
            r is Some <==> old(self).player.current_clip().texture is Some,
            r matches Some(dr) ==> old(self).player.current_clip().is_draw(dr),
    {
        self.player.render()
    }

    /// A fixed-rate tick: nothing moves on it.
    pub fn update(&mut self)
        ensures
            *final(self) == *old(self),
    {
    }

    /// A key press in a window of `width` by `height`: a movement key moves
    /// the player by its speed where the whole bounding box stays inside the
    /// window, and then sets the action to walking; otherwise nothing changes.
    pub fn press(&mut self, key: Key, width: u32, height: u32)
        requires
            old(self).player.wf(),
        ensures
            final(self).player.wf(),
            can_move(
                old(self).position(),
                old(self).player.speed as int,
                old(self).size(),
                key,
                width as int,
                height as int,
            ) ==> final(self).player == after_move(old(self).player, key).doing(Action::Walk),
            !can_move(
                old(self).position(),
                old(self).player.speed as int,
                old(self).size(),
                key,
                width as int,
                height as int,
            ) ==> *final(self) == *old(self),
            final(self).position() == step(
                old(self).position(),
                old(self).player.speed as int,
                old(self).size(),
                key,
                width as int,
                height as int,
            ),
            in_bounds(old(self).position(), old(self).size(), width as int, height as int)
                ==> in_bounds(final(self).position(), final(self).size(), width as int, height as int),
    {
        let (x, y) = self.player.get_position();
        let speed = self.player.get_speed() as i128;
        let (bw, bh) = self.player.get_size();
        let moved = match key {
            Key::W => {
                if y as i128 - speed >= 0 {
                    self.player.move_up();
                    true
                } else {
                    false
                }
            },
            Key::S => {
                if y as i128 + speed + bh as i128 <= height as i128 {
                    self.player.move_down();
                    true
                } else {
                    false
                }
            },
            Key::A => {
                if x as i128 - speed >= 0 {
                    self.player.move_left();
                    true
                } else {
                    false
                }
            },
            Key::D => {
                if x as i128 + speed + bw as i128 <= width as i128 {
                    self.player.move_right();
                    true
                } else {
                    false
                }
            },
            Key::Other => false,
        };
        if moved {
            self.player.change_action(Action::Walk);
        }
    }

    /// A key release: letting go of a movement key makes the player idle,
    /// whatever other keys are still held.
    pub fn release(&mut self, key: Key)
        ensures
            is_movement_key(key) ==> final(self).player == old(self).player.doing(Action::Idle),
            !is_movement_key(key) ==> *final(self) == *old(self),
    {
        match key {
            Key::W | Key::A | Key::S | Key::D => self.player.change_action(Action::Idle),
            Key::Other => {},
        }
    }
}

/// Key presses never take the player's bounding box out of a window that
/// keeps its size: a box that starts inside `[0, width] x [0, height]` stays
/// inside after any sequence of presses.
pub proof fn lemma_presses_stay_in_bounds(
    pos: (int, int),
    speed: int,
    size: (int, int),
    keys: Seq<Key>,
    width: int,
    height: int,
)
    requires
        speed >= 0,
        in_bounds(pos, size, width, height),
    ensures
        in_bounds(position_after(pos, speed, size, keys, width, height), size, width, height),
    decreases keys.len(),
{
    if keys.len() > 0 {
        lemma_presses_stay_in_bounds(pos, speed, size, keys.drop_last(), width, height);
    }
}

} // verus!
