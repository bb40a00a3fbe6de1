use vstd::prelude::*;
use crate::animation::{Animation, Draw, LoadError, Orientation, footprint};

verus! {

/// How far one movement command moves the player, in pixels.
pub const PLAYER_SPEED: u32 = 5;

/// What the player is doing; each action plays its own animation.
#[derive(Clone, Copy, Debug, PartialEq, Eq, Structural)]
pub enum Action {
    Idle,
    Walk,
}

/// The name under which an action's animation is listed.
pub open spec fn action_name(a: Action) -> Seq<char> {
    match a {
        Action::Idle => seq!['i', 'd', 'l', 'e'],
        Action::Walk => seq!['w', 'a', 'l', 'k'],
    }
}

impl Action {
    /// The action listed under `name`, if any.
    pub fn from_name(name: &String) -> (r: Option<Action>)
        ensures
            r == Some(Action::Idle) <==> name@ == action_name(Action::Idle),
            r == Some(Action::Walk) <==> name@ == action_name(Action::Walk),
            r is None <==> (name@ != action_name(Action::Idle) && name@ != action_name(
                Action::Walk,
            )),
    {
        let idle = "idle".to_owned();
        let walk = "walk".to_owned();
        proof {
            reveal_strlit("idle");
            reveal_strlit("walk");
            assert(idle@ =~= action_name(Action::Idle));
            assert(walk@ =~= action_name(Action::Walk));
            assert(action_name(Action::Idle) != action_name(Action::Walk)) by {
                assert(action_name(Action::Idle)[0] != action_name(Action::Walk)[0]);
            }
        }
        if *name == idle {
            Some(Action::Idle)
        } else if *name == walk {
            Some(Action::Walk)
        } else {
            None
        }
    }
}

/// The animation of the last entry listed under `name`.
pub open spec fn last_named<T>(entries: Seq<(String, Animation<T>)>, name: Seq<char>) -> Option<
    Animation<T>,
>
    decreases entries.len(),
{
    if entries.len() == 0 {
        None
    } else if entries.last().0@ == name {
        Some(entries.last().1)
    } else {
        last_named(entries.drop_last(), name)
    }
}

/// One animation for each action of the player.
#[derive(Debug)]
pub struct AnimationLibrary<T> {
    pub idle: Animation<T>,
    pub walk: Animation<T>,
}

impl<T> AnimationLibrary<T> {
    pub open spec fn wf(&self) -> bool {
        self.idle.wf() && self.walk.wf()
    }

    pub open spec fn clip(&self, a: Action) -> Animation<T> {
        match a {
            Action::Idle => self.idle,
            Action::Walk => self.walk,
        }
    }

    pub open spec fn with_clip(self, a: Action, c: Animation<T>) -> Self {
        match a {
            Action::Idle => AnimationLibrary { idle: c, ..self },
            Action::Walk => AnimationLibrary { walk: c, ..self },
        }
    }

    /// Collects the animations of a list of named entries: a later entry of a
    /// name replaces an earlier one, and names of no action are left out.
    pub fn from_entries(entries: Vec<(String, Animation<T>)>) -> (r: Result<Self, LoadError>)
        requires
            forall|i: int| 0 <= i < entries@.len() ==> (#[trigger] entries@[i]).1.wf(),
        ensures
            r is Ok <==> (last_named(entries@, action_name(Action::Idle)) is Some && last_named(
                entries@,
                action_name(Action::Walk),
            ) is Some),
            r == Err::<Self, LoadError>(LoadError::MissingAction(Action::Idle)) <==> last_named(
                entries@,
                action_name(Action::Idle),
            ) is None,
            r matches Ok(lib) ==> {
                &&& lib.wf()
                &&& Some(lib.idle) == last_named(entries@, action_name(Action::Idle))
                &&& Some(lib.walk) == last_named(entries@, action_name(Action::Walk))
            },
            r matches Err(e) ==> e == LoadError::MissingAction(Action::Idle) || e
                == LoadError::MissingAction(Action::Walk),
    {
        let ghost all = entries@;
        let mut entries = entries;
        let mut idle: Option<Animation<T>> = None;
        let mut walk: Option<Animation<T>> = None;
        while entries.len() > 0
            invariant
                forall|i: int| 0 <= i < entries@.len() ==> (#[trigger] entries@[i]).1.wf(),
                idle matches Some(c) ==> c.wf(),
                walk matches Some(c) ==> c.wf(),
                last_named(all, action_name(Action::Idle)) == if idle is Some {
                    idle
                } else {
                    last_named(entries@, action_name(Action::Idle))
                },
                last_named(all, action_name(Action::Walk)) == if walk is Some {
                    walk
                } else {
                    last_named(entries@, action_name(Action::Walk))
                },
            decreases entries.len(),
        {
            let ghost before = entries@;
            let (name, clip) = entries.pop().unwrap();
            proof {
                assert(entries@ == before.drop_last());
                assert(before.last() == (name, clip));
                assert(before[before.len() - 1].1.wf());
            }
            match Action::from_name(&name) {
                Some(Action::Idle) => {
                    if idle.is_none() {
                        idle = Some(clip);
                    }
                },
                Some(Action::Walk) => {
                    if walk.is_none() {
                        walk = Some(clip);
                    }
                },
                None => {},
            }
        }
        match (idle, walk) {
            (Some(idle), Some(walk)) => Ok(AnimationLibrary { idle, walk }),
            (None, _) => Err(LoadError::MissingAction(Action::Idle)),
            (Some(_), None) => Err(LoadError::MissingAction(Action::Walk)),
        }
    }
}

/// The largest on-screen width and height over the animations of a library.
pub open spec fn bounding_size<T>(lib: AnimationLibrary<T>) -> (int, int) {
    let iw = footprint(lib.idle.width as int, lib.idle.x_scale as int);
    let ww = footprint(lib.walk.width as int, lib.walk.x_scale as int);
    let ih = footprint(lib.idle.height as int, lib.idle.y_scale as int);
    let wh = footprint(lib.walk.height as int, lib.walk.y_scale as int);
    (if iw >= ww { iw } else { ww }, if ih >= wh { ih } else { wh })
}

/// The on-screen extent, in whole pixels, of a frame edge at a scale in hundredths.
fn scaled_size(size: u32, scale: u32) -> (r: u64)
    ensures
        r == footprint(size as int, scale as int),
{
    proof {
        assert(0 <= size * scale <= 0xffff_ffff * 0xffff_ffff) by (nonlinear_arith)
            requires
                0 <= size <= 0xffff_ffff,
                0 <= scale <= 0xffff_ffff,
        ;
    }
    (size as u64) * (scale as u64) / 100
}

/// The controllable entity: where it stands, what it is doing, and its animations.
#[derive(Debug)]
pub struct Player<T> {
    pub position: (i64, i64),
    pub speed: u32,
    pub current_action: Action,
    pub animations: AnimationLibrary<T>,
    pub size: (u64, u64),
}

impl<T> Player<T> {
    pub open spec fn wf(&self) -> bool {
        &&& self.animations.wf()
        &&& (self.size.0 as int, self.size.1 as int) == bounding_size(self.animations)
    }

    /// The animation of the current action.
    pub open spec fn current_clip(&self) -> Animation<T> {
        self.animations.clip(self.current_action)
    }

    /// The player with the animation of the current action turned to `o`.
    pub open spec fn facing(self, o: Orientation) -> Self {
        Player {
            animations: self.animations.with_clip(
                self.current_action,
                self.current_clip().with_horizontal(o),
            ),
            ..self
        }
    }

    pub open spec fn at(self, x: int, y: int) -> Self {
        Player { position: (x as i64, y as i64), ..self }
    }

    pub open spec fn doing(self, a: Action) -> Self {
        Player { current_action: a, ..self }
    }

    /// A player at the origin, idle, with the standard speed; its bounding
    /// size is the largest footprint over its animations.
    pub fn new(animations: AnimationLibrary<T>) -> (r: Self)
        requires
            animations.wf(),
        ensures
            r.wf(),
            r.position == (0i64, 0i64),
            r.speed == PLAYER_SPEED,
            r.current_action == Action::Idle,
            r.animations == animations,
    {
        let iw = scaled_size(animations.idle.width, animations.idle.x_scale);
        let ww = scaled_size(animations.walk.width, animations.walk.x_scale);
        let ih = scaled_size(animations.idle.height, animations.idle.y_scale);
        let wh = scaled_size(animations.walk.height, animations.walk.y_scale);
        let size = (if iw >= ww { iw } else { ww }, if ih >= wh { ih } else { wh });
        Player {
            position: (0, 0),
            speed: PLAYER_SPEED,
            current_action: Action::Idle,
            animations,
            size,
        }
    }

    pub fn move_up(&mut self)
        requires
            old(self).position.1 - old(self).speed >= i64::MIN,
        ensures
            *final(self) == old(self).at(
                old(self).position.0 as int,
                old(self).position.1 - old(self).speed,
            ),
    {
        self.position.1 = self.position.1 - self.speed as i64;
    }

    pub fn move_down(&mut self)
        requires
            old(self).position.1 + old(self).speed <= i64::MAX,
        ensures
            *final(self) == old(self).at(
                old(self).position.0 as int,
                old(self).position.1 + old(self).speed,
            ),
    {
        self.position.1 = self.position.1 + self.speed as i64;
    }

    /// Moves right, and turns the current animation to face right.
    pub fn move_right(&mut self)
        requires
            old(self).position.0 + old(self).speed <= i64::MAX,
        ensures
            *final(self) == old(self).at(
                old(self).position.0 + old(self).speed,
                old(self).position.1 as int,
            ).facing(Orientation::Normal),
    {
        self.position.0 = self.position.0 + self.speed as i64;
        self.set_facing(Orientation::Normal);
    }

    /// Moves left, and turns the current animation to face left.
    pub fn move_left(&mut self)
        requires
            old(self).position.0 - old(self).speed >= i64::MIN,
        ensures
            *final(self) == old(self).at(
                old(self).position.0 - old(self).speed,
                old(self).position.1 as int,
            ).facing(Orientation::Flipped),
    {
        self.position.0 = self.position.0 - self.speed as i64;
        self.set_facing(Orientation::Flipped);
    }

    fn set_facing(&mut self, o: Orientation)
        ensures
            *final(self) == old(self).facing(o),
    {
        match self.current_action {
            Action::Idle => self.animations.idle.horizontal_orientation(o),
            Action::Walk => self.animations.walk.horizontal_orientation(o),
        }
    }

    pub fn change_action(&mut self, action: Action)
        ensures
            *final(self) == old(self).doing(action),
    {
        self.current_action = action;
    }

    /// Advances the current animation and describes its draw, if it has a
    /// drawable; the draw is meant at the player's position.
    pub fn render(&mut self) -> (r: Option<Draw>)
        requires
            old(self).wf(),
        ensures
            final(self).wf(),
            *final(self) == (Player {
                animations: old(self).animations.with_clip(
                    old(self).current_action,
                    old(self).current_clip().advanced(),
                ),
                ..*old(self)
            }),
            r is Some <==> old(self).current_clip().texture is Some,
            r matches Some(dr) ==> old(self).current_clip().is_draw(dr),
    {
        match self.current_action {
            Action::Idle => self.animations.idle.render(),
            Action::Walk => self.animations.walk.render(),
        }
    }

    /// The drawable of the current animation.
    pub fn current_texture(&self) -> (r: Option<&T>)
        ensures
            r is Some <==> self.current_clip().texture is Some,
            r matches Some(t) ==> self.current_clip().texture == Some(*t),
    {
        match self.current_action {
            Action::Idle => self.animations.idle.texture.as_ref(),
            Action::Walk => self.animations.walk.texture.as_ref(),
        }
    }

    pub fn get_position(&self) -> (r: (i64, i64))
        ensures
            r == self.position,
    {
        self.position
    }

    pub fn get_speed(&self) -> (r: u32)
        ensures
            r == self.speed,
    {
        self.speed
    }

    pub fn get_size(&self) -> (r: (u64, u64))
        ensures
            r == self.size,
    {
        self.size
    }
}

} // verus!
