//! The player character: a five-state machine driven by one frame of input
//! at a time, with gravity, a floor clamp, a parallel shooting timer, a bow
//! aim, and an owned collection of arrows in flight.

use vstd::prelude::*;

use crate::animate::{
    Animate, AnchorPoint, CharacterDirection, DebugRect, SpriteDraw,
};
use crate::arrow::Arrow;
use crate::constants::{
    ARROW_SPEED, ATTACK_FRAME_DURATION, BOW_FRAME_DURATION, GRAVITY, IDLE_FRAME_DURATION,
    JUMP_FRAME_DURATION, JUMP_POWER, MAX_DT, PLAYER_SPEED, POS_LIMIT, SCREEN_HEIGHT,
    SHOOT_DURATION, TIMER_LIMIT, UNIT, VEL_LIMIT, WALK_FRAME_DURATION,
};
use crate::geom::{offset_along, offset_along_spec, scale_vel, Recti, Vec2i};

verus! {

#[derive(Clone, Copy, PartialEq, Eq, Structural, Debug)]
pub enum CharacterState {
    Idle,
    Walk,
    Jump,
    Attack,
    JumpAttack,
}

/// One frame of player input as the driver reads it: held direction keys,
/// edge-triggered jump and fire, and the mouse position in screen space.
#[derive(Clone, Copy, PartialEq, Eq, Structural, Debug)]
pub struct FrameInput {
    pub left: bool,
    pub right: bool,
    pub jump: bool,
    pub fire: bool,
    pub mouse: Vec2i,
}

/// Which sprite sheet a draw command blits from.
#[derive(Clone, Copy, PartialEq, Eq, Structural, Debug)]
pub enum SheetId {
    CharIdle,
    CharWalk,
    CharJump,
    CharAttack,
    Bow,
    ArrowSprite,
}

/// One renderer command: blit `sprite` from `sheet`.
#[derive(Clone, Copy, PartialEq, Eq, Structural, Debug)]
pub struct DrawOp {
    pub sheet: SheetId,
    pub sprite: SpriteDraw,
}

pub struct Character {
    pub is_jumping: bool,
    pub on_ground: bool,
    pub animate_idle: Animate,
    pub animate_walk: Animate,
    pub animate_jump: Animate,
    pub animate_attack: Animate,
    pub animate_bow: Animate,
    pub velocity: Vec2i,
    pub rect: Recti,
    pub arrows: Vec<Arrow>,
    /// Size of the arrow sprite; stands in for the arrow texture.
    pub arrow_size: Vec2i,
    pub direction: CharacterDirection,
    pub state: CharacterState,
    pub is_shooting: bool,
    pub shoot_timer: i64,
    pub shoot_duration: i64,
    /// The aim vector of the last accepted shot; the bow angle is the angle
    /// of this vector.
    pub bow_aim: Vec2i,
    pub show_bow: bool,
    pub camera_offset: Vec2i,
}

impl Character {
    /// Well-formedness of everything but the arrows.
    pub open spec fn wf_core(self) -> bool {
        &&& self.animate_idle.wf()
        &&& self.animate_walk.wf()
        &&& self.animate_jump.wf()
        &&& self.animate_attack.wf()
        &&& self.animate_bow.wf()
        &&& self.velocity.in_range(VEL_LIMIT as int)
        &&& self.rect.in_range(POS_LIMIT as int)
        &&& 0 <= self.arrow_size.x <= POS_LIMIT
        &&& 0 <= self.arrow_size.y <= POS_LIMIT
        &&& 0 <= self.shoot_timer <= TIMER_LIMIT
        &&& 1 <= self.shoot_duration <= TIMER_LIMIT
        &&& self.bow_aim.in_range(8 * POS_LIMIT as int)
        &&& self.camera_offset.in_range(2 * POS_LIMIT as int)
    }

    pub open spec fn arrows_wf(self) -> bool {
        forall|i: int| 0 <= i < self.arrows@.len() ==> (#[trigger] self.arrows@[i]).wf()
    }

    pub open spec fn wf(self) -> bool {
        self.wf_core() && self.arrows_wf()
    }

    /// A fresh character standing near the left edge on the floor.  The box
    /// takes the first idle frame's size, trimmed ten pixels in width, so
    /// that frame must be at least ten pixels wide and short enough to
    /// stand on screen.
    pub fn new(
        idle_textures: &Vec<Vec2i>,
        walk_textures: &Vec<Vec2i>,
        jump_textures: &Vec<Vec2i>,
        attack_textures: &Vec<Vec2i>,
        arrow_size: Vec2i,
        bow_textures: &Vec<Vec2i>,
    ) -> (c: Character)
        requires
            idle_textures@.len() >= 1,
            Animate::frames_ok(idle_textures@),
            walk_textures@.len() >= 1,
            Animate::frames_ok(walk_textures@),
            jump_textures@.len() >= 1,
            Animate::frames_ok(jump_textures@),
            attack_textures@.len() >= 1,
            Animate::frames_ok(attack_textures@),
            bow_textures@.len() >= 1,
            Animate::frames_ok(bow_textures@),
            0 <= arrow_size.x <= POS_LIMIT,
            0 <= arrow_size.y <= POS_LIMIT,
            10 * UNIT <= idle_textures@[0].x,
            3 * idle_textures@[0].y <= POS_LIMIT - SCREEN_HEIGHT,
        ensures
            c.wf(),
            c.direction == CharacterDirection::Right,
            c.state == CharacterState::Idle,
            c.animate_idle.frames_seq() == idle_textures@,
            c.animate_idle.frame_time == IDLE_FRAME_DURATION,
            c.animate_walk.frames_seq() == walk_textures@,
            c.animate_walk.frame_time == WALK_FRAME_DURATION,
            c.animate_jump.frames_seq() == jump_textures@,
            c.animate_jump.frame_time == JUMP_FRAME_DURATION,
            c.animate_attack.frames_seq() == attack_textures@,
            c.animate_attack.frame_time == ATTACK_FRAME_DURATION,
            c.animate_bow.frames_seq() == bow_textures@,
            c.animate_bow.frame_time == BOW_FRAME_DURATION,
            !c.is_jumping,
            c.on_ground,
            c.velocity == (Vec2i { x: 0, y: 0 }),
            c.rect == (Recti {
                x: (52 * UNIT) as i64,
                y: (SCREEN_HEIGHT - 3 * idle_textures@[0].y) as i64,
                w: (idle_textures@[0].x - 10 * UNIT) as i64,
                h: idle_textures@[0].y,
            }),
            c.arrows@.len() == 0,
            c.arrow_size == arrow_size,
            !c.is_shooting,
            c.shoot_timer == 0,
            c.shoot_duration == SHOOT_DURATION,
            c.bow_aim == (Vec2i { x: 0, y: 0 }),
            !c.show_bow,
            c.camera_offset == (Vec2i { x: 0, y: 0 }),
    {
        let first = idle_textures[0];
        let pos_y = SCREEN_HEIGHT - 3 * first.y;
        Character {
            direction: CharacterDirection::Right,
            state: CharacterState::Idle,
            animate_idle: Animate::new(idle_textures, IDLE_FRAME_DURATION),
            animate_walk: Animate::new(walk_textures, WALK_FRAME_DURATION),
            animate_jump: Animate::new(jump_textures, JUMP_FRAME_DURATION),
            animate_attack: Animate::new(attack_textures, ATTACK_FRAME_DURATION),
            animate_bow: Animate::new(bow_textures, BOW_FRAME_DURATION),
            is_jumping: false,
            on_ground: true,
            velocity: Vec2i { x: 0, y: 0 },
            rect: Recti { x: 52 * UNIT, y: pos_y, w: first.x - 10 * UNIT, h: first.y },
            arrows: Vec::new(),
            arrow_size,
            is_shooting: false,
            shoot_timer: 0,
            shoot_duration: SHOOT_DURATION,
            bow_aim: Vec2i { x: 0, y: 0 },
            show_bow: false,
            camera_offset: Vec2i { x: 0, y: 0 },
        }
    }

    /// The muzzle of the bow: the center of the character's box.
    pub fn get_bow_position(&self) -> (p: Vec2i)
        requires
            self.rect.in_range(0x1000_0000_0000_0000),
        ensures
            p == self.rect.center_spec(),
    {
        self.rect.center()
    }

    /// The shot's aim vector: from the arrow start (box center plus a
    /// direction-dependent muzzle offset) to the mouse in world space.
    pub open spec fn aim_spec(c: Character, mouse_screen: Vec2i) -> Vec2i {
        let mouse = Vec2i {
            x: (mouse_screen.x + c.camera_offset.x) as i64,
            y: (mouse_screen.y + c.camera_offset.y) as i64,
        };
        let bow_offset = if c.direction == CharacterDirection::Left {
            Vec2i { x: (-5 * UNIT) as i64, y: (4 * UNIT) as i64 }
        } else {
            Vec2i { x: 0, y: 0 }
        };
        let center = c.rect.center_spec();
        let start = Vec2i {
            x: (center.x + bow_offset.x) as i64,
            y: (center.y + bow_offset.y) as i64,
        };
        Vec2i { x: (mouse.x - start.x) as i64, y: (mouse.y - start.y) as i64 }
    }

    /// The aim cone: facing right accepts angles within a quarter turn of
    /// east (a non-negative aim x), facing left the mirror image; an aim of
    /// zero length is rejected.
    pub open spec fn can_shoot_spec(c: Character, mouse_screen: Vec2i) -> bool {
        let aim = Self::aim_spec(c, mouse_screen);
        if c.direction == CharacterDirection::Right {
            aim.x > 0 || (aim.x == 0 && aim.y != 0)
        } else {
            aim.x < 0 || (aim.x == 0 && aim.y != 0)
        }
    }

    /// The arrow an accepted shot spawns: launched from the arrow start at
    /// the arrow speed along the aim vector.
    pub open spec fn spawned_arrow_spec(c: Character, mouse_screen: Vec2i) -> Arrow {
        let aim = Self::aim_spec(c, mouse_screen);
        let bow_offset = if c.direction == CharacterDirection::Left {
            Vec2i { x: (-5 * UNIT) as i64, y: (4 * UNIT) as i64 }
        } else {
            Vec2i { x: 0, y: 0 }
        };
        let center = c.rect.center_spec();
        let start = Vec2i {
            x: (center.x + bow_offset.x) as i64,
            y: (center.y + bow_offset.y) as i64,
        };
        let vel = offset_along_spec(aim, ARROW_SPEED as int);
        Arrow {
            pos: start,
            velocity: vel,
            rect: Recti { x: start.x, y: start.y, w: c.arrow_size.x, h: c.arrow_size.y },
            stuck: false,
            stuck_dir: Vec2i { x: 0, y: 0 },
            stuck_timer: 0,
            should_remove: false,
        }
    }

    /// The scalar effect of an accepted shot (the arrow push is stated
    /// separately, over the arrow sequence).
    pub open spec fn shoot_scalar_spec(c: Character, mouse_screen: Vec2i) -> Character {
        if !Self::can_shoot_spec(c, mouse_screen) {
            c
        } else {
            Character {
                is_shooting: true,
                show_bow: true,
                shoot_timer: 0,
                bow_aim: Self::aim_spec(c, mouse_screen),
                ..c
            }
        }
    }

    /// Fires toward the mouse.  A shot outside the facing cone is rejected
    /// outright: no state change and no arrow.
    pub fn shoot(&mut self, mouse_screen: Vec2i)
        requires
            old(self).wf(),
            mouse_screen.in_range(POS_LIMIT as int),
        ensures
            *final(self) == (Character {
                arrows: final(self).arrows,
                ..Self::shoot_scalar_spec(*old(self), mouse_screen)
            }),
            final(self).arrows@ == (if Self::can_shoot_spec(*old(self), mouse_screen) {
                old(self).arrows@.push(Self::spawned_arrow_spec(*old(self), mouse_screen))
            } else {
                old(self).arrows@
            }),
            final(self).wf(),
    {
        let mouse = Vec2i {
            x: mouse_screen.x + self.camera_offset.x,
            y: mouse_screen.y + self.camera_offset.y,
        };
        let bow_offset = if self.direction == CharacterDirection::Left {
            Vec2i { x: -5 * UNIT, y: 4 * UNIT }
        } else {
            Vec2i { x: 0, y: 0 }
        };
        let bow_pos = self.get_bow_position();
        let arrow_start = Vec2i { x: bow_pos.x + bow_offset.x, y: bow_pos.y + bow_offset.y };
        let aim = Vec2i { x: mouse.x - arrow_start.x, y: mouse.y - arrow_start.y };

        let can_shoot = if self.direction == CharacterDirection::Right {
            aim.x > 0 || (aim.x == 0 && aim.y != 0)
        } else {
            aim.x < 0 || (aim.x == 0 && aim.y != 0)
        };
        if !can_shoot {
            return ;
        }
        self.is_shooting = true;
        self.show_bow = true;
        self.shoot_timer = 0;
        self.bow_aim = aim;

        let velocity = offset_along(aim, ARROW_SPEED);
        let arrow = Arrow::new(arrow_start, velocity, self.arrow_size);
        self.arrows.push(arrow);
    }

    /// The shooting timer: while a shot is live it accumulates, and on
    /// expiry the bow hides and the visible state falls back to jumping or
    /// idle.
    pub open spec fn shoot_tick_spec(c: Character, dt: i64) -> Character {
        if c.is_shooting {
            let t = c.shoot_timer + dt;
            if t >= c.shoot_duration {
                Character {
                    is_shooting: false,
                    shoot_timer: 0,
                    show_bow: false,
                    state: if c.is_jumping {
                        CharacterState::Jump
                    } else {
                        CharacterState::Idle
                    },
                    ..c
                }
            } else {
                Character { shoot_timer: t as i64, ..c }
            }
        } else {
            c
        }
    }

    /// Held direction keys: set the walking velocity and facing, and show
    /// the walk (or idle) state when grounded and not shooting.
    pub open spec fn horiz_spec(c: Character, input: FrameInput) -> Character {
        if input.left {
            Character {
                velocity: Vec2i { x: (-PLAYER_SPEED) as i64, y: c.velocity.y },
                direction: CharacterDirection::Left,
                state: if !c.is_shooting && c.on_ground {
                    CharacterState::Walk
                } else {
                    c.state
                },
                ..c
            }
        } else if input.right {
            Character {
                velocity: Vec2i { x: PLAYER_SPEED, y: c.velocity.y },
                direction: CharacterDirection::Right,
                state: if !c.is_shooting && c.on_ground {
                    CharacterState::Walk
                } else {
                    c.state
                },
                ..c
            }
        } else {
            Character {
                velocity: Vec2i { x: 0, y: c.velocity.y },
                state: if !c.is_shooting && c.on_ground {
                    CharacterState::Idle
                } else {
                    c.state
                },
                ..c
            }
        }
    }

    /// An edge-triggered jump from the ground.
    pub open spec fn jump_spec(c: Character, input: FrameInput) -> Character {
        if input.jump && c.on_ground {
            Character {
                is_jumping: true,
                on_ground: false,
                velocity: Vec2i { x: c.velocity.x, y: (-JUMP_POWER) as i64 },
                state: if !c.is_shooting {
                    CharacterState::Jump
                } else {
                    c.state
                },
                ..c
            }
        } else {
            c
        }
    }

    /// The state the character is in at the moment a fire click is
    /// handled, within one input frame.
    pub open spec fn pre_fire_spec(c: Character, input: FrameInput, dt: i64) -> Character {
        Self::jump_spec(Self::horiz_spec(Self::shoot_tick_spec(c, dt), input), input)
    }

    /// A fire click: attempt the shot, then show the attack state fitting
    /// the airborne flag (whether or not the shot was accepted).
    pub open spec fn fire_scalar_spec(c: Character, input: FrameInput) -> Character {
        if input.fire {
            let c1 = Self::shoot_scalar_spec(c, input.mouse);
            Character {
                state: if c1.is_jumping {
                    CharacterState::JumpAttack
                } else {
                    CharacterState::Attack
                },
                ..c1
            }
        } else {
            c
        }
    }

    /// Gravity, integration, and the floor clamp: landing zeroes the
    /// vertical velocity, grounds the character, and lets a jump state
    /// settle back to idle.
    pub open spec fn physics_spec(c: Character, dt: i64) -> Character {
        let vy = (c.velocity.y + GRAVITY * dt) as i64;
        let x1 = (c.rect.x + c.velocity.x * dt) as i64;
        let y1 = (c.rect.y + vy * dt) as i64;
        if y1 + c.rect.h >= SCREEN_HEIGHT {
            Character {
                velocity: Vec2i { x: c.velocity.x, y: 0 },
                rect: Recti { x: x1, y: (SCREEN_HEIGHT - c.rect.h) as i64, ..c.rect },
                is_jumping: false,
                on_ground: true,
                state: if (c.state == CharacterState::Jump || c.state == CharacterState::JumpAttack)
                    && !c.is_shooting {
                    CharacterState::Idle
                } else {
                    c.state
                },
                ..c
            }
        } else {
            Character {
                velocity: Vec2i { x: c.velocity.x, y: vy },
                rect: Recti { x: x1, y: y1, ..c.rect },
                ..c
            }
        }
    }

    /// The whole input frame, except the arrow push which is stated over
    /// the arrow sequence.
    pub open spec fn handle_keys_scalar_spec(c: Character, input: FrameInput, dt: i64) -> Character {
        Self::physics_spec(Self::fire_scalar_spec(Self::pre_fire_spec(c, input, dt), input), dt)
    }

    #[verifier::rlimit(100)]
    pub fn handle_keys(&mut self, input: &FrameInput, dt: i64)
        requires
            old(self).wf(),
            0 <= dt <= MAX_DT,
            old(self).shoot_timer + dt <= TIMER_LIMIT,
            input.mouse.in_range(POS_LIMIT as int),
        ensures
            *final(self) == (Character {
                arrows: final(self).arrows,
                ..Self::handle_keys_scalar_spec(*old(self), *input, dt)
            }),
            final(self).arrows@ == (if input.fire && Self::can_shoot_spec(
                Self::pre_fire_spec(*old(self), *input, dt),
                input.mouse,
            ) {
                old(self).arrows@.push(
                    Self::spawned_arrow_spec(Self::pre_fire_spec(*old(self), *input, dt), input.mouse),
                )
            } else {
                old(self).arrows@
            }),
    {
        if self.is_shooting {
            self.shoot_timer = self.shoot_timer + dt;
            if self.shoot_timer >= self.shoot_duration {
                self.is_shooting = false;
                self.shoot_timer = 0;
                self.show_bow = false;
                if self.is_jumping {
                    self.state = CharacterState::Jump;
                } else {
                    self.state = CharacterState::Idle;
                }
            }
        }
        proof {
            assert(*self == Self::shoot_tick_spec(*old(self), dt));
        }

        if input.left {
            self.velocity.x = -PLAYER_SPEED;
            self.direction = CharacterDirection::Left;
            if !self.is_shooting && self.on_ground {
                self.state = CharacterState::Walk;
            }
        } else if input.right {
            self.velocity.x = PLAYER_SPEED;
            self.direction = CharacterDirection::Right;
            if !self.is_shooting && self.on_ground {
                self.state = CharacterState::Walk;
            }
        } else {
            if !self.is_shooting && self.on_ground {
                self.state = CharacterState::Idle;
            }
            self.velocity.x = 0;
        }

        if input.jump && self.on_ground {
            self.is_jumping = true;
            self.on_ground = false;
            self.velocity.y = -JUMP_POWER;
            if !self.is_shooting {
                self.state = CharacterState::Jump;
            }
        }
        proof {
            assert(*self == Self::pre_fire_spec(*old(self), *input, dt));
        }

        if input.fire {
            self.shoot(input.mouse);
            if self.is_jumping {
                self.state = CharacterState::JumpAttack;
            } else {
                self.state = CharacterState::Attack;
            }
        }
        proof {
            assert(*self == (Character {
                arrows: self.arrows,
                ..Self::fire_scalar_spec(Self::pre_fire_spec(*old(self), *input, dt), *input)
            }));
        }

        self.velocity.y = self.velocity.y + GRAVITY * dt;
        self.rect.x = self.rect.x + scale_vel(self.velocity.x, dt);
        self.rect.y = self.rect.y + scale_vel(self.velocity.y, dt);

        if self.rect.y + self.rect.h >= SCREEN_HEIGHT {
            self.rect.y = SCREEN_HEIGHT - self.rect.h;
            self.velocity.y = 0;
            self.is_jumping = false;
            self.on_ground = true;
            if self.state == CharacterState::Jump && !self.is_shooting {
                self.state = CharacterState::Idle;
            } else if self.state == CharacterState::JumpAttack && !self.is_shooting {
                self.state = CharacterState::Idle;
            }
        }
    }

    /// The animations one time step advances: the active state's, plus the
    /// bow's while it shows.
    pub open spec fn update_anim_spec(c: Character, dt: i64) -> Character {
        let c1 = match c.state {
            CharacterState::Walk => Character {
                animate_walk: Animate::update_spec(c.animate_walk, dt),
                ..c
            },
            CharacterState::Jump => Character {
                animate_jump: Animate::update_spec(c.animate_jump, dt),
                ..c
            },
            CharacterState::Attack => Character {
                animate_attack: Animate::update_spec(c.animate_attack, dt),
                ..c
            },
            CharacterState::JumpAttack => Character {
                animate_attack: Animate::update_spec(c.animate_attack, dt),
                ..c
            },
            CharacterState::Idle => Character {
                animate_idle: Animate::update_spec(c.animate_idle, dt),
                ..c
            },
        };
        if c.show_bow {
            Character { animate_bow: Animate::update_spec(c1.animate_bow, dt), ..c1 }
        } else {
            c1
        }
    }

    /// One time step: advance the visible animations and every owned
    /// arrow's flight.
    pub fn update(&mut self, dt: i64)
        requires
            old(self).wf(),
            0 <= dt <= MAX_DT,
        ensures
            *final(self) == (Character {
                arrows: final(self).arrows,
                ..Self::update_anim_spec(*old(self), dt)
            }),
            final(self).arrows@.len() == old(self).arrows@.len(),
            forall|i: int|
                0 <= i < old(self).arrows@.len() ==> final(self).arrows@[i] == Arrow::update_spec(
                    #[trigger] old(self).arrows@[i],
                    dt,
                ),
    {
        match self.state {
            CharacterState::Walk => self.animate_walk.update(dt),
            CharacterState::Jump => self.animate_jump.update(dt),
            CharacterState::Attack => self.animate_attack.update(dt),
            CharacterState::JumpAttack => self.animate_attack.update(dt),
            CharacterState::Idle => self.animate_idle.update(dt),
        }
        if self.show_bow {
            self.animate_bow.update(dt);
        }
        let ghost pre = *self;
        let mut i: usize = 0;
        while i < self.arrows.len()
            invariant
                0 <= dt <= MAX_DT,
                i <= self.arrows@.len(),
                self.arrows@.len() == pre.arrows@.len(),
                forall|j: int| i <= j < pre.arrows@.len() ==> self.arrows@[j] == #[trigger] pre.arrows@[j],
                forall|j: int|
                    0 <= j < i ==> self.arrows@[j] == Arrow::update_spec(
                        #[trigger] pre.arrows@[j],
                        dt,
                    ),
                forall|j: int| 0 <= j < pre.arrows@.len() ==> (#[trigger] pre.arrows@[j]).wf(),
                *self == (Character { arrows: self.arrows, ..pre }),
            decreases self.arrows@.len() - i,
        {
            let mut a = self.arrows[i];
            proof {
                assert(a == pre.arrows@[i as int]);
                assert(pre.arrows@[i as int].wf());
            }
            a.update(dt);
            self.arrows.set(i, a);
            i = i + 1;
        }
    }

    /// The sheet the visible state draws from.
    pub open spec fn state_sheet(state: CharacterState) -> SheetId {
        match state {
            CharacterState::Idle => SheetId::CharIdle,
            CharacterState::Walk => SheetId::CharWalk,
            CharacterState::Jump => SheetId::CharJump,
            CharacterState::Attack => SheetId::CharAttack,
            CharacterState::JumpAttack => SheetId::CharAttack,
        }
    }

    pub open spec fn state_animate(self) -> Animate {
        match self.state {
            CharacterState::Idle => self.animate_idle,
            CharacterState::Walk => self.animate_walk,
            CharacterState::Jump => self.animate_jump,
            CharacterState::Attack => self.animate_attack,
            CharacterState::JumpAttack => self.animate_attack,
        }
    }

    /// Where the bow draws: the box center plus a facing-dependent offset.
    pub open spec fn bow_draw_pos_spec(self) -> Vec2i {
        let off = if self.direction == CharacterDirection::Left {
            Vec2i { x: (-5 * UNIT) as i64, y: (4 * UNIT) as i64 }
        } else {
            Vec2i { x: (15 * UNIT) as i64, y: (4 * UNIT) as i64 }
        };
        let center = self.rect.center_spec();
        Vec2i { x: (center.x + off.x) as i64, y: (center.y + off.y) as i64 }
    }

    /// The character's draw commands, in paint order: the visible state's
    /// sprite, the bow while it shows, then every arrow.
    pub open spec fn draw_ops_spec(self) -> Seq<DrawOp> {
        let pos = Vec2i { x: self.rect.x, y: self.rect.y };
        let base: Seq<DrawOp> = if self.state_animate().can_draw() {
            seq![
                DrawOp {
                    sheet: Self::state_sheet(self.state),
                    sprite: self.state_animate().draw_centered_spec(pos, self.direction),
                },
            ]
        } else {
            Seq::empty()
        };
        let with_bow: Seq<DrawOp> = if self.show_bow && self.animate_bow.can_draw() {
            base + seq![
                DrawOp {
                    sheet: SheetId::Bow,
                    sprite: self.animate_bow.draw_rotated_spec(
                        self.bow_draw_pos_spec(),
                        self.direction,
                        self.bow_aim,
                    ),
                },
            ]
        } else {
            base
        };
        with_bow + self.arrows@.map_values(
            |a: Arrow| DrawOp { sheet: SheetId::ArrowSprite, sprite: a.draw_spec() },
        )
    }

    /// The frame's debug overlays: the visible state's, then the bow's
    /// while it shows.
    pub open spec fn draw_debug_spec(self) -> Seq<DebugRect> {
        let pos = Vec2i { x: self.rect.x, y: self.rect.y };
        let anim = self.state_animate();
        let base: Seq<DebugRect> = if anim.can_draw() && anim.debug_mode {
            anim.draw_debug_rectangles_centered(
                pos,
                anim.draw_centered_draw_pos(pos),
                anim.current_size_spec(),
                self.direction,
            )
        } else {
            Seq::empty()
        };
        if self.show_bow && self.animate_bow.can_draw() && self.animate_bow.debug_mode {
            base + self.animate_bow.draw_debug_rectangles_rotated(
                self.bow_draw_pos_spec(),
                Vec2i {
                    x: (self.bow_draw_pos_spec().x - self.animate_bow.frame_size.x / 2) as i64,
                    y: (self.bow_draw_pos_spec().y - self.animate_bow.frame_size.y / 2) as i64,
                },
            )
        } else {
            base
        }
    }

    /// The bow's blit while it shows, rotated to the stored aim.
    fn draw_bow(&self) -> (r: (Option<SpriteDraw>, Vec<DebugRect>))
        requires
            self.wf_core(),
        ensures
            r.0 == (if self.animate_bow.can_draw() {
                Some(self.animate_bow.draw_rotated_spec(
                    self.bow_draw_pos_spec(),
                    self.direction,
                    self.bow_aim,
                ))
            } else {
                Option::<SpriteDraw>::None
            }),
            r.1@ == (if self.animate_bow.can_draw() && self.animate_bow.debug_mode {
                self.animate_bow.draw_debug_rectangles_rotated(
                    self.bow_draw_pos_spec(),
                    Vec2i {
                        x: (self.bow_draw_pos_spec().x - self.animate_bow.frame_size.x / 2) as i64,
                        y: (self.bow_draw_pos_spec().y - self.animate_bow.frame_size.y / 2) as i64,
                    },
                )
            } else {
                Seq::<DebugRect>::empty()
            }),
    {
        let bow_offset = if self.direction == CharacterDirection::Left {
            Vec2i { x: -5 * UNIT, y: 4 * UNIT }
        } else {
            Vec2i { x: 15 * UNIT, y: 4 * UNIT }
        };
        let character_pos = self.rect.center();
        let bow_pos = Vec2i { x: character_pos.x + bow_offset.x, y: character_pos.y + bow_offset.y };
        self.animate_bow.draw_rotated(bow_pos, &self.direction, self.bow_aim)
    }

    /// Assembles the frame's draw commands and debug overlays.
    pub fn draw(&self) -> (r: (Vec<DrawOp>, Vec<DebugRect>))
        requires
            self.wf(),
        ensures
            r.0@ == self.draw_ops_spec(),
            r.1@ == self.draw_debug_spec(),
    {
        let mut ops: Vec<DrawOp> = Vec::new();
        let mut debug: Vec<DebugRect> = Vec::new();
        let draw_pos = Vec2i { x: self.rect.x, y: self.rect.y };

        let (sprite, mut dbg) = match self.state {
            CharacterState::Walk => self.animate_walk.draw_centered(draw_pos, &self.direction),
            CharacterState::Jump => self.animate_jump.draw_centered(draw_pos, &self.direction),
            CharacterState::Attack => self.animate_attack.draw_centered(draw_pos, &self.direction),
            CharacterState::JumpAttack => self.animate_attack.draw_centered(
                draw_pos,
                &self.direction,
            ),
            CharacterState::Idle => self.animate_idle.draw_centered(draw_pos, &self.direction),
        };
        let sheet = match self.state {
            CharacterState::Idle => SheetId::CharIdle,
            CharacterState::Walk => SheetId::CharWalk,
            CharacterState::Jump => SheetId::CharJump,
            CharacterState::Attack => SheetId::CharAttack,
            CharacterState::JumpAttack => SheetId::CharAttack,
        };
        if let Some(s) = sprite {
            ops.push(DrawOp { sheet, sprite: s });
        }
        debug.append(&mut dbg);

        if self.show_bow {
            let (bow_sprite, mut bow_dbg) = self.draw_bow();
            if let Some(s) = bow_sprite {
                ops.push(DrawOp { sheet: SheetId::Bow, sprite: s });
            }
            debug.append(&mut bow_dbg);
        }
        let ghost head = ops@;

        let mut i: usize = 0;
        while i < self.arrows.len()
            invariant
                i <= self.arrows@.len(),
                ops@ == head + self.arrows@.take(i as int).map_values(
                    |a: Arrow| DrawOp { sheet: SheetId::ArrowSprite, sprite: a.draw_spec() },
                ),
            decreases self.arrows@.len() - i,
        {
            let s = self.arrows[i].draw();
            ops.push(DrawOp { sheet: SheetId::ArrowSprite, sprite: s });
            proof {
                assert(self.arrows@.take(i + 1).map_values(
                    |a: Arrow| DrawOp { sheet: SheetId::ArrowSprite, sprite: a.draw_spec() },
                ) =~= self.arrows@.take(i as int).map_values(
                    |a: Arrow| DrawOp { sheet: SheetId::ArrowSprite, sprite: a.draw_spec() },
                ).push(DrawOp { sheet: SheetId::ArrowSprite, sprite: self.arrows@[i as int].draw_spec() }));
            }
            i = i + 1;
        }
        proof {
            assert(self.arrows@.take(self.arrows@.len() as int) =~= self.arrows@);
            assert(ops@ =~= self.draw_ops_spec());
            assert(debug@ =~= self.draw_debug_spec());
        }
        (ops, debug)
    }

    pub fn set_bow_visibility(&mut self, visible: bool)
        ensures
            *final(self) == (Character { show_bow: visible, ..*old(self) }),
    {
        self.show_bow = visible;
    }

    pub fn toggle_bow(&mut self)
        ensures
            *final(self) == (Character { show_bow: !old(self).show_bow, ..*old(self) }),
    {
        self.show_bow = !self.show_bow;
    }

    pub fn set_shoot_duration(&mut self, duration: i64)
        requires
            1 <= duration <= TIMER_LIMIT,
        ensures
            *final(self) == (Character { shoot_duration: duration, ..*old(self) }),
    {
        self.shoot_duration = duration;
    }

    pub fn set_camera_offset(&mut self, offset: Vec2i)
        requires
            offset.in_range(2 * POS_LIMIT as int),
        ensures
            *final(self) == (Character { camera_offset: offset, ..*old(self) }),
    {
        self.camera_offset = offset;
    }
}

/// Law: a shot aimed outside the facing cone is refused outright — facing
/// right with the aim pointing into the left half-plane (a quarter turn or
/// more off east), nothing changes: no shooting flag, no bow, no arrow.
pub proof fn lemma_backward_shot_rejected(c: Character, mouse_screen: Vec2i)
    requires
        c.direction == CharacterDirection::Right,
        Character::aim_spec(c, mouse_screen).x < 0,
    ensures
        !Character::can_shoot_spec(c, mouse_screen),
        Character::shoot_scalar_spec(c, mouse_screen) == c,
{
}

} // verus!
