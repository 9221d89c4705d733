//! Frame-cycling animation state: a sequence of frame sizes, a timer, and a
//! looping/one-shot mode.  The drawing entry points return placement data
//! (where to blit which frame, and how to mirror or rotate it); the actual
//! blit belongs to the renderer.

use vstd::prelude::*;

use crate::constants::{MAX_DT, POS_LIMIT, UNIT};
use crate::geom::Vec2i;

verus! {

/// Which way a character sprite faces; `Left` mirrors the sprite.
#[derive(Clone, Copy, PartialEq, Eq, Structural, Debug)]
pub enum CharacterDirection {
    Left,
    Right,
}

/// Where on the sprite the anchored draw pins the given position.
#[derive(Clone, Copy, PartialEq, Eq, Structural, Debug)]
pub enum AnchorPoint {
    TopLeft,
    TopCenter,
    TopRight,
    CenterLeft,
    Center,
    CenterRight,
    BottomLeft,
    BottomCenter,
    BottomRight,
}

/// One sprite blit: destination origin and size in micro-pixels.  A negative
/// `w` mirrors the sprite horizontally.  When `rotated` is set the sprite is
/// turned about its destination center by the angle of `rot_dir`.
#[derive(Clone, Copy, PartialEq, Eq, Structural, Debug)]
pub struct SpriteDraw {
    pub frame: u8,
    pub x: i64,
    pub y: i64,
    pub w: i64,
    pub h: i64,
    pub flip_y: bool,
    pub rotated: bool,
    pub rot_dir: Vec2i,
}

#[derive(Clone, Copy, PartialEq, Eq, Structural, Debug)]
pub enum DebugColor {
    Red,
    Green,
    Blue,
}

/// One debug overlay rectangle outline, in micro-pixels.
#[derive(Clone, Copy, PartialEq, Eq, Structural, Debug)]
pub struct DebugRect {
    pub x: i64,
    pub y: i64,
    pub w: i64,
    pub h: i64,
    pub thickness: i64,
    pub color: DebugColor,
}

/// Largest width and height over a sequence of frame sizes.
pub open spec fn max_size_of(frames: Seq<Vec2i>) -> Vec2i
    decreases frames.len(),
{
    if frames.len() == 0 {
        Vec2i { x: 0, y: 0 }
    } else {
        let rest = max_size_of(frames.drop_last());
        let last = frames.last();
        Vec2i {
            x: if last.x > rest.x {
                last.x
            } else {
                rest.x
            },
            y: if last.y > rest.y {
                last.y
            } else {
                rest.y
            },
        }
    }
}

pub proof fn lemma_max_size_of_bounds(frames: Seq<Vec2i>)
    requires
        forall|i: int|
            0 <= i < frames.len() ==> 0 <= (#[trigger] frames[i]).x <= POS_LIMIT && 0 <= frames[i].y
                <= POS_LIMIT,
    ensures
        0 <= max_size_of(frames).x <= POS_LIMIT,
        0 <= max_size_of(frames).y <= POS_LIMIT,
        forall|i: int|
            0 <= i < frames.len() ==> (#[trigger] frames[i]).x <= max_size_of(frames).x
                && frames[i].y <= max_size_of(frames).y,
    decreases frames.len(),
{
    if frames.len() > 0 {
        lemma_max_size_of_bounds(frames.drop_last());
        let m = max_size_of(frames);
        let rest = max_size_of(frames.drop_last());
        assert(rest.x <= m.x && rest.y <= m.y);
        assert forall|i: int| 0 <= i < frames.len() implies (#[trigger] frames[i]).x <= m.x
            && frames[i].y <= m.y by {
            if i < frames.len() - 1 {
                assert(frames[i] == frames.drop_last()[i]);
            } else {
                assert(frames[i] == frames.last());
            }
        }
    }
}

pub struct Animate {
    /// Nominal blit size of a frame (the first frame's size, or the largest
    /// for normalized animations).
    pub frame_size: Vec2i,
    /// Per-frame sprite sizes; stands in for the frame images themselves.
    pub frames: Vec<Vec2i>,
    pub current_frame: u8,
    pub frame_time: i64,
    pub timer: i64,
    pub debug_mode: bool,
    pub looping: bool,
    pub finished: bool,
    pub frame_offsets: Vec<Vec2i>,
    pub max_frame_size: Vec2i,
}

impl Animate {
    pub open spec fn frames_seq(self) -> Seq<Vec2i> {
        self.frames@
    }

    pub open spec fn current_frame_spec(self) -> int {
        self.current_frame as int
    }

    pub open spec fn frame_time_spec(self) -> int {
        self.frame_time as int
    }

    pub open spec fn timer_spec(self) -> int {
        self.timer as int
    }

    pub open spec fn finished_spec(self) -> bool {
        self.finished
    }

    pub open spec fn offsets_seq(self) -> Seq<Vec2i> {
        self.frame_offsets@
    }

    pub open spec fn max_frame_size_spec(self) -> Vec2i {
        self.max_frame_size
    }

    /// Well-formedness: the frame index stays in range, the timer stays
    /// short of one frame duration, and every stored size is a bounded
    /// non-negative quantity.
    pub open spec fn wf(self) -> bool {
        &&& self.frames@.len() <= 255
        &&& 1 <= self.frame_time <= MAX_DT
        &&& 0 <= self.timer < self.frame_time
        &&& if self.frames@.len() == 0 {
            self.current_frame == 0
        } else {
            (self.current_frame as int) < self.frames@.len()
        }
        &&& self.frame_offsets@.len() == self.frames@.len()
        &&& forall|i: int|
            0 <= i < self.frames@.len() ==> 0 <= (#[trigger] self.frames@[i]).x <= POS_LIMIT && 0
                <= self.frames@[i].y <= POS_LIMIT
        &&& forall|i: int|
            0 <= i < self.frames@.len() ==> (#[trigger] self.frames@[i]).x
                <= self.max_frame_size.x && self.frames@[i].y <= self.max_frame_size.y
        &&& forall|i: int|
            0 <= i < self.frame_offsets@.len() ==> (#[trigger] self.frame_offsets@[i]).in_range(
                POS_LIMIT as int,
            )
        &&& 0 <= self.frame_size.x <= POS_LIMIT
        &&& 0 <= self.frame_size.y <= POS_LIMIT
        &&& 0 <= self.max_frame_size.x <= POS_LIMIT
        &&& 0 <= self.max_frame_size.y <= POS_LIMIT
    }

    /// The bound every constructor places on its frame-size list.
    pub open spec fn frames_ok(frames: Seq<Vec2i>) -> bool {
        &&& frames.len() <= 255
        &&& forall|i: int|
            0 <= i < frames.len() ==> 0 <= (#[trigger] frames[i]).x <= POS_LIMIT && 0
                <= frames[i].y <= POS_LIMIT
    }

    fn copy_frames(frames: &Vec<Vec2i>) -> (r: Vec<Vec2i>)
        ensures
            r@ == frames@,
    {
        let mut r: Vec<Vec2i> = Vec::new();
        let mut i: usize = 0;
        while i < frames.len()
            invariant
                i <= frames@.len(),
                r@ == frames@.take(i as int),
            decreases frames@.len() - i,
        {
            r.push(frames[i]);
            proof {
                assert(r@ =~= frames@.take(i + 1));
            }
            i = i + 1;
        }
        proof {
            assert(frames@.take(frames@.len() as int) =~= frames@);
        }
        r
    }

    fn zero_offsets(n: usize) -> (r: Vec<Vec2i>)
        ensures
            r@.len() == n,
            forall|i: int| 0 <= i < n ==> r@[i] == (Vec2i { x: 0, y: 0 }),
    {
        let mut offsets: Vec<Vec2i> = Vec::new();
        let mut i: usize = 0;
        while i < n
            invariant
                i <= n,
                offsets@.len() == i,
                forall|j: int| 0 <= j < i ==> offsets@[j] == (Vec2i { x: 0, y: 0 }),
            decreases n - i,
        {
            offsets.push(Vec2i { x: 0, y: 0 });
            i = i + 1;
        }
        offsets
    }

    fn calculate_max_frame_size(frames: &Vec<Vec2i>) -> (m: Vec2i)
        requires
            Self::frames_ok(frames@),
        ensures
            m == max_size_of(frames@),
    {
        let mut m = Vec2i { x: 0, y: 0 };
        let mut i: usize = 0;
        while i < frames.len()
            invariant
                i <= frames@.len(),
                Self::frames_ok(frames@),
                m == max_size_of(frames@.take(i as int)),
            decreases frames@.len() - i,
        {
            let f = frames[i];
            proof {
                assert(frames@.take(i + 1).drop_last() =~= frames@.take(i as int));
                assert(frames@.take(i + 1).last() == frames@[i as int]);
            }
            if f.x > m.x {
                m.x = f.x;
            }
            if f.y > m.y {
                m.y = f.y;
            }
            i = i + 1;
        }
        proof {
            assert(frames@.take(frames@.len() as int) =~= frames@);
        }
        m
    }

    /// A looping animation whose nominal blit size is the first frame's size.
    pub fn new(frames: &Vec<Vec2i>, frame_time: i64) -> (a: Animate)
        requires
            frames@.len() >= 1,
            Self::frames_ok(frames@),
            1 <= frame_time <= MAX_DT,
        ensures
            a.wf(),
            a.frames_seq() == frames@,
            a.current_frame_spec() == 0,
            a.frame_time_spec() == frame_time,
            a.timer_spec() == 0,
            a.frame_size == frames@[0],
            !a.debug_mode,
            a.looping,
            !a.finished_spec(),
            forall|i: int| 0 <= i < frames@.len() ==> a.offsets_seq()[i] == (Vec2i { x: 0, y: 0 }),
            a.max_frame_size_spec() == max_size_of(frames@),
    {
        let max_frame_size = Self::calculate_max_frame_size(frames);
        proof {
            lemma_max_size_of_bounds(frames@);
        }
        Animate {
            frames: Self::copy_frames(frames),
            current_frame: 0,
            frame_time,
            timer: 0,
            frame_size: frames[0],
            debug_mode: false,
            looping: true,
            finished: false,
            frame_offsets: Self::zero_offsets(frames.len()),
            max_frame_size,
        }
    }

    /// A looping animation blitted at the size of its largest frame.
    pub fn new_normalized(frames: &Vec<Vec2i>, frame_time: i64) -> (a: Animate)
        requires
            frames@.len() >= 1,
            Self::frames_ok(frames@),
            1 <= frame_time <= MAX_DT,
        ensures
            a.wf(),
            a.frames_seq() == frames@,
            a.current_frame_spec() == 0,
            a.frame_time_spec() == frame_time,
            a.timer_spec() == 0,
            a.frame_size == max_size_of(frames@),
            !a.debug_mode,
            a.looping,
            !a.finished_spec(),
            forall|i: int| 0 <= i < frames@.len() ==> a.offsets_seq()[i] == (Vec2i { x: 0, y: 0 }),
            a.max_frame_size_spec() == max_size_of(frames@),
    {
        let max_frame_size = Self::calculate_max_frame_size(frames);
        proof {
            lemma_max_size_of_bounds(frames@);
        }
        Animate {
            frames: Self::copy_frames(frames),
            current_frame: 0,
            frame_time,
            timer: 0,
            frame_size: max_frame_size,
            debug_mode: false,
            looping: true,
            finished: false,
            frame_offsets: Self::zero_offsets(frames.len()),
            max_frame_size,
        }
    }

    /// A looping animation with one blit offset per frame; a frame list may
    /// be empty here, and a mismatched offset list falls back to zeros.
    pub fn new_with_offsets(frames: &Vec<Vec2i>, frame_time: i64, offsets: Vec<Vec2i>) -> (a:
        Animate)
        requires
            Self::frames_ok(frames@),
            1 <= frame_time <= MAX_DT,
            forall|i: int|
                0 <= i < offsets@.len() ==> (#[trigger] offsets@[i]).in_range(POS_LIMIT as int),
        ensures
            a.wf(),
            a.frames_seq() == frames@,
            a.current_frame_spec() == 0,
            a.frame_time_spec() == frame_time,
            a.timer_spec() == 0,
            a.frame_size == (if frames@.len() > 0 {
                frames@[0]
            } else {
                Vec2i { x: 0, y: 0 }
            }),
            !a.debug_mode,
            a.looping,
            !a.finished_spec(),
            offsets@.len() == frames@.len() ==> a.offsets_seq() == offsets@,
            offsets@.len() != frames@.len() ==> forall|i: int|
                0 <= i < frames@.len() ==> a.offsets_seq()[i] == (Vec2i { x: 0, y: 0 }),
            a.max_frame_size_spec() == max_size_of(frames@),
    {
        let frame_size = if frames.len() > 0 {
            frames[0]
        } else {
            Vec2i { x: 0, y: 0 }
        };
        let max_frame_size = Self::calculate_max_frame_size(frames);
        proof {
            lemma_max_size_of_bounds(frames@);
        }
        let frame_offsets = if offsets.len() == frames.len() {
            offsets
        } else {
            Self::zero_offsets(frames.len())
        };
        Animate {
            frames: Self::copy_frames(frames),
            current_frame: 0,
            frame_time,
            timer: 0,
            frame_size,
            debug_mode: false,
            looping: true,
            finished: false,
            frame_offsets,
            max_frame_size,
        }
    }

    /// Like [`Animate::new`], but plays once and then pins the last frame.
    pub fn new_once(frames: &Vec<Vec2i>, frame_time: i64) -> (a: Animate)
        requires
            frames@.len() >= 1,
            Self::frames_ok(frames@),
            1 <= frame_time <= MAX_DT,
        ensures
            a.wf(),
            a.frames_seq() == frames@,
            a.current_frame_spec() == 0,
            a.frame_time_spec() == frame_time,
            a.timer_spec() == 0,
            a.frame_size == frames@[0],
            !a.debug_mode,
            !a.looping,
            !a.finished_spec(),
            a.max_frame_size_spec() == max_size_of(frames@),
    {
        let mut animate = Self::new(frames, frame_time);
        animate.looping = false;
        animate
    }

    /// Like [`Animate::new_normalized`], but plays once.
    pub fn new_normalized_once(frames: &Vec<Vec2i>, frame_time: i64) -> (a: Animate)
        requires
            frames@.len() >= 1,
            Self::frames_ok(frames@),
            1 <= frame_time <= MAX_DT,
        ensures
            a.wf(),
            a.frames_seq() == frames@,
            a.current_frame_spec() == 0,
            a.frame_time_spec() == frame_time,
            a.timer_spec() == 0,
            a.frame_size == max_size_of(frames@),
            !a.debug_mode,
            !a.looping,
            !a.finished_spec(),
            a.max_frame_size_spec() == max_size_of(frames@),
    {
        let mut animate = Self::new_normalized(frames, frame_time);
        animate.looping = false;
        animate
    }

    /// The frame advance taken when the timer reaches the frame duration:
    /// step forward, wrapping when looping and pinning (and finishing) on the
    /// last frame otherwise.  The timer restarts at zero.
    pub open spec fn advance_spec(a: Animate) -> Animate
        recommends
            a.frames@.len() >= 1,
    {
        if a.current_frame + 1 >= a.frames@.len() {
            if a.looping {
                Animate { timer: 0, current_frame: 0, ..a }
            } else {
                Animate {
                    timer: 0,
                    current_frame: (a.frames@.len() - 1) as u8,
                    finished: true,
                    ..a
                }
            }
        } else {
            Animate { timer: 0, current_frame: (a.current_frame + 1) as u8, ..a }
        }
    }

    /// One `update(dt)` step: a finished one-shot animation and an empty
    /// frame list are no-ops; otherwise the timer accumulates `dt` and a
    /// frame advance fires when it reaches the frame duration.
    pub open spec fn update_spec(a: Animate, dt: i64) -> Animate {
        if a.finished && !a.looping {
            a
        } else if a.frames@.len() == 0 {
            a
        } else if a.timer + dt >= a.frame_time {
            Self::advance_spec(a)
        } else {
            Animate { timer: (a.timer + dt) as i64, ..a }
        }
    }

    pub fn update(&mut self, dt: i64)
        requires
            old(self).wf(),
            0 <= dt <= MAX_DT,
        ensures
            *final(self) == Self::update_spec(*old(self), dt),
            final(self).wf(),
    {
        if self.finished && !self.looping {
            return ;
        }
        if self.frames.len() == 0 {
            return ;
        }
        self.timer = self.timer + dt;
        if self.timer >= self.frame_time {
            self.timer = 0;
            if self.current_frame as usize + 1 >= self.frames.len() {
                if self.looping {
                    self.current_frame = 0;
                } else {
                    self.current_frame = (self.frames.len() - 1) as u8;
                    self.finished = true;
                }
            } else {
                self.current_frame = self.current_frame + 1;
            }
        }
    }

    pub fn is_finished(&self) -> (r: bool)
        ensures
            r == self.finished_spec(),
    {
        self.finished
    }

    pub open spec fn reset_spec(a: Animate) -> Animate {
        Animate { current_frame: 0, timer: 0, finished: false, ..a }
    }

    pub fn reset(&mut self)
        requires
            old(self).wf(),
        ensures
            *final(self) == Self::reset_spec(*old(self)),
            final(self).wf(),
    {
        self.current_frame = 0;
        self.timer = 0;
        self.finished = false;
    }

    pub open spec fn set_looping_spec(a: Animate, looping: bool) -> Animate {
        if looping {
            Animate { looping, finished: false, ..a }
        } else {
            Animate { looping, ..a }
        }
    }

    pub fn set_looping(&mut self, looping: bool)
        requires
            old(self).wf(),
        ensures
            *final(self) == Self::set_looping_spec(*old(self), looping),
            final(self).wf(),
    {
        self.looping = looping;
        if looping {
            self.finished = false;
        }
    }

    pub fn get_current_frame(&self) -> (r: u8)
        ensures
            r as int == self.current_frame_spec(),
    {
        self.current_frame
    }

    pub fn get_total_frames(&self) -> (r: u8)
        requires
            self.wf(),
        ensures
            r as int == self.frames_seq().len(),
    {
        self.frames.len() as u8
    }

    pub fn is_looping(&self) -> (r: bool)
        ensures
            r == self.looping,
    {
        self.looping
    }

    pub fn get_max_frame_size(&self) -> (r: Vec2i)
        ensures
            r == self.max_frame_size_spec(),
    {
        self.max_frame_size
    }

    /// The current frame's own size, or zero when there is none.
    pub fn get_current_frame_size(&self) -> (r: Vec2i)
        ensures
            r == (if self.frames_seq().len() == 0 || self.current_frame_spec()
                >= self.frames_seq().len() {
                Vec2i { x: 0, y: 0 }
            } else {
                self.frames_seq()[self.current_frame_spec()]
            }),
    {
        if self.frames.len() == 0 || self.current_frame as usize >= self.frames.len() {
            return Vec2i { x: 0, y: 0 };
        }
        self.frames[self.current_frame as usize]
    }

    /// Sets one frame's blit offset; an out-of-range index is ignored.
    pub fn set_frame_offset(&mut self, frame_index: usize, offset: Vec2i)
        requires
            old(self).wf(),
            offset.in_range(POS_LIMIT as int),
        ensures
            final(self).wf(),
            final(self).offsets_seq() == (if frame_index < old(self).offsets_seq().len() {
                old(self).offsets_seq().update(frame_index as int, offset)
            } else {
                old(self).offsets_seq()
            }),
            final(self).frames_seq() == old(self).frames_seq(),
            final(self).current_frame_spec() == old(self).current_frame_spec(),
            final(self).timer_spec() == old(self).timer_spec(),
            final(self).frame_time_spec() == old(self).frame_time_spec(),
            final(self).finished_spec() == old(self).finished_spec(),
            final(self).looping == old(self).looping,
            final(self).debug_mode == old(self).debug_mode,
            final(self).frame_size == old(self).frame_size,
            final(self).max_frame_size_spec() == old(self).max_frame_size_spec(),
    {
        if frame_index < self.frame_offsets.len() {
            self.frame_offsets.set(frame_index, offset);
        }
    }

    /// Replaces all blit offsets; a mismatched list is ignored.
    pub fn set_all_frame_offsets(&mut self, offsets: Vec<Vec2i>)
        requires
            old(self).wf(),
            forall|i: int|
                0 <= i < offsets@.len() ==> (#[trigger] offsets@[i]).in_range(POS_LIMIT as int),
        ensures
            final(self).wf(),
            final(self).offsets_seq() == (if offsets@.len() == old(self).frames_seq().len() {
                offsets@
            } else {
                old(self).offsets_seq()
            }),
            final(self).frames_seq() == old(self).frames_seq(),
            final(self).current_frame_spec() == old(self).current_frame_spec(),
            final(self).timer_spec() == old(self).timer_spec(),
            final(self).frame_time_spec() == old(self).frame_time_spec(),
            final(self).finished_spec() == old(self).finished_spec(),
            final(self).looping == old(self).looping,
            final(self).debug_mode == old(self).debug_mode,
            final(self).frame_size == old(self).frame_size,
            final(self).max_frame_size_spec() == old(self).max_frame_size_spec(),
    {
        if offsets.len() == self.frames.len() {
            self.frame_offsets = offsets;
        }
    }

    pub fn enable_debug(&mut self)
        ensures
            *final(self) == (Animate { debug_mode: true, ..*old(self) }),
    {
        self.debug_mode = true;
    }

    pub fn disable_debug(&mut self)
        ensures
            *final(self) == (Animate { debug_mode: false, ..*old(self) }),
    {
        self.debug_mode = false;
    }

    pub fn toggle_debug(&mut self)
        ensures
            *final(self) == (Animate { debug_mode: !old(self).debug_mode, ..*old(self) }),
    {
        self.debug_mode = !self.debug_mode;
    }

    pub fn set_debug(&mut self, enabled: bool)
        ensures
            *final(self) == (Animate { debug_mode: enabled, ..*old(self) }),
    {
        self.debug_mode = enabled;
    }

    /// Whether there is a frame to draw at all.
    pub open spec fn can_draw(self) -> bool {
        self.frames@.len() > 0 && (self.current_frame as int) < self.frames@.len()
    }

    /// The current frame's own size.
    pub open spec fn current_size_spec(self) -> Vec2i
        recommends
            self.can_draw(),
    {
        self.frames@[self.current_frame as int]
    }

    /// Mirrored sprites draw from their right edge with a negated width.
    pub open spec fn flipped_x(direction: CharacterDirection, x: int, width: int) -> int {
        if direction == CharacterDirection::Left {
            x + width
        } else {
            x
        }
    }

    pub open spec fn flipped_w(direction: CharacterDirection, width: int) -> int {
        if direction == CharacterDirection::Left {
            -width
        } else {
            width
        }
    }

    /// Debug overlay of the plain draw: the blitted frame, the nominal box,
    /// and the frame's center point.
    pub open spec fn draw_debug_rectangles(
        self,
        position: Vec2i,
        direction: CharacterDirection,
        draw_x: int,
    ) -> Seq<DebugRect> {
        let cx = draw_x + self.frame_size.x / 2;
        let cy = position.y + self.frame_size.y / 2;
        seq![
            DebugRect {
                x: draw_x as i64,
                y: position.y,
                w: self.frame_size.x,
                h: self.frame_size.y,
                thickness: (2 * UNIT) as i64,
                color: DebugColor::Red,
            },
            DebugRect {
                x: position.x,
                y: position.y,
                w: self.frame_size.x,
                h: self.frame_size.y,
                thickness: (2 * UNIT) as i64,
                color: DebugColor::Green,
            },
            DebugRect {
                x: (cx - 2 * UNIT) as i64,
                y: (cy - 2 * UNIT) as i64,
                w: (4 * UNIT) as i64,
                h: (4 * UNIT) as i64,
                thickness: (1 * UNIT) as i64,
                color: DebugColor::Blue,
            },
        ]
    }

    /// Plain draw: the nominal frame size at `position`, mirrored about its
    /// own width when facing left.
    pub open spec fn draw_spec(self, position: Vec2i, direction: CharacterDirection) -> SpriteDraw {
        let draw_x = Self::flipped_x(direction, position.x as int, self.frame_size.x as int);
        SpriteDraw {
            frame: self.current_frame,
            x: draw_x as i64,
            y: position.y,
            w: Self::flipped_w(direction, self.frame_size.x as int) as i64,
            h: self.frame_size.y,
            flip_y: false,
            rotated: false,
            rot_dir: Vec2i { x: 0, y: 0 },
        }
    }

    pub fn draw(&self, position: Vec2i, direction: &CharacterDirection) -> (r: (
        Option<SpriteDraw>,
        Vec<DebugRect>,
    ))
        requires
            self.wf(),
            position.in_range(2 * POS_LIMIT as int),
        ensures
            r.0 == (if self.can_draw() {
                Some(self.draw_spec(position, *direction))
            } else {
                Option::<SpriteDraw>::None
            }),
            r.1@ == (if self.can_draw() && self.debug_mode {
                self.draw_debug_rectangles(
                    position,
                    *direction,
                    Self::flipped_x(*direction, position.x as int, self.frame_size.x as int),
                )
            } else {
                Seq::<DebugRect>::empty()
            }),
    {
        let mut debug: Vec<DebugRect> = Vec::new();
        if self.frames.len() == 0 || self.current_frame as usize >= self.frames.len() {
            return (None, debug);
        }
        let draw_x = if *direction == CharacterDirection::Left {
            position.x + self.frame_size.x
        } else {
            position.x
        };
        let w = if *direction == CharacterDirection::Left {
            -self.frame_size.x
        } else {
            self.frame_size.x
        };
        let sprite = SpriteDraw {
            frame: self.current_frame,
            x: draw_x,
            y: position.y,
            w,
            h: self.frame_size.y,
            flip_y: false,
            rotated: false,
            rot_dir: Vec2i { x: 0, y: 0 },
        };
        if self.debug_mode {
            let cx = draw_x + half_nonneg(self.frame_size.x);
            let cy = position.y + half_nonneg(self.frame_size.y);
            debug.push(
                DebugRect {
                    x: draw_x,
                    y: position.y,
                    w: self.frame_size.x,
                    h: self.frame_size.y,
                    thickness: (2 * UNIT) as i64,
                    color: DebugColor::Red,
                },
            );
            debug.push(
                DebugRect {
                    x: position.x,
                    y: position.y,
                    w: self.frame_size.x,
                    h: self.frame_size.y,
                    thickness: (2 * UNIT) as i64,
                    color: DebugColor::Green,
                },
            );
            debug.push(
                DebugRect {
                    x: cx - 2 * UNIT,
                    y: cy - 2 * UNIT,
                    w: (4 * UNIT) as i64,
                    h: (4 * UNIT) as i64,
                    thickness: (1 * UNIT) as i64,
                    color: DebugColor::Blue,
                },
            );
            proof {
                assert(debug@ =~= self.draw_debug_rectangles(
                    position,
                    *direction,
                    Self::flipped_x(*direction, position.x as int, self.frame_size.x as int),
                ));
            }
        }
        (Some(sprite), debug)
    }

    /// Debug overlay of the anchored draw: the blitted frame and the anchor
    /// point.
    pub open spec fn draw_debug_rectangles_anchored(
        self,
        anchor_pos: Vec2i,
        draw_pos: Vec2i,
        current_size: Vec2i,
        direction: CharacterDirection,
    ) -> Seq<DebugRect> {
        let final_draw_x = Self::flipped_x(direction, draw_pos.x as int, current_size.x as int);
        seq![
            DebugRect {
                x: final_draw_x as i64,
                y: draw_pos.y,
                w: current_size.x,
                h: current_size.y,
                thickness: (2 * UNIT) as i64,
                color: DebugColor::Red,
            },
            DebugRect {
                x: (anchor_pos.x - 2 * UNIT) as i64,
                y: (anchor_pos.y - 2 * UNIT) as i64,
                w: (4 * UNIT) as i64,
                h: (4 * UNIT) as i64,
                thickness: (1 * UNIT) as i64,
                color: DebugColor::Blue,
            },
        ]
    }

    /// Where the top-left of a frame of size `current_size` lands so that
    /// the given anchor point of the frame sits on the given position.
    pub open spec fn anchor_offset(anchor: AnchorPoint, current_size: Vec2i) -> Vec2i {
        match anchor {
            AnchorPoint::TopLeft => Vec2i { x: 0, y: 0 },
            AnchorPoint::TopCenter => Vec2i { x: (-(current_size.x / 2)) as i64, y: 0 },
            AnchorPoint::TopRight => Vec2i { x: (-current_size.x) as i64, y: 0 },
            AnchorPoint::CenterLeft => Vec2i { x: 0, y: (-(current_size.y / 2)) as i64 },
            AnchorPoint::Center => Vec2i {
                x: (-(current_size.x / 2)) as i64,
                y: (-(current_size.y / 2)) as i64,
            },
            AnchorPoint::CenterRight => Vec2i {
                x: (-current_size.x) as i64,
                y: (-(current_size.y / 2)) as i64,
            },
            AnchorPoint::BottomLeft => Vec2i { x: 0, y: (-current_size.y) as i64 },
            AnchorPoint::BottomCenter => Vec2i {
                x: (-(current_size.x / 2)) as i64,
                y: (-current_size.y) as i64,
            },
            AnchorPoint::BottomRight => Vec2i {
                x: (-current_size.x) as i64,
                y: (-current_size.y) as i64,
            },
        }
    }

    /// Anchored draw: the current frame, at its own size, pinned to
    /// `position` by the chosen anchor point.
    pub open spec fn draw_anchored_spec(
        self,
        position: Vec2i,
        direction: CharacterDirection,
        anchor: AnchorPoint,
    ) -> SpriteDraw
        recommends
            self.can_draw(),
    {
        let cs = self.current_size_spec();
        let off = Self::anchor_offset(anchor, cs);
        let draw_pos = Vec2i { x: (position.x + off.x) as i64, y: (position.y + off.y) as i64 };
        let final_draw_x = Self::flipped_x(direction, draw_pos.x as int, cs.x as int);
        SpriteDraw {
            frame: self.current_frame,
            x: final_draw_x as i64,
            y: draw_pos.y,
            w: Self::flipped_w(direction, cs.x as int) as i64,
            h: cs.y,
            flip_y: false,
            rotated: false,
            rot_dir: Vec2i { x: 0, y: 0 },
        }
    }

    pub fn draw_anchored(
        &self,
        position: Vec2i,
        direction: &CharacterDirection,
        anchor: AnchorPoint,
    ) -> (r: (Option<SpriteDraw>, Vec<DebugRect>))
        requires
            self.wf(),
            position.in_range(2 * POS_LIMIT as int),
        ensures
            r.0 == (if self.can_draw() {
                Some(self.draw_anchored_spec(position, *direction, anchor))
            } else {
                Option::<SpriteDraw>::None
            }),
            r.1@ == (if self.can_draw() && self.debug_mode {
                self.draw_debug_rectangles_anchored(
                    position,
                    Vec2i {
                        x: (position.x + Self::anchor_offset(
                            anchor,
                            self.current_size_spec(),
                        ).x) as i64,
                        y: (position.y + Self::anchor_offset(
                            anchor,
                            self.current_size_spec(),
                        ).y) as i64,
                    },
                    self.current_size_spec(),
                    *direction,
                )
            } else {
                Seq::<DebugRect>::empty()
            }),
    {
        let mut debug: Vec<DebugRect> = Vec::new();
        if self.frames.len() == 0 || self.current_frame as usize >= self.frames.len() {
            return (None, debug);
        }
        let cs = self.frames[self.current_frame as usize];
        let half_x = half_nonneg(cs.x);
        let half_y = half_nonneg(cs.y);
        let off = match anchor {
            AnchorPoint::TopLeft => Vec2i { x: 0, y: 0 },
            AnchorPoint::TopCenter => Vec2i { x: -half_x, y: 0 },
            AnchorPoint::TopRight => Vec2i { x: -cs.x, y: 0 },
            AnchorPoint::CenterLeft => Vec2i { x: 0, y: -half_y },
            AnchorPoint::Center => Vec2i { x: -half_x, y: -half_y },
            AnchorPoint::CenterRight => Vec2i { x: -cs.x, y: -half_y },
            AnchorPoint::BottomLeft => Vec2i { x: 0, y: -cs.y },
            AnchorPoint::BottomCenter => Vec2i { x: -half_x, y: -cs.y },
            AnchorPoint::BottomRight => Vec2i { x: -cs.x, y: -cs.y },
        };
        let draw_pos = Vec2i { x: position.x + off.x, y: position.y + off.y };
        let final_draw_x = if *direction == CharacterDirection::Left {
            draw_pos.x + cs.x
        } else {
            draw_pos.x
        };
        let w = if *direction == CharacterDirection::Left {
            -cs.x
        } else {
            cs.x
        };
        let sprite = SpriteDraw {
            frame: self.current_frame,
            x: final_draw_x,
            y: draw_pos.y,
            w,
            h: cs.y,
            flip_y: false,
            rotated: false,
            rot_dir: Vec2i { x: 0, y: 0 },
        };
        if self.debug_mode {
            debug.push(
                DebugRect {
                    x: final_draw_x,
                    y: draw_pos.y,
                    w: cs.x,
                    h: cs.y,
                    thickness: (2 * UNIT) as i64,
                    color: DebugColor::Red,
                },
            );
            debug.push(
                DebugRect {
                    x: position.x - 2 * UNIT,
                    y: position.y - 2 * UNIT,
                    w: (4 * UNIT) as i64,
                    h: (4 * UNIT) as i64,
                    thickness: (1 * UNIT) as i64,
                    color: DebugColor::Blue,
                },
            );
            proof {
                assert(debug@ =~= self.draw_debug_rectangles_anchored(
                    position,
                    draw_pos,
                    cs,
                    *direction,
                ));
            }
        }
        (Some(sprite), debug)
    }

    /// Debug overlay of the centered draw: the full-size box, the blitted
    /// frame, and the box center.
    pub open spec fn draw_debug_rectangles_centered(
        self,
        position: Vec2i,
        draw_pos: Vec2i,
        current_size: Vec2i,
        direction: CharacterDirection,
    ) -> Seq<DebugRect> {
        let final_draw_x = Self::flipped_x(direction, draw_pos.x as int, current_size.x as int);
        let cx = position.x + self.max_frame_size.x / 2;
        let cy = position.y + self.max_frame_size.y / 2;
        seq![
            DebugRect {
                x: position.x,
                y: position.y,
                w: self.max_frame_size.x,
                h: self.max_frame_size.y,
                thickness: (2 * UNIT) as i64,
                color: DebugColor::Green,
            },
            DebugRect {
                x: final_draw_x as i64,
                y: draw_pos.y,
                w: current_size.x,
                h: current_size.y,
                thickness: (2 * UNIT) as i64,
                color: DebugColor::Red,
            },
            DebugRect {
                x: (cx - 2 * UNIT) as i64,
                y: (cy - 2 * UNIT) as i64,
                w: (4 * UNIT) as i64,
                h: (4 * UNIT) as i64,
                thickness: (1 * UNIT) as i64,
                color: DebugColor::Blue,
            },
        ]
    }

    /// Centered draw: the current frame at its own size, centered within the
    /// largest frame's box at `position`.
    pub open spec fn draw_centered_draw_pos(self, position: Vec2i) -> Vec2i
        recommends
            self.can_draw(),
    {
        let cs = self.current_size_spec();
        Vec2i {
            x: (position.x + (self.max_frame_size.x - cs.x) / 2) as i64,
            y: (position.y + (self.max_frame_size.y - cs.y) / 2) as i64,
        }
    }

    pub open spec fn draw_centered_spec(
        self,
        position: Vec2i,
        direction: CharacterDirection,
    ) -> SpriteDraw
        recommends
            self.can_draw(),
    {
        let cs = self.current_size_spec();
        let draw_pos = self.draw_centered_draw_pos(position);
        let final_draw_x = Self::flipped_x(direction, draw_pos.x as int, cs.x as int);
        SpriteDraw {
            frame: self.current_frame,
            x: final_draw_x as i64,
            y: draw_pos.y,
            w: Self::flipped_w(direction, cs.x as int) as i64,
            h: cs.y,
            flip_y: false,
            rotated: false,
            rot_dir: Vec2i { x: 0, y: 0 },
        }
    }

    pub fn draw_centered(&self, position: Vec2i, direction: &CharacterDirection) -> (r: (
        Option<SpriteDraw>,
        Vec<DebugRect>,
    ))
        requires
            self.wf(),
            position.in_range(2 * POS_LIMIT as int),
        ensures
            r.0 == (if self.can_draw() {
                Some(self.draw_centered_spec(position, *direction))
            } else {
                Option::<SpriteDraw>::None
            }),
            r.1@ == (if self.can_draw() && self.debug_mode {
                self.draw_debug_rectangles_centered(
                    position,
                    self.draw_centered_draw_pos(position),
                    self.current_size_spec(),
                    *direction,
                )
            } else {
                Seq::<DebugRect>::empty()
            }),
    {
        let mut debug: Vec<DebugRect> = Vec::new();
        if self.frames.len() == 0 || self.current_frame as usize >= self.frames.len() {
            return (None, debug);
        }
        let cs = self.frames[self.current_frame as usize];
        let offset_x = half_nonneg(self.max_frame_size.x - cs.x);
        let offset_y = half_nonneg(self.max_frame_size.y - cs.y);
        let draw_pos = Vec2i { x: position.x + offset_x, y: position.y + offset_y };
        let final_draw_x = if *direction == CharacterDirection::Left {
            draw_pos.x + cs.x
        } else {
            draw_pos.x
        };
        let w = if *direction == CharacterDirection::Left {
            -cs.x
        } else {
            cs.x
        };
        let sprite = SpriteDraw {
            frame: self.current_frame,
            x: final_draw_x,
            y: draw_pos.y,
            w,
            h: cs.y,
            flip_y: false,
            rotated: false,
            rot_dir: Vec2i { x: 0, y: 0 },
        };
        if self.debug_mode {
            let cx = position.x + half_nonneg(self.max_frame_size.x);
            let cy = position.y + half_nonneg(self.max_frame_size.y);
            debug.push(
                DebugRect {
                    x: position.x,
                    y: position.y,
                    w: self.max_frame_size.x,
                    h: self.max_frame_size.y,
                    thickness: (2 * UNIT) as i64,
                    color: DebugColor::Green,
                },
            );
            debug.push(
                DebugRect {
                    x: final_draw_x,
                    y: draw_pos.y,
                    w: cs.x,
                    h: cs.y,
                    thickness: (2 * UNIT) as i64,
                    color: DebugColor::Red,
                },
            );
            debug.push(
                DebugRect {
                    x: cx - 2 * UNIT,
                    y: cy - 2 * UNIT,
                    w: (4 * UNIT) as i64,
                    h: (4 * UNIT) as i64,
                    thickness: (1 * UNIT) as i64,
                    color: DebugColor::Blue,
                },
            );
            proof {
                assert(debug@ =~= self.draw_debug_rectangles_centered(
                    position,
                    self.draw_centered_draw_pos(position),
                    cs,
                    *direction,
                ));
            }
        }
        (Some(sprite), debug)
    }

    /// Debug overlay of the bottom-aligned draw: the ground line, the
    /// blitted frame, and the ground anchor point.
    pub open spec fn draw_debug_rectangles_bottom_aligned(
        self,
        ground_pos: Vec2i,
        draw_pos: Vec2i,
        current_size: Vec2i,
        direction: CharacterDirection,
    ) -> Seq<DebugRect> {
        let final_draw_x = Self::flipped_x(direction, draw_pos.x as int, current_size.x as int);
        seq![
            DebugRect {
                x: (ground_pos.x - 10 * UNIT) as i64,
                y: (ground_pos.y - 1 * UNIT) as i64,
                w: (20 * UNIT) as i64,
                h: (2 * UNIT) as i64,
                thickness: (2 * UNIT) as i64,
                color: DebugColor::Green,
            },
            DebugRect {
                x: final_draw_x as i64,
                y: draw_pos.y,
                w: current_size.x,
                h: current_size.y,
                thickness: (2 * UNIT) as i64,
                color: DebugColor::Red,
            },
            DebugRect {
                x: (ground_pos.x - 2 * UNIT) as i64,
                y: (ground_pos.y - 2 * UNIT) as i64,
                w: (4 * UNIT) as i64,
                h: (4 * UNIT) as i64,
                thickness: (1 * UNIT) as i64,
                color: DebugColor::Blue,
            },
        ]
    }

    /// Bottom-aligned draw: the current frame rises from the ground
    /// position, so frames of different heights share a baseline.
    pub open spec fn draw_bottom_aligned_spec(
        self,
        ground_position: Vec2i,
        direction: CharacterDirection,
    ) -> SpriteDraw
        recommends
            self.can_draw(),
    {
        let cs = self.current_size_spec();
        let draw_pos = Vec2i { x: ground_position.x, y: (ground_position.y - cs.y) as i64 };
        let final_draw_x = Self::flipped_x(direction, draw_pos.x as int, cs.x as int);
        SpriteDraw {
            frame: self.current_frame,
            x: final_draw_x as i64,
            y: draw_pos.y,
            w: Self::flipped_w(direction, cs.x as int) as i64,
            h: cs.y,
            flip_y: false,
            rotated: false,
            rot_dir: Vec2i { x: 0, y: 0 },
        }
    }

    pub fn draw_bottom_aligned(&self, ground_position: Vec2i, direction: &CharacterDirection) -> (r:
        (Option<SpriteDraw>, Vec<DebugRect>))
        requires
            self.wf(),
            ground_position.in_range(2 * POS_LIMIT as int),
        ensures
            r.0 == (if self.can_draw() {
                Some(self.draw_bottom_aligned_spec(ground_position, *direction))
            } else {
                Option::<SpriteDraw>::None
            }),
            r.1@ == (if self.can_draw() && self.debug_mode {
                self.draw_debug_rectangles_bottom_aligned(
                    ground_position,
                    Vec2i {
                        x: ground_position.x,
                        y: (ground_position.y - self.current_size_spec().y) as i64,
                    },
                    self.current_size_spec(),
                    *direction,
                )
            } else {
                Seq::<DebugRect>::empty()
            }),
    {
        let mut debug: Vec<DebugRect> = Vec::new();
        if self.frames.len() == 0 || self.current_frame as usize >= self.frames.len() {
            return (None, debug);
        }
        let cs = self.frames[self.current_frame as usize];
        let draw_pos = Vec2i { x: ground_position.x, y: ground_position.y - cs.y };
        let final_draw_x = if *direction == CharacterDirection::Left {
            draw_pos.x + cs.x
        } else {
            draw_pos.x
        };
        let w = if *direction == CharacterDirection::Left {
            -cs.x
        } else {
            cs.x
        };
        let sprite = SpriteDraw {
            frame: self.current_frame,
            x: final_draw_x,
            y: draw_pos.y,
            w,
            h: cs.y,
            flip_y: false,
            rotated: false,
            rot_dir: Vec2i { x: 0, y: 0 },
        };
        if self.debug_mode {
            debug.push(
                DebugRect {
                    x: ground_position.x - 10 * UNIT,
                    y: ground_position.y - 1 * UNIT,
                    w: (20 * UNIT) as i64,
                    h: (2 * UNIT) as i64,
                    thickness: (2 * UNIT) as i64,
                    color: DebugColor::Green,
                },
            );
            debug.push(
                DebugRect {
                    x: final_draw_x,
                    y: draw_pos.y,
                    w: cs.x,
                    h: cs.y,
                    thickness: (2 * UNIT) as i64,
                    color: DebugColor::Red,
                },
            );
            debug.push(
                DebugRect {
                    x: ground_position.x - 2 * UNIT,
                    y: ground_position.y - 2 * UNIT,
                    w: (4 * UNIT) as i64,
                    h: (4 * UNIT) as i64,
                    thickness: (1 * UNIT) as i64,
                    color: DebugColor::Blue,
                },
            );
            proof {
                assert(debug@ =~= self.draw_debug_rectangles_bottom_aligned(
                    ground_position,
                    draw_pos,
                    cs,
                    *direction,
                ));
            }
        }
        (Some(sprite), debug)
    }

    /// Debug overlay of the offset draw: the original position, the blitted
    /// frame, and the adjusted position.
    pub open spec fn draw_debug_rectangles_with_offsets(
        self,
        original_pos: Vec2i,
        adjusted_pos: Vec2i,
        current_size: Vec2i,
        direction: CharacterDirection,
    ) -> Seq<DebugRect> {
        let final_draw_x = Self::flipped_x(direction, adjusted_pos.x as int, current_size.x as int);
        seq![
            DebugRect {
                x: (original_pos.x - 2 * UNIT) as i64,
                y: (original_pos.y - 2 * UNIT) as i64,
                w: (4 * UNIT) as i64,
                h: (4 * UNIT) as i64,
                thickness: (1 * UNIT) as i64,
                color: DebugColor::Green,
            },
            DebugRect {
                x: final_draw_x as i64,
                y: adjusted_pos.y,
                w: current_size.x,
                h: current_size.y,
                thickness: (2 * UNIT) as i64,
                color: DebugColor::Red,
            },
            DebugRect {
                x: (adjusted_pos.x - 2 * UNIT) as i64,
                y: (adjusted_pos.y - 2 * UNIT) as i64,
                w: (4 * UNIT) as i64,
                h: (4 * UNIT) as i64,
                thickness: (1 * UNIT) as i64,
                color: DebugColor::Blue,
            },
        ]
    }

    /// The current frame's blit offset, or zero when none is stored.
    pub open spec fn current_offset_spec(self) -> Vec2i {
        if (self.current_frame as int) < self.frame_offsets@.len() {
            self.frame_offsets@[self.current_frame as int]
        } else {
            Vec2i { x: 0, y: 0 }
        }
    }

    /// Offset draw: the current frame at its own size, displaced by its
    /// per-frame offset.
    pub open spec fn draw_with_offsets_spec(
        self,
        position: Vec2i,
        direction: CharacterDirection,
    ) -> SpriteDraw
        recommends
            self.can_draw(),
    {
        let cs = self.current_size_spec();
        let off = self.current_offset_spec();
        let adjusted = Vec2i { x: (position.x + off.x) as i64, y: (position.y + off.y) as i64 };
        let final_draw_x = Self::flipped_x(direction, adjusted.x as int, cs.x as int);
        SpriteDraw {
            frame: self.current_frame,
            x: final_draw_x as i64,
            y: adjusted.y,
            w: Self::flipped_w(direction, cs.x as int) as i64,
            h: cs.y,
            flip_y: false,
            rotated: false,
            rot_dir: Vec2i { x: 0, y: 0 },
        }
    }

    pub fn draw_with_offsets(&self, position: Vec2i, direction: &CharacterDirection) -> (r: (
        Option<SpriteDraw>,
        Vec<DebugRect>,
    ))
        requires
            self.wf(),
            position.in_range(2 * POS_LIMIT as int),
        ensures
            r.0 == (if self.can_draw() {
                Some(self.draw_with_offsets_spec(position, *direction))
            } else {
                Option::<SpriteDraw>::None
            }),
            r.1@ == (if self.can_draw() && self.debug_mode {
                self.draw_debug_rectangles_with_offsets(
                    position,
                    Vec2i {
                        x: (position.x + self.current_offset_spec().x) as i64,
                        y: (position.y + self.current_offset_spec().y) as i64,
                    },
                    self.current_size_spec(),
                    *direction,
                )
            } else {
                Seq::<DebugRect>::empty()
            }),
    {
        let mut debug: Vec<DebugRect> = Vec::new();
        if self.frames.len() == 0 || self.current_frame as usize >= self.frames.len() {
            return (None, debug);
        }
        let cs = self.frames[self.current_frame as usize];
        let off = if (self.current_frame as usize) < self.frame_offsets.len() {
            self.frame_offsets[self.current_frame as usize]
        } else {
            Vec2i { x: 0, y: 0 }
        };
        let adjusted = Vec2i { x: position.x + off.x, y: position.y + off.y };
        let final_draw_x = if *direction == CharacterDirection::Left {
            adjusted.x + cs.x
        } else {
            adjusted.x
        };
        let w = if *direction == CharacterDirection::Left {
            -cs.x
        } else {
            cs.x
        };
        let sprite = SpriteDraw {
            frame: self.current_frame,
            x: final_draw_x,
            y: adjusted.y,
            w,
            h: cs.y,
            flip_y: false,
            rotated: false,
            rot_dir: Vec2i { x: 0, y: 0 },
        };
        if self.debug_mode {
            debug.push(
                DebugRect {
                    x: position.x - 2 * UNIT,
                    y: position.y - 2 * UNIT,
                    w: (4 * UNIT) as i64,
                    h: (4 * UNIT) as i64,
                    thickness: (1 * UNIT) as i64,
                    color: DebugColor::Green,
                },
            );
            debug.push(
                DebugRect {
                    x: final_draw_x,
                    y: adjusted.y,
                    w: cs.x,
                    h: cs.y,
                    thickness: (2 * UNIT) as i64,
                    color: DebugColor::Red,
                },
            );
            debug.push(
                DebugRect {
                    x: adjusted.x - 2 * UNIT,
                    y: adjusted.y - 2 * UNIT,
                    w: (4 * UNIT) as i64,
                    h: (4 * UNIT) as i64,
                    thickness: (1 * UNIT) as i64,
                    color: DebugColor::Blue,
                },
            );
            proof {
                assert(debug@ =~= self.draw_debug_rectangles_with_offsets(
                    position,
                    adjusted,
                    cs,
                    *direction,
                ));
            }
        }
        (Some(sprite), debug)
    }

    /// Debug overlay of the rotated draw: the frame box, the rotation
    /// center, and the frame origin.
    pub open spec fn draw_debug_rectangles_rotated(
        self,
        center_position: Vec2i,
        draw_position: Vec2i,
    ) -> Seq<DebugRect> {
        seq![
            DebugRect {
                x: draw_position.x,
                y: draw_position.y,
                w: self.frame_size.x,
                h: self.frame_size.y,
                thickness: (2 * UNIT) as i64,
                color: DebugColor::Red,
            },
            DebugRect {
                x: (center_position.x - 2 * UNIT) as i64,
                y: (center_position.y - 2 * UNIT) as i64,
                w: (4 * UNIT) as i64,
                h: (4 * UNIT) as i64,
                thickness: (1 * UNIT) as i64,
                color: DebugColor::Blue,
            },
            DebugRect {
                x: (draw_position.x - 1 * UNIT) as i64,
                y: (draw_position.y - 1 * UNIT) as i64,
                w: (2 * UNIT) as i64,
                h: (2 * UNIT) as i64,
                thickness: (1 * UNIT) as i64,
                color: DebugColor::Green,
            },
        ]
    }

    /// Rotated draw: the nominal frame size centered on `position`, turned
    /// by the angle of `rot_dir`; a left-facing sprite is flipped
    /// vertically so it is not drawn upside down.
    pub open spec fn draw_rotated_spec(
        self,
        position: Vec2i,
        direction: CharacterDirection,
        rot_dir: Vec2i,
    ) -> SpriteDraw
        recommends
            self.can_draw(),
    {
        let draw_pos = Vec2i {
            x: (position.x - self.frame_size.x / 2) as i64,
            y: (position.y - self.frame_size.y / 2) as i64,
        };
        SpriteDraw {
            frame: self.current_frame,
            x: draw_pos.x,
            y: draw_pos.y,
            w: self.frame_size.x,
            h: self.frame_size.y,
            flip_y: direction == CharacterDirection::Left,
            rotated: true,
            rot_dir,
        }
    }

    pub fn draw_rotated(&self, position: Vec2i, direction: &CharacterDirection, rot_dir: Vec2i) -> (r: (
        Option<SpriteDraw>,
        Vec<DebugRect>,
    ))
        requires
            self.wf(),
            position.in_range(2 * POS_LIMIT as int),
        ensures
            r.0 == (if self.can_draw() {
                Some(self.draw_rotated_spec(position, *direction, rot_dir))
            } else {
                Option::<SpriteDraw>::None
            }),
            r.1@ == (if self.can_draw() && self.debug_mode {
                self.draw_debug_rectangles_rotated(
                    position,
                    Vec2i {
                        x: (position.x - self.frame_size.x / 2) as i64,
                        y: (position.y - self.frame_size.y / 2) as i64,
                    },
                )
            } else {
                Seq::<DebugRect>::empty()
            }),
    {
        let mut debug: Vec<DebugRect> = Vec::new();
        if self.frames.len() == 0 || self.current_frame as usize >= self.frames.len() {
            return (None, debug);
        }
        let draw_pos = Vec2i {
            x: position.x - half_nonneg(self.frame_size.x),
            y: position.y - half_nonneg(self.frame_size.y),
        };
        let sprite = SpriteDraw {
            frame: self.current_frame,
            x: draw_pos.x,
            y: draw_pos.y,
            w: self.frame_size.x,
            h: self.frame_size.y,
            flip_y: *direction == CharacterDirection::Left,
            rotated: true,
            rot_dir,
        };
        if self.debug_mode {
            debug.push(
                DebugRect {
                    x: draw_pos.x,
                    y: draw_pos.y,
                    w: self.frame_size.x,
                    h: self.frame_size.y,
                    thickness: (2 * UNIT) as i64,
                    color: DebugColor::Red,
                },
            );
            debug.push(
                DebugRect {
                    x: position.x - 2 * UNIT,
                    y: position.y - 2 * UNIT,
                    w: (4 * UNIT) as i64,
                    h: (4 * UNIT) as i64,
                    thickness: (1 * UNIT) as i64,
                    color: DebugColor::Blue,
                },
            );
            debug.push(
                DebugRect {
                    x: draw_pos.x - 1 * UNIT,
                    y: draw_pos.y - 1 * UNIT,
                    w: (2 * UNIT) as i64,
                    h: (2 * UNIT) as i64,
                    thickness: (1 * UNIT) as i64,
                    color: DebugColor::Green,
                },
            );
            proof {
                assert(debug@ =~= self.draw_debug_rectangles_rotated(position, draw_pos));
            }
        }
        (Some(sprite), debug)
    }
}

/// Half of a non-negative quantity, rounded down.
fn half_nonneg(v: i64) -> (r: i64)
    requires
        v >= 0,
    ensures
        r == v / 2,
{
    ((v as u64) / 2) as i64
}

/// Sum of a sequence of time steps.
pub open spec fn sum_dts(dts: Seq<i64>) -> int
    decreases dts.len(),
{
    if dts.len() == 0 {
        0
    } else {
        dts[0] + sum_dts(dts.drop_first())
    }
}

pub open spec fn nonneg_dts(dts: Seq<i64>) -> bool {
    forall|i: int| 0 <= i < dts.len() ==> (#[trigger] dts[i]) >= 0
}

/// The state after applying `update` for each step of `dts` in order.
pub open spec fn run_updates(a: Animate, dts: Seq<i64>) -> Animate
    decreases dts.len(),
{
    if dts.len() == 0 {
        a
    } else {
        run_updates(Animate::update_spec(a, dts[0]), dts.drop_first())
    }
}

pub proof fn lemma_sum_nonneg(dts: Seq<i64>)
    requires
        nonneg_dts(dts),
    ensures
        sum_dts(dts) >= 0,
    decreases dts.len(),
{
    if dts.len() > 0 {
        assert(nonneg_dts(dts.drop_first()));
        lemma_sum_nonneg(dts.drop_first());
    }
}

proof fn lemma_run_zero_steps(a: Animate, dts: Seq<i64>)
    requires
        a.wf(),
        a.timer == 0,
        nonneg_dts(dts),
        sum_dts(dts) == 0,
    ensures
        run_updates(a, dts) == a,
    decreases dts.len(),
{
    if dts.len() > 0 {
        assert(nonneg_dts(dts.drop_first()));
        lemma_sum_nonneg(dts.drop_first());
        assert(dts[0] == 0);
        assert(Animate::update_spec(a, 0) == a);
        lemma_run_zero_steps(a, dts.drop_first());
    }
}

proof fn lemma_run_to_advance(a: Animate, dts: Seq<i64>)
    requires
        a.wf(),
        a.frames@.len() >= 1,
        !(a.finished && !a.looping),
        nonneg_dts(dts),
        a.timer + sum_dts(dts) == a.frame_time,
    ensures
        run_updates(a, dts) == Animate::advance_spec(a),
    decreases dts.len(),
{
    assert(dts.len() > 0);
    let d = dts[0];
    let rest = dts.drop_first();
    assert(nonneg_dts(rest));
    lemma_sum_nonneg(rest);
    if a.timer + d >= a.frame_time {
        assert(d <= sum_dts(dts));
        assert(d == sum_dts(dts) && sum_dts(rest) == 0);
        let b = Animate::advance_spec(a);
        assert(b.wf());
        assert(Animate::update_spec(a, d) == b);
        lemma_run_zero_steps(b, rest);
    } else {
        let a2 = Animate::update_spec(a, d);
        assert(a2 == (Animate { timer: (a.timer + d) as i64, ..a }));
        assert(a2.wf());
        lemma_run_to_advance(a2, rest);
        assert(Animate::advance_spec(a2) == Animate::advance_spec(a));
    }
}

/// Law: any sequence of non-negative time steps that sums exactly to the
/// frame duration, applied from a fresh timer, advances the current frame by
/// exactly one step and leaves the timer at the remainder, zero.
pub proof fn lemma_exact_steps_advance_once(a: Animate, dts: Seq<i64>)
    requires
        a.wf(),
        a.frames@.len() >= 1,
        a.timer == 0,
        !(a.finished && !a.looping),
        nonneg_dts(dts),
        sum_dts(dts) == a.frame_time,
    ensures
        run_updates(a, dts) == Animate::advance_spec(a),
        run_updates(a, dts).timer == 0,
{
    lemma_run_to_advance(a, dts);
}

/// Law: a non-looping animation never steps past its last frame; `finished`
/// turns on only by a timer expiry on the last frame, and once a non-looping
/// animation is finished an update changes nothing, so it is set exactly
/// once.
pub proof fn lemma_non_looping_finishes_once(a: Animate, dt: i64)
    requires
        a.wf(),
        !a.looping,
        a.frames@.len() >= 1,
    ensures
        Animate::update_spec(a, dt).current_frame < a.frames@.len(),
        Animate::update_spec(a, dt).finished && !a.finished ==> a.current_frame + 1
            >= a.frames@.len() && a.timer + dt >= a.frame_time,
        !a.finished && a.current_frame + 1 >= a.frames@.len() && a.timer + dt >= a.frame_time
            ==> Animate::update_spec(a, dt).finished,
        a.finished ==> Animate::update_spec(a, dt) == a,
{
}

} // verus!
