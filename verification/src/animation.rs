//! The keyframe-interpolating animation driver: advances through a
//! frame string on a per-keyframe interval schedule, and recomputes a
//! twine-interpolated compound shape between the current and the next
//! keyframe on every tick.

use crate::collision::{string_rotated, Hitbox, HitboxFrame, HitboxFrameString};
use crate::geometry::{twine_rect, Frac, RectModel, DEN_LIMIT};
use crate::Direction;
use vstd::prelude::*;

verus! {

/// A machine that turns a keyframed hitbox string into a continuously
/// interpolated compound shape.  It owns four directional copies of the
/// keyframe table, per-keyframe hold durations, the progress counters,
/// and the cached interpolated frame.
#[derive(Clone, Debug)]
pub struct HitboxAnimation {
    lerped: HitboxFrame,
    hitboxes: [HitboxFrameString; 4],
    /// The number of ticks each keyframe is held before advancing.
    intervals: Vec<usize>,
    frame_of_current_interval: usize,
    current_interval: usize,
    loops: bool,
    active: bool,
    twine: Frac,
    direction: Direction,
}

impl HitboxAnimation {
    /// The four per-direction keyframe strings, ordered by facing
    /// ordinal.
    pub closed spec fn spec_strings(&self) -> Seq<HitboxFrameString> {
        self.hitboxes@
    }

    /// The per-keyframe hold durations.
    pub closed spec fn spec_intervals(&self) -> Seq<usize> {
        self.intervals@
    }

    /// The index of the current keyframe.
    pub closed spec fn spec_current_interval(&self) -> int {
        self.current_interval as int
    }

    /// The remaining ticks within the current keyframe's hold duration.
    pub closed spec fn spec_countdown(&self) -> int {
        self.frame_of_current_interval as int
    }

    pub closed spec fn spec_active(&self) -> bool {
        self.active
    }

    pub closed spec fn spec_loops(&self) -> bool {
        self.loops
    }

    /// The damping factor applied to positional interpolation.
    pub closed spec fn spec_twine(&self) -> Frac {
        self.twine
    }

    /// The facing the animation currently plays in.
    pub closed spec fn spec_direction(&self) -> Direction {
        self.direction
    }

    /// The cached interpolated compound shape.
    pub closed spec fn spec_lerped(&self) -> HitboxFrame {
        self.lerped
    }

    /// Internal consistency: four directional strings, each at least as
    /// long as the interval schedule; a nonempty schedule of bounded
    /// hold durations; the progress counters in range; and well-formed
    /// geometry everywhere.
    pub open spec fn wf(&self) -> bool {
        &&& self.spec_strings().len() == 4
        &&& 1 <= self.spec_intervals().len()
        &&& forall|d: int|
            0 <= d < 4 ==> self.spec_intervals().len() <= (
            #[trigger] self.spec_strings()[d]).frames().len()
        &&& forall|d: int| 0 <= d < 4 ==> (#[trigger] self.spec_strings()[d]).wf()
        &&& forall|d: int| 0 <= d < 4 ==> (#[trigger] self.spec_strings()[d]).members_authored()
        &&& forall|i: int|
            0 <= i < self.spec_intervals().len() ==> (#[trigger] self.spec_intervals()[i])
                < DEN_LIMIT
        &&& 0 <= self.spec_current_interval() < self.spec_intervals().len()
        &&& self.spec_countdown() <= self.spec_intervals()[self.spec_current_interval()]
        &&& self.spec_twine().wf()
        &&& self.spec_lerped().wf()
    }

    /// The keyframe tables and the configuration are the same in both
    /// states; only progress counters and the cached shape may differ.
    pub open spec fn same_tables(a: HitboxAnimation, b: HitboxAnimation) -> bool {
        &&& a.spec_strings() == b.spec_strings()
        &&& a.spec_intervals() == b.spec_intervals()
        &&& a.spec_twine() == b.spec_twine()
        &&& a.spec_loops() == b.spec_loops()
        &&& a.spec_direction() == b.spec_direction()
    }

    /// The state is an active keyframe boundary at the last keyframe:
    /// the one moment a tick reports `true`.
    pub open spec fn at_final_boundary(&self) -> bool {
        self.spec_active() && self.spec_countdown() == 0 && self.spec_current_interval()
            == self.spec_intervals().len() - 1
    }

    /// The interpolation factor of the current state:
    /// `(hold - countdown) / (hold + 1)` for the current keyframe's
    /// hold duration.
    pub open spec fn spec_t(&self) -> Frac {
        Frac {
            num: (self.spec_intervals()[self.spec_current_interval()] - self.spec_countdown()) as usize,
            den: (self.spec_intervals()[self.spec_current_interval()] + 1) as usize,
        }
    }

    /// The members of the shape the animation displays in its current
    /// state: the current keyframe twine-interpolated toward the next
    /// keyframe, member by member, or the current keyframe verbatim
    /// when no keyframe follows.
    pub open spec fn spec_lerped_members(&self) -> Seq<RectModel> {
        let s = self.spec_strings()[self.spec_direction().ord()];
        let ci = self.spec_current_interval();
        let cur = s.frames()[ci].members();
        if ci + 1 < s.frames().len() {
            let nxt = s.frames()[ci + 1].members();
            let n = vstd::math::min(cur.len() as int, nxt.len() as int);
            Seq::new(n as nat, |k: int| twine_rect(cur[k], nxt[k], self.spec_t(), self.spec_twine()))
        } else {
            cur
        }
    }

    /// Builds an animation over the given keyframe string, deriving
    /// the four directional variants from its authored facing, with
    /// progress at the start, looping and active, and no twine damping.
    /// The countdown starts loaded with the first keyframe's hold
    /// duration, so the animation rests on the first keyframe before
    /// its first tick.
    pub fn new(hitboxes: &HitboxFrameString, intervals: Vec<usize>) -> (a: HitboxAnimation)
        requires
            hitboxes.wf(),
            hitboxes.members_authored(),
            1 <= intervals@.len() <= hitboxes.frames().len(),
            forall|i: int| 0 <= i < intervals@.len() ==> (#[trigger] intervals@[i]) < DEN_LIMIT,
        ensures
            a.wf(),
            a.spec_active(),
            a.spec_loops(),
            a.spec_current_interval() == 0,
            a.spec_countdown() == intervals@[0],
            a.spec_twine() == (Frac { num: 1, den: 1 }),
            a.spec_direction() == Direction::Down,
            a.spec_intervals() == intervals@,
            a.spec_lerped().members().len() == 0,
            string_rotated(*hitboxes, a.spec_strings()[0], Direction::Right),
            string_rotated(*hitboxes, a.spec_strings()[1], Direction::Up),
            string_rotated(*hitboxes, a.spec_strings()[2], Direction::Left),
            string_rotated(*hitboxes, a.spec_strings()[3], Direction::Down),
    {
        let lerped = HitboxFrame::new(Vec::new(), Direction::Down);
        let first_hold = intervals[0];
        HitboxAnimation {
            lerped,
            hitboxes: [
                hitboxes.as_direction(Direction::Right),
                hitboxes.as_direction(Direction::Up),
                hitboxes.as_direction(Direction::Left),
                hitboxes.as_direction(Direction::Down),
            ],
            intervals,
            frame_of_current_interval: first_hold,
            current_interval: 0,
            loops: true,
            active: true,
            twine: Frac::one(),
            direction: Direction::Down,
        }
    }

    /// Chooses whether the animation restarts at the end or
    /// deactivates.
    pub fn loop_animations(&mut self, value: bool)
        ensures
            final(self).spec_loops() == value,
            final(self).spec_strings() == old(self).spec_strings(),
            final(self).spec_intervals() == old(self).spec_intervals(),
            final(self).spec_twine() == old(self).spec_twine(),
            final(self).spec_direction() == old(self).spec_direction(),
            final(self).spec_current_interval() == old(self).spec_current_interval(),
            final(self).spec_countdown() == old(self).spec_countdown(),
            final(self).spec_active() == old(self).spec_active(),
            final(self).spec_lerped() == old(self).spec_lerped(),
            old(self).wf() ==> final(self).wf(),
    {
        self.loops = value;
    }

    /// Activates or deactivates the animation without touching its
    /// progress.
    pub fn set_active(&mut self, value: bool)
        ensures
            final(self).spec_active() == value,
            final(self).spec_strings() == old(self).spec_strings(),
            final(self).spec_intervals() == old(self).spec_intervals(),
            final(self).spec_twine() == old(self).spec_twine(),
            final(self).spec_direction() == old(self).spec_direction(),
            final(self).spec_current_interval() == old(self).spec_current_interval(),
            final(self).spec_countdown() == old(self).spec_countdown(),
            final(self).spec_loops() == old(self).spec_loops(),
            final(self).spec_lerped() == old(self).spec_lerped(),
            old(self).wf() ==> final(self).wf(),
    {
        self.active = value;
    }

    /// Turns the animation to play in the given facing.
    pub fn set_direction(&mut self, direction: Direction)
        ensures
            final(self).spec_direction() == direction,
            final(self).spec_strings() == old(self).spec_strings(),
            final(self).spec_intervals() == old(self).spec_intervals(),
            final(self).spec_twine() == old(self).spec_twine(),
            final(self).spec_active() == old(self).spec_active(),
            final(self).spec_current_interval() == old(self).spec_current_interval(),
            final(self).spec_countdown() == old(self).spec_countdown(),
            final(self).spec_loops() == old(self).spec_loops(),
            final(self).spec_lerped() == old(self).spec_lerped(),
            old(self).wf() ==> final(self).wf(),
    {
        self.direction = direction;
    }

    /// Rewinds progress to the first keyframe with its full hold
    /// duration and reactivates, keeping the keyframe data.
    pub fn reset(&mut self)
        requires
            old(self).wf(),
        ensures
            final(self).wf(),
            final(self).spec_active(),
            final(self).spec_current_interval() == 0,
            final(self).spec_countdown() == old(self).spec_intervals()[0],
            final(self).spec_strings() == old(self).spec_strings(),
            final(self).spec_intervals() == old(self).spec_intervals(),
            final(self).spec_twine() == old(self).spec_twine(),
            final(self).spec_direction() == old(self).spec_direction(),
            final(self).spec_loops() == old(self).spec_loops(),
            final(self).spec_lerped() == old(self).spec_lerped(),
    {
        self.active = true;
        self.current_interval = 0;
        self.frame_of_current_interval = self.intervals[0];
    }

    /// Reloads only the current keyframe's hold duration, preserving
    /// the keyframe position.
    pub fn reset_current_interval(&mut self)
        requires
            old(self).wf(),
        ensures
            final(self).wf(),
            final(self).spec_countdown() == old(self).spec_intervals()[old(self).spec_current_interval()],
            final(self).spec_active() == old(self).spec_active(),
            final(self).spec_current_interval() == old(self).spec_current_interval(),
            final(self).spec_strings() == old(self).spec_strings(),
            final(self).spec_intervals() == old(self).spec_intervals(),
            final(self).spec_twine() == old(self).spec_twine(),
            final(self).spec_direction() == old(self).spec_direction(),
            final(self).spec_loops() == old(self).spec_loops(),
            final(self).spec_lerped() == old(self).spec_lerped(),
    {
        self.frame_of_current_interval = self.intervals[self.current_interval];
    }

    /// The keyframe the animation currently stands on, in the given
    /// facing.
    pub fn current_frame(&self, direction: Direction) -> (f: &HitboxFrame)
        requires
            self.wf(),
        ensures
            *f == self.spec_strings()[direction.ord()].frames()[self.spec_current_interval()],
    {
        let d = direction.ordinal();
        self.hitboxes[d].frame_at(self.current_interval)
    }

    /// The keyframe after the current one, in the given facing, if any
    /// follows.
    pub fn next_frame(&self, direction: Direction) -> (f: Option<&HitboxFrame>)
        requires
            self.wf(),
        ensures
            match f {
                Some(frame) => self.spec_current_interval() + 1 < self.spec_strings()[
                    direction.ord()
                ].frames().len() && *frame == self.spec_strings()[direction.ord()].frames()[
                    self.spec_current_interval() + 1
                ],
                None => self.spec_current_interval() + 1 >= self.spec_strings()[
                    direction.ord()
                ].frames().len(),
            },
    {
        let d = direction.ordinal();
        let string = &self.hitboxes[d];
        let n = string.len();
        proof {
            assert(self.spec_intervals().len() <= self.spec_strings()[direction.ord()].frames().len());
        }
        if self.current_interval + 1 >= n {
            return None;
        }
        Some(string.frame_at(self.current_interval + 1))
    }

    /// Recomputes the interpolated compound shape of the current state.
    pub fn lerped_hitboxes(&self) -> (f: HitboxFrame)
        requires
            self.wf(),
        ensures
            f.members() == self.spec_lerped_members(),
            f.dir() == self.spec_direction(),
            f.wf(),
    {
        let ivl = self.intervals[self.current_interval];
        let t = Frac::new(ivl - self.frame_of_current_interval, ivl + 1);
        let current_frame = self.current_frame(self.direction);
        let ghost cur = current_frame.members();
        proof {
            let d = self.spec_direction().ord();
            assert(self.spec_strings()[d].wf());
            assert(self.spec_strings()[d].members_authored());
            assert(self.spec_strings()[d].frames()[self.spec_current_interval()].wf());
            assert(self.spec_strings()[d].frames()[self.spec_current_interval()].members_authored());
        }
        match self.next_frame(self.direction) {
            Some(next_frame) => {
                let ghost nxt = next_frame.members();
                proof {
                    let d = self.spec_direction().ord();
                    assert(self.spec_strings()[d].frames()[self.spec_current_interval() + 1].wf());
                    assert(self.spec_strings()[d].frames()[self.spec_current_interval()
                        + 1].members_authored());
                }
                let count = if current_frame.len() < next_frame.len() {
                    current_frame.len()
                } else {
                    next_frame.len()
                };
                let mut members: Vec<Hitbox> = Vec::new();
                let mut k: usize = 0;
                while k < count
                    invariant
                        self.wf(),
                        t == self.spec_t(),
                        cur == self.spec_strings()[self.spec_direction().ord()].frames()[
                            self.spec_current_interval()
                        ].members(),
                        nxt == self.spec_strings()[self.spec_direction().ord()].frames()[
                            self.spec_current_interval() + 1
                        ].members(),
                        self.spec_current_interval() + 1 < self.spec_strings()[
                            self.spec_direction().ord()
                        ].frames().len(),
                        count as int == vstd::math::min(cur.len() as int, nxt.len() as int),
                        crate::collision::all_wf(cur),
                        crate::collision::all_wf(nxt),
                        *current_frame == self.spec_strings()[self.spec_direction().ord()].frames()[
                            self.spec_current_interval()
                        ],
                        *next_frame == self.spec_strings()[self.spec_direction().ord()].frames()[
                            self.spec_current_interval() + 1
                        ],
                        k <= count,
                        members@.len() == k,
                        forall|j: int|
                            0 <= j < k ==> (#[trigger] members@[j])@ == twine_rect(
                                cur[j],
                                nxt[j],
                                t,
                                self.spec_twine(),
                            ) && crate::geometry::rect_loose(members@[j]@),
                    decreases count - k,
                {
                    let h = current_frame.member_at(k).twine_lerp(
                        next_frame.member_at(k),
                        t,
                        self.twine,
                    );
                    members.push(h);
                    k = k + 1;
                }
                let f = HitboxFrame::new(members, self.direction);
                proof {
                    assert(f.members() =~= self.spec_lerped_members());
                }
                f
            },
            None => {
                let members = crate::collision::copy_hitboxes(current_frame.members_vec());
                proof {
                    assert forall|i: int| 0 <= i < members@.len() implies crate::geometry::rect_loose(
                        (#[trigger] members@[i])@,
                    ) by {
                        assert(members@.map_values(|h: Hitbox| h@)[i] == cur[i]);
                    }
                }
                let f = HitboxFrame::new(members, self.direction);
                proof {
                    assert(f.members() =~= self.spec_lerped_members());
                }
                f
            },
        }
    }

    /// One animation tick.  An inactive animation does nothing and
    /// reports `false`.  Otherwise: a nonzero countdown is decremented;
    /// a zero countdown is a keyframe boundary, which either advances
    /// to the next keyframe — loading that keyframe's hold duration,
    /// with the boundary call counting as its first held tick — or, at
    /// the last keyframe, restarts at the first keyframe with its full
    /// hold when looping and deactivates when not.  The call reports
    /// `true` exactly at that final keyframe boundary, and the
    /// interpolated shape is recomputed for the new state on every
    /// active tick.
    pub fn update_animation(&mut self) -> (updated: bool)
        requires
            old(self).wf(),
        ensures
            final(self).wf(),
            updated == old(self).at_final_boundary(),
            !old(self).spec_active() ==> *final(self) == *old(self),
            old(self).spec_active() ==> {
                let prev = *old(self);
                let next = *final(self);
                let ticking = prev.spec_countdown() > 0;
                let advancing = prev.spec_countdown() == 0 && prev.spec_current_interval() + 1
                    < prev.spec_intervals().len();
                &&& Self::same_tables(prev, next)
                &&& ticking ==> next.spec_active() && next.spec_current_interval()
                    == prev.spec_current_interval() && next.spec_countdown() == prev.spec_countdown()
                    - 1
                &&& advancing ==> next.spec_active() && next.spec_current_interval()
                    == prev.spec_current_interval() + 1 && next.spec_countdown() == (
                if prev.spec_intervals()[prev.spec_current_interval() + 1] > 0 {
                    prev.spec_intervals()[prev.spec_current_interval() + 1] - 1
                } else {
                    0int
                })
                &&& (prev.at_final_boundary() && prev.spec_loops()) ==> next.spec_active()
                    && next.spec_current_interval() == 0 && next.spec_countdown()
                    == prev.spec_intervals()[0]
                &&& (prev.at_final_boundary() && !prev.spec_loops()) ==> !next.spec_active()
                    && next.spec_current_interval() == prev.spec_current_interval()
                    && next.spec_countdown() == 0
                &&& next.spec_lerped().members() == next.spec_lerped_members()
                &&& next.spec_lerped().dir() == next.spec_direction()
            },
    {
        if !self.active {
            return false;
        }
        let updated = if self.frame_of_current_interval == 0 {
            if self.current_interval >= self.intervals.len() - 1 {
                if self.loops {
                    self.current_interval = 0;
                    self.frame_of_current_interval = self.intervals[0];
                } else {
                    self.active = false;
                }
                true
            } else {
                self.current_interval = self.current_interval + 1;
                let hold = self.intervals[self.current_interval];
                self.frame_of_current_interval = if hold > 0 {
                    hold - 1
                } else {
                    0
                };
                false
            }
        } else {
            self.frame_of_current_interval = self.frame_of_current_interval - 1;
            false
        };
        let new_lerped = self.lerped_hitboxes();
        self.lerped = new_lerped;
        updated
    }

    /// Whether the animation is still running.
    pub fn active(&self) -> (r: bool)
        ensures
            r == self.spec_active(),
    {
        self.active
    }

    /// The index of the current keyframe.
    pub fn current_interval(&self) -> (r: usize)
        ensures
            r as int == self.spec_current_interval(),
    {
        self.current_interval
    }

    /// The remaining ticks within the current keyframe's hold duration.
    pub fn frame_of_current_interval(&self) -> (r: usize)
        ensures
            r as int == self.spec_countdown(),
    {
        self.frame_of_current_interval
    }

    /// The facing the animation currently plays in.
    pub fn direction(&self) -> (d: Direction)
        ensures
            d == self.spec_direction(),
    {
        self.direction
    }

    /// The cached interpolated compound shape, as recomputed by the
    /// most recent tick.
    pub fn lerped(&self) -> (f: &HitboxFrame)
        ensures
            *f == self.spec_lerped(),
    {
        &self.lerped
    }
}

} // verus!
