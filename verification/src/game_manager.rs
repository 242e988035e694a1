//! The simulation loop: a PreStart/Running state machine over the world,
//! the shared time resource, and the frame-pacing rule.
//!
//! One frame runs in this order: the host resets the time anchor, applies
//! the update system over the world, reads the elapsed split, and hands it
//! to `finish_iteration`, which returns how long to sleep — the remainder
//! of the target frame budget, clamped to zero on a slow frame — counts the
//! frame, and leaves `Running` exactly when the count reaches the
//! threshold. Sleeping itself blocks the calling thread and is the host's
//! step; every decision around it is made and proved here.

use vstd::prelude::*;

use crate::component::{Transform, Velocity};
use crate::quaternion::Quaternion;
use crate::time::Time;
use crate::vector::Vector3;
use crate::world::World;

verus! {

/// One frame at 60 Hz, in nanoseconds: the fixed target frame duration.
pub const TARGET_FRAME_NANOS: u64 = 16_666_666;

/// Completed iterations after which a run leaves `Running`.
pub const DEFAULT_ITERATION_THRESHOLD: u64 = 60;

/// The loop's lifecycle states.
#[derive(Clone, Copy, Debug, PartialEq, Eq, Structural)]
pub enum GameState {
    PreStart,
    Running,
}

/// The spatial bundle a fresh run seeds the world with: everything at the
/// origin, an all-zero rotation record, zero scale.
pub open spec fn seed_transform() -> Transform {
    Transform {
        position: Vector3 { x: crate::BITS_ZERO, y: crate::BITS_ZERO, z: crate::BITS_ZERO },
        rotation: Quaternion {
            w: crate::BITS_ZERO,
            x: crate::BITS_ZERO,
            y: crate::BITS_ZERO,
            z: crate::BITS_ZERO,
        },
        scale: Vector3 { x: crate::BITS_ZERO, y: crate::BITS_ZERO, z: crate::BITS_ZERO },
    }
}

/// The seeded velocity: one unit per second on each axis.
pub open spec fn seed_velocity() -> Velocity {
    Velocity { dx: crate::BITS_ONE, dy: crate::BITS_ONE, dz: crate::BITS_ONE }
}

/// Nanoseconds to sleep after a frame that took `elapsed` of a `target`
/// budget: the remainder, clamped to zero when the frame ran over.
pub open spec fn sleep_budget(target: int, elapsed: int) -> int {
    if elapsed >= target {
        0
    } else {
        target - elapsed
    }
}

/// Owner of the world, the time resource and the loop state.
pub struct GameManager {
    pub started: bool,
    pub state: GameState,
    pub iterations: u64,
    pub threshold: u64,
    pub target_nanos: u64,
    pub time: Time,
    pub world: World,
}

/// The loop-control part of one completed frame: the iteration count goes
/// up by one, and the state falls back to `PreStart` exactly when the count
/// reaches the threshold. The elapsed time of the frame plays no part.
pub open spec fn advance(s: GameManager) -> GameManager {
    GameManager {
        iterations: (s.iterations + 1) as u64,
        state: if s.iterations + 1 == s.threshold {
            GameState::PreStart
        } else {
            s.state
        },
        ..s
    }
}

/// The loop control after `n` completed frames.
pub open spec fn iterate(s: GameManager, n: nat) -> GameManager
    decreases n,
{
    if n == 0 {
        s
    } else {
        advance(iterate(s, (n - 1) as nat))
    }
}

impl GameManager {
    /// A manager over the given world, in `PreStart`, not yet started, with
    /// the given iteration threshold and target frame duration.
    pub fn with_config(world: World, threshold: u64, target_nanos: u64) -> (gm: GameManager)
        requires
            world.wf(),
        ensures
            gm.world == world,
            !gm.started,
            gm.state is PreStart,
            gm.iterations == 0,
            gm.threshold == threshold,
            gm.target_nanos == target_nanos,
    {
        GameManager {
            started: false,
            state: GameState::PreStart,
            iterations: 0,
            threshold,
            target_nanos,
            time: Time::new(),
            world,
        }
    }

    /// A manager with the fixed configuration the kernel runs under: a
    /// 60 Hz frame budget and a threshold of 60 iterations.
    pub fn new(world: World) -> (gm: GameManager)
        requires
            world.wf(),
        ensures
            gm.world == world,
            !gm.started,
            gm.state is PreStart,
            gm.iterations == 0,
            gm.threshold == DEFAULT_ITERATION_THRESHOLD,
            gm.target_nanos == TARGET_FRAME_NANOS,
    {
        GameManager::with_config(world, DEFAULT_ITERATION_THRESHOLD, TARGET_FRAME_NANOS)
    }

    /// One-time setup: marks the manager started, seeds one entity with the
    /// origin transform and a unit velocity, and anchors the time resource.
    pub fn startup(&mut self)
        requires
            old(self).world.wf(),
        ensures
            final(self).started,
            final(self).world.wf(),
            final(self).world.transforms_view() == old(self).world.transforms_view().push(
                Some(seed_transform()),
            ),
            final(self).world.velocities_view() == old(self).world.velocities_view().push(
                Some(seed_velocity()),
            ),
            final(self).state == old(self).state,
            final(self).iterations == old(self).iterations,
            final(self).threshold == old(self).threshold,
            final(self).target_nanos == old(self).target_nanos,
    {
        self.started = true;
        let t = Transform {
            position: Vector3 { x: crate::BITS_ZERO, y: crate::BITS_ZERO, z: crate::BITS_ZERO },
            rotation: Quaternion {
                w: crate::BITS_ZERO,
                x: crate::BITS_ZERO,
                y: crate::BITS_ZERO,
                z: crate::BITS_ZERO,
            },
            scale: Vector3 { x: crate::BITS_ZERO, y: crate::BITS_ZERO, z: crate::BITS_ZERO },
        };
        let v = Velocity { dx: crate::BITS_ONE, dy: crate::BITS_ONE, dz: crate::BITS_ONE };
        let _e = self.world.insert(t, v);
        self.time = Time::new();
    }

    /// Marks the loop inactive and gives the manager up; nothing holds of
    /// it afterwards.
    pub fn shutdown(self) {
        let mut gm = self;
        gm.started = false;
    }

    /// Enters `Running` with a fresh iteration count: the start of a run.
    pub fn begin_run(&mut self)
        ensures
            final(self).state is Running,
            final(self).iterations == 0,
            final(self).started == old(self).started,
            final(self).threshold == old(self).threshold,
            final(self).target_nanos == old(self).target_nanos,
            final(self).world == old(self).world,
            final(self).time == old(self).time,
    {
        self.state = GameState::Running;
        self.iterations = 0;
    }

    /// Whether the loop runs another iteration: only in `Running`.
    pub fn should_continue(&self) -> (r: bool)
        ensures
            r <==> self.state is Running,
    {
        self.state == GameState::Running
    }

    /// Closes one frame that took `elapsed_nanos` of processing: returns
    /// the nanoseconds to sleep — the remainder of the target budget,
    /// clamped to zero on a slow frame, never an underflow — and advances
    /// the loop control; the world and the time resource are untouched.
    pub fn finish_iteration(&mut self, elapsed_nanos: u128) -> (sleep_nanos: u64)
        requires
            old(self).state is Running,
            old(self).iterations < old(self).threshold,
        ensures
            *final(self) == advance(*old(self)),
            sleep_nanos == sleep_budget(old(self).target_nanos as int, elapsed_nanos as int),
            sleep_nanos <= old(self).target_nanos,
            final(self).iterations == old(self).iterations + 1,
            final(self).state is Running <==> old(self).iterations + 1 < old(self).threshold,
            final(self).world == old(self).world,
            final(self).time == old(self).time,
    {
        let sleep_nanos: u64 = if elapsed_nanos >= self.target_nanos as u128 {
            0
        } else {
            self.target_nanos - (elapsed_nanos as u64)
        };
        self.iterations = self.iterations + 1;
        if self.iterations == self.threshold {
            self.state = GameState::PreStart;
        }
        sleep_nanos
    }

    /// The whole run cycle with the pacing sleep and the update work taken
    /// out: enters `Running`, closes one frame after another as if each had
    /// taken `elapsed_nanos` of processing, and returns once the state has
    /// fallen back to `PreStart` — after exactly `threshold` frames,
    /// whatever `elapsed_nanos` is. This is the loop's termination logic,
    /// runnable and proved without real time delays.
    pub fn run_unpaced(&mut self, elapsed_nanos: u128) -> (frames: u64)
        requires
            0 < old(self).threshold,
        ensures
            frames == old(self).threshold,
            final(self).state is PreStart,
            final(self).iterations == old(self).threshold,
            final(self).started == old(self).started,
            final(self).threshold == old(self).threshold,
            final(self).target_nanos == old(self).target_nanos,
            final(self).world == old(self).world,
            final(self).time == old(self).time,
    {
        self.begin_run();
        let mut frames: u64 = 0;
        while self.state == GameState::Running
            invariant
                frames == self.iterations,
                frames <= self.threshold,
                self.state is Running <==> frames < self.threshold,
                self.started == old(self).started,
                self.threshold == old(self).threshold,
                self.target_nanos == old(self).target_nanos,
                self.world == old(self).world,
                self.time == old(self).time,
            decreases self.threshold - frames,
        {
            let _sleep_nanos = self.finish_iteration(elapsed_nanos);
            frames = frames + 1;
        }
        frames
    }
}

/// Loop termination law: a run started in `Running` with a fresh count and
/// a positive threshold performs exactly `threshold` frames — before each
/// of the first `threshold` frames it is still `Running`, and closing the
/// last one leaves `Running` — whatever each frame's processing time was,
/// since `advance` takes no elapsed time at all.
pub proof fn lemma_run_exact_iterations(s: GameManager, k: nat)
    requires
        s.state is Running,
        s.iterations == 0,
        0 < s.threshold,
        k <= s.threshold,
    ensures
        iterate(s, k).iterations == k,
        iterate(s, k).threshold == s.threshold,
        k < s.threshold ==> iterate(s, k).state is Running,
        k == s.threshold ==> iterate(s, k).state is PreStart,
    decreases k,
{
    if k > 0 {
        lemma_run_exact_iterations(s, (k - 1) as nat);
    }
}

/// Frame-pacing law: the sleep budget is never negative; a frame that ran
/// at or over the target budget sleeps exactly zero, and a faster frame
/// sleeps exactly the remainder.
pub proof fn lemma_pacing_never_negative(target: int, elapsed: int)
    requires
        0 <= target,
        0 <= elapsed,
    ensures
        sleep_budget(target, elapsed) >= 0,
        elapsed >= target ==> sleep_budget(target, elapsed) == 0,
        elapsed < target ==> sleep_budget(target, elapsed) == target - elapsed,
{
}

} // verus!
