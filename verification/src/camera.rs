//! A free-look camera over exact fixed-point state.
//!
//! Positions and direction vectors are held in micro-units (one world unit
//! is 1_000_000), angles in millidegrees, speed in milli-units per second
//! and frame times in milliseconds, so every update is exact integer
//! arithmetic with a stated result. The trigonometric derivation of the
//! front and right vectors from yaw and pitch is the surrounding shell's
//! job: it hands the derived vectors back through `set_orientation`, and
//! the camera integrates movement along them.

use vstd::prelude::*;

verus! {

/// Micro-units per world unit: the scale of positions and directions.
pub const VEC_SCALE: i64 = 1_000_000;

/// Pitch stays within plus or minus 89 degrees, in millidegrees, to avoid
/// gimbal flip at the poles.
pub const PITCH_LIMIT: i64 = 89_000;

/// Yaw accumulates across a session; it is clamped into this generous
/// range (a billion degrees) so the arithmetic stays exact.
pub const YAW_LIMIT: i64 = 1_000_000_000_000;

/// Positions stay within a billion world units of the origin.
pub const POS_LIMIT: i64 = 1_000_000_000_000_000;

/// Orientation vectors are unit-length up to rounding; their components
/// stay within twice the unit scale.
pub const DIR_LIMIT: i64 = 2_000_000;

/// Pointer counts accepted per look event.
pub const LOOK_DELTA_LIMIT: i64 = 1_000_000_000;

/// Look sensitivity: one pointer count turns a tenth of a degree.
pub const SENSITIVITY_MILLIDEG: i64 = 100;

/// Longest accepted frame step: one hour, in milliseconds.
pub const DELTA_MS_LIMIT: u32 = 3_600_000;

/// Movement speed stays within this bound (milli-units per second).
pub const SPEED_LIMIT: i64 = 1_000_000;

/// Largest displacement one frame step can produce (micro-units).
pub const DISP_LIMIT: i64 = 3_600_000_000_000;

/// Largest per-axis position change one frame step can produce.
pub const STEP_LIMIT: i64 = 7_200_000_000_000;

/// A 3D vector in micro-units.
#[derive(Clone, Copy, PartialEq, Eq, Structural, Debug)]
pub struct Vec3Fixed {
    pub x: i64,
    pub y: i64,
    pub z: i64,
}

/// The pressed/released snapshot of the movement keys for one frame.
#[derive(Clone, Copy, PartialEq, Eq, Structural, Debug)]
pub struct MovementKeys {
    pub forward: bool,
    pub backward: bool,
    pub left: bool,
    pub right: bool,
}

/// The viewpoint: position and orientation state, advanced every frame.
#[derive(Clone, Copy, PartialEq, Eq, Structural, Debug)]
pub struct Camera {
    pub position: Vec3Fixed,
    pub front: Vec3Fixed,
    pub right: Vec3Fixed,
    pub up: Vec3Fixed,
    pub speed: i64,
    pub yaw: i64,
    pub pitch: i64,
}

/// Component-wise bound on a vector.
pub open spec fn in_box(v: Vec3Fixed, lim: i64) -> bool {
    &&& -lim <= v.x <= lim
    &&& -lim <= v.y <= lim
    &&& -lim <= v.z <= lim
}

/// Clamps into a closed interval.
pub open spec fn spec_clamp(x: int, lo: int, hi: int) -> int {
    if x < lo {
        lo
    } else if x > hi {
        hi
    } else {
        x
    }
}

/// A direction component scaled by a non-negative displacement, in
/// micro-units: the product divided by the unit scale, rounding the
/// magnitude toward zero.
pub open spec fn spec_scale(comp: int, disp: int) -> int {
    if comp >= 0 {
        (comp * disp) / (VEC_SCALE as int)
    } else {
        -((-comp * disp) / (VEC_SCALE as int))
    }
}

/// One strafe or walk contribution: the position moved along `dir` by
/// `disp` (or against it), clamped into the position box.
pub open spec fn spec_step(p: Vec3Fixed, dir: Vec3Fixed, disp: int, ahead: bool) -> Vec3Fixed {
    let sx = if ahead {
        spec_scale(dir.x as int, disp)
    } else {
        -spec_scale(dir.x as int, disp)
    };
    let sy = if ahead {
        spec_scale(dir.y as int, disp)
    } else {
        -spec_scale(dir.y as int, disp)
    };
    let sz = if ahead {
        spec_scale(dir.z as int, disp)
    } else {
        -spec_scale(dir.z as int, disp)
    };
    Vec3Fixed {
        x: spec_clamp(p.x + sx, -POS_LIMIT as int, POS_LIMIT as int) as i64,
        y: spec_clamp(p.y + sy, -POS_LIMIT as int, POS_LIMIT as int) as i64,
        z: spec_clamp(p.z + sz, -POS_LIMIT as int, POS_LIMIT as int) as i64,
    }
}

/// What one frame of movement does: each pressed key contributes
/// independently and additively, in the order forward, backward, left,
/// right; forward walks along `front`, strafing moves along `right`.
pub open spec fn spec_move(cam: Camera, keys: MovementKeys, delta_ms: int) -> Camera {
    let disp = cam.speed * delta_ms;
    let p0 = cam.position;
    let p1 = if keys.forward {
        spec_step(p0, cam.front, disp, true)
    } else {
        p0
    };
    let p2 = if keys.backward {
        spec_step(p1, cam.front, disp, false)
    } else {
        p1
    };
    let p3 = if keys.left {
        spec_step(p2, cam.right, disp, false)
    } else {
        p2
    };
    let p4 = if keys.right {
        spec_step(p3, cam.right, disp, true)
    } else {
        p3
    };
    Camera { position: p4, ..cam }
}

/// What one look event does: the scaled horizontal delta turns yaw, the
/// scaled vertical delta turns pitch the other way (so looking up moves
/// the view up), and pitch is clamped to plus or minus 89 degrees.
pub open spec fn spec_look(cam: Camera, dx: int, dy: int) -> Camera {
    Camera {
        yaw: spec_clamp(
            cam.yaw + dx * (SENSITIVITY_MILLIDEG as int),
            -YAW_LIMIT as int,
            YAW_LIMIT as int,
        ) as i64,
        pitch: spec_clamp(
            cam.pitch - dy * (SENSITIVITY_MILLIDEG as int),
            -PITCH_LIMIT as int,
            PITCH_LIMIT as int,
        ) as i64,
        ..cam
    }
}

/// A whole pointer-motion history applied in order.
pub open spec fn spec_look_all(cam: Camera, moves: Seq<(i64, i64)>) -> Camera
    decreases moves.len(),
{
    if moves.len() == 0 {
        cam
    } else {
        spec_look(spec_look_all(cam, moves.drop_last()), moves.last().0 as int, moves.last().1 as int)
    }
}

impl Camera {
    /// Bounds under which every update stays exact.
    pub open spec fn wf(&self) -> bool {
        &&& -PITCH_LIMIT <= self.pitch <= PITCH_LIMIT
        &&& -YAW_LIMIT <= self.yaw <= YAW_LIMIT
        &&& in_box(self.position, POS_LIMIT)
        &&& in_box(self.front, DIR_LIMIT)
        &&& in_box(self.right, DIR_LIMIT)
        &&& in_box(self.up, DIR_LIMIT)
        &&& 0 < self.speed <= SPEED_LIMIT
    }

    /// Advances the position by one frame of movement: each pressed key
    /// moves the position along (or against) the current front or right
    /// vector by `speed * delta_ms` micro-units, independently and
    /// additively.
    pub fn process_input(&mut self, keys: MovementKeys, delta_ms: u32)
        requires
            old(self).wf(),
            delta_ms <= DELTA_MS_LIMIT,
        ensures
            final(self).wf(),
            *final(self) == spec_move(*old(self), keys, delta_ms as int),
    {
        proof {
            use_mul_bound(self.speed as int, SPEED_LIMIT as int, delta_ms as int, DELTA_MS_LIMIT as int);
        }
        let disp: i64 = self.speed * (delta_ms as i64);
        if keys.forward {
            let front = self.front;
            self.position = step(self.position, front, disp, true);
        }
        if keys.backward {
            let front = self.front;
            self.position = step(self.position, front, disp, false);
        }
        if keys.left {
            let right = self.right;
            self.position = step(self.position, right, disp, false);
        }
        if keys.right {
            let right = self.right;
            self.position = step(self.position, right, disp, true);
        }
    }

    /// Applies one pointer-motion event, in whole pointer counts: a tenth
    /// of a degree per count, vertical axis inverted, pitch clamped.
    pub fn mouse_input(&mut self, dx: i64, dy: i64)
        requires
            old(self).wf(),
            -LOOK_DELTA_LIMIT <= dx <= LOOK_DELTA_LIMIT,
            -LOOK_DELTA_LIMIT <= dy <= LOOK_DELTA_LIMIT,
        ensures
            final(self).wf(),
            *final(self) == spec_look(*old(self), dx as int, dy as int),
            -PITCH_LIMIT <= final(self).pitch <= PITCH_LIMIT,
    {
        let yaw_raw: i64 = self.yaw + dx * SENSITIVITY_MILLIDEG;
        self.yaw = clamp_i64(yaw_raw, -YAW_LIMIT, YAW_LIMIT);
        let pitch_raw: i64 = self.pitch - dy * SENSITIVITY_MILLIDEG;
        self.pitch = clamp_i64(pitch_raw, -PITCH_LIMIT, PITCH_LIMIT);
    }

    /// Takes the front and right unit vectors the shell derived from yaw
    /// and pitch (spherical-to-Cartesian, then normalized, with right the
    /// normalized cross product of front and the fixed up vector).
    pub fn set_orientation(&mut self, front: Vec3Fixed, right: Vec3Fixed)
        requires
            old(self).wf(),
            in_box(front, DIR_LIMIT),
            in_box(right, DIR_LIMIT),
        ensures
            final(self).wf(),
            *final(self) == (Camera { front, right, ..*old(self) }),
    {
        self.front = front;
        self.right = right;
    }
}

impl Default for Camera {
    /// The documented initial state: at the origin, looking down the
    /// negative z axis (yaw -90 degrees, pitch 0), up the positive y axis,
    /// moving 2.5 units per second.
    fn default() -> (c: Camera)
        ensures
            c == spec_default_camera(),
            c.wf(),
    {
        Camera {
            position: Vec3Fixed { x: 0, y: 0, z: 0 },
            front: Vec3Fixed { x: 0, y: 0, z: -1_000_000 },
            right: Vec3Fixed { x: 1_000_000, y: 0, z: 0 },
            up: Vec3Fixed { x: 0, y: 1_000_000, z: 0 },
            speed: 2_500,
            yaw: -90_000,
            pitch: 0,
        }
    }
}

/// The camera's documented initial state.
pub open spec fn spec_default_camera() -> Camera {
    Camera {
        position: Vec3Fixed { x: 0, y: 0, z: 0 },
        front: Vec3Fixed { x: 0, y: 0, z: -1_000_000i64 },
        right: Vec3Fixed { x: 1_000_000, y: 0, z: 0 },
        up: Vec3Fixed { x: 0, y: 1_000_000, z: 0 },
        speed: 2_500,
        yaw: -90_000i64,
        pitch: 0,
    }
}

/// Law: whatever pointer motion arrives — any deltas, any number of
/// events — the pitch never leaves [-89, +89] degrees, and the camera
/// stays well-formed.
pub proof fn lemma_pitch_always_clamped(cam: Camera, moves: Seq<(i64, i64)>)
    requires
        cam.wf(),
    ensures
        spec_look_all(cam, moves).wf(),
        -PITCH_LIMIT <= spec_look_all(cam, moves).pitch <= PITCH_LIMIT,
    decreases moves.len(),
{
    if moves.len() > 0 {
        lemma_pitch_always_clamped(cam, moves.drop_last());
    }
}

/// Clamps into a closed interval.
fn clamp_i64(x: i64, lo: i64, hi: i64) -> (r: i64)
    requires
        lo <= hi,
    ensures
        r == spec_clamp(x as int, lo as int, hi as int),
{
    if x < lo {
        lo
    } else if x > hi {
        hi
    } else {
        x
    }
}

/// A product of values within the given non-negative bounds stays within
/// the product of the bounds.
proof fn use_mul_bound(x: int, xb: int, y: int, yb: int)
    requires
        0 <= x <= xb,
        0 <= y <= yb,
    ensures
        0 <= x * y <= xb * yb,
{
    vstd::arithmetic::mul::lemma_mul_upper_bound(x, xb, y, yb);
    vstd::arithmetic::mul::lemma_mul_nonnegative(x, y);
}

/// Scales one direction component by a displacement, exactly as
/// `spec_scale` states, with the result within the step bound.
fn scale_component(comp: i64, disp: i64) -> (r: i64)
    requires
        -DIR_LIMIT <= comp <= DIR_LIMIT,
        0 <= disp <= DISP_LIMIT,
    ensures
        r == spec_scale(comp as int, disp as int),
        -STEP_LIMIT <= r <= STEP_LIMIT,
{
    let neg = comp < 0;
    let mag: i64 = if neg {
        -comp
    } else {
        comp
    };
    proof {
        use_mul_bound(mag as int, DIR_LIMIT as int, disp as int, DISP_LIMIT as int);
        vstd::arithmetic::div_mod::lemma_div_is_ordered(
            (mag as int) * (disp as int),
            (DIR_LIMIT as int) * (DISP_LIMIT as int),
            VEC_SCALE as int,
        );
    }
    let prod: u64 = (mag as u64) * (disp as u64);
    let q: u64 = prod / 1_000_000u64;
    let qi: i64 = q as i64;
    if neg {
        -qi
    } else {
        qi
    }
}

/// Moves a position along (or against) a direction by a displacement,
/// exactly as `spec_step` states.
fn step(p: Vec3Fixed, dir: Vec3Fixed, disp: i64, ahead: bool) -> (r: Vec3Fixed)
    requires
        in_box(p, POS_LIMIT),
        in_box(dir, DIR_LIMIT),
        0 <= disp <= DISP_LIMIT,
    ensures
        r == spec_step(p, dir, disp as int, ahead),
        in_box(r, POS_LIMIT),
{
    let sx = scale_component(dir.x, disp);
    let sy = scale_component(dir.y, disp);
    let sz = scale_component(dir.z, disp);
    let (ax, ay, az) = if ahead {
        (sx, sy, sz)
    } else {
        (-sx, -sy, -sz)
    };
    Vec3Fixed {
        x: clamp_i64(p.x + ax, -POS_LIMIT, POS_LIMIT),
        y: clamp_i64(p.y + ay, -POS_LIMIT, POS_LIMIT),
        z: clamp_i64(p.z + az, -POS_LIMIT, POS_LIMIT),
    }
}

} // verus!
