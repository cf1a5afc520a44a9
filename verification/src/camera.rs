//! The first-person camera: pose, projection parameters, the controller
//! that turns input events into motion, and the uniform record the GPU reads.
use vstd::prelude::*;
use crate::input::Direction;
use crate::input::Key;
use crate::input::KeyState;
use crate::input::ScrollDelta;
use crate::scalar::Scalar;
use crate::scalar::ONE_BITS;
use crate::scalar::lemma_neg_involution;
use crate::wire::matrix_words;
use crate::wire::cast_words;
use crate::wire::native_bytes;
use crate::wire::push_matrix;
use crate::wire::push_scalars;
use crate::wire::scalar_words;

verus! {

/// Bit pattern of the steepest pitch the camera may take, a little short of
/// a quarter turn: the nearest binary32 to pi/2, less `0.0001`.
pub const SAFE_FRAC_PI_2_BITS: u32 = 0x3fc9_0c94;

/// The pitch limit, looking up.
pub open spec fn spec_pitch_limit() -> Scalar {
    Scalar { bits: SAFE_FRAC_PI_2_BITS }
}

/// The pitch limit, looking up.
#[verifier::when_used_as_spec(spec_pitch_limit)]
pub fn pitch_limit() -> (r: Scalar)
    ensures
        r == spec_pitch_limit(),
{
    Scalar { bits: SAFE_FRAC_PI_2_BITS }
}

pub open spec fn spec_clamp_pitch(pitch: Scalar) -> Scalar {
    if pitch.spec_lt(spec_pitch_limit().spec_neg()) {
        spec_pitch_limit().spec_neg()
    } else if spec_pitch_limit().spec_lt(pitch) {
        spec_pitch_limit()
    } else {
        pitch
    }
}

/// `pitch`, brought back to the nearer limit where it lies beyond one. A
/// NaN lies beyond neither limit and is returned as it is.
#[verifier::when_used_as_spec(spec_clamp_pitch)]
pub fn clamp_pitch(pitch: Scalar) -> (r: Scalar)
    ensures
        r == spec_clamp_pitch(pitch),
{
    let limit = pitch_limit();
    if pitch.lt(limit.neg()) {
        limit.neg()
    } else if limit.lt(pitch) {
        limit
    } else {
        pitch
    }
}

/// Whether `pitch` lies between the two limits, ends included.
pub open spec fn pitch_in_range(pitch: Scalar) -> bool {
    spec_pitch_limit().spec_neg().spec_le(pitch) && pitch.spec_le(spec_pitch_limit())
}

/// Where the camera is and where it looks: a point in world space, and yaw
/// and pitch in radians.
#[derive(Clone, Copy, Debug)]
pub struct Camera {
    pub position: [Scalar; 3],
    pub yaw: Scalar,
    pub pitch: Scalar,
}

impl Camera {
    /// A camera with the given pose. Nothing is checked: a pitch beyond the
    /// limits is kept until the controller next updates the camera.
    pub fn new(position: [Scalar; 3], yaw: Scalar, pitch: Scalar) -> (r: Camera)
        ensures
            r.position == position,
            r.yaw == yaw,
            r.pitch == pitch,
    {
        Camera { position, yaw, pitch }
    }

    /// `self` with the pitch brought within the limits.
    pub open spec fn with_clamped_pitch(self) -> Camera {
        Camera { pitch: spec_clamp_pitch(self.pitch), ..self }
    }

    pub open spec fn spec_inverse_pose(self) -> Camera {
        Camera {
            position: [
                self.position[0].spec_neg(),
                self.position[1].spec_neg(),
                self.position[2].spec_neg(),
            ],
            yaw: self.yaw.spec_neg(),
            pitch: self.pitch.spec_neg(),
        }
    }

    /// The pose from which the inverse view transform is built: every
    /// coordinate of the position negated, and both angles negated. The
    /// transform built from it stands in for the inverse of the view matrix;
    /// it is not the algebraic inverse.
    #[verifier::when_used_as_spec(spec_inverse_pose)]
    pub fn inverse_pose(self) -> (r: Camera)
        ensures
            r == self.spec_inverse_pose(),
    {
        Camera {
            position: [self.position[0].neg(), self.position[1].neg(), self.position[2].neg()],
            yaw: self.yaw.neg(),
            pitch: self.pitch.neg(),
        }
    }
}

/// The inverse pose of the inverse pose is the pose itself.
pub proof fn lemma_inverse_pose_involution(c: Camera)
    ensures
        c.spec_inverse_pose().spec_inverse_pose().position@ == c.position@,
        c.spec_inverse_pose().spec_inverse_pose().yaw == c.yaw,
        c.spec_inverse_pose().spec_inverse_pose().pitch == c.pitch,
{
    lemma_neg_involution(c.position[0]);
    lemma_neg_involution(c.position[1]);
    lemma_neg_involution(c.position[2]);
    lemma_neg_involution(c.yaw);
    lemma_neg_involution(c.pitch);
    assert(c.spec_inverse_pose().spec_inverse_pose().position@ =~= c.position@);
}

/// A pitch that is not a NaN is within the limits once it has been clamped.
pub proof fn lemma_clamp_pitch_in_range(pitch: Scalar)
    requires
        !pitch.spec_is_nan(),
    ensures
        pitch_in_range(spec_clamp_pitch(pitch)),
{
}

/// Clamping changes nothing within the limits, so clamping twice is
/// clamping once.
pub proof fn lemma_clamp_pitch_idempotent(pitch: Scalar)
    ensures
        pitch_in_range(pitch) ==> spec_clamp_pitch(pitch) == pitch,
        spec_clamp_pitch(spec_clamp_pitch(pitch)) == spec_clamp_pitch(pitch),
{
}

/// Viewport size in pixels, vertical field of view in radians, and the
/// distances of the near and far clip planes.
#[derive(Clone, Copy, PartialEq, Eq, Structural, Debug)]
pub struct Projection {
    pub width: u32,
    pub height: u32,
    pub fovy: Scalar,
    pub znear: Scalar,
    pub zfar: Scalar,
}

impl Projection {
    pub fn new(width: u32, height: u32, fovy: Scalar, znear: Scalar, zfar: Scalar) -> (r:
        Projection)
        ensures
            r == (Projection { width, height, fovy, znear, zfar }),
    {
        Projection { width, height, fovy, znear, zfar }
    }

    /// `self` with the viewport replaced.
    pub open spec fn resized(self, width: u32, height: u32) -> Projection {
        Projection { width, height, ..self }
    }

    /// Takes a new viewport size. Nothing else changes and nothing is
    /// recomputed: the aspect ratio is formed from the two numbers each time
    /// a projection matrix is asked for.
    pub fn resize(&mut self, width: u32, height: u32)
        ensures
            *final(self) == old(self).resized(width, height),
    {
        self.width = width;
        self.height = height;
    }

    pub open spec fn spec_is_valid(self) -> bool {
        &&& self.width > 0
        &&& self.height > 0
        &&& Scalar::from_bits(0).spec_lt(self.znear)
        &&& self.znear.spec_lt(self.zfar)
    }

    /// Whether a projection matrix can be asked for: both sides of the
    /// viewport are at least one pixel, and `0 < znear < zfar`.
    #[verifier::when_used_as_spec(spec_is_valid)]
    pub fn is_valid(self) -> (r: bool)
        ensures
            r == self.spec_is_valid(),
    {
        self.width > 0 && self.height > 0 && Scalar::from_bits(0).lt(self.znear)
            && self.znear.lt(self.zfar)
    }

    /// The scale that takes a unit coordinate to a fraction of the viewport:
    /// the reciprocal of the width, the reciprocal of the height, and `1.0`.
    /// `reciprocal(n)` is to give `1 / n`; it is called on the width, then on
    /// the height.
    pub fn get_uv_to_screen_matrix<R: Fn(u32) -> Scalar>(&self, reciprocal: R) -> (m: Matrix4)
        requires
            call_requires(reciprocal, (self.width,)),
            call_requires(reciprocal, (self.height,)),
        ensures
            call_ensures(reciprocal, (self.width,), m[0][0]),
            call_ensures(reciprocal, (self.height,), m[1][1]),
            m == spec_scale_matrix(m[0][0], m[1][1], Scalar::from_bits(ONE_BITS)),
    {
        let x = reciprocal(self.width);
        let y = reciprocal(self.height);
        scale_matrix(x, y, Scalar::from_bits(ONE_BITS))
    }
}

/// Resizing to the size the viewport already has changes nothing, and
/// resizing twice to one size is resizing once.
pub proof fn lemma_resize_idempotent(p: Projection, width: u32, height: u32)
    ensures
        p.resized(width, height).resized(width, height) == p.resized(width, height),
        p.width == width && p.height == height ==> p.resized(width, height) == p,
        p.resized(width, height).spec_is_valid() == (width > 0 && height > 0 && Scalar::from_bits(
            0,
        ).spec_lt(p.znear) && p.znear.spec_lt(p.zfar)),
{
}

/// The directions that are being held. A direction stays held from the
/// press of one of its keys until the release of one.
#[derive(Clone, Copy, PartialEq, Eq, Structural, Debug)]
pub struct HeldDirections {
    pub forward: bool,
    pub backward: bool,
    pub left: bool,
    pub right: bool,
    pub up: bool,
    pub down: bool,
}

impl HeldDirections {
    /// Nothing held.
    pub open spec fn none() -> HeldDirections {
        HeldDirections {
            forward: false,
            backward: false,
            left: false,
            right: false,
            up: false,
            down: false,
        }
    }

    pub open spec fn spec_is_held(self, direction: Direction) -> bool {
        match direction {
            Direction::Forward => self.forward,
            Direction::Backward => self.backward,
            Direction::Left => self.left,
            Direction::Right => self.right,
            Direction::Up => self.up,
            Direction::Down => self.down,
        }
    }

    /// Whether `direction` is being held.
    #[verifier::when_used_as_spec(spec_is_held)]
    pub fn is_held(self, direction: Direction) -> (r: bool)
        ensures
            r == self.spec_is_held(direction),
    {
        match direction {
            Direction::Forward => self.forward,
            Direction::Backward => self.backward,
            Direction::Left => self.left,
            Direction::Right => self.right,
            Direction::Up => self.up,
            Direction::Down => self.down,
        }
    }

    /// `self` with `direction` held or let go, and the other five as they
    /// were.
    pub open spec fn with(self, direction: Direction, held: bool) -> HeldDirections {
        match direction {
            Direction::Forward => HeldDirections { forward: held, ..self },
            Direction::Backward => HeldDirections { backward: held, ..self },
            Direction::Left => HeldDirections { left: held, ..self },
            Direction::Right => HeldDirections { right: held, ..self },
            Direction::Up => HeldDirections { up: held, ..self },
            Direction::Down => HeldDirections { down: held, ..self },
        }
    }
}

/// What the pointer and the wheel delivered since the last update. An
/// update uses these once and clears them.
#[derive(Clone, Copy, PartialEq, Eq, Structural, Debug)]
pub struct Impulse {
    pub rotate_horizontal: Scalar,
    pub rotate_vertical: Scalar,
    pub scroll: Scalar,
}

impl Impulse {
    /// No rotation and no scroll: three times `0.0`.
    pub open spec fn zero() -> Impulse {
        Impulse {
            rotate_horizontal: Scalar::from_bits(0),
            rotate_vertical: Scalar::from_bits(0),
            scroll: Scalar::from_bits(0),
        }
    }
}

impl ScrollDelta {
    pub open spec fn spec_normalized(self) -> Scalar {
        match self {
            ScrollDelta::Line(lines) => lines.spec_neg().spec_halved(),
            ScrollDelta::Pixel(pixels) => pixels.spec_neg(),
        }
    }

    /// The scroll amount the controller stores: a line count negated and
    /// halved, a pixel count negated.
    #[verifier::when_used_as_spec(spec_normalized)]
    pub fn normalized(self) -> (r: Scalar)
        ensures
            r == self.spec_normalized(),
    {
        match self {
            ScrollDelta::Line(lines) => lines.neg().halved(),
            ScrollDelta::Pixel(pixels) => pixels.neg(),
        }
    }
}

/// Collects input events between frames and hands them to the camera once
/// per frame.
///
/// The state falls in two parts with different reset rules. `held` is set
/// by key events and lasts until the matching release. `impulse` is
/// overwritten by pointer and wheel events and cleared by every update.
#[derive(Clone, Copy, PartialEq, Eq, Structural, Debug)]
pub struct CameraController {
    pub held: HeldDirections,
    pub impulse: Impulse,
    pub speed: Scalar,
    pub sensitivity: Scalar,
}

impl CameraController {
    /// A controller at rest: nothing held, no impulse.
    pub fn new(speed: Scalar, sensitivity: Scalar) -> (r: CameraController)
        ensures
            r == (CameraController {
                held: HeldDirections::none(),
                impulse: Impulse::zero(),
                speed,
                sensitivity,
            }),
    {
        CameraController {
            held: HeldDirections {
                forward: false,
                backward: false,
                left: false,
                right: false,
                up: false,
                down: false,
            },
            impulse: Impulse {
                rotate_horizontal: Scalar::from_bits(0),
                rotate_vertical: Scalar::from_bits(0),
                scroll: Scalar::from_bits(0),
            },
            speed,
            sensitivity,
        }
    }

    pub open spec fn spec_amount(self, direction: Direction) -> Scalar {
        if self.held.spec_is_held(direction) {
            Scalar::from_bits(ONE_BITS)
        } else {
            Scalar::from_bits(0)
        }
    }

    /// How hard the camera is pushed in `direction`: `1.0` while it is held,
    /// `0.0` otherwise.
    #[verifier::when_used_as_spec(spec_amount)]
    pub fn amount(self, direction: Direction) -> (r: Scalar)
        ensures
            r == self.spec_amount(direction),
    {
        if self.held.is_held(direction) {
            Scalar::from_bits(ONE_BITS)
        } else {
            Scalar::from_bits(0)
        }
    }

    /// The controller after a key event.
    pub open spec fn after_key(self, key: Key, state: KeyState) -> CameraController {
        match key.spec_direction() {
            Some(direction) => CameraController {
                held: self.held.with(direction, state.spec_is_pressed()),
                ..self
            },
            None => self,
        }
    }

    /// Takes a key event. A bound key holds its direction on press and lets
    /// it go on release; the result says whether the key was bound. Any
    /// other key changes nothing.
    pub fn process_keyboard(&mut self, key: Key, state: KeyState) -> (consumed: bool)
        ensures
            consumed == key.spec_direction().is_some(),
            *final(self) == old(self).after_key(key, state),
    {
        let held = state.is_pressed();
        match key.direction() {
            Some(Direction::Forward) => {
                self.held.forward = held;
                true
            },
            Some(Direction::Backward) => {
                self.held.backward = held;
                true
            },
            Some(Direction::Left) => {
                self.held.left = held;
                true
            },
            Some(Direction::Right) => {
                self.held.right = held;
                true
            },
            Some(Direction::Up) => {
                self.held.up = held;
                true
            },
            Some(Direction::Down) => {
                self.held.down = held;
                true
            },
            None => false,
        }
    }

    /// The controller after a pointer event.
    pub open spec fn after_mouse(self, mouse_dx: Scalar, mouse_dy: Scalar) -> CameraController {
        CameraController {
            impulse: Impulse {
                rotate_horizontal: mouse_dx,
                rotate_vertical: mouse_dy,
                ..self.impulse
            },
            ..self
        }
    }

    /// Takes a pointer movement. The new deltas replace the stored ones;
    /// nothing is added up between two updates.
    pub fn process_mouse(&mut self, mouse_dx: Scalar, mouse_dy: Scalar)
        ensures
            *final(self) == old(self).after_mouse(mouse_dx, mouse_dy),
    {
        self.impulse.rotate_horizontal = mouse_dx;
        self.impulse.rotate_vertical = mouse_dy;
    }

    /// The controller after a scroll event.
    pub open spec fn after_scroll(self, delta: ScrollDelta) -> CameraController {
        CameraController {
            impulse: Impulse { scroll: delta.spec_normalized(), ..self.impulse },
            ..self
        }
    }

    /// Takes a scroll event. Its normalized amount replaces the stored one.
    pub fn process_scroll(&mut self, delta: &ScrollDelta)
        ensures
            *final(self) == old(self).after_scroll(*delta),
    {
        self.impulse.scroll = delta.normalized();
    }

    /// The controller after an update: the impulse is spent, everything else
    /// stays.
    pub open spec fn after_update(self) -> CameraController {
        CameraController { impulse: Impulse::zero(), ..self }
    }

    /// The controller after `n` updates with no event between them.
    pub open spec fn after_updates(self, n: nat) -> CameraController
        decreases n,
    {
        if n == 0 {
            self
        } else {
            self.after_update().after_updates((n - 1) as nat)
        }
    }

    /// Ends a frame. `integrated` is the pose the camera reaches when this
    /// controller's motion is applied to it over the frame's duration; the
    /// caller works it out from the amounts, the impulse, the speed and the
    /// sensitivity as they stand before this call. The camera takes that
    /// pose with the pitch clamped to the limits, and the impulse is
    /// cleared, so that the next frame sees no rotation and no scroll unless
    /// new events arrive. Held directions stay held.
    pub fn update_camera(&mut self, camera: &mut Camera, integrated: Camera)
        ensures
            *final(self) == old(self).after_update(),
            *final(camera) == integrated.with_clamped_pitch(),
            !integrated.pitch.spec_is_nan() ==> pitch_in_range(final(camera).pitch),
    {
        camera.position = integrated.position;
        camera.yaw = integrated.yaw;
        camera.pitch = clamp_pitch(integrated.pitch);
        self.impulse.scroll = Scalar::from_bits(0);
        self.impulse.rotate_horizontal = Scalar::from_bits(0);
        self.impulse.rotate_vertical = Scalar::from_bits(0);
        proof {
            if !integrated.pitch.spec_is_nan() {
                lemma_clamp_pitch_in_range(integrated.pitch);
            }
        }
    }
}

/// A held direction stays held through any number of updates: pressing a
/// bound key pushes the camera in every frame that follows, until a release.
pub proof fn lemma_held_persists(c: CameraController, key: Key, n: nat)
    ensures
        c.after_updates(n).held == c.held,
        c.after_updates(n).speed == c.speed,
        c.after_updates(n).sensitivity == c.sensitivity,
        key.spec_direction() matches Some(d) ==> c.after_key(key, KeyState::Pressed).after_updates(
            n,
        ).spec_amount(d) == Scalar::from_bits(ONE_BITS),
    decreases n,
{
    if n > 0 {
        lemma_held_persists(c.after_update(), key, (n - 1) as nat);
        lemma_held_persists(c.after_key(key, KeyState::Pressed).after_update(), key, (n - 1) as nat);
    }
}

/// A release lets the direction go at once, whatever was held before, and
/// touches no other direction.
pub proof fn lemma_release_clears(c: CameraController, key: Key, other: Direction)
    ensures
        key.spec_direction() matches Some(d) ==> c.after_key(key, KeyState::Released).spec_amount(d)
            == Scalar::from_bits(0),
        key.spec_direction() != Some(other) ==> c.after_key(key, KeyState::Released).spec_amount(
            other,
        ) == c.spec_amount(other),
        c.after_key(key, KeyState::Released).impulse == c.impulse,
{
}

/// Rotation and scroll are used once: the update that follows a pointer
/// event sees its deltas, and the update after that sees none.
pub proof fn lemma_impulse_one_shot(c: CameraController, mouse_dx: Scalar, mouse_dy: Scalar, n: nat)
    ensures
        c.after_mouse(mouse_dx, mouse_dy).impulse.rotate_horizontal == mouse_dx,
        c.after_mouse(mouse_dx, mouse_dy).impulse.rotate_vertical == mouse_dy,
        c.after_mouse(mouse_dx, mouse_dy).impulse.scroll == c.impulse.scroll,
        c.after_mouse(mouse_dx, mouse_dy).after_update().impulse == Impulse::zero(),
        n > 0 ==> c.after_updates(n).impulse == Impulse::zero(),
    decreases n,
{
    if n > 1 {
        lemma_impulse_one_shot(c.after_update(), mouse_dx, mouse_dy, (n - 1) as nat);
    } else if n == 1 {
        assert(c.after_update().after_updates(0) == c.after_update());
    }
}

/// A 4x4 matrix as four arrays of four scalars. Which of rows and columns
/// the arrays are is for the producer and the shader to agree on; this
/// crate only stores and lays out.
pub type Matrix4 = [[Scalar; 4]; 4];

pub open spec fn spec_identity_matrix() -> Matrix4 {
    [
        [Scalar::from_bits(ONE_BITS), Scalar::from_bits(0), Scalar::from_bits(0), Scalar::from_bits(0)],
        [Scalar::from_bits(0), Scalar::from_bits(ONE_BITS), Scalar::from_bits(0), Scalar::from_bits(0)],
        [Scalar::from_bits(0), Scalar::from_bits(0), Scalar::from_bits(ONE_BITS), Scalar::from_bits(0)],
        [Scalar::from_bits(0), Scalar::from_bits(0), Scalar::from_bits(0), Scalar::from_bits(ONE_BITS)],
    ]
}

/// The matrix with `1.0` on the diagonal and `0.0` elsewhere.
#[verifier::when_used_as_spec(spec_identity_matrix)]
pub fn identity_matrix() -> (m: Matrix4)
    ensures
        m == spec_identity_matrix(),
{
    let o = Scalar::from_bits(0);
    let l = Scalar::from_bits(ONE_BITS);
    [[l, o, o, o], [o, l, o, o], [o, o, l, o], [o, o, o, l]]
}

pub open spec fn spec_scale_matrix(x: Scalar, y: Scalar, z: Scalar) -> Matrix4 {
    [
        [x, Scalar::from_bits(0), Scalar::from_bits(0), Scalar::from_bits(0)],
        [Scalar::from_bits(0), y, Scalar::from_bits(0), Scalar::from_bits(0)],
        [Scalar::from_bits(0), Scalar::from_bits(0), z, Scalar::from_bits(0)],
        [Scalar::from_bits(0), Scalar::from_bits(0), Scalar::from_bits(0), Scalar::from_bits(ONE_BITS)],
    ]
}

/// The matrix that scales the three axes by `x`, `y` and `z`: those three
/// and `1.0` on the diagonal, `0.0` elsewhere.
#[verifier::when_used_as_spec(spec_scale_matrix)]
pub fn scale_matrix(x: Scalar, y: Scalar, z: Scalar) -> (m: Matrix4)
    ensures
        m == spec_scale_matrix(x, y, z),
{
    let o = Scalar::from_bits(0);
    [[x, o, o, o], [o, y, o, o], [o, o, z, o], [o, o, o, Scalar::from_bits(ONE_BITS)]]
}

pub open spec fn spec_homogeneous(point: [Scalar; 3]) -> [Scalar; 4] {
    [point[0], point[1], point[2], Scalar::from_bits(ONE_BITS)]
}

/// The point in homogeneous coordinates: its three coordinates, then `1.0`.
#[verifier::when_used_as_spec(spec_homogeneous)]
pub fn homogeneous(point: [Scalar; 3]) -> (r: [Scalar; 4])
    ensures
        r == spec_homogeneous(point),
{
    [point[0], point[1], point[2], Scalar::from_bits(ONE_BITS)]
}

/// Number of 32-bit words in the uniform record.
pub const UNIFORM_WORDS: usize = 36;

/// The record the shader reads: where the camera is, the transform from
/// world to screen, and the one from screen to world.
#[derive(Clone, Copy, Debug)]
pub struct CameraUniform {
    pub view_position: [Scalar; 4],
    pub world_to_screen: Matrix4,
    pub screen_to_world: Matrix4,
}

impl CameraUniform {
    /// A record with the view position all `0.0` and both transforms the
    /// identity.
    pub fn new() -> (r: CameraUniform)
        ensures
            r.view_position == [
                Scalar::from_bits(0),
                Scalar::from_bits(0),
                Scalar::from_bits(0),
                Scalar::from_bits(0),
            ],
            r.world_to_screen == spec_identity_matrix(),
            r.screen_to_world == spec_identity_matrix(),
    {
        let o = Scalar::from_bits(0);
        CameraUniform {
            view_position: [o, o, o, o],
            world_to_screen: identity_matrix(),
            screen_to_world: identity_matrix(),
        }
    }

    /// Replaces the whole record. The view position is the camera's position
    /// in homogeneous coordinates. `world_to_screen` is to be the projection
    /// matrix times the view matrix of `camera`, and `screen_to_world` the
    /// inverse view transform times the inverse of the projection matrix;
    /// both are stored as given.
    pub fn update_view_proj(
        &mut self,
        camera: &Camera,
        world_to_screen: Matrix4,
        screen_to_world: Matrix4,
    )
        ensures
            final(self).view_position == spec_homogeneous(camera.position),
            final(self).world_to_screen == world_to_screen,
            final(self).screen_to_world == screen_to_world,
    {
        self.view_position = homogeneous(camera.position);
        self.world_to_screen = world_to_screen;
        self.screen_to_world = screen_to_world;
    }

    /// The record as the GPU receives it: 4 words of view position, 16 of
    /// `world_to_screen`, 16 of `screen_to_world`, with nothing between
    /// them.
    pub open spec fn words(self) -> Seq<u32> {
        scalar_words(self.view_position@) + matrix_words(self.world_to_screen) + matrix_words(
            self.screen_to_world,
        )
    }

    /// The 36 words of the record.
    pub fn to_words(&self) -> (w: Vec<u32>)
        ensures
            w@ == self.words(),
            w@.len() == UNIFORM_WORDS,
    {
        let mut w: Vec<u32> = Vec::new();
        push_scalars(&mut w, &self.view_position);
        push_matrix(&mut w, &self.world_to_screen);
        push_matrix(&mut w, &self.screen_to_world);
        proof {
            assert(w@ =~= self.words());
        }
        w
    }

    /// The 144 bytes of the record, ready for upload.
    pub fn to_bytes(&self) -> (bytes: Vec<u8>)
        ensures
            bytes@ == native_bytes(self.words()),
            bytes@.len() == 4 * UNIFORM_WORDS,
    {
        let w = self.to_words();
        cast_words(&w)
    }
}

/// Bit pattern of `5.0`, the height at which the camera starts.
pub const INITIAL_Y_BITS: u32 = 0x40a0_0000;

/// Bit pattern of `10.0`, the depth at which the camera starts.
pub const INITIAL_Z_BITS: u32 = 0x4120_0000;

/// Bit pattern of -90 degrees in radians, the yaw at which the camera
/// starts.
pub const INITIAL_YAW_BITS: u32 = 0xbfc9_0fdb;

/// Bit pattern of -20 degrees in radians, the pitch at which the camera
/// starts.
pub const INITIAL_PITCH_BITS: u32 = 0xbeb2_b8c2;

/// Bit pattern of 45 degrees in radians, the vertical field of view.
pub const INITIAL_FOVY_BITS: u32 = 0x3f49_0fdb;

/// Bit pattern of `0.1`, the distance of the near clip plane.
pub const INITIAL_ZNEAR_BITS: u32 = 0x3dcc_cccd;

/// Bit pattern of `100.0`, the distance of the far clip plane.
pub const INITIAL_ZFAR_BITS: u32 = 0x42c8_0000;

/// Bit pattern of `4.0`, the controller's speed.
pub const INITIAL_SPEED_BITS: u32 = 0x4080_0000;

/// Bit pattern of `0.4`, the controller's sensitivity.
pub const INITIAL_SENSITIVITY_BITS: u32 = 0x3ecc_cccd;

/// Camera, projection, controller and uniform record of one view, and the
/// order in which a frame updates them.
#[derive(Clone, Copy, Debug)]
pub struct RenderCamera {
    pub camera: Camera,
    pub projection: Projection,
    pub controller: CameraController,
    pub uniform: CameraUniform,
}

impl RenderCamera {
    /// The pose every view starts from: at `(0, 5, 10)`, turned -90 degrees,
    /// tilted -20 degrees.
    pub open spec fn initial_camera() -> Camera {
        Camera {
            position: [
                Scalar::from_bits(0),
                Scalar::from_bits(INITIAL_Y_BITS),
                Scalar::from_bits(INITIAL_Z_BITS),
            ],
            yaw: Scalar::from_bits(INITIAL_YAW_BITS),
            pitch: Scalar::from_bits(INITIAL_PITCH_BITS),
        }
    }

    /// The projection every view starts from, over the given viewport: 45
    /// degrees of vertical field of view, clip planes at `0.1` and `100.0`.
    pub open spec fn initial_projection(width: u32, height: u32) -> Projection {
        Projection {
            width,
            height,
            fovy: Scalar::from_bits(INITIAL_FOVY_BITS),
            znear: Scalar::from_bits(INITIAL_ZNEAR_BITS),
            zfar: Scalar::from_bits(INITIAL_ZFAR_BITS),
        }
    }

    /// The controller every view starts from: speed `4.0`, sensitivity
    /// `0.4`, at rest.
    pub open spec fn initial_controller() -> CameraController {
        CameraController {
            held: HeldDirections::none(),
            impulse: Impulse::zero(),
            speed: Scalar::from_bits(INITIAL_SPEED_BITS),
            sensitivity: Scalar::from_bits(INITIAL_SENSITIVITY_BITS),
        }
    }

    /// A view over a viewport of the given size, in its initial state.
    /// `derive` works out the two transforms of the uniform record from a
    /// camera and a projection; it is called once, on the initial ones.
    pub fn new<D: Fn(Camera, Projection) -> (Matrix4, Matrix4)>(
        width: u32,
        height: u32,
        derive: D,
    ) -> (r: RenderCamera)
        requires
            call_requires(
                derive,
                (RenderCamera::initial_camera(), RenderCamera::initial_projection(width, height)),
            ),
        ensures
            r.camera == RenderCamera::initial_camera(),
            r.projection == RenderCamera::initial_projection(width, height),
            r.controller == RenderCamera::initial_controller(),
            r.uniform.view_position == spec_homogeneous(r.camera.position),
            call_ensures(
                derive,
                (r.camera, r.projection),
                (r.uniform.world_to_screen, r.uniform.screen_to_world),
            ),
    {
        let camera = Camera::new(
            [
                Scalar::from_bits(0),
                Scalar::from_bits(INITIAL_Y_BITS),
                Scalar::from_bits(INITIAL_Z_BITS),
            ],
            Scalar::from_bits(INITIAL_YAW_BITS),
            Scalar::from_bits(INITIAL_PITCH_BITS),
        );
        let projection = Projection::new(
            width,
            height,
            Scalar::from_bits(INITIAL_FOVY_BITS),
            Scalar::from_bits(INITIAL_ZNEAR_BITS),
            Scalar::from_bits(INITIAL_ZFAR_BITS),
        );
        let controller = CameraController::new(
            Scalar::from_bits(INITIAL_SPEED_BITS),
            Scalar::from_bits(INITIAL_SENSITIVITY_BITS),
        );
        let mut uniform = CameraUniform::new();
        let (world_to_screen, screen_to_world) = derive(camera, projection);
        uniform.update_view_proj(&camera, world_to_screen, screen_to_world);
        RenderCamera { camera, projection, controller, uniform }
    }

    /// First half of a frame: the controller hands the integrated pose to
    /// the camera and clears its impulse.
    pub fn update_controller(&mut self, integrated: Camera)
        ensures
            final(self).controller == old(self).controller.after_update(),
            final(self).camera == integrated.with_clamped_pitch(),
            final(self).projection == old(self).projection,
            final(self).uniform == old(self).uniform,
    {
        self.controller.update_camera(&mut self.camera, integrated);
    }

    /// Second half of a frame: the uniform record is rebuilt from the camera
    /// and the two transforms derived from it, and its bytes are returned
    /// for upload.
    pub fn update_uniform(&mut self, world_to_screen: Matrix4, screen_to_world: Matrix4) -> (bytes:
        Vec<u8>)
        ensures
            final(self).camera == old(self).camera,
            final(self).projection == old(self).projection,
            final(self).controller == old(self).controller,
            final(self).uniform.view_position == spec_homogeneous(old(self).camera.position),
            final(self).uniform.world_to_screen == world_to_screen,
            final(self).uniform.screen_to_world == screen_to_world,
            bytes@ == native_bytes(final(self).uniform.words()),
            bytes@.len() == 4 * UNIFORM_WORDS,
    {
        self.uniform.update_view_proj(&self.camera, world_to_screen, screen_to_world);
        self.uniform.to_bytes()
    }

    /// One frame, in the order that must be kept: first the controller,
    /// then the uniform record. `integrate` works out the pose the camera
    /// reaches under the controller's motion over the frame; `derive` works
    /// out the two transforms from a camera and a projection, and is called
    /// on the camera as the controller has left it. The bytes of the new
    /// record are returned for upload.
    pub fn update<I, D>(&mut self, integrate: I, derive: D) -> (bytes: Vec<u8>) where
        I: Fn(Camera, CameraController) -> Camera,
        D: Fn(Camera, Projection) -> (Matrix4, Matrix4),

        requires
            call_requires(integrate, (old(self).camera, old(self).controller)),
            forall|p: Camera|
                call_ensures(integrate, (old(self).camera, old(self).controller), p)
                    ==> call_requires(derive, (p.with_clamped_pitch(), old(self).projection)),
        ensures
            final(self).controller == old(self).controller.after_update(),
            final(self).projection == old(self).projection,
            exists|p: Camera|
                final(self).camera == p.with_clamped_pitch() && call_ensures(
                    integrate,
                    (old(self).camera, old(self).controller),
                    p,
                ),
            call_ensures(
                derive,
                (final(self).camera, final(self).projection),
                (final(self).uniform.world_to_screen, final(self).uniform.screen_to_world),
            ),
            final(self).uniform.view_position == spec_homogeneous(final(self).camera.position),
            bytes@ == native_bytes(final(self).uniform.words()),
            bytes@.len() == 4 * UNIFORM_WORDS,
    {
        let integrated = integrate(self.camera, self.controller);
        self.update_controller(integrated);
        let (world_to_screen, screen_to_world) = derive(self.camera, self.projection);
        self.update_uniform(world_to_screen, screen_to_world)
    }

    /// Takes a new viewport size. Only the projection changes; the uniform
    /// record follows with the next update.
    pub fn resize(&mut self, width: u32, height: u32)
        ensures
            final(self).projection == old(self).projection.resized(width, height),
            final(self).camera == old(self).camera,
            final(self).controller == old(self).controller,
            final(self).uniform == old(self).uniform,
    {
        self.projection.resize(width, height);
    }
}

} // verus!
