//! The lifetime of the camera that renders the model panel's thumbnail: it
//! is spawned once the model is framed, renders for two frames, and is then
//! switched off.
use vstd::prelude::*;

verus! {

/// The frames a thumbnail camera renders before it is switched off.
pub const THUMBNAIL_FRAMES: u8 = 2;

/// The thumbnail camera's state.
#[derive(Clone, Copy, Debug, PartialEq, Eq, Structural)]
pub struct ThumbnailState {
    /// A thumbnail has been asked for since the last camera was spawned.
    pub requested: bool,
    /// The live thumbnail camera (its entity bits), if any.
    pub camera: Option<u64>,
    /// The frames the live camera still renders.
    pub frames_remaining: u8,
}

impl Default for ThumbnailState {
    fn default() -> (s: Self)
        ensures
            !s.requested && s.camera is None && s.frames_remaining == 0,
    {
        ThumbnailState { requested: false, camera: None, frames_remaining: 0 }
    }
}

/// Whether a thumbnail camera is spawned now.
pub open spec fn spawns(s: ThumbnailState, has_target: bool, has_main_camera: bool) -> bool {
    s.requested && s.camera is None && has_target && has_main_camera
}

/// The state after a camera `camera` was spawned.
pub open spec fn spawned(camera: u64) -> ThumbnailState {
    ThumbnailState { requested: false, camera: Some(camera), frames_remaining: THUMBNAIL_FRAMES }
}

/// One frame of the live camera's countdown: the state after it and the
/// camera switched off in it.
pub open spec fn stop_step(s: ThumbnailState) -> (ThumbnailState, Option<u64>) {
    match s.camera {
        None => (s, None),
        Some(c) => if s.frames_remaining > 1 {
            (ThumbnailState { frames_remaining: (s.frames_remaining - 1) as u8, ..s }, None)
        } else {
            (ThumbnailState { camera: None, frames_remaining: 0, ..s }, Some(c))
        },
    }
}

/// The state after `k` frames of countdown.
pub open spec fn stop_steps(s: ThumbnailState, k: nat) -> ThumbnailState
    decreases k,
{
    if k == 0 {
        s
    } else {
        stop_steps(stop_step(s).0, (k - 1) as nat)
    }
}

impl ThumbnailState {
    /// Asks for a thumbnail: the model has just been framed.
    pub fn request(&mut self)
        ensures
            *final(self) == (ThumbnailState { requested: true, ..*old(self) }),
    {
        self.requested = true;
    }

    /// Whether a thumbnail camera is spawned now: one was asked for, none is
    /// live, and there is a render target and a main camera to copy.
    pub fn should_spawn(&self, has_target: bool, has_main_camera: bool) -> (spawn: bool)
        ensures
            spawn == spawns(*self, has_target, has_main_camera),
    {
        self.requested && self.camera.is_none() && has_target && has_main_camera
    }

    /// Records the spawned camera: it renders two frames.
    pub fn on_spawned(&mut self, camera: u64)
        ensures
            *final(self) == spawned(camera),
    {
        self.requested = false;
        self.camera = Some(camera);
        self.frames_remaining = THUMBNAIL_FRAMES;
    }

    /// One frame of the live camera's countdown; returns the camera to switch
    /// off when its frames are done.
    pub fn stop_thumbnail_camera(&mut self) -> (off: Option<u64>)
        ensures
            (*final(self), off) == stop_step(*old(self)),
    {
        let camera = match self.camera {
            None => return None,
            Some(c) => c,
        };
        if self.frames_remaining > 1 {
            self.frames_remaining = self.frames_remaining - 1;
            return None;
        }
        self.camera = None;
        self.frames_remaining = 0;
        Some(camera)
    }
}

/// A live camera counts its frames down one per frame, unchanged otherwise.
proof fn lemma_countdown(s: ThumbnailState, k: nat)
    requires
        s.camera is Some,
        k < s.frames_remaining,
    ensures
        stop_steps(s, k) == (ThumbnailState { frames_remaining: (s.frames_remaining - k) as u8, ..s }),
    decreases k,
{
    if k > 0 {
        lemma_countdown(stop_step(s).0, (k - 1) as nat);
    }
}

/// A live thumbnail camera with `n` frames left renders them: it stays on
/// through the first `n - 1` frames of countdown and is switched off, and
/// forgotten, in the `n`-th.
pub proof fn law_camera_renders_its_frames(s: ThumbnailState, k: nat)
    requires
        s.camera is Some,
        s.frames_remaining >= 1,
    ensures
        k + 1 < s.frames_remaining ==> stop_step(stop_steps(s, k)).1 is None
            && stop_step(stop_steps(s, k)).0.camera == s.camera,
        k + 1 == s.frames_remaining ==> stop_step(stop_steps(s, k)).1 == s.camera
            && stop_step(stop_steps(s, k)).0.camera is None,
{
    if k < s.frames_remaining {
        lemma_countdown(s, k);
    }
}

/// A spawned thumbnail camera renders exactly two frames: it is kept on in
/// the first frame after it was spawned and switched off in the second.
pub proof fn law_thumbnail_takes_two_frames(camera: u64)
    ensures
        stop_step(spawned(camera)).1 is None,
        stop_step(spawned(camera)).0.camera == Some(camera),
        stop_step(stop_step(spawned(camera)).0).1 == Some(camera),
        stop_step(stop_step(spawned(camera)).0).0.camera is None,
{
}

/// No second thumbnail camera is spawned while one is live.
pub proof fn law_one_camera_at_a_time(s: ThumbnailState, has_target: bool, has_main_camera: bool)
    requires
        s.camera is Some,
    ensures
        !spawns(s, has_target, has_main_camera),
{
}

/// A thumbnail camera is spawned exactly when one was asked for, none is
/// live, and there is both a render target and a main camera.
pub proof fn law_spawn_conditions(s: ThumbnailState, has_target: bool, has_main_camera: bool)
    ensures
        !s.requested ==> !spawns(s, has_target, has_main_camera),
        !has_target ==> !spawns(s, has_target, has_main_camera),
        !has_main_camera ==> !spawns(s, has_target, has_main_camera),
        s.requested && s.camera is None && has_target && has_main_camera ==> spawns(
            s,
            has_target,
            has_main_camera,
        ),
        spawned(0).requested == false,
{
}

} // verus!
