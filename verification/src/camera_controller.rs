//! The camera controller: owns the camera and shares the input manager with
//! the application, and decides each frame from the input how the camera moves.

use vstd::prelude::*;

verus! {

/// A camera of type `C` steered by the input held in `I`.
pub struct CameraController<C, I> {
    camera: C,
    input_manager: I,
}

impl<C, I> CameraController<C, I> {
    pub closed spec fn camera_spec(&self) -> C {
        self.camera
    }

    pub closed spec fn input_manager_spec(&self) -> I {
        self.input_manager
    }

    /// A controller of `camera` reading `input_manager`.
    pub fn new(camera: C, input_manager: I) -> (r: Self)
        ensures
            r.camera_spec() == camera,
            r.input_manager_spec() == input_manager,
    {
        CameraController { camera, input_manager }
    }

    /// The camera.
    pub fn camera(&self) -> (r: &C)
        ensures
            *r == self.camera_spec(),
    {
        &self.camera
    }

    /// The camera, to change it; the input manager stays as it is.
    pub fn camera_mut(&mut self) -> (r: &mut C)
        ensures
            *r == old(self).camera_spec(),
            final(self).camera_spec() == *final(r),
            final(self).input_manager_spec() == old(self).input_manager_spec(),
    {
        &mut self.camera
    }

    /// The input manager the camera is steered by.
    pub fn input_manager(&self) -> (r: &I)
        ensures
            *r == self.input_manager_spec(),
    {
        &self.input_manager
    }
}

/// What the controller reads of the input in a frame: the right mouse button
/// and the movement keys.
#[derive(Clone, Copy, PartialEq, Eq, Structural, Debug)]
pub struct CameraInput {
    pub right_button_pressed: bool,
    pub key_w: bool,
    pub key_s: bool,
    pub key_a: bool,
    pub key_d: bool,
    pub key_e: bool,
    pub key_q: bool,
}

/// One change the controller makes to the camera in a frame.
#[derive(Clone, Copy, PartialEq, Eq, Structural, Debug)]
pub enum CameraAction {
    /// Turn by the mouse movement divided by `MOUSE_DELTA_DIVISOR`: yaw by its
    /// horizontal part, pitch by its vertical part.
    RotateByMouse,
    /// Move along the view direction by the frame's distance.
    MoveForward,
    /// Move against the view direction.
    MoveBackward,
    /// Move to the left.
    MoveLeft,
    /// Move to the right.
    MoveRight,
    /// Move down.
    MoveDown,
    /// Move up.
    MoveUp,
}

/// The distance the camera moves per second, in world units.
pub const CAMERA_MOVE_SPEED: u32 = 60;

/// The mouse movement (in pixels) is divided by this before it turns the camera.
pub const MOUSE_DELTA_DIVISOR: u32 = 7;

/// `a` when `cond` holds, nothing otherwise.
pub open spec fn action_if(cond: bool, a: CameraAction) -> Seq<CameraAction> {
    if cond { seq![a] } else { Seq::empty() }
}

/// The changes for a frame, in the order they are made: turning while the right
/// button is held, then W forward, S backward, A left, D right, E down, Q up.
pub open spec fn camera_actions_spec(input: CameraInput) -> Seq<CameraAction> {
    action_if(input.right_button_pressed, CameraAction::RotateByMouse)
        + action_if(input.key_w, CameraAction::MoveForward)
        + action_if(input.key_s, CameraAction::MoveBackward)
        + action_if(input.key_a, CameraAction::MoveLeft)
        + action_if(input.key_d, CameraAction::MoveRight)
        + action_if(input.key_e, CameraAction::MoveDown)
        + action_if(input.key_q, CameraAction::MoveUp)
}

/// One when `b` holds, zero otherwise.
pub open spec fn one_if(b: bool) -> nat {
    if b { 1 } else { 0 }
}

proof fn lemma_concat_contains<T>(a: Seq<T>, b: Seq<T>, x: T)
    ensures
        (a + b).contains(x) <==> (a.contains(x) || b.contains(x)),
{
    if (a + b).contains(x) {
        let i = choose|i: int| 0 <= i < (a + b).len() && (a + b)[i] == x;
        if i < a.len() {
            assert(a[i] == x);
        } else {
            assert(b[i - a.len()] == x);
        }
    }
    if a.contains(x) {
        let i = choose|i: int| 0 <= i < a.len() && a[i] == x;
        assert((a + b)[i] == x);
    }
    if b.contains(x) {
        let i = choose|i: int| 0 <= i < b.len() && b[i] == x;
        assert((a + b)[a.len() + i] == x);
    }
}

proof fn lemma_action_if_contains(c: bool, a: CameraAction, x: CameraAction)
    ensures
        action_if(c, a).contains(x) <==> (c && a == x),
{
    if c {
        assert(action_if(c, a)[0] == a);
    }
}

/// Each input controls its own move: the right button turns the camera, W moves
/// it forward, S backward, A left, D right, E down and Q up. A move is made
/// exactly when its input is held, and as many moves are made as inputs are held.
pub proof fn lemma_each_input_its_own_move(input: CameraInput)
    ensures
        camera_actions_spec(input).contains(CameraAction::RotateByMouse) <==> input.right_button_pressed,
        camera_actions_spec(input).contains(CameraAction::MoveForward) <==> input.key_w,
        camera_actions_spec(input).contains(CameraAction::MoveBackward) <==> input.key_s,
        camera_actions_spec(input).contains(CameraAction::MoveLeft) <==> input.key_a,
        camera_actions_spec(input).contains(CameraAction::MoveRight) <==> input.key_d,
        camera_actions_spec(input).contains(CameraAction::MoveDown) <==> input.key_e,
        camera_actions_spec(input).contains(CameraAction::MoveUp) <==> input.key_q,
        camera_actions_spec(input).len() == one_if(input.right_button_pressed) + one_if(input.key_w)
            + one_if(input.key_s) + one_if(input.key_a) + one_if(input.key_d) + one_if(input.key_e)
            + one_if(input.key_q),
{
    lemma_actions_contain(input, CameraAction::RotateByMouse);
    lemma_actions_contain(input, CameraAction::MoveForward);
    lemma_actions_contain(input, CameraAction::MoveBackward);
    lemma_actions_contain(input, CameraAction::MoveLeft);
    lemma_actions_contain(input, CameraAction::MoveRight);
    lemma_actions_contain(input, CameraAction::MoveDown);
    lemma_actions_contain(input, CameraAction::MoveUp);
}

proof fn lemma_actions_contain(input: CameraInput, x: CameraAction)
    ensures
        camera_actions_spec(input).contains(x) <==> (
            (input.right_button_pressed && x == CameraAction::RotateByMouse)
            || (input.key_w && x == CameraAction::MoveForward)
            || (input.key_s && x == CameraAction::MoveBackward)
            || (input.key_a && x == CameraAction::MoveLeft)
            || (input.key_d && x == CameraAction::MoveRight)
            || (input.key_e && x == CameraAction::MoveDown)
            || (input.key_q && x == CameraAction::MoveUp)),
{
    let p0 = action_if(input.right_button_pressed, CameraAction::RotateByMouse);
    let p1 = action_if(input.key_w, CameraAction::MoveForward);
    let p2 = action_if(input.key_s, CameraAction::MoveBackward);
    let p3 = action_if(input.key_a, CameraAction::MoveLeft);
    let p4 = action_if(input.key_d, CameraAction::MoveRight);
    let p5 = action_if(input.key_e, CameraAction::MoveDown);
    let p6 = action_if(input.key_q, CameraAction::MoveUp);
    lemma_concat_contains(p0, p1, x);
    lemma_concat_contains(p0 + p1, p2, x);
    lemma_concat_contains(p0 + p1 + p2, p3, x);
    lemma_concat_contains(p0 + p1 + p2 + p3, p4, x);
    lemma_concat_contains(p0 + p1 + p2 + p3 + p4, p5, x);
    lemma_concat_contains(p0 + p1 + p2 + p3 + p4 + p5, p6, x);
    lemma_action_if_contains(input.right_button_pressed, CameraAction::RotateByMouse, x);
    lemma_action_if_contains(input.key_w, CameraAction::MoveForward, x);
    lemma_action_if_contains(input.key_s, CameraAction::MoveBackward, x);
    lemma_action_if_contains(input.key_a, CameraAction::MoveLeft, x);
    lemma_action_if_contains(input.key_d, CameraAction::MoveRight, x);
    lemma_action_if_contains(input.key_e, CameraAction::MoveDown, x);
    lemma_action_if_contains(input.key_q, CameraAction::MoveUp, x);
}

fn push_if(v: &mut Vec<CameraAction>, cond: bool, a: CameraAction)
    ensures
        final(v)@ == old(v)@ + action_if(cond, a),
{
    if cond {
        v.push(a);
    }
    assert(v@ =~= old(v)@ + action_if(cond, a));
}

/// The changes the controller makes to the camera in a frame with `input`.
pub fn camera_actions(input: CameraInput) -> (r: Vec<CameraAction>)
    ensures
        r@ == camera_actions_spec(input),
{
    let mut v: Vec<CameraAction> = Vec::new();
    push_if(&mut v, input.right_button_pressed, CameraAction::RotateByMouse);
    push_if(&mut v, input.key_w, CameraAction::MoveForward);
    push_if(&mut v, input.key_s, CameraAction::MoveBackward);
    push_if(&mut v, input.key_a, CameraAction::MoveLeft);
    push_if(&mut v, input.key_d, CameraAction::MoveRight);
    push_if(&mut v, input.key_e, CameraAction::MoveDown);
    push_if(&mut v, input.key_q, CameraAction::MoveUp);
    assert(v@ =~= camera_actions_spec(input));
    v
}

} // verus!
