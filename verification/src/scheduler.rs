use vstd::prelude::*;

verus! {

/// What the next frame does.
pub enum FrameStep<A, M> {
    /// A new animation was requested: the running one ends, the new one starts.
    Switch(A),
    /// The running animation first receives the waiting message, if any, and
    /// then draws its next frame.
    Update(Option<M>),
}

/// What waits after `animation` was requested while `pending` waited: the new
/// request replaces any earlier one.
pub open spec fn after_request<A>(pending: Option<A>, animation: A) -> Option<A> {
    Some(animation)
}

/// What waits after `message` was posted while `waiting` waited: the newer
/// message replaces any earlier one.
pub open spec fn after_post<M>(waiting: Option<M>, message: M) -> Option<M> {
    Some(message)
}

/// What a frame does while the animation `pending` and the message `waiting` wait.
pub open spec fn frame_step<A, M>(pending: Option<A>, waiting: Option<M>) -> FrameStep<A, M> {
    match pending {
        Some(a) => FrameStep::Switch(a),
        None => FrameStep::Update(waiting),
    }
}

/// The message that still waits after such a frame: a switching frame keeps it
/// for the next frame, an updating frame delivers it.
pub open spec fn waiting_after_frame<A, M>(pending: Option<A>, waiting: Option<M>) -> Option<M> {
    match pending {
        Some(_) => waiting,
        None => None,
    }
}

/// The running animation, the one requested to replace it, and the message
/// that waits for the running animation.
pub struct AnimationSlot<A, M> {
    current: A,
    pending: Option<A>,
    message: Option<M>,
}

impl<A, M> AnimationSlot<A, M> {
    /// The animation that is running.
    pub closed spec fn current(&self) -> A {
        self.current
    }

    /// The animation that waits to replace it, if any.
    pub closed spec fn pending(&self) -> Option<A> {
        self.pending
    }

    /// The message that waits for the running animation, if any.
    pub closed spec fn waiting_message(&self) -> Option<M> {
        self.message
    }

    /// A slot running `initial` with nothing waiting.
    pub fn new(initial: A) -> (s: AnimationSlot<A, M>)
        ensures
            s.current() == initial,
            s.pending() is None,
            s.waiting_message() is None,
    {
        AnimationSlot { current: initial, pending: None, message: None }
    }

    /// Asks for `animation` to replace the running one at the next frame; an
    /// earlier request that has not been served yet is dropped.
    pub fn set_animation(&mut self, animation: A)
        ensures
            final(self).pending() == after_request(old(self).pending(), animation),
            final(self).current() == old(self).current(),
            final(self).waiting_message() == old(self).waiting_message(),
    {
        self.pending = Some(animation);
    }

    /// Keeps `message` for the running animation, which receives it at the next
    /// frame that updates it; an earlier message not yet delivered is dropped.
    pub fn post_message(&mut self, message: M)
        ensures
            final(self).waiting_message() == after_post(old(self).waiting_message(), message),
            final(self).current() == old(self).current(),
            final(self).pending() == old(self).pending(),
    {
        self.message = Some(message);
    }

    /// Starts a frame: hands out the waiting animation, if any, and leaves the
    /// running one in place; otherwise hands out the waiting message, if any,
    /// for the running animation.
    pub fn begin_frame(&mut self) -> (step: FrameStep<A, M>)
        ensures
            step == frame_step(old(self).pending(), old(self).waiting_message()),
            final(self).pending() is None,
            final(self).waiting_message() == waiting_after_frame(old(self).pending(), old(self).waiting_message()),
            final(self).current() == old(self).current(),
    {
        match self.pending.take() {
            Some(a) => FrameStep::Switch(a),
            None => FrameStep::Update(self.message.take()),
        }
    }

    /// The running animation, to be ended, told a message or updated.
    pub fn current_mut(&mut self) -> (a: &mut A)
        ensures
            *a == old(self).current(),
            final(self).current() == *final(a),
            final(self).pending() == old(self).pending(),
            final(self).waiting_message() == old(self).waiting_message(),
    {
        &mut self.current
    }

    /// Makes `animation` the running one and returns the one it replaces.
    pub fn install(&mut self, animation: A) -> (previous: A)
        ensures
            previous == old(self).current(),
            final(self).current() == animation,
            final(self).pending() == old(self).pending(),
            final(self).waiting_message() == old(self).waiting_message(),
    {
        let mut previous = animation;
        std::mem::swap(&mut self.current, &mut previous);
        previous
    }
}

/// Of the animations requested between two frames only the last one starts.
pub proof fn law_last_request_wins<A, M>(pending: Option<A>, waiting: Option<M>, first: A, last: A)
    ensures
        frame_step(after_request(after_request(pending, first), last), waiting) == FrameStep::<A, M>::Switch(last),
{
}

/// A request starts its animation at the very next frame, and only once: the
/// frame after that updates it.
pub proof fn law_request_served_once<A, M>(pending: Option<A>, waiting: Option<M>, animation: A)
    ensures
        frame_step(after_request(pending, animation), waiting) == FrameStep::<A, M>::Switch(animation),
        frame_step::<A, M>(None, waiting) == FrameStep::<A, M>::Update(waiting),
{
}

/// A posted message reaches the running animation: at the next frame when no
/// switch waits, or else at the frame after the switch, so the new animation
/// receives it. It is delivered once.
pub proof fn law_message_delivered<A, M>(pending: Option<A>, waiting: Option<M>, message: M)
    ensures
        frame_step(None::<A>, after_post(waiting, message)) == FrameStep::<A, M>::Update(Some(message)),
        waiting_after_frame(None::<A>, after_post(waiting, message)) is None,
        frame_step(None::<A>, waiting_after_frame(pending, after_post(waiting, message)))
            == FrameStep::<A, M>::Update(
            if pending is Some { Some(message) } else { None }),
{
}

} // verus!
