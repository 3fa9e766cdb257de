//! The scheduler: a state machine that decides, pull by pull, whether to
//! render, present, sleep, drain input or advance simulation time.
//!
//! The machine performs no window operation and no sleep itself. Each call of
//! [`GameIterator::advance`] carries the driver's [`Reply`] to the last
//! [`Request`] and a clock reading, and returns a [`Step`]: an event for the
//! consumer, the end of the stream, or the next request.
use vstd::prelude::*;
use crate::event::{
    input_to_event, GameEvent, InputEvent, KeyPressArgs, KeyReleaseArgs, MouseMoveArgs,
    MousePressArgs, MouseRelativeMoveArgs, MouseReleaseArgs, MouseScrollArgs, RenderArgs,
    UpdateArgs,
};
use crate::timing::{
    extrapolation_ns, interval_ns, next_tick, precise_time_ns, spec_interval_ns, spec_next_tick,
    GameIteratorSettings,
};

verus! {

/// The step of the scheduling protocol that the next pull resumes from.
#[derive(Clone, Copy, Debug, PartialEq, Eq)]
pub enum GameIteratorState<C> {
    /// Check whether the window closed; if not, render a frame.
    Render,
    /// Present the frame that the consumer drew.
    SwapBuffers,
    /// Wait for the next frame or update boundary, whichever comes first.
    UpdateLoop,
    /// Drain the window's input queue.
    HandleEvents,
    /// Deliver the relative delta that came with the last cursor move.
    MouseRelativeMove(C, C),
    /// Emit a logic update. The scheduler passes through this step within
    /// one call and never rests in it.
    Update,
    /// The window closed: the stream has ended for good.
    Closed,
}

/// An operation that the driver performs on the scheduler's behalf.
#[derive(Clone, Copy, Debug, PartialEq, Eq)]
pub enum Request {
    /// Ask the window whether it should close; answer with `Reply::CloseStatus`.
    ShouldClose,
    /// Ask the window for its drawable size; answer with `Reply::Size`.
    GetSize,
    /// Present the drawn frame; answer with `Reply::Swapped`.
    SwapBuffers,
    /// Block for this many nanoseconds; answer with `Reply::Slept`.
    Sleep(u64),
    /// Poll the input queue without blocking; answer with `Reply::Polled`.
    PollEvent,
}

/// What the driver hands to the scheduler.
#[derive(Clone, Copy, Debug, PartialEq, Eq)]
pub enum Reply<K, B, C> {
    /// The consumer wants the next event; nothing is being answered.
    Pull,
    /// Whether the window should close.
    CloseStatus(bool),
    /// The drawable width and height.
    Size(u32, u32),
    /// The frame was presented.
    Swapped,
    /// The pacing sleep is over.
    Slept,
    /// The result of one input poll.
    Polled(InputEvent<K, B, C>),
}

/// The outcome of one call of [`GameIterator::advance`].
#[derive(Clone, Copy, Debug, PartialEq, Eq)]
pub enum Step<K, B, C> {
    /// The next event of the stream.
    Emit(GameEvent<K, B, C>),
    /// The stream has ended.
    End,
    /// Perform this request, then call again with its answer.
    Ask(Request),
}

impl<K, B, C> Reply<K, B, C> {
    /// Whether this reply is the answer to `asked`.
    pub open spec fn spec_answers(self, asked: Option<Request>) -> bool {
        match asked {
            None => false,
            Some(Request::ShouldClose) => self is CloseStatus,
            Some(Request::GetSize) => self is Size,
            Some(Request::SwapBuffers) => self is Swapped,
            Some(Request::Sleep(_)) => self is Slept,
            Some(Request::PollEvent) => self is Polled,
        }
    }

    /// Whether this reply is the answer to `asked`.
    pub fn answers(&self, asked: &Option<Request>) -> (r: bool)
        ensures
            r == self.spec_answers(*asked),
    {
        match asked {
            None => false,
            Some(Request::ShouldClose) => match self {
                Reply::CloseStatus(_) => true,
                _ => false,
            },
            Some(Request::GetSize) => match self {
                Reply::Size(_, _) => true,
                _ => false,
            },
            Some(Request::SwapBuffers) => match self {
                Reply::Swapped => true,
                _ => false,
            },
            Some(Request::Sleep(_)) => match self {
                Reply::Slept => true,
                _ => false,
            },
            Some(Request::PollEvent) => match self {
                Reply::Polled(_) => true,
                _ => false,
            },
        }
    }
}

/// The abstract state of a [`GameIterator`].
pub struct GameIteratorModel<C> {
    /// The rates that the scheduler was made with.
    pub settings: GameIteratorSettings,
    /// The step that the next call resumes from.
    pub state: GameIteratorState<C>,
    /// The request that is waiting for its answer, if any.
    pub asked: Option<Request>,
    /// The logical time of the latest update: it advances by whole update
    /// intervals and is never reset to the clock.
    pub last_update: u64,
    /// The clock reading at which the latest render step began.
    pub last_frame: u64,
    /// The latest clock reading seen.
    pub clock: u64,
    /// Nanoseconds per update.
    pub update_interval: u64,
    /// Nanoseconds per frame, at the frame cap.
    pub frame_interval: u64,
}

impl<C> GameIteratorModel<C> {
    /// The state that a scheduler starts in, at clock reading `start`.
    pub open spec fn initial(settings: GameIteratorSettings, start: u64) -> Self {
        GameIteratorModel {
            settings,
            state: GameIteratorState::Render,
            asked: None,
            last_update: start,
            last_frame: start,
            clock: start,
            update_interval: spec_interval_ns(settings.updates_per_second),
            frame_interval: spec_interval_ns(settings.max_frames_per_second),
        }
    }

    /// The internal invariant of the scheduler.
    pub open spec fn wf(self) -> bool {
        &&& self.settings.valid()
        &&& self.update_interval == spec_interval_ns(self.settings.updates_per_second)
        &&& self.frame_interval == spec_interval_ns(self.settings.max_frames_per_second)
        &&& self.last_update <= self.clock
        &&& self.last_frame <= self.clock
        &&& self.state !is Update
        &&& (self.state is HandleEvents || self.state is MouseRelativeMove)
            ==> self.last_update + self.update_interval <= self.clock
        &&& match self.asked {
            None => true,
            Some(Request::ShouldClose) => self.state is Render,
            Some(Request::GetSize) => self.state is Render && self.last_update <= self.last_frame,
            Some(Request::SwapBuffers) => self.state is SwapBuffers,
            Some(Request::Sleep(_)) => self.state is UpdateLoop,
            Some(Request::PollEvent) => self.state is HandleEvents,
        }
    }

    /// Records `request` as outstanding and asks for it.
    pub open spec fn ask<K, B>(self, request: Request) -> (Self, Step<K, B, C>) {
        (GameIteratorModel { asked: Some(request), ..self }, Step::Ask(request))
    }

    /// The moment the next frame is due.
    pub open spec fn next_frame(self) -> u64 {
        spec_next_tick(self.last_frame, self.frame_interval)
    }

    /// The moment the next update is due.
    pub open spec fn next_update(self) -> u64 {
        spec_next_tick(self.last_update, self.update_interval)
    }

    /// The pacing decision at clock reading `self.clock`: sleep until the
    /// earlier of the two boundaries, or, once it has come, render (a frame
    /// wins a tie) or drain input ahead of an update.
    pub open spec fn update_loop<K, B>(self) -> (Self, Step<K, B, C>) {
        let next_event = if self.next_frame() <= self.next_update() {
            self.next_frame()
        } else {
            self.next_update()
        };
        if next_event > self.clock {
            GameIteratorModel { state: GameIteratorState::UpdateLoop, ..self }.ask(
                Request::Sleep((next_event - self.clock) as u64),
            )
        } else if next_event == self.next_frame() {
            GameIteratorModel { state: GameIteratorState::Render, ..self }.ask(Request::ShouldClose)
        } else {
            GameIteratorModel { state: GameIteratorState::HandleEvents, ..self }.ask(
                Request::PollEvent,
            )
        }
    }

    /// Emits a logic update and moves the logical time on by one interval.
    pub open spec fn update<K, B>(self) -> (Self, Step<K, B, C>) {
        (
            GameIteratorModel {
                state: GameIteratorState::UpdateLoop,
                last_update: (self.last_update + self.update_interval) as u64,
                ..self
            },
            Step::Emit(
                GameEvent::Update(
                    UpdateArgs { updates_per_second: self.settings.updates_per_second },
                ),
            ),
        )
    }

    /// Maps one polled input to the next step.
    pub open spec fn handle_input<K, B>(self, input: InputEvent<K, B, C>) -> (Self, Step<K, B, C>) {
        match input {
            InputEvent::MouseMoved(x, y, Some((dx, dy))) => (
                GameIteratorModel { state: GameIteratorState::MouseRelativeMove(dx, dy), ..self },
                Step::Emit(GameEvent::MouseMove(MouseMoveArgs { x, y })),
            ),
            _ => match input_to_event(input) {
                Some(event) => (
                    GameIteratorModel { state: GameIteratorState::HandleEvents, ..self },
                    Step::Emit(event),
                ),
                None => self.update(),
            },
        }
    }

    /// The state as a call taking clock reading `now` first sees it: the
    /// clock moved on (a reading earlier than one already seen counts as the
    /// one already seen) and the outstanding request cleared.
    pub open spec fn at_clock(self, now: u64) -> Self {
        let t = if now < self.clock { self.clock } else { now };
        GameIteratorModel { clock: t, asked: None, ..self }
    }

    /// One call of the scheduler: the state after it and what it returns.
    ///
    /// A clock reading earlier than one already seen is read as the one
    /// already seen. A reply that does not answer the outstanding request is
    /// read as a plain pull.
    pub open spec fn advance<K, B>(self, reply: Reply<K, B, C>, now: u64) -> (Self, Step<K, B, C>) {
        if self.state is Closed {
            (self, Step::End)
        } else {
            let m = self.at_clock(now);
            let t = m.clock;
            let reply = if reply.spec_answers(self.asked) { reply } else { Reply::Pull };
            match self.state {
                GameIteratorState::Render => match reply {
                    Reply::CloseStatus(closed) => if closed {
                        (GameIteratorModel { state: GameIteratorState::Closed, ..m }, Step::End)
                    } else {
                        GameIteratorModel { last_frame: t, ..m }.ask(Request::GetSize)
                    },
                    Reply::Size(width, height) => if width != 0 && height != 0 {
                        (
                            GameIteratorModel { state: GameIteratorState::SwapBuffers, ..m },
                            Step::Emit(
                                GameEvent::Render(
                                    RenderArgs {
                                        ext_dt_ns: (m.last_frame - m.last_update) as u64,
                                        width,
                                        height,
                                    },
                                ),
                            ),
                        )
                    } else {
                        m.update_loop()
                    },
                    _ => m.ask(Request::ShouldClose),
                },
                GameIteratorState::SwapBuffers => match reply {
                    Reply::Swapped => m.update_loop(),
                    _ => m.ask(Request::SwapBuffers),
                },
                GameIteratorState::UpdateLoop => m.update_loop(),
                GameIteratorState::HandleEvents => match reply {
                    Reply::Polled(input) => m.handle_input(input),
                    _ => m.ask(Request::PollEvent),
                },
                GameIteratorState::MouseRelativeMove(dx, dy) => (
                    GameIteratorModel { state: GameIteratorState::HandleEvents, ..m },
                    Step::Emit(GameEvent::MouseRelativeMove(MouseRelativeMoveArgs { dx, dy })),
                ),
                _ => m.update(),
            }
        }
    }
}

/// A game loop scheduler.
///
/// The driver calls [`GameIterator::advance`] with `Reply::Pull` to ask for
/// the next event, performs each request that comes back and answers it,
/// until an event or the end of the stream is returned.
pub struct GameIterator<C> {
    settings: GameIteratorSettings,
    state: GameIteratorState<C>,
    asked: Option<Request>,
    last_update: u64,
    last_frame: u64,
    clock: u64,
    dt_update_in_ns: u64,
    dt_frame_in_ns: u64,
}

impl<C> View for GameIterator<C> {
    type V = GameIteratorModel<C>;

    closed spec fn view(&self) -> GameIteratorModel<C> {
        GameIteratorModel {
            settings: self.settings,
            state: self.state,
            asked: self.asked,
            last_update: self.last_update,
            last_frame: self.last_frame,
            clock: self.clock,
            update_interval: self.dt_update_in_ns,
            frame_interval: self.dt_frame_in_ns,
        }
    }
}

impl<C> GameIterator<C> {
    /// The internal invariant.
    pub open spec fn wf(&self) -> bool {
        self@.wf()
    }

    /// Creates a game iterator whose clock starts at `start_ns`.
    pub fn starting_at(settings: &GameIteratorSettings, start_ns: u64) -> (it: Self)
        requires
            settings.valid(),
        ensures
            it.wf(),
            it@ == GameIteratorModel::<C>::initial(*settings, start_ns),
    {
        GameIterator {
            settings: *settings,
            state: GameIteratorState::Render,
            asked: None,
            last_update: start_ns,
            last_frame: start_ns,
            clock: start_ns,
            dt_update_in_ns: interval_ns(settings.updates_per_second),
            dt_frame_in_ns: interval_ns(settings.max_frames_per_second),
        }
    }

    /// Creates a new game iterator, starting at the current time.
    pub fn new(settings: &GameIteratorSettings) -> (it: Self)
        requires
            settings.valid(),
        ensures
            it.wf(),
            it@ == GameIteratorModel::<C>::initial(*settings, it@.clock),
    {
        let start = precise_time_ns();
        Self::starting_at(settings, start)
    }
}


impl<C> GameIterator<C> {
    /// Records `request` as outstanding and returns it.
    fn ask<K, B>(&mut self, request: Request) -> (step: Step<K, B, C>)
        ensures
            (final(self)@, step) == old(self)@.ask::<K, B>(request),
    {
        self.asked = Some(request);
        Step::Ask(request)
    }

    /// The pacing decision at the latest clock reading.
    fn update_loop<K, B>(&mut self) -> (step: Step<K, B, C>)
        ensures
            (final(self)@, step) == old(self)@.update_loop::<K, B>(),
    {
        let next_frame = next_tick(self.last_frame, self.dt_frame_in_ns);
        let next_update = next_tick(self.last_update, self.dt_update_in_ns);
        let next_event = if next_frame <= next_update {
            next_frame
        } else {
            next_update
        };
        if next_event > self.clock {
            self.state = GameIteratorState::UpdateLoop;
            self.ask(Request::Sleep(next_event - self.clock))
        } else if next_event == next_frame {
            self.state = GameIteratorState::Render;
            self.ask(Request::ShouldClose)
        } else {
            self.state = GameIteratorState::HandleEvents;
            self.ask(Request::PollEvent)
        }
    }

    /// Emits a logic update.
    fn update<K, B>(&mut self) -> (step: Step<K, B, C>)
        requires
            old(self).last_update + old(self).dt_update_in_ns <= u64::MAX,
        ensures
            (final(self)@, step) == old(self)@.update::<K, B>(),
    {
        self.state = GameIteratorState::UpdateLoop;
        self.last_update = self.last_update + self.dt_update_in_ns;
        Step::Emit(
            GameEvent::Update(UpdateArgs { updates_per_second: self.settings.updates_per_second }),
        )
    }

    /// Maps one polled input to the next step.
    fn handle_input<K, B>(&mut self, input: InputEvent<K, B, C>) -> (step: Step<K, B, C>)
        requires
            old(self).last_update + old(self).dt_update_in_ns <= u64::MAX,
        ensures
            (final(self)@, step) == old(self)@.handle_input(input),
    {
        match input {
            InputEvent::NoEvent => self.update(),
            InputEvent::KeyPressed(key) => {
                self.state = GameIteratorState::HandleEvents;
                Step::Emit(GameEvent::KeyPress(KeyPressArgs { key }))
            },
            InputEvent::KeyReleased(key) => {
                self.state = GameIteratorState::HandleEvents;
                Step::Emit(GameEvent::KeyRelease(KeyReleaseArgs { key }))
            },
            InputEvent::MouseButtonPressed(button) => {
                self.state = GameIteratorState::HandleEvents;
                Step::Emit(GameEvent::MousePress(MousePressArgs { button }))
            },
            InputEvent::MouseButtonReleased(button) => {
                self.state = GameIteratorState::HandleEvents;
                Step::Emit(GameEvent::MouseRelease(MouseReleaseArgs { button }))
            },
            InputEvent::MouseMoved(x, y, relative) => {
                match relative {
                    Some((dx, dy)) => {
                        self.state = GameIteratorState::MouseRelativeMove(dx, dy);
                    },
                    None => {
                        self.state = GameIteratorState::HandleEvents;
                    },
                }
                Step::Emit(GameEvent::MouseMove(MouseMoveArgs { x, y }))
            },
            InputEvent::MouseScrolled(x, y) => {
                self.state = GameIteratorState::HandleEvents;
                Step::Emit(GameEvent::MouseScroll(MouseScrollArgs { x, y }))
            },
        }
    }

    /// Hands the scheduler the driver's reply and a clock reading taken just
    /// before the call, and returns the next event, the end of the stream,
    /// or the next request.
    pub fn advance<K, B>(&mut self, reply: Reply<K, B, C>, now: u64) -> (step: Step<K, B, C>)
        requires
            old(self).wf(),
        ensures
            final(self).wf(),
            (final(self)@, step) == old(self)@.advance(reply, now),
    {
        if let GameIteratorState::Closed = self.state {
            return Step::End;
        }
        let t = if now < self.clock {
            self.clock
        } else {
            now
        };
        let reply = if reply.answers(&self.asked) {
            reply
        } else {
            Reply::Pull
        };
        self.clock = t;
        self.asked = None;
        let mut state = GameIteratorState::Closed;
        std::mem::swap(&mut self.state, &mut state);
        match state {
            GameIteratorState::Render => {
                self.state = GameIteratorState::Render;
                match reply {
                    Reply::CloseStatus(closed) => {
                        if closed {
                            self.state = GameIteratorState::Closed;
                            Step::End
                        } else {
                            self.last_frame = t;
                            self.ask(Request::GetSize)
                        }
                    },
                    Reply::Size(width, height) => {
                        if width != 0 && height != 0 {
                            let ext_dt_ns = extrapolation_ns(self.last_frame, self.last_update);
                            self.state = GameIteratorState::SwapBuffers;
                            Step::Emit(GameEvent::Render(RenderArgs { ext_dt_ns, width, height }))
                        } else {
                            self.update_loop()
                        }
                    },
                    _ => self.ask(Request::ShouldClose),
                }
            },
            GameIteratorState::SwapBuffers => {
                self.state = GameIteratorState::SwapBuffers;
                match reply {
                    Reply::Swapped => self.update_loop(),
                    _ => self.ask(Request::SwapBuffers),
                }
            },
            GameIteratorState::UpdateLoop => {
                self.state = GameIteratorState::UpdateLoop;
                self.update_loop()
            },
            GameIteratorState::HandleEvents => {
                self.state = GameIteratorState::HandleEvents;
                match reply {
                    Reply::Polled(input) => self.handle_input(input),
                    _ => self.ask(Request::PollEvent),
                }
            },
            GameIteratorState::MouseRelativeMove(dx, dy) => {
                self.state = GameIteratorState::HandleEvents;
                Step::Emit(GameEvent::MouseRelativeMove(MouseRelativeMoveArgs { dx, dy }))
            },
            GameIteratorState::Update => {
                self.state = GameIteratorState::Update;
                self.update()
            },
            GameIteratorState::Closed => {
                self.state = GameIteratorState::Closed;
                Step::End
            },
        }
    }

    /// The logical time of the latest update, in nanoseconds.
    pub fn last_update_ns(&self) -> (r: u64)
        ensures
            r == self@.last_update,
    {
        self.last_update
    }

    /// The clock reading at which the latest render step began.
    pub fn last_frame_ns(&self) -> (r: u64)
        ensures
            r == self@.last_frame,
    {
        self.last_frame
    }

    /// Whether the stream has ended.
    pub fn is_closed(&self) -> (r: bool)
        ensures
            r == (self@.state is Closed),
    {
        match self.state {
            GameIteratorState::Closed => true,
            _ => false,
        }
    }

    /// Like [`GameIterator::advance`], with the clock read from the system's
    /// high-resolution counter.
    pub fn resume<K, B>(&mut self, reply: Reply<K, B, C>) -> (step: Step<K, B, C>)
        requires
            old(self).wf(),
        ensures
            final(self).wf(),
            (final(self)@, step) == old(self)@.advance(reply, final(self)@.clock),
    {
        let now = precise_time_ns();
        self.advance(reply, now)
    }
}

} // verus!
