use game_iterator::timing::{extrapolation_ns, interval_ns, next_tick};
use game_iterator::{
    GameEvent, GameIterator, GameIteratorSettings, InputEvent, KeyPressArgs, MouseMoveArgs,
    MousePressArgs, MouseRelativeMoveArgs, MouseScrollArgs, RenderArgs, Reply, Request, Step,
    UpdateArgs,
};
use std::collections::VecDeque;

type Input = InputEvent<u32, u8, f64>;
type Event = GameEvent<u32, u8, f64>;

/// A scripted window with a virtual clock that a sleep moves on exactly.
struct FakeWindow {
    clock: u64,
    close_after: Option<usize>,
    close_checks: usize,
    size: (u32, u32),
    inputs: VecDeque<Input>,
    swaps: usize,
    requests: Vec<Request>,
}

impl FakeWindow {
    fn new(size: (u32, u32)) -> FakeWindow {
        FakeWindow {
            clock: 0,
            close_after: None,
            close_checks: 0,
            size,
            inputs: VecDeque::new(),
            swaps: 0,
            requests: Vec::new(),
        }
    }

    fn perform(&mut self, request: Request) -> Reply<u32, u8, f64> {
        self.requests.push(request);
        match request {
            Request::ShouldClose => {
                self.close_checks += 1;
                Reply::CloseStatus(self.close_after.map_or(false, |n| self.close_checks > n))
            }
            Request::GetSize => Reply::Size(self.size.0, self.size.1),
            Request::SwapBuffers => {
                self.swaps += 1;
                Reply::Swapped
            }
            Request::Sleep(ns) => {
                self.clock += ns;
                Reply::Slept
            }
            Request::PollEvent => Reply::Polled(self.inputs.pop_front().unwrap_or(InputEvent::NoEvent)),
        }
    }
}

fn settings(ups: u64, fps: u64) -> GameIteratorSettings {
    GameIteratorSettings { updates_per_second: ups, max_frames_per_second: fps }
}

fn pull(it: &mut GameIterator<f64>, window: &mut FakeWindow) -> Option<Event> {
    let mut reply = Reply::Pull;
    loop {
        match it.advance(reply, window.clock) {
            Step::Emit(event) => return Some(event),
            Step::End => return None,
            Step::Ask(request) => reply = window.perform(request),
        }
    }
}

fn is_render(e: &Event) -> bool {
    matches!(e, GameEvent::Render(_))
}

fn is_update(e: &Event) -> bool {
    matches!(e, GameEvent::Update(_))
}

#[test]
fn steady_cadence_two_updates_per_frame() {
    let mut it = GameIterator::starting_at(&settings(120, 60), 0);
    let mut window = FakeWindow::new((320, 240));
    let events: Vec<Event> = (0..300).map(|_| pull(&mut it, &mut window).unwrap()).collect();
    assert!(is_render(&events[0]));
    assert_eq!(events[0], GameEvent::Render(RenderArgs { ext_dt_ns: 0, width: 320, height: 240 }));
    let renders: Vec<usize> = (0..events.len()).filter(|&i| is_render(&events[i])).collect();
    // After the first frame, every frame is followed by exactly two updates.
    for w in renders[1..].windows(2) {
        assert_eq!(w[1] - w[0], 3);
        assert!(is_update(&events[w[0] + 1]) && is_update(&events[w[0] + 2]));
    }
    let updates = events.iter().filter(|e| is_update(e)).count();
    assert_eq!(&events[..6], &[
        events[0],
        GameEvent::Update(UpdateArgs { updates_per_second: 120 }),
        events[2],
        GameEvent::Update(UpdateArgs { updates_per_second: 120 }),
        GameEvent::Update(UpdateArgs { updates_per_second: 120 }),
        events[5],
    ]);
    assert!(is_render(&events[2]) && is_render(&events[5]));
    // One update in the first frame, then two in every later one.
    assert_eq!(renders.len(), 101);
    assert_eq!(updates, 199);
    assert!(window.swaps <= renders.len() && window.swaps + 1 >= renders.len());
    assert!(window.requests.iter().any(|r| matches!(r, Request::Sleep(_))));
}

#[test]
fn closed_at_first_check_gives_empty_stream() {
    let mut it = GameIterator::starting_at(&settings(120, 60), 0);
    let mut window = FakeWindow::new((320, 240));
    window.close_after = Some(0);
    assert_eq!(pull(&mut it, &mut window), None);
    assert_eq!(window.requests, vec![Request::ShouldClose]);
    assert!(it.is_closed());
}

#[test]
fn hidden_window_only_updates() {
    let mut it = GameIterator::starting_at(&settings(120, 60), 0);
    let mut window = FakeWindow::new((0, 0));
    for k in 1..=50u64 {
        let e = pull(&mut it, &mut window).unwrap();
        assert_eq!(e, GameEvent::Update(UpdateArgs { updates_per_second: 120 }));
        assert_eq!(window.clock, k * 8_333_333);
        assert_eq!(it.last_update_ns(), k * 8_333_333);
    }
    assert_eq!(window.swaps, 0);
    assert!(!window.requests.contains(&Request::SwapBuffers));
}

#[test]
fn zero_width_suppresses_render() {
    let mut it = GameIterator::starting_at(&settings(30, 30), 0);
    let mut window = FakeWindow::new((0, 240));
    for _ in 0..20 {
        assert!(is_update(&pull(&mut it, &mut window).unwrap()));
    }
}

#[test]
fn update_time_ignores_clock_jitter() {
    let mut it = GameIterator::starting_at(&settings(120, 60), 1_000);
    let mut window = FakeWindow::new((320, 240));
    window.clock = 1_000;
    let mut previous = it.last_update_ns();
    let mut seen = 0;
    for i in 0..200u64 {
        // The clock overshoots every sleep by a varying amount.
        window.clock += (i * 7_919) % 3_001;
        let e = pull(&mut it, &mut window).unwrap();
        if let GameEvent::Update(args) = e {
            assert_eq!(args.updates_per_second, 120);
            assert_eq!(it.last_update_ns() - previous, 8_333_333);
            previous = it.last_update_ns();
            seen += 1;
        }
    }
    assert!(seen > 50);
}

#[test]
fn render_carries_time_since_last_update() {
    let mut it: GameIterator<f64> = GameIterator::starting_at(&settings(100, 50), 0);
    // First frame at clock 0.
    assert_eq!(it.advance::<u32, u8>(Reply::Pull, 0), Step::Ask(Request::ShouldClose));
    assert_eq!(it.advance::<u32, u8>(Reply::CloseStatus(false), 0), Step::Ask(Request::GetSize));
    assert!(is_render(&it.advance::<u32, u8>(Reply::Size(8, 6), 0).into_event()));
    assert_eq!(it.advance::<u32, u8>(Reply::Pull, 0), Step::Ask(Request::SwapBuffers));
    // The update is due at 10 ms.
    assert_eq!(it.advance::<u32, u8>(Reply::Swapped, 4_000_000), Step::Ask(Request::Sleep(6_000_000)));
    assert_eq!(it.advance::<u32, u8>(Reply::Slept, 10_000_000), Step::Ask(Request::PollEvent));
    assert_eq!(
        it.advance::<u32, u8>(Reply::Polled(InputEvent::NoEvent), 10_000_000),
        Step::Emit(GameEvent::Update(UpdateArgs { updates_per_second: 100 }))
    );
    // The frame is due at 20 ms and is sampled late, at 23 ms.
    assert_eq!(it.advance::<u32, u8>(Reply::Pull, 23_000_000), Step::Ask(Request::ShouldClose));
    assert_eq!(it.advance::<u32, u8>(Reply::CloseStatus(false), 23_000_000), Step::Ask(Request::GetSize));
    assert_eq!(
        it.advance::<u32, u8>(Reply::Size(8, 6), 23_500_000),
        Step::Emit(GameEvent::Render(RenderArgs { ext_dt_ns: 13_000_000, width: 8, height: 6 }))
    );
    assert_eq!(it.last_frame_ns(), 23_000_000);
}

trait IntoEvent {
    fn into_event(self) -> Event;
}

impl IntoEvent for Step<u32, u8, f64> {
    fn into_event(self) -> Event {
        match self {
            Step::Emit(e) => e,
            _ => panic!("expected an event"),
        }
    }
}

#[test]
fn frame_wins_a_tie_with_an_update() {
    let mut it: GameIterator<f64> = GameIterator::starting_at(&settings(60, 60), 0);
    it.advance::<u32, u8>(Reply::Pull, 0);
    it.advance::<u32, u8>(Reply::CloseStatus(false), 0);
    it.advance::<u32, u8>(Reply::Size(1, 1), 0);
    it.advance::<u32, u8>(Reply::Pull, 0);
    assert_eq!(it.advance::<u32, u8>(Reply::Swapped, 0), Step::Ask(Request::Sleep(16_666_666)));
    assert_eq!(it.advance::<u32, u8>(Reply::Slept, 16_666_666), Step::Ask(Request::ShouldClose));
}

#[test]
fn end_is_permanent() {
    let mut it = GameIterator::starting_at(&settings(120, 60), 0);
    let mut window = FakeWindow::new((320, 240));
    window.close_after = Some(3);
    while pull(&mut it, &mut window).is_some() {}
    let swaps = window.swaps;
    let requests = window.requests.len();
    for _ in 0..5 {
        assert_eq!(pull(&mut it, &mut window), None);
        assert_eq!(it.advance::<u32, u8>(Reply::Swapped, u64::MAX), Step::End);
    }
    assert_eq!(window.swaps, swaps);
    assert_eq!(window.requests.len(), requests);
    assert_eq!(window.close_checks, 4);
}

#[test]
fn queued_input_is_drained_before_update() {
    let mut it = GameIterator::starting_at(&settings(120, 60), 0);
    let mut window = FakeWindow::new((320, 240));
    assert!(is_render(&pull(&mut it, &mut window).unwrap()));
    window.inputs.push_back(InputEvent::KeyPressed(42));
    window.inputs.push_back(InputEvent::MouseButtonPressed(1));
    window.inputs.push_back(InputEvent::MouseScrolled(0.0, -1.5));
    window.inputs.push_back(InputEvent::MouseMoved(3.0, 4.0, None));
    assert_eq!(pull(&mut it, &mut window), Some(GameEvent::KeyPress(KeyPressArgs { key: 42 })));
    assert_eq!(pull(&mut it, &mut window), Some(GameEvent::MousePress(MousePressArgs { button: 1 })));
    assert_eq!(pull(&mut it, &mut window), Some(GameEvent::MouseScroll(MouseScrollArgs { x: 0.0, y: -1.5 })));
    assert_eq!(pull(&mut it, &mut window), Some(GameEvent::MouseMove(MouseMoveArgs { x: 3.0, y: 4.0 })));
    assert_eq!(pull(&mut it, &mut window), Some(GameEvent::Update(UpdateArgs { updates_per_second: 120 })));
    assert!(window.inputs.is_empty());
}

#[test]
fn relative_move_follows_cursor_move() {
    let mut it = GameIterator::starting_at(&settings(120, 60), 0);
    let mut window = FakeWindow::new((320, 240));
    assert!(is_render(&pull(&mut it, &mut window).unwrap()));
    window.inputs.push_back(InputEvent::MouseMoved(10.0, 20.0, Some((1.5, -2.5))));
    window.inputs.push_back(InputEvent::KeyReleased(7));
    assert_eq!(pull(&mut it, &mut window), Some(GameEvent::MouseMove(MouseMoveArgs { x: 10.0, y: 20.0 })));
    assert_eq!(
        pull(&mut it, &mut window),
        Some(GameEvent::MouseRelativeMove(MouseRelativeMoveArgs { dx: 1.5, dy: -2.5 }))
    );
    assert!(matches!(pull(&mut it, &mut window), Some(GameEvent::KeyRelease(_))));
    assert!(is_update(&pull(&mut it, &mut window).unwrap()));
}

#[test]
fn unanswered_reply_repeats_request() {
    let mut it: GameIterator<f64> = GameIterator::starting_at(&settings(120, 60), 0);
    assert_eq!(it.advance::<u32, u8>(Reply::Pull, 0), Step::Ask(Request::ShouldClose));
    assert_eq!(it.advance::<u32, u8>(Reply::Size(5, 5), 0), Step::Ask(Request::ShouldClose));
    assert_eq!(it.advance::<u32, u8>(Reply::CloseStatus(false), 0), Step::Ask(Request::GetSize));
    assert_eq!(it.advance::<u32, u8>(Reply::Swapped, 0), Step::Ask(Request::ShouldClose));
}

#[test]
fn clock_going_back_is_read_as_standing_still() {
    let mut it: GameIterator<f64> = GameIterator::starting_at(&settings(100, 50), 50_000_000);
    it.advance::<u32, u8>(Reply::Pull, 50_000_000);
    it.advance::<u32, u8>(Reply::CloseStatus(false), 50_000_000);
    assert_eq!(
        it.advance::<u32, u8>(Reply::Size(2, 2), 50_000_000),
        Step::Emit(GameEvent::Render(RenderArgs { ext_dt_ns: 0, width: 2, height: 2 }))
    );
    it.advance::<u32, u8>(Reply::Pull, 0);
    assert_eq!(it.advance::<u32, u8>(Reply::Swapped, 3), Step::Ask(Request::Sleep(10_000_000)));
}

#[test]
fn intervals_from_rates() {
    assert_eq!(interval_ns(120), 8_333_333);
    assert_eq!(interval_ns(60), 16_666_666);
    assert_eq!(interval_ns(1), 1_000_000_000);
    assert_eq!(interval_ns(3_000_000_000), 0);
    assert_eq!(next_tick(5, 10), 15);
    assert_eq!(next_tick(u64::MAX - 3, 10), u64::MAX);
    assert_eq!(extrapolation_ns(10, 3), 7);
}

#[test]
fn new_reads_the_clock() {
    let mut it: GameIterator<f64> = GameIterator::new(&settings(120, 60));
    let start = it.last_update_ns();
    assert_eq!(it.last_frame_ns(), start);
    assert_eq!(it.resume::<u32, u8>(Reply::Pull), Step::Ask(Request::ShouldClose));
    assert_eq!(it.resume::<u32, u8>(Reply::CloseStatus(true)), Step::End);
    assert!(it.is_closed());
}
