use std::cell::RefCell;
use std::rc::Rc;

use event_bridge::{feed_tick, Action, DriverLoop, EventStream, Msg, Phase, QuitFuture, Readiness, Report, TickPoll};

#[test]
fn new_flag_is_unset() {
    let flag = QuitFuture::new();
    assert!(!flag.observe());
    assert_eq!(flag.poll(), Readiness::NotReady);
}

#[test]
fn quit_sets_the_flag() {
    let mut flag = QuitFuture::new();
    flag.quit();
    assert!(flag.observe());
    assert_eq!(flag.poll(), Readiness::Ready(()));
}

#[test]
fn repeated_quit_leaves_the_flag_set() {
    let mut flag = QuitFuture::new();
    for _ in 0..5 {
        flag.quit();
        assert!(flag.observe());
        assert_eq!(flag.poll(), Readiness::Ready(()));
    }
}

#[test]
fn handles_to_one_flag_see_its_set() {
    let reader = Rc::new(RefCell::new(QuitFuture::new()));
    let setter = reader.clone();
    let other = reader.clone();
    assert_eq!(reader.borrow().poll(), Readiness::NotReady);
    setter.borrow_mut().quit();
    assert_eq!(reader.borrow().poll(), Readiness::Ready(()));
    assert!(other.borrow().observe());
    assert!(setter.borrow().observe());
}

#[test]
fn new_loop_asks_for_the_flag() {
    let driver = DriverLoop::new(10);
    assert_eq!(driver.phase, Phase::AwaitFlag);
    assert_eq!(driver.budget_ms, 10);
    assert_eq!(driver.request(), Action::Observe);
    assert!(!driver.is_done());
}

#[test]
fn idle_iteration_turns_once_and_returns_to_the_flag() {
    let mut driver = DriverLoop::new(10);
    assert_eq!(driver.step(Report::Flag(false)), Action::Turn(10));
    assert_eq!(driver.step(Report::Turned), Action::AskPending);
    assert_eq!(driver.step(Report::Pending(false)), Action::Observe);
    assert_eq!(driver, DriverLoop::new(10));
}

#[test]
fn busy_iteration_dispatches_one_unit() {
    let mut driver = DriverLoop::new(25);
    assert_eq!(driver.step(Report::Flag(false)), Action::Turn(25));
    assert_eq!(driver.step(Report::Turned), Action::AskPending);
    assert_eq!(driver.step(Report::Pending(true)), Action::Dispatch);
    assert_eq!(driver.phase, Phase::AwaitDispatch);
    assert_eq!(driver.step(Report::Dispatched), Action::Observe);
    assert_eq!(driver, DriverLoop::new(25));
}

#[test]
fn set_flag_ends_the_loop_at_once() {
    let mut driver = DriverLoop::new(10);
    assert_eq!(driver.step(Report::Flag(true)), Action::Exit);
    assert!(driver.is_done());
    assert_eq!(driver.phase, Phase::Done);
}

#[test]
fn ended_loop_stays_ended() {
    let mut driver = DriverLoop::new(10);
    driver.step(Report::Flag(true));
    for report in [
        Report::Flag(false),
        Report::Flag(true),
        Report::Turned,
        Report::Pending(true),
        Report::Pending(false),
        Report::Dispatched,
    ] {
        assert_eq!(driver.step(report), Action::Exit);
        assert!(driver.is_done());
    }
}

#[test]
fn unexpected_report_repeats_the_request() {
    let mut driver = DriverLoop::new(10);
    assert_eq!(driver.step(Report::Turned), Action::Observe);
    assert_eq!(driver.step(Report::Pending(true)), Action::Observe);
    assert_eq!(driver.step(Report::Dispatched), Action::Observe);
    assert_eq!(driver.step(Report::Flag(false)), Action::Turn(10));
    assert_eq!(driver.step(Report::Flag(true)), Action::Turn(10));
    assert_eq!(driver.step(Report::Dispatched), Action::Turn(10));
    assert_eq!(driver.step(Report::Turned), Action::AskPending);
    assert_eq!(driver.step(Report::Turned), Action::AskPending);
    assert_eq!(driver.step(Report::Pending(true)), Action::Dispatch);
    assert_eq!(driver.step(Report::Pending(false)), Action::Dispatch);
}

#[test]
fn zero_budget_is_passed_on() {
    let mut driver = DriverLoop::new(0);
    assert_eq!(driver.step(Report::Flag(false)), Action::Turn(0));
    let mut driver = DriverLoop::new(u64::MAX);
    assert_eq!(driver.step(Report::Flag(false)), Action::Turn(u64::MAX));
}

#[test]
fn loop_exits_on_first_observation_after_quit() {
    let mut flag = QuitFuture::new();
    let mut stream = EventStream::new(());
    let mut driver = DriverLoop::new(10);
    let mut action = driver.request();
    let mut turns = 0;
    let mut dispatched = 0;
    let mut observations_after_quit = 0;
    loop {
        let report = match action {
            Action::Observe => {
                if flag.observe() {
                    observations_after_quit += 1;
                }
                Report::Flag(flag.observe())
            }
            Action::Turn(budget) => {
                assert_eq!(budget, 10);
                turns += 1;
                while let Some(event) = stream.get_event() {
                    if event == Msg::Quit {
                        flag.quit();
                        flag.quit();
                    }
                }
                Report::Turned
            }
            Action::AskPending => Report::Pending(dispatched < 3),
            Action::Dispatch => {
                dispatched += 1;
                stream.emit(if dispatched == 3 { Msg::Quit } else { Msg::Increment });
                Report::Dispatched
            }
            Action::Exit => break,
        };
        action = driver.step(report);
    }
    assert_eq!(dispatched, 3);
    assert_eq!(turns, 4);
    assert_eq!(observations_after_quit, 1);
    assert!(driver.is_done());
}

#[test]
fn tick_becomes_a_clock_event() {
    assert_eq!(TickPoll::Tick.event(), Some(Msg::Clock));
    let mut stream = EventStream::new(());
    assert!(feed_tick(&mut stream, TickPoll::Tick));
    assert_eq!(stream.get_event(), Some(Msg::Clock));
    assert_eq!(stream.get_event(), None);
}

#[test]
fn quiet_timer_emits_nothing() {
    assert_eq!(TickPoll::Quiet.event(), None);
    let mut stream = EventStream::new(());
    assert!(!feed_tick(&mut stream, TickPoll::Quiet));
    assert_eq!(stream.get_event(), None);
}

#[test]
fn failed_timer_counts_as_no_tick() {
    assert_eq!(TickPoll::Failed.event(), None);
    let mut stream = EventStream::new(());
    stream.emit(Msg::Increment);
    assert!(!feed_tick(&mut stream, TickPoll::Failed));
    assert_eq!(stream.get_event(), Some(Msg::Increment));
    assert_eq!(stream.get_event(), None);
}

#[test]
fn ticks_queue_behind_other_events() {
    let mut stream = EventStream::new(());
    stream.emit(Msg::Decrement);
    feed_tick(&mut stream, TickPoll::Tick);
    stream.emit(Msg::Increment);
    feed_tick(&mut stream, TickPoll::Tick);
    assert_eq!(stream.get_event(), Some(Msg::Decrement));
    assert_eq!(stream.get_event(), Some(Msg::Clock));
    assert_eq!(stream.get_event(), Some(Msg::Increment));
    assert_eq!(stream.get_event(), Some(Msg::Clock));
    assert_eq!(stream.get_event(), None);
}
