use cursor_ping::scheduler::{current_radius, run_schedule, Scheduler, Signal, MAX_FRAMES};

#[test]
fn full_run_emits_five_frames_then_finished() {
    let signals = run_schedule(0, 70);
    assert_eq!(
        signals,
        vec![
            Signal::FrameAdvanced(0),
            Signal::FrameAdvanced(1),
            Signal::FrameAdvanced(2),
            Signal::FrameAdvanced(3),
            Signal::FrameAdvanced(4),
            Signal::Finished,
        ]
    );
}

#[test]
fn nothing_before_the_deadline() {
    let mut sched = Scheduler::new(100, 70);
    assert_eq!(sched.tick(0), None);
    assert_eq!(sched.tick(99), None);
    assert_eq!(sched.tick(100), Some(Signal::FrameAdvanced(0)));
}

#[test]
fn late_wake_advances_exactly_one_frame() {
    let mut sched = Scheduler::new(100, 70);
    // Wake long after several deadlines have passed: still one frame only,
    // and the next deadline stays anchored to the previous deadline.
    assert_eq!(sched.tick(1000), Some(Signal::FrameAdvanced(0)));
    assert_eq!(sched.next_deadline, 170);
    assert_eq!(sched.tick(1000), Some(Signal::FrameAdvanced(1)));
    assert_eq!(sched.next_deadline, 240);
}

#[test]
fn nothing_after_finished() {
    let mut sched = Scheduler::new(0, 10);
    let mut signals = Vec::new();
    for now in [0u64, 10, 20, 30, 40, 50, 60, 70, 80, 90] {
        if let Some(s) = sched.tick(now) {
            signals.push(s);
        }
    }
    assert_eq!(signals.len(), 6);
    assert_eq!(signals[5], Signal::Finished);
    for (i, s) in signals.iter().take(5).enumerate() {
        assert_eq!(*s, Signal::FrameAdvanced(i as u32));
    }
    // Every tick past Finished is silent.
    assert_eq!(sched.tick(1_000_000), None);
}

#[test]
fn radii_shrink_by_frame_number() {
    let expected = [200u32, 100, 66, 50, 40];
    for i in 0..MAX_FRAMES {
        assert_eq!(current_radius(200, i), expected[i as usize]);
    }
}
