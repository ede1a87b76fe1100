use sysdash::run_loop::{Action, Phase, RunLoop};

/// Drives a loop whose k-th poll (1-based) sees the quit key, counting the
/// samples and renders it asks for.
fn drive(quit_at: usize) -> (usize, usize) {
    let mut l = RunLoop::new();
    let mut samples = 0;
    let mut renders = 0;
    let mut polls = 0;
    loop {
        match l.action() {
            Action::Sample => {
                samples += 1;
                l.complete(None);
            }
            Action::Render => {
                renders += 1;
                l.complete(None);
            }
            Action::Poll => {
                polls += 1;
                let key = if polls == quit_at { Some('q') } else if polls % 2 == 0 { Some('x') } else { None };
                l.complete(key);
            }
            Action::Sleep => l.complete(None),
            Action::Stop => break,
        }
    }
    (samples, renders)
}

#[test]
fn quit_at_iteration_k_renders_k_times() {
    for k in 1..8 {
        assert_eq!(drive(k), (k, k));
    }
}

#[test]
fn phases_cycle_until_quit() {
    let mut l = RunLoop::new();
    assert_eq!(l.phase(), Phase::Sampling);
    assert_eq!(l.action(), Action::Sample);
    l.complete(Some('q'));
    assert_eq!(l.phase(), Phase::Rendering);
    l.complete(None);
    assert_eq!(l.action(), Action::Poll);
    l.complete(Some('a'));
    assert_eq!(l.action(), Action::Sleep);
    l.complete(None);
    assert_eq!(l.action(), Action::Sample);
    l.complete(None);
    l.complete(None);
    assert!(l.is_running());
    l.complete(Some('q'));
    assert!(!l.is_running());
    assert_eq!(l.action(), Action::Stop);
    l.complete(None);
    assert_eq!(l.phase(), Phase::Exiting);
}
