use jukebox::{next_step, LoopAction, LoopEvent, Pool, POLL_PERIOD_MS};

fn pool() -> Pool {
    let names: Vec<String> = ["a.mp3", "b.mp3", "c.txt"].iter().map(|s| s.to_string()).collect();
    Pool::from_names(&names).unwrap()
}

fn is_pool_track(action: &LoopAction) -> bool {
    matches!(action, LoopAction::Load(t) if t == "a.mp3" || t == "b.mp3")
}

#[test]
fn loop_loads_a_track_when_it_starts() {
    let p = pool();
    assert!(is_pool_track(&next_step(&p, LoopEvent::Started)));
}

#[test]
fn loop_probes_after_append_and_after_sleep() {
    let p = pool();
    assert_eq!(next_step(&p, LoopEvent::Appended), LoopAction::Probe);
    assert_eq!(next_step(&p, LoopEvent::Slept), LoopAction::Probe);
}

#[test]
fn loop_sleeps_one_period_while_playing() {
    let p = pool();
    assert_eq!(next_step(&p, LoopEvent::Probed(false)), LoopAction::Sleep(POLL_PERIOD_MS));
    assert_eq!(POLL_PERIOD_MS, 1000);
}

#[test]
fn loop_loads_next_track_once_drained() {
    let p = pool();
    for _ in 0..50 {
        assert!(is_pool_track(&next_step(&p, LoopEvent::Probed(true))));
    }
}

#[test]
fn loop_skips_a_track_that_fails_to_load() {
    let p = pool();
    for _ in 0..50 {
        assert!(is_pool_track(&next_step(&p, LoopEvent::LoadFailed)));
    }
}

#[test]
fn loop_never_holds_the_pool_to_other_files() {
    let p = pool();
    let mut event = LoopEvent::Started;
    for round in 0..30 {
        let action = next_step(&p, event);
        event = match action {
            LoopAction::Load(ref t) => {
                assert_ne!(t, "c.txt");
                LoopEvent::Appended
            }
            LoopAction::Probe => LoopEvent::Probed(round % 3 == 0),
            LoopAction::Sleep(ms) => {
                assert_eq!(ms, POLL_PERIOD_MS);
                LoopEvent::Slept
            }
        };
    }
}
