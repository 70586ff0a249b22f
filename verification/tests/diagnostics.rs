use render_gl::debug::CauseEntry;
use render_gl::debug::FPSCounter;
use render_gl::debug::failure_to_string;

#[test]
fn single_cause_renders_one_line() {
    let chain = vec![CauseEntry { message: String::from("boom"), location: None }];
    assert_eq!(failure_to_string(&chain), "boom\n");
}

#[test]
fn chain_renders_oldest_cause_first_with_locations() {
    let chain = vec![
        CauseEntry { message: String::from("request failed"), location: None },
        CauseEntry {
            message: String::from("file missing"),
            location: Some(String::from("loader.rs:10")),
        },
    ];
    assert_eq!(
        failure_to_string(&chain),
        "file missing This happened at loader.rs:10\n  Which caused:\nrequest failed\n"
    );
}

#[test]
fn empty_chain_renders_nothing() {
    assert_eq!(failure_to_string(&Vec::new()), "");
}

#[test]
fn fps_counter_reports_after_the_interval() {
    let mut counter = FPSCounter::new(0);
    for tick in [100, 200, 300] {
        assert_eq!(counter.count(tick), None);
    }
    assert_eq!(counter.count(1001), Some(4));
    assert_eq!(counter.fps_current, 4);
    assert_eq!(counter.fps_frames, 0);
    assert_eq!(counter.fps_lasttime, 1001);
    assert_eq!(counter.count(1500), None);
    assert_eq!(counter.fps_frames, 1);
}

#[test]
fn fps_counter_boundary_tick_does_not_report() {
    let mut counter = FPSCounter::new(0);
    assert_eq!(counter.count(1000), None);
    assert_eq!(counter.count(1001), Some(2));
}
