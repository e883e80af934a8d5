use shake_chess::Last50;

fn fresh() -> Last50 {
    Last50::default()
}

#[test]
fn fresh_guard_does_not_draw() {
    let g = fresh();
    assert!(!g.should_draw());
}

#[test]
fn forty_nine_quiet_plies_do_not_draw() {
    let mut g = fresh();
    for _ in 0..49 {
        g.push(false);
    }
    assert!(!g.should_draw());
}

#[test]
fn fiftieth_quiet_ply_draws() {
    let mut g = fresh();
    for _ in 0..49 {
        g.push(false);
    }
    g.push(false);
    assert!(g.should_draw());
}

#[test]
fn one_active_ply_in_window_blocks_draw() {
    let mut g = fresh();
    for _ in 0..30 {
        g.push(false);
    }
    g.push(true);
    for _ in 0..19 {
        g.push(false);
    }
    assert!(!g.should_draw());
}

#[test]
fn activity_ages_out_of_window() {
    let mut g = fresh();
    g.push(true);
    for _ in 0..49 {
        g.push(false);
    }
    // the initial true slots are overwritten but the pushed true remains
    assert!(!g.should_draw());
    // one more quiet ply overwrites the active one
    g.push(false);
    assert!(g.should_draw());
}

#[test]
fn draw_state_clears_when_window_sees_activity_again() {
    let mut g = fresh();
    for _ in 0..50 {
        g.push(false);
    }
    assert!(g.should_draw());
    g.push(true);
    assert!(!g.should_draw());
}
