use life::{Cell, Settings};

#[test]
fn cell_flips_both_ways() {
    assert_eq!(Cell::Alive, Cell::Dead.flip());
    assert_eq!(Cell::Dead, Cell::Alive.flip());
    assert_eq!(Cell::Alive, !Cell::Dead);
    assert_eq!(Cell::Dead, !Cell::Alive);
    assert_eq!(Cell::Alive, Cell::default());
}

#[test]
fn settings_start_running() {
    let settings = Settings::default();
    assert!(!settings.paused);
    assert!(!settings.step);
    assert_eq!(Cell::Alive, settings.click_mode);
}

#[test]
fn toggles_flip_their_flag_only() {
    let mut settings = Settings::default();
    settings.toggle_paused();
    assert!(settings.paused);
    assert_eq!(Cell::Alive, settings.click_mode);
    settings.toggle_click_mode();
    assert_eq!(Cell::Dead, settings.click_mode);
    assert!(settings.paused);
    settings.toggle_paused();
    settings.toggle_click_mode();
    assert_eq!(Settings::default(), settings);
}

#[test]
fn step_advances_a_paused_loop_once() {
    let mut settings = Settings::default();
    settings.toggle_paused();
    assert!(!settings.take_advance());
    settings.request_step();
    assert!(settings.take_advance());
    assert!(!settings.step);
    assert!(!settings.take_advance());
}

#[test]
fn running_loop_always_advances() {
    let mut settings = Settings::default();
    assert!(settings.take_advance());
    settings.request_step();
    assert!(settings.take_advance());
    assert!(settings.take_advance());
}
