use pomo::config::Config;

#[test]
fn defaults_are_25_work_5_break_4_cycles() {
    let c = Config::new();
    assert_eq!(c.work_duration, 1500);
    assert_eq!(c.break_duration, 300);
    assert_eq!(c.cycles, 4);
}

#[test]
fn beep_is_the_ascii_bell() {
    let c = Config::new();
    assert_eq!(c.beep_sound, "\x07");
}
