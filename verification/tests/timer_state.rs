use tokiodoshi::timer_state::TimerConfig;

#[test]
fn timer_config_default_is_25min() {
    assert_eq!(TimerConfig::default().work_seconds, 1500);
}
