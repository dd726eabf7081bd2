use ipmi_fan_control::args::{Args, Auto, Command};

#[test]
fn commands_carry_their_parameters() {
    let auto = Auto::default();
    let args = Args {
        command: Command::Auto(auto),
        verbose: true,
    };
    assert_eq!(args.command, Command::Auto(auto));
    assert_ne!(args.command, Command::PrintAllSpeeds(auto));
    assert_ne!(Command::Fixed { value: 30 }, Command::Info);
    assert!(args.verbose);
}

#[test]
fn defaults_are_the_documented_ones() {
    let auto = Auto::default();
    assert_eq!(auto.interval, 5);
    assert_eq!(auto.threshold, 70);
    assert_eq!(auto.target_temperature, 35);
    assert_eq!(auto.max_fan_speed, 100);
    assert_eq!(auto.clear_air_interval, 0);
    assert_eq!(auto.clear_air_duration, 10);
}
