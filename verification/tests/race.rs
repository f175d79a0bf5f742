use comprehensive_rust::race::Race;

#[test]
fn test_race() {
    let mut race = Race::new("Monaco Grand Prix");
    race.add_lap(70);
    race.add_lap(68);
    for line in race.report() {
        println!("{line}");
    }
    race.add_lap(71);
    for line in race.report() {
        println!("{line}");
    }
    println!("{}", race.finish());
}

#[test]
fn a_new_race_has_a_name_and_no_laps() {
    let race = Race::new("Monaco Grand Prix");
    assert_eq!(race.name, "Monaco Grand Prix");
    assert!(race.laps.is_empty());
    assert_eq!(race.report(), vec!["Recorded 0 laps for Monaco Grand Prix"]);
    assert_eq!(race.total(), 0);
}

#[test]
fn laps_are_reported_in_the_order_of_recording() {
    let mut race = Race::new("Monaco Grand Prix");
    race.add_lap(70);
    race.add_lap(68);
    assert_eq!(race.laps, vec![70, 68]);
    assert_eq!(
        race.report(),
        vec!["Recorded 2 laps for Monaco Grand Prix", "Lap 0: 70 sec", "Lap 1: 68 sec"]
    );
    race.add_lap(71);
    assert_eq!(
        race.report(),
        vec![
            "Recorded 3 laps for Monaco Grand Prix",
            "Lap 0: 70 sec",
            "Lap 1: 68 sec",
            "Lap 2: 71 sec"
        ]
    );
    assert_eq!(race.total(), 209);
    assert_eq!(race.finish(), "Race Monaco Grand Prix is finished, total lap time: 209");
}

#[test]
fn negative_laps_are_summed_and_written_with_their_sign() {
    let mut race = Race::new("");
    race.add_lap(i32::MAX);
    race.add_lap(-10);
    race.add_lap(i32::MIN + 10);
    assert_eq!(race.total(), -1);
    assert_eq!(race.report()[3], "Lap 2: -2147483638 sec");
    assert_eq!(race.finish(), "Race  is finished, total lap time: -1");
}
