use comprehensive_rust::elevator::{
    car_arrived, car_door_closed, car_door_opened, car_floor_button_pressed,
    lobby_call_button_pressed, ElevatorDirection, Event,
};

#[test]
fn test_elevator() {
    println!(
        "A ground floor passenger has pressed the up button: {:?}",
        lobby_call_button_pressed(0, ElevatorDirection::Up)
    );
    println!(
        "The car has arrived on the ground floor: {:?}",
        car_arrived(0)
    );
    println!("The car door opened: {:?}", car_door_opened());
    println!(
        "A passenger has pressed the 3rd floor button: {:?}",
        car_floor_button_pressed(3)
    );
    println!("The car door closed: {:?}", car_door_closed());
    println!("The car has arrived on the 3rd floor: {:?}", car_arrived(3));
}

#[test]
fn each_constructor_builds_its_event() {
    assert_eq!(
        lobby_call_button_pressed(0, ElevatorDirection::Up),
        Event::EnterRequest { dir: ElevatorDirection::Up, floor: 0 }
    );
    assert_eq!(
        lobby_call_button_pressed(-2, ElevatorDirection::Down),
        Event::EnterRequest { dir: ElevatorDirection::Down, floor: -2 }
    );
    assert_eq!(car_arrived(3), Event::CarArrival { floor: 3 });
    assert_eq!(car_floor_button_pressed(3), Event::ExitRequest { floor: 3 });
    assert_eq!(car_door_opened(), Event::CarDoorsOpen);
    assert_eq!(car_door_closed(), Event::CarDoorsClose);
    assert_ne!(car_arrived(3), car_floor_button_pressed(3));
}
