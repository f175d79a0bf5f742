//! The events that an elevator controller reacts to.

use vstd::prelude::*;

verus! {

/// A direction of travel.
#[derive(Debug, Clone, Copy, PartialEq, Eq, Structural)]
pub enum ElevatorDirection {
    Up,
    Down,
}

/// An event in the elevator system that the controller must react to.
#[derive(Debug, Clone, Copy, PartialEq, Eq, Structural)]
pub enum Event {
    /// A passenger in a lobby asked for a car going in a direction.
    EnterRequest { dir: ElevatorDirection, floor: i32 },
    /// A passenger in the car asked for a floor.
    ExitRequest { floor: i32 },
    /// The car reached a floor.
    CarArrival { floor: i32 },
    /// The car doors have opened.
    CarDoorsOpen,
    /// The car doors have closed.
    CarDoorsClose,
}

/// The car has arrived on the given floor.
pub fn car_arrived(floor: i32) -> (event: Event)
    ensures
        event == (Event::CarArrival { floor }),
{
    Event::CarArrival { floor }
}

/// The car doors have opened.
pub fn car_door_opened() -> (event: Event)
    ensures
        event == Event::CarDoorsOpen,
{
    Event::CarDoorsOpen
}

/// The car doors have closed.
pub fn car_door_closed() -> (event: Event)
    ensures
        event == Event::CarDoorsClose,
{
    Event::CarDoorsClose
}

/// A directional button was pressed in an elevator lobby on the given floor.
pub fn lobby_call_button_pressed(floor: i32, dir: ElevatorDirection) -> (event: Event)
    ensures
        event == (Event::EnterRequest { dir, floor }),
{
    Event::EnterRequest { dir, floor }
}

/// A floor button was pressed in the elevator car.
pub fn car_floor_button_pressed(floor: i32) -> (event: Event)
    ensures
        event == (Event::ExitRequest { floor }),
{
    Event::ExitRequest { floor }
}

} // verus!
