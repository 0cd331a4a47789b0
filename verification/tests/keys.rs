use pong_core::court::PADDLE_ACCELERATION;
use pong_core::keys::{Command, Key, Side, Thrust};

#[test]
fn press_of_each_direction_key_pushes_its_paddle() {
    assert_eq!(Key::UpLeft.on_press(), Command::Push(Side::Left, Thrust::Up));
    assert_eq!(Key::DownLeft.on_press(), Command::Push(Side::Left, Thrust::Down));
    assert_eq!(Key::UpRight.on_press(), Command::Push(Side::Right, Thrust::Up));
    assert_eq!(Key::DownRight.on_press(), Command::Push(Side::Right, Thrust::Down));
}

#[test]
fn press_of_serve_and_quit() {
    assert_eq!(Key::Serve.on_press(), Command::Serve);
    assert_eq!(Key::Quit.on_press(), Command::Quit);
}

#[test]
fn press_of_unbound_key_asks_nothing() {
    assert_eq!(Key::Other.on_press(), Command::Nothing);
}

#[test]
fn release_of_each_direction_key_idles_its_paddle() {
    assert_eq!(Key::UpLeft.on_release(), Command::Push(Side::Left, Thrust::Idle));
    assert_eq!(Key::DownLeft.on_release(), Command::Push(Side::Left, Thrust::Idle));
    assert_eq!(Key::UpRight.on_release(), Command::Push(Side::Right, Thrust::Idle));
    assert_eq!(Key::DownRight.on_release(), Command::Push(Side::Right, Thrust::Idle));
}

#[test]
fn release_never_serves_or_quits() {
    assert_eq!(Key::Serve.on_release(), Command::Nothing);
    assert_eq!(Key::Quit.on_release(), Command::Nothing);
    assert_eq!(Key::Other.on_release(), Command::Nothing);
}

#[test]
fn thrust_acceleration_values() {
    assert_eq!(PADDLE_ACCELERATION, 9);
    assert_eq!(Thrust::Up.acceleration(), 9);
    assert_eq!(Thrust::Down.acceleration(), -9);
    assert_eq!(Thrust::Idle.acceleration(), 0);
}
