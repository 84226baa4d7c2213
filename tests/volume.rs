use audio_player::volume::Volume;

#[test]
fn volume_starts_at_half() {
    assert_eq!(Volume::new().level(), 500);
}

#[test]
fn set_clamps_above_full() {
    let mut v = Volume::new();
    v.set(1500);
    assert_eq!(v.level(), 1000);
}

#[test]
fn set_clamps_below_silence() {
    let mut v = Volume::new();
    v.set(-200);
    assert_eq!(v.level(), 0);
}

#[test]
fn increase_stops_at_full() {
    let mut v = Volume::new();
    v.set(980);
    v.increase();
    assert_eq!(v.level(), 1000);
}

#[test]
fn steps_of_five_percent() {
    let mut v = Volume::new();
    v.increase();
    assert_eq!(v.level(), 550);
    v.decrease();
    v.decrease();
    assert_eq!(v.level(), 450);
    v.set(30);
    v.decrease();
    assert_eq!(v.level(), 0);
}
