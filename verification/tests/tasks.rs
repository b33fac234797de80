use modbus_mqtt_bridge::tasks::{
    select, select_first_polled, select_second_polled, Either, FirstPolled,
};

#[test]
fn select_first_polled_wins_or_asks_for_the_second() {
    assert_eq!(select_first_polled::<u8, u16>(Some(1)), FirstPolled::Ready(Either::Left(1)));
    assert_eq!(select_first_polled::<u8, u16>(None), FirstPolled::PollSecond);
}

#[test]
fn select_second_polled_gives_its_output_or_nothing() {
    assert_eq!(select_second_polled::<u8, u16>(Some(2)), Some(Either::Right(2)));
    assert_eq!(select_second_polled::<u8, u16>(None), None);
}

#[test]
fn select_keeps_both_futures() {
    let mut race = select(3u8, 4u16);
    let (a, b) = race.parts_mut();
    assert_eq!((*a, *b), (3, 4));
    *a = 5;
    let (a, b) = race.parts_mut();
    assert_eq!((*a, *b), (5, 4));
}
