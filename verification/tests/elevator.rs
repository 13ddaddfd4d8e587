use rgb_led_animation::color::Color;
use rgb_led_animation::led_animation::elevator_animation::{
    ElevatorDirection, ElevatorStartingPosition, Rgb8ElevatorAnimation,
};
use rgb_led_animation::RgbLedAnimation;

const BLUE: Color = Color { r: 0, g: 0, b: 90 };
const OFF: Color = Color { r: 0, g: 0, b: 0 };

fn blue(level: u8) -> Color {
    Color::new(0, 0, level)
}

fn elevator(
    direction: ElevatorDirection,
    position: ElevatorStartingPosition,
) -> Rgb8ElevatorAnimation {
    Rgb8ElevatorAnimation::new(BLUE, 10, 3, 30, false, direction, 1, position)
}

fn lit_indices(animation: &Rgb8ElevatorAnimation) -> Vec<usize> {
    let head = animation.head_idx();
    let tail = animation.tail_idx();
    let low = head.min(tail);
    let high = head.max(tail);
    let pixels: &Vec<Color> = animation.as_ref();
    (0..pixels.len())
        .filter(|i| low <= (*i as isize) && (*i as isize) <= high)
        .collect()
}

#[test]
fn new_elevator_is_all_off() {
    let animation = elevator(ElevatorDirection::Up, ElevatorStartingPosition::Center);
    let pixels: &Vec<Color> = animation.as_ref();
    assert_eq!(pixels, &vec![OFF; 10]);
}

#[test]
fn elevator_starts_below_with_the_head_facing_the_direction() {
    let up = elevator(ElevatorDirection::Up, ElevatorStartingPosition::Below);
    assert_eq!((up.head_idx(), up.tail_idx()), (-1, -3));
    let down = elevator(ElevatorDirection::Down, ElevatorStartingPosition::Below);
    assert_eq!((down.head_idx(), down.tail_idx()), (-3, -1));
}

#[test]
fn elevator_starts_above_with_the_head_facing_the_direction() {
    let up = elevator(ElevatorDirection::Up, ElevatorStartingPosition::Above);
    assert_eq!((up.head_idx(), up.tail_idx()), (12, 10));
    let down = elevator(ElevatorDirection::Down, ElevatorStartingPosition::Above);
    assert_eq!((down.head_idx(), down.tail_idx()), (10, 12));
}

#[test]
fn elevator_starts_at_the_first_led_when_centered() {
    let up = elevator(ElevatorDirection::Up, ElevatorStartingPosition::Center);
    assert_eq!((up.head_idx(), up.tail_idx()), (2, 0));
    let down = elevator(ElevatorDirection::Down, ElevatorStartingPosition::Center);
    assert_eq!((down.head_idx(), down.tail_idx()), (0, 2));
}

#[test]
fn elevator_rising_from_below_moves_one_led_per_frame() {
    let mut animation = elevator(ElevatorDirection::Up, ElevatorStartingPosition::Below);
    let mut frames: isize = 0;
    while frames <= 20 {
        assert_eq!(animation.tail_idx(), -3 + frames);
        assert_eq!(animation.head_idx(), -1 + frames);
        animation.next_frame();
        frames += 1;
    }
}

#[test]
fn elevator_lights_leds_only_once_the_bar_reaches_them() {
    let mut animation = elevator(ElevatorDirection::Up, ElevatorStartingPosition::Below);
    let pixels: &Vec<Color> = animation.as_ref();
    assert_eq!(pixels, &vec![OFF; 10]);

    animation.next_frame();
    let mut expected = vec![OFF; 10];
    expected[0] = blue(30);
    let pixels: &Vec<Color> = animation.as_ref();
    assert_eq!(pixels, &expected);

    animation.next_frame();
    expected[0] = blue(60);
    expected[1] = blue(30);
    let pixels: &Vec<Color> = animation.as_ref();
    assert_eq!(pixels, &expected);

    animation.next_frame();
    expected[0] = blue(90);
    expected[1] = blue(60);
    expected[2] = blue(30);
    let pixels: &Vec<Color> = animation.as_ref();
    assert_eq!(pixels, &expected);

    // the tail has passed the first LED: it fades out again
    animation.next_frame();
    expected[0] = blue(60);
    expected[1] = blue(90);
    expected[2] = blue(60);
    expected[3] = blue(30);
    let pixels: &Vec<Color> = animation.as_ref();
    assert_eq!(pixels, &expected);
}

#[test]
fn elevator_leaves_the_strip_dark_behind_it() {
    let mut animation = elevator(ElevatorDirection::Up, ElevatorStartingPosition::Below);
    let mut frames: u32 = 0;
    while frames < 40 {
        animation.next_frame();
        frames += 1;
    }
    assert_eq!((animation.head_idx(), animation.tail_idx()), (39, 37));
    let pixels: &Vec<Color> = animation.as_ref();
    assert_eq!(pixels, &vec![OFF; 10]);
}

#[test]
fn elevator_descending_from_above_enters_at_the_last_led() {
    let mut animation = elevator(ElevatorDirection::Down, ElevatorStartingPosition::Above);
    animation.next_frame();
    assert_eq!((animation.head_idx(), animation.tail_idx()), (9, 11));
    let mut expected = vec![OFF; 10];
    expected[9] = blue(30);
    let pixels: &Vec<Color> = animation.as_ref();
    assert_eq!(pixels, &expected);
}

#[test]
fn change_direction_swaps_head_and_tail_and_keeps_what_is_lit() {
    let mut animation = elevator(ElevatorDirection::Up, ElevatorStartingPosition::Below);
    animation.next_frame();
    animation.next_frame();
    animation.next_frame();
    assert_eq!((animation.head_idx(), animation.tail_idx()), (2, 0));
    let lit_before = lit_indices(&animation);
    let pixels_before: Vec<Color> = animation.as_ref().clone();

    animation.change_direction();

    assert_eq!((animation.head_idx(), animation.tail_idx()), (0, 2));
    assert_eq!(animation.direction(), ElevatorDirection::Down);
    assert_eq!(lit_indices(&animation), lit_before);
    assert_eq!(lit_before, vec![0, 1, 2]);
    let pixels: &Vec<Color> = animation.as_ref();
    assert_eq!(pixels, &pixels_before);

    // the next frame moves the bar the other way
    animation.next_frame();
    assert_eq!((animation.head_idx(), animation.tail_idx()), (-1, 1));
    let mut expected = vec![OFF; 10];
    expected[0] = blue(90);
    expected[1] = blue(90);
    let pixels: &Vec<Color> = animation.as_ref();
    assert_eq!(pixels, &expected);
}

#[test]
fn change_direction_twice_restores_the_elevator() {
    let mut animation = elevator(ElevatorDirection::Up, ElevatorStartingPosition::Center);
    animation.change_direction();
    animation.change_direction();
    assert_eq!((animation.head_idx(), animation.tail_idx()), (2, 0));
    assert_eq!(animation.direction(), ElevatorDirection::Up);
}

#[test]
fn stopped_elevator_stays_and_settles() {
    let mut animation = Rgb8ElevatorAnimation::new(
        BLUE,
        5,
        2,
        40,
        true,
        ElevatorDirection::Up,
        3,
        ElevatorStartingPosition::Center,
    );
    let expected_levels: [u8; 4] = [40, 80, 90, 90];
    for level in expected_levels {
        animation.next_frame();
        assert_eq!((animation.head_idx(), animation.tail_idx()), (1, 0));
        let pixels: &Vec<Color> = animation.as_ref();
        assert_eq!(pixels, &vec![blue(level), blue(level), OFF, OFF, OFF]);
    }
}

#[test]
fn set_speed_takes_effect_with_the_next_frame() {
    let mut animation = elevator(ElevatorDirection::Up, ElevatorStartingPosition::Below);
    animation.set_speed(4);
    assert_eq!((animation.head_idx(), animation.tail_idx()), (-1, -3));
    animation.next_frame();
    assert_eq!((animation.head_idx(), animation.tail_idx()), (3, 1));
    animation.set_speed(0);
    animation.next_frame();
    assert_eq!((animation.head_idx(), animation.tail_idx()), (3, 1));
}

#[test]
fn set_color_takes_effect_with_the_next_frame() {
    let mut animation = Rgb8ElevatorAnimation::new(
        BLUE,
        2,
        1,
        50,
        true,
        ElevatorDirection::Up,
        1,
        ElevatorStartingPosition::Center,
    );
    animation.next_frame();
    animation.set_color(Color::new(100, 0, 0));
    let pixels: &Vec<Color> = animation.as_ref();
    assert_eq!(pixels, &vec![blue(50), OFF]);
    animation.next_frame();
    let pixels: &Vec<Color> = animation.as_ref();
    assert_eq!(pixels, &vec![Color::new(50, 0, 0), OFF]);
    animation.next_frame();
    let pixels: &Vec<Color> = animation.as_ref();
    assert_eq!(pixels, &vec![Color::new(100, 0, 0), OFF]);
}

#[test]
fn elevator_positions_stop_at_the_ends_of_their_range() {
    let mut animation = Rgb8ElevatorAnimation::new(
        BLUE,
        3,
        3,
        30,
        false,
        ElevatorDirection::Up,
        usize::MAX,
        ElevatorStartingPosition::Below,
    );
    animation.next_frame();
    assert_eq!((animation.head_idx(), animation.tail_idx()), (isize::MAX, isize::MAX));
    let pixels: &Vec<Color> = animation.as_ref();
    assert_eq!(pixels, &vec![OFF; 3]);
    animation.change_direction();
    animation.next_frame();
    assert_eq!((animation.head_idx(), animation.tail_idx()), (isize::MIN, isize::MIN));
    animation.next_frame();
    assert_eq!((animation.head_idx(), animation.tail_idx()), (isize::MIN, isize::MIN));
}

#[test]
fn elevator_longer_than_the_range_of_positions_starts_at_its_ends() {
    let below = Rgb8ElevatorAnimation::new(
        BLUE,
        2,
        usize::MAX,
        30,
        true,
        ElevatorDirection::Up,
        1,
        ElevatorStartingPosition::Below,
    );
    assert_eq!((below.head_idx(), below.tail_idx()), (-1, isize::MIN));
    let above = Rgb8ElevatorAnimation::new(
        BLUE,
        2,
        usize::MAX,
        30,
        true,
        ElevatorDirection::Up,
        1,
        ElevatorStartingPosition::Above,
    );
    assert_eq!((above.head_idx(), above.tail_idx()), (isize::MAX, 2));
}

#[test]
fn elevator_of_length_zero_and_empty_strip_do_not_fail() {
    let mut animation = Rgb8ElevatorAnimation::new(
        BLUE,
        0,
        0,
        30,
        false,
        ElevatorDirection::Down,
        1,
        ElevatorStartingPosition::Above,
    );
    assert_eq!((animation.head_idx(), animation.tail_idx()), (0, -1));
    animation.next_frame();
    assert_eq!((animation.head_idx(), animation.tail_idx()), (-1, -2));
    let pixels: &Vec<Color> = animation.as_ref();
    assert!(pixels.is_empty());
}
