use scrap_input::pixel::{argb_to_bgr0, checked_frame_len, Frame, Pixfmt};

#[test]
fn conversion_swaps_first_and_third_byte_and_clears_the_fourth() {
    let pixels = 7 * 5;
    let input: Vec<u8> = (0..pixels * 4).map(|k| (k * 37 % 251) as u8 | 1).collect();
    let output = argb_to_bgr0(&input);
    assert_eq!(output.len(), input.len());
    for i in 0..pixels {
        assert_eq!(output[i * 4], input[i * 4 + 2]);
        assert_eq!(output[i * 4 + 1], input[i * 4 + 1]);
        assert_eq!(output[i * 4 + 2], input[i * 4]);
        assert_eq!(output[i * 4 + 3], 0);
    }
}

#[test]
fn conversion_of_two_known_pixels() {
    let input = vec![0x10, 0x20, 0x30, 0xff, 0x01, 0x02, 0x03, 0x04];
    assert_eq!(argb_to_bgr0(&input), vec![0x30, 0x20, 0x10, 0x00, 0x03, 0x02, 0x01, 0x00]);
}

#[test]
fn conversion_of_nothing_is_nothing() {
    assert_eq!(argb_to_bgr0(&Vec::new()), Vec::<u8>::new());
}

#[test]
fn converting_twice_restores_the_colours_but_not_the_fourth_byte() {
    let input = vec![9, 8, 7, 6];
    assert_eq!(argb_to_bgr0(&argb_to_bgr0(&input)), vec![9, 8, 7, 0]);
}

#[test]
fn frame_length_is_width_times_height_times_four() {
    assert_eq!(checked_frame_len(1920, 1080), Some(8_294_400));
    assert_eq!(checked_frame_len(2, 2), Some(16));
    assert_eq!(checked_frame_len(1, 1), Some(4));
    assert_eq!(checked_frame_len(0, 1080), Some(0));
    assert_eq!(checked_frame_len(1920, 0), Some(0));
}

#[test]
fn frame_length_that_does_not_fit_is_none() {
    assert_eq!(checked_frame_len(usize::MAX, 2), None);
    assert_eq!(checked_frame_len(usize::MAX / 4 + 1, 1), None);
    assert_eq!(checked_frame_len(usize::MAX / 4, 1), Some(usize::MAX / 4 * 4));
    assert_eq!(checked_frame_len(1 << (usize::BITS / 2), 1 << (usize::BITS / 2)), None);
}

#[test]
fn a_frame_takes_only_a_buffer_of_the_right_length() {
    let frame = Frame::new(Pixfmt::BGRA, 2, 3, vec![5; 24]).unwrap();
    assert_eq!(frame.format(), Pixfmt::BGRA);
    assert_eq!(frame.width(), 2);
    assert_eq!(frame.height(), 3);
    assert_eq!(frame.data(), &vec![5; 24]);
    assert_eq!(frame.into_data(), vec![5; 24]);
    assert_eq!(Frame::new(Pixfmt::BGRA, 2, 3, vec![5; 23]), None);
    assert_eq!(Frame::new(Pixfmt::RGBA, 2, 3, vec![5; 25]), None);
    assert_eq!(Frame::new(Pixfmt::RGBA, usize::MAX, 2, vec![]), None);
    assert!(Frame::new(Pixfmt::RGBA, 0, 7, vec![]).is_some());
}
