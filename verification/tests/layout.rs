use rubato::{
    fixed_in_end_index, fixed_out_next_needed, fixed_out_room, make_bank, padded_sinc_len,
    resize_active, truncate_active, StreamBuffer,
};

#[test]
fn sinc_len_is_padded_to_eight() {
    assert_eq!(padded_sinc_len(0), 0);
    assert_eq!(padded_sinc_len(1), 8);
    assert_eq!(padded_sinc_len(8), 8);
    assert_eq!(padded_sinc_len(9), 16);
    assert_eq!(padded_sinc_len(60), 64);
    assert_eq!(padded_sinc_len(256), 256);
    assert_eq!(padded_sinc_len(usize::MAX - 7), usize::MAX - 7);
}

#[test]
fn bank_rows_are_reversed_phases() {
    // Six taps, three phases of two taps each.
    let taps = [10i32, 11, 12, 20, 21, 22];
    let bank = make_bank(&taps, 2, 3);
    assert_eq!(bank, vec![vec![12, 22], vec![11, 21], vec![10, 20]]);
}

#[test]
fn bank_centre_tap_is_in_last_row() {
    // The middle of the long filter falls on a whole sample: it is the
    // centre tap of the last row.
    let sinc_len = 16usize;
    let factor = 4usize;
    let taps: Vec<f64> = (0..sinc_len * factor)
        .map(|x| if x == sinc_len * factor / 2 { 1.0 } else { 0.25 })
        .collect();
    let bank = make_bank(&taps, sinc_len, factor);
    assert_eq!(bank.len(), 4);
    assert!(bank.iter().all(|row| row.len() == 16));
    assert_eq!(bank[3][8], 1.0);
    let ones = bank.iter().flatten().filter(|t| **t == 1.0).count();
    assert_eq!(ones, 1);
}

#[test]
fn bank_matches_formula() {
    let sinc_len = 5usize;
    let factor = 7usize;
    let taps: Vec<usize> = (0..sinc_len * factor).collect();
    let bank = make_bank(&taps, sinc_len, factor);
    for n in 0..factor {
        for p in 0..sinc_len {
            assert_eq!(bank[factor - 1 - n][p], factor * p + n);
        }
    }
}

#[test]
fn bank_of_nothing() {
    let taps: [f32; 0] = [];
    assert_eq!(make_bank(&taps, 0, 3), vec![Vec::<f32>::new(); 3]);
    assert_eq!(make_bank(&taps, 4, 0), Vec::<Vec<f32>>::new());
}

#[test]
fn buffer_starts_silent() {
    let buffer = StreamBuffer::new(2, 4, 10, 0.0f64);
    assert_eq!(buffer.channels(), 2);
    assert_eq!(buffer.carry_len(), 8);
    assert_eq!(buffer.room_len(), 10);
    assert_eq!(buffer.channel(0), &[0.0f64; 18][..]);
    assert_eq!(buffer.channel(1), &[0.0f64; 18][..]);
}

#[test]
fn buffer_install_then_slide() {
    let mut buffer = StreamBuffer::new(2, 1, 4, 0i32);
    buffer.slide(4);
    buffer.install(&[vec![1, 2, 3, 4], vec![5, 6, 7, 8]], &[true, true]);
    assert_eq!(buffer.channel(0), &[0, 0, 1, 2, 3, 4][..]);
    assert_eq!(buffer.channel(1), &[0, 0, 5, 6, 7, 8][..]);
    buffer.slide(4);
    assert_eq!(buffer.channel(0), &[3, 4, 1, 2, 3, 4][..]);
    buffer.install(&[vec![9, 10, 11, 12], vec![13, 14, 15, 16]], &[true, true]);
    assert_eq!(buffer.channel(0), &[3, 4, 9, 10, 11, 12][..]);
    assert_eq!(buffer.channel(1), &[7, 8, 13, 14, 15, 16][..]);
}

#[test]
fn buffer_skips_inactive_channel() {
    let mut buffer = StreamBuffer::new(2, 1, 3, 0i32);
    buffer.install(&[vec![1, 2, 3], vec![]], &[true, false]);
    assert_eq!(buffer.channel(0), &[0, 0, 1, 2, 3][..]);
    assert_eq!(buffer.channel(1), &[0, 0, 0, 0, 0][..]);
    buffer.install(&[vec![7, 7, 7], vec![4, 5, 6]], &[false, true]);
    assert_eq!(buffer.channel(0), &[0, 0, 1, 2, 3][..]);
    assert_eq!(buffer.channel(1), &[0, 0, 4, 5, 6][..]);
}

#[test]
fn buffer_short_chunk_keeps_older_carry() {
    // Chunks shorter than the carry region: the carry spans several calls.
    let mut buffer = StreamBuffer::new(1, 2, 2, 0i32);
    let mut stream = vec![0i32; 4];
    let mut filled = 0usize;
    for call in 0..5 {
        let fresh = vec![10 * call + 1, 10 * call + 2];
        buffer.slide(filled);
        buffer.install(&[fresh.clone()], &[true]);
        filled = fresh.len();
        stream.extend_from_slice(&fresh);
        let window = &buffer.channel(0)[..4 + filled];
        assert_eq!(window, &stream[stream.len() - 4 - filled..]);
    }
}

#[test]
fn buffer_varying_chunks_follow_stream() {
    let mut buffer = StreamBuffer::new(1, 1, 6, 0i32);
    let mut stream = vec![0i32; 2];
    let mut filled = 0usize;
    let mut next = 1;
    for len in [3usize, 6, 1, 0, 4] {
        let fresh: Vec<i32> = (next..next + len as i32).collect();
        next += len as i32;
        buffer.slide(filled);
        buffer.install(&[fresh.clone()], &[true]);
        filled = len;
        stream.extend_from_slice(&fresh);
        let window = &buffer.channel(0)[..2 + filled];
        assert_eq!(window, &stream[stream.len() - 2 - filled..]);
    }
}

#[test]
fn buffer_tap_start() {
    let buffer = StreamBuffer::new(1, 4, 10, 0.0f32);
    // Lanes are 18 long, new samples start at 8.
    assert_eq!(buffer.tap_start(0, 4), Some(8));
    assert_eq!(buffer.tap_start(-4, 4), Some(4));
    assert_eq!(buffer.tap_start(-8, 4), Some(0));
    assert_eq!(buffer.tap_start(-9, 4), None);
    assert_eq!(buffer.tap_start(6, 4), Some(14));
    assert_eq!(buffer.tap_start(7, 4), None);
    assert_eq!(buffer.tap_start(10, 0), Some(18));
    assert_eq!(buffer.tap_start(11, 0), None);
    assert_eq!(buffer.tap_start(isize::MIN, 1), None);
    assert_eq!(buffer.tap_start(isize::MAX, 1), None);
    assert_eq!(buffer.tap_start(0, usize::MAX), None);
}

#[test]
fn resize_touches_active_channels_only() {
    let mut wave_out = vec![vec![1.0f64, 2.0, 3.0], vec![4.0f64], vec![5.0f64]];
    resize_active(&mut wave_out, &[true, true, false], 2, 0.0);
    assert_eq!(wave_out, vec![vec![1.0, 2.0], vec![4.0, 0.0], vec![5.0]]);
}

#[test]
fn truncate_touches_active_channels_only() {
    let mut wave_out = vec![vec![1.0f64, 2.0, 3.0], vec![4.0f64], vec![5.0f64, 6.0]];
    truncate_active(&mut wave_out, &[true, true, false], 1);
    assert_eq!(wave_out, vec![vec![1.0], vec![4.0], vec![5.0, 6.0]]);
    truncate_active(&mut wave_out, &[false, true, true], 5);
    assert_eq!(wave_out, vec![vec![1.0], vec![4.0], vec![5.0, 6.0]]);
}

#[test]
fn shaped_output_has_equal_lengths() {
    let mut wave_out = vec![vec![9.0f32; 3], Vec::new(), vec![9.0f32; 40], vec![7.0f32]];
    let mask = [true, true, true, false];
    resize_active(&mut wave_out, &mask, 20, 0.0);
    truncate_active(&mut wave_out, &mask, 17);
    assert_eq!(wave_out[0].len(), 17);
    assert_eq!(wave_out[1].len(), 17);
    assert_eq!(wave_out[2].len(), 17);
    assert_eq!(wave_out[3], vec![7.0f32]);
}

#[test]
fn fixed_in_stops_before_the_end() {
    assert_eq!(fixed_in_end_index(1024, 64), 959);
    assert_eq!(fixed_in_end_index(8, 64), -57);
    assert_eq!(fixed_in_end_index(0, 0), -1);
}

#[test]
fn fixed_out_room_is_half_as_much_again() {
    assert_eq!(fixed_out_room(855), 1282);
    assert_eq!(fixed_out_room(0), 0);
    assert_eq!(fixed_out_room(1), 1);
}

#[test]
fn fixed_out_next_need() {
    assert_eq!(fixed_out_next_needed(855, -64, 64), Some(855));
    assert_eq!(fixed_out_next_needed(855, -3, 64), Some(916));
    assert_eq!(fixed_out_next_needed(855, 2, 64), Some(921));
    assert_eq!(fixed_out_next_needed(10, -80, 64), None);
    assert_eq!(fixed_out_next_needed(16, -80, 64), Some(0));
    assert_eq!(fixed_out_next_needed(15, -80, 64), None);
    assert_eq!(fixed_out_next_needed(usize::MAX, 1, 0), None);
    assert_eq!(fixed_out_next_needed(usize::MAX, -1, 1), Some(usize::MAX));
    assert_eq!(fixed_out_next_needed(0, isize::MIN, 0), None);
}
