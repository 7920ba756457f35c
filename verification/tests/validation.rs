use rubato::{update_mask_from_buffers, validate_buffers, ResampleError};

fn stereo(frames: usize) -> Vec<Vec<f64>> {
    vec![vec![0.0f64; frames]; 2]
}

#[test]
fn validate_accepts_matching_shapes() {
    let wave_in = stereo(8);
    let mut wave_out: Vec<Vec<f64>> = vec![Vec::new(), Vec::new()];
    assert_eq!(validate_buffers(&wave_in, &mut wave_out, &[true, true], 2, 8), Ok(()));
}

#[test]
fn validate_rejects_input_channels() {
    let wave_in = stereo(8);
    let mut wave_out: Vec<Vec<f64>> = vec![Vec::new(); 3];
    assert_eq!(
        validate_buffers(&wave_in, &mut wave_out, &[true, true, true], 3, 8),
        Err(ResampleError::WrongNumberOfInputChannels { expected: 3, actual: 2 })
    );
}

#[test]
fn validate_rejects_mask_channels() {
    let wave_in = stereo(8);
    let mut wave_out: Vec<Vec<f64>> = vec![Vec::new(); 2];
    assert_eq!(
        validate_buffers(&wave_in, &mut wave_out, &[true, true, true], 2, 8),
        Err(ResampleError::WrongNumberOfMaskChannels { expected: 2, actual: 3 })
    );
    assert_eq!(
        validate_buffers(&wave_in, &mut wave_out, &[], 2, 8),
        Err(ResampleError::WrongNumberOfMaskChannels { expected: 2, actual: 0 })
    );
}

#[test]
fn validate_rejects_input_frames() {
    let wave_in = vec![vec![0.0f32; 8], vec![0.0f32; 7], vec![0.0f32; 6]];
    let mut wave_out: Vec<Vec<f32>> = vec![Vec::new(); 3];
    assert_eq!(
        validate_buffers(&wave_in, &mut wave_out, &[true, true, true], 3, 8),
        Err(ResampleError::WrongNumberOfInputFrames { channel: 1, expected: 8, actual: 7 })
    );
}

#[test]
fn validate_names_first_active_mismatch() {
    let wave_in = vec![vec![0.0f32; 8], vec![0.0f32; 7], vec![0.0f32; 6]];
    let mut wave_out: Vec<Vec<f32>> = vec![Vec::new(); 3];
    assert_eq!(
        validate_buffers(&wave_in, &mut wave_out, &[true, false, true], 3, 8),
        Err(ResampleError::WrongNumberOfInputFrames { channel: 2, expected: 8, actual: 6 })
    );
}

#[test]
fn validate_ignores_inactive_channels() {
    let wave_in = vec![vec![0.0f32; 8], vec![], vec![0.0f32; 100]];
    let mut wave_out: Vec<Vec<f32>> = vec![Vec::new(); 3];
    assert_eq!(validate_buffers(&wave_in, &mut wave_out, &[true, false, false], 3, 8), Ok(()));
}

#[test]
fn validate_rejects_output_channels() {
    let wave_in = stereo(8);
    let mut wave_out: Vec<Vec<f64>> = vec![Vec::new(); 1];
    assert_eq!(
        validate_buffers(&wave_in, &mut wave_out, &[true, true], 2, 8),
        Err(ResampleError::WrongNumberOfOutputChannels { expected: 2, actual: 1 })
    );
}

#[test]
fn validate_reports_checks_in_order() {
    // Everything is wrong: the input's channel count is named.
    let wave_in = vec![vec![0.0f64; 3]];
    let mut wave_out: Vec<Vec<f64>> = Vec::new();
    assert_eq!(
        validate_buffers(&wave_in, &mut wave_out, &[true, true, true], 2, 8),
        Err(ResampleError::WrongNumberOfInputChannels { expected: 2, actual: 1 })
    );
    // Frames and output are wrong: the frames are named.
    let wave_in = stereo(3);
    assert_eq!(
        validate_buffers(&wave_in, &mut wave_out, &[true, true], 2, 8),
        Err(ResampleError::WrongNumberOfInputFrames { channel: 0, expected: 8, actual: 3 })
    );
}

#[test]
fn validate_leaves_output_alone() {
    let wave_in = stereo(4);
    let mut wave_out = vec![vec![1.0f64, 2.0], vec![3.0f64]];
    assert_eq!(validate_buffers(&wave_in, &mut wave_out, &[true, true], 2, 4), Ok(()));
    assert_eq!(wave_out, vec![vec![1.0f64, 2.0], vec![3.0f64]]);
}

#[test]
fn validate_with_no_channels() {
    let wave_in: Vec<Vec<f64>> = Vec::new();
    let mut wave_out: Vec<Vec<f64>> = Vec::new();
    assert_eq!(validate_buffers(&wave_in, &mut wave_out, &[], 0, 8), Ok(()));
}

#[test]
fn mask_follows_empty_channels() {
    let wave_in = vec![vec![0.0f64; 4], Vec::new(), vec![0.0f64; 1]];
    let mut mask = [false, true, false];
    update_mask_from_buffers(&wave_in, &mut mask);
    assert_eq!(mask, [true, false, true]);
}

#[test]
fn mask_keeps_entries_without_channel() {
    let wave_in = vec![Vec::<f32>::new()];
    let mut mask = [true, true, false];
    update_mask_from_buffers(&wave_in, &mut mask);
    assert_eq!(mask, [false, true, false]);
}

#[test]
fn mask_shorter_than_input() {
    let wave_in = vec![vec![0.5f32], Vec::new(), vec![0.5f32]];
    let mut mask = [false, true];
    update_mask_from_buffers(&wave_in, &mut mask);
    assert_eq!(mask, [true, false]);
    let mut none: [bool; 0] = [];
    update_mask_from_buffers(&wave_in, &mut none);
    assert_eq!(none.len(), 0);
}
