use rubato::{ChunkStream, ResampleError};

fn lanes(stream: &ChunkStream<i32>) -> Vec<Vec<i32>> {
    (0..stream.nbr_channels()).map(|c| stream.buffer().channel(c).to_vec()).collect()
}

#[test]
fn new_stream_is_silent_and_all_active() {
    let stream = ChunkStream::new(3, 2, 5, 8, 0i32);
    assert_eq!(stream.nbr_channels(), 3);
    assert_eq!(stream.nbr_frames_needed(), 5);
    assert_eq!(stream.active_channels(), &[true, true, true][..]);
    assert_eq!(stream.buffer().carry_len(), 4);
    assert_eq!(stream.buffer().room_len(), 8);
    assert_eq!(lanes(&stream), vec![vec![0; 12]; 3]);
}

#[test]
fn accepted_call_installs_and_reserves() {
    let mut stream = ChunkStream::new(2, 1, 3, 3, 0i32);
    let mut out = vec![vec![7, 7], Vec::new()];
    let r = stream.begin(&[vec![1, 2, 3], vec![4, 5, 6]], &mut out, None, 4, -1);
    assert_eq!(r, Ok(()));
    assert_eq!(lanes(&stream), vec![vec![0, 0, 1, 2, 3], vec![0, 0, 4, 5, 6]]);
    assert_eq!(out, vec![vec![7, 7, -1, -1], vec![-1, -1, -1, -1]]);
    stream.finish(&mut out, 3);
    assert_eq!(out, vec![vec![7, 7, -1], vec![-1, -1, -1]]);
}

#[test]
fn second_call_carries_the_end_of_the_first() {
    let mut stream = ChunkStream::new(1, 1, 3, 3, 0i32);
    let mut out = vec![Vec::new()];
    assert_eq!(stream.begin(&[vec![1, 2, 3]], &mut out, None, 0, 0), Ok(()));
    assert_eq!(stream.begin(&[vec![4, 5, 6]], &mut out, None, 0, 0), Ok(()));
    assert_eq!(lanes(&stream), vec![vec![2, 3, 4, 5, 6]]);
    assert_eq!(stream.begin(&[vec![7, 8, 9]], &mut out, None, 0, 0), Ok(()));
    assert_eq!(lanes(&stream), vec![vec![5, 6, 7, 8, 9]]);
}

#[test]
fn refused_call_changes_nothing() {
    let mut stream = ChunkStream::new(2, 1, 3, 3, 0i32);
    let mut out = vec![vec![7, 7], vec![8]];
    assert_eq!(stream.begin(&[vec![1, 2, 3], vec![4, 5, 6]], &mut out, None, 2, 0), Ok(()));
    let before = lanes(&stream);
    let kept = out.clone();

    assert_eq!(
        stream.begin(&[vec![9, 9, 9]], &mut out, None, 5, 0),
        Err(ResampleError::WrongNumberOfInputChannels { expected: 2, actual: 1 })
    );
    assert_eq!(
        stream.begin(&[vec![9, 9, 9], vec![9, 9, 9]], &mut out, Some(&[true]), 5, 0),
        Err(ResampleError::WrongNumberOfMaskChannels { expected: 2, actual: 1 })
    );
    assert_eq!(
        stream.begin(&[vec![9, 9, 9], vec![9, 9]], &mut out, None, 5, 0),
        Err(ResampleError::WrongNumberOfInputFrames { channel: 1, expected: 3, actual: 2 })
    );
    let mut short = vec![vec![7]];
    assert_eq!(
        stream.begin(&[vec![9, 9, 9], vec![9, 9, 9]], &mut short, None, 5, 0),
        Err(ResampleError::WrongNumberOfOutputChannels { expected: 2, actual: 1 })
    );
    assert_eq!(short, vec![vec![7]]);
    assert_eq!(lanes(&stream), before);
    assert_eq!(out, kept);

    // The next accepted call carries on from the last accepted one.
    assert_eq!(stream.begin(&[vec![7, 8, 9], vec![1, 1, 1]], &mut out, None, 2, 0), Ok(()));
    assert_eq!(lanes(&stream), vec![vec![2, 3, 7, 8, 9], vec![5, 6, 1, 1, 1]]);
}

#[test]
fn refused_call_keeps_the_mask() {
    let mut stream = ChunkStream::new(2, 1, 2, 2, 0i32);
    let mut out = vec![Vec::new(), Vec::new()];
    assert_eq!(stream.begin(&[vec![1, 2], vec![]], &mut out, None, 0, 0), Ok(()));
    assert_eq!(stream.active_channels(), &[true, false][..]);
    assert_eq!(
        stream.begin(&[vec![], vec![1]], &mut out, None, 0, 0),
        Err(ResampleError::WrongNumberOfInputFrames { channel: 1, expected: 2, actual: 1 })
    );
    assert_eq!(stream.active_channels(), &[true, false][..]);
    assert_eq!(
        stream.begin(&[vec![1, 2], vec![1, 2]], &mut out, Some(&[false, true, true]), 0, 0),
        Err(ResampleError::WrongNumberOfMaskChannels { expected: 2, actual: 3 })
    );
    assert_eq!(stream.active_channels(), &[true, false][..]);
    assert_eq!(stream.nbr_frames_needed(), 2);
}

#[test]
fn inactive_channel_is_slid_but_not_written() {
    let mut stream = ChunkStream::new(2, 1, 3, 3, 0i32);
    let mut out = vec![vec![5], vec![6]];
    assert_eq!(stream.begin(&[vec![1, 2, 3], vec![4, 5, 6]], &mut out, None, 2, 0), Ok(()));
    let r = stream.begin(&[vec![7, 8, 9], vec![]], &mut out, None, 4, 0);
    assert_eq!(r, Ok(()));
    assert_eq!(stream.active_channels(), &[true, false][..]);
    assert_eq!(lanes(&stream), vec![vec![2, 3, 7, 8, 9], vec![5, 6, 4, 5, 6]]);
    assert_eq!(out, vec![vec![5, 0, 0, 0], vec![6, 0]]);
    stream.finish(&mut out, 1);
    assert_eq!(out, vec![vec![5], vec![6, 0]]);
}

#[test]
fn given_mask_overrides_what_channels_hold() {
    let mut stream = ChunkStream::new(2, 1, 2, 2, 0i32);
    let mut out = vec![Vec::new(), Vec::new()];
    let r = stream.begin(&[vec![1, 2], vec![3, 4, 5, 6, 7]], &mut out, Some(&[true, false]), 3, 9);
    assert_eq!(r, Ok(()));
    assert_eq!(stream.active_channels(), &[true, false][..]);
    assert_eq!(lanes(&stream), vec![vec![0, 0, 1, 2], vec![0, 0, 0, 0]]);
    assert_eq!(out, vec![vec![9, 9, 9], vec![]]);
    // An empty channel that the mask calls active is held to the count.
    assert_eq!(
        stream.begin(&[vec![1, 2], vec![]], &mut out, Some(&[true, true]), 3, 9),
        Err(ResampleError::WrongNumberOfInputFrames { channel: 1, expected: 2, actual: 0 })
    );
}

#[test]
fn need_can_change_between_calls() {
    let mut stream = ChunkStream::new(1, 1, 2, 3, 0i32);
    let mut out = vec![Vec::new()];
    assert_eq!(stream.begin(&[vec![1, 2]], &mut out, None, 0, 0), Ok(()));
    stream.set_needed(3, 0);
    assert_eq!(stream.nbr_frames_needed(), 3);
    assert_eq!(stream.buffer().room_len(), 3);
    assert_eq!(stream.begin(&[vec![3, 4, 5]], &mut out, None, 0, 0), Ok(()));
    assert_eq!(lanes(&stream), vec![vec![1, 2, 3, 4, 5]]);
    // More than there is room for: the lanes grow.
    stream.set_needed(5, 0);
    assert_eq!(stream.buffer().room_len(), 5);
    assert_eq!(lanes(&stream), vec![vec![1, 2, 3, 4, 5, 0, 0]]);
    assert_eq!(stream.begin(&[vec![6, 7, 8, 9, 10]], &mut out, None, 0, 0), Ok(()));
    assert_eq!(lanes(&stream), vec![vec![4, 5, 6, 7, 8, 9, 10]]);
    stream.set_needed(1, 0);
    assert_eq!(stream.buffer().room_len(), 5);
    assert_eq!(stream.begin(&[vec![11]], &mut out, None, 0, 0), Ok(()));
    assert_eq!(&lanes(&stream)[0][..3], &[9, 10, 11]);
}

#[test]
fn window_is_the_end_of_the_stream() {
    let sinc_len = 3usize;
    let mut stream = ChunkStream::new(1, sinc_len, 4, 9, 0i32);
    let mut heard = vec![0i32; 2 * sinc_len];
    let mut out = vec![Vec::new()];
    let mut next = 1;
    for need in [4usize, 9, 1, 2, 7, 0, 3] {
        stream.set_needed(need, 0);
        let fresh: Vec<i32> = (next..next + need as i32).collect();
        next += need as i32;
        assert_eq!(stream.begin(&[fresh.clone()], &mut out, Some(&[true]), 0, 0), Ok(()));
        heard.extend_from_slice(&fresh);
        let window = &stream.buffer().channel(0)[..2 * sinc_len + need];
        assert_eq!(window, &heard[heard.len() - 2 * sinc_len - need..]);
    }
}

#[test]
fn finish_gives_every_active_channel_the_same_length() {
    let mut stream = ChunkStream::new(3, 1, 2, 2, 0.0f32);
    let mut out = vec![vec![1.0f32; 30], Vec::new(), vec![2.0f32; 5]];
    let r = stream.begin(&[vec![0.0; 2], vec![0.0; 2], vec![]], &mut out, None, 12, 0.0);
    assert_eq!(r, Ok(()));
    stream.finish(&mut out, 11);
    assert_eq!(out[0].len(), 11);
    assert_eq!(out[1].len(), 11);
    assert_eq!(out[2], vec![2.0f32; 5]);
}
