use voice_recorder::session::DriverEventHandler;

#[test]
fn mix_uniform_buffers_sum() {
    let data = vec![vec![100i16; 4], vec![100i16; 4]];
    let out = DriverEventHandler::merge_audio(data);
    assert_eq!(out, vec![200i16; 4]);
}

#[test]
fn mix_saturates_positive() {
    // Three buffers of 15000 sum to 45000, far past the 16-bit range.
    let data = vec![vec![15000i16; 3], vec![15000i16; 3], vec![15000i16; 3]];
    let out = DriverEventHandler::merge_audio(data);
    assert_eq!(out, vec![32767i16; 3]);
}

#[test]
fn mix_saturates_negative() {
    let data = vec![vec![-20000i16; 2], vec![-20000i16; 2]];
    let out = DriverEventHandler::merge_audio(data);
    assert_eq!(out, vec![-32768i16; 2]);
}

#[test]
fn mix_output_sized_by_first_buffer() {
    // The first buffer fixes the output length: shorter buffers are
    // zero-padded, longer ones truncated.
    let data = vec![vec![1i16, 1, 1], vec![2i16], vec![5i16, 5, 5, 5, 5]];
    let out = DriverEventHandler::merge_audio(data);
    assert_eq!(out, vec![8i16, 6, 6]);
}

#[test]
fn mix_no_buffers_yields_empty() {
    let out = DriverEventHandler::merge_audio(Vec::new());
    assert!(out.is_empty());
}

#[test]
fn mix_opposite_samples_cancel() {
    let data = vec![vec![32767i16, -32768], vec![-32767i16, 32767]];
    let out = DriverEventHandler::merge_audio(data);
    assert_eq!(out, vec![0i16, -1]);
}
