use tarnished::audio::{blend, interleave, split_stereo, upsample, Mixer};

#[test]
fn upsample_zero_stuffs() {
    let src = [1i16, 2, 3];
    let (out, spill) = upsample(&src, 6, 5);
    assert_eq!(out, vec![1, 0, 2, 0, 3, 0]);
    assert_eq!(spill, 5);
}

#[test]
fn upsample_uneven_ratio() {
    let src = [7i16, -8];
    let (out, spill) = upsample(&src, 5, 0);
    // The samples land in slots 0*5/2 = 0 and 1*5/2 = 2.
    assert_eq!(out, vec![7, 0, -8, 0, 0]);
    assert_eq!(spill, 0);
}

#[test]
fn upsample_of_empty_buffer_is_silence() {
    let src: [i16; 0] = [];
    let (out, spill) = upsample(&src, 3, -1);
    assert_eq!(out, vec![0, 0, 0]);
    assert_eq!(spill, -1);
}

#[test]
fn split_stereo_deinterleaves() {
    let buf = [1i16, 2, 3, 4, 5, 6];
    let (l, r) = split_stereo(&buf);
    assert_eq!(l, vec![1, 3, 5]);
    assert_eq!(r, vec![2, 4, 6]);
}

#[test]
fn interleave_restores_what_split_took_apart() {
    let buf = [1i16, 2, 3, 4, 5, 6];
    let (l, r) = split_stereo(&buf);
    assert_eq!(interleave(&l, &r), buf.to_vec());
}

#[test]
fn blend_averages_channels() {
    // Each sample is divided by the channel count, then summed.
    let channels = vec![vec![100i16, -100, 7], vec![50, -50, 7]];
    assert_eq!(blend(&channels, 3), vec![75, -75, 6]);

    // A single channel at full swing passes through unscaled.
    let one = vec![vec![i16::MIN, i16::MAX]];
    assert_eq!(blend(&one, 2), vec![i16::MIN, i16::MAX]);
}

#[test]
fn mixer_counts_channels() {
    let mut m: Mixer<u8> = Mixer::new();
    assert_eq!(m.channels(), 0);
    m.play(1);
    m.play(2);
    assert_eq!(m.channels(), 2);
}
