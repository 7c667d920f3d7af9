use stratum_relay::frames::{FrameDecoder, FrameError};

fn drain(d: &mut FrameDecoder) -> Result<Vec<Vec<u8>>, FrameError> {
    let mut out: Vec<Vec<u8>> = Vec::new();
    loop {
        match d.next_frame() {
            Ok(Some(f)) => out.push(f),
            Ok(None) => return Ok(out),
            Err(e) => return Err(e),
        }
    }
}

#[test]
fn frames_split_on_delimiter() {
    let mut d = FrameDecoder::new(1024);
    d.feed(b"alpha\nbeta\ngam");
    assert_eq!(drain(&mut d), Ok(vec![b"alpha".to_vec(), b"beta".to_vec()]));
    d.feed(b"ma\n");
    assert_eq!(drain(&mut d), Ok(vec![b"gamma".to_vec()]));
    assert_eq!(drain(&mut d), Ok(vec![]));
}

#[test]
fn empty_frames_are_frames() {
    let mut d = FrameDecoder::new(16);
    d.feed(b"\n\nx\n");
    assert_eq!(
        drain(&mut d),
        Ok(vec![b"".to_vec(), b"".to_vec(), b"x".to_vec()])
    );
}

#[test]
fn frame_spanning_many_reads() {
    let mut d = FrameDecoder::new(1024);
    d.feed(b"he");
    assert_eq!(drain(&mut d), Ok(vec![]));
    d.feed(b"ll");
    assert_eq!(drain(&mut d), Ok(vec![]));
    d.feed(b"o\n");
    assert_eq!(drain(&mut d), Ok(vec![b"hello".to_vec()]));
}

#[test]
fn at_bound_without_delimiter_is_tolerated() {
    let mut d = FrameDecoder::new(4);
    d.feed(b"abcd");
    assert_eq!(drain(&mut d), Ok(vec![]));
    d.feed(b"\n");
    assert_eq!(drain(&mut d), Ok(vec![b"abcd".to_vec()]));
}

#[test]
fn over_bound_without_delimiter_is_frame_too_large() {
    let mut d = FrameDecoder::new(4);
    d.feed(b"abcde");
    assert_eq!(drain(&mut d), Err(FrameError::FrameTooLarge));
    // the buffer was discarded; the decoder accepts nothing stale afterwards
    assert_eq!(drain(&mut d), Ok(vec![]));
    d.feed(b"ok\n");
    assert_eq!(drain(&mut d), Ok(vec![b"ok".to_vec()]));
}

#[test]
fn delimiter_already_buffered_beats_the_bound() {
    // a complete frame is delivered even when the read that brought it was big
    let mut d = FrameDecoder::new(4);
    d.feed(b"abc\nd");
    assert_eq!(drain(&mut d), Ok(vec![b"abc".to_vec()]));
}

#[test]
fn fragmentation_invariance_of_framing() {
    let stream: &[u8] = b"{\"id\":1,\"method\":\"mining.submit\"}\nnoise\n{\"x\":2}\ntail";
    let mut whole = FrameDecoder::new(1024);
    whole.feed(stream);
    let expect = drain(&mut whole).unwrap();
    for cut in 0..=stream.len() {
        let mut d = FrameDecoder::new(1024);
        let mut got: Vec<Vec<u8>> = Vec::new();
        d.feed(&stream[..cut]);
        got.extend(drain(&mut d).unwrap());
        d.feed(&stream[cut..]);
        got.extend(drain(&mut d).unwrap());
        assert_eq!(got, expect);
    }
}
