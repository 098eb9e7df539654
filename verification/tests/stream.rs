use railroad_runners::keys::key_line;
use railroad_runners::liveness::LivenessFlag;
use railroad_runners::protocol::seed_line;
use railroad_runners::relay::tick_line;
use railroad_runners::stream::SharedInput;

#[test]
fn stream_starts_empty() {
    let s = SharedInput::new();
    assert!(s.observed().is_empty());
}

#[test]
fn writes_land_whole_and_in_order() {
    let mut s = SharedInput::new();
    s.write_line(&seed_line(37));
    s.write_line(&tick_line());
    s.write_line(&key_line('w'));
    assert_eq!(s.observed(), b"37\n'\nw\n");
}

#[test]
fn interleaved_writers_never_tear_a_line() {
    // Simulate the tick driver and the input relay taking turns at the
    // shared stream: every line the child can split off is exactly one of
    // the writes, never a mixture.
    let mut s = SharedInput::new();
    let writes: Vec<Vec<u8>> = vec![
        tick_line(),
        key_line('a'),
        tick_line(),
        key_line('d'),
        key_line('q'),
        tick_line(),
    ];
    for w in &writes {
        s.write_line(w);
    }
    let observed = s.observed().clone();
    let mut split: Vec<Vec<u8>> = Vec::new();
    let mut current: Vec<u8> = Vec::new();
    for b in observed {
        current.push(b);
        if b == b'\n' {
            split.push(std::mem::take(&mut current));
        }
    }
    assert!(current.is_empty(), "a trailing partial line was observed");
    assert_eq!(split, writes);
}

#[test]
fn liveness_flag_starts_lowered_and_stays_raised() {
    let mut flag = LivenessFlag::new();
    assert!(!flag.is_finished());
    flag.mark_finished();
    assert!(flag.is_finished());
    // Marking again never lowers it.
    flag.mark_finished();
    assert!(flag.is_finished());
}
