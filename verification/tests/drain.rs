use lx200::drain::{Drain, MESSAGES, SCRATCH};

#[test]
fn drain_starts_incomplete() {
    assert_eq!(MESSAGES, 2);
    assert_eq!(SCRATCH, 8);
    assert!(!Drain::new().is_complete());
}

#[test]
fn drain_counts_terminators_across_reads() {
    let mut drain = Drain::new();
    let mut chunk = b"updating".to_vec();
    assert!(!drain.feed(&mut chunk));
    assert_eq!(chunk, [0u8; 8]);
    let mut chunk = b"\xDF     ".to_vec();
    assert!(!drain.feed(&mut chunk));
    assert_eq!(chunk, [0u8; 6]);
    let mut chunk = Vec::new();
    assert!(!drain.feed(&mut chunk));
    assert!(!drain.is_complete());
    let mut chunk = b"\xDF".to_vec();
    assert!(drain.feed(&mut chunk));
    assert_eq!(chunk, [0u8]);
    assert!(drain.is_complete());
}

#[test]
fn drain_in_one_read() {
    let mut drain = Drain::new();
    let mut chunk = b"a\xDFb\xDF".to_vec();
    assert!(drain.feed(&mut chunk));
    assert_eq!(chunk, [0u8; 4]);
}

#[test]
fn drain_with_more_than_two_terminators() {
    let mut drain = Drain::new();
    let mut chunk = b"\xDF\xDF\xDF".to_vec();
    assert!(drain.feed(&mut chunk));
    assert!(drain.is_complete());
    let mut chunk = b"\xDF".to_vec();
    assert!(drain.feed(&mut chunk));
}

#[test]
fn drain_empty_reads_change_nothing() {
    let mut drain = Drain::new();
    for _ in 0..100 {
        let mut chunk = Vec::new();
        assert!(!drain.feed(&mut chunk));
    }
    let mut chunk = b"\xDF\xDF".to_vec();
    assert!(drain.feed(&mut chunk));
}
