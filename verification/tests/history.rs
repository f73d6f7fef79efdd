use redox_console::history::{HistoryBuffer, HISTORY_CAPACITY};

#[test]
fn empty_buffer_grows_one_per_append() {
    let mut h: HistoryBuffer<u32> = HistoryBuffer::new();
    assert_eq!(h.len(), 0);
    for i in 0..50u32 {
        h.append(i);
        assert_eq!(h.len(), (i + 1) as usize);
    }
    assert_eq!(h.samples()[0], 0);
    assert_eq!(h.samples()[49], 49);
}

#[test]
fn length_is_min_of_appends_and_capacity() {
    for n in [0usize, 1, 59, 60, 61, 100, 500] {
        let mut h: HistoryBuffer<u64> = HistoryBuffer::new();
        for i in 0..n {
            h.append(i as u64);
        }
        assert_eq!(h.len(), n.min(HISTORY_CAPACITY));
    }
}

#[test]
fn contents_are_last_sixty_in_insertion_order() {
    let mut h: HistoryBuffer<u64> = HistoryBuffer::new();
    for i in 0..200u64 {
        h.append(i);
    }
    assert_eq!(h.len(), 60);
    for (k, v) in h.samples().iter().enumerate() {
        assert_eq!(*v, 140 + k as u64);
    }
}

#[test]
fn sixty_first_append_evicts_oldest() {
    // A buffer seeded with three samples, as the CPU history starts.
    let mut h = HistoryBuffer::from_samples(vec![200u32, 220, 245]);
    // 57 further appends bring the length to the capacity without eviction.
    for i in 0..57u32 {
        h.append(1000 + i);
        assert_eq!(h.samples()[0], 200);
    }
    assert_eq!(h.len(), 60);
    // The 61st append overall evicts the oldest sample; the new head is the
    // value that was appended 60 calls ago.
    h.append(9999);
    assert_eq!(h.len(), 60);
    assert_eq!(h.samples()[0], 220);
    assert_eq!(h.samples()[59], 9999);
}
