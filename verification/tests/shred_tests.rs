use pulsar_vault::shred::{next_overwrite_len, OVERWRITE_BUFFER_LEN};

fn pass(file_size: u64, buffer_len: usize) -> Vec<usize> {
    let mut writes = Vec::new();
    let mut written = 0u64;
    while let Some(n) = next_overwrite_len(file_size, written, buffer_len) {
        writes.push(n);
        written += n as u64;
    }
    writes
}

#[test]
fn overwrite_pass_ends_at_the_file_size() {
    assert_eq!(pass(0, OVERWRITE_BUFFER_LEN), Vec::<usize>::new());
    assert_eq!(pass(10, OVERWRITE_BUFFER_LEN), vec![10]);
    assert_eq!(pass(65_536, OVERWRITE_BUFFER_LEN), vec![65_536]);
    assert_eq!(pass(65_537, OVERWRITE_BUFFER_LEN), vec![65_536, 1]);
    assert_eq!(pass(200_000, OVERWRITE_BUFFER_LEN), vec![65_536, 65_536, 65_536, 3_392]);
    let big = 5_000_000_000u64;
    let writes = pass(big, OVERWRITE_BUFFER_LEN);
    assert_eq!(writes.iter().map(|&n| n as u64).sum::<u64>(), big);
    assert!(writes.iter().all(|&n| n > 0 && n <= OVERWRITE_BUFFER_LEN));
}

#[test]
fn next_overwrite_len_values() {
    assert_eq!(next_overwrite_len(100, 100, 64), None);
    assert_eq!(next_overwrite_len(100, 150, 64), None);
    assert_eq!(next_overwrite_len(100, 0, 64), Some(64));
    assert_eq!(next_overwrite_len(100, 64, 64), Some(36));
    assert_eq!(next_overwrite_len(u64::MAX, 0, 1), Some(1));
}
