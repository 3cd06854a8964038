use obce::utils::is_subsequence;

#[test]
fn finds_contiguous_runs() {
    let src: [u32; 5] = [1, 2, 3, 4, 5];
    assert!(is_subsequence(&src, &[2u32, 3]));
    assert!(is_subsequence(&src, &[1u32]));
    assert!(is_subsequence(&src, &[3u32, 4, 5]));
    assert!(is_subsequence(&src, &src));
}

#[test]
fn rejects_gapped_or_absent_runs() {
    let src: [u32; 5] = [1, 2, 3, 4, 5];
    assert!(!is_subsequence(&src, &[2u32, 4]));
    assert!(!is_subsequence(&src, &[6u32]));
    assert!(!is_subsequence(&src, &[5u32, 4]));
}

#[test]
fn empty_search_always_matches() {
    let src: [u32; 3] = [1, 2, 3];
    assert!(is_subsequence(&src, &[]));
    assert!(is_subsequence::<u32>(&[], &[]));
}

#[test]
fn longer_search_never_matches() {
    let src: [u32; 2] = [1, 2];
    assert!(!is_subsequence(&src, &[1u32, 2, 3]));
}
