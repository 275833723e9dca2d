use bytes::Bytes;
use indicatif::ProgressBar;
use rushc::stream::{PollStream, Progressbar, CHUNK_SIZE};

fn drain(mut s: PollStream) -> Vec<Vec<u8>> {
    let mut out = Vec::new();
    while let Some(c) = s.step().unwrap() {
        out.push(c.to_vec());
    }
    out
}

#[test]
fn ten_thousand_bytes_in_three_chunks() {
    let data: Vec<u8> = (0..10000u32).map(|i| (i % 251) as u8).collect();
    let mut s = PollStream::new(Bytes::from(data.clone()));
    let a = s.step().unwrap().unwrap();
    let b = s.step().unwrap().unwrap();
    let c = s.step().unwrap().unwrap();
    assert_eq!([a.len(), b.len(), c.len()], [4096, 4096, 1808]);
    assert!(s.step().unwrap().is_none());
    let mut joined = a.to_vec();
    joined.extend_from_slice(&b);
    joined.extend_from_slice(&c);
    assert_eq!(joined, data);
}

#[test]
fn empty_buffer_ends_at_once() {
    let mut s = PollStream::new(Bytes::new());
    assert_eq!(s.remaining(), 0);
    assert!(s.step().unwrap().is_none());
    assert!(s.step().unwrap().is_none());
}

#[test]
fn exact_chunk_size_gives_one_chunk() {
    let chunks = drain(PollStream::new(Bytes::from(vec![7u8; CHUNK_SIZE])));
    assert_eq!(chunks.len(), 1);
    assert_eq!(chunks[0].len(), 4096);
}

#[test]
fn chunk_lengths_sum_and_count() {
    for len in [1usize, 4095, 4097, 8192, 12289] {
        let chunks = drain(PollStream::new(Bytes::from(vec![1u8; len])));
        let total: usize = chunks.iter().map(|c| c.len()).sum();
        assert_eq!(total, len);
        assert_eq!(chunks.len(), (len + 4095) / 4096);
        assert!(chunks.iter().all(|c| !c.is_empty() && c.len() <= 4096));
    }
}

#[test]
fn remaining_shrinks_by_each_chunk() {
    let mut s = PollStream::new(Bytes::from(vec![0u8; 5000]));
    assert_eq!(s.remaining(), 5000);
    s.step().unwrap();
    assert_eq!(s.remaining(), 904);
}

#[test]
fn progress_bar_advances_by_each_chunk() {
    let pb = ProgressBar::hidden();
    let mut p = Progressbar::new(Bytes::from(vec![3u8; 10000]), pb.clone());
    let first = p.progress().unwrap().unwrap();
    assert_eq!(first.len(), 4096);
    assert_eq!(pb.position(), 4096);
    let mut n = 1;
    while let Some(_) = p.progress().unwrap() {
        n += 1;
    }
    assert_eq!(n, 3);
    assert_eq!(pb.position(), 10000);
}

#[test]
fn progress_bar_positions_after_each_call() {
    let pb = ProgressBar::new(10000);
    let mut p = Progressbar::new(Bytes::from(vec![0u8; 10000]), pb.clone());
    let mut positions = Vec::new();
    let mut lengths = Vec::new();
    for _ in 0..4 {
        match p.progress().unwrap() {
            Some(c) => lengths.push(c.len()),
            None => lengths.push(0),
        }
        positions.push(pb.position());
    }
    assert_eq!(lengths, vec![4096, 4096, 1808, 0]);
    assert_eq!(positions, vec![4096, 8192, 10000, 10000]);
}

#[test]
fn empty_buffer_leaves_bar_still() {
    let pb = ProgressBar::hidden();
    let mut p = Progressbar::new(Bytes::new(), pb.clone());
    assert!(p.progress().unwrap().is_none());
    assert_eq!(pb.position(), 0);
}
