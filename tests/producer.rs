use randstream::{Ending, Gen, Observation, ThroughputWindow, MAX_CHUNK};

/// Pulls until the end of the stream; returns the chunks and the observations
/// that came with the pulls, the end-of-stream pull included.
fn drain(g: &mut Gen) -> (Vec<Vec<u8>>, Vec<Observation>) {
    let mut chunks = Vec::new();
    let mut observations = Vec::new();
    loop {
        let p = g.pull();
        if let Some(o) = p.observation {
            observations.push(o);
        }
        match p.chunk {
            Some(c) => chunks.push(c),
            None => return (chunks, observations),
        }
    }
}

fn endings(observations: &[Observation]) -> Vec<Ending> {
    observations
        .iter()
        .filter_map(|o| match o {
            Observation::Done { .. } => Some(Ending::Done),
            Observation::Abandoned { .. } => Some(Ending::Abandoned),
            _ => None,
        })
        .collect()
}

#[test]
fn size_zero_ends_at_once() {
    let mut g = Gen::new(0);
    let id = g.id();
    let p = g.pull();
    assert!(p.chunk.is_none());
    assert_eq!(p.observation, Some(Observation::Done { id }));
    assert_eq!(g.teardown(), None);
}

#[test]
fn size_250000_gives_three_chunks() {
    let mut g = Gen::new(250_000);
    let (chunks, _) = drain(&mut g);
    let lens: Vec<usize> = chunks.iter().map(|c| c.len()).collect();
    assert_eq!(lens, vec![100_000, 100_000, 50_000]);
    assert_eq!(g.remaining(), 0);
}

#[test]
fn torn_down_early_is_abandoned() {
    let mut g = Gen::new(150_000);
    let id = g.id();
    let p = g.pull();
    assert_eq!(p.chunk.map(|c| c.len()), Some(100_000));
    assert_eq!(g.remaining(), 50_000);
    assert_eq!(g.teardown(), Some(Observation::Abandoned { id }));
}

#[test]
fn drained_by_one_pull_then_torn_down_is_done() {
    let mut g = Gen::new(50);
    let id = g.id();
    let p = g.pull();
    assert_eq!(p.chunk.map(|c| c.len()), Some(50));
    assert_eq!(g.teardown(), Some(Observation::Done { id }));
}

#[test]
fn interleaved_producers_do_not_affect_each_other() {
    let (solo_a, _) = drain(&mut Gen::new(250_000));
    let (solo_b, _) = drain(&mut Gen::new(120_000));
    let mut a = Gen::new(250_000);
    let mut b = Gen::new(120_000);
    let mut got_a = Vec::new();
    let mut got_b = Vec::new();
    for turn in [0, 1, 1, 0, 0, 1, 0, 1] {
        let (g, got) = if turn == 0 { (&mut a, &mut got_a) } else { (&mut b, &mut got_b) };
        if let Some(c) = g.pull().chunk {
            got.push(c);
        }
        if turn == 1 {
            assert_eq!(a.remaining(), 250_000 - got_a.iter().map(|c| c.len() as u64).sum::<u64>());
        }
    }
    assert_eq!(got_a, solo_a);
    assert_eq!(got_b, solo_b);
}

#[test]
fn total_bytes_equal_size() {
    for size in [0u64, 1, 99_999, 100_000, 100_001, 300_000] {
        let (chunks, _) = drain(&mut Gen::new(size));
        let total: u64 = chunks.iter().map(|c| c.len() as u64).sum();
        assert_eq!(total, size);
    }
}

#[test]
fn chunks_are_full_but_the_last() {
    let mut g = Gen::new(345_678);
    loop {
        let before = g.remaining();
        match g.pull().chunk {
            Some(c) => {
                assert_eq!(c.len() as u64, before.min(MAX_CHUNK));
                assert!(c.len() as u64 <= MAX_CHUNK);
            }
            None => break,
        }
    }
}

#[test]
fn same_size_same_bytes() {
    let (first, _) = drain(&mut Gen::new(234_567));
    let (second, _) = drain(&mut Gen::new(234_567));
    assert_eq!(first, second);
    let (shorter, _) = drain(&mut Gen::new(100_010));
    assert_eq!(shorter[0], first[0]);
    assert_eq!(shorter[1][..], first[1][..10]);
}

#[test]
fn bytes_are_not_constant() {
    let (chunks, _) = drain(&mut Gen::new(1_000));
    let c = &chunks[0];
    assert!(c.iter().any(|&b| b != c[0]));
}

#[test]
fn end_of_stream_repeats() {
    let mut g = Gen::new(10);
    let (_, observations) = drain(&mut g);
    assert_eq!(endings(&observations), vec![Ending::Done]);
    for _ in 0..3 {
        let p = g.pull();
        assert!(p.chunk.is_none());
        assert!(p.observation.is_none());
        assert_eq!(g.remaining(), 0);
    }
}

#[test]
fn exactly_one_ending_per_producer() {
    for size in [0u64, 50, 100_000, 150_000, 250_000] {
        for pulls in 0..5 {
            let mut g = Gen::new(size);
            let mut observations = Vec::new();
            for _ in 0..pulls {
                if let Some(o) = g.pull().observation {
                    observations.push(o);
                }
            }
            let owed = g.remaining() > 0;
            if let Some(o) = g.teardown() {
                observations.push(o);
            }
            let e = endings(&observations);
            assert_eq!(e.len(), 1);
            assert_eq!(e[0] == Ending::Abandoned, owed);
        }
    }
}

#[test]
fn init_observation_names_id_and_size() {
    let g = Gen::new(4_096);
    assert_eq!(g.size(), 4_096);
    assert_eq!(g.window_bytes(), 0);
    assert_eq!(g.init_observation(), Observation::Initialized { id: g.id(), size: 4_096 });
}

#[test]
fn fast_pulls_accumulate_in_the_window() {
    let mut g = Gen::new(250_000);
    let _ = g.pull();
    let _ = g.pull();
    let w = g.window_bytes();
    assert!(w == 200_000 || w == 100_000);
}

#[test]
fn window_accumulates_under_one_second() {
    let mut w = ThroughputWindow::new();
    assert_eq!(w.record(100_000, 0), None);
    assert_eq!(w.record(50_000, 0), None);
    assert_eq!(w.bytes(), 150_000);
}

#[test]
fn window_closes_after_one_second() {
    let mut w = ThroughputWindow::new();
    assert_eq!(w.record(100_000, 0), None);
    assert_eq!(w.record(30_000, 1), Some(100_000));
    assert_eq!(w.bytes(), 30_000);
    assert_eq!(w.record(5, 7), Some(30_000));
    assert_eq!(w.bytes(), 5);
}

#[test]
fn throughput_text_is_human_readable() {
    let o = Observation::throughput(7, 3_200_000);
    assert_eq!(
        o,
        Observation::Throughput { id: 7, bytes: 3_200_000, text: "3.2 MB".to_string() }
    );
    match Observation::throughput(1, 999) {
        Observation::Throughput { text, .. } => assert_eq!(text, "999 B"),
        _ => panic!("not a throughput observation"),
    }
}
