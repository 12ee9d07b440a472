//! The playback queue (loop modes, shuffle, removal) and the position
//! tracker (seek accuracy, clamping, reset).

use audido_core::queue::{PlaybackQueue, LoopMode};
use audido_core::position::PositionTracker;
use audido_core::fixed::FX_ONE;

const ONE: f64 = 1048576.0;

fn to_fx(x: f64) -> i64 {
    (x * ONE).round() as i64
}

fn from_fx(v: i64) -> f64 {
    v as f64 / ONE
}

fn queue_of(n: usize) -> PlaybackQueue {
    let mut q = PlaybackQueue::new();
    let paths: Vec<String> = (0..n).map(|i| format!("track-{i}.wav")).collect();
    q.add(paths);
    q
}

#[test]
fn add_assigns_stable_increasing_ids() {
    let mut q = PlaybackQueue::new();
    let ids = q.add(vec!["a.wav".to_string(), "b.wav".to_string()]);
    assert_eq!(ids, vec![0, 1]);
    let more = q.add(vec!["c.wav".to_string()]);
    assert_eq!(more, vec![2]);
    assert_eq!(q.items.len(), 3);
    assert_eq!(q.items[0].path, "a.wav");
    assert_eq!(q.items[2].id, 2);
}

#[test]
fn next_and_prev_follow_the_mode_table() {
    let mut q = queue_of(3);
    q.current_index = Some(1);

    q.loop_mode = LoopMode::Off;
    assert_eq!(q.next_index(), Some(2));
    assert_eq!(q.prev_index(), Some(0));
    q.current_index = Some(2);
    assert_eq!(q.next_index(), None);
    q.current_index = Some(0);
    assert_eq!(q.prev_index(), None);

    q.loop_mode = LoopMode::RepeatOne;
    assert_eq!(q.next_index(), Some(0));
    assert_eq!(q.prev_index(), Some(0));

    q.loop_mode = LoopMode::LoopAll;
    q.current_index = Some(2);
    assert_eq!(q.next_index(), Some(0));
    q.current_index = Some(0);
    assert_eq!(q.prev_index(), Some(2));
}

#[test]
fn next_then_prev_returns_to_the_start() {
    for mode in [LoopMode::Off, LoopMode::LoopAll, LoopMode::Shuffle] {
        let mut q = queue_of(5);
        q.loop_mode = mode;
        if mode == LoopMode::Shuffle {
            q.reshuffle();
        }
        for start in 0..5usize {
            q.current_index = Some(start);
            if let Some(j) = q.next_index() {
                let mut q2 = q.clone();
                q2.current_index = Some(j);
                assert_eq!(q2.prev_index(), Some(start), "{mode:?} from {start}");
            }
        }
    }
}

#[test]
fn shuffle_order_is_a_permutation() {
    let mut q = queue_of(16);
    q.loop_mode = LoopMode::Shuffle;
    q.reshuffle();
    let mut seen = vec![false; 16];
    assert_eq!(q.shuffle_order.len(), 16);
    for &v in &q.shuffle_order {
        assert!(v < 16);
        assert!(!seen[v], "duplicate {v}");
        seen[v] = true;
    }
    assert!(seen.iter().all(|&b| b));
}

#[test]
fn shuffle_steps_visit_every_track_once() {
    let mut q = queue_of(5);
    q.loop_mode = LoopMode::Shuffle;
    q.reshuffle();
    for start in 0..5usize {
        q.current_index = Some(start);
        let mut visited = vec![false; 5];
        visited[start] = true;
        let mut cur = start;
        for _ in 0..4 {
            let mut q2 = q.clone();
            q2.current_index = Some(cur);
            cur = q2.next_index().unwrap();
            assert!(!visited[cur], "revisited {cur} before the cycle closed");
            visited[cur] = true;
        }
        assert!(visited.iter().all(|&b| b));
        // the fifth step closes the cycle
        let mut q2 = q.clone();
        q2.current_index = Some(cur);
        let back = q2.next_index().unwrap();
        assert_eq!(back, start);
    }
}

#[test]
fn removing_before_current_shifts_the_index() {
    let mut q = queue_of(4);
    q.current_index = Some(2);
    let id0 = q.items[0].id;
    assert!(q.remove(id0));
    assert_eq!(q.items.len(), 3);
    assert_eq!(q.current_index, Some(1));
}

#[test]
fn removing_current_keeps_index_valid() {
    let mut q = queue_of(3);
    q.current_index = Some(2);
    let id2 = q.items[2].id;
    assert!(q.remove(id2));
    assert_eq!(q.items.len(), 2);
    assert_eq!(q.current_index, Some(1));

    let mut q1 = queue_of(1);
    q1.current_index = Some(0);
    let id = q1.items[0].id;
    assert!(q1.remove(id));
    assert_eq!(q1.items.len(), 0);
    assert_eq!(q1.current_index, None);

    let mut q2 = queue_of(2);
    assert!(!q2.remove(999));
    assert_eq!(q2.items.len(), 2);
}

#[test]
fn clear_empties_everything() {
    let mut q = queue_of(3);
    q.current_index = Some(1);
    q.clear();
    assert_eq!(q.items.len(), 0);
    assert_eq!(q.current_index, None);
    assert_eq!(q.shuffle_order.len(), 0);
}

#[test]
fn current_and_get_look_up_items() {
    let mut q = queue_of(2);
    assert!(q.current().is_none());
    q.current_index = Some(1);
    assert_eq!(q.current().unwrap().path, "track-1.wav");
    assert_eq!(q.get(0).unwrap().path, "track-0.wav");
    assert!(q.get(5).is_none());
}

#[test]
fn seek_lands_within_one_sample_period() {
    // 44.1 kHz stereo, ten seconds of audio
    let mut t = PositionTracker::new(882000, 44100, 2);
    for &secs in &[0.0, 0.5, 1.2345, 7.77, 9.999] {
        t.seek_to_seconds(to_fx(secs));
        let back = from_fx(t.position_seconds());
        assert!(
            (back - secs).abs() < 1.0 / 44100.0,
            "seek to {secs} read back {back}"
        );
    }
}

#[test]
fn seek_past_end_clamps_and_reset_returns_to_zero() {
    let mut t = PositionTracker::new(882000, 44100, 2);
    t.seek_to_seconds(to_fx(500.0));
    assert_eq!(t.position, 882000);
    assert!((from_fx(t.duration_seconds()) - 10.0).abs() < 1e-4);
    t.seek_to_seconds(-5 * FX_ONE);
    assert_eq!(t.position, 0);
    t.seek_to_seconds(to_fx(3.0));
    assert!(t.position > 0);
    t.reset();
    assert_eq!(t.position, 0);
    assert_eq!(t.position_seconds(), 0);
}
