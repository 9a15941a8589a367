use mapbench::backend::ConcurrentHashMap;
use mapbench::distributor::{DistributorError, KeyCursor, MutexIter};
use mapbench::keys::{pool_keys, NUM_KEYS};
use mapbench::mutex_map::MutexHashMap;
use mapbench::record::{ComplexData, Data};
use mapbench::sweep::{
    backends, batch_lengths, max_full_iterations, prepare_read_cell, sweep_cells, thread_counts,
    Backend, SweepCell, INSERT_KEY, VALUE,
};
use mapbench::workload::{insert_all, insert_batch, populate_map, read_batch};

type Dash = dashmap::DashMap<String, String>;
type Scc = scc::HashMap<String, String>;

fn owned(items: &[&str]) -> Vec<String> {
    items.iter().map(|s| s.to_string()).collect()
}

fn check_round_trip<M: ConcurrentHashMap>() {
    let mut map = M::new();
    let pairs = vec![
        ("a".to_string(), "1".to_string()),
        ("b".to_string(), "2".to_string()),
        ("a".to_string(), "3".to_string()),
        ("c".to_string(), "4".to_string()),
    ];
    insert_all(&mut map, &pairs);
    assert_eq!(map.get("a"), Some("3".to_string()));
    assert_eq!(map.get("b"), Some("2".to_string()));
    assert_eq!(map.get("c"), Some("4".to_string()));
    assert_eq!(map.get("d"), None);
}

fn check_insert_returns_previous<M: ConcurrentHashMap>() {
    let mut map = M::new();
    assert_eq!(map.insert("k".to_string(), "v1".to_string()), None);
    assert_eq!(map.insert("k".to_string(), "v2".to_string()), Some("v1".to_string()));
    assert_eq!(map.get("k"), Some("v2".to_string()));
}

fn check_constant_inserts<M: ConcurrentHashMap>() {
    let mut map = M::new();
    // Batch length 1, repeated as a benchmark repeats its measured iteration.
    let first = insert_batch(&mut map, INSERT_KEY, VALUE, 1);
    assert_eq!(first, vec![None]);
    for _ in 0..20 {
        let next = insert_batch(&mut map, INSERT_KEY, VALUE, 1);
        assert_eq!(next, vec![Some("world".to_string())]);
    }
    let batch = insert_batch(&mut map, "hello", "world", 4);
    assert_eq!(batch, vec![Some("world".to_string()); 4]);
    assert_eq!(map.get("hello"), Some("world".to_string()));
}

fn check_absent<M: ConcurrentHashMap>() {
    let mut map = M::new();
    assert_eq!(map.get("missing"), None);
    map.insert("present".to_string(), "x".to_string());
    assert_eq!(map.get("missing"), None);
    assert_eq!(map.get(""), None);
}

fn check_population_then_reads<M: ConcurrentHashMap>() -> M {
    let mut map = M::new();
    let keys = populate_map(&mut map, "world");
    assert_eq!(keys.len(), NUM_KEYS as usize);
    assert_eq!(keys[0], "1");
    assert_eq!(keys[4999], "5000");
    let found = read_batch(&map, &keys);
    assert!(found.iter().all(|v| v.as_deref() == Some("world")));
    let again = read_batch(&map, &owned(&["0", "5001", "42"]));
    assert_eq!(again, vec![None, None, Some("world".to_string())]);
    map
}

#[test]
fn round_trip_every_backend() {
    check_round_trip::<MutexHashMap>();
    check_round_trip::<Dash>();
    check_round_trip::<Scc>();
}

#[test]
fn insert_returns_previous_every_backend() {
    check_insert_returns_previous::<MutexHashMap>();
    check_insert_returns_previous::<Dash>();
    check_insert_returns_previous::<Scc>();
}

#[test]
fn constant_insert_benchmark_every_backend() {
    check_constant_inserts::<MutexHashMap>();
    check_constant_inserts::<Dash>();
    check_constant_inserts::<Scc>();
}

#[test]
fn get_absent_every_backend() {
    check_absent::<MutexHashMap>();
    check_absent::<Dash>();
    check_absent::<Scc>();
}

#[test]
fn insert_batch_of_zero_does_nothing() {
    let mut map = Dash::new();
    assert!(insert_batch(&mut map, "hello", "world", 0).is_empty());
    assert_eq!(ConcurrentHashMap::get(&map, "hello"), None);
}

#[test]
fn population_then_reads_keeps_key_count() {
    let m = check_population_then_reads::<MutexHashMap>();
    assert_eq!(m.lock().unwrap().len(), 5000);
    let d = check_population_then_reads::<Dash>();
    assert_eq!(d.len(), 5000);
    let s = check_population_then_reads::<Scc>();
    assert_eq!(s.len(), 5000);
}

#[test]
fn pool_keys_are_decimal_text() {
    assert_eq!(pool_keys(0), Vec::<String>::new());
    assert_eq!(pool_keys(5), owned(&["1", "2", "3", "4", "5"]));
    let keys = pool_keys(12);
    assert_eq!(keys[9], "10");
    assert_eq!(keys[11], "12");
}

#[test]
fn cursor_draws_distinct_pool_keys() {
    let pool = pool_keys(NUM_KEYS);
    let mut cursor = KeyCursor::new(pool.clone());
    let mut seen = std::collections::HashSet::new();
    for i in 0..NUM_KEYS as usize {
        let key = cursor.next().unwrap();
        assert_eq!(key, pool[i]);
        assert!(seen.insert(key));
    }
    assert_eq!(cursor.next(), None);
    assert_eq!(cursor.next(), None);
}

#[test]
fn cursor_fails_on_draw_past_pool() {
    let mut cursor = KeyCursor::new(owned(&["1", "2", "3"]));
    assert_eq!(cursor.next(), Some("1".to_string()));
    assert_eq!(cursor.next(), Some("2".to_string()));
    assert_eq!(cursor.next(), Some("3".to_string()));
    assert_eq!(cursor.next(), None);
}

#[test]
fn cursor_batch_draws() {
    let mut cursor = KeyCursor::new(owned(&["1", "2", "3", "4", "5"]));
    assert_eq!(cursor.draw(2), Ok(owned(&["1", "2"])));
    assert_eq!(cursor.draw(4), Err(DistributorError::Exhausted));
    assert_eq!(cursor.draw(3), Ok(owned(&["3", "4", "5"])));
    assert_eq!(cursor.draw(0), Ok(Vec::new()));
    assert_eq!(cursor.draw(1), Err(DistributorError::Exhausted));
}

#[test]
fn shared_distributor_exhausts_after_pool() {
    let iter = MutexIter::new(owned(&["a", "b"]));
    assert_eq!(iter.next(), Some("a".to_string()));
    assert_eq!(iter.next(), Some("b".to_string()));
    assert_eq!(iter.next(), None);
}

#[test]
fn pool_of_5000_covers_156_iterations_of_4_threads_by_8() {
    assert_eq!(max_full_iterations(5000, 4, 8), 156);
    let iter = MutexIter::new(pool_keys(5000));
    let mut seen = std::collections::HashSet::new();
    for _ in 0..156 {
        for _thread in 0..4 {
            let batch = iter.draw(8).unwrap();
            assert_eq!(batch.len(), 8);
            for key in batch {
                assert!(seen.insert(key));
            }
        }
    }
    // 5000 - 156 * 32 = 8 keys are left: the 157th iteration runs out.
    assert!(iter.draw(8).is_ok());
    assert_eq!(iter.draw(8), Err(DistributorError::Exhausted));
}

#[test]
fn full_iterations_formula() {
    assert_eq!(max_full_iterations(5000, 0, 1), 5000);
    assert_eq!(max_full_iterations(5000, 1, 8), 625);
    assert_eq!(max_full_iterations(5000, 16, 8), 39);
    assert_eq!(max_full_iterations(0, 2, 2), 0);
}

#[test]
fn sweep_enumerates_every_cell_once() {
    let cells = sweep_cells(&backends(), &batch_lengths(), &thread_counts());
    assert_eq!(cells.len(), 3 * 4 * 6);
    assert_eq!(cells[0], SweepCell { backend: Backend::Mutex, len: 1, threads: 0 });
    assert_eq!(cells[1], SweepCell { backend: Backend::Mutex, len: 1, threads: 1 });
    assert_eq!(cells[6], SweepCell { backend: Backend::Mutex, len: 2, threads: 0 });
    assert_eq!(cells[24], SweepCell { backend: Backend::Dash, len: 1, threads: 0 });
    assert_eq!(cells[71], SweepCell { backend: Backend::Scc, len: 8, threads: 16 });
    for i in 0..cells.len() {
        for j in i + 1..cells.len() {
            assert_ne!(cells[i], cells[j]);
        }
    }
    assert!(sweep_cells(&Vec::new(), &batch_lengths(), &thread_counts()).is_empty());
}

#[test]
fn read_cell_setup_is_populated() {
    let (map, iter) = prepare_read_cell::<Dash>();
    assert_eq!(map.len(), 5000);
    let key = iter.next().unwrap();
    assert_eq!(key, "1");
    assert_eq!(ConcurrentHashMap::get(&map, &key), Some("world".to_string()));
}

#[test]
fn sample_records() {
    let d = Data::sample();
    assert_eq!(d.s, "hello, world!");
    assert_eq!(d.p, (128, 512, 1024));
    let v = Data::sample_vec(50);
    assert_eq!(v.len(), 50);
    assert!(v.iter().all(|d| d.s == "hello, world!" && d.p == (128, 512, 1024)));
    assert!(Data::sample_vec(0).is_empty());
    let c = ComplexData::sample();
    assert_eq!(c.deeply.len(), 4);
    for key in ["nested", "data", "is", "cool"] {
        let copies = &c.deeply[key];
        assert_eq!(copies.len(), 10);
        for m in copies {
            assert_eq!(m.len(), 3);
            assert_eq!(m["value"], 4);
            assert_eq!(m["another"], 6);
            assert_eq!(m["yet_another"], 7);
        }
    }
}
