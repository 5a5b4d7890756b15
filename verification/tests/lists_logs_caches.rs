use std::cell::Cell;
use std::sync::{Arc, Mutex};

use concurrency_lab::cache::{Cache, TrackedCache};
use concurrency_lab::linked_list::LinkedList;
use concurrency_lab::log::{log_count, Log};

#[test]
fn test_push_and_traverse_forward() {
    let mut list = LinkedList::new();
    list.push_back(1);
    list.push_back(2);
    list.push_back(3);

    assert_eq!(list.traverse_forward(), vec![1, 2, 3]);
}

#[test]
fn test_traverse_backward() {
    let mut list = LinkedList::new();
    list.push_back("A");
    list.push_back("B");
    list.push_back("C");

    assert_eq!(list.traverse_backward(), vec!["C", "B", "A"]);
}

struct DropCounter<'a> {
    counter: &'a Cell<usize>,
}

impl<'a> Drop for DropCounter<'a> {
    fn drop(&mut self) {
        self.counter.set(self.counter.get() + 1);
    }
}

#[test]
fn test_no_memory_leak() {
    let drop_count = Cell::new(0);

    {
        let mut list = LinkedList::new();
        list.push_back(DropCounter { counter: &drop_count });
        list.push_back(DropCounter { counter: &drop_count });
        list.push_back(DropCounter { counter: &drop_count });
        assert_eq!(drop_count.get(), 0); // nothing dropped yet
    }

    assert_eq!(drop_count.get(), 3);
}

#[test]
fn test_empty_list_traversals() {
    let list: LinkedList<u32> = LinkedList::default();
    assert_eq!(list.traverse_forward(), Vec::<u32>::new());
    assert_eq!(list.traverse_backward(), Vec::<u32>::new());
}

#[test]
fn test_log_append_and_read() {
    let mut log = Log::new();
    assert!(log.is_empty());
    assert_eq!(log.len(), 0);

    log.append(String::from("first"));
    log.append(String::from("second"));

    assert!(!log.is_empty());
    assert_eq!(log.len(), 2);
    assert_eq!(log.getall(), &["first", "second"]);
}

#[test]
fn test_log_count_helper() {
    let log = Arc::new(Mutex::new(Log::new()));
    assert_eq!(log_count(&log.lock().unwrap()), 0);

    log.lock().unwrap().append("test message...".to_string());
    assert_eq!(log_count(&log.lock().unwrap()), 1);
}

#[test]
fn test_cache_basic_operations() {
    let mut cache = Cache::new();

    cache.insert(String::from("key1"), 100);
    cache.insert(String::from("key2"), 200);

    assert_eq!(cache.get(&String::from("key1")), Some(100));
    assert_eq!(cache.get(&String::from("key2")), Some(200));
    assert_eq!(cache.get(&String::from("key3")), None);

    assert_eq!(cache.len(), 2);
}

#[test]
fn test_cache_overwrite_keeps_len() {
    let mut cache: Cache<u64, u64> = Cache::default();
    assert!(cache.is_empty());

    cache.insert(1, 10);
    cache.insert(1, 20);

    assert_eq!(cache.get(&1), Some(20));
    assert_eq!(cache.len(), 1);
    assert!(!cache.is_empty());
}

#[test]
fn test_tracked_cache_counts_traffic() {
    let mut cache: TrackedCache<u64, u64> = TrackedCache::new();
    assert_eq!(cache.stats(), (0, 0));

    for i in 0..50 {
        cache.insert(i, i * 10);
    }
    for i in 0..100 {
        let _ = cache.get(&(i % 50));
    }

    let (reads, writes) = cache.stats();
    assert_eq!(reads, 100);
    assert_eq!(writes, 50);
    assert_eq!(cache.get(&7), Some(70));
}
