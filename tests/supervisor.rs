use http_pipeline::map::StrMap;
use http_pipeline::pipeline::{next_pipeline, read_slot_free, recovery_plan, should_swap, PipelineHealth, Stage};
use http_pipeline::queue::{QueueFull, StageQueue, QUEUE_SIZE};

#[test]
fn queue_is_fifo() {
    let mut q = StageQueue::new();
    assert_eq!(q.try_pop_front(), None);
    q.try_push_back(1).unwrap();
    q.try_push_back(2).unwrap();
    q.try_push_back(3).unwrap();
    assert_eq!(q.len(), 3);
    assert_eq!(q.try_pop_front(), Some(1));
    assert_eq!(q.try_pop_front(), Some(2));
    assert_eq!(q.try_pop_front(), Some(3));
    assert_eq!(q.try_pop_front(), None);
    assert_eq!(q.len(), 0);
}

#[test]
fn full_queue_refuses() {
    let mut q = StageQueue::new();
    for i in 0..QUEUE_SIZE as u64 {
        assert_eq!(q.try_push_back(i), Ok(()));
    }
    assert_eq!(q.len(), QUEUE_SIZE);
    assert_eq!(q.try_push_back(999), Err(QueueFull));
    assert_eq!(q.len(), QUEUE_SIZE);
    assert_eq!(q.try_pop_front(), Some(0));
    assert_eq!(q.try_push_back(999), Ok(()));
    for _ in 0..QUEUE_SIZE {
        assert!(q.try_pop_front().is_some());
    }
    assert_eq!(q.len(), 0);
}

#[test]
fn recovery_plan_names_stopped_stages_back_to_front() {
    let all = PipelineHealth { parser: true, action: true, compression: true, sender: true };
    assert!(all.pipeline_state());
    assert!(recovery_plan(&all).is_empty());
    let broken = PipelineHealth { parser: false, action: true, compression: false, sender: true };
    assert!(!broken.pipeline_state());
    assert_eq!(recovery_plan(&broken), vec![Stage::Compression, Stage::Parser]);
    let none = PipelineHealth { parser: false, action: false, compression: false, sender: false };
    assert_eq!(recovery_plan(&none), vec![Stage::Sender, Stage::Compression, Stage::Action, Stage::Parser]);
    assert!(should_swap(false));
    assert!(!should_swap(true));
}

#[test]
fn round_robin_wraps() {
    assert_eq!(next_pipeline(0, 4), 1);
    assert_eq!(next_pipeline(3, 4), 0);
    assert_eq!(next_pipeline(0, 1), 0);
}

#[test]
fn read_slots() {
    assert!(read_slot_free(0, 1000));
    assert!(read_slot_free(2, 1));
    assert!(!read_slot_free(2, 2));
}

#[test]
fn map_replaces_in_place() {
    let mut m: StrMap<String> = StrMap::new();
    m.insert(String::from("k"), String::from("1"));
    m.insert(String::from("j"), String::from("2"));
    m.insert(String::from("k"), String::from("3"));
    assert_eq!(m.len(), 2);
    assert_eq!(m.get("k"), Some(&String::from("3")));
    assert_eq!(m.key_at(0), "k");
    assert_eq!(m.value_at(1), "2");
    assert!(m.contains_key("j"));
    assert!(!m.contains_key("K"));
}
