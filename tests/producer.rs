use tnap::producer::{Producer, ProducerStep, MAX_IMAGES};
use tnap::registry::PathRegistry;
use tnap::signal::CancellationSignal;

#[test]
fn stop_before_start_appends_nothing() {
    let mut reg = PathRegistry::from_paths(vec!["placeholder.png".to_string()]);
    let mut signal = CancellationSignal::new();
    signal.request_stop();
    let mut producer = Producer::new(MAX_IMAGES, true);
    assert_eq!(producer.next_step(&mut signal), ProducerStep::Finish);
    assert!(signal.finished);
    assert!(producer.finished);
    assert_eq!(producer.made, 0);
    assert_eq!(producer.next_step(&mut signal), ProducerStep::Finish);
    assert_eq!(reg.len(), 1);
    assert!(!reg.is_empty());
    reg.append("unused".to_string());
    assert_eq!(reg.len(), 2);
}

#[test]
fn placeholder_replaced_by_first_image() {
    let mut reg = PathRegistry::from_paths(vec!["placeholder.png".to_string()]);
    let mut signal = CancellationSignal::new();
    let mut producer = Producer::new(MAX_IMAGES, true);
    assert_eq!(producer.next_step(&mut signal), ProducerStep::Generate(0));
    producer.on_saved(&mut reg, "0.png".to_string());
    assert_eq!(reg.len(), 1);
    assert_eq!(reg.get(0).unwrap(), "0.png");
    assert_eq!(producer.next_step(&mut signal), ProducerStep::Generate(1));
    producer.on_saved(&mut reg, "1.png".to_string());
    assert_eq!(reg.len(), 2);
    assert_eq!(reg.get(0).unwrap(), "0.png");
    assert_eq!(reg.get(1).unwrap(), "1.png");
}

#[test]
fn producer_runs_to_its_limit() {
    let mut reg = PathRegistry::from_paths(vec!["placeholder.png".to_string()]);
    let mut signal = CancellationSignal::new();
    let mut producer = Producer::new(MAX_IMAGES, true);
    let mut slots = Vec::new();
    while let ProducerStep::Generate(i) = producer.next_step(&mut signal) {
        slots.push(i);
        producer.on_saved(&mut reg, format!("{}.png", i));
    }
    assert_eq!(slots, vec![0, 1, 2, 3, 4]);
    assert_eq!(reg.len(), 5);
    assert_eq!(reg.get(0).unwrap(), "0.png");
    assert_eq!(reg.get(4).unwrap(), "4.png");
    assert!(signal.finished);
    assert!(!signal.stop_requested);
}

#[test]
fn stop_midway_keeps_saved_images() {
    let mut reg = PathRegistry::new();
    let mut signal = CancellationSignal::new();
    let mut producer = Producer::new(MAX_IMAGES, false);
    assert_eq!(producer.next_step(&mut signal), ProducerStep::Generate(0));
    producer.on_saved(&mut reg, "0.png".to_string());
    signal.request_stop();
    assert_eq!(producer.next_step(&mut signal), ProducerStep::Finish);
    assert_eq!(reg.len(), 1);
    assert!(signal.finished && signal.stop_requested);
}

#[test]
fn no_placeholder_means_nothing_removed() {
    let mut reg = PathRegistry::from_paths(vec!["kept.png".to_string()]);
    let mut producer = Producer::new(2, false);
    producer.on_saved(&mut reg, "0.png".to_string());
    assert_eq!(reg.len(), 2);
    assert_eq!(reg.get(0).unwrap(), "kept.png");
}

#[test]
fn failure_ends_the_producer() {
    let mut signal = CancellationSignal::new();
    let mut producer = Producer::new(MAX_IMAGES, true);
    assert_eq!(producer.next_step(&mut signal), ProducerStep::Generate(0));
    producer.on_failed(&mut signal);
    assert!(signal.finished);
    assert!(!signal.stop_requested);
    assert_eq!(producer.next_step(&mut signal), ProducerStep::Finish);
}

#[test]
fn signal_flags_are_one_way() {
    let mut signal = CancellationSignal::new();
    assert!(!signal.stop_requested && !signal.finished);
    signal.mark_finished();
    signal.request_stop();
    assert!(signal.stop_requested && signal.finished);
    signal.request_stop();
    signal.mark_finished();
    assert!(signal.stop_requested && signal.finished);
}
