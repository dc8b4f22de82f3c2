use responsive_button::config::QUEUE_CAPACITY;
use responsive_button::edge::{report_level, Edge, EdgeMonitor};
use responsive_button::event::InputEvent;
use responsive_button::queue::EventQueue;

#[test]
fn constants_have_documented_defaults() {
    assert_eq!(responsive_button::config::SLOW_PERIOD, 2000);
    assert_eq!(responsive_button::config::FAST_PERIOD, 50);
    assert_eq!(QUEUE_CAPACITY, 3);
}

#[test]
fn new_queue_is_empty() {
    let mut q = EventQueue::new();
    assert_eq!(q.len(), 0);
    assert!(q.is_empty());
    assert!(!q.is_full());
    assert_eq!(q.capacity(), 3);
    assert_eq!(q.try_receive(), None);
}

#[test]
fn queue_is_fifo() {
    let mut q = EventQueue::new();
    assert!(q.try_send(InputEvent { pressed: true }));
    assert!(q.try_send(InputEvent { pressed: false }));
    assert!(q.try_send(InputEvent { pressed: false }));
    assert_eq!(q.len(), 3);
    assert_eq!(q.try_receive(), Some(InputEvent { pressed: true }));
    assert_eq!(q.len(), 2);
    assert_eq!(q.try_receive(), Some(InputEvent { pressed: false }));
    assert_eq!(q.try_receive(), Some(InputEvent { pressed: false }));
    assert_eq!(q.try_receive(), None);
    assert!(q.is_empty());
}

#[test]
fn queue_drops_excess_events() {
    let mut q = EventQueue::new();
    let sent: Vec<bool> =
        [true, false, true, false, true].iter().map(|p| q.try_send(InputEvent { pressed: *p })).collect();
    assert_eq!(sent, vec![true, true, true, false, false]);
    assert_eq!(q.len(), QUEUE_CAPACITY);
    assert!(q.is_full());
    assert_eq!(q.try_receive(), Some(InputEvent { pressed: true }));
    assert_eq!(q.try_receive(), Some(InputEvent { pressed: false }));
    assert_eq!(q.try_receive(), Some(InputEvent { pressed: true }));
    assert_eq!(q.try_receive(), None);
}

#[test]
fn queue_accepts_again_after_receive() {
    let mut q = EventQueue::new();
    for _ in 0..3 {
        assert!(q.try_send(InputEvent::released()));
    }
    assert!(!q.try_send(InputEvent::pressed()));
    assert_eq!(q.try_receive(), Some(InputEvent::released()));
    assert!(!q.is_full());
    assert!(q.try_send(InputEvent::pressed()));
    assert_eq!(q.len(), 3);
    assert_eq!(q.try_receive(), Some(InputEvent::released()));
    assert_eq!(q.try_receive(), Some(InputEvent::released()));
    assert_eq!(q.try_receive(), Some(InputEvent::pressed()));
}

#[test]
fn queue_never_exceeds_capacity() {
    let mut q = EventQueue::new();
    for i in 0..20u32 {
        q.try_send(InputEvent { pressed: i % 2 == 0 });
        assert!(q.len() <= QUEUE_CAPACITY);
        if i % 5 == 4 {
            q.try_receive();
        }
    }
}

#[test]
fn event_constructors() {
    assert_eq!(InputEvent::pressed(), InputEvent { pressed: true });
    assert_eq!(InputEvent::released(), InputEvent { pressed: false });
    assert_eq!(InputEvent::from_level(true), InputEvent { pressed: true });
    assert_eq!(InputEvent::from_level(false), InputEvent { pressed: false });
}

#[test]
fn monitor_starts_waiting_for_rising() {
    let m = EdgeMonitor::new();
    assert_eq!(m.awaiting(), Edge::Rising);
}

#[test]
fn monitor_alternates_edges() {
    let mut m = EdgeMonitor::new();
    for k in 0..6u32 {
        let expected = if k % 2 == 0 { Edge::Rising } else { Edge::Falling };
        assert_eq!(m.awaiting(), expected);
        assert_eq!(m.on_edge(), InputEvent { pressed: k % 2 == 0 });
    }
}

#[test]
fn monitor_publish_is_best_effort() {
    let mut m = EdgeMonitor::new();
    let mut q = EventQueue::new();
    assert!(m.publish(&mut q));
    assert!(m.publish(&mut q));
    assert!(m.publish(&mut q));
    assert!(!m.publish(&mut q));
    assert_eq!(m.awaiting(), Edge::Rising);
    assert_eq!(q.len(), 3);
    assert_eq!(q.try_receive(), Some(InputEvent::pressed()));
    assert_eq!(q.try_receive(), Some(InputEvent::released()));
    assert_eq!(q.try_receive(), Some(InputEvent::pressed()));
    assert_eq!(q.try_receive(), None);
}

#[test]
fn report_level_sends_level_and_drops_on_full() {
    let mut q = EventQueue::new();
    assert!(report_level(true, &mut q));
    assert!(report_level(false, &mut q));
    assert!(report_level(true, &mut q));
    assert!(!report_level(false, &mut q));
    assert_eq!(q.len(), 3);
    assert_eq!(q.try_receive(), Some(InputEvent { pressed: true }));
    assert_eq!(q.try_receive(), Some(InputEvent { pressed: false }));
    assert_eq!(q.try_receive(), Some(InputEvent { pressed: true }));
}
