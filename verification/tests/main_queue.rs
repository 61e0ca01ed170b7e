use iui::concurrent::{Job, MainQueue};
use iui::ffi_tools::ProcessGuard;
use iui::ui::UI;

#[test]
fn callbacks_run_in_the_order_queued() {
    let mut guard = ProcessGuard::new();
    let ui = UI::init(&mut guard, None).unwrap();
    let mut queue = MainQueue::new();
    let a = 0xa000;
    let b = 0xb000;
    ui.queue_main(&mut queue, a);
    ui.queue_main(&mut queue, b);
    assert_eq!(queue.len(), 2);
    assert_eq!(queue.take_next(), Some(Job::Call(a)));
    assert_eq!(queue.take_next(), Some(Job::Call(b)));
    assert_eq!(queue.take_next(), None);
}

#[test]
fn work_queued_from_a_context_goes_behind_what_waits() {
    let mut guard = ProcessGuard::new();
    let ui = UI::init(&mut guard, None).unwrap();
    let ctx = ui.context();
    let copy = ctx;
    let mut queue = MainQueue::new();
    ui.queue_main(&mut queue, 1);
    ctx.queue_main(&mut queue, 2);
    copy.queue_main(&mut queue, 3);
    ui.queue_main(&mut queue, 4);
    let mut order = Vec::new();
    while let Some(job) = queue.take_next() {
        order.push(job);
    }
    assert_eq!(order, vec![Job::Call(1), Job::Call(2), Job::Call(3), Job::Call(4)]);
}

#[test]
fn an_empty_queue_gives_nothing() {
    let mut queue = MainQueue::new();
    assert!(queue.is_empty());
    assert_eq!(queue.len(), 0);
    assert_eq!(queue.take_next(), None);
    assert!(queue.is_empty());
}

#[test]
fn the_same_callback_may_wait_twice() {
    let mut queue = MainQueue::new();
    queue.queue(Job::Call(7));
    queue.queue(Job::Poll(7));
    queue.queue(Job::Call(7));
    assert!(!queue.is_empty());
    assert_eq!(queue.take_next(), Some(Job::Call(7)));
    assert_eq!(queue.take_next(), Some(Job::Poll(7)));
    assert_eq!(queue.len(), 1);
    assert_eq!(queue.take_next(), Some(Job::Call(7)));
}

#[test]
fn queuing_between_takes_keeps_the_order() {
    let mut queue = MainQueue::new();
    queue.queue(Job::Call(1));
    queue.queue(Job::Call(2));
    assert_eq!(queue.take_next(), Some(Job::Call(1)));
    queue.queue(Job::Call(3));
    assert_eq!(queue.take_next(), Some(Job::Call(2)));
    assert_eq!(queue.take_next(), Some(Job::Call(3)));
    assert_eq!(queue.take_next(), None);
}
