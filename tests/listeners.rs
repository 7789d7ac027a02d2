use std::cell::{Cell, RefCell};
use std::rc::Rc;

use canvas_render::action::Action;

type Listener = Box<dyn Fn(u32)>;

fn recording(log: &Rc<RefCell<Vec<(u32, u32)>>>, id: u32) -> Listener {
    let log = log.clone();
    Box::new(move |v| log.borrow_mut().push((id, v)))
}

#[test]
fn new_registry_is_empty() {
    let action: Action<u32, Listener> = Action::new();
    assert_eq!(action.len(), 0);
}

#[test]
fn invoke_without_listeners_never_calls_producer() {
    let action: Action<u32, Listener> = Action::new();
    let calls = Cell::new(0u32);
    action.invoke(|| {
        calls.set(calls.get() + 1);
        calls.get()
    });
    assert_eq!(calls.get(), 0);
}

#[test]
fn invoke_produces_fresh_value_per_listener_in_order() {
    let log = Rc::new(RefCell::new(Vec::new()));
    let mut action: Action<u32, Listener> = Action::new();
    action.add(recording(&log, 1));
    action.add(recording(&log, 2));
    action.add(recording(&log, 3));
    assert_eq!(action.len(), 3);
    let counter = Cell::new(0u32);
    action.invoke(|| {
        counter.set(counter.get() + 1);
        counter.get()
    });
    assert_eq!(counter.get(), 3);
    assert_eq!(*log.borrow(), vec![(1, 1), (2, 2), (3, 3)]);
}

#[test]
fn invoke_twice_calls_every_listener_twice() {
    let log = Rc::new(RefCell::new(Vec::new()));
    let mut action: Action<u32, Listener> = Action::new();
    action.add(recording(&log, 7));
    action.add(recording(&log, 8));
    let counter = Cell::new(10u32);
    action.invoke(|| {
        counter.set(counter.get() + 1);
        counter.get()
    });
    action.invoke(|| {
        counter.set(counter.get() + 1);
        counter.get()
    });
    assert_eq!(*log.borrow(), vec![(7, 11), (8, 12), (7, 13), (8, 14)]);
}

#[test]
fn unit_listeners_are_notified() {
    let hits = Rc::new(Cell::new(0u32));
    let mut action: Action<(), Box<dyn Fn(())>> = Action::new();
    let h = hits.clone();
    action.add(Box::new(move |()| h.set(h.get() + 1)));
    action.invoke(|| ());
    action.invoke(|| ());
    assert_eq!(hits.get(), 2);
}

#[test]
fn default_registry_is_empty() {
    let action: Action<u32, Listener> = Action::default();
    assert_eq!(action.len(), 0);
}

#[test]
fn listener_on_dropped_target_is_a_no_op() {
    let target = Rc::new(RefCell::new(0u32));
    let weak = Rc::downgrade(&target);
    let mut action: Action<u32, Listener> = Action::new();
    action.add(Box::new(move |v| {
        if let Some(t) = weak.upgrade() {
            *t.borrow_mut() += v;
        }
    }));
    action.invoke(|| 5);
    assert_eq!(*target.borrow(), 5);
    drop(target);
    action.invoke(|| 9);
    assert_eq!(action.len(), 1);
}
