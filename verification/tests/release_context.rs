use core_video_rs::cv_pixel_buffer::release::{
    Callback, CallbackWithContext, ReleaseContext, ReleaseState, Silent,
};
use std::sync::atomic::{AtomicUsize, Ordering};
use std::sync::Arc;

struct CountsDrops(Arc<AtomicUsize>);

impl Drop for CountsDrops {
    fn drop(&mut self) {
        self.0.fetch_add(1, Ordering::SeqCst);
    }
}

#[test]
fn a_new_context_is_armed_and_holds_the_memory() {
    let context = ReleaseContext::make(Silent, vec![1u8, 2, 3]);
    assert_eq!(context.state(), ReleaseState::Armed);
    assert_eq!(context.data(), Some(&vec![1u8, 2, 3]));
}

#[test]
fn firing_runs_the_callback_once_with_the_memory() {
    let calls = AtomicUsize::new(0);
    let mut context = ReleaseContext::make(
        Callback(|bytes: Vec<u8>| {
            assert_eq!(bytes, vec![4, 5, 6]);
            calls.fetch_add(1, Ordering::SeqCst);
        }),
        vec![4u8, 5, 6],
    );
    assert!(context.fire());
    assert_eq!(calls.load(Ordering::SeqCst), 1);
    assert_eq!(context.state(), ReleaseState::Fired);
    assert_eq!(context.data(), None);

    assert!(!context.fire());
    assert!(!context.destroy());
    assert!(!context.fire());
    assert_eq!(calls.load(Ordering::SeqCst), 1);
    assert_eq!(context.state(), ReleaseState::Fired);
}

#[test]
fn destroying_drops_the_memory_without_running_the_callback() {
    let calls = Arc::new(AtomicUsize::new(0));
    let drops = Arc::new(AtomicUsize::new(0));
    let seen = Arc::clone(&calls);
    let captured = CountsDrops(Arc::clone(&drops));
    let mut context = ReleaseContext::make(
        Callback(move |_memory: CountsDrops| {
            let _keep = &captured;
            seen.fetch_add(1, Ordering::SeqCst);
        }),
        CountsDrops(Arc::clone(&drops)),
    );
    assert_eq!(drops.load(Ordering::SeqCst), 0);
    assert!(context.destroy());
    // Both the memory and what the callback had captured are gone.
    assert_eq!(drops.load(Ordering::SeqCst), 2);
    assert_eq!(calls.load(Ordering::SeqCst), 0);
    assert_eq!(context.state(), ReleaseState::Destroyed);
    assert!(context.data().is_none());

    assert!(!context.fire());
    assert!(!context.destroy());
    assert_eq!(calls.load(Ordering::SeqCst), 0);
    assert_eq!(drops.load(Ordering::SeqCst), 2);
    assert_eq!(context.state(), ReleaseState::Destroyed);
    drop(context);
    assert_eq!(drops.load(Ordering::SeqCst), 2);
}

#[test]
fn a_callback_with_context_gets_both() {
    let calls = AtomicUsize::new(0);
    let mut context = ReleaseContext::make(
        CallbackWithContext {
            callback: |context: &str, bytes: Vec<u8>| {
                assert_eq!(context, "frame 7");
                assert_eq!(bytes, vec![9]);
                calls.fetch_add(1, Ordering::SeqCst);
            },
            context: "frame 7",
        },
        vec![9u8],
    );
    assert!(context.fire());
    assert!(!context.fire());
    assert_eq!(calls.load(Ordering::SeqCst), 1);
}

#[test]
fn without_a_callback_firing_just_drops_the_memory() {
    let drops = Arc::new(AtomicUsize::new(0));
    let mut context = ReleaseContext::make(Silent, CountsDrops(Arc::clone(&drops)));
    assert!(context.fire());
    assert_eq!(drops.load(Ordering::SeqCst), 1);
    assert_eq!(context.state(), ReleaseState::Fired);
    assert!(!context.fire());
    assert_eq!(drops.load(Ordering::SeqCst), 1);
}

#[test]
fn an_armed_context_that_goes_away_drops_its_memory() {
    let drops = Arc::new(AtomicUsize::new(0));
    let context = ReleaseContext::make(Silent, CountsDrops(Arc::clone(&drops)));
    drop(context);
    assert_eq!(drops.load(Ordering::SeqCst), 1);
}
