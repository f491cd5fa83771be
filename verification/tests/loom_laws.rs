use kitchensink_testing::law::tokio::TokioLoomModel;
use kitchensink_testing::law::tokio::assert_loom_model;
use loom::sync::Arc;
use loom::sync::atomic::AtomicUsize;
use loom::sync::atomic::Ordering;
use loom::thread;

struct CounterModel;

impl TokioLoomModel for CounterModel {
    fn run_model(&self) {
        let shared = Arc::new(AtomicUsize::new(0));
        let left = Arc::clone(&shared);
        let right = Arc::clone(&shared);

        let t1 = thread::spawn(move || {
            left.fetch_add(1, Ordering::SeqCst);
        });
        let t2 = thread::spawn(move || {
            right.fetch_add(1, Ordering::SeqCst);
        });

        t1.join().expect("first loom thread should join");
        t2.join().expect("second loom thread should join");

        assert_eq!(shared.load(Ordering::SeqCst), 2);
    }
}

#[test]
fn loom_adapter_runs_model() {
    assert_loom_model(CounterModel);
}

struct LoomSmoke;

impl TokioLoomModel for LoomSmoke {
    fn run_model(&self) {}
}

#[test]
fn tokio_loom_surface_compiles() {
    assert_loom_model(LoomSmoke);
}
