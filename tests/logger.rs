use log::{LevelFilter, Log, Metadata, Record};
use robot_motion::init;

struct Quiet;

impl Log for Quiet {
    fn enabled(&self, _: &Metadata) -> bool {
        false
    }
    fn log(&self, _: &Record) {}
    fn flush(&self) {}
}

#[test]
fn init_sets_level_only_after_registration() {
    let first: &'static Quiet = Box::leak(Box::new(Quiet));
    let r = init(log::set_logger(first), LevelFilter::Debug);
    assert!(r.is_ok());
    assert_eq!(log::max_level(), LevelFilter::Debug);
    let second: &'static Quiet = Box::leak(Box::new(Quiet));
    let r = init(log::set_logger(second), LevelFilter::Trace);
    assert!(r.is_err());
    assert_eq!(log::max_level(), LevelFilter::Debug);
}
