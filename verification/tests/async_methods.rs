//! A mock for an interface that mixes asynchronous and synchronous methods.
//! The dispatch protocol is the same for both: the stub's completion is the
//! only suspension point of an asynchronous method, so its mock completes
//! immediately once the stub has produced a value.

use async_mock::record::dispatch1;
use async_mock::record::ExpectationRecord;
use std::sync::Mutex;
use std::sync::MutexGuard;

trait SomeAsyncTrait {
    fn foo(&self, x: i32) -> i32;
    fn bar(&self, x: i32) -> i32;
}

struct MockSomeAsyncTrait {
    foo_expectation: Mutex<ExpectationRecord<fn(i32) -> i32>>,
    bar_expectation: Mutex<ExpectationRecord<fn(i32) -> i32>>,
}

impl MockSomeAsyncTrait {
    fn new() -> Self {
        MockSomeAsyncTrait {
            foo_expectation: Mutex::new(ExpectationRecord::new()),
            bar_expectation: Mutex::new(ExpectationRecord::new()),
        }
    }

    fn expect_foo(&self) -> MutexGuard<'_, ExpectationRecord<fn(i32) -> i32>> {
        self.foo_expectation.lock().unwrap()
    }

    fn expect_bar(&self) -> MutexGuard<'_, ExpectationRecord<fn(i32) -> i32>> {
        self.bar_expectation.lock().unwrap()
    }

    fn teardown(&self) {
        let rec = self.foo_expectation.lock().unwrap();
        if let Err(e) = rec.verify("foo", false) {
            panic!("{}", e.message());
        }
        drop(rec);
        let rec = self.bar_expectation.lock().unwrap();
        if let Err(e) = rec.verify("bar", false) {
            panic!("{}", e.message());
        }
    }
}

impl SomeAsyncTrait for MockSomeAsyncTrait {
    fn foo(&self, x: i32) -> i32 {
        let mut rec = self.foo_expectation.lock().unwrap();
        match dispatch1(&mut rec, "foo", x) {
            Ok(v) => v,
            Err(e) => panic!("{}", e.message()),
        }
    }

    fn bar(&self, x: i32) -> i32 {
        let mut rec = self.bar_expectation.lock().unwrap();
        match dispatch1(&mut rec, "bar", x) {
            Ok(v) => v,
            Err(e) => panic!("{}", e.message()),
        }
    }
}

#[test]
fn async_method_ok() {
    let mock = MockSomeAsyncTrait::new();
    {
        let mut e = mock.expect_foo();
        e.once();
        e.returning(|x| x + 1);
    }

    assert_eq!(4, mock.foo(3));
    mock.teardown();
}

#[test]
fn non_async_method_ok() {
    let mock = MockSomeAsyncTrait::new();
    {
        let mut e = mock.expect_bar();
        e.once();
        e.returning(|x| x + 1);
    }

    let result = mock.bar(3);
    assert_eq!(result, 4);
    mock.teardown();
}
