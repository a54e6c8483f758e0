//! A method whose parameter is capability-bound ("any value satisfying
//! `SomeTrait`"): its stub is stored as an owned, thread-safe, dynamically
//! dispatched callable, and a real mock satisfying the capability is handed
//! through it at call time.

use async_mock::plan::plan_method;
use async_mock::plan::MethodDescriptor;
use async_mock::plan::ParamDescriptor;
use async_mock::plan::StubStorage;
use async_mock::record::check_lock;
use async_mock::record::dispatch1;
use async_mock::record::dispatch2;
use async_mock::record::ExpectationRecord;
use async_mock::shape::TypeShape;
use std::sync::Mutex;
use std::sync::MutexGuard;

trait SomeTrait {
    fn foo(&self, x: i32) -> i32;
}

struct MockSomeTrait {
    foo_expectation: Mutex<ExpectationRecord<fn(i32) -> i32>>,
}

impl Default for MockSomeTrait {
    fn default() -> Self {
        MockSomeTrait { foo_expectation: Mutex::new(ExpectationRecord::new()) }
    }
}

impl MockSomeTrait {
    fn expect_foo(&self) -> MutexGuard<'_, ExpectationRecord<fn(i32) -> i32>> {
        self.foo_expectation.lock().unwrap()
    }

    fn teardown(&self) {
        let rec = self.foo_expectation.lock().unwrap();
        if let Err(e) = rec.verify("foo", false) {
            panic!("{}", e.message());
        }
    }
}

impl SomeTrait for MockSomeTrait {
    fn foo(&self, x: i32) -> i32 {
        let guard = self.foo_expectation.lock();
        if let Err(e) = check_lock(guard.is_err(), "foo") {
            panic!("{}", e.message());
        }
        let mut rec = guard.unwrap();
        match dispatch1(&mut rec, "foo", x) {
            Ok(v) => v,
            Err(e) => panic!("{}", e.message()),
        }
    }
}

type BarStub = Box<dyn Fn(&(dyn SomeTrait + Send + Sync), i32) -> i32 + Send + Sync>;

trait OtherTrait {
    fn bar(&self, some: &(dyn SomeTrait + Send + Sync), x: i32) -> i32;
}

struct MockOtherTrait {
    bar_expectation: Mutex<ExpectationRecord<BarStub>>,
}

impl Default for MockOtherTrait {
    fn default() -> Self {
        MockOtherTrait { bar_expectation: Mutex::new(ExpectationRecord::new()) }
    }
}

impl MockOtherTrait {
    fn expect_bar(&self) -> MutexGuard<'_, ExpectationRecord<BarStub>> {
        self.bar_expectation.lock().unwrap()
    }

    fn teardown(&self) {
        let rec = self.bar_expectation.lock().unwrap();
        if let Err(e) = rec.verify("bar", false) {
            panic!("{}", e.message());
        }
    }
}

impl OtherTrait for MockOtherTrait {
    fn bar(&self, some: &(dyn SomeTrait + Send + Sync), x: i32) -> i32 {
        let guard = self.bar_expectation.lock();
        if let Err(e) = check_lock(guard.is_err(), "bar") {
            panic!("{}", e.message());
        }
        let mut rec = guard.unwrap();
        match dispatch2(&mut rec, "bar", some, x) {
            Ok(v) => v,
            Err(e) => panic!("{}", e.message()),
        }
    }
}

/// The descriptor of `bar`, whose `some` parameter is a reference to an
/// opaque capability bound.
fn bar_descriptor() -> MethodDescriptor {
    MethodDescriptor {
        name: "bar".to_string(),
        params: vec![
            ParamDescriptor {
                name: "some".to_string(),
                ty: TypeShape::Reference {
                    mutable: false,
                    inner: Box::new(TypeShape::Capability {
                        bounds: vec![
                            "SomeTrait".to_string(),
                            "Send".to_string(),
                            "Sync".to_string(),
                        ],
                    }),
                },
            },
            ParamDescriptor {
                name: "x".to_string(),
                ty: TypeShape::Plain { name: "i32".to_string() },
            },
        ],
        ret: TypeShape::Plain { name: "i32".to_string() },
        is_async: false,
    }
}

#[test]
fn ref_impl_test() {
    let plan = plan_method(&bar_descriptor());
    assert_eq!(plan.storage, StubStorage::BoxedDynCallable);
    assert!(plan.params[0].capability);
    assert!(!plan.params[1].capability);

    let mock_some_trait = MockSomeTrait::default();
    {
        let mut e = mock_some_trait.expect_foo();
        e.once();
        e.returning(|x| x + 1);
    }

    let mock_other_trait = MockOtherTrait::default();
    {
        let mut e = mock_other_trait.expect_bar();
        e.once();
        let stub: BarStub = Box::new(|some, x| some.foo(x * 2));
        e.returning_dyn(stub);
    }

    assert_eq!(7, mock_other_trait.bar(&mock_some_trait, 3));
    mock_other_trait.teardown();
    mock_some_trait.teardown();
}
