//! Per-method expectation state, its configuration operations, the
//! invocation protocol, and the teardown verifier.
//!
//! A mock holds one [`ExpectationRecord`] per interface method. The record
//! keeps the configured expected call count, the actual call count, and the
//! optional stub that produces return values. Dispatching a call is a
//! two-phase protocol: [`begin_call`] records the call — the count increments
//! strictly before any stub can run — and hands the stub out; [`end_call`]
//! puts it back. A plain, copyable stub can instead be read out in place
//! with [`begin_call_copied`], which needs no second phase. [`dispatch0`],
//! [`dispatch1`] and [`dispatch2`] compose the two phases with the stub
//! invocation for methods of the matching arity; a method of higher arity
//! composes the two phases around its own stub invocation in the same way.
//! At the end of the mock's life, [`ExpectationRecord::verify`] compares the
//! two counts, and [`verify_usages`] runs that comparison over every method
//! of a mock, surfacing the first mismatch.

use vstd::prelude::*;
use vstd::string::StringExecFns;

use crate::errors::MockError;

verus! {

/// The mutable expectation state of one method of one mock instance:
/// the expected call count, the actual call count, and the optional stub.
pub struct ExpectationRecord<F> {
    /// How many calls the method is expected to receive. Defaults to zero.
    pub expecting: u32,
    /// How many calls the method has received. Starts at zero and increments
    /// exactly once per dispatched call.
    pub called: u32,
    /// The stub invoked in place of real behavior, if one was configured.
    pub returning: Option<F>,
}

impl<F> ExpectationRecord<F> {
    /// The record as `times(count)` leaves it: only the expected count
    /// changes.
    pub open spec fn spec_times(self, count: u32) -> ExpectationRecord<F> {
        ExpectationRecord { expecting: count, called: self.called, returning: self.returning }
    }

    /// The record as `once()` leaves it: one call becomes expected.
    pub open spec fn spec_once(self) -> ExpectationRecord<F> {
        ExpectationRecord { expecting: 1, called: self.called, returning: self.returning }
    }

    /// The record as `never()` leaves it: no call is expected.
    pub open spec fn spec_never(self) -> ExpectationRecord<F> {
        ExpectationRecord { expecting: 0, called: self.called, returning: self.returning }
    }

    /// The record as `returning(func)` leaves it: only the stub changes.
    pub open spec fn spec_returning(self, func: F) -> ExpectationRecord<F> {
        ExpectationRecord { expecting: self.expecting, called: self.called, returning: Some(func) }
    }

    /// A fresh, zero-initialized record: nothing expected, nothing called,
    /// no stub.
    pub fn new() -> (r: ExpectationRecord<F>)
        ensures
            r.expecting == 0,
            r.called == 0,
            r.returning is None,
    {
        ExpectationRecord { expecting: 0, called: 0, returning: None }
    }

    /// Expects exactly one call.
    pub fn once(&mut self)
        ensures
            *final(self) == old(self).spec_once(),
    {
        self.expecting = 1;
    }

    /// Expects no call at all.
    pub fn never(&mut self)
        ensures
            *final(self) == old(self).spec_never(),
    {
        self.expecting = 0;
    }

    /// Expects exactly `count` calls.
    pub fn times(&mut self, count: u32)
        ensures
            *final(self) == old(self).spec_times(count),
    {
        self.expecting = count;
    }

    /// Stores `func` as the method's stub. Any well-typed stub is accepted;
    /// a later configuration overwrites an earlier one.
    pub fn returning(&mut self, func: F)
        ensures
            *final(self) == old(self).spec_returning(func),
    {
        self.returning = Some(func);
    }

    /// Stores `func` as the method's stub, registering it through the
    /// dynamic path: a method with a capability-bound parameter stores its
    /// stub as an owned, thread-safe, dynamically dispatched callable over
    /// the dynamic-dispatch parameter types. The record treats such a stub
    /// exactly as [`ExpectationRecord::returning`] treats a plain one.
    pub fn returning_dyn(&mut self, func: F)
        ensures
            *final(self) == old(self).spec_returning(func),
    {
        self.returning = Some(func);
    }

    /// Compares the expected and the actual call count at teardown.
    ///
    /// Reports an expectation mismatch, naming the method and both counts,
    /// exactly when the counts differ — unless the surrounding test is
    /// `already_failing`, in which case the mismatch is suppressed so that it
    /// cannot mask the unrelated original failure.
    pub fn verify(&self, method: &str, already_failing: bool) -> (r: Result<(), MockError>)
        ensures
            r is Ok <==> (already_failing || self.expecting == self.called),
            (r matches Err(e) ==> e matches MockError::ExpectationMismatch {
                method: m,
                called,
                expecting,
            } && m@ == method@ && called == self.called && expecting == self.expecting),
    {
        if !already_failing && self.expecting != self.called {
            Err(
                MockError::ExpectationMismatch {
                    method: String::from_str(method),
                    called: self.called,
                    expecting: self.expecting,
                },
            )
        } else {
            Ok(())
        }
    }
}

/// Decides the fate of acquiring the lock that guards a method's record.
///
/// Records are mutated only under their own lock, and the lock's holder may
/// have terminated abnormally, leaving it poisoned. Mocks are test-scoped,
/// so a poisoned record lock signals an unrecoverable prior failure: it is
/// reported as a fatal internal-consistency error naming the method, and
/// never worked around.
pub fn check_lock(poisoned: bool, method: &str) -> (r: Result<(), MockError>)
    ensures
        r is Ok <==> !poisoned,
        (r matches Err(e) ==> e matches MockError::PoisonedState { method: m } && m@ == method@),
{
    if poisoned {
        Err(MockError::PoisonedState { method: String::from_str(method) })
    } else {
        Ok(())
    }
}

/// `once()` configures exactly what `times(1)` configures, and `never()`
/// exactly what `times(0)` configures, on every record.
pub proof fn lemma_once_never_are_times<F>(r: ExpectationRecord<F>)
    ensures
        r.spec_once() == r.spec_times(1),
        r.spec_never() == r.spec_times(0),
{
}

/// First phase of dispatching a call to a method.
///
/// Records the call: the actual count increments by exactly one, before any
/// stub can run, whatever happens afterwards. Hands the configured stub out
/// to the caller — who may release the method's lock before invoking it, so
/// that re-entrant calls cannot deadlock — or reports a missing stub, naming
/// the method, if none was configured; the expected count plays no part in
/// either outcome.
pub fn begin_call<F>(rec: &mut ExpectationRecord<F>, method: &str) -> (r: Result<F, MockError>)
    requires
        old(rec).called < u32::MAX,
    ensures
        final(rec).expecting == old(rec).expecting,
        final(rec).called == old(rec).called + 1,
        final(rec).returning is None,
        (match old(rec).returning {
            Some(f) => r matches Ok(g) && g == f,
            None => (r matches Err(e) && e matches MockError::MissingStub { method: m } && m@
                == method@),
        }),
{
    rec.called = rec.called + 1;
    match rec.returning.take() {
        Some(f) => Ok(f),
        None => Err(MockError::MissingStub { method: String::from_str(method) }),
    }
}

/// First phase of dispatching a call to a method whose stub is a plain,
/// freely copyable function value.
///
/// Like [`begin_call`], the actual count increments by exactly one before
/// any stub can run. The stub is read out as a copy, so it stays in place
/// and other callers of the same method see it while this call is still
/// running its own copy; there is no second phase.
pub fn begin_call_copied<F: Copy>(rec: &mut ExpectationRecord<F>, method: &str) -> (r: Result<
    F,
    MockError,
>)
    requires
        old(rec).called < u32::MAX,
    ensures
        final(rec).expecting == old(rec).expecting,
        final(rec).called == old(rec).called + 1,
        final(rec).returning == old(rec).returning,
        (match old(rec).returning {
            Some(f) => r matches Ok(g) && g == f,
            None => (r matches Err(e) && e matches MockError::MissingStub { method: m } && m@
                == method@),
        }),
{
    rec.called = rec.called + 1;
    match &rec.returning {
        Some(f) => Ok(*f),
        None => Err(MockError::MissingStub { method: String::from_str(method) }),
    }
}

/// Second phase of dispatching a call: puts the stub handed out by
/// [`begin_call`] back into the record, leaving both counts as they are.
pub fn end_call<F>(rec: &mut ExpectationRecord<F>, func: F)
    ensures
        *final(rec) == (ExpectationRecord {
            expecting: old(rec).expecting,
            called: old(rec).called,
            returning: Some(func),
        }),
{
    rec.returning = Some(func);
}

/// Dispatches a call to a zero-parameter method: records the call, then
/// invokes the stored stub and returns its result, or reports a missing
/// stub. The stub itself is kept in place for later calls.
pub fn dispatch0<R, F: Fn() -> R>(rec: &mut ExpectationRecord<F>, method: &str) -> (r: Result<
    R,
    MockError,
>)
    requires
        old(rec).called < u32::MAX,
        old(rec).returning matches Some(f) ==> call_requires(f, ()),
    ensures
        final(rec).expecting == old(rec).expecting,
        final(rec).called == old(rec).called + 1,
        final(rec).returning == old(rec).returning,
        (match old(rec).returning {
            Some(f) => r matches Ok(v) && call_ensures(f, (), v),
            None => (r matches Err(e) && e matches MockError::MissingStub { method: m } && m@
                == method@),
        }),
{
    match begin_call(rec, method) {
        Ok(f) => {
            let v = f();
            end_call(rec, f);
            Ok(v)
        },
        Err(e) => Err(e),
    }
}

/// Dispatches a call to a one-parameter method. See [`dispatch0`].
pub fn dispatch1<A, R, F: Fn(A) -> R>(
    rec: &mut ExpectationRecord<F>,
    method: &str,
    arg: A,
) -> (r: Result<R, MockError>)
    requires
        old(rec).called < u32::MAX,
        old(rec).returning matches Some(f) ==> call_requires(f, (arg,)),
    ensures
        final(rec).expecting == old(rec).expecting,
        final(rec).called == old(rec).called + 1,
        final(rec).returning == old(rec).returning,
        (match old(rec).returning {
            Some(f) => r matches Ok(v) && call_ensures(f, (arg,), v),
            None => (r matches Err(e) && e matches MockError::MissingStub { method: m } && m@
                == method@),
        }),
{
    match begin_call(rec, method) {
        Ok(f) => {
            let v = f(arg);
            end_call(rec, f);
            Ok(v)
        },
        Err(e) => Err(e),
    }
}

/// Dispatches a call to a two-parameter method. See [`dispatch0`].
pub fn dispatch2<A, B, R, F: Fn(A, B) -> R>(
    rec: &mut ExpectationRecord<F>,
    method: &str,
    first: A,
    second: B,
) -> (r: Result<R, MockError>)
    requires
        old(rec).called < u32::MAX,
        old(rec).returning matches Some(f) ==> call_requires(f, (first, second)),
    ensures
        final(rec).expecting == old(rec).expecting,
        final(rec).called == old(rec).called + 1,
        final(rec).returning == old(rec).returning,
        (match old(rec).returning {
            Some(f) => r matches Ok(v) && call_ensures(f, (first, second), v),
            None => (r matches Err(e) && e matches MockError::MissingStub { method: m } && m@
                == method@),
        }),
{
    match begin_call(rec, method) {
        Ok(f) => {
            let v = f(first, second);
            end_call(rec, f);
            Ok(v)
        },
        Err(e) => Err(e),
    }
}

/// A snapshot of one method's usage, taken at teardown: its name and its two
/// counts.
pub struct MethodUsage {
    pub method: String,
    pub expecting: u32,
    pub called: u32,
}

/// Whether one method's usage met its expectation.
pub open spec fn usage_ok(u: MethodUsage) -> bool {
    u.expecting == u.called
}

/// Runs the teardown comparison over every method of a mock, in method
/// order.
///
/// Succeeds exactly when every method's counts agree — or unconditionally
/// when the surrounding test is `already_failing`, so that an unrelated
/// original failure is not masked. Otherwise the first mismatch in method
/// order is surfaced, naming that method and both of its counts.
pub fn verify_usages(usages: &Vec<MethodUsage>, already_failing: bool) -> (r: Result<
    (),
    MockError,
>)
    ensures
        (r is Err) <==> (!already_failing && (exists|k: int|
            0 <= k < usages@.len() && !usage_ok(#[trigger] usages@[k]))),
        (r matches Err(e) ==> exists|i: int|
            0 <= i < usages@.len() && !usage_ok(#[trigger] usages@[i]) && (forall|j: int|
                0 <= j < i ==> usage_ok(#[trigger] usages@[j])) && (e
                matches MockError::ExpectationMismatch { method: m, called, expecting } && m@
                == usages@[i].method@ && called == usages@[i].called && expecting
                == usages@[i].expecting)),
{
    if already_failing {
        return Ok(());
    }
    let mut i: usize = 0;
    while i < usages.len()
        invariant
            !already_failing,
            0 <= i <= usages@.len(),
            forall|j: int| 0 <= j < i ==> usage_ok(#[trigger] usages@[j]),
        decreases usages@.len() - i,
    {
        let u = &usages[i];
        match u.verify_one(false) {
            Ok(()) => {},
            Err(e) => {
                proof {
                    assert(exists|k: int|
                        0 <= k < usages@.len() && !usage_ok(#[trigger] usages@[k])) by {
                        assert(!usage_ok(usages@[i as int]));
                    }
                }
                return Err(e);
            },
        }
        i = i + 1;
    }
    Ok(())
}

impl MethodUsage {
    /// The teardown comparison for this one method.
    pub fn verify_one(&self, already_failing: bool) -> (r: Result<(), MockError>)
        ensures
            r is Ok <==> (already_failing || usage_ok(*self)),
            (r matches Err(e) ==> e matches MockError::ExpectationMismatch {
                method: m,
                called,
                expecting,
            } && m@ == self.method@ && called == self.called && expecting == self.expecting),
    {
        if !already_failing && self.expecting != self.called {
            Err(
                MockError::ExpectationMismatch {
                    method: self.method.clone(),
                    called: self.called,
                    expecting: self.expecting,
                },
            )
        } else {
            Ok(())
        }
    }
}

} // verus!
