//! Interface descriptors and mock-synthesis planning.
//!
//! An [`InterfaceDescriptor`] is the abstract input: an interface name and
//! its ordered methods, each with named, typed parameters, a return type and
//! a sync/async flag. Planning annotates every parameter with its
//! classification and dynamic-dispatch type, chooses each method's
//! stub-storage strategy, and fixes the names of the synthesized pieces:
//! one expectation record per method, addressed through an `expect_` handle
//! on a mock type named after the interface.

use vstd::prelude::*;
use vstd::string::StringExecFns;

use crate::shape::TypeShape;
use crate::shape::clone_shape;
use crate::shape::contains_capability;
use crate::shape::is_capability_bound;
use crate::shape::to_dispatch_model;
use crate::shape::to_dispatch_type;

verus! {

/// One parameter of an interface method: its name and its declared type.
pub struct ParamDescriptor {
    pub name: String,
    pub ty: TypeShape,
}

/// One method of an interface: its name, its ordered parameters, its return
/// type, and whether it is asynchronous.
pub struct MethodDescriptor {
    pub name: String,
    pub params: Vec<ParamDescriptor>,
    pub ret: TypeShape,
    pub is_async: bool,
}

/// An interface: a named, ordered set of method signatures. Produced once
/// per declaration by the parsing collaborator and never modified.
pub struct InterfaceDescriptor {
    pub name: String,
    pub methods: Vec<MethodDescriptor>,
}

/// How a method's stub is stored in its expectation record.
#[derive(PartialEq, Eq, Structural, Clone, Copy, Debug)]
pub enum StubStorage {
    /// No parameter is capability-bound: a plain function value matching the
    /// signature exactly, freely copyable.
    PlainFunction,
    /// Some parameter is capability-bound: an owned, thread-safe, boxed
    /// dynamically dispatched callable over the dynamic-dispatch parameter
    /// types, accessed only by reference.
    BoxedDynCallable,
}

/// One parameter as the plan records it: its name, whether its declared type
/// is capability-bound, and the dynamic-dispatch type the stored stub
/// receives it as.
pub struct PlannedParam {
    pub name: String,
    pub capability: bool,
    pub dispatch_ty: TypeShape,
}

/// The synthesis plan for one method: the expectation record's shape and the
/// name of the builder handle that configures it.
pub struct MethodPlan {
    pub method: String,
    /// The name of the mock's configuration handle for this method.
    pub expect_name: String,
    pub params: Vec<PlannedParam>,
    pub ret: TypeShape,
    pub storage: StubStorage,
    pub is_async: bool,
}

/// The synthesis plan for a whole mock: the mock type's name and one method
/// plan — one expectation record — per interface method, in interface order.
pub struct MockPlan {
    pub interface: String,
    /// The name of the synthesized mock type.
    pub mock_name: String,
    pub methods: Vec<MethodPlan>,
}

/// Whether some parameter of `m` is capability-bound.
pub open spec fn has_capability_param(m: MethodDescriptor) -> bool {
    exists|i: int|
        0 <= i < m.params@.len() && #[trigger] is_capability_bound(m.params@[i].ty@)
}

/// The storage strategy a method's stub requires: dynamic dispatch exactly
/// when some parameter is capability-bound.
pub open spec fn storage_for(m: MethodDescriptor) -> StubStorage {
    if has_capability_param(m) {
        StubStorage::BoxedDynCallable
    } else {
        StubStorage::PlainFunction
    }
}

/// Whether `p` is the correct plan for method `m`: the names carry over, the
/// builder handle is `expect_` followed by the method name, every parameter
/// keeps its name, is classified correctly and gets its dynamic-dispatch
/// type, the return type and the sync/async flag pass through unchanged, and
/// the storage strategy matches the classification.
pub open spec fn plan_matches(p: MethodPlan, m: MethodDescriptor) -> bool {
    &&& p.method@ == m.name@
    &&& p.expect_name@ == "expect_"@ + m.name@
    &&& p.params@.len() == m.params@.len()
    &&& forall|i: int|
        0 <= i < m.params@.len() ==> (#[trigger] p.params@[i]).name@ == m.params@[i].name@
    &&& forall|i: int|
        0 <= i < m.params@.len() ==> (#[trigger] p.params@[i]).capability == is_capability_bound(
            m.params@[i].ty@,
        )
    &&& forall|i: int|
        0 <= i < m.params@.len() ==> (#[trigger] p.params@[i]).dispatch_ty@ == to_dispatch_model(
            m.params@[i].ty@,
        )
    &&& p.ret@ == m.ret@
    &&& p.storage == storage_for(m)
    &&& p.is_async == m.is_async
}

/// Plans one method: classifies every parameter, computes its
/// dynamic-dispatch type, and chooses the stub-storage strategy.
pub fn plan_method(m: &MethodDescriptor) -> (p: MethodPlan)
    ensures
        plan_matches(p, *m),
{
    let mut params: Vec<PlannedParam> = Vec::new();
    let mut has_capability = false;
    let mut i: usize = 0;
    while i < m.params.len()
        invariant
            0 <= i <= m.params@.len(),
            params@.len() == i,
            forall|j: int|
                0 <= j < i ==> (#[trigger] params@[j]).name@ == m.params@[j].name@,
            forall|j: int|
                0 <= j < i ==> (#[trigger] params@[j]).capability == is_capability_bound(
                    m.params@[j].ty@,
                ),
            forall|j: int|
                0 <= j < i ==> (#[trigger] params@[j]).dispatch_ty@ == to_dispatch_model(
                    m.params@[j].ty@,
                ),
            has_capability <==> exists|j: int|
                0 <= j < i && #[trigger] is_capability_bound(m.params@[j].ty@),
        decreases m.params@.len() - i,
    {
        let param = &m.params[i];
        let capability = contains_capability(&param.ty);
        if capability {
            has_capability = true;
        }
        params.push(
            PlannedParam {
                name: param.name.clone(),
                capability,
                dispatch_ty: to_dispatch_type(&param.ty),
            },
        );
        i = i + 1;
    }
    let storage = if has_capability {
        StubStorage::BoxedDynCallable
    } else {
        StubStorage::PlainFunction
    };
    let p = MethodPlan {
        method: m.name.clone(),
        expect_name: String::from_str("expect_").concat(m.name.as_str()),
        params,
        ret: clone_shape(&m.ret),
        storage,
        is_async: m.is_async,
    };
    p
}

/// Whether `p` is the correct plan for interface `d`: the mock type is named
/// after the interface, and each method gets its correct plan, in interface
/// order.
pub open spec fn mock_plan_matches(p: MockPlan, d: InterfaceDescriptor) -> bool {
    &&& p.interface@ == d.name@
    &&& p.mock_name@ == "Mock"@ + d.name@
    &&& p.methods@.len() == d.methods@.len()
    &&& forall|i: int|
        0 <= i < d.methods@.len() ==> plan_matches(#[trigger] p.methods@[i], d.methods@[i])
}

/// Plans a whole mock for an interface: one expectation record per method,
/// each with its storage strategy, under a mock type named after the
/// interface.
pub fn plan_interface(d: &InterfaceDescriptor) -> (p: MockPlan)
    ensures
        mock_plan_matches(p, *d),
{
    let mut methods: Vec<MethodPlan> = Vec::new();
    let mut i: usize = 0;
    while i < d.methods.len()
        invariant
            0 <= i <= d.methods@.len(),
            methods@.len() == i,
            forall|j: int|
                0 <= j < i ==> plan_matches(#[trigger] methods@[j], d.methods@[j]),
        decreases d.methods@.len() - i,
    {
        methods.push(plan_method(&d.methods[i]));
        i = i + 1;
    }
    let p = MockPlan {
        interface: d.name.clone(),
        mock_name: String::from_str("Mock").concat(d.name.as_str()),
        methods,
    };
    p
}

} // verus!
