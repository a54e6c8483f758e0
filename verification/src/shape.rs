//! Classification of parameter types.
//!
//! A mock cannot be generic over the caller's concrete argument type when a
//! parameter is typed as "anything satisfying a capability set" (an opaque
//! bound), because its stub storage is fixed at construction. Such a
//! parameter must instead be accepted through a dynamically dispatched
//! reference. The classifier decides, for the supported type grammar
//! (opaque capability bound, reference, group, parenthesized wrapper),
//! whether a type contains an opaque bound anywhere under its wrappers, and
//! rewrites it to its dynamic-dispatch equivalent, keeping the bound set and
//! every wrapper. Any other type shape passes through unchanged and counts as
//! non-capability.

use vstd::prelude::*;

verus! {

broadcast use vstd::std_specs::vec::vec_clone_deep_view_proof;

/// A parameter type, reduced to the grammar the classifier understands.
#[derive(Debug, PartialEq, Eq)]
pub enum TypeShape {
    /// An opaque bound: "any value satisfying this capability set".
    Capability { bounds: Vec<String> },
    /// The dynamic-dispatch form of an opaque bound.
    DynCapability { bounds: Vec<String> },
    /// A reference wrapper around an inner type.
    Reference { mutable: bool, inner: Box<TypeShape> },
    /// An invisible grouping wrapper around an inner type.
    Group { inner: Box<TypeShape> },
    /// A parenthesized wrapper around an inner type.
    Paren { inner: Box<TypeShape> },
    /// Any other type, named but not interpreted further.
    Plain { name: String },
}

/// The mathematical value of a [`TypeShape`].
pub ghost enum ShapeModel {
    Capability { bounds: Seq<Seq<char>> },
    DynCapability { bounds: Seq<Seq<char>> },
    Reference { mutable: bool, inner: Box<ShapeModel> },
    Group { inner: Box<ShapeModel> },
    Paren { inner: Box<ShapeModel> },
    Plain { name: Seq<char> },
}

/// The mathematical value of a [`TypeShape`].
pub open spec fn shape_model(t: TypeShape) -> ShapeModel
    decreases t,
{
    match t {
        TypeShape::Capability { bounds } => ShapeModel::Capability { bounds: bounds.deep_view() },
        TypeShape::DynCapability { bounds } => ShapeModel::DynCapability {
            bounds: bounds.deep_view(),
        },
        TypeShape::Reference { mutable, inner } => ShapeModel::Reference {
            mutable: mutable,
            inner: Box::new(shape_model(*inner)),
        },
        TypeShape::Group { inner } => ShapeModel::Group { inner: Box::new(shape_model(*inner)) },
        TypeShape::Paren { inner } => ShapeModel::Paren { inner: Box::new(shape_model(*inner)) },
        TypeShape::Plain { name } => ShapeModel::Plain { name: name@ },
    }
}

impl View for TypeShape {
    type V = ShapeModel;

    open spec fn view(&self) -> ShapeModel {
        shape_model(*self)
    }
}

/// Whether a type contains an opaque capability bound anywhere under its
/// reference, group, or parenthesis wrappers. Every other shape, the
/// dynamic-dispatch form included, is non-capability.
pub open spec fn is_capability_bound(t: ShapeModel) -> bool
    decreases t,
{
    match t {
        ShapeModel::Capability { .. } => true,
        ShapeModel::Reference { inner, .. } => is_capability_bound(*inner),
        ShapeModel::Group { inner } => is_capability_bound(*inner),
        ShapeModel::Paren { inner } => is_capability_bound(*inner),
        _ => false,
    }
}

/// The dynamic-dispatch equivalent of a type: every opaque capability bound
/// under the wrappers becomes its dynamic form with the same bound set; the
/// wrappers and every other shape stay as they are.
pub open spec fn to_dispatch_model(t: ShapeModel) -> ShapeModel
    decreases t,
{
    match t {
        ShapeModel::Capability { bounds } => ShapeModel::DynCapability { bounds },
        ShapeModel::Reference { mutable, inner } => ShapeModel::Reference {
            mutable,
            inner: Box::new(to_dispatch_model(*inner)),
        },
        ShapeModel::Group { inner } => ShapeModel::Group {
            inner: Box::new(to_dispatch_model(*inner)),
        },
        ShapeModel::Paren { inner } => ShapeModel::Paren {
            inner: Box::new(to_dispatch_model(*inner)),
        },
        other => other,
    }
}

/// Decides whether `t` is capability-bound.
pub fn contains_capability(t: &TypeShape) -> (r: bool)
    ensures
        r == is_capability_bound(t@),
    decreases *t,
{
    match t {
        TypeShape::Capability { .. } => true,
        TypeShape::Reference { inner, .. } => contains_capability(&**inner),
        TypeShape::Group { inner } => contains_capability(&**inner),
        TypeShape::Paren { inner } => contains_capability(&**inner),
        _ => false,
    }
}

/// Clones a capability set, keeping its value.
pub(crate) fn clone_bounds(bounds: &Vec<String>) -> (r: Vec<String>)
    ensures
        r.deep_view() == bounds.deep_view(),
{
    let r = bounds.clone();
    proof {
        assert(r.deep_view() =~= bounds.deep_view());
    }
    r
}

/// Rewrites `t` to its dynamic-dispatch equivalent.
pub fn to_dispatch_type(t: &TypeShape) -> (r: TypeShape)
    ensures
        r@ == to_dispatch_model(t@),
    decreases *t,
{
    match t {
        TypeShape::Capability { bounds } => TypeShape::DynCapability {
            bounds: clone_bounds(bounds),
        },
        TypeShape::DynCapability { bounds } => TypeShape::DynCapability {
            bounds: clone_bounds(bounds),
        },
        TypeShape::Reference { mutable, inner } => TypeShape::Reference {
            mutable: *mutable,
            inner: Box::new(to_dispatch_type(&**inner)),
        },
        TypeShape::Group { inner } => TypeShape::Group {
            inner: Box::new(to_dispatch_type(&**inner)),
        },
        TypeShape::Paren { inner } => TypeShape::Paren {
            inner: Box::new(to_dispatch_type(&**inner)),
        },
        TypeShape::Plain { name } => TypeShape::Plain { name: name.clone() },
    }
}

/// Copies a type shape, keeping its mathematical value.
pub fn clone_shape(t: &TypeShape) -> (r: TypeShape)
    ensures
        r@ == t@,
    decreases *t,
{
    match t {
        TypeShape::Capability { bounds } => TypeShape::Capability { bounds: clone_bounds(bounds) },
        TypeShape::DynCapability { bounds } => TypeShape::DynCapability {
            bounds: clone_bounds(bounds),
        },
        TypeShape::Reference { mutable, inner } => TypeShape::Reference {
            mutable: *mutable,
            inner: Box::new(clone_shape(&**inner)),
        },
        TypeShape::Group { inner } => TypeShape::Group { inner: Box::new(clone_shape(&**inner)) },
        TypeShape::Paren { inner } => TypeShape::Paren { inner: Box::new(clone_shape(&**inner)) },
        TypeShape::Plain { name } => TypeShape::Plain { name: name.clone() },
    }
}

/// The rewrite never leaves a capability bound behind: the dynamic-dispatch
/// form of any type is itself non-capability.
pub proof fn lemma_dispatch_model_not_capability(t: ShapeModel)
    ensures
        !is_capability_bound(to_dispatch_model(t)),
    decreases t,
{
    match t {
        ShapeModel::Reference { inner, .. } => lemma_dispatch_model_not_capability(*inner),
        ShapeModel::Group { inner } => lemma_dispatch_model_not_capability(*inner),
        ShapeModel::Paren { inner } => lemma_dispatch_model_not_capability(*inner),
        _ => {},
    }
}

/// The rewrite changes nothing about a non-capability type.
pub proof fn lemma_dispatch_model_identity(t: ShapeModel)
    requires
        !is_capability_bound(t),
    ensures
        to_dispatch_model(t) == t,
    decreases t,
{
    match t {
        ShapeModel::Reference { inner, .. } => lemma_dispatch_model_identity(*inner),
        ShapeModel::Group { inner } => lemma_dispatch_model_identity(*inner),
        ShapeModel::Paren { inner } => lemma_dispatch_model_identity(*inner),
        _ => {},
    }
}

/// One wrapper layer: a reference, a group, or a parenthesis.
pub ghost enum WrapperLayer {
    Reference { mutable: bool },
    Group,
    Paren,
}

/// Applies wrapper layers around `t`, outermost first.
pub open spec fn wrap_model(layers: Seq<WrapperLayer>, t: ShapeModel) -> ShapeModel
    decreases layers.len(),
{
    if layers.len() == 0 {
        t
    } else {
        let rest = wrap_model(layers.drop_first(), t);
        match layers[0] {
            WrapperLayer::Reference { mutable } => ShapeModel::Reference {
                mutable,
                inner: Box::new(rest),
            },
            WrapperLayer::Group => ShapeModel::Group { inner: Box::new(rest) },
            WrapperLayer::Paren => ShapeModel::Paren { inner: Box::new(rest) },
        }
    }
}

/// Classification does not depend on reference, grouping, or parenthesis
/// nesting: under any stack of wrapper layers, of any depth, a type is
/// capability-bound exactly when the wrapped type is. In particular a plain
/// or dynamic-dispatch type is never misclassified by wrapping it, and an
/// opaque bound is found at any depth.
pub proof fn lemma_classification_ignores_wrappers(layers: Seq<WrapperLayer>, t: ShapeModel)
    ensures
        is_capability_bound(wrap_model(layers, t)) == is_capability_bound(t),
    decreases layers.len(),
{
    if layers.len() > 0 {
        lemma_classification_ignores_wrappers(layers.drop_first(), t);
    }
}

/// The dynamic-dispatch rewrite keeps every wrapper layer in place: rewriting
/// a wrapped type wraps the rewritten type with the same layers.
pub proof fn lemma_dispatch_keeps_wrappers(layers: Seq<WrapperLayer>, t: ShapeModel)
    ensures
        to_dispatch_model(wrap_model(layers, t)) == wrap_model(layers, to_dispatch_model(t)),
    decreases layers.len(),
{
    if layers.len() > 0 {
        lemma_dispatch_keeps_wrappers(layers.drop_first(), t);
    }
}

} // verus!
