//! The resource model: desired state (spec) and observed state (status).

use std::collections::BTreeMap;
use vstd::prelude::*;

verus! {

/// Desired state of a managed object, written by its owner.
#[derive(Clone, Debug, PartialEq, Eq)]
pub struct MyResourceSpec {
    pub size: i32,
    pub message: String,
    /// Free-form labels; an empty map is left out of the wire form.
    pub annotations: BTreeMap<String, String>,
}

/// Observed state of a managed object, written by the controller.
#[derive(Clone, Debug, PartialEq, Eq, Default)]
pub struct MyResourceStatus {
    pub ready: bool,
    /// `None` when no status message has been recorded.
    pub message: Option<String>,
}

/// A managed object as the store holds it: identity, spec and status.
#[derive(Clone, Debug, PartialEq, Eq)]
pub struct MyResource {
    /// `None` when the object's metadata carries no name yet.
    pub name: Option<String>,
    pub spec: MyResourceSpec,
    pub status: Option<MyResourceStatus>,
}

/// Mathematical model of `MyResourceSpec`.
pub struct MyResourceSpecView {
    pub size: i32,
    pub message: Seq<char>,
    pub annotations: Map<String, String>,
}

/// Mathematical model of `MyResourceStatus`.
pub struct MyResourceStatusView {
    pub ready: bool,
    pub message: Option<Seq<char>>,
}

/// Mathematical model of `MyResource`.
pub struct MyResourceView {
    pub name: Option<Seq<char>>,
    pub spec: MyResourceSpecView,
    pub status: Option<MyResourceStatusView>,
}

/// The characters of an optional string, absence kept.
pub open spec fn opt_string_view(s: Option<String>) -> Option<Seq<char>> {
    match s {
        Some(v) => Some(v@),
        None => None,
    }
}

impl View for MyResourceSpec {
    type V = MyResourceSpecView;

    open spec fn view(&self) -> MyResourceSpecView {
        MyResourceSpecView {
            size: self.size,
            message: self.message@,
            annotations: self.annotations@,
        }
    }
}

impl View for MyResourceStatus {
    type V = MyResourceStatusView;

    open spec fn view(&self) -> MyResourceStatusView {
        MyResourceStatusView { ready: self.ready, message: opt_string_view(self.message) }
    }
}

impl View for MyResource {
    type V = MyResourceView;

    open spec fn view(&self) -> MyResourceView {
        MyResourceView {
            name: opt_string_view(self.name),
            spec: self.spec@,
            status: match self.status {
                Some(s) => Some(s@),
                None => None,
            },
        }
    }
}

impl MyResourceSpec {
    /// A copy of the spec, field by field.
    pub fn copy_spec(&self) -> (r: MyResourceSpec)
        ensures
            r@ == self@,
    {
        MyResourceSpec {
            size: self.size,
            message: self.message.clone(),
            annotations: self.annotations.clone(),
        }
    }
}

} // verus!
