//! What a hook module installs: the class it looks up and the methods of that
//! class it hooks. Looking the class up and installing the hooks is left to the
//! caller, which skips the whole plan when the class is not found.
use vstd::prelude::*;

verus! {

/// A method to hook: its name and its number of parameters.
#[derive(Debug, PartialEq, Eq)]
pub struct MethodHook {
    pub method: &'static str,
    pub arg_count: i32,
}

/// A class, by namespace and name, and the methods of it to hook, in order.
#[derive(Debug)]
pub struct HookPlan {
    pub namespace: &'static str,
    pub class_name: &'static str,
    pub hooks: Vec<MethodHook>,
}

} // verus!
