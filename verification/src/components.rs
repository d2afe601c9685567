//! The names under which the backend's components announce themselves.

use vstd::prelude::*;

verus! {

/// The name of the job lifecycle executive.
pub fn hello_qrtx() -> (r: &'static str)
    ensures
        r@ == "qrtx"@,
{
    "qrtx"
}

/// The name of the observability component.
pub fn hello_observability() -> (r: &'static str)
    ensures
        r@ == "observability"@,
{
    "observability"
}

/// The name of the resource manager.
pub fn hello_resource_manager() -> (r: &'static str)
    ensures
        r@ == "resource-manager"@,
{
    "resource-manager"
}

/// The name of the security module.
pub fn hello_security_module() -> (r: &'static str)
    ensures
        r@ == "security-module"@,
{
    "security-module"
}

} // verus!
