//! A resource is at the path it was fetched from. Whatever its body says
//! of its own address, what is read holds the path of the request.

use crate::json::Json;
use crate::model::{
    chassis_of, interface_of, manager_of, power_of, processor_of, system_of, thermal_of,
};
use vstd::prelude::*;

verus! {

/// A chassis that was fetched from `uri` is at `uri`.
pub proof fn chassis_origin(j: Json, uri: Seq<char>)
    requires
        chassis_of(j, uri) is Some,
    ensures
        chassis_of(j, uri)->Some_0.uri == uri,
{
    reveal(chassis_of);
}

/// An interface that was fetched from `uri` is at `uri`.
pub proof fn interface_origin(j: Json, uri: Seq<char>)
    requires
        interface_of(j, uri) is Some,
    ensures
        interface_of(j, uri)->Some_0.uri == uri,
{
    reveal(interface_of);
}

/// A manager that was fetched from `uri` is at `uri`.
pub proof fn manager_origin(j: Json, uri: Seq<char>)
    requires
        manager_of(j, uri) is Some,
    ensures
        manager_of(j, uri)->Some_0.uri == uri,
{
    reveal(manager_of);
}

/// A power that was fetched from `uri` is at `uri`.
pub proof fn power_origin(j: Json, uri: Seq<char>)
    requires
        power_of(j, uri) is Some,
    ensures
        power_of(j, uri)->Some_0.uri == uri,
{
    reveal(power_of);
}

/// A processor that was fetched from `uri` is at `uri`.
pub proof fn processor_origin(j: Json, uri: Seq<char>)
    requires
        processor_of(j, uri) is Some,
    ensures
        processor_of(j, uri)->Some_0.uri == uri,
{
    reveal(processor_of);
}

/// A system that was fetched from `uri` is at `uri`.
pub proof fn system_origin(j: Json, uri: Seq<char>)
    requires
        system_of(j, uri) is Some,
    ensures
        system_of(j, uri)->Some_0.uri == uri,
{
    reveal(system_of);
}

/// A thermal that was fetched from `uri` is at `uri`.
pub proof fn thermal_origin(j: Json, uri: Seq<char>)
    requires
        thermal_of(j, uri) is Some,
    ensures
        thermal_of(j, uri)->Some_0.uri == uri,
{
    reveal(thermal_of);
}

} // verus!
