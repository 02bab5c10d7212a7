//! What the instance is created with: the API version, the extensions and
//! the layers.

use crate::version::{packed_version, required_api_version};
use vstd::prelude::*;

verus! {

/// The name of the extension through which the driver reports messages.
pub open spec fn debug_utils_name() -> Seq<char> {
    "VK_EXT_debug_utils"@
}

/// The name of the layer that validates the use of the API.
pub open spec fn validation_layer_name() -> Seq<char> {
    "VK_LAYER_KHRONOS_validation"@
}

/// The names of a list, each as its characters.
pub open spec fn names(list: Seq<String>) -> Seq<Seq<char>> {
    Seq::new(list.len(), |i: int| list[i]@)
}

/// What an instance is created with.
#[derive(Debug, PartialEq, Eq)]
pub struct InstancePlan {
    pub api_version: u32,
    pub extensions: Vec<String>,
    pub layers: Vec<String>,
    pub debug: bool,
}

/// Whether `name` is among the names that are offered.
pub fn offers(offered: &Vec<String>, name: &str) -> (r: bool)
    ensures
        r == names(offered@).contains(name@),
{
    let wanted = name.to_owned();
    let mut i: usize = 0;
    while i < offered.len()
        invariant
            0 <= i <= offered.len(),
            wanted@ == name@,
            forall|j: int| 0 <= j < i ==> names(offered@)[j] != name@,
        decreases offered.len() - i,
    {
        if offered[i] == wanted {
            assert(names(offered@)[i as int] == name@);
            return true;
        }
        i += 1;
    }
    false
}

/// The plan for the instance: version 1.0.0 of the API; the extensions
/// that the surface requires, and the debug extension behind them where the
/// driver offers it; the validation layer where the driver offers it, and
/// no layer else.
pub fn instance_plan(
    required_extensions: Vec<String>,
    supported_extensions: &Vec<String>,
    supported_layers: &Vec<String>,
) -> (plan: InstancePlan)
    ensures
        plan.api_version == packed_version(1, 0, 0),
        plan.debug == names(supported_extensions@).contains(debug_utils_name()),
        names(plan.extensions@) == if plan.debug {
            names(required_extensions@).push(debug_utils_name())
        } else {
            names(required_extensions@)
        },
        names(plan.layers@) == if names(supported_layers@).contains(validation_layer_name()) {
            seq![validation_layer_name()]
        } else {
            Seq::<Seq<char>>::empty()
        },
{
    let debug = offers(supported_extensions, "VK_EXT_debug_utils");
    let mut extensions = required_extensions;
    if debug {
        let ghost before = extensions@;
        extensions.push("VK_EXT_debug_utils".to_owned());
        assert(names(extensions@) =~= names(before).push(debug_utils_name()));
    }
    let mut layers: Vec<String> = Vec::new();
    if offers(supported_layers, "VK_LAYER_KHRONOS_validation") {
        layers.push("VK_LAYER_KHRONOS_validation".to_owned());
        assert(names(layers@) =~= seq![validation_layer_name()]);
    } else {
        assert(names(layers@) =~= Seq::<Seq<char>>::empty());
    }
    InstancePlan { api_version: required_api_version(), extensions, layers, debug }
}

} // verus!
