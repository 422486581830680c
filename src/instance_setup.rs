use vstd::prelude::*;

use crate::error_utils::EngineError;
use crate::names::{contains_name, includes_all, list_contains, list_includes_all};

verus! {

/// The validation layer turned on when validation is asked for.
pub const VALIDATION_LAYER: &'static str = "VK_LAYER_KHRONOS_validation";

/// The instance extension that carries validation messages.
pub const EXT_DEBUG_UTILS: &'static str = "VK_EXT_debug_utils";

/// The message of the error returned when the driver lacks a required
/// instance extension.
pub const MISSING_INSTANCE_EXTENSIONS: &'static str =
    "Expected more instance extensions than available";

/// The layers and extensions to create the instance with.
#[derive(Clone, Debug)]
pub struct InstancePlan {
    pub extensions: Vec<String>,
    pub layers: Vec<String>,
}

/// Debug utils has to be appended: validation is on and the window system
/// did not already ask for it.
pub open spec fn adds_debug_utils(window_extensions: Seq<String>, enable_validation: bool) -> bool {
    enable_validation && !contains_name(window_extensions, EXT_DEBUG_UTILS@)
}

/// `r` is the window system's extensions, followed by debug utils when
/// `adds_debug_utils` holds.
pub open spec fn is_required_instance_extensions(
    r: Seq<String>,
    window_extensions: Seq<String>,
    enable_validation: bool,
) -> bool {
    if adds_debug_utils(window_extensions, enable_validation) {
        &&& r.len() == window_extensions.len() + 1
        &&& r.take(window_extensions.len() as int) == window_extensions
        &&& r[window_extensions.len() as int]@ == EXT_DEBUG_UTILS@
    } else {
        r == window_extensions
    }
}

/// The layers to enable: the validation layer when validation is on and
/// the driver offers it, none otherwise.
pub open spec fn is_enabled_layers(
    r: Seq<String>,
    enable_validation: bool,
    available_layers: Seq<String>,
) -> bool {
    if enable_validation && contains_name(available_layers, VALIDATION_LAYER@) {
        r.len() == 1 && r[0]@ == VALIDATION_LAYER@
    } else {
        r.len() == 0
    }
}

/// The validation layers asked for when validation is on.
pub fn validation_layers() -> (r: Vec<String>)
    ensures
        r@.len() == 1,
        r@[0]@ == VALIDATION_LAYER@,
{
    let mut layers: Vec<String> = Vec::new();
    layers.push(String::from_str(VALIDATION_LAYER));
    layers
}

/// Whether the driver offers every validation layer.
pub fn check_validation_layer_support(available_layers: &Vec<String>) -> (r: bool)
    ensures
        r == contains_name(available_layers@, VALIDATION_LAYER@),
{
    let layers = validation_layers();
    let r = list_includes_all(available_layers, &layers);
    proof {
        if r {
            assert(contains_name(available_layers@, layers@[0]@));
        }
    }
    r
}

/// The instance extensions to ask for: those the window system needs, and
/// debug utils when validation is on.
pub fn get_required_instance_extensions(
    window_extensions: Vec<String>,
    enable_validation: bool,
) -> (r: Vec<String>)
    ensures
        is_required_instance_extensions(r@, window_extensions@, enable_validation),
{
    let mut extensions = window_extensions;
    if enable_validation {
        let debug_utils = String::from_str(EXT_DEBUG_UTILS);
        if !list_contains(&extensions, &debug_utils) {
            extensions.push(debug_utils);
            proof {
                assert(extensions@.take(window_extensions@.len() as int) =~= window_extensions@);
            }
        }
    }
    extensions
}

/// Whether the driver supports every requested instance extension.
pub fn check_instance_extension_support(
    supported_extensions: &Vec<String>,
    extensions: &Vec<String>,
) -> (r: bool)
    ensures
        r == includes_all(supported_extensions@, extensions@),
{
    list_includes_all(supported_extensions, extensions)
}

/// The driver supports the required extensions exactly when it supports the
/// window system's and, under validation, debug utils.
proof fn lemma_required_supported(
    r: Seq<String>,
    window_extensions: Seq<String>,
    enable_validation: bool,
    supported: Seq<String>,
)
    requires
        is_required_instance_extensions(r, window_extensions, enable_validation),
    ensures
        includes_all(supported, r) <==> includes_all(supported, window_extensions) && (
        enable_validation ==> contains_name(supported, EXT_DEBUG_UTILS@)),
{
    if adds_debug_utils(window_extensions, enable_validation) {
        let n = window_extensions.len() as int;
        assert forall|k: int| 0 <= k < n implies r[k] == window_extensions[k] by {
            assert(r.take(n)[k] == r[k]);
        }
        if includes_all(supported, r) {
            assert(contains_name(supported, r[n]@));
            assert forall|k: int| 0 <= k < n implies contains_name(
                supported,
                (#[trigger] window_extensions[k])@,
            ) by {
                assert(contains_name(supported, r[k]@));
            }
        }
        if includes_all(supported, window_extensions) && contains_name(supported, EXT_DEBUG_UTILS@) {
            assert forall|k: int| 0 <= k < r.len() implies contains_name(
                supported,
                (#[trigger] r[k])@,
            ) by {
                if k < n {
                    assert(contains_name(supported, window_extensions[k]@));
                }
            }
        }
    } else if enable_validation && includes_all(supported, window_extensions) {
        let i = choose|i: int|
            0 <= i < window_extensions.len() && (#[trigger] window_extensions[i])@
                == EXT_DEBUG_UTILS@;
        assert(contains_name(supported, window_extensions[i]@));
    }
}

/// Decides how to create the instance: the extensions the window system
/// needs plus debug utils under validation, which the driver must support,
/// and the validation layer when validation is on and it is offered.
pub fn plan_instance(
    enable_validation: bool,
    available_layers: &Vec<String>,
    window_extensions: Vec<String>,
    supported_extensions: &Vec<String>,
) -> (r: Result<InstancePlan, EngineError>)
    ensures
        r is Ok <==> includes_all(supported_extensions@, window_extensions@) && (enable_validation
            ==> contains_name(supported_extensions@, EXT_DEBUG_UTILS@)),
        r matches Ok(plan) ==> is_required_instance_extensions(
            plan.extensions@,
            window_extensions@,
            enable_validation,
        ) && is_enabled_layers(plan.layers@, enable_validation, available_layers@),
        r matches Err(e) ==> (e matches EngineError::VulkanValidationError(m) && m@
            == MISSING_INSTANCE_EXTENSIONS@),
{
    let ghost window = window_extensions@;
    let extensions = get_required_instance_extensions(window_extensions, enable_validation);
    proof {
        lemma_required_supported(extensions@, window, enable_validation, supported_extensions@);
    }
    if !check_instance_extension_support(supported_extensions, &extensions) {
        return Err(
            EngineError::VulkanValidationError(String::from_str(MISSING_INSTANCE_EXTENSIONS)),
        );
    }
    let layers = if enable_validation && check_validation_layer_support(available_layers) {
        validation_layers()
    } else {
        Vec::new()
    };
    Ok(InstancePlan { extensions, layers })
}

} // verus!
