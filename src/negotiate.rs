//! Instance capability negotiation: which extensions and layers to enable,
//! and whether the loader offers them all.
use vstd::prelude::*;

use crate::error::{ConfigItem, SetupError};
use crate::vk_names::debug_utils_extension_name;

verus! {

/// The extensions and layers to enable on the instance.
#[derive(Clone, Debug)]
pub struct InstancePlan {
    pub extensions: Vec<String>,
    pub layers: Vec<String>,
    /// Chain a debug-messenger descriptor into instance creation and create a
    /// messenger on the finished instance.
    pub diagnostics: bool,
}

/// The names held by a list of strings.
pub open spec fn names(list: Seq<String>) -> Seq<Seq<char>> {
    list.map_values(|s: String| s@)
}

pub open spec fn validation_layer_name() -> Seq<char> {
    "VK_LAYER_KHRONOS_validation"@
}

pub open spec fn debug_utils_extension() -> Seq<char> {
    "VK_EXT_debug_utils"@
}

pub open spec fn validation_layer_names(enable: bool) -> Seq<Seq<char>> {
    if enable {
        seq![validation_layer_name()]
    } else {
        Seq::empty()
    }
}

/// The platform's surface extensions, plus debug utils when diagnostics are on.
pub open spec fn required_extension_names(platform: Seq<Seq<char>>, enable: bool) -> Seq<
    Seq<char>,
> {
    if enable {
        platform.push(debug_utils_extension())
    } else {
        platform
    }
}

pub open spec fn all_supported(supported: Seq<Seq<char>>, required: Seq<Seq<char>>) -> bool {
    forall|j: int| 0 <= j < required.len() ==> supported.contains(#[trigger] required[j])
}

/// `k` is the position of the first required name that is not supported.
pub open spec fn first_missing_at(
    supported: Seq<Seq<char>>,
    required: Seq<Seq<char>>,
    k: int,
) -> bool {
    &&& 0 <= k < required.len()
    &&& !supported.contains(required[k])
    &&& all_supported(supported, required.take(k))
}

pub fn contains_name(list: &Vec<String>, name: &String) -> (r: bool)
    ensures
        r == names(list@).contains(name@),
{
    let mut i: usize = 0;
    while i < list.len()
        invariant
            0 <= i <= list@.len(),
            forall|j: int| 0 <= j < i ==> list@[j]@ != name@,
        decreases list@.len() - i,
    {
        if list[i] == *name {
            assert(names(list@)[i as int] == name@);
            return true;
        }
        i = i + 1;
    }
    assert forall|j: int| 0 <= j < names(list@).len() implies names(list@)[j] != name@ by {
        assert(list@[j]@ != name@);
    }
    false
}

fn first_missing(supported: &Vec<String>, required: &Vec<String>) -> (r: Option<usize>)
    ensures
        r is None <==> all_supported(names(supported@), names(required@)),
        r matches Some(k) ==> first_missing_at(names(supported@), names(required@), k as int),
{
    let ghost sup = names(supported@);
    let ghost req = names(required@);
    let mut i: usize = 0;
    while i < required.len()
        invariant
            0 <= i <= required@.len(),
            sup == names(supported@),
            req == names(required@),
            all_supported(sup, req.take(i as int)),
        decreases required@.len() - i,
    {
        if !contains_name(supported, &required[i]) {
            assert(req[i as int] == required@[i as int]@);
            assert(!sup.contains(req[i as int]));
            return Some(i);
        }
        proof {
            assert forall|j: int| 0 <= j < i + 1 implies sup.contains(
                #[trigger] req.take(i as int + 1)[j],
            ) by {
                if j < i {
                    assert(req.take(i as int)[j] == req.take(i as int + 1)[j]);
                }
            }
        }
        i = i + 1;
    }
    assert(req.take(i as int) =~= req);
    None
}

/// The validation layers to request: the Khronos validation layer when
/// diagnostics are on, none otherwise.
pub fn validation_layers(enable_validation_layer: bool) -> (r: Vec<String>)
    ensures
        names(r@) == validation_layer_names(enable_validation_layer),
{
    if enable_validation_layer {
        let layer = "VK_LAYER_KHRONOS_validation".to_owned();
        let r = vec![layer];
        assert(names(r@) =~= validation_layer_names(true));
        r
    } else {
        let r: Vec<String> = Vec::new();
        assert(names(r@) =~= validation_layer_names(false));
        r
    }
}

/// The platform's surface extensions, followed by debug utils when
/// diagnostics are on.
pub fn required_extensions(platform: Vec<String>, enable_validation_layer: bool) -> (r: Vec<
    String,
>)
    ensures
        names(r@) == required_extension_names(names(platform@), enable_validation_layer),
{
    let mut extensions = platform;
    if enable_validation_layer {
        extensions.push(debug_utils_extension_name());
        assert(names(extensions@) =~= names(platform@).push(debug_utils_extension()));
    }
    extensions
}

/// Fails with the first required extension that is not supported.
pub fn check_extension_support(supported: &Vec<String>, required: &Vec<String>) -> (r: Result<
    (),
    SetupError,
>)
    ensures
        r is Ok <==> all_supported(names(supported@), names(required@)),
        r matches Err(e) ==> exists|k: int|
            #![auto]
            first_missing_at(names(supported@), names(required@), k) && e.reports_missing(
                ConfigItem::Extension,
                names(required@)[k],
            ),
{
    match first_missing(supported, required) {
        None => Ok(()),
        Some(k) => Err(SetupError::Configuration(ConfigItem::Extension, required[k].clone())),
    }
}

/// Fails with the first required layer that is not available.
pub fn check_validation_layer_support(available: &Vec<String>, required: &Vec<String>) -> (r:
    Result<(), SetupError>)
    ensures
        r is Ok <==> all_supported(names(available@), names(required@)),
        r matches Err(e) ==> exists|k: int|
            #![auto]
            first_missing_at(names(available@), names(required@), k) && e.reports_missing(
                ConfigItem::Layer,
                names(required@)[k],
            ),
{
    match first_missing(available, required) {
        None => Ok(()),
        Some(k) => Err(SetupError::Configuration(ConfigItem::Layer, required[k].clone())),
    }
}

/// Decides what the instance is created with. Fails with a configuration
/// error exactly when a requested extension or layer is not offered; a
/// missing extension is reported before a missing layer.
pub fn negotiate(
    supported_extensions: &Vec<String>,
    available_layers: &Vec<String>,
    platform_extensions: Vec<String>,
    enable_diagnostics: bool,
) -> (r: Result<InstancePlan, SetupError>)
    ensures
        ({
            let ext = required_extension_names(names(platform_extensions@), enable_diagnostics);
            let lay = validation_layer_names(enable_diagnostics);
            &&& r is Ok <==> (all_supported(names(supported_extensions@), ext) && all_supported(
                names(available_layers@),
                lay,
            ))
            &&& r matches Ok(plan) ==> {
                &&& names(plan.extensions@) == ext
                &&& names(plan.layers@) == lay
                &&& plan.diagnostics == enable_diagnostics
            }
            &&& r matches Err(e) ==> {
                ||| (exists|k: int|
                    #![auto]
                    first_missing_at(names(supported_extensions@), ext, k) && e.reports_missing(
                        ConfigItem::Extension,
                        ext[k],
                    ))
                ||| (all_supported(names(supported_extensions@), ext) && exists|k: int|
                    #![auto]
                    first_missing_at(names(available_layers@), lay, k) && e.reports_missing(
                        ConfigItem::Layer,
                        lay[k],
                    ))
            }
        }),
{
    let extensions = required_extensions(platform_extensions, enable_diagnostics);
    check_extension_support(supported_extensions, &extensions)?;
    let layers = validation_layers(enable_diagnostics);
    check_validation_layer_support(available_layers, &layers)?;
    Ok(InstancePlan { extensions, layers, diagnostics: enable_diagnostics })
}

} // verus!
