//! The single boundary where the native runtime selects its communication
//! provider: the provider must be built into the artifact, must have the
//! rendezvous endpoint its commissioning needs, and what it composes must
//! carry its own identity throughout.
use vstd::prelude::*;
use crate::text::str_eq;

verus! {

/// Whether `id` is one of `included`.
pub open spec fn is_included(included: Seq<String>, id: Seq<char>) -> bool {
    exists|i: int| 0 <= i < included.len() && #[trigger] included[i]@ == id
}

fn includes(included: &Vec<String>, id: &str) -> (r: bool)
    ensures
        r == is_included(included@, id@),
{
    let mut i: usize = 0;
    while i < included.len()
        invariant
            i <= included@.len(),
            forall|k: int| 0 <= k < i ==> #[trigger] included@[k]@ != id@,
        decreases included@.len() - i,
    {
        if str_eq(included[i].as_str(), id) {
            return true;
        }
        i = i + 1;
    }
    false
}

/// Checks the selected provider before it is composed: it must be among
/// the providers built into this artifact, and a provider whose
/// commissioning service needs an endpoint must have one.
pub fn check_selection(selected: &str, included: &Vec<String>, requires_endpoint: bool, has_endpoint: bool) -> (r:
    Result<(), String>)
    ensures
        !is_included(included@, selected@) ==> (r matches Err(e) && e@ == "communication provider '"@ + selected@
            + "' is not included in this native artifact"@),
        is_included(included@, selected@) && requires_endpoint && !has_endpoint ==> (r matches Err(e) && e@
            == "selected communication provider requires a rendezvous endpoint"@),
        is_included(included@, selected@) && !(requires_endpoint && !has_endpoint) ==> r is Ok,
{
    if !includes(included, selected) {
        let mut message = "communication provider '".to_owned();
        message.append(selected);
        message.append("' is not included in this native artifact");
        return Err(message);
    }
    if requires_endpoint && !has_endpoint {
        return Err("selected communication provider requires a rendezvous endpoint".to_owned());
    }
    Ok(())
}

/// Checks what a provider plugin composed: the plugin, its descriptor,
/// the composed bundle and its lifecycle must all name the selected
/// provider, so the runtime never publishes another provider's metadata.
pub fn check_composition(
    selected: &str,
    plugin_id: &str,
    descriptor_id: &str,
    bundle_provider: &str,
    lifecycle_provider: &str,
) -> (r: Result<(), String>)
    ensures
        r is Ok <==> (plugin_id@ == selected@ && descriptor_id@ == selected@ && bundle_provider@ == selected@
            && lifecycle_provider@ == selected@),
        !(plugin_id@ == selected@ && descriptor_id@ == selected@) ==> (r matches Err(e) && e@
            == "provider plugin metadata mismatch"@),
        plugin_id@ == selected@ && descriptor_id@ == selected@ && !(bundle_provider@ == selected@
            && lifecycle_provider@ == selected@) ==> (r matches Err(e) && e@ == "provider composition mismatch: selected="@
            + selected@ + ", bundle="@ + bundle_provider@ + ", lifecycle="@ + lifecycle_provider@),
{
    if !str_eq(plugin_id, selected) || !str_eq(descriptor_id, selected) {
        return Err("provider plugin metadata mismatch".to_owned());
    }
    if !str_eq(bundle_provider, selected) || !str_eq(lifecycle_provider, selected) {
        let mut message = "provider composition mismatch: selected=".to_owned();
        message.append(selected);
        message.append(", bundle=");
        message.append(bundle_provider);
        message.append(", lifecycle=");
        message.append(lifecycle_provider);
        return Err(message);
    }
    Ok(())
}

} // verus!
