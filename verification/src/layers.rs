use vstd::prelude::*;

verus! {

/// `name` is the name of one of the `supported` layers.
pub open spec fn is_supported(supported: Seq<Vec<u8>>, name: Seq<u8>) -> bool {
    exists|j: int| 0 <= j < supported.len() && (#[trigger] supported[j])@ == name
}

/// Every one of the `required` layers is among the `supported` ones.
pub open spec fn all_supported(supported: Seq<Vec<u8>>, required: Seq<Vec<u8>>) -> bool {
    forall|i: int| 0 <= i < required.len() ==> is_supported(supported, (#[trigger] required[i])@)
}

/// The two names are the same bytes.
pub fn same_name(left: &Vec<u8>, right: &Vec<u8>) -> (same: bool)
    ensures
        same == (left@ == right@),
{
    if left.len() != right.len() {
        return false;
    }
    let mut i: usize = 0;
    while i < left.len()
        invariant
            i <= left.len(),
            left.len() == right.len(),
            forall|k: int| 0 <= k < i ==> left[k] == right[k],
        decreases left.len() - i,
    {
        if left[i] != right[i] {
            return false;
        }
        i = i + 1;
    }
    assert(left@ =~= right@);
    true
}

/// Whether `name` is among the `supported` layer names.
pub fn layer_is_supported(supported: &Vec<Vec<u8>>, name: &Vec<u8>) -> (found: bool)
    ensures
        found == is_supported(supported@, name@),
{
    let mut j: usize = 0;
    while j < supported.len()
        invariant
            j <= supported.len(),
            forall|k: int| 0 <= k < j ==> (#[trigger] supported[k])@ != name@,
        decreases supported.len() - j,
    {
        if same_name(&supported[j], name) {
            return true;
        }
        j = j + 1;
    }
    false
}

/// Whether the backend offers every validation layer that is asked for.
/// `supported_layers` holds the names the backend reports, a name being the
/// bytes before the terminating zero.
pub fn check_validation_layer_support(
    supported_layers: &Vec<Vec<u8>>,
    required_validation_layers: &Vec<Vec<u8>>,
) -> (supported: bool)
    ensures
        supported == all_supported(supported_layers@, required_validation_layers@),
{
    let mut i: usize = 0;
    while i < required_validation_layers.len()
        invariant
            i <= required_validation_layers.len(),
            forall|k: int|
                0 <= k < i ==> is_supported(
                    supported_layers@,
                    (#[trigger] required_validation_layers[k])@,
                ),
        decreases required_validation_layers.len() - i,
    {
        if !layer_is_supported(supported_layers, &required_validation_layers[i]) {
            return false;
        }
        i = i + 1;
    }
    true
}

} // verus!
