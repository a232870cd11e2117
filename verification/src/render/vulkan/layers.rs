//! Layer names as the native API hands them out, and the all-or-nothing
//! check that every requested validation layer is on offer.

use super::native::{enumerate_layer_names, text_from_utf8};
use crate::render::{PlatformError, RendererError};
use vstd::prelude::*;
use vstd::slice::{slice_subrange, slice_to_vec};
use vstd::utf8::{decode_utf8, valid_utf8};

verus! {

/// `n` is where the C string in `raw` ends: no zero byte before `n`, and
/// either a zero byte at `n` or the end of the field.
pub open spec fn is_c_str_len(raw: Seq<u8>, n: int) -> bool {
    &&& 0 <= n <= raw.len()
    &&& forall|i: int| 0 <= i < n ==> raw[i] != 0
    &&& n < raw.len() ==> raw[n] == 0
}

/// The length of the C string held in a fixed-size field.
pub open spec fn spec_c_str_len(raw: Seq<u8>) -> int {
    choose|n: int| is_c_str_len(raw, n)
}

/// The bytes of the C string held in a fixed-size field: those before the
/// first zero byte, or all of them if there is none.
pub open spec fn c_str_bytes(raw: Seq<u8>) -> Seq<u8> {
    raw.take(spec_c_str_len(raw))
}

/// A field has exactly one C string length.
pub proof fn lemma_c_str_len_unique(raw: Seq<u8>, n: int)
    requires
        is_c_str_len(raw, n),
    ensures
        spec_c_str_len(raw) == n,
{
    let m = spec_c_str_len(raw);
    assert(is_c_str_len(raw, m));
    if m < n {
        assert(raw[m] != 0);
    }
    if n < m {
        assert(raw[n] != 0);
    }
}

/// The length of the C string held in a fixed-size field.
pub fn c_str_len(raw: &[u8]) -> (n: usize)
    ensures
        n == spec_c_str_len(raw@),
        is_c_str_len(raw@, n as int),
{
    let mut n: usize = 0;
    while n < raw.len() && raw[n] != 0
        invariant
            n <= raw.len(),
            forall|i: int| 0 <= i < n ==> raw@[i] != 0,
        decreases raw.len() - n,
    {
        n = n + 1;
    }
    proof {
        lemma_c_str_len_unique(raw@, n as int);
    }
    n
}

/// The text of a fixed-size name field, if its C string is valid UTF-8.
pub fn try_vk_to_str(raw: &[u8]) -> (text: Option<String>)
    ensures
        text.is_some() == valid_utf8(c_str_bytes(raw@)),
        text matches Some(s) ==> s@ == decode_utf8(c_str_bytes(raw@)),
{
    let n = c_str_len(raw);
    let bytes = slice_to_vec(slice_subrange(raw, 0, n));
    assert(bytes@ =~= c_str_bytes(raw@));
    text_from_utf8(bytes)
}

/// The text of a fixed-size name field whose C string is valid UTF-8.
pub fn vk_to_str(raw: &[u8]) -> (text: String)
    requires
        valid_utf8(c_str_bytes(raw@)),
    ensures
        text@ == decode_utf8(c_str_bytes(raw@)),
{
    match try_vk_to_str(raw) {
        Some(text) => text,
        None => {
            proof {
                assert(false);
            }
            String::new()
        },
    }
}

/// Whether every requested name is, letter for letter, among the available
/// ones. Nothing is enabled partially: one missing name makes it false.
pub open spec fn spec_layers_supported(available: Seq<Seq<char>>, requested: Seq<Seq<char>>) -> bool {
    forall|i: int| 0 <= i < requested.len() ==> available.contains(#[trigger] requested[i])
}

/// What the prober makes of an enumeration: an error if the enumeration
/// failed, or came back empty although layers were requested; otherwise
/// whether all requested layers are on offer.
pub open spec fn spec_validation_support(
    listing: Result<Seq<Seq<char>>, PlatformError>,
    requested: Seq<Seq<char>>,
) -> Result<bool, RendererError> {
    match listing {
        Err(e) => Err(RendererError::EnumerateDevicesFailed(e)),
        Ok(available) => if available.len() == 0 && requested.len() > 0 {
            Err(RendererError::EnumerateDevicesFailed(PlatformError::NoLayers))
        } else {
            Ok(spec_layers_supported(available, requested))
        },
    }
}

/// What an enumeration's raw result means: the native code of a failure, the
/// decoded names, or a malformed name if one of them is not text.
pub open spec fn spec_decode_layer_listing(raw: Result<Seq<Seq<u8>>, i32>) -> Result<
    Seq<Seq<char>>,
    PlatformError,
> {
    match raw {
        Err(code) => Err(PlatformError::Native(code)),
        Ok(fields) => if forall|i: int|
            0 <= i < fields.len() ==> valid_utf8(c_str_bytes(#[trigger] fields[i])) {
            Ok(Seq::new(fields.len(), |i: int| decode_utf8(c_str_bytes(fields[i]))))
        } else {
            Err(PlatformError::MalformedLayerName)
        },
    }
}

/// The view of a listing: names by their characters.
pub open spec fn listing_view(listing: Result<Vec<String>, PlatformError>) -> Result<
    Seq<Seq<char>>,
    PlatformError,
> {
    match listing {
        Ok(names) => Ok(names.deep_view()),
        Err(e) => Err(e),
    }
}

/// The view of a raw listing: name fields by their bytes.
pub open spec fn raw_listing_view(raw: Result<Vec<Vec<u8>>, i32>) -> Result<Seq<Seq<u8>>, i32> {
    match raw {
        Ok(fields) => Ok(fields.deep_view()),
        Err(code) => Err(code),
    }
}

/// Whether `name` is among `available`.
pub fn layer_offered(available: &Vec<String>, name: &String) -> (found: bool)
    ensures
        found == available.deep_view().contains(name@),
{
    let mut j: usize = 0;
    while j < available.len()
        invariant
            j <= available.len(),
            forall|k: int| 0 <= k < j ==> available.deep_view()[k] != name@,
        decreases available.len() - j,
    {
        if available[j] == *name {
            assert(available.deep_view()[j as int] == name@);
            return true;
        }
        j = j + 1;
    }
    false
}

/// Whether every requested layer name is among the available ones.
pub fn layers_supported(available: &Vec<String>, requested: &Vec<String>) -> (supported: bool)
    ensures
        supported == spec_layers_supported(available.deep_view(), requested.deep_view()),
{
    let mut i: usize = 0;
    while i < requested.len()
        invariant
            i <= requested.len(),
            forall|k: int|
                0 <= k < i ==> available.deep_view().contains(
                    #[trigger] requested.deep_view()[k],
                ),
        decreases requested.len() - i,
    {
        if !layer_offered(available, &requested[i]) {
            assert(requested.deep_view()[i as int] == requested[i as int]@);
            return false;
        }
        assert(requested.deep_view()[i as int] == requested[i as int]@);
        i = i + 1;
    }
    true
}

/// Decides, from what an enumeration gave, whether the requested layers can
/// be enabled.
pub fn validation_support(listing: &Result<Vec<String>, PlatformError>, requested: &Vec<String>) -> (support:
    Result<bool, RendererError>)
    ensures
        support == spec_validation_support(listing_view(*listing), requested.deep_view()),
{
    match listing {
        Err(e) => Err(RendererError::EnumerateDevicesFailed(*e)),
        Ok(available) => {
            if available.len() == 0 && requested.len() > 0 {
                Err(RendererError::EnumerateDevicesFailed(PlatformError::NoLayers))
            } else {
                Ok(layers_supported(available, requested))
            }
        },
    }
}

/// Turns an enumeration's raw result into names.
pub fn decode_layer_listing(raw: Result<Vec<Vec<u8>>, i32>) -> (listing: Result<
    Vec<String>,
    PlatformError,
>)
    ensures
        listing_view(listing) == spec_decode_layer_listing(raw_listing_view(raw)),
{
    match raw {
        Err(code) => Err(PlatformError::Native(code)),
        Ok(fields) => {
            let mut names: Vec<String> = Vec::new();
            let mut i: usize = 0;
            while i < fields.len()
                invariant
                    raw_listing_view(raw) == Ok::<Seq<Seq<u8>>, i32>(fields.deep_view()),
                    i <= fields.len(),
                    names.len() == i,
                    forall|k: int| 0 <= k < i ==> valid_utf8(c_str_bytes(#[trigger] fields@[k]@)),
                    forall|k: int|
                        0 <= k < i ==> (#[trigger] names@[k])@ == decode_utf8(
                            c_str_bytes(fields@[k]@),
                        ),
                decreases fields.len() - i,
            {
                match try_vk_to_str(fields[i].as_slice()) {
                    Some(name) => {
                        names.push(name);
                    },
                    None => {
                        proof {
                            let raw_fields = fields.deep_view();
                            assert(raw_fields[i as int] =~= fields@[i as int]@);
                            assert(!valid_utf8(c_str_bytes(raw_fields[i as int])));
                        }
                        return Err(PlatformError::MalformedLayerName);
                    },
                }
                i = i + 1;
            }
            proof {
                let raw_fields = fields.deep_view();
                assert forall|k: int| 0 <= k < raw_fields.len() implies valid_utf8(
                    c_str_bytes(#[trigger] raw_fields[k]),
                ) by {
                    assert(raw_fields[k] =~= fields@[k]@);
                }
                assert forall|k: int| 0 <= k < names.len() implies names.deep_view()[k]
                    == decode_utf8(c_str_bytes(raw_fields[k])) by {
                    assert(raw_fields[k] =~= fields@[k]@);
                    assert(names.deep_view()[k] == names@[k]@);
                }
                assert(names.deep_view() =~= Seq::new(
                    raw_fields.len(),
                    |k: int| decode_utf8(c_str_bytes(raw_fields[k])),
                ));
            }
            Ok(names)
        },
    }
}

/// Whether `listing` is something an enumeration can come to: the decoding
/// of some raw result.
pub open spec fn is_layer_listing(listing: Result<Seq<Seq<char>>, PlatformError>) -> bool {
    exists|raw: Result<Seq<Seq<u8>>, i32>| listing == #[trigger] spec_decode_layer_listing(raw)
}

/// Whether `support` is the prober's verdict, for the requested names, on
/// something an enumeration can come to.
pub open spec fn is_probe_verdict(support: Result<bool, RendererError>, requested: Seq<Seq<char>>) -> bool {
    exists|listing: Result<Seq<Seq<char>>, PlatformError>|
        is_layer_listing(listing) && support == #[trigger] spec_validation_support(
            listing,
            requested,
        )
}

/// Asks the driver stack, through a live entry point, for its instance
/// layers. Which layers there are depends on the machine. Whatever it
/// answers, what is returned is the decoding of that answer: the names, the
/// native code of a failed enumeration, or a malformed name.
pub fn enumerate_layers(entry: &ash::Entry) -> (listing: Result<Vec<String>, PlatformError>)
    ensures
        is_layer_listing(listing_view(listing)),
        listing matches Err(e) ==> e is Native || e is MalformedLayerName,
{
    let raw = enumerate_layer_names(entry);
    let ghost answer = raw_listing_view(raw);
    let listing = decode_layer_listing(raw);
    assert(listing_view(listing) == spec_decode_layer_listing(answer));
    listing
}

/// Probes a live entry point for the requested validation layers. Which
/// layers there are depends on the machine. Whatever the enumeration comes
/// to, what is returned is the verdict of `validation_support` on it: an
/// enumeration error if it failed or offers nothing while layers are
/// requested, otherwise whether all of them are on offer.
pub fn check_validation_layer_support(entry: &ash::Entry, requested: &Vec<String>) -> (support:
    Result<bool, RendererError>)
    ensures
        is_probe_verdict(support, requested.deep_view()),
        support matches Err(e) ==> e is EnumerateDevicesFailed,
{
    let listing = enumerate_layers(entry);
    let support = validation_support(&listing, requested);
    assert(support == spec_validation_support(listing_view(listing), requested.deep_view()));
    support
}

} // verus!
