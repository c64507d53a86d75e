use vstd::prelude::*;

verus! {

/// The version string that both halves of the visualiser report.
pub open spec fn spec_version() -> Seq<char> {
    "v0.0.0"@
}

/// Version of the audio capture library.
pub fn get_avis_audio_lib_version() -> (version: &'static str)
    ensures
        version@ == spec_version(),
{
    "v0.0.0"
}

/// Version of the graphics library.
pub fn get_avis_graphics_lib_version() -> (version: &'static str)
    ensures
        version@ == spec_version(),
{
    "v0.0.0"
}

} // verus!
