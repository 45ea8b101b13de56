//! Choosing between the two function-host flavours of an extracted tree.
//!
//! The flavour is read off a marker file, `dist/nitro.json`: when it is
//! present the tree is worker-shaped, when it is absent the tree is
//! function-shaped.  The surrounding process probes the file system and
//! hands the finding in.

use vstd::prelude::*;

verus! {

/// The two flavours of function-hosting output.
#[derive(Debug, PartialEq, Eq, Copy, Clone, Structural)]
pub enum NuxtVariant {
    Function,
    Worker,
}

/// What probing the marker file found.
#[derive(Debug, PartialEq, Eq, Copy, Clone, Structural)]
pub enum MarkerProbe {
    /// The marker exists and is a regular file.
    File,
    /// The marker exists but is not a regular file.
    OtherKind,
    /// The marker does not exist.
    Absent,
    /// The probe itself failed.
    Unreadable,
}

/// The default public subpath of each flavour.
pub open spec fn public_path_view(v: NuxtVariant) -> Seq<char> {
    match v {
        NuxtVariant::Worker => "dist"@,
        NuxtVariant::Function => ".output/public"@,
    }
}

/// The flavour a marker finding denotes: any existing marker means a
/// worker, a missing one means a function, and a failed probe decides
/// nothing.
pub open spec fn variant_of_probe(probe: MarkerProbe) -> Result<NuxtVariant, ()> {
    match probe {
        MarkerProbe::File => Ok(NuxtVariant::Worker),
        MarkerProbe::OtherKind => Ok(NuxtVariant::Worker),
        MarkerProbe::Absent => Ok(NuxtVariant::Function),
        MarkerProbe::Unreadable => Err(()),
    }
}

/// The public subpath chosen from a marker finding; a failed probe falls
/// back to the worker flavour's subpath.
pub open spec fn guessed_public_path(probe: MarkerProbe) -> Seq<char> {
    match variant_of_probe(probe) {
        Ok(v) => public_path_view(v),
        Err(_) => public_path_view(NuxtVariant::Worker),
    }
}

impl NuxtVariant {
    /// Classify the tree from the marker finding.
    pub fn check_path(probe: MarkerProbe) -> (r: Result<NuxtVariant, ()>)
        ensures
            r == variant_of_probe(probe),
    {
        match probe {
            MarkerProbe::File => Ok(NuxtVariant::Worker),
            MarkerProbe::OtherKind => Ok(NuxtVariant::Worker),
            MarkerProbe::Absent => Ok(NuxtVariant::Function),
            MarkerProbe::Unreadable => Err(()),
        }
    }

    /// The fixed default public subpath of this flavour.
    pub fn as_public_path(self) -> (r: &'static str)
        ensures
            r@ == public_path_view(self),
    {
        match self {
            NuxtVariant::Worker => "dist",
            NuxtVariant::Function => ".output/public",
        }
    }

    /// The public subpath for a marker finding, falling back to the worker
    /// flavour when the probe failed.
    pub fn guess_public_path(probe: MarkerProbe) -> (r: &'static str)
        ensures
            r@ == guessed_public_path(probe),
    {
        match Self::check_path(probe) {
            Ok(variant) => variant.as_public_path(),
            Err(_) => "dist",
        }
    }
}

} // verus!
