//! Firmware version numbers and their order.

use crate::text::{decimal_digits, decimal_text};
use vstd::prelude::*;
use vstd::string::*;

verus! {

/// A firmware version: major, minor, patch and build, in that order.
#[derive(Clone, Copy, Debug, PartialEq, Eq, Structural, PartialOrd, Ord, Hash)]
pub struct VersionNumber(pub u32, pub u32, pub u32, pub u32);

/// `a` is at least `b` when the four fields are read as one number with
/// `major` as its most significant digit.
pub open spec fn newer_or_equal(a: VersionNumber, b: VersionNumber) -> bool {
    a.0 > b.0 || (a.0 == b.0 && (a.1 > b.1 || (a.1 == b.1 && (a.2 > b.2 || (a.2 == b.2 && a.3
        >= b.3)))))
}

/// A version written out: its four fields in decimal, with dots between.
pub open spec fn version_text(version: VersionNumber) -> Seq<char> {
    decimal_digits(version.0 as nat) + "."@ + decimal_digits(version.1 as nat) + "."@
        + decimal_digits(version.2 as nat) + "."@ + decimal_digits(version.3 as nat)
}

impl VersionNumber {
    /// The version as text, such as `1.2.52.7`.
    pub fn to_text(&self) -> (text: String)
        ensures
            text@ == version_text(*self),
    {
        let mut text = decimal_text(self.0 as u64);
        text.append(".");
        text.append(decimal_text(self.1 as u64).as_str());
        text.append(".");
        text.append(decimal_text(self.2 as u64).as_str());
        text.append(".");
        text.append(decimal_text(self.3 as u64).as_str());
        text
    }
}

/// How a candidate version stands to the one a device runs.
#[derive(Clone, Copy, Debug, PartialEq, Eq, Structural)]
pub enum UpdateKind {
    /// The candidate is later than what the device runs.
    Upgrade,
    /// The candidate is earlier than what the device runs.
    Downgrade,
    /// The candidate is exactly what the device runs.
    Reinstall,
}

/// The kind of update that installing `candidate` over `current` is.
pub open spec fn update_kind(current: VersionNumber, candidate: VersionNumber) -> UpdateKind {
    if current == candidate {
        UpdateKind::Reinstall
    } else if newer_or_equal(current, candidate) {
        UpdateKind::Downgrade
    } else {
        UpdateKind::Upgrade
    }
}

/// Classifies the installation of `candidate` on a device that runs
/// `current`.
pub fn classify_update(current: &VersionNumber, candidate: VersionNumber) -> (kind: UpdateKind)
    ensures
        kind == update_kind(*current, candidate),
        (kind != UpdateKind::Upgrade) == newer_or_equal(*current, candidate),
{
    if !version_newer_or_equal_to(current, candidate) {
        UpdateKind::Upgrade
    } else if current.0 == candidate.0 && current.1 == candidate.1 && current.2 == candidate.2
        && current.3 == candidate.3 {
        UpdateKind::Reinstall
    } else {
        UpdateKind::Downgrade
    }
}

/// Whether `version` is the same as, or later than, `comparison`.
pub fn version_newer_or_equal_to(version: &VersionNumber, comparison: VersionNumber) -> (newer:
    bool)
    ensures
        newer == newer_or_equal(*version, comparison),
{
    if version.0 > comparison.0 {
        return true;
    }
    if version.0 < comparison.0 {
        return false;
    }
    if version.1 > comparison.1 {
        return true;
    }
    if version.1 < comparison.1 {
        return false;
    }
    if version.2 > comparison.2 {
        return true;
    }
    if version.2 < comparison.2 {
        return false;
    }
    version.3 >= comparison.3
}

/// Every version is at least itself.
pub proof fn lemma_newer_or_equal_reflexive(a: VersionNumber)
    ensures
        newer_or_equal(a, a),
{
}

/// Of two versions, one is at least the other.
pub proof fn lemma_newer_or_equal_total(a: VersionNumber, b: VersionNumber)
    ensures
        newer_or_equal(a, b) || newer_or_equal(b, a),
{
}

/// Two versions that are each at least the other are the same version.
pub proof fn lemma_newer_or_equal_antisymmetric(a: VersionNumber, b: VersionNumber)
    requires
        newer_or_equal(a, b),
        newer_or_equal(b, a),
    ensures
        a == b,
{
}

/// The order carries over a version in the middle.
pub proof fn lemma_newer_or_equal_transitive(a: VersionNumber, b: VersionNumber, c: VersionNumber)
    requires
        newer_or_equal(a, b),
        newer_or_equal(b, c),
    ensures
        newer_or_equal(a, c),
{
}

/// A reinstall is among the updates that count as going back: whenever the
/// candidate is what the device runs, the device's version is at least the
/// candidate's. Some updates that go back are no reinstall.
pub proof fn lemma_reinstall_goes_back(current: VersionNumber, candidate: VersionNumber)
    ensures
        update_kind(current, candidate) == UpdateKind::Reinstall ==> newer_or_equal(
            current,
            candidate,
        ),
        newer_or_equal(VersionNumber(1, 0, 0, 1), VersionNumber(1, 0, 0, 0)),
        update_kind(VersionNumber(1, 0, 0, 1), VersionNumber(1, 0, 0, 0)) == UpdateKind::Downgrade,
{
}

/// A later major version wins whatever the lower fields hold.
pub proof fn lemma_major_decides(a: VersionNumber, b: VersionNumber)
    requires
        a.0 != b.0,
    ensures
        newer_or_equal(a, b) == (a.0 > b.0),
{
}

} // verus!
