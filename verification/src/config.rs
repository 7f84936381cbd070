//! What the user chose for an install attempt.

use vstd::prelude::*;
use vstd::string::*;
use crate::resolver::VariantSelector;

verus! {

/// The choices that an install attempt is started with. The worker gets a
/// copy when the attempt begins; changes made later do not reach it.
#[derive(Debug, PartialEq, Eq)]
pub struct InstallConfig {
    /// The directory to install into.
    pub target_dir: String,
    /// Whether the resource pack is installed besides the product.
    pub with_resource_pack: bool,
}

impl Clone for InstallConfig {
    fn clone(&self) -> (copy: Self)
        ensures
            copy == *self,
    {
        InstallConfig {
            target_dir: self.target_dir.clone(),
            with_resource_pack: self.with_resource_pack,
        }
    }
}

impl InstallConfig {
    /// The choices before the user changed any: install into `target_dir`,
    /// with the resource pack.
    pub fn new(target_dir: &str) -> (config: InstallConfig)
        ensures
            config.target_dir@ == target_dir@,
            config.with_resource_pack,
    {
        InstallConfig { target_dir: String::from_str(target_dir), with_resource_pack: true }
    }

    /// Installs into `target_dir` from now on.
    pub fn set_target_dir(&mut self, target_dir: &str)
        ensures
            final(self).target_dir@ == target_dir@,
            final(self).with_resource_pack == old(self).with_resource_pack,
    {
        self.target_dir = String::from_str(target_dir);
    }

    /// Switches the resource pack on if it was off, and off if it was on.
    pub fn toggle_resource_pack(&mut self)
        ensures
            final(self).with_resource_pack == !old(self).with_resource_pack,
            final(self).target_dir == old(self).target_dir,
    {
        self.with_resource_pack = !self.with_resource_pack;
    }

    /// How many variants the choices ask for.
    pub open spec fn variant_count(self) -> nat {
        if self.with_resource_pack {
            2
        } else {
            1
        }
    }

    /// The variants to install, out of the two that `standard` and `pack`
    /// describe: the standard build always and first, the resource pack
    /// after it where it was chosen.
    pub fn variants(&self, standard: VariantSelector, pack: VariantSelector) -> (chosen: Vec<
        VariantSelector,
    >)
        ensures
            chosen@.len() == self.variant_count(),
            chosen@[0] == standard,
            self.with_resource_pack ==> chosen@[1] == pack,
    {
        let mut chosen: Vec<VariantSelector> = Vec::new();
        chosen.push(standard);
        if self.with_resource_pack {
            chosen.push(pack);
        }
        chosen
    }
}

} // verus!
