//! Modules: the named owners that make devices and claim them.
use vstd::prelude::*;
use crate::bdev::Bdev;
use crate::registry::BdevRegistry;
use crate::bdev_builder::BdevBuilder;
use crate::bdev_ops::BdevOps;
use crate::error::{SpdkError, SpdkResult};

verus! {

/// A module, known by its name.
pub struct BdevModule {
    name: String,
}

impl BdevModule {
    /// The name of the module.
    pub closed spec fn view(&self) -> Seq<char> {
        self.name@
    }

    /// The module of the given name.
    pub fn new(name: &str) -> (m: Self)
        ensures
            m@ == name@,
    {
        BdevModule { name: name.to_owned() }
    }

    /// The name of the module.
    pub fn name(&self) -> (name: String)
        ensures
            name@ == self@,
    {
        self.name.clone()
    }

    /// Starts the description of a device that this module makes.
    pub fn bdev_builder<D: BdevOps>(&self) -> (b: BdevBuilder<D>)
        ensures
            b@ == BdevBuilder::<D>::spec_new(self@),
    {
        BdevBuilder::new(self)
    }

    /// Claims the device for this module. Fails, and changes nothing, where
    /// the device is claimed already, by this module or another.
    pub fn claim_bdev<D: BdevOps>(&self, reg: &mut BdevRegistry<D>, bdev: &Bdev) -> (r:
        SpdkResult<()>)
        requires
            old(reg).wf(),
            bdev.spec_live(old(reg)),
        ensures
            final(reg).wf(),
            final(reg)@ == old(reg)@.claim(bdev.spec_index(), self@),
            r.is_ok() <==> bdev.spec_device(old(reg)).claim.is_none(),
            r.is_err() ==> (r matches Err(SpdkError::BdevAlreadyClaimed { name }) && name@
                == bdev.spec_device(old(reg)).name),
    {
        if bdev.claim(reg, self.name.as_str()) {
            Ok(())
        } else {
            Err(SpdkError::BdevAlreadyClaimed { name: bdev.name(reg) })
        }
    }

    /// Lets go of the claim that this module has on the device. Fails, and
    /// changes nothing, where this module has no claim on it.
    pub fn release_bdev<D: BdevOps>(&self, reg: &mut BdevRegistry<D>, bdev: &Bdev) -> (r:
        SpdkResult<()>)
        requires
            old(reg).wf(),
            bdev.spec_live(old(reg)),
        ensures
            final(reg).wf(),
            r.is_ok() <==> bdev.spec_device(old(reg)).claimed_by(self@),
            r.is_ok() ==> final(reg)@ == old(reg)@.release_claim(bdev.spec_index()),
            r.is_err() ==> final(reg)@ == old(reg)@ && (r matches Err(
                SpdkError::BdevNotClaimed { name, mod_name },
            ) && name@ == bdev.spec_device(old(reg)).name && mod_name@ == self@),
    {
        if bdev.is_claimed_by_module(reg, self) {
            bdev.release_claim(reg);
            Ok(())
        } else {
            Err(SpdkError::BdevNotClaimed { name: bdev.name(reg), mod_name: self.name.clone() })
        }
    }
}

impl Bdev {
    /// The module that made the device.
    pub fn module<D: BdevOps>(&self, reg: &BdevRegistry<D>) -> (m: BdevModule)
        requires
            self.spec_live(reg),
        ensures
            m@ == self.spec_device(reg).module,
    {
        BdevModule { name: self.module_name(reg) }
    }

    /// The module that has claimed the device, if any.
    pub fn first_claim_module<D: BdevOps>(&self, reg: &BdevRegistry<D>) -> (m: Option<BdevModule>)
        requires
            self.spec_live(reg),
        ensures
            m.is_some() <==> self.spec_device(reg).claim.is_some(),
            m.is_some() ==> Some(m.unwrap()@) == self.spec_device(reg).claim,
    {
        match self.first_claim_module_name(reg) {
            Some(name) => Some(BdevModule { name }),
            None => None,
        }
    }

    /// True where the given module has claimed the device.
    pub fn is_claimed_by_module<D: BdevOps>(&self, reg: &BdevRegistry<D>, module: &BdevModule) -> (b:
        bool)
        requires
            self.spec_live(reg),
        ensures
            b == self.spec_device(reg).claimed_by(module@),
    {
        self.is_claimed_by(reg, module.name.as_str())
    }
}

} // verus!
