//! The builder of devices.
use vstd::prelude::*;
use crate::bdev::{Bdev, BdevZoneInfo, Uuid};
use crate::registry::{
    lemma_push_built_wf,
    BdevRegistry,
    Container,
    DeviceView,
    Phase,
    RegistryView,
};
use crate::bdev_module::BdevModule;
use crate::bdev_ops::BdevOps;

verus! {

/// The description of a device in the making. Each `with_` method sets one
/// field and hands the builder back; `build` makes the device.
pub struct BdevBuilder<D: BdevOps> {
    name: Option<String>,
    product_name: Option<String>,
    blocklen: Option<u32>,
    blockcnt: Option<u64>,
    required_alignment: Option<u8>,
    uuid: Option<Uuid>,
    zone: BdevZoneInfo,
    module: String,
    data: Option<D>,
}

/// What a builder holds, as contracts see it.
pub struct BuilderView<D> {
    /// The name, if set.
    pub name: Option<Seq<char>>,
    /// The product name, if set.
    pub product_name: Option<Seq<char>>,
    /// The size of a block, if set.
    pub block_len: Option<u32>,
    /// The number of blocks, if set.
    pub num_blocks: Option<u64>,
    /// The required alignment, if set.
    pub required_alignment: Option<u8>,
    /// The identifier, if set.
    pub uuid: Option<Uuid>,
    /// The zone attributes; those of a device without zones unless set.
    pub zone: BdevZoneInfo,
    /// The name of the module that makes the device.
    pub module: Seq<char>,
    /// The payload, if set.
    pub data: Option<D>,
}

impl<D> BuilderView<D> {
    /// True where every field that a device cannot do without is set, a
    /// block has a size, the size of the device fits in 64 bits, and the
    /// alignment is a power of two that does.
    pub open spec fn complete(self) -> bool {
        &&& self.name.is_some()
        &&& self.product_name.is_some()
        &&& self.block_len.is_some()
        &&& self.num_blocks.is_some()
        &&& self.required_alignment.is_some()
        &&& self.data.is_some()
        &&& self.block_len.unwrap() > 0
        &&& self.num_blocks.unwrap() * self.block_len.unwrap() <= u64::MAX
        &&& self.required_alignment.unwrap() < 64
    }

    /// The device that the builder describes: what was set is taken over,
    /// the identifier is all zero unless set, and everything else starts
    /// out empty: no alias, no claim, no lock, no write cache, not
    /// registered.
    pub open spec fn device(self) -> DeviceView {
        DeviceView {
            name: self.name.unwrap(),
            product_name: self.product_name.unwrap(),
            module: self.module,
            uuid: match self.uuid {
                Some(u) => u,
                None => Uuid { bits: 0 },
            },
            block_len: self.block_len.unwrap(),
            num_blocks: self.num_blocks.unwrap(),
            required_alignment: self.required_alignment.unwrap(),
            write_cache: false,
            zone: self.zone,
            aliases: Seq::empty(),
            claim: None,
            phase: Phase::Built,
            locks: Seq::empty(),
        }
    }
}

impl<D: BdevOps> BdevBuilder<D> {
    /// What the builder holds.
    pub closed spec fn view(&self) -> BuilderView<D> {
        BuilderView {
            name: match self.name {
                Some(s) => Some(s@),
                None => None,
            },
            product_name: match self.product_name {
                Some(s) => Some(s@),
                None => None,
            },
            block_len: self.blocklen,
            num_blocks: self.blockcnt,
            required_alignment: self.required_alignment,
            uuid: self.uuid,
            zone: self.zone,
            module: self.module@,
            data: self.data,
        }
    }

    /// The builder that a module starts with: nothing is set.
    pub open spec fn spec_new(module: Seq<char>) -> BuilderView<D> {
        BuilderView {
            name: None,
            product_name: None,
            block_len: None,
            num_blocks: None,
            required_alignment: None,
            uuid: None,
            zone: BdevZoneInfo::spec_none(),
            module,
            data: None,
        }
    }

    /// Starts the description of a device of the given module.
    pub fn new(bdev_mod: &BdevModule) -> (b: Self)
        ensures
            b@ == Self::spec_new(bdev_mod@),
    {
        BdevBuilder {
            name: None,
            product_name: None,
            required_alignment: None,
            blocklen: None,
            blockcnt: None,
            uuid: None,
            zone: BdevZoneInfo::none(),
            module: bdev_mod.name(),
            data: None,
        }
    }

    /// Sets the payload. A device cannot do without one.
    pub fn with_data(self, ctx: D) -> (b: Self)
        ensures
            b@ == (BuilderView { data: Some(ctx), ..self@ }),
    {
        let mut b = self;
        b.data = Some(ctx);
        b
    }

    /// Sets the identifier.
    pub fn with_uuid(self, u: Uuid) -> (b: Self)
        ensures
            b@ == (BuilderView { uuid: Some(u), ..self@ }),
    {
        let mut b = self;
        b.uuid = Some(u);
        b
    }

    /// Sets the name. A device cannot do without one.
    pub fn with_name(self, name: &str) -> (b: Self)
        ensures
            b@ == (BuilderView { name: Some(name@), ..self@ }),
    {
        let mut b = self;
        b.name = Some(name.to_owned());
        b
    }

    /// Sets the product name. A device cannot do without one.
    pub fn with_product_name(self, prod_name: &str) -> (b: Self)
        ensures
            b@ == (BuilderView { product_name: Some(prod_name@), ..self@ }),
    {
        let mut b = self;
        b.product_name = Some(prod_name.to_owned());
        b
    }

    /// Sets the size of a block. A device cannot do without one.
    pub fn with_block_length(self, val: u32) -> (b: Self)
        ensures
            b@ == (BuilderView { block_len: Some(val), ..self@ }),
    {
        let mut b = self;
        b.blocklen = Some(val);
        b
    }

    /// Sets the number of blocks. A device cannot do without one.
    pub fn with_block_count(self, val: u64) -> (b: Self)
        ensures
            b@ == (BuilderView { num_blocks: Some(val), ..self@ }),
    {
        let mut b = self;
        b.blockcnt = Some(val);
        b
    }

    /// Sets the required alignment, as a power of two. A device cannot do
    /// without one.
    pub fn with_required_alignment(self, val: u8) -> (b: Self)
        ensures
            b@ == (BuilderView { required_alignment: Some(val), ..self@ }),
    {
        let mut b = self;
        b.required_alignment = Some(val);
        b
    }

    /// Sets the zone attributes, for a device that is zoned.
    pub fn with_zone_info(self, zone: BdevZoneInfo) -> (b: Self)
        ensures
            b@ == (BuilderView { zone, ..self@ }),
    {
        let mut b = self;
        b.zone = zone;
        b
    }

    /// Says whether `build` can be called: every field that a device cannot
    /// do without is set, and the geometry is in order.
    pub fn is_complete(&self) -> (b: bool)
        ensures
            b == self@.complete(),
    {
        if self.name.is_none() || self.product_name.is_none() || self.data.is_none() {
            return false;
        }
        match (self.blocklen, self.blockcnt, self.required_alignment) {
            (Some(len), Some(cnt), Some(align)) => {
                if len == 0 || align >= 64 {
                    return false;
                }
                let fits = cnt <= u64::MAX / (len as u64);
                proof {
                    lemma_fits(cnt, len);
                }
                fits
            },
            _ => false,
        }
    }

    /// Makes the device: a record in the directory, after all earlier ones,
    /// with the fields of the builder and everything else at its default.
    /// The device is live but not registered: no name finds it until it is.
    /// A builder that lacks a field a device cannot do without is left out;
    /// so is a directory that has no room for a further record.
    pub fn build(self, reg: &mut BdevRegistry<D>) -> (bdev: Bdev)
        requires
            old(reg).wf(),
            self@.complete(),
            old(reg)@.devices.len() + 1 < u64::MAX,
        ensures
            final(reg).wf(),
            bdev.spec_index() == old(reg)@.devices.len(),
            bdev.spec_live(final(reg)),
            final(reg)@ == (RegistryView {
                devices: old(reg)@.devices.push(self@.device()),
                ..old(reg)@
            }),
            final(reg).spec_data(bdev.spec_index()) == self@.data,
    {
        let cont = Container {
            name: self.name.unwrap(),
            product_name: self.product_name.unwrap(),
            module: self.module,
            uuid: match self.uuid {
                Some(u) => u,
                None => Uuid { bits: 0 },
            },
            block_len: self.blocklen.unwrap(),
            num_blocks: self.blockcnt.unwrap(),
            required_alignment: self.required_alignment.unwrap(),
            write_cache: false,
            zone: self.zone,
            aliases: Vec::new(),
            claim: None,
            phase: Phase::Built,
            locks: Vec::new(),
            data: self.data,
        };
        let i = reg.devices.len();
        proof {
            assert(cont.view().aliases =~= Seq::<Seq<char>>::empty());
            assert(cont.view() == self@.device());
            lemma_push_built_wf(reg@, cont.view());
        }
        reg.devices.push(cont);
        proof {
            assert(reg@.devices =~= old(reg)@.devices.push(self@.device()));
            assert(reg@.descs =~= old(reg)@.descs);
        }
        Bdev::at(reg, i)
    }
}

/// A count of blocks of a given size fits in 64 bits exactly where the count
/// is at most the largest number divided by the size.
pub proof fn lemma_fits(cnt: u64, len: u32)
    requires
        len > 0,
    ensures
        (cnt <= u64::MAX / (len as u64)) <==> (cnt * len <= u64::MAX),
{
    let q = u64::MAX / (len as u64);
    assert(q * len <= u64::MAX) by (nonlinear_arith)
        requires
            q == u64::MAX / (len as u64),
            len > 0,
    ;
    assert((q + 1) * len > u64::MAX) by (nonlinear_arith)
        requires
            q == u64::MAX / (len as u64),
            len > 0,
    ;
    if cnt <= q {
        assert(cnt * len <= q * len) by (nonlinear_arith)
            requires
                cnt <= q,
                len > 0,
        ;
    } else {
        assert(cnt * len >= (q + 1) * len) by (nonlinear_arith)
            requires
                cnt >= q + 1,
                len > 0,
        ;
    }
}

} // verus!
