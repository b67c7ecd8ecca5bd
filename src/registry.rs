use vstd::prelude::*;

use crate::model::{same_address, Address};

verus! {

/// A manufacturer allowed to issue passports.
#[derive(Clone, Debug)]
pub struct Manufacturer {
    pub name: String,
    pub pubkey: Address,
}

/// The registered manufacturers; no address appears twice.
#[derive(Clone, Debug)]
pub struct ManufacturerList {
    pub manufacturers: Vec<Manufacturer>,
}

/// A product passport record.
#[derive(Clone, Debug)]
pub struct Passport {
    pub serial_number: String,
    pub production_date: String,
    pub device_model: String,
    pub warranty_period: String,
    pub country_of_origin: String,
    pub manufacturer_id: String,
    pub ipfs_cid: String,
    pub owner: Address,
}

/// Why a registry change was refused.
#[derive(Clone, Copy, Debug, PartialEq, Eq, Structural)]
pub enum ErrorCode {
    /// Manufacturer already exists in the list.
    ManufacturerAlreadyExists,
}

impl ErrorCode {
    /// The message shown for the error.
    pub fn message(&self) -> (r: &'static str)
        ensures
            r@ == "Manufacturer already exists in the list"@,
    {
        "Manufacturer already exists in the list"
    }
}

/// The registered addresses, in order.
pub open spec fn manufacturer_keys(list: Seq<Manufacturer>) -> Seq<Address> {
    list.map_values(|m: Manufacturer| m.pubkey)
}

impl ManufacturerList {
    /// No address is registered twice.
    pub open spec fn well_formed(&self) -> bool {
        manufacturer_keys(self.manufacturers@).no_duplicates()
    }
}

/// Empties the list.
pub fn initialize(list: &mut ManufacturerList)
    ensures
        final(list).manufacturers@.len() == 0,
        final(list).well_formed(),
{
    list.manufacturers = Vec::new();
    assert(manufacturer_keys(list.manufacturers@) =~= Seq::<Address>::empty());
}

/// Registers a manufacturer under `name`; refused when its address is
/// already registered, in which case the list is unchanged.
pub fn add_manufacturer(list: &mut ManufacturerList, manufacturer: Address, name: String) -> (r: Result<(), ErrorCode>)
    requires
        old(list).well_formed(),
    ensures
        final(list).well_formed(),
        manufacturer_keys(old(list).manufacturers@).contains(manufacturer) ==> r == Err::<(), ErrorCode>(
            ErrorCode::ManufacturerAlreadyExists,
        ) && final(list).manufacturers@ == old(list).manufacturers@,
        !manufacturer_keys(old(list).manufacturers@).contains(manufacturer) ==> r is Ok
            && final(list).manufacturers@ == old(list).manufacturers@.push(Manufacturer { name, pubkey: manufacturer }),
{
    if is_registered(list, &manufacturer) {
        return Err(ErrorCode::ManufacturerAlreadyExists);
    }
    let ghost keys = manufacturer_keys(list.manufacturers@);
    list.manufacturers.push(Manufacturer { name, pubkey: manufacturer });
    assert(manufacturer_keys(list.manufacturers@) =~= keys.push(manufacturer));
    Ok(())
}

/// Whether `manufacturer` is already registered.
fn is_registered(list: &ManufacturerList, manufacturer: &Address) -> (r: bool)
    ensures
        r == manufacturer_keys(list.manufacturers@).contains(*manufacturer),
{
    let ghost keys = manufacturer_keys(list.manufacturers@);
    let mut i: usize = 0;
    while i < list.manufacturers.len()
        invariant
            0 <= i <= list.manufacturers@.len(),
            keys == manufacturer_keys(list.manufacturers@),
            forall|k: int| 0 <= k < i ==> keys[k] != *manufacturer,
        decreases list.manufacturers.len() - i,
    {
        if same_address(&list.manufacturers[i].pubkey, manufacturer) {
            assert(keys[i as int] == *manufacturer);
            return true;
        }
        i = i + 1;
    }
    false
}

/// Records a passport.
pub fn create_passport(
    serial_number: String,
    production_date: String,
    device_model: String,
    warranty_period: String,
    country_of_origin: String,
    manufacturer_id: String,
    ipfs_cid: String,
    owner: Address,
) -> (r: Passport)
    ensures
        r == (Passport {
            serial_number,
            production_date,
            device_model,
            warranty_period,
            country_of_origin,
            manufacturer_id,
            ipfs_cid,
            owner,
        }),
{
    Passport {
        serial_number,
        production_date,
        device_model,
        warranty_period,
        country_of_origin,
        manufacturer_id,
        ipfs_cid,
        owner,
    }
}

} // verus!
