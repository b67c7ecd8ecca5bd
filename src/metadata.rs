use vstd::prelude::*;

verus! {

/// The image every document names until a real image is uploaded.
pub const PLACEHOLDER_IMAGE_URI: &'static str = "https://arweave.net/placeholder-image";

/// The image every collection document names until a real image is uploaded.
pub const PLACEHOLDER_COLLECTION_IMAGE_URI: &'static str = "https://arweave.net/placeholder-collection-image";

/// One named trait of a passport.
#[derive(Clone, Debug)]
pub struct NftAttribute {
    pub trait_type: String,
    pub value: String,
}

/// One file of a metadata document.
#[derive(Clone, Debug)]
pub struct NftFile {
    pub file_type: String,
    pub uri: String,
}

#[derive(Clone, Debug)]
pub struct NftProperties {
    pub files: Vec<NftFile>,
    pub category: String,
}

/// The metadata document of a product passport.
#[derive(Clone, Debug)]
pub struct NftMetadata {
    pub name: String,
    pub symbol: String,
    pub description: String,
    pub image: String,
    pub attributes: Vec<NftAttribute>,
    pub properties: NftProperties,
}

/// A minted passport as listed for its owner.
#[derive(Clone, Debug)]
pub struct NftInfo {
    pub address: String,
    pub name: String,
    pub symbol: String,
    pub uri: String,
    pub owner: String,
    pub collection: Option<String>,
}

#[derive(Clone, Debug)]
pub struct CollectionAttribute {
    pub trait_type: String,
    pub value: String,
}

#[derive(Clone, Debug)]
pub struct CollectionFile {
    pub file_type: String,
    pub uri: String,
}

#[derive(Clone, Debug)]
pub struct CollectionProperties {
    pub files: Vec<CollectionFile>,
    pub category: String,
}

/// The metadata document of a collection.
#[derive(Clone, Debug)]
pub struct CollectionMetadata {
    pub name: String,
    pub symbol: String,
    pub description: String,
    pub image: String,
    pub attributes: Vec<CollectionAttribute>,
    pub properties: CollectionProperties,
}

/// A collection as listed for its owner.
#[derive(Clone, Debug)]
pub struct CollectionInfo {
    pub address: String,
    pub name: String,
    pub symbol: String,
    pub uri: String,
    pub owner: String,
    pub item_count: u64,
}

/// The (trait, value) pairs of attributes.
pub open spec fn nft_pairs(attrs: Seq<NftAttribute>) -> Seq<(Seq<char>, Seq<char>)> {
    attrs.map_values(|a: NftAttribute| (a.trait_type@, a.value@))
}

/// The (trait, value) pairs of collection attributes.
pub open spec fn collection_pairs(attrs: Seq<CollectionAttribute>) -> Seq<(Seq<char>, Seq<char>)> {
    attrs.map_values(|a: CollectionAttribute| (a.trait_type@, a.value@))
}

/// The product attributes a passport records, in order, with the collection
/// name last when there is one.
pub open spec fn passport_pairs(
    serial_number: Seq<char>,
    production_date: Seq<char>,
    device_model: Seq<char>,
    warranty_period: Seq<char>,
    country_of_origin: Seq<char>,
    manufacturer_id: Seq<char>,
    collection_name: Option<Seq<char>>,
) -> Seq<(Seq<char>, Seq<char>)> {
    seq![
        ("Serial Number"@, serial_number),
        ("Production Date"@, production_date),
        ("Device Model"@, device_model),
        ("Warranty Period"@, warranty_period),
        ("Country of Origin"@, country_of_origin),
        ("Manufacturer ID"@, manufacturer_id),
    ] + match collection_name {
        Some(c) => seq![("Collection"@, c)],
        None => seq![],
    }
}

/// The view of an optional text.
pub open spec fn opt_view(s: Option<&str>) -> Option<Seq<char>> {
    match s {
        Some(t) => Some(t@),
        None => None,
    }
}

fn nft_attribute(trait_type: &str, value: &str) -> (r: NftAttribute)
    ensures
        r.trait_type@ == trait_type@,
        r.value@ == value@,
{
    NftAttribute { trait_type: trait_type.to_string(), value: value.to_string() }
}

/// The metadata document of a passport: named after the device model, with
/// symbol `SPP`, a description naming the model, the placeholder image, and
/// the product attributes.
pub fn create_nft_metadata(
    serial_number: &str,
    production_date: &str,
    device_model: &str,
    warranty_period: &str,
    country_of_origin: &str,
    manufacturer_id: &str,
    collection_name: Option<&str>,
) -> (r: NftMetadata)
    ensures
        r.name@ == device_model@,
        r.symbol@ == "SPP"@,
        r.description@ == "Smart Product Passport for "@ + device_model@,
        r.image@ == PLACEHOLDER_IMAGE_URI@,
        nft_pairs(r.attributes@) == passport_pairs(
            serial_number@, production_date@, device_model@, warranty_period@, country_of_origin@,
            manufacturer_id@, opt_view(collection_name)),
        r.properties.files@.len() == 1,
        r.properties.files@[0].file_type@ == "image/png"@,
        r.properties.files@[0].uri@ == PLACEHOLDER_IMAGE_URI@,
        r.properties.category@ == "image"@,
{
    let mut attributes = vec![
        nft_attribute("Serial Number", serial_number),
        nft_attribute("Production Date", production_date),
        nft_attribute("Device Model", device_model),
        nft_attribute("Warranty Period", warranty_period),
        nft_attribute("Country of Origin", country_of_origin),
        nft_attribute("Manufacturer ID", manufacturer_id),
    ];
    match collection_name {
        Some(c) => attributes.push(nft_attribute("Collection", c)),
        None => {},
    }
    assert(nft_pairs(attributes@) =~= passport_pairs(
        serial_number@, production_date@, device_model@, warranty_period@, country_of_origin@,
        manufacturer_id@, opt_view(collection_name)));
    let description = String::from_str("Smart Product Passport for ").concat(device_model);
    NftMetadata {
        name: device_model.to_string(),
        symbol: "SPP".to_string(),
        description,
        image: PLACEHOLDER_IMAGE_URI.to_string(),
        attributes,
        properties: NftProperties {
            files: vec![NftFile { file_type: "image/png".to_string(), uri: PLACEHOLDER_IMAGE_URI.to_string() }],
            category: "image".to_string(),
        },
    }
}

/// The metadata document of a collection: its name, symbol and description,
/// the placeholder collection image, and the two fixed collection attributes.
pub fn create_collection_metadata(name: &str, symbol: &str, description: &str) -> (r: CollectionMetadata)
    ensures
        r.name@ == name@,
        r.symbol@ == symbol@,
        r.description@ == description@,
        r.image@ == PLACEHOLDER_COLLECTION_IMAGE_URI@,
        collection_pairs(r.attributes@) == seq![("Type"@, "Collection"@), ("Category"@, "Smart Product Passport"@)],
        r.properties.files@.len() == 1,
        r.properties.files@[0].file_type@ == "image/png"@,
        r.properties.files@[0].uri@ == PLACEHOLDER_COLLECTION_IMAGE_URI@,
        r.properties.category@ == "image"@,
{
    let attributes = vec![
        CollectionAttribute { trait_type: "Type".to_string(), value: "Collection".to_string() },
        CollectionAttribute { trait_type: "Category".to_string(), value: "Smart Product Passport".to_string() },
    ];
    assert(collection_pairs(attributes@) =~= seq![("Type"@, "Collection"@), ("Category"@, "Smart Product Passport"@)]);
    CollectionMetadata {
        name: name.to_string(),
        symbol: symbol.to_string(),
        description: description.to_string(),
        image: PLACEHOLDER_COLLECTION_IMAGE_URI.to_string(),
        attributes,
        properties: CollectionProperties {
            files: vec![CollectionFile { file_type: "image/png".to_string(), uri: PLACEHOLDER_COLLECTION_IMAGE_URI.to_string() }],
            category: "image".to_string(),
        },
    }
}

} // verus!
