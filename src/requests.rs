use vstd::prelude::*;

verus! {

/// A request to mint a passport directly.
#[derive(Clone, Debug)]
pub struct CreateNftRequest {
    pub serial_number: String,
    pub production_date: String,
    pub device_model: String,
    pub warranty_period: String,
    pub country_of_origin: String,
    pub manufacturer_id: String,
    pub collection_name: Option<String>,
    pub wallet_address: String,
}

/// A request to create a collection directly.
#[derive(Clone, Debug)]
pub struct CreateCollectionRequest {
    pub name: String,
    pub symbol: String,
    pub description: String,
    pub wallet_address: String,
}

/// A request for a mint envelope that the caller's wallet will sign.
#[derive(Clone, Debug)]
pub struct CreateNftTransactionRequest {
    pub serial_number: String,
    pub production_date: String,
    pub device_model: String,
    pub warranty_period: String,
    pub country_of_origin: String,
    pub manufacturer_id: String,
    pub collection_name: Option<String>,
    pub wallet_address: String,
    /// Base64 image bytes.
    pub image_data: Option<String>,
    /// Base64 collection image bytes.
    pub collection_image_data: Option<String>,
    /// A metadata document already stored; when given, nothing is uploaded.
    pub metadata_uri: Option<String>,
}

/// A request for a collection envelope that the caller's wallet will sign.
#[derive(Clone, Debug)]
pub struct CreateCollectionTransactionRequest {
    pub name: String,
    pub symbol: String,
    pub description: String,
    pub wallet_address: String,
    /// Base64 image bytes.
    pub image_data: Option<String>,
}

/// The answer to an envelope request.
#[derive(Clone, Debug)]
pub struct TransactionResponse {
    pub success: bool,
    /// The envelope's transport text.
    pub transaction: Option<String>,
    pub message: Option<String>,
    pub error: Option<String>,
}

/// The answer to a direct mint or collection request.
#[derive(Clone, Debug)]
pub struct UploadResponse {
    pub success: bool,
    pub image_uri: Option<String>,
    pub metadata_uri: Option<String>,
    pub nft_address: Option<String>,
    pub collection_address: Option<String>,
    pub error: Option<String>,
}

/// A wallet-signed envelope to broadcast.
#[derive(Clone, Debug)]
pub struct SubmitSignedTransactionRequest {
    /// The envelope's transport text.
    pub signed_transaction: String,
    /// `nft` or `collection`.
    pub transaction_type: String,
}

/// An image to store.
#[derive(Clone, Debug)]
pub struct UploadImageRequest {
    /// Base64 image bytes.
    pub image_data: String,
    pub filename: String,
}

impl TransactionResponse {
    /// A successful answer carrying an envelope.
    pub fn with_transaction(transaction: String, message: String) -> (r: TransactionResponse)
        ensures
            r.success,
            r.transaction == Some(transaction),
            r.message == Some(message),
            r.error is None,
    {
        TransactionResponse { success: true, transaction: Some(transaction), message: Some(message), error: None }
    }

    /// A failed answer carrying the error text.
    pub fn with_error(error: String) -> (r: TransactionResponse)
        ensures
            !r.success,
            r.transaction is None,
            r.message is None,
            r.error == Some(error),
    {
        TransactionResponse { success: false, transaction: None, message: None, error: Some(error) }
    }
}

} // verus!
