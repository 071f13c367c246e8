//! The operations of the app, one module per area. Each decides, from what the store
//! holds, whether an operation is allowed and what the store must write.
pub mod allowance_service;
pub mod auth_service;
pub mod export_service;
pub mod family_service;
pub mod notification_service;
pub mod pairing_service;
pub mod request_service;
pub mod setup_service;
pub mod store;
pub mod transaction_service;
pub mod wallet_service;
