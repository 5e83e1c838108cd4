pub mod group;
pub mod hash;
pub mod sig;

pub use sig::hash_to_scalar;
pub use sig::sign_schnorr;
pub use sig::verify_schnorr;
