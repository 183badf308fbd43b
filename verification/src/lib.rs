//! Block construction for a generic chain client: the capability traits a
//! host implements, the shared storage handle, the error taxonomy and the
//! builder that drives one construction session.

pub mod traits;
pub mod chain;
