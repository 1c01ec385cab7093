//! Memory-backed anonymous files with kernel-enforced seals.
//!
//! The core of this crate is the seal set algebra: [`Seal`] names one
//! kernel seal capability and [`Seals`] is a set of them, stored as a bit
//! mask restricted to the kernel's seal bits. The algebra (union,
//! intersection, difference, symmetric difference, complement, containment
//! and canonical iteration) is specified and verified here, together with
//! the encoding of creation options into a raw flag word and the
//! ownership-preserving error of the validate-and-wrap operation.

pub mod error;
pub mod options;
pub mod seal;

pub use error::FromFdError;
pub use options::CreateOptions;
pub use options::HugeTlb;
pub use seal::Seal;
pub use seal::Seals;
pub use seal::SealsIterator;
