//! Configuration of the stream ledger: the floor on per-interval amounts,
//! the operational fee rate, and the size of a packed stream record.

use vstd::prelude::*;

verus! {

/// Smallest indivisible unit of value the ledger accounts in.
pub type Lamports = u64;

/// Floor on `amount_per_interval` for a stream that is brought into or kept
/// in a running state.
pub const MINIMUM_AMOUNT_LAMPORTS: u64 = 1;

/// Numerator of the operational fee rate. Together with the denominator it
/// fixes the rate at 15/1000 = 1.5%. The fee is computed in integer
/// arithmetic with floor rounding, so equal inputs always yield equal fees.
pub const OPERATIONAL_FEE_NUMERATOR: u64 = 15;

/// Denominator of the operational fee rate.
pub const OPERATIONAL_FEE_DENOMINATOR: u64 = 1000;

/// Exact length in bytes of a packed `PaymentStream` record: two 8-byte
/// identity fields, six 8-byte little-endian numeric fields, and three
/// status bytes.
pub const STREAM_RECORD_LEN: usize = 67;

} // verus!
