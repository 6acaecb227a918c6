use vstd::prelude::*;

verus! {

/// Number of bytes of rent schedule stored at the front of the rent sysvar
/// account: the lamports-per-byte-year rate, the exemption threshold, and
/// the burn percentage, in fixed-width little-endian encoding.
pub const RENT_STATE_LEN: usize = 17;

/// The address of the rent sysvar account.
pub open spec fn rent_id_bytes() -> Seq<u8> {
    seq![
        6u8, 167u8, 213u8, 23u8, 25u8, 44u8, 92u8, 81u8, 33u8, 140u8, 201u8, 76u8, 61u8, 74u8,
        241u8, 127u8, 88u8, 218u8, 238u8, 8u8, 155u8, 161u8, 253u8, 68u8, 227u8, 219u8, 217u8,
        138u8, 0u8, 0u8, 0u8, 0u8,
    ]
}

/// Whether `key` is the rent sysvar's address.
pub fn is_rent_sysvar_key(key: &[u8; 32]) -> (b: bool)
    ensures
        b == (key@ == rent_id_bytes()),
{
    let b = key[0] == 6 && key[1] == 167 && key[2] == 213 && key[3] == 23 && key[4] == 25
        && key[5] == 44 && key[6] == 92 && key[7] == 81 && key[8] == 33 && key[9] == 140
        && key[10] == 201 && key[11] == 76 && key[12] == 61 && key[13] == 74 && key[14] == 241
        && key[15] == 127 && key[16] == 88 && key[17] == 218 && key[18] == 238 && key[19] == 8
        && key[20] == 155 && key[21] == 161 && key[22] == 253 && key[23] == 68 && key[24] == 227
        && key[25] == 219 && key[26] == 217 && key[27] == 138 && key[28] == 0 && key[29] == 0
        && key[30] == 0 && key[31] == 0;
    proof {
        if b {
            assert(key@ =~= rent_id_bytes());
        } else {
            if key@ == rent_id_bytes() {
                assert(key@[0] == 6u8 && key@[1] == 167u8 && key@[2] == 213u8 && key@[3] == 23u8
                    && key@[4] == 25u8 && key@[5] == 44u8 && key@[6] == 92u8 && key@[7] == 81u8
                    && key@[8] == 33u8 && key@[9] == 140u8 && key@[10] == 201u8 && key@[11] == 76u8
                    && key@[12] == 61u8 && key@[13] == 74u8 && key@[14] == 241u8 && key@[15]
                    == 127u8 && key@[16] == 88u8 && key@[17] == 218u8 && key@[18] == 238u8
                    && key@[19] == 8u8 && key@[20] == 155u8 && key@[21] == 161u8 && key@[22]
                    == 253u8 && key@[23] == 68u8 && key@[24] == 227u8 && key@[25] == 219u8
                    && key@[26] == 217u8 && key@[27] == 138u8 && key@[28] == 0u8 && key@[29] == 0u8
                    && key@[30] == 0u8 && key@[31] == 0u8);
            }
        }
    }
    b
}

/// Whether the rent schedule encoded in `rent_data` grants exemption to an
/// account holding `balance` lamports over `data_len` bytes of storage. The
/// threshold is a product over the schedule's floating-point exemption
/// factor, computed by the runtime's own rent code; it is a function of the
/// schedule bytes, the balance and the data length alone.
pub uninterp spec fn rent_exempt_of(rent_data: Seq<u8>, balance: u64, data_len: nat) -> bool;

/// The schedule's raw byte-year cost for an account of `data_len` bytes —
/// the 128-byte storage overhead plus the data length, times the
/// lamports-per-byte-year rate in the schedule's first word — stays within
/// 64 bits. The runtime's rent code computes exactly this product in 64-bit
/// arithmetic before applying its floating-point exemption factor, so the
/// exemption decision is only asked where that computation cannot overflow.
pub open spec fn rent_cost_fits(rent_data: Seq<u8>, data_len: nat) -> bool {
    &&& 128 + data_len <= u64::MAX
    &&& (128 + data_len) * crate::mint::u64_at(rent_data, 0) <= u64::MAX
}

/// Decides `rent_cost_fits` for a schedule of at least the 17 stored bytes.
pub fn rent_cost_in_range(rent_data: &Vec<u8>, data_len: usize) -> (b: bool)
    requires
        rent_data@.len() >= 17,
        rent_data@.len() <= usize::MAX,
    ensures
        b == rent_cost_fits(rent_data@, data_len as nat),
{
    let rate = crate::mint::read_u64_le(rent_data, 0);
    if data_len as u64 > u64::MAX - 128 {
        return false;
    }
    let base: u64 = 128 + (data_len as u64);
    proof {
        vstd::arithmetic::mul::lemma_mul_upper_bound(
            base as int,
            u64::MAX as int,
            rate as int,
            u64::MAX as int,
        );
    }
    (base as u128) * (rate as u128) <= u64::MAX as u128
}

/// Relies on `bincode::deserialize` for `solana_program::rent::Rent`
/// (fixed-width little-endian fields with trailing bytes allowed, so decoding
/// reads exactly the first 17 bytes and fails precisely on shorter input) and
/// on `solana_program::rent::Rent::is_exempt` (a comparison of the balance
/// against the schedule's threshold for the given data length). The
/// threshold computation multiplies the raw byte-year cost in 64-bit
/// arithmetic, which panics on overflow in checked builds, so inputs whose
/// cost does not fit are excluded here and decided by the caller instead.
#[verifier::external_body]
pub(crate) fn rent_exempt_decision(rent_data: &Vec<u8>, balance: u64, data_len: usize) -> (r:
    Option<bool>)
    requires
        rent_data@.len() >= 17 ==> rent_cost_fits(rent_data@, data_len as nat),
    ensures
        (r is Some) == (rent_data@.len() >= 17),
        r matches Some(b) ==> b == rent_exempt_of(rent_data@, balance, data_len as nat),
{
    match bincode::deserialize::<solana_program::rent::Rent>(rent_data.as_slice()) {
        Ok(rent) => Some(rent.is_exempt(balance, data_len)),
        Err(_) => None,
    }
}

} // verus!
