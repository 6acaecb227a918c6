use vstd::prelude::*;
use vstd::pervasive::VecAdditionalExecFns;
use crate::error::MintError;

verus! {

/// Size in bytes of a packed mint record.
pub const MINT_LEN: usize = 82;

/// A mint record: the on-chain description of one token type. The packed
/// layout is fixed at 82 bytes: a 4-byte tag plus 32-byte key for the mint
/// authority, the supply as a little-endian word, the decimals byte, the
/// initialization flag byte, and a 4-byte tag plus 32-byte key for the
/// freeze authority.
#[derive(Clone, Copy, PartialEq, Eq, Debug)]
pub struct Mint {
    /// The address permitted to create new units, if any.
    pub mint_authority: Option<[u8; 32]>,
    /// Total supply of tokens.
    pub supply: u64,
    /// Number of base-10 digits to the right of the decimal place.
    pub decimals: u8,
    /// Whether this record has been initialized.
    pub is_initialized: bool,
    /// The address permitted to freeze token accounts, if any.
    pub freeze_authority: Option<[u8; 32]>,
}

/// The little-endian word stored at `s[off .. off + 8]`.
pub open spec fn u64_at(s: Seq<u8>, off: int) -> int
    recommends
        0 <= off,
        off + 8 <= s.len(),
{
    (s[off] as int) + (s[off + 1] as int) * 0x100 + (s[off + 2] as int) * 0x1_0000 + (s[off + 3]
        as int) * 0x100_0000 + (s[off + 4] as int) * 0x1_0000_0000 + (s[off + 5] as int)
        * 0x100_0000_0000 + (s[off + 6] as int) * 0x1_0000_0000_0000 + (s[off + 7] as int)
        * 0x100_0000_0000_0000
}

/// Byte `j` of the little-endian encoding of `v`.
pub open spec fn u64_byte(v: u64, j: int) -> u8
    recommends
        0 <= j < 8,
{
    if j == 0 {
        (v % 0x100) as u8
    } else if j == 1 {
        ((v / 0x100) % 0x100) as u8
    } else if j == 2 {
        ((v / 0x1_0000) % 0x100) as u8
    } else if j == 3 {
        ((v / 0x100_0000) % 0x100) as u8
    } else if j == 4 {
        ((v / 0x1_0000_0000) % 0x100) as u8
    } else if j == 5 {
        ((v / 0x100_0000_0000) % 0x100) as u8
    } else if j == 6 {
        ((v / 0x1_0000_0000_0000) % 0x100) as u8
    } else {
        ((v / 0x100_0000_0000_0000) % 0x100) as u8
    }
}

/// Reassembling the eight little-endian bytes of `v` gives back `v`.
pub proof fn lemma_u64_bytes_compose(v: u64)
    ensures
        (u64_byte(v, 0) as int) + (u64_byte(v, 1) as int) * 0x100 + (u64_byte(v, 2) as int)
            * 0x1_0000 + (u64_byte(v, 3) as int) * 0x100_0000 + (u64_byte(v, 4) as int)
            * 0x1_0000_0000 + (u64_byte(v, 5) as int) * 0x100_0000_0000 + (u64_byte(v, 6) as int)
            * 0x1_0000_0000_0000 + (u64_byte(v, 7) as int) * 0x100_0000_0000_0000 == v as int,
{
    assert(v % 0x100 + ((v / 0x100) % 0x100) * 0x100 + ((v / 0x1_0000) % 0x100) * 0x1_0000 + ((v
        / 0x100_0000) % 0x100) * 0x100_0000 + ((v / 0x1_0000_0000) % 0x100) * 0x1_0000_0000 + ((v
        / 0x100_0000_0000) % 0x100) * 0x100_0000_0000 + ((v / 0x1_0000_0000_0000) % 0x100)
        * 0x1_0000_0000_0000 + ((v / 0x100_0000_0000_0000) % 0x100) * 0x100_0000_0000_0000 == v)
        by (bit_vector);
}

/// A valid 4-byte key tag at `s[off .. off + 4]`: a little-endian 0 (absent)
/// or 1 (present).
pub open spec fn valid_key_tag(s: Seq<u8>, off: int) -> bool
    recommends
        0 <= off,
        off + 4 <= s.len(),
{
    (s[off] == 0u8 || s[off] == 1u8) && s[off + 1] == 0u8 && s[off + 2] == 0u8 && s[off + 3] == 0u8
}

/// The optional key `key_opt` is what the 36 bytes at `s[off .. off + 36]`
/// decode to: the tag picks the variant, and a present key's bytes follow it.
pub open spec fn key_matches(key_opt: Option<[u8; 32]>, s: Seq<u8>, off: int) -> bool
    recommends
        0 <= off,
        off + 36 <= s.len(),
{
    match key_opt {
        Option::None => s[off] == 0u8,
        Option::Some(k) => s[off] == 1u8 && (forall|j: int|
            0 <= j < 32 ==> (#[trigger] k@[j]) == s[off + 4 + j]),
    }
}

/// Whether the initialization flag of a packed mint record is set.
pub open spec fn mint_initialized(s: Seq<u8>) -> bool
    recommends
        s.len() == 82,
{
    s[45] == 1u8
}

/// The 82 bytes fit the packed mint layout: both key tags are 0 or 1 and the
/// initialization flag byte is 0 or 1.
pub open spec fn valid_mint_bytes(s: Seq<u8>) -> bool {
    &&& s.len() == 82
    &&& valid_key_tag(s, 0)
    &&& (s[45] == 0u8 || s[45] == 1u8)
    &&& valid_key_tag(s, 46)
}

/// The record `m` is what the packed bytes `s` decode to.
pub open spec fn mint_matches_bytes(m: Mint, s: Seq<u8>) -> bool
    recommends
        s.len() == 82,
{
    &&& key_matches(m.mint_authority, s, 0)
    &&& m.supply as int == u64_at(s, 36)
    &&& m.decimals == s[44]
    &&& m.is_initialized == (s[45] == 1u8)
    &&& key_matches(m.freeze_authority, s, 46)
}

/// The key tag byte for an absent (0) or present (1) optional key.
pub open spec fn tag_byte(is_some: bool) -> u8 {
    if is_some {
        1u8
    } else {
        0u8
    }
}

/// Byte `i` of the storage after packing `m` over the previous 82 bytes
/// `s0`. An absent key writes only its tag: the 32 bytes where its key would
/// stand keep their previous contents.
pub open spec fn pack_byte(m: Mint, s0: Seq<u8>, i: int) -> u8
    recommends
        s0.len() == 82,
        0 <= i < 82,
{
    if i == 0 {
        tag_byte(m.mint_authority is Some)
    } else if i < 4 {
        0u8
    } else if i < 36 {
        match m.mint_authority {
            Option::Some(k) => k@[i - 4],
            Option::None => s0[i],
        }
    } else if i < 44 {
        u64_byte(m.supply, i - 36)
    } else if i == 44 {
        m.decimals
    } else if i == 45 {
        tag_byte(m.is_initialized)
    } else if i == 46 {
        tag_byte(m.freeze_authority is Some)
    } else if i < 50 {
        0u8
    } else {
        match m.freeze_authority {
            Option::Some(k) => k@[i - 50],
            Option::None => s0[i],
        }
    }
}

/// The storage after packing `m` over the previous 82 bytes `s0`.
pub open spec fn spec_pack_mint(m: Mint, s0: Seq<u8>) -> Seq<u8>
    recommends
        s0.len() == 82,
{
    Seq::new(82, |i: int| pack_byte(m, s0, i))
}

/// Reads the little-endian word at `data[off .. off + 8]`.
pub(crate) fn read_u64_le(data: &Vec<u8>, off: usize) -> (v: u64)
    requires
        off + 8 <= data@.len(),
        data@.len() <= usize::MAX,
    ensures
        v as int == u64_at(data@, off as int),
{
    (data[off] as u64) + (data[off + 1] as u64) * 0x100 + (data[off + 2] as u64) * 0x1_0000 + (
    data[off + 3] as u64) * 0x100_0000 + (data[off + 4] as u64) * 0x1_0000_0000 + (data[off + 5]
        as u64) * 0x100_0000_0000 + (data[off + 6] as u64) * 0x1_0000_0000_0000 + (data[off + 7]
        as u64) * 0x100_0000_0000_0000
}

/// Decodes the optional key stored at `data[off .. off + 36]`.
fn read_coption_key(data: &Vec<u8>, off: usize) -> (r: Result<Option<[u8; 32]>, MintError>)
    requires
        off + 36 <= data@.len(),
        data@.len() <= usize::MAX,
    ensures
        (r is Ok) == valid_key_tag(data@, off as int),
        r matches Ok(key_opt) ==> key_matches(key_opt, data@, off as int),
        r is Err ==> r == Err::<Option<[u8; 32]>, MintError>(MintError::InvalidAccountData),
{
    let tail_zero = data[off + 1] == 0 && data[off + 2] == 0 && data[off + 3] == 0;
    if tail_zero && data[off] == 0 {
        Ok(None)
    } else if tail_zero && data[off] == 1 {
        let mut key = [0u8; 32];
        let mut j: usize = 0;
        while j < 32
            invariant
                j <= 32,
                off + 36 <= data@.len(),
                data@.len() <= usize::MAX,
                forall|i: int| 0 <= i < j ==> (#[trigger] key@[i]) == data@[off + 4 + i],
            decreases 32 - j,
        {
            key[j] = data[off + 4 + j];
            j = j + 1;
        }
        Ok(Some(key))
    } else {
        Err(MintError::InvalidAccountData)
    }
}

/// Decodes a packed mint record. The layout alone is checked: the
/// initialization flag may be either set or clear, so this also reads
/// storage that still holds its zero-initialized allocation.
pub fn unpack(data: &Vec<u8>) -> (r: Result<Mint, MintError>)
    ensures
        (r is Ok) == valid_mint_bytes(data@),
        r matches Ok(m) ==> mint_matches_bytes(m, data@),
        r is Err ==> r == Err::<Mint, MintError>(MintError::InvalidAccountData),
{
    if data.len() != MINT_LEN {
        return Err(MintError::InvalidAccountData);
    }
    let mint_authority = match read_coption_key(data, 0) {
        Ok(key_opt) => key_opt,
        Err(e) => { return Err(e) },
    };
    let supply = read_u64_le(data, 36);
    let decimals = data[44];
    let is_initialized = if data[45] == 0 {
        false
    } else if data[45] == 1 {
        true
    } else {
        return Err(MintError::InvalidAccountData);
    };
    let freeze_authority = match read_coption_key(data, 46) {
        Ok(key_opt) => key_opt,
        Err(e) => { return Err(e) },
    };
    Ok(Mint { mint_authority, supply, decimals, is_initialized, freeze_authority })
}

/// Copies `src` into a fresh byte vector.
pub fn copy_bytes(src: &Vec<u8>) -> (out: Vec<u8>)
    ensures
        out@ == src@,
{
    let mut out: Vec<u8> = Vec::new();
    let mut i: usize = 0;
    while i < src.len()
        invariant
            i <= src@.len(),
            out@.len() == i,
            forall|j: int| 0 <= j < i ==> out@[j] == src@[j],
        decreases src@.len() - i,
    {
        out.push(src[i]);
        i = i + 1;
    }
    proof {
        assert(out@ =~= src@);
    }
    out
}

/// Writes the 32 bytes of `k` at `buf[off .. off + 32]`.
fn write_key_bytes(buf: Vec<u8>, off: usize, k: &[u8; 32]) -> (out: Vec<u8>)
    requires
        off + 32 <= buf@.len(),
        buf@.len() <= usize::MAX,
    ensures
        out@.len() == buf@.len(),
        forall|i: int| 0 <= i < buf@.len() && !(off <= i < off + 32) ==> out@[i] == buf@[i],
        forall|j: int| 0 <= j < 32 ==> out@[off + j] == k@[j],
{
    let ghost buf0 = buf@;
    let mut out = buf;
    let mut j: usize = 0;
    while j < 32
        invariant
            j <= 32,
            off + 32 <= buf0.len(),
            buf0.len() <= usize::MAX,
            out@.len() == buf0.len(),
            forall|i: int| 0 <= i < buf0.len() && !(off <= i < off + j) ==> out@[i] == buf0[i],
            forall|i: int| 0 <= i < j ==> out@[off + i] == k@[i],
        decreases 32 - j,
    {
        out.set(off + j, k[j]);
        j = j + 1;
    }
    out
}

/// Writes the little-endian encoding of `v` at `buf[off .. off + 8]`.
fn write_u64_le(buf: Vec<u8>, off: usize, v: u64) -> (out: Vec<u8>)
    requires
        off + 8 <= buf@.len(),
        buf@.len() <= usize::MAX,
    ensures
        out@.len() == buf@.len(),
        forall|i: int| 0 <= i < buf@.len() && !(off <= i < off + 8) ==> out@[i] == buf@[i],
        forall|j: int| 0 <= j < 8 ==> out@[off + j] == u64_byte(v, j),
{
    let mut out = buf;
    out.set(off, (v % 0x100) as u8);
    out.set(off + 1, ((v / 0x100) % 0x100) as u8);
    out.set(off + 2, ((v / 0x1_0000) % 0x100) as u8);
    out.set(off + 3, ((v / 0x100_0000) % 0x100) as u8);
    out.set(off + 4, ((v / 0x1_0000_0000) % 0x100) as u8);
    out.set(off + 5, ((v / 0x100_0000_0000) % 0x100) as u8);
    out.set(off + 6, ((v / 0x1_0000_0000_0000) % 0x100) as u8);
    out.set(off + 7, ((v / 0x100_0000_0000_0000) % 0x100) as u8);
    out
}

/// Writes the optional key `key_opt` at `buf[off .. off + 36]`: the tag, and
/// the key bytes only when one is present. An absent key leaves the 32 bytes
/// after the tag as they were.
fn write_coption_key(buf: Vec<u8>, off: usize, key_opt: &Option<[u8; 32]>) -> (out: Vec<u8>)
    requires
        off + 36 <= buf@.len(),
        buf@.len() <= usize::MAX,
    ensures
        out@.len() == buf@.len(),
        forall|i: int| 0 <= i < buf@.len() && !(off <= i < off + 36) ==> out@[i] == buf@[i],
        out@[off as int] == tag_byte(key_opt is Some),
        out@[off + 1] == 0u8,
        out@[off + 2] == 0u8,
        out@[off + 3] == 0u8,
        key_opt matches Some(k) ==> (forall|j: int|
            0 <= j < 32 ==> out@[off + 4 + j] == (#[trigger] k@[j])),
        key_opt is None ==> (forall|j: int|
            0 <= j < 32 ==> (#[trigger] out@[off + 4 + j]) == buf@[off + 4 + j]),
{
    let mut out = buf;
    match key_opt {
        Some(k) => {
            out.set(off, 1);
            out.set(off + 1, 0);
            out.set(off + 2, 0);
            out.set(off + 3, 0);
            out = write_key_bytes(out, off + 4, k);
        },
        None => {
            out.set(off, 0);
            out.set(off + 1, 0);
            out.set(off + 2, 0);
            out.set(off + 3, 0);
        },
    }
    out
}

/// Encodes `m` over the 82-byte buffer `buf`, overwriting its prior
/// contents except where an absent key leaves its 32 key bytes in place. A
/// buffer of any other size is rejected unchanged.
pub fn pack(m: &Mint, buf: Vec<u8>) -> (r: Result<Vec<u8>, MintError>)
    ensures
        (r is Ok) == (buf@.len() == 82),
        r matches Ok(out) ==> out@ == spec_pack_mint(*m, buf@),
        r is Err ==> r == Err::<Vec<u8>, MintError>(MintError::InvalidAccountData),
{
    if buf.len() != MINT_LEN {
        return Err(MintError::InvalidAccountData);
    }
    let ghost buf0 = buf@;
    let out1 = write_coption_key(buf, 0, &m.mint_authority);
    let ghost s1 = out1@;
    let mut out2 = write_u64_le(out1, 36, m.supply);
    let ghost s2 = out2@;
    out2.set(44, m.decimals);
    let ghost s3 = out2@;
    out2.set(45, if m.is_initialized { 1 } else { 0 });
    let ghost s4 = out2@;
    let out = write_coption_key(out2, 46, &m.freeze_authority);
    proof {
        assert forall|i: int| 0 <= i < 82 implies out@[i] == pack_byte(*m, buf0, i) by {
            if i < 36 {
                assert(out@[i] == s4[i]);
                assert(s4[i] == s3[i]);
                assert(s3[i] == s2[i]);
                assert(s2[i] == s1[i]);
                if 4 <= i {
                    if m.mint_authority is Some {
                        let k = m.mint_authority->0;
                        assert(s1[i] == k@[i - 4]);
                    } else {
                        assert(s1[0 + 4 + (i - 4)] == buf0[0 + 4 + (i - 4)]);
                    }
                }
            } else if i < 44 {
                assert(out@[i] == s4[i]);
                assert(s4[i] == s3[i]);
                assert(s3[i] == s2[i]);
                assert(s2[i] == u64_byte(m.supply, i - 36));
            } else if i == 44 {
                assert(out@[i] == s4[i]);
                assert(s4[i] == s3[i]);
            } else if i == 45 {
                assert(out@[i] == s4[i]);
            } else {
                if 50 <= i {
                    if m.freeze_authority is Some {
                        let k = m.freeze_authority->0;
                        assert(out@[i] == k@[i - 50]);
                    } else {
                        assert(out@[46 + 4 + (i - 50)] == s4[46 + 4 + (i - 50)]);
                        assert(s4[i] == s3[i]);
                        assert(s3[i] == s2[i]);
                        assert(s2[i] == s1[i]);
                        assert(s1[i] == buf0[i]);
                    }
                }
            }
        }
        assert(out@ =~= spec_pack_mint(*m, buf0));
    }
    Ok(out)
}

/// Round trip: packing a record, decoding the stored bytes, and packing the
/// decoded record again gives byte-identical storage. The decoded record
/// carries the same supply, decimals and initialization flag as the one
/// packed first.
pub proof fn lemma_pack_round_trip(m: Mint, m2: Mint, s0: Seq<u8>)
    requires
        s0.len() == 82,
        mint_matches_bytes(m2, spec_pack_mint(m, s0)),
    ensures
        valid_mint_bytes(spec_pack_mint(m, s0)),
        spec_pack_mint(m2, spec_pack_mint(m, s0)) == spec_pack_mint(m, s0),
        m2.supply == m.supply,
        m2.decimals == m.decimals,
        m2.is_initialized == m.is_initialized,
{
    let s1 = spec_pack_mint(m, s0);
    assert(s1.len() == 82);
    lemma_u64_bytes_compose(m.supply);
    assert(m2.supply == m.supply);
    assert forall|i: int| 0 <= i < 82 implies spec_pack_mint(m2, s1)[i] == s1[i] by {
        assert(spec_pack_mint(m2, s1)[i] == pack_byte(m2, s1, i));
        assert(s1[i] == pack_byte(m, s0, i));
    }
    assert(spec_pack_mint(m2, s1) =~= s1);
}

} // verus!
