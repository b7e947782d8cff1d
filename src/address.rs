use vstd::prelude::*;
use crate::identity::Identity;

verus! {

/// The logical key of a record; its derived address is a function of it.
#[derive(Clone, Copy, Debug)]
pub enum RecordKey {
    /// The platform state singleton.
    State,
    /// The user record of an identity.
    User(Identity),
    /// The video with this sequence index.
    Video(u64),
    /// The comment of a video (first index) with a sequence index (second).
    Comment(u64, u64),
}

/// The address that `Pubkey::try_find_program_address` derives from seeds and
/// a program key, if it finds one.
pub uninterp spec fn program_address_of(seeds: Seq<Seq<u8>>, program: Seq<u8>) -> Option<Seq<u8>>;

/// The eight big-endian bytes of `n`.
pub open spec fn be_bytes(n: u64) -> Seq<u8> {
    seq![
        (n >> 56u64) as u8, (n >> 48u64) as u8, (n >> 40u64) as u8, (n >> 32u64) as u8,
        (n >> 24u64) as u8, (n >> 16u64) as u8, (n >> 8u64) as u8, n as u8,
    ]
}

/// The ASCII bytes of "state".
pub open spec fn state_tag() -> Seq<u8> {
    seq![0x73u8, 0x74, 0x61, 0x74, 0x65]
}

/// The ASCII bytes of "user".
pub open spec fn user_tag() -> Seq<u8> {
    seq![0x75u8, 0x73, 0x65, 0x72]
}

/// The ASCII bytes of "video".
pub open spec fn video_tag() -> Seq<u8> {
    seq![0x76u8, 0x69, 0x64, 0x65, 0x6f]
}

/// The ASCII bytes of "comment".
pub open spec fn comment_tag() -> Seq<u8> {
    seq![0x63u8, 0x6f, 0x6d, 0x6d, 0x65, 0x6e, 0x74]
}

/// The seeds of a record's address: its domain tag, then its parents' keys.
pub open spec fn record_seeds(key: RecordKey) -> Seq<Seq<u8>> {
    match key {
        RecordKey::State => seq![state_tag()],
        RecordKey::User(id) => seq![user_tag(), id@],
        RecordKey::Video(i) => seq![video_tag(), be_bytes(i)],
        RecordKey::Comment(v, c) => seq![comment_tag(), be_bytes(v), be_bytes(c)],
    }
}

pub open spec fn seeds_view(seeds: Seq<Vec<u8>>) -> Seq<Seq<u8>> {
    seeds.map_values(|s: Vec<u8>| s@)
}

/// Big-endian encoding of `n`.
pub fn to_be_bytes(n: u64) -> (r: Vec<u8>)
    ensures
        r@ == be_bytes(n),
{
    let r = vec![
        (n >> 56u64) as u8, (n >> 48u64) as u8, (n >> 40u64) as u8, (n >> 32u64) as u8,
        (n >> 24u64) as u8, (n >> 16u64) as u8, (n >> 8u64) as u8, n as u8,
    ];
    assert(r@ =~= be_bytes(n));
    r
}

/// The seeds from which the address of `key` is derived.
pub fn seeds_of(key: &RecordKey) -> (r: Vec<Vec<u8>>)
    ensures
        seeds_view(r@) == record_seeds(*key),
{
    let mut r: Vec<Vec<u8>> = Vec::new();
    match key {
        RecordKey::State => {
            let tag = vec![0x73u8, 0x74, 0x61, 0x74, 0x65];
            assert(tag@ =~= state_tag());
            r.push(tag);
        },
        RecordKey::User(id) => {
            let tag = vec![0x75u8, 0x73, 0x65, 0x72];
            assert(tag@ =~= user_tag());
            r.push(tag);
            let mut b: Vec<u8> = Vec::new();
            let mut i: usize = 0;
            while i < 32
                invariant
                    i <= 32,
                    id@.len() == 32,
                    b@ =~= id@.subrange(0, i as int),
                decreases 32 - i,
            {
                b.push(id.bytes[i]);
                i = i + 1;
            }
            assert(b@ =~= id@);
            r.push(b);
        },
        RecordKey::Video(i) => {
            let tag = vec![0x76u8, 0x69, 0x64, 0x65, 0x6f];
            assert(tag@ =~= video_tag());
            r.push(tag);
            r.push(to_be_bytes(*i));
        },
        RecordKey::Comment(v, c) => {
            let tag = vec![0x63u8, 0x6f, 0x6d, 0x6d, 0x65, 0x6e, 0x74];
            assert(tag@ =~= comment_tag());
            r.push(tag);
            r.push(to_be_bytes(*v));
            r.push(to_be_bytes(*c));
        },
    }
    assert(seeds_view(r@) =~= record_seeds(*key));
    r
}

/// Relies on `Pubkey::try_find_program_address` (re-exported by anchor_lang):
/// the address it finds depends on the seeds and the program key alone.
#[verifier::external_body]
fn find_program_address(seeds: &Vec<Vec<u8>>, program_id: &Identity) -> (r: Option<Identity>)
    ensures
        match r {
            Some(a) => program_address_of(seeds_view(seeds@), program_id@) == Some(a@),
            None => program_address_of(seeds_view(seeds@), program_id@) is None,
        },
{
    let slices: Vec<&[u8]> = seeds.iter().map(|s| s.as_slice()).collect();
    let program = anchor_lang::prelude::Pubkey::new_from_array(program_id.bytes);
    match anchor_lang::prelude::Pubkey::try_find_program_address(&slices, &program) {
        Some((key, _bump)) => Some(Identity { bytes: key.to_bytes() }),
        None => None,
    }
}

/// The derived address of the record `key` under the program `program_id`.
/// The same key and program always give the same address.
pub fn address_of(key: &RecordKey, program_id: &Identity) -> (r: Option<Identity>)
    ensures
        match r {
            Some(a) => program_address_of(record_seeds(*key), program_id@) == Some(a@),
            None => program_address_of(record_seeds(*key), program_id@) is None,
        },
{
    let seeds = seeds_of(key);
    find_program_address(&seeds, program_id)
}

} // verus!
