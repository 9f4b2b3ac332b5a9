//! The metadata program's create-or-update instruction, and a model of the
//! record store it maintains.
//!
//! The metadata program keeps one record per mint — display name, symbol,
//! URI, seller-fee basis points and an optional creator entry — under an
//! account of its own. The instruction assembled here carries the record in
//! serialized form; the store model below says what the program does with
//! it: a record under a fresh key is created, a record under a taken key
//! replaces the one held, and nothing else is touched.

use vstd::prelude::*;
use crate::address::{addr_eq, Address};
use crate::instruction::{AccountSlot, CpiInstruction};
use borsh::BorshSerialize;
use mpl_token_metadata::instructions::CreateMetadataAccountV3InstructionArgs;
use mpl_token_metadata::types::{Creator, DataV2};

verus! {

/// The metadata program's address, byte for byte.
pub open spec fn mpl_metadata_id() -> Seq<u8> {
    seq![
        11u8, 112u8, 101u8, 177u8, 227u8, 209u8, 124u8, 69u8, 56u8, 157u8, 82u8, 127u8, 107u8,
        4u8, 195u8, 205u8, 88u8, 184u8, 108u8, 115u8, 26u8, 160u8, 253u8, 181u8, 73u8, 182u8,
        209u8, 188u8, 3u8, 248u8, 41u8, 70u8,
    ]
}

/// The metadata program's address as a value.
pub fn mpl_metadata_program_address() -> (r: Address)
    ensures
        r@ == mpl_metadata_id(),
{
    let bytes: [u8; 32] = [
        11, 112, 101, 177, 227, 209, 124, 69, 56, 157, 82, 127, 107, 4, 195, 205, 88, 184, 108,
        115, 26, 160, 253, 181, 73, 182, 209, 188, 3, 248, 41, 70,
    ];
    proof {
        assert(bytes@ =~= mpl_metadata_id());
    }
    Address { bytes }
}

/// One creator credited in a metadata record: an address, whether it is
/// verified, and its share of seller fees in percent.
#[derive(Clone, Copy, PartialEq, Eq, Debug)]
pub struct CreatorEntry {
    /// The creator's address.
    pub address: Address,
    /// Whether the creator is marked verified.
    pub verified: bool,
    /// The creator's share of seller fees, in percent.
    pub share: u8,
}

/// The creator entry as plain values: address bytes, verified flag, share.
pub open spec fn creator_view(creator: Option<CreatorEntry>) -> Option<(Seq<u8>, bool, u8)> {
    match creator {
        Some(c) => Some((c.address@, c.verified, c.share)),
        None => None,
    }
}

/// The account roles a create-or-update-metadata instruction names.
#[derive(Clone, Copy, PartialEq, Eq, Debug)]
pub struct MetadataAccounts {
    /// The account paying for the metadata account's rent.
    pub payer: Address,
    /// The authority allowed to change the record later.
    pub update_authority: Address,
    /// The mint the record describes.
    pub mint: Address,
    /// The metadata account that holds the record.
    pub metadata: Address,
    /// The mint's minting authority.
    pub mint_authority: Address,
    /// The system program.
    pub system_program: Address,
    /// The rent sysvar, where the instruction is to name it.
    pub rent: Option<Address>,
}

/// The serialized form of a metadata record together with the mutability
/// flag, as the metadata program's create-or-update instruction carries it.
pub uninterp spec fn create_metadata_v3_args_data(
    name: Seq<char>,
    symbol: Seq<char>,
    uri: Seq<char>,
    seller_fee_basis_points: u16,
    creator: Option<(Seq<u8>, bool, u8)>,
    is_mutable: bool,
) -> Seq<u8>;

/// Payload of a create-or-update-metadata instruction: the instruction's
/// discriminator byte, then the serialized record.
pub open spec fn create_metadata_v3_data(
    name: Seq<char>,
    symbol: Seq<char>,
    uri: Seq<char>,
    seller_fee_basis_points: u16,
    creator: Option<(Seq<u8>, bool, u8)>,
    is_mutable: bool,
) -> Seq<u8> {
    seq![33u8] + create_metadata_v3_args_data(
        name,
        symbol,
        uri,
        seller_fee_basis_points,
        creator,
        is_mutable,
    )
}

/// Relies on borsh serialization of
/// `mpl_token_metadata::instructions::CreateMetadataAccountV3InstructionArgs`:
/// the bytes produced depend only on the record fields passed here, the
/// optional creator list being the single entry given, and the collection,
/// uses and collection-details fields being absent.
#[verifier::external_body]
fn serialize_create_metadata_v3_args(
    name: &String,
    symbol: &String,
    uri: &String,
    seller_fee_basis_points: u16,
    creator: &Option<CreatorEntry>,
    is_mutable: bool,
) -> (r: Vec<u8>)
    requires
        name@.len() <= 0x3fffffff,
        symbol@.len() <= 0x3fffffff,
        uri@.len() <= 0x3fffffff,
    ensures
        r@ == create_metadata_v3_args_data(
            name@,
            symbol@,
            uri@,
            seller_fee_basis_points,
            creator_view(*creator),
            is_mutable,
        ),
{
    let args = CreateMetadataAccountV3InstructionArgs {
        data: DataV2 {
            name: name.clone(), symbol: symbol.clone(), uri: uri.clone(), seller_fee_basis_points,
            creators: creator.as_ref().map(|c| vec![Creator {
                address: c.address.bytes.into(), verified: c.verified, share: c.share,
            }]),
            collection: None, uses: None,
        },
        is_mutable, collection_details: None,
    };
    args.try_to_vec().unwrap()
}

/// What the metadata program's create-or-update instruction for the given
/// accounts and record looks like: the instruction `create_or_update_metadata`
/// promises to build.
pub open spec fn is_create_metadata_instruction(
    ix: CpiInstruction,
    keys: MetadataAccounts,
    name: Seq<char>,
    symbol: Seq<char>,
    uri: Seq<char>,
    seller_fee_basis_points: u16,
    creator: Option<(Seq<u8>, bool, u8)>,
    is_mutable: bool,
) -> bool {
    &&& ix.program@ == mpl_metadata_id()
    &&& ix.accounts@.len() == (if keys.rent is Some {
        7int
    } else {
        6int
    })
    &&& ix.accounts@[0] == (AccountSlot { address: keys.metadata, signer: false, writable: true })
    &&& ix.accounts@[1] == (AccountSlot { address: keys.mint, signer: false, writable: false })
    &&& ix.accounts@[2] == (AccountSlot {
        address: keys.mint_authority,
        signer: true,
        writable: false,
    })
    &&& ix.accounts@[3] == (AccountSlot { address: keys.payer, signer: true, writable: true })
    &&& ix.accounts@[4] == (AccountSlot {
        address: keys.update_authority,
        signer: true,
        writable: false,
    })
    &&& ix.accounts@[5] == (AccountSlot {
        address: keys.system_program,
        signer: false,
        writable: false,
    })
    &&& (keys.rent matches Some(rent) ==> ix.accounts@[6] == (AccountSlot {
        address: rent,
        signer: false,
        writable: false,
    }))
    &&& ix.data@ == create_metadata_v3_data(
        name,
        symbol,
        uri,
        seller_fee_basis_points,
        creator,
        is_mutable,
    )
}

/// Assembles the metadata program's create-or-update instruction: the
/// metadata account (writable), the mint, the mint authority (signer), the
/// payer (writable signer), the update authority (signer), the system
/// program and, where given, the rent sysvar, with the serialized record as
/// payload. The account order is the one the metadata program expects.
pub(crate) fn build_create_metadata_v3(
    keys: &MetadataAccounts,
    name: &String,
    symbol: &String,
    uri: &String,
    seller_fee_basis_points: u16,
    creator: &Option<CreatorEntry>,
    is_mutable: bool,
) -> (r: CpiInstruction)
    requires
        name@.len() <= 0x3fffffff,
        symbol@.len() <= 0x3fffffff,
        uri@.len() <= 0x3fffffff,
    ensures
        is_create_metadata_instruction(
            r,
            *keys,
            name@,
            symbol@,
            uri@,
            seller_fee_basis_points,
            creator_view(*creator),
            is_mutable,
        ),
{
    let mut data: Vec<u8> = Vec::new();
    data.push(33);
    let mut tail = serialize_create_metadata_v3_args(
        name,
        symbol,
        uri,
        seller_fee_basis_points,
        creator,
        is_mutable,
    );
    data.append(&mut tail);
    proof {
        assert(data@ =~= create_metadata_v3_data(
            name@,
            symbol@,
            uri@,
            seller_fee_basis_points,
            creator_view(*creator),
            is_mutable,
        ));
    }
    let mut accounts: Vec<AccountSlot> = Vec::new();
    accounts.push(AccountSlot { address: keys.metadata, signer: false, writable: true });
    accounts.push(AccountSlot { address: keys.mint, signer: false, writable: false });
    accounts.push(AccountSlot { address: keys.mint_authority, signer: true, writable: false });
    accounts.push(AccountSlot { address: keys.payer, signer: true, writable: true });
    accounts.push(AccountSlot { address: keys.update_authority, signer: true, writable: false });
    accounts.push(AccountSlot { address: keys.system_program, signer: false, writable: false });
    match keys.rent {
        Some(rent) => accounts.push(AccountSlot { address: rent, signer: false, writable: false }),
        None => (),
    }
    CpiInstruction { program: mpl_metadata_program_address(), accounts, data }
}

/// One metadata record, as the metadata program keeps it.
#[derive(Clone, PartialEq, Eq, Debug)]
pub struct MetadataRecord {
    /// The token's display name.
    pub name: String,
    /// The token's symbol.
    pub symbol: String,
    /// A URI pointing at the token's off-chain data.
    pub uri: String,
    /// The seller fee, in basis points.
    pub seller_fee_basis_points: u16,
    /// The single credited creator, if any.
    pub creator: Option<CreatorEntry>,
}

/// A stored record and the metadata account that holds it.
#[derive(Clone, PartialEq, Eq, Debug)]
pub struct MetadataEntry {
    /// The metadata account's address.
    pub key: Address,
    /// The record held under it.
    pub record: MetadataRecord,
}

/// The records the metadata program keeps, one entry per metadata account.
#[derive(Clone, PartialEq, Eq, Debug)]
pub struct MetadataStore {
    /// The entries, in creation order.
    pub entries: Vec<MetadataEntry>,
}

/// The record held under `key`, if any.
pub open spec fn record_in(s: Seq<MetadataEntry>, key: Seq<u8>) -> Option<MetadataRecord>
    decreases s.len(),
{
    if s.len() == 0 {
        None
    } else if s[0].key@ == key {
        Some(s[0].record)
    } else {
        record_in(s.drop_first(), key)
    }
}

impl MetadataStore {
    /// Each metadata account appears at most once.
    pub open spec fn wf(self) -> bool {
        forall|i: int, j: int|
            0 <= i < j < self.entries@.len() ==> self.entries@[i].key@ != self.entries@[j].key@
    }

    /// The record held under `key`, if any.
    pub open spec fn spec_record(self, key: Seq<u8>) -> Option<MetadataRecord> {
        record_in(self.entries@, key)
    }
}

/// How the store changes when a record is written under `key`: the record is
/// created where the key is fresh and replaces the one held where it is not —
/// writing under a taken key is never an error — and every other key keeps
/// its record.
pub open spec fn metadata_applied(
    pre: MetadataStore,
    post: MetadataStore,
    key: Address,
    record: MetadataRecord,
) -> bool {
    &&& post.spec_record(key@) == Some(record)
    &&& forall|a: Seq<u8>| a != key@ ==> post.spec_record(a) == pre.spec_record(a)
}

proof fn lemma_record_update(s: Seq<MetadataEntry>, i: int, v: MetadataEntry, key: Seq<u8>)
    requires
        0 <= i < s.len(),
        v.key@ == s[i].key@,
        forall|k: int| 0 <= k < i ==> s[k].key@ != s[i].key@,
    ensures
        record_in(s.update(i, v), s[i].key@) == Some(v.record),
        key != s[i].key@ ==> record_in(s.update(i, v), key) == record_in(s, key),
    decreases i,
{
    let t = s.update(i, v);
    if i == 0 {
        assert(t[0] == v);
        assert(t.drop_first() =~= s.drop_first());
    } else {
        assert(t[0] == s[0]);
        assert(t.drop_first() =~= s.drop_first().update(i - 1, v));
        lemma_record_update(s.drop_first(), i - 1, v, key);
    }
}

proof fn lemma_record_push(s: Seq<MetadataEntry>, v: MetadataEntry, key: Seq<u8>)
    requires
        forall|k: int| 0 <= k < s.len() ==> s[k].key@ != v.key@,
    ensures
        record_in(s.push(v), v.key@) == Some(v.record),
        key != v.key@ ==> record_in(s.push(v), key) == record_in(s, key),
    decreases s.len(),
{
    let t = s.push(v);
    if s.len() == 0 {
        assert(t[0] == v);
        assert(t.drop_first() =~= Seq::<MetadataEntry>::empty());
        assert(record_in(t.drop_first(), key) is None);
        assert(record_in(s, key) is None);
    } else {
        assert(t[0] == s[0]);
        assert(t.drop_first() =~= s.drop_first().push(v));
        lemma_record_push(s.drop_first(), v, key);
    }
}

impl MetadataStore {
    /// An empty store: no records.
    pub fn new() -> (r: MetadataStore)
        ensures
            r.wf(),
            r.entries@.len() == 0,
    {
        MetadataStore { entries: Vec::new() }
    }

    /// The index of the entry under `key`, if any.
    fn find_index(&self, key: &Address) -> (r: Option<usize>)
        ensures
            match r {
                Some(i) => 0 <= i < self.entries@.len() && self.entries@[i as int].key@ == key@
                    && (forall|k: int| 0 <= k < i ==> self.entries@[k].key@ != key@),
                None => forall|k: int| 0 <= k < self.entries@.len() ==> self.entries@[k].key@ != key@,
            },
    {
        let mut i: usize = 0;
        while i < self.entries.len()
            invariant
                i <= self.entries@.len(),
                forall|k: int| 0 <= k < i ==> self.entries@[k].key@ != key@,
            decreases self.entries@.len() - i,
        {
            if addr_eq(&self.entries[i].key, key) {
                return Some(i);
            }
            i = i + 1;
        }
        None
    }

    /// The record held under `key`, if any.
    pub fn record_of(&self, key: &Address) -> (r: Option<MetadataRecord>)
        ensures
            r == self.spec_record(key@),
    {
        let idx = self.find_index(key);
        match idx {
            Some(i) => {
                proof {
                    lemma_record_at(self.entries@, i as int, key@);
                }
                Some(self.entries[i].record.clone_record())
            },
            None => {
                proof {
                    lemma_record_none(self.entries@, key@);
                }
                None
            },
        }
    }

    /// Writes `record` under `key`, as the metadata program does on its
    /// create-or-update instruction: a fresh key gains the record, a taken
    /// key has its record replaced, and no other key is touched.
    pub fn apply_create_or_update(&mut self, key: &Address, record: MetadataRecord)
        requires
            old(self).wf(),
        ensures
            final(self).wf(),
            metadata_applied(*old(self), *final(self), *key, record),
    {
        let idx = self.find_index(key);
        match idx {
            Some(i) => {
                let ghost s = self.entries@;
                let entry = MetadataEntry { key: self.entries[i].key, record };
                self.entries.set(i, entry);
                proof {
                    let t = self.entries@;
                    assert(t =~= s.update(i as int, entry));
                    lemma_record_update(s, i as int, entry, key@);
                    assert forall|a: Seq<u8>| a != key@ implies record_in(t, a) == record_in(
                        s,
                        a,
                    ) by {
                        lemma_record_update(s, i as int, entry, a);
                    }
                    assert(final(self).wf()) by {
                        assert(forall|j: int| 0 <= j < s.len() ==> t[j].key@ == s[j].key@);
                    }
                }
            },
            None => {
                let ghost s = self.entries@;
                let entry = MetadataEntry { key: *key, record };
                self.entries.push(entry);
                proof {
                    let t = self.entries@;
                    assert(t =~= s.push(entry));
                    lemma_record_push(s, entry, key@);
                    assert forall|a: Seq<u8>| a != key@ implies record_in(t, a) == record_in(
                        s,
                        a,
                    ) by {
                        lemma_record_push(s, entry, a);
                    }
                    assert(final(self).wf()) by {
                        assert(forall|j: int| 0 <= j < s.len() ==> t[j].key@ == s[j].key@);
                        assert(t[s.len() as int].key@ == key@);
                    }
                }
            },
        }
    }
}

impl MetadataRecord {
    /// A copy of the record, field for field.
    pub fn clone_record(&self) -> (r: MetadataRecord)
        ensures
            r == *self,
    {
        MetadataRecord {
            name: self.name.clone(),
            symbol: self.symbol.clone(),
            uri: self.uri.clone(),
            seller_fee_basis_points: self.seller_fee_basis_points,
            creator: self.creator,
        }
    }
}

proof fn lemma_record_at(s: Seq<MetadataEntry>, i: int, key: Seq<u8>)
    requires
        0 <= i < s.len(),
        s[i].key@ == key,
        forall|k: int| 0 <= k < i ==> s[k].key@ != key,
    ensures
        record_in(s, key) == Some(s[i].record),
    decreases i,
{
    if i > 0 {
        lemma_record_at(s.drop_first(), i - 1, key);
    }
}

proof fn lemma_record_none(s: Seq<MetadataEntry>, key: Seq<u8>)
    requires
        forall|k: int| 0 <= k < s.len() ==> s[k].key@ != key,
    ensures
        record_in(s, key) is None,
    decreases s.len(),
{
    if s.len() > 0 {
        lemma_record_none(s.drop_first(), key);
    }
}

/// Writing a record twice under one key leaves the second record standing:
/// the store then holds the later record under that key, every other key
/// keeps what it held before both writes, and neither write can be rejected
/// for the key already being taken.
pub proof fn lemma_store_twice_takes_last(
    pre: MetadataStore,
    mid: MetadataStore,
    post: MetadataStore,
    key: Address,
    first: MetadataRecord,
    second: MetadataRecord,
)
    requires
        metadata_applied(pre, mid, key, first),
        metadata_applied(mid, post, key, second),
    ensures
        post.spec_record(key@) == Some(second),
        forall|a: Seq<u8>| a != key@ ==> post.spec_record(a) == pre.spec_record(a),
{
    assert forall|a: Seq<u8>| a != key@ implies post.spec_record(a) == pre.spec_record(a) by {
        assert(post.spec_record(a) == mid.spec_record(a));
        assert(mid.spec_record(a) == pre.spec_record(a));
    }
}

} // verus!
