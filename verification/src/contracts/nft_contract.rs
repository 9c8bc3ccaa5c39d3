//! The NFT collection: tokens with metadata, owners and approvals.

use crate::text::{contains_text, texts};
use crate::keyed::{is_first_match, lemma_first_match_is_position, position_of};
use std::collections::HashMap;
use vstd::prelude::*;
use vstd::string::*;

verus! {

broadcast use vstd::std_specs::hash::group_hash_axioms;

/// Grams of CO2 credited to each token of a new collection.
pub const DEFAULT_NFT_CARBON_OFFSET: u64 = 100;

/// One attribute of a token.
pub struct Attribute {
    pub key: String,
    pub value: String,
}

/// What an attribute holds, as plain mathematical values.
pub struct AttributeView {
    pub key: Seq<char>,
    pub value: Seq<char>,
}

impl View for Attribute {
    type V = AttributeView;

    open spec fn view(&self) -> AttributeView {
        AttributeView { key: self.key@, value: self.value@ }
    }
}

impl Clone for Attribute {
    fn clone(&self) -> (copy: Self)
        ensures
            copy == *self,
    {
        Attribute { key: self.key.clone(), value: self.value.clone() }
    }
}

/// The views of a sequence of attributes, in order.
pub open spec fn attribute_views(attributes: Seq<Attribute>) -> Seq<AttributeView> {
    attributes.map_values(|a: Attribute| a@)
}

/// What is recorded of a token when it is minted. `minted_at` is in
/// milliseconds.
pub struct NFTMetadata {
    pub token_id: u64,
    pub name: String,
    pub description: String,
    pub image: String,
    pub attributes: Vec<Attribute>,
    pub carbon_offset: u64,
    pub minted_at: u64,
    pub creator: String,
}

/// What the metadata of a token holds, as plain mathematical values.
pub struct MetadataView {
    pub token_id: nat,
    pub name: Seq<char>,
    pub description: Seq<char>,
    pub image: Seq<char>,
    pub attributes: Seq<AttributeView>,
    pub carbon_offset: nat,
    pub minted_at: nat,
    pub creator: Seq<char>,
}

impl View for NFTMetadata {
    type V = MetadataView;

    open spec fn view(&self) -> MetadataView {
        MetadataView {
            token_id: self.token_id as nat,
            name: self.name@,
            description: self.description@,
            image: self.image@,
            attributes: attribute_views(self.attributes@),
            carbon_offset: self.carbon_offset as nat,
            minted_at: self.minted_at as nat,
            creator: self.creator@,
        }
    }
}

impl Clone for NFTMetadata {
    fn clone(&self) -> (copy: Self)
        ensures
            copy@ == self@,
    {
        let attributes: Vec<Attribute> = self.attributes.clone();
        NFTMetadata {
            token_id: self.token_id,
            name: self.name.clone(),
            description: self.description.clone(),
            image: self.image.clone(),
            attributes,
            carbon_offset: self.carbon_offset,
            minted_at: self.minted_at,
            creator: self.creator.clone(),
        }
    }
}

/// Whether `owner` lets `operator` move all of the owner's tokens.
pub struct OperatorApproval {
    pub owner: String,
    pub operator: String,
    pub approved: bool,
}

/// What an operator approval holds, as plain mathematical values.
pub struct ApprovalView {
    pub owner: Seq<char>,
    pub operator: Seq<char>,
    pub approved: bool,
}

impl View for OperatorApproval {
    type V = ApprovalView;

    open spec fn view(&self) -> ApprovalView {
        ApprovalView { owner: self.owner@, operator: self.operator@, approved: self.approved }
    }
}

/// The views of a sequence of operator approvals, in order.
pub open spec fn approval_views(approvals: Seq<OperatorApproval>) -> Seq<ApprovalView> {
    approvals.map_values(|a: OperatorApproval| a@)
}

/// The owner and operator of each approval, in order.
pub open spec fn approval_pairs(approvals: Seq<ApprovalView>) -> Seq<(Seq<char>, Seq<char>)> {
    approvals.map_values(|a: ApprovalView| (a.owner, a.operator))
}

/// Whether `owner` lets `operator` move all of the owner's tokens: false
/// without an entry.
pub open spec fn operator_approved(
    approvals: Seq<ApprovalView>,
    owner: Seq<char>,
    operator: Seq<char>,
) -> bool {
    match position_of(approval_pairs(approvals), (owner, operator)) {
        Some(i) => approvals[i].approved,
        None => false,
    }
}

/// The approvals after `owner` set the approval of `operator`.
pub open spec fn with_operator(
    approvals: Seq<ApprovalView>,
    owner: Seq<char>,
    operator: Seq<char>,
    approved: bool,
) -> Seq<ApprovalView> {
    match position_of(approval_pairs(approvals), (owner, operator)) {
        Some(i) => approvals.update(i, ApprovalView { owner, operator, approved }),
        None => approvals.push(ApprovalView { owner, operator, approved }),
    }
}

/// The collection. Token ids are given out from `next_token_id` upwards.
pub struct BitnunNFT {
    pub name: String,
    pub symbol: String,
    pub next_token_id: u64,
    pub tokens: HashMap<u64, NFTMetadata>,
    pub owners: HashMap<u64, String>,
    pub approved: HashMap<u64, String>,
    pub operator_approvals: Vec<OperatorApproval>,
    pub carbon_offset_per_nft: u64,
}

/// What the collection holds, as plain mathematical values.
pub struct NftView {
    pub name: Seq<char>,
    pub symbol: Seq<char>,
    pub next_token_id: nat,
    pub tokens: Map<u64, MetadataView>,
    pub owners: Map<u64, Seq<char>>,
    pub approved: Map<u64, Seq<char>>,
    pub operator_approvals: Seq<ApprovalView>,
    pub carbon_offset_per_nft: nat,
}

/// The characters of each string of a map.
pub open spec fn text_map(m: Map<u64, String>) -> Map<u64, Seq<char>> {
    m.map_values(|s: String| s@)
}

/// The views of the metadata of a map.
pub open spec fn metadata_map(m: Map<u64, NFTMetadata>) -> Map<u64, MetadataView> {
    m.map_values(|d: NFTMetadata| d@)
}

impl View for BitnunNFT {
    type V = NftView;

    open spec fn view(&self) -> NftView {
        NftView {
            name: self.name@,
            symbol: self.symbol@,
            next_token_id: self.next_token_id as nat,
            tokens: metadata_map(self.tokens@),
            owners: text_map(self.owners@),
            approved: text_map(self.approved@),
            operator_approvals: approval_views(self.operator_approvals@),
            carbon_offset_per_nft: self.carbon_offset_per_nft as nat,
        }
    }
}

/// The figures that describe the collection.
pub struct CollectionStats {
    pub total_nfts: usize,
    pub total_carbon_offset: u64,
    pub unique_owners: usize,
    pub next_token_id: u64,
}

/// The attributes that every token carries.
pub open spec fn standard_attributes() -> Seq<AttributeView> {
    seq![
        AttributeView { key: "sustainability"@, value: "carbon-negative"@ },
        AttributeView { key: "blockchain"@, value: "bitnun"@ },
        AttributeView { key: "token_standard"@, value: "BNFT-721"@ },
    ]
}

/// The metadata of a token minted to `to` at `now`.
pub open spec fn minted(
    token_id: nat,
    to: Seq<char>,
    name: Seq<char>,
    description: Seq<char>,
    image: Seq<char>,
    carbon_offset: nat,
    now: nat,
) -> MetadataView {
    MetadataView {
        token_id,
        name,
        description,
        image,
        attributes: standard_attributes(),
        carbon_offset,
        minted_at: now,
        creator: to,
    }
}

/// `spender` may move the token: as its owner, as the address approved
/// for it, or as an operator of its owner.
pub open spec fn may_move(nft: NftView, spender: Seq<char>, token_id: u64) -> bool {
    &&& nft.owners.contains_key(token_id)
    &&& {
        ||| spender == nft.owners[token_id]
        ||| nft.approved.contains_key(token_id) && nft.approved[token_id] == spender
        ||| operator_approved(nft.operator_approvals, nft.owners[token_id], spender)
    }
}

/// The CO2 credited to the tokens with an id below `bound`.
pub open spec fn offset_below(tokens: Map<u64, MetadataView>, bound: nat) -> nat
    decreases bound,
{
    if bound == 0 {
        0
    } else {
        let id = (bound - 1) as u64;
        offset_below(tokens, (bound - 1) as nat) + if tokens.contains_key(id) {
            tokens[id].carbon_offset
        } else {
            0
        }
    }
}

/// The ids below `bound` of the tokens of `owner`, in ascending order.
pub open spec fn owned_below(owners: Map<u64, Seq<char>>, owner: Seq<char>, bound: nat) -> Seq<u64>
    decreases bound,
{
    if bound == 0 {
        Seq::empty()
    } else {
        let id = (bound - 1) as u64;
        let before = owned_below(owners, owner, (bound - 1) as nat);
        if owners.contains_key(id) && owners[id] == owner {
            before.push(id)
        } else {
            before
        }
    }
}

/// The owners of the tokens with an id below `bound`, each of them once,
/// in the order of their first token.
pub open spec fn owners_below(owners: Map<u64, Seq<char>>, bound: nat) -> Seq<Seq<char>>
    decreases bound,
{
    if bound == 0 {
        Seq::empty()
    } else {
        let id = (bound - 1) as u64;
        let before = owners_below(owners, (bound - 1) as nat);
        if owners.contains_key(id) && !before.contains(owners[id]) {
            before.push(owners[id])
        } else {
            before
        }
    }
}

/// The CO2 credited below a bound is at most what is credited below a
/// larger one.
pub proof fn lemma_offset_below_grows(tokens: Map<u64, MetadataView>, low: nat, high: nat)
    requires
        low <= high,
    ensures
        offset_below(tokens, low) <= offset_below(tokens, high),
    decreases high - low,
{
    if low < high {
        lemma_offset_below_grows(tokens, low, (high - 1) as nat);
    }
}

impl BitnunNFT {
    /// An empty collection whose first token will have the id 1.
    pub fn new() -> (nft: BitnunNFT)
        ensures
            nft@ == (NftView {
                name: "Bitnun Sustainable NFT"@,
                symbol: "BNFT"@,
                next_token_id: 1,
                tokens: Map::empty(),
                owners: Map::empty(),
                approved: Map::empty(),
                operator_approvals: Seq::empty(),
                carbon_offset_per_nft: DEFAULT_NFT_CARBON_OFFSET as nat,
            }),
    {
        let nft = BitnunNFT {
            name: String::from_str("Bitnun Sustainable NFT"),
            symbol: String::from_str("BNFT"),
            next_token_id: 1,
            tokens: HashMap::new(),
            owners: HashMap::new(),
            approved: HashMap::new(),
            operator_approvals: Vec::new(),
            carbon_offset_per_nft: DEFAULT_NFT_CARBON_OFFSET,
        };
        assert(nft@.tokens =~= Map::empty());
        assert(nft@.owners =~= Map::empty());
        assert(nft@.operator_approvals =~= Seq::empty());
        nft
    }

    /// Mints a token to `to` at the time `now` and returns its id.
    pub fn mint(&mut self, to: &str, name: &str, description: &str, image: &str, now: u64) -> (token_id:
        u64)
        requires
            old(self).next_token_id < u64::MAX,
        ensures
            token_id == old(self)@.next_token_id,
            final(self)@ == (NftView {
                next_token_id: old(self)@.next_token_id + 1,
                tokens: old(self)@.tokens.insert(
                    token_id,
                    minted(
                        token_id as nat,
                        to@,
                        name@,
                        description@,
                        image@,
                        old(self)@.carbon_offset_per_nft,
                        now as nat,
                    ),
                ),
                owners: old(self)@.owners.insert(token_id, to@),
                ..old(self)@
            }),
    {
        let token_id: u64 = self.next_token_id;
        self.next_token_id = self.next_token_id + 1;
        let mut attributes: Vec<Attribute> = Vec::new();
        attributes.push(
            Attribute {
                key: String::from_str("sustainability"),
                value: String::from_str("carbon-negative"),
            },
        );
        attributes.push(
            Attribute { key: String::from_str("blockchain"), value: String::from_str("bitnun") },
        );
        attributes.push(
            Attribute {
                key: String::from_str("token_standard"),
                value: String::from_str("BNFT-721"),
            },
        );
        assert(attribute_views(attributes@) =~= standard_attributes());
        let metadata = NFTMetadata {
            token_id,
            name: String::from_str(name),
            description: String::from_str(description),
            image: String::from_str(image),
            attributes,
            carbon_offset: self.carbon_offset_per_nft,
            minted_at: now,
            creator: String::from_str(to),
        };
        let owner: String = String::from_str(to);
        self.tokens.insert(token_id, metadata);
        self.owners.insert(token_id, owner);
        assert(self@.tokens =~= old(self)@.tokens.insert(token_id, metadata@));
        assert(self@.owners =~= old(self)@.owners.insert(token_id, to@));
        token_id
    }

    /// Moves the token to `to` if `from` may move it, and clears the
    /// approval of the token. A rejected transfer changes nothing.
    pub fn transfer(&mut self, from: &str, to: &str, token_id: u64) -> (done: bool)
        ensures
            done == may_move(old(self)@, from@, token_id),
            !done ==> final(self)@ == old(self)@,
            done ==> final(self)@ == (NftView {
                owners: old(self)@.owners.insert(token_id, to@),
                approved: old(self)@.approved.remove(token_id),
                ..old(self)@
            }),
    {
        if !self.is_approved_or_owner(from, token_id) {
            return false;
        }
        self.owners.insert(token_id, String::from_str(to));
        self.approved.remove(&token_id);
        assert(self@.owners =~= old(self)@.owners.insert(token_id, to@));
        assert(self@.approved =~= old(self)@.approved.remove(token_id));
        true
    }

    /// Lets `approved` move the token, if `owner` owns it. A rejected
    /// approval changes nothing.
    pub fn approve(&mut self, owner: &str, approved: &str, token_id: u64) -> (done: bool)
        ensures
            done == (old(self)@.owners.contains_key(token_id) && old(self)@.owners[token_id]
                == owner@),
            !done ==> final(self)@ == old(self)@,
            done ==> final(self)@ == (NftView {
                approved: old(self)@.approved.insert(token_id, approved@),
                ..old(self)@
            }),
    {
        let is_owner: bool = match self.owners.get(&token_id) {
            Some(current) => *current == String::from_str(owner),
            None => false,
        };
        if !is_owner {
            return false;
        }
        self.approved.insert(token_id, String::from_str(approved));
        assert(self@.approved =~= old(self)@.approved.insert(token_id, approved@));
        true
    }

    /// Sets whether `owner` lets `operator` move all of the owner's tokens.
    pub fn set_approval_for_all(&mut self, owner: &str, operator: &str, approved: bool)
        ensures
            final(self)@ == (NftView {
                operator_approvals: with_operator(
                    old(self)@.operator_approvals,
                    owner@,
                    operator@,
                    approved,
                ),
                ..old(self)@
            }),
    {
        let entry = OperatorApproval {
            owner: String::from_str(owner),
            operator: String::from_str(operator),
            approved,
        };
        match self.find_operator(owner, operator) {
            Some(i) => {
                self.operator_approvals.set(i, entry);
                assert(self@.operator_approvals =~= old(self)@.operator_approvals.update(
                    i as int,
                    entry@,
                ));
            },
            None => {
                self.operator_approvals.push(entry);
                assert(self@.operator_approvals =~= old(self)@.operator_approvals.push(entry@));
            },
        }
    }

    /// The owner of the token, if it exists.
    pub fn owner_of(&self, token_id: u64) -> (owner: Option<String>)
        ensures
            owner is Some <==> self@.owners.contains_key(token_id),
            owner matches Some(address) ==> address@ == self@.owners[token_id],
    {
        match self.owners.get(&token_id) {
            Some(address) => Some(address.clone()),
            None => None,
        }
    }

    /// The address approved for the token, if there is one.
    pub fn get_approved(&self, token_id: u64) -> (approved: Option<String>)
        ensures
            approved is Some <==> self@.approved.contains_key(token_id),
            approved matches Some(address) ==> address@ == self@.approved[token_id],
    {
        match self.approved.get(&token_id) {
            Some(address) => Some(address.clone()),
            None => None,
        }
    }

    /// Whether `owner` lets `operator` move all of the owner's tokens.
    pub fn is_approved_for_all(&self, owner: &str, operator: &str) -> (approved: bool)
        ensures
            approved == operator_approved(self@.operator_approvals, owner@, operator@),
    {
        match self.find_operator(owner, operator) {
            Some(i) => self.operator_approvals[i].approved,
            None => false,
        }
    }

    /// The position of the approval that `owner` gave to `operator`.
    pub fn find_operator(&self, owner: &str, operator: &str) -> (found: Option<usize>)
        ensures
            found is None <==> position_of(
                approval_pairs(self@.operator_approvals),
                (owner@, operator@),
            ) is None,
            found matches Some(i) ==> i < self@.operator_approvals.len() && position_of(
                approval_pairs(self@.operator_approvals),
                (owner@, operator@),
            ) == Some(i as int),
    {
        let wanted_owner: String = String::from_str(owner);
        let wanted_operator: String = String::from_str(operator);
        let ghost pairs = approval_pairs(self@.operator_approvals);
        let mut i: usize = 0;
        while i < self.operator_approvals.len()
            invariant
                i <= self.operator_approvals.len(),
                pairs == approval_pairs(self@.operator_approvals),
                wanted_owner@ == owner@,
                wanted_operator@ == operator@,
                forall|j: int| 0 <= j < i ==> pairs[j] != (owner@, operator@),
            decreases self.operator_approvals.len() - i,
        {
            let entry: &OperatorApproval = &self.operator_approvals[i];
            if entry.owner == wanted_owner && entry.operator == wanted_operator {
                proof {
                    lemma_first_match_is_position(pairs, (owner@, operator@), i as int);
                }
                return Some(i);
            }
            i = i + 1;
        }
        None
    }

    /// Whether `spender` may move the token.
    pub fn is_approved_or_owner(&self, spender: &str, token_id: u64) -> (allowed: bool)
        ensures
            allowed == may_move(self@, spender@, token_id),
    {
        let wanted: String = String::from_str(spender);
        match self.owners.get(&token_id) {
            Some(owner) => {
                if *owner == wanted {
                    return true;
                }
                let approved: bool = match self.approved.get(&token_id) {
                    Some(address) => *address == wanted,
                    None => false,
                };
                approved || self.is_approved_for_all(owner.as_str(), spender)
            },
            None => false,
        }
    }

    /// The metadata of the token, if it exists.
    pub fn token_metadata(&self, token_id: u64) -> (metadata: Option<NFTMetadata>)
        ensures
            metadata is Some <==> self@.tokens.contains_key(token_id),
            metadata matches Some(found) ==> found@ == self@.tokens[token_id],
    {
        match self.tokens.get(&token_id) {
            Some(found) => Some(found.clone()),
            None => None,
        }
    }

    /// The CO2 credited to all tokens that were given an id: the tokens
    /// with an id below `next_token_id`.
    pub fn total_carbon_offset(&self) -> (total: u64)
        requires
            offset_below(self@.tokens, self@.next_token_id) <= u64::MAX,
        ensures
            total == offset_below(self@.tokens, self@.next_token_id),
    {
        let mut total: u64 = 0;
        let mut id: u64 = 0;
        while id < self.next_token_id
            invariant
                id <= self.next_token_id,
                total == offset_below(self@.tokens, id as nat),
                offset_below(self@.tokens, self@.next_token_id) <= u64::MAX,
            decreases self.next_token_id - id,
        {
            proof {
                lemma_offset_below_grows(self@.tokens, (id + 1) as nat, self@.next_token_id);
            }
            match self.tokens.get(&id) {
                Some(metadata) => {
                    total = total + metadata.carbon_offset;
                },
                None => {},
            }
            id = id + 1;
        }
        total
    }

    /// The ids of the tokens of `owner` among the tokens that were given an
    /// id, in ascending order.
    pub fn tokens_by_owner(&self, owner: &str) -> (ids: Vec<u64>)
        ensures
            ids@ == owned_below(self@.owners, owner@, self@.next_token_id),
    {
        let wanted: String = String::from_str(owner);
        let mut ids: Vec<u64> = Vec::new();
        let mut id: u64 = 0;
        while id < self.next_token_id
            invariant
                id <= self.next_token_id,
                wanted@ == owner@,
                ids@ == owned_below(self@.owners, owner@, id as nat),
            decreases self.next_token_id - id,
        {
            match self.owners.get(&id) {
                Some(address) => {
                    if *address == wanted {
                        ids.push(id);
                    }
                },
                None => {},
            }
            id = id + 1;
        }
        ids
    }

    /// The owners of the tokens that were given an id, each of them once.
    pub fn unique_owners(&self) -> (owners: Vec<String>)
        ensures
            texts(owners@) == owners_below(self@.owners, self@.next_token_id),
    {
        let mut owners: Vec<String> = Vec::new();
        let mut id: u64 = 0;
        while id < self.next_token_id
            invariant
                id <= self.next_token_id,
                texts(owners@) == owners_below(self@.owners, id as nat),
            decreases self.next_token_id - id,
        {
            match self.owners.get(&id) {
                Some(address) => {
                    if !contains_text(owners.as_slice(), address.as_str()) {
                        owners.push(address.clone());
                    }
                },
                None => {},
            }
            id = id + 1;
        }
        owners
    }

    /// The figures that describe the collection.
    pub fn get_collection_stats(&self) -> (stats: CollectionStats)
        requires
            offset_below(self@.tokens, self@.next_token_id) <= u64::MAX,
        ensures
            stats.total_nfts == self@.tokens.len(),
            stats.total_carbon_offset == offset_below(self@.tokens, self@.next_token_id),
            stats.unique_owners == owners_below(self@.owners, self@.next_token_id).len(),
            stats.next_token_id == self@.next_token_id,
    {
        assert(self@.tokens.dom() =~= self.tokens@.dom());
        CollectionStats {
            total_nfts: self.tokens.len(),
            total_carbon_offset: self.total_carbon_offset(),
            unique_owners: self.unique_owners().len(),
            next_token_id: self.next_token_id,
        }
    }
}

} // verus!
