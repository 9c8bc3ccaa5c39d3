use bitnun::contracts::BitnunNFT;

fn collection() -> BitnunNFT {
    let mut nft = BitnunNFT::new();
    assert_eq!(nft.mint("alice", "One", "first", "img1", 1000), 1);
    assert_eq!(nft.mint("bob", "Two", "second", "img2", 2000), 2);
    assert_eq!(nft.mint("alice", "Three", "third", "img3", 3000), 3);
    nft
}

#[test]
fn new_collection_is_empty() {
    let nft = BitnunNFT::new();
    assert_eq!(nft.name, "Bitnun Sustainable NFT");
    assert_eq!(nft.symbol, "BNFT");
    assert_eq!(nft.next_token_id, 1);
    assert_eq!(nft.carbon_offset_per_nft, 100);
    assert!(nft.tokens.is_empty());
    assert!(nft.owners.is_empty());
    assert!(nft.approved.is_empty());
    assert!(nft.operator_approvals.is_empty());
    assert_eq!(nft.total_carbon_offset(), 0);
    assert!(nft.tokens_by_owner("alice").is_empty());
    let stats = nft.get_collection_stats();
    assert_eq!(stats.total_nfts, 0);
    assert_eq!(stats.unique_owners, 0);
    assert_eq!(stats.next_token_id, 1);
}

#[test]
fn mint_records_metadata_and_owner() {
    let nft = collection();
    assert_eq!(nft.next_token_id, 4);
    let metadata = nft.token_metadata(2).unwrap();
    assert_eq!(metadata.token_id, 2);
    assert_eq!(metadata.name, "Two");
    assert_eq!(metadata.description, "second");
    assert_eq!(metadata.image, "img2");
    assert_eq!(metadata.carbon_offset, 100);
    assert_eq!(metadata.minted_at, 2000);
    assert_eq!(metadata.creator, "bob");
    let attributes: Vec<(String, String)> =
        metadata.attributes.iter().map(|a| (a.key.clone(), a.value.clone())).collect();
    assert_eq!(
        attributes,
        vec![
            ("sustainability".to_string(), "carbon-negative".to_string()),
            ("blockchain".to_string(), "bitnun".to_string()),
            ("token_standard".to_string(), "BNFT-721".to_string()),
        ]
    );
    assert_eq!(nft.owner_of(2), Some("bob".to_string()));
    assert_eq!(nft.owner_of(4), None);
    assert!(nft.token_metadata(0).is_none());
}

#[test]
fn the_owner_may_transfer() {
    let mut nft = collection();
    assert!(nft.transfer("alice", "carol", 1));
    assert_eq!(nft.owner_of(1), Some("carol".to_string()));
    assert!(!nft.transfer("alice", "dave", 1));
    assert!(!nft.transfer("alice", "dave", 2));
    assert!(!nft.transfer("alice", "dave", 9));
    assert_eq!(nft.owner_of(2), Some("bob".to_string()));
}

#[test]
fn the_approved_address_may_transfer_once() {
    let mut nft = collection();
    assert!(!nft.approve("bob", "carol", 1));
    assert!(!nft.approve("alice", "carol", 9));
    assert_eq!(nft.get_approved(1), None);
    assert!(nft.approve("alice", "carol", 1));
    assert_eq!(nft.get_approved(1), Some("carol".to_string()));
    assert!(nft.is_approved_or_owner("carol", 1));
    assert!(!nft.is_approved_or_owner("carol", 3));
    assert!(nft.transfer("carol", "dave", 1));
    assert_eq!(nft.owner_of(1), Some("dave".to_string()));
    assert_eq!(nft.get_approved(1), None);
    assert!(!nft.transfer("carol", "carol", 1));
}

#[test]
fn an_operator_may_transfer_all_tokens_of_the_owner() {
    let mut nft = collection();
    assert!(!nft.is_approved_for_all("alice", "op"));
    nft.set_approval_for_all("alice", "op", true);
    nft.set_approval_for_all("bob", "other", true);
    assert!(nft.is_approved_for_all("alice", "op"));
    assert!(!nft.is_approved_for_all("alice", "other"));
    assert!(!nft.is_approved_for_all("op", "alice"));
    assert!(nft.transfer("op", "carol", 1));
    assert!(nft.is_approved_or_owner("op", 3));
    assert!(!nft.is_approved_or_owner("op", 1));
    assert!(!nft.is_approved_or_owner("op", 2));
    nft.set_approval_for_all("alice", "op", false);
    assert!(!nft.is_approved_for_all("alice", "op"));
    assert!(!nft.transfer("op", "carol", 3));
    assert_eq!(nft.operator_approvals.len(), 2);
}

#[test]
fn tokens_by_owner_are_listed_in_ascending_order() {
    let mut nft = collection();
    assert_eq!(nft.tokens_by_owner("alice"), vec![1, 3]);
    assert_eq!(nft.tokens_by_owner("bob"), vec![2]);
    assert!(nft.tokens_by_owner("carol").is_empty());
    assert!(nft.transfer("bob", "alice", 2));
    assert_eq!(nft.tokens_by_owner("alice"), vec![1, 2, 3]);
    assert!(nft.tokens_by_owner("bob").is_empty());
}

#[test]
fn collection_stats_count_tokens_owners_and_offset() {
    let mut nft = collection();
    assert_eq!(nft.total_carbon_offset(), 300);
    assert_eq!(nft.unique_owners(), vec!["alice".to_string(), "bob".to_string()]);
    let stats = nft.get_collection_stats();
    assert_eq!(stats.total_nfts, 3);
    assert_eq!(stats.total_carbon_offset, 300);
    assert_eq!(stats.unique_owners, 2);
    assert_eq!(stats.next_token_id, 4);
    nft.carbon_offset_per_nft = 7;
    nft.mint("carol", "Four", "fourth", "img4", 4000);
    assert_eq!(nft.total_carbon_offset(), 307);
    assert_eq!(nft.get_collection_stats().unique_owners, 3);
    assert!(nft.transfer("bob", "alice", 2));
    assert_eq!(nft.get_collection_stats().unique_owners, 2);
}
