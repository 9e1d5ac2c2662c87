//! Anchor construction, witness resolution, and the compaction/expansion
//! round trip against real MPC Merkle structures.

use amplify::confinement::Confined;
use bp::dbc::opret::OpretProof;
use bp::dbc::tapret::{TapretPathProof, TapretProof};
use bp::InternalPk;
use commit_verify::mpc;
use commit_verify::TryCommitVerify;
use rgb_core::anchor::{Anchor, AnchorSet, InvalidProof, LeafNotKnown, WitnessAnchor};
use rgb_core::anchor::compact_expand_compact;
use rgb_core::seal::{WitnessOrd, WitnessPos};
use rgb_core::xchain::XChain;
use rgb_core::{BundleId, ContractId, Txid};

fn txid(n: u64) -> Txid {
    Txid { w0: n, w1: 0, w2: 0, w3: 0 }
}

/// The x coordinate of the secp256k1 generator point: a valid x-only key.
const GENERATOR_X: [u8; 32] = [
    0x79, 0xBE, 0x66, 0x7E, 0xF9, 0xDC, 0xBB, 0xAC, 0x55, 0xA0, 0x62, 0x95, 0xCE, 0x87, 0x0B,
    0x07, 0x02, 0x9B, 0xFC, 0xDB, 0x2D, 0xCE, 0x28, 0xD9, 0x59, 0xF2, 0x81, 0x5B, 0x16, 0xF8,
    0x17, 0x98,
];

fn tapret_proof() -> TapretProof {
    TapretProof {
        path_proof: TapretPathProof::root(1),
        internal_pk: InternalPk::from_byte_array(GENERATOR_X).expect("valid x-only key"),
    }
}

fn contract_words(bytes: [u8; 32]) -> ContractId {
    let w = |s: &[u8]| u64::from_be_bytes(s.try_into().unwrap());
    ContractId { w0: w(&bytes[..8]), w1: w(&bytes[8..16]), w2: w(&bytes[16..24]), w3: w(&bytes[24..]) }
}

fn bundle_words(bytes: [u8; 32]) -> BundleId {
    let w = |s: &[u8]| u64::from_be_bytes(s.try_into().unwrap());
    BundleId { w0: w(&bytes[..8]), w1: w(&bytes[8..16]), w2: w(&bytes[16..24]), w3: w(&bytes[24..]) }
}

/// A block-level MPC structure committing one contract's bundle.
fn merkle_block(contract: [u8; 32], bundle: [u8; 32]) -> mpc::MerkleBlock {
    let messages = Confined::try_from_iter([(
        mpc::ProtocolId::from(contract),
        mpc::Message::from(bundle),
    )])
    .expect("one message fits");
    let source = mpc::MultiSource {
        method: mpc::Method::Sha256t,
        min_depth: mpc::MPC_MINIMAL_DEPTH,
        messages,
        static_entropy: Some(42),
    };
    let tree = mpc::MerkleTree::try_commit(&source).expect("commitment succeeds");
    mpc::MerkleBlock::from(&tree)
}

#[test]
fn from_split_none_none_is_undefined() {
    let r: Option<AnchorSet<mpc::MerkleProof>> = AnchorSet::from_split(None, None);
    assert!(r.is_none());
}

#[test]
fn from_split_single_and_dual_shapes() {
    let block = merkle_block([1; 32], [2; 32]);
    let t = Anchor { txid: txid(1), mpc_proof: block.clone(), dbc_proof: tapret_proof() };
    let o = Anchor { txid: txid(1), mpc_proof: block, dbc_proof: OpretProof::default() };

    match AnchorSet::from_split(Some(t.clone()), None) {
        Some(AnchorSet::Tapret(a)) => assert_eq!(a.txid, txid(1)),
        _ => panic!("single tapret input must give the tapret variant"),
    }
    match AnchorSet::from_split(None, Some(o.clone())) {
        Some(AnchorSet::Opret(a)) => assert_eq!(a.txid, txid(1)),
        _ => panic!("single opret input must give the opret variant"),
    }
    match AnchorSet::from_split(Some(t), Some(o)) {
        Some(AnchorSet::Dual { tapret, opret }) => {
            assert_eq!(tapret.txid, txid(1));
            assert_eq!(opret.txid, txid(1));
        },
        _ => panic!("two inputs must give the dual variant"),
    }
}

#[test]
fn split_accessors_mirror_the_variant() {
    let block = merkle_block([1; 32], [2; 32]);
    let set = AnchorSet::Dual {
        tapret: Anchor { txid: txid(3), mpc_proof: block.clone(), dbc_proof: tapret_proof() },
        opret: Anchor { txid: txid(4), mpc_proof: block, dbc_proof: OpretProof::default() },
    };
    let (t, o) = set.as_split();
    assert_eq!(t.expect("tapret present").txid, txid(3));
    assert_eq!(o.expect("opret present").txid, txid(4));
    assert_eq!(set.mpc_proofs().len(), 2);
    let (t, o) = set.into_split();
    assert_eq!(t.expect("tapret present").txid, txid(3));
    assert_eq!(o.expect("opret present").txid, txid(4));
}

#[test]
fn dual_txid_ambiguity() {
    let block = merkle_block([1; 32], [2; 32]);
    let agreeing = AnchorSet::Dual {
        tapret: Anchor { txid: txid(5), mpc_proof: block.clone(), dbc_proof: tapret_proof() },
        opret: Anchor { txid: txid(5), mpc_proof: block.clone(), dbc_proof: OpretProof::default() },
    };
    assert_eq!(agreeing.txid(), Some(txid(5)));
    let disagreeing = AnchorSet::Dual {
        tapret: Anchor { txid: txid(5), mpc_proof: block.clone(), dbc_proof: tapret_proof() },
        opret: Anchor { txid: txid(6), mpc_proof: block, dbc_proof: OpretProof::default() },
    };
    assert_eq!(disagreeing.txid(), None);
    assert_eq!(disagreeing.txid_unchecked(), txid(5));

    let anchor = XChain::Bitcoin(disagreeing);
    assert_eq!(anchor.witness_id(), None);
    assert_eq!(anchor.witness_id_unchecked(), XChain::Bitcoin(txid(5)));
}

#[test]
fn witness_id_carries_the_layer() {
    let block = merkle_block([1; 32], [2; 32]);
    let set = AnchorSet::Opret(Anchor {
        txid: txid(9),
        mpc_proof: block,
        dbc_proof: OpretProof::default(),
    });
    let anchor = XChain::Liquid(set);
    assert_eq!(anchor.witness_id(), Some(XChain::Liquid(txid(9))));
}

#[test]
fn known_bundle_ids_enumerates_the_committed_leaf() {
    let contract = [7u8; 32];
    let bundle = [8u8; 32];
    let set = AnchorSet::Opret(Anchor {
        txid: txid(1),
        mpc_proof: merkle_block(contract, bundle),
        dbc_proof: OpretProof::default(),
    });
    let ids = set.known_bundle_ids();
    assert_eq!(ids.len(), 1);
    assert_eq!(ids[0], (bundle_words(bundle), contract_words(contract)));
}

#[test]
fn compaction_round_trip_is_idempotent() {
    let contract = [7u8; 32];
    let bundle = [8u8; 32];
    let set = AnchorSet::Dual {
        tapret: Anchor {
            txid: txid(1),
            mpc_proof: merkle_block(contract, bundle),
            dbc_proof: tapret_proof(),
        },
        opret: Anchor {
            txid: txid(1),
            mpc_proof: merkle_block(contract, bundle),
            dbc_proof: OpretProof::default(),
        },
    };
    let pair = compact_expand_compact(&set, contract_words(contract), bundle_words(bundle))
        .expect("the leaf is committed");
    match (pair.0, pair.1) {
        (
            AnchorSet::Dual { tapret: t1, opret: o1 },
            AnchorSet::Dual { tapret: t2, opret: o2 },
        ) => {
            assert_eq!(t1.mpc_proof, t2.mpc_proof);
            assert_eq!(o1.mpc_proof, o2.mpc_proof);
            assert_eq!(t1.txid, t2.txid);
            assert_eq!(o1.txid, o2.txid);
        },
        _ => panic!("both compactions must keep the dual shape"),
    }
}

#[test]
fn compaction_of_unknown_leaf_fails() {
    let set = AnchorSet::Opret(Anchor {
        txid: txid(1),
        mpc_proof: merkle_block([7; 32], [8; 32]),
        dbc_proof: OpretProof::default(),
    });
    let missing = contract_words([9; 32]);
    assert_eq!(set.to_merkle_proof(missing).err(), Some(LeafNotKnown));
}

#[test]
fn expansion_with_wrong_identity_fails() {
    let contract = [7u8; 32];
    let bundle = [8u8; 32];
    let block = merkle_block(contract, bundle);
    // Pick a wrong contract id that the tree places at another position.
    let mut wrong = [9u8; 32];
    wrong[31] = 1;
    assert_ne!(
        block.protocol_id_pos(mpc::ProtocolId::from(wrong)),
        block.protocol_id_pos(mpc::ProtocolId::from(contract)),
        "the wrong id must map to a different leaf position",
    );
    let set = AnchorSet::Opret(Anchor {
        txid: txid(1),
        mpc_proof: block,
        dbc_proof: OpretProof::default(),
    });
    let compact = set.to_merkle_proof(contract_words(contract)).expect("leaf known");
    let expanded = compact.to_merkle_block(contract_words(wrong), bundle_words(bundle));
    assert_eq!(expanded.err(), Some(InvalidProof));
}

#[test]
fn expanded_anchor_reveals_the_supplied_leaf() {
    let contract = [7u8; 32];
    let bundle = [8u8; 32];
    let set = AnchorSet::Opret(Anchor {
        txid: txid(1),
        mpc_proof: merkle_block(contract, bundle),
        dbc_proof: OpretProof::default(),
    });
    let anchor = XChain::Bitcoin(set);
    let compact = anchor.to_merkle_proof(contract_words(contract)).expect("leaf known");
    let expanded = compact
        .to_merkle_block(contract_words(contract), bundle_words(bundle))
        .expect("identity matches");
    let ids = expanded.known_bundle_ids();
    assert_eq!(ids, vec![(bundle_words(bundle), contract_words(contract))]);
}

#[test]
fn witness_order_offchain_below_onchain() {
    let a = WitnessAnchor {
        witness_ord: WitnessOrd::OffChain,
        witness_id: XChain::Bitcoin(txid(100)),
    };
    let b = WitnessAnchor {
        witness_ord: WitnessOrd::OnChain(WitnessPos { height: 1 }),
        witness_id: XChain::Bitcoin(txid(1)),
    };
    assert_eq!(a.cmp(&b), std::cmp::Ordering::Less);
    assert_eq!(b.cmp(&a), std::cmp::Ordering::Greater);
    assert_eq!(a.partial_cmp(&b), Some(std::cmp::Ordering::Less));
}

#[test]
fn witness_order_is_total() {
    let ids = [XChain::Bitcoin(txid(1)), XChain::Bitcoin(txid(2)), XChain::Liquid(txid(1))];
    let ords = [
        WitnessOrd::Invalidated,
        WitnessOrd::OffChain,
        WitnessOrd::OnChain(WitnessPos { height: 4 }),
        WitnessOrd::OnChain(WitnessPos { height: 9 }),
    ];
    let mut all = Vec::new();
    for id in ids {
        for ord in ords {
            all.push(WitnessAnchor { witness_ord: ord, witness_id: id });
        }
    }
    for x in &all {
        for y in &all {
            let xy = x.cmp(y);
            let yx = y.cmp(x);
            assert_eq!(xy == std::cmp::Ordering::Equal, x == y);
            assert_eq!(xy.reverse(), yx);
        }
    }
}

#[test]
fn witness_order_breaks_ties_by_id() {
    let low = WitnessAnchor {
        witness_ord: WitnessOrd::OnChain(WitnessPos { height: 7 }),
        witness_id: XChain::Bitcoin(txid(1)),
    };
    let high = WitnessAnchor {
        witness_ord: WitnessOrd::OnChain(WitnessPos { height: 7 }),
        witness_id: XChain::Bitcoin(txid(2)),
    };
    assert_eq!(low.cmp(&high), std::cmp::Ordering::Less);
    let other_layer = WitnessAnchor {
        witness_ord: WitnessOrd::OnChain(WitnessPos { height: 7 }),
        witness_id: XChain::Liquid(txid(1)),
    };
    assert_eq!(low.cmp(&other_layer), std::cmp::Ordering::Less);
}

#[test]
fn from_mempool_builds_an_offchain_anchor() {
    let wa = WitnessAnchor::from_mempool(XChain::Bitcoin(txid(3)));
    assert_eq!(wa.witness_ord, WitnessOrd::OffChain);
    assert_eq!(wa.witness_id, XChain::Bitcoin(txid(3)));
}

#[test]
fn anchored_bundle_exposes_its_bundle_id() {
    let contract = [7u8; 32];
    let bundle = [8u8; 32];
    let set = AnchorSet::Opret(Anchor {
        txid: txid(1),
        mpc_proof: merkle_block(contract, bundle),
        dbc_proof: OpretProof::default(),
    });
    let compact = set.to_merkle_proof(contract_words(contract)).expect("leaf known");
    let anchored = rgb_core::anchor::AnchoredBundle {
        anchor: XChain::Bitcoin(compact),
        bundle: rgb_core::anchor::TransitionBundle { bundle_id: bundle_words(bundle) },
    };
    assert_eq!(anchored.bundle_id(), bundle_words(bundle));
}
