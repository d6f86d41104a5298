use libproto::hash::hash_bytes;
use libproto::Block;
use libproto::BlockBody;
use libproto::BlockHeader;
use libproto::Hash256;
use libproto::Proof;
use libproto::SignedTransaction;
use libproto::Transaction;

fn signed(nonce: &str, key_byte: u8) -> SignedTransaction {
    let sk = vec![key_byte; 32];
    let tx = Transaction::new(
        vec![1],
        nonce.to_string(),
        "123".to_string(),
        99999,
        999999999,
        vec![],
        0,
    );
    tx.sign(&sk).unwrap()
}

fn header_with_root(root: Hash256) -> BlockHeader {
    BlockHeader {
        prevhash: Hash256::zero(),
        timestamp: 7,
        height: 1,
        transactions_root: root,
        proof: Proof::new(vec![]),
    }
}

#[test]
fn transaction_hashes_preserve_body_order() {
    let a = signed("a", 10);
    let b = signed("b", 11);
    let c = signed("c", 12);
    let expected = vec![
        a.crypt_hash().bytes,
        b.crypt_hash().bytes,
        c.crypt_hash().bytes,
    ];
    let body = BlockBody { transactions: vec![a, b, c] };
    let hashes = body.transaction_hashes();
    assert_eq!(hashes.len(), 3);
    for (got, want) in hashes.iter().zip(expected.iter()) {
        assert_eq!(&got.bytes, want);
    }
}

#[test]
fn empty_body_root_is_zero_sentinel() {
    let body = BlockBody { transactions: vec![] };
    assert_eq!(body.transactions_root().bytes, vec![0u8; 32]);

    let block = Block {
        version: 0,
        header: header_with_root(Hash256::zero()),
        body: BlockBody { transactions: vec![] },
    };
    assert!(block.check_hash());

    let mut other = vec![0u8; 32];
    other[0] = 1;
    let block2 = Block {
        version: 0,
        header: header_with_root(Hash256::from_bytes(other)),
        body: BlockBody { transactions: vec![] },
    };
    assert!(!block2.check_hash());
}

#[test]
fn three_leaf_root_matches_pairwise_hashing() {
    let a = signed("a", 10);
    let b = signed("b", 11);
    let c = signed("c", 12);
    let ha = a.crypt_hash().bytes;
    let hb = b.crypt_hash().bytes;
    let hc = c.crypt_hash().bytes;
    let mut ab = ha.clone();
    ab.extend_from_slice(&hb);
    let hab = hash_bytes(&ab).bytes;
    let mut abc = hab.clone();
    abc.extend_from_slice(&hc);
    let expected = hash_bytes(&abc).bytes;

    let body = BlockBody { transactions: vec![a, b, c] };
    assert_eq!(body.transactions_root().bytes, expected);
}

#[test]
fn single_leaf_is_its_own_root() {
    let a = signed("a", 10);
    let expected = a.crypt_hash().bytes;
    let body = BlockBody { transactions: vec![a] };
    assert_eq!(body.transactions_root().bytes, expected);
}

#[test]
fn check_hash_flips_when_a_body_transaction_changes() {
    let a = signed("a", 10);
    let b = signed("b", 11);
    let body = BlockBody { transactions: vec![a, b] };
    let root = body.transactions_root();
    let block = Block { version: 0, header: header_with_root(root), body };
    assert!(block.check_hash());

    let changed = signed("changed", 12);
    let replaced = Block {
        version: 0,
        header: block.header,
        body: BlockBody {
            transactions: vec![changed, signed("b", 11)],
        },
    };
    assert!(!replaced.check_hash());
}

#[test]
fn block_verify_req_mirrors_body_order() {
    let a = signed("a", 10);
    let b = signed("b", 11);
    let expected = [
        (
            a.get_transaction_with_sig().get_transaction().crypt_hash().bytes,
            a.crypt_hash().bytes,
            a.get_signer().clone(),
            a.get_transaction_with_sig().get_signature().clone(),
        ),
        (
            b.get_transaction_with_sig().get_transaction().crypt_hash().bytes,
            b.crypt_hash().bytes,
            b.get_signer().clone(),
            b.get_transaction_with_sig().get_signature().clone(),
        ),
    ];
    let body = BlockBody { transactions: vec![a, b] };
    let root = body.transactions_root();
    let block = Block { version: 0, header: header_with_root(root), body };

    let req = block.block_verify_req(77);
    assert_eq!(req.id, 77);
    assert_eq!(req.reqs.len(), 2);
    let nonces = ["a", "b"];
    for ((r, want), nonce) in req.reqs.iter().zip(expected.iter()).zip(nonces.iter()) {
        assert_eq!(r.hash.bytes, want.0);
        assert_eq!(r.tx_hash.bytes, want.1);
        assert_eq!(r.signer.as_ref().unwrap(), &want.2);
        assert_eq!(&r.signature, &want.3);
        assert_eq!(&r.nonce, nonce);
        assert_eq!(r.quota, 999999999);
        assert_eq!(r.valid_until_block, 99999);
        assert_eq!(r.chain_id, 0);
    }
}

#[test]
fn tx_verify_req_leaves_signer_unset() {
    let sk = vec![9u8; 32];
    let tx = Transaction::new(
        vec![1, 2],
        "n".to_string(),
        "".to_string(),
        5,
        6,
        vec![7],
        8,
    );
    let unverified = tx.build_unverified(&sk).unwrap();
    let req = unverified.tx_verify_req_msg();
    assert!(req.signer.is_none());
    assert_eq!(req.hash.bytes, tx.crypt_hash().bytes);
    assert_eq!(req.tx_hash.bytes, unverified.crypt_hash().bytes);
    assert_eq!(req.nonce, "n");
    assert_eq!(req.value, vec![7]);
    assert_eq!(req.chain_id, 8);
    assert_eq!(req.quota, 6);
    assert_eq!(req.valid_until_block, 5);
    assert_eq!(&req.signature, unverified.get_signature());
}

#[test]
fn header_hash_hex_renders_the_header_hash() {
    let header = header_with_root(Hash256::zero());
    let hash = header.crypt_hash();
    let mut expected = String::new();
    for byte in hash.bytes.iter() {
        expected.push_str(&format!("{:02x}", byte));
    }
    assert_eq!(header.crypt_hash_hex(), expected);

    let block = Block {
        version: 0,
        header,
        body: BlockBody { transactions: vec![] },
    };
    assert_eq!(block.crypt_hash_hex(), expected);
    assert_eq!(block.crypt_hash().bytes, hash.bytes);
}

#[test]
fn keccak_digest_matches_known_value() {
    // keccak-256 of the empty input.
    let expected = "c5d2460186f7233c927e7db2dcc703c0e500b653ca82273b7bfad8045d85a470";
    let got = hash_bytes(&[]).bytes;
    let mut rendered = String::new();
    for byte in got.iter() {
        rendered.push_str(&format!("{:02x}", byte));
    }
    assert_eq!(rendered, expected);
}
