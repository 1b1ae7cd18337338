use std::collections::HashSet;
use tower_batch::bctv14::Bctv14Proof;
use tower_batch::notes::NoteCommitmentRandomness;
use tower_batch::request::{BlockHeaderHash, Nonce, Request};

#[test]
fn proof_shows_its_bytes_in_hex() {
    let mut bytes = [0u8; 296];
    bytes[0] = 0x01;
    bytes[1] = 0xab;
    bytes[2] = 0xf0;
    bytes[295] = 0x7e;
    let shown = Bctv14Proof(bytes).debug();
    assert!(shown.starts_with("Bctv14Proof(\"01abf000"));
    assert!(shown.ends_with("007e\")"));
    assert_eq!(shown.len(), "Bctv14Proof(\"".len() + 2 * 296 + "\")".len());
}

#[test]
fn proof_of_zeroes_shows_zero_digits() {
    let shown = Bctv14Proof([0u8; 296]).debug();
    assert_eq!(shown, format!("Bctv14Proof(\"{}\")", "00".repeat(296)));
}

#[test]
fn proofs_are_equal_when_all_bytes_are() {
    let mut bytes = [7u8; 296];
    let proof = Bctv14Proof(bytes);
    assert!(proof == Bctv14Proof(bytes));
    assert!(proof == proof.clone());
    bytes[295] = 8;
    assert!(proof != Bctv14Proof(bytes));
    bytes[295] = 7;
    bytes[0] = 0;
    assert!(proof != Bctv14Proof(bytes));
}

#[test]
fn proof_clone_keeps_every_byte() {
    let mut bytes = [0u8; 296];
    for (at, byte) in bytes.iter_mut().enumerate() {
        *byte = (at % 251) as u8;
    }
    let copy = Bctv14Proof(bytes).clone();
    assert_eq!(copy.0.to_vec(), bytes.to_vec());
}

#[test]
fn randomness_compares_by_its_bytes() {
    let one = NoteCommitmentRandomness([3u8; 32]);
    let same = one;
    assert_eq!(one, same.clone());
    assert_ne!(one, NoteCommitmentRandomness([4u8; 32]));
    assert_eq!(format!("{:?}", NoteCommitmentRandomness([0u8; 32])).len(), 122);
}

#[test]
fn request_clone_asks_for_the_same() {
    let first = BlockHeaderHash([1u8; 32]);
    let second = BlockHeaderHash([2u8; 32]);
    assert!(matches!(Request::Peers.clone(), Request::Peers));
    match Request::Ping(Nonce(77)).clone() {
        Request::Ping(nonce) => assert_eq!(nonce, Nonce(77)),
        _ => panic!("a ping stays a ping"),
    }
    let mut hashes = HashSet::new();
    hashes.insert(first);
    hashes.insert(second);
    hashes.insert(first);
    match Request::BlocksByHash(hashes.clone()).clone() {
        Request::BlocksByHash(copy) => {
            assert_eq!(copy, hashes);
            assert_eq!(copy.len(), 2);
        }
        _ => panic!("a request for blocks stays one"),
    }
    let request = Request::FindBlocks { known_blocks: vec![second, first], stop: Some(first) };
    match request.clone() {
        Request::FindBlocks { known_blocks, stop } => {
            assert_eq!(known_blocks, vec![second, first]);
            assert_eq!(stop, Some(first));
        }
        _ => panic!("a search for blocks stays one"),
    }
    match (Request::FindBlocks { known_blocks: vec![], stop: None }).clone() {
        Request::FindBlocks { known_blocks, stop } => {
            assert!(known_blocks.is_empty());
            assert_eq!(stop, None);
        }
        _ => panic!("a search for blocks stays one"),
    }
}
