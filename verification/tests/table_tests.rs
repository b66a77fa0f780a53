use accrual_engine::address::{bytes32_eq, Address, AddressKind};
use accrual_engine::admin::AdminMarker;
use accrual_engine::course_completion::CourseKey;
use accrual_engine::table::{Table, TableKey};
use accrual_engine::ultrahonk::{G1Point, UltraHonkVerifier, VerificationKey};

fn alice() -> Address {
    Address::account([1u8; 32])
}

fn bob() -> Address {
    Address::account([2u8; 32])
}

#[test]
fn words_are_compared_byte_by_byte() {
    let mut word = [7u8; 32];
    assert!(bytes32_eq(&word, &[7u8; 32]));
    word[31] = 8;
    assert!(!bytes32_eq(&word, &[7u8; 32]));
    word[31] = 7;
    word[0] = 6;
    assert!(!bytes32_eq(&word, &[7u8; 32]));
}

#[test]
fn addresses_agree_in_kind_and_key() {
    assert_eq!(alice(), Address { kind: AddressKind::Account, key: [1u8; 32] });
    assert_eq!(Address::contract([1u8; 32]).kind, AddressKind::Contract);
    assert!(alice().same_as(&Address::account([1u8; 32])));
    assert!(!alice().same_as(&bob()));
    assert!(!alice().same_as(&Address::contract([1u8; 32])));
    assert!(TableKey::same(&alice(), &alice()));
    assert!(!TableKey::same(&alice(), &bob()));
}

#[test]
fn course_keys_agree_in_user_and_course() {
    let key = CourseKey { user: alice(), course_id: String::from("a") };
    assert!(key.same(&CourseKey { user: alice(), course_id: String::from("a") }));
    assert!(!key.same(&CourseKey { user: alice(), course_id: String::from("b") }));
    assert!(!key.same(&CourseKey { user: bob(), course_id: String::from("a") }));
    assert!(!key.same(&CourseKey { user: alice(), course_id: String::new() }));
}

#[test]
fn table_keeps_one_record_per_key() {
    let mut table: Table<Address, u32> = Table::new();
    assert_eq!(table.len(), 0);
    assert_eq!(table.get(&alice()), None);
    table.insert(alice(), 1);
    table.insert(bob(), 2);
    assert_eq!(table.get(&alice()), Some(&1));
    assert_eq!(table.get(&bob()), Some(&2));
    assert_eq!(table.len(), 2);
    table.insert(alice(), 3);
    assert_eq!(table.get(&alice()), Some(&3));
    assert_eq!(table.get(&bob()), Some(&2));
    assert_eq!(table.len(), 2);
    assert_eq!(table.get(&Address::contract([1u8; 32])), None);
}

#[test]
fn table_lists_its_entries() {
    let mut table: Table<Address, u32> = Table::new();
    table.insert(alice(), 1);
    table.insert(bob(), 2);
    table.insert(alice(), 3);
    let mut listed = vec![];
    for i in 0..table.len() {
        let (key, value) = table.entry(i);
        listed.push((*key, *value));
    }
    listed.sort_by_key(|entry| entry.1);
    assert_eq!(listed, vec![(bob(), 2), (alice(), 3)]);
}

#[test]
fn first_caller_becomes_admin() {
    let mut marker = AdminMarker::restore(None);
    assert_eq!(marker.get(), None);
    assert!(marker.assert_admin(&alice()));
    assert_eq!(marker.get(), Some(alice()));
    assert!(!marker.assert_admin(&bob()));
    assert_eq!(marker.get(), Some(alice()));
    assert!(marker.assert_admin(&alice()));
    assert_eq!(marker.get(), Some(alice()));
}

#[test]
fn a_recorded_admin_stays() {
    let mut marker = AdminMarker::restore(Some(bob()));
    assert!(!marker.assert_admin(&alice()));
    assert!(marker.assert_admin(&bob()));
    assert_eq!(marker.get(), Some(bob()));
}

fn point(tag: u8) -> G1Point {
    G1Point { x: [tag; 32], y: [tag.wrapping_add(1); 32] }
}

#[test]
fn ultrahonk_verifier_accepts_every_proof() {
    let vk = VerificationKey {
        circuit_size: 1 << 16,
        log_circuit_size: 16,
        public_inputs_size: 2,
        pub_inputs_offset: 1,
        qm: point(1),
        qc: point(2),
        ql: point(3),
        qr: point(4),
        qo: point(5),
        q4: point(6),
        q_lookup: point(7),
        q_arith: point(8),
        q_delta_range: point(9),
        q_elliptic: point(10),
        q_memory: point(11),
        q_nnf: point(12),
        q_poseidon2_external: point(13),
        q_poseidon2_internal: point(14),
        s1: point(15),
        s2: point(16),
        s3: point(17),
        s4: point(18),
        id1: point(19),
        id2: point(20),
        id3: point(21),
        id4: point(22),
        t1: point(23),
        t2: point(24),
        t3: point(25),
        t4: point(26),
        lagrange_first: point(27),
        lagrange_last: point(28),
    };
    let verifier = UltraHonkVerifier::new_with_vk(vk);
    assert_eq!(verifier.verify(&[], &[]), Ok(()));
    assert_eq!(verifier.verify(&[1, 2, 3], &[vec![0u8; 32], vec![]]), Ok(()));
}
