use proposal_registry::identity::{is_among, Identity, MAX_IDENTITY_LEN};
use proposal_registry::proposal::{Choice, CreateProposal, Proposal};
use proposal_registry::store::{ProposalStore, RecordTooLarge, PROPOSAL_MEMORY};
use proposal_registry::tree::MAX_VALUE_SIZE;

fn who(bytes: &[u8]) -> Identity {
    Identity::new(bytes.to_vec()).expect("an identity of at most 29 bytes")
}

fn sample() -> Proposal {
    Proposal {
        description: "raise the bridge".to_string(),
        approve: 3,
        reject: 1,
        pass: 2,
        is_active: true,
        voted: vec![who(&[1]), who(&[2, 2]), who(&[]), who(&[4; 29]), who(&[5]), who(&[6])],
        owner: who(&[7, 7, 7]),
    }
}

#[test]
fn limits_are_as_documented() {
    assert_eq!(MAX_VALUE_SIZE, 5000);
    assert_eq!(MAX_IDENTITY_LEN, 29);
    assert_eq!(PROPOSAL_MEMORY, 0);
}

#[test]
fn identity_holds_at_most_29_bytes() {
    assert!(Identity::new(vec![]).is_some());
    assert!(Identity::new(vec![0; 29]).is_some());
    assert!(Identity::new(vec![0; 30]).is_none());
    let id = who(&[1, 2, 3]);
    assert_eq!(id.as_bytes(), &vec![1, 2, 3]);
    assert_eq!(id.duplicate(), id);
}

#[test]
fn identities_are_compared_byte_for_byte() {
    assert!(who(&[1, 2]).same(&who(&[1, 2])));
    assert!(!who(&[1, 2]).same(&who(&[1, 3])));
    assert!(!who(&[1, 2]).same(&who(&[1])));
    assert!(!who(&[1]).same(&who(&[1, 0])));
    assert!(who(&[]).same(&who(&[])));
    let voters = vec![who(&[1]), who(&[2, 0])];
    assert!(is_among(&voters, &who(&[2, 0])));
    assert!(!is_among(&voters, &who(&[2])));
    assert!(!is_among(&vec![], &who(&[2])));
}

#[test]
fn record_changes_touch_only_their_fields() {
    let made = Proposal::create(
        who(&[1]),
        CreateProposal { description: "a".to_string(), is_active: true },
    );
    assert_eq!(
        made,
        Proposal {
            description: "a".to_string(),
            approve: 0,
            reject: 0,
            pass: 0,
            is_active: true,
            voted: vec![],
            owner: who(&[1]),
        }
    );
    let edited = sample().edit(CreateProposal { description: "b".to_string(), is_active: false });
    assert_eq!(edited, Proposal { description: "b".to_string(), is_active: false, ..sample() });
    assert_eq!(sample().end(), Proposal { is_active: false, ..sample() });
    assert_eq!(sample().tally_of(Choice::Approve), 3);
    assert_eq!(sample().tally_of(Choice::Reject), 1);
    assert_eq!(sample().tally_of(Choice::Pass), 2);
    let mut voters = sample().voted;
    voters.push(who(&[9]));
    assert_eq!(
        sample().record_vote(who(&[9]), Choice::Approve),
        Proposal { approve: 4, voted: voters.clone(), ..sample() }
    );
    assert_eq!(
        sample().record_vote(who(&[9]), Choice::Reject),
        Proposal { reject: 2, voted: voters.clone(), ..sample() }
    );
    assert_eq!(
        sample().record_vote(who(&[9]), Choice::Pass),
        Proposal { pass: 3, voted: voters, ..sample() }
    );
}

#[test]
fn encoding_is_the_candid_message_of_the_fields() {
    let empty = Proposal {
        description: String::new(),
        approve: 0,
        reject: 0,
        pass: 0,
        is_active: false,
        voted: vec![],
        owner: who(&[]),
    };
    let expected: Vec<u8> = vec![
        b'D', b'I', b'D', b'L', // magic
        1, 0x6d, 0x68, // one type: vec principal
        7, 0x71, 0x79, 0x79, 0x79, 0x7e, 0, 0x68, // text, nat32 x 3, bool, type 0, principal
        0, // description
        0, 0, 0, 0, 0, 0, 0, 0, 0, 0, 0, 0, // tallies
        0, // is_active
        0, // voted
        1, 0, // owner
    ];
    assert_eq!(empty.to_bytes(), expected);

    let small = Proposal {
        description: "hi".to_string(),
        approve: 1,
        reject: 0x0102,
        pass: u32::MAX,
        is_active: true,
        voted: vec![who(&[0xaa])],
        owner: who(&[0xbb, 0xcc]),
    };
    let expected: Vec<u8> = vec![
        b'D', b'I', b'D', b'L', 1, 0x6d, 0x68, 7, 0x71, 0x79, 0x79, 0x79, 0x7e, 0, 0x68, //
        2, b'h', b'i', //
        1, 0, 0, 0, 2, 1, 0, 0, 0xff, 0xff, 0xff, 0xff, //
        1, //
        1, 1, 1, 0xaa, //
        1, 2, 0xbb, 0xcc,
    ];
    assert_eq!(small.to_bytes(), expected);
}

#[test]
fn encoding_decodes_to_the_same_record() {
    let record = sample();
    let bytes = record.to_bytes();
    assert_ne!(bytes.len(), 0);
    assert_eq!(Proposal::from_bytes(&bytes), Some(record));
    let odd = Proposal { description: "héllo ✓ \u{0}".to_string(), ..sample() };
    assert_eq!(Proposal::from_bytes(&odd.to_bytes()), Some(odd));
}

#[test]
fn bytes_that_are_no_record_decode_to_none() {
    assert_eq!(Proposal::from_bytes(&vec![]), None);
    assert_eq!(Proposal::from_bytes(&vec![1, 2, 3]), None);
    assert_eq!(Proposal::from_bytes(&b"DIDL".to_vec()), None);
    let mut cut = sample().to_bytes();
    cut.pop();
    assert_eq!(Proposal::from_bytes(&cut), None);
    let mut more = sample().to_bytes();
    more.push(0);
    assert_eq!(Proposal::from_bytes(&more), None);
}

#[test]
fn fits_goes_by_the_encoded_length() {
    // text, tallies, flag, voters and a one-byte owner take 34 bytes beside the description
    let at_limit = Proposal {
        description: "d".repeat(4966),
        approve: 0,
        reject: 0,
        pass: 0,
        is_active: true,
        voted: vec![],
        owner: who(&[1]),
    };
    assert_eq!(at_limit.to_bytes().len(), 5000);
    assert!(at_limit.fits());
    let over = Proposal { description: "d".repeat(4967), ..at_limit };
    assert_eq!(over.to_bytes().len(), 5001);
    assert!(!over.fits());
    assert!(sample().fits());
}

#[test]
fn put_then_get_gives_the_record_back() {
    let mut store = ProposalStore::init();
    assert!(store.is_sound());
    let record = sample();
    assert_eq!(store.put(11, &record), None);
    assert_eq!(store.get(11), Some(sample()));
    assert_eq!(store.get(12), None);
    assert_eq!(store.count(), 1);
    let other = Proposal { description: "lower the river".to_string(), ..sample() };
    assert_eq!(store.put(11, &other), Some(sample()));
    assert_eq!(store.get(11), Some(other));
    assert_eq!(store.count(), 1);
    assert!(store.is_sound());
}

#[test]
fn try_put_refuses_a_record_that_is_too_large() {
    let mut store = ProposalStore::init();
    let large = Proposal { description: "z".repeat(5000), ..sample() };
    assert_eq!(store.try_put(1, &large), Err(RecordTooLarge));
    assert_eq!(store.get(1), None);
    assert_eq!(store.count(), 0);
    assert_eq!(store.try_put(1, &sample()), Ok(None));
    assert_eq!(store.try_put(1, &large), Err(RecordTooLarge));
    assert_eq!(store.get(1), Some(sample()));
    assert_eq!(store.try_put(1, &sample()), Ok(Some(sample())));
}

#[test]
fn a_record_of_the_largest_size_is_stored() {
    let mut store = ProposalStore::init();
    let at_limit = Proposal {
        description: "d".repeat(4966),
        approve: 0,
        reject: 0,
        pass: 0,
        is_active: true,
        voted: vec![],
        owner: who(&[1]),
    };
    assert_eq!(store.try_put(1, &at_limit), Ok(None));
    assert_eq!(store.get(1), Some(at_limit));
}

#[test]
fn keys_come_in_ascending_order() {
    let mut store = ProposalStore::init();
    assert_eq!(store.keys(), Vec::<u64>::new());
    for key in [5u64, 1, u64::MAX, 3, 0, 1] {
        store.put(key, &sample());
    }
    assert_eq!(store.keys(), vec![0, 1, 3, 5, u64::MAX]);
    assert_eq!(store.count(), 5);
    assert!(store.is_sound());
}

#[test]
fn many_records_are_kept_apart() {
    let mut store = ProposalStore::init();
    for key in 0..200u64 {
        let record = Proposal { approve: key as u32, ..sample() };
        assert_eq!(store.put(key * 3, &record), None);
    }
    assert_eq!(store.count(), 200);
    for key in 0..200u64 {
        assert_eq!(store.get(key * 3).unwrap().approve, key as u32);
        assert_eq!(store.get(key * 3 + 1), None);
    }
    assert!(store.is_sound());
}
