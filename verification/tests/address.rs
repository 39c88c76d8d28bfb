use ecobottle::{
    CollectContainer, Initialize, ProcessDeposit, Pubkey, RecordId, RedeemTokens,
    RegisterContainer, RegisterUser,
};
use ecobottle::{GlobalState, SmartContainer, UserProfile};

fn key(tag: u8) -> Pubkey {
    Pubkey { bytes: [tag; 32] }
}

fn program() -> Pubkey {
    let mut bytes = [0u8; 32];
    for (i, byte) in bytes.iter_mut().enumerate() {
        *byte = (i as u8) * 7 + 3;
    }
    Pubkey { bytes }
}

fn outside(key: &Pubkey) -> anchor_lang::prelude::Pubkey {
    anchor_lang::prelude::Pubkey::new_from_array(key.bytes)
}

fn global() -> GlobalState {
    GlobalState {
        authority: key(1),
        ecoc_per_kg: 10,
        min_deposit_weight: 50,
        total_pet_collected: 0,
        total_deposits: 258,
        total_users: 0,
        total_containers: 0,
        bump: 255,
    }
}

fn profile() -> UserProfile {
    UserProfile {
        owner: key(2),
        username: String::from("ana"),
        total_deposits: 0,
        total_pet_weight: 0,
        total_ecoc_earned: 0,
        total_ecoc_spent: 77,
        created_at: 0,
        bump: 0,
    }
}

fn container() -> SmartContainer {
    SmartContainer {
        container_id: String::from("bin-1"),
        location: String::from("plaza"),
        authority: key(1),
        capacity_kg: 5,
        current_weight: 0,
        total_deposits: 9,
        is_active: true,
        created_at: 0,
        last_collection: 0,
        bump: 0,
    }
}

#[test]
fn seeds_are_the_tag_and_then_what_tells_the_record_apart() {
    assert_eq!(RecordId::GlobalState.seeds(), vec![b"global_state".to_vec()]);
    assert_eq!(
        RecordId::UserProfile { user: key(2) }.seeds(),
        vec![b"user_profile".to_vec(), vec![2u8; 32]]
    );
    assert_eq!(
        RecordId::Container { container_id: String::from("bin-1") }.seeds(),
        vec![b"container".to_vec(), b"bin-1".to_vec()]
    );
    assert_eq!(
        RecordId::Deposit { user: key(2), sequence: 258 }.seeds(),
        vec![b"deposit".to_vec(), vec![2u8; 32], vec![2, 1, 0, 0, 0, 0, 0, 0]]
    );
    assert_eq!(
        RecordId::Redemption { user: key(2), sequence: u64::MAX }.seeds(),
        vec![b"redemption".to_vec(), vec![2u8; 32], vec![255u8; 8]]
    );
    assert_eq!(
        RecordId::Collection { container: key(3), sequence: 0x0102030405060708 }.seeds(),
        vec![b"collection".to_vec(), vec![3u8; 32], vec![8, 7, 6, 5, 4, 3, 2, 1]]
    );
}

#[test]
fn container_id_goes_into_the_seed_as_its_utf8_bytes() {
    assert_eq!(
        RecordId::Container { container_id: String::from("niño") }.seeds(),
        vec![b"container".to_vec(), vec![b'n', b'i', 0xc3, 0xb1, b'o']]
    );
    assert_eq!(
        RecordId::Container { container_id: String::new() }.seeds(),
        vec![b"container".to_vec(), vec![]]
    );
}

#[test]
fn address_is_the_program_derived_address_of_the_seeds() {
    let user = key(2);
    let (expected, bump) = anchor_lang::prelude::Pubkey::find_program_address(
        &[b"user_profile", &user.bytes],
        &outside(&program()),
    );
    let derived = RecordId::UserProfile { user }.address(&program());
    assert_eq!(derived, Some((Pubkey { bytes: expected.to_bytes() }, bump)));
    assert_ne!(derived.unwrap().0, program());
    assert_ne!(derived.unwrap().0, user);

    let (expected, bump) = anchor_lang::prelude::Pubkey::find_program_address(
        &[b"global_state"],
        &outside(&program()),
    );
    assert_eq!(
        RecordId::GlobalState.address(&program()),
        Some((Pubkey { bytes: expected.to_bytes() }, bump))
    );

    let sequence: u64 = 258;
    let (expected, bump) = anchor_lang::prelude::Pubkey::find_program_address(
        &[b"deposit", &user.bytes, &sequence.to_le_bytes()],
        &outside(&program()),
    );
    assert_eq!(
        RecordId::Deposit { user, sequence }.address(&program()),
        Some((Pubkey { bytes: expected.to_bytes() }, bump))
    );
}

#[test]
fn derived_address_is_off_the_curve_and_rebuilt_from_its_bump() {
    let id = RecordId::Container { container_id: String::from("bin-1") };
    let (address, bump) = id.address(&program()).unwrap();
    assert!(!outside(&address).is_on_curve());
    let rebuilt = anchor_lang::prelude::Pubkey::create_program_address(
        &[b"container", b"bin-1", &[bump]],
        &outside(&program()),
    )
    .unwrap();
    assert_eq!(rebuilt.to_bytes(), address.bytes);
}

#[test]
fn same_id_gives_the_same_address_and_another_program_another() {
    let id = RecordId::Redemption { user: key(2), sequence: 5 };
    assert_eq!(id.address(&program()), id.clone().address(&program()));
    assert_ne!(id.address(&program()).unwrap().0, id.address(&key(200)).unwrap().0);
}

#[test]
fn different_records_have_different_addresses() {
    let ids = vec![
        RecordId::GlobalState,
        RecordId::UserProfile { user: key(2) },
        RecordId::UserProfile { user: key(3) },
        RecordId::Container { container_id: String::from("bin-1") },
        RecordId::Container { container_id: String::from("bin-2") },
        RecordId::Container { container_id: String::new() },
        RecordId::Deposit { user: key(2), sequence: 0 },
        RecordId::Deposit { user: key(2), sequence: 1 },
        RecordId::Deposit { user: key(3), sequence: 0 },
        RecordId::Redemption { user: key(2), sequence: 0 },
        RecordId::Redemption { user: key(2), sequence: 256 },
        RecordId::Collection { container: key(2), sequence: 0 },
        RecordId::Collection { container: key(2), sequence: 1 },
    ];
    for (i, a) in ids.iter().enumerate() {
        for (j, b) in ids.iter().enumerate() {
            if i != j {
                assert_ne!(a.seeds().concat(), b.seeds().concat());
                assert_ne!(a.address(&program()).unwrap().0, b.address(&program()).unwrap().0);
            }
        }
    }
}

#[test]
fn container_id_of_more_than_32_bytes_has_no_address() {
    let long = RecordId::Container { container_id: "b".repeat(33) };
    assert_eq!(long.address(&program()), None);
    let wide = RecordId::Container { container_id: "ñ".repeat(17) };
    assert_eq!(wide.address(&program()), None);
    let fits = RecordId::Container { container_id: "b".repeat(32) };
    assert!(fits.address(&program()).is_some());
}

#[test]
fn each_operation_names_the_record_it_creates() {
    let init = Initialize { global_state: None, authority: key(1), bump: 0 };
    assert_eq!(init.record_id(), RecordId::GlobalState);

    let user = RegisterUser { user_profile: None, global_state: global(), user: key(2), bump: 0 };
    assert_eq!(user.record_id(), RecordId::UserProfile { user: key(2) });

    let reg =
        RegisterContainer { container: None, global_state: global(), authority: key(1), bump: 0 };
    assert_eq!(
        reg.record_id(&String::from("bin-1")),
        RecordId::Container { container_id: String::from("bin-1") }
    );

    let deposit = ProcessDeposit {
        global_state: global(),
        container: container(),
        container_key: key(3),
        user_profile: profile(),
        deposit_record: None,
        user: key(2),
        bump: 0,
    };
    assert_eq!(deposit.record_id(), RecordId::Deposit { user: key(2), sequence: 258 });

    let redeem = RedeemTokens {
        user_profile: profile(),
        redemption_record: None,
        user: key(2),
        user_token_balance: 0,
        bump: 0,
    };
    assert_eq!(redeem.record_id(), RecordId::Redemption { user: key(2), sequence: 77 });

    let collect = CollectContainer {
        container: container(),
        container_key: key(3),
        collection_record: None,
        collector: key(4),
        bump: 0,
    };
    assert_eq!(collect.record_id(), RecordId::Collection { container: key(3), sequence: 9 });
}
