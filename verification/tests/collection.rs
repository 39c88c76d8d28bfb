use ecobottle::{
    collect_container, process_deposit, CollectContainer, CollectionRecord, ErrorCode,
    GlobalState, LedgerReply, ProcessDeposit, Pubkey, SmartContainer, UserProfile,
};

fn key(tag: u8) -> Pubkey {
    Pubkey { bytes: [tag; 32] }
}

fn container(current_weight: u64) -> SmartContainer {
    SmartContainer {
        container_id: String::from("bin-7"),
        location: String::from("mercado central"),
        authority: key(1),
        capacity_kg: 20,
        current_weight,
        total_deposits: 31,
        is_active: true,
        created_at: 100,
        last_collection: 0,
        bump: 240,
    }
}

fn collection(current_weight: u64) -> CollectContainer {
    CollectContainer {
        container: container(current_weight),
        container_key: key(7),
        collection_record: None,
        collector: key(8),
        bump: 239,
    }
}

#[test]
fn collection_empties_the_container_and_keeps_its_count() {
    let mut ctx = collection(12_345);
    let before = ctx.clone();
    assert_eq!(collect_container(&mut ctx, 5000), Ok(()));
    assert_eq!(ctx.container.current_weight, 0);
    assert_eq!(ctx.container.total_deposits, 31);
    assert_eq!(ctx.container.last_collection, 5000);
    assert_eq!(
        ctx.collection_record,
        Some(CollectionRecord {
            container: key(7),
            collector: key(8),
            weight_collected: 12_345,
            timestamp: 5000,
            verified: true,
            bump: 239,
        })
    );
    let mut expected = before;
    expected.container.current_weight = 0;
    expected.container.last_collection = 5000;
    expected.collection_record = ctx.collection_record;
    assert_eq!(ctx, expected);
}

#[test]
fn second_collection_of_an_emptied_container_is_refused() {
    let mut first = collection(800);
    assert_eq!(collect_container(&mut first, 5000), Ok(()));

    let mut second = collection(0);
    second.container = first.container.clone();
    let before = second.clone();
    assert_eq!(collect_container(&mut second, 5001), Err(ErrorCode::ContainerEmpty));
    assert_eq!(second, before);

    assert_eq!(collect_container(&mut first, 5001), Err(ErrorCode::ContainerEmpty));
}

#[test]
fn collection_of_an_empty_container_is_refused() {
    let mut ctx = collection(0);
    let before = ctx.clone();
    assert_eq!(collect_container(&mut ctx, 1), Err(ErrorCode::ContainerEmpty));
    assert_eq!(ctx, before);
}

#[test]
fn collection_of_an_inactive_container_is_refused_first() {
    let mut ctx = collection(800);
    ctx.container.is_active = false;
    let before = ctx.clone();
    assert_eq!(collect_container(&mut ctx, 1), Err(ErrorCode::ContainerInactive));
    assert_eq!(ctx, before);

    let mut empty = collection(0);
    empty.container.is_active = false;
    assert_eq!(collect_container(&mut empty, 1), Err(ErrorCode::ContainerInactive));
}

#[test]
fn collection_whose_place_is_taken_is_refused() {
    let mut ctx = collection(800);
    ctx.collection_record = Some(CollectionRecord {
        container: key(7),
        collector: key(6),
        weight_collected: 1,
        timestamp: 1,
        verified: true,
        bump: 239,
    });
    let before = ctx.clone();
    assert_eq!(collect_container(&mut ctx, 2), Err(ErrorCode::RecordAlreadyExists));
    assert_eq!(ctx, before);
}

#[test]
fn collection_of_a_single_gram_is_certified() {
    let mut ctx = collection(1);
    assert_eq!(collect_container(&mut ctx, -3), Ok(()));
    let record = ctx.collection_record.unwrap();
    assert_eq!(record.weight_collected, 1);
    assert_eq!(record.timestamp, -3);
    assert!(record.verified);
    assert_eq!(ctx.container.last_collection, -3);
}

#[test]
fn deposit_then_collection_then_deposit_again() {
    let mut deposit = ProcessDeposit {
        global_state: GlobalState {
            authority: key(1),
            ecoc_per_kg: 10,
            min_deposit_weight: 50,
            total_pet_collected: 0,
            total_deposits: 0,
            total_users: 1,
            total_containers: 1,
            bump: 255,
        },
        container: container(19_500),
        container_key: key(7),
        user_profile: UserProfile {
            owner: key(2),
            username: String::from("ana"),
            total_deposits: 0,
            total_pet_weight: 0,
            total_ecoc_earned: 0,
            total_ecoc_spent: 0,
            created_at: 1,
            bump: 254,
        },
        deposit_record: None,
        user: key(2),
        bump: 253,
    };
    assert_eq!(
        process_deposit(&mut deposit, 600, 10, LedgerReply::Accepted),
        Err(ErrorCode::ContainerFull)
    );
    assert!(process_deposit(&mut deposit, 500, 10, LedgerReply::Accepted).is_ok());
    assert_eq!(deposit.container.current_weight, 20_000);

    let mut ctx = collection(0);
    ctx.container = deposit.container.clone();
    assert_eq!(collect_container(&mut ctx, 11), Ok(()));
    assert_eq!(ctx.collection_record.unwrap().weight_collected, 20_000);
    assert_eq!(ctx.container.total_deposits, 32);

    deposit.container = ctx.container.clone();
    deposit.deposit_record = None;
    assert!(process_deposit(&mut deposit, 600, 12, LedgerReply::Accepted).is_ok());
    assert_eq!(deposit.container.current_weight, 600);
    assert_eq!(deposit.container.total_deposits, 33);
    assert_eq!(deposit.container.last_collection, 11);
}
