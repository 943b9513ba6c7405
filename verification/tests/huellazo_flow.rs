use first_project::instructions::check_in_business::{
    check_in_precheck, handle_check_in_business, CheckInBusiness,
};
use first_project::instructions::create_business::{handle_create_business, CreateBusiness};
use first_project::instructions::create_business_mission::{
    handle_create_business_mission, CreateBusinessMission,
};
use first_project::instructions::create_discount::{handle_create_discount, CreateDiscount};
use first_project::instructions::create_tourist_spot::{
    handle_create_tourist_spot, CreateTouristSpot,
};
use first_project::instructions::init_config::{handle_init_config, InitConfig};
use first_project::instructions::initialize_passport::{
    handle_initialize_passport, InitializePassport,
};
use first_project::pubkey::Pubkey;
use first_project::state::{
    BusinessAccount, BusinessCheckIn, BusinessMission, Config, Discount, Passport, TouristSpot,
    UserBusinessMissionProgress,
};

fn key(tag: u8) -> Pubkey {
    let mut bytes = [0u8; 32];
    bytes[0] = tag;
    bytes[31] = 0x5a;
    Pubkey::new_from_array(bytes)
}

fn blank_config() -> Config {
    Config { admin: Pubkey::zero(), backend_admin: Pubkey::zero(), bump: 0 }
}

fn blank_passport() -> Passport {
    Passport {
        owner: Pubkey::zero(),
        level: 0,
        total_xp: 0,
        stamps: 0,
        last_spot: Pubkey::zero(),
        bump: 0,
    }
}

fn blank_spot() -> TouristSpot {
    TouristSpot {
        id: 0,
        authority: Pubkey::zero(),
        name: String::new(),
        latitude: 0,
        longitude: 0,
        radius: 0,
        base_xp_reward: 0,
        achievement_uri: String::new(),
        total_visitors: 0,
        is_active: false,
    }
}

fn blank_business() -> BusinessAccount {
    BusinessAccount {
        authority: Pubkey::zero(),
        name: String::new(),
        rating_sum: 0,
        rating_count: 0,
        is_active: false,
        bump: 0,
    }
}

fn blank_mission() -> BusinessMission {
    BusinessMission {
        id: 0,
        business_group: Pubkey::zero(),
        name: String::new(),
        required_check_ins: 0,
        target_businesses: Vec::new(),
        reward_discount: 0,
        expires_at: 0,
        is_active: false,
        bump: 0,
    }
}

fn blank_discount() -> Discount {
    Discount {
        id: 0,
        business: Pubkey::zero(),
        code: String::new(),
        discount_percent: 0,
        min_purchase: 0,
        available_units: 0,
        unlimited: false,
        valid_until: 0,
        is_active: false,
        bump: 0,
    }
}

fn blank_check_in() -> BusinessCheckIn {
    BusinessCheckIn {
        user: Pubkey::zero(),
        business: Pubkey::zero(),
        timestamp: 0,
        amount_spent: 0,
        rating: 0,
        xp_earned: 0,
        used_discount: false,
        discount_applied: 0,
        bump: 0,
    }
}

fn blank_progress() -> UserBusinessMissionProgress {
    UserBusinessMissionProgress {
        user: Pubkey::zero(),
        mission: Pubkey::zero(),
        check_ins: 0,
        completed: false,
        bump: 0,
    }
}

#[test]
fn test_huellazo_flow() {
    let payer = key(1);
    let admin = key(2);
    let business_wallet = key(3);
    let mission_address = key(4);

    // 1. init config
    let mut init = InitConfig { admin, config: blank_config(), config_bump: 254 };
    handle_init_config(&mut init, key(9)).unwrap();
    let config = init.config;

    // 2. initialize passport
    let mut open = InitializePassport { user: payer, passport: blank_passport(), passport_bump: 253 };
    handle_initialize_passport(&mut open).unwrap();
    let p = open.passport;
    assert_eq!(p.owner, payer);
    assert_eq!(p.total_xp, 0);

    // 3. create tourist spot
    let spot_id: u64 = 1u64;
    let mut create_spot = CreateTouristSpot { admin, config, spot: blank_spot() };
    handle_create_tourist_spot(
        &mut create_spot,
        spot_id,
        "Torre Eiffel".to_string(),
        488_588_880,
        23_295_000,
        50,
        1000,
        "ipfs://torre-eiffel".to_string(),
    )
    .unwrap();
    let s = create_spot.spot;
    assert_eq!(s.name, "Torre Eiffel");
    assert!(s.is_active);

    // 4. create business
    let mut create_business =
        CreateBusiness { authority: business_wallet, business: blank_business(), business_bump: 252 };
    handle_create_business(&mut create_business, "Café Huellazo".to_string()).unwrap();
    let business = create_business.business;

    // 5. create business mission
    let mission_id: u64 = 7u64;
    let mut create_mission = CreateBusinessMission {
        business_group: business_wallet,
        mission: blank_mission(),
        mission_bump: 251,
    };
    handle_create_business_mission(
        &mut create_mission,
        mission_id,
        "Ruta del Café".to_string(),
        1,
        vec![business_wallet],
        20,
        0,
    )
    .unwrap();
    let mission = create_mission.mission;

    // 6. create discount
    let discount_id: u64 = 3u64;
    let mut create_discount = CreateDiscount {
        business: business_wallet,
        business_account: business,
        discount: blank_discount(),
        discount_bump: 250,
    };
    handle_create_discount(
        &mut create_discount,
        discount_id,
        "CAFÉ15".to_string(),
        15,
        1_000_000,
        5,
        0,
    )
    .unwrap();
    let business = create_discount.business_account;
    let discount = create_discount.discount;

    // 7. check in business (with discount + mission)
    let timestamp: i64 = 1_700_000_000;
    let mut check_in = CheckInBusiness {
        user: payer,
        business_wallet,
        business_account: business,
        passport: p,
        check_in: blank_check_in(),
        check_in_bump: 249,
        discount: Some(discount),
        mission: Some(mission),
        mission_key: mission_address,
        mission_progress: Some(blank_progress()),
    };
    check_in_precheck(&check_in, 5).unwrap();
    handle_check_in_business(
        &mut check_in,
        2_000_000,
        5,
        true,
        Some(discount_id),
        Some(mission_id),
        timestamp,
    )
    .unwrap();

    let p = check_in.passport;
    assert!(p.total_xp > 0, "xp should have been awarded");

    let c = check_in.check_in;
    assert_eq!(c.rating, 5);
    assert!(c.used_discount);
    assert_eq!(c.discount_applied, 15);

    let prog = check_in.mission_progress.unwrap();
    assert!(prog.completed);
}
