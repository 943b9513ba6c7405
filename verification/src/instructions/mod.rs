pub mod check_in_business;
pub mod visit_landmark;
pub mod create_business;
pub mod create_business_mission;
pub mod create_discount;
pub mod create_tourist_spot;
pub mod init_config;
pub mod initialize_passport;
pub mod share_achievement;
