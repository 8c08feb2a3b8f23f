use fplbot::bot::commands::check_channel_league_id;
use fplbot::bot::commands::check_manager_id;
use fplbot::bot::commands::update_channel_league_id;
use fplbot::bot::commands::update_manager_id;
use fplbot::database::models::{DBChannel, DBUser};
use fplbot::utils::error::FplBotError;
use fplbot::utils::type_conversion::{ResolvedOption, ResolvedValue};

fn number(value: i64) -> ResolvedOption {
    ResolvedOption { name: "id".to_string(), value: ResolvedValue::Integer(value) }
}

#[test]
fn the_linked_manager_is_told() {
    let user = DBUser { discord_id: 1, manager_id: Some(123456) };
    assert_eq!(check_manager_id::reply(&user), "Your current manager id is: 123456");
    let user = DBUser { discord_id: 1, manager_id: None };
    assert_eq!(check_manager_id::reply(&user), "You do not currently have a set manager id");
}

#[test]
fn the_default_league_is_told() {
    let channel = DBChannel { channel_id: 1, default_league_id: Some(-314) };
    assert_eq!(check_channel_league_id::reply(&channel), "Your current default league id is: -314");
    let channel = DBChannel { channel_id: 1, default_league_id: None };
    assert_eq!(
        check_channel_league_id::reply(&channel),
        "You do not currently have a set manager id"
    );
}

#[test]
fn the_record_of_a_linked_manager() {
    match update_manager_id::record(42, &vec![number(7)]) {
        Ok(user) => {
            assert_eq!(user.discord_id, 42);
            assert_eq!(user.manager_id, Some(7));
        }
        other => panic!("{:?}", other),
    }
    match update_manager_id::record(42, &Vec::new()) {
        Err(FplBotError::Input(detail)) => assert_eq!(detail, "Failed to find users discord_id"),
        other => panic!("{:?}", other),
    }
}

#[test]
fn the_record_of_a_default_league() {
    match update_channel_league_id::record(42, &number(314)) {
        Ok(channel) => {
            assert_eq!(channel.channel_id, 42);
            assert_eq!(channel.default_league_id, Some(314));
        }
        other => panic!("{:?}", other),
    }
    let other = ResolvedOption { name: "id".to_string(), value: ResolvedValue::Other };
    match update_channel_league_id::record(42, &other) {
        Err(FplBotError::Input(detail)) => assert_eq!(detail, "Please provide a valid league ID"),
        other => panic!("{:?}", other),
    }
    assert!(matches!(update_channel_league_id::extract_league_id(&number(5)), Ok(5)));
    assert!(matches!(
        update_channel_league_id::extract_league_id(&number(1 << 33)),
        Err(FplBotError::Input(_))
    ));
}

#[test]
fn what_is_said_of_storing() {
    match update_manager_id::outcome(true) {
        Ok(content) => assert_eq!(content, "Manager_id update succesful"),
        other => panic!("{:?}", other),
    }
    match update_manager_id::outcome(false) {
        Err(FplBotError::Store(detail)) => assert_eq!(detail, "Failed to update users manager_id"),
        other => panic!("{:?}", other),
    }
    match update_channel_league_id::outcome(true) {
        Ok(content) => assert_eq!(content, "channel league_id update succesful"),
        other => panic!("{:?}", other),
    }
    match update_channel_league_id::outcome(false) {
        Err(FplBotError::Store(detail)) => assert_eq!(detail, "Failed to update users manager_id"),
        other => panic!("{:?}", other),
    }
}
