use api::{
    extract, ApiResponse, ApiResponseData, CrownLevel, IdKind, LookupError, Player, TrophyData,
    ValidationError,
};

fn player(uuid: &str, username: &str) -> Player {
    Player {
        uuid: uuid.to_string(),
        username: Some(username.to_string()),
        ranks: vec![],
        crown_level: CrownLevel {
            level: 1,
            next_evolution_level: None,
            next_level_progress: None,
            trophies: TrophyData { obtained: 0, obtainable: 0, bonus: 0 },
        },
        status: None,
        collections: None,
        social: None,
    }
}

fn payload(by_username: Option<Player>, by_uuid: Option<Player>) -> ApiResponse {
    ApiResponse {
        data: Some(ApiResponseData {
            player_by_username: by_username,
            player: by_uuid,
            message: None,
            request_id: None,
        }),
    }
}

#[test]
fn payload_without_players_is_not_found() {
    let result = extract(payload(None, None), IdKind::Uuid);
    assert_eq!(result, Err(ValidationError::NotFound));
    assert_eq!(result.map_err(LookupError::from), Err(LookupError::NotFound));
    assert_eq!(extract(payload(None, None), IdKind::Username), Err(ValidationError::NotFound));
}

#[test]
fn missing_payload_is_no_data() {
    assert_eq!(extract(ApiResponse { data: None }, IdKind::Uuid), Err(ValidationError::NoData));
    assert_eq!(
        extract(ApiResponse { data: None }, IdKind::Username),
        Err(ValidationError::NoData)
    );
}

#[test]
fn player_of_the_requested_kind_is_returned_whole() {
    let notch = player("069a79f4-44e9-4726-a5be-fca90e38aaf5", "Notch");
    assert_eq!(extract(payload(None, Some(notch.clone())), IdKind::Uuid), Ok(notch.clone()));
    assert_eq!(extract(payload(Some(notch.clone()), None), IdKind::Username), Ok(notch));
}

#[test]
fn player_of_the_other_kind_is_not_found() {
    let notch = player("069a79f4-44e9-4726-a5be-fca90e38aaf5", "Notch");
    assert_eq!(
        extract(payload(Some(notch.clone()), None), IdKind::Uuid),
        Err(ValidationError::NotFound)
    );
    assert_eq!(
        extract(payload(None, Some(notch)), IdKind::Username),
        Err(ValidationError::NotFound)
    );
}

#[test]
fn with_both_players_the_requested_kind_decides() {
    let by_name = player("069a79f4-44e9-4726-a5be-fca90e38aaf5", "Notch");
    let by_uuid = player("853c80ef-3c37-49fd-aa49-938b674adae6", "jeb_");
    assert_eq!(
        extract(payload(Some(by_name.clone()), Some(by_uuid.clone())), IdKind::Uuid),
        Ok(by_uuid.clone())
    );
    assert_eq!(extract(payload(Some(by_name.clone()), Some(by_uuid)), IdKind::Username), Ok(by_name));
}

#[test]
fn diagnostic_fields_do_not_matter() {
    let envelope = ApiResponse {
        data: Some(ApiResponseData {
            player_by_username: None,
            player: None,
            message: Some("no such player".to_string()),
            request_id: Some("r-1".to_string()),
        }),
    };
    assert_eq!(extract(envelope, IdKind::Username), Err(ValidationError::NotFound));
}
