use vault_core::fields::FieldName;
use vault_core::requests::{
    AuthRequestHandler, DataRequestHandler, PasswordHashManager, PersonalDataManager,
    RegisterOutcome, RequestKind, ResponseHandler,
};
use vault_core::session::{SessionManager, SESSION_TTL_SECONDS};

#[test]
fn routing_table_matches_the_wire_protocol() {
    let cases = [
        ("InsertIdenityCard", RequestKind::InsertField(FieldName::IdentityCard)),
        ("GetIdenityCard", RequestKind::GetField(FieldName::IdentityCard)),
        ("InsertDrivingLicense", RequestKind::InsertField(FieldName::DrivingLicense)),
        ("GetDrivingLicense", RequestKind::GetField(FieldName::DrivingLicense)),
        ("InsertPassport", RequestKind::InsertField(FieldName::Passport)),
        ("GetPassport", RequestKind::GetField(FieldName::Passport)),
        (
            "InsertVehicleRegistration",
            RequestKind::InsertField(FieldName::VehicleRegistration),
        ),
        (
            "GetVehicleRegistration",
            RequestKind::GetField(FieldName::VehicleRegistration),
        ),
        ("InsertInsuranceAuto", RequestKind::InsertField(FieldName::InsuranceAuto)),
        ("GetInsuranceAuto", RequestKind::GetField(FieldName::InsuranceAuto)),
        ("logout", RequestKind::Logout),
        ("GetWalletCards", RequestKind::CardsOverview),
        ("GetWalletAuto", RequestKind::AutoOverview),
        ("UserInfo", RequestKind::UserInfoLookup),
        ("News", RequestKind::LatestNews),
    ];
    for (wire, kind) in cases {
        assert_eq!(DataRequestHandler::route_message(wire), kind);
    }
    assert_eq!(DataRequestHandler::route_message("Purchase"), RequestKind::Unknown);
    assert_eq!(DataRequestHandler::route_message(""), RequestKind::Unknown);
    assert_eq!(DataRequestHandler::route_message("getpassport"), RequestKind::Unknown);
}

#[test]
fn login_success_issues_a_working_token() {
    let mut sm = SessionManager::new();
    let response = AuthRequestHandler::login_outcome(&mut sm, "alice", true, 1_000);
    assert!(response.success);
    assert_eq!(response.expires_in, 24 * 3600);
    let token = response.token.expect("success carries a token");
    let session = sm.validate_token(&token, 1_000).expect("token validates");
    assert_eq!(session.user_id, "alice");
    assert_eq!(session.expires_at, 1_000 + SESSION_TTL_SECONDS);
    let info = response.user_info.expect("success carries user info");
    assert_eq!(info.username, "alice");
    assert_eq!(info.role, "user");
    assert_eq!(info.permissions, vec!["read", "write", "admin"]);
}

#[test]
fn login_failure_issues_nothing() {
    let mut sm = SessionManager::new();
    let response = AuthRequestHandler::login_outcome(&mut sm, "mallory", false, 1_000);
    assert!(!response.success);
    assert!(response.token.is_none());
    assert_eq!(response.expires_in, 0);
    assert!(response.user_info.is_none());
    assert!(sm.validate_token("anything", 1_000).is_none());
}

#[test]
fn registration_decisions() {
    assert!(matches!(
        AuthRequestHandler::register_plan(true, None),
        RegisterOutcome::EmailUsed
    ));
    assert!(matches!(
        AuthRequestHandler::register_plan(true, Some("h".to_string())),
        RegisterOutcome::EmailUsed
    ));
    assert!(matches!(
        AuthRequestHandler::register_plan(false, None),
        RegisterOutcome::HashingFailed
    ));
    match AuthRequestHandler::register_plan(false, Some("phc-string".to_string())) {
        RegisterOutcome::StoreUser { password_hash } => assert_eq!(password_hash, "phc-string"),
        _ => panic!("expected a stored user"),
    }
}

#[test]
fn password_hash_round_trip() {
    let hash = PasswordHashManager::get_hashed("s3cret".to_string()).expect("hashing works");
    let good = PasswordHashManager::new("s3cret".to_string(), hash.clone());
    assert_eq!(good.check(), Ok(true));
    let bad = PasswordHashManager::new("guess".to_string(), hash);
    assert_eq!(bad.check(), Ok(false));
}

#[test]
fn unparseable_hash_is_an_error() {
    let broken = PasswordHashManager::new("pw".to_string(), "not-a-phc-string".to_string());
    assert!(broken.check().is_err());
}

#[test]
fn standard_error_shape() {
    let (ok, message) = ResponseHandler::standard_error("boom".to_string());
    assert!(!ok);
    assert_eq!(message, "boom");
}

#[test]
fn overview_field_lists() {
    assert_eq!(
        PersonalDataManager::card_fields(),
        vec![FieldName::IdentityCard, FieldName::DrivingLicense, FieldName::Passport]
    );
    assert_eq!(
        PersonalDataManager::auto_fields(),
        vec![FieldName::VehicleRegistration, FieldName::InsuranceAuto]
    );
}

#[test]
fn count_answers_decide_presence() {
    let yes = |s: &str| PersonalDataManager::field_present(Some(&s.to_string()));
    assert!(yes("1"));
    assert!(yes("3"));
    assert!(yes("0012"));
    assert!(yes("2147483647"));
    assert!(!yes("0"));
    assert!(!yes("00"));
    assert!(!yes(""));
    assert!(!yes("abc"));
    assert!(!yes("12x"));
    assert!(!yes("-1"));
    assert!(!yes("2147483648"));
    assert!(!yes(" 3"));
    assert!(!PersonalDataManager::field_present(None));
}
