use tunnelto_auth::account::{account_id_from_reply, AccountId, DirectoryReply, Error};

#[test]
fn backend_failure_is_reported() {
    match account_id_from_reply(DirectoryReply::Unavailable("timeout".to_string())) {
        Err(Error::AuthDbGetItem(m)) => assert_eq!(m, "timeout"),
        other => panic!("unexpected {:?}", other),
    }
}

#[test]
fn missing_record_is_not_found() {
    assert!(matches!(account_id_from_reply(DirectoryReply::NoItem), Err(Error::AccountNotFound)));
}

#[test]
fn record_without_account_id_is_not_found() {
    let reply = DirectoryReply::Item { account_id: None };
    assert!(matches!(account_id_from_reply(reply), Err(Error::AccountNotFound)));
}

#[test]
fn account_id_that_is_not_a_uuid_is_invalid() {
    let reply = DirectoryReply::Item { account_id: Some("not-a-uuid".to_string()) };
    assert!(matches!(account_id_from_reply(reply), Err(Error::InvalidAccountId)));
}

#[test]
fn account_id_is_parsed_as_uuid() {
    let reply = DirectoryReply::Item {
        account_id: Some("67e55044-10b1-426f-9247-bb680e5fe0c8".to_string()),
    };
    let id = account_id_from_reply(reply).unwrap();
    assert_eq!(id, AccountId { value: 0x67e5504410b1426f9247bb680e5fe0c8 });
}
