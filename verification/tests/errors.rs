use bob::errors::{convert_error, BobCatch, BobError, BobResult, ErrorKind, LogSeverity};

#[test]
fn from_msg_keeps_kind_and_message() {
    let e = BobError::from_msg(ErrorKind::Admin, "No command channel has been set in this Server.");
    assert_eq!(e.knd, ErrorKind::Admin);
    assert_eq!(e.msg.as_deref(), Some("No command channel has been set in this Server."));
}

#[test]
fn bob_catch_on_an_option_keeps_the_value() {
    let r: BobResult<u32> = Some(5).bob_catch(ErrorKind::External, "missing");
    assert_eq!(r.unwrap(), 5);
}

#[test]
fn bob_catch_on_a_missing_option_classifies() {
    let r: BobResult<u32> = None.bob_catch(ErrorKind::User, "Missing argument (in hashmap)");
    let e = r.unwrap_err();
    assert_eq!(e.knd, ErrorKind::User);
    assert_eq!(e.msg.as_deref(), Some("Missing argument (in hashmap)"));
}

#[test]
fn bob_catch_on_a_result_replaces_the_error() {
    let ok: Result<u32, String> = Ok(7);
    assert_eq!(ok.bob_catch(ErrorKind::External, "boom").unwrap(), 7);

    let failed: Result<u32, String> = Err(String::from("low-level detail"));
    let e = failed.bob_catch(ErrorKind::Admin, "Couldn't send countdown message.").unwrap_err();
    assert_eq!(e.knd, ErrorKind::Admin);
    assert_eq!(e.msg.as_deref(), Some("Couldn't send countdown message."));
}

#[test]
fn convert_error_keeps_only_the_message() {
    let e = convert_error("anything at all", "Couldn't connect");
    assert_eq!(e.knd, ErrorKind::External);
    assert_eq!(e.msg.as_deref(), Some("Couldn't connect"));
}

#[test]
fn severity_follows_the_kind() {
    assert_eq!(BobError::from_msg(ErrorKind::User, "x").log_severity(), LogSeverity::Debug);
    assert_eq!(BobError::from_msg(ErrorKind::Admin, "x").log_severity(), LogSeverity::Debug);
    assert_eq!(BobError::from_msg(ErrorKind::External, "x").log_severity(), LogSeverity::Warn);
    assert_eq!(BobError::from_msg(ErrorKind::Host, "x").log_severity(), LogSeverity::Error);
    assert_eq!(BobError::from_msg(ErrorKind::Developer, "x").log_severity(), LogSeverity::Error);
}

#[test]
fn discord_rendering_opens_with_the_kind_emoji() {
    let e = BobError::from_msg(ErrorKind::User, "No such preset.");
    assert_eq!(e.to_discord(), "\u{26a0}\u{fe0f} No such preset.");

    let bare = BobError { knd: ErrorKind::External, msg: None };
    assert_eq!(bare.to_discord(), "\u{1f310} ");
}
