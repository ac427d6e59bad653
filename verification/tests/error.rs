use twitter_client::client::Client;
use twitter_client::error::{api_error, classify, StatusClass, TwitterError};

#[test]
fn statuses_fall_into_classes() {
    assert_eq!(classify(200), StatusClass::Success);
    assert_eq!(classify(299), StatusClass::Success);
    assert_eq!(classify(199), StatusClass::Unknown);
    assert_eq!(classify(300), StatusClass::Unknown);
    assert_eq!(classify(399), StatusClass::Unknown);
    assert_eq!(classify(400), StatusClass::ClientError);
    assert_eq!(classify(499), StatusClass::ClientError);
    assert_eq!(classify(500), StatusClass::ServerError);
    assert_eq!(classify(599), StatusClass::ServerError);
    assert_eq!(classify(600), StatusClass::Unknown);
    assert_eq!(classify(0), StatusClass::Unknown);
}

#[test]
fn unauthorized_and_forbidden_are_client_errors() {
    assert_eq!(api_error(401), TwitterError::Api(401, "Client error: 401".to_string()));
    assert_eq!(api_error(403), TwitterError::Api(403, "Client error: 403".to_string()));
    assert_eq!(Client::error(404), TwitterError::Api(404, "Client error: 404".to_string()));
}

#[test]
fn internal_error_is_a_server_error() {
    assert_eq!(api_error(500), TwitterError::Api(500, "Server error: 500".to_string()));
    assert_eq!(api_error(503), TwitterError::Api(503, "Server error: 503".to_string()));
}

#[test]
fn other_statuses_are_unknown_errors() {
    assert_eq!(api_error(302), TwitterError::Api(302, "Unknown error: 302".to_string()));
    assert_eq!(api_error(100), TwitterError::Api(100, "Unknown error: 100".to_string()));
    assert_eq!(api_error(65535), TwitterError::Api(65535, "Unknown error: 65535".to_string()));
}

#[test]
fn errors_have_messages() {
    assert_eq!(TwitterError::Io("gone".to_string()).message(), "I/O error: gone");
    assert_eq!(TwitterError::Parse("bad".to_string()).message(), "Error parsing file: bad");
    assert_eq!(TwitterError::Serialize("bad".to_string()).message(), "Error writing file: bad");
    assert_eq!(TwitterError::MissingArgument("id".to_string()).message(), "Missing argument: id");
    assert_eq!(
        TwitterError::ProfileNotFound("alt".to_string()).message(),
        "Profile not found in credentials file: alt"
    );
    assert_eq!(TwitterError::Invalid("count".to_string()).message(), "Invalid argument: count");
    assert_eq!(TwitterError::Transport("reset".to_string()).message(), "Transport error: reset");
    assert_eq!(
        TwitterError::Decode("create post".to_string()).message(),
        "Could not decode the response of: create post"
    );
    assert_eq!(api_error(500).message(), "Twitter API error: Server error: 500");
    assert_eq!(TwitterError::Rejected("no".to_string()).message(), "Twitter API error: no");
    assert_eq!(TwitterError::ClockUnavailable.message(), "System clock unavailable");
}
