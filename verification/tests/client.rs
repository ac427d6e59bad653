use twitter_client::client::{
    bearer_token_response, create_body, delete_v2_response, feed_response, home_v2_response,
    interpret, like_v2_response, me_response, post_v2_response, read_data, read_document,
    read_result, unlike_v2_response, Authorization, Client, Method, Request,
};
use twitter_client::credentials::Credentials;
use twitter_client::error::TwitterError;
use twitter_client::json::Json;
use twitter_client::response::{
    TwitterCreateResponseData, TwitterDeleteResponseData, TwitterLikeResponseData,
};

fn credentials() -> Credentials {
    Credentials {
        api_key: "ck".to_string(),
        api_key_secret: "cs".to_string(),
        access_token: "tok".to_string(),
        access_token_secret: "ts".to_string(),
    }
}

fn oauth(signature: &str) -> Authorization {
    Authorization::OAuth(format!(
        "OAuth oauth_consumer_key=\"ck\",oauth_nonce=\"NONCE\",oauth_signature=\"{}\",oauth_signature_method=\"HMAC-SHA1\",oauth_timestamp=\"1700000000\",oauth_token=\"tok\",oauth_version=\"1.0\"",
        signature
    ))
}

fn text_field(name: &str, value: &str) -> (String, Json) {
    (name.to_string(), Json::Text(value.to_string()))
}

fn decode(operation: &str) -> TwitterError {
    TwitterError::Decode(operation.to_string())
}

#[test]
fn post_request() {
    let c = credentials();
    let client = Client::new(&c, false);
    let request = client.post_v2("hello", &None, "NONCE", "1700000000");
    assert_eq!(
        request,
        Request {
            method: Method::Post,
            url: "https://api.twitter.com/2/tweets".to_string(),
            authorization: oauth("zzyb88SGuBjuPly6GQvELO4qMqw%3D"),
            body: Some(Json::Object(vec![text_field("text", "hello")])),
        }
    );
}

#[test]
fn reply_goes_into_the_body_and_not_into_the_signature() {
    let c = credentials();
    let client = Client::new(&c, false);
    let request = client.post_v2("hello", &Some("55".to_string()), "NONCE", "1700000000");
    assert_eq!(request.authorization, oauth("zzyb88SGuBjuPly6GQvELO4qMqw%3D"));
    assert_eq!(
        request.body,
        Some(Json::Object(vec![
            text_field("text", "hello"),
            (
                "reply".to_string(),
                Json::Object(vec![text_field("in_reply_to_tweet_id", "55")])
            ),
        ]))
    );
    assert_eq!(create_body("x", &None), Json::Object(vec![text_field("text", "x")]));
}

#[test]
fn delete_request() {
    let c = credentials();
    let request = Client::new(&c, false).delete_v2("12345", "NONCE", "1700000000");
    assert_eq!(
        request,
        Request {
            method: Method::Delete,
            url: "https://api.twitter.com/2/tweets/12345".to_string(),
            authorization: oauth("VC7teHTEEMvWPL6Z%2BgLIo53kukM%3D"),
            body: None,
        }
    );
}

#[test]
fn feed_request_signs_the_count() {
    let c = credentials();
    let request = Client::new(&c, false).feed(20, "NONCE", "1700000000");
    assert_eq!(
        request,
        Request {
            method: Method::Get,
            url: "https://api.twitter.com/1.1/statuses/home_timeline.json?count=20".to_string(),
            authorization: oauth("fW5CCqk8QwkjtdkpeB8h3ViKOzY%3D"),
            body: None,
        }
    );
}

#[test]
fn feed_request_imposes_no_range() {
    let c = credentials();
    let request = Client::new(&c, false).feed(-3, "NONCE", "1700000000");
    assert_eq!(
        request.url,
        "https://api.twitter.com/1.1/statuses/home_timeline.json?count=-3"
    );
    assert_eq!(request.authorization, oauth("VjNQhvWtW3wIx4N56ZptiWGt86s%3D"));
}

#[test]
fn me_request_signs_its_query() {
    let c = credentials();
    let request = Client::new(&c, false).me("NONCE", "1700000000");
    assert_eq!(
        request,
        Request {
            method: Method::Get,
            url: "https://api.twitter.com/2/users/me?expansions=pinned_tweet_id&user.fields=created_at"
                .to_string(),
            authorization: oauth("QqCA18Ze5KhBLop1oiz3SLrzdd0%3D"),
            body: None,
        }
    );
}

#[test]
fn like_and_unlike_requests() {
    let c = credentials();
    let client = Client::new(&c, false);
    assert_eq!(
        client.like_v2("42", "77", "NONCE", "1700000000"),
        Request {
            method: Method::Post,
            url: "https://api.twitter.com/2/users/42/likes".to_string(),
            authorization: oauth("tiYTE%2Fvp0wo5HzLtHtPsXABAPjw%3D"),
            body: Some(Json::Object(vec![text_field("tweet_id", "77")])),
        }
    );
    assert_eq!(
        client.unlike_v2("42", "77", "NONCE", "1700000000"),
        Request {
            method: Method::Delete,
            url: "https://api.twitter.com/2/users/42/likes/77".to_string(),
            authorization: oauth("e9YiC8%2B9SC6JpUcRk%2BWhx5eBJqY%3D"),
            body: None,
        }
    );
}

#[test]
fn bearer_token_request_uses_basic_authentication() {
    let c = credentials();
    assert_eq!(
        Client::new(&c, false).bearer_token(),
        Request {
            method: Method::Post,
            url: "https://api.twitter.com/oauth2/token?grant_type=client_credentials".to_string(),
            authorization: Authorization::Basic("ck".to_string(), "cs".to_string()),
            body: None,
        }
    );
}

#[test]
fn home_request_uses_the_bearer_token() {
    let c = credentials();
    assert_eq!(
        Client::new(&c, true).home_v2("42", 5, "BEARER"),
        Request {
            method: Method::Get,
            url: "https://api.twitter.com/2/users/42/tweets?max_results=5&tweet.fields=created_at,author_id,public_metrics"
                .to_string(),
            authorization: Authorization::Bearer("BEARER".to_string()),
            body: None,
        }
    );
}

#[test]
fn client_keeps_its_debug_setting() {
    let c = credentials();
    assert!(Client::new(&c, true).is_debug());
    assert!(!Client::new(&c, false).is_debug());
}

#[test]
fn method_names() {
    assert_eq!(Method::Get.name(), "GET");
    assert_eq!(Method::Post.name(), "POST");
    assert_eq!(Method::Delete.name(), "DELETE");
}

#[test]
fn success_with_malformed_body_is_a_decode_error() {
    assert_eq!(post_v2_response(200, "{not json"), Err(decode("create post")));
    assert_eq!(delete_v2_response(200, ""), Err(decode("delete post")));
    assert_eq!(feed_response(201, "<html>"), Err(decode("fetch legacy timeline")));
    assert_eq!(me_response(200, "{\"data\": "), Err(decode("fetch own user")));
    assert_eq!(home_v2_response(200, "]"), Err(decode("fetch home timeline")));
    assert_eq!(like_v2_response(200, "nope"), Err(decode("like post")));
    assert_eq!(unlike_v2_response(200, "nope"), Err(decode("unlike post")));
    assert_eq!(bearer_token_response(200, "nope"), Err(decode("fetch bearer token")));
}

#[test]
fn success_with_the_wrong_shape_is_a_decode_error() {
    assert_eq!(post_v2_response(200, "{\"id\": \"1\", \"text\": \"t\"}"), Err(decode("create post")));
    assert_eq!(post_v2_response(200, "{\"data\": {\"id\": \"1\"}}"), Err(decode("create post")));
    assert_eq!(delete_v2_response(200, "{\"data\": {}}"), Err(decode("delete post")));
    assert_eq!(delete_v2_response(200, "{\"data\": null}"), Err(decode("delete post")));
    assert_eq!(feed_response(200, "{\"data\": []}"), Err(decode("fetch legacy timeline")));
    assert_eq!(home_v2_response(200, "{\"data\": {}}"), Err(decode("fetch home timeline")));
}

#[test]
fn client_and_server_errors_carry_the_status() {
    assert_eq!(
        post_v2_response(401, "{\"data\": {\"id\": \"1\", \"text\": \"t\"}}"),
        Err(TwitterError::Api(401, "Client error: 401".to_string()))
    );
    assert_eq!(
        delete_v2_response(403, ""),
        Err(TwitterError::Api(403, "Client error: 403".to_string()))
    );
    assert_eq!(
        feed_response(500, "[]"),
        Err(TwitterError::Api(500, "Server error: 500".to_string()))
    );
    assert_eq!(
        me_response(304, "{}"),
        Err(TwitterError::Api(304, "Unknown error: 304".to_string()))
    );
    assert_eq!(
        bearer_token_response(503, "{\"access_token\": \"A\"}"),
        Err(TwitterError::Api(503, "Server error: 503".to_string()))
    );
}

#[test]
fn typed_results_come_out_of_the_envelope() {
    assert_eq!(
        post_v2_response(201, "{\"data\": {\"id\": \"1\", \"text\": \"t\"}}"),
        Ok(TwitterCreateResponseData { id: "1".to_string(), text: "t".to_string() })
    );
    assert_eq!(
        delete_v2_response(200, "{\"data\": {\"deleted\": false}}"),
        Ok(TwitterDeleteResponseData { deleted: false })
    );
    assert_eq!(
        like_v2_response(200, "{\"data\": {\"liked\": true}}"),
        Ok(TwitterLikeResponseData { liked: true })
    );
    assert_eq!(
        unlike_v2_response(200, "{\"data\": {\"liked\": false}}"),
        Ok(TwitterLikeResponseData { liked: false })
    );
    assert_eq!(feed_response(200, "[]"), Ok(vec![]));
    assert_eq!(home_v2_response(200, "{\"data\": []}"), Ok(vec![]));
    assert_eq!(
        bearer_token_response(200, "{\"token_type\": \"bearer\", \"access_token\": \"A\"}"),
        Ok("A".to_string())
    );
    let me = me_response(
        200,
        "{\"data\": {\"id\": \"1\", \"username\": \"u\", \"name\": \"N\", \"created_at\": \"2020\"}}",
    )
    .unwrap();
    assert_eq!(me.id, "1");
    assert_eq!(me.pinned_tweet_id, None);
}

#[test]
fn interpret_decides_on_status_and_document() {
    assert_eq!(interpret("op", 200, Some(Json::Null)), Ok(Json::Null));
    assert_eq!(interpret("op", 200, None), Err(decode("op")));
    assert_eq!(
        interpret("op", 404, Some(Json::Null)),
        Err(TwitterError::Api(404, "Client error: 404".to_string()))
    );
    assert_eq!(
        interpret("op", 500, None),
        Err(TwitterError::Api(500, "Server error: 500".to_string()))
    );
    assert_eq!(read_document("op", 200, "[1]"), Ok(Json::Array(vec![Json::Integer(1)])));
    assert_eq!(read_document("op", 299, "x"), Err(decode("op")));
    assert_eq!(
        read_document("op", 400, "[1]"),
        Err(TwitterError::Api(400, "Client error: 400".to_string()))
    );
}

#[test]
fn results_are_read_whole_or_from_under_data() {
    assert_eq!(
        read_result::<TwitterDeleteResponseData>("op", 200, "{\"deleted\": true}"),
        Ok(TwitterDeleteResponseData { deleted: true })
    );
    assert_eq!(
        read_data::<TwitterDeleteResponseData>("op", 200, "{\"deleted\": true}"),
        Err(decode("op"))
    );
    assert_eq!(
        read_data::<TwitterDeleteResponseData>("op", 200, "{\"data\": {\"deleted\": true}}"),
        Ok(TwitterDeleteResponseData { deleted: true })
    );
    assert_eq!(
        read_data::<TwitterDeleteResponseData>("op", 502, "{\"data\": {\"deleted\": true}}"),
        Err(TwitterError::Api(502, "Server error: 502".to_string()))
    );
}
