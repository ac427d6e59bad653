use twitter_client::json::{parse_json, Json};
use twitter_client::response::{
    FromJson, OauthResponse, PublicMetrics, TwitterCreateResponseData,
    TwitterDeleteResponseData, TwitterFeed, TwitterFeedItem, TwitterFeedUser, TwitterHomeItem,
    TwitterLikeResponseData, TwitterResponse, TwitterStatus, TwitterUser,
};

fn feed_from_json(j: &Json) -> Option<TwitterFeed> {
    TwitterFeed::from_json(j)
}

fn home_from_json(j: &Json) -> Option<Vec<TwitterHomeItem>> {
    Vec::<TwitterHomeItem>::from_json(j)
}

fn doc(text: &str) -> Json {
    parse_json(text).unwrap()
}

const FEED_ITEM: &str = "{\"created_at\": \"Wed Oct 10 20:19:24 +0000 2018\", \"id\": 1, \"id_str\": \"1\", \"text\": \"hello\", \"user\": {\"name\": \"A\", \"screen_name\": \"a\", \"verified\": false}, \"retweet_count\": 2, \"favorite_count\": 3, \"favorited\": true, \"retweeted\": false, \"in_reply_to_status_id_str\": null, \"in_reply_to_screen_name\": \"b\", \"retweeted_status\": {\"text\": \"orig\", \"user\": {\"name\": \"C\", \"screen_name\": \"c\"}}}";

fn feed_item() -> TwitterFeedItem {
    TwitterFeedItem {
        created_at: "Wed Oct 10 20:19:24 +0000 2018".to_string(),
        id_str: "1".to_string(),
        text: "hello".to_string(),
        user: TwitterFeedUser { name: "A".to_string(), screen_name: "a".to_string() },
        retweet_count: 2,
        favorite_count: 3,
        favorited: true,
        retweeted: false,
        in_reply_to_status_id_str: None,
        in_reply_to_screen_name: Some("b".to_string()),
        retweeted_status: Some(TwitterStatus {
            text: "orig".to_string(),
            user: TwitterFeedUser { name: "C".to_string(), screen_name: "c".to_string() },
        }),
    }
}

#[test]
fn created_post_is_read() {
    assert_eq!(
        TwitterCreateResponseData::from_json(&doc("{\"id\": \"9\", \"text\": \"hi\", \"x\": 1}")),
        Some(TwitterCreateResponseData { id: "9".to_string(), text: "hi".to_string() })
    );
    assert_eq!(TwitterCreateResponseData::from_json(&doc("{\"id\": \"9\"}")), None);
    assert_eq!(TwitterCreateResponseData::from_json(&doc("{\"id\": 9, \"text\": \"hi\"}")), None);
    assert_eq!(TwitterCreateResponseData::from_json(&doc("[]")), None);
}

#[test]
fn flags_are_read() {
    assert_eq!(
        TwitterDeleteResponseData::from_json(&doc("{\"deleted\": true}")),
        Some(TwitterDeleteResponseData { deleted: true })
    );
    assert_eq!(TwitterDeleteResponseData::from_json(&doc("{\"deleted\": \"true\"}")), None);
    assert_eq!(
        TwitterLikeResponseData::from_json(&doc("{\"liked\": false}")),
        Some(TwitterLikeResponseData { liked: false })
    );
    assert_eq!(TwitterLikeResponseData::from_json(&doc("{}")), None);
}

#[test]
fn user_is_read_with_and_without_pinned_post() {
    let with = "{\"id\": \"1\", \"username\": \"u\", \"name\": \"N\", \"created_at\": \"2020\", \"pinned_tweet_id\": \"5\"}";
    let without = "{\"id\": \"1\", \"username\": \"u\", \"name\": \"N\", \"created_at\": \"2020\"}";
    let user = TwitterUser {
        id: "1".to_string(),
        username: "u".to_string(),
        name: "N".to_string(),
        created_at: "2020".to_string(),
        pinned_tweet_id: Some("5".to_string()),
    };
    assert_eq!(TwitterUser::from_json(&doc(with)), Some(user));
    assert_eq!(TwitterUser::from_json(&doc(without)).unwrap().pinned_tweet_id, None);
    let wrong = "{\"id\": \"1\", \"username\": \"u\", \"name\": \"N\", \"created_at\": \"2020\", \"pinned_tweet_id\": 5}";
    assert_eq!(TwitterUser::from_json(&doc(wrong)), None);
    assert_eq!(TwitterUser::from_json(&doc("{\"id\": \"1\"}")), None);
}

#[test]
fn feed_item_is_read() {
    assert_eq!(TwitterFeedItem::from_json(&doc(FEED_ITEM)), Some(feed_item()));
}

#[test]
fn feed_item_without_repeated_post() {
    let text = FEED_ITEM.replace(
        ", \"retweeted_status\": {\"text\": \"orig\", \"user\": {\"name\": \"C\", \"screen_name\": \"c\"}}",
        "",
    );
    let mut expected = feed_item();
    expected.retweeted_status = None;
    assert_eq!(TwitterFeedItem::from_json(&doc(&text)), Some(expected));
}

#[test]
fn feed_item_with_a_count_out_of_range_is_refused() {
    let text = FEED_ITEM.replace("\"retweet_count\": 2", "\"retweet_count\": 2147483648");
    assert_eq!(TwitterFeedItem::from_json(&doc(&text)), None);
    let text = FEED_ITEM.replace("\"retweet_count\": 2", "\"retweet_count\": -2147483648");
    assert_eq!(TwitterFeedItem::from_json(&doc(&text)).unwrap().retweet_count, i32::MIN);
    let text = FEED_ITEM.replace("\"retweet_count\": 2", "\"retweet_count\": 2.0");
    assert_eq!(TwitterFeedItem::from_json(&doc(&text)), None);
    let text = FEED_ITEM.replace("\"screen_name\": \"c\"", "\"screen_name\": 1");
    assert_eq!(TwitterFeedItem::from_json(&doc(&text)), None);
}

#[test]
fn feed_is_an_array_in_order() {
    let second = FEED_ITEM.replace("\"id_str\": \"1\"", "\"id_str\": \"2\"");
    let text = format!("[{}, {}]", FEED_ITEM, second);
    let feed = feed_from_json(&doc(&text)).unwrap();
    assert_eq!(feed.len(), 2);
    assert_eq!(feed[0], feed_item());
    assert_eq!(feed[1].id_str, "2");
    assert_eq!(feed_from_json(&doc("[]")), Some(vec![]));
    assert_eq!(feed_from_json(&doc(&format!("[{}, 1]", FEED_ITEM))), None);
    assert_eq!(feed_from_json(&doc("{}")), None);
}

#[test]
fn home_items_are_read() {
    let item = "{\"text\": \"t\", \"id\": \"3\", \"public_metrics\": {\"retweet_count\": 1, \"reply_count\": 2, \"like_count\": 3, \"quote_count\": 4}, \"created_at\": \"2021\", \"author_id\": \"8\"}";
    let expected = TwitterHomeItem {
        text: "t".to_string(),
        id: "3".to_string(),
        public_metrics: PublicMetrics {
            retweet_count: 1,
            reply_count: 2,
            like_count: 3,
            quote_count: 4,
        },
        created_at: "2021".to_string(),
        author_id: "8".to_string(),
    };
    assert_eq!(TwitterHomeItem::from_json(&doc(item)), Some(expected));
    assert_eq!(home_from_json(&doc(&format!("[{}]", item))).unwrap().len(), 1);
    let negative = item.replace("\"like_count\": 3", "\"like_count\": -1");
    assert_eq!(TwitterHomeItem::from_json(&doc(&negative)), None);
    assert_eq!(home_from_json(&doc(&format!("[{}]", negative))), None);
}

#[test]
fn token_is_read() {
    assert_eq!(
        OauthResponse::from_json(&doc("{\"token_type\": \"bearer\", \"access_token\": \"AAA\"}")),
        Some(OauthResponse { access_token: "AAA".to_string() })
    );
    assert_eq!(OauthResponse::from_json(&doc("{\"token_type\": \"bearer\"}")), None);
}

#[test]
fn envelope_holds_the_result_under_data() {
    assert_eq!(
        TwitterResponse::<TwitterDeleteResponseData>::from_json(&doc(
            "{\"data\": {\"deleted\": true}, \"meta\": 1}"
        )),
        Some(TwitterResponse { data: TwitterDeleteResponseData { deleted: true } })
    );
    assert_eq!(
        TwitterResponse::<TwitterDeleteResponseData>::from_json(&doc("{\"deleted\": true}")),
        None
    );
    assert_eq!(
        TwitterResponse::<TwitterDeleteResponseData>::from_json(&doc("{\"data\": {}}")),
        None
    );
    assert_eq!(
        TwitterResponse::<Vec<TwitterLikeResponseData>>::from_json(&doc(
            "{\"data\": [{\"liked\": true}, {\"liked\": false}]}"
        ))
        .unwrap()
        .data
        .len(),
        2
    );
}
