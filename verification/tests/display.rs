use twitter_client::response::{
    PublicMetrics, TwitterFeedItem, TwitterFeedUser, TwitterHomeItem, TwitterStatus, TwitterUser,
};

fn item() -> TwitterFeedItem {
    TwitterFeedItem {
        created_at: "Wed Oct 10 20:19:24 +0000 2018".to_string(),
        id_str: "1".to_string(),
        text: "hello".to_string(),
        user: TwitterFeedUser { name: "Ann".to_string(), screen_name: "ann".to_string() },
        retweet_count: 2,
        favorite_count: 30,
        favorited: true,
        retweeted: false,
        in_reply_to_status_id_str: None,
        in_reply_to_screen_name: None,
        retweeted_status: None,
    }
}

#[test]
fn plain_feed_item() {
    assert_eq!(
        item().display(),
        "---------------------------------\n\nAnn, @ann\n\nhello\n\n2 Retweets      30✅ Likes\nhttps://twitter.com/ann/status/1\nWed Oct 10 20:19:24 +0000 2018\n\n"
    );
}

#[test]
fn repeated_and_replying_feed_item() {
    let mut it = item();
    it.retweeted = true;
    it.favorited = false;
    it.in_reply_to_screen_name = Some("bob".to_string());
    it.in_reply_to_status_id_str = Some("77".to_string());
    it.retweeted_status = Some(TwitterStatus {
        text: "first post".to_string(),
        user: TwitterFeedUser { name: "Cy".to_string(), screen_name: "cy".to_string() },
    });
    assert_eq!(
        it.display(),
        "---------------------------------\n\nAnn, @ann\nRetweeted from: Cy, @cy\nReplied to: bob - https://twitter.com/bob/status/77\n\nfirst post\n\n2✅ Retweets      30 Likes\nhttps://twitter.com/ann/status/1\nWed Oct 10 20:19:24 +0000 2018\n\n"
    );
}

#[test]
fn reply_without_a_post_id() {
    let mut it = item();
    it.in_reply_to_screen_name = Some("bob".to_string());
    it.retweet_count = -1;
    assert!(it
        .display()
        .contains("Replied to: bob - https://twitter.com/bob/status/\n\nhello\n\n-1 Retweets"));
}

#[test]
fn home_item() {
    let it = TwitterHomeItem {
        text: "t".to_string(),
        id: "3".to_string(),
        public_metrics: PublicMetrics {
            retweet_count: 1,
            reply_count: 2,
            like_count: 3,
            quote_count: 40,
        },
        created_at: "2021".to_string(),
        author_id: "8".to_string(),
    };
    assert_eq!(
        it.display(),
        "---------------------------------\n\nt\n\n2 Replies      1 Retweets      40 Quotes      3 Likes\n\nhttps://twitter.com/8/status/3\n2021\n\n"
    );
}

#[test]
fn user_with_and_without_pinned_post() {
    let mut user = TwitterUser {
        id: "1".to_string(),
        username: "u".to_string(),
        name: "N".to_string(),
        created_at: "2020".to_string(),
        pinned_tweet_id: None,
    };
    assert_eq!(
        user.display(),
        "             ID: 1\n       Username: u\n   Display name: N\nAccount created: 2020\n"
    );
    user.pinned_tweet_id = Some("5".to_string());
    assert_eq!(
        user.display(),
        "             ID: 1\n       Username: u\n   Display name: N\nAccount created: 2020\n   Pinned tweet: https://twitter.com/u/status/5\n"
    );
}
