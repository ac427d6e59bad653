//! The typed results of the API's endpoints and how each is read from a
//! JSON document.
//!
//! A member that a result needs must be there with the right kind of value;
//! a member that a result may lack can be missing or `null`. Members that a
//! result does not name are passed over.

use vstd::prelude::*;
use crate::json::{
    Json, JsonValue, member_of, text_member, optional_text_member, flag_member, integer_member,
};

verus! {

/// A post that was created.
#[derive(Debug, PartialEq, Eq)]
pub struct TwitterCreateResponseData {
    pub id: String,
    pub text: String,
}

/// Whether a post was deleted.
#[derive(Debug, PartialEq, Eq)]
pub struct TwitterDeleteResponseData {
    pub deleted: bool,
}

/// Whether a post is liked after a like or an unlike.
#[derive(Debug, PartialEq, Eq)]
pub struct TwitterLikeResponseData {
    pub liked: bool,
}

/// The envelope of the newer endpoints: the result under `data`.
#[derive(Debug, PartialEq, Eq)]
pub struct TwitterResponse<T> {
    pub data: T,
}

/// The author of a feed item.
#[derive(Debug, PartialEq, Eq)]
pub struct TwitterFeedUser {
    pub name: String,
    pub screen_name: String,
}

/// The post that a feed item repeats.
#[derive(Debug, PartialEq, Eq)]
pub struct TwitterStatus {
    pub text: String,
    pub user: TwitterFeedUser,
}

/// One item of the legacy timeline.
#[derive(Debug, PartialEq, Eq)]
pub struct TwitterFeedItem {
    pub created_at: String,
    pub id_str: String,
    pub text: String,
    pub user: TwitterFeedUser,
    pub retweet_count: i32,
    pub favorite_count: i32,
    pub favorited: bool,
    pub retweeted: bool,
    pub in_reply_to_status_id_str: Option<String>,
    pub in_reply_to_screen_name: Option<String>,
    pub retweeted_status: Option<TwitterStatus>,
}

/// The legacy timeline.
pub type TwitterFeed = Vec<TwitterFeedItem>;

/// The engagement counters of a post.
#[derive(Debug, PartialEq, Eq)]
pub struct PublicMetrics {
    pub retweet_count: usize,
    pub reply_count: usize,
    pub like_count: usize,
    pub quote_count: usize,
}

/// One item of a user's own timeline.
#[derive(Debug, PartialEq, Eq)]
pub struct TwitterHomeItem {
    pub text: String,
    pub id: String,
    pub public_metrics: PublicMetrics,
    pub created_at: String,
    pub author_id: String,
}

/// The summary of a user.
#[derive(Debug, PartialEq, Eq)]
pub struct TwitterUser {
    pub id: String,
    pub username: String,
    pub name: String,
    pub created_at: String,
    pub pinned_tweet_id: Option<String>,
}

/// The answer of the token endpoint.
#[derive(Debug, PartialEq, Eq)]
pub struct OauthResponse {
    pub access_token: String,
}

/// The text of an optional `String`.
pub open spec fn optional_view(s: Option<String>) -> Option<Seq<char>> {
    match s {
        Some(t) => Some(t@),
        None => None,
    }
}

/// What stands under `data`, if the document is an object that has it.
pub open spec fn data_of(v: JsonValue) -> Option<JsonValue> {
    member_of(v, "data"@)
}

/// A result that is read from a JSON document.
pub trait FromJson: Sized {
    /// Whether a document has what this result needs.
    spec fn readable(v: JsonValue) -> bool;

    /// Whether this result says what the document says.
    spec fn agrees(self, v: JsonValue) -> bool;

    /// Reads the result from a document: it is there exactly when the
    /// document is readable, and then it agrees with the document.
    fn from_json(j: &Json) -> (out: Option<Self>)
        ensures
            out is Some <==> Self::readable(j.value()),
            out matches Some(d) ==> d.agrees(j.value()),
    ;
}

impl FromJson for TwitterCreateResponseData {
    /// Whether a document has what this result needs.
    open spec fn readable(v: JsonValue) -> bool {
        text_member(v, "id"@) is Some && text_member(v, "text"@) is Some
    }

    /// Whether this result says what the document says.
    open spec fn agrees(self, v: JsonValue) -> bool {
        text_member(v, "id"@) == Some(self.id@) && text_member(v, "text"@) == Some(self.text@)
    }

    /// Reads the result from a document.
    fn from_json(j: &Json) -> (out: Option<Self>) {
        let id = j.text("id")?;
        let text = j.text("text")?;
        Some(TwitterCreateResponseData { id, text })
    }
}

impl FromJson for TwitterDeleteResponseData {
    /// Whether a document has what this result needs.
    open spec fn readable(v: JsonValue) -> bool {
        flag_member(v, "deleted"@) is Some
    }

    /// Whether this result says what the document says.
    open spec fn agrees(self, v: JsonValue) -> bool {
        flag_member(v, "deleted"@) == Some(self.deleted)
    }

    /// Reads the result from a document.
    fn from_json(j: &Json) -> (out: Option<Self>) {
        let deleted = j.flag("deleted")?;
        Some(TwitterDeleteResponseData { deleted })
    }
}

impl FromJson for TwitterLikeResponseData {
    /// Whether a document has what this result needs.
    open spec fn readable(v: JsonValue) -> bool {
        flag_member(v, "liked"@) is Some
    }

    /// Whether this result says what the document says.
    open spec fn agrees(self, v: JsonValue) -> bool {
        flag_member(v, "liked"@) == Some(self.liked)
    }

    /// Reads the result from a document.
    fn from_json(j: &Json) -> (out: Option<Self>) {
        let liked = j.flag("liked")?;
        Some(TwitterLikeResponseData { liked })
    }
}

impl FromJson for OauthResponse {
    /// Whether a document has what this result needs.
    open spec fn readable(v: JsonValue) -> bool {
        text_member(v, "access_token"@) is Some
    }

    /// Whether this result says what the document says.
    open spec fn agrees(self, v: JsonValue) -> bool {
        text_member(v, "access_token"@) == Some(self.access_token@)
    }

    /// Reads the result from a document.
    fn from_json(j: &Json) -> (out: Option<Self>) {
        let access_token = j.text("access_token")?;
        Some(OauthResponse { access_token })
    }
}

impl FromJson for TwitterUser {
    /// Whether a document has what this result needs.
    open spec fn readable(v: JsonValue) -> bool {
        &&& text_member(v, "id"@) is Some
        &&& text_member(v, "username"@) is Some
        &&& text_member(v, "name"@) is Some
        &&& text_member(v, "created_at"@) is Some
        &&& optional_text_member(v, "pinned_tweet_id"@) is Some
    }

    /// Whether this result says what the document says.
    open spec fn agrees(self, v: JsonValue) -> bool {
        &&& text_member(v, "id"@) == Some(self.id@)
        &&& text_member(v, "username"@) == Some(self.username@)
        &&& text_member(v, "name"@) == Some(self.name@)
        &&& text_member(v, "created_at"@) == Some(self.created_at@)
        &&& optional_text_member(v, "pinned_tweet_id"@) == Some(optional_view(self.pinned_tweet_id))
    }

    /// Reads the result from a document.
    fn from_json(j: &Json) -> (out: Option<Self>) {
        let id = j.text("id")?;
        let username = j.text("username")?;
        let name = j.text("name")?;
        let created_at = j.text("created_at")?;
        let pinned_tweet_id = j.optional_text("pinned_tweet_id")?;
        Some(TwitterUser { id, username, name, created_at, pinned_tweet_id })
    }
}

impl FromJson for TwitterFeedUser {
    /// Whether a document has what this result needs.
    open spec fn readable(v: JsonValue) -> bool {
        text_member(v, "name"@) is Some && text_member(v, "screen_name"@) is Some
    }

    /// Whether this result says what the document says.
    open spec fn agrees(self, v: JsonValue) -> bool {
        &&& text_member(v, "name"@) == Some(self.name@)
        &&& text_member(v, "screen_name"@) == Some(self.screen_name@)
    }

    /// Reads the result from a document.
    fn from_json(j: &Json) -> (out: Option<Self>) {
        let name = j.text("name")?;
        let screen_name = j.text("screen_name")?;
        Some(TwitterFeedUser { name, screen_name })
    }
}

impl FromJson for TwitterStatus {
    /// Whether a document has what this result needs.
    open spec fn readable(v: JsonValue) -> bool {
        &&& text_member(v, "text"@) is Some
        &&& member_of(v, "user"@) matches Some(u) && TwitterFeedUser::readable(u)
    }

    /// Whether this result says what the document says.
    open spec fn agrees(self, v: JsonValue) -> bool {
        &&& text_member(v, "text"@) == Some(self.text@)
        &&& member_of(v, "user"@) matches Some(u) && self.user.agrees(u)
    }

    /// Reads the result from a document.
    fn from_json(j: &Json) -> (out: Option<Self>) {
        let text = j.text("text")?;
        let user = TwitterFeedUser::from_json(j.member("user")?)?;
        Some(TwitterStatus { text, user })
    }
}

impl TwitterStatus {
    /// Whether a document has a readable post under a name, or `null`, or
    /// nothing.
    pub open spec fn optional_readable(v: JsonValue, name: Seq<char>) -> bool {
        match member_of(v, name) {
            None => true,
            Some(JsonValue::Null) => true,
            Some(s) => Self::readable(s),
        }
    }

    /// Whether an optional post says what the document says under a name.
    pub open spec fn optional_agrees(status: Option<Self>, v: JsonValue, name: Seq<char>) -> bool {
        match member_of(v, name) {
            None => status is None,
            Some(JsonValue::Null) => status is None,
            Some(s) => status matches Some(d) && d.agrees(s),
        }
    }

    /// Reads a post that may be missing or `null`. The outer `None` says
    /// that something is there and is no readable post.
    pub fn optional_from_json(j: &Json, name: &str) -> (out: Option<Option<Self>>)
        ensures
            out is Some <==> Self::optional_readable(j.value(), name@),
            out matches Some(d) ==> Self::optional_agrees(d, j.value(), name@),
    {
        match j.member(name) {
            None => Some(None),
            Some(Json::Null) => Some(None),
            Some(s) => {
                let status = TwitterStatus::from_json(s)?;
                Some(Some(status))
            },
        }
    }
}

/// The least and the greatest 32-bit count.
pub open spec fn count_low() -> int {
    -0x8000_0000
}

pub open spec fn count_high() -> int {
    0x7fff_ffff
}

impl FromJson for TwitterFeedItem {
    /// Whether a document has what this result needs.
    open spec fn readable(v: JsonValue) -> bool {
        &&& text_member(v, "created_at"@) is Some
        &&& text_member(v, "id_str"@) is Some
        &&& text_member(v, "text"@) is Some
        &&& member_of(v, "user"@) matches Some(u) && TwitterFeedUser::readable(u)
        &&& integer_member(v, "retweet_count"@, count_low(), count_high()) is Some
        &&& integer_member(v, "favorite_count"@, count_low(), count_high()) is Some
        &&& flag_member(v, "favorited"@) is Some
        &&& flag_member(v, "retweeted"@) is Some
        &&& optional_text_member(v, "in_reply_to_status_id_str"@) is Some
        &&& optional_text_member(v, "in_reply_to_screen_name"@) is Some
        &&& TwitterStatus::optional_readable(v, "retweeted_status"@)
    }

    /// Whether this result says what the document says.
    open spec fn agrees(self, v: JsonValue) -> bool {
        &&& text_member(v, "created_at"@) == Some(self.created_at@)
        &&& text_member(v, "id_str"@) == Some(self.id_str@)
        &&& text_member(v, "text"@) == Some(self.text@)
        &&& member_of(v, "user"@) matches Some(u) && self.user.agrees(u)
        &&& integer_member(v, "retweet_count"@, count_low(), count_high()) == Some(
            self.retweet_count as int,
        )
        &&& integer_member(v, "favorite_count"@, count_low(), count_high()) == Some(
            self.favorite_count as int,
        )
        &&& flag_member(v, "favorited"@) == Some(self.favorited)
        &&& flag_member(v, "retweeted"@) == Some(self.retweeted)
        &&& optional_text_member(v, "in_reply_to_status_id_str"@) == Some(
            optional_view(self.in_reply_to_status_id_str),
        )
        &&& optional_text_member(v, "in_reply_to_screen_name"@) == Some(
            optional_view(self.in_reply_to_screen_name),
        )
        &&& TwitterStatus::optional_agrees(self.retweeted_status, v, "retweeted_status"@)
    }

    /// Reads the result from a document.
    fn from_json(j: &Json) -> (out: Option<Self>) {
        let created_at = j.text("created_at")?;
        let id_str = j.text("id_str")?;
        let text = j.text("text")?;
        let user = TwitterFeedUser::from_json(j.member("user")?)?;
        let retweet_count = j.integer("retweet_count", -0x8000_0000, 0x7fff_ffff)? as i32;
        let favorite_count = j.integer("favorite_count", -0x8000_0000, 0x7fff_ffff)? as i32;
        let favorited = j.flag("favorited")?;
        let retweeted = j.flag("retweeted")?;
        let in_reply_to_status_id_str = j.optional_text("in_reply_to_status_id_str")?;
        let in_reply_to_screen_name = j.optional_text("in_reply_to_screen_name")?;
        let retweeted_status = TwitterStatus::optional_from_json(j, "retweeted_status")?;
        Some(
            TwitterFeedItem {
                created_at,
                id_str,
                text,
                user,
                retweet_count,
                favorite_count,
                favorited,
                retweeted,
                in_reply_to_status_id_str,
                in_reply_to_screen_name,
                retweeted_status,
            },
        )
    }
}

impl FromJson for PublicMetrics {
    /// Whether a document has what this result needs.
    open spec fn readable(v: JsonValue) -> bool {
        &&& integer_member(v, "retweet_count"@, 0, usize::MAX as int) is Some
        &&& integer_member(v, "reply_count"@, 0, usize::MAX as int) is Some
        &&& integer_member(v, "like_count"@, 0, usize::MAX as int) is Some
        &&& integer_member(v, "quote_count"@, 0, usize::MAX as int) is Some
    }

    /// Whether this result says what the document says.
    open spec fn agrees(self, v: JsonValue) -> bool {
        &&& integer_member(v, "retweet_count"@, 0, usize::MAX as int) == Some(
            self.retweet_count as int,
        )
        &&& integer_member(v, "reply_count"@, 0, usize::MAX as int) == Some(
            self.reply_count as int,
        )
        &&& integer_member(v, "like_count"@, 0, usize::MAX as int) == Some(self.like_count as int)
        &&& integer_member(v, "quote_count"@, 0, usize::MAX as int) == Some(
            self.quote_count as int,
        )
    }

    /// Reads the result from a document.
    fn from_json(j: &Json) -> (out: Option<Self>) {
        let high: i128 = usize::MAX as i128;
        let retweet_count = j.integer("retweet_count", 0, high)? as usize;
        let reply_count = j.integer("reply_count", 0, high)? as usize;
        let like_count = j.integer("like_count", 0, high)? as usize;
        let quote_count = j.integer("quote_count", 0, high)? as usize;
        Some(PublicMetrics { retweet_count, reply_count, like_count, quote_count })
    }
}

impl FromJson for TwitterHomeItem {
    /// Whether a document has what this result needs.
    open spec fn readable(v: JsonValue) -> bool {
        &&& text_member(v, "text"@) is Some
        &&& text_member(v, "id"@) is Some
        &&& member_of(v, "public_metrics"@) matches Some(m) && PublicMetrics::readable(m)
        &&& text_member(v, "created_at"@) is Some
        &&& text_member(v, "author_id"@) is Some
    }

    /// Whether this result says what the document says.
    open spec fn agrees(self, v: JsonValue) -> bool {
        &&& text_member(v, "text"@) == Some(self.text@)
        &&& text_member(v, "id"@) == Some(self.id@)
        &&& member_of(v, "public_metrics"@) matches Some(m) && self.public_metrics.agrees(m)
        &&& text_member(v, "created_at"@) == Some(self.created_at@)
        &&& text_member(v, "author_id"@) == Some(self.author_id@)
    }

    /// Reads the result from a document.
    fn from_json(j: &Json) -> (out: Option<Self>) {
        let text = j.text("text")?;
        let id = j.text("id")?;
        let public_metrics = PublicMetrics::from_json(j.member("public_metrics")?)?;
        let created_at = j.text("created_at")?;
        let author_id = j.text("author_id")?;
        Some(TwitterHomeItem { text, id, public_metrics, created_at, author_id })
    }
}

impl<T: FromJson> FromJson for Vec<T> {
    /// Whether a document is an array of readable items.
    open spec fn readable(v: JsonValue) -> bool {
        v is Array && forall|i: int|
            0 <= i < v->Array_0.len() ==> T::readable(#[trigger] v->Array_0[i])
    }

    /// Whether the items say, one by one and in order, what an array says.
    open spec fn agrees(self, v: JsonValue) -> bool {
        v is Array && self@.len() == v->Array_0.len() && forall|i: int|
            0 <= i < self@.len() ==> (#[trigger] self@[i]).agrees(v->Array_0[i])
    }

    /// Reads the items of an array, in order.
    fn from_json(j: &Json) -> (out: Option<Self>) {
        match j {
            Json::Array(items) => {
                let ghost all = j.value()->Array_0;
                let mut out: Vec<T> = Vec::new();
                let mut i: usize = 0;
                while i < items.len()
                    invariant
                        i <= items.len(),
                        j.value() == JsonValue::Array(all),
                        all.len() == items@.len(),
                        forall|k: int| 0 <= k < items@.len() ==> all[k] == items@[k].value(),
                        out@.len() == i,
                        forall|k: int| 0 <= k < i ==> T::readable(#[trigger] all[k]),
                        forall|k: int| 0 <= k < i ==> (#[trigger] out@[k]).agrees(all[k]),
                    decreases items.len() - i,
                {
                    match T::from_json(&items[i]) {
                        Some(item) => {
                            out.push(item);
                        },
                        None => {
                            assert(!T::readable(j.value()->Array_0[i as int]));
                            assert(!Self::readable(j.value()));
                            return None;
                        },
                    }
                    i = i + 1;
                }
                Some(out)
            },
            _ => None,
        }
    }
}

impl<T: FromJson> FromJson for TwitterResponse<T> {
    /// Whether a document has a readable result under `data`.
    open spec fn readable(v: JsonValue) -> bool {
        data_of(v) matches Some(d) && T::readable(d)
    }

    /// Whether the result says what the document says under `data`.
    open spec fn agrees(self, v: JsonValue) -> bool {
        data_of(v) matches Some(d) && self.data.agrees(d)
    }

    /// Reads the result from under `data`.
    fn from_json(j: &Json) -> (out: Option<Self>) {
        let data = T::from_json(j.member("data")?)?;
        Some(TwitterResponse { data })
    }
}

} // verus!
