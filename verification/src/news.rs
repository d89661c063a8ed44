//! The latest-news endpoint.

use vstd::prelude::*;

use crate::error::{ApiError, ApiErrorV, JsonKind};
use crate::fields::{
    combine, def_str, lemma_combine_empty, lemma_combine_fin, lemma_combine_step, root_arr,
    v_def_str, v_root_arr,
};
use crate::json::{json_of_text, parse_text, Json};

verus! {

/// One news posting.  Every field defaults to the empty string where
/// the source omits it.
#[derive(Debug, PartialEq, Eq, Clone)]
pub struct NewsData {
    pub title: String,
    pub date: String,
    pub forum_thread: String,
    pub author: String,
    pub content: String,
    pub comments: String,
}

/// Mathematical image of a [`NewsData`].
pub struct NewsDataV {
    pub title: Seq<char>,
    pub date: Seq<char>,
    pub forum_thread: Seq<char>,
    pub author: Seq<char>,
    pub content: Seq<char>,
    pub comments: Seq<char>,
}

impl View for NewsData {
    type V = NewsDataV;

    open spec fn view(&self) -> NewsDataV {
        NewsDataV {
            title: self.title@,
            date: self.date@,
            forum_thread: self.forum_thread@,
            author: self.author@,
            content: self.content@,
            comments: self.comments@,
        }
    }
}

/// One news item read from an object's entries.
pub open spec fn v_news(o: Seq<(String, Json)>) -> NewsDataV {
    NewsDataV {
        title: v_def_str(o, "title"@),
        date: v_def_str(o, "date"@),
        forum_thread: v_def_str(o, "forumThread"@),
        author: v_def_str(o, "author"@),
        content: v_def_str(o, "content"@),
        comments: v_def_str(o, "comments"@),
    }
}

/// One element of the news list, which must be an object.
pub open spec fn v_news_item(j: Json) -> Result<NewsDataV, ApiErrorV> {
    match j {
        Json::Obj(entries) => Ok(v_news(entries@)),
        _ => Err(ApiErrorV::Schema { field: Seq::empty(), expected: JsonKind::Obj }),
    }
}

pub open spec fn v_news_list_from(items: Seq<Json>, i: int) -> Result<Seq<NewsDataV>, ApiErrorV>
    decreases items.len() - i,
{
    if i < 0 || i >= items.len() {
        Ok(Seq::empty())
    } else {
        match v_news_item(items[i]) {
            Err(e) => Err(e),
            Ok(x) => combine(seq![x], v_news_list_from(items, i + 1)),
        }
    }
}

/// The whole news document: an array of news objects, mapped
/// fail-fast.
pub open spec fn v_news_list(j: Json) -> Result<Seq<NewsDataV>, ApiErrorV> {
    match v_root_arr(j) {
        Err(e) => Err(e),
        Ok(items) => v_news_list_from(items, 0),
    }
}

pub open spec fn v_news_response(s: Seq<char>) -> Result<Seq<NewsDataV>, ApiErrorV> {
    match json_of_text(s) {
        None => Err(ApiErrorV::Format),
        Some(j) => v_news_list(j),
    }
}

pub open spec fn news_view(s: Seq<NewsData>) -> Seq<NewsDataV> {
    s.map_values(|x: NewsData| x@)
}

pub fn news_from_json(j: &Json) -> (r: Result<Vec<NewsData>, ApiError>)
    ensures
        match r {
            Ok(xs) => v_news_list(*j) == Ok::<_, ApiErrorV>(news_view(xs@)),
            Err(e) => v_news_list(*j) == Err::<Seq<NewsDataV>, _>(e@),
        },
{
    let items = match root_arr(j) {
        Ok(items) => items,
        Err(e) => {
            return Err(e);
        },
    };
    let mut acc: Vec<NewsData> = Vec::new();
    let n = items.len();
    proof {
        lemma_combine_empty(v_news_list_from(items@, 0));
        assert(news_view(acc@) =~= Seq::<NewsDataV>::empty());
    }
    for i in 0..n
        invariant
            n == items@.len(),
            v_news_list(*j) == combine(news_view(acc@), v_news_list_from(items@, i as int)),
    {
        let o = match &items[i] {
            Json::Obj(entries) => entries,
            _ => {
                return Err(ApiError::Schema { field: String::new(), expected: JsonKind::Obj });
            },
        };
        let x = NewsData {
            title: def_str(o, "title"),
            date: def_str(o, "date"),
            forum_thread: def_str(o, "forumThread"),
            author: def_str(o, "author"),
            content: def_str(o, "content"),
            comments: def_str(o, "comments"),
        };
        proof {
            lemma_combine_step(news_view(acc@), x@, v_news_list_from(items@, i + 1));
            assert(news_view(acc@.push(x)) =~= news_view(acc@).push(x@));
        }
        acc.push(x);
    }
    proof {
        lemma_combine_fin(news_view(acc@));
    }
    Ok(acc)
}

/// Map a whole latest-news response body.
pub fn news_from_response(text: &str) -> (r: Result<Vec<NewsData>, ApiError>)
    ensures
        match r {
            Ok(xs) => v_news_response(text@) == Ok::<_, ApiErrorV>(news_view(xs@)),
            Err(e) => v_news_response(text@) == Err::<Seq<NewsDataV>, _>(e@),
        },
{
    match parse_text(text) {
        Ok(j) => news_from_json(&j),
        Err(e) => Err(e),
    }
}

} // verus!
