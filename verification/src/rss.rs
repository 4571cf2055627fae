//! The feed side of the engine: the configured feed list, assembling an
//! article from one raw feed entry, and merging the per-feed batches into a
//! single newest-first inbox sequence.

use vstd::multiset::Multiset;
use vstd::prelude::*;

use crate::model::Article;
use crate::strings::{push_str, trim, trim_of};

verus! {

broadcast use vstd::seq_lib::group_to_multiset_ensures;

/// One configured feed: a display name and the URL the fetch side pulls.
#[derive(Debug, Clone, Copy)]
pub struct Feed {
    pub name: &'static str,
    pub url: &'static str,
}

/// The built-in feed list, in the order the fetch side tries them.
pub fn default_feeds() -> (feeds: Vec<Feed>)
    ensures
        feeds@.len() == 6,
        feeds@[0].name@ == "BBC"@,
        feeds@[1].name@ == "Sky"@,
        feeds@[2].name@ == "FT"@,
        feeds@[3].name@ == "New York Times"@,
        feeds@[4].name@ == "Independent"@,
        feeds@[5].name@ == "Guardian"@,
        feeds@[0].url@ == "https://feeds.bbci.co.uk/news/rss.xml"@,
        feeds@[1].url@ == "https://feeds.skynews.com/feeds/rss/home.xml"@,
        feeds@[2].url@ == "https://www.ft.com/world?format=rss"@,
        feeds@[3].url@
            == "https://www.nytimes.com/svc/collections/v1/publish/https://www.nytimes.com/section/world/rss.xml"@,
        feeds@[4].url@ == "http://www.independent.co.uk/news/world/rss"@,
        feeds@[5].url@ == "https://www.theguardian.com/world/rss"@,
{
    let mut feeds: Vec<Feed> = Vec::new();
    feeds.push(Feed { name: "BBC", url: "https://feeds.bbci.co.uk/news/rss.xml" });
    feeds.push(Feed { name: "Sky", url: "https://feeds.skynews.com/feeds/rss/home.xml" });
    feeds.push(Feed { name: "FT", url: "https://www.ft.com/world?format=rss" });
    feeds.push(
        Feed {
            name: "New York Times",
            url: "https://www.nytimes.com/svc/collections/v1/publish/https://www.nytimes.com/section/world/rss.xml",
        },
    );
    feeds.push(Feed { name: "Independent", url: "http://www.independent.co.uk/news/world/rss" });
    feeds.push(Feed { name: "Guardian", url: "https://www.theguardian.com/world/rss" });
    feeds
}

/// The timestamp parsed out of an RFC 2822 date string, as chrono parses
/// it: seconds since the Unix epoch, or nothing when the string is not a
/// valid RFC 2822 date. A function of the string alone, so only named here.
pub uninterp spec fn rfc2822_ts_of(s: Seq<char>) -> Option<i64>;

/// Relies on chrono's `DateTime::parse_from_rfc2822` and `timestamp`: a
/// valid RFC 2822 date string parses to its Unix timestamp, anything else
/// to nothing, depending on the string alone.
#[verifier::external_body]
fn parse_rfc2822_timestamp(s: &str) -> (r: Option<i64>)
    ensures
        r == rfc2822_ts_of(s@),
{
    match chrono::DateTime::parse_from_rfc2822(s) {
        Ok(dt) => Some(dt.timestamp()),
        Err(_) => None,
    }
}

/// The text an optional raw field contributes: the field itself when
/// present, the fallback otherwise.
pub open spec fn opt_text(o: Option<String>, dflt: Seq<char>) -> Seq<char> {
    match o {
        Some(s) => s@,
        None => dflt,
    }
}

/// The link an article would get from a raw entry: the trimmed link field,
/// empty when the field is missing or blank.
pub open spec fn built_link(link: Option<String>) -> Seq<char> {
    trim_of(opt_text(link, ""@))
}

/// Assembles one article from the raw fields of a feed entry: trimmed
/// title (or a placeholder), trimmed summary from the description or, when
/// that is missing, the content, the published timestamp parsed from the
/// RFC 2822 date field, and an identifier of the form `source::link`.
/// Entries whose trimmed link is empty are dropped: exactly then the
/// result is nothing.
pub fn build_article(
    source: &str,
    title: Option<String>,
    link: Option<String>,
    description: Option<String>,
    content: Option<String>,
    pub_date: Option<String>,
) -> (r: Option<Article>)
    ensures
        r is Some <==> built_link(link).len() > 0,
        r matches Some(a) ==> {
            &&& a.source@ == source@
            &&& a.title@ == trim_of(opt_text(title, "Untitled"@))
            &&& a.summary@ == trim_of(opt_text(description, opt_text(content, ""@)))
            &&& a.link@ == built_link(link)
            &&& a.id@ == source@ + "::"@ + built_link(link)
            &&& a.published == (match pub_date {
                Option::Some(p) => rfc2822_ts_of(p@),
                Option::None => Option::<i64>::None,
            })
        },
{
    let l0: &str = match &link {
        Some(l) => l.as_str(),
        None => "",
    };
    let l = trim(l0);
    if l.is_empty() {
        return None;
    }
    let t0: &str = match &title {
        Some(t) => t.as_str(),
        None => "Untitled",
    };
    let t = trim(t0);
    let s0: &str = match &description {
        Some(d) => d.as_str(),
        None => match &content {
            Some(c) => c.as_str(),
            None => "",
        },
    };
    let s = trim(s0);
    let published = match &pub_date {
        Some(p) => parse_rfc2822_timestamp(p.as_str()),
        None => None,
    };
    let mut id = String::new();
    push_str(&mut id, source);
    push_str(&mut id, "::");
    push_str(&mut id, l);
    Some(
        Article {
            id,
            source: source.to_owned(),
            title: t.to_owned(),
            summary: s.to_owned(),
            link: l.to_owned(),
            published,
        },
    )
}

/// The sort key of an article, descending: its timestamp, with undated
/// articles below every dated one.
pub open spec fn key_of(a: Article) -> int {
    match a.published {
        Some(t) => t as int,
        None => (i64::MIN as int) - 1,
    }
}

/// Newest first: keys never grow along the sequence.
pub open spec fn sorted_desc(s: Seq<Article>) -> bool {
    forall|i: int, j: int| 0 <= i < j < s.len() ==> key_of(s[i]) >= key_of(s[j])
}

/// Stable insertion: `x` goes after every element whose key is at least as
/// large, so an equal-keyed element that arrived earlier stays in front.
pub open spec fn insert_sorted(s: Seq<Article>, x: Article) -> Seq<Article>
    decreases s.len(),
{
    if s.len() == 0 {
        seq![x]
    } else if key_of(s[0]) >= key_of(x) {
        seq![s[0]] + insert_sorted(s.drop_first(), x)
    } else {
        seq![x] + s
    }
}

/// The stable newest-first sort: elements are inserted left to right, each
/// behind the equal-keyed ones already placed, so ties keep input order.
pub open spec fn sort_spec(s: Seq<Article>) -> Seq<Article>
    decreases s.len(),
{
    if s.len() == 0 {
        Seq::empty()
    } else {
        insert_sorted(sort_spec(s.drop_last()), s.last())
    }
}

/// Exec comparison matching `key_of`: `a` may stay in front of `b`.
fn key_ge(a: &Article, b: &Article) -> (r: bool)
    ensures
        r == (key_of(*a) >= key_of(*b)),
{
    match (a.published, b.published) {
        (Some(ta), Some(tb)) => ta >= tb,
        (Some(_), None) => true,
        (None, None) => true,
        (None, Some(_)) => false,
    }
}

/// Inserting at the first position whose key is smaller is exactly what
/// `insert_sorted` does.
proof fn lemma_insert_at(s: Seq<Article>, x: Article, j: int)
    requires
        0 <= j <= s.len(),
        forall|k: int| 0 <= k < j ==> key_of(#[trigger] s[k]) >= key_of(x),
        j < s.len() ==> key_of(s[j]) < key_of(x),
    ensures
        insert_sorted(s, x) == s.insert(j, x),
    decreases s.len(),
{
    if j == 0 {
        if s.len() == 0 {
            assert(insert_sorted(s, x) =~= s.insert(0, x));
        } else {
            assert(insert_sorted(s, x) =~= s.insert(0, x));
        }
    } else {
        lemma_insert_at(s.drop_first(), x, j - 1);
        assert(insert_sorted(s, x) == seq![s[0]] + s.drop_first().insert(j - 1, x));
        assert(seq![s[0]] + s.drop_first().insert(j - 1, x) =~= s.insert(j, x));
    }
}

/// Stable insertion keeps the multiset of articles, adding the new one.
proof fn lemma_insert_sorted_multiset(s: Seq<Article>, x: Article)
    ensures
        insert_sorted(s, x).to_multiset() == s.to_multiset().insert(x),
    decreases s.len(),
{
    if s.len() == 0 {
        assert(insert_sorted(s, x) =~= Seq::empty().push(x));
        assert(Seq::<Article>::empty().push(x).to_multiset() =~= Seq::<
            Article,
        >::empty().to_multiset().insert(x));
        assert(s.to_multiset() =~= Seq::<Article>::empty().to_multiset());
    } else if key_of(s[0]) >= key_of(x) {
        lemma_insert_sorted_multiset(s.drop_first(), x);
        let rest = insert_sorted(s.drop_first(), x);
        assert(insert_sorted(s, x) =~= seq![s[0]] + rest);
        vstd::seq_lib::lemma_multiset_commutative(seq![s[0]], rest);
        vstd::seq_lib::lemma_multiset_commutative(seq![s[0]], s.drop_first());
        assert(s =~= seq![s[0]] + s.drop_first());
        assert(insert_sorted(s, x).to_multiset() =~= s.to_multiset().insert(x));
    } else {
        assert(insert_sorted(s, x) =~= seq![x] + s);
        vstd::seq_lib::lemma_multiset_commutative(seq![x], s);
        assert(seq![x].to_multiset() =~= Multiset::<Article>::empty().insert(x));
        assert(insert_sorted(s, x).to_multiset() =~= s.to_multiset().insert(x));
    }
}

/// Stable insertion into a newest-first sequence keeps it newest-first.
proof fn lemma_insert_sorted_sorted(s: Seq<Article>, x: Article)
    requires
        sorted_desc(s),
    ensures
        sorted_desc(insert_sorted(s, x)),
    decreases s.len(),
{
    if s.len() == 0 {
    } else if key_of(s[0]) >= key_of(x) {
        assert(sorted_desc(s.drop_first()));
        lemma_insert_sorted_sorted(s.drop_first(), x);
        let rest = insert_sorted(s.drop_first(), x);
        let whole = seq![s[0]] + rest;
        lemma_insert_sorted_multiset(s.drop_first(), x);
        assert forall|i: int, j: int| 0 <= i < j < whole.len() implies key_of(whole[i]) >= key_of(
            whole[j],
        ) by {
            if i == 0 {
                assert(whole[j] == rest[j - 1]);
                assert(rest.to_multiset().contains(rest[j - 1]));
                assert(s.drop_first().to_multiset().insert(x).contains(rest[j - 1]));
                if s.drop_first().to_multiset().contains(rest[j - 1]) {
                    assert(s.drop_first().contains(rest[j - 1]));
                    let w = choose|w: int|
                        0 <= w < s.drop_first().len() && s.drop_first()[w] == rest[j - 1];
                    assert(s.drop_first()[w] == s[w + 1]);
                    assert(key_of(s[0]) >= key_of(s[w + 1]));
                } else {
                    assert(rest[j - 1] == x);
                }
            } else {
                assert(whole[i] == rest[i - 1]);
                assert(whole[j] == rest[j - 1]);
            }
        }
    } else {
        let whole = seq![x] + s;
        assert forall|i: int, j: int| 0 <= i < j < whole.len() implies key_of(whole[i]) >= key_of(
            whole[j],
        ) by {
            if i == 0 {
                assert(whole[j] == s[j - 1]);
                if j - 1 > 0 {
                    assert(key_of(s[0]) >= key_of(s[j - 1]));
                }
            } else {
                assert(whole[i] == s[i - 1]);
                assert(whole[j] == s[j - 1]);
            }
        }
    }
}

/// The sorted sequence is newest-first and holds exactly the input
/// articles: sorting neither loses, invents nor duplicates an item.
pub proof fn lemma_sort_spec_correct(s: Seq<Article>)
    ensures
        sorted_desc(sort_spec(s)),
        sort_spec(s).to_multiset() == s.to_multiset(),
        sort_spec(s).len() == s.len(),
    decreases s.len(),
{
    if s.len() == 0 {
        assert(s.to_multiset() =~= Seq::<Article>::empty().to_multiset());
    } else {
        lemma_sort_spec_correct(s.drop_last());
        lemma_insert_sorted_sorted(sort_spec(s.drop_last()), s.last());
        lemma_insert_sorted_multiset(sort_spec(s.drop_last()), s.last());
        assert(s.drop_last().push(s.last()) =~= s);
        assert(s.drop_last().push(s.last()).to_multiset() == s.drop_last().to_multiset().insert(
            s.last(),
        ));
        assert(sort_spec(s).to_multiset() =~= s.to_multiset());
        assert(sort_spec(s).to_multiset().len() == sort_spec(s).len());
        assert(s.to_multiset().len() == s.len());
    }
}

/// The first position in `sorted` whose key is smaller than `x`'s, or the
/// length when every key is at least as large: where stable insertion puts
/// `x`.
fn find_insert_pos(sorted: &Vec<Article>, x: &Article) -> (j: usize)
    ensures
        j <= sorted@.len(),
        forall|k: int| 0 <= k < j ==> key_of(#[trigger] sorted@[k]) >= key_of(*x),
        j < sorted@.len() ==> key_of(sorted@[j as int]) < key_of(*x),
{
    let mut j: usize = 0;
    while j < sorted.len()
        invariant
            j <= sorted@.len(),
            forall|k: int| 0 <= k < j ==> key_of(#[trigger] sorted@[k]) >= key_of(*x),
        decreases sorted@.len() - j,
    {
        if !key_ge(&sorted[j], x) {
            return j;
        }
        j += 1;
    }
    j
}

/// Sorts the merged article list newest-first, undated articles last, ties
/// keeping input order: the result is exactly the stable sort of the
/// input.
pub fn sort_articles(items: Vec<Article>) -> (out: Vec<Article>)
    ensures
        out@ == sort_spec(items@),
{
    let mut rest = items;
    let mut out: Vec<Article> = Vec::new();
    let ghost orig = rest@;
    let ghost mut done: int = 0;
    while rest.len() > 0
        invariant
            0 <= done <= orig.len(),
            rest@ == orig.skip(done),
            out@ == sort_spec(orig.take(done)),
        decreases rest@.len(),
    {
        let x = rest.remove(0);
        proof {
            assert(x == orig[done]);
        }
        let j: usize = find_insert_pos(&out, &x);
        proof {
            lemma_insert_at(out@, x, j as int);
            assert(orig.take(done + 1).drop_last() =~= orig.take(done));
            assert(orig.take(done + 1).last() == orig[done]);
        }
        out.insert(j, x);
        proof {
            done = done + 1;
            assert(rest@ =~= orig.skip(done));
        }
    }
    proof {
        assert(orig.take(done) =~= orig);
    }
    out
}

/// The concatenation of the per-feed batches, in feed order.
pub open spec fn flatten_of(batches: Seq<Seq<Article>>) -> Seq<Article>
    decreases batches.len(),
{
    if batches.len() == 0 {
        Seq::empty()
    } else {
        flatten_of(batches.drop_last()) + batches.last()
    }
}

/// Merges the per-feed batches into one list and sorts it newest-first
/// (stable, undated articles last): the single sequence a successful
/// refresh cycle delivers.
pub fn merge_and_sort(batches: Vec<Vec<Article>>) -> (out: Vec<Article>)
    ensures
        out@ == sort_spec(flatten_of(batches@.map_values(|b: Vec<Article>| b@))),
{
    let ghost views = batches@.map_values(|b: Vec<Article>| b@);
    let mut rest = batches;
    let mut all: Vec<Article> = Vec::new();
    let ghost mut done: int = 0;
    while rest.len() > 0
        invariant
            0 <= done <= views.len(),
            rest@.map_values(|b: Vec<Article>| b@) =~= views.skip(done),
            all@ == flatten_of(views.take(done)),
        decreases rest@.len(),
    {
        let ghost pre = rest@;
        let mut b = rest.remove(0);
        proof {
            assert(pre.map_values(|b: Vec<Article>| b@).len() == pre.len());
            assert(views.skip(done).len() == views.len() - done);
            assert(done < views.len());
            assert(b@ == pre.map_values(|b: Vec<Article>| b@)[0]);
            assert(b@ == views.skip(done)[0]);
            assert(views.skip(done)[0] == views[done + 0]);
        }
        all.append(&mut b);
        proof {
            done = done + 1;
            assert(views.take(done).drop_last() =~= views.take(done - 1));
            assert(views.take(done).last() == views[done - 1]);
            assert forall|k: int| 0 <= k < rest@.len() implies rest@.map_values(
                |b: Vec<Article>| b@,
            )[k] == #[trigger] views.skip(done)[k] by {
                assert(rest@[k] == pre[k + 1]);
                assert(pre.map_values(|b: Vec<Article>| b@)[k + 1] == views.skip(done - 1)[k + 1]);
                assert(views.skip(done - 1)[k + 1] == views[done + k]);
                assert(rest@[k]@ == views[done + k]);
            }
        }
    }
    proof {
        assert(views.take(done) =~= views);
    }
    sort_articles(all)
}

} // verus!
