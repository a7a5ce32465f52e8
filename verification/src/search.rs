//! The tiered search provider.  A query is first biased toward
//! chronology sources, then resolved through three tiers: a structured
//! instant-answer summary, a scrape of an HTML results page, and a
//! deterministic fallback suggestion that always succeeds — so a search
//! never fails for a non-empty query.
//!
//! The network fetches themselves happen outside the library; each tier
//! here turns a fetched payload into a summary, and the caller moves to
//! the next tier exactly when the previous one yielded nothing.

use vstd::prelude::*;
use crate::episodes::dec_str;
use crate::text::{contains_seq, join_sep, lower_of, strip_tags_spec, words};
use crate::urlenc::form_encoded;
use crate::htmlsel::hits_of;

verus! {

/// One related topic of an instant answer.
#[derive(Debug)]
pub struct Topic {
    pub text: Option<String>,
    pub url: Option<String>,
}

/// The mathematical value of a [`Topic`].
pub ghost struct TopicView {
    pub text: Option<Seq<char>>,
    pub url: Option<Seq<char>>,
}

impl View for Topic {
    type V = TopicView;

    open spec fn view(&self) -> TopicView {
        TopicView {
            text: crate::episodes::opt_view(self.text),
            url: crate::episodes::opt_view(self.url),
        }
    }
}

impl DeepView for Topic {
    type V = TopicView;

    open spec fn deep_view(&self) -> TopicView {
        self@
    }
}

/// The fields consumed from an instant-answer response.
#[derive(Debug)]
pub struct InstantAnswer {
    pub abstract_text: String,
    pub abstract_url: Option<String>,
    pub topics: Vec<Topic>,
}

/// The mathematical value of an [`InstantAnswer`].
pub ghost struct InstantAnswerView {
    pub abstract_text: Seq<char>,
    pub abstract_url: Option<Seq<char>>,
    pub topics: Seq<TopicView>,
}

impl View for InstantAnswer {
    type V = InstantAnswerView;

    open spec fn view(&self) -> InstantAnswerView {
        InstantAnswerView {
            abstract_text: self.abstract_text@,
            abstract_url: crate::episodes::opt_view(self.abstract_url),
            topics: self.topics.deep_view(),
        }
    }
}

/// The query with chronology bias keywords appended.
pub open spec fn enhanced_query(q: Seq<char>) -> Seq<char> {
    if contains_seq(lower_of(q), "käthe und ich"@) || contains_seq(lower_of(q), "kathe und ich"@) {
        q + " episoden reihenfolge chronologisch wikipedia fernsehserien.de"@
    } else {
        q + " episodes chronological order episode guide"@
    }
}

/// Appends chronology bias keywords to the query.
pub fn enhance_query(query: &str) -> (r: String)
    ensures
        r@ == enhanced_query(query@),
{
    let lowered = crate::text::lowercase(query);
    let lv = crate::text::chars_of(lowered.as_str());
    let kaethe = crate::text::chars_of("käthe und ich");
    let kathe = crate::text::chars_of("kathe und ich");
    let mut r = String::new();
    r.append(query);
    if crate::text::contains_chars(&lv, &kaethe) || crate::text::contains_chars(&lv, &kathe) {
        r.append(" episoden reihenfolge chronologisch wikipedia fernsehserien.de");
    } else {
        r.append(" episodes chronological order episode guide");
    }
    r
}

/// The instant-answer request URL for a query.
pub open spec fn tier1_url(q: Seq<char>) -> Seq<char> {
    "https://api.duckduckgo.com/?q="@ + form_encoded(enhanced_query(q))
        + "&format=json&no_html=1&skip_disambig=1"@
}

/// Builds the instant-answer request URL.
pub fn instant_answer_url(query: &str) -> (r: String)
    ensures
        r@ == tier1_url(query@),
{
    let enhanced = enhance_query(query);
    let encoded = crate::urlenc::encode(enhanced.as_str());
    let mut r = String::new();
    r.append("https://api.duckduckgo.com/?q=");
    r.append(encoded.as_str());
    r.append("&format=json&no_html=1&skip_disambig=1");
    proof {
        assert(r@ =~= tier1_url(query@));
    }
    r
}

/// The HTML results page URL for a query.
pub open spec fn tier2_url(q: Seq<char>) -> Seq<char> {
    "https://duckduckgo.com/html/?q="@ + form_encoded(enhanced_query(q))
}

/// Builds the HTML results page URL.
pub fn scrape_url(query: &str) -> (r: String)
    ensures
        r@ == tier2_url(query@),
{
    let enhanced = enhance_query(query);
    let encoded = crate::urlenc::encode(enhanced.as_str());
    let mut r = String::new();
    r.append("https://duckduckgo.com/html/?q=");
    r.append(encoded.as_str());
    proof {
        assert(r@ =~= tier2_url(query@));
    }
    r
}

/// The summary lines contributed by the abstract.
pub open spec fn abstract_lines(a: InstantAnswerView) -> Seq<Seq<char>> {
    if a.abstract_text.len() == 0 {
        Seq::empty()
    } else {
        seq![("Abstract: "@ + a.abstract_text)] + (match a.abstract_url {
            Some(u) => seq![("Source: "@ + u)],
            None => Seq::empty(),
        })
    }
}

/// The summary lines contributed by one related topic, numbered `n`.
pub open spec fn topic_lines(t: TopicView, n: int) -> Seq<Seq<char>> {
    (match t.text {
        Some(x) => seq![("Related "@ + dec_str(n) + ": "@ + x)],
        None => Seq::empty(),
    }) + (match t.url {
        Some(u) => seq![("URL: "@ + u)],
        None => Seq::empty(),
    })
}

/// The summary lines of a topic list, numbered from one.
pub open spec fn topics_lines(ts: Seq<TopicView>) -> Seq<Seq<char>>
    decreases ts.len(),
{
    if ts.len() == 0 {
        Seq::empty()
    } else {
        topics_lines(ts.drop_last()) + topic_lines(ts.last(), ts.len() as int)
    }
}

/// At most this many related topics contribute to the summary.
pub const TOPIC_CAP: usize = 3;

/// All summary lines of an instant answer.
pub open spec fn tier1_lines(a: InstantAnswerView) -> Seq<Seq<char>> {
    abstract_lines(a) + topics_lines(
        if a.topics.len() > TOPIC_CAP as int {
            a.topics.take(TOPIC_CAP as int)
        } else {
            a.topics
        },
    )
}

/// Summarises an instant answer, or yields `None` when it contributes
/// nothing — which sends the caller to the next tier.
pub fn instant_answer_summary(ans: &InstantAnswer) -> (r: Option<String>)
    ensures
        r is Some <==> tier1_lines(ans@).len() > 0,
        r matches Some(s) ==> s@ == join_sep(tier1_lines(ans@), "\n\n"@),
{
    let mut lines: Vec<String> = Vec::new();
    proof {
        assert(lines.deep_view() =~= Seq::<Seq<char>>::empty());
    }
    if !ans.abstract_text.as_str().is_empty() {
        let mut l = String::new();
        l.append("Abstract: ");
        l.append(ans.abstract_text.as_str());
        let ghost pre = lines.deep_view();
        lines.push(l);
        proof {
            assert(lines.deep_view() =~= pre.push("Abstract: "@ + ans.abstract_text@));
        }
        match &ans.abstract_url {
            Some(u) => {
                let mut l2 = String::new();
                l2.append("Source: ");
                l2.append(u.as_str());
                let ghost pre2 = lines.deep_view();
                lines.push(l2);
                proof {
                    assert(lines.deep_view() =~= pre2.push("Source: "@ + u@));
                }
            },
            None => {},
        }
    }
    proof {
        assert(lines.deep_view() =~= abstract_lines(ans@));
    }
    let count = if ans.topics.len() > TOPIC_CAP {
        TOPIC_CAP
    } else {
        ans.topics.len()
    };
    let ghost capped = if ans@.topics.len() > TOPIC_CAP as int {
        ans@.topics.take(TOPIC_CAP as int)
    } else {
        ans@.topics
    };
    proof {
        assert(capped =~= ans@.topics.take(count as int));
    }
    let mut i: usize = 0;
    while i < count
        invariant
            count <= ans.topics@.len(),
            ans@.topics.len() == ans.topics@.len(),
            capped == ans@.topics.take(count as int),
            i <= count,
            lines.deep_view() == abstract_lines(ans@) + topics_lines(ans@.topics.take(i as int)),
        decreases count - i,
    {
        let t = &ans.topics[i];
        proof {
            assert(ans@.topics[i as int] == t@);
        }
        match &t.text {
            Some(x) => {
                let mut l = String::new();
                l.append("Related ");
                crate::episodes::append_u64(&mut l, (i as u64) + 1);
                l.append(": ");
                l.append(x.as_str());
                let ghost pre = lines.deep_view();
                lines.push(l);
                proof {
                    assert(lines.deep_view() =~= pre.push(
                        "Related "@ + dec_str(i + 1) + ": "@ + x@,
                    ));
                }
            },
            None => {},
        }
        match &t.url {
            Some(u) => {
                let mut l = String::new();
                l.append("URL: ");
                l.append(u.as_str());
                let ghost pre = lines.deep_view();
                lines.push(l);
                proof {
                    assert(lines.deep_view() =~= pre.push("URL: "@ + u@));
                }
            },
            None => {},
        }
        i = i + 1;
        proof {
            let ts = ans@.topics.take(i as int);
            assert(ts.drop_last() =~= ans@.topics.take(i - 1));
            assert(ts.last() == ans@.topics[i - 1]);
            assert(ts.len() == i as int);
            assert(lines.deep_view() =~= abstract_lines(ans@) + topics_lines(ts));
        }
    }
    proof {
        assert(lines.deep_view() =~= tier1_lines(ans@));
    }
    if lines.len() == 0 {
        proof {
            assert(tier1_lines(ans@).len() == 0);
        }
        None
    } else {
        Some(crate::text::join_strings(&lines, "\n\n"))
    }
}

/// One formatted result block, numbered `n`: title and snippet with
/// markup stripped, an absent title replaced by a placeholder, an
/// absent link or snippet left empty.
pub open spec fn hit_block(
    h: (Option<Seq<char>>, Option<Seq<char>>, Option<Seq<char>>),
    n: int,
) -> Seq<char> {
    "Title: "@ + strip_tags_spec(
        match h.0 {
            Some(t) => t,
            None => "Result "@ + dec_str(n),
        },
    ) + "\nURL: "@ + (match h.1 {
        Some(u) => u,
        None => Seq::empty(),
    }) + "\nSnippet: "@ + strip_tags_spec(
        match h.2 {
            Some(s) => s,
            None => Seq::empty(),
        },
    )
}

/// The formatted blocks of a hit list, numbered from one.
pub open spec fn scrape_blocks(
    hits: Seq<(Option<Seq<char>>, Option<Seq<char>>, Option<Seq<char>>)>,
) -> Seq<Seq<char>>
    decreases hits.len(),
{
    if hits.len() == 0 {
        Seq::empty()
    } else {
        scrape_blocks(hits.drop_last()).push(hit_block(hits.last(), hits.len() as int))
    }
}

/// At most this many result blocks contribute to the summary.
pub const HIT_CAP: usize = 5;

/// The summary scraped from an HTML results page.
pub open spec fn scrape_summary_spec(html: Seq<char>) -> Seq<char> {
    let hits = hits_of(html, "div.result"@, "a.result__a"@, "a.result__snippet"@);
    let capped = if hits.len() > HIT_CAP as int {
        hits.take(HIT_CAP as int)
    } else {
        hits
    };
    if capped.len() == 0 {
        "No search results found."@
    } else {
        join_sep(scrape_blocks(capped), "\n\n---\n\n"@)
    }
}

/// Scrapes up to [`HIT_CAP`] result blocks from an HTML results page
/// and formats them; a page without result blocks yields a fixed
/// notice.
pub fn scrape_results_summary(html: &str) -> (r: String)
    ensures
        r@ == scrape_summary_spec(html@),
{
    let hits = crate::htmlsel::select_hits(html, "div.result", "a.result__a", "a.result__snippet");
    let count = if hits.len() > HIT_CAP {
        HIT_CAP
    } else {
        hits.len()
    };
    let ghost hdv = hits.deep_view();
    let ghost capped = if hdv.len() > HIT_CAP as int {
        hdv.take(HIT_CAP as int)
    } else {
        hdv
    };
    proof {
        assert(capped =~= hdv.take(count as int));
    }
    let mut blocks: Vec<String> = Vec::new();
    proof {
        assert(blocks.deep_view() =~= Seq::<Seq<char>>::empty());
        assert(scrape_blocks(hdv.take(0)) =~= Seq::<Seq<char>>::empty());
    }
    let mut i: usize = 0;
    while i < count
        invariant
            count <= hits@.len(),
            hdv == hits.deep_view(),
            hdv.len() == hits@.len(),
            capped == hdv.take(count as int),
            i <= count,
            blocks.deep_view() == scrape_blocks(hdv.take(i as int)),
        decreases count - i,
    {
        let h = &hits[i];
        proof {
            assert(hdv[i as int] == hits@[i as int].deep_view());
        }
        let title_source = match &h.0 {
            Some(t) => t.clone(),
            None => {
                let mut d = String::new();
                d.append("Result ");
                crate::episodes::append_u64(&mut d, (i as u64) + 1);
                d
            },
        };
        let stripped_title = crate::text::strip_html_tags(title_source.as_str());
        let snippet_source = match &h.2 {
            Some(s) => s.clone(),
            None => String::new(),
        };
        let stripped_snippet = crate::text::strip_html_tags(snippet_source.as_str());
        let mut block = String::new();
        block.append("Title: ");
        block.append(stripped_title.as_str());
        block.append("\nURL: ");
        match &h.1 {
            Some(u) => block.append(u.as_str()),
            None => {},
        }
        block.append("\nSnippet: ");
        block.append(stripped_snippet.as_str());
        proof {
            assert(block@ =~= hit_block(hdv[i as int], i + 1));
        }
        let ghost pre = blocks.deep_view();
        blocks.push(block);
        i = i + 1;
        proof {
            assert(blocks.deep_view() =~= pre.push(hit_block(hdv[i - 1], i as int)));
            let hs = hdv.take(i as int);
            assert(hs.drop_last() =~= hdv.take(i - 1));
            assert(hs.last() == hdv[i - 1]);
            assert(hs.len() == i as int);
            assert(blocks.deep_view() =~= scrape_blocks(hs));
        }
    }
    if blocks.len() == 0 {
        let mut r = String::new();
        r.append("No search results found.");
        r
    } else {
        crate::text::join_strings(&blocks, "\n\n---\n\n")
    }
}

/// The first words of the query joined by underscores, used to point at
/// reference sites.
pub open spec fn series_token(q: Seq<char>) -> Seq<char> {
    let ws = words(q);
    join_sep(
        if ws.len() > 3 {
            ws.take(3)
        } else {
            ws
        },
        "_"@,
    )
}

/// The deterministic last-tier suggestion text for a query.
pub open spec fn fallback_spec(q: Seq<char>) -> Seq<char> {
    "Search failed for '"@ + q
        + "'. Try these German TV resources:\n- Wikipedia DE: https://de.wikipedia.org/wiki/"@
        + form_encoded(series_token(q)) + "\n- Fernsehserien.de: https://www.fernsehserien.de/suche/"@
        + form_encoded(q) + "\n- IMDB: https://www.imdb.com/find?q="@ + form_encoded(q)
        + "\n\nFor 'Käthe und ich' specifically, search for:\n- 'Käthe und ich episoden reihenfolge'\n- 'Käthe und ich chronologie'\n- Production years and air dates to determine correct order"@
}

/// Builds the last-tier suggestion text.  It always succeeds, is never
/// empty, and quotes the query verbatim.
pub fn fallback_suggestions(query: &str) -> (r: String)
    ensures
        r@ == fallback_spec(query@),
        crate::text::contains_seq(r@, query@),
        r@.len() > 0,
{
    let mut ws = crate::text::split_words(query);
    if ws.len() > 3 {
        ws.truncate(3);
        proof {
            assert(ws.deep_view() =~= words(query@).take(3));
        }
    }
    let token = crate::text::join_strings(&ws, "_");
    let enc_token = crate::urlenc::encode(token.as_str());
    let enc_query = crate::urlenc::encode(query);
    let mut r = String::new();
    r.append("Search failed for '");
    r.append(query);
    r.append("'. Try these German TV resources:\n- Wikipedia DE: https://de.wikipedia.org/wiki/");
    r.append(enc_token.as_str());
    r.append("\n- Fernsehserien.de: https://www.fernsehserien.de/suche/");
    r.append(enc_query.as_str());
    r.append("\n- IMDB: https://www.imdb.com/find?q=");
    r.append(enc_query.as_str());
    r.append(
        "\n\nFor 'Käthe und ich' specifically, search for:\n- 'Käthe und ich episoden reihenfolge'\n- 'Käthe und ich chronologie'\n- Production years and air dates to determine correct order",
    );
    proof {
        assert(r@ =~= fallback_spec(query@));
        reveal_strlit("Search failed for '");
        assert("Search failed for '"@.len() == 19);
        assert(r@.subrange(19, 19 + query@.len() as int) =~= query@);
        assert(crate::text::contains_at(r@, query@, 19));
    }
    r
}

} // verus!
