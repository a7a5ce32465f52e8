use mwb_agent::classify::{ErrorCategory, classify_error};
use mwb_agent::dispatch::read_result_text;
use mwb_agent::extract::{ExtractError, extract_from_html, upstream_check};
use mwb_agent::htmlsel::url_host;
use mwb_agent::search::{
    InstantAnswer, Topic, enhance_query, fallback_suggestions, instant_answer_summary,
    instant_answer_url, scrape_results_summary, scrape_url,
};

#[test]
fn auth_errors_are_classified_case_insensitively() {
    assert_eq!(classify_error("HTTP 401 from endpoint"), ErrorCategory::Auth);
    assert_eq!(classify_error("request was UNAUTHORIZED"), ErrorCategory::Auth);
    assert_eq!(classify_error("bad API KEY supplied"), ErrorCategory::Auth);
}

#[test]
fn quota_and_permission_errors_are_classified() {
    assert_eq!(classify_error("status 429"), ErrorCategory::Quota);
    assert_eq!(classify_error("Quota exhausted"), ErrorCategory::Quota);
    assert_eq!(classify_error("hit the RATE LIMIT"), ErrorCategory::Quota);
    assert_eq!(classify_error("403 returned"), ErrorCategory::Permission);
    assert_eq!(classify_error("Forbidden by policy"), ErrorCategory::Permission);
    assert_eq!(classify_error("connection timed out"), ErrorCategory::Other);
}

#[test]
fn auth_wins_over_quota_and_permission() {
    assert_eq!(classify_error("401 after 429 and 403"), ErrorCategory::Auth);
}

#[test]
fn queries_get_chronology_bias_keywords() {
    assert_eq!(
        enhance_query("Show X"),
        "Show X episodes chronological order episode guide"
    );
    assert_eq!(
        enhance_query("KÄTHE UND ICH"),
        "KÄTHE UND ICH episoden reihenfolge chronologisch wikipedia fernsehserien.de"
    );
}

#[test]
fn request_urls_embed_the_encoded_query() {
    assert_eq!(
        instant_answer_url("Show X"),
        "https://api.duckduckgo.com/?q=Show+X+episodes+chronological+order+episode+guide&format=json&no_html=1&skip_disambig=1"
    );
    assert_eq!(
        scrape_url("Show X"),
        "https://duckduckgo.com/html/?q=Show+X+episodes+chronological+order+episode+guide"
    );
}

#[test]
fn instant_answer_with_content_is_summarised() {
    let ans = InstantAnswer {
        abstract_text: "A German series.".to_string(),
        abstract_url: Some("https://de.wikipedia.org/wiki/X".to_string()),
        topics: vec![
            Topic {
                text: Some("First film".to_string()),
                url: Some("https://de.wikipedia.org/wiki/First".to_string()),
            },
            Topic { text: None, url: Some("https://example.org/t2".to_string()) },
        ],
    };
    let summary = instant_answer_summary(&ans).expect("summary");
    assert_eq!(
        summary,
        "Abstract: A German series.\n\nSource: https://de.wikipedia.org/wiki/X\n\nRelated 1: First film\n\nURL: https://de.wikipedia.org/wiki/First\n\nURL: https://example.org/t2"
    );
}

#[test]
fn empty_instant_answer_yields_nothing() {
    let ans = InstantAnswer { abstract_text: String::new(), abstract_url: None, topics: vec![] };
    assert!(instant_answer_summary(&ans).is_none());
}

#[test]
fn two_result_blocks_scrape_into_two_groups() {
    let html = "<html><body>\
        <div class=\"result\"><a class=\"result__a\" href=\"https://a.example\">My <b>Show</b></a>\
        <a class=\"result__snippet\">First snippet</a></div>\
        <div class=\"result\"><a class=\"result__a\" href=\"https://b.example\">Other page</a>\
        <a class=\"result__snippet\">Second <i>snippet</i></a></div>\
        </body></html>";
    let summary = scrape_results_summary(html);
    assert_eq!(
        summary,
        "Title: My Show\nURL: https://a.example\nSnippet: First snippet\n\n---\n\nTitle: Other page\nURL: https://b.example\nSnippet: Second snippet"
    );
    assert_eq!(summary.matches("Title: ").count(), 2);
}

#[test]
fn page_without_result_blocks_says_so() {
    assert_eq!(scrape_results_summary("<html><body><p>hi</p></body></html>"), "No search results found.");
}

#[test]
fn fallback_always_succeeds_and_quotes_the_query() {
    let text = fallback_suggestions("Show X");
    assert!(!text.is_empty());
    assert!(text.contains("Show X"));
    assert!(text.contains("https://de.wikipedia.org/wiki/Show_X"));
    assert!(text.contains("https://www.fernsehserien.de/suche/Show+X"));
}

#[test]
fn hosts_are_parsed_from_urls() {
    assert_eq!(url_host("https://de.wikipedia.org/wiki/X"), Some("de.wikipedia.org".to_string()));
    assert_eq!(url_host("not a url"), None);
}

#[test]
fn non_success_status_is_an_upstream_error() {
    assert_eq!(upstream_check(200), Ok(()));
    assert_eq!(upstream_check(299), Ok(()));
    assert_eq!(upstream_check(404), Err(ExtractError::UpstreamError { status: 404 }));
    assert_eq!(upstream_check(301), Err(ExtractError::UpstreamError { status: 301 }));
}

#[test]
fn wikipedia_tables_keep_row_structure() {
    let html = "<html><body><table class=\"wikitable\">\
        <tr><td>Folge 1</td><td>3. Januar 2019</td></tr>\
        <tr><td>Folge 2</td><td>10. Januar 2019</td></tr>\
        </table></body></html>";
    let text = extract_from_html("de.wikipedia.org", html).expect("extraction");
    assert_eq!(text, "Folge 1 | 3. Januar 2019\n\nFolge 2 | 10. Januar 2019");
}

#[test]
fn generic_hosts_use_paragraph_extraction() {
    let html = "<html><body><article><p>Episode one aired first and set up the whole story.</p>\
        </article></body></html>";
    let text = extract_from_html("blog.example", html).expect("extraction");
    assert_eq!(text, "Episode one aired first and set up the whole story.");
}

#[test]
fn hopeless_documents_fail_extraction() {
    let html = "<html><body><p>short</p><div>nothing here</div></body></html>";
    assert_eq!(
        extract_from_html("unknown.example", html),
        Err(ExtractError::ExtractionFailure)
    );
}

#[test]
fn long_extractions_are_truncated_with_a_marker() {
    let mut long = String::from("episode ");
    while long.chars().count() < 9000 {
        long.push('x');
    }
    let html = format!("<html><body><article><p>{}</p></article></body></html>", long);
    let text = extract_from_html("blog.example", &html).expect("extraction");
    let marker = "...\n\n[Content truncated to 8000 characters]";
    assert!(text.ends_with(marker));
    assert_eq!(text.chars().count(), 8000 + marker.chars().count());
    assert!(text.starts_with("episode x"));
}

#[test]
fn read_failures_become_payloads_for_the_model() {
    assert_eq!(read_result_text(Ok("page text".to_string()), "u"), "page text");
    assert_eq!(
        read_result_text(Err(ExtractError::InvalidUrl), "nope"),
        "Invalid URL: nope"
    );
    assert_eq!(
        read_result_text(Err(ExtractError::UpstreamError { status: 500 }), "https://x"),
        "HTTP error 500: https://x"
    );
    assert_eq!(
        read_result_text(Err(ExtractError::ExtractionFailure), "https://x"),
        "Could not extract meaningful content from the webpage"
    );
}
