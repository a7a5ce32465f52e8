use mwb_agent::episodes::{Episode, format_episodes};
use mwb_agent::playlist::{
    build_xspf, clean_description, escape_xml, generate_vlc_playlist_filename,
    playlist_confirmation, vlc_playlist_filename_with,
};
use mwb_agent::text::{clean_text, split_words, strip_html_tags};
use mwb_agent::urlenc::encode;

fn full_episode() -> Episode {
    Episode {
        title: "Pilot & Start".to_string(),
        url: "https://example.org/1.mp4".to_string(),
        description: Some("  Line one\n  Line two  ".to_string()),
        duration_seconds: Some(90),
        channel: Some("ARD".to_string()),
        topic: Some("Show <X>".to_string()),
    }
}

fn bare_episode(n: u32) -> Episode {
    Episode {
        title: format!("Episode {}", n),
        url: format!("https://example.org/{}.mp4", n),
        description: None,
        duration_seconds: None,
        channel: None,
        topic: None,
    }
}

#[test]
fn clean_text_collapses_whitespace() {
    assert_eq!(clean_text("  a\n b\t\tc  "), "a b c");
    assert_eq!(clean_text(""), "");
    assert_eq!(clean_text(" \n\t "), "");
    assert_eq!(clean_text("already clean"), "already clean");
}

#[test]
fn words_split_on_any_whitespace() {
    assert_eq!(split_words(" one\ttwo\nthree  four "), vec!["one", "two", "three", "four"]);
    assert_eq!(split_words("   "), Vec::<String>::new());
}

#[test]
fn markup_tags_are_stripped() {
    assert_eq!(strip_html_tags("My <b>Show</b> now"), "My Show now");
    assert_eq!(strip_html_tags("no tags"), "no tags");
    assert_eq!(strip_html_tags("broken < tag"), "broken < tag");
    assert_eq!(strip_html_tags("<a href=\"x\">link</a>"), "link");
}

#[test]
fn xml_special_characters_are_escaped() {
    assert_eq!(escape_xml("a<b>&\"'"), "a&lt;b&gt;&amp;&quot;&apos;");
    assert_eq!(escape_xml("plain"), "plain");
}

#[test]
fn url_encoding_matches_form_serialisation() {
    assert_eq!(encode("Show X"), "Show+X");
    assert_eq!(encode("Käthe und ich"), "K%C3%A4the+und+ich");
    assert_eq!(encode("a*-._b"), "a*-._b");
    assert_eq!(encode("50%?"), "50%25%3F");
}

#[test]
fn descriptions_are_normalised_and_capped() {
    assert_eq!(clean_description("  Line one\n  Line two  "), "Line one Line two");
    let long = "word ".repeat(100);
    let cleaned = clean_description(&long);
    assert_eq!(cleaned.chars().count(), 300);
    assert!(cleaned.ends_with("..."));
}

#[test]
fn episode_lists_serialise_exactly() {
    let json = format_episodes(&vec![full_episode()]);
    assert_eq!(
        json,
        "[{\"title\":\"Pilot & Start\",\"topic\":\"Show <X>\",\"duration\":90,\"channel\":\"ARD\",\"url\":\"https://example.org/1.mp4\"}]"
    );
    let json2 = format_episodes(&vec![bare_episode(1)]);
    assert_eq!(
        json2,
        "[{\"title\":\"Episode 1\",\"topic\":null,\"duration\":null,\"channel\":null,\"url\":\"https://example.org/1.mp4\"}]"
    );
}

#[test]
fn episode_lists_are_capped_at_twenty() {
    let eps: Vec<Episode> = (1..=25).map(bare_episode).collect();
    let json = format_episodes(&eps);
    assert_eq!(json.matches("\"title\"").count(), 20);
    assert!(json.contains("Episode 20"));
    assert!(!json.contains("Episode 21"));
}

#[test]
fn json_strings_are_escaped() {
    let mut e = bare_episode(1);
    e.title = "He said \"hi\"\nback\\slash".to_string();
    let json = format_episodes(&vec![e]);
    assert!(json.contains("\"title\":\"He said \\\"hi\\\"\\nback\\\\slash\""));
}

#[test]
fn playlist_filenames_sanitise_the_query() {
    assert_eq!(vlc_playlist_filename_with("My Show >90", 12345), "mwb_My_Show_m90_2345.xspf");
    assert_eq!(vlc_playlist_filename_with("__trimmed__", 7), "mwb_trimmed_7.xspf");
    let long_query = "a".repeat(60);
    let name = vlc_playlist_filename_with(&long_query, 0);
    assert_eq!(name, format!("mwb_{}..._0.xspf", "a".repeat(50)));
}

#[test]
fn generated_filename_has_the_expected_shape() {
    let name = generate_vlc_playlist_filename("Show X");
    assert!(name.starts_with("mwb_Show_X_"));
    assert!(name.ends_with(".xspf"));
}

#[test]
fn xspf_documents_are_assembled_exactly() {
    let xml = build_xspf(&vec![full_episode()], "My List", "2024-01-01T00:00:00Z");
    let expected = "<?xml version=\"1.0\" encoding=\"UTF-8\"?>\n\
        <playlist version=\"1\" xmlns=\"http://xspf.org/ns/0/\">\n\
        \x20\x20<title>AI Sorted Playlist: My List</title>\n\
        \x20\x20<creator>MWB - AI Episode Sorting</creator>\n\
        \x20\x20<date>2024-01-01T00:00:00Z</date>\n\
        \x20\x20<trackList>\n\
        \x20\x20\x20\x20<track>\n\
        \x20\x20\x20\x20\x20\x20<title>Pilot &amp; Start</title>\n\
        \x20\x20\x20\x20\x20\x20<creator>ARD</creator>\n\
        \x20\x20\x20\x20\x20\x20<album>Show &lt;X&gt;</album>\n\
        \x20\x20\x20\x20\x20\x20<location>https://example.org/1.mp4</location>\n\
        \x20\x20\x20\x20\x20\x20<duration>90000</duration>\n\
        \x20\x20\x20\x20\x20\x20<annotation>Line one Line two</annotation>\n\
        \x20\x20\x20\x20</track>\n\
        \x20\x20</trackList>\n\
        </playlist>\n";
    assert_eq!(xml, expected);
}

#[test]
fn bare_tracks_omit_optional_elements() {
    let xml = build_xspf(&vec![bare_episode(2)], "L", "d");
    assert!(!xml.contains("<creator>ARD"));
    assert!(!xml.contains("<album>"));
    assert!(!xml.contains("<duration>"));
    assert!(!xml.contains("<annotation>"));
    assert!(xml.contains("<location>https://example.org/2.mp4</location>"));
}

#[test]
fn confirmations_quote_file_and_count() {
    assert_eq!(
        playlist_confirmation("mwb_x_1.xspf", 12),
        "XSPF playlist 'mwb_x_1.xspf' created with 12 episodes and VLC launched successfully!"
    );
}
