//! Host-aware content extraction.  A fetched document is walked with a
//! cascade of structural selectors chosen by the request's host; table
//! rows keep their cell structure, candidate blocks are filtered by a
//! chronology heuristic, and the result is capped at a fixed length
//! with an explicit truncation marker.

use vstd::prelude::*;
use crate::htmlsel::{rows_of, texts_of};
use crate::text::{
    chars_of, clean_spec, clean_text, contains_chars, contains_seq, contains_str, join_sep,
    join_strings, lower_of, lowercase,
};

verus! {

/// Why an extraction failed.
#[derive(Clone, Copy, PartialEq, Eq, Structural, Debug)]
pub enum ExtractError {
    /// The URL did not parse.
    InvalidUrl,
    /// The fetch answered with a non-success status.
    UpstreamError { status: u16 },
    /// No usable text was found in the document.
    ExtractionFailure,
}

/// Extracted documents are hard-truncated to this many characters.
pub const MAX_CONTENT_LEN: usize = 8000;

/// At most this many blocks are kept per selector.
pub const SELECTOR_BLOCK_CAP: usize = 60;

/// The cascade stops once this many blocks have accumulated.
pub const CASCADE_STOP: usize = 30;

/// At most this many blocks are kept by the generic fallback.
pub const GENERAL_CAP: usize = 40;

/// An HTTP status that counts as success.
pub open spec fn status_ok(status: u16) -> bool {
    200 <= status < 300
}

/// Checks the fetch status; a non-success status is an upstream error.
pub fn upstream_check(status: u16) -> (r: Result<(), ExtractError>)
    ensures
        r == if status_ok(status) {
            Ok::<(), ExtractError>(())
        } else {
            Err::<(), ExtractError>(ExtractError::UpstreamError { status })
        },
{
    if 200 <= status && status < 300 {
        Ok(())
    } else {
        Err(ExtractError::UpstreamError { status })
    }
}

/// The selector cascade for a host: each entry is a selector and
/// whether it targets tabular structure (in which case rows are read
/// cell by cell).
pub open spec fn cascade_for(host: Seq<char>) -> Seq<(Seq<char>, bool)> {
    if contains_seq(host, "wikipedia.org"@) {
        seq![
            ("div.mw-parser-output p"@, false),
            ("div.mw-parser-output li"@, false),
            ("table.infobox tr"@, true),
            (".episode-list td"@, false),
            ("table.wikitable tr"@, true),
            (".filmography tr"@, true),
            ("div.mw-parser-output table tr"@, true),
        ]
    } else if contains_seq(host, "fernsehserien.de"@) {
        seq![
            ("div.serie-info p"@, false),
            ("div.episoden-liste tr"@, true),
            ("div.content p"@, false),
            (".episode-guide tr"@, true),
            (".staffel-info tr"@, true),
            (".film-info p"@, false),
        ]
    } else if contains_seq(host, "imdb.com"@) {
        seq![
            ("[data-testid='plot-xl']"@, false),
            (".ipc-html-content-inner-div"@, false),
            ("li[data-testid='title-episode-item']"@, false),
            (".episode-item-wrapper"@, false),
            (".titleColumn"@, false),
        ]
    } else if contains_seq(host, "tvbutler.de"@) {
        seq![(".episode-info"@, false), (".episode-description"@, false), (".show-info p"@, false)]
    } else if contains_seq(host, "filmstarts.de"@) {
        seq![(".episode-list tr"@, true), (".film-synopsis p"@, false), (".cast-info p"@, false)]
    } else {
        seq![
            ("article p"@, false),
            ("main p"@, false),
            (".content p"@, false),
            (".post p"@, false),
            (".entry-content p"@, false),
            ("div.text p"@, false),
            (".article-body p"@, false),
            ("table tr"@, true),
            (".episode-guide tr"@, true),
        ]
    }
}

/// The cleaned, non-empty cells of a table row.
pub open spec fn nonempty_cleaned(cells: Seq<Seq<char>>) -> Seq<Seq<char>>
    decreases cells.len(),
{
    if cells.len() == 0 {
        Seq::empty()
    } else {
        let r = nonempty_cleaned(cells.drop_last());
        let c = clean_spec(cells.last());
        if c.len() > 0 {
            r.push(c)
        } else {
            r
        }
    }
}

/// The text kept for a table row: its cells joined with a visible
/// separator, or its flattened text when no cell has content.
pub open spec fn row_text(row: (Seq<char>, Seq<Seq<char>>)) -> Seq<char> {
    let cleaned = nonempty_cleaned(row.1);
    if cleaned.len() > 0 {
        join_sep(cleaned, " | "@)
    } else {
        clean_spec(row.0)
    }
}

/// A block passes the chronology heuristic: long enough and mentioning
/// an episode keyword or a recent year, with a long-text fallback.
pub open spec fn relevant_block(t: Seq<char>) -> bool {
    t.len() > 15 && {
        ||| contains_seq(lower_of(t), "episode"@)
        ||| contains_seq(lower_of(t), "folge"@)
        ||| contains_seq(lower_of(t), "staffel"@)
        ||| contains_seq(lower_of(t), "season"@)
        ||| contains_seq(lower_of(t), "erstausstrahlung"@)
        ||| contains_seq(lower_of(t), "ausgestrahlt"@)
        ||| contains_seq(t, "2019"@)
        ||| contains_seq(t, "2020"@)
        ||| contains_seq(t, "2021"@)
        ||| contains_seq(t, "2022"@)
        ||| contains_seq(t, "2023"@)
        ||| contains_seq(t, "2024"@)
        ||| t.len() > 30
    }
}

/// The looser heuristic used by the generic paragraph fallback.
pub open spec fn loose_block(t: Seq<char>) -> bool {
    t.len() > 25 && {
        ||| contains_seq(lower_of(t), "käthe"@)
        ||| contains_seq(lower_of(t), "episode"@)
        ||| contains_seq(lower_of(t), "folge"@)
        ||| contains_seq(lower_of(t), "film"@)
        ||| contains_seq(lower_of(t), "reihenfolge"@)
        ||| contains_seq(lower_of(t), "chronolog"@)
        ||| contains_seq(t, "201"@)
        ||| contains_seq(t, "202"@)
        ||| t.len() > 40
    }
}

/// The blocks passing the chronology heuristic, in order.
pub open spec fn keep_relevant(blocks: Seq<Seq<char>>) -> Seq<Seq<char>>
    decreases blocks.len(),
{
    if blocks.len() == 0 {
        Seq::empty()
    } else {
        let r = keep_relevant(blocks.drop_last());
        if relevant_block(blocks.last()) {
            r.push(blocks.last())
        } else {
            r
        }
    }
}

/// The blocks passing the loose heuristic, in order.
pub open spec fn keep_loose(blocks: Seq<Seq<char>>) -> Seq<Seq<char>>
    decreases blocks.len(),
{
    if blocks.len() == 0 {
        Seq::empty()
    } else {
        let r = keep_loose(blocks.drop_last());
        if loose_block(blocks.last()) {
            r.push(blocks.last())
        } else {
            r
        }
    }
}

/// The first `n` entries, or all of them.
pub open spec fn capped_at(s: Seq<Seq<char>>, n: int) -> Seq<Seq<char>> {
    if s.len() > n {
        s.take(n)
    } else {
        s
    }
}

/// The cleaned candidate blocks one selector yields, before filtering.
pub open spec fn selector_raw_blocks(html: Seq<char>, sel: Seq<char>, is_table: bool) -> Seq<
    Seq<char>,
> {
    if is_table {
        rows_of(html, sel, "td, th"@).map_values(|r: (Seq<char>, Seq<Seq<char>>)| row_text(r))
    } else {
        texts_of(html, sel).map_values(|t: Seq<char>| clean_spec(t))
    }
}

/// The blocks one selector contributes: cleaned, filtered, capped.
pub open spec fn selector_blocks(html: Seq<char>, sel: Seq<char>, is_table: bool) -> Seq<
    Seq<char>,
> {
    capped_at(keep_relevant(selector_raw_blocks(html, sel, is_table)), SELECTOR_BLOCK_CAP as int)
}

/// The cascade walked in order, accumulating blocks and stopping once
/// the accumulated count passes the threshold.
pub open spec fn cascade_accum(
    html: Seq<char>,
    sels: Seq<(Seq<char>, bool)>,
    acc: Seq<Seq<char>>,
) -> Seq<Seq<char>>
    decreases sels.len(),
{
    if acc.len() > CASCADE_STOP as int || sels.len() == 0 {
        acc
    } else {
        cascade_accum(html, sels.drop_first(), acc + selector_blocks(html, sels[0].0, sels[0].1))
    }
}

/// The blocks the generic paragraph fallback yields.
pub open spec fn general_blocks(html: Seq<char>) -> Seq<Seq<char>> {
    capped_at(
        keep_loose(texts_of(html, "p"@).map_values(|t: Seq<char>| clean_spec(t))),
        GENERAL_CAP as int,
    )
}

/// All blocks extracted from a document for a host: the cascade's
/// blocks, or the generic fallback's when the cascade found none.
pub open spec fn extracted_blocks(html: Seq<char>, host: Seq<char>) -> Seq<Seq<char>> {
    let c = cascade_accum(html, cascade_for(host), Seq::empty());
    if c.len() > 0 {
        c
    } else {
        general_blocks(html)
    }
}

/// `s` truncated to the length ceiling, with the marker appended when
/// truncation happened.
pub open spec fn truncated(s: Seq<char>) -> Seq<char> {
    if s.len() > MAX_CONTENT_LEN as int {
        s.take(MAX_CONTENT_LEN as int) + "...\n\n[Content truncated to 8000 characters]"@
    } else {
        s
    }
}

/// The extracted text for a document and host, if any: the blocks
/// joined by blank lines, truncated.
pub open spec fn extraction_spec(html: Seq<char>, host: Seq<char>) -> Option<Seq<char>> {
    let blocks = extracted_blocks(html, host);
    if blocks.len() == 0 {
        None
    } else {
        Some(truncated(join_sep(blocks, "\n\n"@)))
    }
}

fn has(hay: &Vec<char>, pat: &str) -> (r: bool)
    ensures
        r == contains_seq(hay@, pat@),
{
    let p = chars_of(pat);
    contains_chars(hay, &p)
}

/// Decides the chronology heuristic.
fn is_relevant(t: &str) -> (r: bool)
    ensures
        r == relevant_block(t@),
{
    let tv = chars_of(t);
    if tv.len() <= 15 {
        return false;
    }
    let lowered = lowercase(t);
    let lv = chars_of(lowered.as_str());
    has(&lv, "episode") || has(&lv, "folge") || has(&lv, "staffel") || has(&lv, "season") || has(
        &lv,
        "erstausstrahlung",
    ) || has(&lv, "ausgestrahlt") || has(&tv, "2019") || has(&tv, "2020") || has(&tv, "2021")
        || has(&tv, "2022") || has(&tv, "2023") || has(&tv, "2024") || tv.len() > 30
}

/// Decides the loose heuristic.
fn is_loose(t: &str) -> (r: bool)
    ensures
        r == loose_block(t@),
{
    let tv = chars_of(t);
    if tv.len() <= 25 {
        return false;
    }
    let lowered = lowercase(t);
    let lv = chars_of(lowered.as_str());
    has(&lv, "käthe") || has(&lv, "episode") || has(&lv, "folge") || has(&lv, "film") || has(
        &lv,
        "reihenfolge",
    ) || has(&lv, "chronolog") || has(&tv, "201") || has(&tv, "202") || tv.len() > 40
}

/// The text kept for one table row.
fn row_text_exec(text: &String, cells: &Vec<String>) -> (r: String)
    ensures
        r@ == row_text((text@, cells.deep_view())),
{
    let mut cleaned: Vec<String> = Vec::new();
    proof {
        assert(cleaned.deep_view() =~= Seq::<Seq<char>>::empty());
    }
    let mut i: usize = 0;
    while i < cells.len()
        invariant
            i <= cells@.len(),
            cells.deep_view().len() == cells@.len(),
            cleaned.deep_view() == nonempty_cleaned(cells.deep_view().take(i as int)),
        decreases cells@.len() - i,
    {
        let c = clean_text(cells[i].as_str());
        if !c.as_str().is_empty() {
            let ghost pre = cleaned.deep_view();
            let ghost cv = c@;
            cleaned.push(c);
            proof {
                assert(cleaned.deep_view() =~= pre.push(cv));
            }
        }
        i = i + 1;
        proof {
            let dv = cells.deep_view();
            assert(dv.take(i as int).drop_last() =~= dv.take(i - 1));
            assert(dv.take(i as int).last() == dv[i - 1]);
            assert(dv[i - 1] == cells@[i - 1]@);
        }
    }
    proof {
        assert(cells.deep_view().take(cells@.len() as int) =~= cells.deep_view());
    }
    if cleaned.len() > 0 {
        join_strings(&cleaned, " | ")
    } else {
        clean_text(text.as_str())
    }
}

/// The filtered, capped blocks one selector contributes.
fn selector_blocks_exec(html: &str, sel: &str, is_table: bool) -> (r: Vec<String>)
    ensures
        r.deep_view() == selector_blocks(html@, sel@, is_table),
{
    let mut raw: Vec<String> = Vec::new();
    let ghost raw_spec = selector_raw_blocks(html@, sel@, is_table);
    proof {
        assert(raw.deep_view() =~= Seq::<Seq<char>>::empty());
    }
    if is_table {
        let rows = crate::htmlsel::select_rows(html, sel, "td, th");
        let mut i: usize = 0;
        while i < rows.len()
            invariant
                i <= rows@.len(),
                rows.deep_view().len() == rows@.len(),
                rows.deep_view() == rows_of(html@, sel@, "td, th"@),
                raw_spec == rows.deep_view().map_values(
                    |r: (Seq<char>, Seq<Seq<char>>)| row_text(r),
                ),
                raw.deep_view() == raw_spec.take(i as int),
            decreases rows@.len() - i,
        {
            let b = row_text_exec(&rows[i].0, &rows[i].1);
            let ghost pre = raw.deep_view();
            let ghost bv = b@;
            raw.push(b);
            i = i + 1;
            proof {
                assert(rows.deep_view()[i - 1] == rows@[i - 1].deep_view());
                assert(raw_spec[i - 1] == row_text(rows.deep_view()[i - 1]));
                assert(bv == raw_spec[i - 1]);
                assert(raw.deep_view() =~= pre.push(bv));
                assert(raw.deep_view() =~= raw_spec.take(i as int));
            }
        }
        proof {
            assert(raw_spec.take(rows@.len() as int) =~= raw_spec);
        }
    } else {
        let ts = crate::htmlsel::select_texts(html, sel);
        let mut i: usize = 0;
        while i < ts.len()
            invariant
                i <= ts@.len(),
                ts.deep_view().len() == ts@.len(),
                ts.deep_view() == texts_of(html@, sel@),
                raw_spec == ts.deep_view().map_values(|t: Seq<char>| clean_spec(t)),
                raw.deep_view() == raw_spec.take(i as int),
            decreases ts@.len() - i,
        {
            let b = clean_text(ts[i].as_str());
            let ghost pre = raw.deep_view();
            let ghost bv = b@;
            raw.push(b);
            i = i + 1;
            proof {
                assert(ts.deep_view()[i - 1] == ts@[i - 1]@);
                assert(raw_spec[i - 1] == clean_spec(ts.deep_view()[i - 1]));
                assert(bv == raw_spec[i - 1]);
                assert(raw.deep_view() =~= pre.push(bv));
                assert(raw.deep_view() =~= raw_spec.take(i as int));
            }
        }
        proof {
            assert(raw_spec.take(ts@.len() as int) =~= raw_spec);
        }
    }
    let mut out: Vec<String> = Vec::new();
    proof {
        assert(out.deep_view() =~= Seq::<Seq<char>>::empty());
        assert(keep_relevant(raw_spec.take(0)) =~= Seq::<Seq<char>>::empty());
    }
    let mut i: usize = 0;
    while i < raw.len()
        invariant
            i <= raw@.len(),
            raw.deep_view().len() == raw@.len(),
            raw.deep_view() == raw_spec,
            out.deep_view() == capped_at(
                keep_relevant(raw_spec.take(i as int)),
                SELECTOR_BLOCK_CAP as int,
            ),
            out.deep_view().len() <= SELECTOR_BLOCK_CAP,
        decreases raw@.len() - i,
    {
        let keep = is_relevant(raw[i].as_str());
        proof {
            assert(raw_spec[i as int] == raw@[i as int]@);
            let ks = keep_relevant(raw_spec.take(i + 1));
            assert(raw_spec.take(i + 1).drop_last() =~= raw_spec.take(i as int));
            assert(raw_spec.take(i + 1).last() == raw_spec[i as int]);
        }
        if keep && out.len() < SELECTOR_BLOCK_CAP {
            let ghost pre = out.deep_view();
            let b = raw[i].clone();
            let ghost bv = b@;
            out.push(b);
            proof {
                assert(bv == raw_spec[i as int]);
                assert(out.deep_view() =~= pre.push(bv));
            }
        }
        proof {
            let k_i = keep_relevant(raw_spec.take(i as int));
            let k_n = keep_relevant(raw_spec.take(i + 1));
            if relevant_block(raw_spec[i as int]) {
                assert(k_n =~= k_i.push(raw_spec[i as int]));
                if k_i.len() < SELECTOR_BLOCK_CAP as int {
                    assert(capped_at(k_n, SELECTOR_BLOCK_CAP as int) =~= capped_at(
                        k_i,
                        SELECTOR_BLOCK_CAP as int,
                    ).push(raw_spec[i as int]));
                } else {
                    assert(capped_at(k_n, SELECTOR_BLOCK_CAP as int) =~= capped_at(
                        k_i,
                        SELECTOR_BLOCK_CAP as int,
                    ));
                }
            } else {
                assert(k_n =~= k_i);
            }
        }
        i = i + 1;
    }
    proof {
        assert(raw_spec.take(raw@.len() as int) =~= raw_spec);
    }
    out
}

/// Extracts the chronology-relevant text of a fetched document, keyed
/// by the request's host.  Fails exactly when neither the host's
/// cascade nor the generic fallback finds a usable block; a result
/// longer than [`MAX_CONTENT_LEN`] characters is hard-truncated with a
/// marker appended.
pub fn extract_from_html(host: &str, html: &str) -> (r: Result<String, ExtractError>)
    ensures
        r is Ok <==> extraction_spec(html@, host@) is Some,
        r is Err ==> r == Err::<String, ExtractError>(ExtractError::ExtractionFailure),
        r matches Ok(s) ==> extraction_spec(html@, host@) == Some(s@),
{
    let mut sels: Vec<(&str, bool)> = Vec::new();
    if contains_str(host, "wikipedia.org") {
        sels.push(("div.mw-parser-output p", false));
        sels.push(("div.mw-parser-output li", false));
        sels.push(("table.infobox tr", true));
        sels.push((".episode-list td", false));
        sels.push(("table.wikitable tr", true));
        sels.push((".filmography tr", true));
        sels.push(("div.mw-parser-output table tr", true));
    } else if contains_str(host, "fernsehserien.de") {
        sels.push(("div.serie-info p", false));
        sels.push(("div.episoden-liste tr", true));
        sels.push(("div.content p", false));
        sels.push((".episode-guide tr", true));
        sels.push((".staffel-info tr", true));
        sels.push((".film-info p", false));
    } else if contains_str(host, "imdb.com") {
        sels.push(("[data-testid='plot-xl']", false));
        sels.push((".ipc-html-content-inner-div", false));
        sels.push(("li[data-testid='title-episode-item']", false));
        sels.push((".episode-item-wrapper", false));
        sels.push((".titleColumn", false));
    } else if contains_str(host, "tvbutler.de") {
        sels.push((".episode-info", false));
        sels.push((".episode-description", false));
        sels.push((".show-info p", false));
    } else if contains_str(host, "filmstarts.de") {
        sels.push((".episode-list tr", true));
        sels.push((".film-synopsis p", false));
        sels.push((".cast-info p", false));
    } else {
        sels.push(("article p", false));
        sels.push(("main p", false));
        sels.push((".content p", false));
        sels.push((".post p", false));
        sels.push((".entry-content p", false));
        sels.push(("div.text p", false));
        sels.push((".article-body p", false));
        sels.push(("table tr", true));
        sels.push((".episode-guide tr", true));
    }
    proof {
        assert(sels.deep_view() =~= cascade_for(host@));
    }
    let ghost sdv = sels.deep_view();
    let ghost total = cascade_accum(html@, cascade_for(host@), Seq::empty());
    let mut acc: Vec<String> = Vec::new();
    proof {
        assert(acc.deep_view() =~= Seq::<Seq<char>>::empty());
        assert(sdv.skip(0) =~= sdv);
    }
    let mut i: usize = 0;
    while i < sels.len() && acc.len() <= CASCADE_STOP
        invariant
            i <= sels@.len(),
            sdv == sels.deep_view(),
            sdv.len() == sels@.len(),
            total == cascade_accum(html@, sdv.skip(i as int), acc.deep_view()),
        decreases sels@.len() - i,
    {
        let blocks = selector_blocks_exec(html, sels[i].0, sels[i].1);
        let ghost pre = acc.deep_view();
        let ghost bdv = blocks.deep_view();
        let mut j: usize = 0;
        while j < blocks.len()
            invariant
                j <= blocks@.len(),
                bdv == blocks.deep_view(),
                bdv.len() == blocks@.len(),
                acc.deep_view() == pre + bdv.take(j as int),
            decreases blocks@.len() - j,
        {
            let ghost mid = acc.deep_view();
            let b = blocks[j].clone();
            let ghost bv = b@;
            acc.push(b);
            j = j + 1;
            proof {
                assert(bv == bdv[j - 1]);
                assert(acc.deep_view() =~= mid.push(bv));
                assert(acc.deep_view() =~= pre + bdv.take(j as int));
            }
        }
        proof {
            assert(bdv.take(blocks@.len() as int) =~= bdv);
            assert(acc.deep_view() =~= pre + bdv);
            assert(sdv.skip(i as int)[0] == sdv[i as int]);
            assert(sdv[i as int] == (sels@[i as int].0@, sels@[i as int].1));
            assert(bdv == selector_blocks(html@, sdv.skip(i as int)[0].0, sdv.skip(i as int)[0].1));
            assert(sdv.skip(i as int).drop_first() =~= sdv.skip(i + 1));
        }
        i = i + 1;
    }
    proof {
        if i == sels@.len() && acc.deep_view().len() <= CASCADE_STOP as int {
            assert(sdv.skip(i as int).len() == 0);
            assert(total == acc.deep_view());
        } else {
            assert(acc.deep_view().len() > CASCADE_STOP as int);
            assert(total == acc.deep_view());
        }
    }
    if acc.len() == 0 {
        let ts = crate::htmlsel::select_texts(html, "p");
        let ghost tdv = ts.deep_view();
        let ghost loose_all = tdv.map_values(|t: Seq<char>| clean_spec(t));
        let mut j: usize = 0;
        proof {
            assert(keep_loose(loose_all.take(0)) =~= Seq::<Seq<char>>::empty());
        }
        while j < ts.len()
            invariant
                j <= ts@.len(),
                tdv == ts.deep_view(),
                tdv.len() == ts@.len(),
                loose_all == tdv.map_values(|t: Seq<char>| clean_spec(t)),
                acc.deep_view() == capped_at(keep_loose(loose_all.take(j as int)), GENERAL_CAP as int),
                acc.deep_view().len() <= GENERAL_CAP,
            decreases ts@.len() - j,
        {
            let c = clean_text(ts[j].as_str());
            let keep = is_loose(c.as_str());
            proof {
                assert(tdv[j as int] == ts@[j as int]@);
                assert(loose_all[j as int] == clean_spec(tdv[j as int]));
                assert(loose_all.take(j + 1).drop_last() =~= loose_all.take(j as int));
                assert(loose_all.take(j + 1).last() == loose_all[j as int]);
            }
            if keep && acc.len() < GENERAL_CAP {
                let ghost pre = acc.deep_view();
                let ghost cv = c@;
                acc.push(c);
                proof {
                    assert(cv == loose_all[j as int]);
                    assert(acc.deep_view() =~= pre.push(cv));
                }
            }
            proof {
                let k_i = keep_loose(loose_all.take(j as int));
                let k_n = keep_loose(loose_all.take(j + 1));
                if loose_block(loose_all[j as int]) {
                    assert(k_n =~= k_i.push(loose_all[j as int]));
                    if k_i.len() < GENERAL_CAP as int {
                        assert(capped_at(k_n, GENERAL_CAP as int) =~= capped_at(
                            k_i,
                            GENERAL_CAP as int,
                        ).push(loose_all[j as int]));
                    } else {
                        assert(capped_at(k_n, GENERAL_CAP as int) =~= capped_at(
                            k_i,
                            GENERAL_CAP as int,
                        ));
                    }
                } else {
                    assert(k_n =~= k_i);
                }
            }
            j = j + 1;
        }
        proof {
            assert(loose_all.take(ts@.len() as int) =~= loose_all);
            assert(acc.deep_view() =~= general_blocks(html@));
        }
    }
    if acc.len() == 0 {
        return Err(ExtractError::ExtractionFailure);
    }
    let joined = join_strings(&acc, "\n\n");
    let cv = chars_of(joined.as_str());
    if cv.len() > MAX_CONTENT_LEN {
        let mut tv = cv;
        tv.truncate(MAX_CONTENT_LEN);
        let mut out = crate::text::string_from_chars(&tv);
        out.append("...\n\n[Content truncated to 8000 characters]");
        proof {
            assert(out@ =~= truncated(joined@));
        }
        Ok(out)
    } else {
        Ok(joined)
    }
}

/// The text handed back to the model when a read fails: network and
/// content failures are surfaced as payloads, never as aborts.
pub open spec fn extract_error_text(e: ExtractError, url: Seq<char>) -> Seq<char> {
    match e {
        ExtractError::InvalidUrl => "Invalid URL: "@ + url,
        ExtractError::UpstreamError { status } => "HTTP error "@ + crate::episodes::dec_str(
            status as int,
        ) + ": "@ + url,
        ExtractError::ExtractionFailure => "Could not extract meaningful content from the webpage"@,
    }
}

/// Renders a failed read as a descriptive payload for the model.
pub fn describe_extract_error(e: &ExtractError, url: &str) -> (r: String)
    ensures
        r@ == extract_error_text(*e, url@),
{
    let mut r = String::new();
    match e {
        ExtractError::InvalidUrl => {
            r.append("Invalid URL: ");
            r.append(url);
        },
        ExtractError::UpstreamError { status } => {
            r.append("HTTP error ");
            crate::episodes::append_u64(&mut r, *status as u64);
            r.append(": ");
            r.append(url);
        },
        ExtractError::ExtractionFailure => {
            r.append("Could not extract meaningful content from the webpage");
        },
    }
    r
}

} // verus!
