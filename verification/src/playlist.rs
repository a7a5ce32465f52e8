//! XSPF playlist assembly for the playlist collaborator: XML escaping,
//! description clean-up, the playlist document itself and its file
//! name.  Writing the file and launching a player stay outside the
//! library.

use vstd::prelude::*;
use crate::episodes::{Episode, EpisodeView, dec_str};
use crate::text::clean_spec;

verus! {

/// The XML escape of one character.
pub open spec fn xml_escaped_char(c: char) -> Seq<char> {
    if c == '&' {
        "&amp;"@
    } else if c == '<' {
        "&lt;"@
    } else if c == '>' {
        "&gt;"@
    } else if c == '"' {
        "&quot;"@
    } else if c == '\'' {
        "&apos;"@
    } else {
        seq![c]
    }
}

/// The XML escape of a string.
pub open spec fn xml_escaped(s: Seq<char>) -> Seq<char>
    decreases s.len(),
{
    if s.len() == 0 {
        Seq::empty()
    } else {
        xml_escaped(s.drop_last()) + xml_escaped_char(s.last())
    }
}

/// Escapes the five XML special characters.
pub fn escape_xml(text: &str) -> (r: String)
    ensures
        r@ == xml_escaped(text@),
{
    let v = crate::text::chars_of(text);
    let mut out = String::new();
    let mut i: usize = 0;
    while i < v.len()
        invariant
            v@ == text@,
            i <= v@.len(),
            out@ == xml_escaped(text@.take(i as int)),
        decreases v@.len() - i,
    {
        let c = v[i];
        let ghost pre = out@;
        if c == '&' {
            out.append("&amp;");
        } else if c == '<' {
            out.append("&lt;");
        } else if c == '>' {
            out.append("&gt;");
        } else if c == '"' {
            out.append("&quot;");
        } else if c == '\'' {
            out.append("&apos;");
        } else {
            crate::text::push_char(&mut out, c);
        }
        i = i + 1;
        proof {
            assert(out@ =~= pre + xml_escaped_char(v@[i - 1]));
            assert(text@.take(i as int).drop_last() =~= text@.take(i - 1));
            assert(text@.take(i as int).last() == text@[i - 1]);
        }
    }
    proof {
        assert(text@.take(text@.len() as int) =~= text@);
    }
    out
}

/// Annotations are capped at this many characters.
pub const DESCRIPTION_CAP: usize = 300;

/// A description, whitespace-normalised and capped for use as a track
/// annotation.
pub open spec fn clean_description_spec(d: Seq<char>) -> Seq<char> {
    let c = clean_spec(d);
    if c.len() > DESCRIPTION_CAP as int {
        c.take(DESCRIPTION_CAP as int - 3) + "..."@
    } else {
        c
    }
}

/// Normalises whitespace in a description and caps its length.
pub fn clean_description(description: &str) -> (r: String)
    ensures
        r@ == clean_description_spec(description@),
{
    let v = crate::text::chars_of(description);
    let mut cleaned = crate::text::clean_chars(&v);
    if cleaned.len() > DESCRIPTION_CAP {
        cleaned.truncate(DESCRIPTION_CAP - 3);
        let mut out = crate::text::string_from_chars(&cleaned);
        out.append("...");
        proof {
            assert(out@ =~= clean_description_spec(description@));
        }
        out
    } else {
        crate::text::string_from_chars(&cleaned)
    }
}

/// A query character as it appears in a file name: alphanumerics stay,
/// comparison signs become `m`, everything else becomes `_`.
pub open spec fn sanitized_char(c: char) -> char {
    if ('a' <= c && c <= 'z') || ('A' <= c && c <= 'Z') || ('0' <= c && c <= '9') {
        c
    } else if c == '>' || c == '<' {
        'm'
    } else {
        '_'
    }
}

/// The query sanitised for use in a file name.
pub open spec fn sanitized(q: Seq<char>) -> Seq<char> {
    q.map_values(|c: char| sanitized_char(c))
}

/// `s` without leading underscores.
pub open spec fn trim_lead(s: Seq<char>) -> Seq<char>
    decreases s.len(),
{
    if s.len() > 0 && s[0] == '_' {
        trim_lead(s.drop_first())
    } else {
        s
    }
}

/// `s` without trailing underscores.
pub open spec fn trim_tail(s: Seq<char>) -> Seq<char>
    decreases s.len(),
{
    if s.len() > 0 && s.last() == '_' {
        trim_tail(s.drop_last())
    } else {
        s
    }
}

/// File name stems are capped at this many characters.
pub const STEM_CAP: usize = 50;

/// The sanitised query, trimmed of underscores at both ends and capped.
pub open spec fn vlc_filename_stem(q: Seq<char>) -> Seq<char> {
    let t = trim_tail(trim_lead(sanitized(q)));
    if t.len() > STEM_CAP as int {
        t.take(STEM_CAP as int) + "..."@
    } else {
        t
    }
}

/// The playlist file name for a query and a timestamp suffix.
pub open spec fn vlc_filename_with(q: Seq<char>, stamp: u64) -> Seq<char> {
    "mwb_"@ + vlc_filename_stem(q) + "_"@ + dec_str((stamp % 10000) as int) + ".xspf"@
}

fn sanitize_char_exec(c: char) -> (r: char)
    ensures
        r == sanitized_char(c),
{
    if ('a' <= c && c <= 'z') || ('A' <= c && c <= 'Z') || ('0' <= c && c <= '9') {
        c
    } else if c == '>' || c == '<' {
        'm'
    } else {
        '_'
    }
}

/// Builds the playlist file name for a given timestamp suffix.
pub fn vlc_playlist_filename_with(query: &str, stamp: u64) -> (r: String)
    ensures
        r@ == vlc_filename_with(query@, stamp),
{
    let v = crate::text::chars_of(query);
    let mut san: Vec<char> = Vec::new();
    let mut i: usize = 0;
    while i < v.len()
        invariant
            v@ == query@,
            i <= v@.len(),
            san@ == sanitized(query@).take(i as int),
        decreases v@.len() - i,
    {
        san.push(sanitize_char_exec(v[i]));
        i = i + 1;
        proof {
            assert(san@ =~= sanitized(query@).take(i as int));
        }
    }
    proof {
        assert(sanitized(query@).take(v@.len() as int) =~= sanitized(query@));
    }
    let mut a: usize = 0;
    while a < san.len() && san[a] == '_'
        invariant
            a <= san@.len(),
            trim_lead(san@) == trim_lead(san@.skip(a as int)),
        decreases san@.len() - a,
    {
        proof {
            assert(san@.skip(a as int).drop_first() =~= san@.skip(a + 1));
        }
        a = a + 1;
    }
    let ghost lead = san@.skip(a as int);
    proof {
        if a < san@.len() {
            assert(san@.skip(a as int)[0] == san@[a as int]);
        }
        assert(trim_lead(san@) == lead);
        assert(san@.subrange(a as int, san@.len() as int) =~= lead);
    }
    let mut b: usize = san.len();
    while b > a && san[b - 1] == '_'
        invariant
            a <= b <= san@.len(),
            lead == san@.skip(a as int),
            trim_tail(lead) == trim_tail(san@.subrange(a as int, b as int)),
        decreases b,
    {
        proof {
            let cur = san@.subrange(a as int, b as int);
            assert(cur.last() == san@[b - 1]);
            assert(cur.drop_last() =~= san@.subrange(a as int, b - 1));
        }
        b = b - 1;
    }
    let ghost stem_full = san@.subrange(a as int, b as int);
    proof {
        if b > a {
            assert(san@.subrange(a as int, b as int).last() == san@[b - 1]);
        }
        assert(trim_tail(lead) == stem_full);
    }
    let mut stem: Vec<char> = Vec::new();
    let mut k: usize = a;
    while k < b
        invariant
            a <= k <= b <= san@.len(),
            stem_full == san@.subrange(a as int, b as int),
            stem@ == san@.subrange(a as int, k as int),
        decreases b - k,
    {
        stem.push(san[k]);
        k = k + 1;
        proof {
            assert(san@.subrange(a as int, k as int) =~= san@.subrange(a as int, k - 1).push(
                san@[k - 1],
            ));
        }
    }
    let mut out = String::new();
    out.append("mwb_");
    if stem.len() > STEM_CAP {
        stem.truncate(STEM_CAP);
        let capped = crate::text::string_from_chars(&stem);
        out.append(capped.as_str());
        out.append("...");
    } else {
        let whole = crate::text::string_from_chars(&stem);
        out.append(whole.as_str());
    }
    out.append("_");
    crate::episodes::append_u64(&mut out, stamp % 10000);
    out.append(".xspf");
    proof {
        assert(out@ =~= vlc_filename_with(query@, stamp));
    }
    out
}

/// Relies on std's `SystemTime::now` and `duration_since`: the seconds
/// of the system clock since the Unix epoch, or zero when the clock is
/// set before it.  Nothing is assumed of the value.
#[verifier::external_body]
fn now_unix_secs() -> u64 {
    match std::time::SystemTime::now().duration_since(std::time::UNIX_EPOCH) {
        Ok(d) => d.as_secs(),
        Err(_) => 0,
    }
}

/// Builds a playlist file name from the query, with a clock-derived
/// suffix against collisions.  Whatever the clock says, the name has
/// the shape [`vlc_filename_with`] gives it.
pub fn generate_vlc_playlist_filename(query: &str) -> (r: String)
    ensures
        exists|stamp: u64| r@ == vlc_filename_with(query@, stamp),
{
    let stamp = now_unix_secs();
    let r = vlc_playlist_filename_with(query, stamp);
    proof {
        assert(r@ == vlc_filename_with(query@, stamp));
    }
    r
}

/// The duration of a track in milliseconds, saturating.
pub open spec fn duration_ms_of(secs: u64) -> u64 {
    if secs > u64::MAX / 1000 {
        u64::MAX
    } else {
        (secs * 1000) as u64
    }
}

/// The `<creator>` line of a track, if its channel is present and
/// non-empty.
pub open spec fn xspf_channel(e: EpisodeView) -> Seq<char> {
    match e.channel {
        Some(c) => if c.len() > 0 {
            "      <creator>"@ + xml_escaped(c) + "</creator>\n"@
        } else {
            Seq::<char>::empty()
        },
        None => Seq::<char>::empty(),
    }
}

/// The `<album>` line of a track, if its topic is present and
/// non-empty.
pub open spec fn xspf_topic(e: EpisodeView) -> Seq<char> {
    match e.topic {
        Some(t) => if t.len() > 0 {
            "      <album>"@ + xml_escaped(t) + "</album>\n"@
        } else {
            Seq::<char>::empty()
        },
        None => Seq::<char>::empty(),
    }
}

/// The `<duration>` line of a track, if it has a positive duration.
pub open spec fn xspf_duration(e: EpisodeView) -> Seq<char> {
    match e.duration_seconds {
        Some(d) => if duration_ms_of(d) > 0 {
            "      <duration>"@ + dec_str(duration_ms_of(d) as int) + "</duration>\n"@
        } else {
            Seq::<char>::empty()
        },
        None => Seq::<char>::empty(),
    }
}

/// The `<annotation>` line of a track, if its cleaned description is
/// non-empty.
pub open spec fn xspf_annotation(e: EpisodeView) -> Seq<char> {
    match e.description {
        Some(d) => if clean_description_spec(d).len() > 0 {
            "      <annotation>"@ + xml_escaped(clean_description_spec(d)) + "</annotation>\n"@
        } else {
            Seq::<char>::empty()
        },
        None => Seq::<char>::empty(),
    }
}

/// One `<track>` element.
pub open spec fn xspf_track(e: EpisodeView) -> Seq<char> {
    "    <track>\n      <title>"@ + xml_escaped(e.title) + "</title>\n"@ + xspf_channel(e)
        + xspf_topic(e) + "      <location>"@ + xml_escaped(e.url) + "</location>\n"@
        + xspf_duration(e) + xspf_annotation(e) + "    </track>\n"@
}

/// All `<track>` elements, in episode order.
pub open spec fn xspf_tracks(eps: Seq<EpisodeView>) -> Seq<char>
    decreases eps.len(),
{
    if eps.len() == 0 {
        Seq::empty()
    } else {
        xspf_tracks(eps.drop_last()) + xspf_track(eps.last())
    }
}

/// The complete XSPF document for a named, dated playlist.
pub open spec fn xspf_spec(eps: Seq<EpisodeView>, name: Seq<char>, date: Seq<char>) -> Seq<char> {
    "<?xml version=\"1.0\" encoding=\"UTF-8\"?>\n<playlist version=\"1\" xmlns=\"http://xspf.org/ns/0/\">\n  <title>AI Sorted Playlist: "@
        + xml_escaped(name)
        + "</title>\n  <creator>MWB - AI Episode Sorting</creator>\n  <date>"@ + xml_escaped(date)
        + "</date>\n  <trackList>\n"@ + xspf_tracks(eps) + "  </trackList>\n</playlist>\n"@
}

#[verifier::rlimit(80)]
fn append_xspf_track(out: &mut String, e: &Episode)
    ensures
        final(out)@ == old(out)@ + xspf_track(e@),
{
    let ghost p0 = old(out)@ + "    <track>\n      <title>"@ + xml_escaped(e@.title)
        + "</title>\n"@;
    out.append("    <track>\n      <title>");
    let t = escape_xml(e.title.as_str());
    out.append(t.as_str());
    out.append("</title>\n");
    proof {
        assert(out@ =~= p0);
    }
    match &e.channel {
        Some(c) => {
            if !c.as_str().is_empty() {
                out.append("      <creator>");
                let esc = escape_xml(c.as_str());
                out.append(esc.as_str());
                out.append("</creator>\n");
            }
        },
        None => {},
    }
    let ghost p1 = p0 + xspf_channel(e@);
    proof {
        assert(out@ =~= p1);
    }
    match &e.topic {
        Some(t2) => {
            if !t2.as_str().is_empty() {
                out.append("      <album>");
                let esc = escape_xml(t2.as_str());
                out.append(esc.as_str());
                out.append("</album>\n");
            }
        },
        None => {},
    }
    let ghost p2 = p1 + xspf_topic(e@);
    proof {
        assert(out@ =~= p2);
    }
    out.append("      <location>");
    let u = escape_xml(e.url.as_str());
    out.append(u.as_str());
    out.append("</location>\n");
    let ghost p3 = p2 + "      <location>"@ + xml_escaped(e@.url) + "</location>\n"@;
    proof {
        assert(out@ =~= p3);
    }
    match &e.duration_seconds {
        Some(d) => {
            let ms = if *d > u64::MAX / 1000 {
                u64::MAX
            } else {
                *d * 1000
            };
            if ms > 0 {
                out.append("      <duration>");
                crate::episodes::append_u64(out, ms);
                out.append("</duration>\n");
            }
        },
        None => {},
    }
    let ghost p4 = p3 + xspf_duration(e@);
    proof {
        assert(out@ =~= p4);
    }
    match &e.description {
        Some(d) => {
            let cleaned = clean_description(d.as_str());
            if !cleaned.as_str().is_empty() {
                out.append("      <annotation>");
                let esc = escape_xml(cleaned.as_str());
                out.append(esc.as_str());
                out.append("</annotation>\n");
            }
        },
        None => {},
    }
    let ghost p5 = p4 + xspf_annotation(e@);
    proof {
        assert(out@ =~= p5);
    }
    out.append("    </track>\n");
    proof {
        assert(out@ =~= old(out)@ + xspf_track(e@));
    }
}

/// Builds the XSPF document for the given episodes, playlist name and
/// date string.
pub fn build_xspf(episodes: &Vec<Episode>, playlist_name: &str, date: &str) -> (r: String)
    ensures
        r@ == xspf_spec(episodes.deep_view(), playlist_name@, date@),
{
    let mut out = String::new();
    out.append(
        "<?xml version=\"1.0\" encoding=\"UTF-8\"?>\n<playlist version=\"1\" xmlns=\"http://xspf.org/ns/0/\">\n  <title>AI Sorted Playlist: ",
    );
    let esc_name = escape_xml(playlist_name);
    out.append(esc_name.as_str());
    out.append("</title>\n  <creator>MWB - AI Episode Sorting</creator>\n  <date>");
    let esc_date = escape_xml(date);
    out.append(esc_date.as_str());
    out.append("</date>\n  <trackList>\n");
    let ghost header = out@;
    let mut i: usize = 0;
    while i < episodes.len()
        invariant
            i <= episodes@.len(),
            episodes.deep_view().len() == episodes@.len(),
            out@ == header + xspf_tracks(episodes.deep_view().take(i as int)),
        decreases episodes@.len() - i,
    {
        append_xspf_track(&mut out, &episodes[i]);
        i = i + 1;
        proof {
            let dv = episodes.deep_view();
            assert(dv.take(i as int).drop_last() =~= dv.take(i - 1));
            assert(dv.take(i as int).last() == dv[i - 1]);
            assert(dv[i - 1] == episodes@[i - 1]@);
        }
    }
    out.append("  </trackList>\n</playlist>\n");
    proof {
        assert(episodes.deep_view().take(episodes@.len() as int) =~= episodes.deep_view());
        assert(out@ =~= xspf_spec(episodes.deep_view(), playlist_name@, date@));
    }
    out
}

/// The confirmation payload after a playlist was written.
pub open spec fn confirmation_spec(filename: Seq<char>, count: int) -> Seq<char> {
    "XSPF playlist '"@ + filename + "' created with "@ + dec_str(count) + " episodes and VLC launched successfully!"@
}

/// Builds the confirmation payload for the model after the playlist
/// collaborator has done its work.
pub fn playlist_confirmation(filename: &str, count: u64) -> (r: String)
    ensures
        r@ == confirmation_spec(filename@, count as int),
{
    let mut r = String::new();
    r.append("XSPF playlist '");
    r.append(filename);
    r.append("' created with ");
    crate::episodes::append_u64(&mut r, count);
    r.append(" episodes and VLC launched successfully!");
    proof {
        assert(r@ =~= confirmation_spec(filename@, count as int));
    }
    r
}

} // verus!
