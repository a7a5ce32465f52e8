//! The episode record exchanged between the catalog, the conversation
//! engine and the playlist builder, together with its JSON serialisation
//! used to seed the first conversation turn.

use vstd::prelude::*;

verus! {

/// One catalog episode.  Immutable once constructed from catalog data.
#[derive(Clone, Debug)]
pub struct Episode {
    pub title: String,
    pub url: String,
    pub description: Option<String>,
    pub duration_seconds: Option<u64>,
    pub channel: Option<String>,
    pub topic: Option<String>,
}

/// The mathematical value of an [`Episode`].
pub ghost struct EpisodeView {
    pub title: Seq<char>,
    pub url: Seq<char>,
    pub description: Option<Seq<char>>,
    pub duration_seconds: Option<u64>,
    pub channel: Option<Seq<char>>,
    pub topic: Option<Seq<char>>,
}

pub open spec fn opt_view(o: Option<String>) -> Option<Seq<char>> {
    match o {
        Some(s) => Some(s@),
        None => None,
    }
}

impl View for Episode {
    type V = EpisodeView;

    open spec fn view(&self) -> EpisodeView {
        EpisodeView {
            title: self.title@,
            url: self.url@,
            description: opt_view(self.description),
            duration_seconds: self.duration_seconds,
            channel: opt_view(self.channel),
            topic: opt_view(self.topic),
        }
    }
}

impl DeepView for Episode {
    type V = EpisodeView;

    open spec fn deep_view(&self) -> EpisodeView {
        self@
    }
}

/// Copies an optional string, preserving its value.
pub fn clone_opt_string(o: &Option<String>) -> (r: Option<String>)
    ensures
        r == *o,
{
    match o {
        Some(s) => Some(s.clone()),
        None => None,
    }
}

/// Copies an episode, preserving its value.
pub fn clone_episode(e: &Episode) -> (r: Episode)
    ensures
        r == *e,
{
    Episode {
        title: e.title.clone(),
        url: e.url.clone(),
        description: clone_opt_string(&e.description),
        duration_seconds: e.duration_seconds,
        channel: clone_opt_string(&e.channel),
        topic: clone_opt_string(&e.topic),
    }
}

/// Copies a vector of episodes, preserving its value.
pub fn clone_episodes(v: &Vec<Episode>) -> (r: Vec<Episode>)
    ensures
        r@ == v@,
{
    let mut r: Vec<Episode> = Vec::new();
    let mut i: usize = 0;
    while i < v.len()
        invariant
            i <= v@.len(),
            r@ == v@.take(i as int),
        decreases v@.len() - i,
    {
        r.push(clone_episode(&v[i]));
        i = i + 1;
        assert(r@ =~= v@.take(i as int));
    }
    assert(v@.take(v@.len() as int) =~= v@);
    r
}

/// The decimal digit character for `n`.
pub open spec fn dec_digit(n: int) -> char {
    if n == 0 {
        '0'
    } else if n == 1 {
        '1'
    } else if n == 2 {
        '2'
    } else if n == 3 {
        '3'
    } else if n == 4 {
        '4'
    } else if n == 5 {
        '5'
    } else if n == 6 {
        '6'
    } else if n == 7 {
        '7'
    } else if n == 8 {
        '8'
    } else {
        '9'
    }
}

/// The decimal representation of a non-negative integer, without leading
/// zeros (except for zero itself).
pub open spec fn dec_str(n: int) -> Seq<char>
    decreases n,
{
    if n < 10 {
        seq![dec_digit(n)]
    } else {
        dec_str(n / 10).push(dec_digit(n % 10))
    }
}

fn dec_digit_char(n: u64) -> (c: char)
    requires
        n < 10,
    ensures
        c == dec_digit(n as int),
{
    if n == 0 {
        '0'
    } else if n == 1 {
        '1'
    } else if n == 2 {
        '2'
    } else if n == 3 {
        '3'
    } else if n == 4 {
        '4'
    } else if n == 5 {
        '5'
    } else if n == 6 {
        '6'
    } else if n == 7 {
        '7'
    } else if n == 8 {
        '8'
    } else {
        '9'
    }
}

/// The decimal digits of `n`, most significant first.
pub fn u64_to_chars(n: u64) -> (r: Vec<char>)
    ensures
        r@ == dec_str(n as int),
    decreases n,
{
    if n < 10 {
        let mut v: Vec<char> = Vec::new();
        v.push(dec_digit_char(n));
        proof {
            assert(v@ =~= seq![dec_digit(n as int)]);
        }
        v
    } else {
        let mut v = u64_to_chars(n / 10);
        v.push(dec_digit_char(n % 10));
        v
    }
}

/// Appends the decimal representation of `n` to `out`.
pub fn append_u64(out: &mut String, n: u64)
    ensures
        final(out)@ == old(out)@ + dec_str(n as int),
{
    let digits = u64_to_chars(n);
    let mut i: usize = 0;
    while i < digits.len()
        invariant
            digits@ == dec_str(n as int),
            i <= digits@.len(),
            out@ == old(out)@ + digits@.take(i as int),
        decreases digits@.len() - i,
    {
        crate::text::push_char(out, digits[i]);
        i = i + 1;
        assert(old(out)@ + digits@.take(i as int) =~= (old(out)@ + digits@.take(i - 1)).push(
            digits@[i - 1],
        ));
    }
    assert(digits@.take(digits@.len() as int) =~= digits@);
}

/// The escape of one character inside a JSON string literal.
pub open spec fn json_escaped_char(c: char) -> Seq<char> {
    if c == '"' {
        seq!['\\', '"']
    } else if c == '\\' {
        seq!['\\', '\\']
    } else if c == '\n' {
        seq!['\\', 'n']
    } else if c == '\r' {
        seq!['\\', 'r']
    } else if c == '\t' {
        seq!['\\', 't']
    } else if (c as u32) < 0x20 {
        let u = c as u32;
        seq!['\\', 'u', '0', '0', dec_digit(u as int / 16), hex_digit_low(u as int % 16)]
    } else {
        seq![c]
    }
}

/// The lower-case hexadecimal digit for `n`; only digits below 16 arise.
pub open spec fn hex_digit_low(n: int) -> char {
    if n < 10 {
        dec_digit(n)
    } else if n == 10 {
        'a'
    } else if n == 11 {
        'b'
    } else if n == 12 {
        'c'
    } else if n == 13 {
        'd'
    } else if n == 14 {
        'e'
    } else {
        'f'
    }
}

fn hex_digit_low_char(n: u32) -> (c: char)
    requires
        n < 16,
    ensures
        c == hex_digit_low(n as int),
{
    if n < 10 {
        dec_digit_char(n as u64)
    } else if n == 10 {
        'a'
    } else if n == 11 {
        'b'
    } else if n == 12 {
        'c'
    } else if n == 13 {
        'd'
    } else if n == 14 {
        'e'
    } else {
        'f'
    }
}

/// The body of a JSON string literal holding `s`.
pub open spec fn json_escaped(s: Seq<char>) -> Seq<char>
    decreases s.len(),
{
    if s.len() == 0 {
        Seq::empty()
    } else {
        json_escaped(s.drop_last()) + json_escaped_char(s.last())
    }
}

/// Appends the JSON escape of one character to `out`.
fn append_json_escaped_char(out: &mut String, c: char)
    ensures
        final(out)@ == old(out)@ + json_escaped_char(c),
{
    let ghost pre = out@;
    if c == '"' {
        crate::text::push_char(out, '\\');
        crate::text::push_char(out, '"');
    } else if c == '\\' {
        crate::text::push_char(out, '\\');
        crate::text::push_char(out, '\\');
    } else if c == '\n' {
        crate::text::push_char(out, '\\');
        crate::text::push_char(out, 'n');
    } else if c == '\r' {
        crate::text::push_char(out, '\\');
        crate::text::push_char(out, 'r');
    } else if c == '\t' {
        crate::text::push_char(out, '\\');
        crate::text::push_char(out, 't');
    } else if (c as u32) < 0x20 {
        let u = c as u32;
        crate::text::push_char(out, '\\');
        crate::text::push_char(out, 'u');
        crate::text::push_char(out, '0');
        crate::text::push_char(out, '0');
        crate::text::push_char(out, dec_digit_char((u / 16) as u64));
        crate::text::push_char(out, hex_digit_low_char(u % 16));
    } else {
        crate::text::push_char(out, c);
    }
    proof {
        assert(out@ =~= pre + json_escaped_char(c));
    }
}

/// Appends the JSON string literal holding `s` (quotes included) to `out`.
pub fn append_json_str(out: &mut String, s: &str)
    ensures
        final(out)@ == old(out)@ + json_str(s@),
{
    let v = crate::text::chars_of(s);
    crate::text::push_char(out, '"');
    let mut i: usize = 0;
    while i < v.len()
        invariant
            v@ == s@,
            i <= v@.len(),
            out@ == old(out)@ + seq!['"'] + json_escaped(s@.take(i as int)),
        decreases v@.len() - i,
    {
        append_json_escaped_char(out, v[i]);
        i = i + 1;
        proof {
            assert(s@.take(i as int).drop_last() =~= s@.take(i - 1));
            assert(s@.take(i as int).last() == s@[i - 1]);
        }
    }
    crate::text::push_char(out, '"');
    proof {
        assert(s@.take(s@.len() as int) =~= s@);
        assert(out@ =~= old(out)@ + json_str(s@));
    }
}

/// A JSON string literal: the escaped body between double quotes.
pub open spec fn json_str(s: Seq<char>) -> Seq<char> {
    seq!['"'] + json_escaped(s) + seq!['"']
}

/// A JSON string literal, or `null` when the field is absent.
pub open spec fn json_opt_str(o: Option<Seq<char>>) -> Seq<char> {
    match o {
        Some(s) => json_str(s),
        None => "null"@,
    }
}

/// A JSON number, or `null` when the field is absent.
pub open spec fn json_opt_u64(o: Option<u64>) -> Seq<char> {
    match o {
        Some(n) => dec_str(n as int),
        None => "null"@,
    }
}

/// The JSON object serialised for one episode; only the fields the
/// model needs to order episodes are included.
pub open spec fn episode_json(e: EpisodeView) -> Seq<char> {
    "{\"title\":"@ + json_str(e.title) + ",\"topic\":"@ + json_opt_str(e.topic) + ",\"duration\":"@
        + json_opt_u64(e.duration_seconds) + ",\"channel\":"@ + json_opt_str(e.channel)
        + ",\"url\":"@ + json_str(e.url) + "}"@
}

/// The comma-separated episode objects.
pub open spec fn episodes_json_items(eps: Seq<EpisodeView>) -> Seq<char>
    decreases eps.len(),
{
    if eps.len() == 0 {
        Seq::empty()
    } else if eps.len() == 1 {
        episode_json(eps[0])
    } else {
        episodes_json_items(eps.drop_last()) + ","@ + episode_json(eps.last())
    }
}

/// The JSON array holding the serialised episodes.
pub open spec fn episodes_json(eps: Seq<EpisodeView>) -> Seq<char> {
    "["@ + episodes_json_items(eps) + "]"@
}

/// Appends one serialised episode to `out`.
fn append_episode_json(out: &mut String, e: &Episode)
    ensures
        final(out)@ == old(out)@ + episode_json(e@),
{
    let ghost p0 = old(out)@ + "{\"title\":"@ + json_str(e@.title);
    let ghost p1 = p0 + ",\"topic\":"@ + json_opt_str(e@.topic);
    let ghost p2 = p1 + ",\"duration\":"@ + json_opt_u64(e@.duration_seconds);
    let ghost p3 = p2 + ",\"channel\":"@ + json_opt_str(e@.channel);
    let ghost p4 = p3 + ",\"url\":"@ + json_str(e@.url) + "}"@;
    out.append("{\"title\":");
    append_json_str(out, e.title.as_str());
    proof {
        assert(out@ =~= p0);
    }
    out.append(",\"topic\":");
    match &e.topic {
        Some(t) => append_json_str(out, t.as_str()),
        None => out.append("null"),
    }
    proof {
        assert(out@ =~= p1);
    }
    out.append(",\"duration\":");
    match &e.duration_seconds {
        Some(d) => append_u64(out, *d),
        None => out.append("null"),
    }
    proof {
        assert(out@ =~= p2);
    }
    out.append(",\"channel\":");
    match &e.channel {
        Some(c) => append_json_str(out, c.as_str()),
        None => out.append("null"),
    }
    proof {
        assert(out@ =~= p3);
    }
    out.append(",\"url\":");
    append_json_str(out, e.url.as_str());
    out.append("}");
    proof {
        assert(out@ =~= p4);
        assert(p4 =~= old(out)@ + episode_json(e@));
    }
}

/// At most this many episodes are serialised into the first turn, to
/// respect downstream token limits.
pub const EPISODE_CAP: usize = 20;

/// The serialised, length-capped episode list.
pub open spec fn capped_episodes_json(eps: Seq<EpisodeView>) -> Seq<char> {
    episodes_json(if eps.len() > EPISODE_CAP as int {
        eps.take(EPISODE_CAP as int)
    } else {
        eps
    })
}

/// Serialises at most [`EPISODE_CAP`] episodes as a JSON array.
pub fn format_episodes(episodes: &Vec<Episode>) -> (r: String)
    ensures
        r@ == capped_episodes_json(episodes.deep_view()),
{
    let count = if episodes.len() > EPISODE_CAP {
        EPISODE_CAP
    } else {
        episodes.len()
    };
    let ghost capped = if episodes.deep_view().len() > EPISODE_CAP as int {
        episodes.deep_view().take(EPISODE_CAP as int)
    } else {
        episodes.deep_view()
    };
    proof {
        assert(capped =~= episodes.deep_view().take(count as int));
    }
    let mut out = String::new();
    out.append("[");
    let mut i: usize = 0;
    while i < count
        invariant
            count <= episodes@.len(),
            capped == episodes.deep_view().take(count as int),
            episodes.deep_view().len() == episodes@.len(),
            i <= count,
            out@ == "["@ + episodes_json_items(episodes.deep_view().take(i as int)),
        decreases count - i,
    {
        if i > 0 {
            out.append(",");
        }
        append_episode_json(&mut out, &episodes[i]);
        i = i + 1;
        proof {
            let dv = episodes.deep_view();
            assert(dv.take(i as int).drop_last() =~= dv.take(i - 1));
            assert(dv.take(i as int).last() == dv[i - 1]);
            assert(dv.take(i as int)[i - 1] == dv[i - 1]);
        }
    }
    out.append("]");
    proof {
        assert(out@ =~= "["@ + episodes_json_items(capped) + "]"@);
    }
    out
}

} // verus!
