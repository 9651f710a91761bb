use vstd::prelude::*;
use vstd::utf8::{decode_utf8, valid_utf8};
use crate::types::{words, TagInfo};

verus! {

/// ANSI colour of the general tags.
pub const GENERAL: &'static str = "\x1b[34m";
/// ANSI colour of the meta tags.
pub const META: &'static str = "\x1b[33m";
/// ANSI colour of the artist tags.
pub const ARTISTS: &'static str = "\x1b[31m";
/// ANSI colour of the character tags.
pub const CHARACTERS: &'static str = "\x1b[32m";
/// ANSI colour of the copyright tags.
pub const COPYRIGHTS: &'static str = "\x1b[35m";
/// ANSI reset.
pub const RESET: &'static str = "\x1b[0m";
/// What the author line of a post without artist tags reads.
pub const NO_ARTIST_TAGS: &'static str = "[no artist tags]";

/// The words of `ws` with `sep` between each two of them.
pub open spec fn joined(ws: Seq<Seq<char>>, sep: Seq<char>) -> Seq<char>
    decreases ws.len(),
{
    if ws.len() == 0 {
        Seq::empty()
    } else if ws.len() == 1 {
        ws[0]
    } else {
        joined(ws.drop_last(), sep) + sep + ws.last()
    }
}

/// Joins the strings of `list`, with `sep` between each two of them.
pub fn join_strings(list: &Vec<String>, sep: &str) -> (r: String)
    ensures
        r@ == joined(words(list@), sep@),
{
    let ghost ws = words(list@);
    let mut out = String::new();
    let mut i: usize = 0;
    while i < list.len()
        invariant
            i <= list@.len(),
            ws == words(list@),
            out@ == joined(ws.take(i as int), sep@),
        decreases list@.len() - i,
    {
        let ghost before = out@;
        if i > 0 {
            out.append(sep);
        }
        out.append(list[i].as_str());
        proof {
            assert(ws.take(i + 1).drop_last() =~= ws.take(i as int));
            if i == 0 {
                assert(before =~= Seq::<char>::empty());
                assert(out@ =~= ws[0]);
            }
        }
        i = i + 1;
    }
    assert(ws.take(list@.len() as int) =~= ws);
    out
}

/// One coloured group of tags: nothing when the group is empty, else the
/// colour, the tags separated by spaces, the reset code and a space.
pub open spec fn tag_group(colour: Seq<char>, tags: Seq<String>) -> Seq<char> {
    if tags.len() == 0 {
        Seq::empty()
    } else {
        colour + joined(words(tags), " "@) + RESET@ + " "@
    }
}

/// The tags of a post as an ANSI code block: general, meta, artist,
/// character and copyright tags, each group in its colour.
pub open spec fn tags_text(t: TagInfo) -> Seq<char> {
    "```ansi\n"@
        + tag_group(GENERAL@, t.general@)
        + tag_group(META@, t.meta@)
        + tag_group(ARTISTS@, t.artists@)
        + tag_group(CHARACTERS@, t.characters@)
        + tag_group(COPYRIGHTS@, t.copyrights@)
        + "```"@
}

/// Appends one coloured tag group to `out`.
fn push_tag_group(out: &mut String, colour: &str, tags: &Vec<String>)
    ensures
        final(out)@ == old(out)@ + tag_group(colour@, tags@),
{
    if !tags.is_empty() {
        let text = join_strings(tags, " ");
        out.append(colour);
        out.append(text.as_str());
        out.append(RESET);
        out.append(" ");
    } else {
        assert(old(out)@ + tag_group(colour@, tags@) =~= old(out)@);
    }
}

/// The tags of a post, formatted as an ANSI-coloured code block.
pub fn format_tags_with_ansi(tag_info: &TagInfo) -> (r: String)
    ensures
        r@ == tags_text(*tag_info),
{
    let mut output = String::from_str("```ansi\n");
    push_tag_group(&mut output, GENERAL, &tag_info.general);
    push_tag_group(&mut output, META, &tag_info.meta);
    push_tag_group(&mut output, ARTISTS, &tag_info.artists);
    push_tag_group(&mut output, CHARACTERS, &tag_info.characters);
    push_tag_group(&mut output, COPYRIGHTS, &tag_info.copyrights);
    output.append("```");
    output
}

/// The author line of a post: its artists separated by commas, or a note that
/// it has no artist tags.
pub open spec fn artists_text(artists: Seq<String>) -> Seq<char> {
    if artists.len() == 0 {
        NO_ARTIST_TAGS@
    } else {
        joined(words(artists), ", "@)
    }
}

/// The author line of a post with the given artists.
pub fn artists_line(artists: &Vec<String>) -> (r: String)
    ensures
        r@ == artists_text(artists@),
{
    if !artists.is_empty() {
        join_strings(artists, ", ")
    } else {
        String::from_str(NO_ARTIST_TAGS)
    }
}

/// `s` with a backslash put before each backtick.
pub open spec fn escape_backticks(s: Seq<char>) -> Seq<char>
    decreases s.len(),
{
    if s.len() == 0 {
        Seq::empty()
    } else if s.last() == '`' {
        escape_backticks(s.drop_last()) + seq!['\\', '`']
    } else {
        escape_backticks(s.drop_last()).push(s.last())
    }
}

/// `text` with a backslash put before each backtick, so that it cannot close
/// the code block it is shown in.
pub fn escape_text(text: &str) -> (r: String)
    ensures
        r@ == escape_backticks(text@),
{
    let n = text.unicode_len();
    let mut out = String::new();
    let mut i: usize = 0;
    while i < n
        invariant
            n == text@.len(),
            i <= n,
            out@ == escape_backticks(text@.take(i as int)),
        decreases n - i,
    {
        let c = text.get_char(i);
        proof {
            assert(text@.take(i + 1).drop_last() =~= text@.take(i as int));
            assert(text@.take(i + 1).last() == c);
        }
        if c == '`' {
            out.append("\\`");
            proof {
                reveal_strlit("\\`");
            }
            assert(out@ =~= escape_backticks(text@.take(i + 1)));
        } else {
            let one = text.substring_char(i, i + 1);
            out.append(one);
            assert(one@ =~= seq![c]);
            assert(out@ =~= escape_backticks(text@.take(i + 1)));
        }
        i = i + 1;
    }
    assert(text@.take(n as int) =~= text@);
    out
}

/// A post with no tags shows an empty code block.
pub proof fn law_no_tags_empty_block(t: TagInfo)
    requires
        t.is_empty_spec(),
    ensures
        tags_text(t) == "```ansi\n```"@,
{
    reveal_strlit("```ansi\n");
    reveal_strlit("```");
    reveal_strlit("```ansi\n```");
    assert(tags_text(t) =~= "```ansi\n"@ + "```"@);
}

/// The tags always stand in one ANSI code block: the text opens the block
/// and closes it at its very end.
pub proof fn law_tags_in_one_block(t: TagInfo)
    ensures
        tags_text(t).len() >= 11,
        tags_text(t).take(8) == "```ansi\n"@,
        tags_text(t).skip(tags_text(t).len() - 3) == "```"@,
{
    reveal_strlit("```ansi\n");
    reveal_strlit("```");
    let body = tag_group(GENERAL@, t.general@) + tag_group(META@, t.meta@) + tag_group(ARTISTS@, t.artists@)
        + tag_group(CHARACTERS@, t.characters@) + tag_group(COPYRIGHTS@, t.copyrights@);
    assert(tags_text(t) =~= "```ansi\n"@ + body + "```"@);
    assert(tags_text(t).take(8) =~= "```ansi\n"@);
    assert(tags_text(t).skip(tags_text(t).len() - 3) =~= "```"@);
}

/// After escaping, every backtick is preceded by a backslash, so no backtick
/// of the text can close the code block that shows it.
pub proof fn law_escaped_backticks(s: Seq<char>)
    ensures
        forall|i: int|
            0 <= i < escape_backticks(s).len() && #[trigger] escape_backticks(s)[i] == '`' ==> i > 0
                && escape_backticks(s)[i - 1] == '\\',
    decreases s.len(),
{
    if s.len() > 0 {
        law_escaped_backticks(s.drop_last());
        let e = escape_backticks(s.drop_last());
        if s.last() == '`' {
            assert(escape_backticks(s) == e + seq!['\\', '`']);
            assert forall|i: int|
                0 <= i < escape_backticks(s).len() && #[trigger] escape_backticks(s)[i] == '`' implies i > 0
                    && escape_backticks(s)[i - 1] == '\\' by {
                if i < e.len() {
                    assert(escape_backticks(s)[i] == e[i]);
                    assert(escape_backticks(s)[i - 1] == e[i - 1]);
                }
            }
        } else {
            assert(escape_backticks(s) == e.push(s.last()));
            assert forall|i: int|
                0 <= i < escape_backticks(s).len() && #[trigger] escape_backticks(s)[i] == '`' implies i > 0
                    && escape_backticks(s)[i - 1] == '\\' by {
                if i < e.len() {
                    assert(escape_backticks(s)[i] == e[i]);
                    assert(escape_backticks(s)[i - 1] == e[i - 1]);
                }
            }
        }
    }
}

/// What `String::from_utf8_lossy` makes of a byte string.
pub uninterp spec fn utf8_lossy(bytes: Seq<u8>) -> Seq<char>;

/// Decodes bytes as UTF-8 with `String::from_utf8_lossy`, replacing invalid
/// sequences. Claimed of it: the result is `utf8_lossy` of the bytes, and
/// for valid UTF-8 it is the decoded text (as std's documentation says).
/// What it makes of invalid sequences is left to the name.
#[verifier::external_body]
fn decode_lossy(bytes: &[u8]) -> (r: String)
    ensures
        r@ == utf8_lossy(bytes@),
        valid_utf8(bytes@) ==> r@ == decode_utf8(bytes@),
{
    String::from_utf8_lossy(bytes).into_owned()
}

/// The message that shows a program's output: the output decoded as UTF-8,
/// its backticks escaped, inside an ANSI code block.
pub open spec fn output_block(text: Seq<char>) -> Seq<char> {
    "```ansi\n"@ + escape_backticks(text) + "\n```"@
}

/// The message that shows the output of `fastfetch`.
pub fn fastfetch_message(stdout: &[u8]) -> (r: String)
    ensures
        r@ == output_block(utf8_lossy(stdout@)),
        valid_utf8(stdout@) ==> r@ == output_block(decode_utf8(stdout@)),
{
    let text = decode_lossy(stdout);
    let escaped = escape_text(text.as_str());
    let mut out = String::from_str("```ansi\n");
    out.append(escaped.as_str());
    out.append("\n```");
    out
}

/// `w` stands somewhere in `s` as a contiguous run of characters.
pub open spec fn occurs_in(w: Seq<char>, s: Seq<char>) -> bool {
    exists|k: int| 0 <= k && k + w.len() <= s.len() && #[trigger] s.subrange(k, k + w.len()) == w
}

proof fn lemma_occurs_itself(w: Seq<char>)
    ensures
        occurs_in(w, w),
{
    let k: int = 0;
    assert(w.subrange(k, k + w.len()) =~= w);
}

proof fn lemma_occurs_left(w: Seq<char>, a: Seq<char>, b: Seq<char>)
    requires
        occurs_in(w, a),
    ensures
        occurs_in(w, a + b),
{
    let k = choose|k: int| 0 <= k && k + w.len() <= a.len() && #[trigger] a.subrange(k, k + w.len()) == w;
    assert((a + b).subrange(k, k + w.len()) =~= a.subrange(k, k + w.len()));
}

proof fn lemma_occurs_right(w: Seq<char>, a: Seq<char>, b: Seq<char>)
    requires
        occurs_in(w, b),
    ensures
        occurs_in(w, a + b),
{
    let k = choose|k: int| 0 <= k && k + w.len() <= b.len() && #[trigger] b.subrange(k, k + w.len()) == w;
    assert((a + b).subrange(a.len() + k, a.len() + k + w.len()) =~= b.subrange(k, k + w.len()));
}

proof fn lemma_occurs_middle(w: Seq<char>, a: Seq<char>, m: Seq<char>, b: Seq<char>)
    requires
        occurs_in(w, m),
    ensures
        occurs_in(w, a + m + b),
{
    lemma_occurs_right(w, a, m);
    lemma_occurs_left(w, a + m, b);
}

/// Every word of a list stands in the list joined with any separator.
pub proof fn law_join_keeps_every_word(ws: Seq<Seq<char>>, sep: Seq<char>, i: int)
    requires
        0 <= i < ws.len(),
    ensures
        occurs_in(ws[i], joined(ws, sep)),
    decreases ws.len(),
{
    if ws.len() == 1 {
        lemma_occurs_itself(ws[0]);
    } else if i == ws.len() - 1 {
        lemma_occurs_itself(ws.last());
        lemma_occurs_right(ws.last(), joined(ws.drop_last(), sep) + sep, ws.last());
    } else {
        law_join_keeps_every_word(ws.drop_last(), sep, i);
        assert(ws.drop_last()[i] == ws[i]);
        lemma_occurs_left(ws[i], joined(ws.drop_last(), sep), sep + ws.last());
        assert(joined(ws.drop_last(), sep) + (sep + ws.last()) =~= joined(ws.drop_last(), sep) + sep
            + ws.last());
    }
}

/// Joining adds exactly one separator between each two words and nothing
/// else: the joined length is the words' lengths plus one separator per gap.
pub proof fn law_join_length(ws: Seq<Seq<char>>, sep: Seq<char>)
    requires
        ws.len() > 0,
    ensures
        joined(ws, sep).len() == total_length(ws) + (ws.len() - 1) * sep.len(),
    decreases ws.len(),
{
    if ws.len() > 1 {
        law_join_length(ws.drop_last(), sep);
        assert(ws.drop_last().push(ws.last()) =~= ws);
        lemma_total_length_push(ws.drop_last(), ws.last());
        assert((ws.len() - 1) * sep.len() == (ws.len() - 2) * sep.len() + sep.len()) by (nonlinear_arith);
    } else {
        assert(ws =~= Seq::<Seq<char>>::empty().push(ws[0]));
        lemma_total_length_push(Seq::<Seq<char>>::empty(), ws[0]);
    }
}

/// The sum of the lengths of the words.
pub open spec fn total_length(ws: Seq<Seq<char>>) -> int
    decreases ws.len(),
{
    if ws.len() == 0 {
        0
    } else {
        total_length(ws.drop_last()) + ws.last().len()
    }
}

proof fn lemma_total_length_push(ws: Seq<Seq<char>>, w: Seq<char>)
    ensures
        total_length(ws.push(w)) == total_length(ws) + w.len(),
{
    assert(ws.push(w).drop_last() =~= ws);
}

/// A single word joined is that word itself.
pub proof fn law_join_single(w: Seq<char>, sep: Seq<char>)
    ensures
        joined(seq![w], sep) == w,
{
}

/// Every tag of every group is shown in the tag block: each general, meta,
/// artist, character and copyright tag stands in the formatted text.
pub proof fn law_every_tag_shown(t: TagInfo, i: int)
    ensures
        0 <= i < t.general@.len() ==> occurs_in(t.general@[i]@, tags_text(t)),
        0 <= i < t.meta@.len() ==> occurs_in(t.meta@[i]@, tags_text(t)),
        0 <= i < t.artists@.len() ==> occurs_in(t.artists@[i]@, tags_text(t)),
        0 <= i < t.characters@.len() ==> occurs_in(t.characters@[i]@, tags_text(t)),
        0 <= i < t.copyrights@.len() ==> occurs_in(t.copyrights@[i]@, tags_text(t)),
{
    let open = "```ansi\n"@;
    let close = "```"@;
    let g1 = tag_group(GENERAL@, t.general@);
    let g2 = tag_group(META@, t.meta@);
    let g3 = tag_group(ARTISTS@, t.artists@);
    let g4 = tag_group(CHARACTERS@, t.characters@);
    let g5 = tag_group(COPYRIGHTS@, t.copyrights@);
    assert(tags_text(t) =~= open + g1 + (g2 + g3 + g4 + g5 + close));
    assert(tags_text(t) =~= (open + g1) + g2 + (g3 + g4 + g5 + close));
    assert(tags_text(t) =~= (open + g1 + g2) + g3 + (g4 + g5 + close));
    assert(tags_text(t) =~= (open + g1 + g2 + g3) + g4 + (g5 + close));
    assert(tags_text(t) =~= (open + g1 + g2 + g3 + g4) + g5 + close);
    if 0 <= i < t.general@.len() {
        lemma_group_shows_tag(GENERAL@, t.general@, i);
        lemma_occurs_middle(t.general@[i]@, open, g1, g2 + g3 + g4 + g5 + close);
    }
    if 0 <= i < t.meta@.len() {
        lemma_group_shows_tag(META@, t.meta@, i);
        lemma_occurs_middle(t.meta@[i]@, open + g1, g2, g3 + g4 + g5 + close);
    }
    if 0 <= i < t.artists@.len() {
        lemma_group_shows_tag(ARTISTS@, t.artists@, i);
        lemma_occurs_middle(t.artists@[i]@, open + g1 + g2, g3, g4 + g5 + close);
    }
    if 0 <= i < t.characters@.len() {
        lemma_group_shows_tag(CHARACTERS@, t.characters@, i);
        lemma_occurs_middle(t.characters@[i]@, open + g1 + g2 + g3, g4, g5 + close);
    }
    if 0 <= i < t.copyrights@.len() {
        lemma_group_shows_tag(COPYRIGHTS@, t.copyrights@, i);
        lemma_occurs_middle(t.copyrights@[i]@, open + g1 + g2 + g3 + g4, g5, close);
    }
}

proof fn lemma_group_shows_tag(colour: Seq<char>, tags: Seq<String>, i: int)
    requires
        0 <= i < tags.len(),
    ensures
        occurs_in(tags[i]@, tag_group(colour, tags)),
{
    assert(words(tags)[i] == tags[i]@);
    law_join_keeps_every_word(words(tags), " "@, i);
    let j = joined(words(tags), " "@);
    lemma_occurs_middle(tags[i]@, colour, j, RESET@ + " "@);
    assert(tag_group(colour, tags) =~= colour + j + (RESET@ + " "@));
}

proof fn lemma_block_in_group(pre: Seq<char>, colour: Seq<char>, tags: Seq<String>, post: Seq<char>)
    requires
        tags.len() > 0,
    ensures
        occurs_in(colour + joined(words(tags), " "@) + RESET@, pre + tag_group(colour, tags) + post),
{
    let b = colour + joined(words(tags), " "@) + RESET@;
    lemma_occurs_itself(b);
    lemma_occurs_middle(b, pre, b, " "@ + post);
    assert(pre + tag_group(colour, tags) + post =~= pre + b + (" "@ + post));
}

/// A non-empty group stands in the tag block as its colour, then all its tags
/// separated by single spaces, then the reset code.
pub proof fn law_group_shown_whole(t: TagInfo)
    ensures
        t.general@.len() > 0 ==> occurs_in(GENERAL@ + joined(words(t.general@), " "@) + RESET@, tags_text(t)),
        t.meta@.len() > 0 ==> occurs_in(META@ + joined(words(t.meta@), " "@) + RESET@, tags_text(t)),
        t.artists@.len() > 0 ==> occurs_in(ARTISTS@ + joined(words(t.artists@), " "@) + RESET@, tags_text(t)),
        t.characters@.len() > 0 ==> occurs_in(CHARACTERS@ + joined(words(t.characters@), " "@) + RESET@, tags_text(t)),
        t.copyrights@.len() > 0 ==> occurs_in(COPYRIGHTS@ + joined(words(t.copyrights@), " "@) + RESET@, tags_text(t)),
{
    let open = "```ansi\n"@;
    let close = "```"@;
    let g1 = tag_group(GENERAL@, t.general@);
    let g2 = tag_group(META@, t.meta@);
    let g3 = tag_group(ARTISTS@, t.artists@);
    let g4 = tag_group(CHARACTERS@, t.characters@);
    let g5 = tag_group(COPYRIGHTS@, t.copyrights@);
    if t.general@.len() > 0 {
        assert(tags_text(t) =~= open + g1 + (g2 + g3 + g4 + g5 + close));
        lemma_block_in_group(open, GENERAL@, t.general@, g2 + g3 + g4 + g5 + close);
    }
    if t.meta@.len() > 0 {
        assert(tags_text(t) =~= (open + g1) + g2 + (g3 + g4 + g5 + close));
        lemma_block_in_group(open + g1, META@, t.meta@, g3 + g4 + g5 + close);
    }
    if t.artists@.len() > 0 {
        assert(tags_text(t) =~= (open + g1 + g2) + g3 + (g4 + g5 + close));
        lemma_block_in_group(open + g1 + g2, ARTISTS@, t.artists@, g4 + g5 + close);
    }
    if t.characters@.len() > 0 {
        assert(tags_text(t) =~= (open + g1 + g2 + g3) + g4 + (g5 + close));
        lemma_block_in_group(open + g1 + g2 + g3, CHARACTERS@, t.characters@, g5 + close);
    }
    if t.copyrights@.len() > 0 {
        assert(tags_text(t) =~= (open + g1 + g2 + g3 + g4) + g5 + close);
        lemma_block_in_group(open + g1 + g2 + g3 + g4, COPYRIGHTS@, t.copyrights@, close);
    }
}

/// The author line of a post with artists names them all, and a single
/// artist's line is exactly that artist's name; only a post without artists
/// gets the "[no artist tags]" note.
pub proof fn law_author_line(artists: Seq<String>, i: int)
    ensures
        artists.len() == 0 ==> artists_text(artists) == NO_ARTIST_TAGS@,
        artists.len() == 1 ==> artists_text(artists) == artists[0]@,
        0 <= i < artists.len() ==> occurs_in(artists[i]@, artists_text(artists)),
{
    if artists.len() == 1 {
        assert(words(artists)[0] == artists[0]@);
    }
    if 0 <= i < artists.len() {
        assert(words(artists)[i] == artists[i]@);
        law_join_keeps_every_word(words(artists), ", "@, i);
    }
}

/// Text without backticks is left exactly as it is by escaping.
pub proof fn law_escape_keeps_plain_text(s: Seq<char>)
    requires
        !s.contains('`'),
    ensures
        escape_backticks(s) == s,
    decreases s.len(),
{
    if s.len() > 0 {
        assert(!s.drop_last().contains('`')) by {
            if s.drop_last().contains('`') {
                let k = choose|k: int| 0 <= k < s.drop_last().len() && s.drop_last()[k] == '`';
                assert(s[k] == '`');
            }
        }
        law_escape_keeps_plain_text(s.drop_last());
        assert(s.last() == s[s.len() - 1]);
        assert(s.drop_last().push(s.last()) =~= s);
    }
}

/// Escaping works character by character: the escape of two texts put
/// together is the two escapes put together, and a lone backtick becomes a
/// backslash and a backtick.
pub proof fn law_escape_by_parts(a: Seq<char>, b: Seq<char>)
    ensures
        escape_backticks(a + b) == escape_backticks(a) + escape_backticks(b),
        escape_backticks(seq!['`']) == seq!['\\', '`'],
    decreases b.len(),
{
    let tick = seq!['`'];
    assert(tick.len() == 1);
    assert(tick.last() == '`');
    assert(tick.drop_last() =~= Seq::<char>::empty());
    assert(escape_backticks(tick) == escape_backticks(tick.drop_last()) + seq!['\\', '`']);
    assert(escape_backticks(seq!['`']) =~= Seq::<char>::empty() + seq!['\\', '`']);
    if b.len() == 0 {
        assert(a + b =~= a);
        assert(escape_backticks(a) + escape_backticks(b) =~= escape_backticks(a));
    } else {
        law_escape_by_parts(a, b.drop_last());
        assert((a + b).drop_last() =~= a + b.drop_last());
        assert((a + b).last() == b.last());
        if b.last() == '`' {
            assert(escape_backticks(a) + (escape_backticks(b.drop_last()) + seq!['\\', '`'])
                =~= escape_backticks(a) + escape_backticks(b.drop_last()) + seq!['\\', '`']);
        } else {
            assert(escape_backticks(a) + escape_backticks(b.drop_last()).push(b.last())
                =~= (escape_backticks(a) + escape_backticks(b.drop_last())).push(b.last()));
        }
    }
}

/// Output without backticks is shown exactly as it is, line breaks and all,
/// between the opening and the closing of the code block.
pub proof fn law_plain_output_shown_as_is(text: Seq<char>)
    requires
        !text.contains('`'),
    ensures
        output_block(text) == "```ansi\n"@ + text + "\n```"@,
{
    law_escape_keeps_plain_text(text);
}

} // verus!
