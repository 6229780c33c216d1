//! What reading a page promises its callers, in terms of what goes into an operation and what
//! comes out of it.

use crate::html::{
    append_image_urls, attribute_value, decode_basic_html_entities, decoded, extract_image_urls,
    extract_src_attr, html_to_text, image_at, image_source, in_run, keep_image_url, lemma_image_at,
    lemma_run_len, name_ends, opens_image, page_images, past, run_len, src_value, stripped,
    tag_name_len, with_tag, RunKind,
};
use crate::text::{
    fitting, index_of_char, is_space, lemma_index_of_char, lower_char, lowered,
    normalize_whitespace, replaced, stands_at, texts, trimmed,
};
use crate::text_laws::{lemma_replaced_front, lemma_replaced_nothing, lemma_replaced_parts};
use crate::web_url::{url_joined, ParsedUrl};
use vstd::prelude::*;

verus! {

// ---------------------------------------------------------------------------
// Entities
// ---------------------------------------------------------------------------

/// What no occurrence begins with passes a replacement.
proof fn lemma_plain_prefix(t: Seq<char>, b: Seq<char>, p: Seq<char>, to: Seq<char>)
    requires
        p.len() > 0,
        forall|k: int| 0 <= k < t.len() ==> #[trigger] t[k] != p[0],
    ensures
        replaced(t + b, p, to) == t + replaced(b, p, to),
    decreases t.len(),
{
    let s = t + b;
    if t.len() == 0 {
        assert(s =~= b);
        assert(t + replaced(b, p, to) =~= replaced(b, p, to));
    } else {
        if stands_at(s, 0, p) {
            assert(s.subrange(0, p.len() as int)[0] == t[0]);
        }
        let rest = t.skip(1);
        assert forall|k: int| 0 <= k < rest.len() implies #[trigger] rest[k] != p[0] by {
            assert(rest[k] == t[k + 1]);
        }
        assert(s.skip(1) =~= rest + b);
        lemma_plain_prefix(rest, b, p, to);
        assert(seq![t[0]] + (rest + replaced(b, p, to)) =~= t + replaced(b, p, to));
    }
}

/// One stage of reading entities: the entity of the stage gives way, and anything else in the
/// middle stays; the texts on either side are read each for itself.
proof fn lemma_entity_stage(a: Seq<char>, e: Seq<char>, b: Seq<char>, p: Seq<char>, to: Seq<char>)
    requires
        p.len() > 1,
        p[0] == '&',
        forall|k: int| 1 <= k < p.len() ==> #[trigger] p[k] != '&',
        e.len() > 0,
        forall|k: int| 1 <= k < e.len() ==> #[trigger] e[k] != '&',
        forall|k: int| 1 <= k < p.len() ==> #[trigger] p[k] != e[0],
        e == p || !stands_at(e + b, 0, p),
    ensures
        replaced(a + e + b, p, to) == replaced(a, p, to) + (if e == p {
            to
        } else {
            e
        }) + replaced(b, p, to),
{
    assert(a + e + b =~= a + (e + b));
    assert((e + b)[0] == e[0]);
    lemma_replaced_parts(a, e + b, p, to);
    if e == p {
        lemma_replaced_front(b, p, to);
        assert(replaced(a, p, to) + (to + replaced(b, p, to)) =~= replaced(a, p, to) + to + replaced(
            b,
            p,
            to,
        ));
    } else {
        let s = e + b;
        let rest = e.skip(1);
        assert forall|k: int| 0 <= k < rest.len() implies #[trigger] rest[k] != p[0] by {
            assert(rest[k] == e[k + 1]);
        }
        assert(s.skip(1) =~= rest + b);
        lemma_plain_prefix(rest, b, p, to);
        assert(seq![s[0]] + (rest + replaced(b, p, to)) =~= e + replaced(b, p, to));
        assert(replaced(a, p, to) + (e + replaced(b, p, to)) =~= replaced(a, p, to) + e + replaced(
            b,
            p,
            to,
        ));
    }
}

/// What a text begins with after a replacement it began with before, where nothing of it can
/// have come in.
proof fn lemma_replaced_first(s: Seq<char>, p: Seq<char>, to: Seq<char>, t: Seq<char>)
    requires
        p.len() > 0,
        to.len() == 1,
        forall|k: int| 0 <= k < t.len() ==> #[trigger] t[k] != to[0],
        stands_at(replaced(s, p, to), 0, t),
    ensures
        stands_at(s, 0, t),
    decreases t.len(),
{
    let r = replaced(s, p, to);
    if t.len() > 0 {
        assert(r.subrange(0, t.len() as int)[0] == t[0]);
        assert(r[0] == t[0]);
        let tail = t.skip(1);
        assert forall|k: int| 0 <= k < tail.len() implies #[trigger] tail[k] != to[0] by {
            assert(tail[k] == t[k + 1]);
        }
        let rest = replaced(s.skip(1), p, to);
        if stands_at(s, 0, p) {
            assert(r[0] == to[0]);
        }
        assert(r == seq![s[0]] + rest);
        assert forall|k: int| 0 <= k < tail.len() implies #[trigger] rest.subrange(
            0,
            tail.len() as int,
        )[k] == tail[k] by {
            assert(r.subrange(0, t.len() as int)[k + 1] == t[k + 1]);
        }
        assert(rest.subrange(0, tail.len() as int) =~= tail);
        lemma_replaced_first(s.skip(1), p, to, tail);
        assert forall|k: int| 0 <= k < t.len() implies #[trigger] s.subrange(0, t.len() as int)[k]
            == t[k] by {
            if k > 0 {
                assert(s.skip(1).subrange(0, tail.len() as int)[k - 1] == tail[k - 1]);
            }
        }
        assert(s.subrange(0, t.len() as int) =~= t);
    } else {
        assert(s.subrange(0, 0) =~= t);
    }
}

/// An ampersand and a text make the entity that the text is the tail of, and no other.
proof fn lemma_ampersand_before(b: Seq<char>, p: Seq<char>)
    requires
        p.len() > 0,
        p[0] == '&',
    ensures
        stands_at(seq!['&'] + b, 0, p) <==> stands_at(b, 0, p.skip(1)),
{
    let s = seq!['&'] + b;
    let t = p.skip(1);
    if p.len() <= s.len() {
        if stands_at(s, 0, p) {
            assert forall|k: int| 0 <= k < t.len() implies #[trigger] b.subrange(
                0,
                t.len() as int,
            )[k] == t[k] by {
                assert(s.subrange(0, p.len() as int)[k + 1] == p[k + 1]);
            }
            assert(b.subrange(0, t.len() as int) =~= t);
        }
        if stands_at(b, 0, t) {
            assert forall|k: int| 0 <= k < p.len() implies #[trigger] s.subrange(
                0,
                p.len() as int,
            )[k] == p[k] by {
                if k > 0 {
                    assert(b.subrange(0, t.len() as int)[k - 1] == t[k - 1]);
                }
            }
            assert(s.subrange(0, p.len() as int) =~= p);
        }
    }
}

/// Another entity does not stand where one begins.
proof fn lemma_other_entity(e: Seq<char>, b: Seq<char>, p: Seq<char>)
    requires
        e.len() > 1,
        p.len() > 1,
        e[1] != p[1],
    ensures
        !stands_at(e + b, 0, p),
{
    let s = e + b;
    if stands_at(s, 0, p) {
        assert(s.subrange(0, p.len() as int)[1] == s[1]);
    }
}

/// A character that begins no entity.
proof fn lemma_plain_character(e: Seq<char>, b: Seq<char>, p: Seq<char>)
    requires
        e.len() > 0,
        p.len() > 0,
        e[0] != p[0],
    ensures
        !stands_at(e + b, 0, p),
{
    let s = e + b;
    if stands_at(s, 0, p) {
        assert(s.subrange(0, p.len() as int)[0] == s[0]);
    }
}

/// An entity, or a character that begins none, is no other entity.
proof fn lemma_entity_or_character(e: Seq<char>, b: Seq<char>, p: Seq<char>)
    requires
        e.len() > 0,
        p.len() > 1,
        p[0] == '&',
        e == p || e[0] != '&' || (e.len() > 1 && e[1] != p[1]),
    ensures
        e == p || !stands_at(e + b, 0, p),
{
    if e[0] != '&' {
        lemma_plain_character(e, b, p);
    } else if e != p {
        lemma_other_entity(e, b, p);
    }
}

/// Whether a text can stand behind an ampersand without making an entity of it.
pub open spec fn no_entity_behind(b: Seq<char>, amp: bool) -> bool {
    &&& !begins_with(b, "lt;"@)
    &&& !begins_with(b, "gt;"@)
    &&& !begins_with(b, "quot;"@)
    &&& !begins_with(b, "#39;"@)
    &&& !amp ==> !begins_with(b, "nbsp;"@) && !begins_with(b, "amp;"@)
}

/// Whether a text begins with another.
pub open spec fn begins_with(s: Seq<char>, t: Seq<char>) -> bool {
    t.len() <= s.len() && s.take(t.len() as int) == t
}

/// A text behind an ampersand stays no tail of an entity, whatever is replaced in it.
proof fn lemma_no_tail(s: Seq<char>, p: Seq<char>, to: Seq<char>, q: Seq<char>, t: Seq<char>)
    requires
        p.len() > 0,
        to.len() == 1,
        q.len() == t.len() + 1,
        q[0] == '&',
        q.skip(1) == t,
        forall|k: int| 0 <= k < t.len() ==> #[trigger] t[k] != to[0],
        !begins_with(s, t),
    ensures
        !begins_with(replaced(s, p, to), t),
        !stands_at(seq!['&'] + s, 0, q),
{
    lemma_ampersand_before(s, q);
    let r = replaced(s, p, to);
    if t.len() <= s.len() {
        assert(s.subrange(0, t.len() as int) =~= s.take(t.len() as int));
    }
    if begins_with(r, t) {
        assert(r.subrange(0, t.len() as int) =~= r.take(t.len() as int));
        lemma_replaced_first(s, p, to, t);
    }
}

proof fn lemma_decoded_parts(a: Seq<char>, e: Seq<char>, x: char, b: Seq<char>)
    requires
        ({
            ||| e == "&nbsp;"@ && x == ' '
            ||| e == "&lt;"@ && x == '<'
            ||| e == "&gt;"@ && x == '>'
            ||| e == "&quot;"@ && x == '"'
            ||| e == "&#39;"@ && x == '\''
            ||| e == "&amp;"@ && x == '&' && no_entity_behind(b, true)
            ||| e == seq!['&'] && x == '&' && no_entity_behind(b, false)
        }),
    ensures
        decoded(a + e + b) == decoded(a) + seq![x] + decoded(b),
{
    reveal_strlit("&nbsp;");
    reveal_strlit("&amp;");
    reveal_strlit("&lt;");
    reveal_strlit("&gt;");
    reveal_strlit("&quot;");
    reveal_strlit("&#39;");
    reveal_strlit(" ");
    reveal_strlit("&");
    reveal_strlit("<");
    reveal_strlit(">");
    reveal_strlit("\"");
    reveal_strlit("'");
    assert(" "@ =~= seq![' ']);
    assert("&"@ =~= seq!['&']);
    assert("<"@ =~= seq!['<']);
    assert(">"@ =~= seq!['>']);
    assert("\""@ =~= seq!['"']);
    assert("'"@ =~= seq!['\'']);
    let (a1, b1) = (replaced(a, "&nbsp;"@, " "@), replaced(b, "&nbsp;"@, " "@));
    let (a2, b2) = (replaced(a1, "&amp;"@, "&"@), replaced(b1, "&amp;"@, "&"@));
    let (a3, b3) = (replaced(a2, "&lt;"@, "<"@), replaced(b2, "&lt;"@, "<"@));
    let (a4, b4) = (replaced(a3, "&gt;"@, ">"@), replaced(b3, "&gt;"@, ">"@));
    let (a5, b5) = (replaced(a4, "&quot;"@, "\""@), replaced(b4, "&quot;"@, "\""@));
    let e1 = if e == "&nbsp;"@ {
        " "@
    } else {
        e
    };
    let e2 = if e1 == "&amp;"@ {
        "&"@
    } else {
        e1
    };
    let e3 = if e2 == "&lt;"@ {
        "<"@
    } else {
        e2
    };
    let e4 = if e3 == "&gt;"@ {
        ">"@
    } else {
        e3
    };
    let e5 = if e4 == "&quot;"@ {
        "\""@
    } else {
        e4
    };
    reveal_strlit("lt;");
    reveal_strlit("gt;");
    reveal_strlit("quot;");
    reveal_strlit("#39;");
    reveal_strlit("nbsp;");
    reveal_strlit("amp;");
    assert("&lt;"@.skip(1) =~= "lt;"@);
    assert("&gt;"@.skip(1) =~= "gt;"@);
    assert("&quot;"@.skip(1) =~= "quot;"@);
    assert("&#39;"@.skip(1) =~= "#39;"@);
    assert("&nbsp;"@.skip(1) =~= "nbsp;"@);
    assert("&amp;"@.skip(1) =~= "amp;"@);
    if x == '&' {
        assert(e.len() == 1 || e == "&amp;"@);
        assert(e2 =~= seq!['&'] && e3 =~= seq!['&'] && e4 =~= seq!['&'] && e5 =~= seq!['&']);
        lemma_no_tail(b, "&nbsp;"@, " "@, "&lt;"@, "lt;"@);
        lemma_no_tail(b1, "&amp;"@, "&"@, "&lt;"@, "lt;"@);
        lemma_no_tail(b2, "&lt;"@, "<"@, "&lt;"@, "lt;"@);
        lemma_no_tail(b, "&nbsp;"@, " "@, "&gt;"@, "gt;"@);
        lemma_no_tail(b1, "&amp;"@, "&"@, "&gt;"@, "gt;"@);
        lemma_no_tail(b2, "&lt;"@, "<"@, "&gt;"@, "gt;"@);
        lemma_no_tail(b3, "&gt;"@, ">"@, "&gt;"@, "gt;"@);
        lemma_no_tail(b, "&nbsp;"@, " "@, "&quot;"@, "quot;"@);
        lemma_no_tail(b1, "&amp;"@, "&"@, "&quot;"@, "quot;"@);
        lemma_no_tail(b2, "&lt;"@, "<"@, "&quot;"@, "quot;"@);
        lemma_no_tail(b3, "&gt;"@, ">"@, "&quot;"@, "quot;"@);
        lemma_no_tail(b4, "&quot;"@, "\""@, "&quot;"@, "quot;"@);
        lemma_no_tail(b, "&nbsp;"@, " "@, "&#39;"@, "#39;"@);
        lemma_no_tail(b1, "&amp;"@, "&"@, "&#39;"@, "#39;"@);
        lemma_no_tail(b2, "&lt;"@, "<"@, "&#39;"@, "#39;"@);
        lemma_no_tail(b3, "&gt;"@, ">"@, "&#39;"@, "#39;"@);
        lemma_no_tail(b4, "&quot;"@, "\""@, "&#39;"@, "#39;"@);
        lemma_no_tail(b5, "&#39;"@, "'"@, "&#39;"@, "#39;"@);
        if e.len() == 1 {
            lemma_no_tail(b, "&nbsp;"@, " "@, "&nbsp;"@, "nbsp;"@);
            lemma_no_tail(b, "&nbsp;"@, " "@, "&amp;"@, "amp;"@);
            lemma_no_tail(b1, "&amp;"@, "&"@, "&amp;"@, "amp;"@);
        } else {
            lemma_other_entity(e, b, "&nbsp;"@);
        }
    } else {
        lemma_entity_or_character(e, b, "&nbsp;"@);
        lemma_entity_or_character(e1, b1, "&amp;"@);
        lemma_entity_or_character(e2, b2, "&lt;"@);
        lemma_entity_or_character(e3, b3, "&gt;"@);
        lemma_entity_or_character(e4, b4, "&quot;"@);
        lemma_entity_or_character(e5, b5, "&#39;"@);
    }
    lemma_entity_stage(a, e, b, "&nbsp;"@, " "@);
    lemma_entity_stage(a1, e1, b1, "&amp;"@, "&"@);
    lemma_entity_stage(a2, e2, b2, "&lt;"@, "<"@);
    lemma_entity_stage(a3, e3, b3, "&gt;"@, ">"@);
    lemma_entity_stage(a4, e4, b4, "&quot;"@, "\""@);
    lemma_entity_stage(a5, e5, b5, "&#39;"@, "'"@);
    let e6 = if e5 == "&#39;"@ {
        "'"@
    } else {
        e5
    };
    assert(e6 =~= seq![x]) by {
        assert(" "@.len() == 1 && "<"@.len() == 1 && ">"@.len() == 1 && "\""@.len() == 1);
        assert("&lt;"@[1] == 'l' && "&gt;"@[1] == 'g' && "&quot;"@[1] == 'q' && "&#39;"@[1] == '#'
            && "&amp;"@[1] == 'a' && "&nbsp;"@[1] == 'n');
    }
    assert(replaced(a + e + b, "&nbsp;"@, " "@) == a1 + e1 + b1);
    assert(replaced(a1 + e1 + b1, "&amp;"@, "&"@) == a2 + e2 + b2);
    assert(replaced(a2 + e2 + b2, "&lt;"@, "<"@) == a3 + e3 + b3);
    assert(replaced(a3 + e3 + b3, "&gt;"@, ">"@) == a4 + e4 + b4);
    assert(replaced(a4 + e4 + b4, "&quot;"@, "\""@) == a5 + e5 + b5);
}

/// An entity gives way to the character that it stands for, wherever it stands: the texts on
/// either side of it are read each for itself.
pub proof fn lemma_entity_is_read(
    a: &str,
    entity: Seq<char>,
    plain: char,
    b: &str,
    whole: &str,
    of_a: String,
    of_b: String,
    of_whole: String,
)
    requires
        call_ensures(decode_basic_html_entities, (a,), of_a),
        call_ensures(decode_basic_html_entities, (b,), of_b),
        call_ensures(decode_basic_html_entities, (whole,), of_whole),
        whole@ == a@ + entity + b@,
        ({
            ||| entity == "&nbsp;"@ && plain == ' '
            ||| entity == "&lt;"@ && plain == '<'
            ||| entity == "&gt;"@ && plain == '>'
            ||| entity == "&quot;"@ && plain == '"'
            ||| entity == "&#39;"@ && plain == '\''
        }),
    ensures
        of_whole@ == of_a@ + seq![plain] + of_b@,
{
    lemma_decoded_parts(a@, entity, plain, b@);
}

/// An ampersand stands for itself, and so does its entity, where what follows does not make
/// another entity of it.
pub proof fn lemma_ampersand_is_read(
    a: &str,
    b: &str,
    written: &str,
    bare: &str,
    of_a: String,
    of_b: String,
    of_written: String,
    of_bare: String,
)
    requires
        call_ensures(decode_basic_html_entities, (a,), of_a),
        call_ensures(decode_basic_html_entities, (b,), of_b),
        call_ensures(decode_basic_html_entities, (written,), of_written),
        call_ensures(decode_basic_html_entities, (bare,), of_bare),
        written@ == a@ + "&amp;"@ + b@,
        bare@ == a@ + seq!['&'] + b@,
        no_entity_behind(b@, true),
    ensures
        of_written@ == of_a@ + seq!['&'] + of_b@,
        no_entity_behind(b@, false) ==> of_bare@ == of_a@ + seq!['&'] + of_b@,
{
    lemma_decoded_parts(a@, "&amp;"@, '&', b@);
    if no_entity_behind(b@, false) {
        lemma_decoded_parts(a@, seq!['&'], '&', b@);
    }
}

/// The entity of an ampersand is read before the entities of brackets and quotes: with their
/// tail behind it, it is read as they are.
pub proof fn lemma_entity_behind_an_ampersand(
    a: &str,
    tail: Seq<char>,
    b: &str,
    twice: &str,
    once: &str,
    of_twice: String,
    of_once: String,
)
    requires
        call_ensures(decode_basic_html_entities, (twice,), of_twice),
        call_ensures(decode_basic_html_entities, (once,), of_once),
        tail == "lt;"@ || tail == "gt;"@ || tail == "quot;"@ || tail == "#39;"@,
        twice@ == a@ + ("&amp;"@ + tail) + b@,
        once@ == a@ + (seq!['&'] + tail) + b@,
    ensures
        of_twice@ == of_once@,
{
    reveal_strlit("&nbsp;");
    reveal_strlit("&amp;");
    reveal_strlit(" ");
    reveal_strlit("&");
    reveal_strlit("lt;");
    reveal_strlit("gt;");
    reveal_strlit("quot;");
    reveal_strlit("#39;");
    assert("&"@ =~= seq!['&']);
    let e = "&amp;"@ + tail;
    let f = seq!['&'] + tail;
    let (a1, b1) = (replaced(a@, "&nbsp;"@, " "@), replaced(b@, "&nbsp;"@, " "@));
    let (a2, b2) = (replaced(a1, "&amp;"@, "&"@), replaced(b1, "&amp;"@, "&"@));
    assert(e[1] == 'a');
    assert(f[1] == tail[0]);
    lemma_other_entity(e, b@, "&nbsp;"@);
    lemma_other_entity(f, b@, "&nbsp;"@);
    lemma_entity_stage(a@, e, b@, "&nbsp;"@, " "@);
    lemma_entity_stage(a@, f, b@, "&nbsp;"@, " "@);
    assert(e.len() > "&nbsp;"@.len() || e != "&nbsp;"@);
    lemma_other_entity(f, b1, "&amp;"@);
    lemma_entity_stage(a1, f, b1, "&amp;"@, "&"@);
    let behind = tail + b1;
    assert(a1 + e + b1 =~= a1 + "&amp;"@ + behind);
    lemma_entity_stage(a1, "&amp;"@, behind, "&amp;"@, "&"@);
    lemma_plain_prefix(tail, b1, "&amp;"@, "&"@);
    assert(a2 + seq!['&'] + (tail + b2) =~= a2 + f + b2);
    assert(f != "&amp;"@) by {
        assert("&amp;"@[1] == 'a');
    }
    assert(e != "&nbsp;"@) by {
        assert("&nbsp;"@[1] == 'n');
    }
    assert(f != "&nbsp;"@) by {
        assert("&nbsp;"@[1] == 'n');
    }
}

/// A text without ampersands holds no entity, and stays as it is.
pub proof fn lemma_text_without_entities_stays(text: &str, result: String)
    requires
        call_ensures(decode_basic_html_entities, (text,), result),
        forall|k: int| 0 <= k < text@.len() ==> #[trigger] text@[k] != '&',
    ensures
        result@ == text@,
{
    lemma_decoded_nothing(text@);
}

proof fn lemma_decoded_nothing(s: Seq<char>)
    requires
        forall|k: int| 0 <= k < s.len() ==> #[trigger] s[k] != '&',
    ensures
        decoded(s) == s,
{
    reveal_strlit("&nbsp;");
    reveal_strlit("&amp;");
    reveal_strlit("&lt;");
    reveal_strlit("&gt;");
    reveal_strlit("&quot;");
    reveal_strlit("&#39;");
    lemma_replaced_nothing(s, "&nbsp;"@, " "@);
    lemma_replaced_nothing(s, "&amp;"@, "&"@);
    lemma_replaced_nothing(s, "&lt;"@, "<"@);
    lemma_replaced_nothing(s, "&gt;"@, ">"@);
    lemma_replaced_nothing(s, "&quot;"@, "\""@);
    lemma_replaced_nothing(s, "&#39;"@, "'"@);
}

// ---------------------------------------------------------------------------
// Tags
// ---------------------------------------------------------------------------

/// Whether every bracket that opens is followed by one that closes.
pub open spec fn tags_closed(s: Seq<char>) -> bool {
    forall|k: int|
        0 <= k < s.len() && #[trigger] s[k] == '<' ==> exists|m: int|
            k < m < s.len() && #[trigger] s[m] == '>'
}

proof fn lemma_stripped_parts(a: Seq<char>, b: Seq<char>, in_tag: bool)
    requires
        tags_closed(a),
        in_tag ==> exists|m: int| 0 <= m < a.len() && #[trigger] a[m] == '>',
    ensures
        stripped(a + b, in_tag) == stripped(a, in_tag) + stripped(b, false),
    decreases a.len(),
{
    let s = a + b;
    if a.len() == 0 {
        assert(s =~= b);
        assert(stripped(a, in_tag) + stripped(b, false) =~= stripped(b, false));
    } else {
        let rest = a.skip(1);
        assert(s.skip(1) =~= rest + b);
        assert forall|k: int| 0 <= k < rest.len() && #[trigger] rest[k] == '<' implies exists|m: int|
            k < m < rest.len() && #[trigger] rest[m] == '>' by {
            assert(a[k + 1] == '<');
            let m = choose|m: int| k + 1 < m < a.len() && #[trigger] a[m] == '>';
            assert(rest[m - 1] == '>');
        }
        let inside = a[0] == '<' || (in_tag && a[0] != '>');
        if inside {
            let m = if a[0] == '<' {
                choose|m: int| 0 < m < a.len() && #[trigger] a[m] == '>'
            } else {
                choose|m: int| 0 <= m < a.len() && #[trigger] a[m] == '>'
            };
            assert(rest[m - 1] == '>');
        }
        lemma_stripped_parts(rest, b, inside);
        if a[0] == '<' {
            assert(seq![' '] + (stripped(rest, true) + stripped(b, false)) =~= stripped(a, in_tag)
                + stripped(b, false));
        } else if a[0] != '>' && !in_tag {
            assert(seq![a[0]] + (stripped(rest, false) + stripped(b, false)) =~= stripped(a, in_tag)
                + stripped(b, false));
        }
    }
}

proof fn lemma_stripped_tag(t: Seq<char>, b: Seq<char>)
    requires
        forall|k: int| 0 <= k < t.len() ==> #[trigger] t[k] != '<' && t[k] != '>',
    ensures
        stripped(t + seq!['>'] + b, true) == stripped(b, false),
        stripped(t, true).len() == 0,
    decreases t.len(),
{
    let s = t + seq!['>'] + b;
    if t.len() == 0 {
        assert(s.skip(1) =~= b);
    } else {
        let rest = t.skip(1);
        assert forall|k: int| 0 <= k < rest.len() implies #[trigger] rest[k] != '<' && rest[k]
            != '>' by {
            assert(rest[k] == t[k + 1]);
        }
        assert(t[0] != '<' && t[0] != '>');
        assert(s.skip(1) =~= rest + seq!['>'] + b);
        lemma_stripped_tag(rest, b);
    }
}

proof fn lemma_stripped_nothing(s: Seq<char>)
    requires
        forall|k: int| 0 <= k < s.len() ==> #[trigger] s[k] != '<' && s[k] != '>',
    ensures
        stripped(s, false) == s,
    decreases s.len(),
{
    if s.len() > 0 {
        let rest = s.skip(1);
        assert forall|k: int| 0 <= k < rest.len() implies #[trigger] rest[k] != '<' && rest[k]
            != '>' by {
            assert(rest[k] == s[k + 1]);
        }
        assert(s[0] != '<' && s[0] != '>');
        lemma_stripped_nothing(rest);
        assert(seq![s[0]] + rest =~= s);
    }
}

/// The text of a page without tags is its text with the entities read and the white space
/// normalized: every character outside of tags counts. Without entities it is the words of
/// the page with single blanks between them.
pub proof fn lemma_text_of_a_page_without_tags(
    page: &str,
    read: &str,
    result: String,
    decoded_page: String,
    normal: String,
)
    requires
        call_ensures(html_to_text, (page,), result),
        forall|k: int| 0 <= k < page@.len() ==> #[trigger] page@[k] != '<' && page@[k] != '>',
        call_ensures(decode_basic_html_entities, (page,), decoded_page),
        read@ == decoded_page@,
        call_ensures(normalize_whitespace, (read,), normal),
    ensures
        result@ == normal@,
        (forall|k: int| 0 <= k < page@.len() ==> #[trigger] page@[k] != '&') ==> read@ == page@,
{
    lemma_stripped_nothing(page@);
    if forall|k: int| 0 <= k < page@.len() ==> #[trigger] page@[k] != '&' {
        lemma_decoded_nothing(page@);
    }
}

/// For a page without brackets and ampersands: a page of one word is that word, white space
/// alone, line breaks included, gives nothing, and white space between two parts becomes one
/// blank between their texts.
pub proof fn lemma_words_of_a_page(
    a: &str,
    b: &str,
    c: char,
    whole: &str,
    of_a: String,
    of_b: String,
    of_whole: String,
)
    requires
        call_ensures(html_to_text, (a,), of_a),
        call_ensures(html_to_text, (b,), of_b),
        call_ensures(html_to_text, (whole,), of_whole),
        c == ' ' || c == '\n' || c == '\t' || c == '\r',
        whole@ == a@ + seq![c] + b@,
        forall|k: int|
            0 <= k < whole@.len() ==> #[trigger] whole@[k] != '<' && whole@[k] != '>' && whole@[k]
                != '&',
    ensures
        (forall|k: int| 0 <= k < a@.len() ==> !is_space(#[trigger] a@[k])) ==> of_a@ == a@,
        of_a@.len() == 0 <==> forall|k: int| 0 <= k < a@.len() ==> is_space(#[trigger] a@[k]),
        of_a@.len() == 0 ==> of_whole@ == of_b@,
        of_b@.len() == 0 ==> of_whole@ == of_a@,
        of_a@.len() > 0 && of_b@.len() > 0 ==> of_whole@ == of_a@ + seq![' '] + of_b@,
{
    assert forall|k: int| 0 <= k < a@.len() implies #[trigger] a@[k] != '<' && a@[k] != '>' && a@[k]
        != '&' by {
        assert(whole@[k] == a@[k]);
    }
    assert forall|k: int| 0 <= k < b@.len() implies #[trigger] b@[k] != '<' && b@[k] != '>' && b@[k]
        != '&' by {
        assert(whole@[a@.len() + 1 + k] == b@[k]);
    }
    lemma_stripped_nothing(a@);
    lemma_stripped_nothing(b@);
    lemma_stripped_nothing(whole@);
    lemma_decoded_nothing(a@);
    lemma_decoded_nothing(b@);
    lemma_decoded_nothing(whole@);
    crate::text_laws::lemma_normalized_parts(a@, c, b@);
    crate::text_laws::lemma_normalized_is_empty(a@);
    crate::text_laws::lemma_normalized_is_empty(b@);
    if forall|k: int| 0 <= k < a@.len() ==> !is_space(#[trigger] a@[k]) {
        crate::text_laws::lemma_one_word(a@);
    }
}

/// A tag counts as a blank, whatever stands in it: a page reads the same with a blank in its
/// place.
pub proof fn lemma_tag_counts_as_a_blank(
    a: &str,
    tag: Seq<char>,
    b: &str,
    with_tag: &str,
    with_blank: &str,
    of_tag: String,
    of_blank: String,
)
    requires
        call_ensures(html_to_text, (with_tag,), of_tag),
        call_ensures(html_to_text, (with_blank,), of_blank),
        tags_closed(a@),
        forall|k: int| 0 <= k < tag.len() ==> #[trigger] tag[k] != '<' && tag[k] != '>',
        with_tag@ == a@ + seq!['<'] + tag + seq!['>'] + b@,
        with_blank@ == a@ + seq![' '] + b@,
    ensures
        of_tag@ == of_blank@,
{
    let tagged = seq!['<'] + tag + seq!['>'] + b@;
    let blank = seq![' '] + b@;
    assert(with_tag@ =~= a@ + tagged);
    assert(with_blank@ =~= a@ + blank);
    lemma_stripped_parts(a@, tagged, false);
    lemma_stripped_parts(a@, blank, false);
    assert(tagged.skip(1) =~= tag + seq!['>'] + b@);
    lemma_stripped_tag(tag, b@);
    assert(blank.skip(1) =~= b@);
    assert(tagged[0] == '<');
    assert(blank[0] == ' ');
}

/// A closing bracket outside of tags is left out, and what follows an opening bracket that is
/// never closed is too.
pub proof fn lemma_stray_brackets_are_left_out(
    a: &str,
    b: &str,
    tag: Seq<char>,
    with_stray: &str,
    without: &str,
    with_unclosed: &str,
    with_blank: &str,
    of_stray: String,
    of_without: String,
    of_unclosed: String,
    of_blank: String,
)
    requires
        call_ensures(html_to_text, (with_stray,), of_stray),
        call_ensures(html_to_text, (without,), of_without),
        call_ensures(html_to_text, (with_unclosed,), of_unclosed),
        call_ensures(html_to_text, (with_blank,), of_blank),
        tags_closed(a@),
        forall|k: int| 0 <= k < tag.len() ==> #[trigger] tag[k] != '<' && tag[k] != '>',
        with_stray@ == a@ + seq!['>'] + b@,
        without@ == a@ + b@,
        with_unclosed@ == a@ + seq!['<'] + tag,
        with_blank@ == a@ + seq![' '],
    ensures
        of_stray@ == of_without@,
        of_unclosed@ == of_blank@,
{
    let stray = seq!['>'] + b@;
    assert(with_stray@ =~= a@ + stray);
    lemma_stripped_parts(a@, stray, false);
    lemma_stripped_parts(a@, b@, false);
    assert(stray.skip(1) =~= b@);
    assert(stray[0] == '>');
    let unclosed = seq!['<'] + tag;
    assert(with_unclosed@ =~= a@ + unclosed);
    lemma_stripped_parts(a@, unclosed, false);
    lemma_stripped_parts(a@, seq![' '], false);
    assert(unclosed.skip(1) =~= tag);
    lemma_stripped_tag(tag, Seq::empty());
    assert(unclosed[0] == '<');
    assert(seq![' '].skip(1) =~= Seq::<char>::empty());
    assert(stripped(tag, true) =~= Seq::<char>::empty());
    assert(stripped(seq![' '].skip(1), false) =~= Seq::<char>::empty());
    assert(stripped(unclosed, false) =~= stripped(seq![' '], false));
}

// ---------------------------------------------------------------------------
// Attributes
// ---------------------------------------------------------------------------

proof fn lemma_run_is(r: Seq<char>, rest: Seq<char>, kind: RunKind)
    requires
        forall|k: int| 0 <= k < r.len() ==> in_run(kind, #[trigger] r[k]),
        rest.len() > 0 ==> !in_run(kind, rest[0]),
    ensures
        run_len(r + rest, kind) == r.len(),
        (r + rest).take(r.len() as int) == r,
        past(r + rest, r.len()) == rest,
    decreases r.len(),
{
    let s = r + rest;
    assert(s.take(r.len() as int) =~= r);
    assert(s.skip(r.len() as int) =~= rest);
    if r.len() > 0 {
        let tail = r.skip(1);
        assert forall|k: int| 0 <= k < tail.len() implies in_run(kind, #[trigger] tail[k]) by {
            assert(tail[k] == r[k + 1]);
        }
        assert(s.skip(1) =~= tail + rest);
        lemma_run_is(tail, rest, kind);
        assert(in_run(kind, r[0]));
    }
}

/// The name of an image tag takes its four characters.
proof fn lemma_img_name(attributes: Seq<char>)
    ensures
        tag_name_len("<img"@ + attributes) == 4,
        past("<img"@ + attributes, 4) == attributes,
{
    reveal_strlit("<img");
    let tag = "<img"@ + attributes;
    let rest1 = tag.skip(1);
    let rest2 = rest1.skip(1);
    let rest3 = rest2.skip(1);
    let rest4 = rest3.skip(1);
    assert(tag[0] == '<' && rest1[0] == 'i' && rest2[0] == 'm' && rest3[0] == 'g');
    assert(fitting(rest4, 0) == 0);
    assert(fitting(rest3, 1) == 1);
    assert(fitting(rest2, 2) == 2);
    assert(fitting(rest1, 3) == 3);
    assert(fitting(tag, 4) == 4);
    assert(tag.skip(4) =~= attributes);
}

/// White space inside a tag.
pub open spec fn blank_in_tag(c: char) -> bool {
    c == ' ' || c == '\t' || c == '\n' || c == '\r' || c == '\u{c}'
}

/// Whether a text can be the name of an attribute.
pub open spec fn attribute_name(name: Seq<char>) -> bool {
    name.len() > 0 && forall|k: int|
        0 <= k < name.len() ==> !blank_in_tag(#[trigger] name[k]) && name[k] != '=' && name[k] != '/'
            && name[k] != '>'
}

/// Whether a text is white space inside a tag.
pub open spec fn blanks_in_tag(s: Seq<char>) -> bool {
    forall|k: int| 0 <= k < s.len() ==> blank_in_tag(#[trigger] s[k])
}

/// Whether a text can stand between attributes.
pub open spec fn gap_in_tag(s: Seq<char>) -> bool {
    forall|k: int|
        0 <= k < s.len() ==> blank_in_tag(#[trigger] s[k]) || s[k] == '/' || s[k] == '>'
}

/// A list of attributes that begins with a name and an equals sign.
proof fn lemma_list_with_value(
    gap: Seq<char>,
    name: Seq<char>,
    before: Seq<char>,
    behind: Seq<char>,
)
    requires
        gap_in_tag(gap),
        attribute_name(name),
        blanks_in_tag(before),
    ensures
        ({
            let s = gap + name + before + seq!['='] + behind;
            src_value(s) == if lowered(name) == "src"@ {
                Some(attribute_value(behind).0)
            } else {
                src_value(attribute_value(behind).1)
            }
        }),
{
    let s = gap + name + before + seq!['='] + behind;
    let at_sign = seq!['='] + behind;
    let behind_name = before + at_sign;
    let at_name = name + behind_name;
    assert(s =~= gap + at_name);
    assert(at_name[0] == name[0]);
    lemma_run_is(gap, at_name, RunKind::Gap);
    assert(behind_name[0] == if before.len() > 0 {
        before[0]
    } else {
        '='
    });
    lemma_run_is(name, behind_name, RunKind::Name);
    lemma_run_is(before, at_sign, RunKind::Space);
    assert(at_sign.skip(1) =~= behind);
}

/// The source of an image is the value of the first attribute that is named so, whatever the
/// case of the name, between quotes of one kind, without the white space at its ends and with
/// its entities read. An attribute of another name is passed over.
pub proof fn lemma_source_between_quotes(
    tag: &str,
    gap: Seq<char>,
    name: Seq<char>,
    before: Seq<char>,
    after: Seq<char>,
    quote: char,
    value: Seq<char>,
    rest: Seq<char>,
    shorter: &str,
    plain: &str,
    of_value: String,
    of_shorter: Option<String>,
    result: Option<String>,
)
    requires
        call_ensures(extract_src_attr, (tag,), result),
        call_ensures(extract_src_attr, (shorter,), of_shorter),
        gap_in_tag(gap),
        attribute_name(name),
        blanks_in_tag(before),
        blanks_in_tag(after),
        quote == '"' || quote == '\'',
        forall|k: int| 0 <= k < value.len() ==> #[trigger] value[k] != quote,
        tag@ == "<img"@ + (gap + name + before + seq!['='] + (after + seq![quote] + value
            + seq![quote] + rest)),
        shorter@ == "<img"@ + rest,
        plain@ == trimmed(value),
        call_ensures(decode_basic_html_entities, (plain,), of_value),
    ensures
        lowered(name) == "src"@ ==> result is Some && result->Some_0@ == of_value@,
        lowered(name) != "src"@ ==> {
            &&& result is Some <==> of_shorter is Some
            &&& result is Some ==> result->Some_0@ == of_shorter->Some_0@
        },
{
    let behind = after + seq![quote] + value + seq![quote] + rest;
    lemma_img_name(gap + name + before + seq!['='] + behind);
    lemma_img_name(rest);
    lemma_list_with_value(gap, name, before, behind);
    let closing = seq![quote] + rest;
    let inside = value + closing;
    let at_value = seq![quote] + inside;
    assert(behind =~= after + at_value);
    lemma_run_is(after, at_value, RunKind::Space);
    assert(at_value.skip(1) =~= inside);
    assert(closing[0] == quote);
    lemma_run_is(value, closing, RunKind::Quoted(quote));
    assert(closing.skip(1) =~= rest);
    assert(at_value[0] == quote);
}

/// A value without quotes ends at white space, at a closing bracket or with the tag.
pub proof fn lemma_source_without_quotes(
    tag: &str,
    gap: Seq<char>,
    name: Seq<char>,
    before: Seq<char>,
    after: Seq<char>,
    value: Seq<char>,
    rest: Seq<char>,
    shorter: &str,
    plain: &str,
    of_value: String,
    of_shorter: Option<String>,
    result: Option<String>,
)
    requires
        call_ensures(extract_src_attr, (tag,), result),
        call_ensures(extract_src_attr, (shorter,), of_shorter),
        gap_in_tag(gap),
        attribute_name(name),
        blanks_in_tag(before),
        blanks_in_tag(after),
        value.len() > 0 ==> value[0] != '"' && value[0] != '\'',
        forall|k: int| 0 <= k < value.len() ==> !blank_in_tag(#[trigger] value[k]) && value[k] != '>',
        rest.len() > 0 ==> (value.len() > 0 && blank_in_tag(rest[0])) || rest[0] == '>',
        tag@ == "<img"@ + (gap + name + before + seq!['='] + (after + value + rest)),
        shorter@ == "<img"@ + rest,
        plain@ == trimmed(value),
        call_ensures(decode_basic_html_entities, (plain,), of_value),
    ensures
        lowered(name) == "src"@ ==> result is Some && result->Some_0@ == of_value@,
        lowered(name) != "src"@ ==> {
            &&& result is Some <==> of_shorter is Some
            &&& result is Some ==> result->Some_0@ == of_shorter->Some_0@
        },
{
    let behind = after + value + rest;
    lemma_img_name(gap + name + before + seq!['='] + behind);
    lemma_img_name(rest);
    lemma_list_with_value(gap, name, before, behind);
    let at_value = value + rest;
    assert(behind =~= after + at_value);
    if value.len() > 0 {
        assert(at_value[0] == value[0]);
    } else if rest.len() > 0 {
        assert(at_value[0] == rest[0]);
    }
    lemma_run_is(after, at_value, RunKind::Space);
    lemma_run_is(value, rest, RunKind::Unquoted);
}

/// A value whose quote is never closed goes to the end of the tag.
pub proof fn lemma_source_with_open_quote(
    tag: &str,
    gap: Seq<char>,
    name: Seq<char>,
    before: Seq<char>,
    after: Seq<char>,
    quote: char,
    value: Seq<char>,
    plain: &str,
    of_value: String,
    result: Option<String>,
)
    requires
        call_ensures(extract_src_attr, (tag,), result),
        gap_in_tag(gap),
        attribute_name(name),
        blanks_in_tag(before),
        blanks_in_tag(after),
        quote == '"' || quote == '\'',
        forall|k: int| 0 <= k < value.len() ==> #[trigger] value[k] != quote,
        tag@ == "<img"@ + (gap + name + before + seq!['='] + (after + seq![quote] + value)),
        plain@ == trimmed(value),
        call_ensures(decode_basic_html_entities, (plain,), of_value),
    ensures
        lowered(name) == "src"@ ==> result is Some && result->Some_0@ == of_value@,
        lowered(name) != "src"@ ==> result is None,
{
    let behind = after + seq![quote] + value;
    lemma_img_name(gap + name + before + seq!['='] + behind);
    lemma_list_with_value(gap, name, before, behind);
    let none = Seq::<char>::empty();
    let at_value = seq![quote] + value;
    assert(behind =~= after + at_value);
    lemma_run_is(after, at_value, RunKind::Space);
    assert(at_value.skip(1) =~= value);
    assert(value + none =~= value);
    lemma_run_is(value, none, RunKind::Quoted(quote));
    assert(at_value[0] == quote);
    lemma_run_len(none, RunKind::Gap);
}

/// An attribute without a value is passed over, and a tag without attributes has no source.
pub proof fn lemma_source_behind_bare_attribute(
    tag: &str,
    gap: Seq<char>,
    name: Seq<char>,
    before: Seq<char>,
    rest: Seq<char>,
    shorter: &str,
    empty: &str,
    of_shorter: Option<String>,
    of_empty: Option<String>,
    result: Option<String>,
)
    requires
        call_ensures(extract_src_attr, (tag,), result),
        call_ensures(extract_src_attr, (shorter,), of_shorter),
        call_ensures(extract_src_attr, (empty,), of_empty),
        gap_in_tag(gap),
        attribute_name(name),
        blanks_in_tag(before),
        rest.len() > 0 ==> rest[0] != '=' && !blank_in_tag(rest[0]) && (before.len() > 0 || rest[0]
            == '/' || rest[0] == '>'),
        tag@ == "<img"@ + (gap + name + before + rest),
        shorter@ == "<img"@ + rest,
        empty@ == "<img"@ + gap,
    ensures
        of_empty is None,
        result is Some <==> of_shorter is Some,
        result is Some ==> result->Some_0@ == of_shorter->Some_0@,
{
    let s = gap + name + before + rest;
    lemma_img_name(s);
    lemma_img_name(rest);
    lemma_img_name(gap);
    let behind_name = before + rest;
    let at_name = name + behind_name;
    assert(s =~= gap + at_name);
    assert(at_name[0] == name[0]);
    lemma_run_is(gap, at_name, RunKind::Gap);
    if behind_name.len() > 0 {
        assert(behind_name[0] == if before.len() > 0 {
            before[0]
        } else {
            rest[0]
        });
    }
    lemma_run_is(name, behind_name, RunKind::Name);
    lemma_run_is(before, rest, RunKind::Space);
    assert(gap + Seq::<char>::empty() =~= gap);
    lemma_run_is(gap, Seq::empty(), RunKind::Gap);
    lemma_run_len(Seq::<char>::empty(), RunKind::Name);
}

// ---------------------------------------------------------------------------
// Images
// ---------------------------------------------------------------------------

/// Whether the name of an image tag stands at `at`, whatever its case.
pub open spec fn img_at(page: Seq<char>, at: int) -> bool {
    &&& 0 <= at && at + 4 <= page.len()
    &&& page[at] == '<'
    &&& page[at + 1] == 'i' || page[at + 1] == 'I'
    &&& page[at + 2] == 'm' || page[at + 2] == 'M'
    &&& page[at + 3] == 'g' || page[at + 3] == 'G'
}

proof fn lemma_img_opens(s: Seq<char>)
    ensures
        opens_image(s) <==> img_at(s, 0),
{
    reveal_strlit("<img");
    let low = lowered(s);
    if s.len() >= 4 {
        let name = low.subrange(0, 4);
        assert(name[0] == lower_char(s[0]) && name[1] == lower_char(s[1]) && name[2] == lower_char(
            s[2],
        ) && name[3] == lower_char(s[3]));
        if img_at(s, 0) {
            assert(lower_char('I') == 'i' && lower_char('M') == 'm' && lower_char('G') == 'g');
            assert(name =~= "<img"@);
        }
        if name == "<img"@ {
            lemma_lower_is('<', s[0]);
            lemma_lower_is('i', s[1]);
            lemma_lower_is('m', s[2]);
            lemma_lower_is('g', s[3]);
        }
    }
}

/// What has a given lower-case form: the character itself, or the capital of a letter.
proof fn lemma_lower_is(low: char, c: char)
    requires
        lower_char(c) == low,
        low == '<' || low == 'i' || low == 'm' || low == 'g',
    ensures
        c == low || (low == 'i' && c == 'I') || (low == 'm' && c == 'M') || (low == 'g' && c
            == 'G'),
{
    if 'A' <= c <= 'Z' {
        assert((c as u32) + 32 == low as u32);
    }
}

proof fn lemma_first_img(s: Seq<char>, at: int)
    requires
        0 <= at <= s.len(),
        at < s.len() ==> img_at(s, at),
        forall|k: int| 0 <= k < at ==> !#[trigger] img_at(s, k),
    ensures
        image_at(s) == at,
    decreases at,
{
    lemma_img_opens(s);
    if at > 0 {
        assert(!img_at(s, 0));
        let rest = s.skip(1);
        assert forall|k: int| 0 <= k < at - 1 implies !#[trigger] img_at(rest, k) by {
            assert(!img_at(s, k + 1));
        }
        if at < s.len() {
            assert(img_at(rest, at - 1));
        }
        lemma_first_img(rest, at - 1);
    }
}

/// What was found stays in front of what is found later.
proof fn lemma_found_stays(s: Seq<char>, base: Seq<char>, found: Seq<Seq<char>>)
    ensures
        page_images(s, base, found).len() >= found.len(),
        page_images(s, base, found).take(found.len() as int) == found,
    decreases s.len(),
{
    let at = image_at(s) as int;
    lemma_image_at(s);
    let all = page_images(s, base, found);
    if at < s.len() {
        let tag_on = s.skip(at);
        let end = index_of_char(tag_on, '>') as int;
        lemma_index_of_char(tag_on, '>');
        if !name_ends(s, at + 4) {
            lemma_found_stays(s.skip(at + 4), base, found);
        } else {
            let more = with_tag(found, tag_on.take(end), base);
            assert(more.take(found.len() as int) =~= found);
            if !(more.len() > found.len() && more.len() >= 20) && end < tag_on.len() {
                lemma_found_stays(s.skip(at + end + 1), base, more);
                assert(all.take(found.len() as int) =~= all.take(more.len() as int).take(
                    found.len() as int,
                ));
            } else {
                assert(all == more);
            }
        }
    } else {
        assert(all.take(found.len() as int) =~= found);
    }
}

proof fn lemma_filter_contains(f: Seq<Seq<char>>, u: Seq<char>, pred: spec_fn(Seq<char>) -> bool)
    requires
        pred(u),
    ensures
        f.filter(pred).contains(u) <==> f.contains(u),
    decreases f.len(),
{
    reveal(Seq::filter);
    if f.len() > 0 {
        let front = f.drop_last();
        lemma_filter_contains(front, u, pred);
        let kept = f.filter(pred);
        if f.contains(u) {
            let k = choose|k: int| 0 <= k < f.len() && f[k] == u;
            if k < front.len() {
                assert(front[k] == u);
                let m = choose|m: int| 0 <= m < front.filter(pred).len() && front.filter(pred)[m] == u;
                assert(kept[m] == u);
            } else {
                assert(kept[kept.len() - 1] == u);
            }
        }
        if kept.contains(u) {
            let m = choose|m: int| 0 <= m < kept.len() && kept[m] == u;
            if m < front.filter(pred).len() {
                assert(front.filter(pred)[m] == u);
                let k = choose|k: int| 0 <= k < front.len() && front[k] == u;
                assert(f[k] == u);
            } else {
                assert(f[f.len() - 1] == u);
            }
        }
    }
}

/// Leaving one text out of a list without repetitions takes one at most away.
proof fn lemma_filter_takes_one(f: Seq<Seq<char>>, x: Seq<char>, other: spec_fn(Seq<char>) -> bool)
    requires
        forall|u: Seq<char>| #[trigger] other(u) == (u != x),
        f.no_duplicates(),
    ensures
        f.filter(other).len() == if f.contains(x) {
            f.len() - 1
        } else {
            f.len() as int
        },
    decreases f.len(),
{
    reveal(Seq::filter);
    if f.len() > 0 {
        let front = f.drop_last();
        lemma_filter_takes_one(front, x, other);
        assert(other(f.last()) == (f.last() != x));
        if front.contains(x) {
            let k = choose|k: int| 0 <= k < front.len() && front[k] == x;
            assert(f[k] == x);
            assert(f[f.len() - 1] != x);
        }
        if f.contains(x) && !front.contains(x) {
            let k = choose|k: int| 0 <= k < f.len() && f[k] == x;
            if k < front.len() {
                assert(front[k] == x);
            }
        }
        if f.last() == x {
            assert(f[f.len() - 1] == x);
        }
    }
}

/// A longer list is filtered to a longer one that begins the same.
proof fn lemma_filter_prefix(all: Seq<Seq<char>>, n: int, pred: spec_fn(Seq<char>) -> bool)
    requires
        0 <= n <= all.len(),
    ensures
        all.take(n).filter(pred).len() <= all.filter(pred).len(),
        all.filter(pred).take(all.take(n).filter(pred).len() as int) == all.take(n).filter(pred),
{
    assert(all =~= all.take(n) + all.skip(n));
    Seq::filter_distributes_over_add(all.take(n), all.skip(n), pred);
    let front = all.take(n).filter(pred);
    assert((front + all.skip(n).filter(pred)).take(front.len() as int) =~= front);
}

/// An image more in front of what was found only drops its later repetitions, and moves what
/// the limit allows.
proof fn lemma_with_image_in_front(
    s: Seq<char>,
    base: Seq<char>,
    found: Seq<Seq<char>>,
    x: Seq<char>,
    other: spec_fn(Seq<char>) -> bool,
)
    requires
        forall|u: Seq<char>| #[trigger] other(u) == (u != x),
        found.no_duplicates(),
        found.len() < 20,
        found.filter(other).len() < 19,
    ensures
        ({
            let all = seq![x] + page_images(s, base, found).filter(other);
            page_images(s, base, seq![x] + found.filter(other)) == all.take(
                if all.len() < 20 {
                    all.len() as int
                } else {
                    20
                },
            )
        }),
    decreases s.len(),
{
    let at = image_at(s) as int;
    lemma_image_at(s);
    let found2 = seq![x] + found.filter(other);
    if at < s.len() {
        let tag_on = s.skip(at);
        let end = index_of_char(tag_on, '>') as int;
        lemma_index_of_char(tag_on, '>');
        if !name_ends(s, at + 4) {
            lemma_with_image_in_front(s.skip(at + 4), base, found, x, other);
        } else {
            let tag = tag_on.take(end);
            let more = with_tag(found, tag, base);
            let more2 = with_tag(found2, tag, base);
            lemma_front_step(found, tag, base, x, other);
            assert(more.no_duplicates());
            lemma_filter_takes_one(found, x, other);
            lemma_filter_takes_one(more, x, other);
            let rest = s.skip(at + end + 1);
            let whole = page_images(s, base, found);
            let all = seq![x] + whole.filter(other);
            assert(more2 == seq![x] + more.filter(other));
            lemma_found_stays(rest, base, more);
            if more.len() > found.len() && more.len() >= 20 {
                assert(whole == more);
                assert(all.len() <= 20);
                assert(all.take(all.len() as int) =~= all);
            } else if end < tag_on.len() {
                assert(whole == page_images(rest, base, more));
                if more2.len() > found2.len() && more2.len() >= 20 {
                    lemma_filter_prefix(whole, more.len() as int, other);
                    assert(all.take(20) =~= more2);
                } else {
                    lemma_with_image_in_front(rest, base, more, x, other);
                }
            } else {
                assert(whole == more);
                assert(all.take(all.len() as int) =~= all);
            }
        }
    } else {
        let all = seq![x] + found.filter(other);
        assert(all.take(all.len() as int) =~= all);
    }
}

proof fn lemma_front_step(
    found: Seq<Seq<char>>,
    tag: Seq<char>,
    base: Seq<char>,
    x: Seq<char>,
    other: spec_fn(Seq<char>) -> bool,
)
    requires
        forall|u: Seq<char>| #[trigger] other(u) == (u != x),
    ensures
        with_tag(seq![x] + found.filter(other), tag, base) == seq![x] + with_tag(
            found,
            tag,
            base,
        ).filter(other),
{
    reveal(Seq::filter);
    let found2 = seq![x] + found.filter(other);
    let more = with_tag(found, tag, base);
    let more2 = with_tag(found2, tag, base);
    if let Some(source) = image_source(tag) {
        if let Some((text, scheme, path)) = url_joined(base, trimmed(source)) {
            if crate::web_url::web_scheme(scheme) {
                let pushed = found.push(text);
                assert(pushed.drop_last() =~= found);
                assert(found2[0] == x);
                if text == x {
                    assert(found2.contains(x));
                    assert(!other(text));
                } else {
                    assert(other(text));
                    lemma_filter_contains(found, text, other);
                    if found.contains(text) {
                        let m = choose|m: int|
                            0 <= m < found.filter(other).len() && found.filter(other)[m] == text;
                        assert(found2[m + 1] == text);
                    }
                    if found2.contains(text) {
                        let m = choose|m: int| 0 <= m < found2.len() && found2[m] == text;
                        assert(found.filter(other)[m - 1] == text);
                    }
                    assert(seq![x] + found.filter(other).push(text) =~= found2.push(text));
                }
            }
        }
    }
}

/// A page without image tags has no images.
pub proof fn lemma_page_without_image_tags(page: &str, base: &str, result: Vec<String>)
    requires
        call_ensures(extract_image_urls, (page, base), result),
        forall|k: int| 0 <= k < page@.len() ==> !#[trigger] img_at(page@, k),
    ensures
        result@.len() == 0,
{
    lemma_first_img(page@, page@.len() as int);
    assert(texts(result@).len() == result@.len());
}

/// The images of a page whose first image tag is closed: that of the tag, where its source is
/// an address that is fetched, and then those of the rest of the page, without another mention
/// of it; twenty at most in all.
pub proof fn lemma_first_image_comes_first(
    page: &str,
    base: &str,
    a: Seq<char>,
    tag: &str,
    b: &str,
    of_tag: Option<String>,
    of_rest: Vec<String>,
    result: Vec<String>,
)
    requires
        call_ensures(extract_image_urls, (page, base), result),
        call_ensures(extract_image_urls, (b, base), of_rest),
        call_ensures(extract_src_attr, (tag,), of_tag),
        page@ == a + tag@ + seq!['>'] + b@,
        img_at(page@, a.len() as int),
        forall|k: int| 0 <= k < a.len() ==> !#[trigger] img_at(page@, k),
        forall|k: int| 0 <= k < tag@.len() ==> #[trigger] tag@[k] != '>',
        tag@.len() == 4 || (tag@.len() > 4 && (blank_in_tag(tag@[4]) || tag@[4] == '/')),
    ensures
        ({
            let address = if of_tag is Some {
                url_joined(base@, trimmed(of_tag->Some_0@))
            } else {
                None
            };
            if address is Some && (address->Some_0.1 == "http"@ || address->Some_0.1 == "https"@) {
                let first = address->Some_0.0;
                let all = seq![first] + texts(of_rest@).filter(|url: Seq<char>| url != first);
                texts(result@) == all.take(
                    if all.len() < 20 {
                        all.len() as int
                    } else {
                        20
                    },
                )
            } else {
                texts(result@) == texts(of_rest@)
            }
        }),
{
    let s = page@;
    let at = a.len() as int;
    lemma_first_img(s, at);
    let tag_on = s.skip(at);
    let n = tag@.len() as int;
    assert(tag_on =~= tag@ + seq!['>'] + b@);
    lemma_index_of_char(tag_on, '>');
    let end = index_of_char(tag_on, '>') as int;
    assert(tag_on[n] == '>');
    if end < n {
        assert(tag_on[end] == tag@[end]);
    }
    assert(tag_on.take(n) =~= tag@);
    assert(s.skip(at + n + 1) =~= b@);
    assert(s[at + 4] == tag_on[4]);
    if n > 4 {
        assert(tag_on[4] == tag@[4]);
    }
    assert(name_ends(s, at + 4));
    assert(texts(of_rest@).len() == of_rest@.len());
    let none = Seq::<Seq<char>>::empty();
    let more = with_tag(none, tag@, base@);
    if let Some(source) = image_source(tag@) {
        if let Some((first, scheme, path)) = url_joined(base@, trimmed(source)) {
            if crate::web_url::web_scheme(scheme) {
                let other = |url: Seq<char>| url != first;
                lemma_with_image_in_front(b@, base@, none, first, other);
                reveal(Seq::filter);
                assert(none.filter(other) =~= none);
                assert(seq![first] + none =~= seq![first]);
                assert(none.push(first) =~= seq![first]);
                assert(more == seq![first]);
            }
        }
    }
}

/// A longer name than that of an image tag is passed over, and an image tag that is never
/// closed ends a page.
pub proof fn lemma_other_tags_and_open_tags(
    page: &str,
    base: &str,
    a: Seq<char>,
    rest: &str,
    of_rest: Vec<String>,
    of_tag: Option<String>,
    tag: &str,
    result: Vec<String>,
)
    requires
        call_ensures(extract_image_urls, (page, base), result),
        call_ensures(extract_image_urls, (rest, base), of_rest),
        call_ensures(extract_src_attr, (tag,), of_tag),
        img_at(page@, a.len() as int),
        forall|k: int| 0 <= k < a.len() ==> !#[trigger] img_at(page@, k),
        page@ == a + tag@,
        rest@ == page@.skip(a.len() as int + 4),
    ensures
        rest@.len() > 0 && !blank_in_tag(rest@[0]) && rest@[0] != '/' && rest@[0] != '>' ==> texts(
            result@,
        ) == texts(of_rest@),
        (forall|k: int| 0 <= k < tag@.len() ==> #[trigger] tag@[k] != '>') && (rest@.len() == 0
            || blank_in_tag(rest@[0]) || rest@[0] == '/') ==> {
            let address = if of_tag is Some {
                url_joined(base@, trimmed(of_tag->Some_0@))
            } else {
                None
            };
            if address is Some && (address->Some_0.1 == "http"@ || address->Some_0.1 == "https"@) {
                texts(result@) == seq![address->Some_0.0]
            } else {
                result@.len() == 0
            }
        },
{
    let s = page@;
    let at = a.len() as int;
    lemma_first_img(s, at);
    let tag_on = s.skip(at);
    assert(tag_on =~= tag@);
    lemma_index_of_char(tag_on, '>');
    let end = index_of_char(tag_on, '>') as int;
    if rest@.len() > 0 {
        assert(s[at + 4] == rest@[0]);
    }
    assert(texts(result@).len() == result@.len());
    if forall|k: int| 0 <= k < tag@.len() ==> #[trigger] tag@[k] != '>' {
        if end < tag_on.len() {
            assert(tag@[end] == '>');
        }
        assert(tag_on.take(end) =~= tag@);
        let none = Seq::<Seq<char>>::empty();
        if let Some(source) = image_source(tag@) {
            if let Some((first, scheme, path)) = url_joined(base@, trimmed(source)) {
                assert(none.push(first) =~= seq![first]);
            }
        }
    }
}

/// An address is kept where it is one that is fetched and was not kept before.
pub proof fn lemma_address_is_kept_once(urls: &mut Vec<String>, joined: Option<ParsedUrl>)
    requires
        call_ensures(keep_image_url, (urls, joined), ()),
    ensures
        if joined is Some && (joined->Some_0.scheme@ == "http"@ || joined->Some_0.scheme@
            == "https"@) && !(exists|k: int|
            0 <= k < old(urls)@.len() && (#[trigger] old(urls)@[k])@ == joined->Some_0.text@) {
            texts(final(urls)@) == texts(old(urls)@).push(joined->Some_0.text@)
        } else {
            texts(final(urls)@) == texts(old(urls)@)
        },
{
    if let Some(url) = joined {
        let before = old(urls)@;
        if texts(before).contains(url.text@) {
            let k = choose|k: int| 0 <= k < texts(before).len() && texts(before)[k] == url.text@;
            assert(before[k]@ == url.text@);
        }
        if exists|k: int| 0 <= k < before.len() && (#[trigger] before[k])@ == url.text@ {
            let k = choose|k: int| 0 <= k < before.len() && (#[trigger] before[k])@ == url.text@;
            assert(texts(before)[k] == url.text@);
        }
    }
}

/// The images are listed behind the body, each on a line of its own, under a heading that is
/// set off from a body that is not empty; without images the body stays as it is.
pub proof fn lemma_images_are_listed_behind_the_body(
    body: String,
    images: Vec<String>,
    more: Vec<String>,
    image: String,
    shorter: String,
    longer: String,
)
    requires
        call_ensures(append_image_urls, (body, images), shorter),
        call_ensures(append_image_urls, (body, more), longer),
        more@ == images@.push(image),
    ensures
        images@.len() == 0 ==> shorter@ == body@,
        images@.len() == 0 && body@.len() > 0 ==> longer@ == body@ + "\n\nImages on page:\n- "@
            + image@,
        images@.len() == 0 && body@.len() == 0 ==> longer@ == "Images on page:\n- "@ + image@,
        images@.len() > 0 ==> longer@ == shorter@ + "\n- "@ + image@,
{
    assert(texts(more@) =~= texts(images@).push(image@));
    assert(texts(more@).drop_last() =~= texts(images@));
    let head = body@ + (if body@.len() > 0 {
        "\n\n"@
    } else {
        Seq::empty()
    }) + "Images on page:"@;
    let lines = crate::html::image_lines(texts(images@));
    assert(longer@ == head + (lines + "\n- "@ + image@));
    if images@.len() == 0 {
        reveal_strlit("\n\n");
        reveal_strlit("Images on page:");
        reveal_strlit("\n- ");
        reveal_strlit("\n\nImages on page:\n- ");
        reveal_strlit("Images on page:\n- ");
        assert(lines =~= Seq::<char>::empty());
        assert("\n\nImages on page:\n- "@ =~= "\n\n"@ + "Images on page:"@ + "\n- "@);
        assert("Images on page:\n- "@ =~= "Images on page:"@ + "\n- "@);
        if body@.len() > 0 {
            assert(longer@ =~= body@ + "\n\nImages on page:\n- "@ + image@);
        } else {
            assert(longer@ =~= "Images on page:\n- "@ + image@);
        }
    } else {
        assert(longer@ =~= shorter@ + "\n- "@ + image@);
    }
}

/// A page lists at most twenty images, and none twice.
pub proof fn lemma_at_most_twenty_images(
    page: &str,
    base: &str,
    result: Vec<String>,
    i: int,
    j: int,
)
    requires
        call_ensures(extract_image_urls, (page, base), result),
    ensures
        result@.len() <= 20,
        0 <= i < j < result@.len() ==> result@[i]@ != result@[j]@,
{
    crate::html::lemma_images_are_few_and_distinct(page@, base@);
    assert(texts(result@).len() == result@.len());
    if 0 <= i < j < result@.len() {
        assert(texts(result@)[i] == result@[i]@ && texts(result@)[j] == result@[j]@);
    }
}

} // verus!
