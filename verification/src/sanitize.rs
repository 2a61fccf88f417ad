//! Defusing mentions and invite links in text shown in embeds.
use vstd::prelude::*;
use crate::text::{chars_of, has_prefix, replace_all, replace_lit, string_from_chars};

verus! {

/// Every `@` followed by a zero-width space, and every `discord.gg/` too.
pub open spec fn embed_safe_text(value: Seq<char>) -> Seq<char> {
    replace_all(replace_all(value, "@"@, "@\u{200B}"@), "discord.gg/"@, "discord.gg/\u{200B}"@)
}

pub fn sanitize_embed_mentions(value: &str) -> (r: String)
    ensures
        r@ == embed_safe_text(value@),
{
    proof {
        reveal_strlit("@");
        reveal_strlit("discord.gg/");
    }
    let cs = chars_of(value);
    let a = replace_lit(cs.as_slice(), "@", "@\u{200B}");
    let b = replace_lit(a.as_slice(), "discord.gg/", "discord.gg/\u{200B}");
    string_from_chars(b.as_slice())
}

/// Every `@` in `s` is directly followed by a zero-width space.
pub open spec fn mentions_defused(s: Seq<char>) -> bool {
    forall|i: int|
        0 <= i < s.len() && #[trigger] s[i] == '@' ==> i + 1 < s.len() && s[i + 1] == '\u{200B}'
}

proof fn lemma_defused_concat(a: Seq<char>, b: Seq<char>)
    requires
        mentions_defused(a),
        mentions_defused(b),
        a.len() > 0 ==> a.last() != '@',
    ensures
        mentions_defused(a + b),
{
    let s = a + b;
    assert forall|i: int| 0 <= i < s.len() && #[trigger] s[i] == '@' implies i + 1 < s.len() && s[i
        + 1] == '\u{200B}' by {
        if i < a.len() {
            assert(s[i] == a[i]);
            if i == a.len() - 1 {
                assert(a.last() == a[i]);
            }
            assert(a[i + 1] == '\u{200B}');
            assert(s[i + 1] == a[i + 1]);
        } else {
            assert(s[i] == b[i - a.len()]);
            assert(s[i + 1] == b[i + 1 - a.len()]);
        }
    }
}

proof fn lemma_at_replacement_defuses(v: Seq<char>)
    ensures
        mentions_defused(replace_all(v, "@"@, "@\u{200B}"@)),
    decreases v.len(),
{
    reveal_strlit("@");
    reveal_strlit("@\u{200B}");
    let pat = "@"@;
    let rep = "@\u{200B}"@;
    if has_prefix(v, pat) {
        let rest = v.skip(1);
        lemma_at_replacement_defuses(rest);
        assert(mentions_defused(rep)) by {
            assert(rep[0] == '@' && rep[1] == '\u{200B}');
        }
        lemma_defused_concat(rep, replace_all(rest, pat, rep));
    } else if v.len() > 0 {
        assert(v.take(1) =~= seq![v[0]]);
        assert(pat =~= seq!['@']);
        assert(v[0] != '@');
        let rest = v.drop_first();
        lemma_at_replacement_defuses(rest);
        lemma_defused_concat(seq![v[0]], replace_all(rest, pat, rep));
    }
}

/// Replacing a text with no `@` and no zero-width space keeps the mentions defused.
proof fn lemma_link_replacement_keeps(s: Seq<char>, pat: Seq<char>, rep: Seq<char>)
    requires
        mentions_defused(s),
        pat.len() > 0,
        pat[0] != '\u{200B}',
        forall|j: int| 0 <= j < pat.len() ==> pat[j] != '@',
        forall|j: int| 0 <= j < rep.len() ==> rep[j] != '@',
    ensures
        mentions_defused(replace_all(s, pat, rep)),
        s.len() > 0 && !has_prefix(s, pat) ==> replace_all(s, pat, rep).len() > 0 && replace_all(
            s,
            pat,
            rep,
        )[0] == s[0],
    decreases s.len(),
{
    if has_prefix(s, pat) {
        let rest = s.skip(pat.len() as int);
        assert(mentions_defused(rest)) by {
            assert forall|i: int| 0 <= i < rest.len() && #[trigger] rest[i] == '@' implies i + 1
                < rest.len() && rest[i + 1] == '\u{200B}' by {
                assert(rest[i] == s[i + pat.len()]);
                assert(s[i + pat.len() + 1] == '\u{200B}');
                assert(rest[i + 1] == s[i + pat.len() + 1]);
            }
        }
        lemma_link_replacement_keeps(rest, pat, rep);
        assert(mentions_defused(rep));
        if rep.len() > 0 {
            assert(rep.last() == rep[rep.len() - 1]);
        }
        lemma_defused_concat(rep, replace_all(rest, pat, rep));
    } else if s.len() > 0 {
        let rest = s.drop_first();
        assert(mentions_defused(rest)) by {
            assert forall|i: int| 0 <= i < rest.len() && #[trigger] rest[i] == '@' implies i + 1
                < rest.len() && rest[i + 1] == '\u{200B}' by {
                assert(rest[i] == s[i + 1]);
                assert(s[i + 2] == '\u{200B}');
                assert(rest[i + 1] == s[i + 2]);
            }
        }
        lemma_link_replacement_keeps(rest, pat, rep);
        let tail = replace_all(rest, pat, rep);
        if s[0] == '@' {
            assert(s[1] == '\u{200B}');
            assert(rest[0] == s[1]);
            assert(!has_prefix(rest, pat)) by {
                if has_prefix(rest, pat) {
                    assert(rest.take(pat.len() as int)[0] == rest[0]);
                }
            }
            assert(tail[0] == '\u{200B}');
            let out = seq![s[0]] + tail;
            assert forall|i: int| 0 <= i < out.len() && #[trigger] out[i] == '@' implies i + 1
                < out.len() && out[i + 1] == '\u{200B}' by {
                if i == 0 {
                    assert(out[1] == tail[0]);
                } else {
                    assert(out[i] == tail[i - 1]);
                    assert(out[i + 1] == tail[i]);
                }
            }
            assert(replace_all(s, pat, rep) == out);
        } else {
            lemma_defused_concat(seq![s[0]], tail);
        }
    }
}

/// Text made safe for an embed holds no live mention: every `@` is followed by a
/// zero-width space.
pub proof fn lemma_embed_text_defuses_mentions(value: Seq<char>)
    ensures
        mentions_defused(embed_safe_text(value)),
{
    reveal_strlit("discord.gg/");
    reveal_strlit("discord.gg/\u{200B}");
    lemma_at_replacement_defuses(value);
    let pat = "discord.gg/"@;
    let rep = "discord.gg/\u{200B}"@;
    assert(pat[0] == 'd');
    lemma_link_replacement_keeps(replace_all(value, "@"@, "@\u{200B}"@), pat, rep);
}

} // verus!
