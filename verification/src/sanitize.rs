use vstd::prelude::*;

verus! {

// ---------------------------------------------------------------------------
// Inbound normalization: hypertext -> Markdown (outside call)
// ---------------------------------------------------------------------------

/// The Markdown text that the hypertext-to-Markdown conversion produces for
/// the given hypertext. The result depends on the input text alone.
pub uninterp spec fn markdown_of(html: Seq<char>) -> Seq<char>;

/// Relies on `html2md::parse_html`: parses the incoming hypertext and converts
/// it into Markdown, a function of the input text alone. Markup is dropped or
/// converted rather than escaped; the contract claims only that the result is
/// determined by the input.
#[verifier::external_body]
fn html_to_markdown(html: &str) -> (r: String)
    ensures
        r@ == markdown_of(html@),
{
    html2md::parse_html(html)
}

/// Best-effort reverse of `render`, applied on the inbound path only when the
/// wire object carries no compatible source block; lossy by design.
pub fn normalize(html: &str) -> (r: String)
    ensures
        r@ == markdown_of(html@),
{
    html_to_markdown(html)
}

// ---------------------------------------------------------------------------
// Outbound rendering: Markdown -> hypertext
// ---------------------------------------------------------------------------

/// How one plain character is emitted in hypertext: markup-significant
/// characters are escaped, everything else passes through.
pub open spec fn escape_char(c: char) -> Seq<char> {
    if c == '<' {
        "&lt;"@
    } else if c == '>' {
        "&gt;"@
    } else if c == '&' {
        "&amp;"@
    } else {
        seq![c]
    }
}

/// The rendered form of the Markdown suffix `md`, with `strong_open` saying
/// whether a strong-emphasis span is currently open. A `**` delimiter toggles
/// the span; a span left open at the end of the text is closed.
pub open spec fn render_from(md: Seq<char>, strong_open: bool) -> Seq<char>
    decreases md.len(),
{
    if md.len() == 0 {
        if strong_open {
            "</strong>"@
        } else {
            Seq::<char>::empty()
        }
    } else if md.len() >= 2 && md[0] == '*' && md[1] == '*' {
        (if strong_open {
            "</strong>"@
        } else {
            "<strong>"@
        }) + render_from(md.skip(2), !strong_open)
    } else {
        escape_char(md[0]) + render_from(md.skip(1), strong_open)
    }
}

/// The deterministic Markdown-to-hypertext transform used on the outbound
/// path: `**`-delimited strong emphasis, with markup characters escaped.
pub open spec fn render_spec(md: Seq<char>) -> Seq<char> {
    render_from(md, false)
}

/// Renders stored Markdown to hypertext for the wire object's primary body.
pub fn render(md: &str) -> (r: String)
    ensures
        r@ == render_spec(md@),
{
    let n = md.unicode_len();
    let mut out = String::new();
    let mut strong_open = false;
    let mut i: usize = 0;
    proof {
        assert(md@.skip(0) =~= md@);
    }
    while i < n
        invariant
            i <= n,
            n == md@.len(),
            render_from(md@, false) == out@ + render_from(md@.skip(i as int), strong_open),
        decreases n - i,
    {
        let c = md.get_char(i);
        proof {
            assert(md@.skip(i as int).len() == n - i);
            assert(md@.skip(i as int)[0] == md@[i as int]);
        }
        if c == '*' && i + 1 < n && md.get_char(i + 1) == '*' {
            proof {
                assert(md@.skip(i as int)[1] == md@[i as int + 1]);
                assert(md@.skip(i as int).skip(2) =~= md@.skip(i as int + 2));
            }
            if strong_open {
                out.append("</strong>");
            } else {
                out.append("<strong>");
            }
            strong_open = !strong_open;
            i = i + 2;
        } else {
            proof {
                if md@.skip(i as int).len() >= 2 {
                    assert(md@.skip(i as int)[1] == md@[i as int + 1]);
                }
                assert(md@.skip(i as int).skip(1) =~= md@.skip(i as int + 1));
            }
            if c == '<' {
                out.append("&lt;");
            } else if c == '>' {
                out.append("&gt;");
            } else if c == '&' {
                out.append("&amp;");
            } else {
                let piece = md.substring_char(i, i + 1);
                proof {
                    assert(md@.subrange(i as int, i as int + 1) =~= seq![md@[i as int]]);
                }
                out.append(piece);
            }
            i = i + 1;
        }
    }
    proof {
        assert(md@.skip(n as int) =~= Seq::<char>::empty());
    }
    if strong_open {
        out.append("</strong>");
    }
    out
}

// ---------------------------------------------------------------------------
// Slur filtering
// ---------------------------------------------------------------------------

/// The marker that replaces each redacted occurrence.
pub open spec fn redaction() -> Seq<char> {
    "*removed*"@
}

/// Pattern-driven redaction: every occurrence of the non-empty pattern is
/// replaced by the redaction marker, scanning left to right; an empty pattern
/// redacts nothing. Applied on the inbound path only, after Markdown
/// normalization.
pub open spec fn filter_spec(t: Seq<char>, p: Seq<char>) -> Seq<char>
    decreases t.len(),
{
    if p.len() == 0 || t.len() == 0 {
        t
    } else if p.len() <= t.len() && t.subrange(0, p.len() as int) == p {
        redaction() + filter_spec(t.skip(p.len() as int), p)
    } else {
        seq![t[0]] + filter_spec(t.skip(1), p)
    }
}

/// Does `p` occur in `t` starting at character position `i`?
fn occurs_at(t: &str, p: &str, i: usize) -> (r: bool)
    requires
        i + p@.len() <= t@.len(),
        t@.len() <= usize::MAX,
    ensures
        r == (t@.subrange(i as int, i as int + p@.len() as int) == p@),
{
    let plen = p.unicode_len();
    let mut j: usize = 0;
    while j < plen
        invariant
            j <= plen,
            plen == p@.len(),
            i + plen <= t@.len(),
            t@.len() <= usize::MAX,
            forall|k: int| 0 <= k < j ==> t@[i + k] == p@[k],
        decreases plen - j,
    {
        if t.get_char(i + j) != p.get_char(j) {
            proof {
                let sub = t@.subrange(i as int, i as int + plen as int);
                assert(sub[j as int] == t@[i + j]);
            }
            return false;
        }
        j = j + 1;
    }
    proof {
        assert(t@.subrange(i as int, i as int + plen as int) =~= p@);
    }
    true
}

/// Redacts every occurrence of `pattern` in `text`.
pub fn filter_slurs(text: &str, pattern: &str) -> (r: String)
    ensures
        r@ == filter_spec(text@, pattern@),
{
    let n = text.unicode_len();
    let plen = pattern.unicode_len();
    if plen == 0 {
        return text.to_owned();
    }
    let mut out = String::new();
    let mut i: usize = 0;
    proof {
        assert(text@.skip(0) =~= text@);
    }
    while i < n
        invariant
            i <= n,
            n == text@.len(),
            plen == pattern@.len(),
            plen >= 1,
            filter_spec(text@, pattern@) == out@ + filter_spec(text@.skip(i as int), pattern@),
        decreases n - i,
    {
        proof {
            assert(text@.skip(i as int).len() == n - i);
            assert(text@.skip(i as int)[0] == text@[i as int]);
        }
        if plen <= n - i && occurs_at(text, pattern, i) {
            proof {
                let s = text@.skip(i as int);
                assert(s.subrange(0, plen as int) =~= text@.subrange(
                    i as int,
                    i as int + plen as int,
                ));
                assert(s.skip(plen as int) =~= text@.skip(i as int + plen as int));
            }
            out.append("*removed*");
            i = i + plen;
        } else {
            proof {
                let s = text@.skip(i as int);
                if plen <= s.len() {
                    assert(s.subrange(0, plen as int) =~= text@.subrange(
                        i as int,
                        i as int + plen as int,
                    ));
                }
                assert(seq![s[0]] =~= text@.subrange(i as int, i as int + 1));
                assert(s.skip(1) =~= text@.skip(i as int + 1));
            }
            let piece = text.substring_char(i, i + 1);
            out.append(piece);
            i = i + 1;
        }
    }
    proof {
        assert(text@.skip(n as int) =~= Seq::<char>::empty());
    }
    out
}

} // verus!
