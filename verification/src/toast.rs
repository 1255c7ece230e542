//! The text of the toast that reports a sustained bandwidth alert.
use vstd::prelude::*;
use vstd::string::StringExecFns;

use crate::text::{chars_of, push_char};

verus! {

/// The XML text that stands for one character: the five characters with a
/// meaning in XML become entities, every other character stays.
pub open spec fn xml_escape_char(c: char) -> Seq<char> {
    if c == '&' {
        "&amp;"@
    } else if c == '<' {
        "&lt;"@
    } else if c == '>' {
        "&gt;"@
    } else if c == '"' {
        "&quot;"@
    } else if c == '\'' {
        "&apos;"@
    } else {
        seq![c]
    }
}

/// A string with each character escaped for XML, in order.
pub open spec fn xml_escaped(s: Seq<char>) -> Seq<char>
    decreases s.len(),
{
    if s.len() == 0 {
        Seq::empty()
    } else {
        xml_escaped(s.drop_last()) + xml_escape_char(s.last())
    }
}

/// Escapes text for an XML document.
///
/// Replacing `&`, `<`, `>`, `"` and `'` one after the other, `&` first, never
/// touches an entity made by an earlier step, so the result is that of
/// escaping each character on its own.
pub fn escape_xml(value: &str) -> (r: String)
    ensures
        r@ == xml_escaped(value@),
{
    let chars = chars_of(value);
    let mut out = String::new();
    let mut i: usize = 0;
    while i < chars.len()
        invariant
            chars@ == value@,
            i <= chars@.len(),
            out@ == xml_escaped(chars@.take(i as int)),
        decreases chars@.len() - i,
    {
        let c = chars[i];
        proof {
            assert(chars@.take(i + 1).drop_last() =~= chars@.take(i as int));
        }
        if c == '&' {
            out.append("&amp;");
        } else if c == '<' {
            out.append("&lt;");
        } else if c == '>' {
            out.append("&gt;");
        } else if c == '"' {
            out.append("&quot;");
        } else if c == '\'' {
            out.append("&apos;");
        } else {
            push_char(&mut out, c);
        }
        i = i + 1;
    }
    proof {
        assert(chars@.take(i as int) =~= value@);
    }
    out
}

/// Direction of the traffic that an alert reports.
#[derive(Clone, Copy, Debug, PartialEq, Eq, Structural)]
pub enum AlertDirection {
    Download,
    Upload,
}

/// The word for a direction in the toast title.
pub open spec fn direction_word(direction: AlertDirection) -> Seq<char> {
    match direction {
        AlertDirection::Download => "Download"@,
        AlertDirection::Upload => "Upload"@,
    }
}

/// The arrow glyph for a direction in the toast body.
pub open spec fn direction_glyph(direction: AlertDirection) -> Seq<char> {
    match direction {
        AlertDirection::Download => "\u{2193}"@,
        AlertDirection::Upload => "\u{2191}"@,
    }
}

/// `Net Flow: high <Direction> usage`.
pub open spec fn alert_title_text(direction: AlertDirection) -> Seq<char> {
    "Net Flow: high "@ + direction_word(direction) + " usage"@
}

/// `<glyph> <observed> has remained above <threshold> for the configured duration.`
pub open spec fn alert_body_text(
    direction: AlertDirection,
    observed: Seq<char>,
    threshold: Seq<char>,
) -> Seq<char> {
    direction_glyph(direction) + " "@ + observed + " has remained above "@ + threshold
        + " for the configured duration."@
}

/// The toast document: a generic toast with the escaped title and body as its
/// two text lines.
pub open spec fn toast_document(title: Seq<char>, body: Seq<char>) -> Seq<char> {
    "<toast><visual><binding template=\"ToastGeneric\"><text>"@ + xml_escaped(title)
        + "</text><text>"@ + xml_escaped(body) + "</text></binding></visual></toast>"@
}

/// Title of the toast for a sustained alert in `direction`.
pub fn alert_title(direction: AlertDirection) -> (r: String)
    ensures
        r@ == alert_title_text(direction),
{
    let mut out = String::from_str("Net Flow: high ");
    match direction {
        AlertDirection::Download => out.append("Download"),
        AlertDirection::Upload => out.append("Upload"),
    }
    out.append(" usage");
    out
}

/// Body of the toast for a sustained alert in `direction`, given the observed
/// rate and the threshold already formatted for display.
pub fn alert_body(direction: AlertDirection, observed: &str, threshold: &str) -> (r: String)
    ensures
        r@ == alert_body_text(direction, observed@, threshold@),
        r@[0] == (if direction == AlertDirection::Download {
            '\u{2193}'
        } else {
            '\u{2191}'
        }),
        r@.subrange(2, 2 + observed@.len() as int) == observed@,
{
    proof {
        lemma_alert_body_opens_with_arrow(direction, observed@, threshold@);
    }
    let mut out = match direction {
        AlertDirection::Download => String::from_str("\u{2193}"),
        AlertDirection::Upload => String::from_str("\u{2191}"),
    };
    out.append(" ");
    out.append(observed);
    out.append(" has remained above ");
    out.append(threshold);
    out.append(" for the configured duration.");
    out
}

/// The XML document of a toast with the given title and body.
pub fn toast_xml(title: &str, body: &str) -> (r: String)
    ensures
        r@ == toast_document(title@, body@),
{
    let mut out = String::from_str("<toast><visual><binding template=\"ToastGeneric\"><text>");
    let t = escape_xml(title);
    out.append(t.as_str());
    out.append("</text><text>");
    let b = escape_xml(body);
    out.append(b.as_str());
    out.append("</text></binding></visual></toast>");
    out
}

/// The body of an alert opens with an arrow that points the way the traffic
/// goes: down (U+2193) for a download alert, up (U+2191) for an upload alert,
/// so the two directions never share a glyph. A space and the observed rate
/// follow, and the body ends with the threshold and the closing sentence.
pub proof fn lemma_alert_body_opens_with_arrow(
    direction: AlertDirection,
    observed: Seq<char>,
    threshold: Seq<char>,
)
    ensures
        alert_body_text(direction, observed, threshold).len() == 1 + 1 + observed.len() + 20
            + threshold.len() + 29,
        alert_body_text(direction, observed, threshold)[0] == (if direction
            == AlertDirection::Download {
            '\u{2193}'
        } else {
            '\u{2191}'
        }),
        alert_body_text(AlertDirection::Download, observed, threshold)[0] != alert_body_text(
            AlertDirection::Upload,
            observed,
            threshold,
        )[0],
        alert_body_text(direction, observed, threshold)[1] == ' ',
        alert_body_text(direction, observed, threshold).subrange(2, 2 + observed.len() as int) == observed,
{
    reveal_strlit("\u{2193}");
    reveal_strlit("\u{2191}");
    reveal_strlit(" ");
    reveal_strlit(" has remained above ");
    reveal_strlit(" for the configured duration.");
    let b = alert_body_text(direction, observed, threshold);
    let g = direction_glyph(direction);
    assert(g.len() == 1);
    assert(b == g + " "@ + observed + " has remained above "@ + threshold
        + " for the configured duration."@);
    assert((g + " "@ + observed + " has remained above "@ + threshold
        + " for the configured duration."@)[0] == g[0]);
    assert(b.subrange(2, 2 + observed.len() as int) =~= observed);
    let bd = alert_body_text(AlertDirection::Download, observed, threshold);
    let bu = alert_body_text(AlertDirection::Upload, observed, threshold);
    assert(bd[0] == direction_glyph(AlertDirection::Download)[0]);
    assert(bu[0] == direction_glyph(AlertDirection::Upload)[0]);
}

/// The escape of a character is empty of `<`, `>` and `"`.
proof fn lemma_escape_char_safe(c: char)
    ensures
        !xml_escape_char(c).contains('<'),
        !xml_escape_char(c).contains('>'),
        !xml_escape_char(c).contains('"'),
        !xml_escape_char(c).contains('\''),
{
    reveal_strlit("&amp;");
    reveal_strlit("&lt;");
    reveal_strlit("&gt;");
    reveal_strlit("&quot;");
    reveal_strlit("&apos;");
    if c != '&' && c != '<' && c != '>' && c != '"' && c != '\'' {
        assert(xml_escape_char(c) =~= seq![c]);
    }
}

/// Escaped text holds no `<`, `>`, `"` or `'`: it cannot open or close a tag or
/// end an attribute.
pub proof fn lemma_escaped_has_no_markup(s: Seq<char>)
    ensures
        !xml_escaped(s).contains('<'),
        !xml_escaped(s).contains('>'),
        !xml_escaped(s).contains('"'),
        !xml_escaped(s).contains('\''),
    decreases s.len(),
{
    if s.len() > 0 {
        lemma_escaped_has_no_markup(s.drop_last());
        lemma_escape_char_safe(s.last());
        let a = xml_escaped(s.drop_last());
        let b = xml_escape_char(s.last());
        assert forall|x: char| (a + b).contains(x) implies a.contains(x) || b.contains(x) by {
            let i = choose|i: int| 0 <= i < (a + b).len() && (a + b)[i] == x;
            if i < a.len() {
                assert(a[i] == x);
            } else {
                assert(b[i - a.len()] == x);
            }
        }
    }
}

/// Text with none of the five characters that XML escapes comes out
/// unchanged.
pub proof fn lemma_escape_plain_text(s: Seq<char>)
    requires
        forall|i: int|
            0 <= i < s.len() ==> #[trigger] s[i] != '&' && s[i] != '<' && s[i] != '>' && s[i] != '"'
                && s[i] != '\'',
    ensures
        xml_escaped(s) == s,
    decreases s.len(),
{
    if s.len() > 0 {
        lemma_escape_plain_text(s.drop_last());
        assert(s.drop_last().push(s.last()) =~= s);
        assert(s[s.len() - 1] == s.last());
        assert(xml_escape_char(s.last()) =~= seq![s.last()]);
        assert(xml_escaped(s) =~= s);
    }
}

} // verus!
