//! Escaping into the destination markup dialect, and the formatting of
//! events and their rich attachments into the final outbound text.

use crate::event::{Embed, EmbedField, InboundEvent};
use vstd::prelude::*;
use vstd::string::*;

verus! {

/// Whether `c` belongs to the destination dialect's reserved-character set,
/// every member of which must be escaped in outbound text.
pub open spec fn is_reserved(c: char) -> bool {
    c == '_' || c == '*' || c == '[' || c == ']' || c == '(' || c == ')' || c == '~' || c == '`'
        || c == '>' || c == '#' || c == '+' || c == '-' || c == '=' || c == '|' || c == '{'
        || c == '}' || c == '.' || c == '!'
}

/// The escaped form of one character: reserved characters gain a backslash
/// prefix, all others pass through unchanged.
pub open spec fn escape_char(c: char) -> Seq<char> {
    if is_reserved(c) {
        seq!['\\', c]
    } else {
        seq![c]
    }
}

/// The escaped form of a text: each character escaped, in order.
pub open spec fn escape_seq(s: Seq<char>) -> Seq<char>
    decreases s.len(),
{
    if s.len() == 0 {
        Seq::empty()
    } else {
        escape_seq(s.drop_last()) + escape_char(s.last())
    }
}

fn reserved(c: char) -> (r: bool)
    ensures
        r == is_reserved(c),
{
    match c {
        '_' | '*' | '[' | ']' | '(' | ')' | '~' | '`' | '>' | '#' | '+' | '-' | '=' | '|' | '{'
            | '}' | '.' | '!' => true,
        _ => false,
    }
}

pub trait EscapeMarkdownV2: View<V = Seq<char>> {
    /// Escapes the destination dialect's reserved characters.
    fn escape_markdown_v2(&self) -> (r: String)
        ensures
            r@ == escape_seq(self@),
    ;
}

impl EscapeMarkdownV2 for String {
    fn escape_markdown_v2(&self) -> (r: String)
        ensures
            r@ == escape_seq(self@),
    {
        let s: &str = self.as_str();
        let n: usize = s.unicode_len();
        let mut out = String::new();
        let mut i: usize = 0;
        while i < n
            invariant
                i <= n,
                n == s@.len(),
                s@ == self@,
                out@ == escape_seq(s@.take(i as int)),
            decreases n - i,
        {
            let c = s.get_char(i);
            if reserved(c) {
                out.append("\\");
            }
            let piece = s.substring_char(i, i + 1);
            out.append(piece);
            proof {
                reveal_strlit("\\");
                assert(piece@ =~= seq![s@[i as int]]);
                assert(s@.take(i as int + 1).drop_last() =~= s@.take(i as int));
                if is_reserved(s@[i as int]) {
                    assert("\\"@ =~= seq!['\\']);
                }
                assert(out@ =~= escape_seq(s@.take(i as int)) + escape_char(s@[i as int]));
            }
            i = i + 1;
        }
        proof {
            assert(s@.take(n as int) =~= s@);
        }
        out
    }
}

/// Escaping never shortens a text: every character contributes at least
/// itself to the output.
pub proof fn lemma_escape_len(s: Seq<char>)
    ensures
        escape_seq(s).len() >= s.len(),
    decreases s.len(),
{
    if s.len() > 0 {
        lemma_escape_len(s.drop_last());
    }
}

/// No non-reserved character is altered: a text without reserved characters
/// escapes to itself.
pub proof fn lemma_escape_non_reserved_unchanged(s: Seq<char>)
    requires
        forall|i: int| 0 <= i < s.len() ==> !is_reserved(s[i]),
    ensures
        escape_seq(s) == s,
    decreases s.len(),
{
    if s.len() > 0 {
        assert(forall|i: int|
            0 <= i < s.drop_last().len() ==> !is_reserved(s.drop_last()[i]));
        lemma_escape_non_reserved_unchanged(s.drop_last());
        assert(escape_seq(s) =~= s);
    } else {
        assert(escape_seq(s) =~= s);
    }
}

/// Every reserved character of the output stands immediately after an
/// escape-prefix character.
pub proof fn lemma_escape_reserved_prefixed(s: Seq<char>, j: int)
    requires
        0 <= j < escape_seq(s).len(),
        is_reserved(escape_seq(s)[j]),
    ensures
        j >= 1,
        escape_seq(s)[j - 1] == '\\',
    decreases s.len(),
{
    if s.len() == 0 {
        assert(false);
    } else {
        let pre = escape_seq(s.drop_last());
        let tail = escape_char(s.last());
        assert(escape_seq(s) == pre + tail);
        if j < pre.len() {
            lemma_escape_reserved_prefixed(s.drop_last(), j);
            assert(escape_seq(s)[j - 1] == pre[j - 1]);
        } else {
            if is_reserved(s.last()) {
                assert(!is_reserved('\\'));
                assert(j == pre.len() + 1);
                assert(escape_seq(s)[j - 1] == '\\');
            } else {
                assert(escape_seq(s)[j] == s.last());
                assert(false);
            }
        }
    }
}

/// Escaping is injective: distinct texts have distinct escaped forms.
pub proof fn lemma_escape_injective(s1: Seq<char>, s2: Seq<char>)
    requires
        escape_seq(s1) == escape_seq(s2),
    ensures
        s1 == s2,
    decreases s1.len(),
{
    lemma_escape_len(s1);
    lemma_escape_len(s2);
    if s1.len() == 0 {
        assert(escape_seq(s2).len() == 0);
        assert(s1 =~= s2);
    } else if s2.len() == 0 {
        assert(escape_seq(s1).len() == 0);
        assert(false);
    } else {
        let c1 = s1.last();
        let c2 = s2.last();
        let o = escape_seq(s1);
        assert(o == escape_seq(s1.drop_last()) + escape_char(c1));
        assert(o == escape_seq(s2.drop_last()) + escape_char(c2));
        assert(o.last() == c1);
        assert(o.last() == c2);
        let k = escape_char(c1).len() as int;
        assert(escape_seq(s1.drop_last()) =~= o.subrange(0, o.len() - k));
        assert(escape_seq(s2.drop_last()) =~= o.subrange(0, o.len() - k));
        lemma_escape_injective(s1.drop_last(), s2.drop_last());
        assert(c1 == c2);
        assert(s1 =~= s1.drop_last().push(c1));
        assert(s2 =~= s2.drop_last().push(c2));
        assert(s1 =~= s2);
    }
}

/// The link construct a titled attachment opens with: the escaped title in
/// brackets, then the raw link target (empty when absent) in parentheses.
/// The target is not escaped: the destination dialect treats it as opaque.
pub open spec fn title_block(title: Option<String>, url: Option<String>) -> Seq<char> {
    match title {
        Option::Some(t) => "["@ + escape_seq(t@) + "]("@ + (match url {
            Option::Some(u) => u@,
            Option::None => Seq::<char>::empty(),
        }) + ")\n"@,
        Option::None => Seq::empty(),
    }
}

/// One labelled output line of an attachment: the label, the escaped value,
/// a newline; an absent value contributes no line at all.
pub open spec fn line_block(label: Seq<char>, part: Option<String>) -> Seq<char> {
    match part {
        Option::Some(v) => label + escape_seq(v@) + "\n"@,
        Option::None => Seq::empty(),
    }
}

/// One name/value pair: the escaped name and the escaped value, on a line
/// each.
pub open spec fn field_block(f: EmbedField) -> Seq<char> {
    escape_seq(f.name@) + "\n"@ + escape_seq(f.value@) + "\n"@
}

/// All name/value pairs of an attachment, in order.
pub open spec fn fields_block(fs: Seq<EmbedField>) -> Seq<char>
    decreases fs.len(),
{
    if fs.len() == 0 {
        Seq::empty()
    } else {
        fields_block(fs.drop_last()) + field_block(fs.last())
    }
}

/// The full formatted block of one attachment: the literal header line, then
/// every populated part in the fixed order title+link, description, field
/// pairs, thumbnail, image, video, author, footer, timestamp.
pub open spec fn spec_format_embed(e: Embed) -> Seq<char> {
    "Embed:\n"@ + title_block(e.title, e.url) + line_block(""@, e.description) + fields_block(
        e.fields@,
    ) + line_block("Thumbnail: "@, e.thumbnail) + line_block("Image: "@, e.image) + line_block(
        "Video: "@,
        e.video,
    ) + line_block("Author: "@, e.author) + line_block("Footer: "@, e.footer) + line_block(
        "Timestamp: "@,
        e.timestamp,
    )
}

fn append_line_block(out: &mut String, label: &str, part: &Option<String>)
    ensures
        final (out)@ == old(out)@ + line_block(label@, *part),
{
    match part {
        Option::Some(v) => {
            out.append(label);
            let escaped = v.escape_markdown_v2();
            out.append(escaped.as_str());
            out.append("\n");
        },
        Option::None => {},
    }
    proof {
        assert(out@ =~= old(out)@ + line_block(label@, *part));
    }
}

fn append_title_block(out: &mut String, title: &Option<String>, url: &Option<String>)
    ensures
        final (out)@ == old(out)@ + title_block(*title, *url),
{
    match title {
        Option::Some(t) => {
            out.append("[");
            let escaped = t.escape_markdown_v2();
            out.append(escaped.as_str());
            out.append("](");
            match url {
                Option::Some(u) => {
                    out.append(u.as_str());
                },
                Option::None => {},
            }
            out.append(")\n");
        },
        Option::None => {},
    }
    proof {
        assert(out@ =~= old(out)@ + title_block(*title, *url));
    }
}

fn append_fields_block(out: &mut String, fs: &Vec<EmbedField>)
    ensures
        final (out)@ == old(out)@ + fields_block(fs@),
{
    let mut i: usize = 0;
    while i < fs.len()
        invariant
            i <= fs@.len(),
            out@ == old(out)@ + fields_block(fs@.take(i as int)),
        decreases fs@.len() - i,
    {
        let escaped_name = fs[i].name.escape_markdown_v2();
        out.append(escaped_name.as_str());
        out.append("\n");
        let escaped_value = fs[i].value.escape_markdown_v2();
        out.append(escaped_value.as_str());
        out.append("\n");
        proof {
            assert(fs@.take(i as int + 1).drop_last() =~= fs@.take(i as int));
            assert(fs@.take(i as int + 1).last() == fs@[i as int]);
            assert(out@ =~= old(out)@ + fields_block(fs@.take(i as int + 1)));
        }
        i = i + 1;
    }
    proof {
        assert(fs@.take(fs@.len() as int) =~= fs@);
    }
}

/// Formats one attachment into its flat escaped text block.
pub fn format_embed(e: &Embed) -> (r: String)
    ensures
        r@ == spec_format_embed(*e),
{
    let mut out = String::new();
    out.append("Embed:\n");
    append_title_block(&mut out, &e.title, &e.url);
    append_line_block(&mut out, "", &e.description);
    append_fields_block(&mut out, &e.fields);
    append_line_block(&mut out, "Thumbnail: ", &e.thumbnail);
    append_line_block(&mut out, "Image: ", &e.image);
    append_line_block(&mut out, "Video: ", &e.video);
    append_line_block(&mut out, "Author: ", &e.author);
    append_line_block(&mut out, "Footer: ", &e.footer);
    append_line_block(&mut out, "Timestamp: ", &e.timestamp);
    proof {
        assert(out@ =~= spec_format_embed(*e));
    }
    out
}

/// The formatted blocks of all attachments of an event, concatenated in
/// their original order with no separator.
pub open spec fn embeds_blocks(es: Seq<Embed>) -> Seq<char>
    decreases es.len(),
{
    if es.len() == 0 {
        Seq::empty()
    } else {
        embeds_blocks(es.drop_last()) + spec_format_embed(es.last())
    }
}

/// The content part of the outbound text: the escaped body, a newline, then
/// the formatted attachments.
pub open spec fn content_part(e: InboundEvent) -> Seq<char> {
    escape_seq(e.content@) + "\n"@ + embeds_blocks(e.embeds@)
}

/// The origin label: the escaped author tag alone for a private message,
/// else the escaped origin-group, channel and author names separated by
/// slashes.
pub open spec fn origin_label(e: InboundEvent) -> Seq<char> {
    if e.guild_id is Some {
        escape_seq(e.guild_name@) + " / "@ + escape_seq(e.channel_name@) + " / "@ + escape_seq(
            e.author_tag@,
        )
    } else {
        escape_seq(e.author_tag@)
    }
}

/// The final outbound text: the content part alone when the author identity
/// is hidden, else the bracketed origin label (brackets escaped) before it.
pub open spec fn spec_format_message(e: InboundEvent, hide_username: bool) -> Seq<char> {
    if hide_username {
        content_part(e)
    } else {
        "\\["@ + origin_label(e) + "\\]: "@ + content_part(e)
    }
}

/// Formats one inbound event into the final outbound text.
pub fn format_message(e: &InboundEvent, hide_username: bool) -> (r: String)
    ensures
        r@ == spec_format_message(*e, hide_username),
{
    let mut content = e.content.escape_markdown_v2();
    content.append("\n");
    let mut i: usize = 0;
    while i < e.embeds.len()
        invariant
            i <= e.embeds@.len(),
            content@ == escape_seq(e.content@) + "\n"@ + embeds_blocks(e.embeds@.take(i as int)),
        decreases e.embeds@.len() - i,
    {
        let block = format_embed(&e.embeds[i]);
        content.append(block.as_str());
        proof {
            assert(e.embeds@.take(i as int + 1).drop_last() =~= e.embeds@.take(i as int));
            assert(e.embeds@.take(i as int + 1).last() == e.embeds@[i as int]);
            assert(content@ =~= escape_seq(e.content@) + "\n"@ + embeds_blocks(
                e.embeds@.take(i as int + 1),
            ));
        }
        i = i + 1;
    }
    proof {
        assert(e.embeds@.take(e.embeds@.len() as int) =~= e.embeds@);
        assert(content@ =~= content_part(*e));
    }
    if hide_username {
        return content;
    }
    let mut out = String::new();
    out.append("\\[");
    match e.guild_id {
        Option::Some(_) => {
            let escaped_guild = e.guild_name.escape_markdown_v2();
            out.append(escaped_guild.as_str());
            out.append(" / ");
            let escaped_channel = e.channel_name.escape_markdown_v2();
            out.append(escaped_channel.as_str());
            out.append(" / ");
            let escaped_author = e.author_tag.escape_markdown_v2();
            out.append(escaped_author.as_str());
        },
        Option::None => {
            let escaped_author = e.author_tag.escape_markdown_v2();
            out.append(escaped_author.as_str());
        },
    }
    out.append("\\]: ");
    out.append(content.as_str());
    proof {
        assert(out@ =~= spec_format_message(*e, false));
    }
    out
}

/// With the hide-identity flag set the output is the content part alone: two
/// events with the same body and the same attachments format to the same
/// hidden output, whatever their author, origin group and channel.
pub proof fn lemma_hidden_output_has_no_label(e1: InboundEvent, e2: InboundEvent)
    requires
        e1.content == e2.content,
        e1.embeds == e2.embeds,
    ensures
        spec_format_message(e1, true) == spec_format_message(e2, true),
{
}

} // verus!

