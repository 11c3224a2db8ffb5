//! The outgoing message: plain text, or a card with a title, a body and
//! labelled fields.

use vstd::prelude::*;
use crate::text::{chars_of, text_of};

verus! {

/// One labelled value of a card.
#[derive(Debug, Clone, PartialEq, Eq)]
pub struct Field {
    pub name: String,
    pub value: String,
    pub inline: bool,
}

/// A structured message. `timestamp` asks the sender to stamp the card with
/// the time of sending.
#[derive(Debug, Clone, PartialEq, Eq)]
pub struct Card {
    pub title: String,
    pub description: Option<String>,
    pub url: Option<String>,
    pub image: Option<String>,
    pub fields: Vec<Field>,
    pub footer: Option<String>,
    pub timestamp: bool,
}

/// What goes out to the channel.
#[derive(Debug, Clone, PartialEq, Eq)]
pub enum Payload {
    Plain(String),
    Rich(Card),
}

/// A field as a value.
pub struct FieldView {
    pub name: Seq<char>,
    pub value: Seq<char>,
    pub inline: bool,
}

/// A card as a value.
pub struct CardView {
    pub title: Seq<char>,
    pub description: Option<Seq<char>>,
    pub url: Option<Seq<char>>,
    pub image: Option<Seq<char>>,
    pub fields: Seq<FieldView>,
    pub footer: Option<Seq<char>>,
    pub timestamp: bool,
}

/// A payload as a value.
pub enum PayloadView {
    Plain(Seq<char>),
    Rich(CardView),
}

impl View for Field {
    type V = FieldView;

    open spec fn view(&self) -> FieldView {
        FieldView { name: self.name@, value: self.value@, inline: self.inline }
    }
}

/// The fields of `v` as values, in order.
pub open spec fn field_views(v: Seq<Field>) -> Seq<FieldView> {
    v.map_values(|f: Field| f@)
}

impl View for Card {
    type V = CardView;

    open spec fn view(&self) -> CardView {
        CardView {
            title: self.title@,
            description: text_of(self.description),
            url: text_of(self.url),
            image: text_of(self.image),
            fields: field_views(self.fields@),
            footer: text_of(self.footer),
            timestamp: self.timestamp,
        }
    }
}

impl View for Payload {
    type V = PayloadView;

    open spec fn view(&self) -> PayloadView {
        match self {
            Payload::Plain(s) => PayloadView::Plain(s@),
            Payload::Rich(c) => PayloadView::Rich(c@),
        }
    }
}

/// `fields` with one more field at the end, where `value` is present.
pub open spec fn with_optional(
    fields: Seq<FieldView>,
    name: Seq<char>,
    value: Option<Seq<char>>,
    inline: bool,
) -> Seq<FieldView> {
    match value {
        Some(v) => fields.push(FieldView { name, value: v, inline }),
        None => fields,
    }
}

/// Appends a field to `fields`.
pub fn push_field(fields: &mut Vec<Field>, name: &str, value: String, inline: bool)
    ensures
        field_views(final(fields)@) == field_views(old(fields)@).push(
            FieldView { name: name@, value: value@, inline },
        ),
{
    let field = Field { name: name.to_owned(), value, inline };
    fields.push(field);
    assert(field_views(fields@) =~= field_views(old(fields)@).push(field@));
}

/// Appends a field to `fields` where `value` is present, and nothing where
/// it is absent.
pub fn push_optional(fields: &mut Vec<Field>, name: &str, value: Option<String>, inline: bool)
    ensures
        field_views(final(fields)@) == with_optional(
            field_views(old(fields)@),
            name@,
            text_of(value),
            inline,
        ),
{
    match value {
        Some(v) => push_field(fields, name, v, inline),
        None => {},
    }
}

/// The lines of `t`, each after two spaces and before a line feed, from
/// the point where `at_line_start` says whether a line has just begun.
pub open spec fn indented_from(t: Seq<char>, at_line_start: bool) -> Seq<char>
    decreases t.len(),
{
    if t.len() == 0 {
        if at_line_start {
            Seq::empty()
        } else {
            seq!['\n']
        }
    } else {
        let margin = if at_line_start {
            seq![' ', ' ']
        } else {
            Seq::empty()
        };
        if t[0] == '\n' {
            margin + seq!['\n'] + indented_from(t.drop_first(), true)
        } else {
            margin + seq![t[0]] + indented_from(t.drop_first(), false)
        }
    }
}

/// The lines of `t`, each after two spaces and before a line feed. The last
/// line ends with a line feed whether or not it did in `t`.
pub open spec fn indented(t: Seq<char>) -> Seq<char> {
    indented_from(t, true)
}

/// The indented lines of a text, where it is present.
pub open spec fn optional_block(o: Option<Seq<char>>) -> Seq<char> {
    match o {
        Some(t) => indented(t),
        None => Seq::empty(),
    }
}

/// The indented lines of one field: its name, a colon and its value.
pub open spec fn field_block(f: FieldView) -> Seq<char> {
    indented(f.name + seq![':', ' '] + f.value)
}

/// The indented lines of `fields`, in order.
pub open spec fn field_blocks(fields: Seq<FieldView>) -> Seq<char>
    decreases fields.len(),
{
    if fields.len() == 0 {
        Seq::empty()
    } else {
        field_blocks(fields.drop_last()) + field_block(fields.last())
    }
}

/// A card as plain text: its title on a line of its own, then, indented,
/// its address, its description, the address of its image, its fields and
/// its footer, as far as they are present.
pub open spec fn plain_text_of(c: CardView) -> Seq<char> {
    c.title + seq!['\n'] + optional_block(c.url) + optional_block(c.description)
        + optional_block(c.image) + field_blocks(c.fields) + optional_block(c.footer)
}

/// A payload as plain text: a text as it is, a card as its plain text.
pub open spec fn payload_text_of(p: PayloadView) -> Seq<char> {
    match p {
        PayloadView::Plain(s) => s,
        PayloadView::Rich(c) => plain_text_of(c),
    }
}

/// Where `u` holds no line feed before `k`, and one at `k` unless `k` is
/// its end, its indented form is its first line followed by that of the
/// rest.
pub proof fn lemma_indented_line(u: Seq<char>, k: int, at_line_start: bool)
    requires
        0 <= k <= u.len(),
        u.len() > 0 || !at_line_start,
        forall|i: int| 0 <= i < k ==> u[i] != '\n',
        k < u.len() ==> u[k] == '\n',
    ensures
        indented_from(u, at_line_start) == (if at_line_start {
            seq![' ', ' ']
        } else {
            Seq::empty()
        }) + u.take(k) + seq!['\n'] + (if k < u.len() {
            indented_from(u.skip(k + 1), true)
        } else {
            Seq::empty()
        }),
    decreases k,
{
    let margin = if at_line_start {
        seq![' ', ' ']
    } else {
        Seq::<char>::empty()
    };
    let tail = if k < u.len() {
        indented_from(u.skip(k + 1), true)
    } else {
        Seq::<char>::empty()
    };
    if k == 0 {
        if u.len() > 0 {
            assert(u.skip(1) =~= u.drop_first());
        }
        assert(indented_from(u, at_line_start) =~= margin + u.take(0) + seq!['\n'] + tail);
    } else {
        let rest = u.drop_first();
        assert forall|i: int| 0 <= i < k - 1 implies rest[i] != '\n' by {
            assert(rest[i] == u[i + 1]);
        }
        lemma_indented_line(rest, k - 1, false);
        assert(rest.take(k - 1) =~= u.take(k).drop_first());
        if k < u.len() {
            assert(rest.skip(k) =~= u.skip(k + 1));
        }
        assert(margin + seq![u[0]] + (Seq::<char>::empty() + rest.take(k - 1) + seq!['\n'] + tail)
            =~= margin + u.take(k) + seq!['\n'] + tail);
    }
}

/// Appends the indented lines of `text` to `out`.
pub fn push_indented(out: &mut String, text: &str)
    ensures
        final(out)@ == old(out)@ + indented(text@),
{
    let v = chars_of(text);
    let n = v.len();
    let mut start: usize = 0;
    proof {
        assert(v@.skip(0) =~= v@);
        assert(out@ + Seq::<char>::empty() =~= out@);
    }
    while start < n
        invariant
            start <= n == v.len(),
            v@ == text@,
            out@ + (if start < n {
                indented_from(v@.skip(start as int), true)
            } else {
                Seq::empty()
            }) == old(out)@ + indented(text@),
        decreases n - start,
    {
        let mut end: usize = start;
        while end < n && v[end] != '\n'
            invariant
                start <= end <= n == v.len(),
                forall|i: int| start <= i < end ==> v@[i] != '\n',
            decreases n - end,
        {
            end = end + 1;
        }
        let ghost before = out@;
        out.append("  ");
        out.append(text.substring_char(start, end));
        out.append("\n");
        proof {
            reveal_strlit("  ");
            reveal_strlit("\n");
            let u = v@.skip(start as int);
            lemma_indented_line(u, end - start, true);
            assert(u.take(end - start) =~= text@.subrange(start as int, end as int));
            assert("  "@ =~= seq![' ', ' ']);
            assert("\n"@ =~= seq!['\n']);
            if end < n {
                assert(u.skip(end - start + 1) =~= v@.skip(end + 1));
            }
            let tail = if end < n {
                indented_from(v@.skip(end + 1), true)
            } else {
                Seq::<char>::empty()
            };
            assert(out@ =~= before + seq![' ', ' '] + u.take(end - start) + seq!['\n']);
            assert(before + indented_from(u, true) =~= out@ + tail);
            if end < n && end + 1 >= n {
                assert(v@.skip(end + 1) =~= Seq::<char>::empty());
            }
        }
        start = if end < n {
            end + 1
        } else {
            n
        };
    }
    proof {
        assert(out@ + Seq::<char>::empty() =~= out@);
    }
}

/// Appends the indented lines of `text` to `out`, where `text` is present.
pub fn push_optional_block(out: &mut String, text: &Option<String>)
    ensures
        final(out)@ == old(out)@ + optional_block(text_of(*text)),
{
    match text {
        Some(t) => push_indented(out, t.as_str()),
        None => {
            assert(out@ + Seq::<char>::empty() =~= out@);
        },
    }
}

impl Card {
    /// The card as plain text, for a channel that shows no cards.
    pub fn plain_text(&self) -> (r: String)
        ensures
            r@ == plain_text_of(self@),
    {
        let mut r = self.title.clone();
        r.append("\n");
        proof {
            reveal_strlit("\n");
            assert("\n"@ =~= seq!['\n']);
        }
        push_optional_block(&mut r, &self.url);
        push_optional_block(&mut r, &self.description);
        push_optional_block(&mut r, &self.image);
        let ghost head = r@;
        let ghost all = field_views(self.fields@);
        let mut i: usize = 0;
        proof {
            assert(r@ + Seq::<char>::empty() =~= r@);
        }
        while i < self.fields.len()
            invariant
                i <= self.fields.len(),
                all == field_views(self.fields@),
                r@ == head + field_blocks(all.take(i as int)),
            decreases self.fields.len() - i,
        {
            let field = &self.fields[i];
            let mut line = field.name.clone();
            line.append(": ");
            line.append(field.value.as_str());
            let ghost before = r@;
            push_indented(&mut r, line.as_str());
            proof {
                reveal_strlit(": ");
                assert(": "@ =~= seq![':', ' ']);
                let next = all.take(i + 1);
                assert(next.drop_last() =~= all.take(i as int));
                assert(next.last() == field@);
                assert(r@ =~= head + field_blocks(next));
            }
            i = i + 1;
        }
        proof {
            assert(all.take(self.fields.len() as int) =~= all);
        }
        push_optional_block(&mut r, &self.footer);
        r
    }
}

impl Payload {
    /// The payload as plain text.
    pub fn plain_text(&self) -> (r: String)
        ensures
            r@ == payload_text_of(self@),
    {
        match self {
            Payload::Plain(s) => s.clone(),
            Payload::Rich(c) => c.plain_text(),
        }
    }
}

} // verus!
