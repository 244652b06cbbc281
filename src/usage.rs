//! The usage text of a command-line description: headings, names,
//! descriptions and details, each piece tagged with how it is styled.

use vstd::prelude::*;
use crate::opencli::{ArgumentElement, Arity, CommandElement, ExitCodeElement, OptionElement, V0_1};
use crate::text::{decimal, decimal_text, terminate_each, terminated, to_upper, upper_of};

verus! {

/// How a piece of usage text is styled.
#[derive(Debug, Clone, Copy, PartialEq, Eq, Structural)]
pub enum UsageStyleClass {
    Header,
    Name,
    Description,
    Details,
}

/// A piece of usage text, as a value.
pub ghost enum Piece {
    Text(Seq<char>, Option<UsageStyleClass>),
    Newline(nat),
}

/// A piece of usage text: some styled text, or a line break followed by an
/// indent of so many spaces.
#[derive(Debug, Clone)]
pub enum Segment {
    Text(String, Option<UsageStyleClass>),
    Newline(usize),
}

impl Segment {
    pub open spec fn piece(self) -> Piece {
        match self {
            Segment::Text(t, c) => Piece::Text(t@, c),
            Segment::Newline(n) => Piece::Newline(n as nat),
        }
    }
}

/// Something usage text can be written to.
pub trait UsageWriter {
    fn write(&mut self, text: &str, style: Option<UsageStyleClass>);

    fn write_opt(&mut self, text: &Option<String>, style: Option<UsageStyleClass>);

    fn newline(&mut self, indent: usize);
}

/// Collects usage text as a list of segments.
pub struct SegmentWriter {
    segments: Vec<Segment>,
}

/// The pieces that an optional text gives: the text, or nothing.
pub open spec fn opt_pieces(text: Option<String>, style: Option<UsageStyleClass>) -> Seq<Piece> {
    match text {
        Some(t) => seq![Piece::Text(t@, style)],
        None => Seq::empty(),
    }
}

impl SegmentWriter {
    pub closed spec fn pieces(&self) -> Seq<Piece> {
        self.segments@.map_values(|s: Segment| s.piece())
    }

    pub fn new() -> (r: Self)
        ensures
            r.pieces() == Seq::<Piece>::empty(),
    {
        let r = SegmentWriter { segments: Vec::new() };
        assert(r.pieces() =~= Seq::<Piece>::empty());
        r
    }

    /// The segments written so far, in order.
    pub fn segments(&self) -> (r: &[Segment])
        ensures
            r@.map_values(|s: Segment| s.piece()) == self.pieces(),
    {
        self.segments.as_slice()
    }

    fn push_segment(&mut self, s: Segment)
        ensures
            final(self).pieces() == old(self).pieces().push(s.piece()),
    {
        self.segments.push(s);
        assert(self.pieces() =~= old(self).pieces().push(s.piece()));
    }
}

impl UsageWriter for SegmentWriter {
    fn write(&mut self, text: &str, style: Option<UsageStyleClass>)
        ensures
            final(self).pieces() == old(self).pieces().push(Piece::Text(text@, style)),
    {
        self.push_segment(Segment::Text(String::from_str(text), style));
    }

    fn write_opt(&mut self, text: &Option<String>, style: Option<UsageStyleClass>)
        ensures
            final(self).pieces() == old(self).pieces() + opt_pieces(*text, style),
    {
        match text {
            None => {
                assert(old(self).pieces() + opt_pieces(*text, style) =~= old(self).pieces());
            },
            Some(t) => {
                self.write(t.as_str(), style);
                assert(final(self).pieces() =~= old(self).pieces() + opt_pieces(*text, style));
            },
        }
    }

    fn newline(&mut self, indent: usize)
        ensures
            final(self).pieces() == old(self).pieces().push(Piece::Newline(indent as nat)),
    {
        self.push_segment(Segment::Newline(indent));
    }
}

/// Something that has usage text: a long form and a one-line form.
pub trait Usage: Sized {
    spec fn usage_pieces(&self, indent: nat) -> Seq<Piece>;

    spec fn usage_line_pieces(&self, indent: nat) -> Seq<Piece>;

    fn usage(&self, out: &mut SegmentWriter, indent: usize)
        requires
            indent + 2 <= usize::MAX,
        ensures
            final(out).pieces() == old(out).pieces() + self.usage_pieces(indent as nat),
    ;

    fn usage_line(&self, out: &mut SegmentWriter, indent: usize)
        ensures
            final(out).pieces() == old(out).pieces() + self.usage_line_pieces(indent as nat),
    ;
}

/// The one-line forms of `items`, each on a line of its own at `indent`.
pub open spec fn item_pieces<U: Usage>(items: Seq<U>, indent: nat) -> Seq<Piece>
    decreases items.len(),
{
    if items.len() == 0 {
        Seq::empty()
    } else {
        item_pieces(items.drop_last(), indent) + seq![Piece::Newline(indent)] + items.last().usage_line_pieces(
            indent,
        )
    }
}

/// A headed list: nothing when there is no list; otherwise the heading and
/// a colon, then each item on a line of its own two columns further in,
/// with line breaks around a list that is not empty.
pub open spec fn list_pieces<U: Usage>(list: Option<Vec<U>>, heading: Seq<char>, indent: nat) -> Seq<Piece> {
    match list {
        None => Seq::empty(),
        Some(l) => {
            let around = if l@.len() > 0 { seq![Piece::Newline(indent)] } else { Seq::empty() };
            around + seq![
                Piece::Text(heading, Some(UsageStyleClass::Header)),
                Piece::Text(":"@, Some(UsageStyleClass::Header)),
            ] + item_pieces(l@, indent + 2) + around
        },
    }
}

/// Writes the headed list of `list` at `indent`.
pub fn foreach<U: Usage>(out: &mut SegmentWriter, list: &Option<Vec<U>>, heading: &str, indent: usize)
    requires
        indent + 2 <= usize::MAX,
    ensures
        final(out).pieces() == old(out).pieces() + list_pieces(*list, heading@, indent as nat),
{
    let indent_next = indent + 2;
    match list {
        None => {
            assert(old(out).pieces() + list_pieces(*list, heading@, indent as nat) =~= old(out).pieces());
        },
        Some(items) => {
            let ghost start = out.pieces();
            if items.len() > 0 {
                out.newline(indent);
            }
            proof {
                reveal_strlit(":");
            }
            out.write(heading, Some(UsageStyleClass::Header));
            out.write(":", Some(UsageStyleClass::Header));
            let ghost head = out.pieces();
            let mut i: usize = 0;
            while i < items.len()
                invariant
                    i <= items@.len(),
                    indent_next == indent + 2,
                    out.pieces() == head + item_pieces(items@.subrange(0, i as int), indent_next as nat),
                decreases items@.len() - i,
            {
                assert(items@.subrange(0, i + 1).drop_last() =~= items@.subrange(0, i as int));
                out.newline(indent_next);
                items[i].usage_line(out, indent_next);
                assert(out.pieces() =~= head + item_pieces(items@.subrange(0, i + 1), indent_next as nat));
                i = i + 1;
            }
            assert(items@.subrange(0, items@.len() as int) =~= items@);
            if items.len() > 0 {
                out.newline(indent);
            }
            assert(out.pieces() =~= start + list_pieces(*list, heading@, indent as nat));
        },
    }
}

/// The separator between a name and what follows it on one line.
pub open spec fn dash() -> Seq<char> {
    " -- "@
}

impl Usage for V0_1 {
    open spec fn usage_pieces(&self, indent: nat) -> Seq<Piece> {
        seq![Piece::Text(self.info.title@, Some(UsageStyleClass::Name)), Piece::Newline(indent)]
            + opt_pieces(self.info.description, Some(UsageStyleClass::Description))
            + seq![Piece::Newline(indent)]
            + list_pieces(self.commands, "SUBCOMMANDS"@, indent)
            + list_pieces(self.options, "OPTIONS"@, indent)
            + list_pieces(self.arguments, "ARGUMENTS"@, indent)
            + list_pieces(self.exit_codes, "Exit Codes"@, indent)
            + list_pieces(self.examples, "Examples"@, indent)
    }

    open spec fn usage_line_pieces(&self, indent: nat) -> Seq<Piece> {
        seq![Piece::Text(self.info.title@, Some(UsageStyleClass::Name)), Piece::Text(dash(), None)]
            + opt_pieces(self.info.description, Some(UsageStyleClass::Description))
    }

    fn usage(&self, out: &mut SegmentWriter, indent: usize) {
        let ghost start = out.pieces();
        out.write(self.info.title.as_str(), Some(UsageStyleClass::Name));
        out.newline(indent);
        out.write_opt(&self.info.description, Some(UsageStyleClass::Description));
        out.newline(indent);
        proof {
            reveal_strlit("SUBCOMMANDS");
            reveal_strlit("OPTIONS");
            reveal_strlit("ARGUMENTS");
            reveal_strlit("Exit Codes");
            reveal_strlit("Examples");
        }
        foreach(out, &self.commands, "SUBCOMMANDS", indent);
        foreach(out, &self.options, "OPTIONS", indent);
        foreach(out, &self.arguments, "ARGUMENTS", indent);
        foreach(out, &self.exit_codes, "Exit Codes", indent);
        foreach(out, &self.examples, "Examples", indent);
        assert(out.pieces() =~= start + self.usage_pieces(indent as nat));
    }

    fn usage_line(&self, out: &mut SegmentWriter, indent: usize) {
        let ghost start = out.pieces();
        proof {
            reveal_strlit(" -- ");
        }
        out.write(self.info.title.as_str(), Some(UsageStyleClass::Name));
        out.write(" -- ", None);
        out.write_opt(&self.info.description, Some(UsageStyleClass::Description));
        assert(out.pieces() =~= start + self.usage_line_pieces(indent as nat));
    }
}

impl Usage for CommandElement {
    open spec fn usage_pieces(&self, indent: nat) -> Seq<Piece> {
        seq![Piece::Text(self.name@, Some(UsageStyleClass::Name)), Piece::Newline(indent)]
            + opt_pieces(self.description, Some(UsageStyleClass::Description))
            + seq![Piece::Newline(indent)]
            + list_pieces(self.options, "OPTIONS"@, indent)
            + list_pieces(self.arguments, "ARGUMENTS"@, indent)
    }

    open spec fn usage_line_pieces(&self, indent: nat) -> Seq<Piece> {
        seq![Piece::Text(self.name@, Some(UsageStyleClass::Name)), Piece::Text(dash(), None)]
            + opt_pieces(self.description, Some(UsageStyleClass::Description))
    }

    fn usage(&self, out: &mut SegmentWriter, indent: usize) {
        let ghost start = out.pieces();
        out.write(self.name.as_str(), Some(UsageStyleClass::Name));
        out.newline(indent);
        out.write_opt(&self.description, Some(UsageStyleClass::Description));
        out.newline(indent);
        proof {
            reveal_strlit("OPTIONS");
            reveal_strlit("ARGUMENTS");
        }
        foreach(out, &self.options, "OPTIONS", indent);
        foreach(out, &self.arguments, "ARGUMENTS", indent);
        assert(out.pieces() =~= start + self.usage_pieces(indent as nat));
    }

    fn usage_line(&self, out: &mut SegmentWriter, indent: usize) {
        let ghost start = out.pieces();
        proof {
            reveal_strlit(" -- ");
        }
        out.write(self.name.as_str(), Some(UsageStyleClass::Name));
        out.write(" -- ", None);
        out.write_opt(&self.description, Some(UsageStyleClass::Description));
        assert(out.pieces() =~= start + self.usage_line_pieces(indent as nat));
    }
}

/// The aliases of an option, each followed by a comma and a space.
pub open spec fn alias_prefix(aliases: Option<Vec<String>>) -> Seq<char> {
    match aliases {
        Some(v) => terminated(v@.map_values(|p: String| p@), ", "@),
        None => Seq::empty(),
    }
}

impl Usage for OptionElement {
    open spec fn usage_pieces(&self, indent: nat) -> Seq<Piece> {
        self.usage_line_pieces(indent) + seq![Piece::Newline(indent)] + list_pieces(
            self.arguments,
            "ARGUMENTS"@,
            indent,
        )
    }

    open spec fn usage_line_pieces(&self, indent: nat) -> Seq<Piece> {
        seq![
            Piece::Text(alias_prefix(self.aliases) + self.name@, Some(UsageStyleClass::Name)),
            Piece::Newline(indent),
        ] + opt_pieces(self.description, Some(UsageStyleClass::Description))
    }

    fn usage(&self, out: &mut SegmentWriter, indent: usize) {
        let ghost start = out.pieces();
        self.usage_line(out, indent);
        out.newline(indent);
        proof {
            reveal_strlit("ARGUMENTS");
        }
        foreach(out, &self.arguments, "ARGUMENTS", indent);
        assert(out.pieces() =~= start + self.usage_pieces(indent as nat));
    }

    fn usage_line(&self, out: &mut SegmentWriter, indent: usize) {
        let ghost start = out.pieces();
        proof {
            reveal_strlit(", ");
        }
        let mut joined = match &self.aliases {
            Some(v) => terminate_each(v, ", "),
            None => String::new(),
        };
        joined.append(self.name.as_str());
        out.write(joined.as_str(), Some(UsageStyleClass::Name));
        out.newline(indent);
        out.write_opt(&self.description, Some(UsageStyleClass::Description));
        assert(out.pieces() =~= start + self.usage_line_pieces(indent as nat));
    }
}

impl Arity {
    /// The bound written in decimal, or `N/A` when there is none.
    pub open spec fn bound_text(bound: Option<i64>) -> Seq<char> {
        match bound {
            Some(m) => decimal(m as int),
            None => "N/A"@,
        }
    }

    /// The text of an arity: `min: <minimum> | max: <maximum>`.
    pub open spec fn spec_text(self) -> Seq<char> {
        "min: "@ + Self::bound_text(self.minimum) + " | max: "@ + Self::bound_text(self.maximum)
    }

    fn bound(bound: Option<i64>) -> (r: String)
        ensures
            r@ == Self::bound_text(bound),
    {
        proof {
            reveal_strlit("N/A");
        }
        match bound {
            Some(m) => decimal_text(m),
            None => String::from_str("N/A"),
        }
    }

    pub fn text(&self) -> (r: String)
        ensures
            r@ == self.spec_text(),
    {
        proof {
            reveal_strlit("min: ");
            reveal_strlit(" | max: ");
        }
        let mut r = String::from_str("min: ");
        r.append(Self::bound(self.minimum).as_str());
        r.append(" | max: ");
        r.append(Self::bound(self.maximum).as_str());
        r
    }
}

/// How an argument's name is shown: upper case, in brackets when optional
/// and in angle brackets when required.
pub open spec fn argument_label(name: Seq<char>, required: bool) -> Seq<char> {
    if required {
        "<"@ + upper_of(name) + ">"@
    } else {
        "["@ + upper_of(name) + "]"@
    }
}

/// The arity of an argument as text, or `no arity`.
pub open spec fn arity_label(arity: Option<Arity>) -> Seq<char> {
    match arity {
        Some(a) => a.spec_text(),
        None => "no arity"@,
    }
}

impl Usage for ArgumentElement {
    open spec fn usage_pieces(&self, indent: nat) -> Seq<Piece> {
        self.usage_line_pieces(indent)
    }

    open spec fn usage_line_pieces(&self, indent: nat) -> Seq<Piece> {
        seq![
            Piece::Text(argument_label(self.name@, self.required), Some(UsageStyleClass::Name)),
            Piece::Text(dash(), None),
            Piece::Text(arity_label(self.arity), Some(UsageStyleClass::Details)),
            Piece::Newline(indent),
        ] + opt_pieces(self.description, Some(UsageStyleClass::Description))
    }

    fn usage(&self, out: &mut SegmentWriter, indent: usize) {
        self.usage_line(out, indent);
    }

    fn usage_line(&self, out: &mut SegmentWriter, indent: usize) {
        let ghost start = out.pieces();
        proof {
            reveal_strlit("<");
            reveal_strlit(">");
            reveal_strlit("[");
            reveal_strlit("]");
            reveal_strlit("no arity");
            reveal_strlit(" -- ");
        }
        let upper = to_upper(self.name.as_str());
        let mut name = if !self.required {
            String::from_str("[")
        } else {
            String::from_str("<")
        };
        name.append(upper.as_str());
        if !self.required {
            name.append("]");
        } else {
            name.append(">");
        }
        let arity = match &self.arity {
            Some(a) => a.text(),
            None => String::from_str("no arity"),
        };
        out.write(name.as_str(), Some(UsageStyleClass::Name));
        out.write(" -- ", None);
        out.write(arity.as_str(), Some(UsageStyleClass::Details));
        out.newline(indent);
        out.write_opt(&self.description, Some(UsageStyleClass::Description));
        assert(out.pieces() =~= start + self.usage_line_pieces(indent as nat));
    }
}

impl Usage for ExitCodeElement {
    open spec fn usage_pieces(&self, indent: nat) -> Seq<Piece> {
        self.usage_line_pieces(indent)
    }

    open spec fn usage_line_pieces(&self, indent: nat) -> Seq<Piece> {
        seq![
            Piece::Text(decimal(self.code as int), Some(UsageStyleClass::Name)),
            Piece::Text(dash(), None),
        ] + opt_pieces(self.description, Some(UsageStyleClass::Description))
    }

    fn usage(&self, out: &mut SegmentWriter, indent: usize) {
        self.usage_line(out, indent);
    }

    fn usage_line(&self, out: &mut SegmentWriter, indent: usize) {
        let ghost start = out.pieces();
        proof {
            reveal_strlit(" -- ");
        }
        let code = decimal_text(self.code);
        out.write(code.as_str(), Some(UsageStyleClass::Name));
        out.write(" -- ", None);
        out.write_opt(&self.description, Some(UsageStyleClass::Description));
        assert(out.pieces() =~= start + self.usage_line_pieces(indent as nat));
    }
}

impl Usage for String {
    open spec fn usage_pieces(&self, indent: nat) -> Seq<Piece> {
        self.usage_line_pieces(indent)
    }

    open spec fn usage_line_pieces(&self, indent: nat) -> Seq<Piece> {
        seq![Piece::Text(self@, None)]
    }

    fn usage(&self, out: &mut SegmentWriter, indent: usize) {
        self.usage_line(out, indent);
    }

    fn usage_line(&self, out: &mut SegmentWriter, indent: usize) {
        out.write(self.as_str(), None);
    }
}

} // verus!
