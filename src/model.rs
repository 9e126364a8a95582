use vstd::prelude::*;
use vstd::string::StringExecFns;

verus! {

/// What one line of a section is, as plain text.
pub enum LineView {
    Empty,
    Comment(Seq<char>),
    Entry(Seq<char>, Seq<char>),
}

/// A `tag: value` pair of a section.
pub struct SpdxEntry {
    tag: String,
    value: String,
}

impl SpdxEntry {
    fn new(tag: String, value: String) -> (r: SpdxEntry)
        ensures
            r.tag@ == tag@,
            r.value@ == value@,
    {
        SpdxEntry { tag, value }
    }

    pub closed spec fn tag_view(&self) -> Seq<char> {
        self.tag@
    }

    pub closed spec fn value_view(&self) -> Seq<char> {
        self.value@
    }
}

/// One line of a section: blank, a comment, or an entry.
pub enum SpdxLine {
    Empty,
    Comment(String),
    Entry(SpdxEntry),
}

impl View for SpdxLine {
    type V = LineView;

    open spec fn view(&self) -> LineView {
        match self {
            SpdxLine::Empty => LineView::Empty,
            SpdxLine::Comment(c) => LineView::Comment(c@),
            SpdxLine::Entry(e) => LineView::Entry(e.tag_view(), e.value_view()),
        }
    }
}

/// The values of the entries of `lines` whose tag is `tag`, in order.
pub open spec fn values_with_tag(lines: Seq<LineView>, tag: Seq<char>) -> Seq<Seq<char>>
    decreases lines.len(),
{
    if lines.len() == 0 {
        Seq::empty()
    } else {
        let rest = values_with_tag(lines.drop_last(), tag);
        match lines.last() {
            LineView::Entry(t, v) => if t == tag {
                rest.push(v)
            } else {
                rest
            },
            _ => rest,
        }
    }
}

/// The text of one line, with its line ending.
pub open spec fn line_text(line: LineView) -> Seq<char> {
    match line {
        LineView::Empty => "\n"@,
        LineView::Comment(c) => "# "@ + c + "\n"@,
        LineView::Entry(t, v) => t + ": "@ + v + "\n"@,
    }
}

/// The text of a section: its lines one after another.
pub open spec fn section_text(lines: Seq<LineView>) -> Seq<char>
    decreases lines.len(),
{
    if lines.len() == 0 {
        Seq::empty()
    } else {
        section_text(lines.drop_last()) + line_text(lines.last())
    }
}

/// The text of a whole document: a header and the document section, a blank
/// separator, then a header and the package section.
pub open spec fn document_text(doc: Seq<LineView>, pkg: Seq<LineView>) -> Seq<char> {
    "##### Document Information\n"@ + section_text(doc) + "\n\n"@
        + "##### Package Information\n"@ + section_text(pkg)
}

/// An ordered, append-only sequence of lines.
pub struct SpdxSection {
    lines: Vec<SpdxLine>,
}

impl View for SpdxSection {
    type V = Seq<LineView>;

    closed spec fn view(&self) -> Seq<LineView> {
        self.lines@.map_values(|l: SpdxLine| l@)
    }
}

impl Default for SpdxSection {
    fn default() -> (r: SpdxSection)
        ensures
            r@ == Seq::<LineView>::empty(),
    {
        SpdxSection::new()
    }
}

impl SpdxSection {
    /// An empty section.
    pub fn new() -> (r: SpdxSection)
        ensures
            r@ == Seq::<LineView>::empty(),
    {
        let r = SpdxSection { lines: Vec::new() };
        assert(r@ =~= Seq::<LineView>::empty());
        r
    }

    /// Appends the entry `tag: value`.
    pub fn add_entry(&mut self, tag: &str, value: &str)
        ensures
            final(self)@ == old(self)@.push(LineView::Entry(tag@, value@)),
    {
        let entry = SpdxEntry::new(String::from_str(tag), String::from_str(value));
        self.lines.push(SpdxLine::Entry(entry));
        assert(self@ =~= old(self)@.push(LineView::Entry(tag@, value@)));
    }

    /// Appends the comment `comment`.
    pub fn add_comment(&mut self, comment: &str)
        ensures
            final(self)@ == old(self)@.push(LineView::Comment(comment@)),
    {
        self.lines.push(SpdxLine::Comment(String::from_str(comment)));
        assert(self@ =~= old(self)@.push(LineView::Comment(comment@)));
    }

    /// Appends a blank line.
    pub fn add_empty(&mut self)
        ensures
            final(self)@ == old(self)@.push(LineView::Empty),
    {
        self.lines.push(SpdxLine::Empty);
        assert(self@ =~= old(self)@.push(LineView::Empty));
    }

    fn value_with_tag<'a>(&self, line: &'a SpdxLine, tag: &String) -> (r: Option<&'a str>)
        ensures
            r.is_some() <==> (line@ is Entry && line@->Entry_0 == tag@),
            r.is_some() ==> r.unwrap()@ == line@->Entry_1,
    {
        if let SpdxLine::Entry(SpdxEntry { tag: found_tag, value }) = line {
            if *tag == *found_tag {
                Some(value.as_str())
            } else {
                None
            }
        } else {
            None
        }
    }

    /// The values of all entries tagged `tag`, in the order they were added.
    pub fn find<'a>(&'a self, tag: &str) -> (r: Vec<&'a str>)
        ensures
            r@.map_values(|s: &str| s@) == values_with_tag(self@, tag@),
    {
        let wanted = String::from_str(tag);
        let mut r: Vec<&'a str> = Vec::new();
        let mut i: usize = 0;
        while i < self.lines.len()
            invariant
                i <= self.lines@.len(),
                wanted@ == tag@,
                r@.map_values(|s: &str| s@) == values_with_tag(self@.take(i as int), tag@),
            decreases self.lines@.len() - i,
        {
            assert(self@.take(i + 1).drop_last() =~= self@.take(i as int));
            let found = self.value_with_tag(&self.lines[i], &wanted);
            if let Some(v) = found {
                r.push(v);
            }
            proof {
                assert(self@.take(i + 1).last() == self.lines@[i as int]@);
                assert(r@.map_values(|s: &str| s@) =~= values_with_tag(self@.take(i + 1), tag@));
            }
            i = i + 1;
        }
        assert(self@.take(self.lines@.len() as int) =~= self@);
        r
    }

    /// The section as text, one line per element.
    pub fn to_string(&self) -> (r: String)
        ensures
            r@ == section_text(self@),
    {
        let mut s = String::new();
        let mut i: usize = 0;
        while i < self.lines.len()
            invariant
                i <= self.lines@.len(),
                s@ == section_text(self@.take(i as int)),
            decreases self.lines@.len() - i,
        {
            assert(self@.take(i + 1).drop_last() =~= self@.take(i as int));
            match &self.lines[i] {
                SpdxLine::Empty => {},
                SpdxLine::Comment(comment) => {
                    s.append("# ");
                    s.append(comment.as_str());
                },
                SpdxLine::Entry(SpdxEntry { tag, value }) => {
                    s.append(tag.as_str());
                    s.append(": ");
                    s.append(value.as_str());
                },
            }
            s.append("\n");
            proof {
                assert(self@.take(i + 1).last() == self.lines@[i as int]@);
                assert(s@ =~= section_text(self@.take(i + 1)));
            }
            i = i + 1;
        }
        assert(self@.take(self.lines@.len() as int) =~= self@);
        s
    }
}

/// A document: the document-information section and the package section.
pub struct SpdxDocument {
    pub document_section: SpdxSection,
    pub package_section: SpdxSection,
}

impl Default for SpdxDocument {
    fn default() -> (r: SpdxDocument)
        ensures
            r.document_section@ == Seq::<LineView>::empty(),
            r.package_section@ == Seq::<LineView>::empty(),
    {
        SpdxDocument::new()
    }
}

impl SpdxDocument {
    /// A document with two empty sections.
    pub fn new() -> (r: SpdxDocument)
        ensures
            r.document_section@ == Seq::<LineView>::empty(),
            r.package_section@ == Seq::<LineView>::empty(),
    {
        SpdxDocument { document_section: SpdxSection::new(), package_section: SpdxSection::new() }
    }

    /// The document as text.
    pub fn to_string(&self) -> (r: String)
        ensures
            r@ == document_text(self.document_section@, self.package_section@),
    {
        let mut s = String::from_str("##### Document Information\n");
        let doc = self.document_section.to_string();
        s.append(doc.as_str());
        s.append("\n\n");
        s.append("##### Package Information\n");
        let pkg = self.package_section.to_string();
        s.append(pkg.as_str());
        s
    }
}

/// Rendering a section is appending: a line added last adds exactly its own
/// text at the end, `# text` for a comment and `tag: value` for an entry, and
/// leaves the text of the lines before it as it was.
pub proof fn lemma_render_appends(lines: Seq<LineView>, line: LineView)
    ensures
        section_text(lines.push(line)) == section_text(lines) + line_text(line),
        line matches LineView::Entry(t, v) ==> line_text(line) == t + ": "@ + v + "\n"@,
        line matches LineView::Comment(c) ==> line_text(line) == "# "@ + c + "\n"@,
{
    assert(lines.push(line).drop_last() =~= lines);
}

/// Two entries added under one tag are both found, in the order they were
/// added, after what was found before.
pub proof fn lemma_find_two_entries(lines: Seq<LineView>, tag: Seq<char>, v1: Seq<char>, v2: Seq<char>)
    ensures
        values_with_tag(lines.push(LineView::Entry(tag, v1)).push(LineView::Entry(tag, v2)), tag)
            == values_with_tag(lines, tag).push(v1).push(v2),
{
    let one = lines.push(LineView::Entry(tag, v1));
    assert(one.drop_last() =~= lines);
    assert(one.push(LineView::Entry(tag, v2)).drop_last() =~= one);
    assert(values_with_tag(one, tag) == values_with_tag(lines, tag).push(v1));
}

} // verus!
